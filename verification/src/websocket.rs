//! The wire data model of the event stream: the envelope, the closed set of
//! event variants, and the entities their payloads carry. Timestamps are
//! milliseconds since the epoch; fields that the server sends as
//! space-separated sets are vectors without repetitions.

use vstd::prelude::*;
use vstd::string::StringExecFns;

use crate::api::{Channel, ChannelType, ChannelV, User, UserRole, UserV};

verus! {

/// A reaction to a post.
pub struct Reaction {
    pub user_id: String,
    pub post_id: String,
    pub emoji_name: String,
    pub create_at: i64,
}

/// The model of a `Reaction`.
pub struct ReactionV {
    pub user_id: Seq<char>,
    pub post_id: Seq<char>,
    pub emoji_name: Seq<char>,
    pub create_at: int,
}

impl DeepView for Reaction {
    type V = ReactionV;

    open spec fn deep_view(&self) -> ReactionV {
        ReactionV {
            user_id: self.user_id@,
            post_id: self.post_id@,
            emoji_name: self.emoji_name@,
            create_at: self.create_at as int,
        }
    }
}

impl ReactionV {
    /// The values a `Reaction` can hold.
    pub open spec fn wf(self) -> bool {
        i64::MIN <= self.create_at <= i64::MAX
    }
}

/// The display name a channel mention resolves to.
pub struct ChannelInfo {
    pub display_name: String,
}

/// The model of a `ChannelInfo`.
#[verifier::ext_equal]
pub struct ChannelInfoV {
    pub display_name: Seq<char>,
}

impl DeepView for ChannelInfo {
    type V = ChannelInfoV;

    open spec fn deep_view(&self) -> ChannelInfoV {
        ChannelInfoV {
            display_name: self.display_name@,
        }
    }
}

impl ChannelInfoV {
    /// The values a `ChannelInfo` can hold.
    pub open spec fn wf(self) -> bool {
        true
    }
}

/// Per-member notification preferences.
pub struct NotifyProps {
    pub desktop: Option<String>,
    pub email: Option<String>,
    pub ignore_channel_mentions: Option<String>,
    pub mark_unread: Option<String>,
    pub push: Option<String>,
}

/// The model of a `NotifyProps`.
#[verifier::ext_equal]
pub struct NotifyPropsV {
    pub desktop: Option<Seq<char>>,
    pub email: Option<Seq<char>>,
    pub ignore_channel_mentions: Option<Seq<char>>,
    pub mark_unread: Option<Seq<char>>,
    pub push: Option<Seq<char>>,
}

impl DeepView for NotifyProps {
    type V = NotifyPropsV;

    open spec fn deep_view(&self) -> NotifyPropsV {
        NotifyPropsV {
            desktop: self.desktop.deep_view(),
            email: self.email.deep_view(),
            ignore_channel_mentions: self.ignore_channel_mentions.deep_view(),
            mark_unread: self.mark_unread.deep_view(),
            push: self.push.deep_view(),
        }
    }
}

impl NotifyPropsV {
    /// The values a `NotifyProps` can hold.
    pub open spec fn wf(self) -> bool {
        true
    }
}

/// The accounts an add-to-channel post names.
pub struct AddChannelMember {
    pub post_id: String,
    pub user_ids: Vec<String>,
    pub usernames: Vec<String>,
}

/// The model of a `AddChannelMember`.
#[verifier::ext_equal]
pub struct AddChannelMemberV {
    pub post_id: Seq<char>,
    pub user_ids: Seq<Seq<char>>,
    pub usernames: Seq<Seq<char>>,
}

impl DeepView for AddChannelMember {
    type V = AddChannelMemberV;

    open spec fn deep_view(&self) -> AddChannelMemberV {
        AddChannelMemberV {
            post_id: self.post_id@,
            user_ids: self.user_ids.deep_view(),
            usernames: self.usernames.deep_view(),
        }
    }
}

impl AddChannelMemberV {
    /// The values a `AddChannelMember` can hold.
    pub open spec fn wf(self) -> bool {
        true
    }
}

/// The free-form properties a post carries.
pub struct PostProps {
    pub override_icon_url: Option<String>,
    pub old_header: Option<String>,
    pub new_header: Option<String>,
    pub username: Option<String>,
    pub new_purpose: Option<String>,
    pub old_purpose: Option<String>,
    pub new_displayname: Option<String>,
    pub old_displayname: Option<String>,
    pub added_username: Option<String>,
    pub removed_username: Option<String>,
    pub add_channel_member: Option<AddChannelMember>,
    pub from_webhook: Option<String>,
    pub override_username: Option<String>,
    pub added_user_id: Option<String>,
    pub user_id: Option<String>,
    pub channel_mentions: Vec<(String, ChannelInfo)>,
}

/// The model of a `PostProps`.
#[verifier::ext_equal]
pub struct PostPropsV {
    pub override_icon_url: Option<Seq<char>>,
    pub old_header: Option<Seq<char>>,
    pub new_header: Option<Seq<char>>,
    pub username: Option<Seq<char>>,
    pub new_purpose: Option<Seq<char>>,
    pub old_purpose: Option<Seq<char>>,
    pub new_displayname: Option<Seq<char>>,
    pub old_displayname: Option<Seq<char>>,
    pub added_username: Option<Seq<char>>,
    pub removed_username: Option<Seq<char>>,
    pub add_channel_member: Option<AddChannelMemberV>,
    pub from_webhook: Option<Seq<char>>,
    pub override_username: Option<Seq<char>>,
    pub added_user_id: Option<Seq<char>>,
    pub user_id: Option<Seq<char>>,
    pub channel_mentions: Seq<(Seq<char>, ChannelInfoV)>,
}

impl DeepView for PostProps {
    type V = PostPropsV;

    open spec fn deep_view(&self) -> PostPropsV {
        PostPropsV {
            override_icon_url: self.override_icon_url.deep_view(),
            old_header: self.old_header.deep_view(),
            new_header: self.new_header.deep_view(),
            username: self.username.deep_view(),
            new_purpose: self.new_purpose.deep_view(),
            old_purpose: self.old_purpose.deep_view(),
            new_displayname: self.new_displayname.deep_view(),
            old_displayname: self.old_displayname.deep_view(),
            added_username: self.added_username.deep_view(),
            removed_username: self.removed_username.deep_view(),
            add_channel_member: self.add_channel_member.deep_view(),
            from_webhook: self.from_webhook.deep_view(),
            override_username: self.override_username.deep_view(),
            added_user_id: self.added_user_id.deep_view(),
            user_id: self.user_id.deep_view(),
            channel_mentions: self.channel_mentions.deep_view(),
        }
    }
}

impl PostPropsV {
    /// The values a `PostProps` can hold.
    pub open spec fn wf(self) -> bool {
        &&& (self.add_channel_member matches Some(x) ==> x.wf())
    }
}

/// A chat message as the event stream carries it.
pub struct Post {
    pub id: String,
    pub create_at: i64,
    pub update_at: i64,
    pub edit_at: i64,
    pub delete_at: i64,
    pub is_pinned: bool,
    pub user_id: String,
    pub channel_id: String,
    pub root_id: String,
    pub parent_id: String,
    pub original_id: String,
    pub message: String,
    pub type_: PostType,
    pub props: PostProps,
    pub hashtags: Vec<String>,
    pub pending_post_id: String,
    pub file_ids: Vec<String>,
    pub has_reactions: Option<bool>,
}

/// The model of a `Post`.
#[verifier::ext_equal]
pub struct PostV {
    pub id: Seq<char>,
    pub create_at: int,
    pub update_at: int,
    pub edit_at: int,
    pub delete_at: int,
    pub is_pinned: bool,
    pub user_id: Seq<char>,
    pub channel_id: Seq<char>,
    pub root_id: Seq<char>,
    pub parent_id: Seq<char>,
    pub original_id: Seq<char>,
    pub message: Seq<char>,
    pub type_: PostType,
    pub props: PostPropsV,
    pub hashtags: Seq<Seq<char>>,
    pub pending_post_id: Seq<char>,
    pub file_ids: Seq<Seq<char>>,
    pub has_reactions: Option<bool>,
}

impl DeepView for Post {
    type V = PostV;

    open spec fn deep_view(&self) -> PostV {
        PostV {
            id: self.id@,
            create_at: self.create_at as int,
            update_at: self.update_at as int,
            edit_at: self.edit_at as int,
            delete_at: self.delete_at as int,
            is_pinned: self.is_pinned,
            user_id: self.user_id@,
            channel_id: self.channel_id@,
            root_id: self.root_id@,
            parent_id: self.parent_id@,
            original_id: self.original_id@,
            message: self.message@,
            type_: self.type_,
            props: self.props.deep_view(),
            hashtags: self.hashtags.deep_view(),
            pending_post_id: self.pending_post_id@,
            file_ids: self.file_ids.deep_view(),
            has_reactions: self.has_reactions,
        }
    }
}

impl PostV {
    /// The values a `Post` can hold.
    pub open spec fn wf(self) -> bool {
        &&& i64::MIN <= self.create_at <= i64::MAX
        &&& i64::MIN <= self.update_at <= i64::MAX
        &&& i64::MIN <= self.edit_at <= i64::MAX
        &&& i64::MIN <= self.delete_at <= i64::MAX
        &&& self.props.wf()
        &&& crate::text::tokens_wf(self.hashtags)
    }
}

/// A custom emoji.
pub struct Emoji {
    pub id: String,
    pub create_at: i64,
    pub update_at: i64,
    pub delete_at: i64,
    pub creator_id: String,
    pub name: String,
}

/// The model of a `Emoji`.
#[verifier::ext_equal]
pub struct EmojiV {
    pub id: Seq<char>,
    pub create_at: int,
    pub update_at: int,
    pub delete_at: int,
    pub creator_id: Seq<char>,
    pub name: Seq<char>,
}

impl DeepView for Emoji {
    type V = EmojiV;

    open spec fn deep_view(&self) -> EmojiV {
        EmojiV {
            id: self.id@,
            create_at: self.create_at as int,
            update_at: self.update_at as int,
            delete_at: self.delete_at as int,
            creator_id: self.creator_id@,
            name: self.name@,
        }
    }
}

impl EmojiV {
    /// The values a `Emoji` can hold.
    pub open spec fn wf(self) -> bool {
        &&& i64::MIN <= self.create_at <= i64::MAX
        &&& i64::MIN <= self.update_at <= i64::MAX
        &&& i64::MIN <= self.delete_at <= i64::MAX
    }
}

/// A team.
pub struct Team {
    pub id: String,
    pub create_at: i64,
    pub update_at: i64,
    pub delete_at: i64,
    pub display_name: String,
    pub name: String,
    pub description: String,
    pub email: String,
    pub type_: ChannelType,
    pub company_name: String,
    pub allowed_domains: String,
    pub invite_id: String,
    pub allow_open_invite: bool,
    pub scheme_id: Option<String>,
    pub last_team_icon_update: Option<i64>,
}

/// The model of a `Team`.
#[verifier::ext_equal]
pub struct TeamV {
    pub id: Seq<char>,
    pub create_at: int,
    pub update_at: int,
    pub delete_at: int,
    pub display_name: Seq<char>,
    pub name: Seq<char>,
    pub description: Seq<char>,
    pub email: Seq<char>,
    pub type_: ChannelType,
    pub company_name: Seq<char>,
    pub allowed_domains: Seq<char>,
    pub invite_id: Seq<char>,
    pub allow_open_invite: bool,
    pub scheme_id: Option<Seq<char>>,
    pub last_team_icon_update: Option<int>,
}

impl DeepView for Team {
    type V = TeamV;

    open spec fn deep_view(&self) -> TeamV {
        TeamV {
            id: self.id@,
            create_at: self.create_at as int,
            update_at: self.update_at as int,
            delete_at: self.delete_at as int,
            display_name: self.display_name@,
            name: self.name@,
            description: self.description@,
            email: self.email@,
            type_: self.type_,
            company_name: self.company_name@,
            allowed_domains: self.allowed_domains@,
            invite_id: self.invite_id@,
            allow_open_invite: self.allow_open_invite,
            scheme_id: self.scheme_id.deep_view(),
            last_team_icon_update: (match self.last_team_icon_update {
                Some(n) => Some(n as int),
                None => None,
            }),
        }
    }
}

impl TeamV {
    /// The values a `Team` can hold.
    pub open spec fn wf(self) -> bool {
        &&& i64::MIN <= self.create_at <= i64::MAX
        &&& i64::MIN <= self.update_at <= i64::MAX
        &&& i64::MIN <= self.delete_at <= i64::MAX
        &&& (self.last_team_icon_update matches Some(n) ==> i64::MIN <= n <= i64::MAX)
    }
}

/// One account's membership of one channel.
pub struct ChannelMember {
    pub channel_id: String,
    pub user_id: String,
    pub roles: Vec<UserRole>,
    pub last_viewed_at: Option<i64>,
    pub msg_count: u32,
    pub mention_count: u32,
    pub notify_props: NotifyProps,
    pub last_update_at: Option<i64>,
    pub scheme_user: bool,
    pub scheme_admin: bool,
    pub explicit_roles: Vec<UserRole>,
}

/// The model of a `ChannelMember`.
#[verifier::ext_equal]
pub struct ChannelMemberV {
    pub channel_id: Seq<char>,
    pub user_id: Seq<char>,
    pub roles: Seq<UserRole>,
    pub last_viewed_at: Option<int>,
    pub msg_count: int,
    pub mention_count: int,
    pub notify_props: NotifyPropsV,
    pub last_update_at: Option<int>,
    pub scheme_user: bool,
    pub scheme_admin: bool,
    pub explicit_roles: Seq<UserRole>,
}

impl DeepView for ChannelMember {
    type V = ChannelMemberV;

    open spec fn deep_view(&self) -> ChannelMemberV {
        ChannelMemberV {
            channel_id: self.channel_id@,
            user_id: self.user_id@,
            roles: self.roles@,
            last_viewed_at: (match self.last_viewed_at {
                Some(n) => Some(n as int),
                None => None,
            }),
            msg_count: self.msg_count as int,
            mention_count: self.mention_count as int,
            notify_props: self.notify_props.deep_view(),
            last_update_at: (match self.last_update_at {
                Some(n) => Some(n as int),
                None => None,
            }),
            scheme_user: self.scheme_user,
            scheme_admin: self.scheme_admin,
            explicit_roles: self.explicit_roles@,
        }
    }
}

impl ChannelMemberV {
    /// The values a `ChannelMember` can hold.
    pub open spec fn wf(self) -> bool {
        &&& (forall|i: int, j: int| 0 <= i < j < self.roles.len() ==> self.roles[i] != self.roles[j])
        &&& (self.last_viewed_at matches Some(n) ==> i64::MIN <= n <= i64::MAX)
        &&& 0 <= self.msg_count <= u32::MAX
        &&& 0 <= self.mention_count <= u32::MAX
        &&& self.notify_props.wf()
        &&& (self.last_update_at matches Some(n) ==> i64::MIN <= n <= i64::MAX)
        &&& (forall|i: int, j: int| 0 <= i < j < self.explicit_roles.len() ==> self.explicit_roles[i] != self.explicit_roles[j])
    }
}

/// The broadcast metadata on a pushed event, including the per-recipient suppression map.
pub struct Broadcast {
    pub omit_users: Option<Vec<(String, bool)>>,
    pub user_id: String,
    pub channel_id: String,
    pub team_id: String,
}

/// The model of a `Broadcast`.
#[verifier::ext_equal]
pub struct BroadcastV {
    pub omit_users: Option<Seq<(Seq<char>, bool)>>,
    pub user_id: Seq<char>,
    pub channel_id: Seq<char>,
    pub team_id: Seq<char>,
}

impl DeepView for Broadcast {
    type V = BroadcastV;

    open spec fn deep_view(&self) -> BroadcastV {
        BroadcastV {
            omit_users: self.omit_users.deep_view(),
            user_id: self.user_id@,
            channel_id: self.channel_id@,
            team_id: self.team_id@,
        }
    }
}

impl BroadcastV {
    /// The values a `Broadcast` can hold.
    pub open spec fn wf(self) -> bool {
        true
    }
}


/// The kind of a post: a plain user message or one of the system-generated
/// kinds.
#[derive(Clone, Copy, Debug, PartialEq, Eq, Structural)]
pub enum PostType {
    UserMessage,
    SystemEphemeral,
    SystemJoinChannel,
    SystemHeaderChange,
    SystemChannelDeleted,
    SystemPurposeChange,
    SystemDisplaynameChange,
    SystemAddToChannel,
    SystemRemoveFromChannel,
    SystemJoinTeam,
    SystemRemoveFromTeam,
    SystemLeaveChannel,
}

impl PostType {
    /// The wire spelling of the kind; a plain user message is the empty
    /// string.
    pub open spec fn spec_wire_name(self) -> Seq<char> {
        match self {
            PostType::UserMessage => ""@,
            PostType::SystemEphemeral => "system_ephemeral"@,
            PostType::SystemJoinChannel => "system_join_channel"@,
            PostType::SystemHeaderChange => "system_header_change"@,
            PostType::SystemChannelDeleted => "system_channel_deleted"@,
            PostType::SystemPurposeChange => "system_purpose_change"@,
            PostType::SystemDisplaynameChange => "system_displayname_change"@,
            PostType::SystemAddToChannel => "system_add_to_channel"@,
            PostType::SystemRemoveFromChannel => "system_remove_from_channel"@,
            PostType::SystemJoinTeam => "system_join_team"@,
            PostType::SystemRemoveFromTeam => "system_remove_from_team"@,
            PostType::SystemLeaveChannel => "system_leave_channel"@,
        }
    }

    pub open spec fn spec_from_wire(s: Seq<char>) -> Option<PostType> {
        if s == ""@ {
            Some(PostType::UserMessage)
        } else if s == "system_ephemeral"@ {
            Some(PostType::SystemEphemeral)
        } else if s == "system_join_channel"@ {
            Some(PostType::SystemJoinChannel)
        } else if s == "system_header_change"@ {
            Some(PostType::SystemHeaderChange)
        } else if s == "system_channel_deleted"@ {
            Some(PostType::SystemChannelDeleted)
        } else if s == "system_purpose_change"@ {
            Some(PostType::SystemPurposeChange)
        } else if s == "system_displayname_change"@ {
            Some(PostType::SystemDisplaynameChange)
        } else if s == "system_add_to_channel"@ {
            Some(PostType::SystemAddToChannel)
        } else if s == "system_remove_from_channel"@ {
            Some(PostType::SystemRemoveFromChannel)
        } else if s == "system_join_team"@ {
            Some(PostType::SystemJoinTeam)
        } else if s == "system_remove_from_team"@ {
            Some(PostType::SystemRemoveFromTeam)
        } else if s == "system_leave_channel"@ {
            Some(PostType::SystemLeaveChannel)
        } else {
            None
        }
    }

    pub fn wire_name(&self) -> (r: String)
        ensures
            r@ == self.spec_wire_name(),
    {
        match self {
            PostType::UserMessage => String::from_str(""),
            PostType::SystemEphemeral => String::from_str("system_ephemeral"),
            PostType::SystemJoinChannel => String::from_str("system_join_channel"),
            PostType::SystemHeaderChange => String::from_str("system_header_change"),
            PostType::SystemChannelDeleted => String::from_str("system_channel_deleted"),
            PostType::SystemPurposeChange => String::from_str("system_purpose_change"),
            PostType::SystemDisplaynameChange => String::from_str("system_displayname_change"),
            PostType::SystemAddToChannel => String::from_str("system_add_to_channel"),
            PostType::SystemRemoveFromChannel => String::from_str("system_remove_from_channel"),
            PostType::SystemJoinTeam => String::from_str("system_join_team"),
            PostType::SystemRemoveFromTeam => String::from_str("system_remove_from_team"),
            PostType::SystemLeaveChannel => String::from_str("system_leave_channel"),
        }
    }

    pub fn from_wire(s: &str) -> (r: Option<PostType>)
        ensures
            r == PostType::spec_from_wire(s@),
    {
        if crate::json::str_eq(s, "") {
            Some(PostType::UserMessage)
        } else if crate::json::str_eq(s, "system_ephemeral") {
            Some(PostType::SystemEphemeral)
        } else if crate::json::str_eq(s, "system_join_channel") {
            Some(PostType::SystemJoinChannel)
        } else if crate::json::str_eq(s, "system_header_change") {
            Some(PostType::SystemHeaderChange)
        } else if crate::json::str_eq(s, "system_channel_deleted") {
            Some(PostType::SystemChannelDeleted)
        } else if crate::json::str_eq(s, "system_purpose_change") {
            Some(PostType::SystemPurposeChange)
        } else if crate::json::str_eq(s, "system_displayname_change") {
            Some(PostType::SystemDisplaynameChange)
        } else if crate::json::str_eq(s, "system_add_to_channel") {
            Some(PostType::SystemAddToChannel)
        } else if crate::json::str_eq(s, "system_remove_from_channel") {
            Some(PostType::SystemRemoveFromChannel)
        } else if crate::json::str_eq(s, "system_join_team") {
            Some(PostType::SystemJoinTeam)
        } else if crate::json::str_eq(s, "system_remove_from_team") {
            Some(PostType::SystemRemoveFromTeam)
        } else if crate::json::str_eq(s, "system_leave_channel") {
            Some(PostType::SystemLeaveChannel)
        } else {
            None
        }
    }

    /// The wire spelling parses back to the kind itself.
    #[verifier::rlimit(100)]
    pub proof fn lemma_wire_name_round_trip(self)
        ensures
            PostType::spec_from_wire(self.spec_wire_name()) == Some(self),
    {
        reveal_strlit("");
        reveal_strlit("system_ephemeral");
        reveal_strlit("system_join_channel");
        reveal_strlit("system_header_change");
        reveal_strlit("system_channel_deleted");
        reveal_strlit("system_purpose_change");
        reveal_strlit("system_displayname_change");
        reveal_strlit("system_add_to_channel");
        reveal_strlit("system_remove_from_channel");
        reveal_strlit("system_join_team");
        reveal_strlit("system_remove_from_team");
        reveal_strlit("system_leave_channel");
        assert(""@.len() == 0);
        assert("system_ephemeral"@.len() == 16);
        assert("system_join_channel"@.len() == 19);
        assert("system_header_change"@.len() == 20);
        assert("system_channel_deleted"@.len() == 22);
        assert("system_purpose_change"@.len() == 21);
        assert("system_displayname_change"@.len() == 25);
        assert("system_add_to_channel"@.len() == 21);
        assert("system_remove_from_channel"@.len() == 26);
        assert("system_join_team"@.len() == 16);
        assert("system_remove_from_team"@.len() == 23);
        assert("system_leave_channel"@.len() == 20);
        assert("system_ephemeral"@ != "system_join_team"@) by {
            assert("system_ephemeral"@[7] == 'e');
            assert("system_join_team"@[7] == 'j');
        }
        assert("system_header_change"@ != "system_leave_channel"@) by {
            assert("system_header_change"@[7] == 'h');
            assert("system_leave_channel"@[7] == 'l');
        }
        assert("system_purpose_change"@ != "system_add_to_channel"@) by {
            assert("system_purpose_change"@[7] == 'p');
            assert("system_add_to_channel"@[7] == 'a');
        }
    }
}

/// An account's presence.
#[derive(Clone, Copy, Debug, PartialEq, Eq, Structural)]
pub enum Status {
    Online,
    Away,
    DoNotDisturb,
    Offline,
}

impl Status {
    pub open spec fn spec_wire_name(self) -> Seq<char> {
        match self {
            Status::Online => "online"@,
            Status::Away => "away"@,
            Status::DoNotDisturb => "dnd"@,
            Status::Offline => "offline"@,
        }
    }

    pub open spec fn spec_from_wire(s: Seq<char>) -> Option<Status> {
        if s == "online"@ {
            Some(Status::Online)
        } else if s == "away"@ {
            Some(Status::Away)
        } else if s == "dnd"@ {
            Some(Status::DoNotDisturb)
        } else if s == "offline"@ {
            Some(Status::Offline)
        } else {
            None
        }
    }

    pub fn wire_name(&self) -> (r: String)
        ensures
            r@ == self.spec_wire_name(),
    {
        match self {
            Status::Online => String::from_str("online"),
            Status::Away => String::from_str("away"),
            Status::DoNotDisturb => String::from_str("dnd"),
            Status::Offline => String::from_str("offline"),
        }
    }

    pub fn from_wire(s: &str) -> (r: Option<Status>)
        ensures
            r == Status::spec_from_wire(s@),
    {
        if crate::json::str_eq(s, "online") {
            Some(Status::Online)
        } else if crate::json::str_eq(s, "away") {
            Some(Status::Away)
        } else if crate::json::str_eq(s, "dnd") {
            Some(Status::DoNotDisturb)
        } else if crate::json::str_eq(s, "offline") {
            Some(Status::Offline)
        } else {
            None
        }
    }

    /// The wire spelling parses back to the presence itself.
    pub proof fn lemma_wire_name_round_trip(self)
        ensures
            Status::spec_from_wire(self.spec_wire_name()) == Some(self),
    {
        reveal_strlit("online");
        reveal_strlit("away");
        reveal_strlit("dnd");
        reveal_strlit("offline");
        assert("online"@.len() == 6);
        assert("away"@.len() == 4);
        assert("dnd"@.len() == 3);
        assert("offline"@.len() == 7);
    }
}

/// The status word of a command acknowledgement.
#[derive(Clone, Copy, Debug, PartialEq, Eq, Structural)]
pub enum MessageStatus {
    Accepted,
}

/// Server settings broadcast on configuration changes, as key-value text.
pub struct Config(pub Vec<(String, String)>);

/// The model of a `Config`.
#[verifier::ext_equal]
pub struct ConfigV(pub Seq<(Seq<char>, Seq<char>)>);

impl DeepView for Config {
    type V = ConfigV;

    open spec fn deep_view(&self) -> ConfigV {
        ConfigV(self.0.deep_view())
    }
}

impl ConfigV {
    /// The values a `Config` can hold.
    pub open spec fn wf(self) -> bool {
        true
    }
}

/// One server-pushed event: a closed set of recognized kinds plus an
/// explicit variant for any tag outside it, which decodes without error
/// and carries nothing.
pub enum Events {
    Hello {
        server_version: String,
    },
    StatusChange {
        status: Status,
        user_id: String,
    },
    EphemeralMessage {
        post: Post,
    },
    Typing {
        parent_id: String,
        user_id: String,
    },
    Posted {
        channel_display_name: String,
        channel_name: String,
        channel_type: ChannelType,
        post: Post,
        sender_name: String,
        team_id: String,
        mentions: Option<Vec<String>>,
        image: Option<String>,
        other_file: Option<String>,
    },
    ReactionAdded {
        reaction: Reaction,
    },
    PostEdited {
        post: Post,
    },
    ChannelCreated {
        channel_id: String,
        team_id: String,
    },
    PreferencesChanged {
        preferences: String,
    },
    UserUpdated {
        user: User,
    },
    PostDeleted {
        post: Post,
    },
    ChannelViewed {
        channel_id: String,
    },
    PreferencesDeleted {
        preferences: String,
    },
    ChannelUpdated {
        channel: Channel,
    },
    ReactionRemoved {
        reaction: Reaction,
    },
    NewUser {
        user_id: String,
    },
    EmojiAdded {
        emoji: Emoji,
    },
    ChannelDeleted {
        channel_id: String,
        delete_at: Option<i64>,
    },
    DirectAdded {
        teammate_id: String,
    },
    UpdateTeam {
        team: Team,
    },
    UserAdded {
        team_id: String,
        user_id: String,
    },
    UserRemoved {
        remover_id: String,
        user_id: String,
    },
    LeaveTeam {
        team_id: String,
        user_id: String,
    },
    ConfigChanged {
        config: Config,
    },
    GroupAdded {
        teammate_ids: Vec<String>,
    },
    DeleteTeam {
        team: Team,
    },
    ChannelMemberUpdated {
        channel_member: ChannelMember,
    },
    Ignored,
}

/// The model of an `Events`.
#[verifier::ext_equal]
pub enum EventsV {
    Hello {
        server_version: Seq<char>,
    },
    StatusChange {
        status: Status,
        user_id: Seq<char>,
    },
    EphemeralMessage {
        post: PostV,
    },
    Typing {
        parent_id: Seq<char>,
        user_id: Seq<char>,
    },
    Posted {
        channel_display_name: Seq<char>,
        channel_name: Seq<char>,
        channel_type: ChannelType,
        post: PostV,
        sender_name: Seq<char>,
        team_id: Seq<char>,
        mentions: Option<Seq<Seq<char>>>,
        image: Option<Seq<char>>,
        other_file: Option<Seq<char>>,
    },
    ReactionAdded {
        reaction: ReactionV,
    },
    PostEdited {
        post: PostV,
    },
    ChannelCreated {
        channel_id: Seq<char>,
        team_id: Seq<char>,
    },
    PreferencesChanged {
        preferences: Seq<char>,
    },
    UserUpdated {
        user: UserV,
    },
    PostDeleted {
        post: PostV,
    },
    ChannelViewed {
        channel_id: Seq<char>,
    },
    PreferencesDeleted {
        preferences: Seq<char>,
    },
    ChannelUpdated {
        channel: ChannelV,
    },
    ReactionRemoved {
        reaction: ReactionV,
    },
    NewUser {
        user_id: Seq<char>,
    },
    EmojiAdded {
        emoji: EmojiV,
    },
    ChannelDeleted {
        channel_id: Seq<char>,
        delete_at: Option<int>,
    },
    DirectAdded {
        teammate_id: Seq<char>,
    },
    UpdateTeam {
        team: TeamV,
    },
    UserAdded {
        team_id: Seq<char>,
        user_id: Seq<char>,
    },
    UserRemoved {
        remover_id: Seq<char>,
        user_id: Seq<char>,
    },
    LeaveTeam {
        team_id: Seq<char>,
        user_id: Seq<char>,
    },
    ConfigChanged {
        config: ConfigV,
    },
    GroupAdded {
        teammate_ids: Seq<Seq<char>>,
    },
    DeleteTeam {
        team: TeamV,
    },
    ChannelMemberUpdated {
        channel_member: ChannelMemberV,
    },
    Ignored,
}

impl DeepView for Events {
    type V = EventsV;

    open spec fn deep_view(&self) -> EventsV {
        match self {
            Events::Hello { server_version } => EventsV::Hello {
                server_version: server_version@,
            },
            Events::StatusChange { status, user_id } => EventsV::StatusChange {
                status: *status,
                user_id: user_id@,
            },
            Events::EphemeralMessage { post } => EventsV::EphemeralMessage {
                post: post.deep_view(),
            },
            Events::Typing { parent_id, user_id } => EventsV::Typing {
                parent_id: parent_id@,
                user_id: user_id@,
            },
            Events::Posted { channel_display_name, channel_name, channel_type, post, sender_name, team_id, mentions, image, other_file } => EventsV::Posted {
                channel_display_name: channel_display_name@,
                channel_name: channel_name@,
                channel_type: *channel_type,
                post: post.deep_view(),
                sender_name: sender_name@,
                team_id: team_id@,
                mentions: mentions.deep_view(),
                image: image.deep_view(),
                other_file: other_file.deep_view(),
            },
            Events::ReactionAdded { reaction } => EventsV::ReactionAdded {
                reaction: reaction.deep_view(),
            },
            Events::PostEdited { post } => EventsV::PostEdited {
                post: post.deep_view(),
            },
            Events::ChannelCreated { channel_id, team_id } => EventsV::ChannelCreated {
                channel_id: channel_id@,
                team_id: team_id@,
            },
            Events::PreferencesChanged { preferences } => EventsV::PreferencesChanged {
                preferences: preferences@,
            },
            Events::UserUpdated { user } => EventsV::UserUpdated {
                user: user.deep_view(),
            },
            Events::PostDeleted { post } => EventsV::PostDeleted {
                post: post.deep_view(),
            },
            Events::ChannelViewed { channel_id } => EventsV::ChannelViewed {
                channel_id: channel_id@,
            },
            Events::PreferencesDeleted { preferences } => EventsV::PreferencesDeleted {
                preferences: preferences@,
            },
            Events::ChannelUpdated { channel } => EventsV::ChannelUpdated {
                channel: channel.deep_view(),
            },
            Events::ReactionRemoved { reaction } => EventsV::ReactionRemoved {
                reaction: reaction.deep_view(),
            },
            Events::NewUser { user_id } => EventsV::NewUser {
                user_id: user_id@,
            },
            Events::EmojiAdded { emoji } => EventsV::EmojiAdded {
                emoji: emoji.deep_view(),
            },
            Events::ChannelDeleted { channel_id, delete_at } => EventsV::ChannelDeleted {
                channel_id: channel_id@,
                delete_at: (match delete_at {
                Some(n) => Some(n as int),
                None => None,
            }),
            },
            Events::DirectAdded { teammate_id } => EventsV::DirectAdded {
                teammate_id: teammate_id@,
            },
            Events::UpdateTeam { team } => EventsV::UpdateTeam {
                team: team.deep_view(),
            },
            Events::UserAdded { team_id, user_id } => EventsV::UserAdded {
                team_id: team_id@,
                user_id: user_id@,
            },
            Events::UserRemoved { remover_id, user_id } => EventsV::UserRemoved {
                remover_id: remover_id@,
                user_id: user_id@,
            },
            Events::LeaveTeam { team_id, user_id } => EventsV::LeaveTeam {
                team_id: team_id@,
                user_id: user_id@,
            },
            Events::ConfigChanged { config } => EventsV::ConfigChanged {
                config: config.deep_view(),
            },
            Events::GroupAdded { teammate_ids } => EventsV::GroupAdded {
                teammate_ids: teammate_ids.deep_view(),
            },
            Events::DeleteTeam { team } => EventsV::DeleteTeam {
                team: team.deep_view(),
            },
            Events::ChannelMemberUpdated { channel_member } => EventsV::ChannelMemberUpdated {
                channel_member: channel_member.deep_view(),
            },
            Events::Ignored => EventsV::Ignored,
        }
    }
}

impl EventsV {
    /// The values a recognized event can hold; the catch-all variant is
    /// never re-encoded, so it is not well-formed.
    pub open spec fn wf(self) -> bool {
        match self {
            EventsV::Hello { server_version } => true,
            EventsV::StatusChange { status, user_id } => true,
            EventsV::EphemeralMessage { post } => post.wf(),
            EventsV::Typing { parent_id, user_id } => true,
            EventsV::Posted { channel_display_name, channel_name, channel_type, post, sender_name, team_id, mentions, image, other_file } => post.wf(),
            EventsV::ReactionAdded { reaction } => reaction.wf(),
            EventsV::PostEdited { post } => post.wf(),
            EventsV::ChannelCreated { channel_id, team_id } => true,
            EventsV::PreferencesChanged { preferences } => true,
            EventsV::UserUpdated { user } => user.wf(),
            EventsV::PostDeleted { post } => post.wf(),
            EventsV::ChannelViewed { channel_id } => true,
            EventsV::PreferencesDeleted { preferences } => true,
            EventsV::ChannelUpdated { channel } => channel.wf(),
            EventsV::ReactionRemoved { reaction } => reaction.wf(),
            EventsV::NewUser { user_id } => true,
            EventsV::EmojiAdded { emoji } => emoji.wf(),
            EventsV::ChannelDeleted { channel_id, delete_at } => (delete_at matches Some(n) ==> i64::MIN <= n <= i64::MAX),
            EventsV::DirectAdded { teammate_id } => true,
            EventsV::UpdateTeam { team } => team.wf(),
            EventsV::UserAdded { team_id, user_id } => true,
            EventsV::UserRemoved { remover_id, user_id } => true,
            EventsV::LeaveTeam { team_id, user_id } => true,
            EventsV::ConfigChanged { config } => config.wf(),
            EventsV::GroupAdded { teammate_ids } => true,
            EventsV::DeleteTeam { team } => team.wf(),
            EventsV::ChannelMemberUpdated { channel_member } => channel_member.wf(),
            EventsV::Ignored => false,
        }
    }
}

/// A pushed event with its broadcast metadata and sequence number.
pub struct MessagePush {
    pub event: Events,
    pub broadcast: Broadcast,
    pub seq: usize,
}

/// The model of a `MessagePush`.
#[verifier::ext_equal]
pub struct MessagePushV {
    pub event: EventsV,
    pub broadcast: BroadcastV,
    pub seq: int,
}

impl DeepView for MessagePush {
    type V = MessagePushV;

    open spec fn deep_view(&self) -> MessagePushV {
        MessagePushV {
            event: self.event.deep_view(),
            broadcast: self.broadcast.deep_view(),
            seq: self.seq as int,
        }
    }
}

impl MessagePushV {
    /// The values a `MessagePush` can hold.
    pub open spec fn wf(self) -> bool {
        &&& self.event.wf()
        &&& self.broadcast.wf()
        &&& 0 <= self.seq <= usize::MAX
        &&& self.seq <= i64::MAX
    }
}

/// The acknowledgement of a sent command: a status and the sequence number
/// it replies to. It carries no event.
pub struct MessageReply {
    pub status: MessageStatus,
    pub seq_reply: usize,
}

/// The model of a `MessageReply`.
#[verifier::ext_equal]
pub struct MessageReplyV {
    pub status: MessageStatus,
    pub seq_reply: int,
}

impl DeepView for MessageReply {
    type V = MessageReplyV;

    open spec fn deep_view(&self) -> MessageReplyV {
        MessageReplyV {
            status: self.status,
            seq_reply: self.seq_reply as int,
        }
    }
}

impl MessageReplyV {
    /// The values a `MessageReply` can hold.
    pub open spec fn wf(self) -> bool {
        &&& 0 <= self.seq_reply <= usize::MAX
        &&& self.seq_reply <= i64::MAX
    }
}

/// One inbound frame: either a pushed event or a command acknowledgement.
/// The two are told apart by shape: a push carries an `event` tag, a reply
/// carries a status and a reply-sequence number.
pub enum Message {
    Push(MessagePush),
    Reply(MessageReply),
}

/// The model of a `Message`.
#[verifier::ext_equal]
pub enum MessageV {
    Push(MessagePushV),
    Reply(MessageReplyV),
}

impl DeepView for Message {
    type V = MessageV;

    open spec fn deep_view(&self) -> MessageV {
        match self {
            Message::Push(p) => MessageV::Push(p.deep_view()),
            Message::Reply(r) => MessageV::Reply(r.deep_view()),
        }
    }
}

impl MessageV {
    /// The values a `Message` can hold.
    pub open spec fn wf(self) -> bool {
        match self {
            MessageV::Push(p) => p.wf(),
            MessageV::Reply(r) => r.wf(),
        }
    }

    /// Whether the codec can write this message back out: everything but
    /// the catch-all ignored event.
    pub open spec fn encodable(self) -> bool {
        match self {
            MessageV::Push(p) => !(p.event is Ignored),
            MessageV::Reply(_) => true,
        }
    }
}

} // verus!
