//! The event layer of the codec: the closed tag set, each variant's
//! payload shape, the envelope that tells pushes from replies, and the
//! whole-frame round trip.

use crate::api::{Channel, ChannelType, ChannelV, User, UserV};
use crate::codec::{
    decode_broadcast, decode_channel, decode_channel_member, decode_config, decode_emoji,
    decode_post, decode_reaction, decode_team, decode_user, encode_broadcast, encode_channel,
    encode_channel_member, encode_config, encode_emoji, encode_post, encode_reaction,
    encode_strlist, encode_team, encode_user, get_str, get_usize, jopt_str,
    lemma_broadcast_round_trip, lemma_channel_member_round_trip, lemma_channel_round_trip,
    lemma_config_round_trip, lemma_emoji_round_trip, lemma_post_round_trip,
    lemma_reaction_round_trip, lemma_strlist_round_trip, lemma_team_round_trip,
    lemma_user_round_trip, opt_i64, opt_str, spec_decode_broadcast,
    spec_decode_channel, spec_decode_channel_member, spec_decode_config, spec_decode_emoji,
    spec_decode_post, spec_decode_reaction, spec_decode_team, spec_decode_user,
    spec_encode_broadcast, spec_encode_channel, spec_encode_channel_member, spec_encode_config,
    spec_encode_emoji, spec_encode_post, spec_encode_reaction, spec_encode_strlist,
    spec_encode_team, spec_encode_user, spec_get_str, spec_get_usize, spec_opt_i64, spec_opt_str,
    spec_strs_of, spec_unwrap_nested, strs_of,
};
use crate::json::{obj_get, spec_fields_view, spec_jsons_view, spec_obj_get, str_eq, Json, JsonV};
use crate::websocket::{
    Broadcast, BroadcastV, ChannelMember, ChannelMemberV, Config, ConfigV, Emoji, EmojiV, Events,
    EventsV, Message, MessagePush, MessagePushV, MessageReply, MessageReplyV, MessageStatus,
    MessageV, Post, PostV, Reaction, ReactionV, Status, Team, TeamV,
};
use vstd::prelude::*;
use vstd::string::StringExecFns;

verus! {


/// The `Post` a nested-payload field holds, unwrapping the legacy double
/// encoding.
pub open spec fn spec_decode_post_nested(v: JsonV) -> Option<PostV> {
    match spec_unwrap_nested(v) {
        Some(uj) => spec_decode_post(uj),
        None => None,
    }
}

/// Decode a possibly doubly-encoded `Post`.
pub fn decode_post_nested(v: &Json) -> (r: Option<Post>)
    ensures
        r.deep_view() == spec_decode_post_nested(v@),
{
    match v {
        Json::Str(s) => match crate::json_parse::parse_json_text(s.as_str()) {
            Some(j) => decode_post(&j),
            None => None,
        },
        _ => decode_post(v),
    }
}

/// The `Reaction` a nested-payload field holds, unwrapping the legacy double
/// encoding.
pub open spec fn spec_decode_reaction_nested(v: JsonV) -> Option<ReactionV> {
    match spec_unwrap_nested(v) {
        Some(uj) => spec_decode_reaction(uj),
        None => None,
    }
}

/// Decode a possibly doubly-encoded `Reaction`.
pub fn decode_reaction_nested(v: &Json) -> (r: Option<Reaction>)
    ensures
        r.deep_view() == spec_decode_reaction_nested(v@),
{
    match v {
        Json::Str(s) => match crate::json_parse::parse_json_text(s.as_str()) {
            Some(j) => decode_reaction(&j),
            None => None,
        },
        _ => decode_reaction(v),
    }
}

/// The `Team` a nested-payload field holds, unwrapping the legacy double
/// encoding.
pub open spec fn spec_decode_team_nested(v: JsonV) -> Option<TeamV> {
    match spec_unwrap_nested(v) {
        Some(uj) => spec_decode_team(uj),
        None => None,
    }
}

/// Decode a possibly doubly-encoded `Team`.
pub fn decode_team_nested(v: &Json) -> (r: Option<Team>)
    ensures
        r.deep_view() == spec_decode_team_nested(v@),
{
    match v {
        Json::Str(s) => match crate::json_parse::parse_json_text(s.as_str()) {
            Some(j) => decode_team(&j),
            None => None,
        },
        _ => decode_team(v),
    }
}

/// The `Emoji` a nested-payload field holds, unwrapping the legacy double
/// encoding.
pub open spec fn spec_decode_emoji_nested(v: JsonV) -> Option<EmojiV> {
    match spec_unwrap_nested(v) {
        Some(uj) => spec_decode_emoji(uj),
        None => None,
    }
}

/// Decode a possibly doubly-encoded `Emoji`.
pub fn decode_emoji_nested(v: &Json) -> (r: Option<Emoji>)
    ensures
        r.deep_view() == spec_decode_emoji_nested(v@),
{
    match v {
        Json::Str(s) => match crate::json_parse::parse_json_text(s.as_str()) {
            Some(j) => decode_emoji(&j),
            None => None,
        },
        _ => decode_emoji(v),
    }
}

/// The `Channel` a nested-payload field holds, unwrapping the legacy double
/// encoding.
pub open spec fn spec_decode_channel_nested(v: JsonV) -> Option<ChannelV> {
    match spec_unwrap_nested(v) {
        Some(uj) => spec_decode_channel(uj),
        None => None,
    }
}

/// Decode a possibly doubly-encoded `Channel`.
pub fn decode_channel_nested(v: &Json) -> (r: Option<Channel>)
    ensures
        r.deep_view() == spec_decode_channel_nested(v@),
{
    match v {
        Json::Str(s) => match crate::json_parse::parse_json_text(s.as_str()) {
            Some(j) => decode_channel(&j),
            None => None,
        },
        _ => decode_channel(v),
    }
}

/// The `ChannelMember` a nested-payload field holds, unwrapping the legacy double
/// encoding.
pub open spec fn spec_decode_channel_member_nested(v: JsonV) -> Option<ChannelMemberV> {
    match spec_unwrap_nested(v) {
        Some(uj) => spec_decode_channel_member(uj),
        None => None,
    }
}

/// Decode a possibly doubly-encoded `ChannelMember`.
pub fn decode_channel_member_nested(v: &Json) -> (r: Option<ChannelMember>)
    ensures
        r.deep_view() == spec_decode_channel_member_nested(v@),
{
    match v {
        Json::Str(s) => match crate::json_parse::parse_json_text(s.as_str()) {
            Some(j) => decode_channel_member(&j),
            None => None,
        },
        _ => decode_channel_member(v),
    }
}

/// Decode a possibly doubly-encoded list of strings.
pub fn decode_strlist_nested(v: &Json) -> (r: Option<Vec<String>>)
    ensures
        (match r {
            Some(x) => (match spec_unwrap_nested(v@) {
                Some(JsonV::Arr(els)) => spec_strs_of(els) == Some(x.deep_view()),
                _ => false,
            }),
            None => (match spec_unwrap_nested(v@) {
                Some(JsonV::Arr(els)) => spec_strs_of(els) is None,
                _ => true,
            }),
        }),
{
    let uj: Option<Json> = match v {
        Json::Str(s) => crate::json_parse::parse_json_text(s.as_str()),
        Json::Null => Some(Json::Null),
        Json::Bool(b) => Some(Json::Bool(*b)),
        Json::Int(n) => Some(Json::Int(*n)),
        Json::NumText(t) => Some(Json::NumText(t.clone())),
        Json::Arr(els) => {
            proof {
                assert(spec_jsons_view(v->Arr_0@).skip(0) =~= spec_jsons_view(v->Arr_0@));
            }
            return strs_of(els, 0);
        },
        Json::Obj(_) => None,
    };
    match uj {
        Some(Json::Arr(els2)) => {
            proof {
                assert(spec_jsons_view(els2@).skip(0) =~= spec_jsons_view(els2@));
            }
            strs_of(&els2, 0)
        },
        _ => None,
    }
}

/// The two deliveries of a nested post agree: when the doubly-encoded
/// string's content parses to the very JSON value that the direct form
/// sends, both decode to the same post.
pub proof fn lemma_post_forms_agree(s: Seq<char>, j: JsonV)
    requires
        crate::json_parse::spec_parse_text(s) == Some(j),
        !(j is Str),
    ensures
        spec_decode_post_nested(JsonV::Str(s)) == spec_decode_post_nested(j),
{
    crate::codec::lemma_nested_forms_agree(s, j);
}

/// The wire tag of a recognized event.
pub open spec fn spec_events_tag(e: EventsV) -> Seq<char> {
    match e {
        EventsV::Hello { .. } => "hello"@,
        EventsV::StatusChange { .. } => "status_change"@,
        EventsV::EphemeralMessage { .. } => "ephemeral_message"@,
        EventsV::Typing { .. } => "typing"@,
        EventsV::Posted { .. } => "posted"@,
        EventsV::ReactionAdded { .. } => "reaction_added"@,
        EventsV::PostEdited { .. } => "post_edited"@,
        EventsV::ChannelCreated { .. } => "channel_created"@,
        EventsV::PreferencesChanged { .. } => "preferences_changed"@,
        EventsV::UserUpdated { .. } => "user_updated"@,
        EventsV::PostDeleted { .. } => "post_deleted"@,
        EventsV::ChannelViewed { .. } => "channel_viewed"@,
        EventsV::PreferencesDeleted { .. } => "preferences_deleted"@,
        EventsV::ChannelUpdated { .. } => "channel_updated"@,
        EventsV::ReactionRemoved { .. } => "reaction_removed"@,
        EventsV::NewUser { .. } => "new_user"@,
        EventsV::EmojiAdded { .. } => "emoji_added"@,
        EventsV::ChannelDeleted { .. } => "channel_deleted"@,
        EventsV::DirectAdded { .. } => "direct_added"@,
        EventsV::UpdateTeam { .. } => "update_team"@,
        EventsV::UserAdded { .. } => "user_added"@,
        EventsV::UserRemoved { .. } => "user_removed"@,
        EventsV::LeaveTeam { .. } => "leave_team"@,
        EventsV::ConfigChanged { .. } => "config_changed"@,
        EventsV::GroupAdded { .. } => "group_added"@,
        EventsV::DeleteTeam { .. } => "delete_team"@,
        EventsV::ChannelMemberUpdated { .. } => "channel_member_updated"@,
        EventsV::Ignored => ""@,
    }
}

/// Whether a tag is in the recognized closed set.
pub open spec fn spec_known_tag(tag: Seq<char>) -> bool {
    ||| tag == "hello"@
    ||| tag == "status_change"@
    ||| tag == "ephemeral_message"@
    ||| tag == "typing"@
    ||| tag == "posted"@
    ||| tag == "reaction_added"@
    ||| tag == "post_edited"@
    ||| tag == "channel_created"@
    ||| tag == "preferences_changed"@
    ||| tag == "user_updated"@
    ||| tag == "post_deleted"@
    ||| tag == "channel_viewed"@
    ||| tag == "preferences_deleted"@
    ||| tag == "channel_updated"@
    ||| tag == "reaction_removed"@
    ||| tag == "new_user"@
    ||| tag == "emoji_added"@
    ||| tag == "channel_deleted"@
    ||| tag == "direct_added"@
    ||| tag == "update_team"@
    ||| tag == "user_added"@
    ||| tag == "user_removed"@
    ||| tag == "leave_team"@
    ||| tag == "config_changed"@
    ||| tag == "group_added"@
    ||| tag == "delete_team"@
    ||| tag == "channel_member_updated"@
}

/// The payload shape of a `hello` event.
#[verifier::opaque]
pub open spec fn spec_decode_ev_hello(data: Option<JsonV>) -> Option<EventsV> {
    match data {
        Some(JsonV::Obj(d)) => {
            let server_version = spec_get_str(d, "server_version"@);
            if server_version is Some {
                Some(
                    EventsV::Hello {
                        server_version: server_version->0,
                    },
                )
            } else {
                None
            }
        },
        _ => None,
    }
}

fn decode_ev_hello(data: Option<&Json>) -> (r: Option<Events>)
    ensures
        r.deep_view() == spec_decode_ev_hello(
            (match data {
                Some(j) => Some(j@),
                None => None,
            }),
        ),
{
    proof {
        reveal(spec_decode_ev_hello);
    }
    match data {
        Some(Json::Obj(d)) => {
            let x_server_version = get_str(d, "server_version");
            if x_server_version.is_none() {
                return None;
            }
            Some(
                Events::Hello {
                    server_version: x_server_version.unwrap(),
                },
            )
        },
        _ => None,
    }
}

proof fn lemma_events_dispatch_hello(data: Option<JsonV>)
    ensures
        spec_decode_events("hello"@, data) == spec_decode_ev_hello(data),
{
    reveal_strlit("hello");
    assert("hello"@.len() == 5);
}

/// The payload shape of a `status_change` event.
#[verifier::opaque]
pub open spec fn spec_decode_ev_status_change(data: Option<JsonV>) -> Option<EventsV> {
    match data {
        Some(JsonV::Obj(d)) => {
            let status = (match spec_get_str(d, "status"@) {
                Some(s) => Status::spec_from_wire(s),
                None => None,
            });
            let user_id = spec_get_str(d, "user_id"@);
            if status is Some && user_id is Some {
                Some(
                    EventsV::StatusChange {
                        status: status->0,
                        user_id: user_id->0,
                    },
                )
            } else {
                None
            }
        },
        _ => None,
    }
}

fn decode_ev_status_change(data: Option<&Json>) -> (r: Option<Events>)
    ensures
        r.deep_view() == spec_decode_ev_status_change(
            (match data {
                Some(j) => Some(j@),
                None => None,
            }),
        ),
{
    proof {
        reveal(spec_decode_ev_status_change);
    }
    match data {
        Some(Json::Obj(d)) => {
            let x_status = match get_str(d, "status") {
            Some(s) => Status::from_wire(s.as_str()),
            None => None,
        };
            let x_user_id = get_str(d, "user_id");
            if x_status.is_none() {
                return None;
            }
            if x_user_id.is_none() {
                return None;
            }
            Some(
                Events::StatusChange {
                    status: x_status.unwrap(),
                    user_id: x_user_id.unwrap(),
                },
            )
        },
        _ => None,
    }
}

proof fn lemma_events_dispatch_status_change(data: Option<JsonV>)
    ensures
        spec_decode_events("status_change"@, data) == spec_decode_ev_status_change(data),
{
    reveal_strlit("hello");
    reveal_strlit("status_change");
    assert("hello"@.len() == 5);
    assert("status_change"@.len() == 13);
}

/// The payload shape of a `ephemeral_message` event.
#[verifier::opaque]
pub open spec fn spec_decode_ev_ephemeral_message(data: Option<JsonV>) -> Option<EventsV> {
    match data {
        Some(JsonV::Obj(d)) => {
            let post = (match spec_obj_get(d, "post"@) {
                Some(pv) => spec_decode_post_nested(pv),
                None => None,
            });
            if post is Some {
                Some(
                    EventsV::EphemeralMessage {
                        post: post->0,
                    },
                )
            } else {
                None
            }
        },
        _ => None,
    }
}

fn decode_ev_ephemeral_message(data: Option<&Json>) -> (r: Option<Events>)
    ensures
        r.deep_view() == spec_decode_ev_ephemeral_message(
            (match data {
                Some(j) => Some(j@),
                None => None,
            }),
        ),
{
    proof {
        reveal(spec_decode_ev_ephemeral_message);
    }
    match data {
        Some(Json::Obj(d)) => {
            let x_post = match obj_get(d, "post") {
            Some(pv) => decode_post_nested(pv),
            None => None,
        };
            if x_post.is_none() {
                return None;
            }
            Some(
                Events::EphemeralMessage {
                    post: x_post.unwrap(),
                },
            )
        },
        _ => None,
    }
}

proof fn lemma_events_dispatch_ephemeral_message(data: Option<JsonV>)
    ensures
        spec_decode_events("ephemeral_message"@, data) == spec_decode_ev_ephemeral_message(data),
{
    reveal_strlit("hello");
    reveal_strlit("status_change");
    reveal_strlit("ephemeral_message");
    assert("hello"@.len() == 5);
    assert("status_change"@.len() == 13);
    assert("ephemeral_message"@.len() == 17);
}

/// The payload shape of a `typing` event.
#[verifier::opaque]
pub open spec fn spec_decode_ev_typing(data: Option<JsonV>) -> Option<EventsV> {
    match data {
        Some(JsonV::Obj(d)) => {
            let parent_id = spec_get_str(d, "parent_id"@);
            let user_id = spec_get_str(d, "user_id"@);
            if parent_id is Some && user_id is Some {
                Some(
                    EventsV::Typing {
                        parent_id: parent_id->0,
                        user_id: user_id->0,
                    },
                )
            } else {
                None
            }
        },
        _ => None,
    }
}

fn decode_ev_typing(data: Option<&Json>) -> (r: Option<Events>)
    ensures
        r.deep_view() == spec_decode_ev_typing(
            (match data {
                Some(j) => Some(j@),
                None => None,
            }),
        ),
{
    proof {
        reveal(spec_decode_ev_typing);
    }
    match data {
        Some(Json::Obj(d)) => {
            let x_parent_id = get_str(d, "parent_id");
            let x_user_id = get_str(d, "user_id");
            if x_parent_id.is_none() {
                return None;
            }
            if x_user_id.is_none() {
                return None;
            }
            Some(
                Events::Typing {
                    parent_id: x_parent_id.unwrap(),
                    user_id: x_user_id.unwrap(),
                },
            )
        },
        _ => None,
    }
}

proof fn lemma_events_dispatch_typing(data: Option<JsonV>)
    ensures
        spec_decode_events("typing"@, data) == spec_decode_ev_typing(data),
{
    reveal_strlit("hello");
    reveal_strlit("status_change");
    reveal_strlit("ephemeral_message");
    reveal_strlit("typing");
    assert("hello"@.len() == 5);
    assert("status_change"@.len() == 13);
    assert("ephemeral_message"@.len() == 17);
    assert("typing"@.len() == 6);
}

/// The payload shape of a `posted` event.
#[verifier::opaque]
pub open spec fn spec_decode_ev_posted(data: Option<JsonV>) -> Option<EventsV> {
    match data {
        Some(JsonV::Obj(d)) => {
            let channel_display_name = spec_get_str(d, "channel_display_name"@);
            let channel_name = spec_get_str(d, "channel_name"@);
            let channel_type = (match spec_get_str(d, "channel_type"@) {
                Some(s) => ChannelType::spec_from_wire(s),
                None => None,
            });
            let post = (match spec_obj_get(d, "post"@) {
                Some(pv) => spec_decode_post_nested(pv),
                None => None,
            });
            let sender_name = spec_get_str(d, "sender_name"@);
            let team_id = spec_get_str(d, "team_id"@);
            let mentions = (match spec_obj_get(d, "mentions"@) {
                None => Some(None),
                Some(JsonV::Null) => Some(None),
                Some(pv) => match spec_unwrap_nested(pv) {
                    Some(JsonV::Arr(els)) => match spec_strs_of(els) {
                        Some(x) => Some(Some(x)),
                        None => None,
                    },
                    _ => None,
                },
            });
            let image = spec_opt_str(d, "image"@);
            let other_file = spec_opt_str(d, "otherFile"@);
            if channel_display_name is Some && channel_name is Some && channel_type is Some && post is Some && sender_name is Some && team_id is Some && mentions is Some && image is Some && other_file is Some {
                Some(
                    EventsV::Posted {
                        channel_display_name: channel_display_name->0,
                        channel_name: channel_name->0,
                        channel_type: channel_type->0,
                        post: post->0,
                        sender_name: sender_name->0,
                        team_id: team_id->0,
                        mentions: mentions->0,
                        image: image->0,
                        other_file: other_file->0,
                    },
                )
            } else {
                None
            }
        },
        _ => None,
    }
}

fn decode_ev_posted(data: Option<&Json>) -> (r: Option<Events>)
    ensures
        r.deep_view() == spec_decode_ev_posted(
            (match data {
                Some(j) => Some(j@),
                None => None,
            }),
        ),
{
    proof {
        reveal(spec_decode_ev_posted);
    }
    match data {
        Some(Json::Obj(d)) => {
            let x_channel_display_name = get_str(d, "channel_display_name");
            let x_channel_name = get_str(d, "channel_name");
            let x_channel_type = match get_str(d, "channel_type") {
            Some(s) => ChannelType::from_wire(s.as_str()),
            None => None,
        };
            let x_post = match obj_get(d, "post") {
            Some(pv) => decode_post_nested(pv),
            None => None,
        };
            let x_sender_name = get_str(d, "sender_name");
            let x_team_id = get_str(d, "team_id");
            let x_mentions = match obj_get(d, "mentions") {
            None => Some(None),
            Some(Json::Null) => Some(None),
            Some(pv) => match decode_strlist_nested(pv) {
                Some(x) => Some(Some(x)),
                None => None,
            },
        };
            let x_image = opt_str(d, "image");
            let x_other_file = opt_str(d, "otherFile");
            if x_channel_display_name.is_none() {
                return None;
            }
            if x_channel_name.is_none() {
                return None;
            }
            if x_channel_type.is_none() {
                return None;
            }
            if x_post.is_none() {
                return None;
            }
            if x_sender_name.is_none() {
                return None;
            }
            if x_team_id.is_none() {
                return None;
            }
            if x_mentions.is_none() {
                return None;
            }
            if x_image.is_none() {
                return None;
            }
            if x_other_file.is_none() {
                return None;
            }
            Some(
                Events::Posted {
                    channel_display_name: x_channel_display_name.unwrap(),
                    channel_name: x_channel_name.unwrap(),
                    channel_type: x_channel_type.unwrap(),
                    post: x_post.unwrap(),
                    sender_name: x_sender_name.unwrap(),
                    team_id: x_team_id.unwrap(),
                    mentions: x_mentions.unwrap(),
                    image: x_image.unwrap(),
                    other_file: x_other_file.unwrap(),
                },
            )
        },
        _ => None,
    }
}

proof fn lemma_events_dispatch_posted(data: Option<JsonV>)
    ensures
        spec_decode_events("posted"@, data) == spec_decode_ev_posted(data),
{
    reveal_strlit("hello");
    reveal_strlit("status_change");
    reveal_strlit("ephemeral_message");
    reveal_strlit("typing");
    reveal_strlit("posted");
    assert("hello"@.len() == 5);
    assert("status_change"@.len() == 13);
    assert("ephemeral_message"@.len() == 17);
    assert("typing"@.len() == 6);
    assert("posted"@.len() == 6);
    assert("posted"@ != "typing"@) by {
        assert("posted"@[0] == 'p');
        assert("typing"@[0] == 't');
    }
}

/// The payload shape of a `reaction_added` event.
#[verifier::opaque]
pub open spec fn spec_decode_ev_reaction_added(data: Option<JsonV>) -> Option<EventsV> {
    match data {
        Some(JsonV::Obj(d)) => {
            let reaction = (match spec_obj_get(d, "reaction"@) {
                Some(pv) => spec_decode_reaction_nested(pv),
                None => None,
            });
            if reaction is Some {
                Some(
                    EventsV::ReactionAdded {
                        reaction: reaction->0,
                    },
                )
            } else {
                None
            }
        },
        _ => None,
    }
}

fn decode_ev_reaction_added(data: Option<&Json>) -> (r: Option<Events>)
    ensures
        r.deep_view() == spec_decode_ev_reaction_added(
            (match data {
                Some(j) => Some(j@),
                None => None,
            }),
        ),
{
    proof {
        reveal(spec_decode_ev_reaction_added);
    }
    match data {
        Some(Json::Obj(d)) => {
            let x_reaction = match obj_get(d, "reaction") {
            Some(pv) => decode_reaction_nested(pv),
            None => None,
        };
            if x_reaction.is_none() {
                return None;
            }
            Some(
                Events::ReactionAdded {
                    reaction: x_reaction.unwrap(),
                },
            )
        },
        _ => None,
    }
}

proof fn lemma_events_dispatch_reaction_added(data: Option<JsonV>)
    ensures
        spec_decode_events("reaction_added"@, data) == spec_decode_ev_reaction_added(data),
{
    reveal_strlit("hello");
    reveal_strlit("status_change");
    reveal_strlit("ephemeral_message");
    reveal_strlit("typing");
    reveal_strlit("posted");
    reveal_strlit("reaction_added");
    assert("hello"@.len() == 5);
    assert("status_change"@.len() == 13);
    assert("ephemeral_message"@.len() == 17);
    assert("typing"@.len() == 6);
    assert("posted"@.len() == 6);
    assert("reaction_added"@.len() == 14);
}

/// The payload shape of a `post_edited` event.
#[verifier::opaque]
pub open spec fn spec_decode_ev_post_edited(data: Option<JsonV>) -> Option<EventsV> {
    match data {
        Some(JsonV::Obj(d)) => {
            let post = (match spec_obj_get(d, "post"@) {
                Some(pv) => spec_decode_post_nested(pv),
                None => None,
            });
            if post is Some {
                Some(
                    EventsV::PostEdited {
                        post: post->0,
                    },
                )
            } else {
                None
            }
        },
        _ => None,
    }
}

fn decode_ev_post_edited(data: Option<&Json>) -> (r: Option<Events>)
    ensures
        r.deep_view() == spec_decode_ev_post_edited(
            (match data {
                Some(j) => Some(j@),
                None => None,
            }),
        ),
{
    proof {
        reveal(spec_decode_ev_post_edited);
    }
    match data {
        Some(Json::Obj(d)) => {
            let x_post = match obj_get(d, "post") {
            Some(pv) => decode_post_nested(pv),
            None => None,
        };
            if x_post.is_none() {
                return None;
            }
            Some(
                Events::PostEdited {
                    post: x_post.unwrap(),
                },
            )
        },
        _ => None,
    }
}

proof fn lemma_events_dispatch_post_edited(data: Option<JsonV>)
    ensures
        spec_decode_events("post_edited"@, data) == spec_decode_ev_post_edited(data),
{
    reveal_strlit("hello");
    reveal_strlit("status_change");
    reveal_strlit("ephemeral_message");
    reveal_strlit("typing");
    reveal_strlit("posted");
    reveal_strlit("reaction_added");
    reveal_strlit("post_edited");
    assert("hello"@.len() == 5);
    assert("status_change"@.len() == 13);
    assert("ephemeral_message"@.len() == 17);
    assert("typing"@.len() == 6);
    assert("posted"@.len() == 6);
    assert("reaction_added"@.len() == 14);
    assert("post_edited"@.len() == 11);
}

/// The payload shape of a `channel_created` event.
#[verifier::opaque]
pub open spec fn spec_decode_ev_channel_created(data: Option<JsonV>) -> Option<EventsV> {
    match data {
        Some(JsonV::Obj(d)) => {
            let channel_id = spec_get_str(d, "channel_id"@);
            let team_id = spec_get_str(d, "team_id"@);
            if channel_id is Some && team_id is Some {
                Some(
                    EventsV::ChannelCreated {
                        channel_id: channel_id->0,
                        team_id: team_id->0,
                    },
                )
            } else {
                None
            }
        },
        _ => None,
    }
}

fn decode_ev_channel_created(data: Option<&Json>) -> (r: Option<Events>)
    ensures
        r.deep_view() == spec_decode_ev_channel_created(
            (match data {
                Some(j) => Some(j@),
                None => None,
            }),
        ),
{
    proof {
        reveal(spec_decode_ev_channel_created);
    }
    match data {
        Some(Json::Obj(d)) => {
            let x_channel_id = get_str(d, "channel_id");
            let x_team_id = get_str(d, "team_id");
            if x_channel_id.is_none() {
                return None;
            }
            if x_team_id.is_none() {
                return None;
            }
            Some(
                Events::ChannelCreated {
                    channel_id: x_channel_id.unwrap(),
                    team_id: x_team_id.unwrap(),
                },
            )
        },
        _ => None,
    }
}

proof fn lemma_events_dispatch_channel_created(data: Option<JsonV>)
    ensures
        spec_decode_events("channel_created"@, data) == spec_decode_ev_channel_created(data),
{
    reveal_strlit("hello");
    reveal_strlit("status_change");
    reveal_strlit("ephemeral_message");
    reveal_strlit("typing");
    reveal_strlit("posted");
    reveal_strlit("reaction_added");
    reveal_strlit("post_edited");
    reveal_strlit("channel_created");
    assert("hello"@.len() == 5);
    assert("status_change"@.len() == 13);
    assert("ephemeral_message"@.len() == 17);
    assert("typing"@.len() == 6);
    assert("posted"@.len() == 6);
    assert("reaction_added"@.len() == 14);
    assert("post_edited"@.len() == 11);
    assert("channel_created"@.len() == 15);
}

/// The payload shape of a `preferences_changed` event.
#[verifier::opaque]
pub open spec fn spec_decode_ev_preferences_changed(data: Option<JsonV>) -> Option<EventsV> {
    match data {
        Some(JsonV::Obj(d)) => {
            let preferences = spec_get_str(d, "preferences"@);
            if preferences is Some {
                Some(
                    EventsV::PreferencesChanged {
                        preferences: preferences->0,
                    },
                )
            } else {
                None
            }
        },
        _ => None,
    }
}

fn decode_ev_preferences_changed(data: Option<&Json>) -> (r: Option<Events>)
    ensures
        r.deep_view() == spec_decode_ev_preferences_changed(
            (match data {
                Some(j) => Some(j@),
                None => None,
            }),
        ),
{
    proof {
        reveal(spec_decode_ev_preferences_changed);
    }
    match data {
        Some(Json::Obj(d)) => {
            let x_preferences = get_str(d, "preferences");
            if x_preferences.is_none() {
                return None;
            }
            Some(
                Events::PreferencesChanged {
                    preferences: x_preferences.unwrap(),
                },
            )
        },
        _ => None,
    }
}

proof fn lemma_events_dispatch_preferences_changed(data: Option<JsonV>)
    ensures
        spec_decode_events("preferences_changed"@, data) == spec_decode_ev_preferences_changed(data),
{
    reveal_strlit("hello");
    reveal_strlit("status_change");
    reveal_strlit("ephemeral_message");
    reveal_strlit("typing");
    reveal_strlit("posted");
    reveal_strlit("reaction_added");
    reveal_strlit("post_edited");
    reveal_strlit("channel_created");
    reveal_strlit("preferences_changed");
    assert("hello"@.len() == 5);
    assert("status_change"@.len() == 13);
    assert("ephemeral_message"@.len() == 17);
    assert("typing"@.len() == 6);
    assert("posted"@.len() == 6);
    assert("reaction_added"@.len() == 14);
    assert("post_edited"@.len() == 11);
    assert("channel_created"@.len() == 15);
    assert("preferences_changed"@.len() == 19);
}

/// The payload shape of a `user_updated` event.
#[verifier::opaque]
pub open spec fn spec_decode_ev_user_updated(data: Option<JsonV>) -> Option<EventsV> {
    match data {
        Some(JsonV::Obj(d)) => {
            let user = (match spec_obj_get(d, "user"@) {
                Some(pv) => spec_decode_user(pv),
                None => None,
            });
            if user is Some {
                Some(
                    EventsV::UserUpdated {
                        user: user->0,
                    },
                )
            } else {
                None
            }
        },
        _ => None,
    }
}

fn decode_ev_user_updated(data: Option<&Json>) -> (r: Option<Events>)
    ensures
        r.deep_view() == spec_decode_ev_user_updated(
            (match data {
                Some(j) => Some(j@),
                None => None,
            }),
        ),
{
    proof {
        reveal(spec_decode_ev_user_updated);
    }
    match data {
        Some(Json::Obj(d)) => {
            let x_user = match obj_get(d, "user") {
            Some(pv) => decode_user(pv),
            None => None,
        };
            if x_user.is_none() {
                return None;
            }
            Some(
                Events::UserUpdated {
                    user: x_user.unwrap(),
                },
            )
        },
        _ => None,
    }
}

proof fn lemma_events_dispatch_user_updated(data: Option<JsonV>)
    ensures
        spec_decode_events("user_updated"@, data) == spec_decode_ev_user_updated(data),
{
    reveal_strlit("hello");
    reveal_strlit("status_change");
    reveal_strlit("ephemeral_message");
    reveal_strlit("typing");
    reveal_strlit("posted");
    reveal_strlit("reaction_added");
    reveal_strlit("post_edited");
    reveal_strlit("channel_created");
    reveal_strlit("preferences_changed");
    reveal_strlit("user_updated");
    assert("hello"@.len() == 5);
    assert("status_change"@.len() == 13);
    assert("ephemeral_message"@.len() == 17);
    assert("typing"@.len() == 6);
    assert("posted"@.len() == 6);
    assert("reaction_added"@.len() == 14);
    assert("post_edited"@.len() == 11);
    assert("channel_created"@.len() == 15);
    assert("preferences_changed"@.len() == 19);
    assert("user_updated"@.len() == 12);
}

/// The payload shape of a `post_deleted` event.
#[verifier::opaque]
pub open spec fn spec_decode_ev_post_deleted(data: Option<JsonV>) -> Option<EventsV> {
    match data {
        Some(JsonV::Obj(d)) => {
            let post = (match spec_obj_get(d, "post"@) {
                Some(pv) => spec_decode_post_nested(pv),
                None => None,
            });
            if post is Some {
                Some(
                    EventsV::PostDeleted {
                        post: post->0,
                    },
                )
            } else {
                None
            }
        },
        _ => None,
    }
}

fn decode_ev_post_deleted(data: Option<&Json>) -> (r: Option<Events>)
    ensures
        r.deep_view() == spec_decode_ev_post_deleted(
            (match data {
                Some(j) => Some(j@),
                None => None,
            }),
        ),
{
    proof {
        reveal(spec_decode_ev_post_deleted);
    }
    match data {
        Some(Json::Obj(d)) => {
            let x_post = match obj_get(d, "post") {
            Some(pv) => decode_post_nested(pv),
            None => None,
        };
            if x_post.is_none() {
                return None;
            }
            Some(
                Events::PostDeleted {
                    post: x_post.unwrap(),
                },
            )
        },
        _ => None,
    }
}

proof fn lemma_events_dispatch_post_deleted(data: Option<JsonV>)
    ensures
        spec_decode_events("post_deleted"@, data) == spec_decode_ev_post_deleted(data),
{
    reveal_strlit("hello");
    reveal_strlit("status_change");
    reveal_strlit("ephemeral_message");
    reveal_strlit("typing");
    reveal_strlit("posted");
    reveal_strlit("reaction_added");
    reveal_strlit("post_edited");
    reveal_strlit("channel_created");
    reveal_strlit("preferences_changed");
    reveal_strlit("user_updated");
    reveal_strlit("post_deleted");
    assert("hello"@.len() == 5);
    assert("status_change"@.len() == 13);
    assert("ephemeral_message"@.len() == 17);
    assert("typing"@.len() == 6);
    assert("posted"@.len() == 6);
    assert("reaction_added"@.len() == 14);
    assert("post_edited"@.len() == 11);
    assert("channel_created"@.len() == 15);
    assert("preferences_changed"@.len() == 19);
    assert("user_updated"@.len() == 12);
    assert("post_deleted"@.len() == 12);
    assert("post_deleted"@ != "user_updated"@) by {
        assert("post_deleted"@[0] == 'p');
        assert("user_updated"@[0] == 'u');
    }
}

/// The payload shape of a `channel_viewed` event.
#[verifier::opaque]
pub open spec fn spec_decode_ev_channel_viewed(data: Option<JsonV>) -> Option<EventsV> {
    match data {
        Some(JsonV::Obj(d)) => {
            let channel_id = spec_get_str(d, "channel_id"@);
            if channel_id is Some {
                Some(
                    EventsV::ChannelViewed {
                        channel_id: channel_id->0,
                    },
                )
            } else {
                None
            }
        },
        _ => None,
    }
}

fn decode_ev_channel_viewed(data: Option<&Json>) -> (r: Option<Events>)
    ensures
        r.deep_view() == spec_decode_ev_channel_viewed(
            (match data {
                Some(j) => Some(j@),
                None => None,
            }),
        ),
{
    proof {
        reveal(spec_decode_ev_channel_viewed);
    }
    match data {
        Some(Json::Obj(d)) => {
            let x_channel_id = get_str(d, "channel_id");
            if x_channel_id.is_none() {
                return None;
            }
            Some(
                Events::ChannelViewed {
                    channel_id: x_channel_id.unwrap(),
                },
            )
        },
        _ => None,
    }
}

proof fn lemma_events_dispatch_channel_viewed(data: Option<JsonV>)
    ensures
        spec_decode_events("channel_viewed"@, data) == spec_decode_ev_channel_viewed(data),
{
    reveal_strlit("hello");
    reveal_strlit("status_change");
    reveal_strlit("ephemeral_message");
    reveal_strlit("typing");
    reveal_strlit("posted");
    reveal_strlit("reaction_added");
    reveal_strlit("post_edited");
    reveal_strlit("channel_created");
    reveal_strlit("preferences_changed");
    reveal_strlit("user_updated");
    reveal_strlit("post_deleted");
    reveal_strlit("channel_viewed");
    assert("hello"@.len() == 5);
    assert("status_change"@.len() == 13);
    assert("ephemeral_message"@.len() == 17);
    assert("typing"@.len() == 6);
    assert("posted"@.len() == 6);
    assert("reaction_added"@.len() == 14);
    assert("post_edited"@.len() == 11);
    assert("channel_created"@.len() == 15);
    assert("preferences_changed"@.len() == 19);
    assert("user_updated"@.len() == 12);
    assert("post_deleted"@.len() == 12);
    assert("channel_viewed"@.len() == 14);
    assert("channel_viewed"@ != "reaction_added"@) by {
        assert("channel_viewed"@[0] == 'c');
        assert("reaction_added"@[0] == 'r');
    }
}

/// The payload shape of a `preferences_deleted` event.
#[verifier::opaque]
pub open spec fn spec_decode_ev_preferences_deleted(data: Option<JsonV>) -> Option<EventsV> {
    match data {
        Some(JsonV::Obj(d)) => {
            let preferences = spec_get_str(d, "preferences"@);
            if preferences is Some {
                Some(
                    EventsV::PreferencesDeleted {
                        preferences: preferences->0,
                    },
                )
            } else {
                None
            }
        },
        _ => None,
    }
}

fn decode_ev_preferences_deleted(data: Option<&Json>) -> (r: Option<Events>)
    ensures
        r.deep_view() == spec_decode_ev_preferences_deleted(
            (match data {
                Some(j) => Some(j@),
                None => None,
            }),
        ),
{
    proof {
        reveal(spec_decode_ev_preferences_deleted);
    }
    match data {
        Some(Json::Obj(d)) => {
            let x_preferences = get_str(d, "preferences");
            if x_preferences.is_none() {
                return None;
            }
            Some(
                Events::PreferencesDeleted {
                    preferences: x_preferences.unwrap(),
                },
            )
        },
        _ => None,
    }
}

proof fn lemma_events_dispatch_preferences_deleted(data: Option<JsonV>)
    ensures
        spec_decode_events("preferences_deleted"@, data) == spec_decode_ev_preferences_deleted(data),
{
    reveal_strlit("hello");
    reveal_strlit("status_change");
    reveal_strlit("ephemeral_message");
    reveal_strlit("typing");
    reveal_strlit("posted");
    reveal_strlit("reaction_added");
    reveal_strlit("post_edited");
    reveal_strlit("channel_created");
    reveal_strlit("preferences_changed");
    reveal_strlit("user_updated");
    reveal_strlit("post_deleted");
    reveal_strlit("channel_viewed");
    reveal_strlit("preferences_deleted");
    assert("hello"@.len() == 5);
    assert("status_change"@.len() == 13);
    assert("ephemeral_message"@.len() == 17);
    assert("typing"@.len() == 6);
    assert("posted"@.len() == 6);
    assert("reaction_added"@.len() == 14);
    assert("post_edited"@.len() == 11);
    assert("channel_created"@.len() == 15);
    assert("preferences_changed"@.len() == 19);
    assert("user_updated"@.len() == 12);
    assert("post_deleted"@.len() == 12);
    assert("channel_viewed"@.len() == 14);
    assert("preferences_deleted"@.len() == 19);
    assert("preferences_deleted"@ != "preferences_changed"@) by {
        assert("preferences_deleted"@[12] == 'd');
        assert("preferences_changed"@[12] == 'c');
    }
}

/// The payload shape of a `channel_updated` event.
#[verifier::opaque]
pub open spec fn spec_decode_ev_channel_updated(data: Option<JsonV>) -> Option<EventsV> {
    match data {
        Some(JsonV::Obj(d)) => {
            let channel = (match spec_obj_get(d, "channel"@) {
                Some(pv) => spec_decode_channel_nested(pv),
                None => None,
            });
            if channel is Some {
                Some(
                    EventsV::ChannelUpdated {
                        channel: channel->0,
                    },
                )
            } else {
                None
            }
        },
        _ => None,
    }
}

fn decode_ev_channel_updated(data: Option<&Json>) -> (r: Option<Events>)
    ensures
        r.deep_view() == spec_decode_ev_channel_updated(
            (match data {
                Some(j) => Some(j@),
                None => None,
            }),
        ),
{
    proof {
        reveal(spec_decode_ev_channel_updated);
    }
    match data {
        Some(Json::Obj(d)) => {
            let x_channel = match obj_get(d, "channel") {
            Some(pv) => decode_channel_nested(pv),
            None => None,
        };
            if x_channel.is_none() {
                return None;
            }
            Some(
                Events::ChannelUpdated {
                    channel: x_channel.unwrap(),
                },
            )
        },
        _ => None,
    }
}

proof fn lemma_events_dispatch_channel_updated(data: Option<JsonV>)
    ensures
        spec_decode_events("channel_updated"@, data) == spec_decode_ev_channel_updated(data),
{
    reveal_strlit("hello");
    reveal_strlit("status_change");
    reveal_strlit("ephemeral_message");
    reveal_strlit("typing");
    reveal_strlit("posted");
    reveal_strlit("reaction_added");
    reveal_strlit("post_edited");
    reveal_strlit("channel_created");
    reveal_strlit("preferences_changed");
    reveal_strlit("user_updated");
    reveal_strlit("post_deleted");
    reveal_strlit("channel_viewed");
    reveal_strlit("preferences_deleted");
    reveal_strlit("channel_updated");
    assert("hello"@.len() == 5);
    assert("status_change"@.len() == 13);
    assert("ephemeral_message"@.len() == 17);
    assert("typing"@.len() == 6);
    assert("posted"@.len() == 6);
    assert("reaction_added"@.len() == 14);
    assert("post_edited"@.len() == 11);
    assert("channel_created"@.len() == 15);
    assert("preferences_changed"@.len() == 19);
    assert("user_updated"@.len() == 12);
    assert("post_deleted"@.len() == 12);
    assert("channel_viewed"@.len() == 14);
    assert("preferences_deleted"@.len() == 19);
    assert("channel_updated"@.len() == 15);
    assert("channel_updated"@ != "channel_created"@) by {
        assert("channel_updated"@[8] == 'u');
        assert("channel_created"@[8] == 'c');
    }
}

/// The payload shape of a `reaction_removed` event.
#[verifier::opaque]
pub open spec fn spec_decode_ev_reaction_removed(data: Option<JsonV>) -> Option<EventsV> {
    match data {
        Some(JsonV::Obj(d)) => {
            let reaction = (match spec_obj_get(d, "reaction"@) {
                Some(pv) => spec_decode_reaction_nested(pv),
                None => None,
            });
            if reaction is Some {
                Some(
                    EventsV::ReactionRemoved {
                        reaction: reaction->0,
                    },
                )
            } else {
                None
            }
        },
        _ => None,
    }
}

fn decode_ev_reaction_removed(data: Option<&Json>) -> (r: Option<Events>)
    ensures
        r.deep_view() == spec_decode_ev_reaction_removed(
            (match data {
                Some(j) => Some(j@),
                None => None,
            }),
        ),
{
    proof {
        reveal(spec_decode_ev_reaction_removed);
    }
    match data {
        Some(Json::Obj(d)) => {
            let x_reaction = match obj_get(d, "reaction") {
            Some(pv) => decode_reaction_nested(pv),
            None => None,
        };
            if x_reaction.is_none() {
                return None;
            }
            Some(
                Events::ReactionRemoved {
                    reaction: x_reaction.unwrap(),
                },
            )
        },
        _ => None,
    }
}

proof fn lemma_events_dispatch_reaction_removed(data: Option<JsonV>)
    ensures
        spec_decode_events("reaction_removed"@, data) == spec_decode_ev_reaction_removed(data),
{
    reveal_strlit("hello");
    reveal_strlit("status_change");
    reveal_strlit("ephemeral_message");
    reveal_strlit("typing");
    reveal_strlit("posted");
    reveal_strlit("reaction_added");
    reveal_strlit("post_edited");
    reveal_strlit("channel_created");
    reveal_strlit("preferences_changed");
    reveal_strlit("user_updated");
    reveal_strlit("post_deleted");
    reveal_strlit("channel_viewed");
    reveal_strlit("preferences_deleted");
    reveal_strlit("channel_updated");
    reveal_strlit("reaction_removed");
    assert("hello"@.len() == 5);
    assert("status_change"@.len() == 13);
    assert("ephemeral_message"@.len() == 17);
    assert("typing"@.len() == 6);
    assert("posted"@.len() == 6);
    assert("reaction_added"@.len() == 14);
    assert("post_edited"@.len() == 11);
    assert("channel_created"@.len() == 15);
    assert("preferences_changed"@.len() == 19);
    assert("user_updated"@.len() == 12);
    assert("post_deleted"@.len() == 12);
    assert("channel_viewed"@.len() == 14);
    assert("preferences_deleted"@.len() == 19);
    assert("channel_updated"@.len() == 15);
    assert("reaction_removed"@.len() == 16);
}

/// The payload shape of a `new_user` event.
#[verifier::opaque]
pub open spec fn spec_decode_ev_new_user(data: Option<JsonV>) -> Option<EventsV> {
    match data {
        Some(JsonV::Obj(d)) => {
            let user_id = spec_get_str(d, "user_id"@);
            if user_id is Some {
                Some(
                    EventsV::NewUser {
                        user_id: user_id->0,
                    },
                )
            } else {
                None
            }
        },
        _ => None,
    }
}

fn decode_ev_new_user(data: Option<&Json>) -> (r: Option<Events>)
    ensures
        r.deep_view() == spec_decode_ev_new_user(
            (match data {
                Some(j) => Some(j@),
                None => None,
            }),
        ),
{
    proof {
        reveal(spec_decode_ev_new_user);
    }
    match data {
        Some(Json::Obj(d)) => {
            let x_user_id = get_str(d, "user_id");
            if x_user_id.is_none() {
                return None;
            }
            Some(
                Events::NewUser {
                    user_id: x_user_id.unwrap(),
                },
            )
        },
        _ => None,
    }
}

proof fn lemma_events_dispatch_new_user(data: Option<JsonV>)
    ensures
        spec_decode_events("new_user"@, data) == spec_decode_ev_new_user(data),
{
    reveal_strlit("hello");
    reveal_strlit("status_change");
    reveal_strlit("ephemeral_message");
    reveal_strlit("typing");
    reveal_strlit("posted");
    reveal_strlit("reaction_added");
    reveal_strlit("post_edited");
    reveal_strlit("channel_created");
    reveal_strlit("preferences_changed");
    reveal_strlit("user_updated");
    reveal_strlit("post_deleted");
    reveal_strlit("channel_viewed");
    reveal_strlit("preferences_deleted");
    reveal_strlit("channel_updated");
    reveal_strlit("reaction_removed");
    reveal_strlit("new_user");
    assert("hello"@.len() == 5);
    assert("status_change"@.len() == 13);
    assert("ephemeral_message"@.len() == 17);
    assert("typing"@.len() == 6);
    assert("posted"@.len() == 6);
    assert("reaction_added"@.len() == 14);
    assert("post_edited"@.len() == 11);
    assert("channel_created"@.len() == 15);
    assert("preferences_changed"@.len() == 19);
    assert("user_updated"@.len() == 12);
    assert("post_deleted"@.len() == 12);
    assert("channel_viewed"@.len() == 14);
    assert("preferences_deleted"@.len() == 19);
    assert("channel_updated"@.len() == 15);
    assert("reaction_removed"@.len() == 16);
    assert("new_user"@.len() == 8);
}

/// The payload shape of a `emoji_added` event.
#[verifier::opaque]
pub open spec fn spec_decode_ev_emoji_added(data: Option<JsonV>) -> Option<EventsV> {
    match data {
        Some(JsonV::Obj(d)) => {
            let emoji = (match spec_obj_get(d, "emoji"@) {
                Some(pv) => spec_decode_emoji_nested(pv),
                None => None,
            });
            if emoji is Some {
                Some(
                    EventsV::EmojiAdded {
                        emoji: emoji->0,
                    },
                )
            } else {
                None
            }
        },
        _ => None,
    }
}

fn decode_ev_emoji_added(data: Option<&Json>) -> (r: Option<Events>)
    ensures
        r.deep_view() == spec_decode_ev_emoji_added(
            (match data {
                Some(j) => Some(j@),
                None => None,
            }),
        ),
{
    proof {
        reveal(spec_decode_ev_emoji_added);
    }
    match data {
        Some(Json::Obj(d)) => {
            let x_emoji = match obj_get(d, "emoji") {
            Some(pv) => decode_emoji_nested(pv),
            None => None,
        };
            if x_emoji.is_none() {
                return None;
            }
            Some(
                Events::EmojiAdded {
                    emoji: x_emoji.unwrap(),
                },
            )
        },
        _ => None,
    }
}

proof fn lemma_events_dispatch_emoji_added(data: Option<JsonV>)
    ensures
        spec_decode_events("emoji_added"@, data) == spec_decode_ev_emoji_added(data),
{
    reveal_strlit("hello");
    reveal_strlit("status_change");
    reveal_strlit("ephemeral_message");
    reveal_strlit("typing");
    reveal_strlit("posted");
    reveal_strlit("reaction_added");
    reveal_strlit("post_edited");
    reveal_strlit("channel_created");
    reveal_strlit("preferences_changed");
    reveal_strlit("user_updated");
    reveal_strlit("post_deleted");
    reveal_strlit("channel_viewed");
    reveal_strlit("preferences_deleted");
    reveal_strlit("channel_updated");
    reveal_strlit("reaction_removed");
    reveal_strlit("new_user");
    reveal_strlit("emoji_added");
    assert("hello"@.len() == 5);
    assert("status_change"@.len() == 13);
    assert("ephemeral_message"@.len() == 17);
    assert("typing"@.len() == 6);
    assert("posted"@.len() == 6);
    assert("reaction_added"@.len() == 14);
    assert("post_edited"@.len() == 11);
    assert("channel_created"@.len() == 15);
    assert("preferences_changed"@.len() == 19);
    assert("user_updated"@.len() == 12);
    assert("post_deleted"@.len() == 12);
    assert("channel_viewed"@.len() == 14);
    assert("preferences_deleted"@.len() == 19);
    assert("channel_updated"@.len() == 15);
    assert("reaction_removed"@.len() == 16);
    assert("new_user"@.len() == 8);
    assert("emoji_added"@.len() == 11);
    assert("emoji_added"@ != "post_edited"@) by {
        assert("emoji_added"@[0] == 'e');
        assert("post_edited"@[0] == 'p');
    }
}

/// The payload shape of a `channel_deleted` event.
#[verifier::opaque]
pub open spec fn spec_decode_ev_channel_deleted(data: Option<JsonV>) -> Option<EventsV> {
    match data {
        Some(JsonV::Obj(d)) => {
            let channel_id = spec_get_str(d, "channel_id"@);
            let delete_at = spec_opt_i64(d, "delete_at"@);
            if channel_id is Some && delete_at is Some {
                Some(
                    EventsV::ChannelDeleted {
                        channel_id: channel_id->0,
                        delete_at: delete_at->0,
                    },
                )
            } else {
                None
            }
        },
        _ => None,
    }
}

fn decode_ev_channel_deleted(data: Option<&Json>) -> (r: Option<Events>)
    ensures
        r.deep_view() == spec_decode_ev_channel_deleted(
            (match data {
                Some(j) => Some(j@),
                None => None,
            }),
        ),
{
    proof {
        reveal(spec_decode_ev_channel_deleted);
    }
    match data {
        Some(Json::Obj(d)) => {
            let x_channel_id = get_str(d, "channel_id");
            let x_delete_at = opt_i64(d, "delete_at");
            if x_channel_id.is_none() {
                return None;
            }
            if x_delete_at.is_none() {
                return None;
            }
            Some(
                Events::ChannelDeleted {
                    channel_id: x_channel_id.unwrap(),
                    delete_at: x_delete_at.unwrap(),
                },
            )
        },
        _ => None,
    }
}

proof fn lemma_events_dispatch_channel_deleted(data: Option<JsonV>)
    ensures
        spec_decode_events("channel_deleted"@, data) == spec_decode_ev_channel_deleted(data),
{
    reveal_strlit("hello");
    reveal_strlit("status_change");
    reveal_strlit("ephemeral_message");
    reveal_strlit("typing");
    reveal_strlit("posted");
    reveal_strlit("reaction_added");
    reveal_strlit("post_edited");
    reveal_strlit("channel_created");
    reveal_strlit("preferences_changed");
    reveal_strlit("user_updated");
    reveal_strlit("post_deleted");
    reveal_strlit("channel_viewed");
    reveal_strlit("preferences_deleted");
    reveal_strlit("channel_updated");
    reveal_strlit("reaction_removed");
    reveal_strlit("new_user");
    reveal_strlit("emoji_added");
    reveal_strlit("channel_deleted");
    assert("hello"@.len() == 5);
    assert("status_change"@.len() == 13);
    assert("ephemeral_message"@.len() == 17);
    assert("typing"@.len() == 6);
    assert("posted"@.len() == 6);
    assert("reaction_added"@.len() == 14);
    assert("post_edited"@.len() == 11);
    assert("channel_created"@.len() == 15);
    assert("preferences_changed"@.len() == 19);
    assert("user_updated"@.len() == 12);
    assert("post_deleted"@.len() == 12);
    assert("channel_viewed"@.len() == 14);
    assert("preferences_deleted"@.len() == 19);
    assert("channel_updated"@.len() == 15);
    assert("reaction_removed"@.len() == 16);
    assert("new_user"@.len() == 8);
    assert("emoji_added"@.len() == 11);
    assert("channel_deleted"@.len() == 15);
    assert("channel_deleted"@ != "channel_created"@) by {
        assert("channel_deleted"@[8] == 'd');
        assert("channel_created"@[8] == 'c');
    }
    assert("channel_deleted"@ != "channel_updated"@) by {
        assert("channel_deleted"@[8] == 'd');
        assert("channel_updated"@[8] == 'u');
    }
}

/// The payload shape of a `direct_added` event.
#[verifier::opaque]
pub open spec fn spec_decode_ev_direct_added(data: Option<JsonV>) -> Option<EventsV> {
    match data {
        Some(JsonV::Obj(d)) => {
            let teammate_id = spec_get_str(d, "teammate_id"@);
            if teammate_id is Some {
                Some(
                    EventsV::DirectAdded {
                        teammate_id: teammate_id->0,
                    },
                )
            } else {
                None
            }
        },
        _ => None,
    }
}

fn decode_ev_direct_added(data: Option<&Json>) -> (r: Option<Events>)
    ensures
        r.deep_view() == spec_decode_ev_direct_added(
            (match data {
                Some(j) => Some(j@),
                None => None,
            }),
        ),
{
    proof {
        reveal(spec_decode_ev_direct_added);
    }
    match data {
        Some(Json::Obj(d)) => {
            let x_teammate_id = get_str(d, "teammate_id");
            if x_teammate_id.is_none() {
                return None;
            }
            Some(
                Events::DirectAdded {
                    teammate_id: x_teammate_id.unwrap(),
                },
            )
        },
        _ => None,
    }
}

proof fn lemma_events_dispatch_direct_added(data: Option<JsonV>)
    ensures
        spec_decode_events("direct_added"@, data) == spec_decode_ev_direct_added(data),
{
    reveal_strlit("hello");
    reveal_strlit("status_change");
    reveal_strlit("ephemeral_message");
    reveal_strlit("typing");
    reveal_strlit("posted");
    reveal_strlit("reaction_added");
    reveal_strlit("post_edited");
    reveal_strlit("channel_created");
    reveal_strlit("preferences_changed");
    reveal_strlit("user_updated");
    reveal_strlit("post_deleted");
    reveal_strlit("channel_viewed");
    reveal_strlit("preferences_deleted");
    reveal_strlit("channel_updated");
    reveal_strlit("reaction_removed");
    reveal_strlit("new_user");
    reveal_strlit("emoji_added");
    reveal_strlit("channel_deleted");
    reveal_strlit("direct_added");
    assert("hello"@.len() == 5);
    assert("status_change"@.len() == 13);
    assert("ephemeral_message"@.len() == 17);
    assert("typing"@.len() == 6);
    assert("posted"@.len() == 6);
    assert("reaction_added"@.len() == 14);
    assert("post_edited"@.len() == 11);
    assert("channel_created"@.len() == 15);
    assert("preferences_changed"@.len() == 19);
    assert("user_updated"@.len() == 12);
    assert("post_deleted"@.len() == 12);
    assert("channel_viewed"@.len() == 14);
    assert("preferences_deleted"@.len() == 19);
    assert("channel_updated"@.len() == 15);
    assert("reaction_removed"@.len() == 16);
    assert("new_user"@.len() == 8);
    assert("emoji_added"@.len() == 11);
    assert("channel_deleted"@.len() == 15);
    assert("direct_added"@.len() == 12);
    assert("direct_added"@ != "user_updated"@) by {
        assert("direct_added"@[0] == 'd');
        assert("user_updated"@[0] == 'u');
    }
    assert("direct_added"@ != "post_deleted"@) by {
        assert("direct_added"@[0] == 'd');
        assert("post_deleted"@[0] == 'p');
    }
}

/// The payload shape of a `update_team` event.
#[verifier::opaque]
pub open spec fn spec_decode_ev_update_team(data: Option<JsonV>) -> Option<EventsV> {
    match data {
        Some(JsonV::Obj(d)) => {
            let team = (match spec_obj_get(d, "team"@) {
                Some(pv) => spec_decode_team_nested(pv),
                None => None,
            });
            if team is Some {
                Some(
                    EventsV::UpdateTeam {
                        team: team->0,
                    },
                )
            } else {
                None
            }
        },
        _ => None,
    }
}

fn decode_ev_update_team(data: Option<&Json>) -> (r: Option<Events>)
    ensures
        r.deep_view() == spec_decode_ev_update_team(
            (match data {
                Some(j) => Some(j@),
                None => None,
            }),
        ),
{
    proof {
        reveal(spec_decode_ev_update_team);
    }
    match data {
        Some(Json::Obj(d)) => {
            let x_team = match obj_get(d, "team") {
            Some(pv) => decode_team_nested(pv),
            None => None,
        };
            if x_team.is_none() {
                return None;
            }
            Some(
                Events::UpdateTeam {
                    team: x_team.unwrap(),
                },
            )
        },
        _ => None,
    }
}

proof fn lemma_events_dispatch_update_team(data: Option<JsonV>)
    ensures
        spec_decode_events("update_team"@, data) == spec_decode_ev_update_team(data),
{
    reveal_strlit("hello");
    reveal_strlit("status_change");
    reveal_strlit("ephemeral_message");
    reveal_strlit("typing");
    reveal_strlit("posted");
    reveal_strlit("reaction_added");
    reveal_strlit("post_edited");
    reveal_strlit("channel_created");
    reveal_strlit("preferences_changed");
    reveal_strlit("user_updated");
    reveal_strlit("post_deleted");
    reveal_strlit("channel_viewed");
    reveal_strlit("preferences_deleted");
    reveal_strlit("channel_updated");
    reveal_strlit("reaction_removed");
    reveal_strlit("new_user");
    reveal_strlit("emoji_added");
    reveal_strlit("channel_deleted");
    reveal_strlit("direct_added");
    reveal_strlit("update_team");
    assert("hello"@.len() == 5);
    assert("status_change"@.len() == 13);
    assert("ephemeral_message"@.len() == 17);
    assert("typing"@.len() == 6);
    assert("posted"@.len() == 6);
    assert("reaction_added"@.len() == 14);
    assert("post_edited"@.len() == 11);
    assert("channel_created"@.len() == 15);
    assert("preferences_changed"@.len() == 19);
    assert("user_updated"@.len() == 12);
    assert("post_deleted"@.len() == 12);
    assert("channel_viewed"@.len() == 14);
    assert("preferences_deleted"@.len() == 19);
    assert("channel_updated"@.len() == 15);
    assert("reaction_removed"@.len() == 16);
    assert("new_user"@.len() == 8);
    assert("emoji_added"@.len() == 11);
    assert("channel_deleted"@.len() == 15);
    assert("direct_added"@.len() == 12);
    assert("update_team"@.len() == 11);
    assert("update_team"@ != "post_edited"@) by {
        assert("update_team"@[0] == 'u');
        assert("post_edited"@[0] == 'p');
    }
    assert("update_team"@ != "emoji_added"@) by {
        assert("update_team"@[0] == 'u');
        assert("emoji_added"@[0] == 'e');
    }
}

/// The payload shape of a `user_added` event.
#[verifier::opaque]
pub open spec fn spec_decode_ev_user_added(data: Option<JsonV>) -> Option<EventsV> {
    match data {
        Some(JsonV::Obj(d)) => {
            let team_id = spec_get_str(d, "team_id"@);
            let user_id = spec_get_str(d, "user_id"@);
            if team_id is Some && user_id is Some {
                Some(
                    EventsV::UserAdded {
                        team_id: team_id->0,
                        user_id: user_id->0,
                    },
                )
            } else {
                None
            }
        },
        _ => None,
    }
}

fn decode_ev_user_added(data: Option<&Json>) -> (r: Option<Events>)
    ensures
        r.deep_view() == spec_decode_ev_user_added(
            (match data {
                Some(j) => Some(j@),
                None => None,
            }),
        ),
{
    proof {
        reveal(spec_decode_ev_user_added);
    }
    match data {
        Some(Json::Obj(d)) => {
            let x_team_id = get_str(d, "team_id");
            let x_user_id = get_str(d, "user_id");
            if x_team_id.is_none() {
                return None;
            }
            if x_user_id.is_none() {
                return None;
            }
            Some(
                Events::UserAdded {
                    team_id: x_team_id.unwrap(),
                    user_id: x_user_id.unwrap(),
                },
            )
        },
        _ => None,
    }
}

proof fn lemma_events_dispatch_user_added(data: Option<JsonV>)
    ensures
        spec_decode_events("user_added"@, data) == spec_decode_ev_user_added(data),
{
    reveal_strlit("hello");
    reveal_strlit("status_change");
    reveal_strlit("ephemeral_message");
    reveal_strlit("typing");
    reveal_strlit("posted");
    reveal_strlit("reaction_added");
    reveal_strlit("post_edited");
    reveal_strlit("channel_created");
    reveal_strlit("preferences_changed");
    reveal_strlit("user_updated");
    reveal_strlit("post_deleted");
    reveal_strlit("channel_viewed");
    reveal_strlit("preferences_deleted");
    reveal_strlit("channel_updated");
    reveal_strlit("reaction_removed");
    reveal_strlit("new_user");
    reveal_strlit("emoji_added");
    reveal_strlit("channel_deleted");
    reveal_strlit("direct_added");
    reveal_strlit("update_team");
    reveal_strlit("user_added");
    assert("hello"@.len() == 5);
    assert("status_change"@.len() == 13);
    assert("ephemeral_message"@.len() == 17);
    assert("typing"@.len() == 6);
    assert("posted"@.len() == 6);
    assert("reaction_added"@.len() == 14);
    assert("post_edited"@.len() == 11);
    assert("channel_created"@.len() == 15);
    assert("preferences_changed"@.len() == 19);
    assert("user_updated"@.len() == 12);
    assert("post_deleted"@.len() == 12);
    assert("channel_viewed"@.len() == 14);
    assert("preferences_deleted"@.len() == 19);
    assert("channel_updated"@.len() == 15);
    assert("reaction_removed"@.len() == 16);
    assert("new_user"@.len() == 8);
    assert("emoji_added"@.len() == 11);
    assert("channel_deleted"@.len() == 15);
    assert("direct_added"@.len() == 12);
    assert("update_team"@.len() == 11);
    assert("user_added"@.len() == 10);
}

/// The payload shape of a `user_removed` event.
#[verifier::opaque]
pub open spec fn spec_decode_ev_user_removed(data: Option<JsonV>) -> Option<EventsV> {
    match data {
        Some(JsonV::Obj(d)) => {
            let remover_id = spec_get_str(d, "remover_id"@);
            let user_id = spec_get_str(d, "user_id"@);
            if remover_id is Some && user_id is Some {
                Some(
                    EventsV::UserRemoved {
                        remover_id: remover_id->0,
                        user_id: user_id->0,
                    },
                )
            } else {
                None
            }
        },
        _ => None,
    }
}

fn decode_ev_user_removed(data: Option<&Json>) -> (r: Option<Events>)
    ensures
        r.deep_view() == spec_decode_ev_user_removed(
            (match data {
                Some(j) => Some(j@),
                None => None,
            }),
        ),
{
    proof {
        reveal(spec_decode_ev_user_removed);
    }
    match data {
        Some(Json::Obj(d)) => {
            let x_remover_id = get_str(d, "remover_id");
            let x_user_id = get_str(d, "user_id");
            if x_remover_id.is_none() {
                return None;
            }
            if x_user_id.is_none() {
                return None;
            }
            Some(
                Events::UserRemoved {
                    remover_id: x_remover_id.unwrap(),
                    user_id: x_user_id.unwrap(),
                },
            )
        },
        _ => None,
    }
}

proof fn lemma_events_dispatch_user_removed(data: Option<JsonV>)
    ensures
        spec_decode_events("user_removed"@, data) == spec_decode_ev_user_removed(data),
{
    reveal_strlit("hello");
    reveal_strlit("status_change");
    reveal_strlit("ephemeral_message");
    reveal_strlit("typing");
    reveal_strlit("posted");
    reveal_strlit("reaction_added");
    reveal_strlit("post_edited");
    reveal_strlit("channel_created");
    reveal_strlit("preferences_changed");
    reveal_strlit("user_updated");
    reveal_strlit("post_deleted");
    reveal_strlit("channel_viewed");
    reveal_strlit("preferences_deleted");
    reveal_strlit("channel_updated");
    reveal_strlit("reaction_removed");
    reveal_strlit("new_user");
    reveal_strlit("emoji_added");
    reveal_strlit("channel_deleted");
    reveal_strlit("direct_added");
    reveal_strlit("update_team");
    reveal_strlit("user_added");
    reveal_strlit("user_removed");
    assert("hello"@.len() == 5);
    assert("status_change"@.len() == 13);
    assert("ephemeral_message"@.len() == 17);
    assert("typing"@.len() == 6);
    assert("posted"@.len() == 6);
    assert("reaction_added"@.len() == 14);
    assert("post_edited"@.len() == 11);
    assert("channel_created"@.len() == 15);
    assert("preferences_changed"@.len() == 19);
    assert("user_updated"@.len() == 12);
    assert("post_deleted"@.len() == 12);
    assert("channel_viewed"@.len() == 14);
    assert("preferences_deleted"@.len() == 19);
    assert("channel_updated"@.len() == 15);
    assert("reaction_removed"@.len() == 16);
    assert("new_user"@.len() == 8);
    assert("emoji_added"@.len() == 11);
    assert("channel_deleted"@.len() == 15);
    assert("direct_added"@.len() == 12);
    assert("update_team"@.len() == 11);
    assert("user_added"@.len() == 10);
    assert("user_removed"@.len() == 12);
    assert("user_removed"@ != "user_updated"@) by {
        assert("user_removed"@[5] == 'r');
        assert("user_updated"@[5] == 'u');
    }
    assert("user_removed"@ != "post_deleted"@) by {
        assert("user_removed"@[0] == 'u');
        assert("post_deleted"@[0] == 'p');
    }
    assert("user_removed"@ != "direct_added"@) by {
        assert("user_removed"@[0] == 'u');
        assert("direct_added"@[0] == 'd');
    }
}

/// The payload shape of a `leave_team` event.
#[verifier::opaque]
pub open spec fn spec_decode_ev_leave_team(data: Option<JsonV>) -> Option<EventsV> {
    match data {
        Some(JsonV::Obj(d)) => {
            let team_id = spec_get_str(d, "team_id"@);
            let user_id = spec_get_str(d, "user_id"@);
            if team_id is Some && user_id is Some {
                Some(
                    EventsV::LeaveTeam {
                        team_id: team_id->0,
                        user_id: user_id->0,
                    },
                )
            } else {
                None
            }
        },
        _ => None,
    }
}

fn decode_ev_leave_team(data: Option<&Json>) -> (r: Option<Events>)
    ensures
        r.deep_view() == spec_decode_ev_leave_team(
            (match data {
                Some(j) => Some(j@),
                None => None,
            }),
        ),
{
    proof {
        reveal(spec_decode_ev_leave_team);
    }
    match data {
        Some(Json::Obj(d)) => {
            let x_team_id = get_str(d, "team_id");
            let x_user_id = get_str(d, "user_id");
            if x_team_id.is_none() {
                return None;
            }
            if x_user_id.is_none() {
                return None;
            }
            Some(
                Events::LeaveTeam {
                    team_id: x_team_id.unwrap(),
                    user_id: x_user_id.unwrap(),
                },
            )
        },
        _ => None,
    }
}

proof fn lemma_events_dispatch_leave_team(data: Option<JsonV>)
    ensures
        spec_decode_events("leave_team"@, data) == spec_decode_ev_leave_team(data),
{
    reveal_strlit("hello");
    reveal_strlit("status_change");
    reveal_strlit("ephemeral_message");
    reveal_strlit("typing");
    reveal_strlit("posted");
    reveal_strlit("reaction_added");
    reveal_strlit("post_edited");
    reveal_strlit("channel_created");
    reveal_strlit("preferences_changed");
    reveal_strlit("user_updated");
    reveal_strlit("post_deleted");
    reveal_strlit("channel_viewed");
    reveal_strlit("preferences_deleted");
    reveal_strlit("channel_updated");
    reveal_strlit("reaction_removed");
    reveal_strlit("new_user");
    reveal_strlit("emoji_added");
    reveal_strlit("channel_deleted");
    reveal_strlit("direct_added");
    reveal_strlit("update_team");
    reveal_strlit("user_added");
    reveal_strlit("user_removed");
    reveal_strlit("leave_team");
    assert("hello"@.len() == 5);
    assert("status_change"@.len() == 13);
    assert("ephemeral_message"@.len() == 17);
    assert("typing"@.len() == 6);
    assert("posted"@.len() == 6);
    assert("reaction_added"@.len() == 14);
    assert("post_edited"@.len() == 11);
    assert("channel_created"@.len() == 15);
    assert("preferences_changed"@.len() == 19);
    assert("user_updated"@.len() == 12);
    assert("post_deleted"@.len() == 12);
    assert("channel_viewed"@.len() == 14);
    assert("preferences_deleted"@.len() == 19);
    assert("channel_updated"@.len() == 15);
    assert("reaction_removed"@.len() == 16);
    assert("new_user"@.len() == 8);
    assert("emoji_added"@.len() == 11);
    assert("channel_deleted"@.len() == 15);
    assert("direct_added"@.len() == 12);
    assert("update_team"@.len() == 11);
    assert("user_added"@.len() == 10);
    assert("user_removed"@.len() == 12);
    assert("leave_team"@.len() == 10);
    assert("leave_team"@ != "user_added"@) by {
        assert("leave_team"@[0] == 'l');
        assert("user_added"@[0] == 'u');
    }
}

/// The payload shape of a `config_changed` event.
#[verifier::opaque]
pub open spec fn spec_decode_ev_config_changed(data: Option<JsonV>) -> Option<EventsV> {
    match data {
        Some(JsonV::Obj(d)) => {
            let config = (match spec_obj_get(d, "config"@) {
                Some(pv) => spec_decode_config(pv),
                None => None,
            });
            if config is Some {
                Some(
                    EventsV::ConfigChanged {
                        config: config->0,
                    },
                )
            } else {
                None
            }
        },
        _ => None,
    }
}

fn decode_ev_config_changed(data: Option<&Json>) -> (r: Option<Events>)
    ensures
        r.deep_view() == spec_decode_ev_config_changed(
            (match data {
                Some(j) => Some(j@),
                None => None,
            }),
        ),
{
    proof {
        reveal(spec_decode_ev_config_changed);
    }
    match data {
        Some(Json::Obj(d)) => {
            let x_config = match obj_get(d, "config") {
            Some(pv) => decode_config(pv),
            None => None,
        };
            if x_config.is_none() {
                return None;
            }
            Some(
                Events::ConfigChanged {
                    config: x_config.unwrap(),
                },
            )
        },
        _ => None,
    }
}

proof fn lemma_events_dispatch_config_changed(data: Option<JsonV>)
    ensures
        spec_decode_events("config_changed"@, data) == spec_decode_ev_config_changed(data),
{
    reveal_strlit("hello");
    reveal_strlit("status_change");
    reveal_strlit("ephemeral_message");
    reveal_strlit("typing");
    reveal_strlit("posted");
    reveal_strlit("reaction_added");
    reveal_strlit("post_edited");
    reveal_strlit("channel_created");
    reveal_strlit("preferences_changed");
    reveal_strlit("user_updated");
    reveal_strlit("post_deleted");
    reveal_strlit("channel_viewed");
    reveal_strlit("preferences_deleted");
    reveal_strlit("channel_updated");
    reveal_strlit("reaction_removed");
    reveal_strlit("new_user");
    reveal_strlit("emoji_added");
    reveal_strlit("channel_deleted");
    reveal_strlit("direct_added");
    reveal_strlit("update_team");
    reveal_strlit("user_added");
    reveal_strlit("user_removed");
    reveal_strlit("leave_team");
    reveal_strlit("config_changed");
    assert("hello"@.len() == 5);
    assert("status_change"@.len() == 13);
    assert("ephemeral_message"@.len() == 17);
    assert("typing"@.len() == 6);
    assert("posted"@.len() == 6);
    assert("reaction_added"@.len() == 14);
    assert("post_edited"@.len() == 11);
    assert("channel_created"@.len() == 15);
    assert("preferences_changed"@.len() == 19);
    assert("user_updated"@.len() == 12);
    assert("post_deleted"@.len() == 12);
    assert("channel_viewed"@.len() == 14);
    assert("preferences_deleted"@.len() == 19);
    assert("channel_updated"@.len() == 15);
    assert("reaction_removed"@.len() == 16);
    assert("new_user"@.len() == 8);
    assert("emoji_added"@.len() == 11);
    assert("channel_deleted"@.len() == 15);
    assert("direct_added"@.len() == 12);
    assert("update_team"@.len() == 11);
    assert("user_added"@.len() == 10);
    assert("user_removed"@.len() == 12);
    assert("leave_team"@.len() == 10);
    assert("config_changed"@.len() == 14);
    assert("config_changed"@ != "reaction_added"@) by {
        assert("config_changed"@[0] == 'c');
        assert("reaction_added"@[0] == 'r');
    }
    assert("config_changed"@ != "channel_viewed"@) by {
        assert("config_changed"@[1] == 'o');
        assert("channel_viewed"@[1] == 'h');
    }
}

/// The payload shape of a `group_added` event.
#[verifier::opaque]
pub open spec fn spec_decode_ev_group_added(data: Option<JsonV>) -> Option<EventsV> {
    match data {
        Some(JsonV::Obj(d)) => {
            let teammate_ids = (match spec_obj_get(d, "teammate_ids"@) {
                Some(pv) => match spec_unwrap_nested(pv) {
                    Some(JsonV::Arr(els)) => spec_strs_of(els),
                    _ => None,
                },
                None => None,
            });
            if teammate_ids is Some {
                Some(
                    EventsV::GroupAdded {
                        teammate_ids: teammate_ids->0,
                    },
                )
            } else {
                None
            }
        },
        _ => None,
    }
}

fn decode_ev_group_added(data: Option<&Json>) -> (r: Option<Events>)
    ensures
        r.deep_view() == spec_decode_ev_group_added(
            (match data {
                Some(j) => Some(j@),
                None => None,
            }),
        ),
{
    proof {
        reveal(spec_decode_ev_group_added);
    }
    match data {
        Some(Json::Obj(d)) => {
            let x_teammate_ids = match obj_get(d, "teammate_ids") {
            Some(pv) => decode_strlist_nested(pv),
            None => None,
        };
            if x_teammate_ids.is_none() {
                return None;
            }
            Some(
                Events::GroupAdded {
                    teammate_ids: x_teammate_ids.unwrap(),
                },
            )
        },
        _ => None,
    }
}

proof fn lemma_events_dispatch_group_added(data: Option<JsonV>)
    ensures
        spec_decode_events("group_added"@, data) == spec_decode_ev_group_added(data),
{
    reveal_strlit("hello");
    reveal_strlit("status_change");
    reveal_strlit("ephemeral_message");
    reveal_strlit("typing");
    reveal_strlit("posted");
    reveal_strlit("reaction_added");
    reveal_strlit("post_edited");
    reveal_strlit("channel_created");
    reveal_strlit("preferences_changed");
    reveal_strlit("user_updated");
    reveal_strlit("post_deleted");
    reveal_strlit("channel_viewed");
    reveal_strlit("preferences_deleted");
    reveal_strlit("channel_updated");
    reveal_strlit("reaction_removed");
    reveal_strlit("new_user");
    reveal_strlit("emoji_added");
    reveal_strlit("channel_deleted");
    reveal_strlit("direct_added");
    reveal_strlit("update_team");
    reveal_strlit("user_added");
    reveal_strlit("user_removed");
    reveal_strlit("leave_team");
    reveal_strlit("config_changed");
    reveal_strlit("group_added");
    assert("hello"@.len() == 5);
    assert("status_change"@.len() == 13);
    assert("ephemeral_message"@.len() == 17);
    assert("typing"@.len() == 6);
    assert("posted"@.len() == 6);
    assert("reaction_added"@.len() == 14);
    assert("post_edited"@.len() == 11);
    assert("channel_created"@.len() == 15);
    assert("preferences_changed"@.len() == 19);
    assert("user_updated"@.len() == 12);
    assert("post_deleted"@.len() == 12);
    assert("channel_viewed"@.len() == 14);
    assert("preferences_deleted"@.len() == 19);
    assert("channel_updated"@.len() == 15);
    assert("reaction_removed"@.len() == 16);
    assert("new_user"@.len() == 8);
    assert("emoji_added"@.len() == 11);
    assert("channel_deleted"@.len() == 15);
    assert("direct_added"@.len() == 12);
    assert("update_team"@.len() == 11);
    assert("user_added"@.len() == 10);
    assert("user_removed"@.len() == 12);
    assert("leave_team"@.len() == 10);
    assert("config_changed"@.len() == 14);
    assert("group_added"@.len() == 11);
    assert("group_added"@ != "post_edited"@) by {
        assert("group_added"@[0] == 'g');
        assert("post_edited"@[0] == 'p');
    }
    assert("group_added"@ != "emoji_added"@) by {
        assert("group_added"@[0] == 'g');
        assert("emoji_added"@[0] == 'e');
    }
    assert("group_added"@ != "update_team"@) by {
        assert("group_added"@[0] == 'g');
        assert("update_team"@[0] == 'u');
    }
}

/// The payload shape of a `delete_team` event.
#[verifier::opaque]
pub open spec fn spec_decode_ev_delete_team(data: Option<JsonV>) -> Option<EventsV> {
    match data {
        Some(JsonV::Obj(d)) => {
            let team = (match spec_obj_get(d, "team"@) {
                Some(pv) => spec_decode_team_nested(pv),
                None => None,
            });
            if team is Some {
                Some(
                    EventsV::DeleteTeam {
                        team: team->0,
                    },
                )
            } else {
                None
            }
        },
        _ => None,
    }
}

fn decode_ev_delete_team(data: Option<&Json>) -> (r: Option<Events>)
    ensures
        r.deep_view() == spec_decode_ev_delete_team(
            (match data {
                Some(j) => Some(j@),
                None => None,
            }),
        ),
{
    proof {
        reveal(spec_decode_ev_delete_team);
    }
    match data {
        Some(Json::Obj(d)) => {
            let x_team = match obj_get(d, "team") {
            Some(pv) => decode_team_nested(pv),
            None => None,
        };
            if x_team.is_none() {
                return None;
            }
            Some(
                Events::DeleteTeam {
                    team: x_team.unwrap(),
                },
            )
        },
        _ => None,
    }
}

proof fn lemma_events_dispatch_delete_team(data: Option<JsonV>)
    ensures
        spec_decode_events("delete_team"@, data) == spec_decode_ev_delete_team(data),
{
    reveal_strlit("hello");
    reveal_strlit("status_change");
    reveal_strlit("ephemeral_message");
    reveal_strlit("typing");
    reveal_strlit("posted");
    reveal_strlit("reaction_added");
    reveal_strlit("post_edited");
    reveal_strlit("channel_created");
    reveal_strlit("preferences_changed");
    reveal_strlit("user_updated");
    reveal_strlit("post_deleted");
    reveal_strlit("channel_viewed");
    reveal_strlit("preferences_deleted");
    reveal_strlit("channel_updated");
    reveal_strlit("reaction_removed");
    reveal_strlit("new_user");
    reveal_strlit("emoji_added");
    reveal_strlit("channel_deleted");
    reveal_strlit("direct_added");
    reveal_strlit("update_team");
    reveal_strlit("user_added");
    reveal_strlit("user_removed");
    reveal_strlit("leave_team");
    reveal_strlit("config_changed");
    reveal_strlit("group_added");
    reveal_strlit("delete_team");
    assert("hello"@.len() == 5);
    assert("status_change"@.len() == 13);
    assert("ephemeral_message"@.len() == 17);
    assert("typing"@.len() == 6);
    assert("posted"@.len() == 6);
    assert("reaction_added"@.len() == 14);
    assert("post_edited"@.len() == 11);
    assert("channel_created"@.len() == 15);
    assert("preferences_changed"@.len() == 19);
    assert("user_updated"@.len() == 12);
    assert("post_deleted"@.len() == 12);
    assert("channel_viewed"@.len() == 14);
    assert("preferences_deleted"@.len() == 19);
    assert("channel_updated"@.len() == 15);
    assert("reaction_removed"@.len() == 16);
    assert("new_user"@.len() == 8);
    assert("emoji_added"@.len() == 11);
    assert("channel_deleted"@.len() == 15);
    assert("direct_added"@.len() == 12);
    assert("update_team"@.len() == 11);
    assert("user_added"@.len() == 10);
    assert("user_removed"@.len() == 12);
    assert("leave_team"@.len() == 10);
    assert("config_changed"@.len() == 14);
    assert("group_added"@.len() == 11);
    assert("delete_team"@.len() == 11);
    assert("delete_team"@ != "post_edited"@) by {
        assert("delete_team"@[0] == 'd');
        assert("post_edited"@[0] == 'p');
    }
    assert("delete_team"@ != "emoji_added"@) by {
        assert("delete_team"@[0] == 'd');
        assert("emoji_added"@[0] == 'e');
    }
    assert("delete_team"@ != "update_team"@) by {
        assert("delete_team"@[0] == 'd');
        assert("update_team"@[0] == 'u');
    }
    assert("delete_team"@ != "group_added"@) by {
        assert("delete_team"@[0] == 'd');
        assert("group_added"@[0] == 'g');
    }
}

/// The payload shape of a `channel_member_updated` event.
#[verifier::opaque]
pub open spec fn spec_decode_ev_channel_member_updated(data: Option<JsonV>) -> Option<EventsV> {
    match data {
        Some(JsonV::Obj(d)) => {
            let channel_member = (match spec_obj_get(d, "channelMember"@) {
                Some(pv) => spec_decode_channel_member_nested(pv),
                None => None,
            });
            if channel_member is Some {
                Some(
                    EventsV::ChannelMemberUpdated {
                        channel_member: channel_member->0,
                    },
                )
            } else {
                None
            }
        },
        _ => None,
    }
}

fn decode_ev_channel_member_updated(data: Option<&Json>) -> (r: Option<Events>)
    ensures
        r.deep_view() == spec_decode_ev_channel_member_updated(
            (match data {
                Some(j) => Some(j@),
                None => None,
            }),
        ),
{
    proof {
        reveal(spec_decode_ev_channel_member_updated);
    }
    match data {
        Some(Json::Obj(d)) => {
            let x_channel_member = match obj_get(d, "channelMember") {
            Some(pv) => decode_channel_member_nested(pv),
            None => None,
        };
            if x_channel_member.is_none() {
                return None;
            }
            Some(
                Events::ChannelMemberUpdated {
                    channel_member: x_channel_member.unwrap(),
                },
            )
        },
        _ => None,
    }
}

proof fn lemma_events_dispatch_channel_member_updated(data: Option<JsonV>)
    ensures
        spec_decode_events("channel_member_updated"@, data) == spec_decode_ev_channel_member_updated(data),
{
    reveal_strlit("hello");
    reveal_strlit("status_change");
    reveal_strlit("ephemeral_message");
    reveal_strlit("typing");
    reveal_strlit("posted");
    reveal_strlit("reaction_added");
    reveal_strlit("post_edited");
    reveal_strlit("channel_created");
    reveal_strlit("preferences_changed");
    reveal_strlit("user_updated");
    reveal_strlit("post_deleted");
    reveal_strlit("channel_viewed");
    reveal_strlit("preferences_deleted");
    reveal_strlit("channel_updated");
    reveal_strlit("reaction_removed");
    reveal_strlit("new_user");
    reveal_strlit("emoji_added");
    reveal_strlit("channel_deleted");
    reveal_strlit("direct_added");
    reveal_strlit("update_team");
    reveal_strlit("user_added");
    reveal_strlit("user_removed");
    reveal_strlit("leave_team");
    reveal_strlit("config_changed");
    reveal_strlit("group_added");
    reveal_strlit("delete_team");
    reveal_strlit("channel_member_updated");
    assert("hello"@.len() == 5);
    assert("status_change"@.len() == 13);
    assert("ephemeral_message"@.len() == 17);
    assert("typing"@.len() == 6);
    assert("posted"@.len() == 6);
    assert("reaction_added"@.len() == 14);
    assert("post_edited"@.len() == 11);
    assert("channel_created"@.len() == 15);
    assert("preferences_changed"@.len() == 19);
    assert("user_updated"@.len() == 12);
    assert("post_deleted"@.len() == 12);
    assert("channel_viewed"@.len() == 14);
    assert("preferences_deleted"@.len() == 19);
    assert("channel_updated"@.len() == 15);
    assert("reaction_removed"@.len() == 16);
    assert("new_user"@.len() == 8);
    assert("emoji_added"@.len() == 11);
    assert("channel_deleted"@.len() == 15);
    assert("direct_added"@.len() == 12);
    assert("update_team"@.len() == 11);
    assert("user_added"@.len() == 10);
    assert("user_removed"@.len() == 12);
    assert("leave_team"@.len() == 10);
    assert("config_changed"@.len() == 14);
    assert("group_added"@.len() == 11);
    assert("delete_team"@.len() == 11);
    assert("channel_member_updated"@.len() == 22);
}

/// The event a tag and its data object decode to: a recognized tag
/// demands its payload shape; any other tag is ignored, never an error.
pub open spec fn spec_decode_events(tag: Seq<char>, data: Option<JsonV>) -> Option<EventsV> {
    if tag == "hello"@ {
        spec_decode_ev_hello(data)
    } else if tag == "status_change"@ {
        spec_decode_ev_status_change(data)
    } else if tag == "ephemeral_message"@ {
        spec_decode_ev_ephemeral_message(data)
    } else if tag == "typing"@ {
        spec_decode_ev_typing(data)
    } else if tag == "posted"@ {
        spec_decode_ev_posted(data)
    } else if tag == "reaction_added"@ {
        spec_decode_ev_reaction_added(data)
    } else if tag == "post_edited"@ {
        spec_decode_ev_post_edited(data)
    } else if tag == "channel_created"@ {
        spec_decode_ev_channel_created(data)
    } else if tag == "preferences_changed"@ {
        spec_decode_ev_preferences_changed(data)
    } else if tag == "user_updated"@ {
        spec_decode_ev_user_updated(data)
    } else if tag == "post_deleted"@ {
        spec_decode_ev_post_deleted(data)
    } else if tag == "channel_viewed"@ {
        spec_decode_ev_channel_viewed(data)
    } else if tag == "preferences_deleted"@ {
        spec_decode_ev_preferences_deleted(data)
    } else if tag == "channel_updated"@ {
        spec_decode_ev_channel_updated(data)
    } else if tag == "reaction_removed"@ {
        spec_decode_ev_reaction_removed(data)
    } else if tag == "new_user"@ {
        spec_decode_ev_new_user(data)
    } else if tag == "emoji_added"@ {
        spec_decode_ev_emoji_added(data)
    } else if tag == "channel_deleted"@ {
        spec_decode_ev_channel_deleted(data)
    } else if tag == "direct_added"@ {
        spec_decode_ev_direct_added(data)
    } else if tag == "update_team"@ {
        spec_decode_ev_update_team(data)
    } else if tag == "user_added"@ {
        spec_decode_ev_user_added(data)
    } else if tag == "user_removed"@ {
        spec_decode_ev_user_removed(data)
    } else if tag == "leave_team"@ {
        spec_decode_ev_leave_team(data)
    } else if tag == "config_changed"@ {
        spec_decode_ev_config_changed(data)
    } else if tag == "group_added"@ {
        spec_decode_ev_group_added(data)
    } else if tag == "delete_team"@ {
        spec_decode_ev_delete_team(data)
    } else if tag == "channel_member_updated"@ {
        spec_decode_ev_channel_member_updated(data)
    } else {
        Some(EventsV::Ignored)
    }
}

/// Any tag outside the recognized closed set decodes to the ignored
/// variant, whatever its data holds - never a failure.
pub proof fn lemma_unknown_tag_ignored(tag: Seq<char>, data: Option<JsonV>)
    requires
        !spec_known_tag(tag),
    ensures
        spec_decode_events(tag, data) == Some(EventsV::Ignored),
{
}

/// Decode one event from its tag and data.
pub fn decode_events(tag: &str, data: Option<&Json>) -> (r: Option<Events>)
    ensures
        r.deep_view() == spec_decode_events(
            tag@,
            (match data {
                Some(j) => Some(j@),
                None => None,
            }),
        ),
{
    let ghost dv = (match data {
        Some(j) => Some(j@),
        None => None,
    });
    if str_eq(tag, "hello") {
        proof {
            lemma_events_dispatch_hello(dv);
        }
        decode_ev_hello(data)
    } else if str_eq(tag, "status_change") {
        proof {
            lemma_events_dispatch_status_change(dv);
        }
        decode_ev_status_change(data)
    } else if str_eq(tag, "ephemeral_message") {
        proof {
            lemma_events_dispatch_ephemeral_message(dv);
        }
        decode_ev_ephemeral_message(data)
    } else if str_eq(tag, "typing") {
        proof {
            lemma_events_dispatch_typing(dv);
        }
        decode_ev_typing(data)
    } else if str_eq(tag, "posted") {
        proof {
            lemma_events_dispatch_posted(dv);
        }
        decode_ev_posted(data)
    } else if str_eq(tag, "reaction_added") {
        proof {
            lemma_events_dispatch_reaction_added(dv);
        }
        decode_ev_reaction_added(data)
    } else if str_eq(tag, "post_edited") {
        proof {
            lemma_events_dispatch_post_edited(dv);
        }
        decode_ev_post_edited(data)
    } else if str_eq(tag, "channel_created") {
        proof {
            lemma_events_dispatch_channel_created(dv);
        }
        decode_ev_channel_created(data)
    } else if str_eq(tag, "preferences_changed") {
        proof {
            lemma_events_dispatch_preferences_changed(dv);
        }
        decode_ev_preferences_changed(data)
    } else if str_eq(tag, "user_updated") {
        proof {
            lemma_events_dispatch_user_updated(dv);
        }
        decode_ev_user_updated(data)
    } else if str_eq(tag, "post_deleted") {
        proof {
            lemma_events_dispatch_post_deleted(dv);
        }
        decode_ev_post_deleted(data)
    } else if str_eq(tag, "channel_viewed") {
        proof {
            lemma_events_dispatch_channel_viewed(dv);
        }
        decode_ev_channel_viewed(data)
    } else if str_eq(tag, "preferences_deleted") {
        proof {
            lemma_events_dispatch_preferences_deleted(dv);
        }
        decode_ev_preferences_deleted(data)
    } else if str_eq(tag, "channel_updated") {
        proof {
            lemma_events_dispatch_channel_updated(dv);
        }
        decode_ev_channel_updated(data)
    } else if str_eq(tag, "reaction_removed") {
        proof {
            lemma_events_dispatch_reaction_removed(dv);
        }
        decode_ev_reaction_removed(data)
    } else if str_eq(tag, "new_user") {
        proof {
            lemma_events_dispatch_new_user(dv);
        }
        decode_ev_new_user(data)
    } else if str_eq(tag, "emoji_added") {
        proof {
            lemma_events_dispatch_emoji_added(dv);
        }
        decode_ev_emoji_added(data)
    } else if str_eq(tag, "channel_deleted") {
        proof {
            lemma_events_dispatch_channel_deleted(dv);
        }
        decode_ev_channel_deleted(data)
    } else if str_eq(tag, "direct_added") {
        proof {
            lemma_events_dispatch_direct_added(dv);
        }
        decode_ev_direct_added(data)
    } else if str_eq(tag, "update_team") {
        proof {
            lemma_events_dispatch_update_team(dv);
        }
        decode_ev_update_team(data)
    } else if str_eq(tag, "user_added") {
        proof {
            lemma_events_dispatch_user_added(dv);
        }
        decode_ev_user_added(data)
    } else if str_eq(tag, "user_removed") {
        proof {
            lemma_events_dispatch_user_removed(dv);
        }
        decode_ev_user_removed(data)
    } else if str_eq(tag, "leave_team") {
        proof {
            lemma_events_dispatch_leave_team(dv);
        }
        decode_ev_leave_team(data)
    } else if str_eq(tag, "config_changed") {
        proof {
            lemma_events_dispatch_config_changed(dv);
        }
        decode_ev_config_changed(data)
    } else if str_eq(tag, "group_added") {
        proof {
            lemma_events_dispatch_group_added(dv);
        }
        decode_ev_group_added(data)
    } else if str_eq(tag, "delete_team") {
        proof {
            lemma_events_dispatch_delete_team(dv);
        }
        decode_ev_delete_team(data)
    } else if str_eq(tag, "channel_member_updated") {
        proof {
            lemma_events_dispatch_channel_member_updated(dv);
        }
        decode_ev_channel_member_updated(data)
    } else {
        Some(Events::Ignored)
    }
}

/// The data object of a recognized event; nested payloads are sent as
/// direct objects, as the current wire format allows.
pub open spec fn spec_encode_events_data(e: EventsV) -> JsonV {
    match e {
        EventsV::Hello { server_version } => JsonV::Obj(
            seq![
                ("server_version"@, JsonV::Str(server_version)),
            ],
        ),
        EventsV::StatusChange { status, user_id } => JsonV::Obj(
            seq![
                ("status"@, JsonV::Str(status.spec_wire_name())),
                ("user_id"@, JsonV::Str(user_id)),
            ],
        ),
        EventsV::EphemeralMessage { post } => JsonV::Obj(
            seq![
                ("post"@, spec_encode_post(post)),
            ],
        ),
        EventsV::Typing { parent_id, user_id } => JsonV::Obj(
            seq![
                ("parent_id"@, JsonV::Str(parent_id)),
                ("user_id"@, JsonV::Str(user_id)),
            ],
        ),
        EventsV::Posted { channel_display_name, channel_name, channel_type, post, sender_name, team_id, mentions, image, other_file } => JsonV::Obj(
            seq![
                ("channel_display_name"@, JsonV::Str(channel_display_name)),
                ("channel_name"@, JsonV::Str(channel_name)),
                ("channel_type"@, JsonV::Str(channel_type.spec_wire_name())),
                ("post"@, spec_encode_post(post)),
                ("sender_name"@, JsonV::Str(sender_name)),
                ("team_id"@, JsonV::Str(team_id)),
                ("mentions"@, (match mentions {
            Some(x) => spec_encode_strlist(x),
            None => JsonV::Null,
        })),
                ("image"@, (match image {
            Some(s) => JsonV::Str(s),
            None => JsonV::Null,
        })),
                ("otherFile"@, (match other_file {
            Some(s) => JsonV::Str(s),
            None => JsonV::Null,
        })),
            ],
        ),
        EventsV::ReactionAdded { reaction } => JsonV::Obj(
            seq![
                ("reaction"@, spec_encode_reaction(reaction)),
            ],
        ),
        EventsV::PostEdited { post } => JsonV::Obj(
            seq![
                ("post"@, spec_encode_post(post)),
            ],
        ),
        EventsV::ChannelCreated { channel_id, team_id } => JsonV::Obj(
            seq![
                ("channel_id"@, JsonV::Str(channel_id)),
                ("team_id"@, JsonV::Str(team_id)),
            ],
        ),
        EventsV::PreferencesChanged { preferences } => JsonV::Obj(
            seq![
                ("preferences"@, JsonV::Str(preferences)),
            ],
        ),
        EventsV::UserUpdated { user } => JsonV::Obj(
            seq![
                ("user"@, spec_encode_user(user)),
            ],
        ),
        EventsV::PostDeleted { post } => JsonV::Obj(
            seq![
                ("post"@, spec_encode_post(post)),
            ],
        ),
        EventsV::ChannelViewed { channel_id } => JsonV::Obj(
            seq![
                ("channel_id"@, JsonV::Str(channel_id)),
            ],
        ),
        EventsV::PreferencesDeleted { preferences } => JsonV::Obj(
            seq![
                ("preferences"@, JsonV::Str(preferences)),
            ],
        ),
        EventsV::ChannelUpdated { channel } => JsonV::Obj(
            seq![
                ("channel"@, spec_encode_channel(channel)),
            ],
        ),
        EventsV::ReactionRemoved { reaction } => JsonV::Obj(
            seq![
                ("reaction"@, spec_encode_reaction(reaction)),
            ],
        ),
        EventsV::NewUser { user_id } => JsonV::Obj(
            seq![
                ("user_id"@, JsonV::Str(user_id)),
            ],
        ),
        EventsV::EmojiAdded { emoji } => JsonV::Obj(
            seq![
                ("emoji"@, spec_encode_emoji(emoji)),
            ],
        ),
        EventsV::ChannelDeleted { channel_id, delete_at } => JsonV::Obj(
            seq![
                ("channel_id"@, JsonV::Str(channel_id)),
                ("delete_at"@, (match delete_at {
            Some(n) => JsonV::Int(n),
            None => JsonV::Null,
        })),
            ],
        ),
        EventsV::DirectAdded { teammate_id } => JsonV::Obj(
            seq![
                ("teammate_id"@, JsonV::Str(teammate_id)),
            ],
        ),
        EventsV::UpdateTeam { team } => JsonV::Obj(
            seq![
                ("team"@, spec_encode_team(team)),
            ],
        ),
        EventsV::UserAdded { team_id, user_id } => JsonV::Obj(
            seq![
                ("team_id"@, JsonV::Str(team_id)),
                ("user_id"@, JsonV::Str(user_id)),
            ],
        ),
        EventsV::UserRemoved { remover_id, user_id } => JsonV::Obj(
            seq![
                ("remover_id"@, JsonV::Str(remover_id)),
                ("user_id"@, JsonV::Str(user_id)),
            ],
        ),
        EventsV::LeaveTeam { team_id, user_id } => JsonV::Obj(
            seq![
                ("team_id"@, JsonV::Str(team_id)),
                ("user_id"@, JsonV::Str(user_id)),
            ],
        ),
        EventsV::ConfigChanged { config } => JsonV::Obj(
            seq![
                ("config"@, spec_encode_config(config)),
            ],
        ),
        EventsV::GroupAdded { teammate_ids } => JsonV::Obj(
            seq![
                ("teammate_ids"@, spec_encode_strlist(teammate_ids)),
            ],
        ),
        EventsV::DeleteTeam { team } => JsonV::Obj(
            seq![
                ("team"@, spec_encode_team(team)),
            ],
        ),
        EventsV::ChannelMemberUpdated { channel_member } => JsonV::Obj(
            seq![
                ("channelMember"@, spec_encode_channel_member(channel_member)),
            ],
        ),
        EventsV::Ignored => JsonV::Null,
    }
}

fn encode_ev_hello(e: &Events) -> (out: Json)
    requires
        e is Hello,
    ensures
        out@ == spec_encode_events_data(e.deep_view()),
{
    match e {
        Events::Hello { server_version } => {
            let mut fields: Vec<(String, Json)> = Vec::new();
            fields.push((String::from_str("server_version"), Json::Str(server_version.clone())));
            let out = Json::Obj(fields);
            proof {
                let fv = out->Obj_0@;
                crate::json::lemma_fields_view_index(fv);
                assert(fv.len() == 1);
                assert(fv[0].0@ == "server_version"@ && fv[0].1@ == JsonV::Str(e.deep_view()->Hello_server_version));
                assert(spec_fields_view(fv) =~= spec_encode_events_data(e.deep_view())->Obj_0);
            }
            out
        },
        _ => {
            proof {
                assert(false);
            }
            Json::Null
        },
    }
}

fn encode_ev_status_change(e: &Events) -> (out: Json)
    requires
        e is StatusChange,
    ensures
        out@ == spec_encode_events_data(e.deep_view()),
{
    match e {
        Events::StatusChange { status, user_id } => {
            let mut fields: Vec<(String, Json)> = Vec::new();
            fields.push((String::from_str("status"), Json::Str(status.wire_name())));
            fields.push((String::from_str("user_id"), Json::Str(user_id.clone())));
            let out = Json::Obj(fields);
            proof {
                let fv = out->Obj_0@;
                crate::json::lemma_fields_view_index(fv);
                assert(fv.len() == 2);
                assert(fv[0].0@ == "status"@ && fv[0].1@ == JsonV::Str(e.deep_view()->StatusChange_status.spec_wire_name()));
                assert(fv[1].0@ == "user_id"@ && fv[1].1@ == JsonV::Str(e.deep_view()->StatusChange_user_id));
                assert(spec_fields_view(fv) =~= spec_encode_events_data(e.deep_view())->Obj_0);
            }
            out
        },
        _ => {
            proof {
                assert(false);
            }
            Json::Null
        },
    }
}

fn encode_ev_ephemeral_message(e: &Events) -> (out: Json)
    requires
        e is EphemeralMessage,
    ensures
        out@ == spec_encode_events_data(e.deep_view()),
{
    match e {
        Events::EphemeralMessage { post } => {
            let mut fields: Vec<(String, Json)> = Vec::new();
            fields.push((String::from_str("post"), encode_post(post)));
            let out = Json::Obj(fields);
            proof {
                let fv = out->Obj_0@;
                crate::json::lemma_fields_view_index(fv);
                assert(fv.len() == 1);
                assert(fv[0].0@ == "post"@ && fv[0].1@ == spec_encode_post(e.deep_view()->EphemeralMessage_post));
                assert(spec_fields_view(fv) =~= spec_encode_events_data(e.deep_view())->Obj_0);
            }
            out
        },
        _ => {
            proof {
                assert(false);
            }
            Json::Null
        },
    }
}

fn encode_ev_typing(e: &Events) -> (out: Json)
    requires
        e is Typing,
    ensures
        out@ == spec_encode_events_data(e.deep_view()),
{
    match e {
        Events::Typing { parent_id, user_id } => {
            let mut fields: Vec<(String, Json)> = Vec::new();
            fields.push((String::from_str("parent_id"), Json::Str(parent_id.clone())));
            fields.push((String::from_str("user_id"), Json::Str(user_id.clone())));
            let out = Json::Obj(fields);
            proof {
                let fv = out->Obj_0@;
                crate::json::lemma_fields_view_index(fv);
                assert(fv.len() == 2);
                assert(fv[0].0@ == "parent_id"@ && fv[0].1@ == JsonV::Str(e.deep_view()->Typing_parent_id));
                assert(fv[1].0@ == "user_id"@ && fv[1].1@ == JsonV::Str(e.deep_view()->Typing_user_id));
                assert(spec_fields_view(fv) =~= spec_encode_events_data(e.deep_view())->Obj_0);
            }
            out
        },
        _ => {
            proof {
                assert(false);
            }
            Json::Null
        },
    }
}

fn encode_ev_posted(e: &Events) -> (out: Json)
    requires
        e is Posted,
    ensures
        out@ == spec_encode_events_data(e.deep_view()),
{
    match e {
        Events::Posted { channel_display_name, channel_name, channel_type, post, sender_name, team_id, mentions, image, other_file } => {
            let mut fields: Vec<(String, Json)> = Vec::new();
            fields.push((String::from_str("channel_display_name"), Json::Str(channel_display_name.clone())));
            fields.push((String::from_str("channel_name"), Json::Str(channel_name.clone())));
            fields.push((String::from_str("channel_type"), Json::Str(channel_type.wire_name())));
            fields.push((String::from_str("post"), encode_post(post)));
            fields.push((String::from_str("sender_name"), Json::Str(sender_name.clone())));
            fields.push((String::from_str("team_id"), Json::Str(team_id.clone())));
            fields.push((String::from_str("mentions"), (match mentions {
        Some(v) => encode_strlist(v),
        None => Json::Null,
    })));
            fields.push((String::from_str("image"), jopt_str(image)));
            fields.push((String::from_str("otherFile"), jopt_str(other_file)));
            let out = Json::Obj(fields);
            proof {
                let fv = out->Obj_0@;
                crate::json::lemma_fields_view_index(fv);
                assert(fv.len() == 9);
                assert(fv[0].0@ == "channel_display_name"@ && fv[0].1@ == JsonV::Str(e.deep_view()->Posted_channel_display_name));
                assert(fv[1].0@ == "channel_name"@ && fv[1].1@ == JsonV::Str(e.deep_view()->Posted_channel_name));
                assert(fv[2].0@ == "channel_type"@ && fv[2].1@ == JsonV::Str(e.deep_view()->Posted_channel_type.spec_wire_name()));
                assert(fv[3].0@ == "post"@ && fv[3].1@ == spec_encode_post(e.deep_view()->Posted_post));
                assert(fv[4].0@ == "sender_name"@ && fv[4].1@ == JsonV::Str(e.deep_view()->Posted_sender_name));
                assert(fv[5].0@ == "team_id"@ && fv[5].1@ == JsonV::Str(e.deep_view()->Posted_team_id));
                assert(fv[6].0@ == "mentions"@ && fv[6].1@ == (match e.deep_view()->Posted_mentions {
            Some(x) => spec_encode_strlist(x),
            None => JsonV::Null,
        }));
                assert(fv[7].0@ == "image"@ && fv[7].1@ == (match e.deep_view()->Posted_image {
            Some(s) => JsonV::Str(s),
            None => JsonV::Null,
        }));
                assert(fv[8].0@ == "otherFile"@ && fv[8].1@ == (match e.deep_view()->Posted_other_file {
            Some(s) => JsonV::Str(s),
            None => JsonV::Null,
        }));
                assert(spec_fields_view(fv) =~= spec_encode_events_data(e.deep_view())->Obj_0);
            }
            out
        },
        _ => {
            proof {
                assert(false);
            }
            Json::Null
        },
    }
}

fn encode_ev_reaction_added(e: &Events) -> (out: Json)
    requires
        e is ReactionAdded,
    ensures
        out@ == spec_encode_events_data(e.deep_view()),
{
    match e {
        Events::ReactionAdded { reaction } => {
            let mut fields: Vec<(String, Json)> = Vec::new();
            fields.push((String::from_str("reaction"), encode_reaction(reaction)));
            let out = Json::Obj(fields);
            proof {
                let fv = out->Obj_0@;
                crate::json::lemma_fields_view_index(fv);
                assert(fv.len() == 1);
                assert(fv[0].0@ == "reaction"@ && fv[0].1@ == spec_encode_reaction(e.deep_view()->ReactionAdded_reaction));
                assert(spec_fields_view(fv) =~= spec_encode_events_data(e.deep_view())->Obj_0);
            }
            out
        },
        _ => {
            proof {
                assert(false);
            }
            Json::Null
        },
    }
}

fn encode_ev_post_edited(e: &Events) -> (out: Json)
    requires
        e is PostEdited,
    ensures
        out@ == spec_encode_events_data(e.deep_view()),
{
    match e {
        Events::PostEdited { post } => {
            let mut fields: Vec<(String, Json)> = Vec::new();
            fields.push((String::from_str("post"), encode_post(post)));
            let out = Json::Obj(fields);
            proof {
                let fv = out->Obj_0@;
                crate::json::lemma_fields_view_index(fv);
                assert(fv.len() == 1);
                assert(fv[0].0@ == "post"@ && fv[0].1@ == spec_encode_post(e.deep_view()->PostEdited_post));
                assert(spec_fields_view(fv) =~= spec_encode_events_data(e.deep_view())->Obj_0);
            }
            out
        },
        _ => {
            proof {
                assert(false);
            }
            Json::Null
        },
    }
}

fn encode_ev_channel_created(e: &Events) -> (out: Json)
    requires
        e is ChannelCreated,
    ensures
        out@ == spec_encode_events_data(e.deep_view()),
{
    match e {
        Events::ChannelCreated { channel_id, team_id } => {
            let mut fields: Vec<(String, Json)> = Vec::new();
            fields.push((String::from_str("channel_id"), Json::Str(channel_id.clone())));
            fields.push((String::from_str("team_id"), Json::Str(team_id.clone())));
            let out = Json::Obj(fields);
            proof {
                let fv = out->Obj_0@;
                crate::json::lemma_fields_view_index(fv);
                assert(fv.len() == 2);
                assert(fv[0].0@ == "channel_id"@ && fv[0].1@ == JsonV::Str(e.deep_view()->ChannelCreated_channel_id));
                assert(fv[1].0@ == "team_id"@ && fv[1].1@ == JsonV::Str(e.deep_view()->ChannelCreated_team_id));
                assert(spec_fields_view(fv) =~= spec_encode_events_data(e.deep_view())->Obj_0);
            }
            out
        },
        _ => {
            proof {
                assert(false);
            }
            Json::Null
        },
    }
}

fn encode_ev_preferences_changed(e: &Events) -> (out: Json)
    requires
        e is PreferencesChanged,
    ensures
        out@ == spec_encode_events_data(e.deep_view()),
{
    match e {
        Events::PreferencesChanged { preferences } => {
            let mut fields: Vec<(String, Json)> = Vec::new();
            fields.push((String::from_str("preferences"), Json::Str(preferences.clone())));
            let out = Json::Obj(fields);
            proof {
                let fv = out->Obj_0@;
                crate::json::lemma_fields_view_index(fv);
                assert(fv.len() == 1);
                assert(fv[0].0@ == "preferences"@ && fv[0].1@ == JsonV::Str(e.deep_view()->PreferencesChanged_preferences));
                assert(spec_fields_view(fv) =~= spec_encode_events_data(e.deep_view())->Obj_0);
            }
            out
        },
        _ => {
            proof {
                assert(false);
            }
            Json::Null
        },
    }
}

fn encode_ev_user_updated(e: &Events) -> (out: Json)
    requires
        e is UserUpdated,
    ensures
        out@ == spec_encode_events_data(e.deep_view()),
{
    match e {
        Events::UserUpdated { user } => {
            let mut fields: Vec<(String, Json)> = Vec::new();
            fields.push((String::from_str("user"), encode_user(user)));
            let out = Json::Obj(fields);
            proof {
                let fv = out->Obj_0@;
                crate::json::lemma_fields_view_index(fv);
                assert(fv.len() == 1);
                assert(fv[0].0@ == "user"@ && fv[0].1@ == spec_encode_user(e.deep_view()->UserUpdated_user));
                assert(spec_fields_view(fv) =~= spec_encode_events_data(e.deep_view())->Obj_0);
            }
            out
        },
        _ => {
            proof {
                assert(false);
            }
            Json::Null
        },
    }
}

fn encode_ev_post_deleted(e: &Events) -> (out: Json)
    requires
        e is PostDeleted,
    ensures
        out@ == spec_encode_events_data(e.deep_view()),
{
    match e {
        Events::PostDeleted { post } => {
            let mut fields: Vec<(String, Json)> = Vec::new();
            fields.push((String::from_str("post"), encode_post(post)));
            let out = Json::Obj(fields);
            proof {
                let fv = out->Obj_0@;
                crate::json::lemma_fields_view_index(fv);
                assert(fv.len() == 1);
                assert(fv[0].0@ == "post"@ && fv[0].1@ == spec_encode_post(e.deep_view()->PostDeleted_post));
                assert(spec_fields_view(fv) =~= spec_encode_events_data(e.deep_view())->Obj_0);
            }
            out
        },
        _ => {
            proof {
                assert(false);
            }
            Json::Null
        },
    }
}

fn encode_ev_channel_viewed(e: &Events) -> (out: Json)
    requires
        e is ChannelViewed,
    ensures
        out@ == spec_encode_events_data(e.deep_view()),
{
    match e {
        Events::ChannelViewed { channel_id } => {
            let mut fields: Vec<(String, Json)> = Vec::new();
            fields.push((String::from_str("channel_id"), Json::Str(channel_id.clone())));
            let out = Json::Obj(fields);
            proof {
                let fv = out->Obj_0@;
                crate::json::lemma_fields_view_index(fv);
                assert(fv.len() == 1);
                assert(fv[0].0@ == "channel_id"@ && fv[0].1@ == JsonV::Str(e.deep_view()->ChannelViewed_channel_id));
                assert(spec_fields_view(fv) =~= spec_encode_events_data(e.deep_view())->Obj_0);
            }
            out
        },
        _ => {
            proof {
                assert(false);
            }
            Json::Null
        },
    }
}

fn encode_ev_preferences_deleted(e: &Events) -> (out: Json)
    requires
        e is PreferencesDeleted,
    ensures
        out@ == spec_encode_events_data(e.deep_view()),
{
    match e {
        Events::PreferencesDeleted { preferences } => {
            let mut fields: Vec<(String, Json)> = Vec::new();
            fields.push((String::from_str("preferences"), Json::Str(preferences.clone())));
            let out = Json::Obj(fields);
            proof {
                let fv = out->Obj_0@;
                crate::json::lemma_fields_view_index(fv);
                assert(fv.len() == 1);
                assert(fv[0].0@ == "preferences"@ && fv[0].1@ == JsonV::Str(e.deep_view()->PreferencesDeleted_preferences));
                assert(spec_fields_view(fv) =~= spec_encode_events_data(e.deep_view())->Obj_0);
            }
            out
        },
        _ => {
            proof {
                assert(false);
            }
            Json::Null
        },
    }
}

fn encode_ev_channel_updated(e: &Events) -> (out: Json)
    requires
        e is ChannelUpdated,
    ensures
        out@ == spec_encode_events_data(e.deep_view()),
{
    match e {
        Events::ChannelUpdated { channel } => {
            let mut fields: Vec<(String, Json)> = Vec::new();
            fields.push((String::from_str("channel"), encode_channel(channel)));
            let out = Json::Obj(fields);
            proof {
                let fv = out->Obj_0@;
                crate::json::lemma_fields_view_index(fv);
                assert(fv.len() == 1);
                assert(fv[0].0@ == "channel"@ && fv[0].1@ == spec_encode_channel(e.deep_view()->ChannelUpdated_channel));
                assert(spec_fields_view(fv) =~= spec_encode_events_data(e.deep_view())->Obj_0);
            }
            out
        },
        _ => {
            proof {
                assert(false);
            }
            Json::Null
        },
    }
}

fn encode_ev_reaction_removed(e: &Events) -> (out: Json)
    requires
        e is ReactionRemoved,
    ensures
        out@ == spec_encode_events_data(e.deep_view()),
{
    match e {
        Events::ReactionRemoved { reaction } => {
            let mut fields: Vec<(String, Json)> = Vec::new();
            fields.push((String::from_str("reaction"), encode_reaction(reaction)));
            let out = Json::Obj(fields);
            proof {
                let fv = out->Obj_0@;
                crate::json::lemma_fields_view_index(fv);
                assert(fv.len() == 1);
                assert(fv[0].0@ == "reaction"@ && fv[0].1@ == spec_encode_reaction(e.deep_view()->ReactionRemoved_reaction));
                assert(spec_fields_view(fv) =~= spec_encode_events_data(e.deep_view())->Obj_0);
            }
            out
        },
        _ => {
            proof {
                assert(false);
            }
            Json::Null
        },
    }
}

fn encode_ev_new_user(e: &Events) -> (out: Json)
    requires
        e is NewUser,
    ensures
        out@ == spec_encode_events_data(e.deep_view()),
{
    match e {
        Events::NewUser { user_id } => {
            let mut fields: Vec<(String, Json)> = Vec::new();
            fields.push((String::from_str("user_id"), Json::Str(user_id.clone())));
            let out = Json::Obj(fields);
            proof {
                let fv = out->Obj_0@;
                crate::json::lemma_fields_view_index(fv);
                assert(fv.len() == 1);
                assert(fv[0].0@ == "user_id"@ && fv[0].1@ == JsonV::Str(e.deep_view()->NewUser_user_id));
                assert(spec_fields_view(fv) =~= spec_encode_events_data(e.deep_view())->Obj_0);
            }
            out
        },
        _ => {
            proof {
                assert(false);
            }
            Json::Null
        },
    }
}

fn encode_ev_emoji_added(e: &Events) -> (out: Json)
    requires
        e is EmojiAdded,
    ensures
        out@ == spec_encode_events_data(e.deep_view()),
{
    match e {
        Events::EmojiAdded { emoji } => {
            let mut fields: Vec<(String, Json)> = Vec::new();
            fields.push((String::from_str("emoji"), encode_emoji(emoji)));
            let out = Json::Obj(fields);
            proof {
                let fv = out->Obj_0@;
                crate::json::lemma_fields_view_index(fv);
                assert(fv.len() == 1);
                assert(fv[0].0@ == "emoji"@ && fv[0].1@ == spec_encode_emoji(e.deep_view()->EmojiAdded_emoji));
                assert(spec_fields_view(fv) =~= spec_encode_events_data(e.deep_view())->Obj_0);
            }
            out
        },
        _ => {
            proof {
                assert(false);
            }
            Json::Null
        },
    }
}

fn encode_ev_channel_deleted(e: &Events) -> (out: Json)
    requires
        e is ChannelDeleted,
    ensures
        out@ == spec_encode_events_data(e.deep_view()),
{
    match e {
        Events::ChannelDeleted { channel_id, delete_at } => {
            let mut fields: Vec<(String, Json)> = Vec::new();
            fields.push((String::from_str("channel_id"), Json::Str(channel_id.clone())));
            fields.push((String::from_str("delete_at"), (match delete_at {
        Some(n) => Json::Int(*n),
        None => Json::Null,
    })));
            let out = Json::Obj(fields);
            proof {
                let fv = out->Obj_0@;
                crate::json::lemma_fields_view_index(fv);
                assert(fv.len() == 2);
                assert(fv[0].0@ == "channel_id"@ && fv[0].1@ == JsonV::Str(e.deep_view()->ChannelDeleted_channel_id));
                assert(fv[1].0@ == "delete_at"@ && fv[1].1@ == (match e.deep_view()->ChannelDeleted_delete_at {
            Some(n) => JsonV::Int(n),
            None => JsonV::Null,
        }));
                assert(spec_fields_view(fv) =~= spec_encode_events_data(e.deep_view())->Obj_0);
            }
            out
        },
        _ => {
            proof {
                assert(false);
            }
            Json::Null
        },
    }
}

fn encode_ev_direct_added(e: &Events) -> (out: Json)
    requires
        e is DirectAdded,
    ensures
        out@ == spec_encode_events_data(e.deep_view()),
{
    match e {
        Events::DirectAdded { teammate_id } => {
            let mut fields: Vec<(String, Json)> = Vec::new();
            fields.push((String::from_str("teammate_id"), Json::Str(teammate_id.clone())));
            let out = Json::Obj(fields);
            proof {
                let fv = out->Obj_0@;
                crate::json::lemma_fields_view_index(fv);
                assert(fv.len() == 1);
                assert(fv[0].0@ == "teammate_id"@ && fv[0].1@ == JsonV::Str(e.deep_view()->DirectAdded_teammate_id));
                assert(spec_fields_view(fv) =~= spec_encode_events_data(e.deep_view())->Obj_0);
            }
            out
        },
        _ => {
            proof {
                assert(false);
            }
            Json::Null
        },
    }
}

fn encode_ev_update_team(e: &Events) -> (out: Json)
    requires
        e is UpdateTeam,
    ensures
        out@ == spec_encode_events_data(e.deep_view()),
{
    match e {
        Events::UpdateTeam { team } => {
            let mut fields: Vec<(String, Json)> = Vec::new();
            fields.push((String::from_str("team"), encode_team(team)));
            let out = Json::Obj(fields);
            proof {
                let fv = out->Obj_0@;
                crate::json::lemma_fields_view_index(fv);
                assert(fv.len() == 1);
                assert(fv[0].0@ == "team"@ && fv[0].1@ == spec_encode_team(e.deep_view()->UpdateTeam_team));
                assert(spec_fields_view(fv) =~= spec_encode_events_data(e.deep_view())->Obj_0);
            }
            out
        },
        _ => {
            proof {
                assert(false);
            }
            Json::Null
        },
    }
}

fn encode_ev_user_added(e: &Events) -> (out: Json)
    requires
        e is UserAdded,
    ensures
        out@ == spec_encode_events_data(e.deep_view()),
{
    match e {
        Events::UserAdded { team_id, user_id } => {
            let mut fields: Vec<(String, Json)> = Vec::new();
            fields.push((String::from_str("team_id"), Json::Str(team_id.clone())));
            fields.push((String::from_str("user_id"), Json::Str(user_id.clone())));
            let out = Json::Obj(fields);
            proof {
                let fv = out->Obj_0@;
                crate::json::lemma_fields_view_index(fv);
                assert(fv.len() == 2);
                assert(fv[0].0@ == "team_id"@ && fv[0].1@ == JsonV::Str(e.deep_view()->UserAdded_team_id));
                assert(fv[1].0@ == "user_id"@ && fv[1].1@ == JsonV::Str(e.deep_view()->UserAdded_user_id));
                assert(spec_fields_view(fv) =~= spec_encode_events_data(e.deep_view())->Obj_0);
            }
            out
        },
        _ => {
            proof {
                assert(false);
            }
            Json::Null
        },
    }
}

fn encode_ev_user_removed(e: &Events) -> (out: Json)
    requires
        e is UserRemoved,
    ensures
        out@ == spec_encode_events_data(e.deep_view()),
{
    match e {
        Events::UserRemoved { remover_id, user_id } => {
            let mut fields: Vec<(String, Json)> = Vec::new();
            fields.push((String::from_str("remover_id"), Json::Str(remover_id.clone())));
            fields.push((String::from_str("user_id"), Json::Str(user_id.clone())));
            let out = Json::Obj(fields);
            proof {
                let fv = out->Obj_0@;
                crate::json::lemma_fields_view_index(fv);
                assert(fv.len() == 2);
                assert(fv[0].0@ == "remover_id"@ && fv[0].1@ == JsonV::Str(e.deep_view()->UserRemoved_remover_id));
                assert(fv[1].0@ == "user_id"@ && fv[1].1@ == JsonV::Str(e.deep_view()->UserRemoved_user_id));
                assert(spec_fields_view(fv) =~= spec_encode_events_data(e.deep_view())->Obj_0);
            }
            out
        },
        _ => {
            proof {
                assert(false);
            }
            Json::Null
        },
    }
}

fn encode_ev_leave_team(e: &Events) -> (out: Json)
    requires
        e is LeaveTeam,
    ensures
        out@ == spec_encode_events_data(e.deep_view()),
{
    match e {
        Events::LeaveTeam { team_id, user_id } => {
            let mut fields: Vec<(String, Json)> = Vec::new();
            fields.push((String::from_str("team_id"), Json::Str(team_id.clone())));
            fields.push((String::from_str("user_id"), Json::Str(user_id.clone())));
            let out = Json::Obj(fields);
            proof {
                let fv = out->Obj_0@;
                crate::json::lemma_fields_view_index(fv);
                assert(fv.len() == 2);
                assert(fv[0].0@ == "team_id"@ && fv[0].1@ == JsonV::Str(e.deep_view()->LeaveTeam_team_id));
                assert(fv[1].0@ == "user_id"@ && fv[1].1@ == JsonV::Str(e.deep_view()->LeaveTeam_user_id));
                assert(spec_fields_view(fv) =~= spec_encode_events_data(e.deep_view())->Obj_0);
            }
            out
        },
        _ => {
            proof {
                assert(false);
            }
            Json::Null
        },
    }
}

fn encode_ev_config_changed(e: &Events) -> (out: Json)
    requires
        e is ConfigChanged,
    ensures
        out@ == spec_encode_events_data(e.deep_view()),
{
    match e {
        Events::ConfigChanged { config } => {
            let mut fields: Vec<(String, Json)> = Vec::new();
            fields.push((String::from_str("config"), encode_config(config)));
            let out = Json::Obj(fields);
            proof {
                let fv = out->Obj_0@;
                crate::json::lemma_fields_view_index(fv);
                assert(fv.len() == 1);
                assert(fv[0].0@ == "config"@ && fv[0].1@ == spec_encode_config(e.deep_view()->ConfigChanged_config));
                assert(spec_fields_view(fv) =~= spec_encode_events_data(e.deep_view())->Obj_0);
            }
            out
        },
        _ => {
            proof {
                assert(false);
            }
            Json::Null
        },
    }
}

fn encode_ev_group_added(e: &Events) -> (out: Json)
    requires
        e is GroupAdded,
    ensures
        out@ == spec_encode_events_data(e.deep_view()),
{
    match e {
        Events::GroupAdded { teammate_ids } => {
            let mut fields: Vec<(String, Json)> = Vec::new();
            fields.push((String::from_str("teammate_ids"), encode_strlist(teammate_ids)));
            let out = Json::Obj(fields);
            proof {
                let fv = out->Obj_0@;
                crate::json::lemma_fields_view_index(fv);
                assert(fv.len() == 1);
                assert(fv[0].0@ == "teammate_ids"@ && fv[0].1@ == spec_encode_strlist(e.deep_view()->GroupAdded_teammate_ids));
                assert(spec_fields_view(fv) =~= spec_encode_events_data(e.deep_view())->Obj_0);
            }
            out
        },
        _ => {
            proof {
                assert(false);
            }
            Json::Null
        },
    }
}

fn encode_ev_delete_team(e: &Events) -> (out: Json)
    requires
        e is DeleteTeam,
    ensures
        out@ == spec_encode_events_data(e.deep_view()),
{
    match e {
        Events::DeleteTeam { team } => {
            let mut fields: Vec<(String, Json)> = Vec::new();
            fields.push((String::from_str("team"), encode_team(team)));
            let out = Json::Obj(fields);
            proof {
                let fv = out->Obj_0@;
                crate::json::lemma_fields_view_index(fv);
                assert(fv.len() == 1);
                assert(fv[0].0@ == "team"@ && fv[0].1@ == spec_encode_team(e.deep_view()->DeleteTeam_team));
                assert(spec_fields_view(fv) =~= spec_encode_events_data(e.deep_view())->Obj_0);
            }
            out
        },
        _ => {
            proof {
                assert(false);
            }
            Json::Null
        },
    }
}

fn encode_ev_channel_member_updated(e: &Events) -> (out: Json)
    requires
        e is ChannelMemberUpdated,
    ensures
        out@ == spec_encode_events_data(e.deep_view()),
{
    match e {
        Events::ChannelMemberUpdated { channel_member } => {
            let mut fields: Vec<(String, Json)> = Vec::new();
            fields.push((String::from_str("channelMember"), encode_channel_member(channel_member)));
            let out = Json::Obj(fields);
            proof {
                let fv = out->Obj_0@;
                crate::json::lemma_fields_view_index(fv);
                assert(fv.len() == 1);
                assert(fv[0].0@ == "channelMember"@ && fv[0].1@ == spec_encode_channel_member(e.deep_view()->ChannelMemberUpdated_channel_member));
                assert(spec_fields_view(fv) =~= spec_encode_events_data(e.deep_view())->Obj_0);
            }
            out
        },
        _ => {
            proof {
                assert(false);
            }
            Json::Null
        },
    }
}

/// Encode a recognized event's data object; the ignored variant has
/// data and is written as null.
pub fn encode_events_data(e: &Events) -> (out: Json)
    ensures
        out@ == spec_encode_events_data(e.deep_view()),
{
    match e {
        Events::Hello { .. } => encode_ev_hello(e),
        Events::StatusChange { .. } => encode_ev_status_change(e),
        Events::EphemeralMessage { .. } => encode_ev_ephemeral_message(e),
        Events::Typing { .. } => encode_ev_typing(e),
        Events::Posted { .. } => encode_ev_posted(e),
        Events::ReactionAdded { .. } => encode_ev_reaction_added(e),
        Events::PostEdited { .. } => encode_ev_post_edited(e),
        Events::ChannelCreated { .. } => encode_ev_channel_created(e),
        Events::PreferencesChanged { .. } => encode_ev_preferences_changed(e),
        Events::UserUpdated { .. } => encode_ev_user_updated(e),
        Events::PostDeleted { .. } => encode_ev_post_deleted(e),
        Events::ChannelViewed { .. } => encode_ev_channel_viewed(e),
        Events::PreferencesDeleted { .. } => encode_ev_preferences_deleted(e),
        Events::ChannelUpdated { .. } => encode_ev_channel_updated(e),
        Events::ReactionRemoved { .. } => encode_ev_reaction_removed(e),
        Events::NewUser { .. } => encode_ev_new_user(e),
        Events::EmojiAdded { .. } => encode_ev_emoji_added(e),
        Events::ChannelDeleted { .. } => encode_ev_channel_deleted(e),
        Events::DirectAdded { .. } => encode_ev_direct_added(e),
        Events::UpdateTeam { .. } => encode_ev_update_team(e),
        Events::UserAdded { .. } => encode_ev_user_added(e),
        Events::UserRemoved { .. } => encode_ev_user_removed(e),
        Events::LeaveTeam { .. } => encode_ev_leave_team(e),
        Events::ConfigChanged { .. } => encode_ev_config_changed(e),
        Events::GroupAdded { .. } => encode_ev_group_added(e),
        Events::DeleteTeam { .. } => encode_ev_delete_team(e),
        Events::ChannelMemberUpdated { .. } => encode_ev_channel_member_updated(e),
        Events::Ignored => Json::Null,
    }
}

#[verifier::rlimit(100)]
proof fn lemma_ev_rt_hello(e: EventsV)
    requires
        e is Hello,
        e.wf(),
    ensures
        spec_decode_ev_hello(Some(spec_encode_events_data(e))) == Some(e),
{
    reveal(spec_decode_ev_hello);
    match e {
        EventsV::Hello { server_version } => {
            reveal_strlit("server_version");
            let d = spec_encode_events_data(e)->Obj_0;
            reveal_with_fuel(spec_obj_get, 3);
            assert(spec_obj_get(d, "server_version"@) == Some(JsonV::Str(server_version)));
        },
        _ => {},
    }
}

#[verifier::rlimit(100)]
proof fn lemma_ev_rt_status_change(e: EventsV)
    requires
        e is StatusChange,
        e.wf(),
    ensures
        spec_decode_ev_status_change(Some(spec_encode_events_data(e))) == Some(e),
{
    reveal(spec_decode_ev_status_change);
    match e {
        EventsV::StatusChange { status, user_id } => {
            reveal_strlit("status");
            reveal_strlit("user_id");
            assert("status"@.len() != "user_id"@.len());
            let d = spec_encode_events_data(e)->Obj_0;
            reveal_with_fuel(spec_obj_get, 4);
            assert(spec_obj_get(d, "status"@) == Some(JsonV::Str(status.spec_wire_name())));
            assert(spec_obj_get(d, "user_id"@) == Some(JsonV::Str(user_id)));
            status.lemma_wire_name_round_trip();
        },
        _ => {},
    }
}

#[verifier::rlimit(100)]
proof fn lemma_ev_rt_ephemeral_message(e: EventsV)
    requires
        e is EphemeralMessage,
        e.wf(),
    ensures
        spec_decode_ev_ephemeral_message(Some(spec_encode_events_data(e))) == Some(e),
{
    reveal(spec_decode_ev_ephemeral_message);
    match e {
        EventsV::EphemeralMessage { post } => {
            reveal_strlit("post");
            let d = spec_encode_events_data(e)->Obj_0;
            reveal_with_fuel(spec_obj_get, 3);
            assert(spec_obj_get(d, "post"@) == Some(spec_encode_post(post)));
            lemma_post_round_trip(post);
        },
        _ => {},
    }
}

#[verifier::rlimit(100)]
proof fn lemma_ev_rt_typing(e: EventsV)
    requires
        e is Typing,
        e.wf(),
    ensures
        spec_decode_ev_typing(Some(spec_encode_events_data(e))) == Some(e),
{
    reveal(spec_decode_ev_typing);
    match e {
        EventsV::Typing { parent_id, user_id } => {
            reveal_strlit("parent_id");
            reveal_strlit("user_id");
            assert("parent_id"@.len() != "user_id"@.len());
            let d = spec_encode_events_data(e)->Obj_0;
            reveal_with_fuel(spec_obj_get, 4);
            assert(spec_obj_get(d, "parent_id"@) == Some(JsonV::Str(parent_id)));
            assert(spec_obj_get(d, "user_id"@) == Some(JsonV::Str(user_id)));
        },
        _ => {},
    }
}

#[verifier::rlimit(100)]
proof fn lemma_ev_rt_posted(e: EventsV)
    requires
        e is Posted,
        e.wf(),
    ensures
        spec_decode_ev_posted(Some(spec_encode_events_data(e))) == Some(e),
{
    reveal(spec_decode_ev_posted);
    match e {
        EventsV::Posted { channel_display_name, channel_name, channel_type, post, sender_name, team_id, mentions, image, other_file } => {
            reveal_strlit("channel_display_name");
            reveal_strlit("channel_name");
            reveal_strlit("channel_type");
            reveal_strlit("image");
            reveal_strlit("mentions");
            reveal_strlit("otherFile");
            reveal_strlit("post");
            reveal_strlit("sender_name");
            reveal_strlit("team_id");
            assert("channel_display_name"@.len() != "channel_name"@.len());
            assert("channel_display_name"@.len() != "channel_type"@.len());
            assert("channel_display_name"@.len() != "post"@.len());
            assert("channel_display_name"@.len() != "sender_name"@.len());
            assert("channel_display_name"@.len() != "team_id"@.len());
            assert("channel_display_name"@.len() != "mentions"@.len());
            assert("channel_display_name"@.len() != "image"@.len());
            assert("channel_display_name"@.len() != "otherFile"@.len());
            assert("channel_name"@ != "channel_type"@) by {
                assert("channel_name"@[8] == 'n');
                assert("channel_type"@[8] == 't');
            }
            assert("channel_name"@.len() != "post"@.len());
            assert("channel_name"@.len() != "sender_name"@.len());
            assert("channel_name"@.len() != "team_id"@.len());
            assert("channel_name"@.len() != "mentions"@.len());
            assert("channel_name"@.len() != "image"@.len());
            assert("channel_name"@.len() != "otherFile"@.len());
            assert("channel_type"@.len() != "post"@.len());
            assert("channel_type"@.len() != "sender_name"@.len());
            assert("channel_type"@.len() != "team_id"@.len());
            assert("channel_type"@.len() != "mentions"@.len());
            assert("channel_type"@.len() != "image"@.len());
            assert("channel_type"@.len() != "otherFile"@.len());
            assert("post"@.len() != "sender_name"@.len());
            assert("post"@.len() != "team_id"@.len());
            assert("post"@.len() != "mentions"@.len());
            assert("post"@.len() != "image"@.len());
            assert("post"@.len() != "otherFile"@.len());
            assert("sender_name"@.len() != "team_id"@.len());
            assert("sender_name"@.len() != "mentions"@.len());
            assert("sender_name"@.len() != "image"@.len());
            assert("sender_name"@.len() != "otherFile"@.len());
            assert("team_id"@.len() != "mentions"@.len());
            assert("team_id"@.len() != "image"@.len());
            assert("team_id"@.len() != "otherFile"@.len());
            assert("mentions"@.len() != "image"@.len());
            assert("mentions"@.len() != "otherFile"@.len());
            assert("image"@.len() != "otherFile"@.len());
            let d = spec_encode_events_data(e)->Obj_0;
            reveal_with_fuel(spec_obj_get, 11);
            assert(spec_obj_get(d, "channel_display_name"@) == Some(JsonV::Str(channel_display_name)));
            assert(spec_obj_get(d, "channel_name"@) == Some(JsonV::Str(channel_name)));
            assert(spec_obj_get(d, "channel_type"@) == Some(JsonV::Str(channel_type.spec_wire_name())));
            assert(spec_obj_get(d, "post"@) == Some(spec_encode_post(post)));
            assert(spec_obj_get(d, "sender_name"@) == Some(JsonV::Str(sender_name)));
            assert(spec_obj_get(d, "team_id"@) == Some(JsonV::Str(team_id)));
            assert(spec_obj_get(d, "mentions"@) == Some((match mentions {
            Some(x) => spec_encode_strlist(x),
            None => JsonV::Null,
        })));
            assert(spec_obj_get(d, "image"@) == Some((match image {
            Some(s) => JsonV::Str(s),
            None => JsonV::Null,
        })));
            assert(spec_obj_get(d, "otherFile"@) == Some((match other_file {
            Some(s) => JsonV::Str(s),
            None => JsonV::Null,
        })));
            channel_type.lemma_wire_name_round_trip();
            lemma_post_round_trip(post);
            match mentions {
            Some(x) => lemma_strlist_round_trip(x),
            None => {},
        }
        },
        _ => {},
    }
}

#[verifier::rlimit(100)]
proof fn lemma_ev_rt_reaction_added(e: EventsV)
    requires
        e is ReactionAdded,
        e.wf(),
    ensures
        spec_decode_ev_reaction_added(Some(spec_encode_events_data(e))) == Some(e),
{
    reveal(spec_decode_ev_reaction_added);
    match e {
        EventsV::ReactionAdded { reaction } => {
            reveal_strlit("reaction");
            let d = spec_encode_events_data(e)->Obj_0;
            reveal_with_fuel(spec_obj_get, 3);
            assert(spec_obj_get(d, "reaction"@) == Some(spec_encode_reaction(reaction)));
            lemma_reaction_round_trip(reaction);
        },
        _ => {},
    }
}

#[verifier::rlimit(100)]
proof fn lemma_ev_rt_post_edited(e: EventsV)
    requires
        e is PostEdited,
        e.wf(),
    ensures
        spec_decode_ev_post_edited(Some(spec_encode_events_data(e))) == Some(e),
{
    reveal(spec_decode_ev_post_edited);
    match e {
        EventsV::PostEdited { post } => {
            reveal_strlit("post");
            let d = spec_encode_events_data(e)->Obj_0;
            reveal_with_fuel(spec_obj_get, 3);
            assert(spec_obj_get(d, "post"@) == Some(spec_encode_post(post)));
            lemma_post_round_trip(post);
        },
        _ => {},
    }
}

#[verifier::rlimit(100)]
proof fn lemma_ev_rt_channel_created(e: EventsV)
    requires
        e is ChannelCreated,
        e.wf(),
    ensures
        spec_decode_ev_channel_created(Some(spec_encode_events_data(e))) == Some(e),
{
    reveal(spec_decode_ev_channel_created);
    match e {
        EventsV::ChannelCreated { channel_id, team_id } => {
            reveal_strlit("channel_id");
            reveal_strlit("team_id");
            assert("channel_id"@.len() != "team_id"@.len());
            let d = spec_encode_events_data(e)->Obj_0;
            reveal_with_fuel(spec_obj_get, 4);
            assert(spec_obj_get(d, "channel_id"@) == Some(JsonV::Str(channel_id)));
            assert(spec_obj_get(d, "team_id"@) == Some(JsonV::Str(team_id)));
        },
        _ => {},
    }
}

#[verifier::rlimit(100)]
proof fn lemma_ev_rt_preferences_changed(e: EventsV)
    requires
        e is PreferencesChanged,
        e.wf(),
    ensures
        spec_decode_ev_preferences_changed(Some(spec_encode_events_data(e))) == Some(e),
{
    reveal(spec_decode_ev_preferences_changed);
    match e {
        EventsV::PreferencesChanged { preferences } => {
            reveal_strlit("preferences");
            let d = spec_encode_events_data(e)->Obj_0;
            reveal_with_fuel(spec_obj_get, 3);
            assert(spec_obj_get(d, "preferences"@) == Some(JsonV::Str(preferences)));
        },
        _ => {},
    }
}

#[verifier::rlimit(100)]
proof fn lemma_ev_rt_user_updated(e: EventsV)
    requires
        e is UserUpdated,
        e.wf(),
    ensures
        spec_decode_ev_user_updated(Some(spec_encode_events_data(e))) == Some(e),
{
    reveal(spec_decode_ev_user_updated);
    match e {
        EventsV::UserUpdated { user } => {
            reveal_strlit("user");
            let d = spec_encode_events_data(e)->Obj_0;
            reveal_with_fuel(spec_obj_get, 3);
            assert(spec_obj_get(d, "user"@) == Some(spec_encode_user(user)));
            lemma_user_round_trip(user);
        },
        _ => {},
    }
}

#[verifier::rlimit(100)]
proof fn lemma_ev_rt_post_deleted(e: EventsV)
    requires
        e is PostDeleted,
        e.wf(),
    ensures
        spec_decode_ev_post_deleted(Some(spec_encode_events_data(e))) == Some(e),
{
    reveal(spec_decode_ev_post_deleted);
    match e {
        EventsV::PostDeleted { post } => {
            reveal_strlit("post");
            let d = spec_encode_events_data(e)->Obj_0;
            reveal_with_fuel(spec_obj_get, 3);
            assert(spec_obj_get(d, "post"@) == Some(spec_encode_post(post)));
            lemma_post_round_trip(post);
        },
        _ => {},
    }
}

#[verifier::rlimit(100)]
proof fn lemma_ev_rt_channel_viewed(e: EventsV)
    requires
        e is ChannelViewed,
        e.wf(),
    ensures
        spec_decode_ev_channel_viewed(Some(spec_encode_events_data(e))) == Some(e),
{
    reveal(spec_decode_ev_channel_viewed);
    match e {
        EventsV::ChannelViewed { channel_id } => {
            reveal_strlit("channel_id");
            let d = spec_encode_events_data(e)->Obj_0;
            reveal_with_fuel(spec_obj_get, 3);
            assert(spec_obj_get(d, "channel_id"@) == Some(JsonV::Str(channel_id)));
        },
        _ => {},
    }
}

#[verifier::rlimit(100)]
proof fn lemma_ev_rt_preferences_deleted(e: EventsV)
    requires
        e is PreferencesDeleted,
        e.wf(),
    ensures
        spec_decode_ev_preferences_deleted(Some(spec_encode_events_data(e))) == Some(e),
{
    reveal(spec_decode_ev_preferences_deleted);
    match e {
        EventsV::PreferencesDeleted { preferences } => {
            reveal_strlit("preferences");
            let d = spec_encode_events_data(e)->Obj_0;
            reveal_with_fuel(spec_obj_get, 3);
            assert(spec_obj_get(d, "preferences"@) == Some(JsonV::Str(preferences)));
        },
        _ => {},
    }
}

#[verifier::rlimit(100)]
proof fn lemma_ev_rt_channel_updated(e: EventsV)
    requires
        e is ChannelUpdated,
        e.wf(),
    ensures
        spec_decode_ev_channel_updated(Some(spec_encode_events_data(e))) == Some(e),
{
    reveal(spec_decode_ev_channel_updated);
    match e {
        EventsV::ChannelUpdated { channel } => {
            reveal_strlit("channel");
            let d = spec_encode_events_data(e)->Obj_0;
            reveal_with_fuel(spec_obj_get, 3);
            assert(spec_obj_get(d, "channel"@) == Some(spec_encode_channel(channel)));
            lemma_channel_round_trip(channel);
        },
        _ => {},
    }
}

#[verifier::rlimit(100)]
proof fn lemma_ev_rt_reaction_removed(e: EventsV)
    requires
        e is ReactionRemoved,
        e.wf(),
    ensures
        spec_decode_ev_reaction_removed(Some(spec_encode_events_data(e))) == Some(e),
{
    reveal(spec_decode_ev_reaction_removed);
    match e {
        EventsV::ReactionRemoved { reaction } => {
            reveal_strlit("reaction");
            let d = spec_encode_events_data(e)->Obj_0;
            reveal_with_fuel(spec_obj_get, 3);
            assert(spec_obj_get(d, "reaction"@) == Some(spec_encode_reaction(reaction)));
            lemma_reaction_round_trip(reaction);
        },
        _ => {},
    }
}

#[verifier::rlimit(100)]
proof fn lemma_ev_rt_new_user(e: EventsV)
    requires
        e is NewUser,
        e.wf(),
    ensures
        spec_decode_ev_new_user(Some(spec_encode_events_data(e))) == Some(e),
{
    reveal(spec_decode_ev_new_user);
    match e {
        EventsV::NewUser { user_id } => {
            reveal_strlit("user_id");
            let d = spec_encode_events_data(e)->Obj_0;
            reveal_with_fuel(spec_obj_get, 3);
            assert(spec_obj_get(d, "user_id"@) == Some(JsonV::Str(user_id)));
        },
        _ => {},
    }
}

#[verifier::rlimit(100)]
proof fn lemma_ev_rt_emoji_added(e: EventsV)
    requires
        e is EmojiAdded,
        e.wf(),
    ensures
        spec_decode_ev_emoji_added(Some(spec_encode_events_data(e))) == Some(e),
{
    reveal(spec_decode_ev_emoji_added);
    match e {
        EventsV::EmojiAdded { emoji } => {
            reveal_strlit("emoji");
            let d = spec_encode_events_data(e)->Obj_0;
            reveal_with_fuel(spec_obj_get, 3);
            assert(spec_obj_get(d, "emoji"@) == Some(spec_encode_emoji(emoji)));
            lemma_emoji_round_trip(emoji);
        },
        _ => {},
    }
}

#[verifier::rlimit(100)]
proof fn lemma_ev_rt_channel_deleted(e: EventsV)
    requires
        e is ChannelDeleted,
        e.wf(),
    ensures
        spec_decode_ev_channel_deleted(Some(spec_encode_events_data(e))) == Some(e),
{
    reveal(spec_decode_ev_channel_deleted);
    match e {
        EventsV::ChannelDeleted { channel_id, delete_at } => {
            reveal_strlit("channel_id");
            reveal_strlit("delete_at");
            assert("channel_id"@.len() != "delete_at"@.len());
            let d = spec_encode_events_data(e)->Obj_0;
            reveal_with_fuel(spec_obj_get, 4);
            assert(spec_obj_get(d, "channel_id"@) == Some(JsonV::Str(channel_id)));
            assert(spec_obj_get(d, "delete_at"@) == Some((match delete_at {
            Some(n) => JsonV::Int(n),
            None => JsonV::Null,
        })));
        },
        _ => {},
    }
}

#[verifier::rlimit(100)]
proof fn lemma_ev_rt_direct_added(e: EventsV)
    requires
        e is DirectAdded,
        e.wf(),
    ensures
        spec_decode_ev_direct_added(Some(spec_encode_events_data(e))) == Some(e),
{
    reveal(spec_decode_ev_direct_added);
    match e {
        EventsV::DirectAdded { teammate_id } => {
            reveal_strlit("teammate_id");
            let d = spec_encode_events_data(e)->Obj_0;
            reveal_with_fuel(spec_obj_get, 3);
            assert(spec_obj_get(d, "teammate_id"@) == Some(JsonV::Str(teammate_id)));
        },
        _ => {},
    }
}

#[verifier::rlimit(100)]
proof fn lemma_ev_rt_update_team(e: EventsV)
    requires
        e is UpdateTeam,
        e.wf(),
    ensures
        spec_decode_ev_update_team(Some(spec_encode_events_data(e))) == Some(e),
{
    reveal(spec_decode_ev_update_team);
    match e {
        EventsV::UpdateTeam { team } => {
            reveal_strlit("team");
            let d = spec_encode_events_data(e)->Obj_0;
            reveal_with_fuel(spec_obj_get, 3);
            assert(spec_obj_get(d, "team"@) == Some(spec_encode_team(team)));
            lemma_team_round_trip(team);
        },
        _ => {},
    }
}

#[verifier::rlimit(100)]
proof fn lemma_ev_rt_user_added(e: EventsV)
    requires
        e is UserAdded,
        e.wf(),
    ensures
        spec_decode_ev_user_added(Some(spec_encode_events_data(e))) == Some(e),
{
    reveal(spec_decode_ev_user_added);
    match e {
        EventsV::UserAdded { team_id, user_id } => {
            reveal_strlit("team_id");
            reveal_strlit("user_id");
            assert("team_id"@ != "user_id"@) by {
                assert("team_id"@[0] == 't');
                assert("user_id"@[0] == 'u');
            }
            let d = spec_encode_events_data(e)->Obj_0;
            reveal_with_fuel(spec_obj_get, 4);
            assert(spec_obj_get(d, "team_id"@) == Some(JsonV::Str(team_id)));
            assert(spec_obj_get(d, "user_id"@) == Some(JsonV::Str(user_id)));
        },
        _ => {},
    }
}

#[verifier::rlimit(100)]
proof fn lemma_ev_rt_user_removed(e: EventsV)
    requires
        e is UserRemoved,
        e.wf(),
    ensures
        spec_decode_ev_user_removed(Some(spec_encode_events_data(e))) == Some(e),
{
    reveal(spec_decode_ev_user_removed);
    match e {
        EventsV::UserRemoved { remover_id, user_id } => {
            reveal_strlit("remover_id");
            reveal_strlit("user_id");
            assert("remover_id"@.len() != "user_id"@.len());
            let d = spec_encode_events_data(e)->Obj_0;
            reveal_with_fuel(spec_obj_get, 4);
            assert(spec_obj_get(d, "remover_id"@) == Some(JsonV::Str(remover_id)));
            assert(spec_obj_get(d, "user_id"@) == Some(JsonV::Str(user_id)));
        },
        _ => {},
    }
}

#[verifier::rlimit(100)]
proof fn lemma_ev_rt_leave_team(e: EventsV)
    requires
        e is LeaveTeam,
        e.wf(),
    ensures
        spec_decode_ev_leave_team(Some(spec_encode_events_data(e))) == Some(e),
{
    reveal(spec_decode_ev_leave_team);
    match e {
        EventsV::LeaveTeam { team_id, user_id } => {
            reveal_strlit("team_id");
            reveal_strlit("user_id");
            assert("team_id"@ != "user_id"@) by {
                assert("team_id"@[0] == 't');
                assert("user_id"@[0] == 'u');
            }
            let d = spec_encode_events_data(e)->Obj_0;
            reveal_with_fuel(spec_obj_get, 4);
            assert(spec_obj_get(d, "team_id"@) == Some(JsonV::Str(team_id)));
            assert(spec_obj_get(d, "user_id"@) == Some(JsonV::Str(user_id)));
        },
        _ => {},
    }
}

#[verifier::rlimit(100)]
proof fn lemma_ev_rt_config_changed(e: EventsV)
    requires
        e is ConfigChanged,
        e.wf(),
    ensures
        spec_decode_ev_config_changed(Some(spec_encode_events_data(e))) == Some(e),
{
    reveal(spec_decode_ev_config_changed);
    match e {
        EventsV::ConfigChanged { config } => {
            reveal_strlit("config");
            let d = spec_encode_events_data(e)->Obj_0;
            reveal_with_fuel(spec_obj_get, 3);
            assert(spec_obj_get(d, "config"@) == Some(spec_encode_config(config)));
            lemma_config_round_trip(config);
        },
        _ => {},
    }
}

#[verifier::rlimit(100)]
proof fn lemma_ev_rt_group_added(e: EventsV)
    requires
        e is GroupAdded,
        e.wf(),
    ensures
        spec_decode_ev_group_added(Some(spec_encode_events_data(e))) == Some(e),
{
    reveal(spec_decode_ev_group_added);
    match e {
        EventsV::GroupAdded { teammate_ids } => {
            reveal_strlit("teammate_ids");
            let d = spec_encode_events_data(e)->Obj_0;
            reveal_with_fuel(spec_obj_get, 3);
            assert(spec_obj_get(d, "teammate_ids"@) == Some(spec_encode_strlist(teammate_ids)));
            lemma_strlist_round_trip(teammate_ids);
        },
        _ => {},
    }
}

#[verifier::rlimit(100)]
proof fn lemma_ev_rt_delete_team(e: EventsV)
    requires
        e is DeleteTeam,
        e.wf(),
    ensures
        spec_decode_ev_delete_team(Some(spec_encode_events_data(e))) == Some(e),
{
    reveal(spec_decode_ev_delete_team);
    match e {
        EventsV::DeleteTeam { team } => {
            reveal_strlit("team");
            let d = spec_encode_events_data(e)->Obj_0;
            reveal_with_fuel(spec_obj_get, 3);
            assert(spec_obj_get(d, "team"@) == Some(spec_encode_team(team)));
            lemma_team_round_trip(team);
        },
        _ => {},
    }
}

#[verifier::rlimit(100)]
proof fn lemma_ev_rt_channel_member_updated(e: EventsV)
    requires
        e is ChannelMemberUpdated,
        e.wf(),
    ensures
        spec_decode_ev_channel_member_updated(Some(spec_encode_events_data(e))) == Some(e),
{
    reveal(spec_decode_ev_channel_member_updated);
    match e {
        EventsV::ChannelMemberUpdated { channel_member } => {
            reveal_strlit("channelMember");
            let d = spec_encode_events_data(e)->Obj_0;
            reveal_with_fuel(spec_obj_get, 3);
            assert(spec_obj_get(d, "channelMember"@) == Some(spec_encode_channel_member(channel_member)));
            lemma_channel_member_round_trip(channel_member);
        },
        _ => {},
    }
}

/// A recognized event decodes back from its own tag and encoded data
/// unchanged.
pub proof fn lemma_events_round_trip(e: EventsV)
    requires
        e.wf(),
    ensures
        spec_decode_events(spec_events_tag(e), Some(spec_encode_events_data(e))) == Some(e),
{
    match e {
        EventsV::Hello { .. } => {
            lemma_events_dispatch_hello(Some(spec_encode_events_data(e)));
            lemma_ev_rt_hello(e);
        },
        EventsV::StatusChange { .. } => {
            lemma_events_dispatch_status_change(Some(spec_encode_events_data(e)));
            lemma_ev_rt_status_change(e);
        },
        EventsV::EphemeralMessage { .. } => {
            lemma_events_dispatch_ephemeral_message(Some(spec_encode_events_data(e)));
            lemma_ev_rt_ephemeral_message(e);
        },
        EventsV::Typing { .. } => {
            lemma_events_dispatch_typing(Some(spec_encode_events_data(e)));
            lemma_ev_rt_typing(e);
        },
        EventsV::Posted { .. } => {
            lemma_events_dispatch_posted(Some(spec_encode_events_data(e)));
            lemma_ev_rt_posted(e);
        },
        EventsV::ReactionAdded { .. } => {
            lemma_events_dispatch_reaction_added(Some(spec_encode_events_data(e)));
            lemma_ev_rt_reaction_added(e);
        },
        EventsV::PostEdited { .. } => {
            lemma_events_dispatch_post_edited(Some(spec_encode_events_data(e)));
            lemma_ev_rt_post_edited(e);
        },
        EventsV::ChannelCreated { .. } => {
            lemma_events_dispatch_channel_created(Some(spec_encode_events_data(e)));
            lemma_ev_rt_channel_created(e);
        },
        EventsV::PreferencesChanged { .. } => {
            lemma_events_dispatch_preferences_changed(Some(spec_encode_events_data(e)));
            lemma_ev_rt_preferences_changed(e);
        },
        EventsV::UserUpdated { .. } => {
            lemma_events_dispatch_user_updated(Some(spec_encode_events_data(e)));
            lemma_ev_rt_user_updated(e);
        },
        EventsV::PostDeleted { .. } => {
            lemma_events_dispatch_post_deleted(Some(spec_encode_events_data(e)));
            lemma_ev_rt_post_deleted(e);
        },
        EventsV::ChannelViewed { .. } => {
            lemma_events_dispatch_channel_viewed(Some(spec_encode_events_data(e)));
            lemma_ev_rt_channel_viewed(e);
        },
        EventsV::PreferencesDeleted { .. } => {
            lemma_events_dispatch_preferences_deleted(Some(spec_encode_events_data(e)));
            lemma_ev_rt_preferences_deleted(e);
        },
        EventsV::ChannelUpdated { .. } => {
            lemma_events_dispatch_channel_updated(Some(spec_encode_events_data(e)));
            lemma_ev_rt_channel_updated(e);
        },
        EventsV::ReactionRemoved { .. } => {
            lemma_events_dispatch_reaction_removed(Some(spec_encode_events_data(e)));
            lemma_ev_rt_reaction_removed(e);
        },
        EventsV::NewUser { .. } => {
            lemma_events_dispatch_new_user(Some(spec_encode_events_data(e)));
            lemma_ev_rt_new_user(e);
        },
        EventsV::EmojiAdded { .. } => {
            lemma_events_dispatch_emoji_added(Some(spec_encode_events_data(e)));
            lemma_ev_rt_emoji_added(e);
        },
        EventsV::ChannelDeleted { .. } => {
            lemma_events_dispatch_channel_deleted(Some(spec_encode_events_data(e)));
            lemma_ev_rt_channel_deleted(e);
        },
        EventsV::DirectAdded { .. } => {
            lemma_events_dispatch_direct_added(Some(spec_encode_events_data(e)));
            lemma_ev_rt_direct_added(e);
        },
        EventsV::UpdateTeam { .. } => {
            lemma_events_dispatch_update_team(Some(spec_encode_events_data(e)));
            lemma_ev_rt_update_team(e);
        },
        EventsV::UserAdded { .. } => {
            lemma_events_dispatch_user_added(Some(spec_encode_events_data(e)));
            lemma_ev_rt_user_added(e);
        },
        EventsV::UserRemoved { .. } => {
            lemma_events_dispatch_user_removed(Some(spec_encode_events_data(e)));
            lemma_ev_rt_user_removed(e);
        },
        EventsV::LeaveTeam { .. } => {
            lemma_events_dispatch_leave_team(Some(spec_encode_events_data(e)));
            lemma_ev_rt_leave_team(e);
        },
        EventsV::ConfigChanged { .. } => {
            lemma_events_dispatch_config_changed(Some(spec_encode_events_data(e)));
            lemma_ev_rt_config_changed(e);
        },
        EventsV::GroupAdded { .. } => {
            lemma_events_dispatch_group_added(Some(spec_encode_events_data(e)));
            lemma_ev_rt_group_added(e);
        },
        EventsV::DeleteTeam { .. } => {
            lemma_events_dispatch_delete_team(Some(spec_encode_events_data(e)));
            lemma_ev_rt_delete_team(e);
        },
        EventsV::ChannelMemberUpdated { .. } => {
            lemma_events_dispatch_channel_member_updated(Some(spec_encode_events_data(e)));
            lemma_ev_rt_channel_member_updated(e);
        },
        EventsV::Ignored => {},
    }
}

/// The message a JSON value holds: a push when an `event` tag is present, a
/// reply when the acknowledgement shape is; anything else is a shape
/// failure.
pub open spec fn spec_decode_message(v: JsonV) -> Option<MessageV> {
    match v {
        JsonV::Obj(fs) => {
            match spec_obj_get(fs, "event"@) {
                Some(JsonV::Str(tag)) => {
                    let data = spec_obj_get(fs, "data"@);
                    let broadcast = (match spec_obj_get(fs, "broadcast"@) {
                        Some(bv) => spec_decode_broadcast(bv),
                        None => None,
                    });
                    let seq = spec_get_usize(fs, "seq"@);
                    let event = spec_decode_events(tag, data);
                    if event is Some && broadcast is Some && seq is Some {
                        Some(
                            MessageV::Push(
                                MessagePushV {
                                    event: event->0,
                                    broadcast: broadcast->0,
                                    seq: seq->0,
                                },
                            ),
                        )
                    } else {
                        None
                    }
                },
                Some(_) => None,
                None => {
                    let status = spec_get_str(fs, "status"@);
                    let seq_reply = spec_get_usize(fs, "seq_reply"@);
                    if status is Some && seq_reply is Some {
                        if status->0 == "OK"@ {
                            Some(
                                MessageV::Reply(
                                    MessageReplyV {
                                        status: MessageStatus::Accepted,
                                        seq_reply: seq_reply->0,
                                    },
                                ),
                            )
                        } else {
                            None
                        }
                    } else {
                        None
                    }
                },
            }
        },
        _ => None,
    }
}

/// The object form of a message.
pub open spec fn spec_encode_message(m: MessageV) -> JsonV {
    match m {
        MessageV::Push(p) => JsonV::Obj(
            seq![
                ("event"@, JsonV::Str(spec_events_tag(p.event))),
                ("data"@, spec_encode_events_data(p.event)),
                ("broadcast"@, spec_encode_broadcast(p.broadcast)),
                ("seq"@, JsonV::Int(if p.seq > i64::MAX {
                    i64::MAX as int
                } else {
                    p.seq
                })),
            ],
        ),
        MessageV::Reply(r) => JsonV::Obj(
            seq![
                ("status"@, JsonV::Str("OK"@)),
                ("seq_reply"@, JsonV::Int(if r.seq_reply > i64::MAX {
                    i64::MAX as int
                } else {
                    r.seq_reply
                })),
            ],
        ),
    }
}

/// Decode a message from a JSON value.
pub fn decode_message(v: &Json) -> (r: Option<Message>)
    ensures
        r.deep_view() == spec_decode_message(v@),
{
    match v {
        Json::Obj(fields) => {
            match obj_get(fields, "event") {
                Some(Json::Str(tag)) => {
                    let data = obj_get(fields, "data");
                    let x_event = decode_events(tag.as_str(), data);
                    let x_broadcast = match obj_get(fields, "broadcast") {
                        Some(bv) => decode_broadcast(bv),
                        None => None,
                    };
                    let x_seq = get_usize(fields, "seq");
                    if x_event.is_none() {
                        return None;
                    }
                    if x_broadcast.is_none() {
                        return None;
                    }
                    if x_seq.is_none() {
                        return None;
                    }
                    Some(
                        Message::Push(
                            MessagePush {
                                event: x_event.unwrap(),
                                broadcast: x_broadcast.unwrap(),
                                seq: x_seq.unwrap(),
                            },
                        ),
                    )
                },
                Some(_) => None,
                None => {
                    let x_status = get_str(fields, "status");
                    let x_seq_reply = get_usize(fields, "seq_reply");
                    match (x_status, x_seq_reply) {
                        (Some(st), Some(sq)) => {
                            if str_eq(st.as_str(), "OK") {
                                Some(
                                    Message::Reply(
                                        MessageReply {
                                            status: MessageStatus::Accepted,
                                            seq_reply: sq,
                                        },
                                    ),
                                )
                            } else {
                                None
                            }
                        },
                        _ => None,
                    }
                },
            }
        },
        _ => None,
    }
}

/// The wire tag of an event.
pub fn events_tag(e: &Events) -> (r: String)
    ensures
        r@ == spec_events_tag(e.deep_view()),
{
    match e {
        Events::Hello { .. } => String::from_str("hello"),
        Events::StatusChange { .. } => String::from_str("status_change"),
        Events::EphemeralMessage { .. } => String::from_str("ephemeral_message"),
        Events::Typing { .. } => String::from_str("typing"),
        Events::Posted { .. } => String::from_str("posted"),
        Events::ReactionAdded { .. } => String::from_str("reaction_added"),
        Events::PostEdited { .. } => String::from_str("post_edited"),
        Events::ChannelCreated { .. } => String::from_str("channel_created"),
        Events::PreferencesChanged { .. } => String::from_str("preferences_changed"),
        Events::UserUpdated { .. } => String::from_str("user_updated"),
        Events::PostDeleted { .. } => String::from_str("post_deleted"),
        Events::ChannelViewed { .. } => String::from_str("channel_viewed"),
        Events::PreferencesDeleted { .. } => String::from_str("preferences_deleted"),
        Events::ChannelUpdated { .. } => String::from_str("channel_updated"),
        Events::ReactionRemoved { .. } => String::from_str("reaction_removed"),
        Events::NewUser { .. } => String::from_str("new_user"),
        Events::EmojiAdded { .. } => String::from_str("emoji_added"),
        Events::ChannelDeleted { .. } => String::from_str("channel_deleted"),
        Events::DirectAdded { .. } => String::from_str("direct_added"),
        Events::UpdateTeam { .. } => String::from_str("update_team"),
        Events::UserAdded { .. } => String::from_str("user_added"),
        Events::UserRemoved { .. } => String::from_str("user_removed"),
        Events::LeaveTeam { .. } => String::from_str("leave_team"),
        Events::ConfigChanged { .. } => String::from_str("config_changed"),
        Events::GroupAdded { .. } => String::from_str("group_added"),
        Events::DeleteTeam { .. } => String::from_str("delete_team"),
        Events::ChannelMemberUpdated { .. } => String::from_str("channel_member_updated"),
        Events::Ignored => String::from_str(""),
    }
}

/// Encode a message as a JSON object. The catch-all ignored event has no
/// tag of its own; its frame does not decode back (see
/// `MessageV::encodable`).
pub fn encode_message(m: &Message) -> (out: Json)
    ensures
        out@ == spec_encode_message(m.deep_view()),
{
    match m {
        Message::Push(p) => {
            proof {
                assert(m.deep_view() == MessageV::Push(p.deep_view()));
            }
            let mut fields: Vec<(String, Json)> = Vec::new();
            let tag = events_tag(&p.event);
            let data = encode_events_data(&p.event);
            let bc = encode_broadcast(&p.broadcast);
            fields.push((String::from_str("event"), Json::Str(tag)));
            fields.push((String::from_str("data"), data));
            fields.push((String::from_str("broadcast"), bc));
            let seq_j: Json = if p.seq as u64 > i64::MAX as u64 {
                Json::Int(i64::MAX)
            } else {
                Json::Int(p.seq as i64)
            };
            fields.push((String::from_str("seq"), seq_j));
            let out = Json::Obj(fields);
            proof {
                let fv = out->Obj_0@;
                crate::json::lemma_fields_view_index(fv);
                assert(fv.len() == 4);
                assert(fv[0].0@ == "event"@ && fv[0].1@ == JsonV::Str(
                    spec_events_tag(p.deep_view().event),
                ));
                assert(fv[1].0@ == "data"@ && fv[1].1@ == spec_encode_events_data(
                    p.deep_view().event,
                ));
                assert(fv[2].0@ == "broadcast"@ && fv[2].1@ == spec_encode_broadcast(
                    p.deep_view().broadcast,
                ));
                assert(fv[3].0@ == "seq"@ && fv[3].1@ == JsonV::Int(
                    if p.deep_view().seq > i64::MAX {
                        i64::MAX as int
                    } else {
                        p.deep_view().seq
                    },
                ));
                assert(spec_fields_view(fv) =~= spec_encode_message(m.deep_view())->Obj_0);
            }
            out
        },
        Message::Reply(r) => {
            proof {
                assert(m.deep_view() == MessageV::Reply(r.deep_view()));
            }
            let mut fields: Vec<(String, Json)> = Vec::new();
            fields.push((String::from_str("status"), Json::Str(String::from_str("OK"))));
            let sq_j: Json = if r.seq_reply as u64 > i64::MAX as u64 {
                Json::Int(i64::MAX)
            } else {
                Json::Int(r.seq_reply as i64)
            };
            fields.push((String::from_str("seq_reply"), sq_j));
            let out = Json::Obj(fields);
            proof {
                let fv = out->Obj_0@;
                crate::json::lemma_fields_view_index(fv);
                assert(fv.len() == 2);
                assert(fv[0].0@ == "status"@ && fv[0].1@ == JsonV::Str("OK"@));
                assert(fv[1].0@ == "seq_reply"@ && fv[1].1@ == JsonV::Int(
                    if r.deep_view().seq_reply > i64::MAX {
                        i64::MAX as int
                    } else {
                        r.deep_view().seq_reply
                    },
                ));
                assert(spec_fields_view(fv) =~= spec_encode_message(m.deep_view())->Obj_0);
            }
            out
        },
    }
}

/// A well-formed message decodes back from its encoding unchanged: the
/// codec round-trips every recognized event.
#[verifier::rlimit(100)]
pub proof fn lemma_message_round_trip(m: MessageV)
    requires
        m.wf(),
    ensures
        spec_decode_message(spec_encode_message(m)) == Some(m),
{
    reveal_strlit("event");
    reveal_strlit("data");
    reveal_strlit("broadcast");
    reveal_strlit("seq");
    reveal_strlit("status");
    reveal_strlit("seq_reply");
    reveal_strlit("OK");
    assert("event"@.len() == 5);
    assert("data"@.len() == 4);
    assert("broadcast"@.len() == 9);
    assert("seq"@.len() == 3);
    assert("status"@.len() == 6);
    assert("seq_reply"@.len() == 9);
    assert("broadcast"@ != "seq_reply"@) by {
        assert("broadcast"@[0] == 'b');
        assert("seq_reply"@[0] == 's');
    }
    match m {
        MessageV::Push(p) => {
            let fs = spec_encode_message(m)->Obj_0;
            reveal_with_fuel(spec_obj_get, 6);
            assert(spec_obj_get(fs, "event"@) == Some(JsonV::Str(spec_events_tag(p.event))));
            assert(spec_obj_get(fs, "data"@) == Some(spec_encode_events_data(p.event)));
            assert(spec_obj_get(fs, "broadcast"@) == Some(spec_encode_broadcast(p.broadcast)));
            assert(spec_obj_get(fs, "seq"@) == Some(JsonV::Int(p.seq)));
            assert(spec_get_usize(fs, "seq"@) == Some(p.seq));
            lemma_events_round_trip(p.event);
            lemma_broadcast_round_trip(p.broadcast);
        },
        MessageV::Reply(r) => {
            let fs = spec_encode_message(m)->Obj_0;
            reveal_with_fuel(spec_obj_get, 4);
            assert(spec_obj_get(fs, "event"@) is None) by {
                assert("status"@ != "event"@);
                assert("seq_reply"@ != "event"@);
            }
            assert(spec_obj_get(fs, "status"@) == Some(JsonV::Str("OK"@)));
            assert(spec_obj_get(fs, "seq_reply"@) == Some(JsonV::Int(r.seq_reply)));
            assert(spec_get_usize(fs, "seq_reply"@) == Some(r.seq_reply));
        },
    }
}

/// Why a frame did not decode: its text is not JSON, or its JSON does not
/// have the shape of any known message.
#[derive(Clone, Copy, Debug, PartialEq, Eq, Structural)]
pub enum DecodeError {
    Syntax,
    Shape,
}

/// The message a raw text frame decodes to, or the failure it raises.
pub open spec fn spec_decode_frame(t: Seq<char>) -> Result<MessageV, DecodeError> {
    match crate::json_parse::spec_parse_text(t) {
        None => Err(DecodeError::Syntax),
        Some(j) => match spec_decode_message(j) {
            Some(m) => Ok(m),
            None => Err(DecodeError::Shape),
        },
    }
}

/// Decode one raw text frame. Text that is not JSON is `Syntax`;
/// well-formed JSON of the wrong shape is `Shape`; neither is ever fatal to
/// a connection.
pub fn decode_frame(text: &str) -> (r: Result<Message, DecodeError>)
    ensures
        (match r {
            Ok(m) => Result::<MessageV, DecodeError>::Ok(m.deep_view()),
            Err(e) => Result::<MessageV, DecodeError>::Err(e),
        }) == spec_decode_frame(text@),
{
    match crate::json_parse::parse_json_text(text) {
        None => Err(DecodeError::Syntax),
        Some(j) => match decode_message(&j) {
            Some(m) => Ok(m),
            None => Err(DecodeError::Shape),
        },
    }
}

/// Encode one message as a raw text frame. The catch-all ignored event
/// cannot be written back and yields nothing.
pub fn encode_frame(m: &Message) -> (r: Option<String>)
    ensures
        m.deep_view().encodable() ==> (match r {
            Some(s) => s@ == crate::json::spec_render(spec_encode_message(m.deep_view())),
            None => false,
        }),
        !m.deep_view().encodable() ==> r is None,
{
    match m {
        Message::Push(p) => {
            if let Events::Ignored = &p.event {
                return None;
            }
            let j = encode_message(m);
            Some(crate::json::render_json_string(&j))
        },
        Message::Reply(_) => {
            let j = encode_message(m);
            Some(crate::json::render_json_string(&j))
        },
    }
}

} // verus!
