//! Entities fetched or posted over the REST side of the server, and the
//! enumerations shared with the event stream. The HTTP calls themselves live
//! outside the library; here are the types, their wire coding, and the
//! classification of REST status codes.

use vstd::prelude::*;
use vstd::string::StrSliceExecFns;
use vstd::string::StringExecFns;

verus! {

/// A role an account can hold, as carried in space-separated role sets.
#[derive(Clone, Copy, Debug, PartialEq, Eq, Structural)]
pub enum UserRole {
    SystemUser,
    SystemAdmin,
    ChannelUser,
}

impl UserRole {
    /// The wire spelling of the role.
    pub open spec fn spec_wire_name(self) -> Seq<char> {
        match self {
            UserRole::SystemUser => "system_user"@,
            UserRole::SystemAdmin => "system_admin"@,
            UserRole::ChannelUser => "channel_user"@,
        }
    }

    /// The role a wire spelling names.
    pub open spec fn spec_from_wire(s: Seq<char>) -> Option<UserRole> {
        if s == "system_user"@ {
            Some(UserRole::SystemUser)
        } else if s == "system_admin"@ {
            Some(UserRole::SystemAdmin)
        } else if s == "channel_user"@ {
            Some(UserRole::ChannelUser)
        } else {
            None
        }
    }

    pub fn wire_name(&self) -> (r: String)
        ensures
            r@ == self.spec_wire_name(),
    {
        match self {
            UserRole::SystemUser => String::from_str("system_user"),
            UserRole::SystemAdmin => String::from_str("system_admin"),
            UserRole::ChannelUser => String::from_str("channel_user"),
        }
    }

    pub fn from_wire(s: &str) -> (r: Option<UserRole>)
        ensures
            r == UserRole::spec_from_wire(s@),
    {
        if crate::json::str_eq(s, "system_user") {
            Some(UserRole::SystemUser)
        } else if crate::json::str_eq(s, "system_admin") {
            Some(UserRole::SystemAdmin)
        } else if crate::json::str_eq(s, "channel_user") {
            Some(UserRole::ChannelUser)
        } else {
            None
        }
    }

    /// Parse a role name, with the message raised for an unknown one.
    pub fn from_str(s: &str) -> (r: Result<UserRole, String>)
        ensures
            (match r {
                Ok(role) => UserRole::spec_from_wire(s@) == Some(role),
                Err(msg) => UserRole::spec_from_wire(s@) is None && msg@ == "Unexpected value '"@
                    + s@ + "', expected one of 'system_user', 'system_admin'"@,
            }),
    {
        match UserRole::from_wire(s) {
            Some(role) => Ok(role),
            None => {
                let mut msg = String::new();
                msg.append("Unexpected value '");
                msg.append(s);
                msg.append("', expected one of 'system_user', 'system_admin'");
                proof {
                    assert(msg@ =~= "Unexpected value '"@ + s@
                        + "', expected one of 'system_user', 'system_admin'"@);
                }
                Err(msg)
            },
        }
    }

    /// The wire spelling parses back to the role itself.
    pub proof fn lemma_wire_name_round_trip(self)
        ensures
            UserRole::spec_from_wire(self.spec_wire_name()) == Some(self),
    {
        UserRole::lemma_wire_names_distinct();
    }

    /// The three wire spellings are pairwise distinct.
    pub proof fn lemma_wire_names_distinct()
        ensures
            "system_user"@ != "system_admin"@,
            "system_user"@ != "channel_user"@,
            "system_admin"@ != "channel_user"@,
    {
        reveal_strlit("system_user");
        reveal_strlit("system_admin");
        reveal_strlit("channel_user");
        assert("system_user"@.len() == 11);
        assert("system_admin"@.len() == 12);
        assert("system_user"@[0] == 's');
        assert("channel_user"@[0] == 'c');
        assert("system_admin"@[0] == 's');
    }
}

/// The kind of a channel, as its one-letter wire tag spells it.
#[derive(Clone, Copy, Debug, PartialEq, Eq, Structural)]
pub enum ChannelType {
    Open,
    Private,
    DirectMessage,
    Group,
    Internal,
}

impl ChannelType {
    pub open spec fn spec_wire_name(self) -> Seq<char> {
        match self {
            ChannelType::Open => "O"@,
            ChannelType::Private => "P"@,
            ChannelType::DirectMessage => "D"@,
            ChannelType::Group => "G"@,
            ChannelType::Internal => "I"@,
        }
    }

    pub open spec fn spec_from_wire(s: Seq<char>) -> Option<ChannelType> {
        if s == "O"@ {
            Some(ChannelType::Open)
        } else if s == "P"@ {
            Some(ChannelType::Private)
        } else if s == "D"@ {
            Some(ChannelType::DirectMessage)
        } else if s == "G"@ {
            Some(ChannelType::Group)
        } else if s == "I"@ {
            Some(ChannelType::Internal)
        } else {
            None
        }
    }

    pub fn wire_name(&self) -> (r: String)
        ensures
            r@ == self.spec_wire_name(),
    {
        match self {
            ChannelType::Open => String::from_str("O"),
            ChannelType::Private => String::from_str("P"),
            ChannelType::DirectMessage => String::from_str("D"),
            ChannelType::Group => String::from_str("G"),
            ChannelType::Internal => String::from_str("I"),
        }
    }

    pub fn from_wire(s: &str) -> (r: Option<ChannelType>)
        ensures
            r == ChannelType::spec_from_wire(s@),
    {
        if crate::json::str_eq(s, "O") {
            Some(ChannelType::Open)
        } else if crate::json::str_eq(s, "P") {
            Some(ChannelType::Private)
        } else if crate::json::str_eq(s, "D") {
            Some(ChannelType::DirectMessage)
        } else if crate::json::str_eq(s, "G") {
            Some(ChannelType::Group)
        } else if crate::json::str_eq(s, "I") {
            Some(ChannelType::Internal)
        } else {
            None
        }
    }

    /// The wire tag parses back to the kind itself.
    pub proof fn lemma_wire_name_round_trip(self)
        ensures
            ChannelType::spec_from_wire(self.spec_wire_name()) == Some(self),
    {
        reveal_strlit("O");
        reveal_strlit("P");
        reveal_strlit("D");
        reveal_strlit("G");
        reveal_strlit("I");
        assert("O"@[0] == 'O');
        assert("P"@[0] == 'P');
        assert("D"@[0] == 'D');
        assert("G"@[0] == 'G');
        assert("I"@[0] == 'I');
    }
}

/// How the REST side answers: the error a status code names, if any.
#[derive(Clone, Copy, Debug, PartialEq, Eq, Structural)]
pub enum ApiError {
    InvalidOrMissingParameter,
    MissingAccessToken,
    MissingPermissions,
}

/// The error for a response status, per the REST contract: 400, 401 and 403
/// each name one error; every other status is taken as success.
pub fn classify_status(code: u16) -> (r: Result<(), ApiError>)
    ensures
        code == 400 ==> r == Result::<(), ApiError>::Err(ApiError::InvalidOrMissingParameter),
        code == 401 ==> r == Result::<(), ApiError>::Err(ApiError::MissingAccessToken),
        code == 403 ==> r == Result::<(), ApiError>::Err(ApiError::MissingPermissions),
        code != 400 && code != 401 && code != 403 ==> r == Result::<(), ApiError>::Ok(()),
{
    if code == 400 {
        Err(ApiError::InvalidOrMissingParameter)
    } else if code == 401 {
        Err(ApiError::MissingAccessToken)
    } else if code == 403 {
        Err(ApiError::MissingPermissions)
    } else {
        Ok(())
    }
}

/// An account's time zone settings.
pub struct Timezone {
    pub automatic_timezone: String,
    pub manual_timezone: String,
    pub use_automatic_timezone: bool,
}

/// The model of a `Timezone`.
#[verifier::ext_equal]
pub struct TimezoneV {
    pub automatic_timezone: Seq<char>,
    pub manual_timezone: Seq<char>,
    pub use_automatic_timezone: bool,
}

impl DeepView for Timezone {
    type V = TimezoneV;

    open spec fn deep_view(&self) -> TimezoneV {
        TimezoneV {
            automatic_timezone: self.automatic_timezone@,
            manual_timezone: self.manual_timezone@,
            use_automatic_timezone: self.use_automatic_timezone,
        }
    }
}

impl TimezoneV {
    /// The values a `Timezone` can hold.
    pub open spec fn wf(self) -> bool {
        true
    }
}

/// A channel as the REST side describes it.
pub struct Channel {
    pub id: String,
    pub create_at: i64,
    pub update_at: i64,
    pub delete_at: i64,
    pub team_id: String,
    pub type_: ChannelType,
    pub display_name: String,
    pub header: String,
    pub last_post_at: i64,
    pub total_msg_count: u64,
    pub extra_update_at: i64,
    pub creator_id: String,
}

/// The model of a `Channel`.
#[verifier::ext_equal]
pub struct ChannelV {
    pub id: Seq<char>,
    pub create_at: int,
    pub update_at: int,
    pub delete_at: int,
    pub team_id: Seq<char>,
    pub type_: ChannelType,
    pub display_name: Seq<char>,
    pub header: Seq<char>,
    pub last_post_at: int,
    pub total_msg_count: int,
    pub extra_update_at: int,
    pub creator_id: Seq<char>,
}

impl DeepView for Channel {
    type V = ChannelV;

    open spec fn deep_view(&self) -> ChannelV {
        ChannelV {
            id: self.id@,
            create_at: self.create_at as int,
            update_at: self.update_at as int,
            delete_at: self.delete_at as int,
            team_id: self.team_id@,
            type_: self.type_,
            display_name: self.display_name@,
            header: self.header@,
            last_post_at: self.last_post_at as int,
            total_msg_count: self.total_msg_count as int,
            extra_update_at: self.extra_update_at as int,
            creator_id: self.creator_id@,
        }
    }
}

impl ChannelV {
    /// The values a `Channel` can hold.
    pub open spec fn wf(self) -> bool {
        &&& i64::MIN <= self.create_at <= i64::MAX
        &&& i64::MIN <= self.update_at <= i64::MAX
        &&& i64::MIN <= self.delete_at <= i64::MAX
        &&& i64::MIN <= self.last_post_at <= i64::MAX
        &&& 0 <= self.total_msg_count <= i64::MAX
        &&& i64::MIN <= self.extra_update_at <= i64::MAX
    }
}

/// An account as the REST side describes it.
pub struct User {
    pub id: String,
    pub create_at: i64,
    pub update_at: i64,
    pub delete_at: i64,
    pub username: String,
    pub first_name: String,
    pub last_name: String,
    pub nickname: String,
    pub email: String,
    pub email_verified: Option<bool>,
    pub auth_data: String,
    pub auth_service: String,
    pub position: String,
    pub roles: Vec<UserRole>,
    pub locale: String,
    pub last_password_update: Option<i64>,
    pub last_picture_update: Option<i64>,
    pub failed_attempts: Option<u64>,
    pub mfa_active: Option<bool>,
    pub timezone: Option<Timezone>,
}

/// The model of a `User`.
#[verifier::ext_equal]
pub struct UserV {
    pub id: Seq<char>,
    pub create_at: int,
    pub update_at: int,
    pub delete_at: int,
    pub username: Seq<char>,
    pub first_name: Seq<char>,
    pub last_name: Seq<char>,
    pub nickname: Seq<char>,
    pub email: Seq<char>,
    pub email_verified: Option<bool>,
    pub auth_data: Seq<char>,
    pub auth_service: Seq<char>,
    pub position: Seq<char>,
    pub roles: Seq<UserRole>,
    pub locale: Seq<char>,
    pub last_password_update: Option<int>,
    pub last_picture_update: Option<int>,
    pub failed_attempts: Option<int>,
    pub mfa_active: Option<bool>,
    pub timezone: Option<TimezoneV>,
}

impl DeepView for User {
    type V = UserV;

    open spec fn deep_view(&self) -> UserV {
        UserV {
            id: self.id@,
            create_at: self.create_at as int,
            update_at: self.update_at as int,
            delete_at: self.delete_at as int,
            username: self.username@,
            first_name: self.first_name@,
            last_name: self.last_name@,
            nickname: self.nickname@,
            email: self.email@,
            email_verified: self.email_verified,
            auth_data: self.auth_data@,
            auth_service: self.auth_service@,
            position: self.position@,
            roles: self.roles@,
            locale: self.locale@,
            last_password_update: (match self.last_password_update {
                Some(n) => Some(n as int),
                None => None,
            }),
            last_picture_update: (match self.last_picture_update {
                Some(n) => Some(n as int),
                None => None,
            }),
            failed_attempts: (match self.failed_attempts {
                Some(n) => Some(n as int),
                None => None,
            }),
            mfa_active: self.mfa_active,
            timezone: self.timezone.deep_view(),
        }
    }
}

impl UserV {
    /// The values a `User` can hold.
    pub open spec fn wf(self) -> bool {
        &&& i64::MIN <= self.create_at <= i64::MAX
        &&& i64::MIN <= self.update_at <= i64::MAX
        &&& i64::MIN <= self.delete_at <= i64::MAX
        &&& (forall|i: int, j: int| 0 <= i < j < self.roles.len() ==> self.roles[i] != self.roles[j])
        &&& (self.last_password_update matches Some(n) ==> i64::MIN <= n <= i64::MAX)
        &&& (self.last_picture_update matches Some(n) ==> i64::MIN <= n <= i64::MAX)
        &&& (self.failed_attempts matches Some(n) ==> 0 <= n <= i64::MAX)
        &&& (self.timezone matches Some(x) ==> x.wf())
    }
}

/// A request to create a post over the REST side.
pub struct CreatePostRequest {
    pub channel_id: String,
    pub message: String,
    pub root_id: Option<String>,
    pub file_ids: Vec<String>,
    pub props: Option<String>,
}

/// The model of a `CreatePostRequest`.
#[verifier::ext_equal]
pub struct CreatePostRequestV {
    pub channel_id: Seq<char>,
    pub message: Seq<char>,
    pub root_id: Option<Seq<char>>,
    pub file_ids: Seq<Seq<char>>,
    pub props: Option<Seq<char>>,
}

impl DeepView for CreatePostRequest {
    type V = CreatePostRequestV;

    open spec fn deep_view(&self) -> CreatePostRequestV {
        CreatePostRequestV {
            channel_id: self.channel_id@,
            message: self.message@,
            root_id: self.root_id.deep_view(),
            file_ids: self.file_ids.deep_view(),
            props: self.props.deep_view(),
        }
    }
}

impl CreatePostRequestV {
    /// The values a `CreatePostRequest` can hold.
    pub open spec fn wf(self) -> bool {
        true
    }
}

impl Default for CreatePostRequest {
    /// An empty request: every field blank, nothing attached.
    fn default() -> (r: CreatePostRequest)
        ensures
            r.deep_view() == (CreatePostRequestV {
                channel_id: Seq::empty(),
                message: Seq::empty(),
                root_id: None,
                file_ids: Seq::empty(),
                props: None,
            }),
    {
        let r = CreatePostRequest {
            channel_id: String::new(),
            message: String::new(),
            root_id: None,
            file_ids: Vec::new(),
            props: None,
        };
        proof {
            assert(r.deep_view().file_ids =~= Seq::<Seq<char>>::empty());
        }
        r
    }
}

} // verus!
