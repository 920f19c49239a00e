//! The event codec: between JSON values and the typed wire model.

use crate::api::{
    Channel, ChannelType, ChannelV, CreatePostRequest, CreatePostRequestV, Timezone, TimezoneV,
    User, UserRole, UserV,
};
use crate::json::{
    obj_get, spec_fields_view, spec_jsons_view, spec_obj_get, str_eq, Json, JsonV,
};
use crate::websocket::{
    AddChannelMember, AddChannelMemberV, Broadcast, BroadcastV, ChannelInfo, ChannelInfoV,
    ChannelMember, ChannelMemberV, Config, ConfigV, Emoji, EmojiV, Events, EventsV, Message,
    MessagePush, MessagePushV, MessageReply, MessageReplyV, MessageStatus, MessageV, NotifyProps,
    NotifyPropsV, Post, PostProps, PostPropsV, PostType, PostV, Reaction, ReactionV, Status, Team,
    TeamV,
};
use vstd::prelude::*;

verus! {

/// A required string field.
pub open spec fn spec_get_str(fs: Seq<(Seq<char>, JsonV)>, k: Seq<char>) -> Option<Seq<char>> {
    match spec_obj_get(fs, k) {
        Some(JsonV::Str(s)) => Some(s),
        _ => None,
    }
}

/// A required integer field, bounded to the signed 64-bit range.
pub open spec fn spec_get_i64(fs: Seq<(Seq<char>, JsonV)>, k: Seq<char>) -> Option<int> {
    match spec_obj_get(fs, k) {
        Some(JsonV::Int(n)) => if i64::MIN <= n <= i64::MAX {
            Some(n)
        } else {
            None
        },
        _ => None,
    }
}

/// A required boolean field.
pub open spec fn spec_get_bool(fs: Seq<(Seq<char>, JsonV)>, k: Seq<char>) -> Option<bool> {
    match spec_obj_get(fs, k) {
        Some(JsonV::Bool(b)) => Some(b),
        _ => None,
    }
}

pub(crate) fn get_str(fields: &Vec<(String, Json)>, k: &str) -> (r: Option<String>)
    ensures
        match r {
            Some(s) => spec_get_str(spec_fields_view(fields@), k@) == Some(s@),
            None => spec_get_str(spec_fields_view(fields@), k@) is None,
        },
{
    match obj_get(fields, k) {
        Some(Json::Str(s)) => Some(s.clone()),
        _ => None,
    }
}

pub(crate) fn get_i64(fields: &Vec<(String, Json)>, k: &str) -> (r: Option<i64>)
    ensures
        match r {
            Some(n) => spec_get_i64(spec_fields_view(fields@), k@) == Some(n as int),
            None => spec_get_i64(spec_fields_view(fields@), k@) is None,
        },
{
    match obj_get(fields, k) {
        Some(Json::Int(n)) => Some(*n),
        _ => None,
    }
}

pub(crate) fn get_bool(fields: &Vec<(String, Json)>, k: &str) -> (r: Option<bool>)
    ensures
        match r {
            Some(b) => spec_get_bool(spec_fields_view(fields@), k@) == Some(b),
            None => spec_get_bool(spec_fields_view(fields@), k@) is None,
        },
{
    match obj_get(fields, k) {
        Some(Json::Bool(b)) => Some(*b),
        _ => None,
    }
}

/// A required integer field that must be non-negative and fit in 32 bits.
pub open spec fn spec_get_u32(fs: Seq<(Seq<char>, JsonV)>, k: Seq<char>) -> Option<int> {
    match spec_obj_get(fs, k) {
        Some(JsonV::Int(n)) => if 0 <= n <= u32::MAX {
            Some(n)
        } else {
            None
        },
        _ => None,
    }
}

pub(crate) fn get_u32(fields: &Vec<(String, Json)>, k: &str) -> (r: Option<u32>)
    ensures
        match r {
            Some(n) => spec_get_u32(spec_fields_view(fields@), k@) == Some(n as int),
            None => spec_get_u32(spec_fields_view(fields@), k@) is None,
        },
{
    match obj_get(fields, k) {
        Some(Json::Int(n)) => if 0 <= *n && *n <= u32::MAX as i64 {
            Some(*n as u32)
        } else {
            None
        },
        _ => None,
    }
}

/// A required non-negative integer field (at most the signed 64-bit bound).
pub open spec fn spec_get_u64(fs: Seq<(Seq<char>, JsonV)>, k: Seq<char>) -> Option<int> {
    match spec_obj_get(fs, k) {
        Some(JsonV::Int(n)) => if 0 <= n <= i64::MAX {
            Some(n)
        } else {
            None
        },
        _ => None,
    }
}

pub(crate) fn get_u64(fields: &Vec<(String, Json)>, k: &str) -> (r: Option<u64>)
    ensures
        match r {
            Some(n) => spec_get_u64(spec_fields_view(fields@), k@) == Some(n as int),
            None => spec_get_u64(spec_fields_view(fields@), k@) is None,
        },
{
    match obj_get(fields, k) {
        Some(Json::Int(n)) => if 0 <= *n {
            Some(*n as u64)
        } else {
            None
        },
        _ => None,
    }
}

/// An optional string field: absent or null is an accepted absence; a
/// value of any other kind than a string is a shape failure.
pub open spec fn spec_opt_str(fs: Seq<(Seq<char>, JsonV)>, k: Seq<char>) -> Option<
    Option<Seq<char>>,
> {
    match spec_obj_get(fs, k) {
        None => Some(None),
        Some(JsonV::Null) => Some(None),
        Some(JsonV::Str(s)) => Some(Some(s)),
        Some(_) => None,
    }
}

pub(crate) fn opt_str(fields: &Vec<(String, Json)>, k: &str) -> (r: Option<Option<String>>)
    ensures
        match r {
            Some(o) => spec_opt_str(spec_fields_view(fields@), k@) == Some(o.deep_view()),
            None => spec_opt_str(spec_fields_view(fields@), k@) is None,
        },
{
    match obj_get(fields, k) {
        None => Some(None),
        Some(Json::Null) => Some(None),
        Some(Json::Str(s)) => Some(Some(s.clone())),
        Some(_) => None,
    }
}

/// An optional boolean field, with the same absence rule.
pub open spec fn spec_opt_bool(fs: Seq<(Seq<char>, JsonV)>, k: Seq<char>) -> Option<Option<bool>> {
    match spec_obj_get(fs, k) {
        None => Some(None),
        Some(JsonV::Null) => Some(None),
        Some(JsonV::Bool(b)) => Some(Some(b)),
        Some(_) => None,
    }
}

pub(crate) fn opt_bool(fields: &Vec<(String, Json)>, k: &str) -> (r: Option<Option<bool>>)
    ensures
        match r {
            Some(o) => spec_opt_bool(spec_fields_view(fields@), k@) == Some(o),
            None => spec_opt_bool(spec_fields_view(fields@), k@) is None,
        },
{
    match obj_get(fields, k) {
        None => Some(None),
        Some(Json::Null) => Some(None),
        Some(Json::Bool(b)) => Some(Some(*b)),
        Some(_) => None,
    }
}

/// An optional integer field, with the same absence rule.
pub open spec fn spec_opt_i64(fs: Seq<(Seq<char>, JsonV)>, k: Seq<char>) -> Option<Option<int>> {
    match spec_obj_get(fs, k) {
        None => Some(None),
        Some(JsonV::Null) => Some(None),
        Some(JsonV::Int(n)) => if i64::MIN <= n <= i64::MAX {
            Some(Some(n))
        } else {
            None
        },
        Some(_) => None,
    }
}

pub(crate) fn opt_i64(fields: &Vec<(String, Json)>, k: &str) -> (r: Option<Option<i64>>)
    ensures
        match r {
            Some(o) => spec_opt_i64(spec_fields_view(fields@), k@) == Some(
                (match o {
                    Some(n) => Some(n as int),
                    None => None,
                }),
            ),
            None => spec_opt_i64(spec_fields_view(fields@), k@) is None,
        },
{
    match obj_get(fields, k) {
        None => Some(None),
        Some(Json::Null) => Some(None),
        Some(Json::Int(n)) => Some(Some(*n)),
        Some(_) => None,
    }
}

/// An optional non-negative integer field, with the same absence rule.
pub open spec fn spec_opt_u64(fs: Seq<(Seq<char>, JsonV)>, k: Seq<char>) -> Option<Option<int>> {
    match spec_obj_get(fs, k) {
        None => Some(None),
        Some(JsonV::Null) => Some(None),
        Some(JsonV::Int(n)) => if 0 <= n <= i64::MAX {
            Some(Some(n))
        } else {
            None
        },
        Some(_) => None,
    }
}

pub(crate) fn opt_u64(fields: &Vec<(String, Json)>, k: &str) -> (r: Option<Option<u64>>)
    ensures
        match r {
            Some(o) => spec_opt_u64(spec_fields_view(fields@), k@) == Some(
                (match o {
                    Some(n) => Some(n as int),
                    None => None,
                }),
            ),
            None => spec_opt_u64(spec_fields_view(fields@), k@) is None,
        },
{
    match obj_get(fields, k) {
        None => Some(None),
        Some(Json::Null) => Some(None),
        Some(Json::Int(n)) => if 0 <= *n {
            Some(Some(*n as u64))
        } else {
            None
        },
        Some(_) => None,
    }
}

/// A boolean carried as the string `"true"` or `"false"`.
pub open spec fn spec_get_boolstr(fs: Seq<(Seq<char>, JsonV)>, k: Seq<char>) -> Option<bool> {
    match spec_obj_get(fs, k) {
        Some(JsonV::Str(s)) => if s == "true"@ {
            Some(true)
        } else if s == "false"@ {
            Some(false)
        } else {
            None
        },
        _ => None,
    }
}

pub(crate) fn get_boolstr(fields: &Vec<(String, Json)>, k: &str) -> (r: Option<bool>)
    ensures
        match r {
            Some(b) => spec_get_boolstr(spec_fields_view(fields@), k@) == Some(b),
            None => spec_get_boolstr(spec_fields_view(fields@), k@) is None,
        },
{
    match obj_get(fields, k) {
        Some(Json::Str(s)) => if str_eq(s.as_str(), "true") {
            Some(true)
        } else if str_eq(s.as_str(), "false") {
            Some(false)
        } else {
            None
        },
        _ => None,
    }
}

/// The strings a JSON array holds, if every element is a string.
pub open spec fn spec_strs_of(els: Seq<JsonV>) -> Option<Seq<Seq<char>>>
    decreases els.len(),
{
    if els.len() == 0 {
        Some(Seq::empty())
    } else {
        match els[0] {
            JsonV::Str(s) => match spec_strs_of(els.drop_first()) {
                Some(r) => Some(seq![s] + r),
                None => None,
            },
            _ => None,
        }
    }
}

pub(crate) fn strs_of(els: &Vec<Json>, i: usize) -> (r: Option<Vec<String>>)
    requires
        i <= els@.len(),
    ensures
        match r {
            Some(v) => spec_strs_of(spec_jsons_view(els@).skip(i as int)) == Some(v.deep_view()),
            None => spec_strs_of(spec_jsons_view(els@).skip(i as int)) is None,
        },
    decreases els@.len() - i,
{
    proof {
        crate::json::lemma_jsons_view_index(els@);
    }
    let ghost ev = spec_jsons_view(els@);
    if i == els.len() {
        proof {
            assert(ev.skip(i as int) =~= Seq::<JsonV>::empty());
        }
        let out: Vec<String> = Vec::new();
        proof {
            assert(out.deep_view() =~= Seq::<Seq<char>>::empty());
        }
        Some(out)
    } else {
        proof {
            assert(ev.skip(i as int)[0] == ev[i as int]);
            assert(ev.skip(i as int).drop_first() =~= ev.skip(i + 1 as int));
        }
        match &els[i] {
            Json::Str(s) => {
                match strs_of(els, i + 1) {
                    Some(rest) => {
                        let ghost oldrest = rest.deep_view();
                        let mut out = rest;
                        out.insert(0, s.clone());
                        proof {
                            assert(out.deep_view() =~= seq![s@] + oldrest);
                        }
                        Some(out)
                    },
                    None => None,
                }
            },
            _ => None,
        }
    }
}

/// A list-of-strings field: absent or null is the empty list.
pub open spec fn spec_get_strlist(fs: Seq<(Seq<char>, JsonV)>, k: Seq<char>) -> Option<
    Seq<Seq<char>>,
> {
    match spec_obj_get(fs, k) {
        None => Some(Seq::empty()),
        Some(JsonV::Null) => Some(Seq::empty()),
        Some(JsonV::Arr(els)) => spec_strs_of(els),
        Some(_) => None,
    }
}

pub(crate) fn get_strlist(fields: &Vec<(String, Json)>, k: &str) -> (r: Option<Vec<String>>)
    ensures
        match r {
            Some(v) => spec_get_strlist(spec_fields_view(fields@), k@) == Some(v.deep_view()),
            None => spec_get_strlist(spec_fields_view(fields@), k@) is None,
        },
{
    match obj_get(fields, k) {
        None => {
            let out: Vec<String> = Vec::new();
            proof {
                assert(out.deep_view() =~= Seq::<Seq<char>>::empty());
            }
            Some(out)
        },
        Some(Json::Null) => {
            let out: Vec<String> = Vec::new();
            proof {
                assert(out.deep_view() =~= Seq::<Seq<char>>::empty());
            }
            Some(out)
        },
        Some(Json::Arr(els)) => {
            proof {
                assert(spec_jsons_view(els@).skip(0) =~= spec_jsons_view(els@));
            }
            strs_of(els, 0)
        },
        Some(_) => None,
    }
}

/// The array of strings that encodes a string list.
pub open spec fn spec_encode_strlist(ts: Seq<Seq<char>>) -> JsonV {
    JsonV::Arr(Seq::new(ts.len(), |i: int| JsonV::Str(ts[i])))
}

/// An encoded string list decodes back to the same strings.
pub proof fn lemma_strlist_round_trip(ts: Seq<Seq<char>>)
    ensures
        spec_strs_of(spec_encode_strlist(ts)->Arr_0) == Some(ts),
    decreases ts.len(),
{
    let els = spec_encode_strlist(ts)->Arr_0;
    if ts.len() == 0 {
        assert(spec_strs_of(els) == Some(Seq::<Seq<char>>::empty()));
        assert(Seq::<Seq<char>>::empty() =~= ts);
    } else {
        lemma_strlist_round_trip(ts.drop_first());
        assert(els[0] == JsonV::Str(ts[0]));
        assert(els.drop_first() =~= spec_encode_strlist(ts.drop_first())->Arr_0);
        assert(seq![ts[0]] + ts.drop_first() =~= ts);
    }
}

pub(crate) fn encode_strlist(ts: &Vec<String>) -> (out: Json)
    ensures
        out@ == spec_encode_strlist(ts.deep_view()),
{
    let mut els: Vec<Json> = Vec::new();
    let mut i: usize = 0;
    while i < ts.len()
        invariant
            i <= ts.len(),
            els@.len() == i,
            forall|m: int| 0 <= m < i ==> els@[m] == Json::Str(ts@[m]),
        decreases ts.len() - i,
    {
        els.push(Json::Str(ts[i].clone()));
        i = i + 1;
    }
    let out = Json::Arr(els);
    proof {
        crate::json::lemma_jsons_view_index(out->Arr_0@);
        assert forall|m: int| 0 <= m < ts.deep_view().len() implies spec_jsons_view(out->Arr_0@)[m]
            == JsonV::Str(ts.deep_view()[m]) by {
            assert(out->Arr_0@[m] == Json::Str(ts@[m]));
        }
        assert(spec_jsons_view(out->Arr_0@) =~= spec_encode_strlist(ts.deep_view())->Arr_0);
    }
    out
}

/// A token-set field carried as one space-separated string: splitting,
/// dropping empty segments and repetitions. Absent or null is the empty set.
pub open spec fn spec_get_tokens(fs: Seq<(Seq<char>, JsonV)>, k: Seq<char>) -> Option<
    Seq<Seq<char>>,
> {
    match spec_obj_get(fs, k) {
        None => Some(Seq::empty()),
        Some(JsonV::Null) => Some(Seq::empty()),
        Some(JsonV::Str(s)) => Some(
            crate::text::spec_dedup(crate::text::spec_split_tokens(s)),
        ),
        Some(_) => None,
    }
}

pub(crate) fn get_tokens(fields: &Vec<(String, Json)>, k: &str) -> (r: Option<Vec<String>>)
    ensures
        match r {
            Some(v) => spec_get_tokens(spec_fields_view(fields@), k@) == Some(v.deep_view()),
            None => spec_get_tokens(spec_fields_view(fields@), k@) is None,
        },
{
    match obj_get(fields, k) {
        None => {
            let out: Vec<String> = Vec::new();
            proof {
                assert(out.deep_view() =~= Seq::<Seq<char>>::empty());
            }
            Some(out)
        },
        Some(Json::Null) => {
            let out: Vec<String> = Vec::new();
            proof {
                assert(out.deep_view() =~= Seq::<Seq<char>>::empty());
            }
            Some(out)
        },
        Some(Json::Str(s)) => Some(crate::text::split_tokens(s.as_str())),
        Some(_) => None,
    }
}

/// The roles a dedup-split token list names, if every token is a known role.
pub open spec fn spec_roles_of(toks: Seq<Seq<char>>) -> Option<Seq<UserRole>>
    decreases toks.len(),
{
    if toks.len() == 0 {
        Some(Seq::empty())
    } else {
        match UserRole::spec_from_wire(toks[0]) {
            Some(r) => match spec_roles_of(toks.drop_first()) {
                Some(rest) => Some(seq![r] + rest),
                None => None,
            },
            None => None,
        }
    }
}

pub(crate) fn roles_of(toks: &Vec<String>, i: usize) -> (r: Option<Vec<UserRole>>)
    requires
        i <= toks@.len(),
    ensures
        match r {
            Some(v) => spec_roles_of(toks.deep_view().skip(i as int)) == Some(v@),
            None => spec_roles_of(toks.deep_view().skip(i as int)) is None,
        },
    decreases toks@.len() - i,
{
    let ghost tv = toks.deep_view();
    if i == toks.len() {
        proof {
            assert(tv.skip(i as int) =~= Seq::<Seq<char>>::empty());
        }
        let out: Vec<UserRole> = Vec::new();
        Some(out)
    } else {
        proof {
            assert(tv.skip(i as int)[0] == tv[i as int]);
            assert(tv.skip(i as int).drop_first() =~= tv.skip(i + 1 as int));
        }
        match UserRole::from_wire(toks[i].as_str()) {
            Some(role) => {
                match roles_of(toks, i + 1) {
                    Some(rest) => {
                        let ghost oldrest = rest@;
                        let mut out = rest;
                        out.insert(0, role);
                        proof {
                            assert(out@ =~= seq![role] + oldrest);
                        }
                        Some(out)
                    },
                    None => None,
                }
            },
            None => None,
        }
    }
}

/// A role-set field carried as one space-separated string of role names.
pub open spec fn spec_get_roles(fs: Seq<(Seq<char>, JsonV)>, k: Seq<char>) -> Option<
    Seq<UserRole>,
> {
    match spec_obj_get(fs, k) {
        Some(JsonV::Str(s)) => spec_roles_of(
            crate::text::spec_dedup(crate::text::spec_split_tokens(s)),
        ),
        _ => None,
    }
}

pub(crate) fn get_roles(fields: &Vec<(String, Json)>, k: &str) -> (r: Option<Vec<UserRole>>)
    ensures
        match r {
            Some(v) => spec_get_roles(spec_fields_view(fields@), k@) == Some(v@),
            None => spec_get_roles(spec_fields_view(fields@), k@) is None,
        },
{
    match obj_get(fields, k) {
        Some(Json::Str(s)) => {
            let toks = crate::text::split_tokens(s.as_str());
            proof {
                assert(toks.deep_view().skip(0) =~= toks.deep_view());
            }
            roles_of(&toks, 0)
        },
        _ => None,
    }
}

/// The wire names of a role list, in order.
pub open spec fn spec_role_names(roles: Seq<UserRole>) -> Seq<Seq<char>> {
    Seq::new(roles.len(), |i: int| roles[i].spec_wire_name())
}

/// The space-separated string that encodes a role set.
pub open spec fn spec_encode_roles(roles: Seq<UserRole>) -> JsonV {
    JsonV::Str(crate::text::spec_join_tokens(spec_role_names(roles)))
}

pub(crate) fn encode_roles(roles: &Vec<UserRole>) -> (out: Json)
    ensures
        out@ == spec_encode_roles(roles@),
{
    let mut names: Vec<String> = Vec::new();
    let mut i: usize = 0;
    while i < roles.len()
        invariant
            i <= roles.len(),
            names@.len() == i,
            forall|m: int| 0 <= m < i ==> names@[m]@ == roles@[m].spec_wire_name(),
        decreases roles.len() - i,
    {
        let nm = roles[i].wire_name();
        names.push(nm);
        i = i + 1;
    }
    let joined = crate::text::join_tokens(&names);
    proof {
        assert(names.deep_view() =~= spec_role_names(roles@));
    }
    Json::Str(joined)
}

/// Every role name is a well-formed token.
proof fn lemma_role_name_token_wf(r: UserRole)
    ensures
        crate::text::token_wf(r.spec_wire_name()),
{
    reveal_strlit("system_user");
    reveal_strlit("system_admin");
    reveal_strlit("channel_user");
    match r {
        UserRole::SystemUser => {
            let s = "system_user"@;
            assert forall|i: int| 0 <= i < s.len() implies s[i] != ' ' by {
                if i == 0 {
                } else if i == 1 {
                } else if i == 2 {
                } else if i == 3 {
                } else if i == 4 {
                } else if i == 5 {
                } else if i == 6 {
                } else if i == 7 {
                } else if i == 8 {
                } else if i == 9 {
                } else {
                    assert(i == 10);
                }
            }
        },
        UserRole::SystemAdmin => {
            let s = "system_admin"@;
            assert forall|i: int| 0 <= i < s.len() implies s[i] != ' ' by {
                if i == 0 {
                } else if i == 1 {
                } else if i == 2 {
                } else if i == 3 {
                } else if i == 4 {
                } else if i == 5 {
                } else if i == 6 {
                } else if i == 7 {
                } else if i == 8 {
                } else if i == 9 {
                } else if i == 10 {
                } else {
                    assert(i == 11);
                }
            }
        },
        UserRole::ChannelUser => {
            let s = "channel_user"@;
            assert forall|i: int| 0 <= i < s.len() implies s[i] != ' ' by {
                if i == 0 {
                } else if i == 1 {
                } else if i == 2 {
                } else if i == 3 {
                } else if i == 4 {
                } else if i == 5 {
                } else if i == 6 {
                } else if i == 7 {
                } else if i == 8 {
                } else if i == 9 {
                } else if i == 10 {
                } else {
                    assert(i == 11);
                }
            }
        },
    }
}

/// Distinct roles have distinct wire names.
proof fn lemma_role_names_injective(a: UserRole, b: UserRole)
    requires
        a != b,
    ensures
        a.spec_wire_name() != b.spec_wire_name(),
{
    UserRole::lemma_wire_names_distinct();
}

proof fn lemma_roles_of_names(roles: Seq<UserRole>)
    ensures
        spec_roles_of(spec_role_names(roles)) == Some(roles),
    decreases roles.len(),
{
    let names = spec_role_names(roles);
    if roles.len() == 0 {
        assert(spec_roles_of(names) == Some(Seq::<UserRole>::empty()));
        assert(Seq::<UserRole>::empty() =~= roles);
    } else {
        lemma_roles_of_names(roles.drop_first());
        roles[0].lemma_wire_name_round_trip();
        assert(names[0] == roles[0].spec_wire_name());
        assert(names.drop_first() =~= spec_role_names(roles.drop_first()));
        assert(seq![roles[0]] + roles.drop_first() =~= roles);
    }
}

/// An encoded role set decodes back to the same roles in the same order.
pub proof fn lemma_roles_round_trip(roles: Seq<UserRole>)
    requires
        forall|i: int, j: int| 0 <= i < j < roles.len() ==> roles[i] != roles[j],
    ensures
        spec_roles_of(
            crate::text::spec_dedup(
                crate::text::spec_split_tokens(
                    crate::text::spec_join_tokens(spec_role_names(roles)),
                ),
            ),
        ) == Some(roles),
{
    let names = spec_role_names(roles);
    assert forall|i: int| 0 <= i < names.len() implies crate::text::token_wf(
        #[trigger] names[i],
    ) by {
        lemma_role_name_token_wf(roles[i]);
    }
    assert forall|i: int, j: int| 0 <= i < j < names.len() implies names[i] != names[j] by {
        lemma_role_names_injective(roles[i], roles[j]);
    }
    crate::text::lemma_tokens_round_trip(names);
    lemma_roles_of_names(roles);
}

/// The reaction an object holds.
pub open spec fn spec_decode_reaction(v: JsonV) -> Option<ReactionV> {
    match v {
        JsonV::Obj(fs) => {
            let user_id = spec_get_str(fs, "user_id"@);
            let post_id = spec_get_str(fs, "post_id"@);
            let emoji_name = spec_get_str(fs, "emoji_name"@);
            let create_at = spec_get_i64(fs, "create_at"@);
            if user_id is Some && post_id is Some && emoji_name is Some && create_at is Some {
                Some(
                    ReactionV {
                        user_id: user_id->0,
                        post_id: post_id->0,
                        emoji_name: emoji_name->0,
                        create_at: create_at->0,
                    },
                )
            } else {
                None
            }
        },
        _ => None,
    }
}

/// The object form of a reaction.
pub open spec fn spec_encode_reaction(r: ReactionV) -> JsonV {
    JsonV::Obj(
        seq![
            ("user_id"@, JsonV::Str(r.user_id)),
            ("post_id"@, JsonV::Str(r.post_id)),
            ("emoji_name"@, JsonV::Str(r.emoji_name)),
            ("create_at"@, JsonV::Int(r.create_at)),
        ],
    )
}

/// Decode a reaction from a JSON value.
pub fn decode_reaction(v: &Json) -> (r: Option<Reaction>)
    ensures
        r.deep_view() == spec_decode_reaction(v@),
{
    match v {
        Json::Obj(fields) => {
            let user_id = get_str(fields, "user_id");
            let post_id = get_str(fields, "post_id");
            let emoji_name = get_str(fields, "emoji_name");
            let create_at = get_i64(fields, "create_at");
            match (user_id, post_id, emoji_name, create_at) {
                (Some(user_id), Some(post_id), Some(emoji_name), Some(create_at)) => Some(
                    Reaction { user_id, post_id, emoji_name, create_at },
                ),
                _ => None,
            }
        },
        _ => None,
    }
}

/// Encode a reaction as a JSON object.
pub fn encode_reaction(r: &Reaction) -> (out: Json)
    ensures
        out@ == spec_encode_reaction(r.deep_view()),
{
    let mut fields: Vec<(String, Json)> = Vec::new();
    fields.push((String::from_str("user_id"), Json::Str(r.user_id.clone())));
    fields.push((String::from_str("post_id"), Json::Str(r.post_id.clone())));
    fields.push((String::from_str("emoji_name"), Json::Str(r.emoji_name.clone())));
    fields.push((String::from_str("create_at"), Json::Int(r.create_at)));
    let out = Json::Obj(fields);
    proof {
        let fv = out->Obj_0@;
        crate::json::lemma_fields_view_index(fv);
        assert(fv.len() == 4);
        assert(fv[0].0@ == "user_id"@ && fv[0].1@ == JsonV::Str(r.deep_view().user_id));
        assert(fv[1].0@ == "post_id"@ && fv[1].1@ == JsonV::Str(r.deep_view().post_id));
        assert(fv[2].0@ == "emoji_name"@ && fv[2].1@ == JsonV::Str(r.deep_view().emoji_name));
        assert(fv[3].0@ == "create_at"@ && fv[3].1@ == JsonV::Int(r.deep_view().create_at));
        assert(spec_fields_view(fv) =~= spec_encode_reaction(r.deep_view())->Obj_0);
    }
    out
}

/// A reaction decodes back from its encoding unchanged.
pub proof fn lemma_reaction_round_trip(r: ReactionV)
    requires
        r.wf(),
    ensures
        spec_decode_reaction(spec_encode_reaction(r)) == Some(r),
{
    reveal_strlit("user_id");
    reveal_strlit("post_id");
    reveal_strlit("emoji_name");
    reveal_strlit("create_at");
    assert("user_id"@ != "post_id"@) by {
        assert("user_id"@[0] == 'u');
        assert("post_id"@[0] == 'p');
    }
    assert("user_id"@ != "emoji_name"@) by {
        assert("user_id"@[0] == 'u');
        assert("emoji_name"@[0] == 'e');
    }
    assert("user_id"@ != "create_at"@) by {
        assert("user_id"@[0] == 'u');
        assert("create_at"@[0] == 'c');
    }
    assert("post_id"@ != "emoji_name"@) by {
        assert("post_id"@[0] == 'p');
        assert("emoji_name"@[0] == 'e');
    }
    assert("post_id"@ != "create_at"@) by {
        assert("post_id"@[0] == 'p');
        assert("create_at"@[0] == 'c');
    }
    assert("emoji_name"@ != "create_at"@) by {
        assert("emoji_name"@[0] == 'e');
        assert("create_at"@[0] == 'c');
    }
    let fs = spec_encode_reaction(r)->Obj_0;
    reveal_with_fuel(spec_obj_get, 8);
    assert(spec_obj_get(fs, "user_id"@) == Some(JsonV::Str(r.user_id)));
    assert(spec_obj_get(fs, "post_id"@) == Some(JsonV::Str(r.post_id)));
    assert(spec_obj_get(fs, "emoji_name"@) == Some(JsonV::Str(r.emoji_name)));
    assert(spec_obj_get(fs, "create_at"@) == Some(JsonV::Int(r.create_at)));
}

/// The string-to-boolean bindings an object holds, if every value is a
/// boolean.
pub open spec fn spec_pairs_bool_of(sub: Seq<(Seq<char>, JsonV)>) -> Option<Seq<(Seq<char>, bool)>>
    decreases sub.len(),
{
    if sub.len() == 0 {
        Some(Seq::empty())
    } else {
        match sub[0].1 {
            JsonV::Bool(b) => match spec_pairs_bool_of(sub.drop_first()) {
                Some(r) => Some(seq![(sub[0].0, b)] + r),
                None => None,
            },
            _ => None,
        }
    }
}

pub(crate) fn pairs_bool_of(sub: &Vec<(String, Json)>, i: usize) -> (r: Option<Vec<(String, bool)>>)
    requires
        i <= sub@.len(),
    ensures
        match r {
            Some(v) => spec_pairs_bool_of(spec_fields_view(sub@).skip(i as int)) == Some(
                v.deep_view(),
            ),
            None => spec_pairs_bool_of(spec_fields_view(sub@).skip(i as int)) is None,
        },
    decreases sub@.len() - i,
{
    proof {
        crate::json::lemma_fields_view_index(sub@);
    }
    let ghost fv = spec_fields_view(sub@);
    if i == sub.len() {
        proof {
            assert(fv.skip(i as int) =~= Seq::<(Seq<char>, JsonV)>::empty());
        }
        let out: Vec<(String, bool)> = Vec::new();
        proof {
            assert(out.deep_view() =~= Seq::<(Seq<char>, bool)>::empty());
        }
        Some(out)
    } else {
        proof {
            assert(fv.skip(i as int)[0] == fv[i as int]);
            assert(fv.skip(i as int).drop_first() =~= fv.skip(i + 1 as int));
        }
        match &sub[i].1 {
            Json::Bool(b) => {
                match pairs_bool_of(sub, i + 1) {
                    Some(rest) => {
                        let ghost oldrest = rest.deep_view();
                        let mut out = rest;
                        out.insert(0, (sub[i].0.clone(), *b));
                        proof {
                            assert(out.deep_view() =~= seq![(sub@[i as int].0@, *b)] + oldrest);
                        }
                        Some(out)
                    },
                    None => None,
                }
            },
            _ => None,
        }
    }
}

/// The object form of a suppression map.
pub open spec fn spec_encode_pairs_bool(ps: Seq<(Seq<char>, bool)>) -> JsonV {
    JsonV::Obj(Seq::new(ps.len(), |i: int| (ps[i].0, JsonV::Bool(ps[i].1))))
}

/// An encoded suppression map decodes back to the same bindings.
pub proof fn lemma_pairs_bool_round_trip(ps: Seq<(Seq<char>, bool)>)
    ensures
        spec_pairs_bool_of(spec_encode_pairs_bool(ps)->Obj_0) == Some(ps),
    decreases ps.len(),
{
    let sub = spec_encode_pairs_bool(ps)->Obj_0;
    if ps.len() == 0 {
        assert(spec_pairs_bool_of(sub) == Some(Seq::<(Seq<char>, bool)>::empty()));
        assert(Seq::<(Seq<char>, bool)>::empty() =~= ps);
    } else {
        lemma_pairs_bool_round_trip(ps.drop_first());
        assert(sub[0] == (ps[0].0, JsonV::Bool(ps[0].1)));
        assert(sub.drop_first() =~= spec_encode_pairs_bool(ps.drop_first())->Obj_0);
        assert(seq![(ps[0].0, ps[0].1)] + ps.drop_first() =~= ps);
        assert((ps[0].0, ps[0].1) == ps[0]);
    }
}

pub(crate) fn encode_pairs_bool(ps: &Vec<(String, bool)>) -> (out: Json)
    ensures
        out@ == spec_encode_pairs_bool(ps.deep_view()),
{
    let mut fields: Vec<(String, Json)> = Vec::new();
    let mut i: usize = 0;
    while i < ps.len()
        invariant
            i <= ps.len(),
            fields@.len() == i,
            forall|m: int|
                0 <= m < i ==> #[trigger] fields@[m] == (ps@[m].0, Json::Bool(ps@[m].1)),
        decreases ps.len() - i,
    {
        fields.push((ps[i].0.clone(), Json::Bool(ps[i].1)));
        i = i + 1;
    }
    let out = Json::Obj(fields);
    proof {
        crate::json::lemma_fields_view_index(out->Obj_0@);
        assert forall|m: int| 0 <= m < ps.deep_view().len() implies spec_fields_view(out->Obj_0@)[m]
            == (ps.deep_view()[m].0, JsonV::Bool(ps.deep_view()[m].1)) by {
            assert(out->Obj_0@[m] == (ps@[m].0, Json::Bool(ps@[m].1)));
        }
        assert(spec_fields_view(out->Obj_0@) =~= spec_encode_pairs_bool(ps.deep_view())->Obj_0);
    }
    out
}

/// The channel-mention bindings an object holds.
pub open spec fn spec_pairs_chinfo_of(sub: Seq<(Seq<char>, JsonV)>) -> Option<
    Seq<(Seq<char>, ChannelInfoV)>,
>
    decreases sub.len(),
{
    if sub.len() == 0 {
        Some(Seq::empty())
    } else {
        match spec_decode_channel_info(sub[0].1) {
            Some(ci) => match spec_pairs_chinfo_of(sub.drop_first()) {
                Some(r) => Some(seq![(sub[0].0, ci)] + r),
                None => None,
            },
            None => None,
        }
    }
}

pub(crate) fn pairs_chinfo_of(sub: &Vec<(String, Json)>, i: usize) -> (r: Option<Vec<(String, ChannelInfo)>>)
    requires
        i <= sub@.len(),
    ensures
        match r {
            Some(v) => spec_pairs_chinfo_of(spec_fields_view(sub@).skip(i as int)) == Some(
                v.deep_view(),
            ),
            None => spec_pairs_chinfo_of(spec_fields_view(sub@).skip(i as int)) is None,
        },
    decreases sub@.len() - i,
{
    proof {
        crate::json::lemma_fields_view_index(sub@);
    }
    let ghost fv = spec_fields_view(sub@);
    if i == sub.len() {
        proof {
            assert(fv.skip(i as int) =~= Seq::<(Seq<char>, JsonV)>::empty());
        }
        let out: Vec<(String, ChannelInfo)> = Vec::new();
        proof {
            assert(out.deep_view() =~= Seq::<(Seq<char>, ChannelInfoV)>::empty());
        }
        Some(out)
    } else {
        proof {
            assert(fv.skip(i as int)[0] == fv[i as int]);
            assert(fv.skip(i as int).drop_first() =~= fv.skip(i + 1 as int));
        }
        match decode_channel_info(&sub[i].1) {
            Some(ci) => {
                match pairs_chinfo_of(sub, i + 1) {
                    Some(rest) => {
                        let ghost oldrest = rest.deep_view();
                        let ghost gci = ci.deep_view();
                        let mut out = rest;
                        out.insert(0, (sub[i].0.clone(), ci));
                        proof {
                            assert(out.deep_view() =~= seq![(sub@[i as int].0@, gci)] + oldrest);
                        }
                        Some(out)
                    },
                    None => None,
                }
            },
            None => None,
        }
    }
}

/// The object form of a channel-mention map.
pub open spec fn spec_encode_pairs_chinfo(ps: Seq<(Seq<char>, ChannelInfoV)>) -> JsonV {
    JsonV::Obj(Seq::new(ps.len(), |i: int| (ps[i].0, spec_encode_channel_info(ps[i].1))))
}

/// An encoded channel-mention map decodes back to the same bindings.
pub proof fn lemma_pairs_chinfo_round_trip(ps: Seq<(Seq<char>, ChannelInfoV)>)
    ensures
        spec_pairs_chinfo_of(spec_encode_pairs_chinfo(ps)->Obj_0) == Some(ps),
    decreases ps.len(),
{
    let sub = spec_encode_pairs_chinfo(ps)->Obj_0;
    if ps.len() == 0 {
        assert(spec_pairs_chinfo_of(sub) == Some(Seq::<(Seq<char>, ChannelInfoV)>::empty()));
        assert(Seq::<(Seq<char>, ChannelInfoV)>::empty() =~= ps);
    } else {
        lemma_pairs_chinfo_round_trip(ps.drop_first());
        assert(sub[0] == (ps[0].0, spec_encode_channel_info(ps[0].1)));
        lemma_channel_info_round_trip(ps[0].1);
        assert(sub.drop_first() =~= spec_encode_pairs_chinfo(ps.drop_first())->Obj_0);
        assert(seq![(ps[0].0, ps[0].1)] + ps.drop_first() =~= ps);
        assert((ps[0].0, ps[0].1) == ps[0]);
    }
}

pub(crate) fn encode_pairs_chinfo(ps: &Vec<(String, ChannelInfo)>) -> (out: Json)
    ensures
        out@ == spec_encode_pairs_chinfo(ps.deep_view()),
{
    let mut fields: Vec<(String, Json)> = Vec::new();
    let mut i: usize = 0;
    while i < ps.len()
        invariant
            i <= ps.len(),
            fields@.len() == i,
            forall|m: int|
                0 <= m < i ==> (#[trigger] fields@[m]).0 == ps@[m].0 && fields@[m].1@
                    == spec_encode_channel_info(ps@[m].1.deep_view()),
        decreases ps.len() - i,
    {
        let enc = encode_channel_info(&ps[i].1);
        fields.push((ps[i].0.clone(), enc));
        i = i + 1;
    }
    let out = Json::Obj(fields);
    proof {
        crate::json::lemma_fields_view_index(out->Obj_0@);
        assert forall|m: int| 0 <= m < ps.deep_view().len() implies spec_fields_view(out->Obj_0@)[m]
            == (ps.deep_view()[m].0, spec_encode_channel_info(ps.deep_view()[m].1)) by {
            assert((out->Obj_0@[m]).0 == ps@[m].0);
            assert((out->Obj_0@[m]).1@ == spec_encode_channel_info(ps@[m].1.deep_view()));
        }
        assert(spec_fields_view(out->Obj_0@) =~= spec_encode_pairs_chinfo(ps.deep_view())->Obj_0);
    }
    out
}

/// The `Timezone` an object holds.
pub open spec fn spec_decode_timezone(v: JsonV) -> Option<TimezoneV> {
    match v {
        JsonV::Obj(fs) => {
            let automatic_timezone = spec_get_str(fs, "automaticTimezone"@);
            let manual_timezone = spec_get_str(fs, "manualTimezone"@);
            let use_automatic_timezone = spec_get_boolstr(fs, "useAutomaticTimezone"@);
            if automatic_timezone is Some && manual_timezone is Some && use_automatic_timezone is Some {
                Some(
                    TimezoneV {
                        automatic_timezone: automatic_timezone->0,
                        manual_timezone: manual_timezone->0,
                        use_automatic_timezone: use_automatic_timezone->0,
                    },
                )
            } else {
                None
            }
        },
        _ => None,
    }
}

/// The object form of a `Timezone`.
pub open spec fn spec_encode_timezone(x: TimezoneV) -> JsonV {
    JsonV::Obj(
        seq![
            ("automaticTimezone"@, JsonV::Str(x.automatic_timezone)),
            ("manualTimezone"@, JsonV::Str(x.manual_timezone)),
            ("useAutomaticTimezone"@, JsonV::Str(if x.use_automatic_timezone { "true"@ } else { "false"@ })),
        ],
    )
}

/// Decode a `Timezone` from a JSON value.
pub fn decode_timezone(v: &Json) -> (r: Option<Timezone>)
    ensures
        r.deep_view() == spec_decode_timezone(v@),
{
    match v {
        Json::Obj(fields) => {
            let x_automatic_timezone = get_str(fields, "automaticTimezone");
            let x_manual_timezone = get_str(fields, "manualTimezone");
            let x_use_automatic_timezone = get_boolstr(fields, "useAutomaticTimezone");
            if x_automatic_timezone.is_none() {
                return None;
            }
            if x_manual_timezone.is_none() {
                return None;
            }
            if x_use_automatic_timezone.is_none() {
                return None;
            }
            Some(
                Timezone {
                    automatic_timezone: x_automatic_timezone.unwrap(),
                    manual_timezone: x_manual_timezone.unwrap(),
                    use_automatic_timezone: x_use_automatic_timezone.unwrap(),
                },
            )
        },
        _ => None,
    }
}

/// Encode a `Timezone` as a JSON object.
pub fn encode_timezone(x: &Timezone) -> (out: Json)
    ensures
        out@ == spec_encode_timezone(x.deep_view()),
{
    let mut fields: Vec<(String, Json)> = Vec::new();
    fields.push((String::from_str("automaticTimezone"), Json::Str(x.automatic_timezone.clone())));
    fields.push((String::from_str("manualTimezone"), Json::Str(x.manual_timezone.clone())));
    fields.push((String::from_str("useAutomaticTimezone"), Json::Str(String::from_str(if x.use_automatic_timezone {
        "true"
    } else {
        "false"
    }))));
    let out = Json::Obj(fields);
    proof {
        let fv = out->Obj_0@;
        crate::json::lemma_fields_view_index(fv);
        assert(fv.len() == 3);
        assert(fv[0].0@ == "automaticTimezone"@ && fv[0].1@ == JsonV::Str(x.deep_view().automatic_timezone));
        assert(fv[1].0@ == "manualTimezone"@ && fv[1].1@ == JsonV::Str(x.deep_view().manual_timezone));
        assert(fv[2].0@ == "useAutomaticTimezone"@ && fv[2].1@ == JsonV::Str(if x.deep_view().use_automatic_timezone { "true"@ } else { "false"@ }));
        assert(spec_fields_view(fv) =~= spec_encode_timezone(x.deep_view())->Obj_0);
    }
    out
}

/// A `Timezone` decodes back from its encoding unchanged.
#[verifier::rlimit(100)]
pub proof fn lemma_timezone_round_trip(x: TimezoneV)
    requires
        x.wf(),
    ensures
        spec_decode_timezone(spec_encode_timezone(x)) == Some(x),
{
    reveal_strlit("automaticTimezone");
    reveal_strlit("manualTimezone");
    reveal_strlit("useAutomaticTimezone");
    assert("automaticTimezone"@.len() != "manualTimezone"@.len());
    assert("automaticTimezone"@.len() != "useAutomaticTimezone"@.len());
    assert("manualTimezone"@.len() != "useAutomaticTimezone"@.len());
    let fs = spec_encode_timezone(x)->Obj_0;
    reveal_with_fuel(spec_obj_get, 5);
    assert(spec_obj_get(fs, "automaticTimezone"@) == Some(JsonV::Str(x.automatic_timezone)));
    assert(spec_obj_get(fs, "manualTimezone"@) == Some(JsonV::Str(x.manual_timezone)));
    assert(spec_obj_get(fs, "useAutomaticTimezone"@) == Some(JsonV::Str(if x.use_automatic_timezone { "true"@ } else { "false"@ })));
    reveal_strlit("true");
    reveal_strlit("false");
    assert("true"@.len() == 4);
    assert("false"@.len() == 5);
    assert(spec_decode_timezone(spec_encode_timezone(x)) == Some(x));
}

/// The `Channel` an object holds.
pub open spec fn spec_decode_channel(v: JsonV) -> Option<ChannelV> {
    match v {
        JsonV::Obj(fs) => {
            let id = spec_get_str(fs, "id"@);
            let create_at = spec_get_i64(fs, "create_at"@);
            let update_at = spec_get_i64(fs, "update_at"@);
            let delete_at = spec_get_i64(fs, "delete_at"@);
            let team_id = spec_get_str(fs, "team_id"@);
            let type_ = (match spec_get_str(fs, "type"@) {
            Some(s) => ChannelType::spec_from_wire(s),
            None => None,
        });
            let display_name = spec_get_str(fs, "display_name"@);
            let header = spec_get_str(fs, "header"@);
            let last_post_at = spec_get_i64(fs, "last_post_at"@);
            let total_msg_count = spec_get_u64(fs, "total_msg_count"@);
            let extra_update_at = spec_get_i64(fs, "extra_update_at"@);
            let creator_id = spec_get_str(fs, "creator_id"@);
            if id is Some && create_at is Some && update_at is Some && delete_at is Some && team_id is Some && type_ is Some && display_name is Some && header is Some && last_post_at is Some && total_msg_count is Some && extra_update_at is Some && creator_id is Some {
                Some(
                    ChannelV {
                        id: id->0,
                        create_at: create_at->0,
                        update_at: update_at->0,
                        delete_at: delete_at->0,
                        team_id: team_id->0,
                        type_: type_->0,
                        display_name: display_name->0,
                        header: header->0,
                        last_post_at: last_post_at->0,
                        total_msg_count: total_msg_count->0,
                        extra_update_at: extra_update_at->0,
                        creator_id: creator_id->0,
                    },
                )
            } else {
                None
            }
        },
        _ => None,
    }
}

/// The object form of a `Channel`.
pub open spec fn spec_encode_channel(x: ChannelV) -> JsonV {
    JsonV::Obj(
        seq![
            ("id"@, JsonV::Str(x.id)),
            ("create_at"@, JsonV::Int(x.create_at)),
            ("update_at"@, JsonV::Int(x.update_at)),
            ("delete_at"@, JsonV::Int(x.delete_at)),
            ("team_id"@, JsonV::Str(x.team_id)),
            ("type"@, JsonV::Str(x.type_.spec_wire_name())),
            ("display_name"@, JsonV::Str(x.display_name)),
            ("header"@, JsonV::Str(x.header)),
            ("last_post_at"@, JsonV::Int(x.last_post_at)),
            ("total_msg_count"@, JsonV::Int(if x.total_msg_count > i64::MAX { i64::MAX as int } else { x.total_msg_count })),
            ("extra_update_at"@, JsonV::Int(x.extra_update_at)),
            ("creator_id"@, JsonV::Str(x.creator_id)),
        ],
    )
}

/// Decode a `Channel` from a JSON value.
pub fn decode_channel(v: &Json) -> (r: Option<Channel>)
    ensures
        r.deep_view() == spec_decode_channel(v@),
{
    match v {
        Json::Obj(fields) => {
            let x_id = get_str(fields, "id");
            let x_create_at = get_i64(fields, "create_at");
            let x_update_at = get_i64(fields, "update_at");
            let x_delete_at = get_i64(fields, "delete_at");
            let x_team_id = get_str(fields, "team_id");
            let x_type_ = match get_str(fields, "type") {
        Some(s) => ChannelType::from_wire(s.as_str()),
        None => None,
    };
            let x_display_name = get_str(fields, "display_name");
            let x_header = get_str(fields, "header");
            let x_last_post_at = get_i64(fields, "last_post_at");
            let x_total_msg_count = get_u64(fields, "total_msg_count");
            let x_extra_update_at = get_i64(fields, "extra_update_at");
            let x_creator_id = get_str(fields, "creator_id");
            if x_id.is_none() {
                return None;
            }
            if x_create_at.is_none() {
                return None;
            }
            if x_update_at.is_none() {
                return None;
            }
            if x_delete_at.is_none() {
                return None;
            }
            if x_team_id.is_none() {
                return None;
            }
            if x_type_.is_none() {
                return None;
            }
            if x_display_name.is_none() {
                return None;
            }
            if x_header.is_none() {
                return None;
            }
            if x_last_post_at.is_none() {
                return None;
            }
            if x_total_msg_count.is_none() {
                return None;
            }
            if x_extra_update_at.is_none() {
                return None;
            }
            if x_creator_id.is_none() {
                return None;
            }
            Some(
                Channel {
                    id: x_id.unwrap(),
                    create_at: x_create_at.unwrap(),
                    update_at: x_update_at.unwrap(),
                    delete_at: x_delete_at.unwrap(),
                    team_id: x_team_id.unwrap(),
                    type_: x_type_.unwrap(),
                    display_name: x_display_name.unwrap(),
                    header: x_header.unwrap(),
                    last_post_at: x_last_post_at.unwrap(),
                    total_msg_count: x_total_msg_count.unwrap(),
                    extra_update_at: x_extra_update_at.unwrap(),
                    creator_id: x_creator_id.unwrap(),
                },
            )
        },
        _ => None,
    }
}

/// Encode a `Channel` as a JSON object.
#[verifier::rlimit(100)]
pub fn encode_channel(x: &Channel) -> (out: Json)
    ensures
        out@ == spec_encode_channel(x.deep_view()),
{
    let mut fields: Vec<(String, Json)> = Vec::new();
    fields.push((String::from_str("id"), Json::Str(x.id.clone())));
    fields.push((String::from_str("create_at"), Json::Int(x.create_at)));
    fields.push((String::from_str("update_at"), Json::Int(x.update_at)));
    fields.push((String::from_str("delete_at"), Json::Int(x.delete_at)));
    fields.push((String::from_str("team_id"), Json::Str(x.team_id.clone())));
    fields.push((String::from_str("type"), Json::Str(x.type_.wire_name())));
    fields.push((String::from_str("display_name"), Json::Str(x.display_name.clone())));
    fields.push((String::from_str("header"), Json::Str(x.header.clone())));
    fields.push((String::from_str("last_post_at"), Json::Int(x.last_post_at)));
    fields.push((String::from_str("total_msg_count"), (if x.total_msg_count > i64::MAX as u64 {
        Json::Int(i64::MAX)
    } else {
        Json::Int(x.total_msg_count as i64)
    })));
    fields.push((String::from_str("extra_update_at"), Json::Int(x.extra_update_at)));
    fields.push((String::from_str("creator_id"), Json::Str(x.creator_id.clone())));
    let out = Json::Obj(fields);
    proof {
        let fv = out->Obj_0@;
        crate::json::lemma_fields_view_index(fv);
        assert(fv.len() == 12);
        assert(fv[0].0@ == "id"@ && fv[0].1@ == JsonV::Str(x.deep_view().id));
        assert(fv[1].0@ == "create_at"@ && fv[1].1@ == JsonV::Int(x.deep_view().create_at));
        assert(fv[2].0@ == "update_at"@ && fv[2].1@ == JsonV::Int(x.deep_view().update_at));
        assert(fv[3].0@ == "delete_at"@ && fv[3].1@ == JsonV::Int(x.deep_view().delete_at));
        assert(fv[4].0@ == "team_id"@ && fv[4].1@ == JsonV::Str(x.deep_view().team_id));
        assert(fv[5].0@ == "type"@ && fv[5].1@ == JsonV::Str(x.deep_view().type_.spec_wire_name()));
        assert(fv[6].0@ == "display_name"@ && fv[6].1@ == JsonV::Str(x.deep_view().display_name));
        assert(fv[7].0@ == "header"@ && fv[7].1@ == JsonV::Str(x.deep_view().header));
        assert(fv[8].0@ == "last_post_at"@ && fv[8].1@ == JsonV::Int(x.deep_view().last_post_at));
        assert(fv[9].0@ == "total_msg_count"@ && fv[9].1@ == JsonV::Int(if x.deep_view().total_msg_count > i64::MAX { i64::MAX as int } else { x.deep_view().total_msg_count }));
        assert(fv[10].0@ == "extra_update_at"@ && fv[10].1@ == JsonV::Int(x.deep_view().extra_update_at));
        assert(fv[11].0@ == "creator_id"@ && fv[11].1@ == JsonV::Str(x.deep_view().creator_id));
        assert(spec_fields_view(fv) =~= spec_encode_channel(x.deep_view())->Obj_0);
    }
    out
}

/// A `Channel` decodes back from its encoding unchanged.
#[verifier::rlimit(100)]
pub proof fn lemma_channel_round_trip(x: ChannelV)
    requires
        x.wf(),
    ensures
        spec_decode_channel(spec_encode_channel(x)) == Some(x),
{
    reveal_strlit("create_at");
    reveal_strlit("creator_id");
    reveal_strlit("delete_at");
    reveal_strlit("display_name");
    reveal_strlit("extra_update_at");
    reveal_strlit("header");
    reveal_strlit("id");
    reveal_strlit("last_post_at");
    reveal_strlit("team_id");
    reveal_strlit("total_msg_count");
    reveal_strlit("type");
    reveal_strlit("update_at");
    assert("id"@.len() != "create_at"@.len());
    assert("id"@.len() != "update_at"@.len());
    assert("id"@.len() != "delete_at"@.len());
    assert("id"@.len() != "team_id"@.len());
    assert("id"@.len() != "type"@.len());
    assert("id"@.len() != "display_name"@.len());
    assert("id"@.len() != "header"@.len());
    assert("id"@.len() != "last_post_at"@.len());
    assert("id"@.len() != "total_msg_count"@.len());
    assert("id"@.len() != "extra_update_at"@.len());
    assert("id"@.len() != "creator_id"@.len());
    assert("create_at"@ != "update_at"@) by {
        assert("create_at"@[0] == 'c');
        assert("update_at"@[0] == 'u');
    }
    assert("create_at"@ != "delete_at"@) by {
        assert("create_at"@[0] == 'c');
        assert("delete_at"@[0] == 'd');
    }
    assert("create_at"@.len() != "team_id"@.len());
    assert("create_at"@.len() != "type"@.len());
    assert("create_at"@.len() != "display_name"@.len());
    assert("create_at"@.len() != "header"@.len());
    assert("create_at"@.len() != "last_post_at"@.len());
    assert("create_at"@.len() != "total_msg_count"@.len());
    assert("create_at"@.len() != "extra_update_at"@.len());
    assert("create_at"@.len() != "creator_id"@.len());
    assert("update_at"@ != "delete_at"@) by {
        assert("update_at"@[0] == 'u');
        assert("delete_at"@[0] == 'd');
    }
    assert("update_at"@.len() != "team_id"@.len());
    assert("update_at"@.len() != "type"@.len());
    assert("update_at"@.len() != "display_name"@.len());
    assert("update_at"@.len() != "header"@.len());
    assert("update_at"@.len() != "last_post_at"@.len());
    assert("update_at"@.len() != "total_msg_count"@.len());
    assert("update_at"@.len() != "extra_update_at"@.len());
    assert("update_at"@.len() != "creator_id"@.len());
    assert("delete_at"@.len() != "team_id"@.len());
    assert("delete_at"@.len() != "type"@.len());
    assert("delete_at"@.len() != "display_name"@.len());
    assert("delete_at"@.len() != "header"@.len());
    assert("delete_at"@.len() != "last_post_at"@.len());
    assert("delete_at"@.len() != "total_msg_count"@.len());
    assert("delete_at"@.len() != "extra_update_at"@.len());
    assert("delete_at"@.len() != "creator_id"@.len());
    assert("team_id"@.len() != "type"@.len());
    assert("team_id"@.len() != "display_name"@.len());
    assert("team_id"@.len() != "header"@.len());
    assert("team_id"@.len() != "last_post_at"@.len());
    assert("team_id"@.len() != "total_msg_count"@.len());
    assert("team_id"@.len() != "extra_update_at"@.len());
    assert("team_id"@.len() != "creator_id"@.len());
    assert("type"@.len() != "display_name"@.len());
    assert("type"@.len() != "header"@.len());
    assert("type"@.len() != "last_post_at"@.len());
    assert("type"@.len() != "total_msg_count"@.len());
    assert("type"@.len() != "extra_update_at"@.len());
    assert("type"@.len() != "creator_id"@.len());
    assert("display_name"@.len() != "header"@.len());
    assert("display_name"@ != "last_post_at"@) by {
        assert("display_name"@[0] == 'd');
        assert("last_post_at"@[0] == 'l');
    }
    assert("display_name"@.len() != "total_msg_count"@.len());
    assert("display_name"@.len() != "extra_update_at"@.len());
    assert("display_name"@.len() != "creator_id"@.len());
    assert("header"@.len() != "last_post_at"@.len());
    assert("header"@.len() != "total_msg_count"@.len());
    assert("header"@.len() != "extra_update_at"@.len());
    assert("header"@.len() != "creator_id"@.len());
    assert("last_post_at"@.len() != "total_msg_count"@.len());
    assert("last_post_at"@.len() != "extra_update_at"@.len());
    assert("last_post_at"@.len() != "creator_id"@.len());
    assert("total_msg_count"@ != "extra_update_at"@) by {
        assert("total_msg_count"@[0] == 't');
        assert("extra_update_at"@[0] == 'e');
    }
    assert("total_msg_count"@.len() != "creator_id"@.len());
    assert("extra_update_at"@.len() != "creator_id"@.len());
    let fs = spec_encode_channel(x)->Obj_0;
    reveal_with_fuel(spec_obj_get, 14);
    assert(spec_obj_get(fs, "id"@) == Some(JsonV::Str(x.id)));
    assert(spec_obj_get(fs, "create_at"@) == Some(JsonV::Int(x.create_at)));
    assert(spec_obj_get(fs, "update_at"@) == Some(JsonV::Int(x.update_at)));
    assert(spec_obj_get(fs, "delete_at"@) == Some(JsonV::Int(x.delete_at)));
    assert(spec_obj_get(fs, "team_id"@) == Some(JsonV::Str(x.team_id)));
    assert(spec_obj_get(fs, "type"@) == Some(JsonV::Str(x.type_.spec_wire_name())));
    assert(spec_obj_get(fs, "display_name"@) == Some(JsonV::Str(x.display_name)));
    assert(spec_obj_get(fs, "header"@) == Some(JsonV::Str(x.header)));
    assert(spec_obj_get(fs, "last_post_at"@) == Some(JsonV::Int(x.last_post_at)));
    assert(spec_obj_get(fs, "total_msg_count"@) == Some(JsonV::Int(if x.total_msg_count > i64::MAX { i64::MAX as int } else { x.total_msg_count })));
    assert(spec_obj_get(fs, "extra_update_at"@) == Some(JsonV::Int(x.extra_update_at)));
    assert(spec_obj_get(fs, "creator_id"@) == Some(JsonV::Str(x.creator_id)));
    x.type_.lemma_wire_name_round_trip();
    assert(spec_decode_channel(spec_encode_channel(x)) == Some(x));
}

/// The `User` an object holds.
pub open spec fn spec_decode_user(v: JsonV) -> Option<UserV> {
    match v {
        JsonV::Obj(fs) => {
            let id = spec_get_str(fs, "id"@);
            let create_at = spec_get_i64(fs, "create_at"@);
            let update_at = spec_get_i64(fs, "update_at"@);
            let delete_at = spec_get_i64(fs, "delete_at"@);
            let username = spec_get_str(fs, "username"@);
            let first_name = spec_get_str(fs, "first_name"@);
            let last_name = spec_get_str(fs, "last_name"@);
            let nickname = spec_get_str(fs, "nickname"@);
            let email = spec_get_str(fs, "email"@);
            let email_verified = spec_opt_bool(fs, "email_verified"@);
            let auth_data = spec_get_str(fs, "auth_data"@);
            let auth_service = spec_get_str(fs, "auth_service"@);
            let position = spec_get_str(fs, "position"@);
            let roles = spec_get_roles(fs, "roles"@);
            let locale = spec_get_str(fs, "locale"@);
            let last_password_update = spec_opt_i64(fs, "last_password_update"@);
            let last_picture_update = spec_opt_i64(fs, "last_picture_update"@);
            let failed_attempts = spec_opt_u64(fs, "failed_attempts"@);
            let mfa_active = spec_opt_bool(fs, "mfa_active"@);
            let timezone = (match spec_obj_get(fs, "timezone"@) {
            None => Some(None),
            Some(JsonV::Null) => Some(None),
            Some(sub) => match spec_decode_timezone(sub) {
                Some(x) => Some(Some(x)),
                None => None,
            },
        });
            if id is Some && create_at is Some && update_at is Some && delete_at is Some && username is Some && first_name is Some && last_name is Some && nickname is Some && email is Some && email_verified is Some && auth_data is Some && auth_service is Some && position is Some && roles is Some && locale is Some && last_password_update is Some && last_picture_update is Some && failed_attempts is Some && mfa_active is Some && timezone is Some {
                Some(
                    UserV {
                        id: id->0,
                        create_at: create_at->0,
                        update_at: update_at->0,
                        delete_at: delete_at->0,
                        username: username->0,
                        first_name: first_name->0,
                        last_name: last_name->0,
                        nickname: nickname->0,
                        email: email->0,
                        email_verified: email_verified->0,
                        auth_data: auth_data->0,
                        auth_service: auth_service->0,
                        position: position->0,
                        roles: roles->0,
                        locale: locale->0,
                        last_password_update: last_password_update->0,
                        last_picture_update: last_picture_update->0,
                        failed_attempts: failed_attempts->0,
                        mfa_active: mfa_active->0,
                        timezone: timezone->0,
                    },
                )
            } else {
                None
            }
        },
        _ => None,
    }
}

/// The object form of a `User`.
pub open spec fn spec_encode_user(x: UserV) -> JsonV {
    JsonV::Obj(
        seq![
            ("id"@, JsonV::Str(x.id)),
            ("create_at"@, JsonV::Int(x.create_at)),
            ("update_at"@, JsonV::Int(x.update_at)),
            ("delete_at"@, JsonV::Int(x.delete_at)),
            ("username"@, JsonV::Str(x.username)),
            ("first_name"@, JsonV::Str(x.first_name)),
            ("last_name"@, JsonV::Str(x.last_name)),
            ("nickname"@, JsonV::Str(x.nickname)),
            ("email"@, JsonV::Str(x.email)),
            ("email_verified"@, (match x.email_verified {
            Some(b) => JsonV::Bool(b),
            None => JsonV::Null,
        })),
            ("auth_data"@, JsonV::Str(x.auth_data)),
            ("auth_service"@, JsonV::Str(x.auth_service)),
            ("position"@, JsonV::Str(x.position)),
            ("roles"@, spec_encode_roles(x.roles)),
            ("locale"@, JsonV::Str(x.locale)),
            ("last_password_update"@, (match x.last_password_update {
            Some(n) => JsonV::Int(n),
            None => JsonV::Null,
        })),
            ("last_picture_update"@, (match x.last_picture_update {
            Some(n) => JsonV::Int(n),
            None => JsonV::Null,
        })),
            ("failed_attempts"@, (match x.failed_attempts {
            Some(n) => JsonV::Int(if n > i64::MAX { i64::MAX as int } else { n }),
            None => JsonV::Null,
        })),
            ("mfa_active"@, (match x.mfa_active {
            Some(b) => JsonV::Bool(b),
            None => JsonV::Null,
        })),
            ("timezone"@, (match x.timezone {
            Some(x) => spec_encode_timezone(x),
            None => JsonV::Null,
        })),
        ],
    )
}

/// Decode a `User` from a JSON value.
pub fn decode_user(v: &Json) -> (r: Option<User>)
    ensures
        r.deep_view() == spec_decode_user(v@),
{
    match v {
        Json::Obj(fields) => {
            let x_id = get_str(fields, "id");
            let x_create_at = get_i64(fields, "create_at");
            let x_update_at = get_i64(fields, "update_at");
            let x_delete_at = get_i64(fields, "delete_at");
            let x_username = get_str(fields, "username");
            let x_first_name = get_str(fields, "first_name");
            let x_last_name = get_str(fields, "last_name");
            let x_nickname = get_str(fields, "nickname");
            let x_email = get_str(fields, "email");
            let x_email_verified = opt_bool(fields, "email_verified");
            let x_auth_data = get_str(fields, "auth_data");
            let x_auth_service = get_str(fields, "auth_service");
            let x_position = get_str(fields, "position");
            let x_roles = get_roles(fields, "roles");
            let x_locale = get_str(fields, "locale");
            let x_last_password_update = opt_i64(fields, "last_password_update");
            let x_last_picture_update = opt_i64(fields, "last_picture_update");
            let x_failed_attempts = opt_u64(fields, "failed_attempts");
            let x_mfa_active = opt_bool(fields, "mfa_active");
            let x_timezone = match obj_get(fields, "timezone") {
        None => Some(None),
        Some(Json::Null) => Some(None),
        Some(sub) => match decode_timezone(sub) {
            Some(x) => Some(Some(x)),
            None => None,
        },
    };
            if x_id.is_none() {
                return None;
            }
            if x_create_at.is_none() {
                return None;
            }
            if x_update_at.is_none() {
                return None;
            }
            if x_delete_at.is_none() {
                return None;
            }
            if x_username.is_none() {
                return None;
            }
            if x_first_name.is_none() {
                return None;
            }
            if x_last_name.is_none() {
                return None;
            }
            if x_nickname.is_none() {
                return None;
            }
            if x_email.is_none() {
                return None;
            }
            if x_email_verified.is_none() {
                return None;
            }
            if x_auth_data.is_none() {
                return None;
            }
            if x_auth_service.is_none() {
                return None;
            }
            if x_position.is_none() {
                return None;
            }
            if x_roles.is_none() {
                return None;
            }
            if x_locale.is_none() {
                return None;
            }
            if x_last_password_update.is_none() {
                return None;
            }
            if x_last_picture_update.is_none() {
                return None;
            }
            if x_failed_attempts.is_none() {
                return None;
            }
            if x_mfa_active.is_none() {
                return None;
            }
            if x_timezone.is_none() {
                return None;
            }
            Some(
                User {
                    id: x_id.unwrap(),
                    create_at: x_create_at.unwrap(),
                    update_at: x_update_at.unwrap(),
                    delete_at: x_delete_at.unwrap(),
                    username: x_username.unwrap(),
                    first_name: x_first_name.unwrap(),
                    last_name: x_last_name.unwrap(),
                    nickname: x_nickname.unwrap(),
                    email: x_email.unwrap(),
                    email_verified: x_email_verified.unwrap(),
                    auth_data: x_auth_data.unwrap(),
                    auth_service: x_auth_service.unwrap(),
                    position: x_position.unwrap(),
                    roles: x_roles.unwrap(),
                    locale: x_locale.unwrap(),
                    last_password_update: x_last_password_update.unwrap(),
                    last_picture_update: x_last_picture_update.unwrap(),
                    failed_attempts: x_failed_attempts.unwrap(),
                    mfa_active: x_mfa_active.unwrap(),
                    timezone: x_timezone.unwrap(),
                },
            )
        },
        _ => None,
    }
}

/// Encode a `User` as a JSON object.
#[verifier::rlimit(100)]
pub fn encode_user(x: &User) -> (out: Json)
    ensures
        out@ == spec_encode_user(x.deep_view()),
{
    let mut fields: Vec<(String, Json)> = Vec::new();
    fields.push((String::from_str("id"), Json::Str(x.id.clone())));
    fields.push((String::from_str("create_at"), Json::Int(x.create_at)));
    fields.push((String::from_str("update_at"), Json::Int(x.update_at)));
    fields.push((String::from_str("delete_at"), Json::Int(x.delete_at)));
    fields.push((String::from_str("username"), Json::Str(x.username.clone())));
    fields.push((String::from_str("first_name"), Json::Str(x.first_name.clone())));
    fields.push((String::from_str("last_name"), Json::Str(x.last_name.clone())));
    fields.push((String::from_str("nickname"), Json::Str(x.nickname.clone())));
    fields.push((String::from_str("email"), Json::Str(x.email.clone())));
    fields.push((String::from_str("email_verified"), (match x.email_verified {
        Some(b) => Json::Bool(b),
        None => Json::Null,
    })));
    fields.push((String::from_str("auth_data"), Json::Str(x.auth_data.clone())));
    fields.push((String::from_str("auth_service"), Json::Str(x.auth_service.clone())));
    fields.push((String::from_str("position"), Json::Str(x.position.clone())));
    fields.push((String::from_str("roles"), encode_roles(&x.roles)));
    fields.push((String::from_str("locale"), Json::Str(x.locale.clone())));
    fields.push((String::from_str("last_password_update"), (match x.last_password_update {
        Some(n) => Json::Int(n),
        None => Json::Null,
    })));
    fields.push((String::from_str("last_picture_update"), (match x.last_picture_update {
        Some(n) => Json::Int(n),
        None => Json::Null,
    })));
    fields.push((String::from_str("failed_attempts"), (match x.failed_attempts {
        Some(n) => if n > i64::MAX as u64 {
            Json::Int(i64::MAX)
        } else {
            Json::Int(n as i64)
        },
        None => Json::Null,
    })));
    fields.push((String::from_str("mfa_active"), (match x.mfa_active {
        Some(b) => Json::Bool(b),
        None => Json::Null,
    })));
    fields.push((String::from_str("timezone"), (match &x.timezone {
        Some(s) => encode_timezone(s),
        None => Json::Null,
    })));
    let out = Json::Obj(fields);
    proof {
        let fv = out->Obj_0@;
        crate::json::lemma_fields_view_index(fv);
        assert(fv.len() == 20);
        assert(fv[0].0@ == "id"@ && fv[0].1@ == JsonV::Str(x.deep_view().id));
        assert(fv[1].0@ == "create_at"@ && fv[1].1@ == JsonV::Int(x.deep_view().create_at));
        assert(fv[2].0@ == "update_at"@ && fv[2].1@ == JsonV::Int(x.deep_view().update_at));
        assert(fv[3].0@ == "delete_at"@ && fv[3].1@ == JsonV::Int(x.deep_view().delete_at));
        assert(fv[4].0@ == "username"@ && fv[4].1@ == JsonV::Str(x.deep_view().username));
        assert(fv[5].0@ == "first_name"@ && fv[5].1@ == JsonV::Str(x.deep_view().first_name));
        assert(fv[6].0@ == "last_name"@ && fv[6].1@ == JsonV::Str(x.deep_view().last_name));
        assert(fv[7].0@ == "nickname"@ && fv[7].1@ == JsonV::Str(x.deep_view().nickname));
        assert(fv[8].0@ == "email"@ && fv[8].1@ == JsonV::Str(x.deep_view().email));
        assert(fv[9].0@ == "email_verified"@ && fv[9].1@ == (match x.deep_view().email_verified {
            Some(b) => JsonV::Bool(b),
            None => JsonV::Null,
        }));
        assert(fv[10].0@ == "auth_data"@ && fv[10].1@ == JsonV::Str(x.deep_view().auth_data));
        assert(fv[11].0@ == "auth_service"@ && fv[11].1@ == JsonV::Str(x.deep_view().auth_service));
        assert(fv[12].0@ == "position"@ && fv[12].1@ == JsonV::Str(x.deep_view().position));
        assert(fv[13].0@ == "roles"@ && fv[13].1@ == spec_encode_roles(x.deep_view().roles));
        assert(fv[14].0@ == "locale"@ && fv[14].1@ == JsonV::Str(x.deep_view().locale));
        assert(fv[15].0@ == "last_password_update"@ && fv[15].1@ == (match x.deep_view().last_password_update {
            Some(n) => JsonV::Int(n),
            None => JsonV::Null,
        }));
        assert(fv[16].0@ == "last_picture_update"@ && fv[16].1@ == (match x.deep_view().last_picture_update {
            Some(n) => JsonV::Int(n),
            None => JsonV::Null,
        }));
        assert(fv[17].0@ == "failed_attempts"@ && fv[17].1@ == (match x.deep_view().failed_attempts {
            Some(n) => JsonV::Int(if n > i64::MAX { i64::MAX as int } else { n }),
            None => JsonV::Null,
        }));
        assert(fv[18].0@ == "mfa_active"@ && fv[18].1@ == (match x.deep_view().mfa_active {
            Some(b) => JsonV::Bool(b),
            None => JsonV::Null,
        }));
        assert(fv[19].0@ == "timezone"@ && fv[19].1@ == (match x.deep_view().timezone {
            Some(x) => spec_encode_timezone(x),
            None => JsonV::Null,
        }));
        assert(spec_fields_view(fv) =~= spec_encode_user(x.deep_view())->Obj_0);
    }
    out
}

/// A `User` decodes back from its encoding unchanged.
#[verifier::rlimit(100)]
pub proof fn lemma_user_round_trip(x: UserV)
    requires
        x.wf(),
    ensures
        spec_decode_user(spec_encode_user(x)) == Some(x),
{
    reveal_strlit("auth_data");
    reveal_strlit("auth_service");
    reveal_strlit("create_at");
    reveal_strlit("delete_at");
    reveal_strlit("email");
    reveal_strlit("email_verified");
    reveal_strlit("failed_attempts");
    reveal_strlit("first_name");
    reveal_strlit("id");
    reveal_strlit("last_name");
    reveal_strlit("last_password_update");
    reveal_strlit("last_picture_update");
    reveal_strlit("locale");
    reveal_strlit("mfa_active");
    reveal_strlit("nickname");
    reveal_strlit("position");
    reveal_strlit("roles");
    reveal_strlit("timezone");
    reveal_strlit("update_at");
    reveal_strlit("username");
    assert("id"@.len() != "create_at"@.len());
    assert("id"@.len() != "update_at"@.len());
    assert("id"@.len() != "delete_at"@.len());
    assert("id"@.len() != "username"@.len());
    assert("id"@.len() != "first_name"@.len());
    assert("id"@.len() != "last_name"@.len());
    assert("id"@.len() != "nickname"@.len());
    assert("id"@.len() != "email"@.len());
    assert("id"@.len() != "email_verified"@.len());
    assert("id"@.len() != "auth_data"@.len());
    assert("id"@.len() != "auth_service"@.len());
    assert("id"@.len() != "position"@.len());
    assert("id"@.len() != "roles"@.len());
    assert("id"@.len() != "locale"@.len());
    assert("id"@.len() != "last_password_update"@.len());
    assert("id"@.len() != "last_picture_update"@.len());
    assert("id"@.len() != "failed_attempts"@.len());
    assert("id"@.len() != "mfa_active"@.len());
    assert("id"@.len() != "timezone"@.len());
    assert("create_at"@ != "update_at"@) by {
        assert("create_at"@[0] == 'c');
        assert("update_at"@[0] == 'u');
    }
    assert("create_at"@ != "delete_at"@) by {
        assert("create_at"@[0] == 'c');
        assert("delete_at"@[0] == 'd');
    }
    assert("create_at"@.len() != "username"@.len());
    assert("create_at"@.len() != "first_name"@.len());
    assert("create_at"@ != "last_name"@) by {
        assert("create_at"@[0] == 'c');
        assert("last_name"@[0] == 'l');
    }
    assert("create_at"@.len() != "nickname"@.len());
    assert("create_at"@.len() != "email"@.len());
    assert("create_at"@.len() != "email_verified"@.len());
    assert("create_at"@ != "auth_data"@) by {
        assert("create_at"@[0] == 'c');
        assert("auth_data"@[0] == 'a');
    }
    assert("create_at"@.len() != "auth_service"@.len());
    assert("create_at"@.len() != "position"@.len());
    assert("create_at"@.len() != "roles"@.len());
    assert("create_at"@.len() != "locale"@.len());
    assert("create_at"@.len() != "last_password_update"@.len());
    assert("create_at"@.len() != "last_picture_update"@.len());
    assert("create_at"@.len() != "failed_attempts"@.len());
    assert("create_at"@.len() != "mfa_active"@.len());
    assert("create_at"@.len() != "timezone"@.len());
    assert("update_at"@ != "delete_at"@) by {
        assert("update_at"@[0] == 'u');
        assert("delete_at"@[0] == 'd');
    }
    assert("update_at"@.len() != "username"@.len());
    assert("update_at"@.len() != "first_name"@.len());
    assert("update_at"@ != "last_name"@) by {
        assert("update_at"@[0] == 'u');
        assert("last_name"@[0] == 'l');
    }
    assert("update_at"@.len() != "nickname"@.len());
    assert("update_at"@.len() != "email"@.len());
    assert("update_at"@.len() != "email_verified"@.len());
    assert("update_at"@ != "auth_data"@) by {
        assert("update_at"@[0] == 'u');
        assert("auth_data"@[0] == 'a');
    }
    assert("update_at"@.len() != "auth_service"@.len());
    assert("update_at"@.len() != "position"@.len());
    assert("update_at"@.len() != "roles"@.len());
    assert("update_at"@.len() != "locale"@.len());
    assert("update_at"@.len() != "last_password_update"@.len());
    assert("update_at"@.len() != "last_picture_update"@.len());
    assert("update_at"@.len() != "failed_attempts"@.len());
    assert("update_at"@.len() != "mfa_active"@.len());
    assert("update_at"@.len() != "timezone"@.len());
    assert("delete_at"@.len() != "username"@.len());
    assert("delete_at"@.len() != "first_name"@.len());
    assert("delete_at"@ != "last_name"@) by {
        assert("delete_at"@[0] == 'd');
        assert("last_name"@[0] == 'l');
    }
    assert("delete_at"@.len() != "nickname"@.len());
    assert("delete_at"@.len() != "email"@.len());
    assert("delete_at"@.len() != "email_verified"@.len());
    assert("delete_at"@ != "auth_data"@) by {
        assert("delete_at"@[0] == 'd');
        assert("auth_data"@[0] == 'a');
    }
    assert("delete_at"@.len() != "auth_service"@.len());
    assert("delete_at"@.len() != "position"@.len());
    assert("delete_at"@.len() != "roles"@.len());
    assert("delete_at"@.len() != "locale"@.len());
    assert("delete_at"@.len() != "last_password_update"@.len());
    assert("delete_at"@.len() != "last_picture_update"@.len());
    assert("delete_at"@.len() != "failed_attempts"@.len());
    assert("delete_at"@.len() != "mfa_active"@.len());
    assert("delete_at"@.len() != "timezone"@.len());
    assert("username"@.len() != "first_name"@.len());
    assert("username"@.len() != "last_name"@.len());
    assert("username"@ != "nickname"@) by {
        assert("username"@[0] == 'u');
        assert("nickname"@[0] == 'n');
    }
    assert("username"@.len() != "email"@.len());
    assert("username"@.len() != "email_verified"@.len());
    assert("username"@.len() != "auth_data"@.len());
    assert("username"@.len() != "auth_service"@.len());
    assert("username"@ != "position"@) by {
        assert("username"@[0] == 'u');
        assert("position"@[0] == 'p');
    }
    assert("username"@.len() != "roles"@.len());
    assert("username"@.len() != "locale"@.len());
    assert("username"@.len() != "last_password_update"@.len());
    assert("username"@.len() != "last_picture_update"@.len());
    assert("username"@.len() != "failed_attempts"@.len());
    assert("username"@.len() != "mfa_active"@.len());
    assert("username"@ != "timezone"@) by {
        assert("username"@[0] == 'u');
        assert("timezone"@[0] == 't');
    }
    assert("first_name"@.len() != "last_name"@.len());
    assert("first_name"@.len() != "nickname"@.len());
    assert("first_name"@.len() != "email"@.len());
    assert("first_name"@.len() != "email_verified"@.len());
    assert("first_name"@.len() != "auth_data"@.len());
    assert("first_name"@.len() != "auth_service"@.len());
    assert("first_name"@.len() != "position"@.len());
    assert("first_name"@.len() != "roles"@.len());
    assert("first_name"@.len() != "locale"@.len());
    assert("first_name"@.len() != "last_password_update"@.len());
    assert("first_name"@.len() != "last_picture_update"@.len());
    assert("first_name"@.len() != "failed_attempts"@.len());
    assert("first_name"@ != "mfa_active"@) by {
        assert("first_name"@[0] == 'f');
        assert("mfa_active"@[0] == 'm');
    }
    assert("first_name"@.len() != "timezone"@.len());
    assert("last_name"@.len() != "nickname"@.len());
    assert("last_name"@.len() != "email"@.len());
    assert("last_name"@.len() != "email_verified"@.len());
    assert("last_name"@ != "auth_data"@) by {
        assert("last_name"@[0] == 'l');
        assert("auth_data"@[0] == 'a');
    }
    assert("last_name"@.len() != "auth_service"@.len());
    assert("last_name"@.len() != "position"@.len());
    assert("last_name"@.len() != "roles"@.len());
    assert("last_name"@.len() != "locale"@.len());
    assert("last_name"@.len() != "last_password_update"@.len());
    assert("last_name"@.len() != "last_picture_update"@.len());
    assert("last_name"@.len() != "failed_attempts"@.len());
    assert("last_name"@.len() != "mfa_active"@.len());
    assert("last_name"@.len() != "timezone"@.len());
    assert("nickname"@.len() != "email"@.len());
    assert("nickname"@.len() != "email_verified"@.len());
    assert("nickname"@.len() != "auth_data"@.len());
    assert("nickname"@.len() != "auth_service"@.len());
    assert("nickname"@ != "position"@) by {
        assert("nickname"@[0] == 'n');
        assert("position"@[0] == 'p');
    }
    assert("nickname"@.len() != "roles"@.len());
    assert("nickname"@.len() != "locale"@.len());
    assert("nickname"@.len() != "last_password_update"@.len());
    assert("nickname"@.len() != "last_picture_update"@.len());
    assert("nickname"@.len() != "failed_attempts"@.len());
    assert("nickname"@.len() != "mfa_active"@.len());
    assert("nickname"@ != "timezone"@) by {
        assert("nickname"@[0] == 'n');
        assert("timezone"@[0] == 't');
    }
    assert("email"@.len() != "email_verified"@.len());
    assert("email"@.len() != "auth_data"@.len());
    assert("email"@.len() != "auth_service"@.len());
    assert("email"@.len() != "position"@.len());
    assert("email"@ != "roles"@) by {
        assert("email"@[0] == 'e');
        assert("roles"@[0] == 'r');
    }
    assert("email"@.len() != "locale"@.len());
    assert("email"@.len() != "last_password_update"@.len());
    assert("email"@.len() != "last_picture_update"@.len());
    assert("email"@.len() != "failed_attempts"@.len());
    assert("email"@.len() != "mfa_active"@.len());
    assert("email"@.len() != "timezone"@.len());
    assert("email_verified"@.len() != "auth_data"@.len());
    assert("email_verified"@.len() != "auth_service"@.len());
    assert("email_verified"@.len() != "position"@.len());
    assert("email_verified"@.len() != "roles"@.len());
    assert("email_verified"@.len() != "locale"@.len());
    assert("email_verified"@.len() != "last_password_update"@.len());
    assert("email_verified"@.len() != "last_picture_update"@.len());
    assert("email_verified"@.len() != "failed_attempts"@.len());
    assert("email_verified"@.len() != "mfa_active"@.len());
    assert("email_verified"@.len() != "timezone"@.len());
    assert("auth_data"@.len() != "auth_service"@.len());
    assert("auth_data"@.len() != "position"@.len());
    assert("auth_data"@.len() != "roles"@.len());
    assert("auth_data"@.len() != "locale"@.len());
    assert("auth_data"@.len() != "last_password_update"@.len());
    assert("auth_data"@.len() != "last_picture_update"@.len());
    assert("auth_data"@.len() != "failed_attempts"@.len());
    assert("auth_data"@.len() != "mfa_active"@.len());
    assert("auth_data"@.len() != "timezone"@.len());
    assert("auth_service"@.len() != "position"@.len());
    assert("auth_service"@.len() != "roles"@.len());
    assert("auth_service"@.len() != "locale"@.len());
    assert("auth_service"@.len() != "last_password_update"@.len());
    assert("auth_service"@.len() != "last_picture_update"@.len());
    assert("auth_service"@.len() != "failed_attempts"@.len());
    assert("auth_service"@.len() != "mfa_active"@.len());
    assert("auth_service"@.len() != "timezone"@.len());
    assert("position"@.len() != "roles"@.len());
    assert("position"@.len() != "locale"@.len());
    assert("position"@.len() != "last_password_update"@.len());
    assert("position"@.len() != "last_picture_update"@.len());
    assert("position"@.len() != "failed_attempts"@.len());
    assert("position"@.len() != "mfa_active"@.len());
    assert("position"@ != "timezone"@) by {
        assert("position"@[0] == 'p');
        assert("timezone"@[0] == 't');
    }
    assert("roles"@.len() != "locale"@.len());
    assert("roles"@.len() != "last_password_update"@.len());
    assert("roles"@.len() != "last_picture_update"@.len());
    assert("roles"@.len() != "failed_attempts"@.len());
    assert("roles"@.len() != "mfa_active"@.len());
    assert("roles"@.len() != "timezone"@.len());
    assert("locale"@.len() != "last_password_update"@.len());
    assert("locale"@.len() != "last_picture_update"@.len());
    assert("locale"@.len() != "failed_attempts"@.len());
    assert("locale"@.len() != "mfa_active"@.len());
    assert("locale"@.len() != "timezone"@.len());
    assert("last_password_update"@.len() != "last_picture_update"@.len());
    assert("last_password_update"@.len() != "failed_attempts"@.len());
    assert("last_password_update"@.len() != "mfa_active"@.len());
    assert("last_password_update"@.len() != "timezone"@.len());
    assert("last_picture_update"@.len() != "failed_attempts"@.len());
    assert("last_picture_update"@.len() != "mfa_active"@.len());
    assert("last_picture_update"@.len() != "timezone"@.len());
    assert("failed_attempts"@.len() != "mfa_active"@.len());
    assert("failed_attempts"@.len() != "timezone"@.len());
    assert("mfa_active"@.len() != "timezone"@.len());
    let fs = spec_encode_user(x)->Obj_0;
    reveal_with_fuel(spec_obj_get, 22);
    assert(spec_obj_get(fs, "id"@) == Some(JsonV::Str(x.id)));
    assert(spec_obj_get(fs, "create_at"@) == Some(JsonV::Int(x.create_at)));
    assert(spec_obj_get(fs, "update_at"@) == Some(JsonV::Int(x.update_at)));
    assert(spec_obj_get(fs, "delete_at"@) == Some(JsonV::Int(x.delete_at)));
    assert(spec_obj_get(fs, "username"@) == Some(JsonV::Str(x.username)));
    assert(spec_obj_get(fs, "first_name"@) == Some(JsonV::Str(x.first_name)));
    assert(spec_obj_get(fs, "last_name"@) == Some(JsonV::Str(x.last_name)));
    assert(spec_obj_get(fs, "nickname"@) == Some(JsonV::Str(x.nickname)));
    assert(spec_obj_get(fs, "email"@) == Some(JsonV::Str(x.email)));
    assert(spec_obj_get(fs, "email_verified"@) == Some((match x.email_verified {
            Some(b) => JsonV::Bool(b),
            None => JsonV::Null,
        })));
    assert(spec_obj_get(fs, "auth_data"@) == Some(JsonV::Str(x.auth_data)));
    assert(spec_obj_get(fs, "auth_service"@) == Some(JsonV::Str(x.auth_service)));
    assert(spec_obj_get(fs, "position"@) == Some(JsonV::Str(x.position)));
    assert(spec_obj_get(fs, "roles"@) == Some(spec_encode_roles(x.roles)));
    assert(spec_obj_get(fs, "locale"@) == Some(JsonV::Str(x.locale)));
    assert(spec_obj_get(fs, "last_password_update"@) == Some((match x.last_password_update {
            Some(n) => JsonV::Int(n),
            None => JsonV::Null,
        })));
    assert(spec_obj_get(fs, "last_picture_update"@) == Some((match x.last_picture_update {
            Some(n) => JsonV::Int(n),
            None => JsonV::Null,
        })));
    assert(spec_obj_get(fs, "failed_attempts"@) == Some((match x.failed_attempts {
            Some(n) => JsonV::Int(if n > i64::MAX { i64::MAX as int } else { n }),
            None => JsonV::Null,
        })));
    assert(spec_obj_get(fs, "mfa_active"@) == Some((match x.mfa_active {
            Some(b) => JsonV::Bool(b),
            None => JsonV::Null,
        })));
    assert(spec_obj_get(fs, "timezone"@) == Some((match x.timezone {
            Some(x) => spec_encode_timezone(x),
            None => JsonV::Null,
        })));
    lemma_roles_round_trip(x.roles);
    match x.timezone {
        Some(sub) => lemma_timezone_round_trip(sub),
        None => {},
    }
    assert(spec_decode_user(spec_encode_user(x)) == Some(x));
}

/// The `CreatePostRequest` an object holds.
pub open spec fn spec_decode_create_post_request(v: JsonV) -> Option<CreatePostRequestV> {
    match v {
        JsonV::Obj(fs) => {
            let channel_id = spec_get_str(fs, "channel_id"@);
            let message = spec_get_str(fs, "message"@);
            let root_id = spec_opt_str(fs, "root_id"@);
            let file_ids = spec_get_strlist(fs, "file_ids"@);
            let props = spec_opt_str(fs, "props"@);
            if channel_id is Some && message is Some && root_id is Some && file_ids is Some && props is Some {
                Some(
                    CreatePostRequestV {
                        channel_id: channel_id->0,
                        message: message->0,
                        root_id: root_id->0,
                        file_ids: file_ids->0,
                        props: props->0,
                    },
                )
            } else {
                None
            }
        },
        _ => None,
    }
}

/// The object form of a `CreatePostRequest`.
pub open spec fn spec_encode_create_post_request(x: CreatePostRequestV) -> JsonV {
    JsonV::Obj(
        seq![
            ("channel_id"@, JsonV::Str(x.channel_id)),
            ("message"@, JsonV::Str(x.message)),
            ("root_id"@, (match x.root_id {
            Some(s) => JsonV::Str(s),
            None => JsonV::Null,
        })),
            ("file_ids"@, spec_encode_strlist(x.file_ids)),
            ("props"@, (match x.props {
            Some(s) => JsonV::Str(s),
            None => JsonV::Null,
        })),
        ],
    )
}

/// Decode a `CreatePostRequest` from a JSON value.
pub fn decode_create_post_request(v: &Json) -> (r: Option<CreatePostRequest>)
    ensures
        r.deep_view() == spec_decode_create_post_request(v@),
{
    match v {
        Json::Obj(fields) => {
            let x_channel_id = get_str(fields, "channel_id");
            let x_message = get_str(fields, "message");
            let x_root_id = opt_str(fields, "root_id");
            let x_file_ids = get_strlist(fields, "file_ids");
            let x_props = opt_str(fields, "props");
            if x_channel_id.is_none() {
                return None;
            }
            if x_message.is_none() {
                return None;
            }
            if x_root_id.is_none() {
                return None;
            }
            if x_file_ids.is_none() {
                return None;
            }
            if x_props.is_none() {
                return None;
            }
            Some(
                CreatePostRequest {
                    channel_id: x_channel_id.unwrap(),
                    message: x_message.unwrap(),
                    root_id: x_root_id.unwrap(),
                    file_ids: x_file_ids.unwrap(),
                    props: x_props.unwrap(),
                },
            )
        },
        _ => None,
    }
}

/// Encode a `CreatePostRequest` as a JSON object.
pub fn encode_create_post_request(x: &CreatePostRequest) -> (out: Json)
    ensures
        out@ == spec_encode_create_post_request(x.deep_view()),
{
    let mut fields: Vec<(String, Json)> = Vec::new();
    fields.push((String::from_str("channel_id"), Json::Str(x.channel_id.clone())));
    fields.push((String::from_str("message"), Json::Str(x.message.clone())));
    fields.push((String::from_str("root_id"), (match &x.root_id {
        Some(s) => Json::Str(s.clone()),
        None => Json::Null,
    })));
    fields.push((String::from_str("file_ids"), encode_strlist(&x.file_ids)));
    fields.push((String::from_str("props"), (match &x.props {
        Some(s) => Json::Str(s.clone()),
        None => Json::Null,
    })));
    let out = Json::Obj(fields);
    proof {
        let fv = out->Obj_0@;
        crate::json::lemma_fields_view_index(fv);
        assert(fv.len() == 5);
        assert(fv[0].0@ == "channel_id"@ && fv[0].1@ == JsonV::Str(x.deep_view().channel_id));
        assert(fv[1].0@ == "message"@ && fv[1].1@ == JsonV::Str(x.deep_view().message));
        assert(fv[2].0@ == "root_id"@ && fv[2].1@ == (match x.deep_view().root_id {
            Some(s) => JsonV::Str(s),
            None => JsonV::Null,
        }));
        assert(fv[3].0@ == "file_ids"@ && fv[3].1@ == spec_encode_strlist(x.deep_view().file_ids));
        assert(fv[4].0@ == "props"@ && fv[4].1@ == (match x.deep_view().props {
            Some(s) => JsonV::Str(s),
            None => JsonV::Null,
        }));
        assert(spec_fields_view(fv) =~= spec_encode_create_post_request(x.deep_view())->Obj_0);
    }
    out
}

/// A `CreatePostRequest` decodes back from its encoding unchanged.
#[verifier::rlimit(100)]
pub proof fn lemma_create_post_request_round_trip(x: CreatePostRequestV)
    requires
        x.wf(),
    ensures
        spec_decode_create_post_request(spec_encode_create_post_request(x)) == Some(x),
{
    reveal_strlit("channel_id");
    reveal_strlit("file_ids");
    reveal_strlit("message");
    reveal_strlit("props");
    reveal_strlit("root_id");
    assert("channel_id"@.len() != "message"@.len());
    assert("channel_id"@.len() != "root_id"@.len());
    assert("channel_id"@.len() != "file_ids"@.len());
    assert("channel_id"@.len() != "props"@.len());
    assert("message"@ != "root_id"@) by {
        assert("message"@[0] == 'm');
        assert("root_id"@[0] == 'r');
    }
    assert("message"@.len() != "file_ids"@.len());
    assert("message"@.len() != "props"@.len());
    assert("root_id"@.len() != "file_ids"@.len());
    assert("root_id"@.len() != "props"@.len());
    assert("file_ids"@.len() != "props"@.len());
    let fs = spec_encode_create_post_request(x)->Obj_0;
    reveal_with_fuel(spec_obj_get, 7);
    assert(spec_obj_get(fs, "channel_id"@) == Some(JsonV::Str(x.channel_id)));
    assert(spec_obj_get(fs, "message"@) == Some(JsonV::Str(x.message)));
    assert(spec_obj_get(fs, "root_id"@) == Some((match x.root_id {
            Some(s) => JsonV::Str(s),
            None => JsonV::Null,
        })));
    assert(spec_obj_get(fs, "file_ids"@) == Some(spec_encode_strlist(x.file_ids)));
    assert(spec_obj_get(fs, "props"@) == Some((match x.props {
            Some(s) => JsonV::Str(s),
            None => JsonV::Null,
        })));
    lemma_strlist_round_trip(x.file_ids);
    assert(spec_decode_create_post_request(spec_encode_create_post_request(x)) == Some(x));
}

/// The `ChannelInfo` an object holds.
pub open spec fn spec_decode_channel_info(v: JsonV) -> Option<ChannelInfoV> {
    match v {
        JsonV::Obj(fs) => {
            let display_name = spec_get_str(fs, "display_name"@);
            if display_name is Some {
                Some(
                    ChannelInfoV {
                        display_name: display_name->0,
                    },
                )
            } else {
                None
            }
        },
        _ => None,
    }
}

/// The object form of a `ChannelInfo`.
pub open spec fn spec_encode_channel_info(x: ChannelInfoV) -> JsonV {
    JsonV::Obj(
        seq![
            ("display_name"@, JsonV::Str(x.display_name)),
        ],
    )
}

/// Decode a `ChannelInfo` from a JSON value.
pub fn decode_channel_info(v: &Json) -> (r: Option<ChannelInfo>)
    ensures
        r.deep_view() == spec_decode_channel_info(v@),
{
    match v {
        Json::Obj(fields) => {
            let x_display_name = get_str(fields, "display_name");
            if x_display_name.is_none() {
                return None;
            }
            Some(
                ChannelInfo {
                    display_name: x_display_name.unwrap(),
                },
            )
        },
        _ => None,
    }
}

/// Encode a `ChannelInfo` as a JSON object.
pub fn encode_channel_info(x: &ChannelInfo) -> (out: Json)
    ensures
        out@ == spec_encode_channel_info(x.deep_view()),
{
    let mut fields: Vec<(String, Json)> = Vec::new();
    fields.push((String::from_str("display_name"), Json::Str(x.display_name.clone())));
    let out = Json::Obj(fields);
    proof {
        let fv = out->Obj_0@;
        crate::json::lemma_fields_view_index(fv);
        assert(fv.len() == 1);
        assert(fv[0].0@ == "display_name"@ && fv[0].1@ == JsonV::Str(x.deep_view().display_name));
        assert(spec_fields_view(fv) =~= spec_encode_channel_info(x.deep_view())->Obj_0);
    }
    out
}

/// A `ChannelInfo` decodes back from its encoding unchanged.
#[verifier::rlimit(100)]
pub proof fn lemma_channel_info_round_trip(x: ChannelInfoV)
    requires
        x.wf(),
    ensures
        spec_decode_channel_info(spec_encode_channel_info(x)) == Some(x),
{
    reveal_strlit("display_name");
    let fs = spec_encode_channel_info(x)->Obj_0;
    reveal_with_fuel(spec_obj_get, 3);
    assert(spec_obj_get(fs, "display_name"@) == Some(JsonV::Str(x.display_name)));
    assert(spec_decode_channel_info(spec_encode_channel_info(x)) == Some(x));
}

/// The `NotifyProps` an object holds.
pub open spec fn spec_decode_notify_props(v: JsonV) -> Option<NotifyPropsV> {
    match v {
        JsonV::Obj(fs) => {
            let desktop = spec_opt_str(fs, "desktop"@);
            let email = spec_opt_str(fs, "email"@);
            let ignore_channel_mentions = spec_opt_str(fs, "ignore_channel_mentions"@);
            let mark_unread = spec_opt_str(fs, "mark_unread"@);
            let push = spec_opt_str(fs, "push"@);
            if desktop is Some && email is Some && ignore_channel_mentions is Some && mark_unread is Some && push is Some {
                Some(
                    NotifyPropsV {
                        desktop: desktop->0,
                        email: email->0,
                        ignore_channel_mentions: ignore_channel_mentions->0,
                        mark_unread: mark_unread->0,
                        push: push->0,
                    },
                )
            } else {
                None
            }
        },
        _ => None,
    }
}

/// The object form of a `NotifyProps`.
pub open spec fn spec_encode_notify_props(x: NotifyPropsV) -> JsonV {
    JsonV::Obj(
        seq![
            ("desktop"@, (match x.desktop {
            Some(s) => JsonV::Str(s),
            None => JsonV::Null,
        })),
            ("email"@, (match x.email {
            Some(s) => JsonV::Str(s),
            None => JsonV::Null,
        })),
            ("ignore_channel_mentions"@, (match x.ignore_channel_mentions {
            Some(s) => JsonV::Str(s),
            None => JsonV::Null,
        })),
            ("mark_unread"@, (match x.mark_unread {
            Some(s) => JsonV::Str(s),
            None => JsonV::Null,
        })),
            ("push"@, (match x.push {
            Some(s) => JsonV::Str(s),
            None => JsonV::Null,
        })),
        ],
    )
}

/// Decode a `NotifyProps` from a JSON value.
pub fn decode_notify_props(v: &Json) -> (r: Option<NotifyProps>)
    ensures
        r.deep_view() == spec_decode_notify_props(v@),
{
    match v {
        Json::Obj(fields) => {
            let x_desktop = opt_str(fields, "desktop");
            let x_email = opt_str(fields, "email");
            let x_ignore_channel_mentions = opt_str(fields, "ignore_channel_mentions");
            let x_mark_unread = opt_str(fields, "mark_unread");
            let x_push = opt_str(fields, "push");
            if x_desktop.is_none() {
                return None;
            }
            if x_email.is_none() {
                return None;
            }
            if x_ignore_channel_mentions.is_none() {
                return None;
            }
            if x_mark_unread.is_none() {
                return None;
            }
            if x_push.is_none() {
                return None;
            }
            Some(
                NotifyProps {
                    desktop: x_desktop.unwrap(),
                    email: x_email.unwrap(),
                    ignore_channel_mentions: x_ignore_channel_mentions.unwrap(),
                    mark_unread: x_mark_unread.unwrap(),
                    push: x_push.unwrap(),
                },
            )
        },
        _ => None,
    }
}

/// Encode a `NotifyProps` as a JSON object.
pub fn encode_notify_props(x: &NotifyProps) -> (out: Json)
    ensures
        out@ == spec_encode_notify_props(x.deep_view()),
{
    let mut fields: Vec<(String, Json)> = Vec::new();
    fields.push((String::from_str("desktop"), (match &x.desktop {
        Some(s) => Json::Str(s.clone()),
        None => Json::Null,
    })));
    fields.push((String::from_str("email"), (match &x.email {
        Some(s) => Json::Str(s.clone()),
        None => Json::Null,
    })));
    fields.push((String::from_str("ignore_channel_mentions"), (match &x.ignore_channel_mentions {
        Some(s) => Json::Str(s.clone()),
        None => Json::Null,
    })));
    fields.push((String::from_str("mark_unread"), (match &x.mark_unread {
        Some(s) => Json::Str(s.clone()),
        None => Json::Null,
    })));
    fields.push((String::from_str("push"), (match &x.push {
        Some(s) => Json::Str(s.clone()),
        None => Json::Null,
    })));
    let out = Json::Obj(fields);
    proof {
        let fv = out->Obj_0@;
        crate::json::lemma_fields_view_index(fv);
        assert(fv.len() == 5);
        assert(fv[0].0@ == "desktop"@ && fv[0].1@ == (match x.deep_view().desktop {
            Some(s) => JsonV::Str(s),
            None => JsonV::Null,
        }));
        assert(fv[1].0@ == "email"@ && fv[1].1@ == (match x.deep_view().email {
            Some(s) => JsonV::Str(s),
            None => JsonV::Null,
        }));
        assert(fv[2].0@ == "ignore_channel_mentions"@ && fv[2].1@ == (match x.deep_view().ignore_channel_mentions {
            Some(s) => JsonV::Str(s),
            None => JsonV::Null,
        }));
        assert(fv[3].0@ == "mark_unread"@ && fv[3].1@ == (match x.deep_view().mark_unread {
            Some(s) => JsonV::Str(s),
            None => JsonV::Null,
        }));
        assert(fv[4].0@ == "push"@ && fv[4].1@ == (match x.deep_view().push {
            Some(s) => JsonV::Str(s),
            None => JsonV::Null,
        }));
        assert(spec_fields_view(fv) =~= spec_encode_notify_props(x.deep_view())->Obj_0);
    }
    out
}

/// A `NotifyProps` decodes back from its encoding unchanged.
#[verifier::rlimit(100)]
pub proof fn lemma_notify_props_round_trip(x: NotifyPropsV)
    requires
        x.wf(),
    ensures
        spec_decode_notify_props(spec_encode_notify_props(x)) == Some(x),
{
    reveal_strlit("desktop");
    reveal_strlit("email");
    reveal_strlit("ignore_channel_mentions");
    reveal_strlit("mark_unread");
    reveal_strlit("push");
    assert("desktop"@.len() != "email"@.len());
    assert("desktop"@.len() != "ignore_channel_mentions"@.len());
    assert("desktop"@.len() != "mark_unread"@.len());
    assert("desktop"@.len() != "push"@.len());
    assert("email"@.len() != "ignore_channel_mentions"@.len());
    assert("email"@.len() != "mark_unread"@.len());
    assert("email"@.len() != "push"@.len());
    assert("ignore_channel_mentions"@.len() != "mark_unread"@.len());
    assert("ignore_channel_mentions"@.len() != "push"@.len());
    assert("mark_unread"@.len() != "push"@.len());
    let fs = spec_encode_notify_props(x)->Obj_0;
    reveal_with_fuel(spec_obj_get, 7);
    assert(spec_obj_get(fs, "desktop"@) == Some((match x.desktop {
            Some(s) => JsonV::Str(s),
            None => JsonV::Null,
        })));
    assert(spec_obj_get(fs, "email"@) == Some((match x.email {
            Some(s) => JsonV::Str(s),
            None => JsonV::Null,
        })));
    assert(spec_obj_get(fs, "ignore_channel_mentions"@) == Some((match x.ignore_channel_mentions {
            Some(s) => JsonV::Str(s),
            None => JsonV::Null,
        })));
    assert(spec_obj_get(fs, "mark_unread"@) == Some((match x.mark_unread {
            Some(s) => JsonV::Str(s),
            None => JsonV::Null,
        })));
    assert(spec_obj_get(fs, "push"@) == Some((match x.push {
            Some(s) => JsonV::Str(s),
            None => JsonV::Null,
        })));
    assert(spec_decode_notify_props(spec_encode_notify_props(x)) == Some(x));
}

/// The `AddChannelMember` an object holds.
pub open spec fn spec_decode_add_channel_member(v: JsonV) -> Option<AddChannelMemberV> {
    match v {
        JsonV::Obj(fs) => {
            let post_id = spec_get_str(fs, "post_id"@);
            let user_ids = spec_get_strlist(fs, "user_ids"@);
            let usernames = spec_get_strlist(fs, "usernames"@);
            if post_id is Some && user_ids is Some && usernames is Some {
                Some(
                    AddChannelMemberV {
                        post_id: post_id->0,
                        user_ids: user_ids->0,
                        usernames: usernames->0,
                    },
                )
            } else {
                None
            }
        },
        _ => None,
    }
}

/// The object form of a `AddChannelMember`.
pub open spec fn spec_encode_add_channel_member(x: AddChannelMemberV) -> JsonV {
    JsonV::Obj(
        seq![
            ("post_id"@, JsonV::Str(x.post_id)),
            ("user_ids"@, spec_encode_strlist(x.user_ids)),
            ("usernames"@, spec_encode_strlist(x.usernames)),
        ],
    )
}

/// Decode a `AddChannelMember` from a JSON value.
pub fn decode_add_channel_member(v: &Json) -> (r: Option<AddChannelMember>)
    ensures
        r.deep_view() == spec_decode_add_channel_member(v@),
{
    match v {
        Json::Obj(fields) => {
            let x_post_id = get_str(fields, "post_id");
            let x_user_ids = get_strlist(fields, "user_ids");
            let x_usernames = get_strlist(fields, "usernames");
            if x_post_id.is_none() {
                return None;
            }
            if x_user_ids.is_none() {
                return None;
            }
            if x_usernames.is_none() {
                return None;
            }
            Some(
                AddChannelMember {
                    post_id: x_post_id.unwrap(),
                    user_ids: x_user_ids.unwrap(),
                    usernames: x_usernames.unwrap(),
                },
            )
        },
        _ => None,
    }
}

/// Encode a `AddChannelMember` as a JSON object.
pub fn encode_add_channel_member(x: &AddChannelMember) -> (out: Json)
    ensures
        out@ == spec_encode_add_channel_member(x.deep_view()),
{
    let mut fields: Vec<(String, Json)> = Vec::new();
    fields.push((String::from_str("post_id"), Json::Str(x.post_id.clone())));
    fields.push((String::from_str("user_ids"), encode_strlist(&x.user_ids)));
    fields.push((String::from_str("usernames"), encode_strlist(&x.usernames)));
    let out = Json::Obj(fields);
    proof {
        let fv = out->Obj_0@;
        crate::json::lemma_fields_view_index(fv);
        assert(fv.len() == 3);
        assert(fv[0].0@ == "post_id"@ && fv[0].1@ == JsonV::Str(x.deep_view().post_id));
        assert(fv[1].0@ == "user_ids"@ && fv[1].1@ == spec_encode_strlist(x.deep_view().user_ids));
        assert(fv[2].0@ == "usernames"@ && fv[2].1@ == spec_encode_strlist(x.deep_view().usernames));
        assert(spec_fields_view(fv) =~= spec_encode_add_channel_member(x.deep_view())->Obj_0);
    }
    out
}

/// A `AddChannelMember` decodes back from its encoding unchanged.
#[verifier::rlimit(100)]
pub proof fn lemma_add_channel_member_round_trip(x: AddChannelMemberV)
    requires
        x.wf(),
    ensures
        spec_decode_add_channel_member(spec_encode_add_channel_member(x)) == Some(x),
{
    reveal_strlit("post_id");
    reveal_strlit("user_ids");
    reveal_strlit("usernames");
    assert("post_id"@.len() != "user_ids"@.len());
    assert("post_id"@.len() != "usernames"@.len());
    assert("user_ids"@.len() != "usernames"@.len());
    let fs = spec_encode_add_channel_member(x)->Obj_0;
    reveal_with_fuel(spec_obj_get, 5);
    assert(spec_obj_get(fs, "post_id"@) == Some(JsonV::Str(x.post_id)));
    assert(spec_obj_get(fs, "user_ids"@) == Some(spec_encode_strlist(x.user_ids)));
    assert(spec_obj_get(fs, "usernames"@) == Some(spec_encode_strlist(x.usernames)));
    lemma_strlist_round_trip(x.user_ids);
    lemma_strlist_round_trip(x.usernames);
    assert(spec_decode_add_channel_member(spec_encode_add_channel_member(x)) == Some(x));
}

pub(crate) fn jopt_str(o: &Option<String>) -> (r: Json)
    ensures
        r@ == (match o.deep_view() {
            Some(s) => JsonV::Str(s),
            None => JsonV::Null,
        }),
{
    match o {
        Some(s) => Json::Str(s.clone()),
        None => Json::Null,
    }
}

/// The `PostProps` an object holds.
pub open spec fn spec_decode_post_props(v: JsonV) -> Option<PostPropsV> {
    match v {
        JsonV::Obj(fs) => {
            let override_icon_url = spec_opt_str(fs, "override_icon_url"@);
            let old_header = spec_opt_str(fs, "old_header"@);
            let new_header = spec_opt_str(fs, "new_header"@);
            let username = spec_opt_str(fs, "username"@);
            let new_purpose = spec_opt_str(fs, "new_purpose"@);
            let old_purpose = spec_opt_str(fs, "old_purpose"@);
            let new_displayname = spec_opt_str(fs, "new_displayname"@);
            let old_displayname = spec_opt_str(fs, "old_displayname"@);
            let added_username = spec_opt_str(fs, "addedUsername"@);
            let removed_username = spec_opt_str(fs, "removedUsername"@);
            let add_channel_member = (match spec_obj_get(fs, "add_channel_member"@) {
            None => Some(None),
            Some(JsonV::Null) => Some(None),
            Some(sub) => match spec_decode_add_channel_member(sub) {
                Some(x) => Some(Some(x)),
                None => None,
            },
        });
            let from_webhook = spec_opt_str(fs, "from_webhook"@);
            let override_username = spec_opt_str(fs, "override_username"@);
            let added_user_id = spec_opt_str(fs, "addedUserId"@);
            let user_id = spec_opt_str(fs, "userId"@);
            let channel_mentions = (match spec_obj_get(fs, "channel_mentions"@) {
            None => Some(Seq::empty()),
            Some(JsonV::Null) => Some(Seq::empty()),
            Some(JsonV::Obj(sub)) => spec_pairs_chinfo_of(sub),
            Some(_) => None,
        });
            if override_icon_url is Some && old_header is Some && new_header is Some && username is Some && new_purpose is Some && old_purpose is Some && new_displayname is Some && old_displayname is Some && added_username is Some && removed_username is Some && add_channel_member is Some && from_webhook is Some && override_username is Some && added_user_id is Some && user_id is Some && channel_mentions is Some {
                Some(
                    PostPropsV {
                        override_icon_url: override_icon_url->0,
                        old_header: old_header->0,
                        new_header: new_header->0,
                        username: username->0,
                        new_purpose: new_purpose->0,
                        old_purpose: old_purpose->0,
                        new_displayname: new_displayname->0,
                        old_displayname: old_displayname->0,
                        added_username: added_username->0,
                        removed_username: removed_username->0,
                        add_channel_member: add_channel_member->0,
                        from_webhook: from_webhook->0,
                        override_username: override_username->0,
                        added_user_id: added_user_id->0,
                        user_id: user_id->0,
                        channel_mentions: channel_mentions->0,
                    },
                )
            } else {
                None
            }
        },
        _ => None,
    }
}

/// The object form of a `PostProps`.
pub open spec fn spec_encode_post_props(x: PostPropsV) -> JsonV {
    JsonV::Obj(
        seq![
            ("override_icon_url"@, (match x.override_icon_url {
            Some(s) => JsonV::Str(s),
            None => JsonV::Null,
        })),
            ("old_header"@, (match x.old_header {
            Some(s) => JsonV::Str(s),
            None => JsonV::Null,
        })),
            ("new_header"@, (match x.new_header {
            Some(s) => JsonV::Str(s),
            None => JsonV::Null,
        })),
            ("username"@, (match x.username {
            Some(s) => JsonV::Str(s),
            None => JsonV::Null,
        })),
            ("new_purpose"@, (match x.new_purpose {
            Some(s) => JsonV::Str(s),
            None => JsonV::Null,
        })),
            ("old_purpose"@, (match x.old_purpose {
            Some(s) => JsonV::Str(s),
            None => JsonV::Null,
        })),
            ("new_displayname"@, (match x.new_displayname {
            Some(s) => JsonV::Str(s),
            None => JsonV::Null,
        })),
            ("old_displayname"@, (match x.old_displayname {
            Some(s) => JsonV::Str(s),
            None => JsonV::Null,
        })),
            ("addedUsername"@, (match x.added_username {
            Some(s) => JsonV::Str(s),
            None => JsonV::Null,
        })),
            ("removedUsername"@, (match x.removed_username {
            Some(s) => JsonV::Str(s),
            None => JsonV::Null,
        })),
            ("add_channel_member"@, (match x.add_channel_member {
            Some(x) => spec_encode_add_channel_member(x),
            None => JsonV::Null,
        })),
            ("from_webhook"@, (match x.from_webhook {
            Some(s) => JsonV::Str(s),
            None => JsonV::Null,
        })),
            ("override_username"@, (match x.override_username {
            Some(s) => JsonV::Str(s),
            None => JsonV::Null,
        })),
            ("addedUserId"@, (match x.added_user_id {
            Some(s) => JsonV::Str(s),
            None => JsonV::Null,
        })),
            ("userId"@, (match x.user_id {
            Some(s) => JsonV::Str(s),
            None => JsonV::Null,
        })),
            ("channel_mentions"@, spec_encode_pairs_chinfo(x.channel_mentions)),
        ],
    )
}

/// Decode a `PostProps` from a JSON value.
pub fn decode_post_props(v: &Json) -> (r: Option<PostProps>)
    ensures
        r.deep_view() == spec_decode_post_props(v@),
{
    match v {
        Json::Obj(fields) => {
            let x_override_icon_url = opt_str(fields, "override_icon_url");
            let x_old_header = opt_str(fields, "old_header");
            let x_new_header = opt_str(fields, "new_header");
            let x_username = opt_str(fields, "username");
            let x_new_purpose = opt_str(fields, "new_purpose");
            let x_old_purpose = opt_str(fields, "old_purpose");
            let x_new_displayname = opt_str(fields, "new_displayname");
            let x_old_displayname = opt_str(fields, "old_displayname");
            let x_added_username = opt_str(fields, "addedUsername");
            let x_removed_username = opt_str(fields, "removedUsername");
            let x_add_channel_member = match obj_get(fields, "add_channel_member") {
        None => Some(None),
        Some(Json::Null) => Some(None),
        Some(sub) => match decode_add_channel_member(sub) {
            Some(x) => Some(Some(x)),
            None => None,
        },
    };
            let x_from_webhook = opt_str(fields, "from_webhook");
            let x_override_username = opt_str(fields, "override_username");
            let x_added_user_id = opt_str(fields, "addedUserId");
            let x_user_id = opt_str(fields, "userId");
            let x_channel_mentions = match obj_get(fields, "channel_mentions") {
                None => {
                    let out: Vec<(String, ChannelInfo)> = Vec::new();
                    proof {
                        assert(out.deep_view() =~= Seq::<(Seq<char>, ChannelInfoV)>::empty());
                    }
                    Some(out)
                },
                Some(Json::Null) => {
                    let out: Vec<(String, ChannelInfo)> = Vec::new();
                    proof {
                        assert(out.deep_view() =~= Seq::<(Seq<char>, ChannelInfoV)>::empty());
                    }
                    Some(out)
                },
                Some(Json::Obj(sub)) => {
                    proof {
                        assert(spec_fields_view(sub@).skip(0) =~= spec_fields_view(sub@));
                    }
                    pairs_chinfo_of(sub, 0)
                },
                Some(_) => None,
            };
            if x_override_icon_url.is_none() {
                return None;
            }
            if x_old_header.is_none() {
                return None;
            }
            if x_new_header.is_none() {
                return None;
            }
            if x_username.is_none() {
                return None;
            }
            if x_new_purpose.is_none() {
                return None;
            }
            if x_old_purpose.is_none() {
                return None;
            }
            if x_new_displayname.is_none() {
                return None;
            }
            if x_old_displayname.is_none() {
                return None;
            }
            if x_added_username.is_none() {
                return None;
            }
            if x_removed_username.is_none() {
                return None;
            }
            if x_add_channel_member.is_none() {
                return None;
            }
            if x_from_webhook.is_none() {
                return None;
            }
            if x_override_username.is_none() {
                return None;
            }
            if x_added_user_id.is_none() {
                return None;
            }
            if x_user_id.is_none() {
                return None;
            }
            if x_channel_mentions.is_none() {
                return None;
            }
            Some(
                PostProps {
                    override_icon_url: x_override_icon_url.unwrap(),
                    old_header: x_old_header.unwrap(),
                    new_header: x_new_header.unwrap(),
                    username: x_username.unwrap(),
                    new_purpose: x_new_purpose.unwrap(),
                    old_purpose: x_old_purpose.unwrap(),
                    new_displayname: x_new_displayname.unwrap(),
                    old_displayname: x_old_displayname.unwrap(),
                    added_username: x_added_username.unwrap(),
                    removed_username: x_removed_username.unwrap(),
                    add_channel_member: x_add_channel_member.unwrap(),
                    from_webhook: x_from_webhook.unwrap(),
                    override_username: x_override_username.unwrap(),
                    added_user_id: x_added_user_id.unwrap(),
                    user_id: x_user_id.unwrap(),
                    channel_mentions: x_channel_mentions.unwrap(),
                },
            )
        },
        _ => None,
    }
}

/// Encode a `PostProps` as a JSON object.
#[verifier::rlimit(100)]
pub fn encode_post_props(x: &PostProps) -> (out: Json)
    ensures
        out@ == spec_encode_post_props(x.deep_view()),
{
    let mut fields: Vec<(String, Json)> = Vec::new();
    fields.push((String::from_str("override_icon_url"), jopt_str(&x.override_icon_url)));
    fields.push((String::from_str("old_header"), jopt_str(&x.old_header)));
    fields.push((String::from_str("new_header"), jopt_str(&x.new_header)));
    fields.push((String::from_str("username"), jopt_str(&x.username)));
    fields.push((String::from_str("new_purpose"), jopt_str(&x.new_purpose)));
    fields.push((String::from_str("old_purpose"), jopt_str(&x.old_purpose)));
    fields.push((String::from_str("new_displayname"), jopt_str(&x.new_displayname)));
    fields.push((String::from_str("old_displayname"), jopt_str(&x.old_displayname)));
    fields.push((String::from_str("addedUsername"), jopt_str(&x.added_username)));
    fields.push((String::from_str("removedUsername"), jopt_str(&x.removed_username)));
    fields.push((String::from_str("add_channel_member"), (match &x.add_channel_member {
        Some(s) => encode_add_channel_member(s),
        None => Json::Null,
    })));
    fields.push((String::from_str("from_webhook"), jopt_str(&x.from_webhook)));
    fields.push((String::from_str("override_username"), jopt_str(&x.override_username)));
    fields.push((String::from_str("addedUserId"), jopt_str(&x.added_user_id)));
    fields.push((String::from_str("userId"), jopt_str(&x.user_id)));
    fields.push((String::from_str("channel_mentions"), encode_pairs_chinfo(&x.channel_mentions)));
    let out = Json::Obj(fields);
    proof {
        let fv = out->Obj_0@;
        crate::json::lemma_fields_view_index(fv);
        assert(fv.len() == 16);
        assert(fv[0].0@ == "override_icon_url"@ && fv[0].1@ == (match x.deep_view().override_icon_url {
            Some(s) => JsonV::Str(s),
            None => JsonV::Null,
        }));
        assert(fv[1].0@ == "old_header"@ && fv[1].1@ == (match x.deep_view().old_header {
            Some(s) => JsonV::Str(s),
            None => JsonV::Null,
        }));
        assert(fv[2].0@ == "new_header"@ && fv[2].1@ == (match x.deep_view().new_header {
            Some(s) => JsonV::Str(s),
            None => JsonV::Null,
        }));
        assert(fv[3].0@ == "username"@ && fv[3].1@ == (match x.deep_view().username {
            Some(s) => JsonV::Str(s),
            None => JsonV::Null,
        }));
        assert(fv[4].0@ == "new_purpose"@ && fv[4].1@ == (match x.deep_view().new_purpose {
            Some(s) => JsonV::Str(s),
            None => JsonV::Null,
        }));
        assert(fv[5].0@ == "old_purpose"@ && fv[5].1@ == (match x.deep_view().old_purpose {
            Some(s) => JsonV::Str(s),
            None => JsonV::Null,
        }));
        assert(fv[6].0@ == "new_displayname"@ && fv[6].1@ == (match x.deep_view().new_displayname {
            Some(s) => JsonV::Str(s),
            None => JsonV::Null,
        }));
        assert(fv[7].0@ == "old_displayname"@ && fv[7].1@ == (match x.deep_view().old_displayname {
            Some(s) => JsonV::Str(s),
            None => JsonV::Null,
        }));
        assert(fv[8].0@ == "addedUsername"@ && fv[8].1@ == (match x.deep_view().added_username {
            Some(s) => JsonV::Str(s),
            None => JsonV::Null,
        }));
        assert(fv[9].0@ == "removedUsername"@ && fv[9].1@ == (match x.deep_view().removed_username {
            Some(s) => JsonV::Str(s),
            None => JsonV::Null,
        }));
        assert(fv[10].0@ == "add_channel_member"@ && fv[10].1@ == (match x.deep_view().add_channel_member {
            Some(x) => spec_encode_add_channel_member(x),
            None => JsonV::Null,
        }));
        assert(fv[11].0@ == "from_webhook"@ && fv[11].1@ == (match x.deep_view().from_webhook {
            Some(s) => JsonV::Str(s),
            None => JsonV::Null,
        }));
        assert(fv[12].0@ == "override_username"@ && fv[12].1@ == (match x.deep_view().override_username {
            Some(s) => JsonV::Str(s),
            None => JsonV::Null,
        }));
        assert(fv[13].0@ == "addedUserId"@ && fv[13].1@ == (match x.deep_view().added_user_id {
            Some(s) => JsonV::Str(s),
            None => JsonV::Null,
        }));
        assert(fv[14].0@ == "userId"@ && fv[14].1@ == (match x.deep_view().user_id {
            Some(s) => JsonV::Str(s),
            None => JsonV::Null,
        }));
        assert(fv[15].0@ == "channel_mentions"@ && fv[15].1@ == spec_encode_pairs_chinfo(x.deep_view().channel_mentions));
        assert(spec_fields_view(fv) =~= spec_encode_post_props(x.deep_view())->Obj_0);
    }
    out
}

/// A `PostProps` decodes back from its encoding unchanged.
#[verifier::rlimit(100)]
pub proof fn lemma_post_props_round_trip(x: PostPropsV)
    requires
        x.wf(),
    ensures
        spec_decode_post_props(spec_encode_post_props(x)) == Some(x),
{
    reveal_strlit("add_channel_member");
    reveal_strlit("addedUserId");
    reveal_strlit("addedUsername");
    reveal_strlit("channel_mentions");
    reveal_strlit("from_webhook");
    reveal_strlit("new_displayname");
    reveal_strlit("new_header");
    reveal_strlit("new_purpose");
    reveal_strlit("old_displayname");
    reveal_strlit("old_header");
    reveal_strlit("old_purpose");
    reveal_strlit("override_icon_url");
    reveal_strlit("override_username");
    reveal_strlit("removedUsername");
    reveal_strlit("userId");
    reveal_strlit("username");
    assert("override_icon_url"@.len() != "old_header"@.len());
    assert("override_icon_url"@.len() != "new_header"@.len());
    assert("override_icon_url"@.len() != "username"@.len());
    assert("override_icon_url"@.len() != "new_purpose"@.len());
    assert("override_icon_url"@.len() != "old_purpose"@.len());
    assert("override_icon_url"@.len() != "new_displayname"@.len());
    assert("override_icon_url"@.len() != "old_displayname"@.len());
    assert("override_icon_url"@.len() != "addedUsername"@.len());
    assert("override_icon_url"@.len() != "removedUsername"@.len());
    assert("override_icon_url"@.len() != "add_channel_member"@.len());
    assert("override_icon_url"@.len() != "from_webhook"@.len());
    assert("override_icon_url"@ != "override_username"@) by {
        assert("override_icon_url"@[9] == 'i');
        assert("override_username"@[9] == 'u');
    }
    assert("override_icon_url"@.len() != "addedUserId"@.len());
    assert("override_icon_url"@.len() != "userId"@.len());
    assert("override_icon_url"@.len() != "channel_mentions"@.len());
    assert("old_header"@ != "new_header"@) by {
        assert("old_header"@[0] == 'o');
        assert("new_header"@[0] == 'n');
    }
    assert("old_header"@.len() != "username"@.len());
    assert("old_header"@.len() != "new_purpose"@.len());
    assert("old_header"@.len() != "old_purpose"@.len());
    assert("old_header"@.len() != "new_displayname"@.len());
    assert("old_header"@.len() != "old_displayname"@.len());
    assert("old_header"@.len() != "addedUsername"@.len());
    assert("old_header"@.len() != "removedUsername"@.len());
    assert("old_header"@.len() != "add_channel_member"@.len());
    assert("old_header"@.len() != "from_webhook"@.len());
    assert("old_header"@.len() != "override_username"@.len());
    assert("old_header"@.len() != "addedUserId"@.len());
    assert("old_header"@.len() != "userId"@.len());
    assert("old_header"@.len() != "channel_mentions"@.len());
    assert("new_header"@.len() != "username"@.len());
    assert("new_header"@.len() != "new_purpose"@.len());
    assert("new_header"@.len() != "old_purpose"@.len());
    assert("new_header"@.len() != "new_displayname"@.len());
    assert("new_header"@.len() != "old_displayname"@.len());
    assert("new_header"@.len() != "addedUsername"@.len());
    assert("new_header"@.len() != "removedUsername"@.len());
    assert("new_header"@.len() != "add_channel_member"@.len());
    assert("new_header"@.len() != "from_webhook"@.len());
    assert("new_header"@.len() != "override_username"@.len());
    assert("new_header"@.len() != "addedUserId"@.len());
    assert("new_header"@.len() != "userId"@.len());
    assert("new_header"@.len() != "channel_mentions"@.len());
    assert("username"@.len() != "new_purpose"@.len());
    assert("username"@.len() != "old_purpose"@.len());
    assert("username"@.len() != "new_displayname"@.len());
    assert("username"@.len() != "old_displayname"@.len());
    assert("username"@.len() != "addedUsername"@.len());
    assert("username"@.len() != "removedUsername"@.len());
    assert("username"@.len() != "add_channel_member"@.len());
    assert("username"@.len() != "from_webhook"@.len());
    assert("username"@.len() != "override_username"@.len());
    assert("username"@.len() != "addedUserId"@.len());
    assert("username"@.len() != "userId"@.len());
    assert("username"@.len() != "channel_mentions"@.len());
    assert("new_purpose"@ != "old_purpose"@) by {
        assert("new_purpose"@[0] == 'n');
        assert("old_purpose"@[0] == 'o');
    }
    assert("new_purpose"@.len() != "new_displayname"@.len());
    assert("new_purpose"@.len() != "old_displayname"@.len());
    assert("new_purpose"@.len() != "addedUsername"@.len());
    assert("new_purpose"@.len() != "removedUsername"@.len());
    assert("new_purpose"@.len() != "add_channel_member"@.len());
    assert("new_purpose"@.len() != "from_webhook"@.len());
    assert("new_purpose"@.len() != "override_username"@.len());
    assert("new_purpose"@ != "addedUserId"@) by {
        assert("new_purpose"@[0] == 'n');
        assert("addedUserId"@[0] == 'a');
    }
    assert("new_purpose"@.len() != "userId"@.len());
    assert("new_purpose"@.len() != "channel_mentions"@.len());
    assert("old_purpose"@.len() != "new_displayname"@.len());
    assert("old_purpose"@.len() != "old_displayname"@.len());
    assert("old_purpose"@.len() != "addedUsername"@.len());
    assert("old_purpose"@.len() != "removedUsername"@.len());
    assert("old_purpose"@.len() != "add_channel_member"@.len());
    assert("old_purpose"@.len() != "from_webhook"@.len());
    assert("old_purpose"@.len() != "override_username"@.len());
    assert("old_purpose"@ != "addedUserId"@) by {
        assert("old_purpose"@[0] == 'o');
        assert("addedUserId"@[0] == 'a');
    }
    assert("old_purpose"@.len() != "userId"@.len());
    assert("old_purpose"@.len() != "channel_mentions"@.len());
    assert("new_displayname"@ != "old_displayname"@) by {
        assert("new_displayname"@[0] == 'n');
        assert("old_displayname"@[0] == 'o');
    }
    assert("new_displayname"@.len() != "addedUsername"@.len());
    assert("new_displayname"@ != "removedUsername"@) by {
        assert("new_displayname"@[0] == 'n');
        assert("removedUsername"@[0] == 'r');
    }
    assert("new_displayname"@.len() != "add_channel_member"@.len());
    assert("new_displayname"@.len() != "from_webhook"@.len());
    assert("new_displayname"@.len() != "override_username"@.len());
    assert("new_displayname"@.len() != "addedUserId"@.len());
    assert("new_displayname"@.len() != "userId"@.len());
    assert("new_displayname"@.len() != "channel_mentions"@.len());
    assert("old_displayname"@.len() != "addedUsername"@.len());
    assert("old_displayname"@ != "removedUsername"@) by {
        assert("old_displayname"@[0] == 'o');
        assert("removedUsername"@[0] == 'r');
    }
    assert("old_displayname"@.len() != "add_channel_member"@.len());
    assert("old_displayname"@.len() != "from_webhook"@.len());
    assert("old_displayname"@.len() != "override_username"@.len());
    assert("old_displayname"@.len() != "addedUserId"@.len());
    assert("old_displayname"@.len() != "userId"@.len());
    assert("old_displayname"@.len() != "channel_mentions"@.len());
    assert("addedUsername"@.len() != "removedUsername"@.len());
    assert("addedUsername"@.len() != "add_channel_member"@.len());
    assert("addedUsername"@.len() != "from_webhook"@.len());
    assert("addedUsername"@.len() != "override_username"@.len());
    assert("addedUsername"@.len() != "addedUserId"@.len());
    assert("addedUsername"@.len() != "userId"@.len());
    assert("addedUsername"@.len() != "channel_mentions"@.len());
    assert("removedUsername"@.len() != "add_channel_member"@.len());
    assert("removedUsername"@.len() != "from_webhook"@.len());
    assert("removedUsername"@.len() != "override_username"@.len());
    assert("removedUsername"@.len() != "addedUserId"@.len());
    assert("removedUsername"@.len() != "userId"@.len());
    assert("removedUsername"@.len() != "channel_mentions"@.len());
    assert("add_channel_member"@.len() != "from_webhook"@.len());
    assert("add_channel_member"@.len() != "override_username"@.len());
    assert("add_channel_member"@.len() != "addedUserId"@.len());
    assert("add_channel_member"@.len() != "userId"@.len());
    assert("add_channel_member"@.len() != "channel_mentions"@.len());
    assert("from_webhook"@.len() != "override_username"@.len());
    assert("from_webhook"@.len() != "addedUserId"@.len());
    assert("from_webhook"@.len() != "userId"@.len());
    assert("from_webhook"@.len() != "channel_mentions"@.len());
    assert("override_username"@.len() != "addedUserId"@.len());
    assert("override_username"@.len() != "userId"@.len());
    assert("override_username"@.len() != "channel_mentions"@.len());
    assert("addedUserId"@.len() != "userId"@.len());
    assert("addedUserId"@.len() != "channel_mentions"@.len());
    assert("userId"@.len() != "channel_mentions"@.len());
    let fs = spec_encode_post_props(x)->Obj_0;
    reveal_with_fuel(spec_obj_get, 18);
    assert(spec_obj_get(fs, "override_icon_url"@) == Some((match x.override_icon_url {
            Some(s) => JsonV::Str(s),
            None => JsonV::Null,
        })));
    assert(spec_obj_get(fs, "old_header"@) == Some((match x.old_header {
            Some(s) => JsonV::Str(s),
            None => JsonV::Null,
        })));
    assert(spec_obj_get(fs, "new_header"@) == Some((match x.new_header {
            Some(s) => JsonV::Str(s),
            None => JsonV::Null,
        })));
    assert(spec_obj_get(fs, "username"@) == Some((match x.username {
            Some(s) => JsonV::Str(s),
            None => JsonV::Null,
        })));
    assert(spec_obj_get(fs, "new_purpose"@) == Some((match x.new_purpose {
            Some(s) => JsonV::Str(s),
            None => JsonV::Null,
        })));
    assert(spec_obj_get(fs, "old_purpose"@) == Some((match x.old_purpose {
            Some(s) => JsonV::Str(s),
            None => JsonV::Null,
        })));
    assert(spec_obj_get(fs, "new_displayname"@) == Some((match x.new_displayname {
            Some(s) => JsonV::Str(s),
            None => JsonV::Null,
        })));
    assert(spec_obj_get(fs, "old_displayname"@) == Some((match x.old_displayname {
            Some(s) => JsonV::Str(s),
            None => JsonV::Null,
        })));
    assert(spec_obj_get(fs, "addedUsername"@) == Some((match x.added_username {
            Some(s) => JsonV::Str(s),
            None => JsonV::Null,
        })));
    assert(spec_obj_get(fs, "removedUsername"@) == Some((match x.removed_username {
            Some(s) => JsonV::Str(s),
            None => JsonV::Null,
        })));
    assert(spec_obj_get(fs, "add_channel_member"@) == Some((match x.add_channel_member {
            Some(x) => spec_encode_add_channel_member(x),
            None => JsonV::Null,
        })));
    assert(spec_obj_get(fs, "from_webhook"@) == Some((match x.from_webhook {
            Some(s) => JsonV::Str(s),
            None => JsonV::Null,
        })));
    assert(spec_obj_get(fs, "override_username"@) == Some((match x.override_username {
            Some(s) => JsonV::Str(s),
            None => JsonV::Null,
        })));
    assert(spec_obj_get(fs, "addedUserId"@) == Some((match x.added_user_id {
            Some(s) => JsonV::Str(s),
            None => JsonV::Null,
        })));
    assert(spec_obj_get(fs, "userId"@) == Some((match x.user_id {
            Some(s) => JsonV::Str(s),
            None => JsonV::Null,
        })));
    assert(spec_obj_get(fs, "channel_mentions"@) == Some(spec_encode_pairs_chinfo(x.channel_mentions)));
    match x.add_channel_member {
        Some(sub) => lemma_add_channel_member_round_trip(sub),
        None => {},
    }
    lemma_pairs_chinfo_round_trip(x.channel_mentions);
    assert(spec_decode_post_props(spec_encode_post_props(x)) == Some(x));
}

/// The `Post` an object holds.
pub open spec fn spec_decode_post(v: JsonV) -> Option<PostV> {
    match v {
        JsonV::Obj(fs) => {
            let id = spec_get_str(fs, "id"@);
            let create_at = spec_get_i64(fs, "create_at"@);
            let update_at = spec_get_i64(fs, "update_at"@);
            let edit_at = spec_get_i64(fs, "edit_at"@);
            let delete_at = spec_get_i64(fs, "delete_at"@);
            let is_pinned = spec_get_bool(fs, "is_pinned"@);
            let user_id = spec_get_str(fs, "user_id"@);
            let channel_id = spec_get_str(fs, "channel_id"@);
            let root_id = spec_get_str(fs, "root_id"@);
            let parent_id = spec_get_str(fs, "parent_id"@);
            let original_id = spec_get_str(fs, "original_id"@);
            let message = spec_get_str(fs, "message"@);
            let type_ = (match spec_get_str(fs, "type"@) {
            Some(s) => PostType::spec_from_wire(s),
            None => None,
        });
            let props = (match spec_obj_get(fs, "props"@) {
            Some(sub) => spec_decode_post_props(sub),
            None => None,
        });
            let hashtags = spec_get_tokens(fs, "hashtags"@);
            let pending_post_id = spec_get_str(fs, "pending_post_id"@);
            let file_ids = spec_get_strlist(fs, "file_ids"@);
            let has_reactions = spec_opt_bool(fs, "has_reactions"@);
            if id is Some && create_at is Some && update_at is Some && edit_at is Some && delete_at is Some && is_pinned is Some && user_id is Some && channel_id is Some && root_id is Some && parent_id is Some && original_id is Some && message is Some && type_ is Some && props is Some && hashtags is Some && pending_post_id is Some && file_ids is Some && has_reactions is Some {
                Some(
                    PostV {
                        id: id->0,
                        create_at: create_at->0,
                        update_at: update_at->0,
                        edit_at: edit_at->0,
                        delete_at: delete_at->0,
                        is_pinned: is_pinned->0,
                        user_id: user_id->0,
                        channel_id: channel_id->0,
                        root_id: root_id->0,
                        parent_id: parent_id->0,
                        original_id: original_id->0,
                        message: message->0,
                        type_: type_->0,
                        props: props->0,
                        hashtags: hashtags->0,
                        pending_post_id: pending_post_id->0,
                        file_ids: file_ids->0,
                        has_reactions: has_reactions->0,
                    },
                )
            } else {
                None
            }
        },
        _ => None,
    }
}

/// The object form of a `Post`.
pub open spec fn spec_encode_post(x: PostV) -> JsonV {
    JsonV::Obj(
        seq![
            ("id"@, JsonV::Str(x.id)),
            ("create_at"@, JsonV::Int(x.create_at)),
            ("update_at"@, JsonV::Int(x.update_at)),
            ("edit_at"@, JsonV::Int(x.edit_at)),
            ("delete_at"@, JsonV::Int(x.delete_at)),
            ("is_pinned"@, JsonV::Bool(x.is_pinned)),
            ("user_id"@, JsonV::Str(x.user_id)),
            ("channel_id"@, JsonV::Str(x.channel_id)),
            ("root_id"@, JsonV::Str(x.root_id)),
            ("parent_id"@, JsonV::Str(x.parent_id)),
            ("original_id"@, JsonV::Str(x.original_id)),
            ("message"@, JsonV::Str(x.message)),
            ("type"@, JsonV::Str(x.type_.spec_wire_name())),
            ("props"@, spec_encode_post_props(x.props)),
            ("hashtags"@, JsonV::Str(crate::text::spec_join_tokens(x.hashtags))),
            ("pending_post_id"@, JsonV::Str(x.pending_post_id)),
            ("file_ids"@, spec_encode_strlist(x.file_ids)),
            ("has_reactions"@, (match x.has_reactions {
            Some(b) => JsonV::Bool(b),
            None => JsonV::Null,
        })),
        ],
    )
}

/// Decode a `Post` from a JSON value.
pub fn decode_post(v: &Json) -> (r: Option<Post>)
    ensures
        r.deep_view() == spec_decode_post(v@),
{
    match v {
        Json::Obj(fields) => {
            let x_id = get_str(fields, "id");
            let x_create_at = get_i64(fields, "create_at");
            let x_update_at = get_i64(fields, "update_at");
            let x_edit_at = get_i64(fields, "edit_at");
            let x_delete_at = get_i64(fields, "delete_at");
            let x_is_pinned = get_bool(fields, "is_pinned");
            let x_user_id = get_str(fields, "user_id");
            let x_channel_id = get_str(fields, "channel_id");
            let x_root_id = get_str(fields, "root_id");
            let x_parent_id = get_str(fields, "parent_id");
            let x_original_id = get_str(fields, "original_id");
            let x_message = get_str(fields, "message");
            let x_type_ = match get_str(fields, "type") {
        Some(s) => PostType::from_wire(s.as_str()),
        None => None,
    };
            let x_props = match obj_get(fields, "props") {
        Some(sub) => decode_post_props(sub),
        None => None,
    };
            let x_hashtags = get_tokens(fields, "hashtags");
            let x_pending_post_id = get_str(fields, "pending_post_id");
            let x_file_ids = get_strlist(fields, "file_ids");
            let x_has_reactions = opt_bool(fields, "has_reactions");
            if x_id.is_none() {
                return None;
            }
            if x_create_at.is_none() {
                return None;
            }
            if x_update_at.is_none() {
                return None;
            }
            if x_edit_at.is_none() {
                return None;
            }
            if x_delete_at.is_none() {
                return None;
            }
            if x_is_pinned.is_none() {
                return None;
            }
            if x_user_id.is_none() {
                return None;
            }
            if x_channel_id.is_none() {
                return None;
            }
            if x_root_id.is_none() {
                return None;
            }
            if x_parent_id.is_none() {
                return None;
            }
            if x_original_id.is_none() {
                return None;
            }
            if x_message.is_none() {
                return None;
            }
            if x_type_.is_none() {
                return None;
            }
            if x_props.is_none() {
                return None;
            }
            if x_hashtags.is_none() {
                return None;
            }
            if x_pending_post_id.is_none() {
                return None;
            }
            if x_file_ids.is_none() {
                return None;
            }
            if x_has_reactions.is_none() {
                return None;
            }
            Some(
                Post {
                    id: x_id.unwrap(),
                    create_at: x_create_at.unwrap(),
                    update_at: x_update_at.unwrap(),
                    edit_at: x_edit_at.unwrap(),
                    delete_at: x_delete_at.unwrap(),
                    is_pinned: x_is_pinned.unwrap(),
                    user_id: x_user_id.unwrap(),
                    channel_id: x_channel_id.unwrap(),
                    root_id: x_root_id.unwrap(),
                    parent_id: x_parent_id.unwrap(),
                    original_id: x_original_id.unwrap(),
                    message: x_message.unwrap(),
                    type_: x_type_.unwrap(),
                    props: x_props.unwrap(),
                    hashtags: x_hashtags.unwrap(),
                    pending_post_id: x_pending_post_id.unwrap(),
                    file_ids: x_file_ids.unwrap(),
                    has_reactions: x_has_reactions.unwrap(),
                },
            )
        },
        _ => None,
    }
}

/// Encode a `Post` as a JSON object.
#[verifier::rlimit(100)]
pub fn encode_post(x: &Post) -> (out: Json)
    ensures
        out@ == spec_encode_post(x.deep_view()),
{
    let mut fields: Vec<(String, Json)> = Vec::new();
    fields.push((String::from_str("id"), Json::Str(x.id.clone())));
    fields.push((String::from_str("create_at"), Json::Int(x.create_at)));
    fields.push((String::from_str("update_at"), Json::Int(x.update_at)));
    fields.push((String::from_str("edit_at"), Json::Int(x.edit_at)));
    fields.push((String::from_str("delete_at"), Json::Int(x.delete_at)));
    fields.push((String::from_str("is_pinned"), Json::Bool(x.is_pinned)));
    fields.push((String::from_str("user_id"), Json::Str(x.user_id.clone())));
    fields.push((String::from_str("channel_id"), Json::Str(x.channel_id.clone())));
    fields.push((String::from_str("root_id"), Json::Str(x.root_id.clone())));
    fields.push((String::from_str("parent_id"), Json::Str(x.parent_id.clone())));
    fields.push((String::from_str("original_id"), Json::Str(x.original_id.clone())));
    fields.push((String::from_str("message"), Json::Str(x.message.clone())));
    fields.push((String::from_str("type"), Json::Str(x.type_.wire_name())));
    fields.push((String::from_str("props"), encode_post_props(&x.props)));
    fields.push((String::from_str("hashtags"), Json::Str(crate::text::join_tokens(&x.hashtags))));
    fields.push((String::from_str("pending_post_id"), Json::Str(x.pending_post_id.clone())));
    fields.push((String::from_str("file_ids"), encode_strlist(&x.file_ids)));
    fields.push((String::from_str("has_reactions"), (match x.has_reactions {
        Some(b) => Json::Bool(b),
        None => Json::Null,
    })));
    let out = Json::Obj(fields);
    proof {
        let fv = out->Obj_0@;
        crate::json::lemma_fields_view_index(fv);
        assert(fv.len() == 18);
        assert(fv[0].0@ == "id"@ && fv[0].1@ == JsonV::Str(x.deep_view().id));
        assert(fv[1].0@ == "create_at"@ && fv[1].1@ == JsonV::Int(x.deep_view().create_at));
        assert(fv[2].0@ == "update_at"@ && fv[2].1@ == JsonV::Int(x.deep_view().update_at));
        assert(fv[3].0@ == "edit_at"@ && fv[3].1@ == JsonV::Int(x.deep_view().edit_at));
        assert(fv[4].0@ == "delete_at"@ && fv[4].1@ == JsonV::Int(x.deep_view().delete_at));
        assert(fv[5].0@ == "is_pinned"@ && fv[5].1@ == JsonV::Bool(x.deep_view().is_pinned));
        assert(fv[6].0@ == "user_id"@ && fv[6].1@ == JsonV::Str(x.deep_view().user_id));
        assert(fv[7].0@ == "channel_id"@ && fv[7].1@ == JsonV::Str(x.deep_view().channel_id));
        assert(fv[8].0@ == "root_id"@ && fv[8].1@ == JsonV::Str(x.deep_view().root_id));
        assert(fv[9].0@ == "parent_id"@ && fv[9].1@ == JsonV::Str(x.deep_view().parent_id));
        assert(fv[10].0@ == "original_id"@ && fv[10].1@ == JsonV::Str(x.deep_view().original_id));
        assert(fv[11].0@ == "message"@ && fv[11].1@ == JsonV::Str(x.deep_view().message));
        assert(fv[12].0@ == "type"@ && fv[12].1@ == JsonV::Str(x.deep_view().type_.spec_wire_name()));
        assert(fv[13].0@ == "props"@ && fv[13].1@ == spec_encode_post_props(x.deep_view().props));
        assert(fv[14].0@ == "hashtags"@ && fv[14].1@ == JsonV::Str(crate::text::spec_join_tokens(x.deep_view().hashtags)));
        assert(fv[15].0@ == "pending_post_id"@ && fv[15].1@ == JsonV::Str(x.deep_view().pending_post_id));
        assert(fv[16].0@ == "file_ids"@ && fv[16].1@ == spec_encode_strlist(x.deep_view().file_ids));
        assert(fv[17].0@ == "has_reactions"@ && fv[17].1@ == (match x.deep_view().has_reactions {
            Some(b) => JsonV::Bool(b),
            None => JsonV::Null,
        }));
        assert(spec_fields_view(fv) =~= spec_encode_post(x.deep_view())->Obj_0);
    }
    out
}

/// A `Post` decodes back from its encoding unchanged.
#[verifier::rlimit(100)]
pub proof fn lemma_post_round_trip(x: PostV)
    requires
        x.wf(),
    ensures
        spec_decode_post(spec_encode_post(x)) == Some(x),
{
    reveal_strlit("channel_id");
    reveal_strlit("create_at");
    reveal_strlit("delete_at");
    reveal_strlit("edit_at");
    reveal_strlit("file_ids");
    reveal_strlit("has_reactions");
    reveal_strlit("hashtags");
    reveal_strlit("id");
    reveal_strlit("is_pinned");
    reveal_strlit("message");
    reveal_strlit("original_id");
    reveal_strlit("parent_id");
    reveal_strlit("pending_post_id");
    reveal_strlit("props");
    reveal_strlit("root_id");
    reveal_strlit("type");
    reveal_strlit("update_at");
    reveal_strlit("user_id");
    assert("id"@.len() != "create_at"@.len());
    assert("id"@.len() != "update_at"@.len());
    assert("id"@.len() != "edit_at"@.len());
    assert("id"@.len() != "delete_at"@.len());
    assert("id"@.len() != "is_pinned"@.len());
    assert("id"@.len() != "user_id"@.len());
    assert("id"@.len() != "channel_id"@.len());
    assert("id"@.len() != "root_id"@.len());
    assert("id"@.len() != "parent_id"@.len());
    assert("id"@.len() != "original_id"@.len());
    assert("id"@.len() != "message"@.len());
    assert("id"@.len() != "type"@.len());
    assert("id"@.len() != "props"@.len());
    assert("id"@.len() != "hashtags"@.len());
    assert("id"@.len() != "pending_post_id"@.len());
    assert("id"@.len() != "file_ids"@.len());
    assert("id"@.len() != "has_reactions"@.len());
    assert("create_at"@ != "update_at"@) by {
        assert("create_at"@[0] == 'c');
        assert("update_at"@[0] == 'u');
    }
    assert("create_at"@.len() != "edit_at"@.len());
    assert("create_at"@ != "delete_at"@) by {
        assert("create_at"@[0] == 'c');
        assert("delete_at"@[0] == 'd');
    }
    assert("create_at"@ != "is_pinned"@) by {
        assert("create_at"@[0] == 'c');
        assert("is_pinned"@[0] == 'i');
    }
    assert("create_at"@.len() != "user_id"@.len());
    assert("create_at"@.len() != "channel_id"@.len());
    assert("create_at"@.len() != "root_id"@.len());
    assert("create_at"@ != "parent_id"@) by {
        assert("create_at"@[0] == 'c');
        assert("parent_id"@[0] == 'p');
    }
    assert("create_at"@.len() != "original_id"@.len());
    assert("create_at"@.len() != "message"@.len());
    assert("create_at"@.len() != "type"@.len());
    assert("create_at"@.len() != "props"@.len());
    assert("create_at"@.len() != "hashtags"@.len());
    assert("create_at"@.len() != "pending_post_id"@.len());
    assert("create_at"@.len() != "file_ids"@.len());
    assert("create_at"@.len() != "has_reactions"@.len());
    assert("update_at"@.len() != "edit_at"@.len());
    assert("update_at"@ != "delete_at"@) by {
        assert("update_at"@[0] == 'u');
        assert("delete_at"@[0] == 'd');
    }
    assert("update_at"@ != "is_pinned"@) by {
        assert("update_at"@[0] == 'u');
        assert("is_pinned"@[0] == 'i');
    }
    assert("update_at"@.len() != "user_id"@.len());
    assert("update_at"@.len() != "channel_id"@.len());
    assert("update_at"@.len() != "root_id"@.len());
    assert("update_at"@ != "parent_id"@) by {
        assert("update_at"@[0] == 'u');
        assert("parent_id"@[0] == 'p');
    }
    assert("update_at"@.len() != "original_id"@.len());
    assert("update_at"@.len() != "message"@.len());
    assert("update_at"@.len() != "type"@.len());
    assert("update_at"@.len() != "props"@.len());
    assert("update_at"@.len() != "hashtags"@.len());
    assert("update_at"@.len() != "pending_post_id"@.len());
    assert("update_at"@.len() != "file_ids"@.len());
    assert("update_at"@.len() != "has_reactions"@.len());
    assert("edit_at"@.len() != "delete_at"@.len());
    assert("edit_at"@.len() != "is_pinned"@.len());
    assert("edit_at"@ != "user_id"@) by {
        assert("edit_at"@[0] == 'e');
        assert("user_id"@[0] == 'u');
    }
    assert("edit_at"@.len() != "channel_id"@.len());
    assert("edit_at"@ != "root_id"@) by {
        assert("edit_at"@[0] == 'e');
        assert("root_id"@[0] == 'r');
    }
    assert("edit_at"@.len() != "parent_id"@.len());
    assert("edit_at"@.len() != "original_id"@.len());
    assert("edit_at"@ != "message"@) by {
        assert("edit_at"@[0] == 'e');
        assert("message"@[0] == 'm');
    }
    assert("edit_at"@.len() != "type"@.len());
    assert("edit_at"@.len() != "props"@.len());
    assert("edit_at"@.len() != "hashtags"@.len());
    assert("edit_at"@.len() != "pending_post_id"@.len());
    assert("edit_at"@.len() != "file_ids"@.len());
    assert("edit_at"@.len() != "has_reactions"@.len());
    assert("delete_at"@ != "is_pinned"@) by {
        assert("delete_at"@[0] == 'd');
        assert("is_pinned"@[0] == 'i');
    }
    assert("delete_at"@.len() != "user_id"@.len());
    assert("delete_at"@.len() != "channel_id"@.len());
    assert("delete_at"@.len() != "root_id"@.len());
    assert("delete_at"@ != "parent_id"@) by {
        assert("delete_at"@[0] == 'd');
        assert("parent_id"@[0] == 'p');
    }
    assert("delete_at"@.len() != "original_id"@.len());
    assert("delete_at"@.len() != "message"@.len());
    assert("delete_at"@.len() != "type"@.len());
    assert("delete_at"@.len() != "props"@.len());
    assert("delete_at"@.len() != "hashtags"@.len());
    assert("delete_at"@.len() != "pending_post_id"@.len());
    assert("delete_at"@.len() != "file_ids"@.len());
    assert("delete_at"@.len() != "has_reactions"@.len());
    assert("is_pinned"@.len() != "user_id"@.len());
    assert("is_pinned"@.len() != "channel_id"@.len());
    assert("is_pinned"@.len() != "root_id"@.len());
    assert("is_pinned"@ != "parent_id"@) by {
        assert("is_pinned"@[0] == 'i');
        assert("parent_id"@[0] == 'p');
    }
    assert("is_pinned"@.len() != "original_id"@.len());
    assert("is_pinned"@.len() != "message"@.len());
    assert("is_pinned"@.len() != "type"@.len());
    assert("is_pinned"@.len() != "props"@.len());
    assert("is_pinned"@.len() != "hashtags"@.len());
    assert("is_pinned"@.len() != "pending_post_id"@.len());
    assert("is_pinned"@.len() != "file_ids"@.len());
    assert("is_pinned"@.len() != "has_reactions"@.len());
    assert("user_id"@.len() != "channel_id"@.len());
    assert("user_id"@ != "root_id"@) by {
        assert("user_id"@[0] == 'u');
        assert("root_id"@[0] == 'r');
    }
    assert("user_id"@.len() != "parent_id"@.len());
    assert("user_id"@.len() != "original_id"@.len());
    assert("user_id"@ != "message"@) by {
        assert("user_id"@[0] == 'u');
        assert("message"@[0] == 'm');
    }
    assert("user_id"@.len() != "type"@.len());
    assert("user_id"@.len() != "props"@.len());
    assert("user_id"@.len() != "hashtags"@.len());
    assert("user_id"@.len() != "pending_post_id"@.len());
    assert("user_id"@.len() != "file_ids"@.len());
    assert("user_id"@.len() != "has_reactions"@.len());
    assert("channel_id"@.len() != "root_id"@.len());
    assert("channel_id"@.len() != "parent_id"@.len());
    assert("channel_id"@.len() != "original_id"@.len());
    assert("channel_id"@.len() != "message"@.len());
    assert("channel_id"@.len() != "type"@.len());
    assert("channel_id"@.len() != "props"@.len());
    assert("channel_id"@.len() != "hashtags"@.len());
    assert("channel_id"@.len() != "pending_post_id"@.len());
    assert("channel_id"@.len() != "file_ids"@.len());
    assert("channel_id"@.len() != "has_reactions"@.len());
    assert("root_id"@.len() != "parent_id"@.len());
    assert("root_id"@.len() != "original_id"@.len());
    assert("root_id"@ != "message"@) by {
        assert("root_id"@[0] == 'r');
        assert("message"@[0] == 'm');
    }
    assert("root_id"@.len() != "type"@.len());
    assert("root_id"@.len() != "props"@.len());
    assert("root_id"@.len() != "hashtags"@.len());
    assert("root_id"@.len() != "pending_post_id"@.len());
    assert("root_id"@.len() != "file_ids"@.len());
    assert("root_id"@.len() != "has_reactions"@.len());
    assert("parent_id"@.len() != "original_id"@.len());
    assert("parent_id"@.len() != "message"@.len());
    assert("parent_id"@.len() != "type"@.len());
    assert("parent_id"@.len() != "props"@.len());
    assert("parent_id"@.len() != "hashtags"@.len());
    assert("parent_id"@.len() != "pending_post_id"@.len());
    assert("parent_id"@.len() != "file_ids"@.len());
    assert("parent_id"@.len() != "has_reactions"@.len());
    assert("original_id"@.len() != "message"@.len());
    assert("original_id"@.len() != "type"@.len());
    assert("original_id"@.len() != "props"@.len());
    assert("original_id"@.len() != "hashtags"@.len());
    assert("original_id"@.len() != "pending_post_id"@.len());
    assert("original_id"@.len() != "file_ids"@.len());
    assert("original_id"@.len() != "has_reactions"@.len());
    assert("message"@.len() != "type"@.len());
    assert("message"@.len() != "props"@.len());
    assert("message"@.len() != "hashtags"@.len());
    assert("message"@.len() != "pending_post_id"@.len());
    assert("message"@.len() != "file_ids"@.len());
    assert("message"@.len() != "has_reactions"@.len());
    assert("type"@.len() != "props"@.len());
    assert("type"@.len() != "hashtags"@.len());
    assert("type"@.len() != "pending_post_id"@.len());
    assert("type"@.len() != "file_ids"@.len());
    assert("type"@.len() != "has_reactions"@.len());
    assert("props"@.len() != "hashtags"@.len());
    assert("props"@.len() != "pending_post_id"@.len());
    assert("props"@.len() != "file_ids"@.len());
    assert("props"@.len() != "has_reactions"@.len());
    assert("hashtags"@.len() != "pending_post_id"@.len());
    assert("hashtags"@ != "file_ids"@) by {
        assert("hashtags"@[0] == 'h');
        assert("file_ids"@[0] == 'f');
    }
    assert("hashtags"@.len() != "has_reactions"@.len());
    assert("pending_post_id"@.len() != "file_ids"@.len());
    assert("pending_post_id"@.len() != "has_reactions"@.len());
    assert("file_ids"@.len() != "has_reactions"@.len());
    let fs = spec_encode_post(x)->Obj_0;
    reveal_with_fuel(spec_obj_get, 20);
    assert(spec_obj_get(fs, "id"@) == Some(JsonV::Str(x.id)));
    assert(spec_obj_get(fs, "create_at"@) == Some(JsonV::Int(x.create_at)));
    assert(spec_obj_get(fs, "update_at"@) == Some(JsonV::Int(x.update_at)));
    assert(spec_obj_get(fs, "edit_at"@) == Some(JsonV::Int(x.edit_at)));
    assert(spec_obj_get(fs, "delete_at"@) == Some(JsonV::Int(x.delete_at)));
    assert(spec_obj_get(fs, "is_pinned"@) == Some(JsonV::Bool(x.is_pinned)));
    assert(spec_obj_get(fs, "user_id"@) == Some(JsonV::Str(x.user_id)));
    assert(spec_obj_get(fs, "channel_id"@) == Some(JsonV::Str(x.channel_id)));
    assert(spec_obj_get(fs, "root_id"@) == Some(JsonV::Str(x.root_id)));
    assert(spec_obj_get(fs, "parent_id"@) == Some(JsonV::Str(x.parent_id)));
    assert(spec_obj_get(fs, "original_id"@) == Some(JsonV::Str(x.original_id)));
    assert(spec_obj_get(fs, "message"@) == Some(JsonV::Str(x.message)));
    assert(spec_obj_get(fs, "type"@) == Some(JsonV::Str(x.type_.spec_wire_name())));
    assert(spec_obj_get(fs, "props"@) == Some(spec_encode_post_props(x.props)));
    assert(spec_obj_get(fs, "hashtags"@) == Some(JsonV::Str(crate::text::spec_join_tokens(x.hashtags))));
    assert(spec_obj_get(fs, "pending_post_id"@) == Some(JsonV::Str(x.pending_post_id)));
    assert(spec_obj_get(fs, "file_ids"@) == Some(spec_encode_strlist(x.file_ids)));
    assert(spec_obj_get(fs, "has_reactions"@) == Some((match x.has_reactions {
            Some(b) => JsonV::Bool(b),
            None => JsonV::Null,
        })));
    x.type_.lemma_wire_name_round_trip();
    lemma_post_props_round_trip(x.props);
    crate::text::lemma_tokens_round_trip(x.hashtags);
    lemma_strlist_round_trip(x.file_ids);
    assert(spec_decode_post(spec_encode_post(x)) == Some(x));
}

/// The `Emoji` an object holds.
pub open spec fn spec_decode_emoji(v: JsonV) -> Option<EmojiV> {
    match v {
        JsonV::Obj(fs) => {
            let id = spec_get_str(fs, "id"@);
            let create_at = spec_get_i64(fs, "create_at"@);
            let update_at = spec_get_i64(fs, "update_at"@);
            let delete_at = spec_get_i64(fs, "delete_at"@);
            let creator_id = spec_get_str(fs, "creator_id"@);
            let name = spec_get_str(fs, "name"@);
            if id is Some && create_at is Some && update_at is Some && delete_at is Some && creator_id is Some && name is Some {
                Some(
                    EmojiV {
                        id: id->0,
                        create_at: create_at->0,
                        update_at: update_at->0,
                        delete_at: delete_at->0,
                        creator_id: creator_id->0,
                        name: name->0,
                    },
                )
            } else {
                None
            }
        },
        _ => None,
    }
}

/// The object form of a `Emoji`.
pub open spec fn spec_encode_emoji(x: EmojiV) -> JsonV {
    JsonV::Obj(
        seq![
            ("id"@, JsonV::Str(x.id)),
            ("create_at"@, JsonV::Int(x.create_at)),
            ("update_at"@, JsonV::Int(x.update_at)),
            ("delete_at"@, JsonV::Int(x.delete_at)),
            ("creator_id"@, JsonV::Str(x.creator_id)),
            ("name"@, JsonV::Str(x.name)),
        ],
    )
}

/// Decode a `Emoji` from a JSON value.
pub fn decode_emoji(v: &Json) -> (r: Option<Emoji>)
    ensures
        r.deep_view() == spec_decode_emoji(v@),
{
    match v {
        Json::Obj(fields) => {
            let x_id = get_str(fields, "id");
            let x_create_at = get_i64(fields, "create_at");
            let x_update_at = get_i64(fields, "update_at");
            let x_delete_at = get_i64(fields, "delete_at");
            let x_creator_id = get_str(fields, "creator_id");
            let x_name = get_str(fields, "name");
            if x_id.is_none() {
                return None;
            }
            if x_create_at.is_none() {
                return None;
            }
            if x_update_at.is_none() {
                return None;
            }
            if x_delete_at.is_none() {
                return None;
            }
            if x_creator_id.is_none() {
                return None;
            }
            if x_name.is_none() {
                return None;
            }
            Some(
                Emoji {
                    id: x_id.unwrap(),
                    create_at: x_create_at.unwrap(),
                    update_at: x_update_at.unwrap(),
                    delete_at: x_delete_at.unwrap(),
                    creator_id: x_creator_id.unwrap(),
                    name: x_name.unwrap(),
                },
            )
        },
        _ => None,
    }
}

/// Encode a `Emoji` as a JSON object.
pub fn encode_emoji(x: &Emoji) -> (out: Json)
    ensures
        out@ == spec_encode_emoji(x.deep_view()),
{
    let mut fields: Vec<(String, Json)> = Vec::new();
    fields.push((String::from_str("id"), Json::Str(x.id.clone())));
    fields.push((String::from_str("create_at"), Json::Int(x.create_at)));
    fields.push((String::from_str("update_at"), Json::Int(x.update_at)));
    fields.push((String::from_str("delete_at"), Json::Int(x.delete_at)));
    fields.push((String::from_str("creator_id"), Json::Str(x.creator_id.clone())));
    fields.push((String::from_str("name"), Json::Str(x.name.clone())));
    let out = Json::Obj(fields);
    proof {
        let fv = out->Obj_0@;
        crate::json::lemma_fields_view_index(fv);
        assert(fv.len() == 6);
        assert(fv[0].0@ == "id"@ && fv[0].1@ == JsonV::Str(x.deep_view().id));
        assert(fv[1].0@ == "create_at"@ && fv[1].1@ == JsonV::Int(x.deep_view().create_at));
        assert(fv[2].0@ == "update_at"@ && fv[2].1@ == JsonV::Int(x.deep_view().update_at));
        assert(fv[3].0@ == "delete_at"@ && fv[3].1@ == JsonV::Int(x.deep_view().delete_at));
        assert(fv[4].0@ == "creator_id"@ && fv[4].1@ == JsonV::Str(x.deep_view().creator_id));
        assert(fv[5].0@ == "name"@ && fv[5].1@ == JsonV::Str(x.deep_view().name));
        assert(spec_fields_view(fv) =~= spec_encode_emoji(x.deep_view())->Obj_0);
    }
    out
}

/// A `Emoji` decodes back from its encoding unchanged.
#[verifier::rlimit(100)]
pub proof fn lemma_emoji_round_trip(x: EmojiV)
    requires
        x.wf(),
    ensures
        spec_decode_emoji(spec_encode_emoji(x)) == Some(x),
{
    reveal_strlit("create_at");
    reveal_strlit("creator_id");
    reveal_strlit("delete_at");
    reveal_strlit("id");
    reveal_strlit("name");
    reveal_strlit("update_at");
    assert("id"@.len() != "create_at"@.len());
    assert("id"@.len() != "update_at"@.len());
    assert("id"@.len() != "delete_at"@.len());
    assert("id"@.len() != "creator_id"@.len());
    assert("id"@.len() != "name"@.len());
    assert("create_at"@ != "update_at"@) by {
        assert("create_at"@[0] == 'c');
        assert("update_at"@[0] == 'u');
    }
    assert("create_at"@ != "delete_at"@) by {
        assert("create_at"@[0] == 'c');
        assert("delete_at"@[0] == 'd');
    }
    assert("create_at"@.len() != "creator_id"@.len());
    assert("create_at"@.len() != "name"@.len());
    assert("update_at"@ != "delete_at"@) by {
        assert("update_at"@[0] == 'u');
        assert("delete_at"@[0] == 'd');
    }
    assert("update_at"@.len() != "creator_id"@.len());
    assert("update_at"@.len() != "name"@.len());
    assert("delete_at"@.len() != "creator_id"@.len());
    assert("delete_at"@.len() != "name"@.len());
    assert("creator_id"@.len() != "name"@.len());
    let fs = spec_encode_emoji(x)->Obj_0;
    reveal_with_fuel(spec_obj_get, 8);
    assert(spec_obj_get(fs, "id"@) == Some(JsonV::Str(x.id)));
    assert(spec_obj_get(fs, "create_at"@) == Some(JsonV::Int(x.create_at)));
    assert(spec_obj_get(fs, "update_at"@) == Some(JsonV::Int(x.update_at)));
    assert(spec_obj_get(fs, "delete_at"@) == Some(JsonV::Int(x.delete_at)));
    assert(spec_obj_get(fs, "creator_id"@) == Some(JsonV::Str(x.creator_id)));
    assert(spec_obj_get(fs, "name"@) == Some(JsonV::Str(x.name)));
    assert(spec_decode_emoji(spec_encode_emoji(x)) == Some(x));
}

/// The `Team` an object holds.
pub open spec fn spec_decode_team(v: JsonV) -> Option<TeamV> {
    match v {
        JsonV::Obj(fs) => {
            let id = spec_get_str(fs, "id"@);
            let create_at = spec_get_i64(fs, "create_at"@);
            let update_at = spec_get_i64(fs, "update_at"@);
            let delete_at = spec_get_i64(fs, "delete_at"@);
            let display_name = spec_get_str(fs, "display_name"@);
            let name = spec_get_str(fs, "name"@);
            let description = spec_get_str(fs, "description"@);
            let email = spec_get_str(fs, "email"@);
            let type_ = (match spec_get_str(fs, "type"@) {
            Some(s) => ChannelType::spec_from_wire(s),
            None => None,
        });
            let company_name = spec_get_str(fs, "company_name"@);
            let allowed_domains = spec_get_str(fs, "allowed_domains"@);
            let invite_id = spec_get_str(fs, "invite_id"@);
            let allow_open_invite = spec_get_bool(fs, "allow_open_invite"@);
            let scheme_id = spec_opt_str(fs, "scheme_id"@);
            let last_team_icon_update = spec_opt_i64(fs, "last_team_icon_update"@);
            if id is Some && create_at is Some && update_at is Some && delete_at is Some && display_name is Some && name is Some && description is Some && email is Some && type_ is Some && company_name is Some && allowed_domains is Some && invite_id is Some && allow_open_invite is Some && scheme_id is Some && last_team_icon_update is Some {
                Some(
                    TeamV {
                        id: id->0,
                        create_at: create_at->0,
                        update_at: update_at->0,
                        delete_at: delete_at->0,
                        display_name: display_name->0,
                        name: name->0,
                        description: description->0,
                        email: email->0,
                        type_: type_->0,
                        company_name: company_name->0,
                        allowed_domains: allowed_domains->0,
                        invite_id: invite_id->0,
                        allow_open_invite: allow_open_invite->0,
                        scheme_id: scheme_id->0,
                        last_team_icon_update: last_team_icon_update->0,
                    },
                )
            } else {
                None
            }
        },
        _ => None,
    }
}

/// The object form of a `Team`.
pub open spec fn spec_encode_team(x: TeamV) -> JsonV {
    JsonV::Obj(
        seq![
            ("id"@, JsonV::Str(x.id)),
            ("create_at"@, JsonV::Int(x.create_at)),
            ("update_at"@, JsonV::Int(x.update_at)),
            ("delete_at"@, JsonV::Int(x.delete_at)),
            ("display_name"@, JsonV::Str(x.display_name)),
            ("name"@, JsonV::Str(x.name)),
            ("description"@, JsonV::Str(x.description)),
            ("email"@, JsonV::Str(x.email)),
            ("type"@, JsonV::Str(x.type_.spec_wire_name())),
            ("company_name"@, JsonV::Str(x.company_name)),
            ("allowed_domains"@, JsonV::Str(x.allowed_domains)),
            ("invite_id"@, JsonV::Str(x.invite_id)),
            ("allow_open_invite"@, JsonV::Bool(x.allow_open_invite)),
            ("scheme_id"@, (match x.scheme_id {
            Some(s) => JsonV::Str(s),
            None => JsonV::Null,
        })),
            ("last_team_icon_update"@, (match x.last_team_icon_update {
            Some(n) => JsonV::Int(n),
            None => JsonV::Null,
        })),
        ],
    )
}

/// Decode a `Team` from a JSON value.
pub fn decode_team(v: &Json) -> (r: Option<Team>)
    ensures
        r.deep_view() == spec_decode_team(v@),
{
    match v {
        Json::Obj(fields) => {
            let x_id = get_str(fields, "id");
            let x_create_at = get_i64(fields, "create_at");
            let x_update_at = get_i64(fields, "update_at");
            let x_delete_at = get_i64(fields, "delete_at");
            let x_display_name = get_str(fields, "display_name");
            let x_name = get_str(fields, "name");
            let x_description = get_str(fields, "description");
            let x_email = get_str(fields, "email");
            let x_type_ = match get_str(fields, "type") {
        Some(s) => ChannelType::from_wire(s.as_str()),
        None => None,
    };
            let x_company_name = get_str(fields, "company_name");
            let x_allowed_domains = get_str(fields, "allowed_domains");
            let x_invite_id = get_str(fields, "invite_id");
            let x_allow_open_invite = get_bool(fields, "allow_open_invite");
            let x_scheme_id = opt_str(fields, "scheme_id");
            let x_last_team_icon_update = opt_i64(fields, "last_team_icon_update");
            if x_id.is_none() {
                return None;
            }
            if x_create_at.is_none() {
                return None;
            }
            if x_update_at.is_none() {
                return None;
            }
            if x_delete_at.is_none() {
                return None;
            }
            if x_display_name.is_none() {
                return None;
            }
            if x_name.is_none() {
                return None;
            }
            if x_description.is_none() {
                return None;
            }
            if x_email.is_none() {
                return None;
            }
            if x_type_.is_none() {
                return None;
            }
            if x_company_name.is_none() {
                return None;
            }
            if x_allowed_domains.is_none() {
                return None;
            }
            if x_invite_id.is_none() {
                return None;
            }
            if x_allow_open_invite.is_none() {
                return None;
            }
            if x_scheme_id.is_none() {
                return None;
            }
            if x_last_team_icon_update.is_none() {
                return None;
            }
            Some(
                Team {
                    id: x_id.unwrap(),
                    create_at: x_create_at.unwrap(),
                    update_at: x_update_at.unwrap(),
                    delete_at: x_delete_at.unwrap(),
                    display_name: x_display_name.unwrap(),
                    name: x_name.unwrap(),
                    description: x_description.unwrap(),
                    email: x_email.unwrap(),
                    type_: x_type_.unwrap(),
                    company_name: x_company_name.unwrap(),
                    allowed_domains: x_allowed_domains.unwrap(),
                    invite_id: x_invite_id.unwrap(),
                    allow_open_invite: x_allow_open_invite.unwrap(),
                    scheme_id: x_scheme_id.unwrap(),
                    last_team_icon_update: x_last_team_icon_update.unwrap(),
                },
            )
        },
        _ => None,
    }
}

/// Encode a `Team` as a JSON object.
#[verifier::rlimit(100)]
pub fn encode_team(x: &Team) -> (out: Json)
    ensures
        out@ == spec_encode_team(x.deep_view()),
{
    let mut fields: Vec<(String, Json)> = Vec::new();
    fields.push((String::from_str("id"), Json::Str(x.id.clone())));
    fields.push((String::from_str("create_at"), Json::Int(x.create_at)));
    fields.push((String::from_str("update_at"), Json::Int(x.update_at)));
    fields.push((String::from_str("delete_at"), Json::Int(x.delete_at)));
    fields.push((String::from_str("display_name"), Json::Str(x.display_name.clone())));
    fields.push((String::from_str("name"), Json::Str(x.name.clone())));
    fields.push((String::from_str("description"), Json::Str(x.description.clone())));
    fields.push((String::from_str("email"), Json::Str(x.email.clone())));
    fields.push((String::from_str("type"), Json::Str(x.type_.wire_name())));
    fields.push((String::from_str("company_name"), Json::Str(x.company_name.clone())));
    fields.push((String::from_str("allowed_domains"), Json::Str(x.allowed_domains.clone())));
    fields.push((String::from_str("invite_id"), Json::Str(x.invite_id.clone())));
    fields.push((String::from_str("allow_open_invite"), Json::Bool(x.allow_open_invite)));
    fields.push((String::from_str("scheme_id"), (match &x.scheme_id {
        Some(s) => Json::Str(s.clone()),
        None => Json::Null,
    })));
    fields.push((String::from_str("last_team_icon_update"), (match x.last_team_icon_update {
        Some(n) => Json::Int(n),
        None => Json::Null,
    })));
    let out = Json::Obj(fields);
    proof {
        let fv = out->Obj_0@;
        crate::json::lemma_fields_view_index(fv);
        assert(fv.len() == 15);
        assert(fv[0].0@ == "id"@ && fv[0].1@ == JsonV::Str(x.deep_view().id));
        assert(fv[1].0@ == "create_at"@ && fv[1].1@ == JsonV::Int(x.deep_view().create_at));
        assert(fv[2].0@ == "update_at"@ && fv[2].1@ == JsonV::Int(x.deep_view().update_at));
        assert(fv[3].0@ == "delete_at"@ && fv[3].1@ == JsonV::Int(x.deep_view().delete_at));
        assert(fv[4].0@ == "display_name"@ && fv[4].1@ == JsonV::Str(x.deep_view().display_name));
        assert(fv[5].0@ == "name"@ && fv[5].1@ == JsonV::Str(x.deep_view().name));
        assert(fv[6].0@ == "description"@ && fv[6].1@ == JsonV::Str(x.deep_view().description));
        assert(fv[7].0@ == "email"@ && fv[7].1@ == JsonV::Str(x.deep_view().email));
        assert(fv[8].0@ == "type"@ && fv[8].1@ == JsonV::Str(x.deep_view().type_.spec_wire_name()));
        assert(fv[9].0@ == "company_name"@ && fv[9].1@ == JsonV::Str(x.deep_view().company_name));
        assert(fv[10].0@ == "allowed_domains"@ && fv[10].1@ == JsonV::Str(x.deep_view().allowed_domains));
        assert(fv[11].0@ == "invite_id"@ && fv[11].1@ == JsonV::Str(x.deep_view().invite_id));
        assert(fv[12].0@ == "allow_open_invite"@ && fv[12].1@ == JsonV::Bool(x.deep_view().allow_open_invite));
        assert(fv[13].0@ == "scheme_id"@ && fv[13].1@ == (match x.deep_view().scheme_id {
            Some(s) => JsonV::Str(s),
            None => JsonV::Null,
        }));
        assert(fv[14].0@ == "last_team_icon_update"@ && fv[14].1@ == (match x.deep_view().last_team_icon_update {
            Some(n) => JsonV::Int(n),
            None => JsonV::Null,
        }));
        assert(spec_fields_view(fv) =~= spec_encode_team(x.deep_view())->Obj_0);
    }
    out
}

/// A `Team` decodes back from its encoding unchanged.
#[verifier::rlimit(100)]
pub proof fn lemma_team_round_trip(x: TeamV)
    requires
        x.wf(),
    ensures
        spec_decode_team(spec_encode_team(x)) == Some(x),
{
    reveal_strlit("allow_open_invite");
    reveal_strlit("allowed_domains");
    reveal_strlit("company_name");
    reveal_strlit("create_at");
    reveal_strlit("delete_at");
    reveal_strlit("description");
    reveal_strlit("display_name");
    reveal_strlit("email");
    reveal_strlit("id");
    reveal_strlit("invite_id");
    reveal_strlit("last_team_icon_update");
    reveal_strlit("name");
    reveal_strlit("scheme_id");
    reveal_strlit("type");
    reveal_strlit("update_at");
    assert("id"@.len() != "create_at"@.len());
    assert("id"@.len() != "update_at"@.len());
    assert("id"@.len() != "delete_at"@.len());
    assert("id"@.len() != "display_name"@.len());
    assert("id"@.len() != "name"@.len());
    assert("id"@.len() != "description"@.len());
    assert("id"@.len() != "email"@.len());
    assert("id"@.len() != "type"@.len());
    assert("id"@.len() != "company_name"@.len());
    assert("id"@.len() != "allowed_domains"@.len());
    assert("id"@.len() != "invite_id"@.len());
    assert("id"@.len() != "allow_open_invite"@.len());
    assert("id"@.len() != "scheme_id"@.len());
    assert("id"@.len() != "last_team_icon_update"@.len());
    assert("create_at"@ != "update_at"@) by {
        assert("create_at"@[0] == 'c');
        assert("update_at"@[0] == 'u');
    }
    assert("create_at"@ != "delete_at"@) by {
        assert("create_at"@[0] == 'c');
        assert("delete_at"@[0] == 'd');
    }
    assert("create_at"@.len() != "display_name"@.len());
    assert("create_at"@.len() != "name"@.len());
    assert("create_at"@.len() != "description"@.len());
    assert("create_at"@.len() != "email"@.len());
    assert("create_at"@.len() != "type"@.len());
    assert("create_at"@.len() != "company_name"@.len());
    assert("create_at"@.len() != "allowed_domains"@.len());
    assert("create_at"@ != "invite_id"@) by {
        assert("create_at"@[0] == 'c');
        assert("invite_id"@[0] == 'i');
    }
    assert("create_at"@.len() != "allow_open_invite"@.len());
    assert("create_at"@ != "scheme_id"@) by {
        assert("create_at"@[0] == 'c');
        assert("scheme_id"@[0] == 's');
    }
    assert("create_at"@.len() != "last_team_icon_update"@.len());
    assert("update_at"@ != "delete_at"@) by {
        assert("update_at"@[0] == 'u');
        assert("delete_at"@[0] == 'd');
    }
    assert("update_at"@.len() != "display_name"@.len());
    assert("update_at"@.len() != "name"@.len());
    assert("update_at"@.len() != "description"@.len());
    assert("update_at"@.len() != "email"@.len());
    assert("update_at"@.len() != "type"@.len());
    assert("update_at"@.len() != "company_name"@.len());
    assert("update_at"@.len() != "allowed_domains"@.len());
    assert("update_at"@ != "invite_id"@) by {
        assert("update_at"@[0] == 'u');
        assert("invite_id"@[0] == 'i');
    }
    assert("update_at"@.len() != "allow_open_invite"@.len());
    assert("update_at"@ != "scheme_id"@) by {
        assert("update_at"@[0] == 'u');
        assert("scheme_id"@[0] == 's');
    }
    assert("update_at"@.len() != "last_team_icon_update"@.len());
    assert("delete_at"@.len() != "display_name"@.len());
    assert("delete_at"@.len() != "name"@.len());
    assert("delete_at"@.len() != "description"@.len());
    assert("delete_at"@.len() != "email"@.len());
    assert("delete_at"@.len() != "type"@.len());
    assert("delete_at"@.len() != "company_name"@.len());
    assert("delete_at"@.len() != "allowed_domains"@.len());
    assert("delete_at"@ != "invite_id"@) by {
        assert("delete_at"@[0] == 'd');
        assert("invite_id"@[0] == 'i');
    }
    assert("delete_at"@.len() != "allow_open_invite"@.len());
    assert("delete_at"@ != "scheme_id"@) by {
        assert("delete_at"@[0] == 'd');
        assert("scheme_id"@[0] == 's');
    }
    assert("delete_at"@.len() != "last_team_icon_update"@.len());
    assert("display_name"@.len() != "name"@.len());
    assert("display_name"@.len() != "description"@.len());
    assert("display_name"@.len() != "email"@.len());
    assert("display_name"@.len() != "type"@.len());
    assert("display_name"@ != "company_name"@) by {
        assert("display_name"@[0] == 'd');
        assert("company_name"@[0] == 'c');
    }
    assert("display_name"@.len() != "allowed_domains"@.len());
    assert("display_name"@.len() != "invite_id"@.len());
    assert("display_name"@.len() != "allow_open_invite"@.len());
    assert("display_name"@.len() != "scheme_id"@.len());
    assert("display_name"@.len() != "last_team_icon_update"@.len());
    assert("name"@.len() != "description"@.len());
    assert("name"@.len() != "email"@.len());
    assert("name"@ != "type"@) by {
        assert("name"@[0] == 'n');
        assert("type"@[0] == 't');
    }
    assert("name"@.len() != "company_name"@.len());
    assert("name"@.len() != "allowed_domains"@.len());
    assert("name"@.len() != "invite_id"@.len());
    assert("name"@.len() != "allow_open_invite"@.len());
    assert("name"@.len() != "scheme_id"@.len());
    assert("name"@.len() != "last_team_icon_update"@.len());
    assert("description"@.len() != "email"@.len());
    assert("description"@.len() != "type"@.len());
    assert("description"@.len() != "company_name"@.len());
    assert("description"@.len() != "allowed_domains"@.len());
    assert("description"@.len() != "invite_id"@.len());
    assert("description"@.len() != "allow_open_invite"@.len());
    assert("description"@.len() != "scheme_id"@.len());
    assert("description"@.len() != "last_team_icon_update"@.len());
    assert("email"@.len() != "type"@.len());
    assert("email"@.len() != "company_name"@.len());
    assert("email"@.len() != "allowed_domains"@.len());
    assert("email"@.len() != "invite_id"@.len());
    assert("email"@.len() != "allow_open_invite"@.len());
    assert("email"@.len() != "scheme_id"@.len());
    assert("email"@.len() != "last_team_icon_update"@.len());
    assert("type"@.len() != "company_name"@.len());
    assert("type"@.len() != "allowed_domains"@.len());
    assert("type"@.len() != "invite_id"@.len());
    assert("type"@.len() != "allow_open_invite"@.len());
    assert("type"@.len() != "scheme_id"@.len());
    assert("type"@.len() != "last_team_icon_update"@.len());
    assert("company_name"@.len() != "allowed_domains"@.len());
    assert("company_name"@.len() != "invite_id"@.len());
    assert("company_name"@.len() != "allow_open_invite"@.len());
    assert("company_name"@.len() != "scheme_id"@.len());
    assert("company_name"@.len() != "last_team_icon_update"@.len());
    assert("allowed_domains"@.len() != "invite_id"@.len());
    assert("allowed_domains"@.len() != "allow_open_invite"@.len());
    assert("allowed_domains"@.len() != "scheme_id"@.len());
    assert("allowed_domains"@.len() != "last_team_icon_update"@.len());
    assert("invite_id"@.len() != "allow_open_invite"@.len());
    assert("invite_id"@ != "scheme_id"@) by {
        assert("invite_id"@[0] == 'i');
        assert("scheme_id"@[0] == 's');
    }
    assert("invite_id"@.len() != "last_team_icon_update"@.len());
    assert("allow_open_invite"@.len() != "scheme_id"@.len());
    assert("allow_open_invite"@.len() != "last_team_icon_update"@.len());
    assert("scheme_id"@.len() != "last_team_icon_update"@.len());
    let fs = spec_encode_team(x)->Obj_0;
    reveal_with_fuel(spec_obj_get, 17);
    assert(spec_obj_get(fs, "id"@) == Some(JsonV::Str(x.id)));
    assert(spec_obj_get(fs, "create_at"@) == Some(JsonV::Int(x.create_at)));
    assert(spec_obj_get(fs, "update_at"@) == Some(JsonV::Int(x.update_at)));
    assert(spec_obj_get(fs, "delete_at"@) == Some(JsonV::Int(x.delete_at)));
    assert(spec_obj_get(fs, "display_name"@) == Some(JsonV::Str(x.display_name)));
    assert(spec_obj_get(fs, "name"@) == Some(JsonV::Str(x.name)));
    assert(spec_obj_get(fs, "description"@) == Some(JsonV::Str(x.description)));
    assert(spec_obj_get(fs, "email"@) == Some(JsonV::Str(x.email)));
    assert(spec_obj_get(fs, "type"@) == Some(JsonV::Str(x.type_.spec_wire_name())));
    assert(spec_obj_get(fs, "company_name"@) == Some(JsonV::Str(x.company_name)));
    assert(spec_obj_get(fs, "allowed_domains"@) == Some(JsonV::Str(x.allowed_domains)));
    assert(spec_obj_get(fs, "invite_id"@) == Some(JsonV::Str(x.invite_id)));
    assert(spec_obj_get(fs, "allow_open_invite"@) == Some(JsonV::Bool(x.allow_open_invite)));
    assert(spec_obj_get(fs, "scheme_id"@) == Some((match x.scheme_id {
            Some(s) => JsonV::Str(s),
            None => JsonV::Null,
        })));
    assert(spec_obj_get(fs, "last_team_icon_update"@) == Some((match x.last_team_icon_update {
            Some(n) => JsonV::Int(n),
            None => JsonV::Null,
        })));
    x.type_.lemma_wire_name_round_trip();
    assert(spec_decode_team(spec_encode_team(x)) == Some(x));
}

/// The `ChannelMember` an object holds.
pub open spec fn spec_decode_channel_member(v: JsonV) -> Option<ChannelMemberV> {
    match v {
        JsonV::Obj(fs) => {
            let channel_id = spec_get_str(fs, "channel_id"@);
            let user_id = spec_get_str(fs, "user_id"@);
            let roles = spec_get_roles(fs, "roles"@);
            let last_viewed_at = spec_opt_i64(fs, "last_viewed_at"@);
            let msg_count = spec_get_u32(fs, "msg_count"@);
            let mention_count = spec_get_u32(fs, "mention_count"@);
            let notify_props = (match spec_obj_get(fs, "notify_props"@) {
            Some(sub) => spec_decode_notify_props(sub),
            None => None,
        });
            let last_update_at = spec_opt_i64(fs, "last_update_at"@);
            let scheme_user = spec_get_bool(fs, "scheme_user"@);
            let scheme_admin = spec_get_bool(fs, "scheme_admin"@);
            let explicit_roles = spec_get_roles(fs, "explicit_roles"@);
            if channel_id is Some && user_id is Some && roles is Some && last_viewed_at is Some && msg_count is Some && mention_count is Some && notify_props is Some && last_update_at is Some && scheme_user is Some && scheme_admin is Some && explicit_roles is Some {
                Some(
                    ChannelMemberV {
                        channel_id: channel_id->0,
                        user_id: user_id->0,
                        roles: roles->0,
                        last_viewed_at: last_viewed_at->0,
                        msg_count: msg_count->0,
                        mention_count: mention_count->0,
                        notify_props: notify_props->0,
                        last_update_at: last_update_at->0,
                        scheme_user: scheme_user->0,
                        scheme_admin: scheme_admin->0,
                        explicit_roles: explicit_roles->0,
                    },
                )
            } else {
                None
            }
        },
        _ => None,
    }
}

/// The object form of a `ChannelMember`.
pub open spec fn spec_encode_channel_member(x: ChannelMemberV) -> JsonV {
    JsonV::Obj(
        seq![
            ("channel_id"@, JsonV::Str(x.channel_id)),
            ("user_id"@, JsonV::Str(x.user_id)),
            ("roles"@, spec_encode_roles(x.roles)),
            ("last_viewed_at"@, (match x.last_viewed_at {
            Some(n) => JsonV::Int(n),
            None => JsonV::Null,
        })),
            ("msg_count"@, JsonV::Int(x.msg_count)),
            ("mention_count"@, JsonV::Int(x.mention_count)),
            ("notify_props"@, spec_encode_notify_props(x.notify_props)),
            ("last_update_at"@, (match x.last_update_at {
            Some(n) => JsonV::Int(n),
            None => JsonV::Null,
        })),
            ("scheme_user"@, JsonV::Bool(x.scheme_user)),
            ("scheme_admin"@, JsonV::Bool(x.scheme_admin)),
            ("explicit_roles"@, spec_encode_roles(x.explicit_roles)),
        ],
    )
}

/// Decode a `ChannelMember` from a JSON value.
pub fn decode_channel_member(v: &Json) -> (r: Option<ChannelMember>)
    ensures
        r.deep_view() == spec_decode_channel_member(v@),
{
    match v {
        Json::Obj(fields) => {
            let x_channel_id = get_str(fields, "channel_id");
            let x_user_id = get_str(fields, "user_id");
            let x_roles = get_roles(fields, "roles");
            let x_last_viewed_at = opt_i64(fields, "last_viewed_at");
            let x_msg_count = get_u32(fields, "msg_count");
            let x_mention_count = get_u32(fields, "mention_count");
            let x_notify_props = match obj_get(fields, "notify_props") {
        Some(sub) => decode_notify_props(sub),
        None => None,
    };
            let x_last_update_at = opt_i64(fields, "last_update_at");
            let x_scheme_user = get_bool(fields, "scheme_user");
            let x_scheme_admin = get_bool(fields, "scheme_admin");
            let x_explicit_roles = get_roles(fields, "explicit_roles");
            if x_channel_id.is_none() {
                return None;
            }
            if x_user_id.is_none() {
                return None;
            }
            if x_roles.is_none() {
                return None;
            }
            if x_last_viewed_at.is_none() {
                return None;
            }
            if x_msg_count.is_none() {
                return None;
            }
            if x_mention_count.is_none() {
                return None;
            }
            if x_notify_props.is_none() {
                return None;
            }
            if x_last_update_at.is_none() {
                return None;
            }
            if x_scheme_user.is_none() {
                return None;
            }
            if x_scheme_admin.is_none() {
                return None;
            }
            if x_explicit_roles.is_none() {
                return None;
            }
            Some(
                ChannelMember {
                    channel_id: x_channel_id.unwrap(),
                    user_id: x_user_id.unwrap(),
                    roles: x_roles.unwrap(),
                    last_viewed_at: x_last_viewed_at.unwrap(),
                    msg_count: x_msg_count.unwrap(),
                    mention_count: x_mention_count.unwrap(),
                    notify_props: x_notify_props.unwrap(),
                    last_update_at: x_last_update_at.unwrap(),
                    scheme_user: x_scheme_user.unwrap(),
                    scheme_admin: x_scheme_admin.unwrap(),
                    explicit_roles: x_explicit_roles.unwrap(),
                },
            )
        },
        _ => None,
    }
}

/// Encode a `ChannelMember` as a JSON object.
#[verifier::rlimit(100)]
pub fn encode_channel_member(x: &ChannelMember) -> (out: Json)
    ensures
        out@ == spec_encode_channel_member(x.deep_view()),
{
    let mut fields: Vec<(String, Json)> = Vec::new();
    fields.push((String::from_str("channel_id"), Json::Str(x.channel_id.clone())));
    fields.push((String::from_str("user_id"), Json::Str(x.user_id.clone())));
    fields.push((String::from_str("roles"), encode_roles(&x.roles)));
    fields.push((String::from_str("last_viewed_at"), (match x.last_viewed_at {
        Some(n) => Json::Int(n),
        None => Json::Null,
    })));
    fields.push((String::from_str("msg_count"), Json::Int(x.msg_count as i64)));
    fields.push((String::from_str("mention_count"), Json::Int(x.mention_count as i64)));
    fields.push((String::from_str("notify_props"), encode_notify_props(&x.notify_props)));
    fields.push((String::from_str("last_update_at"), (match x.last_update_at {
        Some(n) => Json::Int(n),
        None => Json::Null,
    })));
    fields.push((String::from_str("scheme_user"), Json::Bool(x.scheme_user)));
    fields.push((String::from_str("scheme_admin"), Json::Bool(x.scheme_admin)));
    fields.push((String::from_str("explicit_roles"), encode_roles(&x.explicit_roles)));
    let out = Json::Obj(fields);
    proof {
        let fv = out->Obj_0@;
        crate::json::lemma_fields_view_index(fv);
        assert(fv.len() == 11);
        assert(fv[0].0@ == "channel_id"@ && fv[0].1@ == JsonV::Str(x.deep_view().channel_id));
        assert(fv[1].0@ == "user_id"@ && fv[1].1@ == JsonV::Str(x.deep_view().user_id));
        assert(fv[2].0@ == "roles"@ && fv[2].1@ == spec_encode_roles(x.deep_view().roles));
        assert(fv[3].0@ == "last_viewed_at"@ && fv[3].1@ == (match x.deep_view().last_viewed_at {
            Some(n) => JsonV::Int(n),
            None => JsonV::Null,
        }));
        assert(fv[4].0@ == "msg_count"@ && fv[4].1@ == JsonV::Int(x.deep_view().msg_count));
        assert(fv[5].0@ == "mention_count"@ && fv[5].1@ == JsonV::Int(x.deep_view().mention_count));
        assert(fv[6].0@ == "notify_props"@ && fv[6].1@ == spec_encode_notify_props(x.deep_view().notify_props));
        assert(fv[7].0@ == "last_update_at"@ && fv[7].1@ == (match x.deep_view().last_update_at {
            Some(n) => JsonV::Int(n),
            None => JsonV::Null,
        }));
        assert(fv[8].0@ == "scheme_user"@ && fv[8].1@ == JsonV::Bool(x.deep_view().scheme_user));
        assert(fv[9].0@ == "scheme_admin"@ && fv[9].1@ == JsonV::Bool(x.deep_view().scheme_admin));
        assert(fv[10].0@ == "explicit_roles"@ && fv[10].1@ == spec_encode_roles(x.deep_view().explicit_roles));
        assert(spec_fields_view(fv) =~= spec_encode_channel_member(x.deep_view())->Obj_0);
    }
    out
}

/// A `ChannelMember` decodes back from its encoding unchanged.
#[verifier::rlimit(100)]
pub proof fn lemma_channel_member_round_trip(x: ChannelMemberV)
    requires
        x.wf(),
    ensures
        spec_decode_channel_member(spec_encode_channel_member(x)) == Some(x),
{
    reveal_strlit("channel_id");
    reveal_strlit("explicit_roles");
    reveal_strlit("last_update_at");
    reveal_strlit("last_viewed_at");
    reveal_strlit("mention_count");
    reveal_strlit("msg_count");
    reveal_strlit("notify_props");
    reveal_strlit("roles");
    reveal_strlit("scheme_admin");
    reveal_strlit("scheme_user");
    reveal_strlit("user_id");
    assert("channel_id"@.len() != "user_id"@.len());
    assert("channel_id"@.len() != "roles"@.len());
    assert("channel_id"@.len() != "last_viewed_at"@.len());
    assert("channel_id"@.len() != "msg_count"@.len());
    assert("channel_id"@.len() != "mention_count"@.len());
    assert("channel_id"@.len() != "notify_props"@.len());
    assert("channel_id"@.len() != "last_update_at"@.len());
    assert("channel_id"@.len() != "scheme_user"@.len());
    assert("channel_id"@.len() != "scheme_admin"@.len());
    assert("channel_id"@.len() != "explicit_roles"@.len());
    assert("user_id"@.len() != "roles"@.len());
    assert("user_id"@.len() != "last_viewed_at"@.len());
    assert("user_id"@.len() != "msg_count"@.len());
    assert("user_id"@.len() != "mention_count"@.len());
    assert("user_id"@.len() != "notify_props"@.len());
    assert("user_id"@.len() != "last_update_at"@.len());
    assert("user_id"@.len() != "scheme_user"@.len());
    assert("user_id"@.len() != "scheme_admin"@.len());
    assert("user_id"@.len() != "explicit_roles"@.len());
    assert("roles"@.len() != "last_viewed_at"@.len());
    assert("roles"@.len() != "msg_count"@.len());
    assert("roles"@.len() != "mention_count"@.len());
    assert("roles"@.len() != "notify_props"@.len());
    assert("roles"@.len() != "last_update_at"@.len());
    assert("roles"@.len() != "scheme_user"@.len());
    assert("roles"@.len() != "scheme_admin"@.len());
    assert("roles"@.len() != "explicit_roles"@.len());
    assert("last_viewed_at"@.len() != "msg_count"@.len());
    assert("last_viewed_at"@.len() != "mention_count"@.len());
    assert("last_viewed_at"@.len() != "notify_props"@.len());
    assert("last_viewed_at"@ != "last_update_at"@) by {
        assert("last_viewed_at"@[5] == 'v');
        assert("last_update_at"@[5] == 'u');
    }
    assert("last_viewed_at"@.len() != "scheme_user"@.len());
    assert("last_viewed_at"@.len() != "scheme_admin"@.len());
    assert("last_viewed_at"@ != "explicit_roles"@) by {
        assert("last_viewed_at"@[0] == 'l');
        assert("explicit_roles"@[0] == 'e');
    }
    assert("msg_count"@.len() != "mention_count"@.len());
    assert("msg_count"@.len() != "notify_props"@.len());
    assert("msg_count"@.len() != "last_update_at"@.len());
    assert("msg_count"@.len() != "scheme_user"@.len());
    assert("msg_count"@.len() != "scheme_admin"@.len());
    assert("msg_count"@.len() != "explicit_roles"@.len());
    assert("mention_count"@.len() != "notify_props"@.len());
    assert("mention_count"@.len() != "last_update_at"@.len());
    assert("mention_count"@.len() != "scheme_user"@.len());
    assert("mention_count"@.len() != "scheme_admin"@.len());
    assert("mention_count"@.len() != "explicit_roles"@.len());
    assert("notify_props"@.len() != "last_update_at"@.len());
    assert("notify_props"@.len() != "scheme_user"@.len());
    assert("notify_props"@ != "scheme_admin"@) by {
        assert("notify_props"@[0] == 'n');
        assert("scheme_admin"@[0] == 's');
    }
    assert("notify_props"@.len() != "explicit_roles"@.len());
    assert("last_update_at"@.len() != "scheme_user"@.len());
    assert("last_update_at"@.len() != "scheme_admin"@.len());
    assert("last_update_at"@ != "explicit_roles"@) by {
        assert("last_update_at"@[0] == 'l');
        assert("explicit_roles"@[0] == 'e');
    }
    assert("scheme_user"@.len() != "scheme_admin"@.len());
    assert("scheme_user"@.len() != "explicit_roles"@.len());
    assert("scheme_admin"@.len() != "explicit_roles"@.len());
    let fs = spec_encode_channel_member(x)->Obj_0;
    reveal_with_fuel(spec_obj_get, 13);
    assert(spec_obj_get(fs, "channel_id"@) == Some(JsonV::Str(x.channel_id)));
    assert(spec_obj_get(fs, "user_id"@) == Some(JsonV::Str(x.user_id)));
    assert(spec_obj_get(fs, "roles"@) == Some(spec_encode_roles(x.roles)));
    assert(spec_obj_get(fs, "last_viewed_at"@) == Some((match x.last_viewed_at {
            Some(n) => JsonV::Int(n),
            None => JsonV::Null,
        })));
    assert(spec_obj_get(fs, "msg_count"@) == Some(JsonV::Int(x.msg_count)));
    assert(spec_obj_get(fs, "mention_count"@) == Some(JsonV::Int(x.mention_count)));
    assert(spec_obj_get(fs, "notify_props"@) == Some(spec_encode_notify_props(x.notify_props)));
    assert(spec_obj_get(fs, "last_update_at"@) == Some((match x.last_update_at {
            Some(n) => JsonV::Int(n),
            None => JsonV::Null,
        })));
    assert(spec_obj_get(fs, "scheme_user"@) == Some(JsonV::Bool(x.scheme_user)));
    assert(spec_obj_get(fs, "scheme_admin"@) == Some(JsonV::Bool(x.scheme_admin)));
    assert(spec_obj_get(fs, "explicit_roles"@) == Some(spec_encode_roles(x.explicit_roles)));
    lemma_roles_round_trip(x.roles);
    lemma_notify_props_round_trip(x.notify_props);
    lemma_roles_round_trip(x.explicit_roles);
    assert(spec_decode_channel_member(spec_encode_channel_member(x)) == Some(x));
}

/// The `Broadcast` an object holds.
pub open spec fn spec_decode_broadcast(v: JsonV) -> Option<BroadcastV> {
    match v {
        JsonV::Obj(fs) => {
            let omit_users = (match spec_obj_get(fs, "omit_users"@) {
            None => Some(None),
            Some(JsonV::Null) => Some(None),
            Some(JsonV::Obj(sub)) => match spec_pairs_bool_of(sub) {
                Some(x) => Some(Some(x)),
                None => None,
            },
            Some(_) => None,
        });
            let user_id = spec_get_str(fs, "user_id"@);
            let channel_id = spec_get_str(fs, "channel_id"@);
            let team_id = spec_get_str(fs, "team_id"@);
            if omit_users is Some && user_id is Some && channel_id is Some && team_id is Some {
                Some(
                    BroadcastV {
                        omit_users: omit_users->0,
                        user_id: user_id->0,
                        channel_id: channel_id->0,
                        team_id: team_id->0,
                    },
                )
            } else {
                None
            }
        },
        _ => None,
    }
}

/// The object form of a `Broadcast`.
pub open spec fn spec_encode_broadcast(x: BroadcastV) -> JsonV {
    JsonV::Obj(
        seq![
            ("omit_users"@, (match x.omit_users {
            Some(x) => spec_encode_pairs_bool(x),
            None => JsonV::Null,
        })),
            ("user_id"@, JsonV::Str(x.user_id)),
            ("channel_id"@, JsonV::Str(x.channel_id)),
            ("team_id"@, JsonV::Str(x.team_id)),
        ],
    )
}

/// Decode a `Broadcast` from a JSON value.
pub fn decode_broadcast(v: &Json) -> (r: Option<Broadcast>)
    ensures
        r.deep_view() == spec_decode_broadcast(v@),
{
    match v {
        Json::Obj(fields) => {
            let x_omit_users = match obj_get(fields, "omit_users") {
                None => Some(None),
                Some(Json::Null) => Some(None),
                Some(Json::Obj(sub)) => {
                    proof {
                        assert(spec_fields_view(sub@).skip(0) =~= spec_fields_view(sub@));
                    }
                    match pairs_bool_of(sub, 0) {
                        Some(x) => Some(Some(x)),
                        None => None,
                    }
                },
                Some(_) => None,
            };
            let x_user_id = get_str(fields, "user_id");
            let x_channel_id = get_str(fields, "channel_id");
            let x_team_id = get_str(fields, "team_id");
            if x_omit_users.is_none() {
                return None;
            }
            if x_user_id.is_none() {
                return None;
            }
            if x_channel_id.is_none() {
                return None;
            }
            if x_team_id.is_none() {
                return None;
            }
            Some(
                Broadcast {
                    omit_users: x_omit_users.unwrap(),
                    user_id: x_user_id.unwrap(),
                    channel_id: x_channel_id.unwrap(),
                    team_id: x_team_id.unwrap(),
                },
            )
        },
        _ => None,
    }
}

/// Encode a `Broadcast` as a JSON object.
pub fn encode_broadcast(x: &Broadcast) -> (out: Json)
    ensures
        out@ == spec_encode_broadcast(x.deep_view()),
{
    let mut fields: Vec<(String, Json)> = Vec::new();
    fields.push((String::from_str("omit_users"), (match &x.omit_users {
        Some(s) => encode_pairs_bool(s),
        None => Json::Null,
    })));
    fields.push((String::from_str("user_id"), Json::Str(x.user_id.clone())));
    fields.push((String::from_str("channel_id"), Json::Str(x.channel_id.clone())));
    fields.push((String::from_str("team_id"), Json::Str(x.team_id.clone())));
    let out = Json::Obj(fields);
    proof {
        let fv = out->Obj_0@;
        crate::json::lemma_fields_view_index(fv);
        assert(fv.len() == 4);
        assert(fv[0].0@ == "omit_users"@ && fv[0].1@ == (match x.deep_view().omit_users {
            Some(x) => spec_encode_pairs_bool(x),
            None => JsonV::Null,
        }));
        assert(fv[1].0@ == "user_id"@ && fv[1].1@ == JsonV::Str(x.deep_view().user_id));
        assert(fv[2].0@ == "channel_id"@ && fv[2].1@ == JsonV::Str(x.deep_view().channel_id));
        assert(fv[3].0@ == "team_id"@ && fv[3].1@ == JsonV::Str(x.deep_view().team_id));
        assert(spec_fields_view(fv) =~= spec_encode_broadcast(x.deep_view())->Obj_0);
    }
    out
}

/// A `Broadcast` decodes back from its encoding unchanged.
#[verifier::rlimit(100)]
pub proof fn lemma_broadcast_round_trip(x: BroadcastV)
    requires
        x.wf(),
    ensures
        spec_decode_broadcast(spec_encode_broadcast(x)) == Some(x),
{
    reveal_strlit("channel_id");
    reveal_strlit("omit_users");
    reveal_strlit("team_id");
    reveal_strlit("user_id");
    assert("omit_users"@.len() != "user_id"@.len());
    assert("omit_users"@ != "channel_id"@) by {
        assert("omit_users"@[0] == 'o');
        assert("channel_id"@[0] == 'c');
    }
    assert("omit_users"@.len() != "team_id"@.len());
    assert("user_id"@.len() != "channel_id"@.len());
    assert("user_id"@ != "team_id"@) by {
        assert("user_id"@[0] == 'u');
        assert("team_id"@[0] == 't');
    }
    assert("channel_id"@.len() != "team_id"@.len());
    let fs = spec_encode_broadcast(x)->Obj_0;
    reveal_with_fuel(spec_obj_get, 6);
    assert(spec_obj_get(fs, "omit_users"@) == Some((match x.omit_users {
            Some(x) => spec_encode_pairs_bool(x),
            None => JsonV::Null,
        })));
    assert(spec_obj_get(fs, "user_id"@) == Some(JsonV::Str(x.user_id)));
    assert(spec_obj_get(fs, "channel_id"@) == Some(JsonV::Str(x.channel_id)));
    assert(spec_obj_get(fs, "team_id"@) == Some(JsonV::Str(x.team_id)));
    match x.omit_users {
        Some(sub) => lemma_pairs_bool_round_trip(sub),
        None => {},
    }
    assert(spec_decode_broadcast(spec_encode_broadcast(x)) == Some(x));
}

/// A required non-negative integer field that fits the platform's size type.
pub open spec fn spec_get_usize(fs: Seq<(Seq<char>, JsonV)>, k: Seq<char>) -> Option<int> {
    match spec_obj_get(fs, k) {
        Some(JsonV::Int(n)) => if 0 <= n <= usize::MAX && n <= i64::MAX {
            Some(n)
        } else {
            None
        },
        _ => None,
    }
}

pub(crate) fn get_usize(fields: &Vec<(String, Json)>, k: &str) -> (r: Option<usize>)
    ensures
        match r {
            Some(n) => spec_get_usize(spec_fields_view(fields@), k@) == Some(n as int),
            None => spec_get_usize(spec_fields_view(fields@), k@) is None,
        },
{
    match obj_get(fields, k) {
        Some(Json::Int(n)) => if 0 <= *n && (*n as u64) <= (usize::MAX as u64) {
            Some(*n as usize)
        } else {
            None
        },
        _ => None,
    }
}

/// The string-to-string bindings an object holds, if every value is a
/// string.
pub open spec fn spec_pairs_str_of(sub: Seq<(Seq<char>, JsonV)>) -> Option<
    Seq<(Seq<char>, Seq<char>)>,
>
    decreases sub.len(),
{
    if sub.len() == 0 {
        Some(Seq::empty())
    } else {
        match sub[0].1 {
            JsonV::Str(t) => match spec_pairs_str_of(sub.drop_first()) {
                Some(r) => Some(seq![(sub[0].0, t)] + r),
                None => None,
            },
            _ => None,
        }
    }
}

pub(crate) fn pairs_str_of(sub: &Vec<(String, Json)>, i: usize) -> (r: Option<Vec<(String, String)>>)
    requires
        i <= sub@.len(),
    ensures
        match r {
            Some(v) => spec_pairs_str_of(spec_fields_view(sub@).skip(i as int)) == Some(
                v.deep_view(),
            ),
            None => spec_pairs_str_of(spec_fields_view(sub@).skip(i as int)) is None,
        },
    decreases sub@.len() - i,
{
    proof {
        crate::json::lemma_fields_view_index(sub@);
    }
    let ghost fv = spec_fields_view(sub@);
    if i == sub.len() {
        proof {
            assert(fv.skip(i as int) =~= Seq::<(Seq<char>, JsonV)>::empty());
        }
        let out: Vec<(String, String)> = Vec::new();
        proof {
            assert(out.deep_view() =~= Seq::<(Seq<char>, Seq<char>)>::empty());
        }
        Some(out)
    } else {
        proof {
            assert(fv.skip(i as int)[0] == fv[i as int]);
            assert(fv.skip(i as int).drop_first() =~= fv.skip(i + 1 as int));
        }
        match &sub[i].1 {
            Json::Str(t) => {
                match pairs_str_of(sub, i + 1) {
                    Some(rest) => {
                        let ghost oldrest = rest.deep_view();
                        let mut out = rest;
                        out.insert(0, (sub[i].0.clone(), t.clone()));
                        proof {
                            assert(out.deep_view() =~= seq![(sub@[i as int].0@, t@)] + oldrest);
                        }
                        Some(out)
                    },
                    None => None,
                }
            },
            _ => None,
        }
    }
}

/// The object form of a settings map.
pub open spec fn spec_encode_pairs_str(ps: Seq<(Seq<char>, Seq<char>)>) -> JsonV {
    JsonV::Obj(Seq::new(ps.len(), |i: int| (ps[i].0, JsonV::Str(ps[i].1))))
}

/// An encoded settings map decodes back to the same bindings.
pub proof fn lemma_pairs_str_round_trip(ps: Seq<(Seq<char>, Seq<char>)>)
    ensures
        spec_pairs_str_of(spec_encode_pairs_str(ps)->Obj_0) == Some(ps),
    decreases ps.len(),
{
    let sub = spec_encode_pairs_str(ps)->Obj_0;
    if ps.len() == 0 {
        assert(spec_pairs_str_of(sub) == Some(Seq::<(Seq<char>, Seq<char>)>::empty()));
        assert(Seq::<(Seq<char>, Seq<char>)>::empty() =~= ps);
    } else {
        lemma_pairs_str_round_trip(ps.drop_first());
        assert(sub[0] == (ps[0].0, JsonV::Str(ps[0].1)));
        assert(sub.drop_first() =~= spec_encode_pairs_str(ps.drop_first())->Obj_0);
        assert(seq![(ps[0].0, ps[0].1)] + ps.drop_first() =~= ps);
        assert((ps[0].0, ps[0].1) == ps[0]);
    }
}

pub(crate) fn encode_pairs_str(ps: &Vec<(String, String)>) -> (out: Json)
    ensures
        out@ == spec_encode_pairs_str(ps.deep_view()),
{
    let mut fields: Vec<(String, Json)> = Vec::new();
    let mut i: usize = 0;
    while i < ps.len()
        invariant
            i <= ps.len(),
            fields@.len() == i,
            forall|m: int|
                0 <= m < i ==> #[trigger] fields@[m] == (ps@[m].0, Json::Str(ps@[m].1)),
        decreases ps.len() - i,
    {
        fields.push((ps[i].0.clone(), Json::Str(ps[i].1.clone())));
        i = i + 1;
    }
    let out = Json::Obj(fields);
    proof {
        crate::json::lemma_fields_view_index(out->Obj_0@);
        assert forall|m: int| 0 <= m < ps.deep_view().len() implies spec_fields_view(out->Obj_0@)[m]
            == (ps.deep_view()[m].0, JsonV::Str(ps.deep_view()[m].1)) by {
            assert(out->Obj_0@[m] == (ps@[m].0, Json::Str(ps@[m].1)));
        }
        assert(spec_fields_view(out->Obj_0@) =~= spec_encode_pairs_str(ps.deep_view())->Obj_0);
    }
    out
}

/// The `Config` an object holds: its whole key-value text.
pub open spec fn spec_decode_config(v: JsonV) -> Option<ConfigV> {
    match v {
        JsonV::Obj(sub) => match spec_pairs_str_of(sub) {
            Some(ps) => Some(ConfigV(ps)),
            None => None,
        },
        _ => None,
    }
}

/// The object form of a `Config`.
pub open spec fn spec_encode_config(x: ConfigV) -> JsonV {
    spec_encode_pairs_str(x.0)
}

/// Decode a `Config` from a JSON value.
pub fn decode_config(v: &Json) -> (r: Option<Config>)
    ensures
        r.deep_view() == spec_decode_config(v@),
{
    match v {
        Json::Obj(sub) => {
            proof {
                assert(spec_fields_view(sub@).skip(0) =~= spec_fields_view(sub@));
            }
            match pairs_str_of(sub, 0) {
                Some(ps) => Some(Config(ps)),
                None => None,
            }
        },
        _ => None,
    }
}

/// Encode a `Config` as a JSON object.
pub fn encode_config(x: &Config) -> (out: Json)
    ensures
        out@ == spec_encode_config(x.deep_view()),
{
    encode_pairs_str(&x.0)
}

/// A `Config` decodes back from its encoding unchanged.
pub proof fn lemma_config_round_trip(x: ConfigV)
    ensures
        spec_decode_config(spec_encode_config(x)) == Some(x),
{
    lemma_pairs_str_round_trip(x.0);
}

/// Unwrap the legacy double encoding: a nested payload may arrive either as
/// a direct JSON value or as a JSON string whose content is itself JSON
/// text. Any non-string value passes through unchanged.
pub open spec fn spec_unwrap_nested(v: JsonV) -> Option<JsonV> {
    match v {
        JsonV::Str(s) => crate::json_parse::spec_parse_text(s),
        _ => Some(v),
    }
}

/// The two deliveries of a nested payload decode alike: a value parsed out
/// of a doubly-encoded string unwraps to exactly what the same value sent
/// as direct JSON unwraps to.
pub proof fn lemma_nested_forms_agree(s: Seq<char>, j: JsonV)
    requires
        crate::json_parse::spec_parse_text(s) == Some(j),
        !(j is Str),
    ensures
        spec_unwrap_nested(JsonV::Str(s)) == spec_unwrap_nested(j),
{
}

} // verus!
