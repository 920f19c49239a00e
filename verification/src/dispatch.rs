//! The notification decision: consume one decoded push against the session
//! state and produce at most one outbound notification request. All delivery
//! is the caller's concern; nothing here performs I/O.

use crate::api::ChannelType;
use crate::text::{chars_to_string, contains_string, spec_digit_char};
use crate::websocket::{Events, EventsV, MessagePush, MessagePushV, Post, Status};
use chrono::Offset;
use chrono::TimeZone;
use vstd::prelude::*;
use vstd::string::StrSliceExecFns;

verus! {

/// Per-connection mutable state: the account's own id, learned from the
/// connection-established event, and its current presence.
pub struct SessionState {
    pub own_id: Option<String>,
    pub status: Status,
}

/// The model of a `SessionState`.
#[verifier::ext_equal]
pub struct SessionStateV {
    pub own_id: Option<Seq<char>>,
    pub status: Status,
}

impl DeepView for SessionState {
    type V = SessionStateV;

    open spec fn deep_view(&self) -> SessionStateV {
        SessionStateV { own_id: self.own_id.deep_view(), status: self.status }
    }
}

impl SessionStateV {
    /// The state each fresh connection starts from: no identity yet, and
    /// presence defaulting to online.
    pub open spec fn initial() -> SessionStateV {
        SessionStateV { own_id: None, status: Status::Online }
    }
}

impl SessionState {
    /// A fresh connection's state.
    pub fn new() -> (r: SessionState)
        ensures
            r.deep_view() == SessionStateV::initial(),
    {
        SessionState { own_id: None, status: Status::Online }
    }
}

/// An outbound notification request: the text to hand to the delivery
/// collaborator.
pub struct NotificationRequest {
    pub text: String,
}

/// The session state after one push: connection-established records the
/// broadcast account id as the own id; a presence change for the own
/// account overwrites the stored presence; nothing else changes it.
pub open spec fn spec_next_state(p: MessagePushV, st: SessionStateV) -> SessionStateV {
    match p.event {
        EventsV::Hello { .. } => SessionStateV { own_id: Some(p.broadcast.user_id), ..st },
        EventsV::StatusChange { status, user_id } => if st.own_id == Some(user_id) {
            SessionStateV { status, ..st }
        } else {
            st
        },
        _ => st,
    }
}

/// The first binding of `k` in a suppression map.
pub open spec fn spec_lookup_bool(m: Seq<(Seq<char>, bool)>, k: Seq<char>) -> Option<bool>
    decreases m.len(),
{
    if m.len() == 0 {
        None
    } else if m[0].0 == k {
        Some(m[0].1)
    } else {
        spec_lookup_bool(m.drop_first(), k)
    }
}

/// Whether the push's suppression map marks the own account for omission.
pub open spec fn spec_suppressed(p: MessagePushV, st: SessionStateV) -> bool {
    match st.own_id {
        Some(oid) => match p.broadcast.omit_users {
            Some(m) => spec_lookup_bool(m, oid) == Some(true),
            None => false,
        },
        None => false,
    }
}

/// Whether a mention list names the own account.
pub open spec fn spec_mentioned(mentions: Option<Seq<Seq<char>>>, own: Option<Seq<char>>) -> bool {
    match mentions {
        Some(ms) => match own {
            Some(oid) => ms.contains(oid),
            None => false,
        },
        None => false,
    }
}

/// Relies on chrono-tz (the Europe/Berlin table) with chrono: the zone's
/// UTC offset at an instant depends on the instant alone.
pub uninterp spec fn zone_offset_seconds(ts_millis: int) -> int;

/// Relies on chrono-tz with chrono: the configured zone's UTC offset at the
/// given instant, in seconds; chrono bounds every offset to less than one
/// day in magnitude.
#[verifier::external_body]
pub fn local_zone_offset(ts_millis: i64) -> (r: i32)
    ensures
        r as int == zone_offset_seconds(ts_millis as int),
        -86400 < r < 86400,
{
    match chrono_tz::Europe::Berlin.timestamp_millis_opt(ts_millis) {
        chrono::LocalResult::Single(dt) => dt.offset().fix().local_minus_utc(),
        _ => 0,
    }
}

/// Two decimal digits.
pub open spec fn spec_two_digits(n: int) -> Seq<char> {
    seq![spec_digit_char(n / 10), spec_digit_char(n % 10)]
}

/// The clock reading `HH:MM:SS` of an instant in a zone with the given
/// offset; instants before the epoch are clamped to it.
pub open spec fn spec_hhmmss(ts_millis: int, offset_secs: int) -> Seq<char> {
    let t = if ts_millis < 0 {
        0
    } else {
        ts_millis
    };
    let day = (t / 1000 + offset_secs + 86400) % 86400;
    spec_two_digits(day / 3600) + seq![':'] + spec_two_digits((day % 3600) / 60) + seq![':']
        + spec_two_digits(day % 60)
}

fn push_two_digits(n: u64, out: &mut Vec<char>)
    requires
        n < 100,
    ensures
        final(out)@ == old(out)@ + spec_two_digits(n as int),
{
    let hi: u8 = (n / 10) as u8;
    let lo: u8 = (n % 10) as u8;
    let hc: char = (48 + hi) as char;
    let lc: char = (48 + lo) as char;
    assert(hc == spec_digit_char(n as int / 10));
    assert(lc == spec_digit_char(n as int % 10));
    out.push(hc);
    out.push(lc);
    assert(final(out)@ =~= old(out)@ + spec_two_digits(n as int));
}

/// Format an instant as `HH:MM:SS` local clock time.
pub fn format_hhmmss(ts_millis: i64, offset_secs: i32) -> (r: String)
    requires
        -86400 < offset_secs < 86400,
    ensures
        r@ == spec_hhmmss(ts_millis as int, offset_secs as int),
{
    let t: u64 = if ts_millis < 0 {
        0
    } else {
        ts_millis as u64
    };
    let tsec: u64 = t / 1000;
    let day: u64 = (tsec + (offset_secs + 86400) as u64) % 86400;
    proof {
        let ti = if ts_millis < 0 {
            0
        } else {
            ts_millis as int
        };
        assert(tsec as int == ti / 1000);
        assert(day as int == (ti / 1000 + offset_secs + 86400) % 86400);
    }
    let mut out: Vec<char> = Vec::new();
    push_two_digits(day / 3600, &mut out);
    out.push(':');
    push_two_digits((day % 3600) / 60, &mut out);
    out.push(':');
    push_two_digits(day % 60, &mut out);
    proof {
        assert(out@ =~= spec_hhmmss(ts_millis as int, offset_secs as int));
    }
    chars_to_string(&out)
}

/// The notification text for a post, or nothing for the internal channel
/// kind, which is never user-facing. Direct and group messages name only
/// the sender; open and private channels name the channel too.
pub open spec fn spec_notification_text(
    server: Seq<char>,
    sender: Seq<char>,
    channel: Seq<char>,
    channel_type: ChannelType,
    message: Seq<char>,
    create_at: int,
) -> Option<Seq<char>> {
    let time = spec_hhmmss(create_at, zone_offset_seconds(create_at));
    match channel_type {
        ChannelType::DirectMessage => Some(
            server + seq![' '] + sender + seq![':', '\n'] + message + seq!['\n', '@'] + time,
        ),
        ChannelType::Group => Some(
            server + seq![' '] + sender + seq![':', '\n'] + message + seq!['\n', '@'] + time,
        ),
        ChannelType::Open => Some(
            server + seq![' '] + sender + seq![' ', 'i', 'n', ' '] + channel + seq![':', '\n']
                + message + seq!['\n', '@'] + time,
        ),
        ChannelType::Private => Some(
            server + seq![' '] + sender + seq![' ', 'i', 'n', ' '] + channel + seq![':', '\n']
                + message + seq!['\n', '@'] + time,
        ),
        ChannelType::Internal => None,
    }
}

/// The notification, if any, that one push produces against the state it
/// found: suppression is consulted before anything else; only a posted
/// message that mentions the own account notifies; do-not-disturb mutes
/// everything.
pub open spec fn spec_handle_notification(
    p: MessagePushV,
    st: SessionStateV,
    server: Seq<char>,
) -> Option<Seq<char>> {
    match p.event {
        EventsV::Hello { .. } => None,
        EventsV::StatusChange { .. } => None,
        _ => {
            if spec_suppressed(p, st) {
                None
            } else {
                match p.event {
                    EventsV::Posted {
                        channel_display_name,
                        channel_type,
                        post,
                        sender_name,
                        mentions,
                        ..
                    } => {
                        if !spec_mentioned(mentions, st.own_id) {
                            None
                        } else if st.status == Status::DoNotDisturb {
                            None
                        } else {
                            spec_notification_text(
                                server,
                                sender_name,
                                channel_display_name,
                                channel_type,
                                post.message,
                                post.create_at,
                            )
                        }
                    },
                    _ => None,
                }
            }
        },
    }
}

fn lookup_bool(m: &Vec<(String, bool)>, k: &str) -> (r: Option<bool>)
    ensures
        r == spec_lookup_bool(m.deep_view(), k@),
{
    let ghost mv = m.deep_view();
    proof {
        assert(mv.skip(0) =~= mv);
    }
    let mut i: usize = 0;
    while i < m.len()
        invariant
            i <= m.len(),
            mv == m.deep_view(),
            mv.len() == m@.len(),
            spec_lookup_bool(mv, k@) == spec_lookup_bool(mv.skip(i as int), k@),
        decreases m.len() - i,
    {
        proof {
            assert(mv.skip(i as int)[0] == mv[i as int]);
            assert(mv.skip(i as int).drop_first() =~= mv.skip(i + 1 as int));
        }
        if crate::json::str_eq(m[i].0.as_str(), k) {
            return Some(m[i].1);
        }
        i = i + 1;
    }
    proof {
        assert(mv.skip(m@.len() as int) =~= Seq::<(Seq<char>, bool)>::empty());
    }
    None
}

/// Handle one decoded push: update the session state and decide whether it
/// warrants a notification. The own account id, once set, is never cleared.
pub fn handle(p: &MessagePush, st: &mut SessionState, servername: &str) -> (r: Option<
    NotificationRequest,
>)
    ensures
        final(st).deep_view() == spec_next_state(p.deep_view(), old(st).deep_view()),
        (match r {
            Some(n) => Some(n.text@),
            None => None,
        }) == spec_handle_notification(p.deep_view(), old(st).deep_view(), servername@),
        old(st).deep_view().own_id is Some ==> final(st).deep_view().own_id is Some,
{
    match &p.event {
        Events::Hello { .. } => {
            st.own_id = Some(p.broadcast.user_id.clone());
            return None;
        },
        Events::StatusChange { status, user_id } => {
            let update = match &st.own_id {
                Some(oid) => crate::json::str_eq(oid.as_str(), user_id.as_str()),
                None => false,
            };
            if update {
                st.status = *status;
            }
            return None;
        },
        _ => {},
    }
    let suppressed = match &st.own_id {
        Some(oid) => match &p.broadcast.omit_users {
            Some(omit) => {
                match lookup_bool(omit, oid.as_str()) {
                    Some(true) => true,
                    _ => false,
                }
            },
            None => false,
        },
        None => false,
    };
    if suppressed {
        return None;
    }
    match &p.event {
        Events::Posted {
            channel_display_name, channel_type, post, sender_name, mentions, ..
        } => {
            let mentioned = match (mentions, &st.own_id) {
                (Some(ms), Some(oid)) => contains_string(ms, oid),
                _ => false,
            };
            if !mentioned {
                return None;
            }
            if st.status == Status::DoNotDisturb {
                return None;
            }
            let off = local_zone_offset(post.create_at);
            let time = format_hhmmss(post.create_at, off);
            proof {
                reveal_strlit(" ");
                reveal_strlit(":\n");
                reveal_strlit(" in ");
                reveal_strlit("\n@");
                assert(" "@ =~= seq![' ']);
                assert(":\n"@ =~= seq![':', '\n']);
                assert(" in "@ =~= seq![' ', 'i', 'n', ' ']);
                assert("\n@"@ =~= seq!['\n', '@']);
            }
            match channel_type {
                ChannelType::DirectMessage | ChannelType::Group => {
                    let mut text = String::new();
                    text.append(servername);
                    text.append(" ");
                    text.append(sender_name.as_str());
                    text.append(":\n");
                    text.append(post.message.as_str());
                    text.append("\n@");
                    text.append(time.as_str());
                    proof {
                        assert(text@ =~= servername@ + seq![' '] + sender_name@ + seq![':', '\n']
                            + post.message@ + seq!['\n', '@'] + time@);
                    }
                    Some(NotificationRequest { text })
                },
                ChannelType::Open | ChannelType::Private => {
                    let mut text = String::new();
                    text.append(servername);
                    text.append(" ");
                    text.append(sender_name.as_str());
                    text.append(" in ");
                    text.append(channel_display_name.as_str());
                    text.append(":\n");
                    text.append(post.message.as_str());
                    text.append("\n@");
                    text.append(time.as_str());
                    proof {
                        assert(text@ =~= servername@ + seq![' '] + sender_name@ + seq![' ', 'i', 'n', ' ']
                            + channel_display_name@ + seq![':', '\n'] + post.message@
                            + seq!['\n', '@'] + time@);
                    }
                    Some(NotificationRequest { text })
                },
                ChannelType::Internal => None,
            }
        },
        _ => None,
    }
}

/// Whether the account should answer its own post: the post was written by
/// the own account and opens with the trigger word.
pub open spec fn spec_reply_wanted(st: SessionStateV, post: crate::websocket::PostV) -> bool {
    st.own_id == Some(post.user_id) && post.message.len() >= 3 && post.message.subrange(0, 3)
        == "@me"@
}

/// Decide whether a posted message calls for the automatic reply.
pub fn reply_is_wanted(st: &SessionState, post: &Post) -> (r: bool)
    ensures
        r == spec_reply_wanted(st.deep_view(), post.deep_view()),
{
    let own = match (&st.own_id, ()) {
        (Some(oid), ()) => crate::json::str_eq(oid.as_str(), post.user_id.as_str()),
        _ => false,
    };
    if !own {
        return false;
    }
    let n = post.message.as_str().unicode_len();
    if n < 3 {
        return false;
    }
    let head = post.message.as_str().substring_char(0, 3);
    crate::json::str_eq(head, "@me")
}

/// The thread a reply to `post` belongs in: the post's own thread when it
/// has one, else the post itself.
pub fn reply_root_id(post: &Post) -> (r: String)
    ensures
        post.root_id@.len() > 0 ==> r@ == post.root_id@,
        post.root_id@.len() == 0 ==> r@ == post.id@,
{
    if post.root_id.as_str().is_empty() {
        post.id.clone()
    } else {
        post.root_id.clone()
    }
}

/// A posted message that mentions the own account, with no suppression, in
/// an open or private channel, and with presence other than do-not-disturb,
/// always produces the in-channel notification text.
pub proof fn lemma_mentioned_in_channel_notifies(
    p: MessagePushV,
    st: SessionStateV,
    server: Seq<char>,
)
    requires
        p.event matches EventsV::Posted { channel_type, mentions, .. } && (channel_type
            == ChannelType::Open || channel_type == ChannelType::Private) && spec_mentioned(
            mentions,
            st.own_id,
        ),
        !spec_suppressed(p, st),
        st.status != Status::DoNotDisturb,
    ensures
        spec_handle_notification(p, st, server) matches Some(text) && (match p.event {
            EventsV::Posted { channel_display_name, sender_name, .. } => exists|rest: Seq<char>|
                text == server + seq![' '] + sender_name + seq![' ', 'i', 'n', ' ']
                    + channel_display_name + seq![':', '\n'] + rest,
            _ => false,
        }),
{
    match p.event {
        EventsV::Posted { channel_display_name, channel_type, post, sender_name, .. } => {
            let time = spec_hhmmss(post.create_at, zone_offset_seconds(post.create_at));
            let rest = post.message + seq!['\n', '@'] + time;
            let text = spec_handle_notification(p, st, server)->0;
            assert(text =~= server + seq![' '] + sender_name + seq![' ', 'i', 'n', ' ']
                + channel_display_name + seq![':', '\n'] + rest);
        },
        _ => {},
    }
}

/// Do-not-disturb mutes every notification, whatever the channel kind.
pub proof fn lemma_do_not_disturb_mutes(p: MessagePushV, st: SessionStateV, server: Seq<char>)
    requires
        st.status == Status::DoNotDisturb,
    ensures
        spec_handle_notification(p, st, server) is None,
{
}

/// A suppression map that marks the own account silences the push,
/// regardless of mentions or anything else.
pub proof fn lemma_suppression_wins(p: MessagePushV, st: SessionStateV, server: Seq<char>)
    requires
        spec_suppressed(p, st),
    ensures
        spec_handle_notification(p, st, server) is None,
{
}

/// A posted message with no mention list never notifies.
pub proof fn lemma_absent_mentions_silent(p: MessagePushV, st: SessionStateV, server: Seq<char>)
    requires
        p.event matches EventsV::Posted { mentions, .. } && mentions is None,
    ensures
        spec_handle_notification(p, st, server) is None,
{
}

} // verus!
