//! Dispatcher tests: the notification policy against session state.

use mattermost_structs::api::ChannelType;
use mattermost_structs::dispatch::{
    format_hhmmss, handle, local_zone_offset, reply_root_id, SessionState,
};
use mattermost_structs::websocket::{
    Broadcast, Events, MessagePush, Post, PostProps, PostType, Status,
};

fn empty_props() -> PostProps {
    PostProps {
        override_icon_url: None,
        old_header: None,
        new_header: None,
        username: None,
        new_purpose: None,
        old_purpose: None,
        new_displayname: None,
        old_displayname: None,
        added_username: None,
        removed_username: None,
        add_channel_member: None,
        from_webhook: None,
        override_username: None,
        added_user_id: None,
        user_id: None,
        channel_mentions: Vec::new(),
    }
}

fn sample_post(message: &str, create_at: i64) -> Post {
    Post {
        id: "p1".to_string(),
        create_at,
        update_at: create_at,
        edit_at: 0,
        delete_at: 0,
        is_pinned: false,
        user_id: "U2".to_string(),
        channel_id: "C1".to_string(),
        root_id: String::new(),
        parent_id: String::new(),
        original_id: String::new(),
        message: message.to_string(),
        type_: PostType::UserMessage,
        props: empty_props(),
        hashtags: Vec::new(),
        pending_post_id: String::new(),
        file_ids: Vec::new(),
        has_reactions: None,
    }
}

fn posted_push(
    channel_type: ChannelType,
    mentions: Option<Vec<String>>,
    omit_users: Option<Vec<(String, bool)>>,
) -> MessagePush {
    MessagePush {
        event: Events::Posted {
            channel_display_name: "town-square".to_string(),
            channel_name: "town-square".to_string(),
            channel_type,
            post: sample_post("hello there", 0),
            sender_name: "bob".to_string(),
            team_id: "T1".to_string(),
            mentions,
            image: None,
            other_file: None,
        },
        broadcast: Broadcast {
            omit_users,
            user_id: "U2".to_string(),
            channel_id: "C1".to_string(),
            team_id: "T1".to_string(),
        },
        seq: 1,
    }
}

fn state_with_own(own: &str, status: Status) -> SessionState {
    SessionState { own_id: Some(own.to_string()), status }
}

#[test]
fn mentioned_in_open_channel_notifies() {
    let push = posted_push(ChannelType::Open, Some(vec!["U1".to_string()]), None);
    let mut st = state_with_own("U1", Status::Online);
    let r = handle(&push, &mut st, "work");
    let req = r.expect("a notification is produced");
    assert!(req.text.starts_with("work bob in town-square:\n"));
    assert!(req.text.contains("hello there"));
}

#[test]
fn direct_message_names_only_the_sender() {
    let push = posted_push(ChannelType::DirectMessage, Some(vec!["U1".to_string()]), None);
    let mut st = state_with_own("U1", Status::Online);
    let r = handle(&push, &mut st, "work");
    let req = r.expect("a notification is produced");
    assert!(req.text.starts_with("work bob:\n"));
}

#[test]
fn do_not_disturb_mutes_even_direct_messages() {
    let push = posted_push(ChannelType::DirectMessage, Some(vec!["U1".to_string()]), None);
    let mut st = state_with_own("U1", Status::DoNotDisturb);
    assert!(handle(&push, &mut st, "work").is_none());
}

#[test]
fn suppression_map_wins_over_mentions() {
    let push = posted_push(
        ChannelType::Open,
        Some(vec!["U1".to_string()]),
        Some(vec![("U1".to_string(), true)]),
    );
    let mut st = state_with_own("U1", Status::Online);
    assert!(handle(&push, &mut st, "work").is_none());
}

#[test]
fn absent_mentions_are_silent() {
    let push = posted_push(ChannelType::Open, None, None);
    let mut st = state_with_own("U1", Status::Online);
    assert!(handle(&push, &mut st, "work").is_none());
}

#[test]
fn unmentioned_post_is_silent() {
    let push = posted_push(ChannelType::Open, Some(vec!["U3".to_string()]), None);
    let mut st = state_with_own("U1", Status::Online);
    assert!(handle(&push, &mut st, "work").is_none());
}

#[test]
fn internal_channel_kind_is_suppressed() {
    let push = posted_push(ChannelType::Internal, Some(vec!["U1".to_string()]), None);
    let mut st = state_with_own("U1", Status::Online);
    assert!(handle(&push, &mut st, "work").is_none());
}

#[test]
fn hello_records_own_id_and_stays_silent() {
    let push = MessagePush {
        event: Events::Hello { server_version: "5.9.0".to_string() },
        broadcast: Broadcast {
            omit_users: None,
            user_id: "U1".to_string(),
            channel_id: String::new(),
            team_id: String::new(),
        },
        seq: 1,
    };
    let mut st = SessionState::new();
    assert!(st.own_id.is_none());
    assert!(handle(&push, &mut st, "work").is_none());
    assert_eq!(st.own_id, Some("U1".to_string()));
}

#[test]
fn status_change_updates_only_own_presence() {
    let mk = |uid: &str| MessagePush {
        event: Events::StatusChange {
            status: Status::DoNotDisturb,
            user_id: uid.to_string(),
        },
        broadcast: Broadcast {
            omit_users: None,
            user_id: uid.to_string(),
            channel_id: String::new(),
            team_id: String::new(),
        },
        seq: 2,
    };
    let mut st = state_with_own("U1", Status::Online);
    assert!(handle(&mk("U9"), &mut st, "work").is_none());
    assert_eq!(st.status, Status::Online);
    assert!(handle(&mk("U1"), &mut st, "work").is_none());
    assert_eq!(st.status, Status::DoNotDisturb);
}

#[test]
fn clock_formatting_is_exact() {
    assert_eq!(format_hhmmss(0, 0), "00:00:00");
    assert_eq!(format_hhmmss(3_661_000, 0), "01:01:01");
    assert_eq!(format_hhmmss(0, 3600), "01:00:00");
    assert_eq!(format_hhmmss(0, -3600), "23:00:00");
    assert_eq!(format_hhmmss(86_399_999, 0), "23:59:59");
}

#[test]
fn zone_offset_follows_the_table() {
    // mid-June: summer time, two hours ahead of UTC
    let summer = local_zone_offset(1_624_017_600_000);
    assert_eq!(summer, 7200);
    // mid-January: standard time, one hour ahead
    let winter = local_zone_offset(1_610_712_000_000);
    assert_eq!(winter, 3600);
    let noon_utc_june = 1_624_017_600_000;
    assert_eq!(format_hhmmss(noon_utc_june, summer), "14:00:00");
}

#[test]
fn reply_thread_selection() {
    let mut p = sample_post("m", 0);
    assert_eq!(reply_root_id(&p), "p1");
    p.root_id = "r9".to_string();
    assert_eq!(reply_root_id(&p), "r9");
}
