//! Wire-codec tests: parsing, rendering, envelope decoding, the
//! double-encoding quirk, and hashtag sets.

use mattermost_structs::api::ChannelType;
use mattermost_structs::codec::{decode_post, encode_post};
use mattermost_structs::events::{decode_frame, encode_frame, DecodeError};
use mattermost_structs::json::{render_json_string, Json};
use mattermost_structs::json_parse::parse_json_text;
use mattermost_structs::text::{join_tokens, split_tokens};
use mattermost_structs::websocket::{
    Broadcast, Events, Message, MessagePush, Post, PostProps, PostType,
};

fn empty_props() -> PostProps {
    PostProps {
        override_icon_url: None,
        old_header: None,
        new_header: None,
        username: None,
        new_purpose: None,
        old_purpose: None,
        new_displayname: None,
        old_displayname: None,
        added_username: None,
        removed_username: None,
        add_channel_member: None,
        from_webhook: None,
        override_username: None,
        added_user_id: None,
        user_id: None,
        channel_mentions: Vec::new(),
    }
}

fn sample_post() -> Post {
    Post {
        id: "p1".to_string(),
        create_at: 1624017600000,
        update_at: 1624017600000,
        edit_at: 0,
        delete_at: 0,
        is_pinned: false,
        user_id: "U2".to_string(),
        channel_id: "C1".to_string(),
        root_id: String::new(),
        parent_id: String::new(),
        original_id: String::new(),
        message: "hi @alice".to_string(),
        type_: PostType::UserMessage,
        props: empty_props(),
        hashtags: vec!["#a".to_string(), "#b".to_string()],
        pending_post_id: String::new(),
        file_ids: Vec::new(),
        has_reactions: None,
    }
}

fn sample_broadcast() -> Broadcast {
    Broadcast {
        omit_users: None,
        user_id: "U2".to_string(),
        channel_id: "C1".to_string(),
        team_id: "T1".to_string(),
    }
}

#[test]
fn parses_scalars() {
    assert!(matches!(parse_json_text("null"), Some(Json::Null)));
    assert!(matches!(parse_json_text("true"), Some(Json::Bool(true))));
    assert!(matches!(parse_json_text("false"), Some(Json::Bool(false))));
    assert!(matches!(parse_json_text("42"), Some(Json::Int(42))));
    assert!(matches!(parse_json_text("-7"), Some(Json::Int(-7))));
    assert!(matches!(parse_json_text(" 1624017600000 "), Some(Json::Int(1624017600000))));
    assert!(parse_json_text("nul").is_none());
    assert!(parse_json_text("01").is_none());
    assert!(parse_json_text("{").is_none());
}

#[test]
fn parses_strings_with_escapes() {
    match parse_json_text("\"a\\n\\\"b\\\\c\\u0041\"") {
        Some(Json::Str(s)) => assert_eq!(s, "a\n\"b\\cA"),
        other => panic!("unexpected {:?}", other.is_some()),
    }
    // surrogate pair
    match parse_json_text("\"\\uD83D\\uDE00\"") {
        Some(Json::Str(s)) => assert_eq!(s, "\u{1F600}"),
        _ => panic!("surrogate pair did not parse"),
    }
    // lone surrogate fails
    assert!(parse_json_text("\"\\uD83D\"").is_none());
}

#[test]
fn parses_collections() {
    match parse_json_text("[1, 2, 3]") {
        Some(Json::Arr(els)) => assert_eq!(els.len(), 3),
        _ => panic!("array did not parse"),
    }
    match parse_json_text("{\"a\": 1, \"b\": [true, null]}") {
        Some(Json::Obj(fs)) => {
            assert_eq!(fs.len(), 2);
            assert_eq!(fs[0].0, "a");
        },
        _ => panic!("object did not parse"),
    }
}

#[test]
fn keeps_fractional_numbers_as_text() {
    match parse_json_text("1.5") {
        Some(Json::NumText(s)) => assert_eq!(s, "1.5"),
        _ => panic!("fractional number should be kept as text"),
    }
    match parse_json_text("1e10") {
        Some(Json::NumText(s)) => assert_eq!(s, "1e10"),
        _ => panic!("exponent number should be kept as text"),
    }
}

#[test]
fn render_parse_round_trip() {
    let texts = [
        "null",
        "true",
        "-12345",
        "\"hello world\"",
        "[1,\"two\",null,false]",
        "{\"k\":\"v\",\"n\":7,\"inner\":{\"a\":[]}}",
    ];
    for t in texts {
        let j = parse_json_text(t).expect("parse");
        let rendered = render_json_string(&j);
        let j2 = parse_json_text(&rendered).expect("reparse");
        assert_eq!(rendered, render_json_string(&j2));
    }
}

#[test]
fn serde_json_agrees_with_renderer() {
    let j = parse_json_text("{\"k\":\"v\",\"n\":-7,\"a\":[true,null]}").expect("parse");
    let rendered = render_json_string(&j);
    let sj: serde_json::Value = serde_json::from_str(&rendered).expect("serde_json parse");
    assert_eq!(sj["k"], serde_json::Value::String("v".to_string()));
    assert_eq!(sj["n"], serde_json::Value::from(-7));
    assert_eq!(sj["a"][0], serde_json::Value::Bool(true));
}

#[test]
fn posted_frame_round_trips() {
    let m = Message::Push(MessagePush {
        event: Events::Posted {
            channel_display_name: "town-square".to_string(),
            channel_name: "town-square".to_string(),
            channel_type: ChannelType::Open,
            post: sample_post(),
            sender_name: "bob".to_string(),
            team_id: "T1".to_string(),
            mentions: Some(vec!["U1".to_string()]),
            image: None,
            other_file: None,
        },
        broadcast: sample_broadcast(),
        seq: 12,
    });
    let text = encode_frame(&m).expect("encodable");
    let back = decode_frame(&text).expect("decodes");
    match back {
        Message::Push(p) => {
            assert_eq!(p.seq, 12);
            match p.event {
                Events::Posted { post, mentions, channel_type, sender_name, .. } => {
                    assert_eq!(post.message, "hi @alice");
                    assert_eq!(post.create_at, 1624017600000);
                    assert_eq!(post.hashtags, vec!["#a".to_string(), "#b".to_string()]);
                    assert_eq!(mentions, Some(vec!["U1".to_string()]));
                    assert_eq!(channel_type, ChannelType::Open);
                    assert_eq!(sender_name, "bob");
                },
                _ => panic!("wrong event kind"),
            }
        },
        _ => panic!("expected a push"),
    }
    // a second encode of the decoded message reproduces the same frame
    let back2 = decode_frame(&text).expect("decodes");
    assert_eq!(encode_frame(&back2).expect("encodable"), text);
}

#[test]
fn unknown_tag_decodes_to_ignored() {
    let text = "{\"event\":\"brand_new_kind\",\"data\":{\"x\":1.5,\"y\":[{}]},\
                \"broadcast\":{\"omit_users\":null,\"user_id\":\"U9\",\
                \"channel_id\":\"C\",\"team_id\":\"T\"},\"seq\":3}";
    match decode_frame(text) {
        Ok(Message::Push(p)) => {
            assert!(matches!(p.event, Events::Ignored));
            assert_eq!(p.seq, 3);
            assert_eq!(p.broadcast.user_id, "U9");
        },
        _ => panic!("unknown tag must still decode"),
    }
}

#[test]
fn reply_frame_decodes() {
    match decode_frame("{\"status\":\"OK\",\"seq_reply\":1}") {
        Ok(Message::Reply(r)) => assert_eq!(r.seq_reply, 1),
        _ => panic!("reply did not decode"),
    }
    assert!(matches!(
        decode_frame("{\"status\":\"FAIL\",\"seq_reply\":1}"),
        Err(DecodeError::Shape)
    ));
}

#[test]
fn decode_failures_are_classified() {
    assert!(matches!(decode_frame("not json at all"), Err(DecodeError::Syntax)));
    assert!(matches!(decode_frame("[1,2,3]"), Err(DecodeError::Shape)));
    assert!(matches!(decode_frame("{\"seq\":1}"), Err(DecodeError::Shape)));
}

#[test]
fn double_encoded_and_direct_payloads_agree() {
    let post_json = render_json_string(&encode_post(&sample_post()));
    let direct = format!(
        "{{\"event\":\"post_edited\",\"data\":{{\"post\":{}}},\
         \"broadcast\":{{\"omit_users\":null,\"user_id\":\"U2\",\
         \"channel_id\":\"C1\",\"team_id\":\"T1\"}},\"seq\":5}}",
        post_json
    );
    // the legacy form carries the post as a JSON string holding JSON text
    let embedded_literal =
        render_json_string(&Json::Str(post_json.clone()));
    let doubly = format!(
        "{{\"event\":\"post_edited\",\"data\":{{\"post\":{}}},\
         \"broadcast\":{{\"omit_users\":null,\"user_id\":\"U2\",\
         \"channel_id\":\"C1\",\"team_id\":\"T1\"}},\"seq\":5}}",
        embedded_literal
    );
    let a = decode_frame(&direct).expect("direct decodes");
    let b = decode_frame(&doubly).expect("doubly decodes");
    let ea = encode_frame(&a).expect("encodable");
    let eb = encode_frame(&b).expect("encodable");
    assert_eq!(ea, eb);
    match a {
        Message::Push(p) => match p.event {
            Events::PostEdited { post } => assert_eq!(post.message, "hi @alice"),
            _ => panic!("wrong kind"),
        },
        _ => panic!("expected push"),
    }
}

#[test]
fn hashtag_sets_decode_and_encode() {
    assert_eq!(
        split_tokens("#a #b"),
        vec!["#a".to_string(), "#b".to_string()]
    );
    assert_eq!(split_tokens(""), Vec::<String>::new());
    assert_eq!(split_tokens("   "), Vec::<String>::new());
    assert_eq!(split_tokens("#a  #a #b"), vec!["#a".to_string(), "#b".to_string()]);
    let joined = join_tokens(&vec!["#a".to_string(), "#b".to_string()]);
    assert_eq!(joined, "#a #b");
    assert_eq!(split_tokens(&joined), vec!["#a".to_string(), "#b".to_string()]);
    // null and empty hashtag fields decode to the empty set through the codec
    let text = "{\"event\":\"post_edited\",\"data\":{\"post\":{\
        \"id\":\"p\",\"create_at\":0,\"update_at\":0,\"edit_at\":0,\"delete_at\":0,\
        \"is_pinned\":false,\"user_id\":\"u\",\"channel_id\":\"c\",\"root_id\":\"\",\
        \"parent_id\":\"\",\"original_id\":\"\",\"message\":\"m\",\"type\":\"\",\
        \"props\":{},\"hashtags\":null,\"pending_post_id\":\"\"}},\
        \"broadcast\":{\"omit_users\":null,\"user_id\":\"u\",\"channel_id\":\"c\",\
        \"team_id\":\"t\"},\"seq\":1}";
    match decode_frame(text) {
        Ok(Message::Push(p)) => match p.event {
            Events::PostEdited { post } => assert!(post.hashtags.is_empty()),
            _ => panic!("wrong kind"),
        },
        _ => panic!("frame did not decode"),
    }
}

#[test]
fn status_change_and_hello_decode() {
    let hello = "{\"event\":\"hello\",\"data\":{\"server_version\":\"5.9.0\"},\
        \"broadcast\":{\"omit_users\":null,\"user_id\":\"U1\",\"channel_id\":\"\",\
        \"team_id\":\"\"},\"seq\":1}";
    match decode_frame(hello) {
        Ok(Message::Push(p)) => match p.event {
            Events::Hello { server_version } => assert_eq!(server_version, "5.9.0"),
            _ => panic!("wrong kind"),
        },
        _ => panic!("hello did not decode"),
    }
    let sc = "{\"event\":\"status_change\",\"data\":{\"status\":\"dnd\",\
        \"user_id\":\"U1\"},\"broadcast\":{\"omit_users\":null,\"user_id\":\"U1\",\
        \"channel_id\":\"\",\"team_id\":\"\"},\"seq\":2}";
    match decode_frame(sc) {
        Ok(Message::Push(p)) => match p.event {
            Events::StatusChange { status, user_id } => {
                assert_eq!(status, mattermost_structs::websocket::Status::DoNotDisturb);
                assert_eq!(user_id, "U1");
            },
            _ => panic!("wrong kind"),
        },
        _ => panic!("status change did not decode"),
    }
}

#[test]
fn user_updated_with_roles_decodes() {
    let text = "{\"event\":\"user_updated\",\"data\":{\"user\":{\
        \"id\":\"U5\",\"create_at\":0,\"update_at\":0,\"delete_at\":0,\
        \"username\":\"carol\",\"first_name\":\"\",\"last_name\":\"\",\
        \"nickname\":\"\",\"email\":\"c@example.org\",\"auth_data\":\"\",\
        \"auth_service\":\"\",\"position\":\"\",\
        \"roles\":\"system_user system_admin\",\"locale\":\"en\"}},\
        \"broadcast\":{\"omit_users\":null,\"user_id\":\"U5\",\"channel_id\":\"\",\
        \"team_id\":\"\"},\"seq\":4}";
    match decode_frame(text) {
        Ok(Message::Push(p)) => match p.event {
            Events::UserUpdated { user } => {
                assert_eq!(user.username, "carol");
                assert_eq!(
                    user.roles,
                    vec![
                        mattermost_structs::api::UserRole::SystemUser,
                        mattermost_structs::api::UserRole::SystemAdmin,
                    ]
                );
            },
            _ => panic!("wrong kind"),
        },
        _ => panic!("user update did not decode"),
    }
}

#[test]
fn group_added_accepts_doubly_encoded_ids() {
    let text = "{\"event\":\"group_added\",\"data\":{\
        \"teammate_ids\":\"[\\\"a\\\",\\\"b\\\"]\"},\
        \"broadcast\":{\"omit_users\":null,\"user_id\":\"\",\"channel_id\":\"\",\
        \"team_id\":\"\"},\"seq\":9}";
    match decode_frame(text) {
        Ok(Message::Push(p)) => match p.event {
            Events::GroupAdded { teammate_ids } => {
                assert_eq!(teammate_ids, vec!["a".to_string(), "b".to_string()]);
            },
            _ => panic!("wrong kind"),
        },
        _ => panic!("group added did not decode"),
    }
}

#[test]
fn config_changed_keeps_settings() {
    let text = "{\"event\":\"config_changed\",\"data\":{\"config\":{\
        \"SiteName\":\"work\",\"Version\":\"5.9\"}},\
        \"broadcast\":{\"omit_users\":null,\"user_id\":\"\",\"channel_id\":\"\",\
        \"team_id\":\"\"},\"seq\":2}";
    match decode_frame(text) {
        Ok(Message::Push(p)) => match p.event {
            Events::ConfigChanged { config } => {
                assert_eq!(config.0.len(), 2);
                assert_eq!(config.0[0], ("SiteName".to_string(), "work".to_string()));
            },
            _ => panic!("wrong kind"),
        },
        _ => panic!("config change did not decode"),
    }
}

#[test]
fn reaction_frames_round_trip() {
    let text = "{\"event\":\"reaction_added\",\"data\":{\"reaction\":{\
        \"user_id\":\"U1\",\"post_id\":\"P1\",\"emoji_name\":\"+1\",\
        \"create_at\":1000}},\"broadcast\":{\"omit_users\":null,\"user_id\":\"U1\",\
        \"channel_id\":\"C\",\"team_id\":\"T\"},\"seq\":6}";
    let m = decode_frame(text).expect("decodes");
    let re = encode_frame(&m).expect("encodable");
    let m2 = decode_frame(&re).expect("re-decodes");
    assert_eq!(encode_frame(&m2).expect("encodable"), re);
    match m2 {
        Message::Push(p) => match p.event {
            Events::ReactionAdded { reaction } => {
                assert_eq!(reaction.emoji_name, "+1");
                assert_eq!(reaction.create_at, 1000);
            },
            _ => panic!("wrong kind"),
        },
        _ => panic!("expected push"),
    }
}

#[test]
fn control_characters_render_escaped() {
    let j = Json::Str("a\tb\nc\u{1}".to_string());
    let rendered = render_json_string(&j);
    assert_eq!(rendered, "\"a\\tb\\nc\\u0001\"");
    match parse_json_text(&rendered) {
        Some(Json::Str(s)) => assert_eq!(s, "a\tb\nc\u{1}"),
        _ => panic!("escaped string did not reparse"),
    }
}
