use ralph_robot::matrix::client::{
    collect_messages, display_name, JoinedRoom, MessageRelation, MockCall, MockMatrixClient,
    TimelineItem,
};
use ralph_robot::matrix::error::MatrixError;
use ralph_robot::matrix::types::{MatrixMessage, SyncResult};
use std::time::Duration;

#[test]
fn mock_login_default_success() {
    let mut mock = MockMatrixClient::new();
    let result = mock.login("https://matrix.example.com", "bot", "pass");
    assert!(result.is_ok());
}

#[test]
fn mock_login_with_token_default_success() {
    let mut mock = MockMatrixClient::new();
    let result = mock.login_with_token("https://matrix.example.com", "syt_token");
    assert!(result.is_ok());
}

#[test]
fn mock_send_message_default_returns_event_id() {
    let mut mock = MockMatrixClient::new();
    let event_id = mock.send_message("!room:example.com", "hello", None).unwrap();
    assert!(event_id.starts_with("$mock-event-"));
}

#[test]
fn mock_send_message_with_reply_to() {
    let mut mock = MockMatrixClient::new();
    let event_id = mock
        .send_message("!room:example.com", "reply", Some("$original-event"))
        .unwrap();
    assert!(event_id.starts_with("$mock-event-"));

    let calls = mock.calls();
    assert!(
        matches!(&calls[0], MockCall::SendMessage { reply_to_event_id, .. }
            if *reply_to_event_id == Some("$original-event".to_string()))
    );
}

#[test]
fn mock_sync_once_default_empty() {
    let mut mock = MockMatrixClient::new();
    let result = mock.sync_once(Duration::from_secs(30)).unwrap();
    assert!(result.messages.is_empty());
}

#[test]
fn mock_get_display_name_default() {
    let mut mock = MockMatrixClient::new();
    let name = mock.get_display_name().unwrap();
    assert_eq!(name, "Mock Bot");
}

#[test]
fn mock_get_room_info_default() {
    let mut mock = MockMatrixClient::new();
    let info = mock.get_room_info("!room:example.com").unwrap();
    assert_eq!(info.room_id, "!room:example.com");
    assert_eq!(info.name, Some("mock-room".to_string()));
    assert_eq!(info.member_count, 2);
}

#[test]
fn mock_join_room_default() {
    let mut mock = MockMatrixClient::new();
    let room_id = mock.join_room("!room:example.com").unwrap();
    assert_eq!(room_id.as_str(), "!mock-room:localhost");
}

#[test]
fn mock_enqueued_responses_consumed_fifo() {
    let mut mock = MockMatrixClient::new();

    mock.on_get_display_name(Ok("First Name".to_string()));
    mock.on_get_display_name(Ok("Second Name".to_string()));

    let r1 = mock.get_display_name().unwrap();
    assert_eq!(r1, "First Name");

    let r2 = mock.get_display_name().unwrap();
    assert_eq!(r2, "Second Name");

    let r3 = mock.get_display_name().unwrap();
    assert_eq!(r3, "Mock Bot");
}

#[test]
fn mock_enqueued_error_response() {
    let mut mock = MockMatrixClient::new();
    mock.on_send_message(Err(MatrixError::SendFailed("test error".to_string())));

    let result = mock.send_message("!room:example.com", "text", None);
    assert!(result.is_err());
    assert!(matches!(result.unwrap_err(), MatrixError::SendFailed(_)));
}

#[test]
fn mock_enqueued_sync_with_messages() {
    let mut mock = MockMatrixClient::new();
    let sync_result = SyncResult {
        messages: vec![MatrixMessage {
            sender_id: "@alice:example.com".to_string(),
            body: "hello from alice".to_string(),
            event_id: "$evt-1".to_string(),
            timestamp: 1_700_000_000_000,
            room_id: "!room:example.com".to_string(),
            reply_to_event_id: None,
        }],
    };
    mock.on_sync_once(Ok(sync_result));

    let result = mock.sync_once(Duration::from_secs(10)).unwrap();
    assert_eq!(result.messages.len(), 1);
    assert_eq!(result.messages[0].sender_id, "@alice:example.com");
    assert_eq!(result.messages[0].body, "hello from alice");
}

#[test]
fn mock_records_calls() {
    let mut mock = MockMatrixClient::new();
    let _ = mock.login("https://hs.example.com", "bot", "pass");
    let _ = mock.send_message("!room:example.com", "hi", None);
    let _ = mock.get_display_name();
    let _ = mock.sync_once(Duration::from_secs(30));
    let _ = mock.get_room_info("!room:example.com");
    let _ = mock.join_room("#general:example.com");

    let calls = mock.calls();
    assert_eq!(calls.len(), 6);

    assert!(matches!(
        &calls[0],
        MockCall::Login {
            homeserver_url,
            username
        } if homeserver_url == "https://hs.example.com" && username == "bot"
    ));
    assert!(matches!(
        &calls[1],
        MockCall::SendMessage {
            room_id,
            body,
            reply_to_event_id,
        } if room_id == "!room:example.com" && body == "hi" && reply_to_event_id.is_none()
    ));
    assert!(matches!(&calls[2], MockCall::GetDisplayName));
    assert!(matches!(
        &calls[3],
        MockCall::SyncOnce { timeout } if *timeout == Duration::from_secs(30)
    ));
    assert!(matches!(
        &calls[4],
        MockCall::GetRoomInfo { room_id } if room_id == "!room:example.com"
    ));
    assert!(matches!(
        &calls[5],
        MockCall::JoinRoom { room_id_or_alias } if room_id_or_alias == "#general:example.com"
    ));
}

#[test]
fn mock_call_count_tracks_correctly() {
    let mut mock = MockMatrixClient::new();
    assert_eq!(mock.call_count(), 0);

    let _ = mock.send_message("!r:example.com", "t", None);
    assert_eq!(mock.call_count(), 1);

    let _ = mock.get_display_name();
    assert_eq!(mock.call_count(), 2);

    let _ = mock.sync_once(Duration::from_secs(5));
    let _ = mock.get_room_info("!r:example.com");
    assert_eq!(mock.call_count(), 4);
}

#[test]
fn mock_login_enqueued_error() {
    let mut mock = MockMatrixClient::new();
    mock.on_login(Err(MatrixError::Auth("bad creds".to_string())));

    let result = mock.login("https://hs.example.com", "bot", "pass");
    assert!(result.is_err());
    assert!(matches!(result.unwrap_err(), MatrixError::Auth(_)));
}

#[test]
fn every_mock_method_takes_its_responses() {
    let mut mock = MockMatrixClient::new();
    mock.on_login_with_token(Err(MatrixError::Network("down".to_string())));
    mock.on_get_room_info(Err(MatrixError::RoomNotFound("!r".to_string())));
    mock.on_join_room(Ok("!joined:x".to_string()));
    assert!(mock.login("h", "u", "p").is_ok());
    assert!(matches!(mock.login_with_token("h", "t"), Err(MatrixError::Network(_))));
    assert!(matches!(mock.get_room_info("!r"), Err(MatrixError::RoomNotFound(_))));
    assert_eq!(mock.join_room("#a").unwrap(), "!joined:x");
    assert!(matches!(
        &mock.calls()[1],
        MockCall::LoginWithToken { homeserver_url } if homeserver_url == "h"
    ));
}

// ── Timelines ───────────────────────────────────────────────────────────

fn said(id: &str, relation: MessageRelation) -> TimelineItem {
    TimelineItem::Text {
        sender_id: "@a:x".to_string(),
        body: format!("body of {id}"),
        event_id: id.to_string(),
        timestamp: 7,
        relation,
    }
}

#[test]
fn only_texts_are_collected() {
    let rooms = vec![
        JoinedRoom {
            room_id: "!one".to_string(),
            events: vec![
                said("$1", MessageRelation::Unrelated),
                TimelineItem::OtherMessage,
                said("$2", MessageRelation::ReplyTo("$q".to_string())),
            ],
        },
        JoinedRoom { room_id: "!none".to_string(), events: vec![TimelineItem::OtherEvent] },
        JoinedRoom {
            room_id: "!two".to_string(),
            events: vec![said("$3", MessageRelation::Otherwise)],
        },
    ];
    let messages = collect_messages(&rooms).messages;
    assert_eq!(messages.len(), 3);
    assert_eq!(messages[0].event_id, "$1");
    assert_eq!(messages[0].reply_to_event_id, None);
    assert_eq!(messages[0].body, "body of $1");
    assert_eq!(messages[0].timestamp, 7);
    assert_eq!(messages[1].reply_to_event_id, Some("$q".to_string()));
    assert_eq!(messages[1].room_id, "!one");
    assert_eq!(messages[2].reply_to_event_id, None);
    assert_eq!(messages[2].room_id, "!two");
}

#[test]
fn display_names_fall_back() {
    let text = |s: &str| Some(s.to_string());
    assert_eq!(display_name(text("Bot"), text("@bot:x")), "Bot");
    assert_eq!(display_name(None, text("@bot:x")), "@bot:x");
    assert_eq!(display_name(None, None), "unknown");
}

#[test]
fn errors_have_words() {
    let cause = || "c".to_string();
    let words = |error: MatrixError| error.message();
    assert_eq!(words(MatrixError::Auth(cause())), "matrix auth error: c");
    assert_eq!(words(MatrixError::Network(cause())), "matrix network error: c");
    assert_eq!(words(MatrixError::RoomNotFound(cause())), "matrix room not found: c");
    assert_eq!(words(MatrixError::SendFailed(cause())), "matrix send error: c");
    assert_eq!(words(MatrixError::SyncFailed(cause())), "matrix sync error: c");
    assert_eq!(words(MatrixError::State(cause())), "state persistence error: c");
    assert_eq!(words(MatrixError::StateParse(cause())), "state parse error: c");
    assert_eq!(words(MatrixError::EventWrite(cause())), "event write error: c");
    assert_eq!(words(MatrixError::Startup(cause())), "matrix startup error: c");
}
