use ralph_robot::rocketchat::client::{
    get_room_info, is_success, map_status_error, request_result, status_error, Answer, MockCall,
    MockRocketChatClient, RocketChatClient, RoomEndpoint, RoomStep,
};
use ralph_robot::rocketchat::error::RocketChatError;
use ralph_robot::rocketchat::types::{RcRoom, RcUser};

#[test]
fn map_status_error_401_returns_auth() {
    let err = map_status_error(401, "bad token");
    assert!(matches!(err, RocketChatError::Auth(_)));
    assert!(err.message().contains("401"));
}

#[test]
fn map_status_error_404_returns_not_found() {
    let err = map_status_error(404, "no such room");
    assert!(matches!(err, RocketChatError::NotFound(_)));
    assert!(err.message().contains("404"));
}

#[test]
fn map_status_error_429_returns_rate_limit() {
    let err = map_status_error(429, "slow down");
    assert!(matches!(err, RocketChatError::RateLimit(_)));
    assert!(err.message().contains("429"));
}

#[test]
fn map_status_error_500_returns_server() {
    let err = map_status_error(500, "oops");
    assert!(matches!(err, RocketChatError::Server(_)));
    assert!(err.message().contains("500"));
}

#[test]
fn map_status_error_502_returns_server() {
    let err = map_status_error(502, "gateway error");
    assert!(matches!(err, RocketChatError::Server(_)));
    assert!(err.message().contains("502"));
}

#[test]
fn map_status_error_other_returns_server() {
    let err = map_status_error(400, "bad request");
    assert!(matches!(err, RocketChatError::Server(_)));
    assert!(err.message().contains("unexpected"));
}

#[test]
fn statuses_are_displayed_with_their_reason() {
    assert_eq!(
        map_status_error(502, "b").message(),
        "rocket.chat server error: HTTP 502 Bad Gateway: b"
    );
    assert_eq!(
        map_status_error(400, "b").message(),
        "rocket.chat server error: unexpected HTTP 400 Bad Request: b"
    );
    assert_eq!(
        map_status_error(599, "b").message(),
        "rocket.chat server error: HTTP 599 <unknown status code>: b"
    );
    assert_eq!(
        map_status_error(600, "b").message(),
        "rocket.chat server error: unexpected HTTP 600 <unknown status code>: b"
    );
    assert_eq!(status_error(401, "x", "b").message(), "rocket.chat auth error: HTTP 401: b");
    for status in 100u16..=999 {
        let shown = reqwest::StatusCode::from_u16(status).unwrap();
        let words = map_status_error(status, "b").message();
        if ![401, 404, 429].contains(&status) {
            assert!(words.ends_with(&format!("HTTP {shown}: b")), "{words}");
        }
        assert_eq!(is_success(status), shown.is_success());
    }
}

#[test]
fn mock_send_message_default_response() {
    let mut mock = MockRocketChatClient::new();
    let msg = mock.send_message("room-1", "hello", None).unwrap();
    assert_eq!(msg.rid, "room-1");
    assert_eq!(msg.msg, "hello");
    assert!(msg.tmid.is_none());
}

#[test]
fn mock_send_message_with_thread_id() {
    let mut mock = MockRocketChatClient::new();
    let msg = mock.send_message("room-1", "reply", Some("thread-42")).unwrap();
    assert_eq!(msg.tmid, Some("thread-42".to_string()));
}

#[test]
fn mock_sync_messages_default_empty() {
    let mut mock = MockRocketChatClient::new();
    let result = mock.sync_messages("room-1", "2026-01-01").unwrap();
    assert!(result.updated.is_empty());
    assert!(result.deleted.is_empty());
}

#[test]
fn mock_get_me_default_response() {
    let mut mock = MockRocketChatClient::new();
    let user = mock.get_me().unwrap();
    assert_eq!(user.id, "bot-user");
    assert_eq!(user.username, "mock-bot");
}

#[test]
fn mock_get_room_info_default_response() {
    let mut mock = MockRocketChatClient::new();
    let room = mock.get_room_info("room-abc").unwrap();
    assert_eq!(room.id, "room-abc");
    assert_eq!(room.t, "c");
}

#[test]
fn client_mock_enqueued_responses_consumed_fifo() {
    let mut mock = MockRocketChatClient::new();

    let user1 = RcUser {
        id: "first".to_string(),
        username: "first".to_string(),
        name: None,
    };
    let user2 = RcUser {
        id: "second".to_string(),
        username: "second".to_string(),
        name: None,
    };

    mock.on_get_me(Ok(user1));
    mock.on_get_me(Ok(user2));

    let r1 = mock.get_me().unwrap();
    assert_eq!(r1.id, "first");

    let r2 = mock.get_me().unwrap();
    assert_eq!(r2.id, "second");

    let r3 = mock.get_me().unwrap();
    assert_eq!(r3.id, "bot-user");
}

#[test]
fn client_mock_enqueued_error_response() {
    let mut mock = MockRocketChatClient::new();
    mock.on_send_message(Err(RocketChatError::Auth("forbidden".to_string())));

    let result = mock.send_message("room-1", "text", None);
    assert!(result.is_err());
    assert!(matches!(result.unwrap_err(), RocketChatError::Auth(_)));
}

#[test]
fn client_mock_records_calls() {
    let mut mock = MockRocketChatClient::new();
    let _ = mock.send_message("room-1", "hi", None);
    let _ = mock.get_me();
    let _ = mock.sync_messages("room-2", "ts");
    let _ = mock.get_room_info("room-3");

    let calls = mock.calls();
    assert_eq!(calls.len(), 4);

    assert!(
        matches!(&calls[0], MockCall::SendMessage { room_id, text, thread_id }
            if room_id == "room-1" && text == "hi" && thread_id.is_none())
    );
    assert!(matches!(&calls[1], MockCall::GetMe));
    assert!(
        matches!(&calls[2], MockCall::SyncMessages { room_id, last_update }
            if room_id == "room-2" && last_update == "ts")
    );
    assert!(matches!(&calls[3], MockCall::GetRoomInfo { room_id } if room_id == "room-3"));
}

#[test]
fn client_mock_call_count_tracks_correctly() {
    let mut mock = MockRocketChatClient::new();
    assert_eq!(mock.call_count(), 0);

    let _ = mock.send_message("r", "t", None);
    assert_eq!(mock.call_count(), 1);

    let _ = mock.get_me();
    assert_eq!(mock.call_count(), 2);

    let _ = mock.sync_messages("r", "ts");
    let _ = mock.get_room_info("r");
    assert_eq!(mock.call_count(), 4);
}

#[test]
fn endpoints_hang_below_the_server() {
    let client = RocketChatClient::new("https://chat.example.com//", "tok", "bot");
    assert_eq!(client.endpoint("me"), "https://chat.example.com/api/v1/me");
    assert_eq!(client.auth_token, "tok");
    assert_eq!(client.bot_user_id, "bot");
}

#[test]
fn messages_carry_their_thread() {
    let body: serde_json::Value =
        serde_json::from_str(&RocketChatClient::message_body("r1", "hi \"you\"", Some("t9"))).unwrap();
    assert_eq!(body["message"]["rid"], "r1");
    assert_eq!(body["message"]["msg"], "hi \"you\"");
    assert_eq!(body["message"]["tmid"], "t9");
    let body: serde_json::Value =
        serde_json::from_str(&RocketChatClient::message_body("r1", "hi", None)).unwrap();
    assert!(body["message"].get("tmid").is_none());
}

fn room() -> RcRoom {
    RcRoom { id: "r".to_string(), t: "c".to_string(), name: None, fname: None }
}

#[test]
fn rooms_are_searched_at_three_paths() {
    assert_eq!(RoomEndpoint::Channels.path(), "channels.info");
    assert_eq!(RoomEndpoint::Groups.path(), "groups.info");
    assert_eq!(RoomEndpoint::Direct.path(), "im.info");
    let refused = || Answer::Refused { status: 404, body: "no".to_string() };
    assert!(matches!(
        get_room_info(RoomEndpoint::Channels, refused()),
        RoomStep::Ask(RoomEndpoint::Groups)
    ));
    assert!(matches!(
        get_room_info(RoomEndpoint::Groups, Answer::Unreadable("x".to_string())),
        RoomStep::Ask(RoomEndpoint::Direct)
    ));
    assert!(matches!(
        get_room_info(RoomEndpoint::Direct, refused()),
        RoomStep::Done(Err(RocketChatError::NotFound(_)))
    ));
    assert!(matches!(
        get_room_info(RoomEndpoint::Direct, Answer::Unreadable("x".to_string())),
        RoomStep::Done(Err(RocketChatError::Deserialize(_)))
    ));
    assert!(matches!(
        get_room_info(RoomEndpoint::Channels, Answer::Unreachable("x".to_string())),
        RoomStep::Done(Err(RocketChatError::Receive(_)))
    ));
    match get_room_info(RoomEndpoint::Groups, Answer::Found(room())) {
        RoomStep::Done(Ok(found)) => assert_eq!(found.id, "r"),
        other => panic!("unexpected step {other:?}"),
    }
}

#[test]
fn requests_fail_in_their_way() {
    assert_eq!(request_result(true, Answer::Found(7)).unwrap(), 7);
    let unreachable = || Answer::<u8>::Unreachable("dns".to_string());
    assert!(matches!(request_result(true, unreachable()), Err(RocketChatError::Send(_))));
    assert!(matches!(request_result(false, unreachable()), Err(RocketChatError::Receive(_))));
    let unreadable = Answer::<u8>::Unreadable("eof".to_string());
    assert!(matches!(request_result(true, unreadable), Err(RocketChatError::Deserialize(_))));
    let refused = Answer::<u8>::Refused { status: 401, body: "who?".to_string() };
    assert!(matches!(request_result(false, refused), Err(RocketChatError::Auth(_))));
}

#[test]
fn rocketchat_errors_have_words() {
    let cause = || "c".to_string();
    let words = |error: RocketChatError| error.message();
    assert_eq!(words(RocketChatError::Auth(cause())), "rocket.chat auth error: c");
    assert_eq!(words(RocketChatError::Send(cause())), "rocket.chat send error: c");
    assert_eq!(words(RocketChatError::Receive(cause())), "rocket.chat receive error: c");
    assert_eq!(words(RocketChatError::NotFound(cause())), "rocket.chat not found: c");
    assert_eq!(words(RocketChatError::RateLimit(cause())), "rocket.chat rate limited: c");
    assert_eq!(words(RocketChatError::Server(cause())), "rocket.chat server error: c");
    assert_eq!(words(RocketChatError::Deserialize(cause())), "rocket.chat deserialization error: c");
    assert_eq!(words(RocketChatError::State(cause())), "state persistence error: c");
    assert_eq!(words(RocketChatError::StateParse(cause())), "state parse error: c");
    assert_eq!(words(RocketChatError::EventWrite(cause())), "event write error: c");
    assert_eq!(words(RocketChatError::Startup(cause())), "rocket.chat startup error: c");
}
