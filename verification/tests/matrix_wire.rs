use ralph_robot::matrix::error::MatrixError;
use ralph_robot::matrix::wire::{
    address_room, join_by, join_failure, join_room, not_logged_in, reply_content, reply_from,
    room_from, room_unknown, sync_once, JoinBy, RawRoom,
};

#[test]
fn room_ids_are_checked() {
    assert!(address_room("!room:example.com").is_ok());
    assert_eq!(
        address_room("room:example.com").unwrap_err().message(),
        "matrix room not found: invalid room ID: leading sigil is incorrect or missing"
    );
    assert!(room_from(Ok(())).is_ok());
    assert_eq!(
        room_from(Err("why".to_string())).unwrap_err().message(),
        "matrix room not found: invalid room ID: why"
    );
    assert_eq!(room_unknown("!r:x").message(), "matrix room not found: room !r:x not found");
    assert_eq!(not_logged_in().message(), "matrix auth error: not logged in");
}

#[test]
fn rooms_are_joined_by_id_or_alias() {
    assert_eq!(join_room("!room:example.com").unwrap(), JoinBy::RoomId);
    assert_eq!(join_room("#general:example.com").unwrap(), JoinBy::Address);
    assert_eq!(
        join_room("general").unwrap_err().message(),
        "matrix room not found: invalid room ID or alias: leading sigil is incorrect or missing"
    );
    assert_eq!(join_by(Ok(()), Err("x".to_string())).unwrap(), JoinBy::RoomId);
    assert_eq!(join_by(Err("x".to_string()), Ok(())).unwrap(), JoinBy::Address);
    assert_eq!(
        join_by(Err("x".to_string()), Err("y".to_string())).unwrap_err().message(),
        "matrix room not found: invalid room ID or alias: y"
    );
    assert_eq!(join_failure("banned").message(), "matrix room not found: failed to join room: banned");
}

#[test]
fn replies_carry_their_relation() {
    let content = reply_content("yes \"sir\"", "$q1:example.com").unwrap();
    let json: serde_json::Value = serde_json::from_str(&content).unwrap();
    assert_eq!(json["msgtype"], "m.text");
    assert_eq!(json["body"], "yes \"sir\"");
    assert_eq!(json["m.relates_to"]["m.in_reply_to"]["event_id"], "$q1:example.com");
    assert_eq!(json.as_object().unwrap().len(), 3);
    let error = reply_content("yes", "q1").unwrap_err();
    assert!(matches!(error, MatrixError::SendFailed(_)));
    assert_eq!(
        error.message(),
        "matrix send error: invalid reply event ID: leading sigil is incorrect or missing"
    );
    assert!(reply_from(Err("bad".to_string()), "b", "$e").is_err());
}

fn message(id: &str, content: &str) -> String {
    format!(
        r#"{{"type":"m.room.message","sender":"@a:x","event_id":"{id}","origin_server_ts":1700,"content":{content}}}"#
    )
}

#[test]
fn raw_syncs_are_read() {
    let rooms = vec![
        RawRoom {
            room_id: "!one:x".to_string(),
            events: vec![
                message("$1", r#"{"msgtype":"m.text","body":"hello"}"#),
                message("$2", r#"{"msgtype":"m.notice","body":"beep"}"#),
                message(
                    "$3",
                    r#"{"msgtype":"m.text","body":"yes","m.relates_to":{"m.in_reply_to":{"event_id":"$q"}}}"#,
                ),
                "not json".to_string(),
                r#"{"type":"m.room.topic","sender":"@a:x","event_id":"$t","origin_server_ts":1,"state_key":"","content":{"topic":"t"}}"#.to_string(),
                message("$4", "{}"),
            ],
        },
        RawRoom {
            room_id: "!two:x".to_string(),
            events: vec![message(
                "$5",
                r#"{"msgtype":"m.text","body":"threaded","m.relates_to":{"rel_type":"m.thread","event_id":"$root","m.in_reply_to":{"event_id":"$q"},"is_falling_back":true}}"#,
            )],
        },
    ];
    let messages = sync_once(&rooms).messages;
    assert_eq!(messages.len(), 3);
    assert_eq!(messages[0].event_id, "$1");
    assert_eq!(messages[0].sender_id, "@a:x");
    assert_eq!(messages[0].body, "hello");
    assert_eq!(messages[0].timestamp, 1700);
    assert_eq!(messages[0].room_id, "!one:x");
    assert_eq!(messages[0].reply_to_event_id, None);
    assert_eq!(messages[1].event_id, "$3");
    assert_eq!(messages[1].reply_to_event_id, Some("$q".to_string()));
    assert_eq!(messages[2].room_id, "!two:x");
    assert_eq!(messages[2].reply_to_event_id, None);
}

#[test]
fn a_sent_reply_is_read_as_one() {
    let content = reply_content("fine", "$q:x").unwrap();
    let rooms = vec![RawRoom { room_id: "!r:x".to_string(), events: vec![message("$a", &content)] }];
    let messages = sync_once(&rooms).messages;
    assert_eq!(messages[0].body, "fine");
    assert_eq!(messages[0].reply_to_event_id, Some("$q:x".to_string()));
}
