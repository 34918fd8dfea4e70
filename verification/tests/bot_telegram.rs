use ralph_robot::bot::telegram::{
    api_url, chat_id_in, message_body, parse_answer, resolve_chat_id, save_telegram_state,
    telegram_get_me, telegram_send_message, UpdatePolling, STATE_FILE,
};
use ralph_robot::json::{self, Json};

fn parsed(text: &str) -> Json {
    json::parse(text).unwrap()
}

#[test]
fn test_save_telegram_state_creates_file() {
    let read_content = save_telegram_state(123_456_789);

    assert_eq!(STATE_FILE, ".ralph/telegram-state.json");
    let parsed: serde_json::Value = serde_json::from_str(&read_content).unwrap();
    assert_eq!(
        parsed.get("chat_id").unwrap().as_i64().unwrap(),
        123_456_789
    );
    assert!(parsed.get("pending_questions").unwrap().is_object());
}

#[test]
fn telegram_state_is_printed_over_lines() {
    let content = save_telegram_state(-5);
    assert!(content.ends_with("}\n"), "{content}");
    assert!(content.starts_with("{\n  \"chat_id\": -5,"), "{content}");
    assert_eq!(resolve_chat_id(Some(&content)), Some(-5));
}

#[test]
fn test_telegram_get_me_parses_response() {
    let body = parsed(
        r#"{
                "ok": true,
                "result": {
                    "id": 123456,
                    "is_bot": true,
                    "first_name": "Ralph Bot",
                    "username": "ralph_test_bot"
                }
            }"#,
    );

    let info = telegram_get_me(true, &body).unwrap();

    assert_eq!(info.first_name, "Ralph Bot");
    assert_eq!(info.username, "ralph_test_bot");
}

#[test]
fn telegram_get_me_fills_in_names() {
    let info = telegram_get_me(true, &parsed(r#"{"ok": true, "result": {}}"#)).unwrap();
    assert_eq!(info.first_name, "Unknown");
    assert_eq!(info.username, "unknown_bot");
    let info = telegram_get_me(true, &parsed(r#"{"ok": true, "result": {"username": 3}}"#)).unwrap();
    assert_eq!(info.username, "unknown_bot");
}

#[test]
fn telegram_get_me_reports_errors() {
    let refused = |success: bool, text: &str| telegram_get_me(success, &parsed(text)).unwrap_err();
    assert_eq!(
        refused(false, r#"{"ok": true, "result": {}}"#),
        "Telegram API error: Unknown error"
    );
    assert_eq!(
        refused(true, r#"{"ok": 1, "description": "Nope"}"#),
        "Telegram API error: Nope"
    );
    assert_eq!(refused(true, r#"{"ok": true}"#), "Missing 'result' in Telegram response");
}

#[test]
fn test_telegram_get_updates_parses_message() {
    let body = parsed(
        r#"{
                "ok": true,
                "result": [{
                    "update_id": 100,
                    "message": {
                        "message_id": 1,
                        "from": {
                            "id": 999,
                            "first_name": "John",
                            "last_name": "Doe"
                        },
                        "chat": {
                            "id": 999,
                            "type": "private"
                        },
                        "text": "hello"
                    }
                }]
            }"#,
    );

    let mut polling = UpdatePolling::new(60);
    assert!(UpdatePolling::accepts(&body));
    let update = polling.read_answer(&body).unwrap();
    assert_eq!(update.chat_id, 999);
    assert_eq!(update.from_name, "John Doe");
    assert_eq!(polling.offset, Some(101));
}

#[test]
fn updates_without_a_chat_are_passed_over() {
    let body = parsed(
        r#"{"result": [
            {"update_id": 7},
            {"message": {"chat": {"id": "x"}}},
            {"update_id": 9, "message": {"chat": {"id": 4}, "from": {"last_name": "Only"}}},
            {"update_id": 12, "message": {"chat": {"id": 5}}}
        ]}"#,
    );
    let mut polling = UpdatePolling::new(60);
    let update = polling.read_answer(&body).unwrap();
    assert_eq!(update.chat_id, 4);
    assert_eq!(update.from_name, "Unknown");
    assert_eq!(polling.offset, Some(10));

    let mut polling = UpdatePolling::new(60);
    assert!(polling.read_answer(&parsed(r#"{"result": [{"update_id": 7}]}"#)).is_none());
    assert_eq!(polling.offset, Some(8));
    assert!(polling.read_answer(&parsed(r#"{"ok": false}"#)).is_none());
    assert_eq!(polling.offset, Some(8));
}

#[test]
fn the_last_update_id_is_not_accepted() {
    let body = parsed(r#"{"result": [{"update_id": 9223372036854775807}]}"#);
    assert!(!UpdatePolling::accepts(&body));
    let body = parsed(r#"{"result": [{"update_id": 9223372036854775806}]}"#);
    assert!(UpdatePolling::accepts(&body));
}

#[test]
fn polls_take_what_time_is_left() {
    let mut polling = UpdatePolling::new(120);
    let request = polling.next_request("tok", 100).unwrap();
    assert_eq!(request.url, "https://api.telegram.org/bottok/getUpdates?timeout=30");
    assert_eq!(request.timeout_secs, 40);
    polling.offset = Some(8);
    let request = polling.next_request("tok", 3).unwrap();
    assert_eq!(request.url, "https://api.telegram.org/bottok/getUpdates?timeout=3&offset=8");
    assert_eq!(request.timeout_secs, 13);
    assert!(polling.next_request("tok", 0).is_none());
    assert_eq!(polling.timed_out(), "Timed out waiting for a message (120s)");
    assert_eq!(UpdatePolling::new(5).next_request("t", 100).unwrap().timeout_secs, 15);
}

#[test]
fn test_telegram_send_message_payload() {
    let payload: serde_json::Value =
        serde_json::from_str(&message_body(123_456_789_i64, "Hello from Ralph!")).unwrap();

    assert_eq!(payload["chat_id"].as_i64().unwrap(), 123_456_789);
    assert_eq!(payload["text"].as_str().unwrap(), "Hello from Ralph!");
}

#[test]
fn test_telegram_error_response_parsing() {
    let body = parsed(
        r#"{
                "ok": false,
                "error_code": 401,
                "description": "Unauthorized"
            }"#,
    );

    assert_eq!(
        telegram_send_message(&body).unwrap_err(),
        "Telegram sendMessage failed: Unauthorized"
    );
    assert_eq!(
        telegram_get_me(true, &body).unwrap_err(),
        "Telegram API error: Unauthorized"
    );
    assert!(telegram_send_message(&parsed(r#"{"ok": true}"#)).is_ok());
}

#[test]
fn test_resolve_chat_id_reads_state_file() {
    assert_eq!(
        resolve_chat_id(Some(r#"{"chat_id": 4242, "pending_questions": {}}"#)),
        Some(4242)
    );
}

#[test]
fn test_resolve_chat_id_missing_file_returns_none() {
    assert_eq!(resolve_chat_id(None), None);
}

#[test]
fn test_resolve_chat_id_invalid_json_returns_none() {
    assert_eq!(resolve_chat_id(Some("not-json")), None);
}

#[test]
fn chat_ids_are_whole_numbers() {
    assert_eq!(resolve_chat_id(Some(r#"{"chat_id": 1.5}"#)), None);
    assert_eq!(resolve_chat_id(Some(r#"{"chat_id": "1"}"#)), None);
    assert_eq!(resolve_chat_id(Some(r#"{"chat_id": 18446744073709551615}"#)), None);
    assert_eq!(chat_id_in(&parsed(r#"{"chat_id": -100123}"#)), Some(-100123));
}

#[test]
fn answers_are_documents() {
    assert!(telegram_send_message(&parse_answer(r#"{"ok": true}"#).unwrap()).is_ok());
    assert_eq!(
        parse_answer("<html>").err().unwrap(),
        "Failed to parse Telegram API response"
    );
}

#[test]
fn methods_have_urls() {
    assert_eq!(api_url("1:a", "sendMessage"), "https://api.telegram.org/bot1:a/sendMessage");
}

#[test]
fn json_objects_keep_the_last_of_equal_keys() {
    assert_eq!(resolve_chat_id(Some(r#"{"chat_id": 1, "chat_id": 2}"#)), Some(2));
}
