use ralph_robot::matrix::error::MatrixError;
use ralph_robot::matrix::handler::{HandleResult, Handling, MessageHandler};
use ralph_robot::matrix::state::{MatrixState, PendingQuestion, StateManager};
use ralph_robot::matrix::types::{
    drop_named, filter_by_operator, keep_operator, keep_room, MatrixMessage,
};
use ralph_robot::place::Location;
use ralph_robot::table::TextMap;
use std::path::PathBuf;

fn path_of(location: &Location) -> PathBuf {
    let mut path = location.base.clone();
    for part in &location.parts {
        path = path.join(part);
    }
    path
}

fn sent_by(event_id: &str, sender: &str) -> MatrixMessage {
    MatrixMessage {
        sender_id: sender.to_string(),
        body: "hello".to_string(),
        event_id: event_id.to_string(),
        timestamp: 1_700_000_000_000,
        room_id: "!room:example.com".to_string(),
        reply_to_event_id: None,
    }
}

#[test]
fn filter_by_operator_returns_only_operator_messages() {
    let messages = vec![
        sent_by("$e1", "@operator:example.com"),
        sent_by("$e2", "@other:example.com"),
        sent_by("$e3", "@operator:example.com"),
    ];
    let filtered = filter_by_operator(&messages, "@operator:example.com");
    assert_eq!(filtered.len(), 2);
    assert_eq!(filtered[0].event_id, "$e1");
    assert_eq!(filtered[1].event_id, "$e3");
}

#[test]
fn filter_by_operator_returns_empty_for_no_matches() {
    let messages = vec![
        sent_by("$e1", "@other:example.com"),
        sent_by("$e2", "@another:example.com"),
    ];
    let filtered = filter_by_operator(&messages, "@operator:example.com");
    assert!(filtered.is_empty());
}

#[test]
fn filter_by_operator_handles_empty_input() {
    let filtered = filter_by_operator(&[], "@operator:example.com");
    assert!(filtered.is_empty());
}

#[test]
fn other_filters_keep_the_order() {
    let mut elsewhere = sent_by("$e2", "@a:x");
    elsewhere.room_id = "!other:x".to_string();
    let messages = vec![sent_by("$e1", "@bot:x"), elsewhere, sent_by("$e3", "@a:x")];
    let ids = |kept: Vec<MatrixMessage>| -> Vec<String> {
        kept.into_iter().map(|m| m.event_id).collect()
    };
    assert_eq!(ids(keep_room(&messages, "!room:example.com")), vec!["$e1", "$e3"]);
    assert_eq!(ids(drop_named(&messages, "bot")), vec!["$e2", "$e3"]);
    assert_eq!(ids(keep_operator(keep_room(&messages, "!other:x"), Some("@a:x"))), vec!["$e2"]);
    assert_eq!(ids(keep_operator(keep_room(&messages, "!other:x"), None)), vec!["$e2"]);
}

fn test_manager() -> StateManager {
    StateManager::new(Location::under(&PathBuf::from("/work"), "matrix-state.json"))
}

#[test]
fn load_missing_file_returns_none() {
    let mgr = test_manager();
    assert!(mgr.load(None).unwrap().is_none());
}

#[test]
fn save_and_load_round_trip() {
    let mgr = test_manager();
    let state = MatrixState {
        since_token: Some("s123_456".to_string()),
        room_id: Some("!room:example.com".to_string()),
        pending_questions: TextMap::new(),
    };
    let saved = mgr.save(&state);

    let loaded = mgr.load(Some(&saved)).unwrap().unwrap();
    assert_eq!(loaded.since_token, Some("s123_456".to_string()));
    assert_eq!(loaded.room_id, Some("!room:example.com".to_string()));
    assert!(loaded.pending_questions.is_empty());
}

#[test]
fn corrupted_json_returns_error() {
    let mgr = test_manager();
    assert!(mgr.load(Some("not json")).is_err());
}

#[test]
fn a_state_file_is_indented_json() {
    let mgr = test_manager();
    let mut state = mgr.load_or_default(None);
    mgr.add_pending_question_at(&mut state, "$1:x", Some("a"), "Old \"?\"", "t1".to_string());
    mgr.add_pending_question_at(&mut state, "", None, "\n", "t2".to_string());
    let saved = mgr.save(&state);
    assert!(saved.starts_with("{\n  \"") && saved.ends_with('}'), "{saved}");
    let value: serde_json::Value = serde_json::from_str(&saved).unwrap();
    assert!(value["since_token"].is_null());
    assert_eq!(value["pending_questions"]["$1:x"]["loop_id"].as_str(), Some("a"));
    assert_eq!(value["pending_questions"]["$1:x"]["question"].as_str(), Some("Old \"?\""));
    assert_eq!(value["pending_questions"]["$1:x"]["asked_at"].as_str(), Some("t1"));
    assert!(value["pending_questions"][""]["loop_id"].is_null());
}

#[test]
fn removing_undoes_adding_in_the_file() {
    let mgr = test_manager();
    let mut state = mgr.load_or_default(None);
    state.since_token = Some("s1".to_string());
    mgr.add_pending_question_at(&mut state, "$1:x", Some("a"), "Q?", "t1".to_string());
    let before = mgr.save(&state);
    mgr.add_pending_question(&mut state, "$2:x", None, "R?");
    assert_ne!(mgr.save(&state), before);
    mgr.remove_pending_question(&mut state, "$2:x");
    assert_eq!(mgr.save(&state), before);
    mgr.remove_pending_question(&mut state, "$2:x");
    assert_eq!(mgr.save(&state), before);
    let loaded = mgr.load(Some(&before)).unwrap().unwrap();
    assert_eq!(loaded.since_token.as_deref(), Some("s1"));
    assert_eq!(loaded.room_id, None);
    assert_eq!(loaded.pending_questions.len(), 1);
    let question = loaded.pending_questions.get("$1:x").unwrap();
    assert_eq!(question.loop_id.as_deref(), Some("a"));
    assert_eq!(question.question, "Q?");
    assert_eq!(question.asked_at, "t1");
}

#[test]
fn state_fields_may_be_missing_but_not_of_another_kind() {
    let mgr = test_manager();
    let empty = mgr.load(Some("{}")).unwrap().unwrap();
    assert!(empty.since_token.is_none() && empty.pending_questions.is_empty());
    let extra = mgr.load(Some(r#"{"room_id":"r","more":[1]}"#)).unwrap().unwrap();
    assert_eq!(extra.room_id.as_deref(), Some("r"));
    for bad in [
        "[]",
        "null",
        r#"{"since_token":1}"#,
        r#"{"pending_questions":null}"#,
        r#"{"pending_questions":{"k":{"question":"q"}}}"#,
        r#"{"pending_questions":{"k":{"question":"q","asked_at":"t","loop_id":2}}}"#,
    ] {
        assert!(mgr.load(Some(bad)).is_err(), "{bad}");
    }
}

#[test]
fn load_or_default_returns_empty_state() {
    let mgr = test_manager();
    let state = mgr.load_or_default(None);
    assert!(state.since_token.is_none());
    assert!(state.room_id.is_none());
    assert!(state.pending_questions.is_empty());
    let kept = mgr.load_or_default(Some(MatrixState {
        since_token: Some("s123_456".to_string()),
        room_id: Some("!room:example.com".to_string()),
        pending_questions: TextMap::new(),
    }));
    assert_eq!(kept.since_token, Some("s123_456".to_string()));
    assert_eq!(kept.room_id, Some("!room:example.com".to_string()));
}

#[test]
fn pending_question_tracking() {
    let mgr = test_manager();
    let mut state = mgr.load_or_default(None);

    mgr.add_pending_question(
        &mut state,
        "$ev1:example.com",
        Some("main"),
        "Should I proceed?",
    );

    assert!(state.pending_questions.contains_key("$ev1:example.com"));
    let q = state.pending_questions.get("$ev1:example.com").unwrap();
    assert_eq!(q.loop_id, Some("main".to_string()));
    assert_eq!(q.question, "Should I proceed?");
    assert!(chrono::DateTime::parse_from_rfc3339(&q.asked_at).is_ok());

    mgr.remove_pending_question(&mut state, "$ev1:example.com");
    assert!(!state.pending_questions.contains_key("$ev1:example.com"));
}

#[test]
fn reply_routing_lookup() {
    let mgr = test_manager();
    let mut state = mgr.load_or_default(None);

    mgr.add_pending_question(&mut state, "$ev1:example.com", Some("main"), "Question 1?");
    mgr.add_pending_question(
        &mut state,
        "$ev2:example.com",
        Some("feature-auth"),
        "Question 2?",
    );

    assert_eq!(
        mgr.get_loop_for_reply(&state, "$ev1:example.com"),
        Some("main".to_string())
    );
    assert_eq!(
        mgr.get_loop_for_reply(&state, "$ev2:example.com"),
        Some("feature-auth".to_string())
    );
    assert_eq!(mgr.get_loop_for_reply(&state, "$ev999:example.com"), None);
    assert_eq!(
        mgr.pending_of_loop(&state, "feature-auth"),
        Some("$ev2:example.com".to_string())
    );
    assert_eq!(mgr.pending_of_loop(&state, "other"), None);
}

#[test]
fn pending_question_without_loop_id() {
    let mgr = test_manager();
    let mut state = mgr.load_or_default(None);

    mgr.add_pending_question(&mut state, "$ev1:example.com", None, "General question?");

    let q = state.pending_questions.get("$ev1:example.com").unwrap();
    assert_eq!(q.loop_id, None);
    assert_eq!(mgr.get_loop_for_reply(&state, "$ev1:example.com"), None);
}

#[test]
fn a_question_is_asked_at_its_time() {
    let mgr = test_manager();
    let mut state = mgr.load_or_default(None);
    mgr.add_pending_question_at(&mut state, "$1", Some("a"), "Old?", "t1".to_string());
    mgr.add_pending_question_at(&mut state, "$1", None, "New?", "t2".to_string());
    assert_eq!(state.pending_questions.len(), 1);
    let q = state.pending_questions.get("$1").unwrap().clone();
    assert_eq!(q.question, "New?");
    assert_eq!(q.asked_at, "t2");
    assert_eq!(q.loop_id, None);
    assert_eq!(path_of(mgr.path()), PathBuf::from("/work/matrix-state.json"));
}

// ── Handler ─────────────────────────────────────────────────────────────

fn make_message(text: &str, reply_to: Option<&str>) -> MatrixMessage {
    MatrixMessage {
        sender_id: "@operator:example.com".to_string(),
        body: text.to_string(),
        event_id: "$msg-1".to_string(),
        timestamp: 1_700_000_000_000,
        room_id: "!room:example.com".to_string(),
        reply_to_event_id: reply_to.map(String::from),
    }
}

fn setup() -> (MessageHandler, MatrixState) {
    let root = PathBuf::from("/work");
    let state_manager = StateManager::new(Location::under(&root, ".ralph/matrix-state.json"));
    let handler = MessageHandler::new(state_manager, root);
    let state = MatrixState {
        since_token: None,
        room_id: None,
        pending_questions: TextMap::new(),
    };
    (handler, state)
}

fn ask(state: &mut MatrixState, event_id: &str, loop_id: &str) {
    state.pending_questions.insert(
        event_id.to_string(),
        PendingQuestion {
            loop_id: Some(loop_id.to_string()),
            question: "Should I proceed?".to_string(),
            asked_at: "2026-03-08T12:00:00Z".to_string(),
        },
    );
}

/// What is written where for a message, and the result of handling it.
fn handled(
    handler: &MessageHandler,
    state: &mut MatrixState,
    message: &MatrixMessage,
    marker: Option<&str>,
) -> (PathBuf, serde_json::Value, HandleResult) {
    match handler.handle_message(state, message, None) {
        Handling::Record(record) => {
            let path = path_of(&handler.get_events_path(&record.target_loop, marker));
            let event = serde_json::from_str(&record.line).unwrap();
            let result = handler.finish_message(state, record, Ok(())).unwrap();
            (path, event, result)
        }
        Handling::Respond(words) => panic!("unexpected response {words}"),
    }
}

#[test]
fn writes_guidance_event_to_main() {
    let (handler, mut state) = setup();
    let msg = make_message("don't forget logging", None);

    let (path, event, result) = handled(&handler, &mut state, &msg, None);

    assert_eq!(result, HandleResult::Event("human.guidance".to_string()));
    assert_eq!(path, PathBuf::from("/work/.ralph/events.jsonl"));
    assert_eq!(event["topic"], "human.guidance");
    assert_eq!(event["payload"], "don't forget logging");
    assert!(chrono::DateTime::parse_from_rfc3339(event["ts"].as_str().unwrap()).is_ok());
}

#[test]
fn writes_response_event_when_pending_question() {
    let (handler, mut state) = setup();
    ask(&mut state, "$q-evt-1", "main");

    let msg = make_message("use async", Some("$q-evt-1"));
    let (path, event, result) = handled(&handler, &mut state, &msg, None);

    assert_eq!(result, HandleResult::Event("human.response".to_string()));
    assert_eq!(path, PathBuf::from("/work/.ralph/events.jsonl"));
    assert_eq!(event["topic"], "human.response");
    assert_eq!(event["payload"], "use async");

    assert!(!state.pending_questions.contains_key("$q-evt-1"));
}

#[test]
fn routes_at_prefix_to_correct_loop() {
    let (handler, mut state) = setup();
    let msg = make_message("@feature-auth check edge cases", None);

    let (path, event, _) = handled(&handler, &mut state, &msg, None);

    assert_eq!(path, PathBuf::from("/work/.worktrees/feature-auth/.ralph/events.jsonl"));
    assert_eq!(event["topic"], "human.guidance");
}

#[test]
fn routes_reply_to_event_to_correct_loop() {
    let (handler, mut state) = setup();
    ask(&mut state, "$q-evt-42", "feature-auth");

    let msg = make_message("yes, proceed", Some("$q-evt-42"));
    let (path, event, result) = handled(&handler, &mut state, &msg, None);

    assert_eq!(result, HandleResult::Event("human.response".to_string()));
    assert_eq!(path, PathBuf::from("/work/.worktrees/feature-auth/.ralph/events.jsonl"));
    assert_eq!(event["topic"], "human.response");
}

#[test]
fn reply_to_takes_priority_over_at_prefix() {
    let (handler, mut state) = setup();
    ask(&mut state, "$q-evt-xyz", "loop-a");

    let msg = make_message("@loop-b some text", Some("$q-evt-xyz"));
    assert_eq!(
        handler.determine_target_loop(&state, Some("$q-evt-xyz"), "@loop-b some text"),
        "loop-a"
    );
    let (path, _, _) = handled(&handler, &mut state, &msg, None);

    assert_eq!(
        path,
        PathBuf::from("/work/.worktrees/loop-a/.ralph/events.jsonl"),
        "reply_to routing should take priority"
    );
}

#[test]
fn defaults_to_main_without_routing_hints() {
    let (handler, mut state) = setup();
    let msg = make_message("just a plain message", None);

    let (path, _, _) = handled(&handler, &mut state, &msg, None);

    assert_eq!(path, PathBuf::from("/work/.ralph/events.jsonl"));
}

#[test]
fn writes_to_timestamped_events_file_when_marker_exists() {
    let (handler, mut state) = setup();
    assert_eq!(
        path_of(&handler.get_marker_path("main")),
        PathBuf::from("/work/.ralph/current-events")
    );

    let msg = make_message("progress update", None);
    let (path, event, _) =
        handled(&handler, &mut state, &msg, Some(".ralph/events-20260201-210033.jsonl"));

    assert_eq!(path, PathBuf::from("/work/.ralph/events-20260201-210033.jsonl"));
    assert_eq!(event["topic"], "human.guidance");
    assert_eq!(event["payload"], "progress update");
}

#[test]
fn markers_of_loops_lie_in_their_worktrees() {
    let (handler, _) = setup();
    assert_eq!(
        path_of(&handler.get_marker_path("feature")),
        PathBuf::from("/work/.worktrees/feature/.ralph/current-events")
    );
    assert_eq!(
        path_of(&handler.get_events_path("feature", Some(" .ralph/e.jsonl\n"))),
        PathBuf::from("/work/.worktrees/feature/.ralph/e.jsonl")
    );
    assert_eq!(
        path_of(&handler.get_events_path("main", Some("/abs/e.jsonl"))),
        PathBuf::from("/abs/e.jsonl")
    );
    assert_eq!(
        path_of(&handler.get_events_path("main", Some("  \n"))),
        PathBuf::from("/work/.ralph/events.jsonl")
    );
}

#[test]
fn command_returns_command_response() {
    let (handler, state) = setup();
    let msg = make_message("!help", None);

    assert_eq!(handler.command_text(&msg), Some("!help"));
    let answer = "**Ralph Bot Commands**\n!status".to_string();
    match handler.handle_message(&state, &msg, Some(answer)) {
        Handling::Respond(response) => {
            assert!(response.contains("**Ralph Bot Commands**"));
            assert!(response.contains("!status"));
        }
        Handling::Record(_) => panic!("Expected a response"),
    }
}

#[test]
fn only_commands_are_answered() {
    let (handler, state) = setup();
    let msg = make_message(" \t!status \n", None);
    assert_eq!(handler.command_text(&msg), Some("!status"));
    let plain = make_message("status!", None);
    assert_eq!(handler.command_text(&plain), None);
    assert!(matches!(
        handler.handle_message(&state, &plain, Some("never sent".to_string())),
        Handling::Record(_)
    ));
}

#[test]
fn unknown_command_falls_through_as_guidance() {
    let (handler, mut state) = setup();
    let msg = make_message("!nonexistent", None);

    let (path, _, result) = handled(&handler, &mut state, &msg, None);

    assert_eq!(result, HandleResult::Event("human.guidance".to_string()));
    assert_eq!(path, PathBuf::from("/work/.ralph/events.jsonl"));
}

#[test]
fn a_failed_write_keeps_the_question() {
    let (handler, mut state) = setup();
    ask(&mut state, "$q", "main");
    let msg = make_message("yes", Some("$q"));
    match handler.handle_message_at(&state, &msg, None, "2026-01-01T00:00:00Z") {
        Handling::Record(record) => {
            assert_eq!(record.answered.as_deref(), Some("$q"));
            let event: serde_json::Value = serde_json::from_str(&record.line).unwrap();
            assert_eq!(event["ts"], "2026-01-01T00:00:00Z");
            let failed = Err(MatrixError::EventWrite("disk full".to_string()));
            let error = handler.finish_message(&mut state, record, failed).unwrap_err();
            assert_eq!(error.message(), "event write error: disk full");
        }
        Handling::Respond(_) => panic!("expected a record"),
    }
    assert!(state.pending_questions.contains_key("$q"));
}
