use ralph_robot::place::Location;
use ralph_robot::rocketchat::client::MockRocketChatClient;
use ralph_robot::rocketchat::error::RocketChatError;
use ralph_robot::rocketchat::handler::{Handling, MessageHandler};
use ralph_robot::rocketchat::service::{PollAction, PollEvent, RocketChatService};
use ralph_robot::rocketchat::state::{PendingQuestion, RocketChatState, StateManager};
use ralph_robot::rocketchat::types::{
    drop_sender, drop_system, filter_by_operator, RcMessage, RcUser, SyncResult,
};
use ralph_robot::table::TextMap;
use std::path::PathBuf;

fn path_of(location: &Location) -> PathBuf {
    let mut path = location.base.clone();
    for part in &location.parts {
        path = path.join(part);
    }
    path
}

fn make_user(id: &str, username: &str) -> RcUser {
    RcUser {
        id: id.to_string(),
        username: username.to_string(),
        name: Some(username.to_string()),
    }
}

fn written(id: &str, user_id: &str, t: Option<&str>) -> RcMessage {
    RcMessage {
        id: id.to_string(),
        rid: "room1".to_string(),
        msg: format!("msg from {user_id}"),
        u: make_user(user_id, "user"),
        ts: "2026-01-01T00:00:00.000Z".to_string(),
        tmid: None,
        t: t.map(String::from),
    }
}

#[test]
fn types_filter_by_operator_returns_only_operator_messages() {
    let messages = vec![
        written("m1", "operator-1", None),
        written("m2", "other-user", None),
        written("m3", "operator-1", None),
    ];
    let filtered = filter_by_operator(&messages, "operator-1");
    assert_eq!(filtered.len(), 2);
    assert_eq!(filtered[0].id, "m1");
    assert_eq!(filtered[1].id, "m3");
}

#[test]
fn filter_by_operator_excludes_system_messages() {
    let messages = vec![
        written("m1", "operator-1", None),
        written("m2", "operator-1", Some("uj")),
        written("m3", "operator-1", Some("au")),
    ];
    let filtered = filter_by_operator(&messages, "operator-1");
    assert_eq!(filtered.len(), 1);
    assert_eq!(filtered[0].id, "m1");
}

#[test]
fn types_filter_by_operator_returns_empty_for_no_matches() {
    let messages = vec![
        written("m1", "other-user", None),
        written("m2", "another-user", None),
    ];
    let filtered = filter_by_operator(&messages, "operator-1");
    assert!(filtered.is_empty());
}

#[test]
fn types_filter_by_operator_handles_empty_input() {
    let filtered = filter_by_operator(&[], "operator-1");
    assert!(filtered.is_empty());
}

#[test]
fn rocketchat_filters_keep_the_order() {
    let messages = vec![
        written("m1", "a", None),
        written("m2", "b", Some("uj")),
        written("m3", "b", None),
    ];
    let ids = |kept: Vec<RcMessage>| -> Vec<String> { kept.into_iter().map(|m| m.id).collect() };
    assert_eq!(ids(drop_system(&messages)), vec!["m1", "m3"]);
    assert_eq!(ids(drop_sender(&messages, "a")), vec!["m3"]);
}

// ── State ───────────────────────────────────────────────────────────────

fn test_manager() -> StateManager {
    StateManager::new(Location::under(&PathBuf::from("/work"), "rocketchat-state.json"))
}

#[test]
fn state_load_missing_file_returns_none() {
    let mgr = test_manager();
    assert!(mgr.load(None).unwrap().is_none());
}

#[test]
fn state_save_and_load_round_trip() {
    let mgr = test_manager();
    let state = RocketChatState {
        last_sync: Some("2026-03-08T12:00:00.000Z".to_string()),
        pending_questions: TextMap::new(),
    };
    let saved = mgr.save(&state);

    let loaded = mgr.load(Some(&saved)).unwrap().unwrap();
    assert_eq!(loaded.last_sync, Some("2026-03-08T12:00:00.000Z".to_string()));
    assert!(loaded.pending_questions.is_empty());
}

#[test]
fn state_corrupted_json_returns_error() {
    let mgr = test_manager();
    assert!(mgr.load(Some("not json")).is_err());
}

#[test]
fn state_removing_undoes_adding_in_the_file() {
    let mgr = test_manager();
    let mut state = mgr.load_or_default(None);
    mgr.add_pending_question_at(&mut state, "main", "m1", "t1".to_string());
    let before = mgr.save(&state);
    mgr.add_pending_question(&mut state, "feature", "m2");
    assert_ne!(mgr.save(&state), before);
    mgr.remove_pending_question(&mut state, "feature");
    mgr.remove_pending_question(&mut state, "feature");
    assert_eq!(mgr.save(&state), before);
    let loaded = mgr.load(Some(&before)).unwrap().unwrap();
    assert_eq!(loaded.pending_questions.len(), 1);
    let question = loaded.pending_questions.get("main").unwrap();
    assert_eq!(question.message_id, "m1");
    assert_eq!(question.asked_at, "t1");
    assert!(loaded.last_sync.is_none());
    assert!(mgr.load(Some(r#"{"pending_questions":{"k":{"asked_at":"t"}}}"#)).is_err());
    assert!(mgr.load(Some(r#"{"last_sync":{}}"#)).is_err());
}

#[test]
fn state_load_or_default_returns_empty_state() {
    let mgr = test_manager();
    let state = mgr.load_or_default(None);
    assert!(state.last_sync.is_none());
    assert!(state.pending_questions.is_empty());
    let kept = mgr.load_or_default(Some(RocketChatState {
        last_sync: Some("2026-03-08T12:00:00.000Z".to_string()),
        pending_questions: TextMap::new(),
    }));
    assert_eq!(kept.last_sync, Some("2026-03-08T12:00:00.000Z".to_string()));
    assert!(kept.pending_questions.is_empty());
}

#[test]
fn state_pending_question_tracking() {
    let mgr = test_manager();
    let mut state = mgr.load_or_default(None);

    mgr.add_pending_question(&mut state, "main", "msg-abc123");
    assert!(state.pending_questions.contains_key("main"));
    let question = state.pending_questions.get("main").unwrap();
    assert_eq!(question.message_id, "msg-abc123");
    assert!(chrono::DateTime::parse_from_rfc3339(&question.asked_at).is_ok());

    mgr.remove_pending_question(&mut state, "main");
    assert!(!state.pending_questions.contains_key("main"));
}

#[test]
fn state_reply_routing_lookup() {
    let mgr = test_manager();
    let mut state = mgr.load_or_default(None);

    mgr.add_pending_question(&mut state, "main", "msg-001");
    mgr.add_pending_question(&mut state, "feature-auth", "msg-002");

    assert_eq!(
        mgr.get_loop_for_reply(&state, "msg-001"),
        Some("main".to_string())
    );
    assert_eq!(
        mgr.get_loop_for_reply(&state, "msg-002"),
        Some("feature-auth".to_string())
    );
    assert_eq!(mgr.get_loop_for_reply(&state, "msg-999"), None);
}

#[test]
fn a_loop_has_one_question() {
    let mgr = test_manager();
    let mut state = mgr.load_or_default(None);
    mgr.add_pending_question_at(&mut state, "main", "m1", "t1".to_string());
    mgr.add_pending_question_at(&mut state, "main", "m2", "t2".to_string());
    assert_eq!(state.pending_questions.len(), 1);
    assert_eq!(state.pending_questions.get("main").unwrap().asked_at, "t2");
    assert_eq!(mgr.get_loop_for_reply(&state, "m1"), None);
    assert_eq!(path_of(mgr.path()), PathBuf::from("/work/rocketchat-state.json"));
}

// ── Handler ─────────────────────────────────────────────────────────────

/// A workspace whose events files are kept in memory.
struct Workspace {
    state_manager: StateManager,
    handler: MessageHandler,
    marker: Option<String>,
    events: Vec<(PathBuf, serde_json::Value)>,
}

impl Workspace {
    fn new() -> Workspace {
        let root = PathBuf::from("/work");
        let place = Location::under(&root, ".ralph/rocketchat-state.json");
        Workspace {
            state_manager: StateManager::new(place.clone()),
            handler: MessageHandler::new(StateManager::new(place), root),
            marker: None,
            events: Vec::new(),
        }
    }

    fn handle(&mut self, state: &mut RocketChatState, message: &RcMessage) -> String {
        let record = match self.handler.handle_message(state, message, None) {
            Handling::Record(record) => record,
            other => panic!("unexpected handling {other:?}"),
        };
        let place = self.handler.get_events_path(&record.target_loop, self.marker.as_deref());
        self.events.push((path_of(&place), serde_json::from_str(&record.line).unwrap()));
        self.handler.finish_message(state, record, Ok(())).unwrap()
    }

    fn events_at(&self, path: &str) -> Vec<serde_json::Value> {
        let path = PathBuf::from("/work").join(path);
        self.events.iter().filter(|e| e.0 == path).map(|e| e.1.clone()).collect()
    }

    fn read_events(&self, loop_id: &str) -> Vec<serde_json::Value> {
        if loop_id == "main" {
            self.events_at(".ralph/events.jsonl")
        } else {
            self.events_at(&format!(".worktrees/{loop_id}/.ralph/events.jsonl"))
        }
    }

    fn poll(
        &mut self,
        messages: Vec<RcMessage>,
        operator_id: Option<&str>,
        state: &mut RocketChatState,
    ) -> Vec<String> {
        let service = RocketChatService::new(
            PathBuf::from("/work"),
            "https://chat.example.com".to_string(),
            "test-auth-token-12345".to_string(),
            "bot-user-id".to_string(),
            "room-1".to_string(),
            operator_id.map(String::from),
            300,
            "main".to_string(),
        );
        let result = SyncResult { updated: messages, deleted: vec![] };
        match service.poll_messages(PollEvent::Synced(result)) {
            PollAction::Handle(chosen) => chosen.iter().map(|m| self.handle(state, m)).collect(),
            other => panic!("unexpected action {other:?}"),
        }
    }
}

fn no_state() -> RocketChatState {
    RocketChatState { last_sync: None, pending_questions: TextMap::new() }
}

fn ask(state: &mut RocketChatState, loop_id: &str, message_id: &str) {
    state.pending_questions.insert(
        loop_id.to_string(),
        PendingQuestion {
            asked_at: "2026-03-08T12:00:00Z".to_string(),
            message_id: message_id.to_string(),
        },
    );
}

fn make_message(text: &str, tmid: Option<&str>) -> RcMessage {
    RcMessage {
        id: "msg-1".to_string(),
        rid: "room-1".to_string(),
        msg: text.to_string(),
        u: make_user("operator-1", "operator-1"),
        ts: "2026-03-08T12:00:00.000Z".to_string(),
        tmid: tmid.map(String::from),
        t: None,
    }
}

fn said(id: &str, user: &RcUser, text: &str) -> RcMessage {
    RcMessage {
        id: id.to_string(),
        rid: "room-1".to_string(),
        msg: text.to_string(),
        u: user.clone(),
        ts: "2026-03-08T12:00:00.000Z".to_string(),
        tmid: None,
        t: None,
    }
}

fn make_system_message(id: &str, user: &RcUser, msg_type: &str) -> RcMessage {
    let mut message = said(id, user, "");
    message.t = Some(msg_type.to_string());
    message
}

fn make_threaded_message(id: &str, user: &RcUser, text: &str, tmid: &str) -> RcMessage {
    let mut message = said(id, user, text);
    message.tmid = Some(tmid.to_string());
    message
}

#[test]
fn handler_writes_guidance_event_to_main() {
    let mut work = Workspace::new();
    let mut state = no_state();

    let topic = work.handle(&mut state, &make_message("don't forget logging", None));

    assert_eq!(topic, "human.guidance");
    let event = &work.read_events("main")[0];
    assert_eq!(event["topic"], "human.guidance");
    assert_eq!(event["payload"], "don't forget logging");
}

#[test]
fn handler_writes_response_event_when_pending_question() {
    let mut work = Workspace::new();
    let mut state = no_state();
    ask(&mut state, "main", "msg-q1");

    let topic = work.handle(&mut state, &make_message("use async", Some("msg-q1")));

    assert_eq!(topic, "human.response");
    let event = &work.read_events("main")[0];
    assert_eq!(event["topic"], "human.response");
    assert_eq!(event["payload"], "use async");

    assert!(!state.pending_questions.contains_key("main"));
}

#[test]
fn handler_routes_at_prefix_to_correct_loop() {
    let mut work = Workspace::new();

    work.handle(&mut no_state(), &make_message("@feature-auth check edge cases", None));

    let event = &work.read_events("feature-auth")[0];
    assert_eq!(event["topic"], "human.guidance");
}

#[test]
fn routes_tmid_thread_to_correct_loop() {
    let mut work = Workspace::new();
    let mut state = no_state();
    ask(&mut state, "feature-auth", "thread-msg-42");

    let topic = work.handle(&mut state, &make_message("yes, proceed", Some("thread-msg-42")));

    assert_eq!(topic, "human.response");
    let event = &work.read_events("feature-auth")[0];
    assert_eq!(event["topic"], "human.response");
}

#[test]
fn handler_tmid_takes_priority_over_at_prefix() {
    let mut work = Workspace::new();
    let mut state = no_state();
    ask(&mut state, "loop-a", "tmid-xyz");

    work.handle(&mut state, &make_message("@loop-b some text", Some("tmid-xyz")));

    assert_eq!(work.read_events("loop-a").len(), 1, "tmid routing should take priority");
}

#[test]
fn handler_defaults_to_main_without_routing_hints() {
    let mut work = Workspace::new();

    work.handle(&mut no_state(), &make_message("just a plain message", None));

    assert_eq!(work.read_events("main").len(), 1);
}

#[test]
fn handler_writes_to_timestamped_events_file_when_marker_exists() {
    let mut work = Workspace::new();
    work.marker = Some(".ralph/events-20260201-210033.jsonl".to_string());
    assert_eq!(
        path_of(&work.handler.get_marker_path("main")),
        PathBuf::from("/work/.ralph/current-events")
    );

    work.handle(&mut no_state(), &make_message("progress update", None));

    let events = work.events_at(".ralph/events-20260201-210033.jsonl");
    assert_eq!(events[0]["topic"], "human.guidance");
    assert_eq!(events[0]["payload"], "progress update");
    assert!(work.read_events("main").is_empty());
}

#[test]
fn an_answer_to_the_prefixed_loop_is_a_response() {
    let mut work = Workspace::new();
    let mut state = no_state();
    ask(&mut state, "feature", "q");

    let topic = work.handle(&mut state, &make_message("@feature yes", None));

    assert_eq!(topic, "human.response");
    assert!(!state.pending_questions.contains_key("feature"));
    assert_eq!(work.handler.determine_target_loop(&state, "@ x", None), "x");
    assert_eq!(work.handler.determine_target_loop(&state, "@", None), "main");
}

#[test]
fn a_failed_write_keeps_the_pending_question() {
    let work = Workspace::new();
    let mut state = no_state();
    ask(&mut state, "main", "q");
    let message = make_message("yes", Some("q"));
    let record =
        match work.handler.handle_message_at(&state, &message, None, "2026-01-01T00:00:00Z") {
            Handling::Record(record) => record,
            other => panic!("unexpected handling {other:?}"),
        };
    assert!(record.is_response);
    let failed = Err(RocketChatError::EventWrite("disk full".to_string()));
    let error = work.handler.finish_message(&mut state, record, failed).unwrap_err();
    assert_eq!(error.message(), "event write error: disk full");
    assert!(state.pending_questions.contains_key("main"));
}

#[test]
fn system_messages_are_dropped_by_the_handler() {
    let work = Workspace::new();
    let mut state = no_state();
    ask(&mut state, "main", "q");
    for text in ["joined", "/help", "@main yes"] {
        let mut message = make_message(text, Some("q"));
        message.t = Some("uj".to_string());
        assert_eq!(work.handler.command_text(&message), None);
        let handling = work.handler.handle_message(&state, &message, Some("x".to_string()));
        assert!(matches!(handling, Handling::Drop), "{handling:?}");
    }
    assert!(state.pending_questions.contains_key("main"));
}

#[test]
fn slash_commands_are_answered_and_not_recorded() {
    let work = Workspace::new();
    let mut state = no_state();
    ask(&mut state, "main", "q");
    let help = make_message(" /help ", None);
    assert_eq!(work.handler.command_text(&help), Some("/help"));
    match work.handler.handle_message(&state, &help, Some("commands".to_string())) {
        Handling::Respond(words) => assert_eq!(words, "commands"),
        other => panic!("unexpected handling {other:?}"),
    }
    match work.handler.handle_message(&state, &make_message("/unknown", None), None) {
        Handling::Record(record) => assert_eq!(record.topic, "human.response"),
        other => panic!("unexpected handling {other:?}"),
    }
    let plain = make_message("help", None);
    assert_eq!(work.handler.command_text(&plain), None);
    assert!(matches!(
        work.handler.handle_message(&state, &plain, Some("commands".to_string())),
        Handling::Record(_)
    ));
}

// ── Polling ─────────────────────────────────────────────────────────────

#[test]
fn only_operator_messages_are_processed() {
    let mut work = Workspace::new();
    let mut state = no_state();

    let operator = make_user("operator-1", "alice");
    let other = make_user("other-user", "bob");

    let mut mock = MockRocketChatClient::new();
    mock.on_sync_messages(Ok(SyncResult {
        updated: vec![
            said("m1", &operator, "operator says hello"),
            said("m2", &other, "bystander chatter"),
            said("m3", &operator, "operator says goodbye"),
        ],
        deleted: vec![],
    }));

    let sync = mock.sync_messages("room-1", "ts").unwrap();
    let topics = work.poll(sync.updated, Some("operator-1"), &mut state);

    assert_eq!(
        topics.len(),
        2,
        "only 2 operator messages should be handled"
    );

    let events = work.read_events("main");
    assert_eq!(events.len(), 2);
    assert_eq!(events[0]["payload"], "operator says hello");
    assert_eq!(events[1]["payload"], "operator says goodbye");
}

#[test]
fn system_messages_are_dropped() {
    let mut work = Workspace::new();
    let mut state = no_state();
    let operator = make_user("operator-1", "alice");

    let messages = vec![
        said("m1", &operator, "real message"),
        make_system_message("m2", &operator, "uj"),
        make_system_message("m3", &operator, "au"),
        make_system_message("m4", &operator, "rl"),
    ];
    let topics = work.poll(messages, Some("operator-1"), &mut state);

    assert_eq!(topics.len(), 1, "only normal messages should pass filter");

    let events = work.read_events("main");
    assert_eq!(events.len(), 1);
    assert_eq!(events[0]["payload"], "real message");
}

#[test]
fn no_operator_id_processes_all_non_system_messages() {
    let mut work = Workspace::new();
    let mut state = no_state();
    let alice = make_user("user-a", "alice");
    let bob = make_user("user-b", "bob");

    let messages = vec![
        said("m1", &alice, "from alice"),
        said("m2", &bob, "from bob"),
        make_system_message("m3", &alice, "uj"),
    ];
    let topics = work.poll(messages, None, &mut state);

    assert_eq!(
        topics.len(),
        2,
        "without operator_id, all non-system messages should be processed"
    );

    let events = work.read_events("main");
    assert_eq!(events.len(), 2);
    assert_eq!(events[0]["payload"], "from alice");
    assert_eq!(events[1]["payload"], "from bob");
}

#[test]
fn tmid_thread_reply_routes_to_correct_loop() {
    let mut work = Workspace::new();
    let mut state = no_state();
    work.state_manager.add_pending_question(&mut state, "feature-auth", "q-msg-42");

    let operator = make_user("operator-1", "alice");
    let msg = make_threaded_message("reply-1", &operator, "yes, proceed", "q-msg-42");

    let topics = work.poll(vec![msg], Some("operator-1"), &mut state);

    assert_eq!(topics.len(), 1);
    assert_eq!(
        topics[0], "human.response",
        "thread reply should be a response"
    );

    let events = work.read_events("feature-auth");
    assert_eq!(events.len(), 1);
    assert_eq!(events[0]["topic"], "human.response");
    assert_eq!(events[0]["payload"], "yes, proceed");

    let main_events = work.read_events("main");
    assert!(main_events.is_empty(), "main loop should have no events");
}

#[test]
fn at_loop_id_prefix_routes_correctly() {
    let mut work = Workspace::new();
    let mut state = no_state();

    let operator = make_user("operator-1", "alice");
    let msg = said("m1", &operator, "@feature-db use postgres");

    let topics = work.poll(vec![msg], Some("operator-1"), &mut state);

    assert_eq!(topics.len(), 1);
    assert_eq!(topics[0], "human.guidance");

    let events = work.read_events("feature-db");
    assert_eq!(events.len(), 1);
    assert_eq!(events[0]["topic"], "human.guidance");
    assert_eq!(events[0]["payload"], "@feature-db use postgres");

    let main_events = work.read_events("main");
    assert!(main_events.is_empty());
}

#[test]
fn untagged_message_defaults_to_main() {
    let mut work = Workspace::new();
    let mut state = no_state();

    let operator = make_user("operator-1", "alice");
    let msg = said("m1", &operator, "just some guidance");

    let topics = work.poll(vec![msg], Some("operator-1"), &mut state);

    assert_eq!(topics.len(), 1);
    assert_eq!(topics[0], "human.guidance");

    let events = work.read_events("main");
    assert_eq!(events.len(), 1);
    assert_eq!(events[0]["topic"], "human.guidance");
    assert_eq!(events[0]["payload"], "just some guidance");
}

#[test]
fn integration_service_tmid_takes_priority_over_at_prefix() {
    let mut work = Workspace::new();
    let mut state = no_state();
    work.state_manager.add_pending_question(&mut state, "loop-a", "tmid-xyz");

    let operator = make_user("operator-1", "alice");
    let msg = make_threaded_message("reply-1", &operator, "@loop-b some text", "tmid-xyz");

    let topics = work.poll(vec![msg], Some("operator-1"), &mut state);

    assert_eq!(topics.len(), 1);
    assert_eq!(topics[0], "human.response");

    let loop_a_events = work.read_events("loop-a");
    assert_eq!(loop_a_events.len(), 1, "tmid routing should take priority");

    let loop_b_events = work.read_events("loop-b");
    assert!(
        loop_b_events.is_empty(),
        "@prefix should be ignored when tmid matches"
    );
}

#[test]
fn pending_question_cleared_after_response() {
    let mut work = Workspace::new();
    let mut state = no_state();

    work.state_manager.add_pending_question(&mut state, "main", "q-msg-1");
    assert!(state.pending_questions.contains_key("main"));

    let operator = make_user("operator-1", "alice");
    let msg = make_threaded_message("reply-1", &operator, "use async", "q-msg-1");

    work.poll(vec![msg], Some("operator-1"), &mut state);

    assert!(
        !state.pending_questions.contains_key("main"),
        "pending question should be removed after response"
    );
}

#[test]
fn mixed_messages_filter_and_route_correctly() {
    let mut work = Workspace::new();
    let mut state = no_state();

    work.state_manager.add_pending_question(&mut state, "main", "q-main");

    let operator = make_user("operator-1", "alice");
    let bystander = make_user("other-user", "eve");

    let messages = vec![
        make_threaded_message("m1", &operator, "answer to main question", "q-main"),
        said("m2", &bystander, "should be filtered out"),
        said("m3", &operator, "@feature-x try caching"),
        make_system_message("m4", &operator, "uj"),
        said("m5", &operator, "general guidance"),
    ];

    let topics = work.poll(messages, Some("operator-1"), &mut state);

    assert_eq!(topics.len(), 3);
    assert_eq!(topics[0], "human.response");
    assert_eq!(topics[1], "human.guidance");
    assert_eq!(topics[2], "human.guidance");

    let main_events = work.read_events("main");
    assert_eq!(main_events.len(), 2);
    assert_eq!(main_events[0]["topic"], "human.response");
    assert_eq!(main_events[0]["payload"], "answer to main question");
    assert_eq!(main_events[1]["topic"], "human.guidance");
    assert_eq!(main_events[1]["payload"], "general guidance");

    let fx_events = work.read_events("feature-x");
    assert_eq!(fx_events.len(), 1);
    assert_eq!(fx_events[0]["topic"], "human.guidance");
    assert_eq!(fx_events[0]["payload"], "@feature-x try caching");

    assert!(!state.pending_questions.contains_key("main"));
}
