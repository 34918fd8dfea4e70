use ralph_robot::daemon::{DaemonAction, DaemonEvent, DaemonKind, DaemonRun};
use ralph_robot::place::Location;
use ralph_robot::rocketchat::daemon::RocketChatDaemon;
use ralph_robot::rocketchat::error::RocketChatError;
use ralph_robot::rocketchat::service::{
    can_mask, mask_token, retry_with_backoff, PollAction, PollEvent, RocketChatService,
};
use ralph_robot::rocketchat::state::RocketChatState;
use ralph_robot::rocketchat::types::{RcMessage, RcUser, SyncResult};
use ralph_robot::service::{CheckinContext, WaitAction, WaitEvent};
use std::path::PathBuf;
use std::time::Duration;

fn path_of(location: &Location) -> PathBuf {
    let mut path = location.base.clone();
    for part in &location.parts {
        path = path.join(part);
    }
    path
}

#[test]
fn test_rocketchat_daemon_creation() {
    let daemon = RocketChatDaemon::new(
        "https://chat.example.com".to_string(),
        "secret-token".to_string(),
        "bot-user-id".to_string(),
        "room-123".to_string(),
        None,
    );
    assert_eq!(daemon.server_url, "https://chat.example.com");
    assert_eq!(daemon.auth_token, "secret-token");
    assert_eq!(daemon.bot_user_id, "bot-user-id");
    assert_eq!(daemon.room_id, "room-123");
    assert_eq!(daemon.operator_id, None);
}

#[test]
fn test_rocketchat_daemon_with_operator_id() {
    let daemon = RocketChatDaemon::new(
        "https://chat.example.com".to_string(),
        "secret-token".to_string(),
        "bot-user-id".to_string(),
        "room-123".to_string(),
        Some("operator-456".to_string()),
    );
    assert_eq!(daemon.server_url, "https://chat.example.com");
    assert_eq!(daemon.auth_token, "secret-token");
    assert_eq!(daemon.bot_user_id, "bot-user-id");
    assert_eq!(daemon.room_id, "room-123");
    assert_eq!(daemon.operator_id, Some("operator-456".to_string()));
}

fn service_in(room_id: &str, auth_token: &str) -> RocketChatService {
    RocketChatService::new(
        PathBuf::from("/work"),
        "https://chat.example.com".to_string(),
        auth_token.to_string(),
        "bot-user-id".to_string(),
        room_id.to_string(),
        Some("operator-1".to_string()),
        300,
        "main".to_string(),
    )
}

fn make_service() -> RocketChatService {
    service_in("room-abc", "test-auth-token-12345")
}

fn no_state(svc: &RocketChatService) -> RocketChatState {
    svc.state_manager().load_or_default(None)
}

#[test]
fn service_new_creates_service_with_correct_fields() {
    let svc = make_service();

    assert_eq!(svc.workspace_root(), &PathBuf::from("/work"));
    assert_eq!(svc.timeout_secs(), 300);
    assert_eq!(svc.loop_id(), "main");
    assert_eq!(svc.room_id(), "room-abc");
    assert_eq!(svc.operator_id(), Some("operator-1"));
    assert_eq!(
        svc.client_settings(),
        ("https://chat.example.com", "test-auth-token-12345", "bot-user-id")
    );
    assert_eq!(
        path_of(svc.state_manager().path()),
        PathBuf::from("/work/.ralph/rocketchat-state.json")
    );
}

#[test]
fn auth_token_masked_hides_middle() {
    let svc = make_service();
    let masked = svc.auth_token_masked();
    assert_eq!(masked, "test...2345");
}

#[test]
fn auth_token_masked_short_token() {
    let svc = RocketChatService::new(
        PathBuf::from("/work"),
        "https://chat.example.com".to_string(),
        "short".to_string(),
        "bot".to_string(),
        "room".to_string(),
        None,
        60,
        "main".to_string(),
    );
    assert_eq!(svc.auth_token_masked(), "****");
}

#[test]
fn masks_count_bytes() {
    assert_eq!(mask_token("12345678"), "****");
    assert_eq!(mask_token("123456789"), "1234...6789");
    assert!(can_mask("ééééé"));
    assert_eq!(mask_token("ééééé"), "éé...éé");
    assert!(!can_mask("abcéefghi"));
    assert!(can_mask("ab€"));
    assert_eq!(mask_token("ab€"), "****");
}

#[test]
fn service_operator_id_none_when_not_set() {
    let svc = RocketChatService::new(
        PathBuf::from("/work"),
        "https://chat.example.com".to_string(),
        "token-abcdef123456".to_string(),
        "bot".to_string(),
        "room".to_string(),
        None,
        60,
        "main".to_string(),
    );
    assert_eq!(svc.operator_id(), None);
}

#[test]
fn send_question_sends_message_via_client() {
    let svc = make_service();

    let sent = svc.send_question("Which DB should we use?").unwrap();
    assert!(sent.contains("Which DB"));
    let mut state = no_state(&svc);
    assert_eq!(svc.store_question(&mut state, Some(Ok("m".to_string()))).unwrap(), 0);
}

#[test]
fn send_question_stores_pending_question_in_state() {
    let svc = make_service();
    let mut state = no_state(&svc);

    svc.store_question(&mut state, Some(Ok("mock-msg-1".to_string()))).unwrap();

    assert!(
        state.pending_questions.contains_key("main"),
        "pending question should be stored for loop_id 'main'"
    );
    assert_eq!(state.pending_questions.get("main").unwrap().message_id, "mock-msg-1");
}

#[test]
fn a_failed_question_is_not_stored() {
    let svc = make_service();
    let mut state = no_state(&svc);
    let sent = Some(Err(RocketChatError::Send("x".to_string())));
    assert!(svc.store_question(&mut state, sent).is_err());
    assert!(state.pending_questions.is_empty());
}

#[test]
fn send_question_empty_room_id_skips_send() {
    let svc = service_in("", "test-auth-token-12345");
    assert!(svc.send_question("Will this be sent?").is_none());

    let mut state = no_state(&svc);
    assert!(svc.store_question(&mut state, None).is_ok());
    assert!(state.pending_questions.contains_key("main"));
    assert!(state.pending_questions.get("main").unwrap().message_id.is_empty());
}

#[test]
fn send_checkin_formats_basic_message() {
    let body = make_service().send_checkin(5, 90, None).unwrap();
    assert!(body.contains("**5**"), "{body}");
    assert!(body.contains("`1m 30s`"), "{body}");
}

#[test]
fn send_checkin_with_context_includes_details() {
    let ctx = CheckinContext {
        current_hat: Some("executor".to_string()),
        open_tasks: 3,
        closed_tasks: 5,
        cost: Some(format!("{:.4}", 1.2345)),
    };

    let body = make_service().send_checkin(10, 125, Some(&ctx)).unwrap();
    assert!(body.contains("executor"), "{body}");
    assert!(body.contains("**3** open, 5 closed"), "{body}");
    assert!(body.contains("$1.2345"), "{body}");
}

#[test]
fn send_checkin_empty_room_id_skips_send() {
    assert!(service_in("", "test-auth-token-12345").send_checkin(1, 30, None).is_none());
}

#[test]
fn service_stop_sends_farewell_message() {
    let farewell = make_service().stop().unwrap();
    assert!(
        farewell.contains("disconnecting"),
        "stop() should send a farewell message containing 'disconnecting'"
    );
    assert!(service_in("", "t").stop().is_none());
}

#[test]
fn a_rocketchat_service_starts_with_a_greeting() {
    let svc = make_service();
    let greeting = svc.start(true).unwrap().unwrap();
    assert!(greeting.contains("`main`"), "{greeting}");
    assert!(matches!(svc.start(false), Err(RocketChatError::Startup(_))));
    assert!(matches!(RocketChatService::send_without_runtime(), RocketChatError::Send(_)));
}

#[test]
fn rocketchat_messages_are_sent_with_retries() {
    let mut slept = Vec::new();
    let sent = RocketChatService::send_with_retry(
        true,
        |attempt| {
            if attempt < 2 {
                Err(RocketChatError::Send("down".to_string()))
            } else {
                Ok("m".to_string())
            }
        },
        |span| slept.push(span),
    );
    assert_eq!(sent.unwrap(), "m");
    assert_eq!(slept, vec![Duration::from_secs(1)]);
    let refused = RocketChatService::send_with_retry(false, |_| Ok("m".to_string()), |_| {});
    match refused {
        Err(RocketChatError::Send(cause)) => {
            assert_eq!(cause, "no tokio runtime available for sending")
        }
        other => panic!("unexpected {other:?}"),
    }
}

#[test]
fn robot_service_timeout_secs_returns_configured_value() {
    let svc = RocketChatService::new(
        PathBuf::from("/work"),
        "https://chat.example.com".to_string(),
        "test-auth-token-12345".to_string(),
        "bot-user-id".to_string(),
        "room-abc".to_string(),
        None,
        42,
        "main".to_string(),
    );

    assert_eq!(svc.timeout_secs(), 42);
}

#[test]
fn retry_with_backoff_succeeds_on_first_attempt() {
    let attempts = std::sync::Arc::new(std::sync::Mutex::new(Vec::new()));
    let attempts_clone = attempts.clone();

    let result = retry_with_backoff(
        |attempt| {
            attempts_clone.lock().unwrap().push(attempt);
            Ok("msg-1".to_string())
        },
        |_delay| {},
    );

    assert!(result.is_ok());
    assert_eq!(result.unwrap(), "msg-1");
    assert_eq!(*attempts.lock().unwrap(), vec![1]);
}

#[test]
fn retry_with_backoff_succeeds_on_second_attempt() {
    let attempts = std::sync::Arc::new(std::sync::Mutex::new(Vec::new()));
    let attempts_clone = attempts.clone();
    let delays = std::sync::Arc::new(std::sync::Mutex::new(Vec::new()));
    let delays_clone = delays.clone();

    let result = retry_with_backoff(
        |attempt| {
            attempts_clone.lock().unwrap().push(attempt);
            if attempt < 2 {
                Err(RocketChatError::Send("transient".to_string()))
            } else {
                Ok("msg-2".to_string())
            }
        },
        |delay| {
            delays_clone.lock().unwrap().push(delay);
        },
    );

    assert!(result.is_ok());
    assert_eq!(result.unwrap(), "msg-2");
    assert_eq!(*attempts.lock().unwrap(), vec![1, 2]);
    assert_eq!(*delays.lock().unwrap(), vec![Duration::from_secs(1)]);
}

#[test]
fn retry_with_backoff_fails_after_all_retries() {
    let attempts = std::sync::Arc::new(std::sync::Mutex::new(Vec::new()));
    let attempts_clone = attempts.clone();
    let delays = std::sync::Arc::new(std::sync::Mutex::new(Vec::new()));
    let delays_clone = delays.clone();

    let result = retry_with_backoff(
        |attempt| {
            attempts_clone.lock().unwrap().push(attempt);
            Err(RocketChatError::Send(format!("fail-{}", attempt)))
        },
        |delay| {
            delays_clone.lock().unwrap().push(delay);
        },
    );

    assert!(result.is_err());
    let err = result.unwrap_err();
    assert!(matches!(err, RocketChatError::Send(_)));
    assert!(err.message().contains("fail-3"));
    assert_eq!(*attempts.lock().unwrap(), vec![1, 2, 3]);
    assert_eq!(
        *delays.lock().unwrap(),
        vec![Duration::from_secs(1), Duration::from_secs(2)]
    );
}

const BUILD_DONE: &str =
    "{\"topic\":\"build.done\",\"payload\":\"done\",\"ts\":\"2026-01-30T00:00:00Z\"}\n";

#[test]
fn service_check_for_response_json_format() {
    let events = format!(
        "{BUILD_DONE}{}\n",
        r#"{"topic":"human.response","payload":"Use async","ts":"2026-01-30T00:01:00Z"}"#
    );

    let mut pos: u64 = 0;
    let result = RocketChatService::check_for_response(Some(&events), &mut pos);
    assert_eq!(result, Some("Use async".to_string()));
}

#[test]
fn service_check_for_response_pipe_format() {
    let events = format!(
        "{}\n",
        r#"EVENT: human.response | message: "Use sync" | timestamp: "2026-01-30T00:01:00Z""#
    );

    let mut pos: u64 = 0;
    let result = RocketChatService::check_for_response(Some(&events), &mut pos);
    assert_eq!(result, Some("Use sync".to_string()));
}

#[test]
fn service_check_for_response_missing_file() {
    let mut pos: u64 = 0;
    let result = RocketChatService::check_for_response(None, &mut pos);
    assert_eq!(result, None);
    assert_eq!(pos, 0);
}

#[test]
fn service_check_for_response_tracks_position() {
    let mut pos: u64 = 0;
    let result = RocketChatService::check_for_response(Some(BUILD_DONE), &mut pos);
    assert_eq!(result, None);
    assert!(pos > 0, "position should advance after reading");
    assert_eq!(pos, BUILD_DONE.len() as u64);

    let pos_after_first = pos;

    let second = format!(
        "{}\n",
        r#"{"topic":"human.response","payload":"yes","ts":"2026-01-30T00:02:00Z"}"#
    );
    let result = RocketChatService::check_for_response(Some(&second), &mut pos);
    assert_eq!(result, Some("yes".to_string()));
    assert!(pos > pos_after_first, "position should advance further");
}

#[test]
fn service_wait_for_response_returns_on_response() {
    let svc = make_service();
    let found = WaitEvent::Searched(Some("Use async".to_string()));
    match svc.wait_for_response(found) {
        WaitAction::Finish(answer) => assert_eq!(answer, Some("Use async".to_string())),
        other => panic!("unexpected action {other:?}"),
    }
    let mut state = no_state(&svc);
    svc.store_question(&mut state, Some(Ok("m".to_string()))).unwrap();
    svc.remove_pending_for_loop(&mut state);
    assert!(state.pending_questions.is_empty());
}

#[test]
fn service_wait_for_response_returns_none_on_timeout() {
    let event = WaitEvent::Checked { expired: true, shutdown: false };
    assert!(matches!(make_service().wait_for_response(event), WaitAction::Finish(None)));
}

#[test]
fn service_wait_for_response_returns_none_on_shutdown() {
    let event = WaitEvent::Checked { expired: false, shutdown: true };
    assert!(matches!(make_service().wait_for_response(event), WaitAction::Finish(None)));
}

fn said(id: &str, user: &str, ts: &str, text: &str) -> RcMessage {
    RcMessage {
        id: id.to_string(),
        rid: "room-abc".to_string(),
        msg: text.to_string(),
        u: RcUser { id: user.to_string(), username: user.to_string(), name: None },
        ts: ts.to_string(),
        tmid: None,
        t: None,
    }
}

#[test]
fn polling_goes_on_from_the_last_sync() {
    let svc = make_service();
    assert!(matches!(
        svc.poll_messages_at(PollEvent::Checked { shutdown: false }, "now".to_string()),
        PollAction::LoadState
    ));
    let loaded = PollEvent::Loaded { last_sync: Some("then".to_string()) };
    match svc.poll_messages_at(loaded, "now".to_string()) {
        PollAction::Sync { since } => assert_eq!(since, "then"),
        other => panic!("unexpected action {other:?}"),
    }
    match svc.poll_messages_at(PollEvent::Loaded { last_sync: None }, "now".to_string()) {
        PollAction::Sync { since } => assert_eq!(since, "now"),
        other => panic!("unexpected action {other:?}"),
    }
    match svc.poll_messages_at(PollEvent::Handled, "now".to_string()) {
        PollAction::SaveState { last_sync } => assert_eq!(last_sync, "now"),
        other => panic!("unexpected action {other:?}"),
    }
    match svc.poll_messages(PollEvent::Handled) {
        PollAction::SaveState { last_sync } => {
            assert!(chrono::DateTime::parse_from_rfc3339(&last_sync).is_ok());
        }
        other => panic!("unexpected action {other:?}"),
    }
    assert!(matches!(
        svc.poll_messages(PollEvent::Checked { shutdown: true }),
        PollAction::Stop
    ));
}

#[test]
fn idle_daemon_moves_behind_what_it_heard() {
    let daemon = RocketChatDaemon::new(
        "s".to_string(),
        "t".to_string(),
        "bot".to_string(),
        "room-abc".to_string(),
        Some("op".to_string()),
    );
    let mut last_update = "2026-01-01T00:00:00.000Z".to_string();
    let heard = daemon.idle_messages(
        SyncResult {
            updated: vec![
                said("1", "op", "2026-01-01T00:00:05.000Z", "build it"),
                said("2", "bot", "2026-01-01T00:00:09.000Z", "own words"),
                said("3", "eve", "2026-01-01T00:00:07.000Z", "noise"),
            ],
            deleted: vec![],
        },
        &mut last_update,
    );
    assert_eq!(heard, vec!["build it".to_string()]);
    assert_eq!(last_update, "2026-01-01T00:00:05.000Z");
    let nothing = SyncResult { updated: vec![], deleted: vec![] };
    assert!(daemon.idle_messages(nothing, &mut last_update).is_empty());
    assert_eq!(last_update, "2026-01-01T00:00:05.000Z");
}

#[test]
fn a_rocketchat_daemon_leaves_on_shutdown() {
    let (run, action) = DaemonRun::start(DaemonKind::RocketChat);
    assert!(matches!(action, DaemonAction::Send(_)));
    let (run, _) = run.step(DaemonEvent::Sent);
    let (run, action) = run.step(DaemonEvent::Checked { shutdown: true });
    assert!(matches!(action, DaemonAction::Send(_)), "{action:?}");
    let (_run, action) = run.step(DaemonEvent::Sent);
    assert!(matches!(action, DaemonAction::Exit), "{action:?}");
}

#[test]
fn a_failed_sync_rests() {
    let (run, _) = DaemonRun::start(DaemonKind::RocketChat);
    let (run, _) = run.step(DaemonEvent::Sent);
    let (run, _) = run.step(DaemonEvent::Checked { shutdown: false });
    let (_run, action) = run.step(DaemonEvent::SyncFailed);
    assert!(matches!(action, DaemonAction::Sleep(_)), "{action:?}");
}
