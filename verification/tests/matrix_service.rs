use ralph_robot::daemon::{DaemonAction, DaemonEvent, DaemonKind, DaemonRun, LockReport};
use ralph_robot::matrix::daemon::MatrixDaemon;
use ralph_robot::matrix::error::MatrixError;
use ralph_robot::matrix::service::{retry_with_backoff, MatrixService, PollAction, PollEvent};
use ralph_robot::matrix::state::MatrixState;
use ralph_robot::matrix::types::{MatrixMessage, SyncResult};
use ralph_robot::place::Location;
use ralph_robot::service::{CheckinContext, WaitAction, WaitEvent};
use std::path::PathBuf;
use std::time::Duration;

fn path_of(location: &Location) -> PathBuf {
    let mut path = location.base.clone();
    for part in &location.parts {
        path = path.join(part);
    }
    path
}

#[test]
fn test_matrix_daemon_creation() {
    let daemon = MatrixDaemon::new(
        "https://matrix.example.com".to_string(),
        "syt_secret_token".to_string(),
        "!room-123:example.com".to_string(),
        None,
    );
    assert_eq!(daemon.homeserver_url, "https://matrix.example.com");
    assert_eq!(daemon.access_token, "syt_secret_token");
    assert_eq!(daemon.room_id, "!room-123:example.com");
    assert_eq!(daemon.operator_id, None);
}

#[test]
fn test_matrix_daemon_with_operator_id() {
    let daemon = MatrixDaemon::new(
        "https://matrix.example.com".to_string(),
        "syt_secret_token".to_string(),
        "!room-123:example.com".to_string(),
        Some("@operator:example.com".to_string()),
    );
    assert_eq!(daemon.homeserver_url, "https://matrix.example.com");
    assert_eq!(daemon.access_token, "syt_secret_token");
    assert_eq!(daemon.room_id, "!room-123:example.com");
    assert_eq!(
        daemon.operator_id,
        Some("@operator:example.com".to_string())
    );
}

fn make_service() -> MatrixService {
    MatrixService::new(
        PathBuf::from("/work"),
        "!room:example.com".to_string(),
        Some("@operator:example.com".to_string()),
        300,
        "main".to_string(),
    )
}

fn make_service_empty_room() -> MatrixService {
    MatrixService::new(PathBuf::from("/work"), String::new(), None, 300, "main".to_string())
}

fn no_state(svc: &MatrixService) -> MatrixState {
    svc.state_manager().load_or_default(None)
}

#[test]
fn new_creates_service_with_correct_fields() {
    let svc = make_service();

    assert_eq!(svc.workspace_root(), &PathBuf::from("/work"));
    assert_eq!(svc.room_id(), "!room:example.com");
    assert_eq!(svc.operator_id(), Some("@operator:example.com"));
    assert_eq!(svc.timeout_secs(), 300);
    assert_eq!(svc.loop_id(), "main");
}

#[test]
fn operator_id_none_when_not_set() {
    let svc = MatrixService::new(
        PathBuf::from("/work"),
        "!room:example.com".to_string(),
        None,
        120,
        "worktree-1".to_string(),
    );

    assert_eq!(svc.operator_id(), None);
    assert_eq!(svc.loop_id(), "worktree-1");
    assert_eq!(svc.timeout_secs(), 120);
}

#[test]
fn state_manager_points_to_correct_path() {
    let svc = make_service();

    let expected_path = PathBuf::from("/work").join(".ralph/matrix-state.json");
    assert_eq!(path_of(svc.state_manager().path()), expected_path);
}

#[test]
fn send_question_sends_via_mock_and_stores_pending() {
    let mut svc = make_service();
    let mut state = no_state(&svc);

    assert!(svc.send_question("What should I do?").unwrap().contains("What should I do?"));
    let sent = Some(Ok("$evt1:example.com".to_string()));
    svc.store_question(&mut state, sent, "What should I do?").unwrap();
    let counter = svc.count_question(Ok(())).unwrap();
    assert_eq!(counter, 1);

    let pending = state.pending_questions.get("$evt1:example.com");
    assert!(pending.is_some());
    let pq = pending.unwrap();
    assert_eq!(pq.loop_id.as_deref(), Some("main"));
    assert_eq!(pq.question, "What should I do?");
}

#[test]
fn send_question_increments_counter() {
    let mut svc = make_service();
    let mut state = no_state(&svc);

    let sent = Some(Ok("$evt1:example.com".to_string()));
    svc.store_question(&mut state, sent, "First?").unwrap();
    let c1 = svc.count_question(Ok(())).unwrap();
    let sent = Some(Ok("$evt2:example.com".to_string()));
    svc.store_question(&mut state, sent, "Second?").unwrap();
    let c2 = svc.count_question(Ok(())).unwrap();
    assert_eq!(c1, 1);
    assert_eq!(c2, 2);
    let sent = Some(Err(MatrixError::SendFailed("x".to_string())));
    assert!(svc.store_question(&mut state, sent, "Third?").is_err());
    assert!(svc.count_question(Err(MatrixError::State("disk full".to_string()))).is_err());
    assert_eq!(svc.message_count(), 2);
    assert_eq!(state.pending_questions.len(), 2);
}

#[test]
fn send_question_empty_room_skips_send() {
    let mut svc = make_service_empty_room();
    let mut state = no_state(&svc);

    assert!(svc.send_question("Should I proceed?").is_none());
    svc.store_question(&mut state, None, "Should I proceed?").unwrap();
    let counter = svc.count_question(Ok(())).unwrap();
    assert_eq!(counter, 1);

    assert_eq!(state.pending_questions.len(), 1);
    let pq = state.pending_questions.get("").unwrap();
    assert_eq!(pq.question, "Should I proceed?");
}

#[test]
fn send_checkin_basic_format() {
    let svc = make_service();

    let body = svc.send_checkin(3, Duration::from_secs(125).as_secs(), None).unwrap();
    assert!(body.contains("iteration **3**"), "body: {}", body);
    assert!(body.contains("`2m 5s`"), "body: {}", body);
}

#[test]
fn send_checkin_with_context() {
    let svc = make_service();

    let ctx = CheckinContext {
        current_hat: Some("executor".to_string()),
        open_tasks: 3,
        closed_tasks: 1,
        cost: Some(format!("{:.4}", 0.1234)),
    };

    let body = svc.send_checkin(5, Duration::from_secs(42).as_secs(), Some(&ctx)).unwrap();
    assert!(body.contains("iteration **5**"), "body: {}", body);
    assert!(body.contains("`42s`"), "body: {}", body);
    assert!(body.contains("Hat: `executor`"), "body: {}", body);
    assert!(
        body.contains("Tasks: **3** open, 1 closed"),
        "body: {}",
        body
    );
    assert!(body.contains("Cost: `$0.1234`"), "body: {}", body);
}

#[test]
fn send_checkin_empty_room_skips() {
    let svc = make_service_empty_room();

    assert!(svc.send_checkin(1, 10, None).is_none());
}

#[test]
fn check_for_response_json_format() {
    let events = "{\"topic\":\"human.response\",\"payload\":\"yes, proceed\"}\n";

    let mut pos: u64 = 0;
    let result = MatrixService::check_for_response(Some(events), &mut pos);
    assert_eq!(result, Some("yes, proceed".to_string()));
    assert!(pos > 0);
    assert_eq!(pos, events.len() as u64);
}

#[test]
fn check_for_response_pipe_format() {
    let events = "2026-03-12 EVENT: human.response | message: \"do it\"\n";

    let mut pos: u64 = 0;
    let result = MatrixService::check_for_response(Some(events), &mut pos);
    assert_eq!(result, Some("do it".to_string()));
}

#[test]
fn check_for_response_missing_file() {
    let mut pos: u64 = 0;
    let result = MatrixService::check_for_response(None, &mut pos);
    assert_eq!(result, None);
    assert_eq!(pos, 0);
}

#[test]
fn check_for_response_tracks_position() {
    let first = "{\"topic\":\"other\",\"payload\":\"ignore\"}\n";

    let mut pos: u64 = 0;
    let result = MatrixService::check_for_response(Some(first), &mut pos);
    assert_eq!(result, None);
    let pos_after_first = pos;
    assert!(pos_after_first > 0);
    assert_eq!(pos_after_first, 37);

    let second = "{\"topic\":\"human.response\",\"payload\":\"ok\"}\n";
    let result = MatrixService::check_for_response(Some(second), &mut pos);
    assert_eq!(result, Some("ok".to_string()));
    assert!(pos > pos_after_first);
}

#[test]
fn wait_for_response_returns_on_response() {
    let svc = make_service();
    let mut state = no_state(&svc);
    let sent = Some(Ok("$q1:example.com".to_string()));
    svc.store_question(&mut state, sent, "What next?").unwrap();

    let open = || WaitEvent::Checked { expired: false, shutdown: false };
    assert!(matches!(svc.wait_for_response(open()), WaitAction::Search));
    assert!(matches!(svc.wait_for_response(WaitEvent::Searched(None)), WaitAction::Pause));
    assert!(matches!(svc.wait_for_response(open()), WaitAction::Search));
    let found = WaitEvent::Searched(Some("do the thing".to_string()));
    match svc.wait_for_response(found) {
        WaitAction::Finish(answer) => assert_eq!(answer, Some("do the thing".to_string())),
        other => panic!("unexpected action {other:?}"),
    }

    assert!(svc.remove_pending_for_loop(&mut state));
    assert!(state.pending_questions.is_empty());
    assert!(!svc.remove_pending_for_loop(&mut state));
}

#[test]
fn wait_for_response_returns_none_on_timeout() {
    let svc = make_service();
    let event = WaitEvent::Checked { expired: true, shutdown: false };
    assert!(matches!(svc.wait_for_response(event), WaitAction::Finish(None)));
}

#[test]
fn wait_for_response_returns_none_on_shutdown() {
    let svc = make_service();
    let event = WaitEvent::Checked { expired: false, shutdown: true };
    assert!(matches!(svc.wait_for_response(event), WaitAction::Finish(None)));
}

#[test]
fn only_questions_of_the_own_loop_are_removed() {
    let svc = make_service();
    let mut state = no_state(&svc);
    svc.state_manager().add_pending_question(&mut state, "$other", Some("other"), "?");
    assert!(!svc.remove_pending_for_loop(&mut state));
    assert_eq!(state.pending_questions.len(), 1);
}

#[test]
fn stop_sends_farewell_message() {
    let farewell = make_service().stop().unwrap();
    assert!(
        farewell.contains("disconnecting"),
        "stop() should send a farewell message containing 'disconnecting'"
    );
    assert!(farewell.contains("`main`"));
}

#[test]
fn stop_empty_room_skips_farewell() {
    assert!(make_service_empty_room().stop().is_none());
}

#[test]
fn starting_needs_a_runtime() {
    let svc = make_service();
    let greeting = svc.start(true).unwrap().unwrap();
    assert!(greeting.contains("main"), "{greeting}");
    assert!(greeting.contains("Matrix"), "{greeting}");
    assert!(make_service_empty_room().start(true).unwrap().is_none());
    assert_eq!(
        svc.start(false).unwrap_err().message(),
        "matrix startup error: no tokio runtime available for polling"
    );
}

#[test]
fn retry_with_backoff_first_attempt() {
    let result = retry_with_backoff(|_| Ok("$event1:example.com".to_string()), |_| {});
    assert_eq!(result.unwrap(), "$event1:example.com");
}

#[test]
fn retry_with_backoff_second_attempt() {
    let mut call_count = 0u32;
    let result = retry_with_backoff(
        |_| {
            call_count += 1;
            if call_count == 1 {
                Err(MatrixError::SendFailed("transient".to_string()))
            } else {
                Ok("$event2:example.com".to_string())
            }
        },
        |_| {},
    );
    assert_eq!(result.unwrap(), "$event2:example.com");
    assert_eq!(call_count, 2);
}

#[test]
fn retry_with_backoff_all_fail() {
    let mut call_count = 0u32;
    let result = retry_with_backoff(
        |_| {
            call_count += 1;
            Err(MatrixError::SendFailed("permanent".to_string()))
        },
        |_| {},
    );
    assert!(result.is_err());
    assert_eq!(call_count, 3);
    let err = result.unwrap_err().message();
    assert!(err.contains("failed after 3 attempts"));
    assert!(err.contains("permanent"));
}

#[test]
fn matrix_retries_sleep_longer() {
    let mut attempts: Vec<u32> = Vec::new();
    let mut slept: Vec<Duration> = Vec::new();
    let result = retry_with_backoff(
        |attempt| {
            attempts.push(attempt);
            Err(MatrixError::Network("down".to_string()))
        },
        |span| slept.push(span),
    );
    assert!(result.is_err());
    assert_eq!(attempts, vec![1, 2, 3]);
    assert_eq!(slept, vec![Duration::from_secs(1), Duration::from_secs(2)]);
}

fn said(sender: &str, room: &str, body: &str) -> MatrixMessage {
    MatrixMessage {
        sender_id: sender.to_string(),
        body: body.to_string(),
        event_id: format!("${body}"),
        timestamp: 0,
        room_id: room.to_string(),
        reply_to_event_id: None,
    }
}

#[test]
fn without_an_operator_all_but_the_bot_are_heard() {
    let svc = MatrixService::new(
        PathBuf::from("/work"),
        "!room:example.com".to_string(),
        None,
        300,
        "main".to_string(),
    );
    let result = SyncResult {
        messages: vec![
            said("@bot:example.com", "!room:example.com", "own"),
            said("@anyone:example.com", "!room:example.com", "a"),
            said("@bot:example.com.evil", "!room:example.com", "b"),
            said("@anyone:example.com", "!other:example.com", "c"),
        ],
    };
    match svc.poll_messages(PollEvent::Synced(result), "@bot:example.com") {
        PollAction::Handle(messages) => {
            let bodies: Vec<&str> = messages.iter().map(|m| m.body.as_str()).collect();
            assert_eq!(bodies, vec!["a", "b"]);
        }
        other => panic!("unexpected action {other:?}"),
    }
}

#[test]
fn matrix_messages_are_sent_with_retries() {
    let mut attempts = Vec::new();
    let mut slept = Vec::new();
    let sent = MatrixService::send_with_retry(
        true,
        |attempt| {
            attempts.push(attempt);
            if attempt < 3 {
                Err(MatrixError::SendFailed("down".to_string()))
            } else {
                Ok("$sent".to_string())
            }
        },
        |span| slept.push(span),
    );
    assert_eq!(sent.unwrap(), "$sent");
    assert_eq!(attempts, vec![1, 2, 3]);
    assert_eq!(slept, vec![Duration::from_secs(1), Duration::from_secs(2)]);
    let refused = MatrixService::send_with_retry(false, |_| Ok("$sent".to_string()), |_| {});
    match refused {
        Err(MatrixError::SendFailed(cause)) => {
            assert_eq!(cause, "no tokio runtime available for sending")
        }
        other => panic!("unexpected {other:?}"),
    }
}

#[test]
fn polling_hears_only_the_operator_in_the_room() {
    let svc = make_service();
    assert!(matches!(
        svc.poll_messages(PollEvent::Checked { shutdown: false }, "@bot:example.com"),
        PollAction::LoadState
    ));
    assert!(matches!(
        svc.poll_messages(PollEvent::Loaded { ok: true }, "@bot:example.com"),
        PollAction::Sync { timeout_secs: 30 }
    ));
    let result = SyncResult {
        messages: vec![
            said("@operator:example.com", "!room:example.com", "a"),
            said("@operator:example.com", "!other:example.com", "b"),
            said("@someone:example.com", "!room:example.com", "c"),
        ],
    };
    match svc.poll_messages(PollEvent::Synced(result), "@bot:example.com") {
        PollAction::Handle(messages) => {
            assert_eq!(messages.len(), 1);
            assert_eq!(messages[0].body, "a");
        }
        other => panic!("unexpected action {other:?}"),
    }
    assert!(matches!(svc.poll_messages(PollEvent::Handled, "@bot:example.com"), PollAction::SaveState));
    assert!(matches!(svc.poll_messages(PollEvent::Saved, "@bot:example.com"), PollAction::Sleep { secs: 1 }));
    assert!(matches!(
        svc.poll_messages(PollEvent::Loaded { ok: false }, "@bot:example.com"),
        PollAction::Sleep { secs: 1 }
    ));
    assert!(matches!(
        svc.poll_messages(PollEvent::SyncFailed { shutdown: false }, "@bot:example.com"),
        PollAction::Sleep { secs: 5 }
    ));
    assert!(matches!(
        svc.poll_messages(PollEvent::Checked { shutdown: true }, "@bot:example.com"),
        PollAction::Stop
    ));
}

#[test]
fn idle_daemon_hears_the_operator_but_not_itself() {
    let daemon = MatrixDaemon::new(
        "h".to_string(),
        "t".to_string(),
        "!room:example.com".to_string(),
        None,
    );
    let heard = daemon.idle_messages(
        SyncResult {
            messages: vec![
                said("@Ralph:x", "!room:example.com", "own words"),
                said("@a:x", "!room:example.com", "  build it  "),
                said("@b:x", "!elsewhere:x", "and test it"),
            ],
        },
        "Ralph",
    );
    assert_eq!(heard, vec!["  build it  ".to_string(), "and test it".to_string()]);
    assert_eq!(MatrixDaemon::bot_name(None), "Ralph Bot");
    assert_eq!(MatrixDaemon::bot_name(Some("Ralph".to_string())), "Ralph");
    assert!(MatrixDaemon::login_failure("bad").contains("bad"));
    assert!(MatrixDaemon::room_failure("gone").contains("gone"));
}

#[test]
fn a_prompt_runs_a_loop() {
    let (run, action) = DaemonRun::start(DaemonKind::Matrix);
    assert!(matches!(action, DaemonAction::Send(_)));
    let (run, action) = run.step(DaemonEvent::Sent);
    assert!(matches!(action, DaemonAction::CheckShutdown), "{action:?}");
    let (run, action) = run.step(DaemonEvent::Checked { shutdown: false });
    assert!(matches!(action, DaemonAction::Sync), "{action:?}");
    let (run, action) = run.step(DaemonEvent::Synced(vec!["build it".to_string()]));
    assert!(matches!(action, DaemonAction::ReadLock), "{action:?}");
    let (run, action) = run.step(DaemonEvent::LockRead(LockReport::Inactive));
    assert!(matches!(action, DaemonAction::Send(_)), "{action:?}");
    let (run, action) = run.step(DaemonEvent::Sent);
    match &action {
        DaemonAction::RunLoop(prompt) => assert_eq!(prompt, "build it"),
        other => panic!("unexpected action {other:?}"),
    }
    let (run, action) = run.step(DaemonEvent::LoopCompleted("Done".to_string()));
    match &action {
        DaemonAction::Send(words) => assert!(words.contains("Done"), "{words}"),
        other => panic!("unexpected action {other:?}"),
    }
    let (_run, action) = run.step(DaemonEvent::Sent);
    assert!(matches!(action, DaemonAction::Settle), "{action:?}");
}

#[test]
fn a_running_loop_bars_another() {
    let (run, _) = DaemonRun::start(DaemonKind::Matrix);
    let (run, _) = run.step(DaemonEvent::Sent);
    let (run, _) = run.step(DaemonEvent::Checked { shutdown: false });
    let (run, _) = run.step(DaemonEvent::Synced(vec!["build it".to_string()]));
    let (_run, action) = run.step(DaemonEvent::LockRead(LockReport::Active));
    match action {
        DaemonAction::Send(words) => assert!(words.contains("already running"), "{words}"),
        other => panic!("unexpected action {other:?}"),
    }
}

#[test]
fn a_command_is_answered() {
    let (run, _) = DaemonRun::start(DaemonKind::Matrix);
    let (run, _) = run.step(DaemonEvent::Sent);
    let (run, _) = run.step(DaemonEvent::Checked { shutdown: false });
    let (run, action) = run.step(DaemonEvent::Synced(vec!["!status".to_string()]));
    match &action {
        DaemonAction::AnswerCommand(words) => assert_eq!(words, "!status"),
        other => panic!("unexpected action {other:?}"),
    }
    let (_run, action) = run.step(DaemonEvent::Answered(Some("fine".to_string())));
    match action {
        DaemonAction::Send(words) => assert_eq!(words, "fine"),
        other => panic!("unexpected action {other:?}"),
    }
}
