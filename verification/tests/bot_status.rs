use ralph_robot::bot::console;
use ralph_robot::bot::daemon_setup::{
    build_adapter, file_not_found, plan_config, temp_config_name, Adapter, DaemonSettings,
    MatrixSection, RocketChatSection, SourceKind,
};
use ralph_robot::bot::status::{
    bot_status, bot_status_matrix, bot_status_rocketchat, bot_status_telegram,
    matrix_room_validated, matrix_validated, no_backend_text, report_state, report_state_content,
    rocketchat_room_validated, rocketchat_validated, telegram_validated, MatrixFacts, MatrixLogin,
    MatrixRoom, RocketChatFacts, StateReport, TelegramFacts,
};
use ralph_robot::bot::targets;
use ralph_robot::bot::telegram::BotInfo;
use ralph_robot::bot::tokens::Backend;
use ralph_robot::interact::{execute, InteractArgs, InteractCommands, ProgressArgs};
use ralph_robot::rocketchat::types::{RcRoom, RcUser};

fn text(s: &str) -> Option<String> {
    Some(s.to_string())
}

fn telegram_facts() -> TelegramFacts {
    TelegramFacts {
        keychain_token: text("key-secret"),
        env_token: None,
        config_token: text("config-secret"),
        robot_enabled: true,
        state: StateReport::Chat(42),
    }
}

#[test]
fn lines_have_colors() {
    let mut out = String::new();
    console::put_success(&mut out, true, "a");
    console::put_failure(&mut out, true, "b");
    console::put_warning(&mut out, true, "c");
    console::put_status(&mut out, true, "d");
    assert_eq!(
        out,
        "  \x1b[32m✓\x1b[0m a\n  \x1b[31m✗\x1b[0m b\n  \x1b[33m!\x1b[0m c\n  \x1b[2m-\x1b[0m d\n"
    );
    let mut out = String::new();
    console::put_success(&mut out, false, "a");
    console::put_failure(&mut out, false, "b");
    console::put_warning(&mut out, false, "c");
    console::put_status(&mut out, false, "d");
    assert_eq!(out, "  OK: a\n  ERROR: b\n  WARN: c\n  d\n");
}

#[test]
fn telegram_status_prefers_the_keychain_to_the_config() {
    let (report, token) = bot_status_telegram(&telegram_facts(), false);
    assert_eq!(token, text("key-secret"));
    assert_eq!(
        report,
        "  OK: Backend: Telegram\n\n  OK: Keychain: token stored\n  Env var: RALPH_TELEGRAM_BOT_TOKEN not set\n  WARN: Config: bot_token in ralph.yml (consider migrating to keychain)\n  OK: RObot: enabled in ralph.yml\n  OK: Telegram state: chat_id = 42\n\n  Validating token with Telegram API..."
    );
}

#[test]
fn reports_hide_tokens() {
    let shown = |token: &str| {
        let mut facts = telegram_facts();
        facts.keychain_token = text(token);
        facts.env_token = text(token);
        bot_status_telegram(&facts, true).0
    };
    assert_eq!(shown("one"), shown("two"));
}

#[test]
fn telegram_status_without_a_token() {
    let facts = TelegramFacts {
        keychain_token: None,
        env_token: None,
        config_token: None,
        robot_enabled: false,
        state: StateReport::Missing,
    };
    let (report, token) = bot_status_telegram(&facts, false);
    assert_eq!(token, None);
    assert!(report.ends_with("ERROR: No token available. Run `ralph bot onboard` to set up.\n"));
}

#[test]
fn telegram_states_are_read() {
    assert!(matches!(report_state_content(r#"{"chat_id": 5}"#), StateReport::Chat(5)));
    assert!(matches!(report_state_content(r#"{"chat_id": "5"}"#), StateReport::NoChat));
    assert!(matches!(report_state_content("{"), StateReport::Invalid));
    assert!(matches!(report_state(None), StateReport::Invalid));
}

#[test]
fn validations_are_reported() {
    let bot = BotInfo { first_name: "Ralph".to_string(), username: "ralph_bot".to_string() };
    assert!(telegram_validated(false, Ok(bot)).contains("ralph_bot"));
    assert!(telegram_validated(false, Err("Unauthorized".to_string())).contains("Unauthorized"));
    let user = RcUser { id: "u".to_string(), username: "ralph".to_string(), name: None };
    assert!(rocketchat_validated(false, Ok(user)).contains("ralph"));
    assert!(rocketchat_validated(false, Err("HTTP 401".to_string())).contains("HTTP 401"));
    let room = RcRoom { id: "r".to_string(), t: "c".to_string(), name: text("general"), fname: None };
    assert!(rocketchat_room_validated(false, Ok(room)).contains("general"));
    assert!(matrix_validated(false, MatrixLogin::Refused("no".to_string())).contains("no"));
    assert!(matrix_validated(false, MatrixLogin::Named("Ralph".to_string())).contains("Ralph"));
    assert!(matrix_room_validated(false, MatrixRoom::Closed("shut".to_string())).contains("shut"));
}

#[test]
fn room_backends_say_what_is_missing() {
    let mut facts = rocketchat_facts();
    assert!(bot_status_rocketchat(&facts, false).1);
    facts.bot_user_id = None;
    let (report, check) = bot_status_rocketchat(&facts, false);
    assert!(!check);
    assert!(report.contains("Cannot validate: missing server_url, auth_token, or bot_user_id"));
    let mut facts = matrix_facts();
    assert!(bot_status_matrix(&facts, false).1);
    facts.access_token = None;
    let (report, check) = bot_status_matrix(&facts, false);
    assert!(!check);
    assert!(report.contains("Cannot validate: missing homeserver_url or access_token"));
}

#[test]
fn without_a_backend_the_setup_is_explained() {
    let words = no_backend_text(false);
    assert!(words.starts_with("  ERROR: No RObot backend configured\n"));
    assert!(words.contains("ralph bot onboard --backend matrix"));
    assert!(bot_status(false, Backend::Unset).contains("No RObot backend configured"));
    assert_eq!(
        bot_status(false, Backend::Matrix),
        "\nRalph Bot Status\n================\n\n"
    );
}

// ── Targets ─────────────────────────────────────────────────────────────

fn rocketchat_facts() -> RocketChatFacts {
    RocketChatFacts {
        server_url: text("https://rc.example.com"),
        auth_token: text("pat"),
        bot_user_id: text("bot"),
        room_id: text("GENERAL"),
        operator_id: None,
        enabled: true,
    }
}

fn matrix_facts() -> MatrixFacts {
    MatrixFacts {
        homeserver_url: text("https://m.example.com"),
        in_keychain: false,
        in_env: true,
        in_config: false,
        access_token: text("syt"),
        bot_user_id: None,
        room_id: text("!r:m"),
        operator_id: None,
        enabled: true,
    }
}

#[test]
fn telegram_targets_need_a_token_and_a_chat() {
    assert_eq!(
        targets::telegram_target(text("t"), Some(3), targets::NO_TOKEN),
        Ok(("t".to_string(), 3))
    );
    assert_eq!(
        targets::telegram_target(None, None, targets::NO_PROGRESS_TOKEN),
        Err("No bot token. Run `ralph bot onboard` or set RALPH_TELEGRAM_BOT_TOKEN".to_string())
    );
    assert_eq!(
        targets::telegram_target(text("t"), None, targets::NO_TOKEN),
        Err("No chat_id found. Run `ralph bot onboard` to detect it".to_string())
    );
}

#[test]
fn rocketchat_targets_say_what_is_missing_first() {
    let target = targets::rocketchat_target(Some(rocketchat_facts())).unwrap();
    assert_eq!(target.room_id, "GENERAL");
    assert_eq!(target.auth_token, "pat");
    let lack = |change: fn(&mut RocketChatFacts)| {
        let mut facts = rocketchat_facts();
        change(&mut facts);
        targets::rocketchat_target(Some(facts)).unwrap_err()
    };
    assert_eq!(
        targets::rocketchat_target(None).unwrap_err(),
        "RObot.rocketchat section missing from ralph.yml"
    );
    assert!(lack(|f| f.server_url = None).starts_with("No server_url configured."));
    assert!(lack(|f| f.auth_token = None).starts_with("No auth_token configured."));
    assert!(lack(|f| f.bot_user_id = None).starts_with("No bot_user_id configured."));
    assert!(lack(|f| f.room_id = None).starts_with("No room_id configured."));
    assert!(lack(|f| {
        f.room_id = None;
        f.auth_token = None;
    })
    .starts_with("No auth_token configured."));
}

#[test]
fn matrix_targets_say_what_is_missing_first() {
    let target = targets::matrix_target(Some(matrix_facts())).unwrap();
    assert_eq!(target.homeserver_url, "https://m.example.com");
    let lack = |change: fn(&mut MatrixFacts)| {
        let mut facts = matrix_facts();
        change(&mut facts);
        targets::matrix_target(Some(facts)).unwrap_err()
    };
    assert_eq!(
        targets::matrix_target(None).unwrap_err(),
        "RObot.matrix section missing from ralph.yml"
    );
    assert!(lack(|f| f.homeserver_url = None).starts_with("No homeserver_url configured."));
    assert!(lack(|f| f.access_token = None).starts_with("No access_token configured."));
    assert!(lack(|f| f.room_id = None).starts_with("No room_id configured."));
}

#[test]
fn tests_report_how_they_went() {
    assert_eq!(targets::sending_to_chat(-5), "  Sending message to chat -5...");
    assert_eq!(targets::sending_to_room("!r"), "  Sending message to room !r...");
    assert_eq!(
        targets::test_outcome(false, Ok(())),
        ("\n  OK: Message sent!\n".to_string(), Ok(()))
    );
    assert_eq!(
        targets::test_outcome(false, Err("x".to_string())),
        ("\n  ERROR: Failed to send message: x\n".to_string(), Err("Send failed".to_string()))
    );
}

#[test]
fn progress_needs_a_backend() {
    let args = || InteractArgs {
        command: InteractCommands::Progress(ProgressArgs { message: "half".to_string() }),
    };
    assert_eq!(execute(args(), Backend::Matrix), Ok((Backend::Matrix, "half".to_string())));
    assert_eq!(
        execute(args(), Backend::Unset),
        Err("No RObot backend configured. Run `ralph bot onboard` to set up Telegram, Rocket.Chat, or Matrix.".to_string())
    );
}

// ── Daemon ──────────────────────────────────────────────────────────────

#[test]
fn test_run_daemon_errors_on_missing_config_file() {
    let plan = plan_config(&vec![SourceKind::File], false);
    assert_eq!(plan.file, Some(0));
    assert!(plan.direct);
    let err = file_not_found("missing.yml");
    assert!(
        err.contains("Config file not found"),
        "unexpected error: {err}"
    );
    assert_eq!(err, "Config file not found: missing.yml");
}

#[test]
fn config_sources_are_planned() {
    let plan = plan_config(&vec![], false);
    assert!(plan.needs_default && !plan.resolves && !plan.warns_resolved && !plan.direct);
    let plan = plan_config(&vec![SourceKind::Override, SourceKind::File, SourceKind::Other], false);
    assert_eq!(plan.file, Some(1));
    assert!(!plan.direct && plan.ignores_sources && plan.resolves && plan.warns_resolved);
    assert!(!plan.needs_default);
    let plan = plan_config(&vec![SourceKind::Other, SourceKind::File], false);
    assert_eq!(plan.file, None);
    assert!(plan.warns_resolved && !plan.resolves);
    let plan = plan_config(&vec![SourceKind::File], true);
    assert!(!plan.direct && plan.resolves);
    let plan = plan_config(&vec![SourceKind::Override], false);
    assert!(!plan.needs_default && !plan.warns_resolved && plan.resolves);
    assert_eq!(
        temp_config_name(17, 1_700_000_000_000_000_000_000),
        "daemon-config-17-1700000000000000000000.yml"
    );
}

fn settings() -> DaemonSettings {
    DaemonSettings {
        rocketchat: None,
        auth_token: text("pat"),
        server_url: text("https://rc.example.com"),
        matrix: None,
        access_token: text("syt"),
        homeserver_url: text("https://m.example.com"),
        operator_id: text("op"),
        bot_token: text("1:a"),
        chat_id: Some(9),
        env_api_url: None,
        config_api_url: text("http://config"),
    }
}

fn rocketchat_section() -> RocketChatSection {
    RocketChatSection { bot_user_id: text("bot"), room_id: text("GENERAL") }
}

#[test]
fn the_daemon_takes_rocketchat_first() {
    let mut with_both = settings();
    with_both.rocketchat = Some(rocketchat_section());
    with_both.matrix = Some(MatrixSection { room_id: text("!r") });
    match build_adapter(with_both, false).unwrap() {
        (Adapter::RocketChat(daemon), headline) => {
            assert_eq!(daemon.room_id, "GENERAL");
            assert_eq!(daemon.operator_id, text("op"));
            assert_eq!(headline, "Ralph Daemon (Rocket.Chat)\n");
        }
        other => panic!("unexpected {other:?}"),
    }
    let mut with_matrix = settings();
    with_matrix.matrix = Some(MatrixSection { room_id: text("!r") });
    match build_adapter(with_matrix, true).unwrap() {
        (Adapter::Matrix(daemon), headline) => {
            assert_eq!(daemon.access_token, "syt");
            assert_eq!(headline, "\x1b[1mRalph Daemon\x1b[0m (Matrix)\n");
        }
        other => panic!("unexpected {other:?}"),
    }
    match build_adapter(settings(), false).unwrap() {
        (Adapter::Telegram { token, api_url, chat_id }, _) => {
            assert_eq!(token, "1:a");
            assert_eq!(api_url, text("http://config"));
            assert_eq!(chat_id, 9);
        }
        other => panic!("unexpected {other:?}"),
    }
    let mut from_env = settings();
    from_env.env_api_url = text("http://env");
    match build_adapter(from_env, false).unwrap() {
        (Adapter::Telegram { api_url, .. }, _) => assert_eq!(api_url, text("http://env")),
        other => panic!("unexpected {other:?}"),
    }
}

#[test]
fn the_daemon_says_what_is_missing() {
    let lack = |change: fn(&mut DaemonSettings)| {
        let mut changed = settings();
        change(&mut changed);
        build_adapter(changed, false).unwrap_err()
    };
    assert!(lack(|s| {
        s.rocketchat = Some(rocketchat_section());
        s.auth_token = None;
        s.server_url = None;
    })
    .starts_with("No Rocket.Chat auth token available."));
    assert!(lack(|s| {
        s.rocketchat = Some(rocketchat_section());
        s.server_url = None;
    })
    .starts_with("No Rocket.Chat server URL available."));
    assert_eq!(
        lack(|s| s.rocketchat = Some(RocketChatSection { bot_user_id: None, room_id: None })),
        "RObot.rocketchat.bot_user_id is required"
    );
    assert_eq!(
        lack(|s| s.rocketchat = Some(RocketChatSection { bot_user_id: text("b"), room_id: None })),
        "RObot.rocketchat.room_id is required"
    );
    assert!(lack(|s| {
        s.matrix = Some(MatrixSection { room_id: None });
        s.access_token = None;
    })
    .starts_with("No Matrix access token available."));
    assert!(lack(|s| {
        s.matrix = Some(MatrixSection { room_id: None });
        s.homeserver_url = None;
    })
    .starts_with("No Matrix homeserver URL available."));
    assert_eq!(
        lack(|s| s.matrix = Some(MatrixSection { room_id: None })),
        "RObot.matrix.room_id is required"
    );
    assert_eq!(lack(|s| s.bot_token = None), targets::NO_TOKEN);
    assert_eq!(lack(|s| s.chat_id = None), targets::NO_CHAT);
}
