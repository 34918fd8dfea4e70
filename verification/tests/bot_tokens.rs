use ralph_robot::bot::args::{BotArgs, BotCommands, DaemonArgs, OnboardArgs, SetTokenArgs, TestArgs, TokenArgs, TokenCommands};
use ralph_robot::bot::commands::{bot_token, execute, BotTask};
use ralph_robot::bot::keychain::{entry_text, store_step, StoreAction, StoreEvent, StorePhase, SERVICE};
use ralph_robot::bot::targets;
use ralph_robot::bot::token_set::TokenSetting;
use ralph_robot::bot::tokens::{
    backend_by_name, normalize_token, resolve_token_from, unknown_backend, unknown_backend_message,
    Backend,
};
use std::path::PathBuf;

#[test]
fn test_normalize_token_trims_and_discards_empty() {
    assert_eq!(normalize_token(None), None);
    assert_eq!(
        normalize_token(Some("  token-123  ".to_string())),
        Some("token-123".to_string())
    );
    assert_eq!(normalize_token(Some("   ".to_string())), None);
}

#[test]
fn normalize_token_trims_like_std() {
    for sample in ["\u{2003}a b\u{a0}", "\t\n", "\u{200b}x", "é ", "\u{3000}\u{1680}k\u{85}", ""] {
        let expected = Some(sample.trim().to_string()).filter(|t| !t.is_empty());
        assert_eq!(normalize_token(Some(sample.to_string())), expected);
    }
    for c in '\0'..=char::MAX {
        let kept = normalize_token(Some(c.to_string())).is_some();
        assert_eq!(kept, !c.is_whitespace(), "{:?}", c);
    }
}

#[test]
fn test_resolve_token_from_prefers_env_then_keychain_then_config() {
    let resolved = resolve_token_from(
        Some("  env-token  ".to_string()),
        Some("key-token".to_string()),
        Some("config-token".to_string()),
    );
    assert_eq!(resolved.as_deref(), Some("env-token"));

    let resolved = resolve_token_from(
        Some("   ".to_string()),
        Some("  key-token  ".to_string()),
        Some("config-token".to_string()),
    );
    assert_eq!(resolved.as_deref(), Some("key-token"));

    let resolved = resolve_token_from(None, None, Some("  cfg  ".to_string()));
    assert_eq!(resolved.as_deref(), Some("cfg"));
}

#[test]
fn test_resolve_token_from_prefers_env_and_trims() {
    let resolved = resolve_token_from(
        Some("  env-token  ".to_string()),
        Some("keychain-token".to_string()),
        Some("config-token".to_string()),
    );

    assert_eq!(resolved.as_deref(), Some("env-token"));
}

#[test]
fn test_resolve_token_from_skips_empty_values() {
    let resolved = resolve_token_from(
        Some("   ".to_string()),
        Some(String::new()),
        Some(" config-token ".to_string()),
    );

    assert_eq!(resolved.as_deref(), Some("config-token"));
}

#[test]
fn test_resolve_token_from_returns_none_when_all_empty() {
    let resolved = resolve_token_from(
        Some("   ".to_string()),
        Some(String::new()),
        Some("   ".to_string()),
    );

    assert_eq!(resolved, None);
}

#[test]
fn backends_are_known_by_name() {
    assert_eq!(backend_by_name("telegram"), Some(Backend::Telegram));
    assert_eq!(backend_by_name("rocketchat"), Some(Backend::RocketChat));
    assert_eq!(backend_by_name("matrix"), Some(Backend::Matrix));
    assert_eq!(backend_by_name("Matrix"), None);
    assert_eq!(backend_by_name(""), None);
}

#[test]
fn unknown_backends_are_quoted() {
    assert_eq!(
        unknown_backend("sl\"ack\n", "Supported"),
        "Unknown backend \"sl\\\"ack\\n\". Supported: telegram, rocketchat, matrix"
    );
    assert_eq!(
        unknown_backend_message("'x'", "Supported backends"),
        "Unknown backend 'x'. Supported backends: telegram, rocketchat, matrix"
    );
}

fn onboarding(backend: &str) -> OnboardArgs {
    OnboardArgs {
        backend: backend.to_string(),
        token: None,
        chat_id: None,
        timeout: 120,
        server_url: None,
        bot_user_id: None,
        auth_token: None,
        room_id: None,
        operator_id: None,
        homeserver_url: None,
        access_token: None,
    }
}

#[test]
fn test_execute_onboard_unknown_backend_errors() {
    let args = BotArgs {
        command: BotCommands::Onboard(OnboardArgs {
            backend: "slack".to_string(),
            token: None,
            chat_id: None,
            timeout: 120,
            server_url: None,
            bot_user_id: None,
            auth_token: None,
            room_id: None,
            operator_id: None,
            homeserver_url: None,
            access_token: None,
        }),
    };
    let err = execute(args).expect_err("expected error for unknown backend");
    assert!(
        err.to_string().contains("Unknown backend"),
        "unexpected error: {err}"
    );
    assert!(
        err.to_string().contains("slack"),
        "error should mention the bad backend: {err}"
    );
    assert_eq!(
        err,
        "Unknown backend \"slack\". Supported backends: telegram, rocketchat, matrix"
    );
}

#[test]
fn execute_finds_the_task() {
    let known = [
        ("telegram", Backend::Telegram),
        ("rocketchat", Backend::RocketChat),
        ("matrix", Backend::Matrix),
    ];
    for (name, backend) in known {
        match execute(BotArgs { command: BotCommands::Onboard(onboarding(name)) }) {
            Ok(BotTask::Onboard(found, args)) => {
                assert_eq!(found, backend);
                assert_eq!(args.backend, name);
            }
            other => panic!("unexpected task: {other:?}"),
        }
    }
    assert!(matches!(
        execute(BotArgs { command: BotCommands::Status }),
        Ok(BotTask::Status)
    ));
    assert!(matches!(
        execute(BotArgs { command: BotCommands::Daemon(DaemonArgs {}) }),
        Ok(BotTask::Daemon)
    ));
    match execute(BotArgs {
        command: BotCommands::Test(TestArgs { message: "hi".to_string(), backend: None }),
    }) {
        Ok(BotTask::Test(args)) => assert_eq!(args.message, "hi"),
        other => panic!("unexpected task: {other:?}"),
    }
    let set = || SetTokenArgs {
        token: "t".to_string(),
        config: Some(PathBuf::from("a.yml")),
        backend: None,
    };
    match bot_token(TokenArgs { command: TokenCommands::SetToken(set()) }) {
        BotTask::StoreToken(args) => assert_eq!(args.token, "t"),
        other => panic!("unexpected task: {other:?}"),
    }
    match execute(BotArgs {
        command: BotCommands::Token(TokenArgs { command: TokenCommands::SetToken(set()) }),
    }) {
        Ok(BotTask::StoreToken(args)) => {
            assert_eq!(args.config, Some(PathBuf::from("a.yml")));
        }
        other => panic!("unexpected task: {other:?}"),
    }
}

#[test]
fn the_named_backend_is_tested() {
    assert_eq!(targets::test_backend(None, Backend::Telegram), Ok(Backend::Telegram));
    assert_eq!(targets::test_backend(Some("matrix"), Backend::Telegram), Ok(Backend::Matrix));
    assert_eq!(
        targets::test_backend(Some("irc"), Backend::Telegram),
        Err("Unknown backend \"irc\". Supported: telegram, rocketchat, matrix".to_string())
    );
}

#[test]
fn keychain_entries_have_names() {
    assert_eq!(SERVICE, "ralph");
    assert_eq!(entry_text(Backend::Telegram), "telegram-bot-token");
    assert_eq!(entry_text(Backend::RocketChat), "rocketchat-auth-token");
    assert_eq!(entry_text(Backend::Matrix), "matrix-access-token");
}

#[test]
fn storing_retries_after_a_deletion() {
    let (phase, action) = store_step(StorePhase::Opening, StoreEvent::Done);
    assert!(matches!(action, StoreAction::SetPassword));
    let (phase, action) = store_step(phase, StoreEvent::Failed("busy".to_string()));
    assert!(matches!(action, StoreAction::DeleteEntry));
    let (phase, action) = store_step(phase, StoreEvent::Done);
    assert!(matches!(action, StoreAction::SetPassword));
    let (phase, action) = store_step(phase, StoreEvent::Done);
    assert!(matches!(action, StoreAction::Finish));
    assert!(matches!(phase, StorePhase::Over));
}

#[test]
fn token_setting_without_config_keeps_to_the_keychain() {
    let setting = TokenSetting::begin(Some("matrix"), Backend::Telegram, false, false).unwrap();
    assert_eq!(setting.backend, Backend::Matrix);
    let outcome = setting.after_keychain(Ok(()));
    assert!(outcome.keychain_ok);
    assert!(!outcome.write_config);
    assert!(TokenSetting::begin(Some("irc"), Backend::Telegram, false, false).is_err());
    let unset = TokenSetting::begin(None, Backend::Unset, false, false).unwrap();
    assert_eq!(unset.backend, Backend::Telegram);
}
