use ralph_robot::bot::config::{
    build_telegram_robot, detect_configured_backend_from, is_robot_enabled,
    load_config_api_url_from, load_config_bot_token_from, robot_text_in, save_bot_token_config,
    save_matrix_config, save_matrix_token_config, save_robot_config, save_rocketchat_config,
    save_rocketchat_token_config, set_robot, ConfigError,
};
use ralph_robot::bot::token_set::TokenSetting;
use ralph_robot::bot::tokens::Backend;
use ralph_robot::yaml;

fn tree(content: &str) -> serde_yaml::Value {
    serde_yaml::from_str(content).unwrap()
}

#[test]
fn test_save_robot_config_creates_minimal_config_without_token() {
    let content = save_robot_config(None, 180, None).expect("save robot config");

    let config: serde_yaml::Value = serde_yaml::from_str(&content).unwrap();
    let robot = config.get("RObot").unwrap();
    assert!(robot.get("enabled").unwrap().as_bool().unwrap());
    assert_eq!(
        robot.get("timeout_seconds").and_then(|v| v.as_u64()),
        Some(180)
    );
    assert!(robot.get("telegram").is_none());
}

#[test]
fn test_robot_config_yaml_generation() {
    let yaml = format!("RObot:\n  enabled: true\n  timeout_seconds: {}\n", 300);
    let saved = save_robot_config(None, 300, None).unwrap();
    assert_eq!(tree(&saved).get("RObot"), tree(&yaml).get("RObot"));
    let parsed: serde_yaml::Value = serde_yaml::from_str(&saved).unwrap();
    let robot = parsed.get("RObot").unwrap();
    assert!(robot.get("enabled").unwrap().as_bool().unwrap());
    assert_eq!(robot.get("timeout_seconds").unwrap().as_u64().unwrap(), 300);
}

#[test]
fn test_robot_config_update_preserves_existing() {
    let existing_yaml = "cli:\n  backend: local\nevent_loop:\n  max_iterations: 50\n";
    let doc = set_robot(yaml::parse(existing_yaml).unwrap(), build_telegram_robot(300, None));

    assert!(doc.get("cli").is_some());
    assert!(doc.get("event_loop").is_some());
    let robot = doc.get("RObot").unwrap();
    assert!(robot.get("enabled").unwrap().as_bool().unwrap());
}

#[test]
fn test_save_robot_config_with_token_writes_bot_token() {
    let content = save_robot_config(None, 300, Some("test-token")).unwrap();

    let config: serde_yaml::Value = serde_yaml::from_str(&content).unwrap();
    let token = config
        .get("RObot")
        .and_then(|r| r.get("telegram"))
        .and_then(|t| t.get("bot_token"))
        .and_then(|v| v.as_str());
    assert_eq!(token, Some("test-token"));
}

#[test]
fn test_save_robot_config_updates_existing_config() {
    let content = save_robot_config(Some("cli:\n  backend: local\n"), 120, None).unwrap();

    let config: serde_yaml::Value = serde_yaml::from_str(&content).unwrap();
    assert!(config.get("cli").is_some());
    let robot = config.get("RObot").unwrap();
    assert_eq!(
        robot.get("timeout_seconds").and_then(|v| v.as_u64()),
        Some(120)
    );
}

#[test]
fn test_load_config_bot_token_from_reads_token() {
    let yaml = "RObot:\n  telegram:\n    bot_token: token-123\n";

    let token = load_config_bot_token_from(Some(yaml));
    assert_eq!(token.as_deref(), Some("token-123"));
}

#[test]
fn test_load_config_bot_token_from_reads_lowercase_robot() {
    let yaml = "robot:\n  telegram:\n    bot_token: token-lower\n";

    let token = load_config_bot_token_from(Some(yaml));
    assert_eq!(token.as_deref(), Some("token-lower"));
}

#[test]
fn test_save_bot_token_config_writes_token() {
    let content = save_bot_token_config(None, "new-token").unwrap();

    let config: serde_yaml::Value = serde_yaml::from_str(&content).unwrap();
    let token = config
        .get("RObot")
        .and_then(|r| r.get("telegram"))
        .and_then(|t| t.get("bot_token"))
        .and_then(|v| v.as_str());
    assert_eq!(token, Some("new-token"));
}

#[test]
fn test_save_bot_token_config_preserves_existing() {
    let yaml = "cli:\n  backend: local\nRObot:\n  enabled: true\n";

    let content = save_bot_token_config(Some(yaml), "new-token").unwrap();

    let config: serde_yaml::Value = serde_yaml::from_str(&content).unwrap();
    assert!(config.get("cli").is_some());
    let robot = config.get("RObot").unwrap();
    assert_eq!(robot.get("enabled").and_then(|v| v.as_bool()), Some(true));
    let token = robot
        .get("telegram")
        .and_then(|t| t.get("bot_token"))
        .and_then(|v| v.as_str());
    assert_eq!(token, Some("new-token"));
}

#[test]
fn test_save_bot_token_config_updates_lowercase_robot_key() {
    let yaml = "robot:\n  enabled: true\n";

    let content = save_bot_token_config(Some(yaml), "token-xyz").unwrap();

    let config: serde_yaml::Value = serde_yaml::from_str(&content).unwrap();
    let token = config
        .get("robot")
        .and_then(|r| r.get("telegram"))
        .and_then(|t| t.get("bot_token"))
        .and_then(|v| v.as_str());
    assert_eq!(token, Some("token-xyz"));
    assert!(config.get("RObot").is_none());
}

#[test]
fn test_load_config_bot_token_reads_legacy_config() {
    let content = "RObot:\n  telegram:\n    bot_token: legacy-token\n";

    assert_eq!(
        load_config_bot_token_from(Some(content)).as_deref(),
        Some("legacy-token")
    );
}

#[test]
fn test_is_robot_enabled_reads_config() {
    assert!(is_robot_enabled(Some("RObot:\n  enabled: true\n")));

    assert!(!is_robot_enabled(Some("RObot:\n  enabled: false\n")));
}

#[test]
fn test_is_robot_enabled_missing_config_returns_false() {
    assert!(!is_robot_enabled(None));
}

#[test]
fn test_is_robot_enabled_invalid_yaml_returns_false() {
    assert!(!is_robot_enabled(Some("not: [valid")));
}

#[test]
fn test_load_config_bot_token_from_missing_file_returns_none() {
    assert_eq!(load_config_bot_token_from(None), None);
}

#[test]
fn test_detect_backend_telegram() {
    assert_eq!(
        detect_configured_backend_from(Some(
            "RObot:\n  enabled: true\n  telegram:\n    bot_token: tok\n"
        )),
        Backend::Telegram
    );
}

#[test]
fn test_detect_backend_rocketchat() {
    assert_eq!(
        detect_configured_backend_from(Some(
            "RObot:\n  enabled: true\n  rocketchat:\n    server_url: https://rc.example.com\n"
        )),
        Backend::RocketChat
    );
}

#[test]
fn test_detect_backend_none_when_no_backend_section() {
    assert_eq!(
        detect_configured_backend_from(Some("RObot:\n  enabled: true\n")),
        Backend::Unset
    );
}

#[test]
fn test_detect_backend_none_when_no_robot_section() {
    assert_eq!(
        detect_configured_backend_from(Some("cli:\n  backend: local\n")),
        Backend::Unset
    );
}

#[test]
fn test_detect_backend_none_when_file_missing() {
    assert_eq!(detect_configured_backend_from(None), Backend::Unset);
}

#[test]
fn test_detect_backend_lowercase_robot_key() {
    assert_eq!(
        detect_configured_backend_from(Some("robot:\n  telegram:\n    bot_token: tok\n")),
        Backend::Telegram
    );
}

#[test]
fn test_detect_backend_rocketchat_wins_when_both_present() {
    assert_eq!(
        detect_configured_backend_from(Some(
            "RObot:\n  telegram:\n    bot_token: tok\n  rocketchat:\n    server_url: https://rc.example.com\n"
        )),
        Backend::RocketChat
    );
}

#[test]
fn test_detect_backend_invalid_yaml_returns_none() {
    assert_eq!(
        detect_configured_backend_from(Some("not: [valid yaml")),
        Backend::Unset
    );
}

#[test]
fn test_detect_backend_matrix() {
    assert_eq!(
        detect_configured_backend_from(Some(
            "RObot:\n  enabled: true\n  matrix:\n    homeserver_url: https://matrix.example.com\n"
        )),
        Backend::Matrix
    );
}

#[test]
fn test_detect_backend_matrix_and_telegram() {
    assert_eq!(
        detect_configured_backend_from(Some(
            "RObot:\n  telegram:\n    bot_token: tok\n  matrix:\n    homeserver_url: https://matrix.example.com\n"
        )),
        Backend::Matrix
    );
}

#[test]
fn test_detect_backend_rc_wins_over_matrix() {
    assert_eq!(
        detect_configured_backend_from(Some(
            "RObot:\n  matrix:\n    homeserver_url: https://matrix.example.com\n  rocketchat:\n    server_url: https://rc.example.com\n"
        )),
        Backend::RocketChat
    );
}

#[test]
fn a_section_without_content_is_detected() {
    assert_eq!(detect_configured_backend_from(Some("RObot:\n  matrix:\n")), Backend::Matrix);
    assert_eq!(detect_configured_backend_from(Some("RObot: 3\n")), Backend::Unset);
    assert_eq!(detect_configured_backend_from(Some("- a\n- b\n")), Backend::Unset);
}

#[test]
fn tagged_documents_are_read_through() {
    let content = "!x\nRObot: !y\n  enabled: true\n  telegram: !z\n    bot_token: !t tok\n";
    assert!(is_robot_enabled(Some(content)));
    assert_eq!(load_config_bot_token_from(Some(content)).as_deref(), Some("tok"));
}

#[test]
fn api_url_is_read() {
    let content = "RObot:\n  telegram:\n    api_url: http://localhost:8081\n";
    assert_eq!(
        load_config_api_url_from(Some(content)).as_deref(),
        Some("http://localhost:8081")
    );
    assert_eq!(load_config_api_url_from(Some("RObot:\n  telegram:\n    api_url: 7\n")), None);
    assert_eq!(load_config_api_url_from(None), None);
}

#[test]
fn room_sections_are_read() {
    let config = yaml::parse(
        "RObot:\n  rocketchat:\n    server_url: https://rc.example.com\n    room_id: GENERAL\n",
    )
    .unwrap();
    assert_eq!(
        robot_text_in(&config, "rocketchat", "server_url"),
        Some("https://rc.example.com")
    );
    assert_eq!(robot_text_in(&config, "rocketchat", "room_id"), Some("GENERAL"));
    assert_eq!(robot_text_in(&config, "rocketchat", "auth_token"), None);
    assert_eq!(robot_text_in(&config, "matrix", "room_id"), None);
}

#[test]
fn saved_tokens_are_read_back() {
    let content = save_bot_token_config(Some("a: 1\n"), "t: #1").unwrap();
    assert_eq!(load_config_bot_token_from(Some(&content)).as_deref(), Some("t: #1"));
    assert_eq!(tree(&content)["a"].as_u64(), Some(1));

    let content = save_matrix_token_config(Some("robot:\n  matrix:\n    room_id: r\n"), "syt").unwrap();
    assert_eq!(tree(&content)["robot"]["matrix"]["access_token"].as_str(), Some("syt"));
    assert_eq!(tree(&content)["robot"]["matrix"]["room_id"].as_str(), Some("r"));

    let content = save_rocketchat_token_config(Some(""), "pat").unwrap();
    assert_eq!(tree(&content)["RObot"]["rocketchat"]["auth_token"].as_str(), Some("pat"));
}

#[test]
fn printable_texts_are_read_back() {
    let printable: Vec<char> = (' '..='~').collect();
    let mut texts: Vec<String> = vec![
        String::new(),
        "   ".to_string(),
        "- a: b # c".to_string(),
        "!tag x".to_string(),
        "'it''s'".to_string(),
        "0123".to_string(),
        "-0x1F".to_string(),
        "1_000".to_string(),
        ".nan".to_string(),
        "null".to_string(),
        "{a: [b]}".to_string(),
        "--- ".to_string(),
        "a".repeat(2000),
        "word ".repeat(400),
    ];
    for first in &printable {
        texts.push(first.to_string());
        for second in &printable {
            texts.push(format!("{first}{second}"));
        }
    }
    for text in &texts {
        let content = save_bot_token_config(None, text).unwrap();
        assert_eq!(load_config_bot_token_from(Some(&content)).as_ref(), Some(text));
        let mut entries = Vec::new();
        entries.push((yaml::Yaml::Text(text.clone()), yaml::Yaml::Number(serde_yaml::Number::from(u64::MAX))));
        let printed = yaml::print(yaml::Yaml::mapping(entries)).unwrap();
        let back = tree(&printed);
        assert_eq!(back[text.as_str()].as_u64(), Some(u64::MAX), "{printed}");
    }
}

#[test]
fn a_token_replaces_what_is_no_mapping() {
    let content = save_bot_token_config(Some("RObot: nothing\n"), "tok").unwrap();
    assert_eq!(load_config_bot_token_from(Some(&content)).as_deref(), Some("tok"));
}

#[test]
fn every_backend_gets_its_token_field() {
    let set = |name: &str| {
        TokenSetting::begin(Some(name), Backend::Unset, true, false)
            .unwrap()
            .config_content(None, "tok")
            .unwrap()
    };
    assert_eq!(tree(&set("telegram"))["RObot"]["telegram"]["bot_token"].as_str(), Some("tok"));
    assert_eq!(tree(&set("rocketchat"))["RObot"]["rocketchat"]["auth_token"].as_str(), Some("tok"));
    assert_eq!(tree(&set("matrix"))["RObot"]["matrix"]["access_token"].as_str(), Some("tok"));
}

#[test]
fn token_messages_name_their_place() {
    let setting = TokenSetting::begin(None, Backend::RocketChat, false, false).unwrap();
    let outcome = setting.after_keychain(Ok(()));
    assert_eq!(
        outcome.printed,
        "  OK: Token stored in OS keychain (ralph/rocketchat-auth-token)\n"
    );
    let outcome = setting.after_keychain(Err("locked".to_string()));
    assert!(outcome.write_config);
    assert!(!outcome.keychain_ok);
    assert!(outcome.printed.contains("Could not store token in keychain: locked"));
    let printed = setting.after_config(false, "ralph.yml");
    assert!(printed.contains("Token stored in ralph.yml"));
    assert!(printed.contains("Keychain storage failed; token saved to ralph.yml instead."));
    assert!(!setting.after_config(true, "ralph.yml").contains("instead"));
}

#[test]
fn room_setups_are_written() {
    let content = save_rocketchat_config(
        None,
        "https://rc.example.com",
        "bot123",
        "GENERAL",
        Some("user456"),
        None,
    )
    .unwrap();
    assert!(tree(&content)["RObot"]["rocketchat"].get("auth_token").is_none());
    let robot = tree(&content)["RObot"].clone();
    assert_eq!(robot["enabled"].as_bool(), Some(true));
    assert_eq!(robot["timeout_seconds"].as_u64(), Some(300));
    assert_eq!(robot["operator_id"].as_str(), Some("user456"));
    assert_eq!(robot["rocketchat"]["server_url"].as_str(), Some("https://rc.example.com"));
    assert_eq!(robot["rocketchat"]["bot_user_id"].as_str(), Some("bot123"));
    assert_eq!(robot["rocketchat"]["room_id"].as_str(), Some("GENERAL"));
    assert_eq!(detect_configured_backend_from(Some(&content)), Backend::RocketChat);

    let content =
        save_matrix_config(Some("cli: {}\n"), "https://m.example.com", "!r:m", None).unwrap();
    let robot = tree(&content)["RObot"].clone();
    assert!(tree(&content).get("cli").is_some());
    assert!(robot.get("operator_id").is_none());
    assert_eq!(robot["matrix"]["homeserver_url"].as_str(), Some("https://m.example.com"));
    assert_eq!(robot["matrix"]["room_id"].as_str(), Some("!r:m"));
    assert_eq!(detect_configured_backend_from(Some(&content)), Backend::Matrix);

    let content =
        save_matrix_config(None, "https://m.example.com", "!r:m", Some("@op:m")).unwrap();
    let robot = tree(&content)["RObot"].clone();
    assert_eq!(robot["enabled"].as_bool(), Some(true));
    assert_eq!(robot["timeout_seconds"].as_u64(), Some(300));
    assert_eq!(robot["matrix"]["homeserver_url"].as_str(), Some("https://m.example.com"));
    assert_eq!(robot["matrix"]["room_id"].as_str(), Some("!r:m"));
    assert_eq!(robot["operator_id"].as_str(), Some("@op:m"));
    assert_eq!(detect_configured_backend_from(Some(&content)), Backend::Matrix);
    assert!(is_robot_enabled(Some(&content)));
    let content =
        save_matrix_config(Some("{}"), "https://m.example.com", "!r:m", Some("@op:m")).unwrap();
    assert_eq!(tree(&content)["RObot"]["matrix"]["room_id"].as_str(), Some("!r:m"));
    assert_eq!(tree(&content)["RObot"]["operator_id"].as_str(), Some("@op:m"));
}

#[test]
fn a_setup_goes_into_any_document() {
    for existing in ["", "~\n", "null\n", "# nothing yet\n", "- a\n", "word\n"] {
        let content = save_robot_config(Some(existing), 60, Some("1:abc")).unwrap();
        assert!(is_robot_enabled(Some(&content)), "{existing:?}: {content}");
        assert_eq!(load_config_bot_token_from(Some(&content)).as_deref(), Some("1:abc"));
        assert_eq!(tree(&content)["RObot"]["timeout_seconds"].as_u64(), Some(60));
    }
}

#[test]
fn a_new_telegram_config_is_minimal() {
    let content = save_robot_config(None, 180, None).unwrap();
    assert_eq!(content, "RObot:\n  enabled: true\n  timeout_seconds: 180\n");
    let content = save_robot_config(None, 180, Some("a: b # c")).unwrap();
    assert_eq!(load_config_bot_token_from(Some(&content)).as_deref(), Some("a: b # c"));
}

#[test]
fn a_token_leaves_every_kind_of_value_alone() {
    let existing = "list:\n- 1\n- -2\n- 3.5\n- null\n- [a, {b: ~}]\ntext: |\n  zwei\n  Zeilen äöü\n7: seven\nRObot:\n  enabled: true\n  telegram: {api_url: x}\n";
    let content = save_bot_token_config(Some(existing), "t\u{e9}").unwrap();
    assert_eq!(load_config_bot_token_from(Some(&content)).as_deref(), Some("t\u{e9}"));
    assert_eq!(load_config_api_url_from(Some(&content)).as_deref(), Some("x"));
    for key in ["list", "text"] {
        assert_eq!(tree(&content)[key], tree(existing)[key]);
    }
    assert_eq!(tree(&content)[7].as_str(), Some("seven"));
    assert!(is_robot_enabled(Some(&content)));
}

#[test]
fn unparsed_configs_are_errors() {
    assert!(matches!(
        save_robot_config(Some("not: [valid"), 1, None),
        Err(ConfigError::Unparsed)
    ));
    assert!(matches!(save_bot_token_config(Some("a: ["), "t"), Err(ConfigError::Unparsed)));
    assert_eq!(ConfigError::Unparsed.message("x.yml"), "Failed to parse x.yml");
    assert_eq!(ConfigError::Unprintable.message("x.yml"), "Failed to serialize config");
}
