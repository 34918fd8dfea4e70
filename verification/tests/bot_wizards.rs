use ralph_robot::bot::config::{robot_text_in, save_rocketchat_config};
use ralph_robot::bot::onboard_matrix::{MatrixAction, MatrixEvent, MatrixSetup};
use ralph_robot::bot::onboard_rocketchat::{RocketChatAction, RocketChatEvent, RocketChatSetup};
use ralph_robot::bot::onboard_telegram::{TelegramAction, TelegramEvent, TelegramSetup};
use ralph_robot::bot::telegram::{BotInfo, UpdateInfo};
use ralph_robot::matrix::types::RoomInfo;
use ralph_robot::rocketchat::types::{RcRoom, RcUser};
use ralph_robot::yaml;

fn owned(s: &str) -> String {
    s.to_string()
}

fn bot() -> BotInfo {
    BotInfo { first_name: owned("Ralph"), username: owned("ralph_bot") }
}

#[test]
fn telegram_setup_goes_through() {
    let (mut setup, printed, action) = TelegramSetup::start(false, 120, None, None);
    assert!(printed.contains("Ralph Telegram Bot Setup"));
    assert!(matches!(action, TelegramAction::ReadLine));
    let (printed, action) = setup.step(TelegramEvent::Line(owned("  \n")));
    assert!(printed.contains("Token cannot be empty"));
    assert!(matches!(action, TelegramAction::ReadLine));
    let (_, action) = setup.step(TelegramEvent::Line(owned(" 1:abc \n")));
    match action {
        TelegramAction::CheckToken(token) => assert_eq!(token, "1:abc"),
        other => panic!("unexpected {other:?}"),
    }
    let (printed, action) = setup.step(TelegramEvent::BotFound(bot()));
    assert!(printed.contains("OK: Token valid! Bot: @ralph_bot\n"), "{printed}");
    assert!(printed.contains("https://t.me/ralph_bot"));
    match action {
        TelegramAction::AwaitMessage(token, secs) => assert_eq!((token.as_str(), secs), ("1:abc", 120)),
        other => panic!("unexpected {other:?}"),
    }
    let update = UpdateInfo { chat_id: -42, from_name: owned("Ann") };
    let (printed, action) = setup.step(TelegramEvent::MessageFound(update));
    assert!(printed.contains("Message received from: Ann (chat_id: -42)"), "{printed}");
    match action {
        TelegramAction::StoreToken(token) => assert_eq!(token, "1:abc"),
        other => panic!("unexpected {other:?}"),
    }
    let (_, action) = setup.step(TelegramEvent::Done);
    assert!(matches!(action, TelegramAction::SaveConfig(120, None)), "{action:?}");
    let (_, action) = setup.step(TelegramEvent::Done);
    assert!(matches!(action, TelegramAction::SaveState(-42)), "{action:?}");
    let (_, action) = setup.step(TelegramEvent::Done);
    match action {
        TelegramAction::SendMessage(token, chat_id, words) => {
            assert_eq!((token.as_str(), chat_id), ("1:abc", -42));
            assert!(words.contains("setup complete"));
        }
        other => panic!("unexpected {other:?}"),
    }
    let (printed, action) = setup.step(TelegramEvent::Done);
    assert!(printed.contains("Setup complete!"), "{printed}");
    assert!(matches!(action, TelegramAction::Finish));
    let (printed, action) = setup.step(TelegramEvent::Done);
    assert_eq!(printed, "");
    assert!(matches!(action, TelegramAction::Ignore));
}

#[test]
fn a_locked_keychain_puts_the_token_into_the_config() {
    let (mut setup, _, action) = TelegramSetup::start(false, 60, Some(owned("1:abc")), Some(7));
    assert!(matches!(action, TelegramAction::CheckToken(_)));
    let (_, action) = setup.step(TelegramEvent::BotFound(bot()));
    assert!(matches!(action, TelegramAction::StoreToken(_)));
    let (printed, action) = setup.step(TelegramEvent::Failed(owned("locked")));
    assert!(printed.contains("Set RALPH_TELEGRAM_BOT_TOKEN env var instead."));
    match action {
        TelegramAction::SaveConfig(60, Some(token)) => assert_eq!(token, "1:abc"),
        other => panic!("unexpected {other:?}"),
    }
    let (printed, action) = setup.step(TelegramEvent::Done);
    assert!(printed.contains("legacy"), "{printed}");
    assert!(matches!(action, TelegramAction::SaveState(7)));
}

#[test]
fn telegram_setup_fails() {
    let (mut setup, _, _) = TelegramSetup::start(false, 60, Some(owned("1:abc")), None);
    let (printed, action) = setup.step(TelegramEvent::BotRefused(owned("Unauthorized")));
    assert!(printed.contains("ERROR: Token validation failed: Unauthorized"));
    match action {
        TelegramAction::Fail(reason) => assert_eq!(reason, "Token validation failed"),
        other => panic!("unexpected {other:?}"),
    }
    let (mut setup, _, _) = TelegramSetup::start(false, 60, Some(owned("1:abc")), None);
    setup.step(TelegramEvent::BotFound(bot()));
    let (_, action) = setup.step(TelegramEvent::NoMessage(owned("late")));
    match action {
        TelegramAction::Fail(reason) => assert_eq!(reason, "Chat ID detection failed"),
        other => panic!("unexpected {other:?}"),
    }
}

#[test]
fn rocketchat_setup_goes_through() {
    let (mut setup, _, action) = RocketChatSetup::start(
        false,
        Some(owned("https://rc.example.com")),
        Some(owned("typed-id")),
        None,
        None,
        None,
    );
    assert!(matches!(action, RocketChatAction::ReadLine));
    let (_, action) = setup.step(RocketChatEvent::Line(owned(" pat \n")));
    match action {
        RocketChatAction::CheckUser(server, token, user) => {
            assert_eq!(server, "https://rc.example.com");
            assert_eq!(token, "pat");
            assert_eq!(user, "typed-id");
        }
        other => panic!("unexpected {other:?}"),
    }
    let user = RcUser { id: owned("real-id"), username: owned("ralph"), name: None };
    let (printed, action) = setup.step(RocketChatEvent::UserFound(user));
    assert!(printed.contains("ralph"), "{printed}");
    assert!(matches!(action, RocketChatAction::ReadLine));
    let (_, action) = setup.step(RocketChatEvent::Line(owned("GENERAL")));
    match action {
        RocketChatAction::CheckRoom(room) => assert_eq!(room, "GENERAL"),
        other => panic!("unexpected {other:?}"),
    }
    let room = RcRoom { id: owned("GENERAL"), t: owned("c"), name: Some(owned("general")), fname: None };
    let (printed, action) = setup.step(RocketChatEvent::RoomFound(room));
    assert!(printed.contains("Room found: general"), "{printed}");
    assert!(matches!(action, RocketChatAction::ReadLine));
    let (_, action) = setup.step(RocketChatEvent::Line(owned("\n")));
    match action {
        RocketChatAction::StoreToken(token) => assert_eq!(token, "pat"),
        other => panic!("unexpected {other:?}"),
    }
    let (_, action) = setup.step(RocketChatEvent::Done);
    match action {
        RocketChatAction::SaveConfig(server, user, room, operator, token) => {
            assert_eq!(token, None);
            assert_eq!(server, "https://rc.example.com");
            assert_eq!(user, "real-id");
            assert_eq!(room, "GENERAL");
            assert_eq!(operator, None);
        }
        other => panic!("unexpected {other:?}"),
    }
    let (_, action) = setup.step(RocketChatEvent::Done);
    match action {
        RocketChatAction::SendMessage(room, _) => assert_eq!(room, "GENERAL"),
        other => panic!("unexpected {other:?}"),
    }
    let (printed, action) = setup.step(RocketChatEvent::Failed(owned("down")));
    assert!(printed.contains("Could not send test message: down"));
    assert!(matches!(action, RocketChatAction::Finish));
}

#[test]
fn rocketchat_token_falls_back_to_the_config() {
    let (mut setup, _, _) = RocketChatSetup::start(
        false,
        Some(owned("https://rc.example.com")),
        Some(owned("id")),
        Some(owned("pat")),
        Some(owned("GENERAL")),
        Some(owned("op")),
    );
    let user = RcUser { id: owned("id"), username: owned("ralph"), name: None };
    let (_, action) = setup.step(RocketChatEvent::UserFound(user));
    assert!(matches!(action, RocketChatAction::CheckRoom(_)));
    let (_, action) = setup.step(RocketChatEvent::Failed(owned("forbidden")));
    assert!(matches!(action, RocketChatAction::StoreToken(_)), "{action:?}");
    let (printed, action) = setup.step(RocketChatEvent::Failed(owned("locked")));
    assert!(printed.contains("Could not store token in keychain: locked"), "{printed}");
    match action {
        RocketChatAction::SaveConfig(server, user, room, operator, token) => {
            assert_eq!(token.as_deref(), Some("pat"));
            let content = save_rocketchat_config(
                None,
                &server,
                &user,
                &room,
                operator.as_deref(),
                token.as_deref(),
            )
            .unwrap();
            let config = yaml::parse(&content).unwrap();
            assert_eq!(robot_text_in(&config, "rocketchat", "auth_token"), Some("pat"));
            assert_eq!(robot_text_in(&config, "rocketchat", "room_id"), Some("GENERAL"));
        }
        other => panic!("unexpected {other:?}"),
    }
}

#[test]
fn rocketchat_setup_fails_on_bad_credentials() {
    let (mut setup, _, action) = RocketChatSetup::start(
        true,
        Some(owned("s")),
        Some(owned("u")),
        Some(owned("t")),
        Some(owned("r")),
        Some(owned("o")),
    );
    assert!(matches!(action, RocketChatAction::CheckUser(_, _, _)));
    let (_, action) = setup.step(RocketChatEvent::Failed(owned("HTTP 401")));
    match action {
        RocketChatAction::Fail(reason) => assert_eq!(reason, "Credential validation failed"),
        other => panic!("unexpected {other:?}"),
    }
}

#[test]
fn matrix_setup_goes_through_a_password() {
    let (mut setup, _, action) = MatrixSetup::start(false, None, None, None, None);
    assert!(matches!(action, MatrixAction::ReadLine));
    let (_, action) = setup.step(MatrixEvent::Line(owned("https://m.example.com")));
    assert!(matches!(action, MatrixAction::ReadLine));
    let (_, action) = setup.step(MatrixEvent::Line(owned("")));
    assert!(matches!(action, MatrixAction::ReadLine));
    let (_, action) = setup.step(MatrixEvent::Line(owned("ralph")));
    assert!(matches!(action, MatrixAction::ReadLine));
    let (_, action) = setup.step(MatrixEvent::Line(owned("secret")));
    match action {
        MatrixAction::Login(server, user, password) => {
            assert_eq!(server, "https://m.example.com");
            assert_eq!(user, "ralph");
            assert_eq!(password, "secret");
        }
        other => panic!("unexpected {other:?}"),
    }
    let (printed, action) = setup.step(MatrixEvent::Done);
    assert!(printed.contains("Password login successful!"));
    assert!(matches!(action, MatrixAction::ReadLine));
    let (_, action) = setup.step(MatrixEvent::Line(owned("syt")));
    match action {
        MatrixAction::LoginWithToken(server, token) => {
            assert_eq!(server, "https://m.example.com");
            assert_eq!(token, "syt");
        }
        other => panic!("unexpected {other:?}"),
    }
    let (_, action) = setup.step(MatrixEvent::Done);
    assert!(matches!(action, MatrixAction::FetchName));
    let (printed, action) = setup.step(MatrixEvent::NameFound(owned("Ralph")));
    assert!(printed.contains("Credentials valid! Bot: Ralph"));
    assert!(matches!(action, MatrixAction::ReadLine));
    let (_, action) = setup.step(MatrixEvent::Line(owned("!r:m")));
    assert!(matches!(action, MatrixAction::EnterRoom(_)), "{action:?}");
    let (_, action) = setup.step(MatrixEvent::Failed(owned("no sync")));
    match action {
        MatrixAction::CheckRoom(room) => assert_eq!(room, "!r:m"),
        other => panic!("unexpected {other:?}"),
    }
    let info = RoomInfo { room_id: owned("!r:m"), name: None, topic: None, member_count: 3 };
    let (printed, action) = setup.step(MatrixEvent::RoomFound(info));
    assert!(printed.contains("Room found: !r:m (3 members)"), "{printed}");
    assert!(matches!(action, MatrixAction::ReadLine));
    let (_, action) = setup.step(MatrixEvent::Line(owned("@op:m")));
    match action {
        MatrixAction::StoreToken(token) => assert_eq!(token, "syt"),
        other => panic!("unexpected {other:?}"),
    }
    let (_, action) = setup.step(MatrixEvent::Done);
    match action {
        MatrixAction::SaveConfig(server, room, operator) => {
            assert_eq!(server, "https://m.example.com");
            assert_eq!(room, "!r:m");
            assert_eq!(operator, Some(owned("@op:m")));
        }
        other => panic!("unexpected {other:?}"),
    }
    let (printed, action) = setup.step(MatrixEvent::Failed(owned("read-only")));
    assert!(printed.contains("Could not update ralph.yml: read-only"));
    assert!(matches!(action, MatrixAction::SendMessage(_, _)));
    let (_, action) = setup.step(MatrixEvent::Done);
    assert!(matches!(action, MatrixAction::Finish));
}

#[test]
fn a_refused_matrix_token_is_not_stored() {
    let (mut setup, _, action) = MatrixSetup::start(
        false,
        Some(owned("h")),
        Some(owned("bad")),
        Some(owned("!r")),
        Some(owned("@o")),
    );
    assert!(matches!(action, MatrixAction::LoginWithToken(_, _)));
    let (_, action) = setup.step(MatrixEvent::Failed(owned("M_UNKNOWN_TOKEN")));
    assert!(matches!(action, MatrixAction::Fail(_)));
    let (_, action) = setup.step(MatrixEvent::Done);
    assert!(matches!(action, MatrixAction::Ignore));
}
