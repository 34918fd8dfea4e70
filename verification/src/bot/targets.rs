//! Where the commands that send a message send it to.

use super::console::{self, put_failure, put_success};
use super::status::{MatrixFacts, RocketChatFacts};
use super::tokens::{self, Backend};
use crate::text;
use vstd::prelude::*;

verus! {

/// The error of a Telegram command without a chat.
pub const NO_CHAT: &'static str = "No chat_id found. Run `ralph bot onboard` to detect it";

/// The error of a test or a daemon without a Telegram token.
pub const NO_TOKEN: &'static str =
    "No bot token available. Run `ralph bot onboard` or set RALPH_TELEGRAM_BOT_TOKEN";

/// The error of a progress message without a Telegram token.
pub const NO_PROGRESS_TOKEN: &'static str =
    "No bot token. Run `ralph bot onboard` or set RALPH_TELEGRAM_BOT_TOKEN";

/// The error of a config without a Rocket.Chat section.
pub const NO_ROCKETCHAT: &'static str = "RObot.rocketchat section missing from ralph.yml";

/// The error of a config without a Matrix section.
pub const NO_MATRIX: &'static str = "RObot.matrix section missing from ralph.yml";

/// The error of a Rocket.Chat setup without a server.
pub const NO_SERVER_URL: &'static str =
    "No server_url configured. Run `ralph bot onboard --backend rocketchat`";

/// The error of a Rocket.Chat setup without an auth token.
pub const NO_AUTH_TOKEN: &'static str =
    "No auth_token configured. Set RALPH_ROCKETCHAT_AUTH_TOKEN or run `ralph bot onboard --backend rocketchat`";

/// The error of a Rocket.Chat setup without the bot's user ID.
pub const NO_BOT_USER_ID: &'static str =
    "No bot_user_id configured. Run `ralph bot onboard --backend rocketchat`";

/// The error of a Rocket.Chat setup without a room.
pub const NO_ROCKETCHAT_ROOM: &'static str =
    "No room_id configured. Run `ralph bot onboard --backend rocketchat`";

/// The error of a Matrix setup without a homeserver.
pub const NO_HOMESERVER_URL: &'static str =
    "No homeserver_url configured. Run `ralph bot onboard --backend matrix`";

/// The error of a Matrix setup without an access token.
pub const NO_ACCESS_TOKEN: &'static str =
    "No access_token configured. Set RALPH_MATRIX_ACCESS_TOKEN or run `ralph bot onboard --backend matrix`";

/// The error of a Matrix setup without a room.
pub const NO_MATRIX_ROOM: &'static str =
    "No room_id configured. Run `ralph bot onboard --backend matrix`";

/// The error of a progress message without a backend.
pub const NO_PROGRESS_BACKEND: &'static str =
    "No RObot backend configured. Run `ralph bot onboard` to set up Telegram, Rocket.Chat, or Matrix.";

/// What a progress message prints once it was sent.
pub const SENT: &'static str = "Sent.\n";

/// A Rocket.Chat room and the credentials for it.
#[derive(Debug)]
pub struct RocketChatTarget {
    /// The server.
    pub server_url: String,
    /// The auth token.
    pub auth_token: String,
    /// The bot's user ID.
    pub bot_user_id: String,
    /// The room.
    pub room_id: String,
}

/// A Matrix room and the credentials for it.
#[derive(Debug)]
pub struct MatrixTarget {
    /// The homeserver.
    pub homeserver_url: String,
    /// The access token.
    pub access_token: String,
    /// The room.
    pub room_id: String,
}

/// The Telegram chat to send to and the token for it; the error says what is
/// missing first.
pub fn telegram_target(token: Option<String>, chat_id: Option<i64>, no_token: &str) -> (r: Result<
    (String, i64),
    String,
>)
    ensures
        match r {
            Ok(target) => token == Some(target.0) && chat_id == Some(target.1),
            Err(words) => words@ == (if token is None {
                no_token@
            } else {
                NO_CHAT@
            }) && (token is None || chat_id is None),
        },
{
    match token {
        None => Err(String::from_str(no_token)),
        Some(known) => match chat_id {
            None => Err(String::from_str(NO_CHAT)),
            Some(chat) => Ok((known, chat)),
        },
    }
}

/// What is missing first of a Rocket.Chat target.
pub open spec fn rocketchat_lack(facts: Option<RocketChatFacts>) -> Option<Seq<char>> {
    match facts {
        None => Some(NO_ROCKETCHAT@),
        Some(known) => if known.server_url is None {
            Some(NO_SERVER_URL@)
        } else if known.auth_token is None {
            Some(NO_AUTH_TOKEN@)
        } else if known.bot_user_id is None {
            Some(NO_BOT_USER_ID@)
        } else if known.room_id is None {
            Some(NO_ROCKETCHAT_ROOM@)
        } else {
            None
        },
    }
}

/// The Rocket.Chat room to send to, given what is configured if there is a
/// section for it; the error says what is missing first.
pub fn rocketchat_target(facts: Option<RocketChatFacts>) -> (r: Result<RocketChatTarget, String>)
    ensures
        match r {
            Ok(target) => rocketchat_lack(facts) is None && facts->0.server_url == Some(
                target.server_url,
            ) && facts->0.auth_token == Some(target.auth_token) && facts->0.bot_user_id == Some(
                target.bot_user_id,
            ) && facts->0.room_id == Some(target.room_id),
            Err(words) => rocketchat_lack(facts) == Some(words@),
        },
{
    match facts {
        None => Err(String::from_str(NO_ROCKETCHAT)),
        Some(known) => match known.server_url {
            None => Err(String::from_str(NO_SERVER_URL)),
            Some(server_url) => match known.auth_token {
                None => Err(String::from_str(NO_AUTH_TOKEN)),
                Some(auth_token) => match known.bot_user_id {
                    None => Err(String::from_str(NO_BOT_USER_ID)),
                    Some(bot_user_id) => match known.room_id {
                        None => Err(String::from_str(NO_ROCKETCHAT_ROOM)),
                        Some(room_id) => Ok(
                            RocketChatTarget { server_url, auth_token, bot_user_id, room_id },
                        ),
                    },
                },
            },
        },
    }
}

/// What is missing first of a Matrix target.
pub open spec fn matrix_lack(facts: Option<MatrixFacts>) -> Option<Seq<char>> {
    match facts {
        None => Some(NO_MATRIX@),
        Some(known) => if known.homeserver_url is None {
            Some(NO_HOMESERVER_URL@)
        } else if known.access_token is None {
            Some(NO_ACCESS_TOKEN@)
        } else if known.room_id is None {
            Some(NO_MATRIX_ROOM@)
        } else {
            None
        },
    }
}

/// The Matrix room to send to, given what is configured if there is a section for
/// it; the error says what is missing first.
pub fn matrix_target(facts: Option<MatrixFacts>) -> (r: Result<MatrixTarget, String>)
    ensures
        match r {
            Ok(target) => matrix_lack(facts) is None && facts->0.homeserver_url == Some(
                target.homeserver_url,
            ) && facts->0.access_token == Some(target.access_token) && facts->0.room_id == Some(
                target.room_id,
            ),
            Err(words) => matrix_lack(facts) == Some(words@),
        },
{
    match facts {
        None => Err(String::from_str(NO_MATRIX)),
        Some(known) => match known.homeserver_url {
            None => Err(String::from_str(NO_HOMESERVER_URL)),
            Some(homeserver_url) => match known.access_token {
                None => Err(String::from_str(NO_ACCESS_TOKEN)),
                Some(access_token) => match known.room_id {
                    None => Err(String::from_str(NO_MATRIX_ROOM)),
                    Some(room_id) => Ok(MatrixTarget { homeserver_url, access_token, room_id }),
                },
            },
        },
    }
}

/// The backend to test: the one that is named, else the one that is configured.
/// An unknown name is an error.
pub fn test_backend(named: Option<&str>, configured: Backend) -> (r: Result<Backend, String>)
    ensures
        match named {
            None => r == Ok::<Backend, String>(configured),
            Some(name) => match tokens::backend_named(name@) {
                Some(backend) => r == Ok::<Backend, String>(backend),
                None => r matches Err(words) && words@ == "Unknown backend "@ + tokens::debug_text(
                    name@,
                ) + ". "@ + "Supported"@ + ": telegram, rocketchat, matrix"@,
            },
        },
{
    match named {
        None => Ok(configured),
        Some(name) => match tokens::backend_by_name(name) {
            Some(backend) => Ok(backend),
            None => Err(tokens::unknown_backend(name, "Supported")),
        },
    }
}

/// What a test prints before it sends its message to a chat.
pub fn sending_to_chat(chat_id: i64) -> (r: String)
    ensures
        r@ == "  Sending message to chat "@ + text::decimal_int(chat_id as int) + "..."@,
{
    text::cat3("  Sending message to chat ", &text::signed_number(chat_id), "...")
}

/// What a test prints before it sends its message to a room.
pub fn sending_to_room(room_id: &str) -> (r: String)
    ensures
        r@ == "  Sending message to room "@ + room_id@ + "..."@,
{
    text::cat3("  Sending message to room ", room_id, "...")
}

/// What a test prints once its message was sent or could not be, and the error
/// that it ends with in that case.
pub fn test_outcome(use_colors: bool, sent: Result<(), String>) -> (r: (String, Result<(), String>))
    ensures
        r.0@ == "\n"@ + (match sent {
            Ok(_) => console::success(use_colors, "Message sent!"@),
            Err(reason) => console::failure(use_colors, "Failed to send message: "@ + reason@),
        }),
        match r.1 {
            Ok(_) => sent is Ok,
            Err(words) => sent is Err && words@ == "Send failed"@,
        },
{
    let mut out = String::from_str("\n");
    match sent {
        Ok(_) => {
            put_success(&mut out, use_colors, "Message sent!");
            (out, Ok(()))
        },
        Err(reason) => {
            put_failure(&mut out, use_colors, &text::cat2("Failed to send message: ", &reason));
            (out, Err(String::from_str("Send failed")))
        },
    }
}

// ── Laws ────────────────────────────────────────────────────────────────

/// There is a Rocket.Chat room to send to exactly if server, token, bot and room are all
/// known, and then it is those; else the error is about the first of them that is missing.
pub proof fn rocketchat_targets_are_complete(
    facts: Option<RocketChatFacts>,
    r: Result<RocketChatTarget, String>,
)
    requires
        call_ensures(rocketchat_target, (facts,), r),
    ensures
        facts matches Some(known) ==> (r is Ok <==> known.server_url is Some
            && known.auth_token is Some && known.bot_user_id is Some && known.room_id is Some),
        facts matches Some(known) ==> (r matches Ok(target) ==> known.server_url == Some(
            target.server_url,
        ) && known.auth_token == Some(target.auth_token) && known.bot_user_id == Some(
            target.bot_user_id,
        ) && known.room_id == Some(target.room_id)),
        facts is None ==> r is Err && r->Err_0@ == "RObot.rocketchat section missing from ralph.yml"@,
        facts matches Some(known) ==> {
            &&& known.server_url is None ==> r is Err && r->Err_0@
                == "No server_url configured. Run `ralph bot onboard --backend rocketchat`"@
            &&& known.server_url is Some && known.auth_token is None ==> r is Err && r->Err_0@
                == "No auth_token configured. Set RALPH_ROCKETCHAT_AUTH_TOKEN or run `ralph bot onboard --backend rocketchat`"@
            &&& known.server_url is Some && known.auth_token is Some && known.bot_user_id is None
                ==> r is Err && r->Err_0@
                == "No bot_user_id configured. Run `ralph bot onboard --backend rocketchat`"@
            &&& known.server_url is Some && known.auth_token is Some && known.bot_user_id is Some
                && known.room_id is None ==> r is Err && r->Err_0@
                == "No room_id configured. Run `ralph bot onboard --backend rocketchat`"@
        },
{
}

/// There is a Matrix room to send to exactly if homeserver, token and room are all known,
/// and then it is those; else the error is about the first of them that is missing.
pub proof fn matrix_targets_are_complete(
    facts: Option<MatrixFacts>,
    r: Result<MatrixTarget, String>,
)
    requires
        call_ensures(matrix_target, (facts,), r),
    ensures
        facts matches Some(known) ==> (r is Ok <==> known.homeserver_url is Some
            && known.access_token is Some && known.room_id is Some),
        facts matches Some(known) ==> (r matches Ok(target) ==> known.homeserver_url == Some(
            target.homeserver_url,
        ) && known.access_token == Some(target.access_token) && known.room_id == Some(
            target.room_id,
        )),
        facts is None ==> r is Err && r->Err_0@ == "RObot.matrix section missing from ralph.yml"@,
        facts matches Some(known) ==> {
            &&& known.homeserver_url is None ==> r is Err && r->Err_0@
                == "No homeserver_url configured. Run `ralph bot onboard --backend matrix`"@
            &&& known.homeserver_url is Some && known.access_token is None ==> r is Err && r->Err_0@
                == "No access_token configured. Set RALPH_MATRIX_ACCESS_TOKEN or run `ralph bot onboard --backend matrix`"@
            &&& known.homeserver_url is Some && known.access_token is Some && known.room_id is None
                ==> r is Err && r->Err_0@
                == "No room_id configured. Run `ralph bot onboard --backend matrix`"@
        },
{
}

/// There is a Telegram chat to send to exactly if token and chat are known, and then it is
/// those; a missing token is told first.
pub proof fn telegram_targets_are_complete(
    token: Option<String>,
    chat_id: Option<i64>,
    no_token: &str,
    r: Result<(String, i64), String>,
)
    requires
        call_ensures(telegram_target, (token, chat_id, no_token), r),
    ensures
        r is Ok <==> token is Some && chat_id is Some,
        r matches Ok(target) ==> token == Some(target.0) && chat_id == Some(target.1),
        token is None ==> r is Err && r->Err_0@ == no_token@,
        token is Some && chat_id is None ==> r is Err && r->Err_0@
            == "No chat_id found. Run `ralph bot onboard` to detect it"@,
{
}

/// The backend to test is the one that is named, by its own name, else the one that is
/// configured, whether or not there is one.
pub proof fn tests_go_to_the_named_backend(
    named: Option<&str>,
    configured: Backend,
    r: Result<Backend, String>,
)
    requires
        call_ensures(test_backend, (named, configured), r),
    ensures
        named is None ==> r == Ok::<Backend, String>(configured),
        named matches Some(name) ==> {
            &&& name@ == "telegram"@ ==> r == Ok::<Backend, String>(Backend::Telegram)
            &&& name@ == "rocketchat"@ ==> r == Ok::<Backend, String>(Backend::RocketChat)
            &&& name@ == "matrix"@ ==> r == Ok::<Backend, String>(Backend::Matrix)
            &&& name@ != "telegram"@ && name@ != "rocketchat"@ && name@ != "matrix"@ ==> r is Err
        },
{
    reveal_strlit("telegram");
    reveal_strlit("rocketchat");
    reveal_strlit("matrix");
    assert("rocketchat"@.len() == 10);
    assert("matrix"@.len() == 6);
    assert("telegram"@.len() == 8);
}

/// A test announces where its message goes, and tells whether it was sent; it ends with an
/// error exactly if it was not.
pub proof fn tests_tell_their_outcome(
    chat_id: i64,
    room_id: &str,
    use_colors: bool,
    sent: Result<(), String>,
    chat: String,
    room: String,
    r: (String, Result<(), String>),
)
    requires
        call_ensures(sending_to_chat, (chat_id,), chat),
        call_ensures(sending_to_room, (room_id,), room),
        call_ensures(test_outcome, (use_colors, sent), r),
    ensures
        chat@ == "  Sending message to chat "@ + text::decimal_int(chat_id as int) + "..."@,
        room@ == "  Sending message to room "@ + room_id@ + "..."@,
        r.1 is Ok <==> sent is Ok,
        r.1 matches Err(words) ==> words@ == "Send failed"@,
        sent is Ok ==> r.0@ == "\n"@ + (console::ok_line(use_colors, "Message sent!"@) + "\n"@),
        sent matches Err(reason) ==> r.0@ == "\n"@ + (console::error_line(
            use_colors,
            "Failed to send message: "@ + reason@,
        ) + "\n"@),
{
}

/// The words of what is not configured, and of what was sent.
pub proof fn fixed_words()
    ensures
        NO_TOKEN@
            == "No bot token available. Run `ralph bot onboard` or set RALPH_TELEGRAM_BOT_TOKEN"@,
        NO_PROGRESS_TOKEN@
            == "No bot token. Run `ralph bot onboard` or set RALPH_TELEGRAM_BOT_TOKEN"@,
        NO_PROGRESS_BACKEND@
            == "No RObot backend configured. Run `ralph bot onboard` to set up Telegram, Rocket.Chat, or Matrix."@,
        SENT@ == "Sent.\n"@,
{
}

} // verus!
