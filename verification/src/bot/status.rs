//! The command that reports how the robot is configured.

use super::console::{self, put_failure, put_status, put_success, put_warning};
use super::telegram::{self, BotInfo};
use super::tokens::Backend;
use crate::json::{self, Json, JsonTree};
use crate::lists::{self, copy_text};
use crate::matrix::types::RoomInfo;
use crate::rocketchat::types::{RcRoom, RcUser};
use crate::text;
use vstd::prelude::*;

verus! {

/// The title of the report.
pub const TITLE: &'static str = "Ralph Bot Status";

/// The line under the title.
pub const RULE: &'static str = "================";

/// How to set up a backend.
pub const SETUP_HINT: &'static str =
    "\n  Set up a backend with:\n    ralph bot onboard --backend telegram\n    ralph bot onboard --backend rocketchat\n    ralph bot onboard --backend matrix\n";

/// What is printed where no backend is configured.
pub fn no_backend_text(use_colors: bool) -> (r: String)
    ensures
        r@ == ""@ + console::failure(use_colors, "No RObot backend configured"@) + SETUP_HINT@,
{
    let mut out = String::from_str("");
    put_failure(&mut out, use_colors, "No RObot backend configured");
    out.append(SETUP_HINT);
    out
}

/// The beginning of the report.
pub fn bot_status(use_colors: bool, backend: Backend) -> (r: String)
    ensures
        r@ == (if backend == Backend::Unset {
            console::heading(use_colors, TITLE@, RULE@) + (""@ + console::failure(
                use_colors,
                "No RObot backend configured"@,
            ) + SETUP_HINT@)
        } else {
            console::heading(use_colors, TITLE@, RULE@)
        }),
{
    let title = console::heading_text(use_colors, TITLE, RULE);
    if backend == Backend::Unset {
        text::cat2(&title, &no_backend_text(use_colors))
    } else {
        title
    }
}

// ── Lines ───────────────────────────────────────────────────────────────

/// A line about a value that must be there.
pub open spec fn required_line(
    use_colors: bool,
    label: Seq<char>,
    value: Option<Seq<char>>,
    missing: Seq<char>,
) -> Seq<char> {
    match value {
        Some(words) => console::success(use_colors, label + words),
        None => console::failure(use_colors, missing),
    }
}

/// A line about a value that need not be there.
pub open spec fn optional_line(
    use_colors: bool,
    label: Seq<char>,
    value: Option<Seq<char>>,
    missing: Seq<char>,
) -> Seq<char> {
    match value {
        Some(words) => console::success(use_colors, label + words),
        None => console::status(use_colors, missing),
    }
}

/// A line about something that is there or not.
pub open spec fn presence_line(
    use_colors: bool,
    present: bool,
    yes: Seq<char>,
    no: Seq<char>,
) -> Seq<char> {
    if present {
        console::success(use_colors, yes)
    } else {
        console::status(use_colors, no)
    }
}

/// A line about a token in the config file, where it should not be.
pub open spec fn exposed_line(
    use_colors: bool,
    exposed: bool,
    yes: Seq<char>,
    no: Seq<char>,
) -> Seq<char> {
    if exposed {
        console::warning(use_colors, yes)
    } else {
        console::status(use_colors, no)
    }
}

fn put_required(out: &mut String, c: bool, label: &str, value: &Option<String>, missing: &str)
    ensures
        final(out)@ == old(out)@ + required_line(c, label@, lists::text_in(*value), missing@),
{
    match value {
        Some(words) => put_success(out, c, &text::cat2(label, words)),
        None => put_failure(out, c, missing),
    }
}

fn put_optional(out: &mut String, c: bool, label: &str, value: &Option<String>, missing: &str)
    ensures
        final(out)@ == old(out)@ + optional_line(c, label@, lists::text_in(*value), missing@),
{
    match value {
        Some(words) => put_success(out, c, &text::cat2(label, words)),
        None => put_status(out, c, missing),
    }
}

fn put_presence(out: &mut String, c: bool, present: bool, yes: &str, no: &str)
    ensures
        final(out)@ == old(out)@ + presence_line(c, present, yes@, no@),
{
    if present {
        put_success(out, c, yes);
    } else {
        put_status(out, c, no);
    }
}

fn put_exposed(out: &mut String, c: bool, exposed: bool, yes: &str, no: &str)
    ensures
        final(out)@ == old(out)@ + exposed_line(c, exposed, yes@, no@),
{
    if exposed {
        put_warning(out, c, yes);
    } else {
        put_status(out, c, no);
    }
}

// ── Telegram ────────────────────────────────────────────────────────────

/// What the Telegram state file says.
#[derive(Debug, Clone, Copy, PartialEq, Eq, Structural)]
pub enum StateReport {
    /// There is no file.
    Missing,
    /// The file cannot be read.
    Unreadable,
    /// The file is not JSON.
    Invalid,
    /// The file names no chat.
    NoChat,
    /// The file names a chat.
    Chat(i64),
}

/// What a state file says, given the document that it parses to, if it does.
pub open spec fn state_reported(document: Option<JsonTree>) -> StateReport {
    match document {
        None => StateReport::Invalid,
        Some(state) => match telegram::state_chat(state) {
            Some(chat_id) => StateReport::Chat(chat_id),
            None => StateReport::NoChat,
        },
    }
}

/// What a state file says, given the document that it parses to, if it does.
pub fn report_state(document: Option<Json>) -> (r: StateReport)
    ensures
        r == state_reported(json::tree_of(document)),
{
    match document {
        None => StateReport::Invalid,
        Some(state) => match telegram::chat_id_in(&state) {
            Some(chat_id) => StateReport::Chat(chat_id),
            None => StateReport::NoChat,
        },
    }
}

/// What a state file with some content says.
pub fn report_state_content(content: &str) -> (r: StateReport)
    ensures
        r == state_reported(json::json_parsed(content@)),
{
    report_state(json::parse(content))
}

/// What is known of a Telegram setup.
#[derive(Debug)]
pub struct TelegramFacts {
    /// The token in the keychain.
    pub keychain_token: Option<String>,
    /// The token in the environment.
    pub env_token: Option<String>,
    /// The token in the config file.
    pub config_token: Option<String>,
    /// Whether the config file enables the robot.
    pub robot_enabled: bool,
    /// What the state file says.
    pub state: StateReport,
}

/// The line about the state file.
pub open spec fn state_line(use_colors: bool, state: StateReport) -> Seq<char> {
    match state {
        StateReport::Missing => console::status(use_colors, "Telegram state: not found"@),
        StateReport::Unreadable => ""@,
        StateReport::Invalid => console::warning(
            use_colors,
            "Telegram state: file exists but invalid JSON"@,
        ),
        StateReport::NoChat => console::warning(
            use_colors,
            "Telegram state: file exists but no chat_id"@,
        ),
        StateReport::Chat(chat_id) => console::success(
            use_colors,
            "Telegram state: chat_id = "@ + text::decimal_int(chat_id as int),
        ),
    }
}

/// The token to validate: that of the environment, else that of the keychain,
/// else that of the config file.
pub open spec fn effective_token(facts: TelegramFacts) -> Option<Seq<char>> {
    if facts.env_token is Some {
        lists::text_in(facts.env_token)
    } else if facts.keychain_token is Some {
        lists::text_in(facts.keychain_token)
    } else {
        lists::text_in(facts.config_token)
    }
}

/// The report on a Telegram setup, up to the validation of its token.
pub open spec fn telegram_report(facts: TelegramFacts, c: bool) -> Seq<char> {
    ""@ + console::success(c, "Backend: Telegram"@) + "\n"@ + presence_line(
        c,
        facts.keychain_token is Some,
        "Keychain: token stored"@,
        "Keychain: no token found"@,
    ) + presence_line(
        c,
        facts.env_token is Some,
        "Env var: RALPH_TELEGRAM_BOT_TOKEN set"@,
        "Env var: RALPH_TELEGRAM_BOT_TOKEN not set"@,
    ) + exposed_line(
        c,
        facts.config_token is Some,
        "Config: bot_token in ralph.yml (consider migrating to keychain)"@,
        "Config: no token in ralph.yml"@,
    ) + presence_line(
        c,
        facts.robot_enabled,
        "RObot: enabled in ralph.yml"@,
        "RObot: not enabled in ralph.yml"@,
    ) + state_line(c, facts.state) + "\n"@ + (if effective_token(facts) is Some {
        "  Validating token with Telegram API..."@
    } else {
        console::failure(c, "No token available. Run `ralph bot onboard` to set up."@)
    })
}

fn put_state(out: &mut String, c: bool, state: StateReport)
    ensures
        final(out)@ == old(out)@ + state_line(c, state),
{
    match state {
        StateReport::Missing => put_status(out, c, "Telegram state: not found"),
        StateReport::Unreadable => out.append(""),
        StateReport::Invalid => put_warning(
            out,
            c,
            "Telegram state: file exists but invalid JSON",
        ),
        StateReport::NoChat => put_warning(out, c, "Telegram state: file exists but no chat_id"),
        StateReport::Chat(chat_id) => put_success(
            out,
            c,
            &text::cat2("Telegram state: chat_id = ", &text::signed_number(chat_id)),
        ),
    }
}

/// The report on a Telegram setup: what to print, and the token to validate then,
/// if there is one.
pub fn bot_status_telegram(facts: &TelegramFacts, use_colors: bool) -> (r: (
    String,
    Option<String>,
))
    ensures
        r.0@ == telegram_report(*facts, use_colors),
        lists::text_in(r.1) == effective_token(*facts),
{
    let c: bool = use_colors;
    let token: Option<String> = if facts.env_token.is_some() {
        copy_text(&facts.env_token)
    } else if facts.keychain_token.is_some() {
        copy_text(&facts.keychain_token)
    } else {
        copy_text(&facts.config_token)
    };
    let mut out = String::from_str("");
    put_success(&mut out, c, "Backend: Telegram");
    out.append("\n");
    put_presence(
        &mut out,
        c,
        facts.keychain_token.is_some(),
        "Keychain: token stored",
        "Keychain: no token found",
    );
    put_presence(
        &mut out,
        c,
        facts.env_token.is_some(),
        "Env var: RALPH_TELEGRAM_BOT_TOKEN set",
        "Env var: RALPH_TELEGRAM_BOT_TOKEN not set",
    );
    put_exposed(
        &mut out,
        c,
        facts.config_token.is_some(),
        "Config: bot_token in ralph.yml (consider migrating to keychain)",
        "Config: no token in ralph.yml",
    );
    put_presence(
        &mut out,
        c,
        facts.robot_enabled,
        "RObot: enabled in ralph.yml",
        "RObot: not enabled in ralph.yml",
    );
    put_state(&mut out, c, facts.state);
    out.append("\n");
    if token.is_some() {
        out.append("  Validating token with Telegram API...");
    } else {
        put_failure(&mut out, c, "No token available. Run `ralph bot onboard` to set up.");
    }
    (out, token)
}

/// What is printed of the validation of a Telegram token.
pub fn telegram_validated(use_colors: bool, answer: Result<BotInfo, String>) -> (r: String)
    ensures
        r@ == "\n"@ + (match answer {
            Ok(info) => console::success(
                use_colors,
                "Bot: @"@ + info.username@ + " ("@ + info.first_name@ + ")"@,
            ),
            Err(reason) => console::failure(use_colors, "Token validation failed: "@ + reason@),
        }),
{
    let mut out = String::from_str("\n");
    match answer {
        Ok(info) => put_success(
            &mut out,
            use_colors,
            &text::cat5("Bot: @", &info.username, " (", &info.first_name, ")"),
        ),
        Err(reason) => put_failure(
            &mut out,
            use_colors,
            &text::cat2("Token validation failed: ", &reason),
        ),
    }
    out
}

// ── Rocket.Chat ─────────────────────────────────────────────────────────

/// What is known of a Rocket.Chat setup.
#[derive(Debug)]
pub struct RocketChatFacts {
    /// The server.
    pub server_url: Option<String>,
    /// The auth token.
    pub auth_token: Option<String>,
    /// The bot's user ID.
    pub bot_user_id: Option<String>,
    /// The room.
    pub room_id: Option<String>,
    /// The operator.
    pub operator_id: Option<String>,
    /// Whether the robot is enabled.
    pub enabled: bool,
}

/// The line about the operator.
pub open spec fn operator_line(c: bool, operator_id: Option<Seq<char>>) -> Seq<char> {
    optional_line(
        c,
        "Operator ID: "@,
        operator_id,
        "Operator ID: not configured (all users can interact)"@,
    )
}

/// The line about the robot being enabled.
pub open spec fn enabled_line(c: bool, enabled: bool) -> Seq<char> {
    presence_line(c, enabled, "RObot: enabled"@, "RObot: not enabled"@)
}

/// Whether there is enough to validate a Rocket.Chat setup.
pub open spec fn can_check_rocketchat(facts: RocketChatFacts) -> bool {
    facts.server_url is Some && facts.auth_token is Some && facts.bot_user_id is Some
}

/// The report on a Rocket.Chat setup, up to its validation.
pub open spec fn rocketchat_report(facts: RocketChatFacts, c: bool) -> Seq<char> {
    ""@ + console::success(c, "Backend: Rocket.Chat"@) + "\n"@ + required_line(
        c,
        "Server URL: "@,
        lists::text_in(facts.server_url),
        "Server URL: not configured"@,
    ) + (if facts.auth_token is Some {
        console::success(c, "Auth token: configured"@)
    } else {
        console::failure(c, "Auth token: not found (set RALPH_ROCKETCHAT_AUTH_TOKEN or config)"@)
    }) + required_line(
        c,
        "Bot user ID: "@,
        lists::text_in(facts.bot_user_id),
        "Bot user ID: not configured"@,
    ) + required_line(
        c,
        "Room ID: "@,
        lists::text_in(facts.room_id),
        "Room ID: not configured"@,
    ) + operator_line(c, lists::text_in(facts.operator_id)) + enabled_line(c, facts.enabled) + "\n"@
        + (if can_check_rocketchat(facts) {
        "  Validating credentials with Rocket.Chat API..."@
    } else {
        console::failure(c, "Cannot validate: missing server_url, auth_token, or bot_user_id"@)
    })
}

/// The report on a Rocket.Chat setup: what to print, and whether to validate it
/// then.
pub fn bot_status_rocketchat(facts: &RocketChatFacts, use_colors: bool) -> (r: (String, bool))
    ensures
        r.0@ == rocketchat_report(*facts, use_colors),
        r.1 == can_check_rocketchat(*facts),
{
    let c: bool = use_colors;
    let check: bool = facts.server_url.is_some() && facts.auth_token.is_some()
        && facts.bot_user_id.is_some();
    let mut out = String::from_str("");
    put_success(&mut out, c, "Backend: Rocket.Chat");
    out.append("\n");
    put_required(
        &mut out,
        c,
        "Server URL: ",
        &facts.server_url,
        "Server URL: not configured",
    );
    if facts.auth_token.is_some() {
        put_success(&mut out, c, "Auth token: configured");
    } else {
        put_failure(
            &mut out,
            c,
            "Auth token: not found (set RALPH_ROCKETCHAT_AUTH_TOKEN or config)",
        );
    }
    put_required(
        &mut out,
        c,
        "Bot user ID: ",
        &facts.bot_user_id,
        "Bot user ID: not configured",
    );
    put_required(&mut out, c, "Room ID: ", &facts.room_id, "Room ID: not configured");
    put_optional(
        &mut out,
        c,
        "Operator ID: ",
        &facts.operator_id,
        "Operator ID: not configured (all users can interact)",
    );
    put_presence(&mut out, c, facts.enabled, "RObot: enabled", "RObot: not enabled");
    out.append("\n");
    if check {
        out.append("  Validating credentials with Rocket.Chat API...");
    } else {
        put_failure(
            &mut out,
            c,
            "Cannot validate: missing server_url, auth_token, or bot_user_id",
        );
    }
    (out, check)
}

/// What is printed of the user that Rocket.Chat credentials belong to.
pub fn rocketchat_validated(use_colors: bool, answer: Result<RcUser, String>) -> (r: String)
    ensures
        r@ == "\n"@ + (match answer {
            Ok(user) => console::success(
                use_colors,
                "Bot: "@ + (match user.name {
                    Some(name) => name@,
                    None => user.username@,
                }) + " (@"@ + user.username@ + ")"@,
            ),
            Err(reason) => console::failure(
                use_colors,
                "Credential validation failed: "@ + reason@,
            ),
        }),
{
    let mut out = String::from_str("\n");
    match answer {
        Ok(user) => {
            let name: &str = match &user.name {
                Some(name) => name.as_str(),
                None => user.username.as_str(),
            };
            put_success(
                &mut out,
                use_colors,
                &text::cat5("Bot: ", name, " (@", &user.username, ")"),
            );
        },
        Err(reason) => put_failure(
            &mut out,
            use_colors,
            &text::cat2("Credential validation failed: ", &reason),
        ),
    }
    out
}

/// What is printed of a Rocket.Chat room.
pub fn rocketchat_room_validated(use_colors: bool, answer: Result<RcRoom, String>) -> (r: String)
    ensures
        r@ == ""@ + (match answer {
            Ok(room) => console::success(
                use_colors,
                "Room: "@ + (match room.name {
                    Some(name) => name@,
                    None => "(DM)"@,
                }) + " (type: "@ + room.t@ + ")"@,
            ),
            Err(reason) => console::failure(use_colors, "Room validation failed: "@ + reason@),
        }),
{
    let mut out = String::from_str("");
    match answer {
        Ok(room) => {
            let name: &str = match &room.name {
                Some(name) => name.as_str(),
                None => "(DM)",
            };
            put_success(
                &mut out,
                use_colors,
                &text::cat5("Room: ", name, " (type: ", &room.t, ")"),
            );
        },
        Err(reason) => put_failure(
            &mut out,
            use_colors,
            &text::cat2("Room validation failed: ", &reason),
        ),
    }
    out
}

// ── Matrix ──────────────────────────────────────────────────────────────

/// What is known of a Matrix setup.
#[derive(Debug)]
pub struct MatrixFacts {
    /// The homeserver.
    pub homeserver_url: Option<String>,
    /// Whether the keychain has an access token.
    pub in_keychain: bool,
    /// Whether the environment has an access token.
    pub in_env: bool,
    /// Whether the config file has an access token.
    pub in_config: bool,
    /// The access token that is used.
    pub access_token: Option<String>,
    /// The bot's user ID.
    pub bot_user_id: Option<String>,
    /// The room.
    pub room_id: Option<String>,
    /// The operator.
    pub operator_id: Option<String>,
    /// Whether the robot is enabled.
    pub enabled: bool,
}

/// Whether there is enough to validate a Matrix setup.
pub open spec fn can_check_matrix(facts: MatrixFacts) -> bool {
    facts.homeserver_url is Some && facts.access_token is Some
}

/// The report on a Matrix setup, up to its validation.
pub open spec fn matrix_report(facts: MatrixFacts, c: bool) -> Seq<char> {
    ""@ + console::success(c, "Backend: Matrix"@) + "\n"@ + required_line(
        c,
        "Homeserver URL: "@,
        lists::text_in(facts.homeserver_url),
        "Homeserver URL: not configured"@,
    ) + presence_line(
        c,
        facts.in_keychain,
        "Keychain: access token stored"@,
        "Keychain: no access token found"@,
    ) + presence_line(
        c,
        facts.in_env,
        "Env var: RALPH_MATRIX_ACCESS_TOKEN set"@,
        "Env var: RALPH_MATRIX_ACCESS_TOKEN not set"@,
    ) + exposed_line(
        c,
        facts.in_config,
        "Config: access_token in ralph.yml (consider migrating to keychain)"@,
        "Config: no access_token in ralph.yml"@,
    ) + optional_line(
        c,
        "Bot user ID: "@,
        lists::text_in(facts.bot_user_id),
        "Bot user ID: not configured"@,
    ) + required_line(
        c,
        "Room ID: "@,
        lists::text_in(facts.room_id),
        "Room ID: not configured"@,
    ) + operator_line(c, lists::text_in(facts.operator_id)) + enabled_line(c, facts.enabled) + "\n"@
        + (if can_check_matrix(facts) {
        "  Validating credentials with Matrix homeserver..."@
    } else {
        console::failure(c, "Cannot validate: missing homeserver_url or access_token"@)
    })
}

/// The report on a Matrix setup: what to print, and whether to validate it then.
pub fn bot_status_matrix(facts: &MatrixFacts, use_colors: bool) -> (r: (String, bool))
    ensures
        r.0@ == matrix_report(*facts, use_colors),
        r.1 == can_check_matrix(*facts),
{
    let c: bool = use_colors;
    let check: bool = facts.homeserver_url.is_some() && facts.access_token.is_some();
    let mut out = String::from_str("");
    put_success(&mut out, c, "Backend: Matrix");
    out.append("\n");
    put_required(
        &mut out,
        c,
        "Homeserver URL: ",
        &facts.homeserver_url,
        "Homeserver URL: not configured",
    );
    put_presence(
        &mut out,
        c,
        facts.in_keychain,
        "Keychain: access token stored",
        "Keychain: no access token found",
    );
    put_presence(
        &mut out,
        c,
        facts.in_env,
        "Env var: RALPH_MATRIX_ACCESS_TOKEN set",
        "Env var: RALPH_MATRIX_ACCESS_TOKEN not set",
    );
    put_exposed(
        &mut out,
        c,
        facts.in_config,
        "Config: access_token in ralph.yml (consider migrating to keychain)",
        "Config: no access_token in ralph.yml",
    );
    put_optional(
        &mut out,
        c,
        "Bot user ID: ",
        &facts.bot_user_id,
        "Bot user ID: not configured",
    );
    put_required(&mut out, c, "Room ID: ", &facts.room_id, "Room ID: not configured");
    put_optional(
        &mut out,
        c,
        "Operator ID: ",
        &facts.operator_id,
        "Operator ID: not configured (all users can interact)",
    );
    put_presence(&mut out, c, facts.enabled, "RObot: enabled", "RObot: not enabled");
    out.append("\n");
    if check {
        out.append("  Validating credentials with Matrix homeserver...");
    } else {
        put_failure(&mut out, c, "Cannot validate: missing homeserver_url or access_token");
    }
    (out, check)
}

/// What validating Matrix credentials came to.
#[derive(Debug)]
pub enum MatrixLogin {
    /// The login failed.
    Refused(String),
    /// The display name could not be fetched after the login.
    Nameless(String),
    /// The bot's display name.
    Named(String),
}

/// What is printed of the validation of Matrix credentials.
pub fn matrix_validated(use_colors: bool, login: MatrixLogin) -> (r: String)
    ensures
        r@ == "\n"@ + (match login {
            MatrixLogin::Named(name) => console::success(use_colors, "Bot: "@ + name@),
            MatrixLogin::Nameless(reason) => console::warning(
                use_colors,
                "Logged in but could not get display name: "@ + reason@,
            ),
            MatrixLogin::Refused(reason) => console::failure(
                use_colors,
                "Credential validation failed: "@ + reason@,
            ),
        }),
{
    let mut out = String::from_str("\n");
    match login {
        MatrixLogin::Named(name) => put_success(&mut out, use_colors, &text::cat2("Bot: ", &name)),
        MatrixLogin::Nameless(reason) => put_warning(
            &mut out,
            use_colors,
            &text::cat2("Logged in but could not get display name: ", &reason),
        ),
        MatrixLogin::Refused(reason) => put_failure(
            &mut out,
            use_colors,
            &text::cat2("Credential validation failed: ", &reason),
        ),
    }
    out
}

/// What looking at a Matrix room came to.
#[derive(Debug)]
pub enum MatrixRoom {
    /// The room could not be entered.
    Closed(String),
    /// The room could not be looked at.
    Unknown(String),
    /// The room.
    Found(RoomInfo),
}

/// What is printed of a Matrix room.
pub fn matrix_room_validated(use_colors: bool, room: MatrixRoom) -> (r: String)
    ensures
        r@ == ""@ + (match room {
            MatrixRoom::Closed(reason) => console::failure(
                use_colors,
                "Room join/sync failed: "@ + reason@,
            ),
            MatrixRoom::Unknown(reason) => console::failure(
                use_colors,
                "Room validation failed: "@ + reason@,
            ),
            MatrixRoom::Found(info) => console::success(
                use_colors,
                "Room: "@ + (match info.name {
                    Some(name) => name@,
                    None => "(unnamed)"@,
                }),
            ),
        }),
{
    let mut out = String::from_str("");
    match room {
        MatrixRoom::Closed(reason) => put_failure(
            &mut out,
            use_colors,
            &text::cat2("Room join/sync failed: ", &reason),
        ),
        MatrixRoom::Unknown(reason) => put_failure(
            &mut out,
            use_colors,
            &text::cat2("Room validation failed: ", &reason),
        ),
        MatrixRoom::Found(info) => {
            let name: &str = match &info.name {
                Some(name) => name.as_str(),
                None => "(unnamed)",
            };
            put_success(&mut out, use_colors, &text::cat2("Room: ", name));
        },
    }
    out
}

// ── Laws ────────────────────────────────────────────────────────────────

/// Whether two optional values are both there or both not.
pub open spec fn alike<T>(a: Option<T>, b: Option<T>) -> bool {
    a is Some <==> b is Some
}

/// No report shows a token: it only shows whether there is one.
pub proof fn reports_hide_tokens(
    t1: TelegramFacts,
    t2: TelegramFacts,
    r1: RocketChatFacts,
    r2: RocketChatFacts,
    m1: MatrixFacts,
    m2: MatrixFacts,
    use_colors: bool,
)
    requires
        alike(t1.keychain_token, t2.keychain_token),
        alike(t1.env_token, t2.env_token),
        alike(t1.config_token, t2.config_token),
        t1.robot_enabled == t2.robot_enabled && t1.state == t2.state,
        alike(r1.auth_token, r2.auth_token),
        r1 == (RocketChatFacts { auth_token: r1.auth_token, ..r2 }),
        alike(m1.access_token, m2.access_token),
        m1 == (MatrixFacts { access_token: m1.access_token, ..m2 }),
    ensures
        telegram_report(t1, use_colors) == telegram_report(t2, use_colors),
        rocketchat_report(r1, use_colors) == rocketchat_report(r2, use_colors),
        matrix_report(m1, use_colors) == matrix_report(m2, use_colors),
{
}

// ── What the reports tell ───────────────────────────────────────────────

/// Whether an optional text is on one line.
pub open spec fn unbroken_text(value: Option<String>) -> bool {
    value matches Some(words) ==> text::one_line(words@)
}

spec fn is_plain_begun(words: Seq<char>, first: char, second: char) -> bool {
    console::is_plain(words) && words[0] == first && words[1] == second
}

proof fn labels_begin(label: Seq<char>, value: Seq<char>)
    requires
        console::is_plain(label),
        text::one_line(label),
    ensures
        console::is_plain(label + value),
        (label + value)[0] == label[0],
        (label + value)[1] == label[1],
        text::one_line(value) ==> text::one_line(label + value),
        forall|other: Seq<char>| #[trigger] (label + other) == label + value ==> other == value,
{
    if text::one_line(value) {
        text::one_line_adds(label, value);
    }
    assert forall|other: Seq<char>| #[trigger] (label + other) == label + value implies other
        == value by {
        assert((label + other).skip(label.len() as int) =~= other);
        assert((label + value).skip(label.len() as int) =~= value);
    }
}

#[verifier::opaque]
spec fn shown_kind(value: Option<String>, missing: int) -> int {
    if value is Some {
        0
    } else {
        missing
    }
}

#[verifier::opaque]
spec fn shown_words(label: Seq<char>, value: Option<String>, missing: Seq<char>) -> Seq<char> {
    match value {
        Some(words) => label + words@,
        None => missing,
    }
}

proof fn shown_line(c: bool, label: Seq<char>, value: Option<String>, missing: Seq<char>)
    ensures
        required_line(c, label, lists::text_in(value), missing) == console::marked(
            c,
            shown_kind(value, 1),
            shown_words(label, value, missing),
        ) + "\n"@,
        optional_line(c, label, lists::text_in(value), missing) == console::marked(
            c,
            shown_kind(value, 3),
            shown_words(label, value, missing),
        ) + "\n"@,
{
    reveal(shown_kind);
    reveal(shown_words);
    console::marks(c, shown_words(label, value, missing));
}

proof fn shown_begins(label: Seq<char>, value: Option<String>, missing: Seq<char>, kind: int)
    requires
        console::is_plain(label),
        console::is_plain(missing),
        label[0] == missing[0],
        label[1] == missing[1],
        text::one_line(label),
        text::one_line(missing),
        0 <= kind < 4,
    ensures
        0 <= shown_kind(value, kind) < 4,
        console::is_plain(shown_words(label, value, missing)),
        shown_words(label, value, missing)[0] == label[0],
        shown_words(label, value, missing)[1] == label[1],
        unbroken_text(value) ==> text::one_line(shown_words(label, value, missing)),
{
    reveal(shown_kind);
    reveal(shown_words);
    match value {
        Some(words) => labels_begin(label, words@),
        None => {},
    }
}

proof fn shown_tells(
    label: Seq<char>,
    value: Option<String>,
    missing: Seq<char>,
    kind: int,
    wanted: Seq<char>,
)
    requires
        kind != 0,
    ensures
        shown_kind(value, kind) == 0 && shown_words(label, value, missing) == label + wanted
            <==> lists::text_in(value) == Some(wanted),
        shown_kind(value, kind) == kind && shown_words(label, value, missing) == missing
            <==> value is None,
{
    reveal(shown_kind);
    reveal(shown_words);
    match value {
        Some(words) => {
            assert((label + words@).skip(label.len() as int) =~= words@);
            assert((label + wanted).skip(label.len() as int) =~= wanted);
        },
        None => {},
    }
}

proof fn report_closes(c: bool, kinds: Seq<int>, words: Seq<Seq<char>>, failed: Seq<char>)
    requires
        kinds.len() == words.len(),
    ensures
        ({
            let k = kinds.push(4);
            let w = words.push(Seq::empty());
            let printed = text::lined(console::marked_lines(c, k, w)) + console::failure(c, failed);
            &&& printed == text::lined(console::marked_lines(c, k.push(1), w.push(failed))) + Seq::<
                char,
            >::empty()
            &&& text::ends_with(printed, "\n"@ + console::error_line(c, failed) + "\n"@)
        }),
{
    let none = Seq::<char>::empty();
    let k = kinds.push(4);
    let w = words.push(none);
    console::marked_line_added(c, kinds, words, 4, none);
    console::marked_line_added(c, k, w, 1, failed);
    console::marks(c, failed);
    console::marks(c, none);
    let front = text::lined(console::marked_lines(c, kinds, words));
    let all = text::lined(console::marked_lines(c, k.push(1), w.push(failed)));
    let ending = "\n"@ + console::error_line(c, failed) + "\n"@;
    assert(all + none =~= all);
    assert(all =~= front + ending);
    text::addition_ends(front, ending);
}

proof fn begins_with_first(lines: Seq<Seq<char>>, rest: Seq<char>)
    requires
        lines.len() > 0,
    ensures
        text::occurs_at(text::lined(lines) + rest, lines[0] + "\n"@, 0),
    decreases lines.len(),
{
    let less = lines.drop_last();
    let last = lines.last() + "\n"@;
    if less.len() == 0 {
        assert(text::lined(less) + last =~= last);
        text::addition_begins(last, rest);
    } else {
        begins_with_first(less, last + rest);
        assert(text::lined(lines) + rest =~= text::lined(less) + (last + rest));
    }
}

proof fn decimals_are_on_one_line(n: int)
    ensures
        text::one_line(text::decimal_int(n)),
{
    if n >= 0 {
        text::decimals_stand_for_their_number(n as nat);
        text::signed_decimals(n as nat);
    } else {
        text::decimals_stand_for_their_number((-n) as nat);
        text::signed_decimals((-n) as nat);
    }
}

proof fn decimals_differ(a: int, b: int)
    ensures
        a != b ==> text::decimal_int(a) != text::decimal_int(b),
{
    let x = if a >= 0 {
        a as nat
    } else {
        (-a) as nat
    };
    let y = if b >= 0 {
        b as nat
    } else {
        (-b) as nat
    };
    text::decimals_stand_for_their_number(x);
    text::decimals_stand_for_their_number(y);
    text::signed_decimals(x);
    text::signed_decimals(y);
    if a < 0 && b < 0 {
        assert((seq!['-'] + text::decimal(x)).skip(1) =~= text::decimal(x));
        assert((seq!['-'] + text::decimal(y)).skip(1) =~= text::decimal(y));
    }
    if a < 0 {
        assert(text::decimal_int(a)[0] == '-');
    }
    if b < 0 {
        assert(text::decimal_int(b)[0] == '-');
    }
}

#[verifier::opaque]
spec fn rocketchat_kinds(facts: RocketChatFacts) -> Seq<int> {
    let known = seq![
        0int, 
        4int, 
        shown_kind(facts.server_url, 1), 
        (if facts.auth_token is Some {
        0
    } else {
        1
    }), 
        shown_kind(facts.bot_user_id, 1), 
        shown_kind(facts.room_id, 1), 
        shown_kind(facts.operator_id, 3), 
        (if facts.enabled {
        0
    } else {
        3
    }), 
        4int,
    ];
    if facts.server_url is Some && facts.auth_token is Some && facts.bot_user_id is Some {
        known
    } else {
        known.push(1)
    }
}

#[verifier::opaque]
spec fn rocketchat_words(facts: RocketChatFacts) -> Seq<Seq<char>> {
    let known = seq![
        "Backend: Rocket.Chat"@, 
        Seq::<char>::empty(), 
        shown_words("Server URL: "@, facts.server_url, "Server URL: not configured"@), 
        (if facts.auth_token is Some {
        "Auth token: configured"@
    } else {
        "Auth token: not found (set RALPH_ROCKETCHAT_AUTH_TOKEN or config)"@
    }), 
        shown_words("Bot user ID: "@, facts.bot_user_id, "Bot user ID: not configured"@), 
        shown_words("Room ID: "@, facts.room_id, "Room ID: not configured"@), 
        shown_words(
            "Operator ID: "@,
            facts.operator_id,
            "Operator ID: not configured (all users can interact)"@,
        ), 
        (if facts.enabled {
        "RObot: enabled"@
    } else {
        "RObot: not enabled"@
    }), 
        Seq::<char>::empty(),
    ];
    if facts.server_url is Some && facts.auth_token is Some && facts.bot_user_id is Some {
        known
    } else {
        known.push("Cannot validate: missing server_url, auth_token, or bot_user_id"@)
    }
}

spec fn rocketchat_rest(facts: RocketChatFacts) -> Seq<char> {
    if facts.server_url is Some && facts.auth_token is Some && facts.bot_user_id is Some {
        "  Validating credentials with Rocket.Chat API..."@
    } else {
        Seq::empty()
    }
}

#[verifier::rlimit(100)]
#[verifier::spinoff_prover]
proof fn rocketchat_is_lined(facts: RocketChatFacts, c: bool)
    ensures
        rocketchat_report(facts, c) == text::lined(
            console::marked_lines(c, rocketchat_kinds(facts), rocketchat_words(facts)),
        ) + rocketchat_rest(facts),
        !(facts.server_url is Some && facts.auth_token is Some && facts.bot_user_id is Some) ==> text::ends_with(
            rocketchat_report(facts, c),
            "\n"@ + console::error_line(
                c,
                "Cannot validate: missing server_url, auth_token, or bot_user_id"@,
            ) + "\n"@,
        ),
{
    let k0 = Seq::<int>::empty();
    let w0 = Seq::<Seq<char>>::empty();
    assert(text::lined(console::marked_lines(c, k0, w0)) == ""@) by {
        reveal_strlit("");
        assert(console::marked_lines(c, k0, w0) =~= Seq::empty());
        assert(""@ =~= Seq::<char>::empty());
    }
    let p0 = ""@;
    let x1: Seq<char> = "Backend: Rocket.Chat"@;
    let h1: int = 0;
    let k1 = k0.push(h1);
    let w1 = w0.push(x1);
    let p1 = p0 + console::success(c, x1);
    assert(text::lined(console::marked_lines(c, k1, w1)) == p1) by {
        console::marked_line_added(c, k0, w0, h1, x1);
        console::marks(c, x1);
    }
    let x2: Seq<char> = Seq::<char>::empty();
    let h2: int = 4;
    let k2 = k1.push(h2);
    let w2 = w1.push(x2);
    let p2 = p1 + "\n"@;
    assert(text::lined(console::marked_lines(c, k2, w2)) == p2) by {
        console::marked_line_added(c, k1, w1, h2, x2);
        console::marks(c, x2);
        assert(x2 + "\n"@ =~= "\n"@);
    }
    let x3: Seq<char> = shown_words(
        "Server URL: "@,
        facts.server_url,
        "Server URL: not configured"@,
    );
    let h3: int = shown_kind(facts.server_url, 1);
    let k3 = k2.push(h3);
    let w3 = w2.push(x3);
    let p3 = p2 + required_line(
        c,
        "Server URL: "@,
        lists::text_in(facts.server_url),
        "Server URL: not configured"@,
    );
    assert(text::lined(console::marked_lines(c, k3, w3)) == p3) by {
        console::marked_line_added(c, k2, w2, h3, x3);
        shown_line(c, "Server URL: "@, facts.server_url, "Server URL: not configured"@);
    }
    let x4: Seq<char> = (if facts.auth_token is Some {
        "Auth token: configured"@
    } else {
        "Auth token: not found (set RALPH_ROCKETCHAT_AUTH_TOKEN or config)"@
    });
    let h4: int = (if facts.auth_token is Some {
        0
    } else {
        1
    });
    let k4 = k3.push(h4);
    let w4 = w3.push(x4);
    let p4 = p3 + (
        if facts.auth_token is Some { console::success(c, "Auth token: configured"@) } else { console::failure(c, "Auth token: not found (set RALPH_ROCKETCHAT_AUTH_TOKEN or config)"@) }
    );
    assert(text::lined(console::marked_lines(c, k4, w4)) == p4) by {
        console::marked_line_added(c, k3, w3, h4, x4);
        console::marks(c, x4);
    }
    let x5: Seq<char> = shown_words(
        "Bot user ID: "@,
        facts.bot_user_id,
        "Bot user ID: not configured"@,
    );
    let h5: int = shown_kind(facts.bot_user_id, 1);
    let k5 = k4.push(h5);
    let w5 = w4.push(x5);
    let p5 = p4 + required_line(
        c,
        "Bot user ID: "@,
        lists::text_in(facts.bot_user_id),
        "Bot user ID: not configured"@,
    );
    assert(text::lined(console::marked_lines(c, k5, w5)) == p5) by {
        console::marked_line_added(c, k4, w4, h5, x5);
        shown_line(c, "Bot user ID: "@, facts.bot_user_id, "Bot user ID: not configured"@);
    }
    let x6: Seq<char> = shown_words("Room ID: "@, facts.room_id, "Room ID: not configured"@);
    let h6: int = shown_kind(facts.room_id, 1);
    let k6 = k5.push(h6);
    let w6 = w5.push(x6);
    let p6 = p5 + required_line(
        c,
        "Room ID: "@,
        lists::text_in(facts.room_id),
        "Room ID: not configured"@,
    );
    assert(text::lined(console::marked_lines(c, k6, w6)) == p6) by {
        console::marked_line_added(c, k5, w5, h6, x6);
        shown_line(c, "Room ID: "@, facts.room_id, "Room ID: not configured"@);
    }
    let x7: Seq<char> = shown_words(
        "Operator ID: "@,
        facts.operator_id,
        "Operator ID: not configured (all users can interact)"@,
    );
    let h7: int = shown_kind(facts.operator_id, 3);
    let k7 = k6.push(h7);
    let w7 = w6.push(x7);
    let p7 = p6 + optional_line(
        c,
        "Operator ID: "@,
        lists::text_in(facts.operator_id),
        "Operator ID: not configured (all users can interact)"@,
    );
    assert(text::lined(console::marked_lines(c, k7, w7)) == p7) by {
        console::marked_line_added(c, k6, w6, h7, x7);
        shown_line(
            c,
            "Operator ID: "@,
            facts.operator_id,
            "Operator ID: not configured (all users can interact)"@,
        );
    }
    let x8: Seq<char> = (if facts.enabled {
        "RObot: enabled"@
    } else {
        "RObot: not enabled"@
    });
    let h8: int = (if facts.enabled {
        0
    } else {
        3
    });
    let k8 = k7.push(h8);
    let w8 = w7.push(x8);
    let p8 = p7 + presence_line(c, facts.enabled, "RObot: enabled"@, "RObot: not enabled"@);
    assert(text::lined(console::marked_lines(c, k8, w8)) == p8) by {
        console::marked_line_added(c, k7, w7, h8, x8);
        console::marks(c, x8);
    }
    let x9: Seq<char> = Seq::<char>::empty();
    let h9: int = 4;
    let k9 = k8.push(h9);
    let w9 = w8.push(x9);
    let p9 = p8 + "\n"@;
    assert(text::lined(console::marked_lines(c, k9, w9)) == p9) by {
        console::marked_line_added(c, k8, w8, h9, x9);
        console::marks(c, x9);
        assert(x9 + "\n"@ =~= "\n"@);
    }
    let failed: Seq<char> = "Cannot validate: missing server_url, auth_token, or bot_user_id"@;
    report_closes(c, k8, w8, failed);
    assert(k9 =~= k8.push(4));
    assert(w9 =~= w8.push(Seq::empty()));
    if facts.server_url is Some && facts.auth_token is Some && facts.bot_user_id is Some {
        assert(rocketchat_kinds(facts) =~= k9) by {
            reveal(rocketchat_kinds);
        }
        assert(rocketchat_words(facts) =~= w9) by {
            reveal(rocketchat_words);
        }
    } else {
        assert(rocketchat_kinds(facts) =~= k9.push(1)) by {
            reveal(rocketchat_kinds);
        }
        assert(rocketchat_words(facts) =~= w9.push(failed)) by {
            reveal(rocketchat_words);
        }
    }
}

spec fn rocketchat_heads() -> Seq<(char, char)> {
    seq![
        ('B', 'a'),
        (' ', ' '),
        ('S', 'e'),
        ('A', 'u'),
        ('B', 'o'),
        ('R', 'o'),
        ('O', 'p'),
        ('R', 'O'),
        (' ', ' '),
        ('C', 'a'),
    ]
}

#[verifier::rlimit(50)]
#[verifier::spinoff_prover]
proof fn rocketchat_words_begin(facts: RocketChatFacts)
    ensures
        console::is_report(rocketchat_kinds(facts), rocketchat_words(facts)),
        rocketchat_kinds(facts).len() == (
            if facts.server_url is Some && facts.auth_token is Some && facts.bot_user_id is Some { 9int } else { 10int }
        ),
        forall|i: int| 0 <= i < rocketchat_words(facts).len() && (#[trigger] rocketchat_words(facts)[i]).len() > 0 ==> (
            rocketchat_words(facts)[i][0],
            rocketchat_words(facts)[i][1],
        ) == rocketchat_heads()[i],
        unbroken_text(facts.server_url) && unbroken_text(facts.bot_user_id) && unbroken_text(facts.room_id) && unbroken_text(facts.operator_id) ==> forall|i: int| 0 <= i < rocketchat_words(facts).len() ==> text::one_line(
            #[trigger] rocketchat_words(facts)[i],
        ),
        text::one_line(rocketchat_rest(facts)),
{
    reveal(rocketchat_kinds);
    reveal(rocketchat_words);
    assert(text::one_line("Backend: Rocket.Chat"@)) by {
        reveal_strlit("Backend: Rocket.Chat");
    }
    assert(text::one_line("Server URL: "@)) by {
        reveal_strlit("Server URL: ");
    }
    assert(text::one_line("Server URL: not configured"@)) by {
        reveal_strlit("Server URL: not configured");
    }
    assert(text::one_line("Auth token: configured"@)) by {
        reveal_strlit("Auth token: configured");
    }
    assert(text::one_line("Auth token: not found (set RALPH_ROCKETCHAT_AUTH_TOKEN or config)"@)) by {
        reveal_strlit("Auth token: not found (set RALPH_ROCKETCHAT_AUTH_TOKEN or config)");
    }
    assert(text::one_line("Bot user ID: "@)) by {
        reveal_strlit("Bot user ID: ");
    }
    assert(text::one_line("Bot user ID: not configured"@)) by {
        reveal_strlit("Bot user ID: not configured");
    }
    assert(text::one_line("Room ID: "@)) by {
        reveal_strlit("Room ID: ");
    }
    assert(text::one_line("Room ID: not configured"@)) by {
        reveal_strlit("Room ID: not configured");
    }
    assert(text::one_line("Operator ID: "@)) by {
        reveal_strlit("Operator ID: ");
    }
    assert(text::one_line("Operator ID: not configured (all users can interact)"@)) by {
        reveal_strlit("Operator ID: not configured (all users can interact)");
    }
    assert(text::one_line("RObot: enabled"@)) by {
        reveal_strlit("RObot: enabled");
    }
    assert(text::one_line("RObot: not enabled"@)) by {
        reveal_strlit("RObot: not enabled");
    }
    assert(text::one_line("Cannot validate: missing server_url, auth_token, or bot_user_id"@)) by {
        reveal_strlit("Cannot validate: missing server_url, auth_token, or bot_user_id");
    }
    assert(text::one_line("  Validating credentials with Rocket.Chat API..."@)) by {
        reveal_strlit("  Validating credentials with Rocket.Chat API...");
    }
    assert(is_plain_begun("Backend: Rocket.Chat"@, 'B', 'a')) by {
        reveal_strlit("Backend: Rocket.Chat");
    }
    assert(is_plain_begun("Server URL: "@, 'S', 'e')) by {
        reveal_strlit("Server URL: ");
    }
    assert(is_plain_begun("Server URL: not configured"@, 'S', 'e')) by {
        reveal_strlit("Server URL: not configured");
    }
    assert(is_plain_begun("Auth token: configured"@, 'A', 'u')) by {
        reveal_strlit("Auth token: configured");
    }
    assert(
        is_plain_begun(
            "Auth token: not found (set RALPH_ROCKETCHAT_AUTH_TOKEN or config)"@,
            'A',
            'u',
        )
    ) by {
        reveal_strlit("Auth token: not found (set RALPH_ROCKETCHAT_AUTH_TOKEN or config)");
    }
    assert(is_plain_begun("Bot user ID: "@, 'B', 'o')) by {
        reveal_strlit("Bot user ID: ");
    }
    assert(is_plain_begun("Bot user ID: not configured"@, 'B', 'o')) by {
        reveal_strlit("Bot user ID: not configured");
    }
    assert(is_plain_begun("Room ID: "@, 'R', 'o')) by {
        reveal_strlit("Room ID: ");
    }
    assert(is_plain_begun("Room ID: not configured"@, 'R', 'o')) by {
        reveal_strlit("Room ID: not configured");
    }
    assert(is_plain_begun("Operator ID: "@, 'O', 'p')) by {
        reveal_strlit("Operator ID: ");
    }
    assert(is_plain_begun("Operator ID: not configured (all users can interact)"@, 'O', 'p')) by {
        reveal_strlit("Operator ID: not configured (all users can interact)");
    }
    assert(is_plain_begun("RObot: enabled"@, 'R', 'O')) by {
        reveal_strlit("RObot: enabled");
    }
    assert(is_plain_begun("RObot: not enabled"@, 'R', 'O')) by {
        reveal_strlit("RObot: not enabled");
    }
    assert(
        is_plain_begun("Cannot validate: missing server_url, auth_token, or bot_user_id"@, 'C', 'a')
    ) by {
        reveal_strlit("Cannot validate: missing server_url, auth_token, or bot_user_id");
    }
    shown_begins("Server URL: "@, facts.server_url, "Server URL: not configured"@, 1);
    shown_begins("Bot user ID: "@, facts.bot_user_id, "Bot user ID: not configured"@, 1);
    shown_begins("Room ID: "@, facts.room_id, "Room ID: not configured"@, 1);
    shown_begins(
        "Operator ID: "@,
        facts.operator_id,
        "Operator ID: not configured (all users can interact)"@,
        3,
    );
    let kinds = rocketchat_kinds(facts);
    let words = rocketchat_words(facts);
    assert forall|i: int| 0 <= i < kinds.len() implies (#[trigger] kinds[i] == 4 && words[i].len() == 0) || (
        0 <= kinds[i] < 4 && console::is_plain(words[i])
    ) by {}
    assert(text::one_line(Seq::<char>::empty()));
}

proof fn rocketchat_tells(
    facts: RocketChatFacts,
    c: bool,
    j: int,
    kind: int,
    line: Seq<char>,
    unbroken: bool,
)
    requires
        0 < j < rocketchat_kinds(facts).len(),
        0 <= kind < 4,
        console::is_plain(line),
        (line[0], line[1]) == rocketchat_heads()[j],
        line[0] != ' ',
        unbroken ==> (
            unbroken_text(facts.server_url) && unbroken_text(facts.bot_user_id) && unbroken_text(facts.room_id) && unbroken_text(facts.operator_id)
        ) && text::one_line(line),
    ensures
        console::tells(
            rocketchat_report(facts, c),
            unbroken,
            console::marked(c, kind, line),
            rocketchat_kinds(facts)[j] == kind && rocketchat_words(facts)[j] == line,
        ),
{
    rocketchat_is_lined(facts, c);
    rocketchat_words_begin(facts);
    assert forall|i: int| 0 <= i < rocketchat_kinds(facts).len() && i != j implies !console::begin_alike(
        #[trigger] rocketchat_words(facts)[i],
        line,
    ) by {
        assert(rocketchat_heads()[i] != rocketchat_heads()[j] || rocketchat_heads()[i].0 == ' ');
    }
    console::lines_tell(
        c,
        rocketchat_kinds(facts),
        rocketchat_words(facts),
        rocketchat_rest(facts),
        j,
        kind,
        line,
        unbroken,
    );
}

/// The report on a Rocket.Chat setup tells each fact by a line of its own, and nothing
/// else: the server, the bot, the room and the operator by name where they are known,
/// whether there is a token, and whether the robot is enabled. It ends by announcing the
/// validation, exactly if server, token and bot are known.
#[verifier::rlimit(100)]
#[verifier::spinoff_prover]
pub proof fn rocketchat_report_tells_all(
    facts: &RocketChatFacts,
    c: bool,
    r: (String, bool),
    value: Seq<char>,
)
    requires
        call_ensures(bot_status_rocketchat, (facts, c), r),
    ensures
        ({
            let printed = r.0@;
            let unbroken = unbroken_text(facts.server_url) && unbroken_text(facts.bot_user_id) && unbroken_text(facts.room_id) && unbroken_text(facts.operator_id);
            &&& text::occurs_at(printed, console::ok_line(c, "Backend: Rocket.Chat"@) + "\n"@, 0)
            &&& console::tells(
                printed,
                unbroken && text::one_line(value),
                console::ok_line(c, "Server URL: "@ + value),
                lists::text_in(facts.server_url) == Some(value),
            )
            &&& console::tells(
                printed,
                unbroken,
                console::error_line(c, "Server URL: not configured"@),
                facts.server_url is None,
            )
            &&& console::tells(
                printed,
                unbroken,
                console::ok_line(c, "Auth token: configured"@),
                facts.auth_token is Some,
            )
            &&& console::tells(
                printed,
                unbroken,
                console::error_line(
                    c,
                    "Auth token: not found (set RALPH_ROCKETCHAT_AUTH_TOKEN or config)"@,
                ),
                !(facts.auth_token is Some),
            )
            &&& console::tells(
                printed,
                unbroken && text::one_line(value),
                console::ok_line(c, "Bot user ID: "@ + value),
                lists::text_in(facts.bot_user_id) == Some(value),
            )
            &&& console::tells(
                printed,
                unbroken,
                console::error_line(c, "Bot user ID: not configured"@),
                facts.bot_user_id is None,
            )
            &&& console::tells(
                printed,
                unbroken && text::one_line(value),
                console::ok_line(c, "Room ID: "@ + value),
                lists::text_in(facts.room_id) == Some(value),
            )
            &&& console::tells(
                printed,
                unbroken,
                console::error_line(c, "Room ID: not configured"@),
                facts.room_id is None,
            )
            &&& console::tells(
                printed,
                unbroken && text::one_line(value),
                console::ok_line(c, "Operator ID: "@ + value),
                lists::text_in(facts.operator_id) == Some(value),
            )
            &&& console::tells(
                printed,
                unbroken,
                console::info_line(c, "Operator ID: not configured (all users can interact)"@),
                facts.operator_id is None,
            )
            &&& console::tells(
                printed,
                unbroken,
                console::ok_line(c, "RObot: enabled"@),
                facts.enabled,
            )
            &&& console::tells(
                printed,
                unbroken,
                console::info_line(c, "RObot: not enabled"@),
                !(facts.enabled),
            )
            &&& (
                facts.server_url is Some && facts.auth_token is Some && facts.bot_user_id is Some
            ) ==> text::ends_with(printed, "  Validating credentials with Rocket.Chat API..."@)
            &&& !(facts.server_url is Some && facts.auth_token is Some && facts.bot_user_id is Some) ==> text::ends_with(
                printed,
                "\n"@ + console::error_line(
                    c,
                    "Cannot validate: missing server_url, auth_token, or bot_user_id"@,
                ) + "\n"@,
            )
            &&& unbroken ==> text::pieces(printed, '\n').len() == (
                if facts.server_url is Some && facts.auth_token is Some && facts.bot_user_id is Some { 10int } else { 11int }
            )
            &&& r.1 == (
                facts.server_url is Some && facts.auth_token is Some && facts.bot_user_id is Some
            )
        }),
{
    let unbroken = unbroken_text(facts.server_url) && unbroken_text(facts.bot_user_id) && unbroken_text(facts.room_id) && unbroken_text(facts.operator_id);
    let printed = r.0@;
    rocketchat_is_lined(*facts, c);
    rocketchat_words_begin(*facts);
    assert(
        console::tells(
            printed,
            unbroken && text::one_line(value),
            console::ok_line(c, "Server URL: "@ + value),
            lists::text_in(facts.server_url) == Some(value),
        )
    ) by {
        let line: Seq<char> = "Server URL: "@ + value;
        reveal_strlit("Server URL: ");
        reveal_strlit("Server URL: not configured");
        labels_begin("Server URL: "@, value);
        shown_tells("Server URL: "@, facts.server_url, "Server URL: not configured"@, 1, value);
        console::marks(c, line);
        rocketchat_tells(*facts, c, 2, 0, line, unbroken && text::one_line(value));
        reveal(rocketchat_kinds);
        reveal(rocketchat_words);
    }
    assert(
        console::tells(
            printed,
            unbroken,
            console::error_line(c, "Server URL: not configured"@),
            facts.server_url is None,
        )
    ) by {
        let line: Seq<char> = "Server URL: not configured"@;
        reveal_strlit("Server URL: ");
        reveal_strlit("Server URL: not configured");
        labels_begin("Server URL: "@, value);
        shown_tells("Server URL: "@, facts.server_url, "Server URL: not configured"@, 1, value);
        console::marks(c, line);
        rocketchat_tells(*facts, c, 2, 1, line, unbroken);
        reveal(rocketchat_kinds);
        reveal(rocketchat_words);
    }
    assert(
        console::tells(
            printed,
            unbroken,
            console::ok_line(c, "Auth token: configured"@),
            facts.auth_token is Some,
        )
    ) by {
        let line: Seq<char> = "Auth token: configured"@;
        reveal_strlit("Auth token: configured");
        console::marks(c, line);
        rocketchat_tells(*facts, c, 3, 0, line, unbroken);
        reveal(rocketchat_kinds);
        reveal(rocketchat_words);
    }
    assert(
        console::tells(
            printed,
            unbroken,
            console::error_line(
                c,
                "Auth token: not found (set RALPH_ROCKETCHAT_AUTH_TOKEN or config)"@,
            ),
            !(facts.auth_token is Some),
        )
    ) by {
        let line: Seq<char> = "Auth token: not found (set RALPH_ROCKETCHAT_AUTH_TOKEN or config)"@;
        reveal_strlit("Auth token: not found (set RALPH_ROCKETCHAT_AUTH_TOKEN or config)");
        console::marks(c, line);
        rocketchat_tells(*facts, c, 3, 1, line, unbroken);
        reveal(rocketchat_kinds);
        reveal(rocketchat_words);
    }
    assert(
        console::tells(
            printed,
            unbroken && text::one_line(value),
            console::ok_line(c, "Bot user ID: "@ + value),
            lists::text_in(facts.bot_user_id) == Some(value),
        )
    ) by {
        let line: Seq<char> = "Bot user ID: "@ + value;
        reveal_strlit("Bot user ID: ");
        reveal_strlit("Bot user ID: not configured");
        labels_begin("Bot user ID: "@, value);
        shown_tells("Bot user ID: "@, facts.bot_user_id, "Bot user ID: not configured"@, 1, value);
        console::marks(c, line);
        rocketchat_tells(*facts, c, 4, 0, line, unbroken && text::one_line(value));
        reveal(rocketchat_kinds);
        reveal(rocketchat_words);
    }
    assert(
        console::tells(
            printed,
            unbroken,
            console::error_line(c, "Bot user ID: not configured"@),
            facts.bot_user_id is None,
        )
    ) by {
        let line: Seq<char> = "Bot user ID: not configured"@;
        reveal_strlit("Bot user ID: ");
        reveal_strlit("Bot user ID: not configured");
        labels_begin("Bot user ID: "@, value);
        shown_tells("Bot user ID: "@, facts.bot_user_id, "Bot user ID: not configured"@, 1, value);
        console::marks(c, line);
        rocketchat_tells(*facts, c, 4, 1, line, unbroken);
        reveal(rocketchat_kinds);
        reveal(rocketchat_words);
    }
    assert(
        console::tells(
            printed,
            unbroken && text::one_line(value),
            console::ok_line(c, "Room ID: "@ + value),
            lists::text_in(facts.room_id) == Some(value),
        )
    ) by {
        let line: Seq<char> = "Room ID: "@ + value;
        reveal_strlit("Room ID: ");
        reveal_strlit("Room ID: not configured");
        labels_begin("Room ID: "@, value);
        shown_tells("Room ID: "@, facts.room_id, "Room ID: not configured"@, 1, value);
        console::marks(c, line);
        rocketchat_tells(*facts, c, 5, 0, line, unbroken && text::one_line(value));
        reveal(rocketchat_kinds);
        reveal(rocketchat_words);
    }
    assert(
        console::tells(
            printed,
            unbroken,
            console::error_line(c, "Room ID: not configured"@),
            facts.room_id is None,
        )
    ) by {
        let line: Seq<char> = "Room ID: not configured"@;
        reveal_strlit("Room ID: ");
        reveal_strlit("Room ID: not configured");
        labels_begin("Room ID: "@, value);
        shown_tells("Room ID: "@, facts.room_id, "Room ID: not configured"@, 1, value);
        console::marks(c, line);
        rocketchat_tells(*facts, c, 5, 1, line, unbroken);
        reveal(rocketchat_kinds);
        reveal(rocketchat_words);
    }
    assert(
        console::tells(
            printed,
            unbroken && text::one_line(value),
            console::ok_line(c, "Operator ID: "@ + value),
            lists::text_in(facts.operator_id) == Some(value),
        )
    ) by {
        let line: Seq<char> = "Operator ID: "@ + value;
        reveal_strlit("Operator ID: ");
        reveal_strlit("Operator ID: not configured (all users can interact)");
        labels_begin("Operator ID: "@, value);
        shown_tells(
            "Operator ID: "@,
            facts.operator_id,
            "Operator ID: not configured (all users can interact)"@,
            3,
            value,
        );
        console::marks(c, line);
        rocketchat_tells(*facts, c, 6, 0, line, unbroken && text::one_line(value));
        reveal(rocketchat_kinds);
        reveal(rocketchat_words);
    }
    assert(
        console::tells(
            printed,
            unbroken,
            console::info_line(c, "Operator ID: not configured (all users can interact)"@),
            facts.operator_id is None,
        )
    ) by {
        let line: Seq<char> = "Operator ID: not configured (all users can interact)"@;
        reveal_strlit("Operator ID: ");
        reveal_strlit("Operator ID: not configured (all users can interact)");
        labels_begin("Operator ID: "@, value);
        shown_tells(
            "Operator ID: "@,
            facts.operator_id,
            "Operator ID: not configured (all users can interact)"@,
            3,
            value,
        );
        console::marks(c, line);
        rocketchat_tells(*facts, c, 6, 3, line, unbroken);
        reveal(rocketchat_kinds);
        reveal(rocketchat_words);
    }
    assert(
        console::tells(printed, unbroken, console::ok_line(c, "RObot: enabled"@), facts.enabled)
    ) by {
        let line: Seq<char> = "RObot: enabled"@;
        reveal_strlit("RObot: enabled");
        console::marks(c, line);
        rocketchat_tells(*facts, c, 7, 0, line, unbroken);
        reveal(rocketchat_kinds);
        reveal(rocketchat_words);
    }
    assert(
        console::tells(
            printed,
            unbroken,
            console::info_line(c, "RObot: not enabled"@),
            !(facts.enabled),
        )
    ) by {
        let line: Seq<char> = "RObot: not enabled"@;
        reveal_strlit("RObot: not enabled");
        console::marks(c, line);
        rocketchat_tells(*facts, c, 7, 3, line, unbroken);
        reveal(rocketchat_kinds);
        reveal(rocketchat_words);
    }
    let lines = console::marked_lines(c, rocketchat_kinds(*facts), rocketchat_words(*facts));
    text::addition_ends(text::lined(lines), rocketchat_rest(*facts));
    if unbroken {
        console::lines_are_counted(
            c,
            rocketchat_kinds(*facts),
            rocketchat_words(*facts),
            rocketchat_rest(*facts),
        );
    }
    assert(text::occurs_at(printed, console::ok_line(c, "Backend: Rocket.Chat"@) + "\n"@, 0)) by {
        reveal(rocketchat_kinds);
        reveal(rocketchat_words);
        console::marks(c, "Backend: Rocket.Chat"@);
        begins_with_first(lines, rocketchat_rest(*facts));
    }
}

#[verifier::opaque]
spec fn matrix_kinds(facts: MatrixFacts) -> Seq<int> {
    let known = seq![
        0int, 
        4int, 
        shown_kind(facts.homeserver_url, 1), 
        (if facts.in_keychain {
        0
    } else {
        3
    }), 
        (if facts.in_env {
        0
    } else {
        3
    }), 
        (if facts.in_config {
        2
    } else {
        3
    }), 
        shown_kind(facts.bot_user_id, 3), 
        shown_kind(facts.room_id, 1), 
        shown_kind(facts.operator_id, 3), 
        (if facts.enabled {
        0
    } else {
        3
    }), 
        4int,
    ];
    if facts.homeserver_url is Some && facts.access_token is Some {
        known
    } else {
        known.push(1)
    }
}

#[verifier::opaque]
spec fn matrix_words(facts: MatrixFacts) -> Seq<Seq<char>> {
    let known = seq![
        "Backend: Matrix"@, 
        Seq::<char>::empty(), 
        shown_words("Homeserver URL: "@, facts.homeserver_url, "Homeserver URL: not configured"@), 
        (if facts.in_keychain {
        "Keychain: access token stored"@
    } else {
        "Keychain: no access token found"@
    }), 
        (if facts.in_env {
        "Env var: RALPH_MATRIX_ACCESS_TOKEN set"@
    } else {
        "Env var: RALPH_MATRIX_ACCESS_TOKEN not set"@
    }), 
        (if facts.in_config {
        "Config: access_token in ralph.yml (consider migrating to keychain)"@
    } else {
        "Config: no access_token in ralph.yml"@
    }), 
        shown_words("Bot user ID: "@, facts.bot_user_id, "Bot user ID: not configured"@), 
        shown_words("Room ID: "@, facts.room_id, "Room ID: not configured"@), 
        shown_words(
            "Operator ID: "@,
            facts.operator_id,
            "Operator ID: not configured (all users can interact)"@,
        ), 
        (if facts.enabled {
        "RObot: enabled"@
    } else {
        "RObot: not enabled"@
    }), 
        Seq::<char>::empty(),
    ];
    if facts.homeserver_url is Some && facts.access_token is Some {
        known
    } else {
        known.push("Cannot validate: missing homeserver_url or access_token"@)
    }
}

spec fn matrix_rest(facts: MatrixFacts) -> Seq<char> {
    if facts.homeserver_url is Some && facts.access_token is Some {
        "  Validating credentials with Matrix homeserver..."@
    } else {
        Seq::empty()
    }
}

#[verifier::rlimit(100)]
#[verifier::spinoff_prover]
proof fn matrix_is_lined(facts: MatrixFacts, c: bool)
    ensures
        matrix_report(facts, c) == text::lined(
            console::marked_lines(c, matrix_kinds(facts), matrix_words(facts)),
        ) + matrix_rest(facts),
        !(facts.homeserver_url is Some && facts.access_token is Some) ==> text::ends_with(
            matrix_report(facts, c),
            "\n"@ + console::error_line(
                c,
                "Cannot validate: missing homeserver_url or access_token"@,
            ) + "\n"@,
        ),
{
    let k0 = Seq::<int>::empty();
    let w0 = Seq::<Seq<char>>::empty();
    assert(text::lined(console::marked_lines(c, k0, w0)) == ""@) by {
        reveal_strlit("");
        assert(console::marked_lines(c, k0, w0) =~= Seq::empty());
        assert(""@ =~= Seq::<char>::empty());
    }
    let p0 = ""@;
    let x1: Seq<char> = "Backend: Matrix"@;
    let h1: int = 0;
    let k1 = k0.push(h1);
    let w1 = w0.push(x1);
    let p1 = p0 + console::success(c, x1);
    assert(text::lined(console::marked_lines(c, k1, w1)) == p1) by {
        console::marked_line_added(c, k0, w0, h1, x1);
        console::marks(c, x1);
    }
    let x2: Seq<char> = Seq::<char>::empty();
    let h2: int = 4;
    let k2 = k1.push(h2);
    let w2 = w1.push(x2);
    let p2 = p1 + "\n"@;
    assert(text::lined(console::marked_lines(c, k2, w2)) == p2) by {
        console::marked_line_added(c, k1, w1, h2, x2);
        console::marks(c, x2);
        assert(x2 + "\n"@ =~= "\n"@);
    }
    let x3: Seq<char> = shown_words(
        "Homeserver URL: "@,
        facts.homeserver_url,
        "Homeserver URL: not configured"@,
    );
    let h3: int = shown_kind(facts.homeserver_url, 1);
    let k3 = k2.push(h3);
    let w3 = w2.push(x3);
    let p3 = p2 + required_line(
        c,
        "Homeserver URL: "@,
        lists::text_in(facts.homeserver_url),
        "Homeserver URL: not configured"@,
    );
    assert(text::lined(console::marked_lines(c, k3, w3)) == p3) by {
        console::marked_line_added(c, k2, w2, h3, x3);
        shown_line(c, "Homeserver URL: "@, facts.homeserver_url, "Homeserver URL: not configured"@);
    }
    let x4: Seq<char> = (if facts.in_keychain {
        "Keychain: access token stored"@
    } else {
        "Keychain: no access token found"@
    });
    let h4: int = (if facts.in_keychain {
        0
    } else {
        3
    });
    let k4 = k3.push(h4);
    let w4 = w3.push(x4);
    let p4 = p3 + presence_line(
        c,
        facts.in_keychain,
        "Keychain: access token stored"@,
        "Keychain: no access token found"@,
    );
    assert(text::lined(console::marked_lines(c, k4, w4)) == p4) by {
        console::marked_line_added(c, k3, w3, h4, x4);
        console::marks(c, x4);
    }
    let x5: Seq<char> = (if facts.in_env {
        "Env var: RALPH_MATRIX_ACCESS_TOKEN set"@
    } else {
        "Env var: RALPH_MATRIX_ACCESS_TOKEN not set"@
    });
    let h5: int = (if facts.in_env {
        0
    } else {
        3
    });
    let k5 = k4.push(h5);
    let w5 = w4.push(x5);
    let p5 = p4 + presence_line(
        c,
        facts.in_env,
        "Env var: RALPH_MATRIX_ACCESS_TOKEN set"@,
        "Env var: RALPH_MATRIX_ACCESS_TOKEN not set"@,
    );
    assert(text::lined(console::marked_lines(c, k5, w5)) == p5) by {
        console::marked_line_added(c, k4, w4, h5, x5);
        console::marks(c, x5);
    }
    let x6: Seq<char> = (if facts.in_config {
        "Config: access_token in ralph.yml (consider migrating to keychain)"@
    } else {
        "Config: no access_token in ralph.yml"@
    });
    let h6: int = (if facts.in_config {
        2
    } else {
        3
    });
    let k6 = k5.push(h6);
    let w6 = w5.push(x6);
    let p6 = p5 + exposed_line(
        c,
        facts.in_config,
        "Config: access_token in ralph.yml (consider migrating to keychain)"@,
        "Config: no access_token in ralph.yml"@,
    );
    assert(text::lined(console::marked_lines(c, k6, w6)) == p6) by {
        console::marked_line_added(c, k5, w5, h6, x6);
        console::marks(c, x6);
    }
    let x7: Seq<char> = shown_words(
        "Bot user ID: "@,
        facts.bot_user_id,
        "Bot user ID: not configured"@,
    );
    let h7: int = shown_kind(facts.bot_user_id, 3);
    let k7 = k6.push(h7);
    let w7 = w6.push(x7);
    let p7 = p6 + optional_line(
        c,
        "Bot user ID: "@,
        lists::text_in(facts.bot_user_id),
        "Bot user ID: not configured"@,
    );
    assert(text::lined(console::marked_lines(c, k7, w7)) == p7) by {
        console::marked_line_added(c, k6, w6, h7, x7);
        shown_line(c, "Bot user ID: "@, facts.bot_user_id, "Bot user ID: not configured"@);
    }
    let x8: Seq<char> = shown_words("Room ID: "@, facts.room_id, "Room ID: not configured"@);
    let h8: int = shown_kind(facts.room_id, 1);
    let k8 = k7.push(h8);
    let w8 = w7.push(x8);
    let p8 = p7 + required_line(
        c,
        "Room ID: "@,
        lists::text_in(facts.room_id),
        "Room ID: not configured"@,
    );
    assert(text::lined(console::marked_lines(c, k8, w8)) == p8) by {
        console::marked_line_added(c, k7, w7, h8, x8);
        shown_line(c, "Room ID: "@, facts.room_id, "Room ID: not configured"@);
    }
    let x9: Seq<char> = shown_words(
        "Operator ID: "@,
        facts.operator_id,
        "Operator ID: not configured (all users can interact)"@,
    );
    let h9: int = shown_kind(facts.operator_id, 3);
    let k9 = k8.push(h9);
    let w9 = w8.push(x9);
    let p9 = p8 + optional_line(
        c,
        "Operator ID: "@,
        lists::text_in(facts.operator_id),
        "Operator ID: not configured (all users can interact)"@,
    );
    assert(text::lined(console::marked_lines(c, k9, w9)) == p9) by {
        console::marked_line_added(c, k8, w8, h9, x9);
        shown_line(
            c,
            "Operator ID: "@,
            facts.operator_id,
            "Operator ID: not configured (all users can interact)"@,
        );
    }
    let x10: Seq<char> = (if facts.enabled {
        "RObot: enabled"@
    } else {
        "RObot: not enabled"@
    });
    let h10: int = (if facts.enabled {
        0
    } else {
        3
    });
    let k10 = k9.push(h10);
    let w10 = w9.push(x10);
    let p10 = p9 + presence_line(c, facts.enabled, "RObot: enabled"@, "RObot: not enabled"@);
    assert(text::lined(console::marked_lines(c, k10, w10)) == p10) by {
        console::marked_line_added(c, k9, w9, h10, x10);
        console::marks(c, x10);
    }
    let x11: Seq<char> = Seq::<char>::empty();
    let h11: int = 4;
    let k11 = k10.push(h11);
    let w11 = w10.push(x11);
    let p11 = p10 + "\n"@;
    assert(text::lined(console::marked_lines(c, k11, w11)) == p11) by {
        console::marked_line_added(c, k10, w10, h11, x11);
        console::marks(c, x11);
        assert(x11 + "\n"@ =~= "\n"@);
    }
    let failed: Seq<char> = "Cannot validate: missing homeserver_url or access_token"@;
    report_closes(c, k10, w10, failed);
    assert(k11 =~= k10.push(4));
    assert(w11 =~= w10.push(Seq::empty()));
    if facts.homeserver_url is Some && facts.access_token is Some {
        assert(matrix_kinds(facts) =~= k11) by {
            reveal(matrix_kinds);
        }
        assert(matrix_words(facts) =~= w11) by {
            reveal(matrix_words);
        }
    } else {
        assert(matrix_kinds(facts) =~= k11.push(1)) by {
            reveal(matrix_kinds);
        }
        assert(matrix_words(facts) =~= w11.push(failed)) by {
            reveal(matrix_words);
        }
    }
}

spec fn matrix_heads() -> Seq<(char, char)> {
    seq![
        ('B', 'a'),
        (' ', ' '),
        ('H', 'o'),
        ('K', 'e'),
        ('E', 'n'),
        ('C', 'o'),
        ('B', 'o'),
        ('R', 'o'),
        ('O', 'p'),
        ('R', 'O'),
        (' ', ' '),
        ('C', 'a'),
    ]
}

#[verifier::rlimit(50)]
#[verifier::spinoff_prover]
proof fn matrix_words_begin(facts: MatrixFacts)
    ensures
        console::is_report(matrix_kinds(facts), matrix_words(facts)),
        matrix_kinds(facts).len() == (
            if facts.homeserver_url is Some && facts.access_token is Some { 11int } else { 12int }
        ),
        forall|i: int| 0 <= i < matrix_words(facts).len() && (#[trigger] matrix_words(facts)[i]).len() > 0 ==> (
            matrix_words(facts)[i][0],
            matrix_words(facts)[i][1],
        ) == matrix_heads()[i],
        unbroken_text(facts.homeserver_url) && unbroken_text(facts.bot_user_id) && unbroken_text(facts.room_id) && unbroken_text(facts.operator_id) ==> forall|i: int| 0 <= i < matrix_words(facts).len() ==> text::one_line(
            #[trigger] matrix_words(facts)[i],
        ),
        text::one_line(matrix_rest(facts)),
{
    reveal(matrix_kinds);
    reveal(matrix_words);
    assert(text::one_line("Backend: Matrix"@)) by {
        reveal_strlit("Backend: Matrix");
    }
    assert(text::one_line("Homeserver URL: "@)) by {
        reveal_strlit("Homeserver URL: ");
    }
    assert(text::one_line("Homeserver URL: not configured"@)) by {
        reveal_strlit("Homeserver URL: not configured");
    }
    assert(text::one_line("Keychain: access token stored"@)) by {
        reveal_strlit("Keychain: access token stored");
    }
    assert(text::one_line("Keychain: no access token found"@)) by {
        reveal_strlit("Keychain: no access token found");
    }
    assert(text::one_line("Env var: RALPH_MATRIX_ACCESS_TOKEN set"@)) by {
        reveal_strlit("Env var: RALPH_MATRIX_ACCESS_TOKEN set");
    }
    assert(text::one_line("Env var: RALPH_MATRIX_ACCESS_TOKEN not set"@)) by {
        reveal_strlit("Env var: RALPH_MATRIX_ACCESS_TOKEN not set");
    }
    assert(text::one_line("Config: access_token in ralph.yml (consider migrating to keychain)"@)) by {
        reveal_strlit("Config: access_token in ralph.yml (consider migrating to keychain)");
    }
    assert(text::one_line("Config: no access_token in ralph.yml"@)) by {
        reveal_strlit("Config: no access_token in ralph.yml");
    }
    assert(text::one_line("Bot user ID: "@)) by {
        reveal_strlit("Bot user ID: ");
    }
    assert(text::one_line("Bot user ID: not configured"@)) by {
        reveal_strlit("Bot user ID: not configured");
    }
    assert(text::one_line("Room ID: "@)) by {
        reveal_strlit("Room ID: ");
    }
    assert(text::one_line("Room ID: not configured"@)) by {
        reveal_strlit("Room ID: not configured");
    }
    assert(text::one_line("Operator ID: "@)) by {
        reveal_strlit("Operator ID: ");
    }
    assert(text::one_line("Operator ID: not configured (all users can interact)"@)) by {
        reveal_strlit("Operator ID: not configured (all users can interact)");
    }
    assert(text::one_line("RObot: enabled"@)) by {
        reveal_strlit("RObot: enabled");
    }
    assert(text::one_line("RObot: not enabled"@)) by {
        reveal_strlit("RObot: not enabled");
    }
    assert(text::one_line("Cannot validate: missing homeserver_url or access_token"@)) by {
        reveal_strlit("Cannot validate: missing homeserver_url or access_token");
    }
    assert(text::one_line("  Validating credentials with Matrix homeserver..."@)) by {
        reveal_strlit("  Validating credentials with Matrix homeserver...");
    }
    assert(is_plain_begun("Backend: Matrix"@, 'B', 'a')) by {
        reveal_strlit("Backend: Matrix");
    }
    assert(is_plain_begun("Homeserver URL: "@, 'H', 'o')) by {
        reveal_strlit("Homeserver URL: ");
    }
    assert(is_plain_begun("Homeserver URL: not configured"@, 'H', 'o')) by {
        reveal_strlit("Homeserver URL: not configured");
    }
    assert(is_plain_begun("Keychain: access token stored"@, 'K', 'e')) by {
        reveal_strlit("Keychain: access token stored");
    }
    assert(is_plain_begun("Keychain: no access token found"@, 'K', 'e')) by {
        reveal_strlit("Keychain: no access token found");
    }
    assert(is_plain_begun("Env var: RALPH_MATRIX_ACCESS_TOKEN set"@, 'E', 'n')) by {
        reveal_strlit("Env var: RALPH_MATRIX_ACCESS_TOKEN set");
    }
    assert(is_plain_begun("Env var: RALPH_MATRIX_ACCESS_TOKEN not set"@, 'E', 'n')) by {
        reveal_strlit("Env var: RALPH_MATRIX_ACCESS_TOKEN not set");
    }
    assert(
        is_plain_begun(
            "Config: access_token in ralph.yml (consider migrating to keychain)"@,
            'C',
            'o',
        )
    ) by {
        reveal_strlit("Config: access_token in ralph.yml (consider migrating to keychain)");
    }
    assert(is_plain_begun("Config: no access_token in ralph.yml"@, 'C', 'o')) by {
        reveal_strlit("Config: no access_token in ralph.yml");
    }
    assert(is_plain_begun("Bot user ID: "@, 'B', 'o')) by {
        reveal_strlit("Bot user ID: ");
    }
    assert(is_plain_begun("Bot user ID: not configured"@, 'B', 'o')) by {
        reveal_strlit("Bot user ID: not configured");
    }
    assert(is_plain_begun("Room ID: "@, 'R', 'o')) by {
        reveal_strlit("Room ID: ");
    }
    assert(is_plain_begun("Room ID: not configured"@, 'R', 'o')) by {
        reveal_strlit("Room ID: not configured");
    }
    assert(is_plain_begun("Operator ID: "@, 'O', 'p')) by {
        reveal_strlit("Operator ID: ");
    }
    assert(is_plain_begun("Operator ID: not configured (all users can interact)"@, 'O', 'p')) by {
        reveal_strlit("Operator ID: not configured (all users can interact)");
    }
    assert(is_plain_begun("RObot: enabled"@, 'R', 'O')) by {
        reveal_strlit("RObot: enabled");
    }
    assert(is_plain_begun("RObot: not enabled"@, 'R', 'O')) by {
        reveal_strlit("RObot: not enabled");
    }
    assert(is_plain_begun("Cannot validate: missing homeserver_url or access_token"@, 'C', 'a')) by {
        reveal_strlit("Cannot validate: missing homeserver_url or access_token");
    }
    shown_begins("Homeserver URL: "@, facts.homeserver_url, "Homeserver URL: not configured"@, 1);
    shown_begins("Bot user ID: "@, facts.bot_user_id, "Bot user ID: not configured"@, 3);
    shown_begins("Room ID: "@, facts.room_id, "Room ID: not configured"@, 1);
    shown_begins(
        "Operator ID: "@,
        facts.operator_id,
        "Operator ID: not configured (all users can interact)"@,
        3,
    );
    let kinds = matrix_kinds(facts);
    let words = matrix_words(facts);
    assert forall|i: int| 0 <= i < kinds.len() implies (#[trigger] kinds[i] == 4 && words[i].len() == 0) || (
        0 <= kinds[i] < 4 && console::is_plain(words[i])
    ) by {}
    assert(text::one_line(Seq::<char>::empty()));
}

proof fn matrix_tells(
    facts: MatrixFacts,
    c: bool,
    j: int,
    kind: int,
    line: Seq<char>,
    unbroken: bool,
)
    requires
        0 < j < matrix_kinds(facts).len(),
        0 <= kind < 4,
        console::is_plain(line),
        (line[0], line[1]) == matrix_heads()[j],
        line[0] != ' ',
        unbroken ==> (
            unbroken_text(
                facts.homeserver_url,
            ) && unbroken_text(facts.bot_user_id) && unbroken_text(facts.room_id) && unbroken_text(facts.operator_id)
        ) && text::one_line(line),
    ensures
        console::tells(
            matrix_report(facts, c),
            unbroken,
            console::marked(c, kind, line),
            matrix_kinds(facts)[j] == kind && matrix_words(facts)[j] == line,
        ),
{
    matrix_is_lined(facts, c);
    matrix_words_begin(facts);
    assert forall|i: int| 0 <= i < matrix_kinds(facts).len() && i != j implies !console::begin_alike(
        #[trigger] matrix_words(facts)[i],
        line,
    ) by {
        assert(matrix_heads()[i] != matrix_heads()[j] || matrix_heads()[i].0 == ' ');
    }
    console::lines_tell(
        c,
        matrix_kinds(facts),
        matrix_words(facts),
        matrix_rest(facts),
        j,
        kind,
        line,
        unbroken,
    );
}

/// The report on a Matrix setup tells each fact by a line of its own, and nothing else.
/// It ends by announcing the validation, exactly if homeserver and token are known.
#[verifier::rlimit(100)]
#[verifier::spinoff_prover]
pub proof fn matrix_report_tells_all(
    facts: &MatrixFacts,
    c: bool,
    r: (String, bool),
    value: Seq<char>,
)
    requires
        call_ensures(bot_status_matrix, (facts, c), r),
    ensures
        ({
            let printed = r.0@;
            let unbroken = unbroken_text(
                facts.homeserver_url,
            ) && unbroken_text(facts.bot_user_id) && unbroken_text(facts.room_id) && unbroken_text(facts.operator_id);
            &&& text::occurs_at(printed, console::ok_line(c, "Backend: Matrix"@) + "\n"@, 0)
            &&& console::tells(
                printed,
                unbroken && text::one_line(value),
                console::ok_line(c, "Homeserver URL: "@ + value),
                lists::text_in(facts.homeserver_url) == Some(value),
            )
            &&& console::tells(
                printed,
                unbroken,
                console::error_line(c, "Homeserver URL: not configured"@),
                facts.homeserver_url is None,
            )
            &&& console::tells(
                printed,
                unbroken,
                console::ok_line(c, "Keychain: access token stored"@),
                facts.in_keychain,
            )
            &&& console::tells(
                printed,
                unbroken,
                console::info_line(c, "Keychain: no access token found"@),
                !(facts.in_keychain),
            )
            &&& console::tells(
                printed,
                unbroken,
                console::ok_line(c, "Env var: RALPH_MATRIX_ACCESS_TOKEN set"@),
                facts.in_env,
            )
            &&& console::tells(
                printed,
                unbroken,
                console::info_line(c, "Env var: RALPH_MATRIX_ACCESS_TOKEN not set"@),
                !(facts.in_env),
            )
            &&& console::tells(
                printed,
                unbroken,
                console::warn_line(
                    c,
                    "Config: access_token in ralph.yml (consider migrating to keychain)"@,
                ),
                facts.in_config,
            )
            &&& console::tells(
                printed,
                unbroken,
                console::info_line(c, "Config: no access_token in ralph.yml"@),
                !(facts.in_config),
            )
            &&& console::tells(
                printed,
                unbroken && text::one_line(value),
                console::ok_line(c, "Bot user ID: "@ + value),
                lists::text_in(facts.bot_user_id) == Some(value),
            )
            &&& console::tells(
                printed,
                unbroken,
                console::info_line(c, "Bot user ID: not configured"@),
                facts.bot_user_id is None,
            )
            &&& console::tells(
                printed,
                unbroken && text::one_line(value),
                console::ok_line(c, "Room ID: "@ + value),
                lists::text_in(facts.room_id) == Some(value),
            )
            &&& console::tells(
                printed,
                unbroken,
                console::error_line(c, "Room ID: not configured"@),
                facts.room_id is None,
            )
            &&& console::tells(
                printed,
                unbroken && text::one_line(value),
                console::ok_line(c, "Operator ID: "@ + value),
                lists::text_in(facts.operator_id) == Some(value),
            )
            &&& console::tells(
                printed,
                unbroken,
                console::info_line(c, "Operator ID: not configured (all users can interact)"@),
                facts.operator_id is None,
            )
            &&& console::tells(
                printed,
                unbroken,
                console::ok_line(c, "RObot: enabled"@),
                facts.enabled,
            )
            &&& console::tells(
                printed,
                unbroken,
                console::info_line(c, "RObot: not enabled"@),
                !(facts.enabled),
            )
            &&& (facts.homeserver_url is Some && facts.access_token is Some) ==> text::ends_with(
                printed,
                "  Validating credentials with Matrix homeserver..."@,
            )
            &&& !(facts.homeserver_url is Some && facts.access_token is Some) ==> text::ends_with(
                printed,
                "\n"@ + console::error_line(
                    c,
                    "Cannot validate: missing homeserver_url or access_token"@,
                ) + "\n"@,
            )
            &&& unbroken ==> text::pieces(printed, '\n').len() == (
                if facts.homeserver_url is Some && facts.access_token is Some { 12int } else { 13int }
            )
            &&& r.1 == (facts.homeserver_url is Some && facts.access_token is Some)
        }),
{
    let unbroken = unbroken_text(
        facts.homeserver_url,
    ) && unbroken_text(facts.bot_user_id) && unbroken_text(facts.room_id) && unbroken_text(facts.operator_id);
    let printed = r.0@;
    matrix_is_lined(*facts, c);
    matrix_words_begin(*facts);
    assert(
        console::tells(
            printed,
            unbroken && text::one_line(value),
            console::ok_line(c, "Homeserver URL: "@ + value),
            lists::text_in(facts.homeserver_url) == Some(value),
        )
    ) by {
        let line: Seq<char> = "Homeserver URL: "@ + value;
        reveal_strlit("Homeserver URL: ");
        reveal_strlit("Homeserver URL: not configured");
        labels_begin("Homeserver URL: "@, value);
        shown_tells(
            "Homeserver URL: "@,
            facts.homeserver_url,
            "Homeserver URL: not configured"@,
            1,
            value,
        );
        console::marks(c, line);
        matrix_tells(*facts, c, 2, 0, line, unbroken && text::one_line(value));
        reveal(matrix_kinds);
        reveal(matrix_words);
    }
    assert(
        console::tells(
            printed,
            unbroken,
            console::error_line(c, "Homeserver URL: not configured"@),
            facts.homeserver_url is None,
        )
    ) by {
        let line: Seq<char> = "Homeserver URL: not configured"@;
        reveal_strlit("Homeserver URL: ");
        reveal_strlit("Homeserver URL: not configured");
        labels_begin("Homeserver URL: "@, value);
        shown_tells(
            "Homeserver URL: "@,
            facts.homeserver_url,
            "Homeserver URL: not configured"@,
            1,
            value,
        );
        console::marks(c, line);
        matrix_tells(*facts, c, 2, 1, line, unbroken);
        reveal(matrix_kinds);
        reveal(matrix_words);
    }
    assert(
        console::tells(
            printed,
            unbroken,
            console::ok_line(c, "Keychain: access token stored"@),
            facts.in_keychain,
        )
    ) by {
        let line: Seq<char> = "Keychain: access token stored"@;
        reveal_strlit("Keychain: access token stored");
        console::marks(c, line);
        matrix_tells(*facts, c, 3, 0, line, unbroken);
        reveal(matrix_kinds);
        reveal(matrix_words);
    }
    assert(
        console::tells(
            printed,
            unbroken,
            console::info_line(c, "Keychain: no access token found"@),
            !(facts.in_keychain),
        )
    ) by {
        let line: Seq<char> = "Keychain: no access token found"@;
        reveal_strlit("Keychain: no access token found");
        console::marks(c, line);
        matrix_tells(*facts, c, 3, 3, line, unbroken);
        reveal(matrix_kinds);
        reveal(matrix_words);
    }
    assert(
        console::tells(
            printed,
            unbroken,
            console::ok_line(c, "Env var: RALPH_MATRIX_ACCESS_TOKEN set"@),
            facts.in_env,
        )
    ) by {
        let line: Seq<char> = "Env var: RALPH_MATRIX_ACCESS_TOKEN set"@;
        reveal_strlit("Env var: RALPH_MATRIX_ACCESS_TOKEN set");
        console::marks(c, line);
        matrix_tells(*facts, c, 4, 0, line, unbroken);
        reveal(matrix_kinds);
        reveal(matrix_words);
    }
    assert(
        console::tells(
            printed,
            unbroken,
            console::info_line(c, "Env var: RALPH_MATRIX_ACCESS_TOKEN not set"@),
            !(facts.in_env),
        )
    ) by {
        let line: Seq<char> = "Env var: RALPH_MATRIX_ACCESS_TOKEN not set"@;
        reveal_strlit("Env var: RALPH_MATRIX_ACCESS_TOKEN not set");
        console::marks(c, line);
        matrix_tells(*facts, c, 4, 3, line, unbroken);
        reveal(matrix_kinds);
        reveal(matrix_words);
    }
    assert(
        console::tells(
            printed,
            unbroken,
            console::warn_line(
                c,
                "Config: access_token in ralph.yml (consider migrating to keychain)"@,
            ),
            facts.in_config,
        )
    ) by {
        let line: Seq<char> = "Config: access_token in ralph.yml (consider migrating to keychain)"@;
        reveal_strlit("Config: access_token in ralph.yml (consider migrating to keychain)");
        console::marks(c, line);
        matrix_tells(*facts, c, 5, 2, line, unbroken);
        reveal(matrix_kinds);
        reveal(matrix_words);
    }
    assert(
        console::tells(
            printed,
            unbroken,
            console::info_line(c, "Config: no access_token in ralph.yml"@),
            !(facts.in_config),
        )
    ) by {
        let line: Seq<char> = "Config: no access_token in ralph.yml"@;
        reveal_strlit("Config: no access_token in ralph.yml");
        console::marks(c, line);
        matrix_tells(*facts, c, 5, 3, line, unbroken);
        reveal(matrix_kinds);
        reveal(matrix_words);
    }
    assert(
        console::tells(
            printed,
            unbroken && text::one_line(value),
            console::ok_line(c, "Bot user ID: "@ + value),
            lists::text_in(facts.bot_user_id) == Some(value),
        )
    ) by {
        let line: Seq<char> = "Bot user ID: "@ + value;
        reveal_strlit("Bot user ID: ");
        reveal_strlit("Bot user ID: not configured");
        labels_begin("Bot user ID: "@, value);
        shown_tells("Bot user ID: "@, facts.bot_user_id, "Bot user ID: not configured"@, 3, value);
        console::marks(c, line);
        matrix_tells(*facts, c, 6, 0, line, unbroken && text::one_line(value));
        reveal(matrix_kinds);
        reveal(matrix_words);
    }
    assert(
        console::tells(
            printed,
            unbroken,
            console::info_line(c, "Bot user ID: not configured"@),
            facts.bot_user_id is None,
        )
    ) by {
        let line: Seq<char> = "Bot user ID: not configured"@;
        reveal_strlit("Bot user ID: ");
        reveal_strlit("Bot user ID: not configured");
        labels_begin("Bot user ID: "@, value);
        shown_tells("Bot user ID: "@, facts.bot_user_id, "Bot user ID: not configured"@, 3, value);
        console::marks(c, line);
        matrix_tells(*facts, c, 6, 3, line, unbroken);
        reveal(matrix_kinds);
        reveal(matrix_words);
    }
    assert(
        console::tells(
            printed,
            unbroken && text::one_line(value),
            console::ok_line(c, "Room ID: "@ + value),
            lists::text_in(facts.room_id) == Some(value),
        )
    ) by {
        let line: Seq<char> = "Room ID: "@ + value;
        reveal_strlit("Room ID: ");
        reveal_strlit("Room ID: not configured");
        labels_begin("Room ID: "@, value);
        shown_tells("Room ID: "@, facts.room_id, "Room ID: not configured"@, 1, value);
        console::marks(c, line);
        matrix_tells(*facts, c, 7, 0, line, unbroken && text::one_line(value));
        reveal(matrix_kinds);
        reveal(matrix_words);
    }
    assert(
        console::tells(
            printed,
            unbroken,
            console::error_line(c, "Room ID: not configured"@),
            facts.room_id is None,
        )
    ) by {
        let line: Seq<char> = "Room ID: not configured"@;
        reveal_strlit("Room ID: ");
        reveal_strlit("Room ID: not configured");
        labels_begin("Room ID: "@, value);
        shown_tells("Room ID: "@, facts.room_id, "Room ID: not configured"@, 1, value);
        console::marks(c, line);
        matrix_tells(*facts, c, 7, 1, line, unbroken);
        reveal(matrix_kinds);
        reveal(matrix_words);
    }
    assert(
        console::tells(
            printed,
            unbroken && text::one_line(value),
            console::ok_line(c, "Operator ID: "@ + value),
            lists::text_in(facts.operator_id) == Some(value),
        )
    ) by {
        let line: Seq<char> = "Operator ID: "@ + value;
        reveal_strlit("Operator ID: ");
        reveal_strlit("Operator ID: not configured (all users can interact)");
        labels_begin("Operator ID: "@, value);
        shown_tells(
            "Operator ID: "@,
            facts.operator_id,
            "Operator ID: not configured (all users can interact)"@,
            3,
            value,
        );
        console::marks(c, line);
        matrix_tells(*facts, c, 8, 0, line, unbroken && text::one_line(value));
        reveal(matrix_kinds);
        reveal(matrix_words);
    }
    assert(
        console::tells(
            printed,
            unbroken,
            console::info_line(c, "Operator ID: not configured (all users can interact)"@),
            facts.operator_id is None,
        )
    ) by {
        let line: Seq<char> = "Operator ID: not configured (all users can interact)"@;
        reveal_strlit("Operator ID: ");
        reveal_strlit("Operator ID: not configured (all users can interact)");
        labels_begin("Operator ID: "@, value);
        shown_tells(
            "Operator ID: "@,
            facts.operator_id,
            "Operator ID: not configured (all users can interact)"@,
            3,
            value,
        );
        console::marks(c, line);
        matrix_tells(*facts, c, 8, 3, line, unbroken);
        reveal(matrix_kinds);
        reveal(matrix_words);
    }
    assert(
        console::tells(printed, unbroken, console::ok_line(c, "RObot: enabled"@), facts.enabled)
    ) by {
        let line: Seq<char> = "RObot: enabled"@;
        reveal_strlit("RObot: enabled");
        console::marks(c, line);
        matrix_tells(*facts, c, 9, 0, line, unbroken);
        reveal(matrix_kinds);
        reveal(matrix_words);
    }
    assert(
        console::tells(
            printed,
            unbroken,
            console::info_line(c, "RObot: not enabled"@),
            !(facts.enabled),
        )
    ) by {
        let line: Seq<char> = "RObot: not enabled"@;
        reveal_strlit("RObot: not enabled");
        console::marks(c, line);
        matrix_tells(*facts, c, 9, 3, line, unbroken);
        reveal(matrix_kinds);
        reveal(matrix_words);
    }
    let lines = console::marked_lines(c, matrix_kinds(*facts), matrix_words(*facts));
    text::addition_ends(text::lined(lines), matrix_rest(*facts));
    if unbroken {
        console::lines_are_counted(
            c,
            matrix_kinds(*facts),
            matrix_words(*facts),
            matrix_rest(*facts),
        );
    }
    assert(text::occurs_at(printed, console::ok_line(c, "Backend: Matrix"@) + "\n"@, 0)) by {
        reveal(matrix_kinds);
        reveal(matrix_words);
        console::marks(c, "Backend: Matrix"@);
        begins_with_first(lines, matrix_rest(*facts));
    }
}

#[verifier::opaque]
spec fn telegram_kinds(facts: TelegramFacts) -> Seq<int> {
    let known = seq![
        0int, 
        4int, 
        (if facts.keychain_token is Some {
        0
    } else {
        3
    }), 
        (if facts.env_token is Some {
        0
    } else {
        3
    }), 
        (if facts.config_token is Some {
        2
    } else {
        3
    }), 
        (if facts.robot_enabled {
        0
    } else {
        3
    }), 
        (match facts.state {
        StateReport::Missing => 3,
        StateReport::Invalid => 2,
        StateReport::NoChat => 2,
        StateReport::Chat(id) => 0,
        StateReport::Unreadable => 3,
    }), 
        4int,
    ];
    if facts.env_token is Some || facts.keychain_token is Some || facts.config_token is Some {
        known
    } else {
        known.push(1)
    }
}

#[verifier::opaque]
spec fn telegram_words(facts: TelegramFacts) -> Seq<Seq<char>> {
    let known = seq![
        "Backend: Telegram"@, 
        Seq::<char>::empty(), 
        (if facts.keychain_token is Some {
        "Keychain: token stored"@
    } else {
        "Keychain: no token found"@
    }), 
        (if facts.env_token is Some {
        "Env var: RALPH_TELEGRAM_BOT_TOKEN set"@
    } else {
        "Env var: RALPH_TELEGRAM_BOT_TOKEN not set"@
    }), 
        (if facts.config_token is Some {
        "Config: bot_token in ralph.yml (consider migrating to keychain)"@
    } else {
        "Config: no token in ralph.yml"@
    }), 
        (if facts.robot_enabled {
        "RObot: enabled in ralph.yml"@
    } else {
        "RObot: not enabled in ralph.yml"@
    }), 
        (match facts.state {
        StateReport::Missing => "Telegram state: not found"@,
        StateReport::Invalid => "Telegram state: file exists but invalid JSON"@,
        StateReport::NoChat => "Telegram state: file exists but no chat_id"@,
        StateReport::Chat(id) => "Telegram state: chat_id = "@ + text::decimal_int(id as int),
        StateReport::Unreadable => "Telegram state: not found"@,
    }), 
        Seq::<char>::empty(),
    ];
    if facts.env_token is Some || facts.keychain_token is Some || facts.config_token is Some {
        known
    } else {
        known.push("No token available. Run `ralph bot onboard` to set up."@)
    }
}

spec fn telegram_rest(facts: TelegramFacts) -> Seq<char> {
    if facts.env_token is Some || facts.keychain_token is Some || facts.config_token is Some {
        "  Validating token with Telegram API..."@
    } else {
        Seq::empty()
    }
}

#[verifier::rlimit(100)]
#[verifier::spinoff_prover]
proof fn telegram_is_lined(facts: TelegramFacts, c: bool)
    requires
        !(facts.state is Unreadable),
    ensures
        telegram_report(facts, c) == text::lined(
            console::marked_lines(c, telegram_kinds(facts), telegram_words(facts)),
        ) + telegram_rest(facts),
        !(facts.env_token is Some || facts.keychain_token is Some || facts.config_token is Some) ==> text::ends_with(
            telegram_report(facts, c),
            "\n"@ + console::error_line(
                c,
                "No token available. Run `ralph bot onboard` to set up."@,
            ) + "\n"@,
        ),
{
    let k0 = Seq::<int>::empty();
    let w0 = Seq::<Seq<char>>::empty();
    assert(text::lined(console::marked_lines(c, k0, w0)) == ""@) by {
        reveal_strlit("");
        assert(console::marked_lines(c, k0, w0) =~= Seq::empty());
        assert(""@ =~= Seq::<char>::empty());
    }
    let p0 = ""@;
    let x1: Seq<char> = "Backend: Telegram"@;
    let h1: int = 0;
    let k1 = k0.push(h1);
    let w1 = w0.push(x1);
    let p1 = p0 + console::success(c, x1);
    assert(text::lined(console::marked_lines(c, k1, w1)) == p1) by {
        console::marked_line_added(c, k0, w0, h1, x1);
        console::marks(c, x1);
    }
    let x2: Seq<char> = Seq::<char>::empty();
    let h2: int = 4;
    let k2 = k1.push(h2);
    let w2 = w1.push(x2);
    let p2 = p1 + "\n"@;
    assert(text::lined(console::marked_lines(c, k2, w2)) == p2) by {
        console::marked_line_added(c, k1, w1, h2, x2);
        console::marks(c, x2);
        assert(x2 + "\n"@ =~= "\n"@);
    }
    let x3: Seq<char> = (if facts.keychain_token is Some {
        "Keychain: token stored"@
    } else {
        "Keychain: no token found"@
    });
    let h3: int = (if facts.keychain_token is Some {
        0
    } else {
        3
    });
    let k3 = k2.push(h3);
    let w3 = w2.push(x3);
    let p3 = p2 + presence_line(
        c,
        facts.keychain_token is Some,
        "Keychain: token stored"@,
        "Keychain: no token found"@,
    );
    assert(text::lined(console::marked_lines(c, k3, w3)) == p3) by {
        console::marked_line_added(c, k2, w2, h3, x3);
        console::marks(c, x3);
    }
    let x4: Seq<char> = (if facts.env_token is Some {
        "Env var: RALPH_TELEGRAM_BOT_TOKEN set"@
    } else {
        "Env var: RALPH_TELEGRAM_BOT_TOKEN not set"@
    });
    let h4: int = (if facts.env_token is Some {
        0
    } else {
        3
    });
    let k4 = k3.push(h4);
    let w4 = w3.push(x4);
    let p4 = p3 + presence_line(
        c,
        facts.env_token is Some,
        "Env var: RALPH_TELEGRAM_BOT_TOKEN set"@,
        "Env var: RALPH_TELEGRAM_BOT_TOKEN not set"@,
    );
    assert(text::lined(console::marked_lines(c, k4, w4)) == p4) by {
        console::marked_line_added(c, k3, w3, h4, x4);
        console::marks(c, x4);
    }
    let x5: Seq<char> = (if facts.config_token is Some {
        "Config: bot_token in ralph.yml (consider migrating to keychain)"@
    } else {
        "Config: no token in ralph.yml"@
    });
    let h5: int = (if facts.config_token is Some {
        2
    } else {
        3
    });
    let k5 = k4.push(h5);
    let w5 = w4.push(x5);
    let p5 = p4 + exposed_line(
        c,
        facts.config_token is Some,
        "Config: bot_token in ralph.yml (consider migrating to keychain)"@,
        "Config: no token in ralph.yml"@,
    );
    assert(text::lined(console::marked_lines(c, k5, w5)) == p5) by {
        console::marked_line_added(c, k4, w4, h5, x5);
        console::marks(c, x5);
    }
    let x6: Seq<char> = (if facts.robot_enabled {
        "RObot: enabled in ralph.yml"@
    } else {
        "RObot: not enabled in ralph.yml"@
    });
    let h6: int = (if facts.robot_enabled {
        0
    } else {
        3
    });
    let k6 = k5.push(h6);
    let w6 = w5.push(x6);
    let p6 = p5 + presence_line(
        c,
        facts.robot_enabled,
        "RObot: enabled in ralph.yml"@,
        "RObot: not enabled in ralph.yml"@,
    );
    assert(text::lined(console::marked_lines(c, k6, w6)) == p6) by {
        console::marked_line_added(c, k5, w5, h6, x6);
        console::marks(c, x6);
    }
    let x7: Seq<char> = (match facts.state {
        StateReport::Missing => "Telegram state: not found"@,
        StateReport::Invalid => "Telegram state: file exists but invalid JSON"@,
        StateReport::NoChat => "Telegram state: file exists but no chat_id"@,
        StateReport::Chat(id) => "Telegram state: chat_id = "@ + text::decimal_int(id as int),
        StateReport::Unreadable => "Telegram state: not found"@,
    });
    let h7: int = (match facts.state {
        StateReport::Missing => 3,
        StateReport::Invalid => 2,
        StateReport::NoChat => 2,
        StateReport::Chat(id) => 0,
        StateReport::Unreadable => 3,
    });
    let k7 = k6.push(h7);
    let w7 = w6.push(x7);
    let p7 = p6 + state_line(c, facts.state);
    assert(text::lined(console::marked_lines(c, k7, w7)) == p7) by {
        console::marked_line_added(c, k6, w6, h7, x7);
        console::marks(c, x7);
    }
    let x8: Seq<char> = Seq::<char>::empty();
    let h8: int = 4;
    let k8 = k7.push(h8);
    let w8 = w7.push(x8);
    let p8 = p7 + "\n"@;
    assert(text::lined(console::marked_lines(c, k8, w8)) == p8) by {
        console::marked_line_added(c, k7, w7, h8, x8);
        console::marks(c, x8);
        assert(x8 + "\n"@ =~= "\n"@);
    }
    let failed: Seq<char> = "No token available. Run `ralph bot onboard` to set up."@;
    report_closes(c, k7, w7, failed);
    assert(k8 =~= k7.push(4));
    assert(w8 =~= w7.push(Seq::empty()));
    if facts.env_token is Some || facts.keychain_token is Some || facts.config_token is Some {
        assert(telegram_kinds(facts) =~= k8) by {
            reveal(telegram_kinds);
        }
        assert(telegram_words(facts) =~= w8) by {
            reveal(telegram_words);
        }
    } else {
        assert(telegram_kinds(facts) =~= k8.push(1)) by {
            reveal(telegram_kinds);
        }
        assert(telegram_words(facts) =~= w8.push(failed)) by {
            reveal(telegram_words);
        }
    }
}

spec fn telegram_heads() -> Seq<(char, char)> {
    seq![
        ('B', 'a'),
        (' ', ' '),
        ('K', 'e'),
        ('E', 'n'),
        ('C', 'o'),
        ('R', 'O'),
        ('T', 'e'),
        (' ', ' '),
        ('N', 'o'),
    ]
}

#[verifier::rlimit(50)]
#[verifier::spinoff_prover]
proof fn telegram_words_begin(facts: TelegramFacts)
    requires
        !(facts.state is Unreadable),
    ensures
        console::is_report(telegram_kinds(facts), telegram_words(facts)),
        telegram_kinds(facts).len() == (if facts.env_token is Some || facts.keychain_token is Some || facts.config_token is Some { 8int } else { 9int }),
        forall|i: int| 0 <= i < telegram_words(facts).len() && (#[trigger] telegram_words(facts)[i]).len() > 0 ==> (
            telegram_words(facts)[i][0],
            telegram_words(facts)[i][1],
        ) == telegram_heads()[i],
        true ==> forall|i: int| 0 <= i < telegram_words(facts).len() ==> text::one_line(
            #[trigger] telegram_words(facts)[i],
        ),
        text::one_line(telegram_rest(facts)),
{
    reveal(telegram_kinds);
    reveal(telegram_words);
    assert(text::one_line("Backend: Telegram"@)) by {
        reveal_strlit("Backend: Telegram");
    }
    assert(text::one_line("Keychain: token stored"@)) by {
        reveal_strlit("Keychain: token stored");
    }
    assert(text::one_line("Keychain: no token found"@)) by {
        reveal_strlit("Keychain: no token found");
    }
    assert(text::one_line("Env var: RALPH_TELEGRAM_BOT_TOKEN set"@)) by {
        reveal_strlit("Env var: RALPH_TELEGRAM_BOT_TOKEN set");
    }
    assert(text::one_line("Env var: RALPH_TELEGRAM_BOT_TOKEN not set"@)) by {
        reveal_strlit("Env var: RALPH_TELEGRAM_BOT_TOKEN not set");
    }
    assert(text::one_line("Config: bot_token in ralph.yml (consider migrating to keychain)"@)) by {
        reveal_strlit("Config: bot_token in ralph.yml (consider migrating to keychain)");
    }
    assert(text::one_line("Config: no token in ralph.yml"@)) by {
        reveal_strlit("Config: no token in ralph.yml");
    }
    assert(text::one_line("RObot: enabled in ralph.yml"@)) by {
        reveal_strlit("RObot: enabled in ralph.yml");
    }
    assert(text::one_line("RObot: not enabled in ralph.yml"@)) by {
        reveal_strlit("RObot: not enabled in ralph.yml");
    }
    assert(text::one_line("Telegram state: not found"@)) by {
        reveal_strlit("Telegram state: not found");
    }
    assert(text::one_line("Telegram state: file exists but invalid JSON"@)) by {
        reveal_strlit("Telegram state: file exists but invalid JSON");
    }
    assert(text::one_line("Telegram state: file exists but no chat_id"@)) by {
        reveal_strlit("Telegram state: file exists but no chat_id");
    }
    assert(text::one_line("Telegram state: chat_id = "@)) by {
        reveal_strlit("Telegram state: chat_id = ");
    }
    assert(text::one_line("No token available. Run `ralph bot onboard` to set up."@)) by {
        reveal_strlit("No token available. Run `ralph bot onboard` to set up.");
    }
    assert(text::one_line("  Validating token with Telegram API..."@)) by {
        reveal_strlit("  Validating token with Telegram API...");
    }
    assert(is_plain_begun("Backend: Telegram"@, 'B', 'a')) by {
        reveal_strlit("Backend: Telegram");
    }
    assert(is_plain_begun("Keychain: token stored"@, 'K', 'e')) by {
        reveal_strlit("Keychain: token stored");
    }
    assert(is_plain_begun("Keychain: no token found"@, 'K', 'e')) by {
        reveal_strlit("Keychain: no token found");
    }
    assert(is_plain_begun("Env var: RALPH_TELEGRAM_BOT_TOKEN set"@, 'E', 'n')) by {
        reveal_strlit("Env var: RALPH_TELEGRAM_BOT_TOKEN set");
    }
    assert(is_plain_begun("Env var: RALPH_TELEGRAM_BOT_TOKEN not set"@, 'E', 'n')) by {
        reveal_strlit("Env var: RALPH_TELEGRAM_BOT_TOKEN not set");
    }
    assert(
        is_plain_begun("Config: bot_token in ralph.yml (consider migrating to keychain)"@, 'C', 'o')
    ) by {
        reveal_strlit("Config: bot_token in ralph.yml (consider migrating to keychain)");
    }
    assert(is_plain_begun("Config: no token in ralph.yml"@, 'C', 'o')) by {
        reveal_strlit("Config: no token in ralph.yml");
    }
    assert(is_plain_begun("RObot: enabled in ralph.yml"@, 'R', 'O')) by {
        reveal_strlit("RObot: enabled in ralph.yml");
    }
    assert(is_plain_begun("RObot: not enabled in ralph.yml"@, 'R', 'O')) by {
        reveal_strlit("RObot: not enabled in ralph.yml");
    }
    assert(is_plain_begun("Telegram state: not found"@, 'T', 'e')) by {
        reveal_strlit("Telegram state: not found");
    }
    assert(is_plain_begun("Telegram state: file exists but invalid JSON"@, 'T', 'e')) by {
        reveal_strlit("Telegram state: file exists but invalid JSON");
    }
    assert(is_plain_begun("Telegram state: file exists but no chat_id"@, 'T', 'e')) by {
        reveal_strlit("Telegram state: file exists but no chat_id");
    }
    assert(is_plain_begun("Telegram state: chat_id = "@, 'T', 'e')) by {
        reveal_strlit("Telegram state: chat_id = ");
    }
    assert(is_plain_begun("No token available. Run `ralph bot onboard` to set up."@, 'N', 'o')) by {
        reveal_strlit("No token available. Run `ralph bot onboard` to set up.");
    }
    match facts.state {
        StateReport::Chat(id) => {
            decimals_are_on_one_line(id as int);
            labels_begin("Telegram state: chat_id = "@, text::decimal_int(id as int));
        },
        _ => {},
    }
    let kinds = telegram_kinds(facts);
    let words = telegram_words(facts);
    assert forall|i: int| 0 <= i < kinds.len() implies (#[trigger] kinds[i] == 4 && words[i].len() == 0) || (
        0 <= kinds[i] < 4 && console::is_plain(words[i])
    ) by {}
    assert(text::one_line(Seq::<char>::empty()));
}

proof fn telegram_tells(
    facts: TelegramFacts,
    c: bool,
    j: int,
    kind: int,
    line: Seq<char>,
    unbroken: bool,
)
    requires
        !(facts.state is Unreadable),
        0 < j < telegram_kinds(facts).len(),
        0 <= kind < 4,
        console::is_plain(line),
        (line[0], line[1]) == telegram_heads()[j],
        line[0] != ' ',
        unbroken ==> (true) && text::one_line(line),
    ensures
        console::tells(
            telegram_report(facts, c),
            unbroken,
            console::marked(c, kind, line),
            telegram_kinds(facts)[j] == kind && telegram_words(facts)[j] == line,
        ),
{
    telegram_is_lined(facts, c);
    telegram_words_begin(facts);
    assert forall|i: int| 0 <= i < telegram_kinds(facts).len() && i != j implies !console::begin_alike(
        #[trigger] telegram_words(facts)[i],
        line,
    ) by {
        assert(telegram_heads()[i] != telegram_heads()[j] || telegram_heads()[i].0 == ' ');
    }
    console::lines_tell(
        c,
        telegram_kinds(facts),
        telegram_words(facts),
        telegram_rest(facts),
        j,
        kind,
        line,
        unbroken,
    );
}

/// The report on a Telegram setup with a state file that can be read, or none, tells each
/// fact by a line of its own, and nothing else: where there is a token, whether the robot
/// is enabled, and what the state file says. The token to validate is that of the
/// environment, else that of the keychain, else that of the config file, and the report
/// ends by announcing its validation, exactly if there is one.
#[verifier::rlimit(100)]
#[verifier::spinoff_prover]
pub proof fn telegram_report_tells_all(
    facts: &TelegramFacts,
    c: bool,
    r: (String, Option<String>),
    chat: i64,
)
    requires
        call_ensures(bot_status_telegram, (facts, c), r),
        !(facts.state is Unreadable),
    ensures
        ({
            let printed = r.0@;
            let unbroken = true;
            &&& text::occurs_at(printed, console::ok_line(c, "Backend: Telegram"@) + "\n"@, 0)
            &&& console::tells(
                printed,
                unbroken,
                console::ok_line(c, "Keychain: token stored"@),
                facts.keychain_token is Some,
            )
            &&& console::tells(
                printed,
                unbroken,
                console::info_line(c, "Keychain: no token found"@),
                !(facts.keychain_token is Some),
            )
            &&& console::tells(
                printed,
                unbroken,
                console::ok_line(c, "Env var: RALPH_TELEGRAM_BOT_TOKEN set"@),
                facts.env_token is Some,
            )
            &&& console::tells(
                printed,
                unbroken,
                console::info_line(c, "Env var: RALPH_TELEGRAM_BOT_TOKEN not set"@),
                !(facts.env_token is Some),
            )
            &&& console::tells(
                printed,
                unbroken,
                console::warn_line(
                    c,
                    "Config: bot_token in ralph.yml (consider migrating to keychain)"@,
                ),
                facts.config_token is Some,
            )
            &&& console::tells(
                printed,
                unbroken,
                console::info_line(c, "Config: no token in ralph.yml"@),
                !(facts.config_token is Some),
            )
            &&& console::tells(
                printed,
                unbroken,
                console::ok_line(c, "RObot: enabled in ralph.yml"@),
                facts.robot_enabled,
            )
            &&& console::tells(
                printed,
                unbroken,
                console::info_line(c, "RObot: not enabled in ralph.yml"@),
                !(facts.robot_enabled),
            )
            &&& console::tells(
                printed,
                true,
                console::info_line(c, "Telegram state: not found"@),
                facts.state is Missing,
            )
            &&& console::tells(
                printed,
                true,
                console::warn_line(c, "Telegram state: file exists but invalid JSON"@),
                facts.state is Invalid,
            )
            &&& console::tells(
                printed,
                true,
                console::warn_line(c, "Telegram state: file exists but no chat_id"@),
                facts.state is NoChat,
            )
            &&& console::tells(
                printed,
                true,
                console::ok_line(c, "Telegram state: chat_id = "@ + text::decimal_int(chat as int)),
                facts.state == StateReport::Chat(chat),
            )
            &&& (facts.env_token is Some || facts.keychain_token is Some || facts.config_token is Some) ==> text::ends_with(printed, "  Validating token with Telegram API..."@)
            &&& !(facts.env_token is Some || facts.keychain_token is Some || facts.config_token is Some) ==> text::ends_with(
                printed,
                "\n"@ + console::error_line(
                    c,
                    "No token available. Run `ralph bot onboard` to set up."@,
                ) + "\n"@,
            )
            &&& unbroken ==> text::pieces(printed, '\n').len() == (if facts.env_token is Some || facts.keychain_token is Some || facts.config_token is Some { 9int } else { 10int })
            &&& facts.env_token is Some ==> lists::text_in(r.1) == lists::text_in(facts.env_token)
            &&& facts.env_token is None && facts.keychain_token is Some ==> lists::text_in(r.1) == lists::text_in(
                facts.keychain_token,
            )
            &&& facts.env_token is None && facts.keychain_token is None ==> lists::text_in(r.1) == lists::text_in(facts.config_token)
        }),
{
    let unbroken = true;
    let printed = r.0@;
    telegram_is_lined(*facts, c);
    telegram_words_begin(*facts);
    assert(
        console::tells(
            printed,
            unbroken,
            console::ok_line(c, "Keychain: token stored"@),
            facts.keychain_token is Some,
        )
    ) by {
        let line: Seq<char> = "Keychain: token stored"@;
        reveal_strlit("Keychain: token stored");
        console::marks(c, line);
        telegram_tells(*facts, c, 2, 0, line, unbroken);
        reveal(telegram_kinds);
        reveal(telegram_words);
    }
    assert(
        console::tells(
            printed,
            unbroken,
            console::info_line(c, "Keychain: no token found"@),
            !(facts.keychain_token is Some),
        )
    ) by {
        let line: Seq<char> = "Keychain: no token found"@;
        reveal_strlit("Keychain: no token found");
        console::marks(c, line);
        telegram_tells(*facts, c, 2, 3, line, unbroken);
        reveal(telegram_kinds);
        reveal(telegram_words);
    }
    assert(
        console::tells(
            printed,
            unbroken,
            console::ok_line(c, "Env var: RALPH_TELEGRAM_BOT_TOKEN set"@),
            facts.env_token is Some,
        )
    ) by {
        let line: Seq<char> = "Env var: RALPH_TELEGRAM_BOT_TOKEN set"@;
        reveal_strlit("Env var: RALPH_TELEGRAM_BOT_TOKEN set");
        console::marks(c, line);
        telegram_tells(*facts, c, 3, 0, line, unbroken);
        reveal(telegram_kinds);
        reveal(telegram_words);
    }
    assert(
        console::tells(
            printed,
            unbroken,
            console::info_line(c, "Env var: RALPH_TELEGRAM_BOT_TOKEN not set"@),
            !(facts.env_token is Some),
        )
    ) by {
        let line: Seq<char> = "Env var: RALPH_TELEGRAM_BOT_TOKEN not set"@;
        reveal_strlit("Env var: RALPH_TELEGRAM_BOT_TOKEN not set");
        console::marks(c, line);
        telegram_tells(*facts, c, 3, 3, line, unbroken);
        reveal(telegram_kinds);
        reveal(telegram_words);
    }
    assert(
        console::tells(
            printed,
            unbroken,
            console::warn_line(
                c,
                "Config: bot_token in ralph.yml (consider migrating to keychain)"@,
            ),
            facts.config_token is Some,
        )
    ) by {
        let line: Seq<char> = "Config: bot_token in ralph.yml (consider migrating to keychain)"@;
        reveal_strlit("Config: bot_token in ralph.yml (consider migrating to keychain)");
        console::marks(c, line);
        telegram_tells(*facts, c, 4, 2, line, unbroken);
        reveal(telegram_kinds);
        reveal(telegram_words);
    }
    assert(
        console::tells(
            printed,
            unbroken,
            console::info_line(c, "Config: no token in ralph.yml"@),
            !(facts.config_token is Some),
        )
    ) by {
        let line: Seq<char> = "Config: no token in ralph.yml"@;
        reveal_strlit("Config: no token in ralph.yml");
        console::marks(c, line);
        telegram_tells(*facts, c, 4, 3, line, unbroken);
        reveal(telegram_kinds);
        reveal(telegram_words);
    }
    assert(
        console::tells(
            printed,
            unbroken,
            console::ok_line(c, "RObot: enabled in ralph.yml"@),
            facts.robot_enabled,
        )
    ) by {
        let line: Seq<char> = "RObot: enabled in ralph.yml"@;
        reveal_strlit("RObot: enabled in ralph.yml");
        console::marks(c, line);
        telegram_tells(*facts, c, 5, 0, line, unbroken);
        reveal(telegram_kinds);
        reveal(telegram_words);
    }
    assert(
        console::tells(
            printed,
            unbroken,
            console::info_line(c, "RObot: not enabled in ralph.yml"@),
            !(facts.robot_enabled),
        )
    ) by {
        let line: Seq<char> = "RObot: not enabled in ralph.yml"@;
        reveal_strlit("RObot: not enabled in ralph.yml");
        console::marks(c, line);
        telegram_tells(*facts, c, 5, 3, line, unbroken);
        reveal(telegram_kinds);
        reveal(telegram_words);
    }
    assert(
        console::tells(
            printed,
            true,
            console::info_line(c, "Telegram state: not found"@),
            facts.state is Missing,
        )
    ) by {
        let line: Seq<char> = "Telegram state: not found"@;
        reveal_strlit("Telegram state: not found");
        reveal_strlit("Telegram state: file exists but invalid JSON");
        reveal_strlit("Telegram state: file exists but no chat_id");
        reveal_strlit("Telegram state: chat_id = ");
        decimals_are_on_one_line(chat as int);
        labels_begin("Telegram state: chat_id = "@, text::decimal_int(chat as int));
        match facts.state {
            StateReport::Chat(id) => {
                decimals_are_on_one_line(id as int);
                labels_begin("Telegram state: chat_id = "@, text::decimal_int(id as int));
                decimals_differ(id as int, chat as int);
                if "Telegram state: chat_id = "@ + text::decimal_int(id as int)
                    == "Telegram state: chat_id = "@ + text::decimal_int(chat as int) {
                    assert(id == chat);
                }
            },
            _ => {},
        }
        console::marks(c, line);
        telegram_tells(*facts, c, 6, 3, line, true);
        reveal(telegram_kinds);
        reveal(telegram_words);
    }
    assert(
        console::tells(
            printed,
            true,
            console::warn_line(c, "Telegram state: file exists but invalid JSON"@),
            facts.state is Invalid,
        )
    ) by {
        let line: Seq<char> = "Telegram state: file exists but invalid JSON"@;
        reveal_strlit("Telegram state: not found");
        reveal_strlit("Telegram state: file exists but invalid JSON");
        reveal_strlit("Telegram state: file exists but no chat_id");
        reveal_strlit("Telegram state: chat_id = ");
        decimals_are_on_one_line(chat as int);
        labels_begin("Telegram state: chat_id = "@, text::decimal_int(chat as int));
        match facts.state {
            StateReport::Chat(id) => {
                decimals_are_on_one_line(id as int);
                labels_begin("Telegram state: chat_id = "@, text::decimal_int(id as int));
                decimals_differ(id as int, chat as int);
                if "Telegram state: chat_id = "@ + text::decimal_int(id as int)
                    == "Telegram state: chat_id = "@ + text::decimal_int(chat as int) {
                    assert(id == chat);
                }
            },
            _ => {},
        }
        console::marks(c, line);
        telegram_tells(*facts, c, 6, 2, line, true);
        reveal(telegram_kinds);
        reveal(telegram_words);
    }
    assert(
        console::tells(
            printed,
            true,
            console::warn_line(c, "Telegram state: file exists but no chat_id"@),
            facts.state is NoChat,
        )
    ) by {
        let line: Seq<char> = "Telegram state: file exists but no chat_id"@;
        reveal_strlit("Telegram state: not found");
        reveal_strlit("Telegram state: file exists but invalid JSON");
        reveal_strlit("Telegram state: file exists but no chat_id");
        reveal_strlit("Telegram state: chat_id = ");
        decimals_are_on_one_line(chat as int);
        labels_begin("Telegram state: chat_id = "@, text::decimal_int(chat as int));
        match facts.state {
            StateReport::Chat(id) => {
                decimals_are_on_one_line(id as int);
                labels_begin("Telegram state: chat_id = "@, text::decimal_int(id as int));
                decimals_differ(id as int, chat as int);
                if "Telegram state: chat_id = "@ + text::decimal_int(id as int)
                    == "Telegram state: chat_id = "@ + text::decimal_int(chat as int) {
                    assert(id == chat);
                }
            },
            _ => {},
        }
        console::marks(c, line);
        telegram_tells(*facts, c, 6, 2, line, true);
        reveal(telegram_kinds);
        reveal(telegram_words);
    }
    assert(
        console::tells(
            printed,
            true,
            console::ok_line(c, "Telegram state: chat_id = "@ + text::decimal_int(chat as int)),
            facts.state == StateReport::Chat(chat),
        )
    ) by {
        let line: Seq<char> = "Telegram state: chat_id = "@ + text::decimal_int(chat as int);
        reveal_strlit("Telegram state: not found");
        reveal_strlit("Telegram state: file exists but invalid JSON");
        reveal_strlit("Telegram state: file exists but no chat_id");
        reveal_strlit("Telegram state: chat_id = ");
        decimals_are_on_one_line(chat as int);
        labels_begin("Telegram state: chat_id = "@, text::decimal_int(chat as int));
        match facts.state {
            StateReport::Chat(id) => {
                decimals_are_on_one_line(id as int);
                labels_begin("Telegram state: chat_id = "@, text::decimal_int(id as int));
                decimals_differ(id as int, chat as int);
                if "Telegram state: chat_id = "@ + text::decimal_int(id as int)
                    == "Telegram state: chat_id = "@ + text::decimal_int(chat as int) {
                    assert(id == chat);
                }
            },
            _ => {},
        }
        console::marks(c, line);
        telegram_tells(*facts, c, 6, 0, line, true);
        reveal(telegram_kinds);
        reveal(telegram_words);
    }
    let lines = console::marked_lines(c, telegram_kinds(*facts), telegram_words(*facts));
    text::addition_ends(text::lined(lines), telegram_rest(*facts));
    if unbroken {
        console::lines_are_counted(
            c,
            telegram_kinds(*facts),
            telegram_words(*facts),
            telegram_rest(*facts),
        );
    }
    assert(text::occurs_at(printed, console::ok_line(c, "Backend: Telegram"@) + "\n"@, 0)) by {
        reveal(telegram_kinds);
        reveal(telegram_words);
        console::marks(c, "Backend: Telegram"@);
        begins_with_first(lines, telegram_rest(*facts));
    }
}

#[verifier::opaque]
spec fn telegram_bare_kinds(facts: TelegramFacts) -> Seq<int> {
    let known = seq![
        0int, 
        4int, 
        (if facts.keychain_token is Some {
        0
    } else {
        3
    }), 
        (if facts.env_token is Some {
        0
    } else {
        3
    }), 
        (if facts.config_token is Some {
        2
    } else {
        3
    }), 
        (if facts.robot_enabled {
        0
    } else {
        3
    }), 
        4int,
    ];
    if facts.env_token is Some || facts.keychain_token is Some || facts.config_token is Some {
        known
    } else {
        known.push(1)
    }
}

#[verifier::opaque]
spec fn telegram_bare_words(facts: TelegramFacts) -> Seq<Seq<char>> {
    let known = seq![
        "Backend: Telegram"@, 
        Seq::<char>::empty(), 
        (if facts.keychain_token is Some {
        "Keychain: token stored"@
    } else {
        "Keychain: no token found"@
    }), 
        (if facts.env_token is Some {
        "Env var: RALPH_TELEGRAM_BOT_TOKEN set"@
    } else {
        "Env var: RALPH_TELEGRAM_BOT_TOKEN not set"@
    }), 
        (if facts.config_token is Some {
        "Config: bot_token in ralph.yml (consider migrating to keychain)"@
    } else {
        "Config: no token in ralph.yml"@
    }), 
        (if facts.robot_enabled {
        "RObot: enabled in ralph.yml"@
    } else {
        "RObot: not enabled in ralph.yml"@
    }), 
        Seq::<char>::empty(),
    ];
    if facts.env_token is Some || facts.keychain_token is Some || facts.config_token is Some {
        known
    } else {
        known.push("No token available. Run `ralph bot onboard` to set up."@)
    }
}

spec fn telegram_bare_rest(facts: TelegramFacts) -> Seq<char> {
    if facts.env_token is Some || facts.keychain_token is Some || facts.config_token is Some {
        "  Validating token with Telegram API..."@
    } else {
        Seq::empty()
    }
}

#[verifier::rlimit(100)]
#[verifier::spinoff_prover]
proof fn telegram_bare_is_lined(facts: TelegramFacts, c: bool)
    requires
        facts.state is Unreadable,
    ensures
        telegram_report(facts, c) == text::lined(
            console::marked_lines(c, telegram_bare_kinds(facts), telegram_bare_words(facts)),
        ) + telegram_bare_rest(facts),
        !(facts.env_token is Some || facts.keychain_token is Some || facts.config_token is Some) ==> text::ends_with(
            telegram_report(facts, c),
            "\n"@ + console::error_line(
                c,
                "No token available. Run `ralph bot onboard` to set up."@,
            ) + "\n"@,
        ),
{
    let k0 = Seq::<int>::empty();
    let w0 = Seq::<Seq<char>>::empty();
    assert(text::lined(console::marked_lines(c, k0, w0)) == ""@) by {
        reveal_strlit("");
        assert(console::marked_lines(c, k0, w0) =~= Seq::empty());
        assert(""@ =~= Seq::<char>::empty());
    }
    let p0 = ""@;
    let x1: Seq<char> = "Backend: Telegram"@;
    let h1: int = 0;
    let k1 = k0.push(h1);
    let w1 = w0.push(x1);
    let p1 = p0 + console::success(c, x1);
    assert(text::lined(console::marked_lines(c, k1, w1)) == p1) by {
        console::marked_line_added(c, k0, w0, h1, x1);
        console::marks(c, x1);
    }
    let x2: Seq<char> = Seq::<char>::empty();
    let h2: int = 4;
    let k2 = k1.push(h2);
    let w2 = w1.push(x2);
    let p2 = p1 + "\n"@;
    assert(text::lined(console::marked_lines(c, k2, w2)) == p2) by {
        console::marked_line_added(c, k1, w1, h2, x2);
        console::marks(c, x2);
        assert(x2 + "\n"@ =~= "\n"@);
    }
    let x3: Seq<char> = (if facts.keychain_token is Some {
        "Keychain: token stored"@
    } else {
        "Keychain: no token found"@
    });
    let h3: int = (if facts.keychain_token is Some {
        0
    } else {
        3
    });
    let k3 = k2.push(h3);
    let w3 = w2.push(x3);
    let p3 = p2 + presence_line(
        c,
        facts.keychain_token is Some,
        "Keychain: token stored"@,
        "Keychain: no token found"@,
    );
    assert(text::lined(console::marked_lines(c, k3, w3)) == p3) by {
        console::marked_line_added(c, k2, w2, h3, x3);
        console::marks(c, x3);
    }
    let x4: Seq<char> = (if facts.env_token is Some {
        "Env var: RALPH_TELEGRAM_BOT_TOKEN set"@
    } else {
        "Env var: RALPH_TELEGRAM_BOT_TOKEN not set"@
    });
    let h4: int = (if facts.env_token is Some {
        0
    } else {
        3
    });
    let k4 = k3.push(h4);
    let w4 = w3.push(x4);
    let p4 = p3 + presence_line(
        c,
        facts.env_token is Some,
        "Env var: RALPH_TELEGRAM_BOT_TOKEN set"@,
        "Env var: RALPH_TELEGRAM_BOT_TOKEN not set"@,
    );
    assert(text::lined(console::marked_lines(c, k4, w4)) == p4) by {
        console::marked_line_added(c, k3, w3, h4, x4);
        console::marks(c, x4);
    }
    let x5: Seq<char> = (if facts.config_token is Some {
        "Config: bot_token in ralph.yml (consider migrating to keychain)"@
    } else {
        "Config: no token in ralph.yml"@
    });
    let h5: int = (if facts.config_token is Some {
        2
    } else {
        3
    });
    let k5 = k4.push(h5);
    let w5 = w4.push(x5);
    let p5 = p4 + exposed_line(
        c,
        facts.config_token is Some,
        "Config: bot_token in ralph.yml (consider migrating to keychain)"@,
        "Config: no token in ralph.yml"@,
    );
    assert(text::lined(console::marked_lines(c, k5, w5)) == p5) by {
        console::marked_line_added(c, k4, w4, h5, x5);
        console::marks(c, x5);
    }
    let x6: Seq<char> = (if facts.robot_enabled {
        "RObot: enabled in ralph.yml"@
    } else {
        "RObot: not enabled in ralph.yml"@
    });
    let h6: int = (if facts.robot_enabled {
        0
    } else {
        3
    });
    let k6 = k5.push(h6);
    let w6 = w5.push(x6);
    let p6 = p5 + presence_line(
        c,
        facts.robot_enabled,
        "RObot: enabled in ralph.yml"@,
        "RObot: not enabled in ralph.yml"@,
    );
    assert(text::lined(console::marked_lines(c, k6, w6)) == p6) by {
        console::marked_line_added(c, k5, w5, h6, x6);
        console::marks(c, x6);
    }
    let x7: Seq<char> = Seq::<char>::empty();
    let h7: int = 4;
    let k7 = k6.push(h7);
    let w7 = w6.push(x7);
    let p7 = p6 + "\n"@;
    assert(text::lined(console::marked_lines(c, k7, w7)) == p7) by {
        console::marked_line_added(c, k6, w6, h7, x7);
        console::marks(c, x7);
        assert(x7 + "\n"@ =~= "\n"@);
    }
    let failed: Seq<char> = "No token available. Run `ralph bot onboard` to set up."@;
    report_closes(c, k6, w6, failed);
    assert(k7 =~= k6.push(4));
    assert(w7 =~= w6.push(Seq::empty()));
    if facts.env_token is Some || facts.keychain_token is Some || facts.config_token is Some {
        assert(telegram_bare_kinds(facts) =~= k7) by {
            reveal(telegram_bare_kinds);
        }
        assert(telegram_bare_words(facts) =~= w7) by {
            reveal(telegram_bare_words);
        }
    } else {
        assert(telegram_bare_kinds(facts) =~= k7.push(1)) by {
            reveal(telegram_bare_kinds);
        }
        assert(telegram_bare_words(facts) =~= w7.push(failed)) by {
            reveal(telegram_bare_words);
        }
    }
}

spec fn telegram_bare_heads() -> Seq<(char, char)> {
    seq![
        ('B', 'a'),
        (' ', ' '),
        ('K', 'e'),
        ('E', 'n'),
        ('C', 'o'),
        ('R', 'O'),
        (' ', ' '),
        ('N', 'o'),
    ]
}

#[verifier::rlimit(50)]
#[verifier::spinoff_prover]
proof fn telegram_bare_words_begin(facts: TelegramFacts)
    requires
        facts.state is Unreadable,
    ensures
        console::is_report(telegram_bare_kinds(facts), telegram_bare_words(facts)),
        telegram_bare_kinds(facts).len() == (if facts.env_token is Some || facts.keychain_token is Some || facts.config_token is Some { 7int } else { 8int }),
        forall|i: int| 0 <= i < telegram_bare_words(facts).len() && (#[trigger] telegram_bare_words(facts)[i]).len() > 0 ==> (
            telegram_bare_words(facts)[i][0],
            telegram_bare_words(facts)[i][1],
        ) == telegram_bare_heads()[i],
        true ==> forall|i: int| 0 <= i < telegram_bare_words(facts).len() ==> text::one_line(
            #[trigger] telegram_bare_words(facts)[i],
        ),
        text::one_line(telegram_bare_rest(facts)),
{
    reveal(telegram_bare_kinds);
    reveal(telegram_bare_words);
    assert(text::one_line("Backend: Telegram"@)) by {
        reveal_strlit("Backend: Telegram");
    }
    assert(text::one_line("Keychain: token stored"@)) by {
        reveal_strlit("Keychain: token stored");
    }
    assert(text::one_line("Keychain: no token found"@)) by {
        reveal_strlit("Keychain: no token found");
    }
    assert(text::one_line("Env var: RALPH_TELEGRAM_BOT_TOKEN set"@)) by {
        reveal_strlit("Env var: RALPH_TELEGRAM_BOT_TOKEN set");
    }
    assert(text::one_line("Env var: RALPH_TELEGRAM_BOT_TOKEN not set"@)) by {
        reveal_strlit("Env var: RALPH_TELEGRAM_BOT_TOKEN not set");
    }
    assert(text::one_line("Config: bot_token in ralph.yml (consider migrating to keychain)"@)) by {
        reveal_strlit("Config: bot_token in ralph.yml (consider migrating to keychain)");
    }
    assert(text::one_line("Config: no token in ralph.yml"@)) by {
        reveal_strlit("Config: no token in ralph.yml");
    }
    assert(text::one_line("RObot: enabled in ralph.yml"@)) by {
        reveal_strlit("RObot: enabled in ralph.yml");
    }
    assert(text::one_line("RObot: not enabled in ralph.yml"@)) by {
        reveal_strlit("RObot: not enabled in ralph.yml");
    }
    assert(text::one_line("No token available. Run `ralph bot onboard` to set up."@)) by {
        reveal_strlit("No token available. Run `ralph bot onboard` to set up.");
    }
    assert(text::one_line("  Validating token with Telegram API..."@)) by {
        reveal_strlit("  Validating token with Telegram API...");
    }
    assert(is_plain_begun("Backend: Telegram"@, 'B', 'a')) by {
        reveal_strlit("Backend: Telegram");
    }
    assert(is_plain_begun("Keychain: token stored"@, 'K', 'e')) by {
        reveal_strlit("Keychain: token stored");
    }
    assert(is_plain_begun("Keychain: no token found"@, 'K', 'e')) by {
        reveal_strlit("Keychain: no token found");
    }
    assert(is_plain_begun("Env var: RALPH_TELEGRAM_BOT_TOKEN set"@, 'E', 'n')) by {
        reveal_strlit("Env var: RALPH_TELEGRAM_BOT_TOKEN set");
    }
    assert(is_plain_begun("Env var: RALPH_TELEGRAM_BOT_TOKEN not set"@, 'E', 'n')) by {
        reveal_strlit("Env var: RALPH_TELEGRAM_BOT_TOKEN not set");
    }
    assert(
        is_plain_begun("Config: bot_token in ralph.yml (consider migrating to keychain)"@, 'C', 'o')
    ) by {
        reveal_strlit("Config: bot_token in ralph.yml (consider migrating to keychain)");
    }
    assert(is_plain_begun("Config: no token in ralph.yml"@, 'C', 'o')) by {
        reveal_strlit("Config: no token in ralph.yml");
    }
    assert(is_plain_begun("RObot: enabled in ralph.yml"@, 'R', 'O')) by {
        reveal_strlit("RObot: enabled in ralph.yml");
    }
    assert(is_plain_begun("RObot: not enabled in ralph.yml"@, 'R', 'O')) by {
        reveal_strlit("RObot: not enabled in ralph.yml");
    }
    assert(is_plain_begun("No token available. Run `ralph bot onboard` to set up."@, 'N', 'o')) by {
        reveal_strlit("No token available. Run `ralph bot onboard` to set up.");
    }
    let kinds = telegram_bare_kinds(facts);
    let words = telegram_bare_words(facts);
    assert forall|i: int| 0 <= i < kinds.len() implies (#[trigger] kinds[i] == 4 && words[i].len() == 0) || (
        0 <= kinds[i] < 4 && console::is_plain(words[i])
    ) by {}
    assert(text::one_line(Seq::<char>::empty()));
}

proof fn telegram_bare_tells(
    facts: TelegramFacts,
    c: bool,
    j: int,
    kind: int,
    line: Seq<char>,
    unbroken: bool,
)
    requires
        facts.state is Unreadable,
        0 < j < telegram_bare_kinds(facts).len(),
        0 <= kind < 4,
        console::is_plain(line),
        (line[0], line[1]) == telegram_bare_heads()[j],
        line[0] != ' ',
        unbroken ==> (true) && text::one_line(line),
    ensures
        console::tells(
            telegram_report(facts, c),
            unbroken,
            console::marked(c, kind, line),
            telegram_bare_kinds(facts)[j] == kind && telegram_bare_words(facts)[j] == line,
        ),
{
    telegram_bare_is_lined(facts, c);
    telegram_bare_words_begin(facts);
    assert forall|i: int| 0 <= i < telegram_bare_kinds(facts).len() && i != j implies !console::begin_alike(
        #[trigger] telegram_bare_words(facts)[i],
        line,
    ) by {
        assert(telegram_bare_heads()[i] != telegram_bare_heads()[j] || telegram_bare_heads()[i].0 == ' ');
    }
    console::lines_tell(
        c,
        telegram_bare_kinds(facts),
        telegram_bare_words(facts),
        telegram_bare_rest(facts),
        j,
        kind,
        line,
        unbroken,
    );
}

/// The report on a Telegram setup whose state file cannot be read tells the other facts,
/// and nothing of the state.
#[verifier::rlimit(100)]
#[verifier::spinoff_prover]
pub proof fn telegram_report_without_state(
    facts: &TelegramFacts,
    c: bool,
    r: (String, Option<String>),
)
    requires
        call_ensures(bot_status_telegram, (facts, c), r),
        facts.state is Unreadable,
    ensures
        ({
            let printed = r.0@;
            let unbroken = true;
            &&& text::occurs_at(printed, console::ok_line(c, "Backend: Telegram"@) + "\n"@, 0)
            &&& console::tells(
                printed,
                unbroken,
                console::ok_line(c, "Keychain: token stored"@),
                facts.keychain_token is Some,
            )
            &&& console::tells(
                printed,
                unbroken,
                console::info_line(c, "Keychain: no token found"@),
                !(facts.keychain_token is Some),
            )
            &&& console::tells(
                printed,
                unbroken,
                console::ok_line(c, "Env var: RALPH_TELEGRAM_BOT_TOKEN set"@),
                facts.env_token is Some,
            )
            &&& console::tells(
                printed,
                unbroken,
                console::info_line(c, "Env var: RALPH_TELEGRAM_BOT_TOKEN not set"@),
                !(facts.env_token is Some),
            )
            &&& console::tells(
                printed,
                unbroken,
                console::warn_line(
                    c,
                    "Config: bot_token in ralph.yml (consider migrating to keychain)"@,
                ),
                facts.config_token is Some,
            )
            &&& console::tells(
                printed,
                unbroken,
                console::info_line(c, "Config: no token in ralph.yml"@),
                !(facts.config_token is Some),
            )
            &&& console::tells(
                printed,
                unbroken,
                console::ok_line(c, "RObot: enabled in ralph.yml"@),
                facts.robot_enabled,
            )
            &&& console::tells(
                printed,
                unbroken,
                console::info_line(c, "RObot: not enabled in ralph.yml"@),
                !(facts.robot_enabled),
            )
            &&& (facts.env_token is Some || facts.keychain_token is Some || facts.config_token is Some) ==> text::ends_with(printed, "  Validating token with Telegram API..."@)
            &&& !(facts.env_token is Some || facts.keychain_token is Some || facts.config_token is Some) ==> text::ends_with(
                printed,
                "\n"@ + console::error_line(
                    c,
                    "No token available. Run `ralph bot onboard` to set up."@,
                ) + "\n"@,
            )
            &&& unbroken ==> text::pieces(printed, '\n').len() == (if facts.env_token is Some || facts.keychain_token is Some || facts.config_token is Some { 8int } else { 9int })
            &&& facts.env_token is Some ==> lists::text_in(r.1) == lists::text_in(facts.env_token)
            &&& facts.env_token is None && facts.keychain_token is Some ==> lists::text_in(r.1) == lists::text_in(
                facts.keychain_token,
            )
            &&& facts.env_token is None && facts.keychain_token is None ==> lists::text_in(r.1) == lists::text_in(facts.config_token)
        }),
{
    let unbroken = true;
    let printed = r.0@;
    telegram_bare_is_lined(*facts, c);
    telegram_bare_words_begin(*facts);
    assert(
        console::tells(
            printed,
            unbroken,
            console::ok_line(c, "Keychain: token stored"@),
            facts.keychain_token is Some,
        )
    ) by {
        let line: Seq<char> = "Keychain: token stored"@;
        reveal_strlit("Keychain: token stored");
        console::marks(c, line);
        telegram_bare_tells(*facts, c, 2, 0, line, unbroken);
        reveal(telegram_bare_kinds);
        reveal(telegram_bare_words);
    }
    assert(
        console::tells(
            printed,
            unbroken,
            console::info_line(c, "Keychain: no token found"@),
            !(facts.keychain_token is Some),
        )
    ) by {
        let line: Seq<char> = "Keychain: no token found"@;
        reveal_strlit("Keychain: no token found");
        console::marks(c, line);
        telegram_bare_tells(*facts, c, 2, 3, line, unbroken);
        reveal(telegram_bare_kinds);
        reveal(telegram_bare_words);
    }
    assert(
        console::tells(
            printed,
            unbroken,
            console::ok_line(c, "Env var: RALPH_TELEGRAM_BOT_TOKEN set"@),
            facts.env_token is Some,
        )
    ) by {
        let line: Seq<char> = "Env var: RALPH_TELEGRAM_BOT_TOKEN set"@;
        reveal_strlit("Env var: RALPH_TELEGRAM_BOT_TOKEN set");
        console::marks(c, line);
        telegram_bare_tells(*facts, c, 3, 0, line, unbroken);
        reveal(telegram_bare_kinds);
        reveal(telegram_bare_words);
    }
    assert(
        console::tells(
            printed,
            unbroken,
            console::info_line(c, "Env var: RALPH_TELEGRAM_BOT_TOKEN not set"@),
            !(facts.env_token is Some),
        )
    ) by {
        let line: Seq<char> = "Env var: RALPH_TELEGRAM_BOT_TOKEN not set"@;
        reveal_strlit("Env var: RALPH_TELEGRAM_BOT_TOKEN not set");
        console::marks(c, line);
        telegram_bare_tells(*facts, c, 3, 3, line, unbroken);
        reveal(telegram_bare_kinds);
        reveal(telegram_bare_words);
    }
    assert(
        console::tells(
            printed,
            unbroken,
            console::warn_line(
                c,
                "Config: bot_token in ralph.yml (consider migrating to keychain)"@,
            ),
            facts.config_token is Some,
        )
    ) by {
        let line: Seq<char> = "Config: bot_token in ralph.yml (consider migrating to keychain)"@;
        reveal_strlit("Config: bot_token in ralph.yml (consider migrating to keychain)");
        console::marks(c, line);
        telegram_bare_tells(*facts, c, 4, 2, line, unbroken);
        reveal(telegram_bare_kinds);
        reveal(telegram_bare_words);
    }
    assert(
        console::tells(
            printed,
            unbroken,
            console::info_line(c, "Config: no token in ralph.yml"@),
            !(facts.config_token is Some),
        )
    ) by {
        let line: Seq<char> = "Config: no token in ralph.yml"@;
        reveal_strlit("Config: no token in ralph.yml");
        console::marks(c, line);
        telegram_bare_tells(*facts, c, 4, 3, line, unbroken);
        reveal(telegram_bare_kinds);
        reveal(telegram_bare_words);
    }
    assert(
        console::tells(
            printed,
            unbroken,
            console::ok_line(c, "RObot: enabled in ralph.yml"@),
            facts.robot_enabled,
        )
    ) by {
        let line: Seq<char> = "RObot: enabled in ralph.yml"@;
        reveal_strlit("RObot: enabled in ralph.yml");
        console::marks(c, line);
        telegram_bare_tells(*facts, c, 5, 0, line, unbroken);
        reveal(telegram_bare_kinds);
        reveal(telegram_bare_words);
    }
    assert(
        console::tells(
            printed,
            unbroken,
            console::info_line(c, "RObot: not enabled in ralph.yml"@),
            !(facts.robot_enabled),
        )
    ) by {
        let line: Seq<char> = "RObot: not enabled in ralph.yml"@;
        reveal_strlit("RObot: not enabled in ralph.yml");
        console::marks(c, line);
        telegram_bare_tells(*facts, c, 5, 3, line, unbroken);
        reveal(telegram_bare_kinds);
        reveal(telegram_bare_words);
    }
    let lines = console::marked_lines(c, telegram_bare_kinds(*facts), telegram_bare_words(*facts));
    text::addition_ends(text::lined(lines), telegram_bare_rest(*facts));
    if unbroken {
        console::lines_are_counted(
            c,
            telegram_bare_kinds(*facts),
            telegram_bare_words(*facts),
            telegram_bare_rest(*facts),
        );
    }
    assert(text::occurs_at(printed, console::ok_line(c, "Backend: Telegram"@) + "\n"@, 0)) by {
        reveal(telegram_bare_kinds);
        reveal(telegram_bare_words);
        console::marks(c, "Backend: Telegram"@);
        begins_with_first(lines, telegram_bare_rest(*facts));
    }
}

/// What is printed of a validation is a line about the bot by its name, or an error with
/// its reason.
pub proof fn validations_are_told(
    c: bool,
    info: BotInfo,
    user: RcUser,
    name: String,
    reason: String,
    telegram: Result<BotInfo, String>,
    rocketchat: Result<RcUser, String>,
    login: MatrixLogin,
    t: String,
    r: String,
    m: String,
)
    requires
        call_ensures(telegram_validated, (c, telegram), t),
        call_ensures(rocketchat_validated, (c, rocketchat), r),
        call_ensures(matrix_validated, (c, login), m),
    ensures
        telegram == Ok::<BotInfo, String>(info) ==> t@ == "\n"@ + (console::ok_line(
            c,
            "Bot: @"@ + info.username@ + " ("@ + info.first_name@ + ")"@,
        ) + "\n"@),
        telegram == Err::<BotInfo, String>(reason) ==> t@ == "\n"@ + (console::error_line(
            c,
            "Token validation failed: "@ + reason@,
        ) + "\n"@),
        rocketchat == Ok::<RcUser, String>(user) ==> r@ == "\n"@ + (console::ok_line(
            c,
            "Bot: "@ + (if user.name is Some {
                user.name->0@
            } else {
                user.username@
            }) + " (@"@ + user.username@ + ")"@,
        ) + "\n"@),
        rocketchat == Err::<RcUser, String>(reason) ==> r@ == "\n"@ + (console::error_line(
            c,
            "Credential validation failed: "@ + reason@,
        ) + "\n"@),
        login == MatrixLogin::Named(name) ==> m@ == "\n"@ + (console::ok_line(c, "Bot: "@ + name@)
            + "\n"@),
        login == MatrixLogin::Nameless(reason) ==> m@ == "\n"@ + (console::warn_line(
            c,
            "Logged in but could not get display name: "@ + reason@,
        ) + "\n"@),
        login == MatrixLogin::Refused(reason) ==> m@ == "\n"@ + (console::error_line(
            c,
            "Credential validation failed: "@ + reason@,
        ) + "\n"@),
{
}

/// What is printed of a room is a line with its name, or with words in its place, or an
/// error with its reason.
pub proof fn rooms_are_told(
    c: bool,
    room: RcRoom,
    info: RoomInfo,
    reason: String,
    answer: Result<RcRoom, String>,
    found: MatrixRoom,
    r: String,
    m: String,
)
    requires
        call_ensures(rocketchat_room_validated, (c, answer), r),
        call_ensures(matrix_room_validated, (c, found), m),
    ensures
        answer == Ok::<RcRoom, String>(room) && room.name is Some ==> r@ == console::ok_line(
            c,
            "Room: "@ + room.name->0@ + " (type: "@ + room.t@ + ")"@,
        ) + "\n"@,
        answer == Ok::<RcRoom, String>(room) && room.name is None ==> r@ == console::ok_line(
            c,
            "Room: "@ + "(DM)"@ + " (type: "@ + room.t@ + ")"@,
        ) + "\n"@,
        answer == Err::<RcRoom, String>(reason) ==> r@ == console::error_line(
            c,
            "Room validation failed: "@ + reason@,
        ) + "\n"@,
        found == MatrixRoom::Found(info) && info.name is Some ==> m@ == console::ok_line(
            c,
            "Room: "@ + info.name->0@,
        ) + "\n"@,
        found == MatrixRoom::Found(info) && info.name is None ==> m@ == console::ok_line(
            c,
            "Room: "@ + "(unnamed)"@,
        ) + "\n"@,
        found == MatrixRoom::Unknown(reason) ==> m@ == console::error_line(
            c,
            "Room validation failed: "@ + reason@,
        ) + "\n"@,
        found == MatrixRoom::Closed(reason) ==> m@ == console::error_line(
            c,
            "Room join/sync failed: "@ + reason@,
        ) + "\n"@,
{
    reveal_strlit("");
    assert(""@ + r@ =~= r@);
    assert(""@ + m@ =~= m@);
    match answer {
        Ok(x) => {
            let words = "Room: "@ + (match x.name {
                Some(name) => name@,
                None => "(DM)"@,
            }) + " (type: "@ + x.t@ + ")"@;
            assert(""@ + console::success(c, words) =~= console::success(c, words));
        },
        Err(x) => {
            let words = "Room validation failed: "@ + x@;
            assert(""@ + console::failure(c, words) =~= console::failure(c, words));
        },
    }
    match found {
        MatrixRoom::Found(x) => {
            let words = "Room: "@ + (match x.name {
                Some(name) => name@,
                None => "(unnamed)"@,
            });
            assert(""@ + console::success(c, words) =~= console::success(c, words));
        },
        MatrixRoom::Unknown(x) => {
            let words = "Room validation failed: "@ + x@;
            assert(""@ + console::failure(c, words) =~= console::failure(c, words));
        },
        MatrixRoom::Closed(x) => {
            let words = "Room join/sync failed: "@ + x@;
            assert(""@ + console::failure(c, words) =~= console::failure(c, words));
        },
    }
}

/// A status begins with its title; exactly where no backend is configured, it says so and
/// names the three setups.
pub proof fn status_begins_with_title(c: bool, backend: Backend, r: String)
    requires
        call_ensures(bot_status, (c, backend), r),
    ensures
        text::contains(r@, "Ralph Bot Status"@),
        text::contains(r@, "================"@),
        backend == Backend::Unset ==> {
            &&& text::contains(r@, console::error_line(c, "No RObot backend configured"@) + "\n"@)
            &&& text::contains(r@, "    ralph bot onboard --backend telegram\n"@)
            &&& text::contains(r@, "    ralph bot onboard --backend rocketchat\n"@)
            &&& text::contains(r@, "    ralph bot onboard --backend matrix\n"@)
        },
        backend != Backend::Unset && !c ==> r@ == "\n"@ + "Ralph Bot Status"@ + "\n"@
            + "================"@ + "\n\n"@,
        backend != Backend::Unset && c ==> r@ == "\n\x1b[1m"@ + "Ralph Bot Status"@
            + "\x1b[0m\n\x1b[1m"@ + "================"@ + "\x1b[0m\n\n"@,
{
    let none = Seq::<char>::empty();
    let title = "Ralph Bot Status"@;
    let rule = "================"@;
    let head = console::heading(c, title, rule);
    let (a, b, d) = if c {
        ("\n\x1b[1m"@, "\x1b[0m\n\x1b[1m"@, "\x1b[0m\n\n"@)
    } else {
        ("\n"@, "\n"@, "\n\n"@)
    };
    assert(head =~= a + title + (b + rule + d));
    text::contained(a, title, b + rule + d);
    assert(head =~= (a + title + b) + rule + d);
    text::contained(a + title + b, rule, d);
    if backend == Backend::Unset {
        hint_names_setups();
        let error = console::failure(c, "No RObot backend configured"@);
        let rest = ""@ + error + SETUP_HINT@;
        assert(r@ == head + rest);
        assert(r@ =~= none + head + rest);
        text::contained_within(none, head, rest, title);
        text::contained_within(none, head, rest, rule);
        assert(r@ =~= (head + ""@) + error + SETUP_HINT@);
        text::contained(head + ""@, error, SETUP_HINT@);
        assert(r@ =~= (head + ""@ + error) + SETUP_HINT@ + none);
        text::contained_within(
            head + ""@ + error,
            SETUP_HINT@,
            none,
            "    ralph bot onboard --backend telegram\n"@,
        );
        text::contained_within(
            head + ""@ + error,
            SETUP_HINT@,
            none,
            "    ralph bot onboard --backend rocketchat\n"@,
        );
        text::contained_within(
            head + ""@ + error,
            SETUP_HINT@,
            none,
            "    ralph bot onboard --backend matrix\n"@,
        );
    }
}

#[verifier::rlimit(50)]
#[verifier::spinoff_prover]
proof fn hint_names_setups()
    ensures
        text::contains(SETUP_HINT@, "    ralph bot onboard --backend telegram\n"@),
        text::contains(SETUP_HINT@, "    ralph bot onboard --backend rocketchat\n"@),
        text::contains(SETUP_HINT@, "    ralph bot onboard --backend matrix\n"@),
{
    reveal_strlit(
        "\n  Set up a backend with:\n    ralph bot onboard --backend telegram\n    ralph bot onboard --backend rocketchat\n    ralph bot onboard --backend matrix\n",
    );
    reveal_strlit("    ralph bot onboard --backend telegram\n");
    reveal_strlit("    ralph bot onboard --backend rocketchat\n");
    reveal_strlit("    ralph bot onboard --backend matrix\n");
    let hint = SETUP_HINT@;
    let t = "    ralph bot onboard --backend telegram\n"@;
    let r = "    ralph bot onboard --backend rocketchat\n"@;
    let m = "    ralph bot onboard --backend matrix\n"@;
    let second: int = 26 + t.len() as int;
    let third: int = second + r.len() as int;
    assert(hint.subrange(26, second) =~= t);
    assert(text::occurs_at(hint, t, 26));
    assert(hint.subrange(second, third) =~= r);
    assert(text::occurs_at(hint, r, second));
    assert(hint.subrange(third, third + m.len()) =~= m);
    assert(text::occurs_at(hint, m, third));
}

/// What a state file says: a file that is not JSON is invalid, and the chat of any other is
/// the whole number at its entry `chat_id`, if there is one.
pub proof fn state_files_are_reported(document: Option<Json>, r: StateReport)
    requires
        call_ensures(report_state, (document,), r),
    ensures
        document is None <==> r is Invalid,
        document matches Some(state) ==> (r is NoChat || r is Chat),
        document matches Some(state) ==> (
            telegram::state_chat(state.tree()) is Some <==> r is Chat
        ),
{
}

/// What is printed where no backend is configured.
pub proof fn missing_backend_is_told(c: bool, r: String)
    requires
        call_ensures(no_backend_text, (c,), r),
    ensures
        r@ == console::error_line(c, "No RObot backend configured"@) + "\n"@
            + "\n  Set up a backend with:\n    ralph bot onboard --backend telegram\n    ralph bot onboard --backend rocketchat\n    ralph bot onboard --backend matrix\n"@,
{
    reveal_strlit("");
    let line = console::failure(c, "No RObot backend configured"@);
    assert(""@ + line =~= line);
}

/// What the content of a state file says is what the document in it says.
pub proof fn state_contents_are_reported(
    content: &str,
    document: Option<Json>,
    chat: i64,
    r: StateReport,
    of_document: StateReport,
)
    requires
        call_ensures(report_state_content, (content,), r),
        call_ensures(report_state, (document,), of_document),
        json::tree_of(document) == json::json_parsed(content@),
    ensures
        r == of_document,
        r == StateReport::Chat(chat) <==> document is Some && document->0.tree().entry("chat_id"@)
            == Some(JsonTree::Int(chat)),
        r is Invalid <==> document is None,
        !(r is Missing) && !(r is Unreadable),
{
}

} // verus!
