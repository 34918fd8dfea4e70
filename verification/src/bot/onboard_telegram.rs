//! The setup wizard for Telegram, step by step.

use super::console::{self, put_failure, put_setup_complete, put_success, put_warning};
use super::telegram::{BotInfo, UpdateInfo};
use crate::{lists, text};
use vstd::prelude::*;

verus! {

/// The title of the wizard.
pub const TITLE: &'static str = "Ralph Telegram Bot Setup";

/// The line under the title.
pub const RULE: &'static str = "========================";

/// How to get a token.
pub const TOKEN_HELP: &'static str =
    "Step 1: Create a Telegram bot\n  1. Open Telegram and message @BotFather\n  2. Send /newbot and follow the prompts\n  3. Copy the bot token\n\n";

/// The question for the token.
pub const TOKEN_PROMPT: &'static str = "  Paste your bot token: ";

/// The reply to a blank token.
pub const TOKEN_EMPTY: &'static str = "  Token cannot be empty. Please try again.\n";

/// The announcement of the token's validation.
pub const CHECKING: &'static str =
    "\nStep 2: Validate token\n  Checking token with Telegram API...";

/// What to do about a token that is not valid.
pub const TOKEN_TROUBLE: &'static str =
    "\n  Troubleshooting:\n    - Check the token was copied correctly from BotFather\n    - Ensure the token hasn't been revoked\n    - Check your internet connection\n";

/// The invitation to send a message to the bot.
pub const CONNECT: &'static str =
    "\nStep 3: Connect your Telegram account\n  Send any message to your bot: https://t.me/";

/// What to do where no message came.
pub const CHAT_TROUBLE: &'static str =
    "\n    - Try sending /start to the bot\n    - You can retry with: ralph bot onboard --token <token> --timeout 300\n";

/// The announcement of the saving.
pub const SAVING: &'static str = "\nStep 4: Save configuration\n";

/// The announcement of the test message.
pub const VERIFYING: &'static str = "\nStep 5: Verify\n";

/// The test message of every setup.
pub const TEST_MESSAGE: &'static str =
    "Ralph bot setup complete! I'm ready to assist during orchestration runs.";

/// What to do where the test message could not be sent.
pub const TEST_LATER: &'static str = "    Setup saved. Verify later with: ralph bot test\n";

/// Where the wizard stands.
#[derive(Debug, Clone, Copy, PartialEq, Eq, Structural)]
pub enum TelegramPhase {
    /// The token is asked for.
    AskToken,
    /// The token is being validated.
    CheckToken,
    /// A message to the bot is awaited.
    AwaitMessage,
    /// The token is being stored in the keychain.
    StoreToken,
    /// The config file is being written.
    SaveConfig,
    /// The state file is being written.
    SaveState,
    /// The test message is being sent.
    SendTest,
    /// The wizard has ended.
    Over,
}

/// The setup wizard for Telegram.
#[derive(Debug)]
pub struct TelegramSetup {
    use_colors: bool,
    timeout: u64,
    token: Option<String>,
    username: String,
    chat_id: Option<i64>,
    token_in_config: bool,
    phase: TelegramPhase,
}

/// The mathematical value of the wizard.
pub struct TelegramSetupView {
    /// Whether to print in colors.
    pub use_colors: bool,
    /// How long to wait for a message, in seconds.
    pub timeout: u64,
    /// The token, once it is known.
    pub token: Option<Seq<char>>,
    /// The bot's username, once it is known.
    pub username: Seq<char>,
    /// The chat, once it is known.
    pub chat_id: Option<i64>,
    /// Whether the token goes into the config file.
    pub token_in_config: bool,
    /// Where the wizard stands.
    pub phase: TelegramPhase,
}

impl View for TelegramSetup {
    type V = TelegramSetupView;

    closed spec fn view(&self) -> TelegramSetupView {
        TelegramSetupView {
            use_colors: self.use_colors,
            timeout: self.timeout,
            token: lists::text_in(self.token),
            username: self.username@,
            chat_id: self.chat_id,
            token_in_config: self.token_in_config,
            phase: self.phase,
        }
    }
}

/// What the wizard learns.
#[derive(Debug)]
pub enum TelegramEvent {
    /// The operator has entered a line.
    Line(String),
    /// The token is valid for this bot.
    BotFound(BotInfo),
    /// The token is not valid, for this reason.
    BotRefused(String),
    /// A message came in.
    MessageFound(UpdateInfo),
    /// No message came in, for this reason.
    NoMessage(String),
    /// The last step of saving or sending was done.
    Done,
    /// The last step of saving or sending failed, for this reason.
    Failed(String),
}

/// The mathematical value of an event.
pub enum TelegramEventView {
    /// The operator has entered a line.
    Line(Seq<char>),
    /// The token is valid for a bot with this username.
    BotFound(Seq<char>),
    /// The token is not valid, for this reason.
    BotRefused(Seq<char>),
    /// A message came in, in this chat and of this sender.
    MessageFound(i64, Seq<char>),
    /// No message came in, for this reason.
    NoMessage(Seq<char>),
    /// The last step of saving or sending was done.
    Done,
    /// The last step of saving or sending failed, for this reason.
    Failed(Seq<char>),
}

impl View for TelegramEvent {
    type V = TelegramEventView;

    open spec fn view(&self) -> TelegramEventView {
        match self {
            TelegramEvent::Line(line) => TelegramEventView::Line(line@),
            TelegramEvent::BotFound(info) => TelegramEventView::BotFound(info.username@),
            TelegramEvent::BotRefused(reason) => TelegramEventView::BotRefused(reason@),
            TelegramEvent::MessageFound(update) => TelegramEventView::MessageFound(
                update.chat_id,
                update.from_name@,
            ),
            TelegramEvent::NoMessage(reason) => TelegramEventView::NoMessage(reason@),
            TelegramEvent::Done => TelegramEventView::Done,
            TelegramEvent::Failed(reason) => TelegramEventView::Failed(reason@),
        }
    }
}

/// What the wizard does next, after printing.
#[derive(Debug)]
pub enum TelegramAction {
    /// Read a line.
    ReadLine,
    /// Validate a token.
    CheckToken(String),
    /// Wait for a message, at most this long.
    AwaitMessage(String, u64),
    /// Store a token in the keychain.
    StoreToken(String),
    /// Write the config file, with this time limit and this token in it.
    SaveConfig(u64, Option<String>),
    /// Write the state file for a chat.
    SaveState(i64),
    /// Send a message to a chat, with a token.
    SendMessage(String, i64, String),
    /// End well.
    Finish,
    /// End with an error.
    Fail(String),
    /// Nothing, since the event was not awaited.
    Ignore,
}

/// The mathematical value of an action.
pub enum TelegramActionView {
    /// Read a line.
    ReadLine,
    /// Validate a token.
    CheckToken(Seq<char>),
    /// Wait for a message, at most this long.
    AwaitMessage(Seq<char>, u64),
    /// Store a token in the keychain.
    StoreToken(Seq<char>),
    /// Write the config file, with this time limit and this token in it.
    SaveConfig(u64, Option<Seq<char>>),
    /// Write the state file for a chat.
    SaveState(i64),
    /// Send a message to a chat, with a token.
    SendMessage(Seq<char>, i64, Seq<char>),
    /// End well.
    Finish,
    /// End with an error.
    Fail(Seq<char>),
    /// Nothing, since the event was not awaited.
    Ignore,
}

impl View for TelegramAction {
    type V = TelegramActionView;

    open spec fn view(&self) -> TelegramActionView {
        match self {
            TelegramAction::ReadLine => TelegramActionView::ReadLine,
            TelegramAction::CheckToken(token) => TelegramActionView::CheckToken(token@),
            TelegramAction::AwaitMessage(token, secs) => TelegramActionView::AwaitMessage(
                token@,
                *secs,
            ),
            TelegramAction::StoreToken(token) => TelegramActionView::StoreToken(token@),
            TelegramAction::SaveConfig(timeout, token) => TelegramActionView::SaveConfig(
                *timeout,
                lists::text_in(*token),
            ),
            TelegramAction::SaveState(chat_id) => TelegramActionView::SaveState(*chat_id),
            TelegramAction::SendMessage(token, chat_id, words) => TelegramActionView::SendMessage(
                token@,
                *chat_id,
                words@,
            ),
            TelegramAction::Finish => TelegramActionView::Finish,
            TelegramAction::Fail(reason) => TelegramActionView::Fail(reason@),
            TelegramAction::Ignore => TelegramActionView::Ignore,
        }
    }
}

/// A step of the wizard: its new state, what it prints, and what it does then.
pub type TelegramStep = (TelegramSetupView, Seq<char>, TelegramActionView);

/// The token, once it is known.
pub open spec fn token_of(setup: TelegramSetupView) -> Seq<char> {
    match setup.token {
        Some(token) => token,
        None => Seq::empty(),
    }
}

/// The step of validating a token.
pub open spec fn check_token(
    setup: TelegramSetupView,
    printed: Seq<char>,
    token: Seq<char>,
) -> TelegramStep {
    (
        TelegramSetupView { token: Some(token), phase: TelegramPhase::CheckToken, ..setup },
        printed + CHECKING@,
        TelegramActionView::CheckToken(token),
    )
}

/// The step of storing the token.
pub open spec fn store_token(
    setup: TelegramSetupView,
    printed: Seq<char>,
    chat_id: i64,
) -> TelegramStep {
    (
        TelegramSetupView { chat_id: Some(chat_id), phase: TelegramPhase::StoreToken, ..setup },
        printed + SAVING@,
        TelegramActionView::StoreToken(token_of(setup)),
    )
}

/// The step of ending with an error.
pub open spec fn fail(
    setup: TelegramSetupView,
    printed: Seq<char>,
    reason: Seq<char>,
) -> TelegramStep {
    (
        TelegramSetupView { phase: TelegramPhase::Over, ..setup },
        printed,
        TelegramActionView::Fail(reason),
    )
}

/// The chat, once it is known.
pub open spec fn chat_of(setup: TelegramSetupView) -> i64 {
    match setup.chat_id {
        Some(chat_id) => chat_id,
        None => 0,
    }
}

/// The first step of the wizard.
pub open spec fn telegram_first(
    use_colors: bool,
    timeout: u64,
    token: Option<Seq<char>>,
    chat_id: Option<i64>,
) -> TelegramStep {
    let setup = TelegramSetupView {
        use_colors,
        timeout,
        token,
        username: Seq::empty(),
        chat_id,
        token_in_config: false,
        phase: TelegramPhase::AskToken,
    };
    let title = console::heading(use_colors, TITLE@, RULE@);
    match token {
        Some(given) => check_token(setup, title, given),
        None => (setup, title + TOKEN_HELP@ + TOKEN_PROMPT@, TelegramActionView::ReadLine),
    }
}

/// The next step of the wizard.
pub open spec fn telegram_next(setup: TelegramSetupView, event: TelegramEventView) -> TelegramStep {
    let c = setup.use_colors;
    match (setup.phase, event) {
        (TelegramPhase::AskToken, TelegramEventView::Line(line)) => if text::trimmed(line).len()
            == 0 {
            (setup, TOKEN_EMPTY@ + TOKEN_PROMPT@, TelegramActionView::ReadLine)
        } else {
            check_token(setup, ""@, text::trimmed(line))
        },
        (TelegramPhase::CheckToken, TelegramEventView::BotFound(username)) => {
            let found = TelegramSetupView { username, ..setup };
            let printed = "\n"@ + console::success(c, "Token valid! Bot: @"@ + username);
            match setup.chat_id {
                Some(chat_id) => store_token(found, printed, chat_id),
                None => (
                    TelegramSetupView { phase: TelegramPhase::AwaitMessage, ..found },
                    printed + CONNECT@ + username + "\n  Waiting for message... (timeout: "@
                        + text::decimal(setup.timeout as nat) + "s)"@,
                    TelegramActionView::AwaitMessage(token_of(setup), setup.timeout),
                ),
            }
        },
        (TelegramPhase::CheckToken, TelegramEventView::BotRefused(reason)) => fail(
            setup,
            "\n"@ + console::failure(c, "Token validation failed: "@ + reason) + TOKEN_TROUBLE@,
            "Token validation failed"@,
        ),
        (TelegramPhase::AwaitMessage, TelegramEventView::MessageFound(chat_id, name)) => store_token(
            setup,
            "\n"@ + console::success(
                c,
                "Message received from: "@ + name + " (chat_id: "@ + text::decimal_int(
                    chat_id as int,
                ) + ")"@,
            ),
            chat_id,
        ),
        (TelegramPhase::AwaitMessage, TelegramEventView::NoMessage(reason)) => fail(
            setup,
            "\n"@ + console::failure(c, "No message received: "@ + reason)
                + "\n  Troubleshooting:\n    - Make sure you're messaging @"@ + setup.username
                + CHAT_TROUBLE@,
            "Chat ID detection failed"@,
        ),
        (TelegramPhase::StoreToken, TelegramEventView::Done) => (
            TelegramSetupView { phase: TelegramPhase::SaveConfig, ..setup },
            ""@ + console::success(c, "Token stored in OS keychain (ralph/telegram-bot-token)"@),
            TelegramActionView::SaveConfig(setup.timeout, None),
        ),
        (TelegramPhase::StoreToken, TelegramEventView::Failed(reason)) => (
            TelegramSetupView {
                token_in_config: true,
                phase: TelegramPhase::SaveConfig,
                ..setup
            },
            ""@ + console::warning(c, "Could not store token in keychain: "@ + reason)
                + "    Set RALPH_TELEGRAM_BOT_TOKEN env var instead.\n"@,
            TelegramActionView::SaveConfig(setup.timeout, Some(token_of(setup))),
        ),
        (TelegramPhase::SaveConfig, TelegramEventView::Done) => (
            TelegramSetupView { phase: TelegramPhase::SaveState, ..setup },
            (if setup.token_in_config {
                ""@ + console::warning(
                    c,
                    "Stored bot token in ralph.yml (legacy). Consider using env var or keychain."@,
                )
            } else {
                ""@
            }) + console::success(c, "Updated ralph.yml (RObot.enabled: true)"@),
            TelegramActionView::SaveState(chat_of(setup)),
        ),
        (TelegramPhase::SaveConfig, TelegramEventView::Failed(reason)) => (
            TelegramSetupView { phase: TelegramPhase::SaveState, ..setup },
            ""@ + console::warning(c, "Could not update ralph.yml: "@ + reason)
                + "    Add manually:\n      RObot:\n        enabled: true\n        timeout_seconds: "@
                + text::decimal(setup.timeout as nat) + "\n"@,
            TelegramActionView::SaveState(chat_of(setup)),
        ),
        (TelegramPhase::SaveState, TelegramEventView::Done) => (
            TelegramSetupView { phase: TelegramPhase::SendTest, ..setup },
            ""@ + console::success(
                c,
                "Created .ralph/telegram-state.json (chat_id: "@ + text::decimal_int(
                    chat_of(setup) as int,
                ) + ")"@,
            ) + VERIFYING@,
            TelegramActionView::SendMessage(token_of(setup), chat_of(setup), TEST_MESSAGE@),
        ),
        (TelegramPhase::SaveState, TelegramEventView::Failed(reason)) => (
            TelegramSetupView { phase: TelegramPhase::SendTest, ..setup },
            ""@ + console::warning(c, "Could not save telegram state: "@ + reason) + VERIFYING@,
            TelegramActionView::SendMessage(token_of(setup), chat_of(setup), TEST_MESSAGE@),
        ),
        (TelegramPhase::SendTest, TelegramEventView::Done) => (
            TelegramSetupView { phase: TelegramPhase::Over, ..setup },
            ""@ + console::success(c, "Test message sent to your Telegram!"@)
                + console::setup_complete(c, "Telegram"@),
            TelegramActionView::Finish,
        ),
        (TelegramPhase::SendTest, TelegramEventView::Failed(reason)) => (
            TelegramSetupView { phase: TelegramPhase::Over, ..setup },
            ""@ + console::warning(c, "Could not send test message: "@ + reason) + TEST_LATER@
                + console::setup_complete(c, "Telegram"@),
            TelegramActionView::Finish,
        ),
        _ => (setup, ""@, TelegramActionView::Ignore),
    }
}

impl TelegramSetup {
    fn token_text(&self) -> (r: String)
        ensures
            r@ == token_of(self@),
    {
        match &self.token {
            Some(token) => token.clone(),
            None => String::new(),
        }
    }

    fn chat(&self) -> (r: i64)
        ensures
            r == chat_of(self@),
    {
        match self.chat_id {
            Some(chat_id) => chat_id,
            None => 0,
        }
    }

    fn to_check(&mut self, printed: &mut String, token: String) -> (r: TelegramAction)
        ensures
            (final(self)@, final(printed)@, r@) == check_token(old(self)@, old(printed)@, token@),
    {
        printed.append(CHECKING);
        self.token = Some(token.clone());
        self.phase = TelegramPhase::CheckToken;
        TelegramAction::CheckToken(token)
    }

    fn to_store(&mut self, printed: &mut String, chat_id: i64) -> (r: TelegramAction)
        ensures
            (final(self)@, final(printed)@, r@) == store_token(old(self)@, old(printed)@, chat_id),
    {
        printed.append(SAVING);
        self.chat_id = Some(chat_id);
        self.phase = TelegramPhase::StoreToken;
        TelegramAction::StoreToken(self.token_text())
    }

    fn to_failure(&mut self, printed: &String, reason: &str) -> (r: TelegramAction)
        ensures
            (final(self)@, printed@, r@) == fail(old(self)@, printed@, reason@),
    {
        self.phase = TelegramPhase::Over;
        TelegramAction::Fail(String::from_str(reason))
    }

    /// Starts the wizard with what the command line gives: the wizard, what it
    /// prints, and what it does then.
    pub fn start(
        use_colors: bool,
        timeout: u64,
        token: Option<String>,
        chat_id: Option<i64>,
    ) -> (r: (TelegramSetup, String, TelegramAction))
        ensures
            (r.0@, r.1@, r.2@) == telegram_first(
                use_colors,
                timeout,
                lists::text_in(token),
                chat_id,
            ),
    {
        let mut setup = TelegramSetup {
            use_colors,
            timeout,
            token: None,
            username: String::new(),
            chat_id,
            token_in_config: false,
            phase: TelegramPhase::AskToken,
        };
        let mut printed = console::heading_text(use_colors, TITLE, RULE);
        match token {
            Some(given) => {
                let action = setup.to_check(&mut printed, given);
                (setup, printed, action)
            },
            None => {
                printed.append(TOKEN_HELP);
                printed.append(TOKEN_PROMPT);
                (setup, printed, TelegramAction::ReadLine)
            },
        }
    }

    /// The next step of the wizard: what it prints, and what it does then.
    pub fn step(&mut self, event: TelegramEvent) -> (r: (String, TelegramAction))
        ensures
            (final(self)@, r.0@, r.1@) == telegram_next(old(self)@, event@),
    {
        let c: bool = self.use_colors;
        match (self.phase, event) {
            (TelegramPhase::AskToken, TelegramEvent::Line(line)) => {
                let token = text::trim(&line);
                if token.unicode_len() == 0 {
                    (text::cat2(TOKEN_EMPTY, TOKEN_PROMPT), TelegramAction::ReadLine)
                } else {
                    let mut out = String::from_str("");
                    let action = self.to_check(&mut out, String::from_str(token));
                    (out, action)
                }
            },
            (TelegramPhase::CheckToken, TelegramEvent::BotFound(info)) => {
                let mut out = String::from_str("\n");
                put_success(&mut out, c, &text::cat2("Token valid! Bot: @", &info.username));
                self.username = info.username.clone();
                match self.chat_id {
                    Some(chat_id) => {
                        let action = self.to_store(&mut out, chat_id);
                        (out, action)
                    },
                    None => {
                        out.append(CONNECT);
                        out.append(&info.username);
                        out.append("\n  Waiting for message... (timeout: ");
                        out.append(&text::number(self.timeout));
                        out.append("s)");
                        self.phase = TelegramPhase::AwaitMessage;
                        (out, TelegramAction::AwaitMessage(self.token_text(), self.timeout))
                    },
                }
            },
            (TelegramPhase::CheckToken, TelegramEvent::BotRefused(reason)) => {
                let mut out = String::from_str("\n");
                put_failure(&mut out, c, &text::cat2("Token validation failed: ", &reason));
                out.append(TOKEN_TROUBLE);
                let action = self.to_failure(&out, "Token validation failed");
                (out, action)
            },
            (TelegramPhase::AwaitMessage, TelegramEvent::MessageFound(update)) => {
                let mut out = String::from_str("\n");
                put_success(
                    &mut out,
                    c,
                    &text::cat5(
                        "Message received from: ",
                        &update.from_name,
                        " (chat_id: ",
                        &text::signed_number(update.chat_id),
                        ")",
                    ),
                );
                let action = self.to_store(&mut out, update.chat_id);
                (out, action)
            },
            (TelegramPhase::AwaitMessage, TelegramEvent::NoMessage(reason)) => {
                let mut out = String::from_str("\n");
                put_failure(&mut out, c, &text::cat2("No message received: ", &reason));
                out.append("\n  Troubleshooting:\n    - Make sure you're messaging @");
                out.append(&self.username);
                out.append(CHAT_TROUBLE);
                let action = self.to_failure(&out, "Chat ID detection failed");
                (out, action)
            },
            (TelegramPhase::StoreToken, TelegramEvent::Done) => {
                let mut out = String::from_str("");
                put_success(
                    &mut out,
                    c,
                    "Token stored in OS keychain (ralph/telegram-bot-token)",
                );
                self.phase = TelegramPhase::SaveConfig;
                (out, TelegramAction::SaveConfig(self.timeout, None))
            },
            (TelegramPhase::StoreToken, TelegramEvent::Failed(reason)) => {
                let mut out = String::from_str("");
                put_warning(
                    &mut out,
                    c,
                    &text::cat2("Could not store token in keychain: ", &reason),
                );
                out.append("    Set RALPH_TELEGRAM_BOT_TOKEN env var instead.\n");
                self.token_in_config = true;
                self.phase = TelegramPhase::SaveConfig;
                (out, TelegramAction::SaveConfig(self.timeout, Some(self.token_text())))
            },
            (TelegramPhase::SaveConfig, TelegramEvent::Done) => {
                let mut out = String::from_str("");
                if self.token_in_config {
                    put_warning(
                        &mut out,
                        c,
                        "Stored bot token in ralph.yml (legacy). Consider using env var or keychain.",
                    );
                }
                put_success(&mut out, c, "Updated ralph.yml (RObot.enabled: true)");
                self.phase = TelegramPhase::SaveState;
                (out, TelegramAction::SaveState(self.chat()))
            },
            (TelegramPhase::SaveConfig, TelegramEvent::Failed(reason)) => {
                let mut out = String::from_str("");
                put_warning(&mut out, c, &text::cat2("Could not update ralph.yml: ", &reason));
                out.append(
                    "    Add manually:\n      RObot:\n        enabled: true\n        timeout_seconds: ",
                );
                out.append(&text::number(self.timeout));
                out.append("\n");
                self.phase = TelegramPhase::SaveState;
                (out, TelegramAction::SaveState(self.chat()))
            },
            (TelegramPhase::SaveState, TelegramEvent::Done) => {
                let mut out = String::from_str("");
                put_success(
                    &mut out,
                    c,
                    &text::cat3(
                        "Created .ralph/telegram-state.json (chat_id: ",
                        &text::signed_number(self.chat()),
                        ")",
                    ),
                );
                out.append(VERIFYING);
                self.phase = TelegramPhase::SendTest;
                (
                    out,
                    TelegramAction::SendMessage(
                        self.token_text(),
                        self.chat(),
                        String::from_str(TEST_MESSAGE),
                    ),
                )
            },
            (TelegramPhase::SaveState, TelegramEvent::Failed(reason)) => {
                let mut out = String::from_str("");
                put_warning(&mut out, c, &text::cat2("Could not save telegram state: ", &reason));
                out.append(VERIFYING);
                self.phase = TelegramPhase::SendTest;
                (
                    out,
                    TelegramAction::SendMessage(
                        self.token_text(),
                        self.chat(),
                        String::from_str(TEST_MESSAGE),
                    ),
                )
            },
            (TelegramPhase::SendTest, TelegramEvent::Done) => {
                let mut out = String::from_str("");
                put_success(&mut out, c, "Test message sent to your Telegram!");
                put_setup_complete(&mut out, c, "Telegram");
                self.phase = TelegramPhase::Over;
                (out, TelegramAction::Finish)
            },
            (TelegramPhase::SendTest, TelegramEvent::Failed(reason)) => {
                let mut out = String::from_str("");
                put_warning(&mut out, c, &text::cat2("Could not send test message: ", &reason));
                out.append(TEST_LATER);
                put_setup_complete(&mut out, c, "Telegram");
                self.phase = TelegramPhase::Over;
                (out, TelegramAction::Finish)
            },
            _ => (String::from_str(""), TelegramAction::Ignore),
        }
    }
}

/// The token goes into the config file exactly if the keychain did not take it,
/// and nothing is stored or written before the token was found valid.
pub proof fn token_stays_out_of_the_config(setup: TelegramSetupView, event: TelegramEventView)
    ensures
        ({
            let (_, _, action) = telegram_next(setup, event);
            &&& action matches TelegramActionView::SaveConfig(_, token) ==> setup.phase
                == TelegramPhase::StoreToken && (token is Some <==> event is Failed) && (
            token matches Some(shown) ==> shown == token_of(setup))
            &&& action matches TelegramActionView::StoreToken(token) ==> (event is BotFound
                || event is MessageFound) && token == token_of(setup)
        }),
{
}

// ── Laws ────────────────────────────────────────────────────────────────

/// Whether an event tells how a step of saving or sending went.
pub open spec fn tells_outcome(event: TelegramEventView) -> bool {
    event is Done || event is Failed
}

/// A whole run of the wizard. The token is the words that are entered, or the one that was
/// given, which is not asked for then. It is validated, and the chat is the one that was
/// given, or the one that a message comes in from within the time limit. The token goes to
/// the keychain; the time limit is written to the config file, with the token exactly if
/// the keychain has not taken it; the chat is written to the state file, and the test
/// message goes to this chat with this token. The wizard ends well however the writing and
/// the sending went.
pub proof fn telegram_setup_runs_through(
    use_colors: bool,
    timeout: u64,
    line: Seq<char>,
    token: Seq<char>,
    given: Option<i64>,
    username: Seq<char>,
    found: i64,
    name: Seq<char>,
    reason: Seq<char>,
    written: TelegramEventView,
    stated: TelegramEventView,
    sent: TelegramEventView,
    later: TelegramEventView,
)
    requires
        text::has_words(line, token),
        tells_outcome(written),
        tells_outcome(stated),
        tells_outcome(sent),
    ensures
        ({
            let asking = telegram_first(use_colors, timeout, None, given);
            let checking = telegram_next(asking.0, TelegramEventView::Line(line));
            let at_once = telegram_first(use_colors, timeout, Some(token), given);
            let valid = telegram_next(checking.0, TelegramEventView::BotFound(username));
            let heard = telegram_next(valid.0, TelegramEventView::MessageFound(found, name));
            let chat = if given is Some {
                given->0
            } else {
                found
            };
            let storing = if given is Some {
                valid
            } else {
                heard
            };
            let kept = telegram_next(storing.0, TelegramEventView::Done);
            let refused = telegram_next(storing.0, TelegramEventView::Failed(reason));
            let kept_written = telegram_next(kept.0, written);
            let refused_written = telegram_next(refused.0, written);
            let kept_stated = telegram_next(kept_written.0, stated);
            let refused_stated = telegram_next(refused_written.0, stated);
            let kept_sent = telegram_next(kept_stated.0, sent);
            let refused_sent = telegram_next(refused_stated.0, sent);
            let message = TelegramActionView::SendMessage(
                token,
                chat,
                "Ralph bot setup complete! I'm ready to assist during orchestration runs."@,
            );
            &&& asking.2 is ReadLine
            &&& checking.2 == TelegramActionView::CheckToken(token)
            &&& at_once.2 == TelegramActionView::CheckToken(token) && at_once.0 == checking.0
            &&& given is None ==> valid.2 == TelegramActionView::AwaitMessage(token, timeout)
            &&& storing.2 == TelegramActionView::StoreToken(token)
            &&& kept.2 == TelegramActionView::SaveConfig(timeout, None)
            &&& refused.2 == TelegramActionView::SaveConfig(timeout, Some(token))
            &&& kept_written.2 == TelegramActionView::SaveState(chat)
            &&& refused_written.2 == TelegramActionView::SaveState(chat)
            &&& kept_stated.2 == message && refused_stated.2 == message
            &&& kept_sent.2 is Finish && refused_sent.2 is Finish
            &&& telegram_next(kept_sent.0, later) == (kept_sent.0, ""@, TelegramActionView::Ignore)
        }),
{
    text::words_are_trimmed(line, token);
}

/// A blank token is asked for again, with nothing changed. A token that is not valid, and a
/// message that does not come, end the wizard with an error. An event that is not awaited
/// changes nothing, prints nothing and does nothing.
pub proof fn telegram_setup_fails_early(
    setup: TelegramSetupView,
    line: Seq<char>,
    reason: Seq<char>,
    event: TelegramEventView,
)
    requires
        text::is_blank(line),
    ensures
        setup.phase == TelegramPhase::AskToken ==> {
            let step = telegram_next(setup, TelegramEventView::Line(line));
            &&& step.0 == setup
            &&& step.2 is ReadLine
            &&& text::contains(step.1, "  Token cannot be empty. Please try again.\n"@)
            &&& text::ends_with(step.1, "  Paste your bot token: "@)
        },
        setup.phase == TelegramPhase::CheckToken ==> {
            let step = telegram_next(setup, TelegramEventView::BotRefused(reason));
            &&& step.0.phase == TelegramPhase::Over
            &&& step.2 == TelegramActionView::Fail("Token validation failed"@)
            &&& text::contains(
                step.1,
                console::error_line(setup.use_colors, "Token validation failed: "@ + reason)
                    + "\n"@,
            )
        },
        setup.phase == TelegramPhase::AwaitMessage ==> {
            let step = telegram_next(setup, TelegramEventView::NoMessage(reason));
            &&& step.0.phase == TelegramPhase::Over
            &&& step.2 == TelegramActionView::Fail("Chat ID detection failed"@)
            &&& text::contains(
                step.1,
                console::error_line(setup.use_colors, "No message received: "@ + reason) + "\n"@,
            )
            &&& text::contains(step.1, setup.username)
        },
        ({
            let awaited = match setup.phase {
                TelegramPhase::AskToken => event is Line,
                TelegramPhase::CheckToken => event is BotFound || event is BotRefused,
                TelegramPhase::AwaitMessage => event is MessageFound || event is NoMessage,
                TelegramPhase::Over => false,
                _ => tells_outcome(event),
            };
            let step = telegram_next(setup, event);
            &&& !awaited ==> step.0 == setup && step.1.len() == 0 && step.2 is Ignore
            &&& awaited ==> !(step.2 is Ignore)
            &&& step.0.use_colors == setup.use_colors && step.0.timeout == setup.timeout
        }),
{
    reveal_strlit("");
    text::words_are_trimmed(line, line);
    text::in_sum2(TOKEN_EMPTY@, TOKEN_PROMPT@);
    text::addition_ends(TOKEN_EMPTY@, TOKEN_PROMPT@);
    let c = setup.use_colors;
    let refused = console::failure(c, "Token validation failed: "@ + reason);
    text::in_sum3("\n"@, refused, TOKEN_TROUBLE@);
    let silent = console::failure(c, "No message received: "@ + reason);
    let hint = "\n  Troubleshooting:\n    - Make sure you're messaging @"@;
    let start = "\n"@ + silent;
    text::in_sum2("\n"@, silent);
    text::in_sum4(start, hint, setup.username, CHAT_TROUBLE@);
    let front = start + hint;
    text::in_sum_within(start, hint, silent);
    text::in_sum_within(front, setup.username, silent);
    text::in_sum_within(front + setup.username, CHAT_TROUBLE@, silent);
}

proof fn after_nothing(line: Seq<char>)
    ensures
        ""@ + line == line,
{
    reveal_strlit("");
    assert(""@ + line =~= line);
}

/// What the wizard tells of each step: the bot and the sender by name and the chat by its
/// number, what was stored and written and what was not and why, and at its end that the
/// setup is complete.
pub proof fn telegram_setup_tells_each_step(
    setup: TelegramSetupView,
    username: Seq<char>,
    chat: i64,
    name: Seq<char>,
    reason: Seq<char>,
)
    ensures
        ({
            let c = setup.use_colors;
            let done = telegram_next(setup, TelegramEventView::Done).1;
            let failed = telegram_next(setup, TelegramEventView::Failed(reason)).1;
            let valid = telegram_next(setup, TelegramEventView::BotFound(username)).1;
            let heard = telegram_next(setup, TelegramEventView::MessageFound(chat, name)).1;
            &&& setup.phase == TelegramPhase::CheckToken ==> text::contains(
                valid,
                console::ok_line(c, "Token valid! Bot: @"@ + username) + "\n"@,
            )
            &&& setup.phase == TelegramPhase::CheckToken && setup.chat_id is None
                ==> text::ends_with(
                valid,
                username + "\n  Waiting for message... (timeout: "@ + text::decimal(
                    setup.timeout as nat,
                ) + "s)"@,
            )
            &&& setup.phase == TelegramPhase::AwaitMessage ==> text::contains(
                heard,
                console::ok_line(
                    c,
                    "Message received from: "@ + name + " (chat_id: "@ + text::decimal_int(
                        chat as int,
                    ) + ")"@,
                ) + "\n"@,
            )
            &&& setup.phase == TelegramPhase::StoreToken ==> done == console::ok_line(
                c,
                "Token stored in OS keychain (ralph/telegram-bot-token)"@,
            ) + "\n"@
            &&& setup.phase == TelegramPhase::StoreToken ==> failed == console::warn_line(
                c,
                "Could not store token in keychain: "@ + reason,
            ) + "\n"@ + "    Set RALPH_TELEGRAM_BOT_TOKEN env var instead.\n"@
            &&& setup.phase == TelegramPhase::SaveConfig ==> text::ends_with(
                done,
                console::ok_line(c, "Updated ralph.yml (RObot.enabled: true)"@) + "\n"@,
            )
            &&& setup.phase == TelegramPhase::SaveConfig && setup.token_in_config
                ==> text::contains(
                done,
                console::warn_line(
                    c,
                    "Stored bot token in ralph.yml (legacy). Consider using env var or keychain."@,
                ) + "\n"@,
            )
            &&& setup.phase == TelegramPhase::SaveConfig && !setup.token_in_config ==> done
                == console::ok_line(c, "Updated ralph.yml (RObot.enabled: true)"@) + "\n"@
            &&& setup.phase == TelegramPhase::SaveConfig ==> failed == console::warn_line(
                c,
                "Could not update ralph.yml: "@ + reason,
            ) + "\n"@
                + "    Add manually:\n      RObot:\n        enabled: true\n        timeout_seconds: "@
                + text::decimal(setup.timeout as nat) + "\n"@
            &&& setup.phase == TelegramPhase::SaveState && setup.chat_id == Some(chat) ==> done
                == console::ok_line(
                c,
                "Created .ralph/telegram-state.json (chat_id: "@ + text::decimal_int(chat as int)
                    + ")"@,
            ) + "\n"@ + "\nStep 5: Verify\n"@
            &&& setup.phase == TelegramPhase::SaveState ==> failed == console::warn_line(
                c,
                "Could not save telegram state: "@ + reason,
            ) + "\n"@ + "\nStep 5: Verify\n"@
            &&& setup.phase == TelegramPhase::SendTest ==> done == console::ok_line(
                c,
                "Test message sent to your Telegram!"@,
            ) + "\n"@ + console::setup_complete(c, "Telegram"@)
            &&& setup.phase == TelegramPhase::SendTest ==> failed == console::warn_line(
                c,
                "Could not send test message: "@ + reason,
            ) + "\n"@ + "    Setup saved. Verify later with: ralph bot test\n"@
                + console::setup_complete(c, "Telegram"@)
        }),
{
    let c = setup.use_colors;
    let valid = console::success(c, "Token valid! Bot: @"@ + username);
    text::in_sum3("\n"@, valid, SAVING@);
    let wait = "\n  Waiting for message... (timeout: "@;
    let secs = text::decimal(setup.timeout as nat);
    let start = "\n"@ + valid + CONNECT@;
    text::in_sum3("\n"@, valid, CONNECT@);
    text::in_sum_within(start, username, valid);
    text::in_sum_within(start + username, wait, valid);
    text::in_sum_within(start + username + wait, secs, valid);
    text::in_sum_within(start + username + wait + secs, "s)"@, valid);
    let ending = username + wait + secs + "s)"@;
    assert(start + username + wait + secs + "s)"@ =~= start + ending);
    text::addition_ends(start, ending);
    let heard = console::success(
        c,
        "Message received from: "@ + name + " (chat_id: "@ + text::decimal_int(chat as int) + ")"@,
    );
    text::in_sum3("\n"@, heard, SAVING@);
    after_nothing(
        console::success(c, "Token stored in OS keychain (ralph/telegram-bot-token)"@),
    );
    after_nothing(console::warning(c, "Could not store token in keychain: "@ + reason));
    let legacy = console::warning(
        c,
        "Stored bot token in ralph.yml (legacy). Consider using env var or keychain."@,
    );
    let updated = console::success(c, "Updated ralph.yml (RObot.enabled: true)"@);
    after_nothing(legacy);
    after_nothing(updated);
    text::in_sum2(legacy, updated);
    text::addition_ends(legacy, updated);
    text::addition_ends(""@, updated);
    after_nothing(console::warning(c, "Could not update ralph.yml: "@ + reason));
    after_nothing(console::warning(c, "Could not save telegram state: "@ + reason));
    after_nothing(console::warning(c, "Could not send test message: "@ + reason));
    after_nothing(console::success(c, "Test message sent to your Telegram!"@));
    after_nothing(
        console::success(
            c,
            "Created .ralph/telegram-state.json (chat_id: "@ + text::decimal_int(
                chat_of(setup) as int,
            ) + ")"@,
        ),
    );
}

/// The wizard begins with its title and, without a token, with the way to one.
pub proof fn telegram_setup_begins(
    use_colors: bool,
    timeout: u64,
    token: Option<Seq<char>>,
    given: Option<i64>,
)
    ensures
        ({
            let printed = telegram_first(use_colors, timeout, token, given).1;
            &&& text::contains(printed, "Ralph Telegram Bot Setup"@)
            &&& token is None ==> text::ends_with(printed, "  Paste your bot token: "@)
            &&& token is None ==> text::contains(
                printed,
                "Step 1: Create a Telegram bot\n  1. Open Telegram and message @BotFather\n  2. Send /newbot and follow the prompts\n  3. Copy the bot token\n\n"@,
            )
            &&& token is Some ==> text::ends_with(
                printed,
                "\nStep 2: Validate token\n  Checking token with Telegram API..."@,
            )
        }),
{
    let title = console::heading(use_colors, TITLE@, RULE@);
    console::titles_are_contained(use_colors, TITLE@, RULE@);
    text::in_sum3(title, TOKEN_HELP@, TOKEN_PROMPT@);
    text::in_sum_within(title, TOKEN_HELP@, TITLE@);
    text::in_sum_within(title + TOKEN_HELP@, TOKEN_PROMPT@, TITLE@);
    text::in_sum_within(title, CHECKING@, TITLE@);
    text::addition_ends(title + TOKEN_HELP@, TOKEN_PROMPT@);
    text::addition_ends(title, CHECKING@);
}

} // verus!
