//! The setup wizard for Matrix, step by step.

use super::console::{self, put_failure, put_setup_complete, put_success, put_warning};
use super::onboard_rocketchat::{CHECKING_ROOM, OPERATOR_PROMPT, ROOM_PROMPT, VALUE_EMPTY};
use super::onboard_telegram::{TEST_LATER, TEST_MESSAGE};
use crate::lists::{self, copy_text};
use crate::matrix::types::RoomInfo;
use crate::text;
use vstd::prelude::*;

verus! {

/// The title of the wizard.
pub const TITLE: &'static str = "Ralph Matrix Bot Setup";

/// The line under the title.
pub const RULE: &'static str = "======================";

/// The question for the homeserver.
pub const ASK_SERVER: &'static str =
    "Step 1: Matrix homeserver URL\n  e.g., https://matrix.example.com\n\n";

/// The prompt for the homeserver.
pub const SERVER_PROMPT: &'static str = "  Homeserver URL: ";

/// The question for the access token.
pub const ASK_TOKEN: &'static str =
    "\nStep 2: Authentication\n  You can provide an access token directly, or log in with username/password.\n  Access tokens can be found in Element: Settings > Help & About > Access Token.\n\n";

/// The prompt for the access token, which can be left blank.
pub const TOKEN_PROMPT: &'static str = "  Access token (or press Enter to use password login): ";

/// The prompt for the username.
pub const USERNAME_PROMPT: &'static str = "  Username (e.g., @bot:example.com or just bot): ";

/// The prompt for the password.
pub const PASSWORD_PROMPT: &'static str = "  Password: ";

/// The announcement of the password login.
pub const LOGGING_IN: &'static str = "\n  Logging in with password...";

/// What a password login is worth, and the question for an access token after it.
pub const ASK_TOKEN_AGAIN: &'static str =
    "    Note: An access token was generated for this session.\n    You should create a dedicated access token for production use.\n\n  Password login verified credentials, but an access token is needed for storage.\n  Please provide an access token (Element: Settings > Help & About > Access Token).\n\n";

/// The prompt for the access token after a password login.
pub const TOKEN_AGAIN_PROMPT: &'static str = "  Access token: ";

/// What to do about a password login that failed.
pub const LOGIN_TROUBLE: &'static str =
    "\n  Troubleshooting:\n    - Check that homeserver URL is correct and reachable\n    - Verify username and password are correct\n    - Check your internet connection\n";

/// The announcement of the validation.
pub const CHECKING: &'static str =
    "\nStep 3: Validate credentials\n  Checking credentials with Matrix homeserver...";

/// What to do about credentials that are not valid.
pub const CREDENTIAL_TROUBLE: &'static str =
    "\n  Troubleshooting:\n    - Check that homeserver URL is correct and reachable\n    - Verify the access token hasn't been revoked\n    - Check your internet connection\n";

/// The question for the room.
pub const ASK_ROOM: &'static str =
    "\nStep 4: Room ID\n  The room where Ralph will send messages.\n  Find it in Element: Room Settings > Advanced > Internal room ID.\n  Format: !abc123:example.com\n\n";

/// The question for the operator.
pub const ASK_OPERATOR: &'static str =
    "\nStep 5: Operator ID (optional)\n  In group rooms, only messages from this user are processed.\n  Format: @username:example.com\n  Leave blank for DMs or if filtering is not needed.\n\n";

/// The announcement of the saving.
pub const SAVING: &'static str = "\nStep 6: Save configuration\n";

/// The announcement of the test message.
pub const VERIFYING: &'static str = "\nStep 7: Verify\n";

/// Where the wizard stands.
#[derive(Debug, Clone, Copy, PartialEq, Eq, Structural)]
pub enum MatrixPhase {
    /// The homeserver is asked for.
    AskServer,
    /// The access token is asked for.
    AskToken,
    /// The username is asked for, for a password login.
    AskUsername,
    /// The password is asked for.
    AskPassword,
    /// The password login is under way.
    Login,
    /// The access token is asked for, after a password login.
    AskTokenAgain,
    /// The credentials are being validated.
    CheckLogin,
    /// The bot's display name is being fetched.
    FetchName,
    /// The room is asked for.
    AskRoom,
    /// The room is being entered.
    EnterRoom,
    /// The room is being looked at.
    CheckRoom,
    /// The operator is asked for.
    AskOperator,
    /// The access token is being stored in the keychain.
    StoreToken,
    /// The config file is being written.
    SaveConfig,
    /// The test message is being sent.
    SendTest,
    /// The wizard has ended.
    Over,
}

/// The setup wizard for Matrix.
#[derive(Debug)]
pub struct MatrixSetup {
    use_colors: bool,
    homeserver_url: Option<String>,
    access_token: Option<String>,
    username: String,
    room_id: Option<String>,
    operator_id: Option<String>,
    phase: MatrixPhase,
}

/// The mathematical value of the wizard.
pub struct MatrixSetupView {
    /// Whether to print in colors.
    pub use_colors: bool,
    /// The homeserver, once it is known.
    pub homeserver_url: Option<Seq<char>>,
    /// The access token, once it is known.
    pub access_token: Option<Seq<char>>,
    /// The username of a password login.
    pub username: Seq<char>,
    /// The room, once it is known.
    pub room_id: Option<Seq<char>>,
    /// The operator, if there is one.
    pub operator_id: Option<Seq<char>>,
    /// Where the wizard stands.
    pub phase: MatrixPhase,
}

impl View for MatrixSetup {
    type V = MatrixSetupView;

    closed spec fn view(&self) -> MatrixSetupView {
        MatrixSetupView {
            use_colors: self.use_colors,
            homeserver_url: lists::text_in(self.homeserver_url),
            access_token: lists::text_in(self.access_token),
            username: self.username@,
            room_id: lists::text_in(self.room_id),
            operator_id: lists::text_in(self.operator_id),
            phase: self.phase,
        }
    }
}

/// What the wizard learns.
#[derive(Debug)]
pub enum MatrixEvent {
    /// The operator has entered a line.
    Line(String),
    /// The bot's display name.
    NameFound(String),
    /// The room was found.
    RoomFound(RoomInfo),
    /// The last step was done.
    Done,
    /// The last step failed, for this reason.
    Failed(String),
}

/// The mathematical value of an event.
pub enum MatrixEventView {
    /// The operator has entered a line.
    Line(Seq<char>),
    /// The bot's display name.
    NameFound(Seq<char>),
    /// The room was found: its name and the number of its members.
    RoomFound(Option<Seq<char>>, u64),
    /// The last step was done.
    Done,
    /// The last step failed, for this reason.
    Failed(Seq<char>),
}

impl View for MatrixEvent {
    type V = MatrixEventView;

    open spec fn view(&self) -> MatrixEventView {
        match self {
            MatrixEvent::Line(line) => MatrixEventView::Line(line@),
            MatrixEvent::NameFound(name) => MatrixEventView::NameFound(name@),
            MatrixEvent::RoomFound(room) => MatrixEventView::RoomFound(
                lists::text_in(room.name),
                room.member_count,
            ),
            MatrixEvent::Done => MatrixEventView::Done,
            MatrixEvent::Failed(reason) => MatrixEventView::Failed(reason@),
        }
    }
}

/// What the wizard does next, after printing.
#[derive(Debug)]
pub enum MatrixAction {
    /// Read a line.
    ReadLine,
    /// Log in at a homeserver with a username and a password.
    Login(String, String, String),
    /// Make a client for a homeserver and log in with a token.
    LoginWithToken(String, String),
    /// Ask for the bot's display name with the client.
    FetchName,
    /// Sync and join a room with the client; a failure is ignored.
    EnterRoom(String),
    /// Look at a room with the client.
    CheckRoom(String),
    /// Store a token in the keychain.
    StoreToken(String),
    /// Write the config file: homeserver, room and operator.
    SaveConfig(String, String, Option<String>),
    /// Send a message to a room with the client.
    SendMessage(String, String),
    /// End well.
    Finish,
    /// End with an error.
    Fail(String),
    /// Nothing, since the event was not awaited.
    Ignore,
}

/// The mathematical value of an action.
pub enum MatrixActionView {
    /// Read a line.
    ReadLine,
    /// Log in at a homeserver with a username and a password.
    Login(Seq<char>, Seq<char>, Seq<char>),
    /// Make a client for a homeserver and log in with a token.
    LoginWithToken(Seq<char>, Seq<char>),
    /// Ask for the bot's display name with the client.
    FetchName,
    /// Sync and join a room with the client; a failure is ignored.
    EnterRoom(Seq<char>),
    /// Look at a room with the client.
    CheckRoom(Seq<char>),
    /// Store a token in the keychain.
    StoreToken(Seq<char>),
    /// Write the config file: homeserver, room and operator.
    SaveConfig(Seq<char>, Seq<char>, Option<Seq<char>>),
    /// Send a message to a room with the client.
    SendMessage(Seq<char>, Seq<char>),
    /// End well.
    Finish,
    /// End with an error.
    Fail(Seq<char>),
    /// Nothing, since the event was not awaited.
    Ignore,
}

impl View for MatrixAction {
    type V = MatrixActionView;

    open spec fn view(&self) -> MatrixActionView {
        match self {
            MatrixAction::ReadLine => MatrixActionView::ReadLine,
            MatrixAction::Login(server, user, password) => MatrixActionView::Login(
                server@,
                user@,
                password@,
            ),
            MatrixAction::LoginWithToken(server, token) => MatrixActionView::LoginWithToken(
                server@,
                token@,
            ),
            MatrixAction::FetchName => MatrixActionView::FetchName,
            MatrixAction::EnterRoom(room) => MatrixActionView::EnterRoom(room@),
            MatrixAction::CheckRoom(room) => MatrixActionView::CheckRoom(room@),
            MatrixAction::StoreToken(token) => MatrixActionView::StoreToken(token@),
            MatrixAction::SaveConfig(server, room, operator) => MatrixActionView::SaveConfig(
                server@,
                room@,
                lists::text_in(*operator),
            ),
            MatrixAction::SendMessage(room, words) => MatrixActionView::SendMessage(room@, words@),
            MatrixAction::Finish => MatrixActionView::Finish,
            MatrixAction::Fail(reason) => MatrixActionView::Fail(reason@),
            MatrixAction::Ignore => MatrixActionView::Ignore,
        }
    }
}

/// A step of the wizard: its new state, what it prints, and what it does then.
pub type MatrixStep = (MatrixSetupView, Seq<char>, MatrixActionView);

/// A value, once it is known.
pub open spec fn known(value: Option<Seq<char>>) -> Seq<char> {
    match value {
        Some(text) => text,
        None => Seq::empty(),
    }
}

/// The wizard in another phase.
pub open spec fn moved(setup: MatrixSetupView, phase: MatrixPhase) -> MatrixSetupView {
    MatrixSetupView { phase, ..setup }
}

/// The step of asking for the first credential that is not known, or of validating
/// the credentials once all are.
pub open spec fn ask_credentials(setup: MatrixSetupView, printed: Seq<char>) -> MatrixStep {
    if setup.homeserver_url is None {
        (
            moved(setup, MatrixPhase::AskServer),
            printed + ASK_SERVER@ + SERVER_PROMPT@,
            MatrixActionView::ReadLine,
        )
    } else if setup.access_token is None {
        (
            moved(setup, MatrixPhase::AskToken),
            printed + ASK_TOKEN@ + TOKEN_PROMPT@,
            MatrixActionView::ReadLine,
        )
    } else {
        (
            moved(setup, MatrixPhase::CheckLogin),
            printed + CHECKING@,
            MatrixActionView::LoginWithToken(
                known(setup.homeserver_url),
                known(setup.access_token),
            ),
        )
    }
}

/// The step of asking for the room, or of entering it once it is known.
pub open spec fn ask_room(setup: MatrixSetupView, printed: Seq<char>) -> MatrixStep {
    if setup.room_id is None {
        (
            moved(setup, MatrixPhase::AskRoom),
            printed + ASK_ROOM@ + ROOM_PROMPT@,
            MatrixActionView::ReadLine,
        )
    } else {
        (
            moved(setup, MatrixPhase::EnterRoom),
            printed,
            MatrixActionView::EnterRoom(known(setup.room_id)),
        )
    }
}

/// The step of storing the access token.
pub open spec fn store_token(setup: MatrixSetupView, printed: Seq<char>) -> MatrixStep {
    (
        moved(setup, MatrixPhase::StoreToken),
        printed + SAVING@,
        MatrixActionView::StoreToken(known(setup.access_token)),
    )
}

/// The step of asking for the operator, unless one was given.
pub open spec fn ask_operator(setup: MatrixSetupView, printed: Seq<char>) -> MatrixStep {
    if setup.operator_id is None {
        (
            moved(setup, MatrixPhase::AskOperator),
            printed + ASK_OPERATOR@ + OPERATOR_PROMPT@,
            MatrixActionView::ReadLine,
        )
    } else {
        store_token(setup, printed)
    }
}

/// The step of writing the config file.
pub open spec fn save_config(setup: MatrixSetupView, printed: Seq<char>) -> MatrixStep {
    (
        moved(setup, MatrixPhase::SaveConfig),
        printed,
        MatrixActionView::SaveConfig(
            known(setup.homeserver_url),
            known(setup.room_id),
            setup.operator_id,
        ),
    )
}

/// The step of sending the test message.
pub open spec fn send_test(setup: MatrixSetupView, printed: Seq<char>) -> MatrixStep {
    (
        moved(setup, MatrixPhase::SendTest),
        printed + VERIFYING@,
        MatrixActionView::SendMessage(known(setup.room_id), TEST_MESSAGE@),
    )
}

/// The section to add by hand where the config file could not be written.
pub open spec fn manual_section(setup: MatrixSetupView) -> Seq<char> {
    let start = "    Add manually:\n      RObot:\n        enabled: true\n        matrix:\n          homeserver_url: "@
        + known(setup.homeserver_url) + "\n          room_id: "@ + known(setup.room_id) + "\n"@;
    match setup.operator_id {
        Some(operator) => start + "        operator_id: "@ + operator + "\n"@,
        None => start,
    }
}

/// The first step of the wizard.
pub open spec fn matrix_first(
    use_colors: bool,
    homeserver_url: Option<Seq<char>>,
    access_token: Option<Seq<char>>,
    room_id: Option<Seq<char>>,
    operator_id: Option<Seq<char>>,
) -> MatrixStep {
    ask_credentials(
        MatrixSetupView {
            use_colors,
            homeserver_url,
            access_token,
            username: Seq::empty(),
            room_id,
            operator_id,
            phase: MatrixPhase::AskServer,
        },
        console::heading(use_colors, TITLE@, RULE@),
    )
}

/// The prompt of a phase that asks.
pub open spec fn prompt_of(phase: MatrixPhase) -> Seq<char> {
    match phase {
        MatrixPhase::AskServer => SERVER_PROMPT@,
        MatrixPhase::AskToken => TOKEN_PROMPT@,
        MatrixPhase::AskUsername => USERNAME_PROMPT@,
        MatrixPhase::AskPassword => PASSWORD_PROMPT@,
        MatrixPhase::AskTokenAgain => TOKEN_AGAIN_PROMPT@,
        MatrixPhase::AskRoom => ROOM_PROMPT@,
        _ => OPERATOR_PROMPT@,
    }
}

/// Whether a phase asks for a value that cannot be left blank.
pub open spec fn asks_required(phase: MatrixPhase) -> bool {
    phase == MatrixPhase::AskServer || phase == MatrixPhase::AskUsername || phase
        == MatrixPhase::AskPassword || phase == MatrixPhase::AskTokenAgain || phase
        == MatrixPhase::AskRoom
}

/// The step after a line was entered.
pub open spec fn line_entered(setup: MatrixSetupView, line: Seq<char>) -> MatrixStep {
    let value = text::trimmed(line);
    if value.len() == 0 && asks_required(setup.phase) {
        (setup, VALUE_EMPTY@ + prompt_of(setup.phase), MatrixActionView::ReadLine)
    } else {
        match setup.phase {
            MatrixPhase::AskServer => ask_credentials(
                MatrixSetupView { homeserver_url: Some(value), ..setup },
                ""@,
            ),
            MatrixPhase::AskToken => if value.len() == 0 {
                (
                    moved(setup, MatrixPhase::AskUsername),
                    "\n"@ + USERNAME_PROMPT@,
                    MatrixActionView::ReadLine,
                )
            } else {
                ask_credentials(MatrixSetupView { access_token: Some(value), ..setup }, ""@)
            },
            MatrixPhase::AskUsername => (
                MatrixSetupView { username: value, phase: MatrixPhase::AskPassword, ..setup },
                PASSWORD_PROMPT@,
                MatrixActionView::ReadLine,
            ),
            MatrixPhase::AskPassword => (
                moved(setup, MatrixPhase::Login),
                LOGGING_IN@,
                MatrixActionView::Login(known(setup.homeserver_url), setup.username, value),
            ),
            MatrixPhase::AskTokenAgain => ask_credentials(
                MatrixSetupView { access_token: Some(value), ..setup },
                ""@,
            ),
            MatrixPhase::AskRoom => ask_room(
                MatrixSetupView { room_id: Some(value), ..setup },
                ""@,
            ),
            MatrixPhase::AskOperator => store_token(
                MatrixSetupView {
                    operator_id: if value.len() == 0 {
                        None
                    } else {
                        Some(value)
                    },
                    ..setup
                },
                ""@,
            ),
            _ => (setup, ""@, MatrixActionView::Ignore),
        }
    }
}

/// The next step of the wizard.
pub open spec fn matrix_next(setup: MatrixSetupView, event: MatrixEventView) -> MatrixStep {
    let c = setup.use_colors;
    match (setup.phase, event) {
        (_, MatrixEventView::Line(line)) => line_entered(setup, line),
        (MatrixPhase::Login, MatrixEventView::Done) => (
            moved(setup, MatrixPhase::AskTokenAgain),
            "\n"@ + console::success(c, "Password login successful!"@) + ASK_TOKEN_AGAIN@
                + TOKEN_AGAIN_PROMPT@,
            MatrixActionView::ReadLine,
        ),
        (MatrixPhase::Login, MatrixEventView::Failed(reason)) => (
            moved(setup, MatrixPhase::Over),
            "\n"@ + console::failure(c, "Password login failed: "@ + reason) + LOGIN_TROUBLE@,
            MatrixActionView::Fail("Password login failed"@),
        ),
        (MatrixPhase::CheckLogin, MatrixEventView::Done) => (
            moved(setup, MatrixPhase::FetchName),
            ""@,
            MatrixActionView::FetchName,
        ),
        (MatrixPhase::CheckLogin, MatrixEventView::Failed(reason)) => (
            moved(setup, MatrixPhase::Over),
            "\n"@ + console::failure(c, "Credential validation failed: "@ + reason)
                + CREDENTIAL_TROUBLE@,
            MatrixActionView::Fail("Credential validation failed"@),
        ),
        (MatrixPhase::FetchName, MatrixEventView::NameFound(name)) => ask_room(
            setup,
            "\n"@ + console::success(c, "Credentials valid! Bot: "@ + name),
        ),
        (MatrixPhase::FetchName, MatrixEventView::Failed(reason)) => ask_room(
            setup,
            "\n"@ + console::warning(c, "Logged in but could not fetch display name: "@ + reason)
                + "    Setup will continue.\n"@,
        ),
        (MatrixPhase::EnterRoom, MatrixEventView::Done) | (
            MatrixPhase::EnterRoom,
            MatrixEventView::Failed(_),
        ) => (
            moved(setup, MatrixPhase::CheckRoom),
            CHECKING_ROOM@,
            MatrixActionView::CheckRoom(known(setup.room_id)),
        ),
        (MatrixPhase::CheckRoom, MatrixEventView::RoomFound(name, members)) => ask_operator(
            setup,
            "\n"@ + console::success(
                c,
                "Room found: "@ + (match name {
                    Some(shown) => shown,
                    None => known(setup.room_id),
                }) + " ("@ + text::decimal(members as nat) + " members)"@,
            ),
        ),
        (MatrixPhase::CheckRoom, MatrixEventView::Failed(reason)) => ask_operator(
            setup,
            "\n"@ + console::warning(c, "Could not validate room: "@ + reason)
                + "    The bot may not have joined. Setup will continue.\n"@,
        ),
        (MatrixPhase::StoreToken, MatrixEventView::Done) => save_config(
            setup,
            ""@ + console::success(
                c,
                "Access token stored in OS keychain (ralph/matrix-access-token)"@,
            ),
        ),
        (MatrixPhase::StoreToken, MatrixEventView::Failed(reason)) => save_config(
            setup,
            ""@ + console::warning(c, "Could not store token in keychain: "@ + reason)
                + "    Set RALPH_MATRIX_ACCESS_TOKEN env var instead.\n"@,
        ),
        (MatrixPhase::SaveConfig, MatrixEventView::Done) => send_test(
            setup,
            ""@ + console::success(c, "Updated ralph.yml (RObot.matrix configured)"@),
        ),
        (MatrixPhase::SaveConfig, MatrixEventView::Failed(reason)) => send_test(
            setup,
            ""@ + console::warning(c, "Could not update ralph.yml: "@ + reason) + manual_section(
                setup,
            ),
        ),
        (MatrixPhase::SendTest, MatrixEventView::Done) => (
            moved(setup, MatrixPhase::Over),
            ""@ + console::success(c, "Test message sent to your Matrix room!"@)
                + console::setup_complete(c, "Matrix"@),
            MatrixActionView::Finish,
        ),
        (MatrixPhase::SendTest, MatrixEventView::Failed(reason)) => (
            moved(setup, MatrixPhase::Over),
            ""@ + console::warning(c, "Could not send test message: "@ + reason) + TEST_LATER@
                + console::setup_complete(c, "Matrix"@),
            MatrixActionView::Finish,
        ),
        _ => (setup, ""@, MatrixActionView::Ignore),
    }
}

fn known_text(value: &Option<String>) -> (r: String)
    ensures
        r@ == known(lists::text_in(*value)),
{
    match value {
        Some(text) => text.clone(),
        None => String::new(),
    }
}

impl MatrixSetup {
    fn to_credentials(&mut self, printed: &mut String) -> (r: MatrixAction)
        ensures
            (final(self)@, final(printed)@, r@) == ask_credentials(old(self)@, old(printed)@),
    {
        if self.homeserver_url.is_none() {
            printed.append(ASK_SERVER);
            printed.append(SERVER_PROMPT);
            self.phase = MatrixPhase::AskServer;
            MatrixAction::ReadLine
        } else if self.access_token.is_none() {
            printed.append(ASK_TOKEN);
            printed.append(TOKEN_PROMPT);
            self.phase = MatrixPhase::AskToken;
            MatrixAction::ReadLine
        } else {
            printed.append(CHECKING);
            self.phase = MatrixPhase::CheckLogin;
            MatrixAction::LoginWithToken(
                known_text(&self.homeserver_url),
                known_text(&self.access_token),
            )
        }
    }

    fn to_room(&mut self, printed: &mut String) -> (r: MatrixAction)
        ensures
            (final(self)@, final(printed)@, r@) == ask_room(old(self)@, old(printed)@),
    {
        if self.room_id.is_none() {
            printed.append(ASK_ROOM);
            printed.append(ROOM_PROMPT);
            self.phase = MatrixPhase::AskRoom;
            MatrixAction::ReadLine
        } else {
            self.phase = MatrixPhase::EnterRoom;
            MatrixAction::EnterRoom(known_text(&self.room_id))
        }
    }

    fn to_store(&mut self, printed: &mut String) -> (r: MatrixAction)
        ensures
            (final(self)@, final(printed)@, r@) == store_token(old(self)@, old(printed)@),
    {
        printed.append(SAVING);
        self.phase = MatrixPhase::StoreToken;
        MatrixAction::StoreToken(known_text(&self.access_token))
    }

    fn to_operator(&mut self, printed: &mut String) -> (r: MatrixAction)
        ensures
            (final(self)@, final(printed)@, r@) == ask_operator(old(self)@, old(printed)@),
    {
        if self.operator_id.is_none() {
            printed.append(ASK_OPERATOR);
            printed.append(OPERATOR_PROMPT);
            self.phase = MatrixPhase::AskOperator;
            MatrixAction::ReadLine
        } else {
            self.to_store(printed)
        }
    }

    fn to_config(&mut self, printed: &String) -> (r: MatrixAction)
        ensures
            (final(self)@, printed@, r@) == save_config(old(self)@, printed@),
    {
        self.phase = MatrixPhase::SaveConfig;
        MatrixAction::SaveConfig(
            known_text(&self.homeserver_url),
            known_text(&self.room_id),
            copy_text(&self.operator_id),
        )
    }

    fn to_test(&mut self, printed: &mut String) -> (r: MatrixAction)
        ensures
            (final(self)@, final(printed)@, r@) == send_test(old(self)@, old(printed)@),
    {
        printed.append(VERIFYING);
        self.phase = MatrixPhase::SendTest;
        MatrixAction::SendMessage(known_text(&self.room_id), String::from_str(TEST_MESSAGE))
    }

    fn put_manual_section(&self, out: &mut String)
        ensures
            final(out)@ == old(out)@ + manual_section(self@),
    {
        let mut section = text::cat5(
            "    Add manually:\n      RObot:\n        enabled: true\n        matrix:\n          homeserver_url: ",
            &known_text(&self.homeserver_url),
            "\n          room_id: ",
            &known_text(&self.room_id),
            "\n",
        );
        match &self.operator_id {
            Some(operator) => {
                section.append("        operator_id: ");
                section.append(operator);
                section.append("\n");
            },
            None => {},
        }
        out.append(&section);
    }

    fn prompt(&self) -> (r: &'static str)
        ensures
            r@ == prompt_of(self@.phase),
    {
        match self.phase {
            MatrixPhase::AskServer => SERVER_PROMPT,
            MatrixPhase::AskToken => TOKEN_PROMPT,
            MatrixPhase::AskUsername => USERNAME_PROMPT,
            MatrixPhase::AskPassword => PASSWORD_PROMPT,
            MatrixPhase::AskTokenAgain => TOKEN_AGAIN_PROMPT,
            MatrixPhase::AskRoom => ROOM_PROMPT,
            _ => OPERATOR_PROMPT,
        }
    }

    fn enter_line(&mut self, line: &str) -> (r: (String, MatrixAction))
        ensures
            (final(self)@, r.0@, r.1@) == line_entered(old(self)@, line@),
    {
        let value = text::trim(line);
        let mut out = String::from_str("");
        if value.unicode_len() == 0 && (self.phase == MatrixPhase::AskServer || self.phase
            == MatrixPhase::AskUsername || self.phase == MatrixPhase::AskPassword || self.phase
            == MatrixPhase::AskTokenAgain || self.phase == MatrixPhase::AskRoom) {
            return (text::cat2(VALUE_EMPTY, self.prompt()), MatrixAction::ReadLine);
        }
        match self.phase {
            MatrixPhase::AskServer => {
                self.homeserver_url = Some(String::from_str(value));
                let action = self.to_credentials(&mut out);
                (out, action)
            },
            MatrixPhase::AskToken => {
                if value.unicode_len() == 0 {
                    self.phase = MatrixPhase::AskUsername;
                    (text::cat2("\n", USERNAME_PROMPT), MatrixAction::ReadLine)
                } else {
                    self.access_token = Some(String::from_str(value));
                    let action = self.to_credentials(&mut out);
                    (out, action)
                }
            },
            MatrixPhase::AskUsername => {
                self.username = String::from_str(value);
                self.phase = MatrixPhase::AskPassword;
                (String::from_str(PASSWORD_PROMPT), MatrixAction::ReadLine)
            },
            MatrixPhase::AskPassword => {
                self.phase = MatrixPhase::Login;
                (
                    String::from_str(LOGGING_IN),
                    MatrixAction::Login(
                        known_text(&self.homeserver_url),
                        self.username.clone(),
                        String::from_str(value),
                    ),
                )
            },
            MatrixPhase::AskTokenAgain => {
                self.access_token = Some(String::from_str(value));
                let action = self.to_credentials(&mut out);
                (out, action)
            },
            MatrixPhase::AskRoom => {
                self.room_id = Some(String::from_str(value));
                let action = self.to_room(&mut out);
                (out, action)
            },
            MatrixPhase::AskOperator => {
                self.operator_id = if value.unicode_len() == 0 {
                    None
                } else {
                    Some(String::from_str(value))
                };
                let action = self.to_store(&mut out);
                (out, action)
            },
            _ => (out, MatrixAction::Ignore),
        }
    }

    /// Starts the wizard with what the command line gives: the wizard, what it
    /// prints, and what it does then.
    pub fn start(
        use_colors: bool,
        homeserver_url: Option<String>,
        access_token: Option<String>,
        room_id: Option<String>,
        operator_id: Option<String>,
    ) -> (r: (MatrixSetup, String, MatrixAction))
        ensures
            (r.0@, r.1@, r.2@) == matrix_first(
                use_colors,
                lists::text_in(homeserver_url),
                lists::text_in(access_token),
                lists::text_in(room_id),
                lists::text_in(operator_id),
            ),
    {
        let mut setup = MatrixSetup {
            use_colors,
            homeserver_url,
            access_token,
            username: String::new(),
            room_id,
            operator_id,
            phase: MatrixPhase::AskServer,
        };
        let mut printed = console::heading_text(use_colors, TITLE, RULE);
        let action = setup.to_credentials(&mut printed);
        (setup, printed, action)
    }

    /// The next step of the wizard: what it prints, and what it does then.
    pub fn step(&mut self, event: MatrixEvent) -> (r: (String, MatrixAction))
        ensures
            (final(self)@, r.0@, r.1@) == matrix_next(old(self)@, event@),
    {
        let c: bool = self.use_colors;
        match (self.phase, event) {
            (_, MatrixEvent::Line(line)) => self.enter_line(&line),
            (MatrixPhase::Login, MatrixEvent::Done) => {
                let mut out = String::from_str("\n");
                put_success(&mut out, c, "Password login successful!");
                out.append(ASK_TOKEN_AGAIN);
                out.append(TOKEN_AGAIN_PROMPT);
                self.phase = MatrixPhase::AskTokenAgain;
                (out, MatrixAction::ReadLine)
            },
            (MatrixPhase::Login, MatrixEvent::Failed(reason)) => {
                let mut out = String::from_str("\n");
                put_failure(&mut out, c, &text::cat2("Password login failed: ", &reason));
                out.append(LOGIN_TROUBLE);
                self.phase = MatrixPhase::Over;
                (out, MatrixAction::Fail(String::from_str("Password login failed")))
            },
            (MatrixPhase::CheckLogin, MatrixEvent::Done) => {
                self.phase = MatrixPhase::FetchName;
                (String::from_str(""), MatrixAction::FetchName)
            },
            (MatrixPhase::CheckLogin, MatrixEvent::Failed(reason)) => {
                let mut out = String::from_str("\n");
                put_failure(&mut out, c, &text::cat2("Credential validation failed: ", &reason));
                out.append(CREDENTIAL_TROUBLE);
                self.phase = MatrixPhase::Over;
                (out, MatrixAction::Fail(String::from_str("Credential validation failed")))
            },
            (MatrixPhase::FetchName, MatrixEvent::NameFound(name)) => {
                let mut out = String::from_str("\n");
                put_success(&mut out, c, &text::cat2("Credentials valid! Bot: ", &name));
                let action = self.to_room(&mut out);
                (out, action)
            },
            (MatrixPhase::FetchName, MatrixEvent::Failed(reason)) => {
                let mut out = String::from_str("\n");
                put_warning(
                    &mut out,
                    c,
                    &text::cat2("Logged in but could not fetch display name: ", &reason),
                );
                out.append("    Setup will continue.\n");
                let action = self.to_room(&mut out);
                (out, action)
            },
            (MatrixPhase::EnterRoom, MatrixEvent::Done) | (
                MatrixPhase::EnterRoom,
                MatrixEvent::Failed(_),
            ) => {
                self.phase = MatrixPhase::CheckRoom;
                (
                    String::from_str(CHECKING_ROOM),
                    MatrixAction::CheckRoom(known_text(&self.room_id)),
                )
            },
            (MatrixPhase::CheckRoom, MatrixEvent::RoomFound(room)) => {
                let mut out = String::from_str("\n");
                let own = known_text(&self.room_id);
                let name: &str = match &room.name {
                    Some(name) => name.as_str(),
                    None => own.as_str(),
                };
                put_success(
                    &mut out,
                    c,
                    &text::cat5(
                        "Room found: ",
                        name,
                        " (",
                        &text::number(room.member_count),
                        " members)",
                    ),
                );
                let action = self.to_operator(&mut out);
                (out, action)
            },
            (MatrixPhase::CheckRoom, MatrixEvent::Failed(reason)) => {
                let mut out = String::from_str("\n");
                put_warning(&mut out, c, &text::cat2("Could not validate room: ", &reason));
                out.append("    The bot may not have joined. Setup will continue.\n");
                let action = self.to_operator(&mut out);
                (out, action)
            },
            (MatrixPhase::StoreToken, MatrixEvent::Done) => {
                let mut out = String::from_str("");
                put_success(
                    &mut out,
                    c,
                    "Access token stored in OS keychain (ralph/matrix-access-token)",
                );
                let action = self.to_config(&out);
                (out, action)
            },
            (MatrixPhase::StoreToken, MatrixEvent::Failed(reason)) => {
                let mut out = String::from_str("");
                put_warning(
                    &mut out,
                    c,
                    &text::cat2("Could not store token in keychain: ", &reason),
                );
                out.append("    Set RALPH_MATRIX_ACCESS_TOKEN env var instead.\n");
                let action = self.to_config(&out);
                (out, action)
            },
            (MatrixPhase::SaveConfig, MatrixEvent::Done) => {
                let mut out = String::from_str("");
                put_success(&mut out, c, "Updated ralph.yml (RObot.matrix configured)");
                let action = self.to_test(&mut out);
                (out, action)
            },
            (MatrixPhase::SaveConfig, MatrixEvent::Failed(reason)) => {
                let mut out = String::from_str("");
                put_warning(&mut out, c, &text::cat2("Could not update ralph.yml: ", &reason));
                self.put_manual_section(&mut out);
                let action = self.to_test(&mut out);
                (out, action)
            },
            (MatrixPhase::SendTest, MatrixEvent::Done) => {
                let mut out = String::from_str("");
                put_success(&mut out, c, "Test message sent to your Matrix room!");
                put_setup_complete(&mut out, c, "Matrix");
                self.phase = MatrixPhase::Over;
                (out, MatrixAction::Finish)
            },
            (MatrixPhase::SendTest, MatrixEvent::Failed(reason)) => {
                let mut out = String::from_str("");
                put_warning(&mut out, c, &text::cat2("Could not send test message: ", &reason));
                out.append(TEST_LATER);
                put_setup_complete(&mut out, c, "Matrix");
                self.phase = MatrixPhase::Over;
                (out, MatrixAction::Finish)
            },
            _ => (String::from_str(""), MatrixAction::Ignore),
        }
    }
}

/// Nothing is stored or written before the access token was found valid, and a
/// password is never stored: what is stored is the access token, and what is
/// written are the homeserver, the room and the operator.
pub proof fn only_validated_tokens_are_stored(setup: MatrixSetupView, event: MatrixEventView)
    ensures
        ({
            let (_, _, action) = matrix_next(setup, event);
            &&& action matches MatrixActionView::StoreToken(token) ==> token == known(
                setup.access_token,
            ) && (setup.phase == MatrixPhase::AskOperator || setup.phase == MatrixPhase::CheckRoom)
            &&& action matches MatrixActionView::SaveConfig(server, room, _) ==> setup.phase
                == MatrixPhase::StoreToken && server == known(setup.homeserver_url) && room
                == known(setup.room_id)
            &&& matrix_next(setup, event).0.phase == MatrixPhase::FetchName && setup.phase
                != MatrixPhase::FetchName ==> setup.phase == MatrixPhase::CheckLogin && event is Done
        }),
{
}

// ── Laws ────────────────────────────────────────────────────────────────

/// Whether an event tells how a step of saving or sending went.
pub open spec fn tells_outcome(event: MatrixEventView) -> bool {
    event is Done || event is Failed
}

/// Whether a step asks for the first of homeserver and token that is not known, or, once
/// both are, validates them.
pub open spec fn asks_in_order(
    step: MatrixStep,
    server: Option<Seq<char>>,
    token: Option<Seq<char>>,
) -> bool {
    &&& server is None ==> step.0.phase == MatrixPhase::AskServer && step.2 is ReadLine
        && text::ends_with(step.1, "  Homeserver URL: "@)
    &&& server is Some && token is None ==> step.0.phase == MatrixPhase::AskToken
        && step.2 is ReadLine && text::ends_with(
        step.1,
        "  Access token (or press Enter to use password login): "@,
    )
    &&& server is Some && token is Some ==> step.0.phase == MatrixPhase::CheckLogin && step.2
        == MatrixActionView::LoginWithToken(server->0, token->0) && text::ends_with(
        step.1,
        "\nStep 3: Validate credentials\n  Checking credentials with Matrix homeserver..."@,
    )
    &&& step.0.homeserver_url == server && step.0.access_token == token
}

proof fn asked_in_order(setup: MatrixSetupView, printed: Seq<char>)
    ensures
        asks_in_order(ask_credentials(setup, printed), setup.homeserver_url, setup.access_token),
        ask_credentials(setup, printed).0.room_id == setup.room_id,
        ask_credentials(setup, printed).0.operator_id == setup.operator_id,
        ask_credentials(setup, printed).0.use_colors == setup.use_colors,
{
    text::addition_ends(printed + ASK_SERVER@, SERVER_PROMPT@);
    text::addition_ends(printed + ASK_TOKEN@, TOKEN_PROMPT@);
    text::addition_ends(printed, CHECKING@);
}

/// What is given is not asked for, and what is not is asked for in order: homeserver, then
/// token. The words that are entered are the value that was asked for, and no other value
/// changes. Once both are known they are validated together.
pub proof fn credentials_are_asked_in_order(
    use_colors: bool,
    server: Option<Seq<char>>,
    token: Option<Seq<char>>,
    room: Option<Seq<char>>,
    operator: Option<Seq<char>>,
    setup: MatrixSetupView,
    line: Seq<char>,
    words: Seq<char>,
)
    requires
        text::has_words(line, words),
    ensures
        ({
            let first = matrix_first(use_colors, server, token, room, operator);
            &&& asks_in_order(first, server, token)
            &&& first.0.room_id == room && first.0.operator_id == operator
            &&& first.0.use_colors == use_colors
            &&& text::contains(first.1, "Ralph Matrix Bot Setup"@)
        }),
        ({
            let step = matrix_next(setup, MatrixEventView::Line(line));
            &&& setup.phase == MatrixPhase::AskServer ==> asks_in_order(
                step,
                Some(words),
                setup.access_token,
            )
            &&& setup.phase == MatrixPhase::AskToken || setup.phase == MatrixPhase::AskTokenAgain
                ==> asks_in_order(step, setup.homeserver_url, Some(words))
            &&& setup.phase == MatrixPhase::AskServer || setup.phase == MatrixPhase::AskToken
                || setup.phase == MatrixPhase::AskTokenAgain ==> step.0.room_id == setup.room_id
                && step.0.operator_id == setup.operator_id && step.0.use_colors == setup.use_colors
        }),
{
    text::words_are_trimmed(line, words);
    let title = console::heading(use_colors, TITLE@, RULE@);
    let fresh = MatrixSetupView {
        use_colors,
        homeserver_url: server,
        access_token: token,
        username: Seq::empty(),
        room_id: room,
        operator_id: operator,
        phase: MatrixPhase::AskServer,
    };
    asked_in_order(fresh, title);
    console::titles_are_contained(use_colors, TITLE@, RULE@);
    text::in_sum_within(title, ASK_SERVER@, TITLE@);
    text::in_sum_within(title + ASK_SERVER@, SERVER_PROMPT@, TITLE@);
    text::in_sum_within(title, ASK_TOKEN@, TITLE@);
    text::in_sum_within(title + ASK_TOKEN@, TOKEN_PROMPT@, TITLE@);
    text::in_sum_within(title, CHECKING@, TITLE@);
    asked_in_order(MatrixSetupView { homeserver_url: Some(words), ..setup }, ""@);
    asked_in_order(MatrixSetupView { access_token: Some(words), ..setup }, ""@);
}

/// A token that is left blank leads to a password login: the words that are entered are
/// the username and the password, they are tried at the homeserver, and a token is asked
/// for after it. The password is kept nowhere. A login that fails ends the wizard with an
/// error.
pub proof fn blank_token_leads_to_a_password(
    setup: MatrixSetupView,
    server: Seq<char>,
    blank: Seq<char>,
    user_line: Seq<char>,
    user: Seq<char>,
    password_line: Seq<char>,
    password: Seq<char>,
    reason: Seq<char>,
)
    requires
        setup.phase == MatrixPhase::AskToken,
        setup.homeserver_url == Some(server),
        text::is_blank(blank),
        text::has_words(user_line, user),
        text::has_words(password_line, password),
    ensures
        ({
            let asking = matrix_next(setup, MatrixEventView::Line(blank));
            let named = matrix_next(asking.0, MatrixEventView::Line(user_line));
            let trying = matrix_next(named.0, MatrixEventView::Line(password_line));
            let inside = matrix_next(trying.0, MatrixEventView::Done);
            let refused = matrix_next(trying.0, MatrixEventView::Failed(reason));
            &&& asking.2 is ReadLine && asking.0.phase == MatrixPhase::AskUsername
            &&& named.2 is ReadLine && named.0.phase == MatrixPhase::AskPassword
            &&& trying.2 == MatrixActionView::Login(server, user, password)
            &&& inside.2 is ReadLine && inside.0.phase == MatrixPhase::AskTokenAgain
            &&& inside.0.homeserver_url == setup.homeserver_url
            &&& inside.0.access_token == setup.access_token
            &&& inside.0.room_id == setup.room_id && inside.0.operator_id == setup.operator_id
            &&& inside.0.username == user
            &&& text::ends_with(inside.1, "  Access token: "@)
            &&& refused.0.phase == MatrixPhase::Over
            &&& refused.2 == MatrixActionView::Fail("Password login failed"@)
            &&& text::contains(
                refused.1,
                console::error_line(setup.use_colors, "Password login failed: "@ + reason) + "\n"@,
            )
        }),
{
    text::words_are_trimmed(blank, blank);
    text::words_are_trimmed(user_line, user);
    text::words_are_trimmed(password_line, password);
    let c = setup.use_colors;
    let well = console::success(c, "Password login successful!"@);
    text::addition_ends("\n"@ + well + ASK_TOKEN_AGAIN@, TOKEN_AGAIN_PROMPT@);
    let sorry = console::failure(c, "Password login failed: "@ + reason);
    text::in_sum3("\n"@, sorry, LOGIN_TROUBLE@);
}

/// A value that cannot be left out and was left blank is asked for again by its own
/// prompt, with nothing changed. An event that is not awaited changes nothing, prints
/// nothing and does nothing. Credentials that are not valid end the wizard with an error.
pub proof fn blank_values_are_asked_again(
    setup: MatrixSetupView,
    line: Seq<char>,
    reason: Seq<char>,
    event: MatrixEventView,
)
    requires
        text::is_blank(line),
    ensures
        ({
            let step = matrix_next(setup, MatrixEventView::Line(line));
            let again = |prompt: Seq<char>|
                step.0 == setup && step.2 is ReadLine && step.1
                    == "  Value cannot be empty. Please try again.\n"@ + prompt;
            &&& setup.phase == MatrixPhase::AskServer ==> again("  Homeserver URL: "@)
            &&& setup.phase == MatrixPhase::AskUsername ==> again(
                "  Username (e.g., @bot:example.com or just bot): "@,
            )
            &&& setup.phase == MatrixPhase::AskPassword ==> again("  Password: "@)
            &&& setup.phase == MatrixPhase::AskTokenAgain ==> again("  Access token: "@)
            &&& setup.phase == MatrixPhase::AskRoom ==> again("  Room ID: "@)
        }),
        setup.phase == MatrixPhase::CheckLogin ==> {
            let step = matrix_next(setup, MatrixEventView::Failed(reason));
            &&& step.0.phase == MatrixPhase::Over
            &&& step.2 == MatrixActionView::Fail("Credential validation failed"@)
            &&& text::contains(
                step.1,
                console::error_line(setup.use_colors, "Credential validation failed: "@ + reason)
                    + "\n"@,
            )
        },
        ({
            let awaited = match setup.phase {
                MatrixPhase::AskServer
                | MatrixPhase::AskToken
                | MatrixPhase::AskUsername
                | MatrixPhase::AskPassword
                | MatrixPhase::AskTokenAgain
                | MatrixPhase::AskRoom
                | MatrixPhase::AskOperator => event is Line,
                MatrixPhase::FetchName => event is NameFound || event is Failed,
                MatrixPhase::CheckRoom => event is RoomFound || event is Failed,
                MatrixPhase::Over => false,
                _ => tells_outcome(event),
            };
            let step = matrix_next(setup, event);
            &&& !awaited ==> step.0 == setup && step.1.len() == 0 && step.2 is Ignore
            &&& awaited ==> !(step.2 is Ignore)
        }),
{
    reveal_strlit("");
    text::words_are_trimmed(line, line);
    let refused = console::failure(
        setup.use_colors,
        "Credential validation failed: "@ + reason,
    );
    text::in_sum3("\n"@, refused, CREDENTIAL_TROUBLE@);
}

/// The rest of a run, from known credentials on. Once they are valid the bot's name is
/// fetched, and the setup goes on whatever comes of that. The room is the words that are
/// entered, or the one that was given, which is not asked for then; it is entered and
/// looked at, and the setup goes on whatever comes of that. The operator is the words that
/// are entered, none where the line is blank, or the one that was given. The token goes to
/// the keychain; the homeserver, the room and the operator are written to the config file,
/// and the test message goes to the room. The wizard ends well however the storing, the
/// writing and the sending went.
#[verifier::rlimit(60)]
#[verifier::spinoff_prover]
pub proof fn matrix_setup_runs_through(
    setup: MatrixSetupView,
    server: Seq<char>,
    token: Seq<char>,
    called: MatrixEventView,
    room_line: Seq<char>,
    room: Seq<char>,
    inside: MatrixEventView,
    looked: MatrixEventView,
    operator_line: Seq<char>,
    operator: Option<Seq<char>>,
    stored: MatrixEventView,
    written: MatrixEventView,
    sent: MatrixEventView,
    later: MatrixEventView,
)
    requires
        setup.phase == MatrixPhase::CheckLogin,
        setup.homeserver_url == Some(server),
        setup.access_token == Some(token),
        called is NameFound || called is Failed,
        setup.room_id is None ==> text::has_words(room_line, room),
        setup.room_id is Some ==> setup.room_id == Some(room),
        tells_outcome(inside),
        looked is RoomFound || looked is Failed,
        setup.operator_id is None && operator is None ==> text::is_blank(operator_line),
        setup.operator_id is None && operator is Some ==> text::has_words(
            operator_line,
            operator->0,
        ),
        setup.operator_id is Some ==> operator == setup.operator_id,
        tells_outcome(stored),
        tells_outcome(written),
        tells_outcome(sent),
    ensures
        ({
            let valid = matrix_next(setup, MatrixEventView::Done);
            let named = matrix_next(valid.0, called);
            let entered = matrix_next(named.0, MatrixEventView::Line(room_line));
            let entering = if setup.room_id is None {
                entered
            } else {
                named
            };
            let looking = matrix_next(entering.0, inside);
            let seen = matrix_next(looking.0, looked);
            let chosen = matrix_next(seen.0, MatrixEventView::Line(operator_line));
            let storing = if setup.operator_id is None {
                chosen
            } else {
                seen
            };
            let saving = matrix_next(storing.0, stored);
            let testing = matrix_next(saving.0, written);
            let ended = matrix_next(testing.0, sent);
            &&& valid.2 is FetchName
            &&& setup.room_id is None ==> named.2 is ReadLine
            &&& entering.2 == MatrixActionView::EnterRoom(room)
            &&& looking.2 == MatrixActionView::CheckRoom(room)
            &&& setup.operator_id is None ==> seen.2 is ReadLine
            &&& storing.2 == MatrixActionView::StoreToken(token)
            &&& saving.2 == MatrixActionView::SaveConfig(server, room, operator)
            &&& testing.2 == MatrixActionView::SendMessage(
                room,
                "Ralph bot setup complete! I'm ready to assist during orchestration runs."@,
            )
            &&& ended.2 is Finish
            &&& matrix_next(ended.0, later).2 is Ignore
        }),
{
    text::words_are_trimmed(room_line, room);
    if operator is Some {
        text::words_are_trimmed(operator_line, operator->0);
    } else {
        text::words_are_trimmed(operator_line, operator_line);
    }
    let valid = matrix_next(setup, MatrixEventView::Done);
    assert(valid.0 == moved(setup, MatrixPhase::FetchName));
    let named = matrix_next(valid.0, called);
    let entered = matrix_next(named.0, MatrixEventView::Line(room_line));
    let entering = if setup.room_id is None {
        entered
    } else {
        named
    };
    let here = MatrixSetupView {
        room_id: Some(room),
        phase: MatrixPhase::EnterRoom,
        ..setup
    };
    assert(entering.0 == here);
    let looking = matrix_next(here, inside);
    assert(looking.0 == moved(here, MatrixPhase::CheckRoom));
    let seen = matrix_next(looking.0, looked);
    let chosen = matrix_next(seen.0, MatrixEventView::Line(operator_line));
    let storing = if setup.operator_id is None {
        chosen
    } else {
        seen
    };
    let whole = MatrixSetupView {
        operator_id: operator,
        phase: MatrixPhase::StoreToken,
        ..here
    };
    assert(storing.0 == whole);
    let saving = matrix_next(whole, stored);
    assert(saving.0 == moved(whole, MatrixPhase::SaveConfig));
    let testing = matrix_next(saving.0, written);
    assert(testing.0 == moved(whole, MatrixPhase::SendTest));
    assert(matrix_next(testing.0, sent).0 == moved(whole, MatrixPhase::Over));
}

proof fn after_nothing(line: Seq<char>)
    ensures
        ""@ + line == line,
{
    reveal_strlit("");
    assert(""@ + line =~= line);
}

/// What the wizard tells of the bot and the room: the bot by its name, the room by its
/// name, or else by its ID, and by the number of its members; and what could not be
/// fetched or looked at, and why.
pub proof fn matrix_setup_tells_what_it_found(
    setup: MatrixSetupView,
    name: Seq<char>,
    room_name: Option<Seq<char>>,
    members: u64,
    reason: Seq<char>,
)
    ensures
        ({
            let c = setup.use_colors;
            let named = matrix_next(setup, MatrixEventView::NameFound(name)).1;
            let seen = matrix_next(setup, MatrixEventView::RoomFound(room_name, members)).1;
            let failed = matrix_next(setup, MatrixEventView::Failed(reason)).1;
            let shown = if room_name is Some {
                room_name->0
            } else {
                setup.room_id->0
            };
            &&& setup.phase == MatrixPhase::FetchName ==> text::contains(
                named,
                console::ok_line(c, "Credentials valid! Bot: "@ + name) + "\n"@,
            )
            &&& setup.phase == MatrixPhase::FetchName ==> text::contains(
                failed,
                console::warn_line(c, "Logged in but could not fetch display name: "@ + reason)
                    + "\n"@,
            )
            &&& setup.phase == MatrixPhase::CheckRoom && setup.room_id is Some ==> text::contains(
                seen,
                console::ok_line(
                    c,
                    "Room found: "@ + shown + " ("@ + text::decimal(members as nat) + " members)"@,
                ) + "\n"@,
            )
            &&& setup.phase == MatrixPhase::CheckRoom ==> text::contains(
                failed,
                console::warn_line(c, "Could not validate room: "@ + reason) + "\n"@,
            )
        }),
{
    let c = setup.use_colors;
    let bot = console::success(c, "Credentials valid! Bot: "@ + name);
    let valid = "\n"@ + bot;
    text::in_sum2("\n"@, bot);
    text::in_sum_within(valid, ASK_ROOM@, bot);
    text::in_sum_within(valid + ASK_ROOM@, ROOM_PROMPT@, bot);
    let nameless = console::warning(c, "Logged in but could not fetch display name: "@ + reason);
    let going = "\n"@ + nameless + "    Setup will continue.\n"@;
    text::in_sum3("\n"@, nameless, "    Setup will continue.\n"@);
    text::in_sum_within(going, ASK_ROOM@, nameless);
    text::in_sum_within(going + ASK_ROOM@, ROOM_PROMPT@, nameless);
    let room_line = console::success(
        c,
        "Room found: "@ + (match room_name {
            Some(shown) => shown,
            None => known(setup.room_id),
        }) + " ("@ + text::decimal(members as nat) + " members)"@,
    );
    let seen = "\n"@ + room_line;
    text::in_sum2("\n"@, room_line);
    text::in_sum_within(seen, SAVING@, room_line);
    text::in_sum_within(seen, ASK_OPERATOR@, room_line);
    text::in_sum_within(seen + ASK_OPERATOR@, OPERATOR_PROMPT@, room_line);
    let sorry = console::warning(c, "Could not validate room: "@ + reason);
    let unseen = "\n"@ + sorry + "    The bot may not have joined. Setup will continue.\n"@;
    text::in_sum3("\n"@, sorry, "    The bot may not have joined. Setup will continue.\n"@);
    text::in_sum_within(unseen, SAVING@, sorry);
    text::in_sum_within(unseen, ASK_OPERATOR@, sorry);
    text::in_sum_within(unseen + ASK_OPERATOR@, OPERATOR_PROMPT@, sorry);
}

/// What the wizard tells of saving and sending: what was stored and written, and what was
/// not and why, with the section to add by hand; and at its end that the setup is complete.
pub proof fn matrix_setup_tells_each_step(
    setup: MatrixSetupView,
    server: Seq<char>,
    room: Seq<char>,
    reason: Seq<char>,
)
    requires
        setup.homeserver_url == Some(server),
        setup.room_id == Some(room),
    ensures
        ({
            let c = setup.use_colors;
            let done = matrix_next(setup, MatrixEventView::Done).1;
            let failed = matrix_next(setup, MatrixEventView::Failed(reason)).1;
            let section =
                "    Add manually:\n      RObot:\n        enabled: true\n        matrix:\n          homeserver_url: "@
                + server + "\n          room_id: "@ + room + "\n"@;
            let whole = match setup.operator_id {
                Some(operator) => section + "        operator_id: "@ + operator + "\n"@,
                None => section,
            };
            &&& setup.phase == MatrixPhase::StoreToken ==> done == console::ok_line(
                c,
                "Access token stored in OS keychain (ralph/matrix-access-token)"@,
            ) + "\n"@
            &&& setup.phase == MatrixPhase::StoreToken ==> failed == console::warn_line(
                c,
                "Could not store token in keychain: "@ + reason,
            ) + "\n"@ + "    Set RALPH_MATRIX_ACCESS_TOKEN env var instead.\n"@
            &&& setup.phase == MatrixPhase::SaveConfig ==> done == console::ok_line(
                c,
                "Updated ralph.yml (RObot.matrix configured)"@,
            ) + "\n"@ + "\nStep 7: Verify\n"@
            &&& setup.phase == MatrixPhase::SaveConfig ==> failed == console::warn_line(
                c,
                "Could not update ralph.yml: "@ + reason,
            ) + "\n"@ + whole + "\nStep 7: Verify\n"@
            &&& setup.phase == MatrixPhase::SendTest ==> done == console::ok_line(
                c,
                "Test message sent to your Matrix room!"@,
            ) + "\n"@ + console::setup_complete(c, "Matrix"@)
            &&& setup.phase == MatrixPhase::SendTest ==> failed == console::warn_line(
                c,
                "Could not send test message: "@ + reason,
            ) + "\n"@ + "    Setup saved. Verify later with: ralph bot test\n"@
                + console::setup_complete(c, "Matrix"@)
        }),
{
    let c = setup.use_colors;
    after_nothing(
        console::success(c, "Access token stored in OS keychain (ralph/matrix-access-token)"@),
    );
    after_nothing(console::warning(c, "Could not store token in keychain: "@ + reason));
    after_nothing(console::success(c, "Updated ralph.yml (RObot.matrix configured)"@));
    after_nothing(console::warning(c, "Could not update ralph.yml: "@ + reason));
    after_nothing(console::success(c, "Test message sent to your Matrix room!"@));
    after_nothing(console::warning(c, "Could not send test message: "@ + reason));
}

} // verus!
