//! The setup wizard for Rocket.Chat, step by step.

use super::console::{self, put_failure, put_setup_complete, put_success, put_warning};
use super::onboard_telegram::{TEST_LATER, TEST_MESSAGE};
use crate::lists::{self, copy_text};
use crate::rocketchat::types::{RcRoom, RcUser};
use crate::text;
use vstd::prelude::*;

verus! {

/// The title of the wizard.
pub const TITLE: &'static str = "Ralph Rocket.Chat Bot Setup";

/// The line under the title.
pub const RULE: &'static str = "===========================";

/// The question for the server.
pub const ASK_SERVER: &'static str =
    "Step 1: Rocket.Chat server URL\n  e.g., https://chat.example.com\n\n";

/// The prompt for the server.
pub const SERVER_PROMPT: &'static str = "  Server URL: ";

/// The question for the bot's user ID.
pub const ASK_USER: &'static str =
    "\nStep 2: Bot user ID\n  The bot's Rocket.Chat user ID (used for X-User-Id header).\n  Find it in Administration > Users > your bot user.\n\n";

/// The prompt for the bot's user ID.
pub const USER_PROMPT: &'static str = "  Bot user ID: ";

/// The question for the auth token.
pub const ASK_TOKEN: &'static str =
    "\nStep 3: Personal Access Token\n  Create one in My Account > Personal Access Tokens.\n  Ensure 'Ignore Two Factor Authentication' is checked.\n\n";

/// The prompt for the auth token.
pub const TOKEN_PROMPT: &'static str = "  Auth token: ";

/// The reply to a blank value.
pub const VALUE_EMPTY: &'static str = "  Value cannot be empty. Please try again.\n";

/// The announcement of the validation.
pub const CHECKING: &'static str =
    "\nStep 4: Validate credentials\n  Checking credentials with Rocket.Chat API...";

/// What to do about credentials that are not valid.
pub const CREDENTIAL_TROUBLE: &'static str =
    "\n  Troubleshooting:\n    - Check that server_url is correct and reachable\n    - Verify bot_user_id matches the bot's user in Rocket.Chat\n    - Ensure the Personal Access Token hasn't been revoked\n    - Check your internet connection\n";

/// The question for the room.
pub const ASK_ROOM: &'static str =
    "\nStep 5: Room ID\n  The room where Ralph will send messages.\n  Find it in the room's kebab menu > Channel Administration > shows in URL.\n\n";

/// The prompt for the room.
pub const ROOM_PROMPT: &'static str = "  Room ID: ";

/// The announcement of the look at the room.
pub const CHECKING_ROOM: &'static str = "  Checking room...";

/// The question for the operator.
pub const ASK_OPERATOR: &'static str =
    "\nStep 6: Operator ID (optional)\n  In group chats, only messages from this user are processed.\n  Leave blank for DMs or if filtering is not needed.\n\n";

/// The prompt for the operator.
pub const OPERATOR_PROMPT: &'static str = "  Operator user ID (or press Enter to skip): ";

/// The announcement of the saving.
pub const SAVING: &'static str = "\nStep 7: Save configuration\n";

/// The announcement of the test message.
pub const VERIFYING: &'static str = "\nStep 8: Verify\n";

/// Where the wizard stands.
#[derive(Debug, Clone, Copy, PartialEq, Eq, Structural)]
pub enum RocketChatPhase {
    /// The server is asked for.
    AskServer,
    /// The bot's user ID is asked for.
    AskUser,
    /// The auth token is asked for.
    AskToken,
    /// The credentials are being validated.
    CheckUser,
    /// The room is asked for.
    AskRoom,
    /// The room is being looked at.
    CheckRoom,
    /// The operator is asked for.
    AskOperator,
    /// The auth token is being stored in the keychain.
    StoreToken,
    /// The config file is being written.
    SaveConfig,
    /// The test message is being sent.
    SendTest,
    /// The wizard has ended.
    Over,
}

/// The setup wizard for Rocket.Chat.
#[derive(Debug)]
pub struct RocketChatSetup {
    use_colors: bool,
    server_url: Option<String>,
    bot_user_id: Option<String>,
    auth_token: Option<String>,
    room_id: Option<String>,
    operator_id: Option<String>,
    reported_id: String,
    phase: RocketChatPhase,
}

/// The mathematical value of the wizard.
pub struct RocketChatSetupView {
    /// Whether to print in colors.
    pub use_colors: bool,
    /// The server, once it is known.
    pub server_url: Option<Seq<char>>,
    /// The bot's user ID as given, once it is known.
    pub bot_user_id: Option<Seq<char>>,
    /// The auth token, once it is known.
    pub auth_token: Option<Seq<char>>,
    /// The room, once it is known.
    pub room_id: Option<Seq<char>>,
    /// The operator, if there is one.
    pub operator_id: Option<Seq<char>>,
    /// The bot's user ID as the server reports it.
    pub reported_id: Seq<char>,
    /// Where the wizard stands.
    pub phase: RocketChatPhase,
}

impl View for RocketChatSetup {
    type V = RocketChatSetupView;

    closed spec fn view(&self) -> RocketChatSetupView {
        RocketChatSetupView {
            use_colors: self.use_colors,
            server_url: lists::text_in(self.server_url),
            bot_user_id: lists::text_in(self.bot_user_id),
            auth_token: lists::text_in(self.auth_token),
            room_id: lists::text_in(self.room_id),
            operator_id: lists::text_in(self.operator_id),
            reported_id: self.reported_id@,
            phase: self.phase,
        }
    }
}

/// What the wizard learns.
#[derive(Debug)]
pub enum RocketChatEvent {
    /// The operator has entered a line.
    Line(String),
    /// The credentials are those of this user.
    UserFound(RcUser),
    /// The room was found.
    RoomFound(RcRoom),
    /// The last step was done.
    Done,
    /// The last step failed, for this reason.
    Failed(String),
}

/// The mathematical value of a user.
pub struct UserView {
    /// The user ID.
    pub id: Seq<char>,
    /// The username.
    pub username: Seq<char>,
    /// The display name.
    pub name: Option<Seq<char>>,
}

/// The mathematical value of a room.
pub struct RoomView {
    /// The type.
    pub t: Seq<char>,
    /// The name.
    pub name: Option<Seq<char>>,
    /// The display name.
    pub fname: Option<Seq<char>>,
}

/// The mathematical value of an event.
pub enum RocketChatEventView {
    /// The operator has entered a line.
    Line(Seq<char>),
    /// The credentials are those of this user.
    UserFound(UserView),
    /// The room was found.
    RoomFound(RoomView),
    /// The last step was done.
    Done,
    /// The last step failed, for this reason.
    Failed(Seq<char>),
}

/// The mathematical value of a user.
pub open spec fn user_view(user: RcUser) -> UserView {
    UserView { id: user.id@, username: user.username@, name: lists::text_in(user.name) }
}

/// The mathematical value of a room.
pub open spec fn room_view(room: RcRoom) -> RoomView {
    RoomView {
        t: room.t@,
        name: lists::text_in(room.name),
        fname: lists::text_in(room.fname),
    }
}

impl View for RocketChatEvent {
    type V = RocketChatEventView;

    open spec fn view(&self) -> RocketChatEventView {
        match self {
            RocketChatEvent::Line(line) => RocketChatEventView::Line(line@),
            RocketChatEvent::UserFound(user) => RocketChatEventView::UserFound(user_view(*user)),
            RocketChatEvent::RoomFound(room) => RocketChatEventView::RoomFound(room_view(*room)),
            RocketChatEvent::Done => RocketChatEventView::Done,
            RocketChatEvent::Failed(reason) => RocketChatEventView::Failed(reason@),
        }
    }
}

/// What the wizard does next, after printing.
#[derive(Debug)]
pub enum RocketChatAction {
    /// Read a line.
    ReadLine,
    /// Make a client for a server, with a token and a user ID, and ask who it is.
    CheckUser(String, String, String),
    /// Look at a room with the client.
    CheckRoom(String),
    /// Store a token in the keychain.
    StoreToken(String),
    /// Write the config file: server, bot user ID, room, operator, and the auth token
    /// if it goes there.
    SaveConfig(String, String, String, Option<String>, Option<String>),
    /// Send a message to a room with the client.
    SendMessage(String, String),
    /// End well.
    Finish,
    /// End with an error.
    Fail(String),
    /// Nothing, since the event was not awaited.
    Ignore,
}

/// The mathematical value of an action.
pub enum RocketChatActionView {
    /// Read a line.
    ReadLine,
    /// Make a client for a server, with a token and a user ID, and ask who it is.
    CheckUser(Seq<char>, Seq<char>, Seq<char>),
    /// Look at a room with the client.
    CheckRoom(Seq<char>),
    /// Store a token in the keychain.
    StoreToken(Seq<char>),
    /// Write the config file: server, bot user ID, room, operator, and the auth token
    /// if it goes there.
    SaveConfig(Seq<char>, Seq<char>, Seq<char>, Option<Seq<char>>, Option<Seq<char>>),
    /// Send a message to a room with the client.
    SendMessage(Seq<char>, Seq<char>),
    /// End well.
    Finish,
    /// End with an error.
    Fail(Seq<char>),
    /// Nothing, since the event was not awaited.
    Ignore,
}

impl View for RocketChatAction {
    type V = RocketChatActionView;

    open spec fn view(&self) -> RocketChatActionView {
        match self {
            RocketChatAction::ReadLine => RocketChatActionView::ReadLine,
            RocketChatAction::CheckUser(server, token, user) => RocketChatActionView::CheckUser(
                server@,
                token@,
                user@,
            ),
            RocketChatAction::CheckRoom(room) => RocketChatActionView::CheckRoom(room@),
            RocketChatAction::StoreToken(token) => RocketChatActionView::StoreToken(token@),
            RocketChatAction::SaveConfig(
                server,
                user,
                room,
                operator,
                token,
            ) => RocketChatActionView::SaveConfig(
                server@,
                user@,
                room@,
                lists::text_in(*operator),
                lists::text_in(*token),
            ),
            RocketChatAction::SendMessage(room, words) => RocketChatActionView::SendMessage(
                room@,
                words@,
            ),
            RocketChatAction::Finish => RocketChatActionView::Finish,
            RocketChatAction::Fail(reason) => RocketChatActionView::Fail(reason@),
            RocketChatAction::Ignore => RocketChatActionView::Ignore,
        }
    }
}

/// A step of the wizard: its new state, what it prints, and what it does then.
pub type RocketChatStep = (RocketChatSetupView, Seq<char>, RocketChatActionView);

/// A value, once it is known.
pub open spec fn known(value: Option<Seq<char>>) -> Seq<char> {
    match value {
        Some(text) => text,
        None => Seq::empty(),
    }
}

/// The wizard in another phase.
pub open spec fn moved(setup: RocketChatSetupView, phase: RocketChatPhase) -> RocketChatSetupView {
    RocketChatSetupView { phase, ..setup }
}

/// The step of asking for the first credential that is not known, or of validating
/// the credentials once all are.
pub open spec fn ask_credentials(setup: RocketChatSetupView, printed: Seq<char>) -> RocketChatStep {
    if setup.server_url is None {
        (
            moved(setup, RocketChatPhase::AskServer),
            printed + ASK_SERVER@ + SERVER_PROMPT@,
            RocketChatActionView::ReadLine,
        )
    } else if setup.bot_user_id is None {
        (
            moved(setup, RocketChatPhase::AskUser),
            printed + ASK_USER@ + USER_PROMPT@,
            RocketChatActionView::ReadLine,
        )
    } else if setup.auth_token is None {
        (
            moved(setup, RocketChatPhase::AskToken),
            printed + ASK_TOKEN@ + TOKEN_PROMPT@,
            RocketChatActionView::ReadLine,
        )
    } else {
        (
            moved(setup, RocketChatPhase::CheckUser),
            printed + CHECKING@,
            RocketChatActionView::CheckUser(
                known(setup.server_url),
                known(setup.auth_token),
                known(setup.bot_user_id),
            ),
        )
    }
}

/// The step of asking for the room, or of looking at it once it is known.
pub open spec fn ask_room(setup: RocketChatSetupView, printed: Seq<char>) -> RocketChatStep {
    if setup.room_id is None {
        (
            moved(setup, RocketChatPhase::AskRoom),
            printed + ASK_ROOM@ + ROOM_PROMPT@,
            RocketChatActionView::ReadLine,
        )
    } else {
        (
            moved(setup, RocketChatPhase::CheckRoom),
            printed + CHECKING_ROOM@,
            RocketChatActionView::CheckRoom(known(setup.room_id)),
        )
    }
}

/// The step of storing the auth token.
pub open spec fn store_token(setup: RocketChatSetupView, printed: Seq<char>) -> RocketChatStep {
    (
        moved(setup, RocketChatPhase::StoreToken),
        printed + SAVING@,
        RocketChatActionView::StoreToken(known(setup.auth_token)),
    )
}

/// The step of asking for the operator, unless one was given.
pub open spec fn ask_operator(setup: RocketChatSetupView, printed: Seq<char>) -> RocketChatStep {
    if setup.operator_id is None {
        (
            moved(setup, RocketChatPhase::AskOperator),
            printed + ASK_OPERATOR@ + OPERATOR_PROMPT@,
            RocketChatActionView::ReadLine,
        )
    } else {
        store_token(setup, printed)
    }
}

/// The step of writing the config file.
pub open spec fn save_config(
    setup: RocketChatSetupView,
    token: Option<Seq<char>>,
    printed: Seq<char>,
) -> RocketChatStep {
    (
        moved(setup, RocketChatPhase::SaveConfig),
        printed,
        RocketChatActionView::SaveConfig(
            known(setup.server_url),
            setup.reported_id,
            known(setup.room_id),
            setup.operator_id,
            token,
        ),
    )
}

/// The step of sending the test message.
pub open spec fn send_test(setup: RocketChatSetupView, printed: Seq<char>) -> RocketChatStep {
    (
        moved(setup, RocketChatPhase::SendTest),
        printed + VERIFYING@,
        RocketChatActionView::SendMessage(known(setup.room_id), TEST_MESSAGE@),
    )
}

/// The name of a user as shown: the display name if there is one.
pub open spec fn shown_name(user: UserView) -> Seq<char> {
    match user.name {
        Some(name) => name,
        None => user.username,
    }
}

/// The name of a room as shown.
pub open spec fn shown_room(room: RoomView, room_id: Seq<char>) -> Seq<char> {
    match room.fname {
        Some(name) => name,
        None => match room.name {
            Some(name) => name,
            None => room_id,
        },
    }
}

/// The type of a room in words.
pub open spec fn room_type(t: Seq<char>) -> Seq<char> {
    if t == "c"@ {
        "channel"@
    } else if t == "p"@ {
        "private group"@
    } else if t == "d"@ {
        "direct message"@
    } else {
        t
    }
}

/// What is printed of a user that was found: a warning where the user ID that was
/// given is not that of the server.
pub open spec fn user_lines(setup: RocketChatSetupView, user: UserView) -> Seq<char> {
    let c = setup.use_colors;
    let found = "\n"@ + console::success(
        c,
        "Credentials valid! Bot: "@ + shown_name(user) + " (@"@ + user.username + ")"@,
    );
    if user.id != known(setup.bot_user_id) {
        found + console::warning(
            c,
            "Provided bot_user_id ("@ + known(setup.bot_user_id)
                + ") differs from server-reported ID ("@ + user.id + "). Using server value."@,
        )
    } else {
        found
    }
}

/// The section to add by hand where the config file could not be written.
pub open spec fn manual_section(setup: RocketChatSetupView) -> Seq<char> {
    let start = "    Add manually:\n      RObot:\n        enabled: true\n        rocketchat:\n          server_url: "@
        + known(setup.server_url) + "\n          bot_user_id: "@ + setup.reported_id
        + "\n          room_id: "@ + known(setup.room_id) + "\n"@;
    match setup.operator_id {
        Some(operator) => start + "        operator_id: "@ + operator + "\n"@,
        None => start,
    }
}

/// The first step of the wizard.
pub open spec fn rocketchat_first(
    use_colors: bool,
    server_url: Option<Seq<char>>,
    bot_user_id: Option<Seq<char>>,
    auth_token: Option<Seq<char>>,
    room_id: Option<Seq<char>>,
    operator_id: Option<Seq<char>>,
) -> RocketChatStep {
    ask_credentials(
        RocketChatSetupView {
            use_colors,
            server_url,
            bot_user_id,
            auth_token,
            room_id,
            operator_id,
            reported_id: Seq::empty(),
            phase: RocketChatPhase::AskServer,
        },
        console::heading(use_colors, TITLE@, RULE@),
    )
}

/// The prompt of a phase that asks.
pub open spec fn prompt_of(phase: RocketChatPhase) -> Seq<char> {
    match phase {
        RocketChatPhase::AskServer => SERVER_PROMPT@,
        RocketChatPhase::AskUser => USER_PROMPT@,
        RocketChatPhase::AskToken => TOKEN_PROMPT@,
        RocketChatPhase::AskRoom => ROOM_PROMPT@,
        _ => OPERATOR_PROMPT@,
    }
}

/// Whether a phase asks for a value that cannot be left blank.
pub open spec fn asks_required(phase: RocketChatPhase) -> bool {
    phase == RocketChatPhase::AskServer || phase == RocketChatPhase::AskUser || phase
        == RocketChatPhase::AskToken || phase == RocketChatPhase::AskRoom
}

/// The step after a line was entered.
pub open spec fn line_entered(setup: RocketChatSetupView, line: Seq<char>) -> RocketChatStep {
    let value = text::trimmed(line);
    if value.len() == 0 && asks_required(setup.phase) {
        (setup, VALUE_EMPTY@ + prompt_of(setup.phase), RocketChatActionView::ReadLine)
    } else {
        match setup.phase {
            RocketChatPhase::AskServer => ask_credentials(
                RocketChatSetupView { server_url: Some(value), ..setup },
                ""@,
            ),
            RocketChatPhase::AskUser => ask_credentials(
                RocketChatSetupView { bot_user_id: Some(value), ..setup },
                ""@,
            ),
            RocketChatPhase::AskToken => ask_credentials(
                RocketChatSetupView { auth_token: Some(value), ..setup },
                ""@,
            ),
            RocketChatPhase::AskRoom => ask_room(
                RocketChatSetupView { room_id: Some(value), ..setup },
                ""@,
            ),
            RocketChatPhase::AskOperator => store_token(
                RocketChatSetupView {
                    operator_id: if value.len() == 0 {
                        None
                    } else {
                        Some(value)
                    },
                    ..setup
                },
                ""@,
            ),
            _ => (setup, ""@, RocketChatActionView::Ignore),
        }
    }
}

/// The next step of the wizard.
pub open spec fn rocketchat_next(
    setup: RocketChatSetupView,
    event: RocketChatEventView,
) -> RocketChatStep {
    let c = setup.use_colors;
    match (setup.phase, event) {
        (_, RocketChatEventView::Line(line)) => line_entered(setup, line),
        (RocketChatPhase::CheckUser, RocketChatEventView::UserFound(user)) => ask_room(
            RocketChatSetupView { reported_id: user.id, ..setup },
            user_lines(setup, user),
        ),
        (RocketChatPhase::CheckUser, RocketChatEventView::Failed(reason)) => (
            moved(setup, RocketChatPhase::Over),
            "\n"@ + console::failure(c, "Credential validation failed: "@ + reason)
                + CREDENTIAL_TROUBLE@,
            RocketChatActionView::Fail("Credential validation failed"@),
        ),
        (RocketChatPhase::CheckRoom, RocketChatEventView::RoomFound(room)) => ask_operator(
            setup,
            "\n"@ + console::success(
                c,
                "Room found: "@ + shown_room(room, known(setup.room_id)) + " ("@ + room_type(room.t)
                    + ")"@,
            ),
        ),
        (RocketChatPhase::CheckRoom, RocketChatEventView::Failed(reason)) => ask_operator(
            setup,
            "\n"@ + console::warning(c, "Could not validate room: "@ + reason)
                + "    The bot may not have access. Setup will continue.\n"@,
        ),
        (RocketChatPhase::StoreToken, RocketChatEventView::Done) => save_config(
            setup,
            None,
            ""@ + console::success(
                c,
                "Auth token stored in OS keychain (ralph/rocketchat-auth-token)"@,
            ),
        ),
        (RocketChatPhase::StoreToken, RocketChatEventView::Failed(reason)) => save_config(
            setup,
            Some(known(setup.auth_token)),
            ""@ + console::warning(c, "Could not store token in keychain: "@ + reason)
                + "    Set RALPH_ROCKETCHAT_AUTH_TOKEN env var instead.\n"@,
        ),
        (RocketChatPhase::SaveConfig, RocketChatEventView::Done) => send_test(
            setup,
            ""@ + console::success(c, "Updated ralph.yml (RObot.rocketchat configured)"@),
        ),
        (RocketChatPhase::SaveConfig, RocketChatEventView::Failed(reason)) => send_test(
            setup,
            ""@ + console::warning(c, "Could not update ralph.yml: "@ + reason) + manual_section(
                setup,
            ),
        ),
        (RocketChatPhase::SendTest, RocketChatEventView::Done) => (
            moved(setup, RocketChatPhase::Over),
            ""@ + console::success(c, "Test message sent to your Rocket.Chat room!"@)
                + console::setup_complete(c, "Rocket.Chat"@),
            RocketChatActionView::Finish,
        ),
        (RocketChatPhase::SendTest, RocketChatEventView::Failed(reason)) => (
            moved(setup, RocketChatPhase::Over),
            ""@ + console::warning(c, "Could not send test message: "@ + reason) + TEST_LATER@
                + console::setup_complete(c, "Rocket.Chat"@),
            RocketChatActionView::Finish,
        ),
        _ => (setup, ""@, RocketChatActionView::Ignore),
    }
}

fn known_text(value: &Option<String>) -> (r: String)
    ensures
        r@ == known(lists::text_in(*value)),
{
    match value {
        Some(text) => text.clone(),
        None => String::new(),
    }
}

fn room_type_text(t: &str) -> (r: String)
    ensures
        r@ == room_type(t@),
{
    if text::same_text(t, "c") {
        String::from_str("channel")
    } else if text::same_text(t, "p") {
        String::from_str("private group")
    } else if text::same_text(t, "d") {
        String::from_str("direct message")
    } else {
        String::from_str(t)
    }
}

impl RocketChatSetup {
    fn to_credentials(&mut self, printed: &mut String) -> (r: RocketChatAction)
        ensures
            (final(self)@, final(printed)@, r@) == ask_credentials(old(self)@, old(printed)@),
    {
        if self.server_url.is_none() {
            printed.append(ASK_SERVER);
            printed.append(SERVER_PROMPT);
            self.phase = RocketChatPhase::AskServer;
            RocketChatAction::ReadLine
        } else if self.bot_user_id.is_none() {
            printed.append(ASK_USER);
            printed.append(USER_PROMPT);
            self.phase = RocketChatPhase::AskUser;
            RocketChatAction::ReadLine
        } else if self.auth_token.is_none() {
            printed.append(ASK_TOKEN);
            printed.append(TOKEN_PROMPT);
            self.phase = RocketChatPhase::AskToken;
            RocketChatAction::ReadLine
        } else {
            printed.append(CHECKING);
            self.phase = RocketChatPhase::CheckUser;
            RocketChatAction::CheckUser(
                known_text(&self.server_url),
                known_text(&self.auth_token),
                known_text(&self.bot_user_id),
            )
        }
    }

    fn to_room(&mut self, printed: &mut String) -> (r: RocketChatAction)
        ensures
            (final(self)@, final(printed)@, r@) == ask_room(old(self)@, old(printed)@),
    {
        if self.room_id.is_none() {
            printed.append(ASK_ROOM);
            printed.append(ROOM_PROMPT);
            self.phase = RocketChatPhase::AskRoom;
            RocketChatAction::ReadLine
        } else {
            printed.append(CHECKING_ROOM);
            self.phase = RocketChatPhase::CheckRoom;
            RocketChatAction::CheckRoom(known_text(&self.room_id))
        }
    }

    fn to_store(&mut self, printed: &mut String) -> (r: RocketChatAction)
        ensures
            (final(self)@, final(printed)@, r@) == store_token(old(self)@, old(printed)@),
    {
        printed.append(SAVING);
        self.phase = RocketChatPhase::StoreToken;
        RocketChatAction::StoreToken(known_text(&self.auth_token))
    }

    fn to_operator(&mut self, printed: &mut String) -> (r: RocketChatAction)
        ensures
            (final(self)@, final(printed)@, r@) == ask_operator(old(self)@, old(printed)@),
    {
        if self.operator_id.is_none() {
            printed.append(ASK_OPERATOR);
            printed.append(OPERATOR_PROMPT);
            self.phase = RocketChatPhase::AskOperator;
            RocketChatAction::ReadLine
        } else {
            self.to_store(printed)
        }
    }

    fn to_config(&mut self, token: Option<String>, printed: &String) -> (r: RocketChatAction)
        ensures
            (final(self)@, printed@, r@) == save_config(
                old(self)@,
                lists::text_in(token),
                printed@,
            ),
    {
        self.phase = RocketChatPhase::SaveConfig;
        RocketChatAction::SaveConfig(
            known_text(&self.server_url),
            self.reported_id.clone(),
            known_text(&self.room_id),
            copy_text(&self.operator_id),
            token,
        )
    }

    fn to_test(&mut self, printed: &mut String) -> (r: RocketChatAction)
        ensures
            (final(self)@, final(printed)@, r@) == send_test(old(self)@, old(printed)@),
    {
        printed.append(VERIFYING);
        self.phase = RocketChatPhase::SendTest;
        RocketChatAction::SendMessage(known_text(&self.room_id), String::from_str(TEST_MESSAGE))
    }

    fn user_text(&self, user: &RcUser) -> (r: String)
        ensures
            r@ == user_lines(self@, user_view(*user)),
    {
        let c: bool = self.use_colors;
        let mut out = String::from_str("\n");
        let name: &str = match &user.name {
            Some(name) => name.as_str(),
            None => user.username.as_str(),
        };
        put_success(
            &mut out,
            c,
            &text::cat5("Credentials valid! Bot: ", name, " (@", &user.username, ")"),
        );
        let given = known_text(&self.bot_user_id);
        if !text::same_text(&user.id, &given) {
            put_warning(
                &mut out,
                c,
                &text::cat5(
                    "Provided bot_user_id (",
                    &given,
                    ") differs from server-reported ID (",
                    &user.id,
                    "). Using server value.",
                ),
            );
        }
        out
    }

    fn put_manual_section(&self, out: &mut String)
        ensures
            final(out)@ == old(out)@ + manual_section(self@),
    {
        let mut section = text::cat5(
            "    Add manually:\n      RObot:\n        enabled: true\n        rocketchat:\n          server_url: ",
            &known_text(&self.server_url),
            "\n          bot_user_id: ",
            &self.reported_id,
            "\n          room_id: ",
        );
        section.append(&known_text(&self.room_id));
        section.append("\n");
        match &self.operator_id {
            Some(operator) => {
                section.append("        operator_id: ");
                section.append(operator);
                section.append("\n");
            },
            None => {},
        }
        out.append(&section);
    }

    fn prompt(&self) -> (r: &'static str)
        ensures
            r@ == prompt_of(self@.phase),
    {
        match self.phase {
            RocketChatPhase::AskServer => SERVER_PROMPT,
            RocketChatPhase::AskUser => USER_PROMPT,
            RocketChatPhase::AskToken => TOKEN_PROMPT,
            RocketChatPhase::AskRoom => ROOM_PROMPT,
            _ => OPERATOR_PROMPT,
        }
    }

    fn enter_line(&mut self, line: &str) -> (r: (String, RocketChatAction))
        ensures
            (final(self)@, r.0@, r.1@) == line_entered(old(self)@, line@),
    {
        let value = text::trim(line);
        let mut out = String::from_str("");
        if value.unicode_len() == 0 && (self.phase == RocketChatPhase::AskServer || self.phase
            == RocketChatPhase::AskUser || self.phase == RocketChatPhase::AskToken || self.phase
            == RocketChatPhase::AskRoom) {
            return (text::cat2(VALUE_EMPTY, self.prompt()), RocketChatAction::ReadLine);
        }
        match self.phase {
            RocketChatPhase::AskServer => {
                self.server_url = Some(String::from_str(value));
                let action = self.to_credentials(&mut out);
                (out, action)
            },
            RocketChatPhase::AskUser => {
                self.bot_user_id = Some(String::from_str(value));
                let action = self.to_credentials(&mut out);
                (out, action)
            },
            RocketChatPhase::AskToken => {
                self.auth_token = Some(String::from_str(value));
                let action = self.to_credentials(&mut out);
                (out, action)
            },
            RocketChatPhase::AskRoom => {
                self.room_id = Some(String::from_str(value));
                let action = self.to_room(&mut out);
                (out, action)
            },
            RocketChatPhase::AskOperator => {
                self.operator_id = if value.unicode_len() == 0 {
                    None
                } else {
                    Some(String::from_str(value))
                };
                let action = self.to_store(&mut out);
                (out, action)
            },
            _ => (out, RocketChatAction::Ignore),
        }
    }

    /// Starts the wizard with what the command line gives: the wizard, what it
    /// prints, and what it does then.
    pub fn start(
        use_colors: bool,
        server_url: Option<String>,
        bot_user_id: Option<String>,
        auth_token: Option<String>,
        room_id: Option<String>,
        operator_id: Option<String>,
    ) -> (r: (RocketChatSetup, String, RocketChatAction))
        ensures
            (r.0@, r.1@, r.2@) == rocketchat_first(
                use_colors,
                lists::text_in(server_url),
                lists::text_in(bot_user_id),
                lists::text_in(auth_token),
                lists::text_in(room_id),
                lists::text_in(operator_id),
            ),
    {
        let mut setup = RocketChatSetup {
            use_colors,
            server_url,
            bot_user_id,
            auth_token,
            room_id,
            operator_id,
            reported_id: String::new(),
            phase: RocketChatPhase::AskServer,
        };
        let mut printed = console::heading_text(use_colors, TITLE, RULE);
        let action = setup.to_credentials(&mut printed);
        (setup, printed, action)
    }

    /// The next step of the wizard: what it prints, and what it does then.
    pub fn step(&mut self, event: RocketChatEvent) -> (r: (String, RocketChatAction))
        ensures
            (final(self)@, r.0@, r.1@) == rocketchat_next(old(self)@, event@),
    {
        let c: bool = self.use_colors;
        match (self.phase, event) {
            (_, RocketChatEvent::Line(line)) => self.enter_line(&line),
            (RocketChatPhase::CheckUser, RocketChatEvent::UserFound(user)) => {
                let mut out = self.user_text(&user);
                self.reported_id = user.id;
                let action = self.to_room(&mut out);
                (out, action)
            },
            (RocketChatPhase::CheckUser, RocketChatEvent::Failed(reason)) => {
                let mut out = String::from_str("\n");
                put_failure(&mut out, c, &text::cat2("Credential validation failed: ", &reason));
                out.append(CREDENTIAL_TROUBLE);
                self.phase = RocketChatPhase::Over;
                (out, RocketChatAction::Fail(String::from_str("Credential validation failed")))
            },
            (RocketChatPhase::CheckRoom, RocketChatEvent::RoomFound(room)) => {
                let mut out = String::from_str("\n");
                let own = known_text(&self.room_id);
                let name: &str = match &room.fname {
                    Some(name) => name.as_str(),
                    None => match &room.name {
                        Some(name) => name.as_str(),
                        None => own.as_str(),
                    },
                };
                put_success(
                    &mut out,
                    c,
                    &text::cat5("Room found: ", name, " (", &room_type_text(&room.t), ")"),
                );
                let action = self.to_operator(&mut out);
                (out, action)
            },
            (RocketChatPhase::CheckRoom, RocketChatEvent::Failed(reason)) => {
                let mut out = String::from_str("\n");
                put_warning(&mut out, c, &text::cat2("Could not validate room: ", &reason));
                out.append("    The bot may not have access. Setup will continue.\n");
                let action = self.to_operator(&mut out);
                (out, action)
            },
            (RocketChatPhase::StoreToken, RocketChatEvent::Done) => {
                let mut out = String::from_str("");
                put_success(
                    &mut out,
                    c,
                    "Auth token stored in OS keychain (ralph/rocketchat-auth-token)",
                );
                let action = self.to_config(None, &out);
                (out, action)
            },
            (RocketChatPhase::StoreToken, RocketChatEvent::Failed(reason)) => {
                let mut out = String::from_str("");
                put_warning(
                    &mut out,
                    c,
                    &text::cat2("Could not store token in keychain: ", &reason),
                );
                out.append("    Set RALPH_ROCKETCHAT_AUTH_TOKEN env var instead.\n");
                let action = self.to_config(Some(known_text(&self.auth_token)), &out);
                (out, action)
            },
            (RocketChatPhase::SaveConfig, RocketChatEvent::Done) => {
                let mut out = String::from_str("");
                put_success(&mut out, c, "Updated ralph.yml (RObot.rocketchat configured)");
                let action = self.to_test(&mut out);
                (out, action)
            },
            (RocketChatPhase::SaveConfig, RocketChatEvent::Failed(reason)) => {
                let mut out = String::from_str("");
                put_warning(&mut out, c, &text::cat2("Could not update ralph.yml: ", &reason));
                self.put_manual_section(&mut out);
                let action = self.to_test(&mut out);
                (out, action)
            },
            (RocketChatPhase::SendTest, RocketChatEvent::Done) => {
                let mut out = String::from_str("");
                put_success(&mut out, c, "Test message sent to your Rocket.Chat room!");
                put_setup_complete(&mut out, c, "Rocket.Chat");
                self.phase = RocketChatPhase::Over;
                (out, RocketChatAction::Finish)
            },
            (RocketChatPhase::SendTest, RocketChatEvent::Failed(reason)) => {
                let mut out = String::from_str("");
                put_warning(&mut out, c, &text::cat2("Could not send test message: ", &reason));
                out.append(TEST_LATER);
                put_setup_complete(&mut out, c, "Rocket.Chat");
                self.phase = RocketChatPhase::Over;
                (out, RocketChatAction::Finish)
            },
            _ => (String::from_str(""), RocketChatAction::Ignore),
        }
    }
}

/// The config file gets the bot's user ID as the server reports it, whatever was
/// given, and the operator only if one is set.
pub proof fn server_decides_the_user_id(setup: RocketChatSetupView, user: UserView)
    requires
        setup.phase == RocketChatPhase::CheckUser,
    ensures
        rocketchat_next(setup, RocketChatEventView::UserFound(user)).0.reported_id == user.id,
        forall|s: RocketChatSetupView, e: RocketChatEventView|
            (#[trigger] rocketchat_next(s, e)).2 matches RocketChatActionView::SaveConfig(
                _,
                id,
                _,
                operator,
                _,
            ) ==> id == s.reported_id && operator == s.operator_id && s.phase
                == RocketChatPhase::StoreToken,
        forall|s: RocketChatSetupView, e: RocketChatEventView|
            s.phase != RocketChatPhase::CheckUser || !(e is UserFound) ==> (
            #[trigger] rocketchat_next(s, e)).0.reported_id == s.reported_id,
{
}

/// The auth token goes into the config file exactly if the keychain did not take
/// it, and no config is written before the keychain was asked.
pub proof fn token_falls_back_to_the_config(setup: RocketChatSetupView, event: RocketChatEventView)
    ensures
        ({
            let (_, _, action) = rocketchat_next(setup, event);
            &&& action matches RocketChatActionView::SaveConfig(_, _, _, _, token) ==> setup.phase
                == RocketChatPhase::StoreToken && (token is Some <==> event is Failed) && (
            token matches Some(shown) ==> shown == known(setup.auth_token))
            &&& action matches RocketChatActionView::StoreToken(token) ==> token == known(
                setup.auth_token,
            )
        }),
{
}

// ── Laws ────────────────────────────────────────────────────────────────

/// Whether an event tells how a step of saving or sending went.
pub open spec fn tells_outcome(event: RocketChatEventView) -> bool {
    event is Done || event is Failed
}

/// Whether a step asks for the first of server, bot and token that is not known, or, once
/// all are, validates them.
pub open spec fn asks_in_order(
    step: RocketChatStep,
    server: Option<Seq<char>>,
    user: Option<Seq<char>>,
    token: Option<Seq<char>>,
) -> bool {
    &&& server is None ==> step.0.phase == RocketChatPhase::AskServer && step.2 is ReadLine
        && text::ends_with(step.1, "  Server URL: "@)
    &&& server is Some && user is None ==> step.0.phase == RocketChatPhase::AskUser
        && step.2 is ReadLine && text::ends_with(step.1, "  Bot user ID: "@)
    &&& server is Some && user is Some && token is None ==> step.0.phase
        == RocketChatPhase::AskToken && step.2 is ReadLine && text::ends_with(
        step.1,
        "  Auth token: "@,
    )
    &&& server is Some && user is Some && token is Some ==> step.0.phase
        == RocketChatPhase::CheckUser && step.2 == RocketChatActionView::CheckUser(
        server->0,
        token->0,
        user->0,
    ) && text::ends_with(
        step.1,
        "\nStep 4: Validate credentials\n  Checking credentials with Rocket.Chat API..."@,
    )
    &&& step.0.server_url == server && step.0.bot_user_id == user && step.0.auth_token == token
}

proof fn asked_in_order(setup: RocketChatSetupView, printed: Seq<char>)
    ensures
        asks_in_order(
            ask_credentials(setup, printed),
            setup.server_url,
            setup.bot_user_id,
            setup.auth_token,
        ),
        ask_credentials(setup, printed).0.room_id == setup.room_id,
        ask_credentials(setup, printed).0.operator_id == setup.operator_id,
        ask_credentials(setup, printed).0.use_colors == setup.use_colors,
{
    text::addition_ends(printed + ASK_SERVER@, SERVER_PROMPT@);
    text::addition_ends(printed + ASK_USER@, USER_PROMPT@);
    text::addition_ends(printed + ASK_TOKEN@, TOKEN_PROMPT@);
    text::addition_ends(printed, CHECKING@);
}

/// What is given is not asked for, and what is not is asked for in order: server, bot,
/// token. The words that are entered are the value that was asked for, and no other value
/// changes. A blank line is asked for again, with nothing changed. Once all three are
/// known they are validated together.
pub proof fn credentials_are_asked_in_order(
    use_colors: bool,
    server: Option<Seq<char>>,
    user: Option<Seq<char>>,
    token: Option<Seq<char>>,
    room: Option<Seq<char>>,
    operator: Option<Seq<char>>,
    setup: RocketChatSetupView,
    line: Seq<char>,
    words: Seq<char>,
)
    requires
        text::has_words(line, words),
    ensures
        ({
            let first = rocketchat_first(use_colors, server, user, token, room, operator);
            &&& asks_in_order(first, server, user, token)
            &&& first.0.room_id == room && first.0.operator_id == operator
            &&& first.0.use_colors == use_colors
            &&& text::contains(first.1, "Ralph Rocket.Chat Bot Setup"@)
        }),
        ({
            let step = rocketchat_next(setup, RocketChatEventView::Line(line));
            &&& setup.phase == RocketChatPhase::AskServer ==> asks_in_order(
                step,
                Some(words),
                setup.bot_user_id,
                setup.auth_token,
            )
            &&& setup.phase == RocketChatPhase::AskUser ==> asks_in_order(
                step,
                setup.server_url,
                Some(words),
                setup.auth_token,
            )
            &&& setup.phase == RocketChatPhase::AskToken ==> asks_in_order(
                step,
                setup.server_url,
                setup.bot_user_id,
                Some(words),
            )
            &&& setup.phase == RocketChatPhase::AskServer || setup.phase == RocketChatPhase::AskUser
                || setup.phase == RocketChatPhase::AskToken ==> step.0.room_id == setup.room_id
                && step.0.operator_id == setup.operator_id && step.0.use_colors == setup.use_colors
        }),
{
    text::words_are_trimmed(line, words);
    let title = console::heading(use_colors, TITLE@, RULE@);
    let fresh = RocketChatSetupView {
        use_colors,
        server_url: server,
        bot_user_id: user,
        auth_token: token,
        room_id: room,
        operator_id: operator,
        reported_id: Seq::empty(),
        phase: RocketChatPhase::AskServer,
    };
    asked_in_order(fresh, title);
    console::titles_are_contained(use_colors, TITLE@, RULE@);
    text::in_sum_within(title, ASK_SERVER@, TITLE@);
    text::in_sum_within(title + ASK_SERVER@, SERVER_PROMPT@, TITLE@);
    text::in_sum_within(title, ASK_USER@, TITLE@);
    text::in_sum_within(title + ASK_USER@, USER_PROMPT@, TITLE@);
    text::in_sum_within(title, ASK_TOKEN@, TITLE@);
    text::in_sum_within(title + ASK_TOKEN@, TOKEN_PROMPT@, TITLE@);
    text::in_sum_within(title, CHECKING@, TITLE@);
    asked_in_order(RocketChatSetupView { server_url: Some(words), ..setup }, ""@);
    asked_in_order(RocketChatSetupView { bot_user_id: Some(words), ..setup }, ""@);
    asked_in_order(RocketChatSetupView { auth_token: Some(words), ..setup }, ""@);
}

/// A value that cannot be left out and was left blank is asked for again by its own
/// prompt, with nothing changed. An event that is not awaited changes nothing, prints
/// nothing and does nothing. Credentials that are not valid end the wizard with an error.
pub proof fn blank_values_are_asked_again(
    setup: RocketChatSetupView,
    line: Seq<char>,
    reason: Seq<char>,
    event: RocketChatEventView,
)
    requires
        text::is_blank(line),
    ensures
        ({
            let step = rocketchat_next(setup, RocketChatEventView::Line(line));
            let again = |prompt: Seq<char>|
                step.0 == setup && step.2 is ReadLine && step.1
                    == "  Value cannot be empty. Please try again.\n"@ + prompt;
            &&& setup.phase == RocketChatPhase::AskServer ==> again("  Server URL: "@)
            &&& setup.phase == RocketChatPhase::AskUser ==> again("  Bot user ID: "@)
            &&& setup.phase == RocketChatPhase::AskToken ==> again("  Auth token: "@)
            &&& setup.phase == RocketChatPhase::AskRoom ==> again("  Room ID: "@)
        }),
        setup.phase == RocketChatPhase::CheckUser ==> {
            let step = rocketchat_next(setup, RocketChatEventView::Failed(reason));
            &&& step.0.phase == RocketChatPhase::Over
            &&& step.2 == RocketChatActionView::Fail("Credential validation failed"@)
            &&& text::contains(
                step.1,
                console::error_line(setup.use_colors, "Credential validation failed: "@ + reason)
                    + "\n"@,
            )
        },
        ({
            let awaited = match setup.phase {
                RocketChatPhase::AskServer
                | RocketChatPhase::AskUser
                | RocketChatPhase::AskToken
                | RocketChatPhase::AskRoom
                | RocketChatPhase::AskOperator => event is Line,
                RocketChatPhase::CheckUser => event is UserFound || event is Failed,
                RocketChatPhase::CheckRoom => event is RoomFound || event is Failed,
                RocketChatPhase::Over => false,
                _ => tells_outcome(event),
            };
            let step = rocketchat_next(setup, event);
            &&& !awaited ==> step.0 == setup && step.1.len() == 0 && step.2 is Ignore
            &&& awaited ==> !(step.2 is Ignore)
        }),
{
    reveal_strlit("");
    text::words_are_trimmed(line, line);
    let refused = console::failure(
        setup.use_colors,
        "Credential validation failed: "@ + reason,
    );
    text::in_sum3("\n"@, refused, CREDENTIAL_TROUBLE@);
}

/// The rest of a run, from valid credentials on. The room is the words that are entered, or
/// the one that was given, which is not asked for then; it is looked at, and the setup goes
/// on whatever comes of that. The operator is the words that are entered, none where the
/// line is blank, or the one that was given. The token goes to the keychain; the server,
/// the bot's ID as the server has it, the room and the operator are written to the config
/// file, with the token exactly if the keychain has not taken it; and the test message goes
/// to the room. The wizard ends well however the writing and the sending went.
pub proof fn rocketchat_setup_runs_through(
    setup: RocketChatSetupView,
    server: Seq<char>,
    token: Seq<char>,
    user: UserView,
    room_line: Seq<char>,
    room: Seq<char>,
    looked: RocketChatEventView,
    operator_line: Seq<char>,
    operator: Option<Seq<char>>,
    reason: Seq<char>,
    written: RocketChatEventView,
    sent: RocketChatEventView,
    later: RocketChatEventView,
)
    requires
        setup.phase == RocketChatPhase::CheckUser,
        setup.server_url == Some(server),
        setup.auth_token == Some(token),
        setup.room_id is None ==> text::has_words(room_line, room),
        setup.room_id is Some ==> setup.room_id == Some(room),
        looked is RoomFound || looked is Failed,
        setup.operator_id is None && operator is None ==> text::is_blank(operator_line),
        setup.operator_id is None && operator is Some ==> text::has_words(
            operator_line,
            operator->0,
        ),
        setup.operator_id is Some ==> operator == setup.operator_id,
        tells_outcome(written),
        tells_outcome(sent),
    ensures
        ({
            let valid = rocketchat_next(setup, RocketChatEventView::UserFound(user));
            let entered = rocketchat_next(valid.0, RocketChatEventView::Line(room_line));
            let looking = if setup.room_id is None {
                entered
            } else {
                valid
            };
            let seen = rocketchat_next(looking.0, looked);
            let chosen = rocketchat_next(seen.0, RocketChatEventView::Line(operator_line));
            let storing = if setup.operator_id is None {
                chosen
            } else {
                seen
            };
            let kept = rocketchat_next(storing.0, RocketChatEventView::Done);
            let refused = rocketchat_next(storing.0, RocketChatEventView::Failed(reason));
            let kept_written = rocketchat_next(kept.0, written);
            let refused_written = rocketchat_next(refused.0, written);
            let kept_sent = rocketchat_next(kept_written.0, sent);
            let refused_sent = rocketchat_next(refused_written.0, sent);
            let message = RocketChatActionView::SendMessage(
                room,
                "Ralph bot setup complete! I'm ready to assist during orchestration runs."@,
            );
            &&& setup.room_id is None ==> valid.2 is ReadLine
            &&& looking.2 == RocketChatActionView::CheckRoom(room)
            &&& setup.operator_id is None ==> seen.2 is ReadLine
            &&& storing.2 == RocketChatActionView::StoreToken(token)
            &&& kept.2 == RocketChatActionView::SaveConfig(server, user.id, room, operator, None)
            &&& refused.2 == RocketChatActionView::SaveConfig(
                server,
                user.id,
                room,
                operator,
                Some(token),
            )
            &&& kept_written.2 == message && refused_written.2 == message
            &&& kept_sent.2 is Finish && refused_sent.2 is Finish
            &&& rocketchat_next(kept_sent.0, later).2 is Ignore
        }),
{
    text::words_are_trimmed(room_line, room);
    if operator is Some {
        text::words_are_trimmed(operator_line, operator->0);
    } else {
        text::words_are_trimmed(operator_line, operator_line);
    }
}

proof fn after_nothing(line: Seq<char>)
    ensures
        ""@ + line == line,
{
    reveal_strlit("");
    assert(""@ + line =~= line);
}

/// What the wizard tells of the user and the room: the user by the display name, or else by
/// the username; exactly if the ID that was given is not the server's, that the server's is
/// used; the room by its display name, or else by its name, or else by its ID, and by its
/// type in words; and what could not be looked at, and why.
pub proof fn rocketchat_setup_tells_what_it_found(
    setup: RocketChatSetupView,
    user: UserView,
    room: RoomView,
    reason: Seq<char>,
)
    ensures
        ({
            let c = setup.use_colors;
            let valid = rocketchat_next(setup, RocketChatEventView::UserFound(user)).1;
            let seen = rocketchat_next(setup, RocketChatEventView::RoomFound(room)).1;
            let unseen = rocketchat_next(setup, RocketChatEventView::Failed(reason)).1;
            let differs = console::warn_line(
                c,
                "Provided bot_user_id ("@ + setup.bot_user_id->0
                    + ") differs from server-reported ID ("@ + user.id + "). Using server value."@,
            ) + "\n"@;
            let shown = if room.fname is Some {
                room.fname->0
            } else if room.name is Some {
                room.name->0
            } else {
                setup.room_id->0
            };
            let found = |words: Seq<char>|
                console::ok_line(c, "Room found: "@ + shown + " ("@ + words + ")"@) + "\n"@;
            &&& setup.phase == RocketChatPhase::CheckUser ==> text::contains(
                valid,
                console::ok_line(
                    c,
                    "Credentials valid! Bot: "@ + (if user.name is Some {
                        user.name->0
                    } else {
                        user.username
                    }) + " (@"@ + user.username + ")"@,
                ) + "\n"@,
            )
            &&& setup.phase == RocketChatPhase::CheckUser && setup.bot_user_id is Some
                && setup.bot_user_id != Some(user.id) ==> text::contains(valid, differs)
            &&& setup.phase == RocketChatPhase::CheckUser && setup.bot_user_id == Some(user.id)
                && setup.room_id is Some ==> valid == "\n"@ + (console::ok_line(
                c,
                "Credentials valid! Bot: "@ + (if user.name is Some {
                    user.name->0
                } else {
                    user.username
                }) + " (@"@ + user.username + ")"@,
            ) + "\n"@) + "  Checking room..."@
            &&& setup.phase == RocketChatPhase::CheckRoom && setup.room_id is Some ==> {
                &&& room.t == "c"@ ==> text::contains(seen, found("channel"@))
                &&& room.t == "p"@ ==> text::contains(seen, found("private group"@))
                &&& room.t == "d"@ ==> text::contains(seen, found("direct message"@))
                &&& room.t != "c"@ && room.t != "p"@ && room.t != "d"@ ==> text::contains(
                    seen,
                    found(room.t),
                )
            }
            &&& setup.phase == RocketChatPhase::CheckRoom ==> text::contains(
                unseen,
                console::warn_line(c, "Could not validate room: "@ + reason) + "\n"@,
            )
        }),
{
    reveal_strlit("c");
    reveal_strlit("p");
    reveal_strlit("d");
    assert("c"@[0] == 'c' && "p"@[0] == 'p' && "d"@[0] == 'd');
    let c = setup.use_colors;
    let line = console::success(
        c,
        "Credentials valid! Bot: "@ + shown_name(user) + " (@"@ + user.username + ")"@,
    );
    let found = "\n"@ + line;
    text::in_sum2("\n"@, line);
    let differs = console::warning(
        c,
        "Provided bot_user_id ("@ + known(setup.bot_user_id)
            + ") differs from server-reported ID ("@ + user.id + "). Using server value."@,
    );
    text::in_sum2(found, differs);
    text::in_sum_within(found, differs, line);
    let told = user_lines(setup, user);
    text::in_sum_within(told, CHECKING_ROOM@, line);
    text::in_sum_within(told, CHECKING_ROOM@, differs);
    text::in_sum_within(told, ASK_ROOM@, line);
    text::in_sum_within(told, ASK_ROOM@, differs);
    text::in_sum_within(told + ASK_ROOM@, ROOM_PROMPT@, line);
    text::in_sum_within(told + ASK_ROOM@, ROOM_PROMPT@, differs);
    let room_line = console::success(
        c,
        "Room found: "@ + shown_room(room, known(setup.room_id)) + " ("@ + room_type(room.t) + ")"@,
    );
    let seen = "\n"@ + room_line;
    text::in_sum2("\n"@, room_line);
    text::in_sum_within(seen, SAVING@, room_line);
    text::in_sum_within(seen, ASK_OPERATOR@, room_line);
    text::in_sum_within(seen + ASK_OPERATOR@, OPERATOR_PROMPT@, room_line);
    let sorry = console::warning(c, "Could not validate room: "@ + reason);
    let unseen = "\n"@ + sorry + "    The bot may not have access. Setup will continue.\n"@;
    text::in_sum3("\n"@, sorry, "    The bot may not have access. Setup will continue.\n"@);
    text::in_sum_within(unseen, SAVING@, sorry);
    text::in_sum_within(unseen, ASK_OPERATOR@, sorry);
    text::in_sum_within(unseen + ASK_OPERATOR@, OPERATOR_PROMPT@, sorry);
}

/// What the wizard tells of saving and sending: what was stored and written, and what was
/// not and why, with the section to add by hand; and at its end that the setup is complete.
pub proof fn rocketchat_setup_tells_each_step(
    setup: RocketChatSetupView,
    server: Seq<char>,
    room: Seq<char>,
    reason: Seq<char>,
)
    requires
        setup.server_url == Some(server),
        setup.room_id == Some(room),
    ensures
        ({
            let c = setup.use_colors;
            let done = rocketchat_next(setup, RocketChatEventView::Done).1;
            let failed = rocketchat_next(setup, RocketChatEventView::Failed(reason)).1;
            let section =
                "    Add manually:\n      RObot:\n        enabled: true\n        rocketchat:\n          server_url: "@
                + server + "\n          bot_user_id: "@ + setup.reported_id
                + "\n          room_id: "@ + room + "\n"@;
            let whole = match setup.operator_id {
                Some(operator) => section + "        operator_id: "@ + operator + "\n"@,
                None => section,
            };
            &&& setup.phase == RocketChatPhase::StoreToken ==> done == console::ok_line(
                c,
                "Auth token stored in OS keychain (ralph/rocketchat-auth-token)"@,
            ) + "\n"@
            &&& setup.phase == RocketChatPhase::StoreToken ==> failed == console::warn_line(
                c,
                "Could not store token in keychain: "@ + reason,
            ) + "\n"@ + "    Set RALPH_ROCKETCHAT_AUTH_TOKEN env var instead.\n"@
            &&& setup.phase == RocketChatPhase::SaveConfig ==> done == console::ok_line(
                c,
                "Updated ralph.yml (RObot.rocketchat configured)"@,
            ) + "\n"@ + "\nStep 8: Verify\n"@
            &&& setup.phase == RocketChatPhase::SaveConfig ==> failed == console::warn_line(
                c,
                "Could not update ralph.yml: "@ + reason,
            ) + "\n"@ + whole + "\nStep 8: Verify\n"@
            &&& setup.phase == RocketChatPhase::SendTest ==> done == console::ok_line(
                c,
                "Test message sent to your Rocket.Chat room!"@,
            ) + "\n"@ + console::setup_complete(c, "Rocket.Chat"@)
            &&& setup.phase == RocketChatPhase::SendTest ==> failed == console::warn_line(
                c,
                "Could not send test message: "@ + reason,
            ) + "\n"@ + "    Setup saved. Verify later with: ralph bot test\n"@
                + console::setup_complete(c, "Rocket.Chat"@)
        }),
{
    let c = setup.use_colors;
    after_nothing(
        console::success(c, "Auth token stored in OS keychain (ralph/rocketchat-auth-token)"@),
    );
    after_nothing(console::warning(c, "Could not store token in keychain: "@ + reason));
    after_nothing(console::success(c, "Updated ralph.yml (RObot.rocketchat configured)"@));
    after_nothing(console::warning(c, "Could not update ralph.yml: "@ + reason));
    after_nothing(console::success(c, "Test message sent to your Rocket.Chat room!"@));
    after_nothing(console::warning(c, "Could not send test message: "@ + reason));
}

} // verus!
