//! The Matrix side of the daemon.

use super::types::{self, MatrixMessage, SyncResult};
use crate::lists::{self, borrow_text};
use crate::place;
use crate::text;
use vstd::prelude::*;

verus! {

/// How long a sync of the idle daemon waits for messages, in seconds.
pub const IDLE_SYNC_SECS: u64 = 30;

/// How long the sync after a loop waits for messages, in seconds.
pub const SETTLE_SYNC_SECS: u64 = 1;

/// The name that the bot is taken to have where the homeserver does not tell.
pub const DEFAULT_BOT_NAME: &'static str = "Ralph Bot";

/// A Matrix-based daemon adapter.
#[derive(Debug)]
pub struct MatrixDaemon {
    /// Base URL of the Matrix homeserver.
    pub homeserver_url: String,
    /// Access token for authentication.
    pub access_token: String,
    /// The room to communicate in.
    pub room_id: String,
    /// Operator user ID for filtering messages in group chats.
    pub operator_id: Option<String>,
}

/// The texts of messages.
pub open spec fn bodies(messages: Seq<MatrixMessage>) -> Seq<Seq<char>> {
    messages.map_values(|m: MatrixMessage| m.body@)
}

/// The messages that the idle daemon looks at: those whose sender ID does not
/// contain the display name of the bot, and with an operator set only the
/// operator's.
pub open spec fn heard(
    messages: Seq<MatrixMessage>,
    bot_name: Seq<char>,
    operator: Option<Seq<char>>,
) -> Seq<MatrixMessage> {
    types::by_operator(types::not_named(messages, bot_name), operator)
}

impl MatrixDaemon {
    /// A Matrix daemon.
    ///
    /// * `homeserver_url` — Base URL of the Matrix homeserver (e.g., `https://matrix.example.com`).
    /// * `access_token` — Access token for authentication.
    /// * `room_id` — The room to communicate in (e.g., `!abc:example.com`).
    /// * `operator_id` — Optional operator user ID for filtering messages in group chats.
    pub fn new(
        homeserver_url: String,
        access_token: String,
        room_id: String,
        operator_id: Option<String>,
    ) -> (r: Self)
        ensures
            r == (MatrixDaemon { homeserver_url, access_token, room_id, operator_id }),
    {
        MatrixDaemon { homeserver_url, access_token, room_id, operator_id }
    }

    /// The error of a daemon that cannot log in.
    pub fn login_failure(cause: &str) -> (r: String)
        ensures
            r@ == "Matrix login failed: "@ + cause@,
    {
        text::cat2("Matrix login failed: ", cause)
    }

    /// The error of a daemon that cannot enter its room.
    pub fn room_failure(cause: &str) -> (r: String)
        ensures
            r@ == "Matrix initial sync/join failed: "@ + cause@,
    {
        text::cat2("Matrix initial sync/join failed: ", cause)
    }

    /// The display name of the bot. The idle daemon leaves out the messages of
    /// senders whose ID contains it.
    pub fn bot_name(display_name: Option<String>) -> (r: String)
        ensures
            r@ == (match display_name {
                Some(name) => name@,
                None => DEFAULT_BOT_NAME@,
            }),
    {
        match display_name {
            Some(name) => name,
            None => String::from_str(DEFAULT_BOT_NAME),
        }
    }

    /// The texts of the messages of a sync that the idle daemon looks at.
    pub fn idle_messages(&self, result: SyncResult, bot_name: &str) -> (r: Vec<String>)
        ensures
            place::texts(r@) == bodies(
                heard(result.messages@, bot_name@, lists::text_in(self.operator_id)),
            ),
    {
        let others = types::drop_named(&result.messages, bot_name);
        let messages = types::keep_operator(others, borrow_text(&self.operator_id));
        let mut out: Vec<String> = Vec::new();
        let mut i: usize = 0;
        while i < messages.len()
            invariant
                i <= messages@.len(),
                out@.len() == i,
                forall|j: int| 0 <= j < i ==> (#[trigger] out@[j])@ == messages@[j].body@,
            decreases messages@.len() - i,
        {
            out.push(messages[i].body.clone());
            i = i + 1;
        }
        assert(place::texts(out@) =~= bodies(messages@));
        out
    }
}

/// The idle daemon looks at messages one by one and in order: at one exactly if the ID of
/// its sender does not contain the bot's name and, where an operator is set, it is the
/// operator. It sees the whole text.
pub proof fn idle_daemon_hears_in_order(
    a: Seq<MatrixMessage>,
    b: Seq<MatrixMessage>,
    m: MatrixMessage,
    bot_name: Seq<char>,
    operator: Option<Seq<char>>,
)
    ensures
        heard(a + b, bot_name, operator) == heard(a, bot_name, operator) + heard(
            b,
            bot_name,
            operator,
        ),
        heard(seq![m], bot_name, operator) == (if !text::contains(m.sender_id@, bot_name) && (
        operator is None || m.sender_id@ == operator->0) {
            seq![m]
        } else {
            Seq::empty()
        }),
        bodies(seq![m]) == seq![m.body@],
        bodies(a + b) == bodies(a) + bodies(b),
{
    let name = bot_name;
    types::messages_stay_in_order(a, b, m, name);
    match operator {
        Some(id) => {
            types::messages_stay_in_order(
                types::not_named(a, name),
                types::not_named(b, name),
                m,
                id,
            );
            lists::filter_adds(Seq::empty(), Seq::empty(), m, types::sent_by(id));
        },
        None => {},
    }
    assert(bodies(seq![m]) =~= seq![m.body@]);
    assert(bodies(a + b) =~= bodies(a) + bodies(b));
}

/// The daemon's words for what failed, and for a bot whose name is not known.
pub proof fn daemon_words(cause: &str, name: String, login: String, room: String, known: String, unknown: String)
    requires
        call_ensures(MatrixDaemon::login_failure, (cause,), login),
        call_ensures(MatrixDaemon::room_failure, (cause,), room),
        call_ensures(MatrixDaemon::bot_name, (Some(name),), known),
        call_ensures(MatrixDaemon::bot_name, (None::<String>,), unknown),
    ensures
        login@ == "Matrix login failed: "@ + cause@,
        room@ == "Matrix initial sync/join failed: "@ + cause@,
        known@ == name@,
        unknown@ == "Ralph Bot"@,
{
}

} // verus!
