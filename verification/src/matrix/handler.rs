//! What becomes of an incoming Matrix message: a bot command is answered, and
//! anything else is recorded as an event of the loop that it is for.

use super::error::{MatrixError, MatrixResult};
use super::state::{MatrixState, StateManager};
use super::types::MatrixMessage;
use super::state;
use crate::clock::utc_now;
use crate::json::{self, JsonTree};
use crate::lists::borrow_text;
use crate::place::Location;
use crate::{events, lists, routing, text};
use std::path::PathBuf;
use vstd::prelude::*;

verus! {

/// Result of handling a message.
#[derive(Debug, PartialEq)]
pub enum HandleResult {
    /// An event was written to the events file (topic name).
    Event(String),
    /// A bot command was recognized; the response should be sent back to the room.
    CommandResponse(String),
}

/// An event that is to be appended to the events file of a loop.
#[derive(Debug)]
pub struct EventRecord {
    /// The loop that the message is for.
    pub target_loop: String,
    /// The pending question that the message answers, by its event ID.
    pub answered: Option<String>,
    /// The topic of the event.
    pub topic: String,
    /// The line to append.
    pub line: String,
}

/// What is to be done about a message.
#[derive(Debug)]
pub enum Handling {
    /// Send the response to a bot command back to the room.
    Respond(String),
    /// Append an event.
    Record(EventRecord),
}

/// Decides what becomes of incoming Matrix messages.
pub struct MessageHandler {
    state_manager: StateManager,
    workspace_root: PathBuf,
}

/// The loop that a message is for.
pub open spec fn message_loop(
    pending: state::Pending,
    reply_to: Option<Seq<char>>,
    body: Seq<char>,
) -> Seq<char> {
    routing::target_loop(
        match reply_to {
            Some(event_id) => state::reply_loop(pending, event_id),
            None => None,
        },
        body,
    )
}

/// The bot command that a message is: its text without the whitespace around it,
/// if that begins with `!`.
pub open spec fn command_in(body: Seq<char>) -> Option<Seq<char>> {
    let words = text::trimmed(body);
    if words.len() > 0 && words[0] == '!' {
        Some(words)
    } else {
        None
    }
}

/// Whether a record is that of a message: for the loop that the message is for,
/// answering a pending question of that loop if it has one, as a response then
/// and as guidance else, with the whole message as its payload.
pub open spec fn is_record_of(
    record: EventRecord,
    pending: state::Pending,
    message: MatrixMessage,
    ts: Seq<char>,
) -> bool {
    &&& record.target_loop@ == message_loop(
        pending,
        lists::text_in(message.reply_to_event_id),
        message.body@,
    )
    &&& state::is_pending_of(pending, record.target_loop@, lists::text_in(record.answered))
    &&& record.topic@ == events::topic_of(record.answered is Some)
    &&& events::is_event_line(record.line@, record.topic@, message.body@, ts)
}

/// The pending questions after a record was written.
pub open spec fn pending_after(
    pending: state::Pending,
    answered: Option<Seq<char>>,
) -> state::Pending {
    match answered {
        Some(event_id) => pending.remove(event_id),
        None => pending,
    }
}

impl MessageHandler {
    /// The place of the state file.
    pub closed spec fn state_place(&self) -> Location {
        self.state_manager.place()
    }

    /// The workspace root.
    pub closed spec fn root(&self) -> PathBuf {
        self.workspace_root
    }

    /// A message handler rooted at the given workspace.
    pub fn new(state_manager: StateManager, workspace_root: PathBuf) -> (r: Self)
        ensures
            r.state_place() == state_manager.place(),
            r.root() == workspace_root,
    {
        MessageHandler { state_manager, workspace_root }
    }

    /// The bot command that a message is, if it begins with `!`.
    pub fn command_text<'a>(&self, message: &'a MatrixMessage) -> (r: Option<&'a str>)
        ensures
            lists::chars_in(r) == command_in(message.body@),
    {
        let words = text::trim(&message.body);
        if text::starts_with_char(words, '!') {
            Some(words)
        } else {
            None
        }
    }

    /// Decides what becomes of a message that came in now.
    ///
    /// `command_response` is the answer to the command that the message is; `None`
    /// if it is not a known one. A message that is no known command is recorded as
    /// an event: the caller appends the line to the events file of the target loop
    /// and calls [`MessageHandler::finish_message`] with the outcome.
    pub fn handle_message(
        &self,
        state: &MatrixState,
        message: &MatrixMessage,
        command_response: Option<String>,
    ) -> (r: Handling)
        ensures
            match r {
                Handling::Respond(response) => command_in(message.body@) is Some
                    && command_response == Some(response),
                Handling::Record(record) => (command_in(message.body@) is None
                    || command_response is None) && exists|ts: Seq<char>|
                    is_record_of(record, state.pending_questions@, *message, ts),
            },
    {
        let ts = utc_now();
        self.handle_message_at(state, message, command_response, &ts)
    }

    /// Decides what becomes of a message that came in at a given time.
    pub fn handle_message_at(
        &self,
        state: &MatrixState,
        message: &MatrixMessage,
        command_response: Option<String>,
        ts: &str,
    ) -> (r: Handling)
        ensures
            match r {
                Handling::Respond(response) => command_in(message.body@) is Some
                    && command_response == Some(response),
                Handling::Record(record) => (command_in(message.body@) is None
                    || command_response is None) && is_record_of(
                    record,
                    state.pending_questions@,
                    *message,
                    ts@,
                ),
            },
    {
        match (self.command_text(message), command_response) {
            (Some(_), Some(response)) => Handling::Respond(response),
            _ => {
                let target_loop = self.determine_target_loop(
                    state,
                    borrow_text(&message.reply_to_event_id),
                    &message.body,
                );
                let answered = self.state_manager.pending_of_loop(state, &target_loop);
                let topic = events::topic(answered.is_some());
                let line = events::event_line(&topic, &message.body, ts);
                Handling::Record(EventRecord { target_loop, answered, topic, line })
            },
        }
    }

    /// Ends the handling of a message once its record was written, or could not
    /// be. A written answer removes the question that it answers; the caller
    /// saves the state.
    pub fn finish_message(
        &self,
        state: &mut MatrixState,
        record: EventRecord,
        written: MatrixResult<()>,
    ) -> (r: MatrixResult<HandleResult>)
        ensures
            match written {
                Ok(_) => r == Ok::<HandleResult, MatrixError>(HandleResult::Event(record.topic)),
                Err(error) => r == Err::<HandleResult, MatrixError>(error),
            },
            final(state).pending_questions@ == (if written is Ok {
                pending_after(old(state).pending_questions@, lists::text_in(record.answered))
            } else {
                old(state).pending_questions@
            }),
            final(state).since_token == old(state).since_token,
            final(state).room_id == old(state).room_id,
    {
        match written {
            Ok(_) => {
                match &record.answered {
                    Some(event_id) => self.state_manager.remove_pending_question(state, event_id),
                    None => {},
                }
                Ok(HandleResult::Event(record.topic))
            },
            Err(error) => Err(error),
        }
    }

    /// Determines which loop a message is targeted at.
    ///
    /// Priority:
    /// 1. `reply_to_event_id` match: the loop of the pending question
    /// 2. `@loop-id` prefix in the message text
    /// 3. "main"
    pub fn determine_target_loop(
        &self,
        state: &MatrixState,
        reply_to_event_id: Option<&str>,
        message: &str,
    ) -> (r: String)
        ensures
            r@ == message_loop(
                state.pending_questions@,
                lists::chars_in(reply_to_event_id),
                message@,
            ),
    {
        let replied: Option<String> = match reply_to_event_id {
            Some(event_id) => self.state_manager.get_loop_for_reply(state, event_id),
            None => None,
        };
        routing::route(replied, message)
    }

    /// The file that names the current events file of a loop.
    pub fn get_marker_path(&self, loop_id: &str) -> (r: Location)
        ensures
            r.base == self.root(),
            r.part_texts() == routing::marker_parts(loop_id@),
    {
        routing::marker_location(&self.workspace_root, loop_id)
    }

    /// The active events file of a loop, given the contents of the marker file if
    /// that can be read.
    pub fn get_events_path(&self, loop_id: &str, marker: Option<&str>) -> (r: Location)
        ensures
            r.base == self.root(),
            r.part_texts() == routing::events_parts(loop_id@, lists::chars_in(marker)),
    {
        routing::events_location(&self.workspace_root, loop_id, marker)
    }
}

/// An answer reaches the loop that asked: its record is read back as a response
/// with the operator's words, its question is no longer pending, and every other
/// question still is.
pub proof fn answer_reaches_the_asking_loop(
    record: EventRecord,
    pending: state::Pending,
    message: MatrixMessage,
    ts: Seq<char>,
)
    requires
        is_record_of(record, pending, message, ts),
        record.answered is Some,
    ensures
        events::line_response(record.line@) == Some(message.body@),
        !pending_after(pending, lists::text_in(record.answered)).dom().contains(
            record.answered->0@,
        ),
        pending[record.answered->0@].is_of(record.target_loop@),
        forall|other: Seq<char>|
            other != record.answered->0@ && pending.dom().contains(other) ==> #[trigger]
            pending_after(pending, lists::text_in(record.answered)).dom().contains(other),
{
    events::recorded_response_is_read_back(record.line@, message.body@, ts);
}

/// A message for a loop without a pending question is guidance, and leaves every
/// question pending.
pub proof fn guidance_answers_nothing(
    record: EventRecord,
    pending: state::Pending,
    message: MatrixMessage,
    ts: Seq<char>,
)
    requires
        is_record_of(record, pending, message, ts),
        state::is_pending_of(pending, record.target_loop@, None),
    ensures
        record.topic@ == events::GUIDANCE_TOPIC@,
        pending_after(pending, lists::text_in(record.answered)) == pending,
{
}

/// A reply to a question goes to the loop that asked it, whatever the text begins
/// with, and is read there as a response with the operator's words.
pub proof fn replies_are_responses(
    record: EventRecord,
    pending: state::Pending,
    message: MatrixMessage,
    ts: Seq<char>,
    loop_id: Seq<char>,
)
    requires
        is_record_of(record, pending, message, ts),
        message.reply_to_event_id matches Some(event_id) && pending.dom().contains(event_id@)
            && pending[event_id@].is_of(loop_id),
    ensures
        record.target_loop@ == loop_id,
        record.topic@ == events::RESPONSE_TOPIC@,
        events::line_response(record.line@) == Some(message.body@),
{
    let event_id = message.reply_to_event_id->0@;
    assert(pending.dom().contains(event_id));
    answer_reaches_the_asking_loop(record, pending, message, ts);
}

/// What becomes of a message that came in at a given time. Words that begin with `!` and
/// have an answer are answered with it, and nothing is recorded. Anything else is
/// recorded: with the whole message, word for word, and its time, as `human.response`
/// exactly if a question of the loop that it is for is pending, which it then answers, and
/// as `human.guidance` else.
pub proof fn messages_are_answered_or_recorded(
    handler: &MessageHandler,
    state: &MatrixState,
    message: &MatrixMessage,
    response: Option<String>,
    ts: &str,
    before: Seq<char>,
    words: Seq<char>,
    after: Seq<char>,
    key: Seq<char>,
    r: Handling,
)
    requires
        call_ensures(MessageHandler::handle_message_at, (handler, state, message, response, ts), r),
        message.body@ == before + words + after,
        text::is_blank(before),
        text::is_blank(after),
        words.len() > 0 ==> !text::is_whitespace(words[0]) && !text::is_whitespace(words.last()),
    ensures
        words.len() > 0 && words[0] == '!' && response is Some ==> r == Handling::Respond(
            response->0,
        ),
        !(words.len() > 0 && words[0] == '!' && response is Some) ==> r is Record,
        r matches Handling::Record(record) ==> {
            let pending = state.pending_questions@;
            let event = json::json_parsed(record.line@)->0;
            &&& json::json_parsed(record.line@) is Some
            &&& event.entry("payload"@) == Some(JsonTree::Text(message.body@))
            &&& event.entry("ts"@) == Some(JsonTree::Text(ts@))
            &&& event.entry("topic"@) == Some(JsonTree::Text(record.topic@))
            &&& record.answered is Some ==> record.topic@ == "human.response"@
            &&& record.answered is None ==> record.topic@ == "human.guidance"@
            &&& record.answered matches Some(id) ==> pending.dom().contains(id@)
                && pending[id@].loop_id is Some && pending[id@].loop_id->0@ == record.target_loop@
            &&& record.answered is None && pending.dom().contains(key) && pending[key].loop_id is Some
                ==> pending[key].loop_id->0@ != record.target_loop@
        },
{
    text::trimming_leaves_the_words(before, words, after);
    reveal_strlit("topic");
    reveal_strlit("payload");
    reveal_strlit("ts");
    assert("topic"@.len() == 5);
    assert("payload"@.len() == 7);
    assert("ts"@.len() == 2);
}

/// The loop that a message is for: that of the pending question that it replies to, where
/// that is known; else the one that it names behind `@`; else `main`.
pub proof fn messages_find_their_loop(
    handler: &MessageHandler,
    state: &MatrixState,
    reply_to: Option<&str>,
    message: &str,
    loop_id: Seq<char>,
    rest: Seq<char>,
    r: String,
)
    requires
        call_ensures(MessageHandler::determine_target_loop, (handler, state, reply_to, message), r),
        text::is_solid(loop_id),
        loop_id.len() > 0,
        rest.len() > 0 ==> text::is_whitespace(rest[0]),
    ensures
        ({
            let pending = state.pending_questions@;
            let asked = reply_to is Some && pending.dom().contains(reply_to->0@)
                && pending[reply_to->0@].loop_id is Some;
            &&& asked ==> r@ == pending[reply_to->0@].loop_id->0@
            &&& !asked && message@ == seq!['@'] + loop_id + rest ==> r@ == loop_id
            &&& !asked && (message@.len() == 0 || message@[0] != '@') ==> r@ == "main"@
        }),
{
    let other = if message@.len() == 0 || message@[0] != '@' {
        message@
    } else {
        Seq::empty()
    };
    routing::prefixes_name_their_loop(Seq::empty(), loop_id, rest, other, loop_id);
}

/// A written answer removes exactly the question that it answers, and guidance none.
pub proof fn answers_settle_their_question(
    pending: state::Pending,
    answered: Option<Seq<char>>,
    key: Seq<char>,
)
    ensures
        pending_after(pending, answered).dom().contains(key) <==> pending.dom().contains(key)
            && answered != Some(key),
        pending_after(pending, answered).dom().contains(key) ==> pending_after(
            pending,
            answered,
        )[key] == pending[key],
{
}

/// Once a record was written the handling ends with its topic, and exactly the question
/// that it answers is no longer pending. A record that could not be written changes
/// nothing, and the handling ends with the error.
pub proof fn only_written_answers_settle(
    handler: &MessageHandler,
    before: MatrixState,
    after: MatrixState,
    record: EventRecord,
    written: MatrixResult<()>,
    key: Seq<char>,
    r: MatrixResult<HandleResult>,
)
    requires
        exists|state: &mut MatrixState|
            *state == before && *final(state) == after && #[trigger] call_ensures(
                MessageHandler::finish_message,
                (handler, state, record, written),
                r,
            ),
    ensures
        written is Ok ==> r == Ok::<HandleResult, MatrixError>(HandleResult::Event(record.topic)),
        written matches Err(error) ==> r == Err::<HandleResult, MatrixError>(error),
        ({
            let settled = written is Ok && record.answered is Some && record.answered->0@ == key;
            let x = before.pending_questions@;
            let y = after.pending_questions@;
            &&& y.dom().contains(key) <==> x.dom().contains(key) && !settled
            &&& y.dom().contains(key) ==> y[key] == x[key]
        }),
        after.since_token == before.since_token,
        after.room_id == before.room_id,
{
}

} // verus!
