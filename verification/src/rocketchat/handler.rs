//! What becomes of an incoming Rocket.Chat message: a system message is dropped, a
//! slash command is answered, and anything else is recorded as an event of the
//! loop that it is for.

use super::error::{RocketChatError, RocketChatResult};
use super::state;
use super::state::{RocketChatState, StateManager};
use super::types::RcMessage;
use crate::clock::utc_now;
use crate::json::{self, JsonTree};
use crate::lists::borrow_text;
use crate::place::Location;
use crate::{events, lists, routing, text};
use std::path::PathBuf;
use vstd::prelude::*;

verus! {

/// An event that is to be appended to the events file of a loop.
#[derive(Debug)]
pub struct EventRecord {
    /// The loop that the message is for.
    pub target_loop: String,
    /// Whether the message answers the pending question of that loop.
    pub is_response: bool,
    /// The topic of the event.
    pub topic: String,
    /// The line to append.
    pub line: String,
}

/// What is to be done about a message.
#[derive(Debug)]
pub enum Handling {
    /// Nothing: it is a system message.
    Drop,
    /// Send the response to a slash command back to the room.
    Respond(String),
    /// Append an event.
    Record(EventRecord),
}

/// Decides what becomes of incoming Rocket.Chat messages.
pub struct MessageHandler {
    state_manager: StateManager,
    workspace_root: PathBuf,
}

/// Whether `found` is the loop that a thread belongs to.
pub open spec fn is_thread_loop(
    pending: state::Pending,
    tmid: Option<Seq<char>>,
    found: Option<Seq<char>>,
) -> bool {
    match tmid {
        Some(thread) => state::is_reply_loop(pending, thread, found),
        None => found is None,
    }
}

/// Whether a loop is one that a message is for.
pub open spec fn is_message_loop(
    target: Seq<char>,
    pending: state::Pending,
    message: Seq<char>,
    tmid: Option<Seq<char>>,
) -> bool {
    exists|found: Option<Seq<char>>| #[trigger]
        is_thread_loop(pending, tmid, found) && target == routing::target_loop(found, message)
}

/// Whether a record is that of a message: for the loop that the message is for,
/// as a response if that loop has a pending question and as guidance else, with
/// the whole message as its payload.
pub open spec fn is_record_of(
    record: EventRecord,
    pending: state::Pending,
    message: RcMessage,
    ts: Seq<char>,
) -> bool {
    &&& is_message_loop(record.target_loop@, pending, message.msg@, lists::text_in(message.tmid))
    &&& record.is_response == pending.dom().contains(record.target_loop@)
    &&& record.topic@ == events::topic_of(record.is_response)
    &&& events::is_event_line(record.line@, record.topic@, message.msg@, ts)
}

/// The slash command that a message is: its text without the whitespace around
/// it, if that begins with `/`. A system message is none.
pub open spec fn command_in(message: RcMessage) -> Option<Seq<char>> {
    let words = text::trimmed(message.msg@);
    if message.t is None && words.len() > 0 && words[0] == '/' {
        Some(words)
    } else {
        None
    }
}

/// Whether a handling is that of a message, given the answer to the command that
/// it is, which is `None` if it is not a known one: a system message is dropped,
/// a known command is answered, and anything else is recorded.
pub open spec fn is_handling_of(
    handling: Handling,
    pending: state::Pending,
    message: RcMessage,
    command_response: Option<String>,
    ts: Seq<char>,
) -> bool {
    match handling {
        Handling::Drop => message.t is Some,
        Handling::Respond(response) => command_in(message) is Some && command_response == Some(
            response,
        ),
        Handling::Record(record) => message.t is None && (command_in(message) is None
            || command_response is None) && is_record_of(record, pending, message, ts),
    }
}

impl MessageHandler {
    /// The place of the state file.
    pub closed spec fn state_place(&self) -> Location {
        self.state_manager.place()
    }

    /// The workspace root.
    pub closed spec fn root(&self) -> PathBuf {
        self.workspace_root
    }

    /// A message handler rooted at the given workspace.
    pub fn new(state_manager: StateManager, workspace_root: PathBuf) -> (r: Self)
        ensures
            r.state_place() == state_manager.place(),
            r.root() == workspace_root,
    {
        MessageHandler { state_manager, workspace_root }
    }

    /// The slash command that a message is, if it begins with `/`. A system message
    /// is none.
    pub fn command_text<'a>(&self, message: &'a RcMessage) -> (r: Option<&'a str>)
        ensures
            lists::chars_in(r) == command_in(*message),
    {
        let words = text::trim(&message.msg);
        if message.t.is_none() && text::starts_with_char(words, '/') {
            Some(words)
        } else {
            None
        }
    }

    /// Decides what becomes of a message that came in now.
    ///
    /// `command_response` is the answer to the command that the message is; `None`
    /// if it is not a known one. System messages are dropped. A message that is no
    /// known command is recorded as an event: the caller appends the line to the
    /// events file of the target loop and calls [`MessageHandler::finish_message`]
    /// with the outcome.
    pub fn handle_message(
        &self,
        state: &RocketChatState,
        message: &RcMessage,
        command_response: Option<String>,
    ) -> (r: Handling)
        ensures
            exists|ts: Seq<char>|
                is_handling_of(r, state.pending_questions@, *message, command_response, ts),
    {
        let ts = utc_now();
        let r = self.handle_message_at(state, message, command_response, &ts);
        assert(is_handling_of(r, state.pending_questions@, *message, command_response, ts@));
        r
    }

    /// Decides what becomes of a message that came in at a given time.
    pub fn handle_message_at(
        &self,
        state: &RocketChatState,
        message: &RcMessage,
        command_response: Option<String>,
        ts: &str,
    ) -> (r: Handling)
        ensures
            is_handling_of(r, state.pending_questions@, *message, command_response, ts@),
    {
        if message.t.is_some() {
            return Handling::Drop;
        }
        match (self.command_text(message), command_response) {
            (Some(_), Some(response)) => Handling::Respond(response),
            _ => {
                let target_loop = self.determine_target_loop(
                    state,
                    &message.msg,
                    borrow_text(&message.tmid),
                );
                let is_response: bool = state.pending_questions.contains_key(&target_loop);
                let topic = events::topic(is_response);
                let line = events::event_line(&topic, &message.msg, ts);
                Handling::Record(EventRecord { target_loop, is_response, topic, line })
            },
        }
    }

    /// Ends the handling of a message once its record was written, or could not
    /// be. A written answer removes the question that it answers; the caller
    /// saves the state.
    ///
    /// Returns the event topic that was written (`"human.response"` or
    /// `"human.guidance"`).
    pub fn finish_message(
        &self,
        state: &mut RocketChatState,
        record: EventRecord,
        written: RocketChatResult<()>,
    ) -> (r: RocketChatResult<String>)
        ensures
            match written {
                Ok(_) => r == Ok::<String, RocketChatError>(record.topic),
                Err(error) => r == Err::<String, RocketChatError>(error),
            },
            final(state).pending_questions@ == (if written is Ok && record.is_response {
                old(state).pending_questions@.remove(record.target_loop@)
            } else {
                old(state).pending_questions@
            }),
            final(state).last_sync == old(state).last_sync,
    {
        match written {
            Ok(_) => {
                if record.is_response {
                    self.state_manager.remove_pending_question(state, &record.target_loop);
                }
                Ok(record.topic)
            },
            Err(error) => Err(error),
        }
    }

    /// Determines which loop a message is targeted at.
    ///
    /// Priority:
    /// 1. `tmid` thread match: the loop of the pending question
    /// 2. `@loop-id` prefix in the message text
    /// 3. "main"
    pub fn determine_target_loop(
        &self,
        state: &RocketChatState,
        message: &str,
        tmid: Option<&str>,
    ) -> (r: String)
        ensures
            is_message_loop(r@, state.pending_questions@, message@, lists::chars_in(tmid)),
    {
        let replied: Option<String> = match tmid {
            Some(thread) => self.state_manager.get_loop_for_reply(state, thread),
            None => None,
        };
        assert(is_thread_loop(
            state.pending_questions@,
            lists::chars_in(tmid),
            lists::text_in(replied),
        ));
        routing::route(replied, message)
    }

    /// The file that names the current events file of a loop.
    pub fn get_marker_path(&self, loop_id: &str) -> (r: Location)
        ensures
            r.base == self.root(),
            r.part_texts() == routing::marker_parts(loop_id@),
    {
        routing::marker_location(&self.workspace_root, loop_id)
    }

    /// The active events file of a loop, given the contents of the marker file if
    /// that can be read.
    pub fn get_events_path(&self, loop_id: &str, marker: Option<&str>) -> (r: Location)
        ensures
            r.base == self.root(),
            r.part_texts() == routing::events_parts(loop_id@, lists::chars_in(marker)),
    {
        routing::events_location(&self.workspace_root, loop_id, marker)
    }
}

/// Nothing is recorded of a system message, whatever it says and whatever is
/// pending, and it is not answered either.
pub proof fn system_messages_are_dropped(
    handling: Handling,
    pending: state::Pending,
    message: RcMessage,
    command_response: Option<String>,
    ts: Seq<char>,
)
    requires
        is_handling_of(handling, pending, message, command_response, ts),
    ensures
        handling == Handling::Drop <==> message.t is Some,
{
}

/// A known slash command is answered and not recorded.
pub proof fn known_commands_are_answered(
    handling: Handling,
    pending: state::Pending,
    message: RcMessage,
    command_response: Option<String>,
    ts: Seq<char>,
)
    requires
        is_handling_of(handling, pending, message, command_response, ts),
        command_in(message) is Some,
        command_response is Some,
    ensures
        handling == Handling::Respond(command_response->0),
{
}

/// An answer reaches the loop that asked: its record is read back as a response
/// with the operator's words, and the loop has no pending question any more.
pub proof fn answer_reaches_the_asking_loop(
    record: EventRecord,
    pending: state::Pending,
    message: RcMessage,
    ts: Seq<char>,
)
    requires
        is_record_of(record, pending, message, ts),
        record.is_response,
    ensures
        events::line_response(record.line@) == Some(message.msg@),
        pending.dom().contains(record.target_loop@),
        !pending.remove(record.target_loop@).dom().contains(record.target_loop@),
        forall|other: Seq<char>|
            other != record.target_loop@ && pending.dom().contains(other) ==> #[trigger]
            pending.remove(record.target_loop@).dom().contains(other),
{
    events::recorded_response_is_read_back(record.line@, message.msg@, ts);
}

/// A message without a thread goes to the loop that its prefix names, or else to
/// the main loop.
pub proof fn unthreaded_messages_follow_their_prefix(
    target: Seq<char>,
    pending: state::Pending,
    message: Seq<char>,
)
    requires
        is_message_loop(target, pending, message, None),
    ensures
        target == routing::target_loop(None, message),
{
}

/// A message in the thread of a question goes to a loop that asked in that thread,
/// whatever the text begins with, and is read there as a response with the
/// operator's words.
pub proof fn thread_replies_are_responses(
    record: EventRecord,
    pending: state::Pending,
    message: RcMessage,
    ts: Seq<char>,
    loop_id: Seq<char>,
)
    requires
        is_record_of(record, pending, message, ts),
        pending.dom().contains(loop_id),
        message.tmid matches Some(thread) && pending[loop_id].message_id@ == thread@,
    ensures
        pending.dom().contains(record.target_loop@),
        pending[record.target_loop@].message_id@ == pending[loop_id].message_id@,
        record.topic@ == events::RESPONSE_TOPIC@,
        events::line_response(record.line@) == Some(message.msg@),
{
    let found = choose|found: Option<Seq<char>>| #[trigger]
        is_thread_loop(pending, lists::text_in(message.tmid), found) && record.target_loop@
            == routing::target_loop(found, message.msg@);
    assert(found is Some);
    answer_reaches_the_asking_loop(record, pending, message, ts);
}

/// What becomes of a message that came in at a given time. A system message is dropped.
/// Words that begin with `/` and have an answer are answered with it, and nothing is
/// recorded. Anything else is recorded: with the whole message, word for word, and its
/// time, as `human.response` exactly if a question of the loop that it is for is pending,
/// and as `human.guidance` else.
pub proof fn messages_are_answered_or_recorded(
    handler: &MessageHandler,
    state: &RocketChatState,
    message: &RcMessage,
    response: Option<String>,
    ts: &str,
    before: Seq<char>,
    words: Seq<char>,
    after: Seq<char>,
    r: Handling,
)
    requires
        call_ensures(MessageHandler::handle_message_at, (handler, state, message, response, ts), r),
        message.msg@ == before + words + after,
        text::is_blank(before),
        text::is_blank(after),
        words.len() > 0 ==> !text::is_whitespace(words[0]) && !text::is_whitespace(words.last()),
    ensures
        r is Drop <==> message.t is Some,
        ({
            let answers = message.t is None && words.len() > 0 && words[0] == '/'
                && response is Some;
            &&& answers ==> r == Handling::Respond(response->0)
            &&& message.t is None && !answers ==> r is Record
        }),
        r matches Handling::Record(record) ==> {
            let pending = state.pending_questions@;
            let event = json::json_parsed(record.line@)->0;
            &&& json::json_parsed(record.line@) is Some
            &&& event.entry("payload"@) == Some(JsonTree::Text(message.msg@))
            &&& event.entry("ts"@) == Some(JsonTree::Text(ts@))
            &&& event.entry("topic"@) == Some(JsonTree::Text(record.topic@))
            &&& record.is_response <==> pending.dom().contains(record.target_loop@)
            &&& record.is_response ==> record.topic@ == "human.response"@
            &&& !record.is_response ==> record.topic@ == "human.guidance"@
        },
{
    text::trimming_leaves_the_words(before, words, after);
    reveal_strlit("topic");
    reveal_strlit("payload");
    reveal_strlit("ts");
    assert("topic"@.len() == 5);
    assert("payload"@.len() == 7);
    assert("ts"@.len() == 2);
}

/// The loop that a message is for: one whose pending question was sent as the message that
/// the thread began with; where there is none, the one that it names behind `@`; else
/// `main`.
pub proof fn messages_find_their_loop(
    handler: &MessageHandler,
    state: &RocketChatState,
    message: &str,
    tmid: Option<&str>,
    asker: Seq<char>,
    loop_id: Seq<char>,
    rest: Seq<char>,
    r: String,
)
    requires
        call_ensures(MessageHandler::determine_target_loop, (handler, state, message, tmid), r),
        text::is_solid(loop_id),
        loop_id.len() > 0,
        rest.len() > 0 ==> text::is_whitespace(rest[0]),
    ensures
        ({
            let pending = state.pending_questions@;
            let unasked = tmid is None || forall|key: Seq<char>| #[trigger]
                pending.dom().contains(key) ==> pending[key].message_id@ != tmid->0@;
            &&& tmid is Some && pending.dom().contains(asker) && pending[asker].message_id@
                == tmid->0@ ==> pending.dom().contains(r@) && pending[r@].message_id@ == tmid->0@
            &&& unasked && message@ == seq!['@'] + loop_id + rest ==> r@ == loop_id
            &&& unasked && (message@.len() == 0 || message@[0] != '@') ==> r@ == "main"@
        }),
{
    let other = if message@.len() == 0 || message@[0] != '@' {
        message@
    } else {
        Seq::empty()
    };
    routing::prefixes_name_their_loop(Seq::empty(), loop_id, rest, other, loop_id);
    let pending = state.pending_questions@;
    let thread = lists::chars_in(tmid);
    let found = choose|found: Option<Seq<char>>| #[trigger]
        is_thread_loop(pending, thread, found) && r@ == routing::target_loop(found, message@);
    assert(is_thread_loop(pending, thread, found));
}

/// Once a record was written the handling ends with its topic, and exactly where it answers
/// a question, that of its loop is no longer pending. A record that could not be written
/// changes nothing, and the handling ends with the error.
pub proof fn only_written_answers_settle(
    handler: &MessageHandler,
    before: RocketChatState,
    after: RocketChatState,
    record: EventRecord,
    written: RocketChatResult<()>,
    key: Seq<char>,
    r: RocketChatResult<String>,
)
    requires
        exists|state: &mut RocketChatState|
            *state == before && *final(state) == after && #[trigger] call_ensures(
                MessageHandler::finish_message,
                (handler, state, record, written),
                r,
            ),
    ensures
        written is Ok ==> r == Ok::<String, RocketChatError>(record.topic),
        written matches Err(error) ==> r == Err::<String, RocketChatError>(error),
        ({
            let settled = written is Ok && record.is_response && record.target_loop@ == key;
            let x = before.pending_questions@;
            let y = after.pending_questions@;
            &&& y.dom().contains(key) <==> x.dom().contains(key) && !settled
            &&& y.dom().contains(key) ==> y[key] == x[key]
        }),
        after.last_sync == before.last_sync,
{
}

} // verus!
