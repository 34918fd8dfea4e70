//! The decisions of the service that connects a loop with a Matrix room.

use super::error::{MatrixError, MatrixResult};
use super::handler::MessageHandler;
use super::state::{self, MatrixState, StateManager};
use super::types::{self, MatrixMessage, SyncResult};
use crate::clock::{self, seconds};
use crate::lists::{self, borrow_text};
use crate::events;
use crate::place::Location;
use crate::service::{self, CheckinContext, RetryStep, WaitAction, WaitEvent};
pub use crate::service::{BASE_RETRY_DELAY_SECS, MAX_SEND_RETRIES};
use std::path::PathBuf;
use std::time::Duration;
use vstd::prelude::*;

verus! {

/// The state file, below the workspace root.
pub const STATE_FILE: &'static str = ".ralph/matrix-state.json";

/// The name of the backend in greetings.
pub const BACKEND_NAME: &'static str = "Matrix";

/// Whether an attempt can fail.
pub open spec fn fails<F: FnMut(u32) -> MatrixResult<String>>(send_fn: F, attempt: u32) -> bool {
    exists|error: MatrixError| #[trigger]
        send_fn.ensures((attempt,), Err::<String, MatrixError>(error))
}

/// Whether a sleep after an attempt can come back.
pub open spec fn sleeps<S: FnMut(Duration)>(sleep_fn: S, attempt: u32) -> bool {
    sleep_fn.ensures((clock::seconds_span(service::backoff_secs(attempt)),), ())
}

/// Whether an attempt can succeed with an event ID, after every attempt before
/// it failed and was followed by its sleep.
pub open spec fn succeeds_at<F: FnMut(u32) -> MatrixResult<String>, S: FnMut(Duration)>(
    send_fn: F,
    sleep_fn: S,
    attempt: u32,
    event_id: String,
) -> bool {
    &&& 1 <= attempt <= MAX_SEND_RETRIES
    &&& send_fn.ensures((attempt,), Ok::<String, MatrixError>(event_id))
    &&& forall|earlier: u32| 1 <= earlier < attempt ==> #[trigger] fails(send_fn, earlier)
        && sleeps(sleep_fn, earlier)
}

/// Whether every attempt can fail, the last one with a given error and each other
/// one followed by its sleep.
pub open spec fn gives_up_on<F: FnMut(u32) -> MatrixResult<String>, S: FnMut(Duration)>(
    send_fn: F,
    sleep_fn: S,
    last: MatrixError,
) -> bool {
    &&& send_fn.ensures((MAX_SEND_RETRIES,), Err::<String, MatrixError>(last))
    &&& forall|earlier: u32| 1 <= earlier < MAX_SEND_RETRIES ==> #[trigger] fails(send_fn, earlier)
        && sleeps(sleep_fn, earlier)
}

/// Whether a result can be that of sending with retries: the first success, or
/// the error after all attempts failed, with the words of the last of them.
pub open spec fn is_retried<F: FnMut(u32) -> MatrixResult<String>, S: FnMut(Duration)>(
    send_fn: F,
    sleep_fn: S,
    r: MatrixResult<String>,
) -> bool {
    match r {
        Ok(event_id) => exists|attempt: u32| succeeds_at(send_fn, sleep_fn, attempt, event_id),
        Err(error) => exists|last: MatrixError|
            {
                &&& gives_up_on(send_fn, sleep_fn, last)
                &&& error matches MatrixError::SendFailed(cause) && cause@
                    == #[trigger] service::exhausted(last.words())
            },
    }
}

/// Executes a fallible send operation with exponential backoff.
///
/// Makes up to [`MAX_SEND_RETRIES`] attempts, numbered from 1, and sleeps for one
/// second after the first failed attempt and for two after the second. Returns
/// the first success, or `MatrixError::SendFailed` with the last error once all
/// attempts have failed.
///
/// The `sleep_fn` parameter allows tests to substitute a no-op sleep. It is only
/// ever asked for the delays between attempts.
pub fn retry_with_backoff<F, S>(send_fn: F, sleep_fn: S) -> (r: MatrixResult<
    String,
>) where F: FnMut(u32) -> MatrixResult<String>, S: FnMut(Duration)
    requires
        forall|attempt: u32|
            1 <= attempt <= MAX_SEND_RETRIES ==> #[trigger] send_fn.requires((attempt,)),
        forall|attempt: u32|
            1 <= attempt < MAX_SEND_RETRIES ==> sleep_fn.requires(
                (clock::seconds_span(#[trigger] service::backoff_secs(attempt)),),
            ),
    ensures
        is_retried(send_fn, sleep_fn, r),
{
    let mut send = send_fn;
    let mut sleep = sleep_fn;
    let mut attempt: u32 = 1;
    loop
        invariant
            send == send_fn,
            sleep == sleep_fn,
            1 <= attempt <= MAX_SEND_RETRIES,
            forall|n: u32| 1 <= n <= MAX_SEND_RETRIES ==> #[trigger] send_fn.requires((n,)),
            forall|n: u32|
                1 <= n < MAX_SEND_RETRIES ==> sleep_fn.requires(
                    (clock::seconds_span(#[trigger] service::backoff_secs(n)),),
                ),
            forall|earlier: u32|
                1 <= earlier < attempt ==> #[trigger] fails(send_fn, earlier) && sleeps(
                    sleep_fn,
                    earlier,
                ),
        decreases MAX_SEND_RETRIES - attempt,
    {
        match send(attempt) {
            Ok(event_id) => {
                assert(succeeds_at(send_fn, sleep_fn, attempt, event_id));
                return Ok(event_id);
            },
            Err(error) => {
                assert(fails(send_fn, attempt));
                match service::retry_step(attempt, true) {
                    RetryStep::Again { secs, attempt: next } => {
                        sleep(seconds(secs));
                        assert(sleeps(sleep_fn, attempt));
                        attempt = next;
                    },
                    _ => {
                        assert(gives_up_on(send_fn, sleep_fn, error));
                        return Err(
                            MatrixError::SendFailed(service::exhausted_text(&error.message())),
                        );
                    },
                }
            },
        }
    }
}

/// How long a sync of the polling task waits for messages, in seconds.
pub const POLL_SYNC_SECS: u64 = 30;

/// What the polling task learns.
#[derive(Debug)]
pub enum PollEvent {
    /// The shutdown flag was checked, at the start or after a sleep.
    Checked {
        /// Shutdown was requested.
        shutdown: bool,
    },
    /// The state was loaded, or could not be.
    Loaded {
        /// The state is there.
        ok: bool,
    },
    /// The homeserver answered.
    Synced(SyncResult),
    /// The sync failed.
    SyncFailed {
        /// Shutdown was requested by then.
        shutdown: bool,
    },
    /// Every chosen message was handled.
    Handled,
    /// The state was saved, or could not be.
    Saved,
}

/// What the polling task does next.
#[derive(Debug)]
pub enum PollAction {
    /// End.
    Stop,
    /// Load the state.
    LoadState,
    /// Sync with the homeserver, waiting at most this long.
    Sync {
        /// Seconds to wait.
        timeout_secs: u64,
    },
    /// Handle these messages one after the other.
    Handle(Vec<MatrixMessage>),
    /// Save the state.
    SaveState,
    /// Sleep, and check the shutdown flag.
    Sleep {
        /// Seconds to sleep.
        secs: u64,
    },
}

/// The messages of a sync that the polling task handles: those of its room, and
/// of these those of the operator if one is set, else those that the bot did not
/// send itself.
pub open spec fn polled(
    messages: Seq<MatrixMessage>,
    room: Seq<char>,
    operator: Option<Seq<char>>,
    own: Seq<char>,
) -> Seq<MatrixMessage> {
    match operator {
        Some(id) => types::by_sender(types::in_room(messages, room), id),
        None => types::by_others(types::in_room(messages, room), own),
    }
}

/// Decides for the human-in-the-loop service of a loop in a Matrix room: which
/// messages to send and to process, and what to keep in the state.
pub struct MatrixService {
    workspace_root: PathBuf,
    room_id: String,
    operator_id: Option<String>,
    timeout: u64,
    loop_id: String,
    state_manager: StateManager,
    handler: MessageHandler,
    message_counter: i32,
}

impl MatrixService {
    /// The workspace root.
    pub closed spec fn root(&self) -> PathBuf {
        self.workspace_root
    }

    /// The room; empty where none is configured.
    pub closed spec fn room(&self) -> Seq<char> {
        self.room_id@
    }

    /// The operator.
    pub closed spec fn operator(&self) -> Option<Seq<char>> {
        lists::text_in(self.operator_id)
    }

    /// The time limit of a wait for a response, in seconds.
    pub closed spec fn limit(&self) -> u64 {
        self.timeout
    }

    /// The loop.
    pub closed spec fn own_loop(&self) -> Seq<char> {
        self.loop_id@
    }

    /// The place of the state file.
    pub closed spec fn state_place(&self) -> Location {
        self.state_manager.place()
    }

    /// The place of the state file and the workspace root, as the message handler
    /// knows them.
    pub closed spec fn handler_places(&self) -> (Location, PathBuf) {
        (self.handler.state_place(), self.handler.root())
    }

    /// How many questions were asked.
    pub closed spec fn asked(&self) -> i32 {
        self.message_counter
    }

    /// Whether two services have the same settings.
    pub open spec fn same_settings(&self, other: &MatrixService) -> bool {
        &&& self.root() == other.root()
        &&& self.room() == other.room()
        &&& self.operator() == other.operator()
        &&& self.limit() == other.limit()
        &&& self.own_loop() == other.own_loop()
        &&& self.state_place() == other.state_place()
        &&& self.handler_places() == other.handler_places()
    }

    /// A service for a loop.
    ///
    /// The `operator_id` filters messages in group chats to only process the
    /// designated human operator; when `None`, all non-bot messages are processed.
    pub fn new(
        workspace_root: PathBuf,
        room_id: String,
        operator_id: Option<String>,
        timeout: u64,
        loop_id: String,
    ) -> (r: Self)
        ensures
            r.root() == workspace_root,
            r.room() == room_id@,
            r.operator() == lists::text_in(operator_id),
            r.limit() == timeout,
            r.own_loop() == loop_id@,
            r.state_place().base == workspace_root,
            r.state_place().part_texts() == seq![STATE_FILE@],
            r.handler_places().0.base == workspace_root,
            r.handler_places().0.part_texts() == seq![STATE_FILE@],
            r.handler_places().1 == workspace_root,
            r.asked() == 0,
    {
        let state_manager = StateManager::new(Location::under(&workspace_root, STATE_FILE));
        let handler_state_manager = StateManager::new(Location::under(&workspace_root, STATE_FILE));
        let handler = MessageHandler::new(handler_state_manager, workspace_root.clone());
        MatrixService {
            workspace_root,
            room_id,
            operator_id,
            timeout,
            loop_id,
            state_manager,
            handler,
            message_counter: 0,
        }
    }

    /// The workspace root.
    pub fn workspace_root(&self) -> (r: &PathBuf)
        ensures
            *r == self.root(),
    {
        &self.workspace_root
    }

    /// The configured time limit in seconds.
    pub fn timeout_secs(&self) -> (r: u64)
        ensures
            r == self.limit(),
    {
        self.timeout
    }

    /// The loop this service is associated with.
    pub fn loop_id(&self) -> (r: &str)
        ensures
            r@ == self.own_loop(),
    {
        &self.loop_id
    }

    /// The room this service is sending to.
    pub fn room_id(&self) -> (r: &str)
        ensures
            r@ == self.room(),
    {
        &self.room_id
    }

    /// The operator filter, if set.
    pub fn operator_id(&self) -> (r: Option<&str>)
        ensures
            lists::chars_in(r) == self.operator(),
    {
        borrow_text(&self.operator_id)
    }

    /// The state manager.
    pub fn state_manager(&self) -> (r: &StateManager)
        ensures
            r.place() == self.state_place(),
    {
        &self.state_manager
    }

    /// The message handler.
    pub fn handler(&self) -> (r: &MessageHandler)
        ensures
            (r.state_place(), r.root()) == self.handler_places(),
    {
        &self.handler
    }

    /// The error of sending outside an async runtime.
    pub fn send_without_runtime() -> (r: MatrixError)
        ensures
            r matches MatrixError::SendFailed(cause) && cause@
                == "no tokio runtime available for sending"@,
    {
        MatrixError::SendFailed(String::from_str("no tokio runtime available for sending"))
    }

    /// Sends a message with retries, given whether there is an async runtime to
    /// send in.
    pub fn send_with_retry<F, S>(has_runtime: bool, send_fn: F, sleep_fn: S) -> (r: MatrixResult<
        String,
    >) where F: FnMut(u32) -> MatrixResult<String>, S: FnMut(Duration)
        requires
            forall|attempt: u32|
                1 <= attempt <= MAX_SEND_RETRIES ==> #[trigger] send_fn.requires((attempt,)),
            forall|span: Duration| #[trigger] sleep_fn.requires((span,)),
        ensures
            if has_runtime {
                is_retried(send_fn, sleep_fn, r)
            } else {
                r matches Err(MatrixError::SendFailed(cause)) && cause@
                    == "no tokio runtime available for sending"@
            },
    {
        if has_runtime {
            retry_with_backoff(send_fn, sleep_fn)
        } else {
            Err(Self::send_without_runtime())
        }
    }

    /// The periodic check-in message to send to the room: iteration count, elapsed
    /// time, and optional context. `None` when no room is configured.
    pub fn send_checkin(
        &self,
        iteration: u32,
        elapsed_secs: u64,
        context: Option<&CheckinContext>,
    ) -> (r: Option<String>)
        ensures
            match r {
                Some(message) => self.room().len() > 0 && message@ == service::checkin(
                    iteration,
                    elapsed_secs,
                    match context {
                        Some(known) => Some(*known),
                        None => None,
                    },
                ),
                None => self.room().len() == 0,
            },
    {
        if self.room_id.as_str().unicode_len() == 0 {
            None
        } else {
            Some(service::checkin_text(iteration, elapsed_secs, context))
        }
    }

    /// The question to send to the room. `None` when no room is configured.
    pub fn send_question(&self, payload: &str) -> (r: Option<String>)
        ensures
            match r {
                Some(message) => self.room().len() > 0 && message@ == payload@,
                None => self.room().len() == 0,
            },
    {
        if self.room_id.as_str().unicode_len() == 0 {
            None
        } else {
            Some(String::from_str(payload))
        }
    }

    /// Stores a question as pending once it was sent, keyed by the event ID of the
    /// message that carries it. `sent` is `None` where there was no room to send it
    /// to: the question is then stored under the empty event ID. A question that
    /// could not be sent is not stored. The caller saves the state.
    pub fn store_question(
        &self,
        state: &mut MatrixState,
        sent: Option<MatrixResult<String>>,
        payload: &str,
    ) -> (r: MatrixResult<()>)
        ensures
            final(state).since_token == old(state).since_token,
            final(state).room_id == old(state).room_id,
            match sent {
                Some(Err(error)) => {
                    &&& r == Err::<(), MatrixError>(error)
                    &&& final(state).pending_questions@ == old(state).pending_questions@
                },
                _ => {
                    let key = match sent {
                        Some(Ok(event_id)) => event_id@,
                        _ => Seq::<char>::empty(),
                    };
                    let entry = final(state).pending_questions@[key];
                    &&& r == Ok::<(), MatrixError>(())
                    &&& final(state).pending_questions@ == old(state).pending_questions@.insert(
                        key,
                        entry,
                    )
                    &&& entry.asks(Some(self.own_loop()), payload@, entry.asked_at@)
                },
            },
    {
        let event_id: String = match sent {
            Some(Ok(id)) => id,
            Some(Err(error)) => {
                return Err(error);
            },
            None => String::new(),
        };
        self.state_manager.add_pending_question(
            state,
            &event_id,
            Some(self.loop_id.as_str()),
            payload,
        );
        Ok(())
    }

    /// Counts a question once the state with it was saved. Returns a counter that
    /// grows by one with each question.
    pub fn count_question(&mut self, saved: MatrixResult<()>) -> (r: MatrixResult<i32>)
        requires
            old(self).asked() < i32::MAX,
        ensures
            final(self).same_settings(old(self)),
            match saved {
                Ok(_) => {
                    &&& final(self).asked() == old(self).asked() + 1
                    &&& r == Ok::<i32, MatrixError>(final(self).asked())
                },
                Err(error) => {
                    &&& final(self).asked() == old(self).asked()
                    &&& r == Err::<i32, MatrixError>(error)
                },
            },
    {
        match saved {
            Ok(_) => {
                self.message_counter = self.message_counter + 1;
                Ok(self.message_counter)
            },
            Err(error) => Err(error),
        }
    }

    /// How many questions were counted.
    pub fn message_count(&self) -> (r: i32)
        ensures
            r == self.asked(),
    {
        self.message_counter
    }

    /// Checks for a `human.response` event in the text that follows `file_pos` in an
    /// events file, which is `None` if the file doesn't exist. Updates `file_pos` to
    /// the new end of file.
    ///
    /// Supports two event formats:
    /// - JSON: `{"topic":"human.response","payload":"..."}`
    /// - Pipe-separated: `... EVENT: human.response | message: "..."`
    pub fn check_for_response(tail: Option<&str>, file_pos: &mut u64) -> (r: Option<String>)
        requires
            tail matches Some(source) ==> *old(file_pos) + events::span(source@) <= u64::MAX,
        ensures
            match tail {
                None => r is None && *final(file_pos) == *old(file_pos),
                Some(source) => {
                    &&& lists::text_in(r) == events::lines_response(events::lines_of(source@))
                    &&& *final(file_pos) == *old(file_pos) + events::span(source@)
                },
            },
    {
        match tail {
            None => None,
            Some(source) => events::find_response(source, file_pos),
        }
    }

    /// The next step of a wait for a `human.response` event. When the wait ends,
    /// the caller removes the pending question with
    /// [`MatrixService::remove_pending_for_loop`].
    pub fn wait_for_response(&self, event: WaitEvent) -> (r: WaitAction)
        ensures
            r == service::wait_next(event),
    {
        service::wait_step(event)
    }

    /// Finds and removes the pending question of this loop, at the end of a wait.
    /// The caller saves the state if a question was removed.
    pub fn remove_pending_for_loop(&self, state: &mut MatrixState) -> (r: bool)
        ensures
            exists|found: Option<Seq<char>>|
                {
                    &&& #[trigger] state::is_pending_of(
                        old(state).pending_questions@,
                        self.own_loop(),
                        found,
                    )
                    &&& r == found is Some
                    &&& final(state).pending_questions@ == (match found {
                        Some(event_id) => old(state).pending_questions@.remove(event_id),
                        None => old(state).pending_questions@,
                    })
                },
            final(state).since_token == old(state).since_token,
            final(state).room_id == old(state).room_id,
    {
        let found = self.state_manager.pending_of_loop(state, &self.loop_id);
        let ghost witness = lists::text_in(found);
        assert(state::is_pending_of(state.pending_questions@, self.own_loop(), witness));
        match found {
            Some(event_id) => {
                self.state_manager.remove_pending_question(state, &event_id);
                true
            },
            None => false,
        }
    }

    /// Starts the service: `Ok` with the greeting to send, which is `None` when no
    /// room is configured. The polling task needs an async runtime.
    pub fn start(&self, has_runtime: bool) -> (r: MatrixResult<Option<String>>)
        ensures
            match r {
                Ok(Some(message)) => has_runtime && self.room().len() > 0 && message@
                    == service::greeting(self.own_loop(), BACKEND_NAME@),
                Ok(None) => has_runtime && self.room().len() == 0,
                Err(error) => !has_runtime && (error matches MatrixError::Startup(cause) && cause@
                    == "no tokio runtime available for polling"@),
            },
    {
        if !has_runtime {
            return Err(
                MatrixError::Startup(String::from_str("no tokio runtime available for polling")),
            );
        }
        if self.room_id.as_str().unicode_len() == 0 {
            Ok(None)
        } else {
            Ok(Some(service::greeting_text(&self.loop_id, BACKEND_NAME)))
        }
    }

    /// Stops the service: the farewell to send before shutdown is requested, which
    /// is `None` when no room is configured.
    pub fn stop(self) -> (r: Option<String>)
        ensures
            match r {
                Some(message) => self.room().len() > 0 && message@ == service::farewell(
                    self.own_loop(),
                ),
                None => self.room().len() == 0,
            },
    {
        if self.room_id.as_str().unicode_len() == 0 {
            None
        } else {
            Some(service::farewell_text(&self.loop_id))
        }
    }

    /// The next step of the polling task of a bot with the given user ID.
    pub fn poll_messages(&self, event: PollEvent, own_id: &str) -> (r: PollAction)
        ensures
            match event {
                PollEvent::Checked { shutdown } => r == (if shutdown {
                    PollAction::Stop
                } else {
                    PollAction::LoadState
                }),
                PollEvent::Loaded { ok } => r == (if ok {
                    PollAction::Sync { timeout_secs: POLL_SYNC_SECS }
                } else {
                    PollAction::Sleep { secs: 1 }
                }),
                PollEvent::Synced(result) => r matches PollAction::Handle(messages) && messages@
                    == polled(result.messages@, self.room(), self.operator(), own_id@),
                PollEvent::SyncFailed { shutdown } => r == (PollAction::Sleep {
                    secs: if shutdown {
                        1
                    } else {
                        5
                    },
                }),
                PollEvent::Handled => r == PollAction::SaveState,
                PollEvent::Saved => r == (PollAction::Sleep { secs: 1 }),
            },
    {
        match event {
            PollEvent::Checked { shutdown } => {
                if shutdown {
                    PollAction::Stop
                } else {
                    PollAction::LoadState
                }
            },
            PollEvent::Loaded { ok } => {
                if ok {
                    PollAction::Sync { timeout_secs: POLL_SYNC_SECS }
                } else {
                    PollAction::Sleep { secs: 1 }
                }
            },
            PollEvent::Synced(result) => {
                let room_messages = types::keep_room(&result.messages, &self.room_id);
                PollAction::Handle(
                    match borrow_text(&self.operator_id) {
                        Some(id) => types::filter_by_operator(room_messages.as_slice(), id),
                        None => types::drop_sender(&room_messages, own_id),
                    },
                )
            },
            PollEvent::SyncFailed { shutdown } => {
                if shutdown {
                    PollAction::Sleep { secs: 1 }
                } else {
                    PollAction::Sleep { secs: 5 }
                }
            },
            PollEvent::Handled => PollAction::SaveState,
            PollEvent::Saved => PollAction::Sleep { secs: 1 },
        }
    }
}

/// Only messages of the service's own room are processed: with an operator set
/// only the operator's, and without one never the bot's own.
pub proof fn polling_hears_only_its_room(
    messages: Seq<MatrixMessage>,
    room: Seq<char>,
    operator: Option<Seq<char>>,
    own: Seq<char>,
)
    ensures
        forall|m: MatrixMessage| #[trigger]
            polled(messages, room, operator, own).contains(m) <==> messages.contains(m)
                && m.room_id@ == room && (match operator {
                Some(id) => m.sender_id@ == id,
                None => m.sender_id@ != own,
            }),
{
    let here = types::in_room(messages, room);
    types::only_the_room_is_heard(messages, room);
    match operator {
        Some(id) => types::only_the_operator_is_heard(here, id),
        None => types::only_others_are_heard(here, own),
    }
}

/// Messages are processed one by one and in order: one exactly if it is of the service's
/// room and, with an operator set, of the operator, and without one, not of the bot.
pub proof fn polling_keeps_the_order(
    a: Seq<MatrixMessage>,
    b: Seq<MatrixMessage>,
    m: MatrixMessage,
    room: Seq<char>,
    operator: Option<Seq<char>>,
    own: Seq<char>,
)
    ensures
        polled(a + b, room, operator, own) == polled(a, room, operator, own) + polled(
            b,
            room,
            operator,
            own,
        ),
        polled(seq![m], room, operator, own) == (if m.room_id@ == room && (match operator {
            Some(id) => m.sender_id@ == id,
            None => m.sender_id@ != own,
        }) {
            seq![m]
        } else {
            Seq::empty()
        }),
{
    types::messages_stay_in_order(a, b, m, room);
    let x = types::in_room(a, room);
    let y = types::in_room(b, room);
    match operator {
        Some(id) => {
            types::messages_stay_in_order(x, y, m, id);
            lists::filter_adds(x, y, m, types::sent_by(id));
        },
        None => {
            types::messages_stay_in_order(x, y, m, own);
            lists::filter_adds(x, y, m, types::not_sent_by(own));
        },
    }
}

/// The polling task goes round: it loads the state unless shutdown is requested, syncs for
/// at most thirty seconds, handles the messages of the sync, saves the state and sleeps a
/// second. It sleeps a second too where the state is not there, and five after a failed
/// sync unless shutdown is requested.
pub proof fn polling_goes_round(
    service: &MatrixService,
    event: PollEvent,
    own_id: &str,
    r: PollAction,
)
    requires
        call_ensures(MatrixService::poll_messages, (service, event, own_id), r),
    ensures
        event == (PollEvent::Checked { shutdown: true }) ==> r is Stop,
        event == (PollEvent::Checked { shutdown: false }) ==> r is LoadState,
        event == (PollEvent::Loaded { ok: true }) ==> r == (PollAction::Sync { timeout_secs: 30 }),
        event == (PollEvent::Loaded { ok: false }) ==> r == (PollAction::Sleep { secs: 1 }),
        event matches PollEvent::Synced(result) ==> r is Handle && forall|m: MatrixMessage|
            (r->Handle_0)@.contains(m) <==> #[trigger] result.messages@.contains(m) && m.room_id@
                == service.room() && (match service.operator() {
                Some(id) => m.sender_id@ == id,
                None => m.sender_id@ != own_id@,
            }),
        event == (PollEvent::SyncFailed { shutdown: true }) ==> r == (PollAction::Sleep { secs: 1 }),
        event == (PollEvent::SyncFailed { shutdown: false }) ==> r == (PollAction::Sleep {
            secs: 5,
        }),
        event is Handled ==> r is SaveState,
        event is Saved ==> r == (PollAction::Sleep { secs: 1 }),
{
    match event {
        PollEvent::Synced(result) => polling_hears_only_its_room(
            result.messages@,
            service.room(),
            service.operator(),
            own_id@,
        ),
        _ => {},
    }
}

/// Without a room nothing is sent. With one, a question goes out word for word, a loop
/// that starts greets by its own name and one that ends takes leave by it. A service
/// starts exactly if there is a runtime.
pub proof fn nothing_is_sent_without_a_room(
    service: MatrixService,
    has_runtime: bool,
    payload: &str,
    iteration: u32,
    secs: u64,
    context: Option<&CheckinContext>,
    question: Option<String>,
    checkin: Option<String>,
    words: String,
    started: MatrixResult<Option<String>>,
    stopped: Option<String>,
)
    requires
        call_ensures(MatrixService::send_question, (&service, payload), question),
        call_ensures(
            MatrixService::send_checkin,
            (&service, iteration, secs, context),
            checkin,
        ),
        call_ensures(service::checkin_text, (iteration, secs, context), words),
        call_ensures(MatrixService::start, (&service, has_runtime), started),
        call_ensures(MatrixService::stop, (service,), stopped),
    ensures
        question is Some <==> service.room().len() > 0,
        checkin is Some <==> service.room().len() > 0,
        stopped is Some <==> service.room().len() > 0,
        question matches Some(message) ==> message@ == payload@,
        checkin matches Some(message) ==> message@ == words@,
        stopped matches Some(message) ==> message@ == "👋 Ralph loop `"@ + service.own_loop()
            + "` disconnecting."@,
        started is Ok <==> has_runtime,
        started matches Ok(greeting) ==> (greeting is Some <==> service.room().len() > 0),
        started matches Ok(Some(message)) ==> message@ == "🤖 Ralph loop `"@ + service.own_loop()
            + "` connected via "@ + "Matrix"@,
        started matches Err(error) ==> (error matches MatrixError::Startup(cause) && cause@
            == "no tokio runtime available for polling"@),
{
}

/// A message that is sent with retries was sent by one of three attempts, each earlier one
/// of which failed and was followed by its sleep, of one second and then of two; or all
/// three have failed, and the error has the words of the last.
pub proof fn sending_is_tried_thrice<F: FnMut(u32) -> MatrixResult<String>, S: FnMut(Duration)>(
    send_fn: F,
    sleep_fn: S,
    r: MatrixResult<String>,
)
    requires
        is_retried(send_fn, sleep_fn, r),
    ensures
        r matches Ok(event_id) ==> exists|attempt: u32|
            {
                &&& #[trigger] send_fn.ensures((attempt,), Ok::<String, MatrixError>(event_id))
                &&& attempt == 1 || attempt == 2 || attempt == 3
                &&& attempt >= 2 ==> fails(send_fn, 1) && sleep_fn.ensures(
                    (clock::seconds_span(1),),
                    (),
                )
                &&& attempt >= 3 ==> fails(send_fn, 2) && sleep_fn.ensures(
                    (clock::seconds_span(2),),
                    (),
                )
            },
        r matches Err(error) ==> exists|last: MatrixError|
            {
                &&& #[trigger] send_fn.ensures((3,), Err::<String, MatrixError>(last))
                &&& fails(send_fn, 1) && sleep_fn.ensures((clock::seconds_span(1),), ())
                &&& fails(send_fn, 2) && sleep_fn.ensures((clock::seconds_span(2),), ())
                &&& error matches MatrixError::SendFailed(cause) && cause@
                    == "failed after 3 attempts: "@ + last.words()
            },
{
    reveal_with_fuel(service::backoff_secs, 3);
    assert(service::backoff_secs(1) == 1 && service::backoff_secs(2) == 2);
    match r {
        Ok(event_id) => {
            let attempt = choose|attempt: u32| succeeds_at(send_fn, sleep_fn, attempt, event_id);
            assert(send_fn.ensures((attempt,), Ok::<String, MatrixError>(event_id)));
            if attempt >= 2 {
                assert(fails(send_fn, 1));
            }
            if attempt >= 3 {
                assert(fails(send_fn, 2));
            }
        },
        Err(error) => {
            let last = choose|last: MatrixError|
                {
                    &&& gives_up_on(send_fn, sleep_fn, last)
                    &&& error matches MatrixError::SendFailed(cause) && cause@
                        == #[trigger] service::exhausted(last.words())
                };
            assert(send_fn.ensures((3,), Err::<String, MatrixError>(last)));
            assert(fails(send_fn, 1));
            assert(fails(send_fn, 2));
            service::exhaustion_in_words(last.words());
        },
    }
}

/// A question is kept as pending exactly if it was sent or there was no room to send it to:
/// under the ID of the message that carries it, or under the empty one, with this loop and
/// its words. No other question changes. A question that could not be sent gives its error.
pub proof fn sent_questions_are_kept(
    service: &MatrixService,
    before: MatrixState,
    after: MatrixState,
    sent: Option<MatrixResult<String>>,
    payload: &str,
    key: Seq<char>,
    r: MatrixResult<()>,
)
    requires
        exists|state: &mut MatrixState|
            *state == before && *final(state) == after && #[trigger] call_ensures(
                MatrixService::store_question,
                (service, state, sent, payload),
                r,
            ),
    ensures
        ({
            let x = before.pending_questions@;
            let y = after.pending_questions@;
            let kept = |id: Seq<char>|
                {
                    &&& r is Ok
                    &&& y.dom().contains(key) <==> x.dom().contains(key) || key == id
                    &&& x.dom().contains(key) && key != id ==> y[key] == x[key]
                    &&& y[id].question@ == payload@
                    &&& y[id].loop_id is Some && y[id].loop_id->0@ == service.own_loop()
                };
            &&& sent matches Some(Ok(event_id)) ==> kept(event_id@)
            &&& sent is None ==> kept(Seq::empty())
            &&& sent matches Some(Err(error)) ==> y == x && r == Err::<(), MatrixError>(error)
        }),
        after.since_token == before.since_token && after.room_id == before.room_id,
{
}

/// A question counts exactly if the state with it was saved, and the count grows by one
/// with each.
pub proof fn saved_questions_count(
    before: MatrixService,
    after: MatrixService,
    saved: MatrixResult<()>,
    r: MatrixResult<i32>,
)
    requires
        exists|service: &mut MatrixService|
            *service == before && *final(service) == after && #[trigger] call_ensures(
                MatrixService::count_question,
                (service, saved),
                r,
            ),
    ensures
        saved is Ok ==> after.asked() == before.asked() + 1 && r == Ok::<i32, MatrixError>(
            after.asked(),
        ),
        saved matches Err(error) ==> after.asked() == before.asked() && r == Err::<i32, MatrixError>(
            error,
        ),
        after.room() == before.room() && after.own_loop() == before.own_loop(),
{
}

/// At the end of a wait a question of this loop is removed exactly if there is one, and
/// every other question stays as it is.
pub proof fn waits_remove_their_question(
    service: &MatrixService,
    before: MatrixState,
    after: MatrixState,
    key: Seq<char>,
    r: bool,
)
    requires
        exists|state: &mut MatrixState|
            *state == before && *final(state) == after && #[trigger] call_ensures(
                MatrixService::remove_pending_for_loop,
                (service, state),
                r,
            ),
    ensures
        ({
            let x = before.pending_questions@;
            let y = after.pending_questions@;
            let own = x.dom().contains(key) && x[key].loop_id is Some && x[key].loop_id->0@
                == service.own_loop();
            &&& own ==> r
            &&& x.dom().contains(key) && !own ==> y.dom().contains(key) && y[key] == x[key]
            &&& y.dom().contains(key) ==> x.dom().contains(key)
            &&& !r ==> y == x
            &&& r ==> exists|gone: Seq<char>| #[trigger] x.dom().contains(gone) && y == x.remove(
                gone,
            ) && x[gone].loop_id is Some && x[gone].loop_id->0@ == service.own_loop()
        }),
        after.since_token == before.since_token && after.room_id == before.room_id,
{
    let x = before.pending_questions@;
    let y = after.pending_questions@;
    let found = choose|found: Option<Seq<char>>|
        {
            &&& #[trigger] state::is_pending_of(x, service.own_loop(), found)
            &&& r == found is Some
            &&& y == (match found {
                Some(event_id) => x.remove(event_id),
                None => x,
            })
        };
    assert(state::is_pending_of(x, service.own_loop(), found));
    if found is Some {
        assert(x.dom().contains(found->0));
    }
}

/// Without an events file there is no response and the position stays; with one, the
/// position moves by as many bytes as follow it.
pub proof fn positions_move_with_the_file(
    tail: Option<&str>,
    before: u64,
    after: u64,
    r: Option<String>,
)
    requires
        exists|pos: &mut u64|
            *pos == before && *final(pos) == after && #[trigger] call_ensures(
                MatrixService::check_for_response,
                (tail, pos),
                r,
            ),
    ensures
        tail is None ==> r is None && after == before,
        tail matches Some(source) ==> after == before + vstd::utf8::encode_utf8(source@).len(),
{
}

/// A service has the settings that it was made with, has asked nothing, and keeps its state
/// in `.ralph/matrix-state.json` below the workspace root, as its handler does.
pub proof fn services_keep_their_settings(
    root: PathBuf,
    room_id: String,
    operator_id: Option<String>,
    timeout: u64,
    loop_id: String,
    service: MatrixService,
)
    requires
        call_ensures(MatrixService::new, (root, room_id, operator_id, timeout, loop_id), service),
    ensures
        service.root() == root && service.room() == room_id@ && service.limit() == timeout,
        operator_id is None ==> service.operator() is None,
        operator_id matches Some(id) ==> service.operator() == Some(id@),
        service.own_loop() == loop_id@ && service.asked() == 0,
        service.state_place().base == root,
        service.state_place().part_texts() == seq![".ralph/matrix-state.json"@],
        service.handler_places().0.base == root,
        service.handler_places().0.part_texts() == seq![".ralph/matrix-state.json"@],
        service.handler_places().1 == root,
{
}

} // verus!
