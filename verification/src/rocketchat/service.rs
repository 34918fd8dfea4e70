//! The decisions of the service that connects a loop with a Rocket.Chat room.

use super::error::{RocketChatError, RocketChatResult};
use super::handler::MessageHandler;
use super::state::{RocketChatState, StateManager};
use super::types::{self, RcMessage, SyncResult};
use crate::clock::{self, seconds, utc_now};
use crate::lists::{self, borrow_text};
use crate::place::Location;
use crate::service::{self, CheckinContext, RetryStep, WaitAction, WaitEvent};
pub use crate::service::{BASE_RETRY_DELAY_SECS, MAX_SEND_RETRIES};
use crate::{events, text};
use std::path::PathBuf;
use std::time::Duration;
use vstd::prelude::*;

verus! {

/// The state file, below the workspace root.
pub const STATE_FILE: &'static str = ".ralph/rocketchat-state.json";

/// The name of the backend in greetings.
pub const BACKEND_NAME: &'static str = "Rocket.Chat";

/// Whether an attempt can fail.
pub open spec fn fails<F: FnMut(u32) -> RocketChatResult<String>>(
    send_fn: F,
    attempt: u32,
) -> bool {
    exists|error: RocketChatError| #[trigger]
        send_fn.ensures((attempt,), Err::<String, RocketChatError>(error))
}

/// Whether a sleep after an attempt can come back.
pub open spec fn sleeps<S: FnMut(Duration)>(sleep_fn: S, attempt: u32) -> bool {
    sleep_fn.ensures((clock::seconds_span(service::backoff_secs(attempt)),), ())
}

/// Whether an attempt can succeed with a message ID, after every attempt before
/// it failed and was followed by its sleep.
pub open spec fn succeeds_at<F: FnMut(u32) -> RocketChatResult<String>, S: FnMut(Duration)>(
    send_fn: F,
    sleep_fn: S,
    attempt: u32,
    message_id: String,
) -> bool {
    &&& 1 <= attempt <= MAX_SEND_RETRIES
    &&& send_fn.ensures((attempt,), Ok::<String, RocketChatError>(message_id))
    &&& forall|earlier: u32| 1 <= earlier < attempt ==> #[trigger] fails(send_fn, earlier)
        && sleeps(sleep_fn, earlier)
}

/// Whether every attempt can fail, the last one with a given error and each other
/// one followed by its sleep.
pub open spec fn gives_up_on<F: FnMut(u32) -> RocketChatResult<String>, S: FnMut(Duration)>(
    send_fn: F,
    sleep_fn: S,
    last: RocketChatError,
) -> bool {
    &&& send_fn.ensures((MAX_SEND_RETRIES,), Err::<String, RocketChatError>(last))
    &&& forall|earlier: u32| 1 <= earlier < MAX_SEND_RETRIES ==> #[trigger] fails(send_fn, earlier)
        && sleeps(sleep_fn, earlier)
}

/// Whether a result can be that of sending with retries: the first success, or
/// the error after all attempts failed, with the words of the last of them.
pub open spec fn is_retried<F: FnMut(u32) -> RocketChatResult<String>, S: FnMut(Duration)>(
    send_fn: F,
    sleep_fn: S,
    r: RocketChatResult<String>,
) -> bool {
    match r {
        Ok(message_id) => exists|attempt: u32|
            succeeds_at(send_fn, sleep_fn, attempt, message_id),
        Err(error) => exists|last: RocketChatError|
            {
                &&& gives_up_on(send_fn, sleep_fn, last)
                &&& error matches RocketChatError::Send(cause) && cause@
                    == #[trigger] service::exhausted(last.words())
            },
    }
}

/// Executes a fallible send operation with exponential backoff.
///
/// Makes up to [`MAX_SEND_RETRIES`] attempts, numbered from 1, and sleeps for one
/// second after the first failed attempt and for two after the second. Returns
/// the first success, or `RocketChatError::Send` with the last error once all
/// attempts have failed.
///
/// The `sleep_fn` parameter allows tests to substitute a no-op sleep. It is only
/// ever asked for the delays between attempts.
pub fn retry_with_backoff<F, S>(send_fn: F, sleep_fn: S) -> (r: RocketChatResult<
    String,
>) where F: FnMut(u32) -> RocketChatResult<String>, S: FnMut(Duration)
    requires
        forall|attempt: u32|
            1 <= attempt <= MAX_SEND_RETRIES ==> #[trigger] send_fn.requires((attempt,)),
        forall|attempt: u32|
            1 <= attempt < MAX_SEND_RETRIES ==> sleep_fn.requires(
                (clock::seconds_span(#[trigger] service::backoff_secs(attempt)),),
            ),
    ensures
        is_retried(send_fn, sleep_fn, r),
{
    let mut send = send_fn;
    let mut sleep = sleep_fn;
    let mut attempt: u32 = 1;
    loop
        invariant
            send == send_fn,
            sleep == sleep_fn,
            1 <= attempt <= MAX_SEND_RETRIES,
            forall|n: u32| 1 <= n <= MAX_SEND_RETRIES ==> #[trigger] send_fn.requires((n,)),
            forall|n: u32|
                1 <= n < MAX_SEND_RETRIES ==> sleep_fn.requires(
                    (clock::seconds_span(#[trigger] service::backoff_secs(n)),),
                ),
            forall|earlier: u32|
                1 <= earlier < attempt ==> #[trigger] fails(send_fn, earlier) && sleeps(
                    sleep_fn,
                    earlier,
                ),
        decreases MAX_SEND_RETRIES - attempt,
    {
        match send(attempt) {
            Ok(message_id) => {
                assert(succeeds_at(send_fn, sleep_fn, attempt, message_id));
                return Ok(message_id);
            },
            Err(error) => {
                assert(fails(send_fn, attempt));
                match service::retry_step(attempt, true) {
                    RetryStep::Again { secs, attempt: next } => {
                        sleep(seconds(secs));
                        assert(sleeps(sleep_fn, attempt));
                        attempt = next;
                    },
                    _ => {
                        assert(gives_up_on(send_fn, sleep_fn, error));
                        return Err(
                            RocketChatError::Send(service::exhausted_text(&error.message())),
                        );
                    },
                }
            },
        }
    }
}

// ── Masking ─────────────────────────────────────────────────────────────

/// Whether a token can be cut after its first four bytes and before its last
/// four, which a token of at most eight bytes need not be.
pub open spec fn is_maskable(token: Seq<char>) -> bool {
    let bytes = vstd::utf8::encode_utf8(token);
    bytes.len() > 8 ==> vstd::utf8::is_char_boundary(bytes, 4) && vstd::utf8::is_char_boundary(
        bytes,
        bytes.len() - 4,
    )
}

/// Whether a text is a token with its middle left out: the first and the last
/// four bytes of a token of more than eight bytes, and nothing of a shorter one.
pub open spec fn is_mask_of(mask: Seq<char>, token: Seq<char>) -> bool {
    let bytes = vstd::utf8::encode_utf8(token);
    if bytes.len() > 8 {
        vstd::utf8::encode_utf8(mask) == bytes.take(4) + vstd::utf8::encode_utf8("..."@)
            + bytes.skip(bytes.len() - 4)
    } else {
        mask == "****"@
    }
}

/// Whether a token can be masked.
pub fn can_mask(token: &str) -> (r: bool)
    ensures
        r == is_maskable(token@),
{
    let size: usize = token.as_bytes().len();
    size <= 8 || (token.is_char_boundary(4) && token.is_char_boundary(size - 4))
}

/// A token with its middle left out, for logs.
pub fn mask_token(token: &str) -> (r: String)
    requires
        is_maskable(token@),
    ensures
        is_mask_of(r@, token@),
{
    let size: usize = token.as_bytes().len();
    if size > 8 {
        let (front, _) = token.split_at(4);
        let (_, back) = token.split_at(size - 4);
        let r = text::cat3(front, "...", back);
        proof {
            text::encoding_adds(front@ + "..."@, back@);
            text::encoding_adds(front@, "..."@);
        }
        r
    } else {
        String::from_str("****")
    }
}

/// A mask shows nothing of the middle of a token: tokens of more than eight bytes
/// that agree in their first and in their last four bytes have the same mask, and
/// so have all shorter ones.
pub proof fn masks_hide_the_middle(
    a: Seq<char>,
    b: Seq<char>,
    mask_of_a: Seq<char>,
    mask_of_b: Seq<char>,
)
    requires
        is_mask_of(mask_of_a, a),
        is_mask_of(mask_of_b, b),
        ({
            let x = vstd::utf8::encode_utf8(a);
            let y = vstd::utf8::encode_utf8(b);
            ||| x.len() <= 8 && y.len() <= 8
            ||| x.len() > 8 && y.len() > 8 && x.take(4) == y.take(4) && x.skip(x.len() - 4)
                == y.skip(y.len() - 4)
        }),
    ensures
        vstd::utf8::encode_utf8(mask_of_a) == vstd::utf8::encode_utf8(mask_of_b),
{
}

// ── Polling ─────────────────────────────────────────────────────────────

/// What the polling task learns.
#[derive(Debug)]
pub enum PollEvent {
    /// The shutdown flag was checked, at the start or after a sleep.
    Checked {
        /// Shutdown was requested.
        shutdown: bool,
    },
    /// The state was loaded.
    Loaded {
        /// The time of the last sync, if there was one.
        last_sync: Option<String>,
    },
    /// The state could not be loaded.
    LoadFailed,
    /// The server answered.
    Synced(SyncResult),
    /// The sync failed.
    SyncFailed {
        /// Shutdown was requested by then.
        shutdown: bool,
    },
    /// Every chosen message was handled.
    Handled,
    /// The state was saved, or could not be.
    Saved,
}

/// What the polling task does next.
#[derive(Debug)]
pub enum PollAction {
    /// End.
    Stop,
    /// Load the state.
    LoadState,
    /// Ask the server for the messages since a time.
    Sync {
        /// The time.
        since: String,
    },
    /// Handle these messages one after the other.
    Handle(Vec<RcMessage>),
    /// Note the time of the sync in the state and save it.
    SaveState {
        /// The time of the sync.
        last_sync: String,
    },
    /// Sleep, and check the shutdown flag.
    Sleep {
        /// Seconds to sleep.
        secs: u64,
    },
}

/// The messages of a sync that the polling task handles: never system messages,
/// and only those of the operator if one is set.
pub open spec fn polled(messages: Seq<RcMessage>, operator: Option<Seq<char>>) -> Seq<RcMessage> {
    match operator {
        Some(id) => types::by_sender(messages, id),
        None => messages.filter(types::sent_by_anyone()),
    }
}

/// Whether an action is the next one of the polling task, at a given time.
pub open spec fn is_next_poll(
    action: PollAction,
    event: PollEvent,
    operator: Option<Seq<char>>,
    now: Seq<char>,
) -> bool {
    match event {
        PollEvent::Checked { shutdown } => action == (if shutdown {
            PollAction::Stop
        } else {
            PollAction::LoadState
        }),
        PollEvent::Loaded { last_sync } => action matches PollAction::Sync { since } && since@ == (
        match last_sync {
            Some(time) => time@,
            None => now,
        }),
        PollEvent::LoadFailed => action == (PollAction::Sleep { secs: 1 }),
        PollEvent::Synced(result) => action matches PollAction::Handle(messages) && messages@
            == polled(result.updated@, operator),
        PollEvent::SyncFailed { shutdown } => action == (PollAction::Sleep {
            secs: if shutdown {
                1
            } else {
                5
            },
        }),
        PollEvent::Handled => action matches PollAction::SaveState { last_sync } && last_sync@
            == now,
        PollEvent::Saved => action == (PollAction::Sleep { secs: 1 }),
    }
}

/// Decides for the human-in-the-loop service of a loop in a Rocket.Chat room:
/// which messages to send and to process, and what to keep in the state.
pub struct RocketChatService {
    workspace_root: PathBuf,
    server_url: String,
    auth_token: String,
    bot_user_id: String,
    room_id: String,
    operator_id: Option<String>,
    timeout_secs: u64,
    loop_id: String,
    state_manager: StateManager,
    handler: MessageHandler,
}

impl RocketChatService {
    /// The workspace root.
    pub closed spec fn root(&self) -> PathBuf {
        self.workspace_root
    }

    /// The server URL, the auth token and the bot's user ID.
    pub closed spec fn credentials(&self) -> (Seq<char>, Seq<char>, Seq<char>) {
        (self.server_url@, self.auth_token@, self.bot_user_id@)
    }

    /// The room; empty where none is configured.
    pub closed spec fn room(&self) -> Seq<char> {
        self.room_id@
    }

    /// The operator.
    pub closed spec fn operator(&self) -> Option<Seq<char>> {
        lists::text_in(self.operator_id)
    }

    /// The time limit of a wait for a response, in seconds.
    pub closed spec fn limit(&self) -> u64 {
        self.timeout_secs
    }

    /// The loop.
    pub closed spec fn own_loop(&self) -> Seq<char> {
        self.loop_id@
    }

    /// The place of the state file.
    pub closed spec fn state_place(&self) -> Location {
        self.state_manager.place()
    }

    /// The message handler.
    pub closed spec fn own_handler(&self) -> MessageHandler {
        self.handler
    }

    /// A service for a loop.
    ///
    /// The `operator_id` filters messages in group chats to only process the
    /// designated human operator; when `None`, all non-system messages are
    /// processed.
    pub fn new(
        workspace_root: PathBuf,
        server_url: String,
        auth_token: String,
        bot_user_id: String,
        room_id: String,
        operator_id: Option<String>,
        timeout_secs: u64,
        loop_id: String,
    ) -> (r: Self)
        ensures
            r.root() == workspace_root,
            r.credentials() == (server_url@, auth_token@, bot_user_id@),
            r.room() == room_id@,
            r.operator() == lists::text_in(operator_id),
            r.limit() == timeout_secs,
            r.own_loop() == loop_id@,
            r.state_place().base == workspace_root,
            r.state_place().part_texts() == seq![STATE_FILE@],
            r.own_handler().state_place().base == workspace_root,
            r.own_handler().state_place().part_texts() == seq![STATE_FILE@],
            r.own_handler().root() == workspace_root,
    {
        let state_manager = StateManager::new(Location::under(&workspace_root, STATE_FILE));
        let handler_state_manager = StateManager::new(Location::under(&workspace_root, STATE_FILE));
        let handler = MessageHandler::new(handler_state_manager, workspace_root.clone());
        RocketChatService {
            workspace_root,
            server_url,
            auth_token,
            bot_user_id,
            room_id,
            operator_id,
            timeout_secs,
            loop_id,
            state_manager,
            handler,
        }
    }

    /// The workspace root.
    pub fn workspace_root(&self) -> (r: &PathBuf)
        ensures
            *r == self.root(),
    {
        &self.workspace_root
    }

    /// The configured time limit in seconds.
    pub fn timeout_secs(&self) -> (r: u64)
        ensures
            r == self.limit(),
    {
        self.timeout_secs
    }

    /// The server URL, the auth token and the bot's user ID, for a client.
    pub fn client_settings(&self) -> (r: (&str, &str, &str))
        ensures
            (r.0@, r.1@, r.2@) == self.credentials(),
    {
        (&self.server_url, &self.auth_token, &self.bot_user_id)
    }

    /// The auth token masked for logging.
    pub fn auth_token_masked(&self) -> (r: String)
        requires
            is_maskable(self.credentials().1),
        ensures
            is_mask_of(r@, self.credentials().1),
    {
        mask_token(&self.auth_token)
    }

    /// The state manager.
    pub fn state_manager(&self) -> (r: &StateManager)
        ensures
            r.place() == self.state_place(),
    {
        &self.state_manager
    }

    /// The message handler, to be changed.
    pub fn handler(&mut self) -> (r: &mut MessageHandler)
        ensures
            *r == old(self).own_handler(),
            final(self).own_handler() == *final(r),
            final(self).root() == old(self).root(),
            final(self).credentials() == old(self).credentials(),
            final(self).room() == old(self).room(),
            final(self).operator() == old(self).operator(),
            final(self).limit() == old(self).limit(),
            final(self).own_loop() == old(self).own_loop(),
            final(self).state_place() == old(self).state_place(),
    {
        &mut self.handler
    }

    /// The loop this service is associated with.
    pub fn loop_id(&self) -> (r: &str)
        ensures
            r@ == self.own_loop(),
    {
        &self.loop_id
    }

    /// The room this service is sending to.
    pub fn room_id(&self) -> (r: &str)
        ensures
            r@ == self.room(),
    {
        &self.room_id
    }

    /// The operator filter, if set.
    pub fn operator_id(&self) -> (r: Option<&str>)
        ensures
            lists::chars_in(r) == self.operator(),
    {
        borrow_text(&self.operator_id)
    }

    /// The error of sending outside an async runtime.
    pub fn send_without_runtime() -> (r: RocketChatError)
        ensures
            r matches RocketChatError::Send(cause) && cause@
                == "no tokio runtime available for sending"@,
    {
        RocketChatError::Send(String::from_str("no tokio runtime available for sending"))
    }

    /// Sends a message with retries, given whether there is an async runtime to
    /// send in.
    pub fn send_with_retry<F, S>(has_runtime: bool, send_fn: F, sleep_fn: S) -> (r: RocketChatResult<
        String,
    >) where F: FnMut(u32) -> RocketChatResult<String>, S: FnMut(Duration)
        requires
            forall|attempt: u32|
                1 <= attempt <= MAX_SEND_RETRIES ==> #[trigger] send_fn.requires((attempt,)),
            forall|span: Duration| #[trigger] sleep_fn.requires((span,)),
        ensures
            if has_runtime {
                is_retried(send_fn, sleep_fn, r)
            } else {
                r matches Err(RocketChatError::Send(cause)) && cause@
                    == "no tokio runtime available for sending"@
            },
    {
        if has_runtime {
            retry_with_backoff(send_fn, sleep_fn)
        } else {
            Err(Self::send_without_runtime())
        }
    }

    /// Starts the service: `Ok` with the greeting to send, which is `None` when no
    /// room is configured. The polling task needs an async runtime.
    pub fn start(&self, has_runtime: bool) -> (r: RocketChatResult<Option<String>>)
        ensures
            match r {
                Ok(Some(message)) => has_runtime && self.room().len() > 0 && message@
                    == service::greeting(self.own_loop(), BACKEND_NAME@),
                Ok(None) => has_runtime && self.room().len() == 0,
                Err(error) => !has_runtime && (error matches RocketChatError::Startup(cause)
                    && cause@ == "no tokio runtime available for polling"@),
            },
    {
        if !has_runtime {
            return Err(
                RocketChatError::Startup(
                    String::from_str("no tokio runtime available for polling"),
                ),
            );
        }
        if self.room_id.as_str().unicode_len() == 0 {
            Ok(None)
        } else {
            Ok(Some(service::greeting_text(&self.loop_id, BACKEND_NAME)))
        }
    }

    /// Stops the service: the farewell to send before shutdown is requested, which
    /// is `None` when no room is configured.
    pub fn stop(self) -> (r: Option<String>)
        ensures
            match r {
                Some(message) => self.room().len() > 0 && message@ == service::farewell(
                    self.own_loop(),
                ),
                None => self.room().len() == 0,
            },
    {
        if self.room_id.as_str().unicode_len() == 0 {
            None
        } else {
            Some(service::farewell_text(&self.loop_id))
        }
    }

    /// The question to send to the room. `None` when no room is configured.
    pub fn send_question(&self, payload: &str) -> (r: Option<String>)
        ensures
            match r {
                Some(message) => self.room().len() > 0 && message@ == payload@,
                None => self.room().len() == 0,
            },
    {
        if self.room_id.as_str().unicode_len() == 0 {
            None
        } else {
            Some(String::from_str(payload))
        }
    }

    /// Stores a question as the pending one of this loop once it was sent, with
    /// the ID of the message that carries it. `sent` is `None` where there was no
    /// room to send it to: the message ID is then empty. A question that could not
    /// be sent is not stored.
    ///
    /// Returns 0, since message IDs are strings here. The caller saves the state.
    pub fn store_question(
        &self,
        state: &mut RocketChatState,
        sent: Option<RocketChatResult<String>>,
    ) -> (r: RocketChatResult<i32>)
        ensures
            final(state).last_sync == old(state).last_sync,
            match sent {
                Some(Err(error)) => {
                    &&& r == Err::<i32, RocketChatError>(error)
                    &&& final(state).pending_questions@ == old(state).pending_questions@
                },
                _ => {
                    let message_id = match sent {
                        Some(Ok(id)) => id@,
                        _ => Seq::<char>::empty(),
                    };
                    let entry = final(state).pending_questions@[self.own_loop()];
                    &&& r == Ok::<i32, RocketChatError>(0)
                    &&& final(state).pending_questions@ == old(state).pending_questions@.insert(
                        self.own_loop(),
                        entry,
                    )
                    &&& entry.message_id@ == message_id
                },
            },
    {
        let message_id: String = match sent {
            Some(Ok(id)) => id,
            Some(Err(error)) => {
                return Err(error);
            },
            None => String::new(),
        };
        self.state_manager.add_pending_question(state, &self.loop_id, &message_id);
        Ok(0)
    }

    /// The periodic check-in message to send to the room: iteration count, elapsed
    /// time, and optional context. `None` when no room is configured.
    pub fn send_checkin(
        &self,
        iteration: u32,
        elapsed_secs: u64,
        context: Option<&CheckinContext>,
    ) -> (r: Option<String>)
        ensures
            match r {
                Some(message) => self.room().len() > 0 && message@ == service::checkin(
                    iteration,
                    elapsed_secs,
                    match context {
                        Some(known) => Some(*known),
                        None => None,
                    },
                ),
                None => self.room().len() == 0,
            },
    {
        if self.room_id.as_str().unicode_len() == 0 {
            None
        } else {
            Some(service::checkin_text(iteration, elapsed_secs, context))
        }
    }

    /// The next step of a wait for a `human.response` event. When the wait ends,
    /// the caller removes the pending question with
    /// [`RocketChatService::remove_pending_for_loop`].
    pub fn wait_for_response(&self, event: WaitEvent) -> (r: WaitAction)
        ensures
            r == service::wait_next(event),
    {
        service::wait_step(event)
    }

    /// Removes the pending question of this loop, at the end of a wait. The caller
    /// saves the state.
    pub fn remove_pending_for_loop(&self, state: &mut RocketChatState)
        ensures
            final(state).pending_questions@ == old(state).pending_questions@.remove(
                self.own_loop(),
            ),
            final(state).last_sync == old(state).last_sync,
    {
        self.state_manager.remove_pending_question(state, &self.loop_id);
    }

    /// Checks for a `human.response` event in the text that follows `file_pos` in an
    /// events file, which is `None` if the file doesn't exist. Updates `file_pos` to
    /// the new end of file.
    pub fn check_for_response(tail: Option<&str>, file_pos: &mut u64) -> (r: Option<String>)
        requires
            tail matches Some(source) ==> *old(file_pos) + events::span(source@) <= u64::MAX,
        ensures
            match tail {
                None => r is None && *final(file_pos) == *old(file_pos),
                Some(source) => {
                    &&& lists::text_in(r) == events::lines_response(events::lines_of(source@))
                    &&& *final(file_pos) == *old(file_pos) + events::span(source@)
                },
            },
    {
        match tail {
            None => None,
            Some(source) => events::find_response(source, file_pos),
        }
    }

    /// The next step of the polling task, now.
    pub fn poll_messages(&self, event: PollEvent) -> (r: PollAction)
        ensures
            exists|now: Seq<char>| is_next_poll(r, event, self.operator(), now),
    {
        let now = utc_now();
        let ghost time = now@;
        let r = self.poll_messages_at(event, now);
        assert(is_next_poll(r, event, self.operator(), time));
        r
    }

    /// The next step of the polling task, at a given time.
    pub fn poll_messages_at(&self, event: PollEvent, now: String) -> (r: PollAction)
        ensures
            is_next_poll(r, event, self.operator(), now@),
    {
        match event {
            PollEvent::Checked { shutdown } => {
                if shutdown {
                    PollAction::Stop
                } else {
                    PollAction::LoadState
                }
            },
            PollEvent::Loaded { last_sync } => PollAction::Sync {
                since: match last_sync {
                    Some(time) => time,
                    None => now,
                },
            },
            PollEvent::LoadFailed => PollAction::Sleep { secs: 1 },
            PollEvent::Synced(result) => PollAction::Handle(
                match &self.operator_id {
                    Some(id) => types::filter_by_operator(result.updated.as_slice(), id),
                    None => types::drop_system(&result.updated),
                },
            ),
            PollEvent::SyncFailed { shutdown } => {
                if shutdown {
                    PollAction::Sleep { secs: 1 }
                } else {
                    PollAction::Sleep { secs: 5 }
                }
            },
            PollEvent::Handled => PollAction::SaveState { last_sync: now },
            PollEvent::Saved => PollAction::Sleep { secs: 1 },
        }
    }
}

/// System messages are never processed, and with an operator set only the
/// operator's messages are.
pub proof fn polling_hears_only_users(messages: Seq<RcMessage>, operator: Option<Seq<char>>)
    ensures
        forall|m: RcMessage| #[trigger]
            polled(messages, operator).contains(m) <==> messages.contains(m) && m.t is None && (
            operator matches Some(id) ==> m.u.id@ == id),
{
    match operator {
        Some(id) => types::only_the_operator_is_heard(messages, id),
        None => lists::filter_contents(messages, types::sent_by_anyone()),
    }
}

/// Messages are processed one by one and in order: one exactly if it is no system message
/// and, with an operator set, the operator's.
pub proof fn polling_keeps_the_order(
    a: Seq<RcMessage>,
    b: Seq<RcMessage>,
    m: RcMessage,
    operator: Option<Seq<char>>,
)
    ensures
        polled(a + b, operator) == polled(a, operator) + polled(b, operator),
        polled(seq![m], operator) == (if m.t is None && (operator is None || m.u.id@
            == operator->0) {
            seq![m]
        } else {
            Seq::empty()
        }),
{
    match operator {
        Some(id) => types::messages_stay_in_order(a, b, m, id),
        None => types::messages_stay_in_order(a, b, m, Seq::empty()),
    }
}

/// The polling task goes round: it loads the state unless shutdown is requested, asks for
/// the messages since the last sync, or since now where there was none, handles them,
/// notes the time and sleeps a second. It sleeps a second too where the state cannot be
/// loaded, and five after a failed sync unless shutdown is requested.
pub proof fn polling_goes_round(
    service: &RocketChatService,
    event: PollEvent,
    now: String,
    time: String,
    r: PollAction,
)
    requires
        call_ensures(RocketChatService::poll_messages_at, (service, event, now), r),
    ensures
        event == (PollEvent::Checked { shutdown: true }) ==> r is Stop,
        event == (PollEvent::Checked { shutdown: false }) ==> r is LoadState,
        event == (PollEvent::Loaded { last_sync: Some(time) }) ==> (
        r matches PollAction::Sync { since } && since@ == time@),
        event == (PollEvent::Loaded { last_sync: None }) ==> (r matches PollAction::Sync { since }
            && since@ == now@),
        event is LoadFailed ==> r == (PollAction::Sleep { secs: 1 }),
        event matches PollEvent::Synced(result) ==> r is Handle && forall|m: RcMessage|
            (r->Handle_0)@.contains(m) <==> #[trigger] result.updated@.contains(m) && m.t is None
                && (service.operator() matches Some(id) ==> m.u.id@ == id),
        event == (PollEvent::SyncFailed { shutdown: true }) ==> r == (PollAction::Sleep { secs: 1 }),
        event == (PollEvent::SyncFailed { shutdown: false }) ==> r == (PollAction::Sleep {
            secs: 5,
        }),
        event is Handled ==> (r matches PollAction::SaveState { last_sync } && last_sync@ == now@),
        event is Saved ==> r == (PollAction::Sleep { secs: 1 }),
{
    match event {
        PollEvent::Synced(result) => polling_hears_only_users(result.updated@, service.operator()),
        _ => {},
    }
}

/// Without a room nothing is sent. With one, a question goes out word for word, a loop
/// that starts greets by its own name and one that ends takes leave by it. A service
/// starts exactly if there is a runtime.
pub proof fn nothing_is_sent_without_a_room(
    service: RocketChatService,
    has_runtime: bool,
    payload: &str,
    iteration: u32,
    secs: u64,
    context: Option<&CheckinContext>,
    question: Option<String>,
    checkin: Option<String>,
    words: String,
    started: RocketChatResult<Option<String>>,
    stopped: Option<String>,
)
    requires
        call_ensures(RocketChatService::send_question, (&service, payload), question),
        call_ensures(
            RocketChatService::send_checkin,
            (&service, iteration, secs, context),
            checkin,
        ),
        call_ensures(service::checkin_text, (iteration, secs, context), words),
        call_ensures(RocketChatService::start, (&service, has_runtime), started),
        call_ensures(RocketChatService::stop, (service,), stopped),
    ensures
        question is Some <==> service.room().len() > 0,
        checkin is Some <==> service.room().len() > 0,
        stopped is Some <==> service.room().len() > 0,
        question matches Some(message) ==> message@ == payload@,
        checkin matches Some(message) ==> message@ == words@,
        stopped matches Some(message) ==> message@ == "👋 Ralph loop `"@ + service.own_loop()
            + "` disconnecting."@,
        started is Ok <==> has_runtime,
        started matches Ok(greeting) ==> (greeting is Some <==> service.room().len() > 0),
        started matches Ok(Some(message)) ==> message@ == "🤖 Ralph loop `"@ + service.own_loop()
            + "` connected via "@ + "Rocket.Chat"@,
        started matches Err(error) ==> (error matches RocketChatError::Startup(cause) && cause@
            == "no tokio runtime available for polling"@),
{
}

/// A message that is sent with retries was sent by one of three attempts, each earlier one
/// of which failed and was followed by its sleep, of one second and then of two; or all
/// three have failed, and the error has the words of the last.
pub proof fn sending_is_tried_thrice<F: FnMut(u32) -> RocketChatResult<String>, S: FnMut(Duration)>(
    send_fn: F,
    sleep_fn: S,
    r: RocketChatResult<String>,
)
    requires
        is_retried(send_fn, sleep_fn, r),
    ensures
        r matches Ok(message_id) ==> exists|attempt: u32|
            {
                &&& #[trigger] send_fn.ensures(
                    (attempt,),
                    Ok::<String, RocketChatError>(message_id),
                )
                &&& attempt == 1 || attempt == 2 || attempt == 3
                &&& attempt >= 2 ==> fails(send_fn, 1) && sleep_fn.ensures(
                    (clock::seconds_span(1),),
                    (),
                )
                &&& attempt >= 3 ==> fails(send_fn, 2) && sleep_fn.ensures(
                    (clock::seconds_span(2),),
                    (),
                )
            },
        r matches Err(error) ==> exists|last: RocketChatError|
            {
                &&& #[trigger] send_fn.ensures((3,), Err::<String, RocketChatError>(last))
                &&& fails(send_fn, 1) && sleep_fn.ensures((clock::seconds_span(1),), ())
                &&& fails(send_fn, 2) && sleep_fn.ensures((clock::seconds_span(2),), ())
                &&& error matches RocketChatError::Send(cause) && cause@
                    == "failed after 3 attempts: "@ + last.words()
            },
{
    reveal_with_fuel(service::backoff_secs, 3);
    assert(service::backoff_secs(1) == 1 && service::backoff_secs(2) == 2);
    match r {
        Ok(message_id) => {
            let attempt = choose|attempt: u32| succeeds_at(send_fn, sleep_fn, attempt, message_id);
            assert(send_fn.ensures((attempt,), Ok::<String, RocketChatError>(message_id)));
            if attempt >= 2 {
                assert(fails(send_fn, 1));
            }
            if attempt >= 3 {
                assert(fails(send_fn, 2));
            }
        },
        Err(error) => {
            let last = choose|last: RocketChatError|
                {
                    &&& gives_up_on(send_fn, sleep_fn, last)
                    &&& error matches RocketChatError::Send(cause) && cause@
                        == #[trigger] service::exhausted(last.words())
                };
            assert(send_fn.ensures((3,), Err::<String, RocketChatError>(last)));
            assert(fails(send_fn, 1));
            assert(fails(send_fn, 2));
            service::exhaustion_in_words(last.words());
        },
    }
}

/// A mask is the first four bytes of a token, three dots and its last four bytes, where
/// the token has more than eight, and four stars else.
pub proof fn masks_show_both_ends(token: &str, r: String)
    requires
        call_ensures(mask_token, (token,), r),
    ensures
        ({
            let bytes = vstd::utf8::encode_utf8(token@);
            &&& bytes.len() <= 8 ==> r@ == "****"@
            &&& bytes.len() > 8 ==> vstd::utf8::encode_utf8(r@) == bytes.subrange(0, 4)
                + vstd::utf8::encode_utf8("..."@) + bytes.subrange(
                bytes.len() - 4,
                bytes.len() as int,
            )
        }),
{
    let bytes = vstd::utf8::encode_utf8(token@);
    if bytes.len() > 8 {
        assert(bytes.subrange(0, 4) =~= bytes.take(4));
        assert(bytes.subrange(bytes.len() - 4, bytes.len() as int) =~= bytes.skip(bytes.len() - 4));
    }
}

/// A question is kept as the pending one of this loop exactly if it was sent or there was
/// no room to send it to: with the ID of the message that carries it, or with the empty
/// one. No other question changes. A question that could not be sent gives its error. At
/// the end of a wait exactly the question of this loop is removed.
pub proof fn sent_questions_are_kept(
    service: &RocketChatService,
    before: RocketChatState,
    after: RocketChatState,
    removed: RocketChatState,
    sent: Option<RocketChatResult<String>>,
    key: Seq<char>,
    r: RocketChatResult<i32>,
)
    requires
        exists|state: &mut RocketChatState|
            *state == before && *final(state) == after && #[trigger] call_ensures(
                RocketChatService::store_question,
                (service, state, sent),
                r,
            ),
        exists|state: &mut RocketChatState|
            *state == before && *final(state) == removed && #[trigger] call_ensures(
                RocketChatService::remove_pending_for_loop,
                (service, state),
                (),
            ),
    ensures
        ({
            let x = before.pending_questions@;
            let y = after.pending_questions@;
            let z = removed.pending_questions@;
            let own = service.own_loop();
            let kept = |id: Seq<char>|
                {
                    &&& r == Ok::<i32, RocketChatError>(0)
                    &&& y.dom().contains(key) <==> x.dom().contains(key) || key == own
                    &&& x.dom().contains(key) && key != own ==> y[key] == x[key]
                    &&& y[own].message_id@ == id
                };
            &&& sent matches Some(Ok(message_id)) ==> kept(message_id@)
            &&& sent is None ==> kept(Seq::empty())
            &&& sent matches Some(Err(error)) ==> y == x && r == Err::<i32, RocketChatError>(error)
            &&& z.dom().contains(key) <==> x.dom().contains(key) && key != own
            &&& z.dom().contains(key) ==> z[key] == x[key]
        }),
        after.last_sync == before.last_sync && removed.last_sync == before.last_sync,
{
}

/// Without an events file there is no response and the position stays; with one, the
/// position moves by as many bytes as follow it.
pub proof fn positions_move_with_the_file(
    tail: Option<&str>,
    before: u64,
    after: u64,
    r: Option<String>,
)
    requires
        exists|pos: &mut u64|
            *pos == before && *final(pos) == after && #[trigger] call_ensures(
                RocketChatService::check_for_response,
                (tail, pos),
                r,
            ),
    ensures
        tail is None ==> r is None && after == before,
        tail matches Some(source) ==> after == before + vstd::utf8::encode_utf8(source@).len(),
{
}

/// A service has the settings that it was made with, and keeps its state in
/// `.ralph/rocketchat-state.json` below the workspace root, as its handler does.
pub proof fn services_keep_their_settings(
    root: PathBuf,
    server_url: String,
    auth_token: String,
    bot_user_id: String,
    room_id: String,
    operator_id: Option<String>,
    timeout_secs: u64,
    loop_id: String,
    service: RocketChatService,
)
    requires
        call_ensures(
            RocketChatService::new,
            (
                root,
                server_url,
                auth_token,
                bot_user_id,
                room_id,
                operator_id,
                timeout_secs,
                loop_id,
            ),
            service,
        ),
    ensures
        service.root() == root && service.room() == room_id@ && service.limit() == timeout_secs,
        service.credentials() == (server_url@, auth_token@, bot_user_id@),
        operator_id is None ==> service.operator() is None,
        operator_id matches Some(id) ==> service.operator() == Some(id@),
        service.own_loop() == loop_id@,
        service.state_place().base == root,
        service.state_place().part_texts() == seq![".ralph/rocketchat-state.json"@],
        service.own_handler().state_place().base == root,
        service.own_handler().state_place().part_texts() == seq![".ralph/rocketchat-state.json"@],
        service.own_handler().root() == root,
{
}

} // verus!
