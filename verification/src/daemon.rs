//! The daemon that listens to a chat room while no loop runs and starts a loop
//! when the operator asks for one.
//!
//! The daemon takes turns with the loops: it polls the room while idle and stops
//! polling when a loop starts, whose own service takes over. When the loop
//! finishes, the daemon resumes.

use crate::lists;
use crate::place;
use crate::text;
use vstd::prelude::*;

verus! {

/// The chat backend of a daemon.
#[derive(Debug, Clone, Copy, PartialEq, Eq, Structural)]
pub enum DaemonKind {
    /// Matrix: commands begin with `!`, and a sync waits for messages.
    Matrix,
    /// Rocket.Chat: commands begin with `/`, and a sync returns at once.
    RocketChat,
}

/// The message that the daemon sends when it starts.
pub const ONLINE: &'static str = "Ralph daemon online 🤖";

/// The message that the daemon sends when it ends.
pub const OFFLINE: &'static str = "Ralph daemon offline 👋";

/// The reply while a loop is running.
pub const BUSY: &'static str =
    "A loop is already running — it will receive your messages directly.";

/// The reply where it cannot be told whether a loop is running.
pub const UNSURE: &'static str = "Failed to check loop state; try again in a moment.";

/// The reply to an unknown command in a Matrix room.
pub const UNKNOWN_MATRIX: &'static str = "Unknown command. Use !help for the supported commands.";

/// The reply to an unknown command in a Rocket.Chat room.
pub const UNKNOWN_ROCKETCHAT: &'static str =
    "Unknown command. Use /help for the supported commands.";

/// How long the daemon sleeps after a failed sync, in seconds.
pub const FAILED_SYNC_SECS: u64 = 5;

/// How long the Rocket.Chat daemon sleeps after a sync without messages, in
/// seconds.
pub const QUIET_SECS: u64 = 2;

/// What the lock of the primary loop says.
#[derive(Debug, Clone, Copy, PartialEq, Eq, Structural)]
pub enum LockReport {
    /// It cannot be read.
    Unreadable,
    /// A loop is running.
    Active,
    /// A loop was running and has left its lock behind.
    Stale,
    /// No loop is running.
    Inactive,
}

/// Where the daemon stands.
#[derive(Debug)]
pub enum Phase {
    /// Its greeting is being sent.
    Greeting,
    /// The shutdown flag is being checked.
    Idle,
    /// It is waiting for messages.
    Syncing,
    /// It sleeps.
    Resting,
    /// A command is being answered.
    Commanding,
    /// A reply is being sent.
    Replying,
    /// The lock is being read, for a loop with this prompt.
    Locking(String),
    /// The start of a loop with this prompt is being announced.
    Acknowledging(String),
    /// A loop is running.
    Running,
    /// The end of a loop is being announced.
    Reporting,
    /// The messages that came in during a loop are being skipped.
    Settling,
    /// Its farewell is being sent.
    Leaving,
    /// It has ended.
    Over,
}

/// The mathematical value of a phase.
pub enum PhaseView {
    /// Its greeting is being sent.
    Greeting,
    /// The shutdown flag is being checked.
    Idle,
    /// It is waiting for messages.
    Syncing,
    /// It sleeps.
    Resting,
    /// A command is being answered.
    Commanding,
    /// A reply is being sent.
    Replying,
    /// The lock is being read, for a loop with this prompt.
    Locking(Seq<char>),
    /// The start of a loop with this prompt is being announced.
    Acknowledging(Seq<char>),
    /// A loop is running.
    Running,
    /// The end of a loop is being announced.
    Reporting,
    /// The messages that came in during a loop are being skipped.
    Settling,
    /// Its farewell is being sent.
    Leaving,
    /// It has ended.
    Over,
}

impl View for Phase {
    type V = PhaseView;

    open spec fn view(&self) -> PhaseView {
        match self {
            Phase::Greeting => PhaseView::Greeting,
            Phase::Idle => PhaseView::Idle,
            Phase::Syncing => PhaseView::Syncing,
            Phase::Resting => PhaseView::Resting,
            Phase::Commanding => PhaseView::Commanding,
            Phase::Replying => PhaseView::Replying,
            Phase::Locking(prompt) => PhaseView::Locking(prompt@),
            Phase::Acknowledging(prompt) => PhaseView::Acknowledging(prompt@),
            Phase::Running => PhaseView::Running,
            Phase::Reporting => PhaseView::Reporting,
            Phase::Settling => PhaseView::Settling,
            Phase::Leaving => PhaseView::Leaving,
            Phase::Over => PhaseView::Over,
        }
    }
}

/// What the daemon learns.
#[derive(Debug)]
pub enum DaemonEvent {
    /// A message was sent, or could not be.
    Sent,
    /// The shutdown flag was checked.
    Checked {
        /// Shutdown was requested.
        shutdown: bool,
    },
    /// A sync brought messages to look at, as their texts in order.
    Synced(Vec<String>),
    /// A sync failed.
    SyncFailed,
    /// Shutdown was requested during a sync or a loop.
    Interrupted,
    /// A sleep is over.
    Slept,
    /// A command was looked up: its answer, if it is known.
    Answered(Option<String>),
    /// The lock was read.
    LockRead(LockReport),
    /// A loop has come to its end, as described.
    LoopCompleted(String),
    /// A loop has failed, for this reason.
    LoopFailed(String),
    /// The messages that came in during a loop were skipped.
    Settled,
}

/// The mathematical value of an event.
pub enum EventView {
    /// A message was sent, or could not be.
    Sent,
    /// The shutdown flag was checked.
    Checked {
        /// Shutdown was requested.
        shutdown: bool,
    },
    /// A sync brought messages to look at, as their texts in order.
    Synced(Seq<Seq<char>>),
    /// A sync failed.
    SyncFailed,
    /// Shutdown was requested during a sync or a loop.
    Interrupted,
    /// A sleep is over.
    Slept,
    /// A command was looked up: its answer, if it is known.
    Answered(Option<Seq<char>>),
    /// The lock was read.
    LockRead(LockReport),
    /// A loop has come to its end, as described.
    LoopCompleted(Seq<char>),
    /// A loop has failed, for this reason.
    LoopFailed(Seq<char>),
    /// The messages that came in during a loop were skipped.
    Settled,
}

impl View for DaemonEvent {
    type V = EventView;

    open spec fn view(&self) -> EventView {
        match self {
            DaemonEvent::Sent => EventView::Sent,
            DaemonEvent::Checked { shutdown } => EventView::Checked { shutdown: *shutdown },
            DaemonEvent::Synced(messages) => EventView::Synced(place::texts(messages@)),
            DaemonEvent::SyncFailed => EventView::SyncFailed,
            DaemonEvent::Interrupted => EventView::Interrupted,
            DaemonEvent::Slept => EventView::Slept,
            DaemonEvent::Answered(answer) => EventView::Answered(lists::text_in(*answer)),
            DaemonEvent::LockRead(report) => EventView::LockRead(*report),
            DaemonEvent::LoopCompleted(description) => EventView::LoopCompleted(description@),
            DaemonEvent::LoopFailed(reason) => EventView::LoopFailed(reason@),
            DaemonEvent::Settled => EventView::Settled,
        }
    }
}

/// What the daemon does next.
#[derive(Debug)]
pub enum DaemonAction {
    /// Send a message to the room; a failure is ignored.
    Send(String),
    /// Check the shutdown flag.
    CheckShutdown,
    /// Wait for messages, or for shutdown.
    Sync,
    /// Sleep for some seconds.
    Sleep(u64),
    /// Look up the answer to a command.
    AnswerCommand(String),
    /// Read the lock of the primary loop.
    ReadLock,
    /// Run a loop with a prompt until it ends or shutdown is requested, and abort
    /// it in that case.
    RunLoop(String),
    /// Skip the messages that came in during the loop.
    Settle,
    /// End.
    Exit,
    /// Nothing, since the event was not awaited.
    Ignore,
}

/// The mathematical value of an action.
pub enum ActionView {
    /// Send a message to the room; a failure is ignored.
    Send(Seq<char>),
    /// Check the shutdown flag.
    CheckShutdown,
    /// Wait for messages, or for shutdown.
    Sync,
    /// Sleep for some seconds.
    Sleep(u64),
    /// Look up the answer to a command.
    AnswerCommand(Seq<char>),
    /// Read the lock of the primary loop.
    ReadLock,
    /// Run a loop with a prompt until it ends or shutdown is requested, and abort
    /// it in that case.
    RunLoop(Seq<char>),
    /// Skip the messages that came in during the loop.
    Settle,
    /// End.
    Exit,
    /// Nothing, since the event was not awaited.
    Ignore,
}

impl View for DaemonAction {
    type V = ActionView;

    open spec fn view(&self) -> ActionView {
        match self {
            DaemonAction::Send(message) => ActionView::Send(message@),
            DaemonAction::CheckShutdown => ActionView::CheckShutdown,
            DaemonAction::Sync => ActionView::Sync,
            DaemonAction::Sleep(secs) => ActionView::Sleep(*secs),
            DaemonAction::AnswerCommand(command) => ActionView::AnswerCommand(command@),
            DaemonAction::ReadLock => ActionView::ReadLock,
            DaemonAction::RunLoop(prompt) => ActionView::RunLoop(prompt@),
            DaemonAction::Settle => ActionView::Settle,
            DaemonAction::Exit => ActionView::Exit,
            DaemonAction::Ignore => ActionView::Ignore,
        }
    }
}

/// A running daemon.
#[derive(Debug)]
pub struct DaemonRun {
    kind: DaemonKind,
    phase: Phase,
    queue: Vec<String>,
    next: usize,
}

/// The mathematical value of a running daemon.
pub struct DaemonView {
    /// The chat backend.
    pub kind: DaemonKind,
    /// Where the daemon stands.
    pub phase: PhaseView,
    /// The messages of the last sync that were not looked at yet.
    pub queue: Seq<Seq<char>>,
}

impl View for DaemonRun {
    type V = DaemonView;

    closed spec fn view(&self) -> DaemonView {
        DaemonView {
            kind: self.kind,
            phase: self.phase@,
            queue: place::texts(self.queue@).skip(self.next as int),
        }
    }
}

/// The character that commands begin with.
pub open spec fn command_mark(kind: DaemonKind) -> char {
    match kind {
        DaemonKind::Matrix => '!',
        DaemonKind::RocketChat => '/',
    }
}

/// The reply to an unknown command.
pub open spec fn unknown_command(kind: DaemonKind) -> Seq<char> {
    match kind {
        DaemonKind::Matrix => UNKNOWN_MATRIX@,
        DaemonKind::RocketChat => UNKNOWN_ROCKETCHAT@,
    }
}

/// The daemon in another phase.
pub open spec fn moved(daemon: DaemonView, phase: PhaseView) -> DaemonView {
    DaemonView { kind: daemon.kind, phase, queue: daemon.queue }
}

/// How the daemon goes on with the messages that it has not looked at: blank
/// ones are skipped, a command is looked up, and any other asks for a loop. With
/// no message left, the daemon is idle again.
pub open spec fn go_on(kind: DaemonKind, queue: Seq<Seq<char>>) -> (DaemonView, ActionView)
    decreases queue.len(),
{
    if queue.len() == 0 {
        (DaemonView { kind, phase: PhaseView::Idle, queue }, ActionView::CheckShutdown)
    } else {
        let words = text::trimmed(queue[0]);
        let rest = queue.skip(1);
        if words.len() == 0 {
            go_on(kind, rest)
        } else if words[0] == command_mark(kind) {
            (
                DaemonView { kind, phase: PhaseView::Commanding, queue: rest },
                ActionView::AnswerCommand(words),
            )
        } else {
            (
                DaemonView { kind, phase: PhaseView::Locking(words), queue: rest },
                ActionView::ReadLock,
            )
        }
    }
}

/// The next step of the daemon.
pub open spec fn daemon_next(daemon: DaemonView, event: EventView) -> (DaemonView, ActionView) {
    match (daemon.phase, event) {
        (PhaseView::Greeting, EventView::Sent) | (PhaseView::Resting, EventView::Slept) => (
            moved(daemon, PhaseView::Idle),
            ActionView::CheckShutdown,
        ),
        (PhaseView::Idle, EventView::Checked { shutdown }) => if shutdown {
            (moved(daemon, PhaseView::Leaving), ActionView::Send(OFFLINE@))
        } else {
            (moved(daemon, PhaseView::Syncing), ActionView::Sync)
        },
        (PhaseView::Syncing, EventView::Synced(messages)) => if messages.len() == 0 && daemon.kind
            == DaemonKind::RocketChat {
            (
                DaemonView { kind: daemon.kind, phase: PhaseView::Resting, queue: messages },
                ActionView::Sleep(QUIET_SECS),
            )
        } else {
            go_on(daemon.kind, messages)
        },
        (PhaseView::Syncing, EventView::SyncFailed) => (
            moved(daemon, PhaseView::Resting),
            ActionView::Sleep(FAILED_SYNC_SECS),
        ),
        (PhaseView::Syncing, EventView::Interrupted) | (
            PhaseView::Running,
            EventView::Interrupted,
        ) => (moved(daemon, PhaseView::Leaving), ActionView::Send(OFFLINE@)),
        (PhaseView::Commanding, EventView::Answered(answer)) => (
            moved(daemon, PhaseView::Replying),
            ActionView::Send(
                match answer {
                    Some(response) => response,
                    None => unknown_command(daemon.kind),
                },
            ),
        ),
        (PhaseView::Replying, EventView::Sent) | (PhaseView::Settling, EventView::Settled) => go_on(
            daemon.kind,
            daemon.queue,
        ),
        (PhaseView::Locking(prompt), EventView::LockRead(report)) => match report {
            LockReport::Unreadable => (
                moved(daemon, PhaseView::Replying),
                ActionView::Send(UNSURE@),
            ),
            LockReport::Active => (moved(daemon, PhaseView::Replying), ActionView::Send(BUSY@)),
            LockReport::Stale | LockReport::Inactive => (
                moved(daemon, PhaseView::Acknowledging(prompt)),
                ActionView::Send("Starting loop: *"@ + prompt + "*"@),
            ),
        },
        (PhaseView::Acknowledging(prompt), EventView::Sent) => (
            moved(daemon, PhaseView::Running),
            ActionView::RunLoop(prompt),
        ),
        (PhaseView::Running, EventView::LoopCompleted(description)) => (
            moved(daemon, PhaseView::Reporting),
            ActionView::Send("Loop complete ("@ + description + ")."@),
        ),
        (PhaseView::Running, EventView::LoopFailed(reason)) => (
            moved(daemon, PhaseView::Reporting),
            ActionView::Send("Loop failed: "@ + reason),
        ),
        (PhaseView::Reporting, EventView::Sent) => (
            moved(daemon, PhaseView::Settling),
            ActionView::Settle,
        ),
        (PhaseView::Leaving, EventView::Sent) => (moved(daemon, PhaseView::Over), ActionView::Exit),
        _ => (daemon, ActionView::Ignore),
    }
}

impl DaemonRun {
    #[verifier::type_invariant]
    spec fn well_formed(self) -> bool {
        self.next <= self.queue@.len()
    }

    /// A daemon that starts, and its greeting.
    pub fn start(kind: DaemonKind) -> (r: (DaemonRun, DaemonAction))
        ensures
            r.0@ == (DaemonView { kind, phase: PhaseView::Greeting, queue: Seq::empty() }),
            r.1@ == ActionView::Send(ONLINE@),
    {
        let run = DaemonRun { kind, phase: Phase::Greeting, queue: Vec::new(), next: 0 };
        assert(run@.queue =~= Seq::empty());
        (run, DaemonAction::Send(String::from_str(ONLINE)))
    }

    fn proceed(kind: DaemonKind, queue: Vec<String>, from: usize) -> (r: (DaemonRun, DaemonAction))
        requires
            from <= queue@.len(),
        ensures
            (r.0@, r.1@) == go_on(kind, place::texts(queue@).skip(from as int)),
    {
        let ghost all = place::texts(queue@);
        let mut i: usize = from;
        while i < queue.len()
            invariant
                from <= i <= queue@.len(),
                all == place::texts(queue@),
                go_on(kind, all.skip(i as int)) == go_on(kind, all.skip(from as int)),
            decreases queue@.len() - i,
        {
            let words = text::trim(&queue[i]);
            assert(all.skip(i as int)[0] == queue@[i as int]@);
            assert(all.skip(i as int).skip(1) == all.skip(i + 1));
            if words.unicode_len() > 0 {
                let mark: char = match kind {
                    DaemonKind::Matrix => '!',
                    DaemonKind::RocketChat => '/',
                };
                let owned = String::from_str(words);
                if text::starts_with_char(words, mark) {
                    return (
                        DaemonRun { kind, phase: Phase::Commanding, queue, next: i + 1 },
                        DaemonAction::AnswerCommand(owned),
                    );
                }
                return (
                    DaemonRun { kind, phase: Phase::Locking(owned), queue, next: i + 1 },
                    DaemonAction::ReadLock,
                );
            }
            i = i + 1;
        }
        (DaemonRun { kind, phase: Phase::Idle, queue, next: i }, DaemonAction::CheckShutdown)
    }

    /// The next step of the daemon.
    pub fn step(self, event: DaemonEvent) -> (r: (DaemonRun, DaemonAction))
        ensures
            (r.0@, r.1@) == daemon_next(self@, event@),
    {
        proof {
            use_type_invariant(&self);
        }
        let DaemonRun { kind, phase, queue, next } = self;
        match (phase, event) {
            (Phase::Greeting, DaemonEvent::Sent) | (Phase::Resting, DaemonEvent::Slept) => (
                DaemonRun { kind, phase: Phase::Idle, queue, next },
                DaemonAction::CheckShutdown,
            ),
            (Phase::Idle, DaemonEvent::Checked { shutdown }) => {
                if shutdown {
                    (
                        DaemonRun { kind, phase: Phase::Leaving, queue, next },
                        DaemonAction::Send(String::from_str(OFFLINE)),
                    )
                } else {
                    (DaemonRun { kind, phase: Phase::Syncing, queue, next }, DaemonAction::Sync)
                }
            },
            (Phase::Syncing, DaemonEvent::Synced(messages)) => {
                assert(place::texts(messages@).skip(0) == place::texts(messages@));
                if messages.len() == 0 && kind == DaemonKind::RocketChat {
                    (
                        DaemonRun { kind, phase: Phase::Resting, queue: messages, next: 0 },
                        DaemonAction::Sleep(QUIET_SECS),
                    )
                } else {
                    Self::proceed(kind, messages, 0)
                }
            },
            (Phase::Syncing, DaemonEvent::SyncFailed) => (
                DaemonRun { kind, phase: Phase::Resting, queue, next },
                DaemonAction::Sleep(FAILED_SYNC_SECS),
            ),
            (Phase::Syncing, DaemonEvent::Interrupted) | (
                Phase::Running,
                DaemonEvent::Interrupted,
            ) => (
                DaemonRun { kind, phase: Phase::Leaving, queue, next },
                DaemonAction::Send(String::from_str(OFFLINE)),
            ),
            (Phase::Commanding, DaemonEvent::Answered(answer)) => {
                let reply: String = match answer {
                    Some(response) => response,
                    None => match kind {
                        DaemonKind::Matrix => String::from_str(UNKNOWN_MATRIX),
                        DaemonKind::RocketChat => String::from_str(UNKNOWN_ROCKETCHAT),
                    },
                };
                (
                    DaemonRun { kind, phase: Phase::Replying, queue, next },
                    DaemonAction::Send(reply),
                )
            },
            (Phase::Replying, DaemonEvent::Sent) | (
                Phase::Settling,
                DaemonEvent::Settled,
            ) => Self::proceed(kind, queue, next),
            (Phase::Locking(prompt), DaemonEvent::LockRead(report)) => match report {
                LockReport::Unreadable => (
                    DaemonRun { kind, phase: Phase::Replying, queue, next },
                    DaemonAction::Send(String::from_str(UNSURE)),
                ),
                LockReport::Active => (
                    DaemonRun { kind, phase: Phase::Replying, queue, next },
                    DaemonAction::Send(String::from_str(BUSY)),
                ),
                LockReport::Stale | LockReport::Inactive => {
                    let acknowledgement = text::cat3("Starting loop: *", &prompt, "*");
                    (
                        DaemonRun { kind, phase: Phase::Acknowledging(prompt), queue, next },
                        DaemonAction::Send(acknowledgement),
                    )
                },
            },
            (Phase::Acknowledging(prompt), DaemonEvent::Sent) => (
                DaemonRun { kind, phase: Phase::Running, queue, next },
                DaemonAction::RunLoop(prompt),
            ),
            (Phase::Running, DaemonEvent::LoopCompleted(description)) => (
                DaemonRun { kind, phase: Phase::Reporting, queue, next },
                DaemonAction::Send(text::cat3("Loop complete (", &description, ").")),
            ),
            (Phase::Running, DaemonEvent::LoopFailed(reason)) => (
                DaemonRun { kind, phase: Phase::Reporting, queue, next },
                DaemonAction::Send(text::cat2("Loop failed: ", &reason)),
            ),
            (Phase::Reporting, DaemonEvent::Sent) => (
                DaemonRun { kind, phase: Phase::Settling, queue, next },
                DaemonAction::Settle,
            ),
            (Phase::Leaving, DaemonEvent::Sent) => (
                DaemonRun { kind, phase: Phase::Over, queue, next },
                DaemonAction::Exit,
            ),
            (phase, _) => (DaemonRun { kind, phase, queue, next }, DaemonAction::Ignore),
        }
    }
}

proof fn going_on_starts_nothing(kind: DaemonKind, queue: Seq<Seq<char>>)
    ensures
        !(go_on(kind, queue).1 is RunLoop),
        !(go_on(kind, queue).1 is Sync),
        !(go_on(kind, queue).0.phase is Acknowledging),
        !(go_on(kind, queue).0.phase is Running),
        go_on(kind, queue).0.kind == kind,
        go_on(kind, queue).0.phase matches PhaseView::Locking(prompt) ==> prompt.len() > 0
            && prompt[0] != command_mark(kind),
    decreases queue.len(),
{
    if queue.len() > 0 && text::trimmed(queue[0]).len() == 0 {
        going_on_starts_nothing(kind, queue.skip(1));
    }
}

/// A loop is started only after the lock was read and no loop was running: the
/// daemon starts one only when it has announced it, and announces one only upon
/// a lock that is stale or not held.
pub proof fn never_two_loops(daemon: DaemonView, event: EventView)
    ensures
        daemon_next(daemon, event).1 is RunLoop ==> daemon.phase is Acknowledging,
        daemon_next(daemon, event).0.phase is Acknowledging && !(daemon.phase is Acknowledging)
            ==> daemon.phase is Locking && (event == EventView::LockRead(LockReport::Stale) || event
            == EventView::LockRead(LockReport::Inactive)),
        daemon.phase is Locking && event == EventView::LockRead(LockReport::Active)
            ==> daemon_next(daemon, event).1 == ActionView::Send(BUSY@),
{
    match event {
        EventView::Synced(messages) => going_on_starts_nothing(daemon.kind, messages),
        _ => {},
    }
    going_on_starts_nothing(daemon.kind, daemon.queue);
}

/// While a loop runs the daemon does not poll the room: it only waits for the
/// loop to end, or leaves upon shutdown.
pub proof fn daemon_and_loop_take_turns(daemon: DaemonView, event: EventView)
    ensures
        daemon.phase is Running ==> !(daemon_next(daemon, event).1 is Sync),
        daemon.phase is Running && event is Interrupted ==> daemon_next(daemon, event) == (
            moved(daemon, PhaseView::Leaving),
            ActionView::Send(OFFLINE@),
        ),
        daemon_next(daemon, event).1 is Sync ==> daemon.phase is Idle,
        daemon_next(daemon, event).0.kind == daemon.kind,
{
    match event {
        EventView::Synced(messages) => going_on_starts_nothing(daemon.kind, messages),
        _ => {},
    }
    going_on_starts_nothing(daemon.kind, daemon.queue);
}

/// A command is never taken for a prompt, nor is a blank message.
pub proof fn commands_are_no_prompts(daemon: DaemonView, event: EventView)
    requires
        !(daemon.phase is Locking),
    ensures
        daemon_next(daemon, event).0.phase matches PhaseView::Locking(prompt) ==> prompt.len() > 0
            && prompt[0] != command_mark(daemon.kind),
{
    match event {
        EventView::Synced(messages) => going_on_starts_nothing(daemon.kind, messages),
        _ => {},
    }
    going_on_starts_nothing(daemon.kind, daemon.queue);
}

/// Whether the daemon takes up this queue upon this event: the messages of a sync, or
/// what is left of them once a reply was sent or a loop has ended.
pub open spec fn takes_up(daemon: DaemonView, event: EventView, queue: Seq<Seq<char>>) -> bool {
    ||| daemon.phase is Syncing && event == EventView::Synced(queue)
    ||| daemon.phase is Replying && event is Sent && queue == daemon.queue
    ||| daemon.phase is Settling && event is Settled && queue == daemon.queue
}

proof fn blank_is_skipped(blank: Seq<char>)
    requires
        text::is_blank(blank),
    ensures
        text::trimmed(blank).len() == 0,
{
    let none = Seq::<char>::empty();
    text::trimming_leaves_the_words(blank, none, none);
    assert(blank + none + none =~= blank);
}

proof fn going_on_skips_blanks(kind: DaemonKind, queue: Seq<Seq<char>>, i: int)
    requires
        0 <= i <= queue.len(),
        forall|k: int| 0 <= k < i ==> text::is_blank(#[trigger] queue[k]),
    ensures
        go_on(kind, queue) == go_on(kind, queue.skip(i)),
    decreases i,
{
    if i > 0 {
        blank_is_skipped(queue[0]);
        let rest = queue.skip(1);
        assert forall|k: int| 0 <= k < i - 1 implies text::is_blank(#[trigger] rest[k]) by {
            assert(rest[k] == queue[k + 1]);
        }
        going_on_skips_blanks(kind, rest, i - 1);
        assert(rest.skip(i - 1) =~= queue.skip(i));
    } else {
        assert(queue.skip(0) =~= queue);
    }
}

/// Upon a sync, after a reply and after a loop alike, the daemon turns to the first
/// message that is not blank, and keeps those behind it: where the words of that
/// message begin with `!` (in a Matrix room) or `/` (in a Rocket.Chat room) it looks
/// them up as a command, and any other words make it read the lock for a loop with
/// them as the prompt.
pub proof fn next_message_is_taken(
    daemon: DaemonView,
    event: EventView,
    queue: Seq<Seq<char>>,
    i: int,
    before: Seq<char>,
    words: Seq<char>,
    after: Seq<char>,
)
    requires
        takes_up(daemon, event, queue),
        0 <= i < queue.len(),
        forall|k: int| 0 <= k < i ==> text::is_blank(#[trigger] queue[k]),
        queue[i] == before + words + after,
        text::is_blank(before),
        text::is_blank(after),
        words.len() > 0,
        !text::is_whitespace(words[0]),
        !text::is_whitespace(words.last()),
    ensures
        daemon_next(daemon, event).0.kind == daemon.kind,
        daemon_next(daemon, event).0.queue == queue.skip(i + 1),
        ({
            let mark = if daemon.kind == DaemonKind::Matrix {
                '!'
            } else {
                '/'
            };
            if words[0] == mark {
                daemon_next(daemon, event).0.phase is Commanding && daemon_next(daemon, event).1
                    == ActionView::AnswerCommand(words)
            } else {
                daemon_next(daemon, event).0.phase == PhaseView::Locking(words) && daemon_next(
                    daemon,
                    event,
                ).1 is ReadLock
            }
        }),
{
    going_on_skips_blanks(daemon.kind, queue, i);
    text::trimming_leaves_the_words(before, words, after);
    assert(queue.skip(i)[0] == queue[i]);
    assert(queue.skip(i).skip(1) =~= queue.skip(i + 1));
}

/// Where only blank messages are left, or none, the daemon is idle again with no
/// message left, and checks the shutdown flag; but a Rocket.Chat daemon that a sync
/// brought nothing sleeps for two seconds.
pub proof fn idle_when_nothing_is_left(
    daemon: DaemonView,
    event: EventView,
    queue: Seq<Seq<char>>,
)
    requires
        takes_up(daemon, event, queue),
        forall|k: int| 0 <= k < queue.len() ==> text::is_blank(#[trigger] queue[k]),
    ensures
        daemon_next(daemon, event).0.kind == daemon.kind,
        daemon_next(daemon, event).0.queue.len() == 0,
        event is Synced && queue.len() == 0 && daemon.kind == DaemonKind::RocketChat
            ==> daemon_next(daemon, event).0.phase is Resting && daemon_next(daemon, event).1
            == ActionView::Sleep(2),
        !(event is Synced && queue.len() == 0 && daemon.kind == DaemonKind::RocketChat)
            ==> daemon_next(daemon, event).0.phase is Idle && daemon_next(
            daemon,
            event,
        ).1 is CheckShutdown,
{
    going_on_skips_blanks(daemon.kind, queue, queue.len() as int);
}

/// The words of the messages that are not blank, in order.
pub open spec fn words_in(queue: Seq<Seq<char>>) -> Seq<Seq<char>>
    decreases queue.len(),
{
    if queue.len() == 0 {
        Seq::empty()
    } else if text::trimmed(queue[0]).len() == 0 {
        words_in(queue.skip(1))
    } else {
        seq![text::trimmed(queue[0])] + words_in(queue.skip(1))
    }
}

/// The words that a step deals with: a command that is looked up, or a prompt that
/// the lock is read for.
pub open spec fn dealt_with(step: (DaemonView, ActionView)) -> Seq<Seq<char>> {
    match (step.1, step.0.phase) {
        (ActionView::AnswerCommand(command), _) => seq![command],
        (ActionView::ReadLock, PhaseView::Locking(prompt)) => seq![prompt],
        _ => Seq::empty(),
    }
}

/// The daemon after some events.
pub open spec fn daemon_after(daemon: DaemonView, events: Seq<EventView>) -> DaemonView
    decreases events.len(),
{
    if events.len() == 0 {
        daemon
    } else {
        daemon_after(daemon_next(daemon, events[0]).0, events.skip(1))
    }
}

/// The words that the daemon deals with upon some events, in order.
pub open spec fn all_dealt_with(daemon: DaemonView, events: Seq<EventView>) -> Seq<Seq<char>>
    decreases events.len(),
{
    if events.len() == 0 {
        Seq::empty()
    } else {
        dealt_with(daemon_next(daemon, events[0])) + all_dealt_with(
            daemon_next(daemon, events[0]).0,
            events.skip(1),
        )
    }
}

/// Whether a daemon that waits for messages, or sleeps, has none left.
pub open spec fn waits_with_nothing_left(daemon: DaemonView) -> bool {
    daemon.phase is Greeting || daemon.phase is Idle || daemon.phase is Syncing
        || daemon.phase is Resting ==> daemon.queue.len() == 0
}

proof fn going_on_keeps_words(kind: DaemonKind, queue: Seq<Seq<char>>)
    ensures
        dealt_with(go_on(kind, queue)) + words_in(go_on(kind, queue).0.queue) == words_in(queue),
        waits_with_nothing_left(go_on(kind, queue).0),
    decreases queue.len(),
{
    if queue.len() > 0 && text::trimmed(queue[0]).len() == 0 {
        going_on_keeps_words(kind, queue.skip(1));
    }
}

/// A daemon that starts has no message, and no step makes it wait for messages, or
/// sleep, with messages left.
pub proof fn never_waits_with_messages(daemon: DaemonView, event: EventView)
    ensures
        daemon.phase is Greeting && daemon.queue.len() == 0 ==> waits_with_nothing_left(daemon),
        waits_with_nothing_left(daemon) ==> waits_with_nothing_left(daemon_next(daemon, event).0),
{
    match event {
        EventView::Synced(messages) => going_on_keeps_words(daemon.kind, messages),
        _ => {},
    }
    going_on_keeps_words(daemon.kind, daemon.queue);
}

/// Until the next sync, what the daemon has dealt with and what it has left are
/// together the messages that it had, in order.
pub proof fn words_are_kept(daemon: DaemonView, events: Seq<EventView>)
    requires
        forall|k: int| 0 <= k < events.len() ==> !(#[trigger] events[k] is Synced),
    ensures
        all_dealt_with(daemon, events) + words_in(daemon_after(daemon, events).queue) == words_in(
            daemon.queue,
        ),
        waits_with_nothing_left(daemon) ==> waits_with_nothing_left(daemon_after(daemon, events)),
    decreases events.len(),
{
    if events.len() > 0 {
        let step = daemon_next(daemon, events[0]);
        let rest = events.skip(1);
        assert(!(events[0] is Synced));
        assert forall|k: int| 0 <= k < rest.len() implies !(#[trigger] rest[k] is Synced) by {
            assert(rest[k] == events[k + 1]);
        }
        going_on_keeps_words(daemon.kind, daemon.queue);
        never_waits_with_messages(daemon, events[0]);
        assert(dealt_with(step) + words_in(step.0.queue) =~= words_in(daemon.queue));
        words_are_kept(step.0, rest);
        assert(all_dealt_with(daemon, events) + words_in(daemon_after(daemon, events).queue)
            =~= dealt_with(step) + (all_dealt_with(step.0, rest) + words_in(
            daemon_after(step.0, rest).queue,
        )));
    } else {
        assert(all_dealt_with(daemon, events) + words_in(daemon.queue) =~= words_in(daemon.queue));
    }
}

/// No message of a sync is lost: whatever happens after a sync, by the time that the
/// daemon is idle again, sleeps or waits for the next sync, it has looked up as a
/// command, or read the lock for, every message of the sync that is not blank, in
/// order, and nothing else.
pub proof fn no_message_is_lost(
    daemon: DaemonView,
    messages: Seq<Seq<char>>,
    events: Seq<EventView>,
)
    requires
        daemon.phase is Syncing,
        forall|k: int| 0 <= k < events.len() ==> !(#[trigger] events[k] is Synced),
    ensures
        ({
            let run = seq![EventView::Synced(messages)] + events;
            let end = daemon_after(daemon, run);
            let dealt = all_dealt_with(daemon, run);
            &&& dealt + words_in(end.queue) == words_in(messages)
            &&& end.phase is Idle || end.phase is Resting || end.phase is Syncing ==> dealt
                == words_in(messages)
        }),
{
    let run = seq![EventView::Synced(messages)] + events;
    let step = daemon_next(daemon, EventView::Synced(messages));
    assert(run[0] == EventView::Synced(messages));
    assert(run.skip(1) =~= events);
    going_on_keeps_words(daemon.kind, messages);
    assert(waits_with_nothing_left(step.0));
    assert(dealt_with(step) + words_in(step.0.queue) =~= words_in(messages));
    words_are_kept(step.0, events);
    let end = daemon_after(daemon, run);
    let dealt = all_dealt_with(daemon, run);
    assert(dealt + words_in(end.queue) =~= dealt_with(step) + (all_dealt_with(step.0, events)
        + words_in(end.queue)));
    if end.phase is Idle || end.phase is Resting || end.phase is Syncing {
        assert(dealt + words_in(end.queue) =~= dealt);
    }
}

/// What a prompt leads to, with the messages behind it kept all along: where no loop
/// is running it is announced with its prompt, then run with this prompt, and its end
/// is announced with its description or its reason before the messages that came in
/// meanwhile are skipped. Where a loop is running, or it cannot be told, the operator
/// is told so and no loop is announced.
pub proof fn what_a_prompt_leads_to(
    daemon: DaemonView,
    prompt: Seq<char>,
    report: LockReport,
    outcome: Seq<char>,
)
    requires
        daemon.phase == PhaseView::Locking(prompt),
    ensures
        ({
            let read = daemon_next(daemon, EventView::LockRead(report));
            let run = daemon_next(read.0, EventView::Sent);
            let completed = daemon_next(run.0, EventView::LoopCompleted(outcome));
            let failed = daemon_next(run.0, EventView::LoopFailed(outcome));
            let after_completed = daemon_next(completed.0, EventView::Sent);
            let after_failed = daemon_next(failed.0, EventView::Sent);
            &&& read.0.queue == daemon.queue
            &&& report == LockReport::Active ==> read.0.phase is Replying && read.1
                == ActionView::Send(
                "A loop is already running — it will receive your messages directly."@,
            )
            &&& report == LockReport::Unreadable ==> read.0.phase is Replying && read.1
                == ActionView::Send("Failed to check loop state; try again in a moment."@)
            &&& report == LockReport::Stale || report == LockReport::Inactive ==> {
                &&& read.1 == ActionView::Send("Starting loop: *"@ + prompt + "*"@)
                &&& run.1 == ActionView::RunLoop(prompt)
                &&& completed.1 == ActionView::Send("Loop complete ("@ + outcome + ")."@)
                &&& failed.1 == ActionView::Send("Loop failed: "@ + outcome)
                &&& after_completed.1 is Settle && after_failed.1 is Settle
                &&& after_completed.0.phase is Settling && after_failed.0.phase is Settling
                &&& after_completed.0.queue == daemon.queue
                &&& after_failed.0.queue == daemon.queue
            }
        }),
{
}

/// A command is answered with what was looked up for it, or with a hint at the help
/// command of the room, and the daemon then goes on.
pub proof fn commands_are_answered(daemon: DaemonView, answer: Option<Seq<char>>)
    requires
        daemon.phase is Commanding,
    ensures
        ({
            let step = daemon_next(daemon, EventView::Answered(answer));
            &&& step.0.phase is Replying
            &&& step.0.queue == daemon.queue
            &&& answer matches Some(response) ==> step.1 == ActionView::Send(response)
            &&& answer is None && daemon.kind == DaemonKind::Matrix ==> step.1 == ActionView::Send(
                "Unknown command. Use !help for the supported commands."@,
            )
            &&& answer is None && daemon.kind == DaemonKind::RocketChat ==> step.1
                == ActionView::Send("Unknown command. Use /help for the supported commands."@)
        }),
{
}

/// Between messages: the daemon syncs unless shutdown is requested, sleeps five
/// seconds after a failed sync, and checks the flag again after its greeting and after
/// a sleep. Upon shutdown, also in the middle of a sync or a loop, it says goodbye and
/// then ends.
pub proof fn rests_and_leaves(daemon: DaemonView)
    ensures
        ({
            let goes = daemon_next(daemon, EventView::Checked { shutdown: false });
            let leaves = daemon_next(daemon, EventView::Checked { shutdown: true });
            let failed = daemon_next(daemon, EventView::SyncFailed);
            let interrupted = daemon_next(daemon, EventView::Interrupted);
            let goodbye = ActionView::Send("Ralph daemon offline 👋"@);
            &&& daemon.phase is Idle ==> goes.1 is Sync && goes.0.phase is Syncing
            &&& daemon.phase is Idle ==> leaves.1 == goodbye && daemon_next(
                leaves.0,
                EventView::Sent,
            ).1 is Exit
            &&& daemon.phase is Syncing || daemon.phase is Running ==> interrupted.1 == goodbye
                && daemon_next(interrupted.0, EventView::Sent).1 is Exit
            &&& daemon.phase is Syncing ==> failed.1 == ActionView::Sleep(5) && daemon_next(
                failed.0,
                EventView::Slept,
            ).1 is CheckShutdown && daemon_next(failed.0, EventView::Slept).0.phase is Idle
            &&& daemon.phase is Greeting ==> daemon_next(
                daemon,
                EventView::Sent,
            ).1 is CheckShutdown && daemon_next(daemon, EventView::Sent).0.phase is Idle
        }),
{
}

/// The events that a daemon in a phase waits for.
pub open spec fn awaits(phase: PhaseView, event: EventView) -> bool {
    match phase {
        PhaseView::Greeting
        | PhaseView::Replying
        | PhaseView::Acknowledging(_)
        | PhaseView::Reporting
        | PhaseView::Leaving => event is Sent,
        PhaseView::Idle => event is Checked,
        PhaseView::Syncing => event is Synced || event is SyncFailed || event is Interrupted,
        PhaseView::Resting => event is Slept,
        PhaseView::Commanding => event is Answered,
        PhaseView::Locking(_) => event is LockRead,
        PhaseView::Running => event is LoopCompleted || event is LoopFailed || event is Interrupted,
        PhaseView::Settling => event is Settled,
        PhaseView::Over => false,
    }
}

/// An event that is not awaited changes nothing; any other makes the daemon act and
/// leave its phase for one that waits for what the action brings. A daemon that has
/// ended stays so.
pub proof fn only_awaited_events_count(daemon: DaemonView, event: EventView)
    ensures
        !awaits(daemon.phase, event) ==> daemon_next(daemon, event) == (daemon, ActionView::Ignore),
        awaits(daemon.phase, event) ==> !(daemon_next(daemon, event).1 is Ignore),
        awaits(daemon.phase, event) ==> match daemon_next(daemon, event).1 {
            ActionView::Send(_) => awaits(daemon_next(daemon, event).0.phase, EventView::Sent),
            ActionView::CheckShutdown => daemon_next(daemon, event).0.phase is Idle,
            ActionView::Sync => daemon_next(daemon, event).0.phase is Syncing,
            ActionView::Sleep(_) => daemon_next(daemon, event).0.phase is Resting,
            ActionView::AnswerCommand(_) => daemon_next(daemon, event).0.phase is Commanding,
            ActionView::ReadLock => daemon_next(daemon, event).0.phase is Locking,
            ActionView::RunLoop(_) => daemon_next(daemon, event).0.phase is Running,
            ActionView::Settle => daemon_next(daemon, event).0.phase is Settling,
            ActionView::Exit => daemon_next(daemon, event).0.phase is Over,
            ActionView::Ignore => false,
        },
{
    match event {
        EventView::Synced(messages) => going_on_acts(daemon.kind, messages),
        _ => {},
    }
    going_on_acts(daemon.kind, daemon.queue);
}

proof fn going_on_acts(kind: DaemonKind, queue: Seq<Seq<char>>)
    ensures
        match go_on(kind, queue).1 {
            ActionView::CheckShutdown => go_on(kind, queue).0.phase is Idle,
            ActionView::AnswerCommand(_) => go_on(kind, queue).0.phase is Commanding,
            ActionView::ReadLock => go_on(kind, queue).0.phase is Locking,
            _ => false,
        },
    decreases queue.len(),
{
    if queue.len() > 0 && text::trimmed(queue[0]).len() == 0 {
        going_on_acts(kind, queue.skip(1));
    }
}

/// A daemon of either kind starts by saying that it is online, with no messages.
pub proof fn starts_by_greeting(kind: DaemonKind, r: (DaemonRun, DaemonAction))
    requires
        call_ensures(DaemonRun::start, (kind,), r),
    ensures
        r.0@.kind == kind,
        r.0@.phase is Greeting,
        r.0@.queue.len() == 0,
        r.1@ == ActionView::Send("Ralph daemon online 🤖"@),
{
}

} // verus!
