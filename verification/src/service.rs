//! What the services of all chat backends share: check-in messages, greetings,
//! the backoff between attempts to send, and the wait for a response.

use crate::text;
use vstd::prelude::*;

verus! {

/// Maximum number of attempts to send a message.
pub const MAX_SEND_RETRIES: u32 = 3;

/// Base delay for exponential backoff, in seconds.
pub const BASE_RETRY_DELAY_SECS: u64 = 1;

/// How long a wait for a response pauses between two looks, in milliseconds.
pub const RESPONSE_POLL_MILLIS: u64 = 250;

/// The delay after a failed attempt that is not the last, in seconds: it doubles
/// from attempt to attempt.
pub open spec fn backoff_secs(attempt: u32) -> u64
    decreases attempt,
{
    if attempt <= 1 {
        BASE_RETRY_DELAY_SECS
    } else {
        (2 * backoff_secs((attempt - 1) as u32)) as u64
    }
}

/// The delay after a failed attempt that is not the last, in seconds.
pub fn backoff(attempt: u32) -> (r: u64)
    requires
        1 <= attempt < MAX_SEND_RETRIES,
    ensures
        r == backoff_secs(attempt),
        r == (if attempt == 1 {
            1u64
        } else {
            2u64
        }),
{
    reveal_with_fuel(backoff_secs, 3);
    if attempt == 1 {
        BASE_RETRY_DELAY_SECS
    } else {
        2 * BASE_RETRY_DELAY_SECS
    }
}

/// What follows an attempt to send.
#[derive(Debug)]
pub enum RetryStep {
    /// The message was sent: there is no further attempt.
    Done,
    /// Sleep once, then make the next attempt.
    Again {
        /// Seconds to sleep.
        secs: u64,
        /// The number of the next attempt.
        attempt: u32,
    },
    /// No attempt is left.
    GiveUp,
}

/// What follows an attempt to send: nothing after a success, and after a failure
/// the delay and the next attempt, or the end once the last attempt was made.
pub open spec fn retry_next(attempt: u32, failed: bool) -> RetryStep {
    if !failed {
        RetryStep::Done
    } else if attempt < MAX_SEND_RETRIES {
        RetryStep::Again { secs: backoff_secs(attempt), attempt: (attempt + 1) as u32 }
    } else {
        RetryStep::GiveUp
    }
}

/// What follows an attempt to send. Attempts are numbered from 1.
pub fn retry_step(attempt: u32, failed: bool) -> (r: RetryStep)
    requires
        1 <= attempt,
    ensures
        r == retry_next(attempt, failed),
{
    if !failed {
        RetryStep::Done
    } else if attempt < MAX_SEND_RETRIES {
        RetryStep::Again { secs: backoff(attempt), attempt: attempt + 1 }
    } else {
        RetryStep::GiveUp
    }
}

/// From one failed attempt to the next the delay doubles.
pub proof fn backoff_doubles(attempt: u32)
    requires
        1 <= attempt,
        attempt + 1 < MAX_SEND_RETRIES,
    ensures
        backoff_secs((attempt + 1) as u32) == 2 * backoff_secs(attempt),
{
    reveal_with_fuel(backoff_secs, 3);
}

/// The words of the error after the last attempt, by the words of its cause.
pub open spec fn exhausted(last_error: Seq<char>) -> Seq<char> {
    "failed after "@ + text::decimal(MAX_SEND_RETRIES as nat) + " attempts: "@ + last_error
}

/// The words of the error after the last attempt.
pub fn exhausted_text(last_error: &str) -> (r: String)
    ensures
        r@ == exhausted(last_error@),
{
    text::cat4("failed after ", &text::number(MAX_SEND_RETRIES as u64), " attempts: ", last_error)
}

// ── Check-ins ───────────────────────────────────────────────────────────

/// What a check-in message tells of a loop beside its iteration.
#[derive(Debug)]
pub struct CheckinContext {
    /// The hat that the loop wears.
    pub current_hat: Option<String>,
    /// The number of open tasks.
    pub open_tasks: u64,
    /// The number of closed tasks.
    pub closed_tasks: u64,
    /// The cumulative cost in dollars to four decimal places; `None` where there
    /// has been no cost.
    pub cost: Option<String>,
}

/// A time span in words.
pub open spec fn elapsed(secs: u64) -> Seq<char> {
    if secs >= 60 {
        text::decimal((secs / 60) as nat) + "m "@ + text::decimal((secs % 60) as nat) + "s"@
    } else {
        text::decimal(secs as nat) + "s"@
    }
}

/// The first line of a check-in message.
pub open spec fn headline(iteration: u32, secs: u64) -> Seq<char> {
    "Still working — iteration **"@ + text::decimal(iteration as nat) + "**, `"@ + elapsed(secs)
        + "` elapsed."@
}

/// The line about the hat, if there is one.
pub open spec fn hat_line(context: CheckinContext) -> Seq<char> {
    match context.current_hat {
        Some(hat) => "\nHat: `"@ + hat@ + "`"@,
        None => Seq::empty(),
    }
}

/// The line about tasks, if there are any.
pub open spec fn tasks_line(context: CheckinContext) -> Seq<char> {
    if context.open_tasks > 0 || context.closed_tasks > 0 {
        "\nTasks: **"@ + text::decimal(context.open_tasks as nat) + "** open, "@ + text::decimal(
            context.closed_tasks as nat,
        ) + " closed"@
    } else {
        Seq::empty()
    }
}

/// The line about cost, if there has been any.
pub open spec fn cost_line(context: CheckinContext) -> Seq<char> {
    match context.cost {
        Some(cost) => "\nCost: `$"@ + cost@ + "`"@,
        None => Seq::empty(),
    }
}

/// A check-in message.
pub open spec fn checkin(iteration: u32, secs: u64, context: Option<CheckinContext>) -> Seq<char> {
    match context {
        Some(known) => headline(iteration, secs) + hat_line(known) + tasks_line(known)
            + cost_line(known),
        None => headline(iteration, secs),
    }
}

fn elapsed_text(secs: u64) -> (r: String)
    ensures
        r@ == elapsed(secs),
{
    let minutes: u64 = secs / 60;
    let seconds: u64 = secs % 60;
    if minutes > 0 {
        text::cat4(&text::number(minutes), "m ", &text::number(seconds), "s")
    } else {
        text::cat2(&text::number(seconds), "s")
    }
}

/// A check-in message.
pub fn checkin_text(iteration: u32, secs: u64, context: Option<&CheckinContext>) -> (r: String)
    ensures
        r@ == checkin(
            iteration,
            secs,
            match context {
                Some(known) => Some(*known),
                None => None,
            },
        ),
{
    let mut out = text::cat5(
        "Still working — iteration **",
        &text::number(iteration as u64),
        "**, `",
        &elapsed_text(secs),
        "` elapsed.",
    );
    match context {
        Some(known) => {
            match &known.current_hat {
                Some(hat) => out.append(&text::cat3("\nHat: `", hat, "`")),
                None => out.append(""),
            }
            proof {
                reveal_strlit("");
                assert(""@ =~= Seq::<char>::empty());
            }
            if known.open_tasks > 0 || known.closed_tasks > 0 {
                out.append(
                    &text::cat5(
                        "\nTasks: **",
                        &text::number(known.open_tasks),
                        "** open, ",
                        &text::number(known.closed_tasks),
                        " closed",
                    ),
                );
            } else {
                out.append("");
            }
            match &known.cost {
                Some(cost) => out.append(&text::cat3("\nCost: `$", cost, "`")),
                None => out.append(""),
            }
        },
        None => {},
    }
    out
}

// ── Greetings ───────────────────────────────────────────────────────────

/// The message with which a loop announces itself in a room.
pub open spec fn greeting(loop_id: Seq<char>, backend: Seq<char>) -> Seq<char> {
    "🤖 Ralph loop `"@ + loop_id + "` connected via "@ + backend
}

/// The message with which a loop takes leave of a room.
pub open spec fn farewell(loop_id: Seq<char>) -> Seq<char> {
    "👋 Ralph loop `"@ + loop_id + "` disconnecting."@
}

/// The message with which a loop announces itself in a room.
pub fn greeting_text(loop_id: &str, backend: &str) -> (r: String)
    ensures
        r@ == greeting(loop_id@, backend@),
{
    text::cat4("🤖 Ralph loop `", loop_id, "` connected via ", backend)
}

/// The message with which a loop takes leave of a room.
pub fn farewell_text(loop_id: &str) -> (r: String)
    ensures
        r@ == farewell(loop_id@),
{
    text::cat3("👋 Ralph loop `", loop_id, "` disconnecting.")
}

// ── Waiting ─────────────────────────────────────────────────────────────

/// What a wait for a response learns.
#[derive(Debug)]
pub enum WaitEvent {
    /// The time limit and the shutdown flag were checked.
    Checked {
        /// The time limit is reached.
        expired: bool,
        /// Shutdown was requested.
        shutdown: bool,
    },
    /// The events file was searched.
    Searched(Option<String>),
}

/// What a wait for a response does next.
#[derive(Debug)]
pub enum WaitAction {
    /// Search the events file.
    Search,
    /// Pause for [`RESPONSE_POLL_MILLIS`], and check again.
    Pause,
    /// Remove the loop's pending question and end with this result.
    Finish(Option<String>),
}

/// The next step of a wait for a response: it ends without one when the time
/// limit is reached or shutdown was requested, and with the first response that
/// a search finds.
pub open spec fn wait_next(event: WaitEvent) -> WaitAction {
    match event {
        WaitEvent::Checked { expired, shutdown } => if expired || shutdown {
            WaitAction::Finish(None)
        } else {
            WaitAction::Search
        },
        WaitEvent::Searched(Some(response)) => WaitAction::Finish(Some(response)),
        WaitEvent::Searched(None) => WaitAction::Pause,
    }
}

/// The next step of a wait for a response.
pub fn wait_step(event: WaitEvent) -> (r: WaitAction)
    ensures
        r == wait_next(event),
{
    match event {
        WaitEvent::Checked { expired, shutdown } => {
            if expired || shutdown {
                WaitAction::Finish(None)
            } else {
                WaitAction::Search
            }
        },
        WaitEvent::Searched(Some(response)) => WaitAction::Finish(Some(response)),
        WaitEvent::Searched(None) => WaitAction::Pause,
    }
}

/// A wait ends with a response only if a search found it, and once the time
/// limit is reached or shutdown was requested it ends at the next check.
pub proof fn waiting_ends(event: WaitEvent)
    ensures
        forall|response: String| #[trigger]
            wait_next(event) == WaitAction::Finish(Some(response)) ==> event
                == WaitEvent::Searched(Some(response)),
        event matches WaitEvent::Checked { expired, shutdown } && (expired || shutdown)
            ==> wait_next(event) == WaitAction::Finish(None),
{
}

// ── Writing events ──────────────────────────────────────────────────────

/// The steps of appending to an events file.
#[derive(Debug)]
pub enum WriteStep {
    /// Creating the directory of the file.
    CreateDirectory,
    /// Opening the file.
    Open,
    /// Writing the line.
    Write,
}

/// Why an event could not be written, in words.
pub open spec fn write_failure(step: WriteStep, path: Seq<char>, cause: Seq<char>) -> Seq<char> {
    (match step {
        WriteStep::CreateDirectory => "failed to create directory "@,
        WriteStep::Open => "failed to open "@,
        WriteStep::Write => "failed to write to "@,
    }) + path + ": "@ + cause
}

/// Why an event could not be written, in words.
pub fn write_failure_text(step: WriteStep, path: &str, cause: &str) -> (r: String)
    ensures
        r@ == write_failure(step, path@, cause@),
{
    let action: &'static str = match step {
        WriteStep::CreateDirectory => "failed to create directory ",
        WriteStep::Open => "failed to open ",
        WriteStep::Write => "failed to write to ",
    };
    text::cat4(action, path, ": ", cause)
}

// ── Laws ────────────────────────────────────────────────────────────────

/// Whether an optional text is on one line.
pub open spec fn unbroken_text(value: Option<String>) -> bool {
    value matches Some(words) ==> text::one_line(words@)
}

/// A list of one line if there is something to tell, else of none.
pub open spec fn line_if(told: bool, line: Seq<char>) -> Seq<Seq<char>> {
    if told {
        seq![line]
    } else {
        Seq::empty()
    }
}

proof fn headline_is_one_line(iteration: u32, secs: u64)
    ensures
        text::one_line(headline(iteration, secs)),
{
    reveal_strlit("Still working — iteration **");
    reveal_strlit("**, `");
    reveal_strlit("` elapsed.");
    reveal_strlit("m ");
    reveal_strlit("s");
    text::decimals_stand_for_their_number(iteration as nat);
    text::decimals_stand_for_their_number(secs as nat);
    text::decimals_stand_for_their_number((secs / 60) as nat);
    text::decimals_stand_for_their_number((secs % 60) as nat);
    text::one_line_adds(text::decimal(secs as nat), "s"@);
    text::one_line_adds(text::decimal((secs / 60) as nat), "m "@);
    text::one_line_adds(
        text::decimal((secs / 60) as nat) + "m "@,
        text::decimal((secs % 60) as nat),
    );
    text::one_line_adds(
        text::decimal((secs / 60) as nat) + "m "@ + text::decimal((secs % 60) as nat),
        "s"@,
    );
    let first = "Still working — iteration **"@;
    text::one_line_adds(first, text::decimal(iteration as nat));
    text::one_line_adds(first + text::decimal(iteration as nat), "**, `"@);
    text::one_line_adds(first + text::decimal(iteration as nat) + "**, `"@, elapsed(secs));
    text::one_line_adds(
        first + text::decimal(iteration as nat) + "**, `"@ + elapsed(secs),
        "` elapsed."@,
    );
}

spec fn hat_words(context: CheckinContext) -> Seq<char> {
    "Hat: `"@ + context.current_hat->0@ + "`"@
}

spec fn tasks_words(context: CheckinContext) -> Seq<char> {
    "Tasks: **"@ + text::decimal(context.open_tasks as nat) + "** open, "@ + text::decimal(
        context.closed_tasks as nat,
    ) + " closed"@
}

spec fn cost_words(context: CheckinContext) -> Seq<char> {
    "Cost: `$"@ + context.cost->0@ + "`"@
}

spec fn has_tasks(context: CheckinContext) -> bool {
    context.open_tasks > 0 || context.closed_tasks > 0
}

proof fn words_are_one_line(context: CheckinContext)
    ensures
        context.current_hat is Some && unbroken_text(context.current_hat) ==> text::one_line(
            hat_words(context),
        ),
        text::one_line(tasks_words(context)),
        context.cost is Some && unbroken_text(context.cost) ==> text::one_line(cost_words(context)),
{
    reveal_strlit("Hat: `");
    reveal_strlit("Cost: `$");
    reveal_strlit("Tasks: **");
    reveal_strlit("** open, ");
    reveal_strlit(" closed");
    reveal_strlit("`");
    let opened = text::decimal(context.open_tasks as nat);
    let closed = text::decimal(context.closed_tasks as nat);
    text::decimals_stand_for_their_number(context.open_tasks as nat);
    text::decimals_stand_for_their_number(context.closed_tasks as nat);
    text::one_line_adds("Tasks: **"@, opened);
    text::one_line_adds("Tasks: **"@ + opened, "** open, "@);
    text::one_line_adds("Tasks: **"@ + opened + "** open, "@, closed);
    text::one_line_adds("Tasks: **"@ + opened + "** open, "@ + closed, " closed"@);
    if context.current_hat is Some && unbroken_text(context.current_hat) {
        text::one_line_adds("Hat: `"@, context.current_hat->0@);
        text::one_line_adds("Hat: `"@ + context.current_hat->0@, "`"@);
    }
    if context.cost is Some && unbroken_text(context.cost) {
        text::one_line_adds("Cost: `$"@, context.cost->0@);
        text::one_line_adds("Cost: `$"@ + context.cost->0@, "`"@);
    }
}

proof fn details_break_lines(context: CheckinContext)
    ensures
        hat_line(context) == (if context.current_hat is Some {
            seq!['\n'] + hat_words(context)
        } else {
            Seq::empty()
        }),
        tasks_line(context) == (if has_tasks(context) {
            seq!['\n'] + tasks_words(context)
        } else {
            Seq::empty()
        }),
        cost_line(context) == (if context.cost is Some {
            seq!['\n'] + cost_words(context)
        } else {
            Seq::empty()
        }),
{
    reveal_strlit("\nHat: `");
    reveal_strlit("Hat: `");
    reveal_strlit("\nCost: `$");
    reveal_strlit("Cost: `$");
    reveal_strlit("\nTasks: **");
    reveal_strlit("Tasks: **");
    assert("\nHat: `"@ =~= seq!['\n'] + "Hat: `"@);
    assert("\nCost: `$"@ =~= seq!['\n'] + "Cost: `$"@);
    assert("\nTasks: **"@ =~= seq!['\n'] + "Tasks: **"@);
    if context.current_hat is Some {
        assert(hat_line(context) =~= seq!['\n'] + hat_words(context));
    }
    if context.cost is Some {
        assert(cost_line(context) =~= seq!['\n'] + cost_words(context));
    }
    assert("\nTasks: **"@ + text::decimal(context.open_tasks as nat) + "** open, "@ + text::decimal(
        context.closed_tasks as nat,
    ) + " closed"@ =~= seq!['\n'] + tasks_words(context));
}

proof fn line_if_splits(before: Seq<char>, told: bool, words: Seq<char>)
    requires
        told ==> text::one_line(words),
    ensures
        text::pieces(
            before + (if told {
                seq!['\n'] + words
            } else {
                Seq::empty()
            }),
            '\n',
        ) == text::pieces(before, '\n') + line_if(told, words),
{
    if told {
        assert(before + (seq!['\n'] + words) =~= before + seq!['\n'] + words);
        text::pieces_around(before, words, '\n');
        text::whole_piece(words, '\n');
    } else {
        assert(before + Seq::<char>::empty() =~= before);
        assert(text::pieces(before, '\n') + Seq::<Seq<char>>::empty() =~= text::pieces(
            before,
            '\n',
        ));
    }
}

proof fn checkin_lines(iteration: u32, secs: u64, context: CheckinContext)
    requires
        unbroken_text(context.current_hat),
        unbroken_text(context.cost),
    ensures
        text::pieces(checkin(iteration, secs, Some(context)), '\n') == seq![
            headline(iteration, secs),
        ] + line_if(context.current_hat is Some, hat_words(context)) + line_if(
            has_tasks(context),
            tasks_words(context),
        ) + line_if(context.cost is Some, cost_words(context)),
{
    let first = headline(iteration, secs);
    headline_is_one_line(iteration, secs);
    text::whole_piece(first, '\n');
    words_are_one_line(context);
    details_break_lines(context);
    line_if_splits(first, context.current_hat is Some, hat_words(context));
    line_if_splits(first + hat_line(context), has_tasks(context), tasks_words(context));
    line_if_splits(
        first + hat_line(context) + tasks_line(context),
        context.cost is Some,
        cost_words(context),
    );
}

/// A check-in names the iteration and the time that has passed, in minutes and seconds
/// where a minute has passed and in seconds else. Behind that, each on a line of its own
/// and nothing else, it tells the hat if there is one, the open and the closed tasks if
/// there are any of either, and the cost if there has been any; without a context it
/// tells none of them.
pub proof fn checkins_tell_all(
    iteration: u32,
    secs: u64,
    minutes: nat,
    seconds: nat,
    context: &CheckinContext,
    r: String,
    bare: String,
)
    requires
        call_ensures(checkin_text, (iteration, secs, Some(context)), r),
        call_ensures(checkin_text, (iteration, secs, None::<&CheckinContext>), bare),
        secs == 60 * minutes + seconds,
        seconds < 60,
    ensures
        bare@ == "Still working — iteration **"@ + text::decimal(iteration as nat) + "**, `"@ + (
        if minutes > 0 {
            text::decimal(minutes) + "m "@
        } else {
            Seq::empty()
        }) + text::decimal(seconds) + "s` elapsed."@,
        text::occurs_at(r@, bare@, 0),
        context.current_hat matches Some(hat) ==> text::contains(
            r@,
            "\nHat: `"@ + hat@ + "`"@,
        ),
        context.open_tasks > 0 || context.closed_tasks > 0 ==> text::contains(
            r@,
            "\nTasks: **"@ + text::decimal(context.open_tasks as nat) + "** open, "@
                + text::decimal(context.closed_tasks as nat) + " closed"@,
        ),
        context.cost matches Some(cost) ==> text::contains(r@, "\nCost: `$"@ + cost@ + "`"@),
        unbroken_text(context.current_hat) && unbroken_text(context.cost) ==> text::pieces(r@, '\n')
            == seq![bare@] + line_if(
            context.current_hat is Some,
            "Hat: `"@ + context.current_hat->0@ + "`"@,
        ) + line_if(
            context.open_tasks > 0 || context.closed_tasks > 0,
            "Tasks: **"@ + text::decimal(context.open_tasks as nat) + "** open, "@ + text::decimal(
                context.closed_tasks as nat,
            ) + " closed"@,
        ) + line_if(context.cost is Some, "Cost: `$"@ + context.cost->0@ + "`"@),
        unbroken_text(context.current_hat) && unbroken_text(context.cost) ==> (text::contains(
            r@,
            "\nTasks: "@,
        ) <==> context.open_tasks > 0 || context.closed_tasks > 0),
        context.current_hat is None && context.open_tasks == 0 && context.closed_tasks == 0
            && context.cost is None ==> r@ == bare@,
{
    headline_in_words(iteration, secs, minutes, seconds);
    details_are_contained(*context, bare@);
    if unbroken_text(context.current_hat) && unbroken_text(context.cost) {
        checkin_lines(iteration, secs, *context);
        if !has_tasks(*context) {
            assert(hat_words(*context).len() > 0 && hat_words(*context)[0] == 'H') by {
                reveal_strlit("Hat: `");
            }
            assert(cost_words(*context).len() > 0 && cost_words(*context)[0] == 'C') by {
                reveal_strlit("Cost: `$");
            }
            no_tasks_no_line(
                r@,
                bare@,
                context.current_hat is Some,
                hat_words(*context),
                context.cost is Some,
                cost_words(*context),
            );
        }
    }
}

proof fn headline_in_words(iteration: u32, secs: u64, minutes: nat, seconds: nat)
    requires
        secs == 60 * minutes + seconds,
        seconds < 60,
    ensures
        headline(iteration, secs) == "Still working — iteration **"@ + text::decimal(
            iteration as nat,
        ) + "**, `"@ + (if minutes > 0 {
            text::decimal(minutes) + "m "@
        } else {
            Seq::empty()
        }) + text::decimal(seconds) + "s` elapsed."@,
{
    assert(secs / 60 == minutes && secs % 60 == seconds);
    let first = "Still working — iteration **"@ + text::decimal(iteration as nat) + "**, `"@;
    assert("s"@ + "` elapsed."@ =~= "s` elapsed."@) by {
        reveal_strlit("s");
        reveal_strlit("` elapsed.");
        reveal_strlit("s` elapsed.");
    }
    if minutes > 0 {
        assert(headline(iteration, secs) =~= first + (text::decimal(minutes) + "m "@)
            + text::decimal(seconds) + ("s"@ + "` elapsed."@));
    } else {
        assert(headline(iteration, secs) =~= first + Seq::<char>::empty() + text::decimal(seconds)
            + ("s"@ + "` elapsed."@));
    }
}

proof fn details_are_contained(context: CheckinContext, first: Seq<char>)
    ensures
        ({
            let message = first + hat_line(context) + tasks_line(context) + cost_line(context);
            &&& text::occurs_at(message, first, 0)
            &&& text::contains(message, hat_line(context))
            &&& text::contains(message, tasks_line(context))
            &&& text::contains(message, cost_line(context))
            &&& has_tasks(context) ==> text::contains(message, "\nTasks: "@)
            &&& hat_line(context).len() == 0 && tasks_line(context).len() == 0 && cost_line(
                context,
            ).len() == 0 ==> message == first
        }),
{
    parts_are_contained(first, hat_line(context), tasks_line(context), cost_line(context));
    if has_tasks(context) {
        tasks_begin(context);
        text::contained_within(
            first + hat_line(context),
            tasks_line(context),
            cost_line(context),
            "\nTasks: "@,
        );
    }
}

proof fn tasks_begin(context: CheckinContext)
    requires
        has_tasks(context),
    ensures
        text::contains(tasks_line(context), "\nTasks: "@),
{
    let none = Seq::<char>::empty();
    assert("\nTasks: **"@ =~= none + "\nTasks: "@ + "**"@) by {
        reveal_strlit("\nTasks: **");
        reveal_strlit("\nTasks: ");
        reveal_strlit("**");
    }
    let behind = "**"@ + text::decimal(context.open_tasks as nat) + "** open, "@ + text::decimal(
        context.closed_tasks as nat,
    ) + " closed"@;
    assert(tasks_line(context) =~= none + "\nTasks: "@ + behind);
    text::contained(none, "\nTasks: "@, behind);
}

proof fn parts_are_contained(first: Seq<char>, hat: Seq<char>, tasks: Seq<char>, cost: Seq<char>)
    ensures
        ({
            let message = first + hat + tasks + cost;
            &&& text::occurs_at(message, first, 0)
            &&& text::contains(message, hat)
            &&& text::contains(message, tasks)
            &&& text::contains(message, cost)
            &&& hat.len() == 0 && tasks.len() == 0 && cost.len() == 0 ==> message == first
        }),
{
    let none = Seq::<char>::empty();
    let message = first + hat + tasks + cost;
    assert(message =~= first + (hat + tasks + cost));
    text::addition_begins(first, hat + tasks + cost);
    text::contained(first, hat, tasks + cost);
    assert(message =~= first + hat + (tasks + cost));
    text::contained(first + hat, tasks, cost);
    text::contained(first + hat + tasks, cost, none);
    assert(message =~= first + hat + tasks + cost + none);
    if hat.len() == 0 && tasks.len() == 0 && cost.len() == 0 {
        assert(message =~= first);
    }
}

proof fn no_tasks_no_line(
    message: Seq<char>,
    first: Seq<char>,
    has_hat: bool,
    hat: Seq<char>,
    has_cost: bool,
    cost: Seq<char>,
)
    requires
        text::pieces(message, '\n') == seq![first] + line_if(has_hat, hat) + Seq::<
            Seq<char>,
        >::empty() + line_if(has_cost, cost),
        has_hat ==> hat.len() > 0 && hat[0] == 'H',
        has_cost ==> cost.len() > 0 && cost[0] == 'C',
    ensures
        !text::contains(message, "\nTasks: "@),
{
    let part = "\nTasks: "@;
    let word = "Tasks: "@;
    reveal_strlit("\nTasks: ");
    reveal_strlit("Tasks: ");
    assert(part =~= seq!['\n'] + word);
    text::containing_is_cutting(message, part);
    if text::contains(message, part) {
        let (a, b) = choose|a: Seq<char>, b: Seq<char>|
            #![trigger a + part + b]
            message == a + part + b;
        assert(message =~= a + seq!['\n'] + (word + b));
        text::pieces_around(a, word + b, '\n');
        text::pieces_exist(a, '\n');
        text::first_piece_begins(word, b, '\n');
        let j = text::pieces(a, '\n').len() as int;
        let all = text::pieces(a, '\n') + text::pieces(word + b, '\n');
        assert(all[j] == text::pieces(word + b, '\n')[0]);
        assert(all[j].subrange(0, word.len() as int)[0] == all[j][0]);
        assert(all[j][0] == 'T');
        let lines = seq![first] + line_if(has_hat, hat) + Seq::<Seq<char>>::empty() + line_if(
            has_cost,
            cost,
        );
        assert(all == lines);
        assert(0 < j < lines.len());
        if j == 1 && has_hat {
            assert(lines[j] == hat);
        } else {
            assert(has_cost && lines[j] == cost);
        }
    }
}

/// A message is tried three times: after a first failure one second later, after a second
/// two seconds later, and then no more. A success ends it at once. The last error is told
/// with the number of attempts.
pub proof fn three_attempts(attempt: u32, last_error: &str, r: String)
    requires
        1 <= attempt,
        call_ensures(exhausted_text, (last_error,), r),
    ensures
        retry_next(attempt, false) is Done,
        attempt == 1 ==> retry_next(attempt, true) == (RetryStep::Again { secs: 1, attempt: 2 }),
        attempt == 2 ==> retry_next(attempt, true) == (RetryStep::Again { secs: 2, attempt: 3 }),
        attempt >= 3 ==> retry_next(attempt, true) is GiveUp,
        r@ == "failed after 3 attempts: "@ + last_error@,
{
    reveal_with_fuel(backoff_secs, 3);
    reveal_strlit("failed after ");
    reveal_strlit(" attempts: ");
    reveal_strlit("failed after 3 attempts: ");
    assert(r@ =~= "failed after 3 attempts: "@ + last_error@);
}

/// A loop names itself and the backend in its greeting, and itself in its farewell.
pub proof fn loops_name_themselves(loop_id: &str, backend: &str, hello: String, goodbye: String)
    requires
        call_ensures(greeting_text, (loop_id, backend), hello),
        call_ensures(farewell_text, (loop_id,), goodbye),
    ensures
        hello@ == "🤖 Ralph loop `"@ + loop_id@ + "` connected via "@ + backend@,
        goodbye@ == "👋 Ralph loop `"@ + loop_id@ + "` disconnecting."@,
{
}

/// A wait searches exactly while there is time and no shutdown, pauses a quarter of a
/// second after a search that found nothing, and ends with what a search found, whatever
/// it is.
pub proof fn waits_search_in_turns(expired: bool, shutdown: bool, found: String)
    ensures
        wait_next(WaitEvent::Checked { expired, shutdown }) == (if expired || shutdown {
            WaitAction::Finish(None)
        } else {
            WaitAction::Search
        }),
        wait_next(WaitEvent::Searched(None)) is Pause,
        wait_next(WaitEvent::Searched(Some(found))) == WaitAction::Finish(Some(found)),
        RESPONSE_POLL_MILLIS == 250,
{
}

/// A failure to write an event names the step, the file and the cause.
pub proof fn write_failures_name_all(step: WriteStep, path: &str, cause: &str, r: String)
    requires
        call_ensures(write_failure_text, (step, path, cause), r),
    ensures
        step is CreateDirectory ==> r@ == "failed to create directory "@ + path@ + ": "@ + cause@,
        step is Open ==> r@ == "failed to open "@ + path@ + ": "@ + cause@,
        step is Write ==> r@ == "failed to write to "@ + path@ + ": "@ + cause@,
{
}

/// The words after the last attempt, for any cause.
pub proof fn exhaustion_in_words(last_error: Seq<char>)
    ensures
        exhausted(last_error) == "failed after 3 attempts: "@ + last_error,
{
    reveal_strlit("failed after ");
    reveal_strlit(" attempts: ");
    reveal_strlit("failed after 3 attempts: ");
    assert(exhausted(last_error) =~= "failed after 3 attempts: "@ + last_error);
}

} // verus!
