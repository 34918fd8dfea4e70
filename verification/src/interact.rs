//! The commands with which an agent talks to the operator.

use crate::bot::targets;
use crate::bot::tokens::Backend;
use vstd::prelude::*;

verus! {

/// Arguments of `ralph tools interact`.
#[derive(Debug)]
pub struct InteractArgs {
    /// The subcommand.
    pub command: InteractCommands,
}

/// Subcommands of `ralph tools interact`.
#[derive(Debug)]
pub enum InteractCommands {
    /// Send a non-blocking progress update via the configured RObot backend
    Progress(ProgressArgs),
}

/// Arguments of `ralph tools interact progress`.
#[derive(Debug)]
pub struct ProgressArgs {
    /// The message to send
    pub message: String,
}

/// The message that a command sends and the backend that it sends it through.
/// Without a configured backend it cannot be sent.
pub fn execute(args: InteractArgs, configured: Backend) -> (r: Result<(Backend, String), String>)
    ensures
        match args.command {
            InteractCommands::Progress(progress) => match r {
                Ok(plan) => configured != Backend::Unset && plan.0 == configured && plan.1
                    == progress.message,
                Err(words) => configured == Backend::Unset && words@
                    == targets::NO_PROGRESS_BACKEND@,
            },
        },
{
    match args.command {
        InteractCommands::Progress(progress) => {
            if configured == Backend::Unset {
                Err(String::from_str(targets::NO_PROGRESS_BACKEND))
            } else {
                Ok((configured, progress.message))
            }
        },
    }
}

/// A progress message goes out word for word through the backend that is configured, and
/// not at all exactly if none is.
pub proof fn progress_goes_to_the_configured_backend(
    progress: ProgressArgs,
    configured: Backend,
    r: Result<(Backend, String), String>,
)
    requires
        call_ensures(
            execute,
            (InteractArgs { command: InteractCommands::Progress(progress) }, configured),
            r,
        ),
    ensures
        r is Ok <==> configured != Backend::Unset,
        r matches Ok(plan) ==> plan.0 == configured && plan.1 == progress.message,
        r matches Err(words) ==> words@
            == "No RObot backend configured. Run `ralph bot onboard` to set up Telegram, Rocket.Chat, or Matrix."@,
{
}

} // verus!
