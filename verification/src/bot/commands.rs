//! Which task a bot command stands for.

use super::args::{
    BotArgs, BotCommands, OnboardArgs, SetTokenArgs, TestArgs, TokenArgs, TokenCommands,
};
use super::tokens::{self, Backend};
use vstd::prelude::*;

verus! {

/// The task that a bot command stands for.
#[derive(Debug)]
pub enum BotTask {
    /// Set up a backend.
    Onboard(Backend, OnboardArgs),
    /// Report how the robot is configured.
    Status,
    /// Send a test message.
    Test(TestArgs),
    /// Store a token.
    StoreToken(SetTokenArgs),
    /// Run the daemon.
    Daemon,
}

/// The task of a token command.
pub fn bot_token(args: TokenArgs) -> (r: BotTask)
    ensures
        r == (match args.command {
            TokenCommands::SetToken(set_args) => BotTask::StoreToken(set_args),
        }),
{
    match args.command {
        TokenCommands::SetToken(set_args) => BotTask::StoreToken(set_args),
    }
}

/// The task of a bot command. Setting up an unknown backend is an error.
pub fn execute(args: BotArgs) -> (r: Result<BotTask, String>)
    ensures
        match args.command {
            BotCommands::Onboard(onboard) => match tokens::backend_named(onboard.backend@) {
                Some(backend) => r == Ok::<BotTask, String>(BotTask::Onboard(backend, onboard)),
                None => r matches Err(words) && words@ == "Unknown backend "@ + tokens::debug_text(
                    onboard.backend@,
                ) + ". "@ + "Supported backends"@ + ": telegram, rocketchat, matrix"@,
            },
            BotCommands::Status => r == Ok::<BotTask, String>(BotTask::Status),
            BotCommands::Test(test) => r == Ok::<BotTask, String>(BotTask::Test(test)),
            BotCommands::Token(token) => r == Ok::<BotTask, String>(
                match token.command {
                    TokenCommands::SetToken(set_args) => BotTask::StoreToken(set_args),
                },
            ),
            BotCommands::Daemon(_) => r == Ok::<BotTask, String>(BotTask::Daemon),
        },
{
    match args.command {
        BotCommands::Onboard(onboard) => match tokens::backend_by_name(&onboard.backend) {
            Some(backend) => Ok(BotTask::Onboard(backend, onboard)),
            None => Err(tokens::unknown_backend(&onboard.backend, "Supported backends")),
        },
        BotCommands::Status => Ok(BotTask::Status),
        BotCommands::Test(test) => Ok(BotTask::Test(test)),
        BotCommands::Token(token) => Ok(bot_token(token)),
        BotCommands::Daemon(_) => Ok(BotTask::Daemon),
    }
}

/// A setup is for the backend that it names; any other name is an error, and every other
/// command stands for its own task with its own arguments.
pub proof fn commands_stand_for_their_tasks(args: BotArgs, r: Result<BotTask, String>)
    requires
        call_ensures(execute, (args,), r),
    ensures
        args.command matches BotCommands::Onboard(onboard) ==> {
            &&& onboard.backend@ == "telegram"@ ==> r == Ok::<BotTask, String>(
                BotTask::Onboard(Backend::Telegram, onboard),
            )
            &&& onboard.backend@ == "rocketchat"@ ==> r == Ok::<BotTask, String>(
                BotTask::Onboard(Backend::RocketChat, onboard),
            )
            &&& onboard.backend@ == "matrix"@ ==> r == Ok::<BotTask, String>(
                BotTask::Onboard(Backend::Matrix, onboard),
            )
            &&& r is Ok ==> onboard.backend@ == "telegram"@ || onboard.backend@ == "rocketchat"@
                || onboard.backend@ == "matrix"@
        },
        args.command is Status ==> r == Ok::<BotTask, String>(BotTask::Status),
        args.command matches BotCommands::Test(test) ==> r == Ok::<BotTask, String>(
            BotTask::Test(test),
        ),
        args.command matches BotCommands::Token(token) ==> (
        token.command matches TokenCommands::SetToken(set_args) ==> r == Ok::<BotTask, String>(
            BotTask::StoreToken(set_args),
        )),
        args.command is Daemon ==> r == Ok::<BotTask, String>(BotTask::Daemon),
{
    reveal_strlit("telegram");
    reveal_strlit("rocketchat");
    reveal_strlit("matrix");
    assert("rocketchat"@.len() == 10);
    assert("matrix"@.len() == 6);
    assert("telegram"@.len() == 8);
}

} // verus!
