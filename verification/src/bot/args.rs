//! The arguments of the bot commands.

use std::path::PathBuf;
use vstd::prelude::*;

verus! {

/// Arguments of `ralph bot`.
#[derive(Debug)]
pub struct BotArgs {
    /// The subcommand.
    pub command: BotCommands,
}

/// Subcommands of `ralph bot`.
#[derive(Debug)]
pub enum BotCommands {
    /// Interactive setup wizard for RObot backend (Telegram, Rocket.Chat, or Matrix)
    Onboard(OnboardArgs),
    /// Check current bot configuration status
    Status,
    /// Send a test message to verify the bot works
    Test(TestArgs),
    /// Manage bot tokens
    Token(TokenArgs),
    /// Run as a persistent daemon, listening for messages and starting loops on demand
    Daemon(DaemonArgs),
}

/// Arguments of `ralph bot onboard`.
#[derive(Debug)]
pub struct OnboardArgs {
    /// Backend to onboard: "telegram" (default), "rocketchat", or "matrix"
    pub backend: String,
    /// Skip interactive token prompt, provide token directly (Telegram)
    pub token: Option<String>,
    /// Skip chat_id detection, provide chat_id directly (Telegram)
    pub chat_id: Option<i64>,
    /// Timeout in seconds for waiting for a Telegram message (Telegram)
    pub timeout: u64,
    /// Rocket.Chat server URL (e.g., https://chat.example.com)
    pub server_url: Option<String>,
    /// Rocket.Chat bot user ID (for X-User-Id header)
    pub bot_user_id: Option<String>,
    /// Rocket.Chat Personal Access Token
    pub auth_token: Option<String>,
    /// Room ID where the bot operates
    pub room_id: Option<String>,
    /// Operator user ID for filtering messages in group chats
    pub operator_id: Option<String>,
    /// Matrix homeserver URL (e.g., https://matrix.example.com)
    pub homeserver_url: Option<String>,
    /// Matrix access token (alternative to password login)
    pub access_token: Option<String>,
}

/// Arguments of `ralph bot test`.
#[derive(Debug)]
pub struct TestArgs {
    /// Message to send (default: "Hello from Ralph!")
    pub message: String,
    /// Backend to test (telegram, matrix, rocketchat).
    /// If omitted, auto-detects from ralph.yml.
    pub backend: Option<String>,
}

/// Arguments of `ralph bot token`.
#[derive(Debug)]
pub struct TokenArgs {
    /// The subcommand.
    pub command: TokenCommands,
}

/// Subcommands of `ralph bot token`.
#[derive(Debug)]
pub enum TokenCommands {
    /// Store or overwrite the bot token
    SetToken(SetTokenArgs),
}

/// Arguments of `ralph bot token set`.
#[derive(Debug)]
pub struct SetTokenArgs {
    /// Bot token or access token to store
    pub token: String,
    /// Optional config file to update with the token
    pub config: Option<PathBuf>,
    /// Backend to store the token for (telegram, matrix, rocketchat).
    /// If omitted, auto-detects from ralph.yml; defaults to telegram.
    pub backend: Option<String>,
}

/// Arguments of `ralph bot daemon`.
#[derive(Debug)]
pub struct DaemonArgs {}

} // verus!
