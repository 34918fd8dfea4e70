//! The commands that set up and manage the robot.

pub mod args;
pub mod commands;
pub mod config;
pub mod console;
pub mod daemon_setup;
pub mod keychain;
pub mod onboard_matrix;
pub mod onboard_rocketchat;
pub mod onboard_telegram;
pub mod status;
pub mod targets;
pub mod telegram;
pub mod token_set;
pub mod tokens;

pub use args::{
    BotArgs, BotCommands, DaemonArgs, OnboardArgs, SetTokenArgs, TestArgs, TokenArgs, TokenCommands,
};
pub use tokens::Backend;
