//! The Rocket.Chat backend.

pub mod client;
pub mod daemon;
pub mod error;
pub mod handler;
pub mod service;
pub mod state;
pub mod types;

pub use client::{MockRocketChatClient, RocketChatClient};
pub use daemon::RocketChatDaemon;
pub use error::{RocketChatError, RocketChatResult};
pub use handler::MessageHandler;
pub use service::{BASE_RETRY_DELAY_SECS, MAX_SEND_RETRIES, RocketChatService, retry_with_backoff};
pub use state::{PendingQuestion, RocketChatState, StateManager};
pub use types::{RcMessage, RcRoom, RcUser, SyncResult, filter_by_operator};
