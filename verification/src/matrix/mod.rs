//! The Matrix backend.

pub mod client;
pub mod daemon;
pub mod error;
pub mod handler;
pub mod service;
pub mod state;
pub mod types;
pub mod wire;

pub use client::{MockCall, MockMatrixClient};
pub use daemon::MatrixDaemon;
pub use error::{MatrixError, MatrixResult};
pub use handler::{HandleResult, MessageHandler};
pub use service::MatrixService;
pub use state::{MatrixState, PendingQuestion, StateManager};
pub use types::{MatrixMessage, RoomInfo, SyncResult, filter_by_operator};
