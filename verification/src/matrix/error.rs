//! Errors of the Matrix backend.

use crate::text;
use vstd::prelude::*;

verus! {

/// Result type of Matrix operations.
pub type MatrixResult<T> = std::result::Result<T, MatrixError>;

/// Errors that can occur during Matrix operations. Each carries the words of its
/// cause.
#[derive(Debug)]
pub enum MatrixError {
    /// Authentication failed (invalid token, expired credentials, etc.).
    Auth(String),
    /// Network-level failure (connection refused, DNS, timeout).
    Network(String),
    /// Requested room not found or inaccessible.
    RoomNotFound(String),
    /// Failed to send a message.
    SendFailed(String),
    /// Failed to sync with the homeserver.
    SyncFailed(String),
    /// Failed to read or write the state file.
    State(String),
    /// Failed to parse the state file.
    StateParse(String),
    /// Failed to write an event.
    EventWrite(String),
    /// Failed to start the service.
    Startup(String),
}

impl MatrixError {
    /// The error in words.
    pub open spec fn words(&self) -> Seq<char> {
        match self {
            MatrixError::Auth(cause) => "matrix auth error: "@ + cause@,
            MatrixError::Network(cause) => "matrix network error: "@ + cause@,
            MatrixError::RoomNotFound(cause) => "matrix room not found: "@ + cause@,
            MatrixError::SendFailed(cause) => "matrix send error: "@ + cause@,
            MatrixError::SyncFailed(cause) => "matrix sync error: "@ + cause@,
            MatrixError::State(cause) => "state persistence error: "@ + cause@,
            MatrixError::StateParse(cause) => "state parse error: "@ + cause@,
            MatrixError::EventWrite(cause) => "event write error: "@ + cause@,
            MatrixError::Startup(cause) => "matrix startup error: "@ + cause@,
        }
    }

    /// The error in words.
    pub fn message(&self) -> (r: String)
        ensures
            r@ == self.words(),
    {
        match self {
            MatrixError::Auth(cause) => text::cat2("matrix auth error: ", cause),
            MatrixError::Network(cause) => text::cat2("matrix network error: ", cause),
            MatrixError::RoomNotFound(cause) => text::cat2("matrix room not found: ", cause),
            MatrixError::SendFailed(cause) => text::cat2("matrix send error: ", cause),
            MatrixError::SyncFailed(cause) => text::cat2("matrix sync error: ", cause),
            MatrixError::State(cause) => text::cat2("state persistence error: ", cause),
            MatrixError::StateParse(cause) => text::cat2("state parse error: ", cause),
            MatrixError::EventWrite(cause) => text::cat2("event write error: ", cause),
            MatrixError::Startup(cause) => text::cat2("matrix startup error: ", cause),
        }
    }
}

/// Every error is told by its kind and the words of its cause.
pub proof fn errors_tell_kind_and_cause(error: &MatrixError, r: String)
    requires
        call_ensures(MatrixError::message, (error,), r),
    ensures
        *error matches MatrixError::Auth(cause) ==> r@ == "matrix auth error: "@ + cause@,
        *error matches MatrixError::Network(cause) ==> r@ == "matrix network error: "@ + cause@,
        *error matches MatrixError::RoomNotFound(cause) ==> r@ == "matrix room not found: "@
            + cause@,
        *error matches MatrixError::SendFailed(cause) ==> r@ == "matrix send error: "@ + cause@,
        *error matches MatrixError::SyncFailed(cause) ==> r@ == "matrix sync error: "@ + cause@,
        *error matches MatrixError::State(cause) ==> r@ == "state persistence error: "@ + cause@,
        *error matches MatrixError::StateParse(cause) ==> r@ == "state parse error: "@ + cause@,
        *error matches MatrixError::EventWrite(cause) ==> r@ == "event write error: "@ + cause@,
        *error matches MatrixError::Startup(cause) ==> r@ == "matrix startup error: "@ + cause@,
{
}

} // verus!
