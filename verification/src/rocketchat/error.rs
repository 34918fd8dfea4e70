//! Errors of the Rocket.Chat backend.

use crate::text;
use vstd::prelude::*;

verus! {

/// Result type of Rocket.Chat operations.
pub type RocketChatResult<T> = std::result::Result<T, RocketChatError>;

/// Errors that can occur during Rocket.Chat operations. Each carries the words
/// of its cause.
#[derive(Debug)]
pub enum RocketChatError {
    /// Authentication failed (invalid token, expired credentials, etc.).
    Auth(String),
    /// Failed to send a message.
    Send(String),
    /// Failed to receive or poll messages.
    Receive(String),
    /// Requested resource not found (room, user, message).
    NotFound(String),
    /// Rate limited by the Rocket.Chat server.
    RateLimit(String),
    /// Server error (5xx responses, connection failures).
    Server(String),
    /// Failed to deserialize a response.
    Deserialize(String),
    /// Failed to read or write the state file.
    State(String),
    /// Failed to parse the state file.
    StateParse(String),
    /// Failed to write an event.
    EventWrite(String),
    /// Failed to start the service.
    Startup(String),
}

impl RocketChatError {
    /// The error in words.
    pub open spec fn words(&self) -> Seq<char> {
        match self {
            RocketChatError::Auth(cause) => "rocket.chat auth error: "@ + cause@,
            RocketChatError::Send(cause) => "rocket.chat send error: "@ + cause@,
            RocketChatError::Receive(cause) => "rocket.chat receive error: "@ + cause@,
            RocketChatError::NotFound(cause) => "rocket.chat not found: "@ + cause@,
            RocketChatError::RateLimit(cause) => "rocket.chat rate limited: "@ + cause@,
            RocketChatError::Server(cause) => "rocket.chat server error: "@ + cause@,
            RocketChatError::Deserialize(cause) => "rocket.chat deserialization error: "@ + cause@,
            RocketChatError::State(cause) => "state persistence error: "@ + cause@,
            RocketChatError::StateParse(cause) => "state parse error: "@ + cause@,
            RocketChatError::EventWrite(cause) => "event write error: "@ + cause@,
            RocketChatError::Startup(cause) => "rocket.chat startup error: "@ + cause@,
        }
    }

    /// The error in words.
    pub fn message(&self) -> (r: String)
        ensures
            r@ == self.words(),
    {
        match self {
            RocketChatError::Auth(cause) => text::cat2("rocket.chat auth error: ", cause),
            RocketChatError::Send(cause) => text::cat2("rocket.chat send error: ", cause),
            RocketChatError::Receive(cause) => text::cat2("rocket.chat receive error: ", cause),
            RocketChatError::NotFound(cause) => text::cat2("rocket.chat not found: ", cause),
            RocketChatError::RateLimit(cause) => text::cat2("rocket.chat rate limited: ", cause),
            RocketChatError::Server(cause) => text::cat2("rocket.chat server error: ", cause),
            RocketChatError::Deserialize(cause) => text::cat2(
                "rocket.chat deserialization error: ",
                cause,
            ),
            RocketChatError::State(cause) => text::cat2("state persistence error: ", cause),
            RocketChatError::StateParse(cause) => text::cat2("state parse error: ", cause),
            RocketChatError::EventWrite(cause) => text::cat2("event write error: ", cause),
            RocketChatError::Startup(cause) => text::cat2("rocket.chat startup error: ", cause),
        }
    }
}

/// Every error is told by its kind and the words of its cause.
pub proof fn errors_tell_kind_and_cause(error: &RocketChatError, r: String)
    requires
        call_ensures(RocketChatError::message, (error,), r),
    ensures
        *error matches RocketChatError::Auth(cause) ==> r@ == "rocket.chat auth error: "@ + cause@,
        *error matches RocketChatError::Send(cause) ==> r@ == "rocket.chat send error: "@ + cause@,
        *error matches RocketChatError::Receive(cause) ==> r@ == "rocket.chat receive error: "@
            + cause@,
        *error matches RocketChatError::NotFound(cause) ==> r@ == "rocket.chat not found: "@
            + cause@,
        *error matches RocketChatError::RateLimit(cause) ==> r@ == "rocket.chat rate limited: "@
            + cause@,
        *error matches RocketChatError::Server(cause) ==> r@ == "rocket.chat server error: "@
            + cause@,
        *error matches RocketChatError::Deserialize(cause) ==> r@
            == "rocket.chat deserialization error: "@ + cause@,
        *error matches RocketChatError::State(cause) ==> r@ == "state persistence error: "@ + cause@,
        *error matches RocketChatError::StateParse(cause) ==> r@ == "state parse error: "@ + cause@,
        *error matches RocketChatError::EventWrite(cause) ==> r@ == "event write error: "@ + cause@,
        *error matches RocketChatError::Startup(cause) ==> r@ == "rocket.chat startup error: "@
            + cause@,
{
}

} // verus!
