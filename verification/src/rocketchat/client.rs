//! What a Rocket.Chat client sends and makes of the server's answers, and a
//! client for tests that records calls and plays back prepared answers.

use super::error::{RocketChatError, RocketChatResult};
use super::types::{RcMessage, RcRoom, RcUser, SyncResult};
use crate::json::{self, Fields, JsonTree};
use crate::lists::{copy_text, own_text};
use crate::{lists, text};
use std::collections::VecDeque;
use vstd::prelude::*;

verus! {

/// The path of the REST API below the server URL.
pub const API_PATH: &'static str = "/api/v1/";

/// The header that carries the auth token.
pub const AUTH_HEADER: &'static str = "X-Auth-Token";

/// The header that carries the bot's user ID.
pub const USER_HEADER: &'static str = "X-User-Id";

/// The settings of a REST client, which authenticates with a Personal Access
/// Token.
#[derive(Debug)]
pub struct RocketChatClient {
    /// Base URL of the server, without a trailing slash.
    pub server_url: String,
    /// Personal Access Token.
    pub auth_token: String,
    /// The bot's own user ID.
    pub bot_user_id: String,
}

/// The JSON document of a message to send.
pub open spec fn message_tree(
    room_id: Seq<char>,
    words: Seq<char>,
    thread_id: Option<Seq<char>>,
) -> JsonTree {
    let plain = Map::<Seq<char>, JsonTree>::empty().insert("rid"@, JsonTree::Text(room_id)).insert(
        "msg"@,
        JsonTree::Text(words),
    );
    JsonTree::Object(
        Map::<Seq<char>, JsonTree>::empty().insert(
            "message"@,
            JsonTree::Object(
                match thread_id {
                    Some(thread) => plain.insert("tmid"@, JsonTree::Text(thread)),
                    None => plain,
                },
            ),
        ),
    )
}

impl RocketChatClient {
    /// A client for the given Rocket.Chat server.
    ///
    /// - `server_url`: Base URL of the server (e.g., `https://chat.example.com`)
    /// - `auth_token`: Personal Access Token for authentication
    /// - `bot_user_id`: The bot's own Rocket.Chat user ID (used for `X-User-Id` header)
    pub fn new(server_url: &str, auth_token: &str, bot_user_id: &str) -> (r: Self)
        ensures
            r.server_url@ == text::strip_back(server_url@, Some('/')),
            r.auth_token@ == auth_token@,
            r.bot_user_id@ == bot_user_id@,
    {
        RocketChatClient {
            server_url: String::from_str(text::trim_end_matches(server_url, '/')),
            auth_token: String::from_str(auth_token),
            bot_user_id: String::from_str(bot_user_id),
        }
    }

    /// The URL of an API path.
    pub fn endpoint(&self, path: &str) -> (r: String)
        ensures
            r@ == self.server_url@ + API_PATH@ + path@,
    {
        text::cat3(&self.server_url, API_PATH, path)
    }

    /// The body of a `chat.sendMessage` request, as JSON. With a thread the message
    /// is a reply in it.
    pub fn message_body(room_id: &str, words: &str, thread_id: Option<&str>) -> (r: String)
        ensures
            json::json_parsed(r@) == Some(
                message_tree(room_id@, words@, lists::chars_in(thread_id)),
            ),
    {
        let plain = Fields::new().with_text("rid", room_id).with_text("msg", words);
        let message = match thread_id {
            Some(thread) => plain.with_text("tmid", thread),
            None => plain,
        };
        let inner = message.object();
        proof {
            reveal_strlit("rid");
            reveal_strlit("msg");
            reveal_strlit("tmid");
            reveal_strlit("message");
            json::undollared_keys_are_plain();
            reveal_with_fuel(JsonTree::is_within, 4);
            reveal_with_fuel(JsonTree::has_plain_within, 4);
            assert(inner.tree().is_within(2));
            assert(inner.tree().has_plain_within(2));
        }
        let document = Fields::new().with("message", inner).object();
        json::to_line(&document)
    }
}

// ── Status codes ────────────────────────────────────────────────────────

/// The number and the standard words of an HTTP status, as `reqwest::StatusCode`
/// displays it.
pub uninterp spec fn http_status_text(status: u16) -> Seq<char>;

/// Displays a `reqwest::StatusCode`, made with `StatusCode::from_u16`, which takes
/// the numbers from 100 to 999. The text depends on the number alone and begins
/// with it and a space.
#[verifier::external_body]
fn status_text(status: u16) -> (r: String)
    requires
        100 <= status <= 999,
    ensures
        r@ == http_status_text(status),
        text::occurs_at(r@, text::decimal(status as nat) + " "@, 0),
{
    reqwest::StatusCode::from_u16(status).map_or(String::new(), |code| code.to_string())
}

/// Whether an error is the one for an HTTP status, given how the status is
/// displayed.
pub open spec fn is_status_error(
    error: RocketChatError,
    status: u16,
    shown: Seq<char>,
    body: Seq<char>,
) -> bool {
    if status == 401 {
        error matches RocketChatError::Auth(cause) && cause@ == "HTTP 401: "@ + body
    } else if status == 404 {
        error matches RocketChatError::NotFound(cause) && cause@ == "HTTP 404: "@ + body
    } else if status == 429 {
        error matches RocketChatError::RateLimit(cause) && cause@ == "HTTP 429: "@ + body
    } else if 500 <= status <= 599 {
        error matches RocketChatError::Server(cause) && cause@ == "HTTP "@ + shown + ": "@ + body
    } else {
        error matches RocketChatError::Server(cause) && cause@ == "unexpected HTTP "@ + shown
            + ": "@ + body
    }
}

/// The error for an HTTP status, given how the status is displayed.
pub fn status_error(status: u16, shown: &str, body: &str) -> (r: RocketChatError)
    ensures
        is_status_error(r, status, shown@, body@),
{
    match status {
        401 => RocketChatError::Auth(text::cat2("HTTP 401: ", body)),
        404 => RocketChatError::NotFound(text::cat2("HTTP 404: ", body)),
        429 => RocketChatError::RateLimit(text::cat2("HTTP 429: ", body)),
        500..=599 => RocketChatError::Server(text::cat4("HTTP ", shown, ": ", body)),
        _ => RocketChatError::Server(text::cat4("unexpected HTTP ", shown, ": ", body)),
    }
}

/// Whether an error is the one for an HTTP status: with the status as `reqwest`
/// displays it, which begins with its number and a space.
pub open spec fn is_http_error(error: RocketChatError, status: u16, body: Seq<char>) -> bool {
    &&& is_status_error(error, status, http_status_text(status), body)
    &&& text::occurs_at(http_status_text(status), text::decimal(status as nat) + " "@, 0)
}

/// Maps an HTTP status code to the appropriate `RocketChatError`.
pub fn map_status_error(status: u16, body: &str) -> (r: RocketChatError)
    requires
        100 <= status <= 999,
    ensures
        is_http_error(r, status, body@),
{
    status_error(status, &status_text(status), body)
}

proof fn part_is_contained(whole: Seq<char>, before: Seq<char>, part: Seq<char>, after: Seq<char>)
    requires
        whole == before + part + after,
    ensures
        text::contains(whole, part),
{
    let end = (before.len() + part.len()) as int;
    assert(whole.subrange(before.len() as int, end) =~= part);
    assert(text::occurs_at(whole, part, before.len() as int));
}

/// The error for an HTTP status says in its words which status it was, by its
/// number, and what the server answered. It is an authentication error, one of a
/// missing resource or one of a rate limit exactly for the statuses that say so,
/// and a server error for every other one, which calls the status unexpected
/// exactly if it is not a 5xx one.
pub proof fn status_errors_say_the_status(error: RocketChatError, status: u16, body: Seq<char>)
    requires
        is_http_error(error, status, body),
    ensures
        text::contains(error.words(), text::decimal(status as nat)),
        text::contains(error.words(), body),
        error is Auth <==> status == 401,
        error is NotFound <==> status == 404,
        error is RateLimit <==> status == 429,
        error is Server <==> status != 401 && status != 404 && status != 429,
        error matches RocketChatError::Server(cause) ==> (text::occurs_at(
            cause@,
            "unexpected HTTP "@,
            0,
        ) <==> !(500 <= status <= 599)),
{
    let number = text::decimal(status as nat);
    let shown = http_status_text(status);
    let none = Seq::<char>::empty();
    if status == 401 || status == 404 || status == 429 {
        reveal_with_fuel(text::decimal, 4);
        reveal_strlit("HTTP 401: ");
        reveal_strlit("HTTP 404: ");
        reveal_strlit("HTTP 429: ");
        reveal_strlit(": ");
        reveal_strlit("HTTP ");
        let (start, front) = match error {
            RocketChatError::Auth(_) => ("rocket.chat auth error: "@, "HTTP 401: "@),
            RocketChatError::NotFound(_) => ("rocket.chat not found: "@, "HTTP 404: "@),
            _ => ("rocket.chat rate limited: "@, "HTTP 429: "@),
        };
        assert(front =~= "HTTP "@ + number + ": "@);
        assert(error.words() =~= (start + "HTTP "@) + number + (": "@ + body));
        part_is_contained(error.words(), start + "HTTP "@, number, ": "@ + body);
        assert(error.words() =~= (start + front) + body + none);
        part_is_contained(error.words(), start + front, body, none);
    } else {
        let start = "rocket.chat server error: "@ + (if 500 <= status <= 599 {
            "HTTP "@
        } else {
            "unexpected HTTP "@
        });
        let cause = error->Server_0@;
        let unexpected = "unexpected HTTP "@;
        reveal_strlit("HTTP ");
        reveal_strlit("unexpected HTTP ");
        assert(unexpected[0] == 'u');
        if 500 <= status <= 599 {
            assert(cause[0] == 'H');
            assert(cause.subrange(0, unexpected.len() as int)[0] == cause[0] || cause.len()
                < unexpected.len());
        } else {
            assert(cause.subrange(0, unexpected.len() as int) =~= unexpected);
        }
        let rest = shown.skip(number.len() as int);
        assert(shown =~= number + rest) by {
            let begun = shown.subrange(0, (number + " "@).len() as int);
            assert(begun == number + " "@);
            assert forall|i: int| 0 <= i < number.len() implies shown[i] == number[i] by {
                assert(begun[i] == shown[i]);
                assert((number + " "@)[i] == number[i]);
            }
        }
        assert(error.words() =~= start + number + (rest + ": "@ + body));
        part_is_contained(error.words(), start, number, rest + ": "@ + body);
        assert(error.words() =~= (start + shown + ": "@) + body + none);
        part_is_contained(error.words(), start + shown + ": "@, body, none);
    }
}

/// Whether an HTTP status means success.
pub fn is_success(status: u16) -> (r: bool)
    ensures
        r == (200 <= status <= 299),
{
    200 <= status && status <= 299
}

// ── Answers ─────────────────────────────────────────────────────────────

/// What a request to the server came to.
#[derive(Debug)]
pub enum Answer<T> {
    /// The server could not be asked.
    Unreachable(String),
    /// The server answered with a status that is not success.
    Refused {
        /// The status.
        status: u16,
        /// The body.
        body: String,
    },
    /// The server's answer could not be read.
    Unreadable(String),
    /// What the server answered.
    Found(T),
}

/// Whether an answer has an HTTP status, if it has one at all.
pub open spec fn is_http<T>(answer: Answer<T>) -> bool {
    answer matches Answer::Refused { status, .. } ==> 100 <= status <= 999
}

/// The result of a request: what the server answered, or the error for the way
/// in which it failed. A message that cannot be sent has an error of its own.
pub fn request_result<T>(sending: bool, answer: Answer<T>) -> (r: RocketChatResult<T>)
    requires
        is_http(answer),
    ensures
        match answer {
            Answer::Found(found) => r == Ok::<T, RocketChatError>(found),
            Answer::Unreachable(cause) => r == Err::<T, RocketChatError>(
                if sending {
                    RocketChatError::Send(cause)
                } else {
                    RocketChatError::Receive(cause)
                },
            ),
            Answer::Unreadable(cause) => r == Err::<T, RocketChatError>(
                RocketChatError::Deserialize(cause),
            ),
            Answer::Refused { status, body } => r matches Err(error) && is_http_error(
                error,
                status,
                body@,
            ),
        },
{
    match answer {
        Answer::Found(found) => Ok(found),
        Answer::Unreachable(cause) => {
            if sending {
                Err(RocketChatError::Send(cause))
            } else {
                Err(RocketChatError::Receive(cause))
            }
        },
        Answer::Unreadable(cause) => Err(RocketChatError::Deserialize(cause)),
        Answer::Refused { status, body } => Err(map_status_error(status, &body)),
    }
}

// ── Rooms ───────────────────────────────────────────────────────────────

/// The API paths that are asked about a room, in this order.
#[derive(Debug, Clone, Copy, PartialEq, Eq, Structural)]
pub enum RoomEndpoint {
    /// `channels.info`.
    Channels,
    /// `groups.info`.
    Groups,
    /// `im.info`.
    Direct,
}

/// How to go on after asking about a room.
#[derive(Debug)]
pub enum RoomStep {
    /// Ask at another path.
    Ask(RoomEndpoint),
    /// End with the room, or with an error.
    Done(RocketChatResult<RcRoom>),
}

impl RoomEndpoint {
    /// The API path.
    pub fn path(self) -> (r: &'static str)
        ensures
            r@ == (match self {
                RoomEndpoint::Channels => "channels.info"@,
                RoomEndpoint::Groups => "groups.info"@,
                RoomEndpoint::Direct => "im.info"@,
            }),
    {
        match self {
            RoomEndpoint::Channels => "channels.info",
            RoomEndpoint::Groups => "groups.info",
            RoomEndpoint::Direct => "im.info",
        }
    }

    /// The path to ask at next.
    pub open spec fn next(self) -> Option<RoomEndpoint> {
        match self {
            RoomEndpoint::Channels => Some(RoomEndpoint::Groups),
            RoomEndpoint::Groups => Some(RoomEndpoint::Direct),
            RoomEndpoint::Direct => None,
        }
    }
}

/// How to go on after asking about a room: a room that was found ends the search,
/// and so does a server that cannot be reached; otherwise the next path is tried,
/// and at the last one the answer is the error.
pub fn get_room_info(asked: RoomEndpoint, answer: Answer<RcRoom>) -> (r: RoomStep)
    requires
        is_http(answer),
    ensures
        match answer {
            Answer::Found(room) => r == RoomStep::Done(Ok::<RcRoom, RocketChatError>(room)),
            Answer::Unreachable(cause) => r == RoomStep::Done(
                Err::<RcRoom, RocketChatError>(RocketChatError::Receive(cause)),
            ),
            Answer::Unreadable(cause) => r == (match asked.next() {
                Some(other) => RoomStep::Ask(other),
                None => RoomStep::Done(
                    Err::<RcRoom, RocketChatError>(RocketChatError::Deserialize(cause)),
                ),
            }),
            Answer::Refused { status, body } => match asked.next() {
                Some(other) => r == RoomStep::Ask(other),
                None => r matches RoomStep::Done(Err(error)) && is_http_error(
                    error,
                    status,
                    body@,
                ),
            },
        },
{
    match (asked, &answer) {
        (RoomEndpoint::Channels, Answer::Refused { .. }) => RoomStep::Ask(RoomEndpoint::Groups),
        (RoomEndpoint::Channels, Answer::Unreadable(_)) => RoomStep::Ask(RoomEndpoint::Groups),
        (RoomEndpoint::Groups, Answer::Refused { .. }) => RoomStep::Ask(RoomEndpoint::Direct),
        (RoomEndpoint::Groups, Answer::Unreadable(_)) => RoomStep::Ask(RoomEndpoint::Direct),
        _ => RoomStep::Done(request_result(false, answer)),
    }
}

// ── MockRocketChatClient ────────────────────────────────────────────────

/// Recorded call to [`MockRocketChatClient`].
#[derive(Debug)]
pub enum MockCall {
    /// A `send_message` call with the room ID, text content, and optional thread ID.
    SendMessage {
        /// The room.
        room_id: String,
        /// The text.
        text: String,
        /// The thread.
        thread_id: Option<String>,
    },
    /// A `sync_messages` call with the room ID and last-update timestamp.
    SyncMessages {
        /// The room.
        room_id: String,
        /// The time of the previous sync.
        last_update: String,
    },
    /// A `get_me` call (no parameters).
    GetMe,
    /// A `get_room_info` call with the room ID.
    GetRoomInfo {
        /// The room.
        room_id: String,
    },
}

impl Clone for MockCall {
    fn clone(&self) -> (r: Self)
        ensures
            r == *self,
    {
        match self {
            MockCall::SendMessage { room_id, text, thread_id } => MockCall::SendMessage {
                room_id: room_id.clone(),
                text: text.clone(),
                thread_id: copy_text(thread_id),
            },
            MockCall::SyncMessages { room_id, last_update } => MockCall::SyncMessages {
                room_id: room_id.clone(),
                last_update: last_update.clone(),
            },
            MockCall::GetMe => MockCall::GetMe,
            MockCall::GetRoomInfo { room_id } => MockCall::GetRoomInfo { room_id: room_id.clone() },
        }
    }
}

/// A Rocket.Chat client for tests. Records all calls and returns answers from
/// queues; an empty queue stands for a fixed answer.
pub struct MockRocketChatClient {
    /// The calls, in order.
    pub recorded: Vec<MockCall>,
    /// Answers for `send_message`.
    pub send_message_responses: VecDeque<RocketChatResult<RcMessage>>,
    /// Answers for `sync_messages`.
    pub sync_messages_responses: VecDeque<RocketChatResult<SyncResult>>,
    /// Answers for `get_me`.
    pub get_me_responses: VecDeque<RocketChatResult<RcUser>>,
    /// Answers for `get_room_info`.
    pub get_room_info_responses: VecDeque<RocketChatResult<RcRoom>>,
}

/// What is left of a queue of answers after a call.
pub open spec fn rest<T>(queue: Seq<T>) -> Seq<T> {
    if queue.len() > 0 {
        queue.drop_first()
    } else {
        queue
    }
}

/// Whether a user is the bot that the client for tests stands for.
pub open spec fn is_mock_bot(user: RcUser) -> bool {
    user.id@ == "bot-user"@ && user.username@ == "mock-bot"@ && lists::text_in(user.name) == Some(
        "Mock Bot"@,
    )
}

fn mock_bot() -> (r: RcUser)
    ensures
        is_mock_bot(r),
{
    RcUser {
        id: String::from_str("bot-user"),
        username: String::from_str("mock-bot"),
        name: Some(String::from_str("Mock Bot")),
    }
}

impl MockRocketChatClient {
    /// A client with an empty call log and no prepared answers.
    pub fn new() -> (r: Self)
        ensures
            r.recorded@.len() == 0,
            r.send_message_responses@.len() == 0,
            r.sync_messages_responses@.len() == 0,
            r.get_me_responses@.len() == 0,
            r.get_room_info_responses@.len() == 0,
    {
        MockRocketChatClient {
            recorded: Vec::new(),
            send_message_responses: VecDeque::new(),
            sync_messages_responses: VecDeque::new(),
            get_me_responses: VecDeque::new(),
            get_room_info_responses: VecDeque::new(),
        }
    }

    /// Enqueues a response for the next `send_message` call.
    pub fn on_send_message(&mut self, response: RocketChatResult<RcMessage>)
        ensures
            final(self).send_message_responses@ == old(self).send_message_responses@.push(response),
            *final(self) == (MockRocketChatClient {
                send_message_responses: final(self).send_message_responses,
                ..*old(self)
            }),
    {
        self.send_message_responses.push_back(response);
    }

    /// Enqueues a response for the next `sync_messages` call.
    pub fn on_sync_messages(&mut self, response: RocketChatResult<SyncResult>)
        ensures
            final(self).sync_messages_responses@ == old(self).sync_messages_responses@.push(
                response,
            ),
            *final(self) == (MockRocketChatClient {
                sync_messages_responses: final(self).sync_messages_responses,
                ..*old(self)
            }),
    {
        self.sync_messages_responses.push_back(response);
    }

    /// Enqueues a response for the next `get_me` call.
    pub fn on_get_me(&mut self, response: RocketChatResult<RcUser>)
        ensures
            final(self).get_me_responses@ == old(self).get_me_responses@.push(response),
            *final(self) == (MockRocketChatClient {
                get_me_responses: final(self).get_me_responses,
                ..*old(self)
            }),
    {
        self.get_me_responses.push_back(response);
    }

    /// Enqueues a response for the next `get_room_info` call.
    pub fn on_get_room_info(&mut self, response: RocketChatResult<RcRoom>)
        ensures
            final(self).get_room_info_responses@ == old(self).get_room_info_responses@.push(
                response,
            ),
            *final(self) == (MockRocketChatClient {
                get_room_info_responses: final(self).get_room_info_responses,
                ..*old(self)
            }),
    {
        self.get_room_info_responses.push_back(response);
    }

    /// A snapshot of all recorded calls.
    pub fn calls(&self) -> (r: Vec<MockCall>)
        ensures
            r@ == self.recorded@,
    {
        let mut out: Vec<MockCall> = Vec::new();
        let mut i: usize = 0;
        while i < self.recorded.len()
            invariant
                i <= self.recorded@.len(),
                out@ == self.recorded@.take(i as int),
            decreases self.recorded@.len() - i,
        {
            out.push(self.recorded[i].clone());
            i = i + 1;
        }
        assert(self.recorded@.take(i as int) == self.recorded@);
        out
    }

    /// The number of recorded calls.
    pub fn call_count(&self) -> (r: usize)
        ensures
            r == self.recorded@.len(),
    {
        self.recorded.len()
    }

    /// Sends a message: the next prepared answer, or else the message itself as the
    /// bot's, with an ID that counts the calls.
    pub fn send_message(
        &mut self,
        room_id: &str,
        words: &str,
        thread_id: Option<&str>,
    ) -> (r: RocketChatResult<RcMessage>)
        ensures
            final(self).recorded@ == old(self).recorded@.push(final(self).recorded@.last()),
            final(self).recorded@.last() matches MockCall::SendMessage {
                room_id: room,
                text: said,
                thread_id: thread,
            } && room@ == room_id@ && said@ == words@ && lists::text_in(thread)
                == lists::chars_in(thread_id),
            final(self).send_message_responses@ == rest(old(self).send_message_responses@),
            *final(self) == (MockRocketChatClient {
                recorded: final(self).recorded,
                send_message_responses: final(self).send_message_responses,
                ..*old(self)
            }),
            if old(self).send_message_responses@.len() > 0 {
                r == old(self).send_message_responses@[0]
            } else {
                r matches Ok(message) && message.id@ == "msg-"@ + text::decimal(
                    (old(self).recorded@.len() + 1) as nat,
                ) && message.rid@ == room_id@ && message.msg@ == words@ && is_mock_bot(message.u)
                    && message.ts@ == "2026-01-01T00:00:00.000Z"@ && lists::text_in(message.tmid)
                    == lists::chars_in(thread_id) && message.t is None
            },
    {
        self.recorded.push(
            MockCall::SendMessage {
                room_id: String::from_str(room_id),
                text: String::from_str(words),
                thread_id: own_text(thread_id),
            },
        );
        match self.send_message_responses.pop_front() {
            Some(response) => response,
            None => {
                let count: usize = self.call_count();
                Ok(
                    RcMessage {
                        id: text::cat2("msg-", &text::number(count as u64)),
                        rid: String::from_str(room_id),
                        msg: String::from_str(words),
                        u: mock_bot(),
                        ts: String::from_str("2026-01-01T00:00:00.000Z"),
                        tmid: own_text(thread_id),
                        t: None,
                    },
                )
            },
        }
    }

    /// Syncs: the next prepared answer, or else no messages.
    pub fn sync_messages(
        &mut self,
        room_id: &str,
        last_update: &str,
    ) -> (r: RocketChatResult<SyncResult>)
        ensures
            final(self).recorded@ == old(self).recorded@.push(final(self).recorded@.last()),
            final(self).recorded@.last() matches MockCall::SyncMessages {
                room_id: room,
                last_update: time,
            } && room@ == room_id@ && time@ == last_update@,
            final(self).sync_messages_responses@ == rest(old(self).sync_messages_responses@),
            *final(self) == (MockRocketChatClient {
                recorded: final(self).recorded,
                sync_messages_responses: final(self).sync_messages_responses,
                ..*old(self)
            }),
            if old(self).sync_messages_responses@.len() > 0 {
                r == old(self).sync_messages_responses@[0]
            } else {
                r matches Ok(result) && result.updated@.len() == 0 && result.deleted@.len() == 0
            },
    {
        self.recorded.push(
            MockCall::SyncMessages {
                room_id: String::from_str(room_id),
                last_update: String::from_str(last_update),
            },
        );
        match self.sync_messages_responses.pop_front() {
            Some(response) => response,
            None => Ok(SyncResult { updated: Vec::new(), deleted: Vec::new() }),
        }
    }

    /// Asks for the bot's own user: the next prepared answer, or else a fixed user.
    pub fn get_me(&mut self) -> (r: RocketChatResult<RcUser>)
        ensures
            final(self).recorded@ == old(self).recorded@.push(final(self).recorded@.last()),
            final(self).recorded@.last() is GetMe,
            final(self).get_me_responses@ == rest(old(self).get_me_responses@),
            *final(self) == (MockRocketChatClient {
                recorded: final(self).recorded,
                get_me_responses: final(self).get_me_responses,
                ..*old(self)
            }),
            if old(self).get_me_responses@.len() > 0 {
                r == old(self).get_me_responses@[0]
            } else {
                r matches Ok(user) && is_mock_bot(user)
            },
    {
        self.recorded.push(MockCall::GetMe);
        match self.get_me_responses.pop_front() {
            Some(response) => response,
            None => Ok(mock_bot()),
        }
    }

    /// Asks about a room: the next prepared answer, or else a channel with that ID.
    pub fn get_room_info(&mut self, room_id: &str) -> (r: RocketChatResult<RcRoom>)
        ensures
            final(self).recorded@ == old(self).recorded@.push(final(self).recorded@.last()),
            final(self).recorded@.last() matches MockCall::GetRoomInfo { room_id: room } && room@
                == room_id@,
            final(self).get_room_info_responses@ == rest(old(self).get_room_info_responses@),
            *final(self) == (MockRocketChatClient {
                recorded: final(self).recorded,
                get_room_info_responses: final(self).get_room_info_responses,
                ..*old(self)
            }),
            if old(self).get_room_info_responses@.len() > 0 {
                r == old(self).get_room_info_responses@[0]
            } else {
                r matches Ok(room) && room.id@ == room_id@ && room.t@ == "c"@ && lists::text_in(
                    room.name,
                ) == Some("mock-room"@) && lists::text_in(room.fname) == Some("Mock Room"@)
            },
    {
        self.recorded.push(MockCall::GetRoomInfo { room_id: String::from_str(room_id) });
        match self.get_room_info_responses.pop_front() {
            Some(response) => response,
            None => Ok(
                RcRoom {
                    id: String::from_str(room_id),
                    t: String::from_str("c"),
                    name: Some(String::from_str("mock-room")),
                    fname: Some(String::from_str("Mock Room")),
                },
            ),
        }
    }
}

// ── Laws ────────────────────────────────────────────────────────────────

/// Slashes at the end of the server URL do not matter: requests go to the API path below
/// it, with the credentials as they are.
pub proof fn trailing_slashes_do_not_matter(
    server_url: &str,
    auth_token: &str,
    bot_user_id: &str,
    path: &str,
    base: Seq<char>,
    slashes: Seq<char>,
    client: &RocketChatClient,
    r: String,
)
    requires
        server_url@ == base + slashes,
        base.len() > 0 ==> base.last() != '/',
        forall|i: int| 0 <= i < slashes.len() ==> #[trigger] slashes[i] == '/',
        call_ensures(RocketChatClient::new, (server_url, auth_token, bot_user_id), *client),
        call_ensures(RocketChatClient::endpoint, (client, path), r),
    ensures
        r@ == base + "/api/v1/"@ + path@,
        client.auth_token@ == auth_token@,
        client.bot_user_id@ == bot_user_id@,
        AUTH_HEADER@ == "X-Auth-Token"@ && USER_HEADER@ == "X-User-Id"@,
{
    text::back_is_stripped(base, slashes, Some('/'));
}

/// The body of a message holds the room and the text, word for word, and the thread
/// exactly if there is one, and nothing else.
pub proof fn message_bodies_hold_all(
    room_id: &str,
    words: &str,
    thread_id: Option<&str>,
    other: Seq<char>,
    r: String,
)
    requires
        call_ensures(RocketChatClient::message_body, (room_id, words, thread_id), r),
    ensures
        ({
            let body = json::json_parsed(r@)->0;
            let message = body.entry("message"@)->0;
            &&& json::json_parsed(r@) is Some
            &&& body.entry("message"@) is Some
            &&& other != "message"@ ==> body.entry(other) is None
            &&& message.entry("rid"@) == Some(JsonTree::Text(room_id@))
            &&& message.entry("msg"@) == Some(JsonTree::Text(words@))
            &&& thread_id matches Some(thread) ==> message.entry("tmid"@) == Some(
                JsonTree::Text(thread@),
            )
            &&& thread_id is None ==> message.entry("tmid"@) is None
            &&& other != "rid"@ && other != "msg"@ && other != "tmid"@ ==> message.entry(
                other,
            ) is None
        }),
{
    reveal_strlit("rid");
    reveal_strlit("msg");
    reveal_strlit("tmid");
    assert("rid"@[0] == 'r');
    assert("msg"@[0] == 'm');
    assert("tmid"@.len() == 4);
    assert("rid"@.len() == 3);
    assert("msg"@.len() == 3);
}

/// The words of the error for a status: its number, for an authentication error, a missing
/// resource and a rate limit, and else the status as it is displayed; and what the server
/// answered. A status is a success exactly if it is a 2xx one.
pub proof fn status_errors_in_words(
    status: u16,
    shown: &str,
    body: &str,
    error: RocketChatError,
    well: bool,
)
    requires
        call_ensures(status_error, (status, shown, body), error),
        call_ensures(is_success, (status,), well),
    ensures
        well <==> 200 <= status < 300,
        status == 401 ==> (error matches RocketChatError::Auth(cause) && cause@ == "HTTP 401: "@
            + body@),
        status == 404 ==> (error matches RocketChatError::NotFound(cause) && cause@
            == "HTTP 404: "@ + body@),
        status == 429 ==> (error matches RocketChatError::RateLimit(cause) && cause@
            == "HTTP 429: "@ + body@),
        500 <= status < 600 ==> (error matches RocketChatError::Server(cause) && cause@ == "HTTP "@
            + shown@ + ": "@ + body@),
        status != 401 && status != 404 && status != 429 && !(500 <= status < 600) ==> (error
            matches RocketChatError::Server(cause) && cause@ == "unexpected HTTP "@ + shown@
            + ": "@ + body@),
{
}

/// What the server answered is the result of a request; a server that cannot be asked is
/// an error of sending exactly if something was sent, and an answer that cannot be read is
/// one of reading.
pub proof fn answers_are_results(
    sending: bool,
    found: RcRoom,
    cause: String,
    answer: Answer<RcRoom>,
    r: RocketChatResult<RcRoom>,
)
    requires
        call_ensures(request_result::<RcRoom>, (sending, answer), r),
    ensures
        answer == Answer::Found(found) ==> r == Ok::<RcRoom, RocketChatError>(found),
        answer == Answer::<RcRoom>::Unreachable(cause) && sending ==> r == Err::<
            RcRoom,
            RocketChatError,
        >(RocketChatError::Send(cause)),
        answer == Answer::<RcRoom>::Unreachable(cause) && !sending ==> r == Err::<
            RcRoom,
            RocketChatError,
        >(RocketChatError::Receive(cause)),
        answer == Answer::<RcRoom>::Unreadable(cause) ==> r == Err::<RcRoom, RocketChatError>(
            RocketChatError::Deserialize(cause),
        ),
        answer is Refused ==> r is Err,
{
}

/// A room is looked for among the channels, then the groups, then the direct messages, for
/// as long as the server refuses or cannot be understood. What is found first is the room;
/// a server that cannot be asked ends the search.
pub proof fn rooms_are_looked_for_everywhere(
    answer: Answer<RcRoom>,
    room: RcRoom,
    cause: String,
    channels: RoomStep,
    groups: RoomStep,
    direct: RoomStep,
    first: &'static str,
    second: &'static str,
    third: &'static str,
)
    requires
        call_ensures(get_room_info, (RoomEndpoint::Channels, answer), channels),
        call_ensures(get_room_info, (RoomEndpoint::Groups, answer), groups),
        call_ensures(get_room_info, (RoomEndpoint::Direct, answer), direct),
        call_ensures(RoomEndpoint::path, (RoomEndpoint::Channels,), first),
        call_ensures(RoomEndpoint::path, (RoomEndpoint::Groups,), second),
        call_ensures(RoomEndpoint::path, (RoomEndpoint::Direct,), third),
    ensures
        first@ == "channels.info"@ && second@ == "groups.info"@ && third@ == "im.info"@,
        answer is Refused || answer is Unreadable ==> {
            &&& channels == RoomStep::Ask(RoomEndpoint::Groups)
            &&& groups == RoomStep::Ask(RoomEndpoint::Direct)
            &&& direct matches RoomStep::Done(result) && result is Err
        },
        answer == Answer::<RcRoom>::Unreadable(cause) ==> direct == RoomStep::Done(
            Err::<RcRoom, RocketChatError>(RocketChatError::Deserialize(cause)),
        ),
        answer == Answer::Found(room) ==> {
            let done = RoomStep::Done(Ok::<RcRoom, RocketChatError>(room));
            channels == done && groups == done && direct == done
        },
        answer == Answer::<RcRoom>::Unreachable(cause) ==> {
            let done = RoomStep::Done(
                Err::<RcRoom, RocketChatError>(RocketChatError::Receive(cause)),
            );
            channels == done && groups == done && direct == done
        },
{
}

/// The client for tests records every message that it is asked to send, behind the calls
/// before it, with its room, its text and its thread. It plays back the answers that were
/// prepared for sending in the order in which they were, and without one it gives the
/// message itself, as the bot's, numbered by the calls so far.
pub proof fn sent_messages_are_recorded(
    before: MockRocketChatClient,
    after: MockRocketChatClient,
    room_id: &str,
    words: &str,
    thread_id: Option<&str>,
    answer: RocketChatResult<RcMessage>,
    later: Seq<RocketChatResult<RcMessage>>,
    r: RocketChatResult<RcMessage>,
)
    requires
        exists|client: &mut MockRocketChatClient|
            *client == before && *final(client) == after && #[trigger] call_ensures(
                MockRocketChatClient::send_message,
                (client, room_id, words, thread_id),
                r,
            ),
    ensures
        after.recorded@.len() == before.recorded@.len() + 1,
        after.recorded@.drop_last() == before.recorded@,
        after.recorded@.last() matches MockCall::SendMessage { room_id: room, text: said, thread_id: thread }
            && room@ == room_id@ && said@ == words@ && (thread is Some <==> thread_id is Some) && (
        thread_id matches Some(id) ==> thread->0@ == id@),
        before.send_message_responses@ == seq![answer] + later ==> r == answer
            && after.send_message_responses@ == later,
        before.send_message_responses@.len() == 0 ==> (r matches Ok(message) && message.id@
            == "msg-"@ + text::decimal(after.recorded@.len()) && message.rid@ == room_id@
            && message.msg@ == words@ && message.u.id@ == "bot-user"@ && message.u.username@
            == "mock-bot"@ && message.ts@ == "2026-01-01T00:00:00.000Z"@ && message.t is None && (
        message.tmid is Some <==> thread_id is Some) && (thread_id matches Some(id)
            ==> message.tmid->0@ == id@)),
        after.sync_messages_responses == before.sync_messages_responses,
        after.get_me_responses == before.get_me_responses,
{
    assert(after.recorded@.drop_last() =~= before.recorded@);
    if before.send_message_responses@ == seq![answer] + later {
        assert((seq![answer] + later)[0] == answer);
        assert((seq![answer] + later).drop_first() =~= later);
    }
}

/// Without prepared answers the client for tests syncs nothing, is a fixed user and finds
/// every room as a channel with its ID. Each call is recorded behind those before it.
pub proof fn unprepared_answers_are_fixed(
    before: MockRocketChatClient,
    room_id: &str,
    last_update: &str,
    synced: MockRocketChatClient,
    asked: MockRocketChatClient,
    looked: MockRocketChatClient,
    sync: RocketChatResult<SyncResult>,
    me: RocketChatResult<RcUser>,
    room: RocketChatResult<RcRoom>,
)
    requires
        before.sync_messages_responses@.len() == 0,
        before.get_me_responses@.len() == 0,
        before.get_room_info_responses@.len() == 0,
        exists|client: &mut MockRocketChatClient|
            *client == before && *final(client) == synced && #[trigger] call_ensures(
                MockRocketChatClient::sync_messages,
                (client, room_id, last_update),
                sync,
            ),
        exists|client: &mut MockRocketChatClient|
            *client == before && *final(client) == asked && #[trigger] call_ensures(
                MockRocketChatClient::get_me,
                (client,),
                me,
            ),
        exists|client: &mut MockRocketChatClient|
            *client == before && *final(client) == looked && #[trigger] call_ensures(
                MockRocketChatClient::get_room_info,
                (client, room_id),
                room,
            ),
    ensures
        sync matches Ok(result) && result.updated@.len() == 0 && result.deleted@.len() == 0,
        synced.recorded@.last() matches MockCall::SyncMessages { room_id: r, last_update: t } && r@
            == room_id@ && t@ == last_update@,
        me matches Ok(user) && user.id@ == "bot-user"@ && user.username@ == "mock-bot"@
            && user.name is Some && user.name->0@ == "Mock Bot"@,
        asked.recorded@.last() is GetMe,
        room matches Ok(found) && found.id@ == room_id@ && found.t@ == "c"@ && found.name is Some
            && found.name->0@ == "mock-room"@ && found.fname is Some && found.fname->0@
            == "Mock Room"@,
        looked.recorded@.last() matches MockCall::GetRoomInfo { room_id: r } && r@ == room_id@,
        synced.recorded@.len() == before.recorded@.len() + 1,
        asked.recorded@.len() == before.recorded@.len() + 1,
        looked.recorded@.len() == before.recorded@.len() + 1,
{
}

} // verus!
