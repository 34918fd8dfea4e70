//! What a Matrix client makes of the homeserver's answers, and a client for
//! tests that records calls and plays back prepared answers.

use super::error::MatrixResult;
use super::types::{MatrixMessage, RoomInfo, SyncResult};
use crate::lists::{copy_text, own_text};
use crate::{lists, text};
use std::collections::VecDeque;
use std::time::Duration;
use vstd::prelude::*;

verus! {

/// How a message relates to another.
#[derive(Debug)]
pub enum MessageRelation {
    /// It does not.
    Unrelated,
    /// It is a reply to the message with this event ID.
    ReplyTo(String),
    /// It is an edit, a thread message or the like.
    Otherwise,
}

/// An event of a room's timeline.
#[derive(Debug)]
pub enum TimelineItem {
    /// A text message.
    Text {
        /// The sender's user ID.
        sender_id: String,
        /// The text.
        body: String,
        /// The event ID.
        event_id: String,
        /// Milliseconds since the Unix epoch, by the homeserver.
        timestamp: u64,
        /// The relation to another message.
        relation: MessageRelation,
    },
    /// A message that is not text, or was redacted.
    OtherMessage,
    /// Any other event, or one that cannot be read.
    OtherEvent,
}

/// What a sync says about a joined room.
#[derive(Debug)]
pub struct JoinedRoom {
    /// The room ID.
    pub room_id: String,
    /// The new events of the timeline, in order.
    pub events: Vec<TimelineItem>,
}

/// The message that a timeline event is, if it is one to process.
pub open spec fn item_message(room_id: String, item: TimelineItem) -> Option<MatrixMessage> {
    match item {
        TimelineItem::Text { sender_id, body, event_id, timestamp, relation } => Some(
            MatrixMessage {
                sender_id,
                body,
                event_id,
                timestamp,
                room_id,
                reply_to_event_id: match relation {
                    MessageRelation::ReplyTo(replied) => Some(replied),
                    _ => None,
                },
            },
        ),
        _ => None,
    }
}

/// The messages of a room, in the order of its timeline.
pub open spec fn room_messages(room_id: String, events: Seq<TimelineItem>) -> Seq<MatrixMessage>
    decreases events.len(),
{
    if events.len() == 0 {
        Seq::empty()
    } else {
        let before = room_messages(room_id, events.drop_last());
        match item_message(room_id, events.last()) {
            Some(message) => before.push(message),
            None => before,
        }
    }
}

/// The messages of a sync, room by room.
pub open spec fn sync_messages(rooms: Seq<JoinedRoom>) -> Seq<MatrixMessage>
    decreases rooms.len(),
{
    if rooms.len() == 0 {
        Seq::empty()
    } else {
        sync_messages(rooms.drop_last()) + room_messages(rooms.last().room_id, rooms.last().events@)
    }
}

/// Collects the text messages of a sync, each with its room and with the message
/// that it replies to.
pub fn collect_messages(rooms: &Vec<JoinedRoom>) -> (r: SyncResult)
    ensures
        r.messages@ == sync_messages(rooms@),
{
    let mut messages: Vec<MatrixMessage> = Vec::new();
    let mut i: usize = 0;
    assert(rooms@.take(0) == Seq::<JoinedRoom>::empty());
    while i < rooms.len()
        invariant
            i <= rooms@.len(),
            messages@ == sync_messages(rooms@.take(i as int)),
        decreases rooms@.len() - i,
    {
        let room = &rooms[i];
        let ghost before = messages@;
        let mut j: usize = 0;
        assert(room.events@.take(0) == Seq::<TimelineItem>::empty());
        assert(before + room_messages(room.room_id, room.events@.take(0)) == before);
        while j < room.events.len()
            invariant
                j <= room.events@.len(),
                messages@ == before + room_messages(room.room_id, room.events@.take(j as int)),
            decreases room.events@.len() - j,
        {
            assert(room.events@.take(j + 1).drop_last() == room.events@.take(j as int));
            match &room.events[j] {
                TimelineItem::Text { sender_id, body, event_id, timestamp, relation } => {
                    let reply_to_event_id: Option<String> = match relation {
                        MessageRelation::ReplyTo(replied) => Some(replied.clone()),
                        _ => None,
                    };
                    messages.push(
                        MatrixMessage {
                            sender_id: sender_id.clone(),
                            body: body.clone(),
                            event_id: event_id.clone(),
                            timestamp: *timestamp,
                            room_id: room.room_id.clone(),
                            reply_to_event_id,
                        },
                    );
                },
                _ => {},
            }
            j = j + 1;
        }
        assert(room.events@.take(j as int) == room.events@);
        assert(rooms@.take(i + 1).drop_last() == rooms@.take(i as int));
        i = i + 1;
    }
    assert(rooms@.take(i as int) == rooms@);
    SyncResult { messages }
}

/// The display name of the bot: the name that the homeserver knows, else the
/// user ID, else a stand-in.
pub fn display_name(name: Option<String>, user_id: Option<String>) -> (r: String)
    ensures
        r@ == (match name {
            Some(known) => known@,
            None => match user_id {
                Some(id) => id@,
                None => "unknown"@,
            },
        }),
{
    match name {
        Some(known) => known,
        None => match user_id {
            Some(id) => id,
            None => String::from_str("unknown"),
        },
    }
}

// ── MockMatrixClient ────────────────────────────────────────────────────

/// Recorded call to [`MockMatrixClient`].
#[derive(Debug)]
pub enum MockCall {
    /// A `login` call with homeserver URL and username.
    Login {
        /// The homeserver.
        homeserver_url: String,
        /// The user.
        username: String,
    },
    /// A `login_with_token` call with homeserver URL.
    LoginWithToken {
        /// The homeserver.
        homeserver_url: String,
    },
    /// A `send_message` call with room ID, text, and optional reply-to event ID.
    SendMessage {
        /// The room.
        room_id: String,
        /// The text.
        body: String,
        /// The event ID of the message replied to.
        reply_to_event_id: Option<String>,
    },
    /// A `sync_once` call with the timeout duration.
    SyncOnce {
        /// The longest wait for messages.
        timeout: Duration,
    },
    /// A `get_display_name` call (no parameters).
    GetDisplayName,
    /// A `get_room_info` call with the room ID.
    GetRoomInfo {
        /// The room.
        room_id: String,
    },
    /// A `join_room` call with the room ID or alias.
    JoinRoom {
        /// The room.
        room_id_or_alias: String,
    },
}

impl Clone for MockCall {
    fn clone(&self) -> (r: Self)
        ensures
            r == *self,
    {
        match self {
            MockCall::Login { homeserver_url, username } => MockCall::Login {
                homeserver_url: homeserver_url.clone(),
                username: username.clone(),
            },
            MockCall::LoginWithToken { homeserver_url } => MockCall::LoginWithToken {
                homeserver_url: homeserver_url.clone(),
            },
            MockCall::SendMessage { room_id, body, reply_to_event_id } => MockCall::SendMessage {
                room_id: room_id.clone(),
                body: body.clone(),
                reply_to_event_id: copy_text(reply_to_event_id),
            },
            MockCall::SyncOnce { timeout } => MockCall::SyncOnce { timeout: *timeout },
            MockCall::GetDisplayName => MockCall::GetDisplayName,
            MockCall::GetRoomInfo { room_id } => MockCall::GetRoomInfo { room_id: room_id.clone() },
            MockCall::JoinRoom { room_id_or_alias } => MockCall::JoinRoom {
                room_id_or_alias: room_id_or_alias.clone(),
            },
        }
    }
}

/// A Matrix client for tests. Records all calls and returns answers from queues;
/// an empty queue stands for a fixed answer.
pub struct MockMatrixClient {
    /// The calls, in order.
    pub recorded: Vec<MockCall>,
    /// Answers for `login`.
    pub login_responses: VecDeque<MatrixResult<()>>,
    /// Answers for `login_with_token`.
    pub login_with_token_responses: VecDeque<MatrixResult<()>>,
    /// Answers for `send_message`.
    pub send_message_responses: VecDeque<MatrixResult<String>>,
    /// Answers for `sync_once`.
    pub sync_once_responses: VecDeque<MatrixResult<SyncResult>>,
    /// Answers for `get_display_name`.
    pub get_display_name_responses: VecDeque<MatrixResult<String>>,
    /// Answers for `get_room_info`.
    pub get_room_info_responses: VecDeque<MatrixResult<RoomInfo>>,
    /// Answers for `join_room`.
    pub join_room_responses: VecDeque<MatrixResult<String>>,
}

/// What is left of a queue of answers after a call.
pub open spec fn rest<T>(queue: Seq<T>) -> Seq<T> {
    if queue.len() > 0 {
        queue.drop_first()
    } else {
        queue
    }
}

impl MockMatrixClient {
    /// A client with an empty call log and no prepared answers.
    pub fn new() -> (r: Self)
        ensures
            r.recorded@.len() == 0,
            r.login_responses@.len() == 0,
            r.login_with_token_responses@.len() == 0,
            r.send_message_responses@.len() == 0,
            r.sync_once_responses@.len() == 0,
            r.get_display_name_responses@.len() == 0,
            r.get_room_info_responses@.len() == 0,
            r.join_room_responses@.len() == 0,
    {
        MockMatrixClient {
            recorded: Vec::new(),
            login_responses: VecDeque::new(),
            login_with_token_responses: VecDeque::new(),
            send_message_responses: VecDeque::new(),
            sync_once_responses: VecDeque::new(),
            get_display_name_responses: VecDeque::new(),
            get_room_info_responses: VecDeque::new(),
            join_room_responses: VecDeque::new(),
        }
    }

    /// Enqueues a response for the next `login` call.
    pub fn on_login(&mut self, response: MatrixResult<()>)
        ensures
            final(self).login_responses@ == old(self).login_responses@.push(response),
            *final(self) == (MockMatrixClient {
                login_responses: final(self).login_responses,
                ..*old(self)
            }),
    {
        self.login_responses.push_back(response);
    }

    /// Enqueues a response for the next `login_with_token` call.
    pub fn on_login_with_token(&mut self, response: MatrixResult<()>)
        ensures
            final(self).login_with_token_responses@ == old(self).login_with_token_responses@.push(
                response,
            ),
            *final(self) == (MockMatrixClient {
                login_with_token_responses: final(self).login_with_token_responses,
                ..*old(self)
            }),
    {
        self.login_with_token_responses.push_back(response);
    }

    /// Enqueues a response for the next `send_message` call.
    pub fn on_send_message(&mut self, response: MatrixResult<String>)
        ensures
            final(self).send_message_responses@ == old(self).send_message_responses@.push(response),
            *final(self) == (MockMatrixClient {
                send_message_responses: final(self).send_message_responses,
                ..*old(self)
            }),
    {
        self.send_message_responses.push_back(response);
    }

    /// Enqueues a response for the next `sync_once` call.
    pub fn on_sync_once(&mut self, response: MatrixResult<SyncResult>)
        ensures
            final(self).sync_once_responses@ == old(self).sync_once_responses@.push(response),
            *final(self) == (MockMatrixClient {
                sync_once_responses: final(self).sync_once_responses,
                ..*old(self)
            }),
    {
        self.sync_once_responses.push_back(response);
    }

    /// Enqueues a response for the next `get_display_name` call.
    pub fn on_get_display_name(&mut self, response: MatrixResult<String>)
        ensures
            final(self).get_display_name_responses@ == old(self).get_display_name_responses@.push(
                response,
            ),
            *final(self) == (MockMatrixClient {
                get_display_name_responses: final(self).get_display_name_responses,
                ..*old(self)
            }),
    {
        self.get_display_name_responses.push_back(response);
    }

    /// Enqueues a response for the next `get_room_info` call.
    pub fn on_get_room_info(&mut self, response: MatrixResult<RoomInfo>)
        ensures
            final(self).get_room_info_responses@ == old(self).get_room_info_responses@.push(
                response,
            ),
            *final(self) == (MockMatrixClient {
                get_room_info_responses: final(self).get_room_info_responses,
                ..*old(self)
            }),
    {
        self.get_room_info_responses.push_back(response);
    }

    /// Enqueues a response for the next `join_room` call.
    pub fn on_join_room(&mut self, response: MatrixResult<String>)
        ensures
            final(self).join_room_responses@ == old(self).join_room_responses@.push(response),
            *final(self) == (MockMatrixClient {
                join_room_responses: final(self).join_room_responses,
                ..*old(self)
            }),
    {
        self.join_room_responses.push_back(response);
    }

    /// A snapshot of all recorded calls.
    pub fn calls(&self) -> (r: Vec<MockCall>)
        ensures
            r@ == self.recorded@,
    {
        let mut out: Vec<MockCall> = Vec::new();
        let mut i: usize = 0;
        while i < self.recorded.len()
            invariant
                i <= self.recorded@.len(),
                out@ == self.recorded@.take(i as int),
            decreases self.recorded@.len() - i,
        {
            out.push(self.recorded[i].clone());
            i = i + 1;
        }
        assert(self.recorded@.take(i as int) == self.recorded@);
        out
    }

    /// The number of recorded calls.
    pub fn call_count(&self) -> (r: usize)
        ensures
            r == self.recorded@.len(),
    {
        self.recorded.len()
    }

    /// Logs in with a password: the next prepared answer, or else success. The
    /// password is not recorded.
    pub fn login(
        &mut self,
        homeserver_url: &str,
        username: &str,
        _password: &str,
    ) -> (r: MatrixResult<()>)
        ensures
            final(self).recorded@ == old(self).recorded@.push(final(self).recorded@.last()),
            final(self).recorded@.last() matches MockCall::Login {
                homeserver_url: url,
                username: user,
            } && url@ == homeserver_url@ && user@ == username@,
            final(self).login_responses@ == rest(old(self).login_responses@),
            *final(self) == (MockMatrixClient {
                recorded: final(self).recorded,
                login_responses: final(self).login_responses,
                ..*old(self)
            }),
            if old(self).login_responses@.len() > 0 {
                r == old(self).login_responses@[0]
            } else {
                r is Ok
            },
    {
        self.recorded.push(
            MockCall::Login {
                homeserver_url: String::from_str(homeserver_url),
                username: String::from_str(username),
            },
        );
        match self.login_responses.pop_front() {
            Some(response) => response,
            None => Ok(()),
        }
    }

    /// Logs in with a token: the next prepared answer, or else success. The token
    /// is not recorded.
    pub fn login_with_token(
        &mut self,
        homeserver_url: &str,
        _access_token: &str,
    ) -> (r: MatrixResult<()>)
        ensures
            final(self).recorded@ == old(self).recorded@.push(final(self).recorded@.last()),
            final(self).recorded@.last() matches MockCall::LoginWithToken { homeserver_url: url }
                && url@ == homeserver_url@,
            final(self).login_with_token_responses@ == rest(old(self).login_with_token_responses@),
            *final(self) == (MockMatrixClient {
                recorded: final(self).recorded,
                login_with_token_responses: final(self).login_with_token_responses,
                ..*old(self)
            }),
            if old(self).login_with_token_responses@.len() > 0 {
                r == old(self).login_with_token_responses@[0]
            } else {
                r is Ok
            },
    {
        self.recorded.push(
            MockCall::LoginWithToken { homeserver_url: String::from_str(homeserver_url) },
        );
        match self.login_with_token_responses.pop_front() {
            Some(response) => response,
            None => Ok(()),
        }
    }

    /// Sends a message: the next prepared answer, or else an event ID that counts
    /// the calls.
    pub fn send_message(
        &mut self,
        room_id: &str,
        body: &str,
        reply_to_event_id: Option<&str>,
    ) -> (r: MatrixResult<String>)
        ensures
            final(self).recorded@ == old(self).recorded@.push(final(self).recorded@.last()),
            final(self).recorded@.last() matches MockCall::SendMessage {
                room_id: room,
                body: words,
                reply_to_event_id: replied,
            } && room@ == room_id@ && words@ == body@ && lists::text_in(replied)
                == lists::chars_in(reply_to_event_id),
            final(self).send_message_responses@ == rest(old(self).send_message_responses@),
            *final(self) == (MockMatrixClient {
                recorded: final(self).recorded,
                send_message_responses: final(self).send_message_responses,
                ..*old(self)
            }),
            if old(self).send_message_responses@.len() > 0 {
                r == old(self).send_message_responses@[0]
            } else {
                r matches Ok(event_id) && event_id@ == "$mock-event-"@ + text::decimal(
                    (old(self).recorded@.len() + 1) as nat,
                )
            },
    {
        self.recorded.push(
            MockCall::SendMessage {
                room_id: String::from_str(room_id),
                body: String::from_str(body),
                reply_to_event_id: own_text(reply_to_event_id),
            },
        );
        match self.send_message_responses.pop_front() {
            Some(response) => response,
            None => {
                let count: usize = self.call_count();
                Ok(text::cat2("$mock-event-", &text::number(count as u64)))
            },
        }
    }

    /// Syncs: the next prepared answer, or else no messages.
    pub fn sync_once(&mut self, timeout: Duration) -> (r: MatrixResult<SyncResult>)
        ensures
            final(self).recorded@ == old(self).recorded@.push(final(self).recorded@.last()),
            final(self).recorded@.last() == (MockCall::SyncOnce { timeout }),
            final(self).sync_once_responses@ == rest(old(self).sync_once_responses@),
            *final(self) == (MockMatrixClient {
                recorded: final(self).recorded,
                sync_once_responses: final(self).sync_once_responses,
                ..*old(self)
            }),
            if old(self).sync_once_responses@.len() > 0 {
                r == old(self).sync_once_responses@[0]
            } else {
                r matches Ok(result) && result.messages@.len() == 0
            },
    {
        self.recorded.push(MockCall::SyncOnce { timeout });
        match self.sync_once_responses.pop_front() {
            Some(response) => response,
            None => Ok(SyncResult { messages: Vec::new() }),
        }
    }

    /// Asks for the display name: the next prepared answer, or else "Mock Bot".
    pub fn get_display_name(&mut self) -> (r: MatrixResult<String>)
        ensures
            final(self).recorded@ == old(self).recorded@.push(final(self).recorded@.last()),
            final(self).recorded@.last() is GetDisplayName,
            final(self).get_display_name_responses@ == rest(old(self).get_display_name_responses@),
            *final(self) == (MockMatrixClient {
                recorded: final(self).recorded,
                get_display_name_responses: final(self).get_display_name_responses,
                ..*old(self)
            }),
            if old(self).get_display_name_responses@.len() > 0 {
                r == old(self).get_display_name_responses@[0]
            } else {
                r matches Ok(name) && name@ == "Mock Bot"@
            },
    {
        self.recorded.push(MockCall::GetDisplayName);
        match self.get_display_name_responses.pop_front() {
            Some(response) => response,
            None => Ok(String::from_str("Mock Bot")),
        }
    }

    /// Asks about a room: the next prepared answer, or else a room of two members
    /// with that ID.
    pub fn get_room_info(&mut self, room_id: &str) -> (r: MatrixResult<RoomInfo>)
        ensures
            final(self).recorded@ == old(self).recorded@.push(final(self).recorded@.last()),
            final(self).recorded@.last() matches MockCall::GetRoomInfo { room_id: room } && room@
                == room_id@,
            final(self).get_room_info_responses@ == rest(old(self).get_room_info_responses@),
            *final(self) == (MockMatrixClient {
                recorded: final(self).recorded,
                get_room_info_responses: final(self).get_room_info_responses,
                ..*old(self)
            }),
            if old(self).get_room_info_responses@.len() > 0 {
                r == old(self).get_room_info_responses@[0]
            } else {
                r matches Ok(info) && info.room_id@ == room_id@ && lists::text_in(info.name) == Some(
                    "mock-room"@,
                ) && info.topic is None && info.member_count == 2
            },
    {
        self.recorded.push(MockCall::GetRoomInfo { room_id: String::from_str(room_id) });
        match self.get_room_info_responses.pop_front() {
            Some(response) => response,
            None => Ok(
                RoomInfo {
                    room_id: String::from_str(room_id),
                    name: Some(String::from_str("mock-room")),
                    topic: None,
                    member_count: 2,
                },
            ),
        }
    }

    /// Joins a room: the next prepared answer, or else the ID of a fixed room.
    pub fn join_room(&mut self, room_id_or_alias: &str) -> (r: MatrixResult<String>)
        ensures
            final(self).recorded@ == old(self).recorded@.push(final(self).recorded@.last()),
            final(self).recorded@.last() matches MockCall::JoinRoom { room_id_or_alias: room }
                && room@ == room_id_or_alias@,
            final(self).join_room_responses@ == rest(old(self).join_room_responses@),
            *final(self) == (MockMatrixClient {
                recorded: final(self).recorded,
                join_room_responses: final(self).join_room_responses,
                ..*old(self)
            }),
            if old(self).join_room_responses@.len() > 0 {
                r == old(self).join_room_responses@[0]
            } else {
                r matches Ok(room) && room@ == "!mock-room:localhost"@
            },
    {
        self.recorded.push(
            MockCall::JoinRoom { room_id_or_alias: String::from_str(room_id_or_alias) },
        );
        match self.join_room_responses.pop_front() {
            Some(response) => response,
            None => Ok(String::from_str("!mock-room:localhost")),
        }
    }
}

// ── Laws ────────────────────────────────────────────────────────────────

proof fn room_messages_add(room_id: String, a: Seq<TimelineItem>, b: Seq<TimelineItem>)
    ensures
        room_messages(room_id, a + b) == room_messages(room_id, a) + room_messages(room_id, b),
    decreases b.len(),
{
    if b.len() == 0 {
        assert(a + b =~= a);
        assert(room_messages(room_id, a) + Seq::<MatrixMessage>::empty() =~= room_messages(
            room_id,
            a,
        ));
    } else {
        room_messages_add(room_id, a, b.drop_last());
        assert((a + b).drop_last() =~= a + b.drop_last());
        assert((a + b).last() == b.last());
        assert(room_messages(room_id, a + b) =~= room_messages(room_id, a) + room_messages(
            room_id,
            b,
        ));
    }
}

proof fn sync_messages_add(a: Seq<JoinedRoom>, b: Seq<JoinedRoom>)
    ensures
        sync_messages(a + b) == sync_messages(a) + sync_messages(b),
    decreases b.len(),
{
    if b.len() == 0 {
        assert(a + b =~= a);
        assert(sync_messages(a) + Seq::<MatrixMessage>::empty() =~= sync_messages(a));
    } else {
        sync_messages_add(a, b.drop_last());
        assert((a + b).drop_last() =~= a + b.drop_last());
        assert((a + b).last() == b.last());
        assert(sync_messages(a + b) =~= sync_messages(a) + sync_messages(b));
    }
}

/// The messages of a sync come room by room and in the order of each timeline. Every text
/// message of a timeline is there, with its sender, its text, its ID, its time and its
/// room, and with the message that it replies to exactly if it is a reply; nothing else of
/// a timeline is a message.
pub proof fn every_text_is_collected(
    earlier: Seq<JoinedRoom>,
    room: JoinedRoom,
    later: Seq<JoinedRoom>,
    before: Seq<TimelineItem>,
    item: TimelineItem,
    after: Seq<TimelineItem>,
    replied: String,
)
    requires
        room.events@ == before + seq![item] + after,
    ensures
        sync_messages(earlier + seq![room] + later) == sync_messages(earlier) + room_messages(
            room.room_id,
            room.events@,
        ) + sync_messages(later),
        !(item is Text) ==> room_messages(room.room_id, room.events@) == room_messages(
            room.room_id,
            before,
        ) + room_messages(room.room_id, after),
        item matches TimelineItem::Text { sender_id, body, event_id, timestamp, relation } ==> ({
            let at = room_messages(room.room_id, before).len() as int;
            let all = room_messages(room.room_id, room.events@);
            let message = all[at];
            &&& all == room_messages(room.room_id, before) + seq![message] + room_messages(
                room.room_id,
                after,
            )
            &&& message.sender_id == sender_id
            &&& message.body == body
            &&& message.event_id == event_id
            &&& message.timestamp == timestamp
            &&& message.room_id == room.room_id
            &&& relation == MessageRelation::ReplyTo(replied) ==> message.reply_to_event_id == Some(
                replied,
            )
            &&& !(relation is ReplyTo) ==> message.reply_to_event_id is None
        }),
        room_messages(room.room_id, Seq::empty()).len() == 0,
        sync_messages(Seq::empty()).len() == 0,
{
    reveal_with_fuel(sync_messages, 2);
    reveal_with_fuel(room_messages, 2);
    sync_messages_add(earlier + seq![room], later);
    sync_messages_add(earlier, seq![room]);
    assert(seq![room].drop_last() =~= Seq::empty());
    assert(seq![room].last() == room);
    assert(sync_messages(seq![room]) =~= room_messages(room.room_id, room.events@));
    room_messages_add(room.room_id, before + seq![item], after);
    room_messages_add(room.room_id, before, seq![item]);
    assert(seq![item].drop_last() =~= Seq::empty());
    assert(seq![item].last() == item);
    let one = room_messages(room.room_id, seq![item]);
    if item is Text {
        let message = item_message(room.room_id, item)->0;
        assert(one =~= seq![message]);
        assert(room_messages(room.room_id, room.events@)[room_messages(
            room.room_id,
            before,
        ).len() as int] == message);
    } else {
        assert(one =~= Seq::empty());
        assert(room_messages(room.room_id, before) + one =~= room_messages(room.room_id, before));
    }
}

/// The bot is called by the name that the homeserver knows, else by its user ID, else by a
/// word in its place.
pub proof fn bots_have_names(name: Option<String>, user_id: Option<String>, r: String)
    requires
        call_ensures(display_name, (name, user_id), r),
    ensures
        name is Some ==> r@ == name->0@,
        name is None && user_id is Some ==> r@ == user_id->0@,
        name is None && user_id is None ==> r@ == "unknown"@,
{
}

/// The client for tests records every message that it is asked to send, behind the calls
/// before it, with its room, its text and what it replies to. It plays back the answers
/// that were prepared for sending in the order in which they were, and without one it
/// numbers the message by the calls so far.
pub proof fn sent_messages_are_recorded(
    before: MockMatrixClient,
    after: MockMatrixClient,
    room_id: &str,
    body: &str,
    reply_to: Option<&str>,
    answer: MatrixResult<String>,
    later: Seq<MatrixResult<String>>,
    r: MatrixResult<String>,
)
    requires
        exists|client: &mut MockMatrixClient|
            *client == before && *final(client) == after && #[trigger] call_ensures(
                MockMatrixClient::send_message,
                (client, room_id, body, reply_to),
                r,
            ),
    ensures
        after.recorded@.len() == before.recorded@.len() + 1,
        after.recorded@.drop_last() == before.recorded@,
        after.recorded@.last() matches MockCall::SendMessage {
            room_id: room,
            body: words,
            reply_to_event_id: replied,
        } && room@ == room_id@ && words@ == body@ && (replied is Some <==> reply_to is Some) && (
        reply_to matches Some(id) ==> replied->0@ == id@),
        before.send_message_responses@ == seq![answer] + later ==> r == answer
            && after.send_message_responses@ == later,
        before.send_message_responses@.len() == 0 ==> (r matches Ok(event_id) && event_id@
            == "$mock-event-"@ + text::decimal(after.recorded@.len())),
        after.sync_once_responses == before.sync_once_responses,
        after.join_room_responses == before.join_room_responses,
{
    assert(after.recorded@.drop_last() =~= before.recorded@);
    if before.send_message_responses@ == seq![answer] + later {
        assert((seq![answer] + later)[0] == answer);
        assert((seq![answer] + later).drop_first() =~= later);
    }
}

/// Without prepared answers the client for tests logs in, syncs nothing, calls itself
/// "Mock Bot", finds every room by its ID and joins a fixed one. Each call is recorded
/// behind those before it.
pub proof fn unprepared_answers_are_fixed(
    before: MockMatrixClient,
    url: &str,
    user: &str,
    password: &str,
    timeout: Duration,
    entered: MockMatrixClient,
    synced: MockMatrixClient,
    named: MockMatrixClient,
    looked: MockMatrixClient,
    joined: MockMatrixClient,
    login: MatrixResult<()>,
    sync: MatrixResult<SyncResult>,
    name: MatrixResult<String>,
    info: MatrixResult<RoomInfo>,
    room: MatrixResult<String>,
)
    requires
        before.login_responses@.len() == 0,
        before.sync_once_responses@.len() == 0,
        before.get_display_name_responses@.len() == 0,
        before.get_room_info_responses@.len() == 0,
        before.join_room_responses@.len() == 0,
        exists|client: &mut MockMatrixClient|
            *client == before && *final(client) == entered && #[trigger] call_ensures(
                MockMatrixClient::login,
                (client, url, user, password),
                login,
            ),
        exists|client: &mut MockMatrixClient|
            *client == before && *final(client) == synced && #[trigger] call_ensures(
                MockMatrixClient::sync_once,
                (client, timeout),
                sync,
            ),
        exists|client: &mut MockMatrixClient|
            *client == before && *final(client) == named && #[trigger] call_ensures(
                MockMatrixClient::get_display_name,
                (client,),
                name,
            ),
        exists|client: &mut MockMatrixClient|
            *client == before && *final(client) == looked && #[trigger] call_ensures(
                MockMatrixClient::get_room_info,
                (client, url),
                info,
            ),
        exists|client: &mut MockMatrixClient|
            *client == before && *final(client) == joined && #[trigger] call_ensures(
                MockMatrixClient::join_room,
                (client, url),
                room,
            ),
    ensures
        login is Ok,
        entered.recorded@.last() matches MockCall::Login { homeserver_url, username }
            && homeserver_url@ == url@ && username@ == user@,
        sync matches Ok(result) && result.messages@.len() == 0,
        synced.recorded@.last() == (MockCall::SyncOnce { timeout }),
        name matches Ok(words) && words@ == "Mock Bot"@,
        named.recorded@.last() is GetDisplayName,
        info matches Ok(found) && found.room_id@ == url@ && found.member_count == 2
            && found.name is Some && found.name->0@ == "mock-room"@ && found.topic is None,
        looked.recorded@.last() matches MockCall::GetRoomInfo { room_id } && room_id@ == url@,
        room matches Ok(id) && id@ == "!mock-room:localhost"@,
        joined.recorded@.last() matches MockCall::JoinRoom { room_id_or_alias }
            && room_id_or_alias@ == url@,
        entered.recorded@.len() == before.recorded@.len() + 1,
        synced.recorded@.len() == before.recorded@.len() + 1,
        named.recorded@.len() == before.recorded@.len() + 1,
        looked.recorded@.len() == before.recorded@.len() + 1,
        joined.recorded@.len() == before.recorded@.len() + 1,
{
}

} // verus!
