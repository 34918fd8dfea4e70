//! What goes over the wire to and from a Matrix homeserver: identifiers, message
//! contents, and the events of a sync.

use super::client::{self, JoinedRoom, MessageRelation, TimelineItem};
use super::error::{MatrixError, MatrixResult};
use super::types::SyncResult;
use crate::json::{self, Fields, JsonTree};
use crate::text;
use matrix_sdk::ruma::events::room::message::{MessageType, Relation, RoomMessageEventContent};
use matrix_sdk::ruma::events::{
    AnySyncMessageLikeEvent, AnySyncTimelineEvent, SyncMessageLikeEvent,
};
use matrix_sdk::ruma::{EventId, RoomId, RoomOrAliasId};
use vstd::prelude::*;

verus! {

// ── Identifiers ─────────────────────────────────────────────────────────

/// What is wrong with an identifier, in words; `None` where nothing is.
pub open spec fn flaw_in(checked: Result<(), String>) -> Option<Seq<char>> {
    match checked {
        Ok(_) => None,
        Err(words) => Some(words@),
    }
}

/// What keeps a text from being a `RoomId`, in the words of the error.
pub uninterp spec fn room_id_flaw(id: Seq<char>) -> Option<Seq<char>>;

/// What keeps a text from being an `EventId`, in the words of the error.
pub uninterp spec fn event_id_flaw(id: Seq<char>) -> Option<Seq<char>>;

/// What keeps a text from being a `RoomOrAliasId`, in the words of the error.
pub uninterp spec fn room_address_flaw(id: Seq<char>) -> Option<Seq<char>>;

/// Calls `RoomId::try_from`, whose outcome depends on the text alone.
#[verifier::external_body]
fn check_room_id(id: &str) -> (r: Result<(), String>)
    ensures
        flaw_in(r) == room_id_flaw(id@),
{
    <&RoomId>::try_from(id).map(|_| ()).map_err(|error| error.to_string())
}

/// Calls `EventId::try_from`, whose outcome depends on the text alone.
#[verifier::external_body]
fn check_event_id(id: &str) -> (r: Result<(), String>)
    ensures
        flaw_in(r) == event_id_flaw(id@),
{
    <&EventId>::try_from(id).map(|_| ()).map_err(|error| error.to_string())
}

/// Calls `RoomOrAliasId::try_from`, whose outcome depends on the text alone.
#[verifier::external_body]
fn check_room_address(id: &str) -> (r: Result<(), String>)
    ensures
        flaw_in(r) == room_address_flaw(id@),
{
    <&RoomOrAliasId>::try_from(id).map(|_| ()).map_err(|error| error.to_string())
}

/// The error of an operation before login.
pub fn not_logged_in() -> (r: MatrixError)
    ensures
        r matches MatrixError::Auth(cause) && cause@ == "not logged in"@,
{
    MatrixError::Auth(String::from_str("not logged in"))
}

/// Whether an operation can address a room by its ID, given what is wrong with
/// the ID.
pub fn room_from(checked: Result<(), String>) -> (r: MatrixResult<()>)
    ensures
        match r {
            Ok(_) => checked is Ok,
            Err(error) => flaw_in(checked) matches Some(words) && (error
                matches MatrixError::RoomNotFound(cause) && cause@ == "invalid room ID: "@ + words),
        },
{
    match checked {
        Ok(_) => Ok(()),
        Err(words) => Err(MatrixError::RoomNotFound(text::cat2("invalid room ID: ", &words))),
    }
}

/// Whether an operation can address a room by its ID.
pub fn address_room(room_id: &str) -> (r: MatrixResult<()>)
    ensures
        match r {
            Ok(_) => room_id_flaw(room_id@) is None,
            Err(error) => room_id_flaw(room_id@) matches Some(words) && (error
                matches MatrixError::RoomNotFound(cause) && cause@ == "invalid room ID: "@ + words),
        },
{
    room_from(check_room_id(room_id))
}

/// The error of a room that the client does not know.
pub fn room_unknown(room_id: &str) -> (r: MatrixError)
    ensures
        r matches MatrixError::RoomNotFound(cause) && cause@ == "room "@ + room_id@ + " not found"@,
{
    MatrixError::RoomNotFound(text::cat3("room ", room_id, " not found"))
}

/// How a room is joined.
#[derive(Debug, Clone, Copy, PartialEq, Eq, Structural)]
pub enum JoinBy {
    /// By its ID.
    RoomId,
    /// By its ID or an alias.
    Address,
}

/// How a room is joined, given what is wrong with its name as an ID and as an
/// alias.
pub fn join_by(as_id: Result<(), String>, as_address: Result<(), String>) -> (r: MatrixResult<
    JoinBy,
>)
    ensures
        match r {
            Ok(JoinBy::RoomId) => as_id is Ok,
            Ok(JoinBy::Address) => as_id is Err && as_address is Ok,
            Err(error) => as_id is Err && (flaw_in(as_address) matches Some(words) && (error
                matches MatrixError::RoomNotFound(cause) && cause@ == "invalid room ID or alias: "@
                + words)),
        },
{
    match as_id {
        Ok(_) => Ok(JoinBy::RoomId),
        Err(_) => match as_address {
            Ok(_) => Ok(JoinBy::Address),
            Err(words) => Err(
                MatrixError::RoomNotFound(text::cat2("invalid room ID or alias: ", &words)),
            ),
        },
    }
}

/// How a room is joined: by its ID if the text is one, else by an alias.
pub fn join_room(room_id_or_alias: &str) -> (r: MatrixResult<JoinBy>)
    ensures
        match r {
            Ok(JoinBy::RoomId) => room_id_flaw(room_id_or_alias@) is None,
            Ok(JoinBy::Address) => room_id_flaw(room_id_or_alias@) is Some && room_address_flaw(
                room_id_or_alias@,
            ) is None,
            Err(error) => room_id_flaw(room_id_or_alias@) is Some && (room_address_flaw(
                room_id_or_alias@,
            ) matches Some(words) && (error matches MatrixError::RoomNotFound(cause) && cause@
                == "invalid room ID or alias: "@ + words)),
        },
{
    join_by(check_room_id(room_id_or_alias), check_room_address(room_id_or_alias))
}

/// The error of a room that cannot be joined.
pub fn join_failure(cause: &str) -> (r: MatrixError)
    ensures
        r matches MatrixError::RoomNotFound(words) && words@ == "failed to join room: "@ + cause@,
{
    MatrixError::RoomNotFound(text::cat2("failed to join room: ", cause))
}

// ── Messages ────────────────────────────────────────────────────────────

/// The content of a plain text message.
pub open spec fn plain_fields(body: Seq<char>) -> Map<Seq<char>, JsonTree> {
    Map::<Seq<char>, JsonTree>::empty().insert("msgtype"@, JsonTree::Text("m.text"@)).insert(
        "body"@,
        JsonTree::Text(body),
    )
}

/// The content of a plain text message that replies to an event.
pub open spec fn reply_tree(body: Seq<char>, event_id: Seq<char>) -> JsonTree {
    let replied = Map::<Seq<char>, JsonTree>::empty().insert("event_id"@, JsonTree::Text(event_id));
    let relation = Map::<Seq<char>, JsonTree>::empty().insert(
        "m.in_reply_to"@,
        JsonTree::Object(replied),
    );
    JsonTree::Object(plain_fields(body).insert("m.relates_to"@, JsonTree::Object(relation)))
}

/// Calls `RoomMessageEventContent::text_plain` and `serde_json::to_value`. The
/// content has the type `m.text` and the body, and nothing else; it is made of
/// strings, so that it always has a value.
#[verifier::external_body]
fn plain_content(body: &str) -> (r: Result<serde_json::Value, serde_json::Error>)
    ensures
        match r {
            Ok(value) => json::json_value(value) == JsonTree::Object(plain_fields(body@)),
            Err(_) => false,
        },
{
    serde_json::to_value(RoomMessageEventContent::text_plain(body))
}

/// The content of a reply, given what is wrong with the ID of the event that it
/// replies to: the plain content with the relation, as JSON.
pub fn reply_from(checked: Result<(), String>, body: &str, event_id: &str) -> (r: MatrixResult<
    String,
>)
    ensures
        match r {
            Ok(content) => checked is Ok && json::json_parsed(content@) == Some(
                reply_tree(body@, event_id@),
            ),
            Err(error) => flaw_in(checked) matches Some(words) && (error
                matches MatrixError::SendFailed(cause) && cause@ == "invalid reply event ID: "@
                + words),
        },
{
    match checked {
        Err(words) => Err(MatrixError::SendFailed(text::cat2("invalid reply event ID: ", &words))),
        Ok(_) => {
            proof {
                reveal_strlit("msgtype");
                reveal_strlit("body");
                reveal_strlit("event_id");
                reveal_strlit("m.in_reply_to");
                reveal_strlit("m.relates_to");
                json::undollared_keys_are_plain();
                reveal_with_fuel(JsonTree::is_within, 4);
                reveal_with_fuel(JsonTree::has_plain_within, 4);
            }
            let replied = Fields::new().with_text("event_id", event_id).object();
            let relation = Fields::new().with("m.in_reply_to", replied).object();
            match plain_content(body) {
                Ok(value) => {
                    let fields = json::from_value(value).fields();
                    Ok(json::to_line(&fields.with("m.relates_to", relation).object()))
                },
                Err(_) => Err(MatrixError::SendFailed(String::new())),
            }
        },
    }
}

/// The content of a reply to an event, as JSON.
pub fn reply_content(body: &str, reply_to_event_id: &str) -> (r: MatrixResult<String>)
    ensures
        match r {
            Ok(content) => event_id_flaw(reply_to_event_id@) is None && json::json_parsed(content@)
                == Some(reply_tree(body@, reply_to_event_id@)),
            Err(error) => event_id_flaw(reply_to_event_id@) matches Some(words) && (error
                matches MatrixError::SendFailed(cause) && cause@ == "invalid reply event ID: "@
                + words),
        },
{
    reply_from(check_event_id(reply_to_event_id), body, reply_to_event_id)
}

// ── Syncs ───────────────────────────────────────────────────────────────

/// The mathematical value of a relation.
pub enum RelationView {
    /// There is none.
    Unrelated,
    /// It is a reply to the message with this event ID.
    ReplyTo(Seq<char>),
    /// It is of another kind.
    Otherwise,
}

/// The mathematical value of a timeline event.
pub enum TimelineView {
    /// A text message: sender, text, event ID, time and relation.
    Text(Seq<char>, Seq<char>, Seq<char>, u64, RelationView),
    /// A message that is not text, or was redacted.
    OtherMessage,
    /// Any other event, or one that cannot be read.
    OtherEvent,
}

impl View for TimelineItem {
    type V = TimelineView;

    open spec fn view(&self) -> TimelineView {
        match self {
            TimelineItem::Text { sender_id, body, event_id, timestamp, relation } => {
                TimelineView::Text(
                    sender_id@,
                    body@,
                    event_id@,
                    *timestamp,
                    match relation {
                        MessageRelation::Unrelated => RelationView::Unrelated,
                        MessageRelation::ReplyTo(id) => RelationView::ReplyTo(id@),
                        MessageRelation::Otherwise => RelationView::Otherwise,
                    },
                )
            },
            TimelineItem::OtherMessage => TimelineView::OtherMessage,
            TimelineItem::OtherEvent => TimelineView::OtherEvent,
        }
    }
}

/// The timeline event that the text of a raw event is read as.
pub uninterp spec fn timeline_event(raw: Seq<char>) -> TimelineView;

/// Calls `serde_json::from_str` for an `AnySyncTimelineEvent` and tells a room
/// message from other events, and its text, sender, IDs, time and relation. What
/// is read depends on the text alone.
#[verifier::external_body]
fn read_event(raw: &str) -> (r: TimelineItem)
    ensures
        r@ == timeline_event(raw@),
{
    let Ok(AnySyncTimelineEvent::MessageLike(AnySyncMessageLikeEvent::RoomMessage(message))) =
        serde_json::from_str::<AnySyncTimelineEvent>(raw) else { return TimelineItem::OtherEvent };
    let SyncMessageLikeEvent::Original(m) = message else { return TimelineItem::OtherMessage };
    let MessageType::Text(content) = m.content.msgtype else { return TimelineItem::OtherMessage };
    TimelineItem::Text {
        sender_id: m.sender.to_string(),
        body: content.body,
        event_id: m.event_id.to_string(),
        timestamp: m.origin_server_ts.0.into(),
        relation: match m.content.relates_to {
            None => MessageRelation::Unrelated,
            Some(Relation::Reply { in_reply_to: to }) => MessageRelation::ReplyTo(to.event_id.to_string()),
            Some(_) => MessageRelation::Otherwise,
        },
    }
}

/// What a sync says about a joined room, with the events as raw JSON.
#[derive(Debug)]
pub struct RawRoom {
    /// The room ID.
    pub room_id: String,
    /// The new events of the timeline, in order.
    pub events: Vec<String>,
}

/// Whether a room is what a raw one is read as.
pub open spec fn is_read(raw: RawRoom, room: JoinedRoom) -> bool {
    &&& room.room_id@ == raw.room_id@
    &&& room.events@.len() == raw.events@.len()
    &&& forall|i: int|
        0 <= i < raw.events@.len() ==> (#[trigger] room.events@[i])@ == timeline_event(
            raw.events@[i]@,
        )
}

/// Whether rooms are what raw ones are read as.
pub open spec fn all_read(raw: Seq<RawRoom>, rooms: Seq<JoinedRoom>) -> bool {
    &&& rooms.len() == raw.len()
    &&& forall|i: int| 0 <= i < raw.len() ==> is_read(raw[i], #[trigger] rooms[i])
}

fn read_room(raw: &RawRoom) -> (r: JoinedRoom)
    ensures
        is_read(*raw, r),
{
    let mut events: Vec<TimelineItem> = Vec::new();
    let mut i: usize = 0;
    while i < raw.events.len()
        invariant
            i <= raw.events@.len(),
            events@.len() == i,
            forall|j: int|
                0 <= j < i ==> (#[trigger] events@[j])@ == timeline_event(raw.events@[j]@),
        decreases raw.events@.len() - i,
    {
        events.push(read_event(&raw.events[i]));
        i = i + 1;
    }
    JoinedRoom { room_id: raw.room_id.clone(), events }
}

/// The text messages of a sync, room by room and in the order of the timelines.
pub fn sync_once(raw: &Vec<RawRoom>) -> (r: SyncResult)
    ensures
        exists|rooms: Seq<JoinedRoom>|
            all_read(raw@, rooms) && r.messages@ == #[trigger] client::sync_messages(rooms),
{
    let mut rooms: Vec<JoinedRoom> = Vec::new();
    let mut i: usize = 0;
    while i < raw.len()
        invariant
            i <= raw@.len(),
            rooms@.len() == i,
            forall|j: int| 0 <= j < i ==> is_read(raw@[j], #[trigger] rooms@[j]),
        decreases raw@.len() - i,
    {
        rooms.push(read_room(&raw[i]));
        i = i + 1;
    }
    let result = client::collect_messages(&rooms);
    assert(all_read(raw@, rooms@));
    result
}

// ── Laws ────────────────────────────────────────────────────────────────

/// A room is joined by its ID exactly if the text is one, by an alias exactly if it is
/// only that, and not at all exactly if it is neither, with the words of the flaw.
pub proof fn rooms_are_joined_by_id_first(
    as_id: Result<(), String>,
    as_address: Result<(), String>,
    r: MatrixResult<JoinBy>,
    room: MatrixResult<()>,
)
    requires
        call_ensures(join_by, (as_id, as_address), r),
        call_ensures(room_from, (as_id,), room),
    ensures
        as_id is Ok ==> r == Ok::<JoinBy, MatrixError>(JoinBy::RoomId) && room is Ok,
        as_id is Err && as_address is Ok ==> r == Ok::<JoinBy, MatrixError>(JoinBy::Address),
        as_id is Err ==> (as_address matches Err(words) ==> (r matches Err(error) && (error
            matches MatrixError::RoomNotFound(cause) && cause@ == "invalid room ID or alias: "@
            + words@))),
        as_id matches Err(words) ==> (room matches Err(error) && (error
            matches MatrixError::RoomNotFound(cause) && cause@ == "invalid room ID: "@ + words@)),
{
}

/// The words of what cannot be done with a room.
pub proof fn room_errors_in_words(
    room_id: &str,
    words: &str,
    out: MatrixError,
    unknown: MatrixError,
    closed_room: MatrixError,
)
    requires
        call_ensures(not_logged_in, (), out),
        call_ensures(room_unknown, (room_id,), unknown),
        call_ensures(join_failure, (words,), closed_room),
    ensures
        out matches MatrixError::Auth(cause) && cause@ == "not logged in"@,
        unknown matches MatrixError::RoomNotFound(cause) && cause@ == "room "@ + room_id@
            + " not found"@,
        closed_room matches MatrixError::RoomNotFound(cause) && cause@ == "failed to join room: "@
            + words@,
{
}

/// A reply is sent exactly if the ID that it replies to has no flaw. It is a plain text
/// message with the whole text and the relation to that event, and with nothing else.
pub proof fn replies_hold_all(
    checked: Result<(), String>,
    body: &str,
    event_id: &str,
    other: Seq<char>,
    r: MatrixResult<String>,
)
    requires
        call_ensures(reply_from, (checked, body, event_id), r),
    ensures
        r is Ok <==> checked is Ok,
        checked matches Err(words) ==> (r matches Err(error) && (error
            matches MatrixError::SendFailed(cause) && cause@ == "invalid reply event ID: "@
            + words@)),
        r matches Ok(content) ==> {
            let sent = json::json_parsed(content@)->0;
            let relation = sent.entry("m.relates_to"@)->0;
            let replied = relation.entry("m.in_reply_to"@)->0;
            &&& json::json_parsed(content@) is Some
            &&& sent.entry("msgtype"@) == Some(JsonTree::Text("m.text"@))
            &&& sent.entry("body"@) == Some(JsonTree::Text(body@))
            &&& sent.entry("m.relates_to"@) is Some
            &&& relation.entry("m.in_reply_to"@) is Some
            &&& replied.entry("event_id"@) == Some(JsonTree::Text(event_id@))
            &&& other != "msgtype"@ && other != "body"@ && other != "m.relates_to"@ ==> sent.entry(
                other,
            ) is None
            &&& other != "m.in_reply_to"@ ==> relation.entry(other) is None
            &&& other != "event_id"@ ==> replied.entry(other) is None
        },
{
    reveal_strlit("msgtype");
    reveal_strlit("body");
    reveal_strlit("m.relates_to");
    assert("msgtype"@.len() == 7);
    assert("body"@.len() == 4);
    assert("m.relates_to"@.len() == 12);
}

/// What a raw sync is read as: room by room and event by event, in order, with the IDs of
/// the rooms as they are.
pub proof fn every_event_is_read(raw: Seq<RawRoom>, rooms: Seq<JoinedRoom>, i: int, j: int)
    requires
        all_read(raw, rooms),
        0 <= i < raw.len(),
        0 <= j < raw[i].events@.len(),
    ensures
        rooms.len() == raw.len(),
        rooms[i].room_id@ == raw[i].room_id@,
        rooms[i].events@.len() == raw[i].events@.len(),
        rooms[i].events@[j]@ == timeline_event(raw[i].events@[j]@),
{
    assert(is_read(raw[i], rooms[i]));
    assert(rooms[i].events@[j]@ == timeline_event(raw[i].events@[j]@));
}

/// A room is addressed by an ID without a flaw, and joined by its ID first and by an alias
/// else; a reply goes to an event whose ID has no flaw.
pub proof fn names_without_flaws_are_taken(
    id: &str,
    body: &str,
    addressed: MatrixResult<()>,
    joined: MatrixResult<JoinBy>,
    reply: MatrixResult<String>,
)
    requires
        call_ensures(address_room, (id,), addressed),
        call_ensures(join_room, (id,), joined),
        call_ensures(reply_content, (body, id), reply),
    ensures
        addressed is Ok <==> room_id_flaw(id@) is None,
        joined == Ok::<JoinBy, MatrixError>(JoinBy::RoomId) <==> room_id_flaw(id@) is None,
        joined == Ok::<JoinBy, MatrixError>(JoinBy::Address) <==> room_id_flaw(id@) is Some
            && room_address_flaw(id@) is None,
        joined is Err <==> room_id_flaw(id@) is Some && room_address_flaw(id@) is Some,
        reply is Ok <==> event_id_flaw(id@) is None,
{
}

} // verus!
