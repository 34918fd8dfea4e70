//! Matrix messages and rooms, and the choice of messages to process.

use crate::lists::copy_text;
use crate::{lists, text};
use vstd::prelude::*;

verus! {

/// A Matrix message (room timeline event of type `m.room.message`).
#[derive(Debug)]
pub struct MatrixMessage {
    /// The Matrix user ID of the sender (e.g., "@alice:example.com").
    pub sender_id: String,
    /// The message text content.
    pub body: String,
    /// The unique event ID (e.g., "$abc123").
    pub event_id: String,
    /// Timestamp of the event (milliseconds since Unix epoch, from the homeserver).
    pub timestamp: u64,
    /// The room ID this message belongs to (e.g., "!abc:example.com").
    pub room_id: String,
    /// If this message is a reply, the event ID of the message being replied to.
    pub reply_to_event_id: Option<String>,
}

impl Clone for MatrixMessage {
    fn clone(&self) -> (r: Self)
        ensures
            r == *self,
    {
        MatrixMessage {
            sender_id: self.sender_id.clone(),
            body: self.body.clone(),
            event_id: self.event_id.clone(),
            timestamp: self.timestamp,
            room_id: self.room_id.clone(),
            reply_to_event_id: copy_text(&self.reply_to_event_id),
        }
    }
}

/// Result of a Matrix `/sync` poll for a room's timeline.
#[derive(Debug)]
pub struct SyncResult {
    /// New messages received since the last sync.
    pub messages: Vec<MatrixMessage>,
}

/// Information about a Matrix room.
#[derive(Debug)]
pub struct RoomInfo {
    /// The room's unique ID (e.g., "!abc:example.com").
    pub room_id: String,
    /// The room's display name, if set.
    pub name: Option<String>,
    /// The room's topic, if set.
    pub topic: Option<String>,
    /// Number of joined members in the room.
    pub member_count: u64,
}

/// The test for a message of one sender.
pub open spec fn sent_by(sender: Seq<char>) -> spec_fn(MatrixMessage) -> bool {
    |m: MatrixMessage| m.sender_id@ == sender
}

/// The messages of one sender, in order.
pub open spec fn by_sender(messages: Seq<MatrixMessage>, sender: Seq<char>) -> Seq<MatrixMessage> {
    messages.filter(sent_by(sender))
}

/// The messages of the operator, in order; all messages where no operator is
/// set.
pub open spec fn by_operator(
    messages: Seq<MatrixMessage>,
    operator: Option<Seq<char>>,
) -> Seq<MatrixMessage> {
    match operator {
        Some(id) => by_sender(messages, id),
        None => messages,
    }
}

/// The test for a message of one room.
pub open spec fn sent_in(room: Seq<char>) -> spec_fn(MatrixMessage) -> bool {
    |m: MatrixMessage| m.room_id@ == room
}

/// The messages of one room, in order.
pub open spec fn in_room(messages: Seq<MatrixMessage>, room: Seq<char>) -> Seq<MatrixMessage> {
    messages.filter(sent_in(room))
}

/// The test for a message of another sender.
pub open spec fn not_sent_by(sender: Seq<char>) -> spec_fn(MatrixMessage) -> bool {
    |m: MatrixMessage| m.sender_id@ != sender
}

/// The messages of all senders but one, in order.
pub open spec fn by_others(messages: Seq<MatrixMessage>, sender: Seq<char>) -> Seq<MatrixMessage> {
    messages.filter(not_sent_by(sender))
}

/// The test for a message whose sender ID does not contain a name.
pub open spec fn sent_by_others(name: Seq<char>) -> spec_fn(MatrixMessage) -> bool {
    |m: MatrixMessage| !text::contains(m.sender_id@, name)
}

/// The messages whose sender ID does not contain a name, in order.
pub open spec fn not_named(messages: Seq<MatrixMessage>, name: Seq<char>) -> Seq<MatrixMessage> {
    messages.filter(sent_by_others(name))
}

/// Filters messages to only those sent by a specific operator.
///
/// Returns the messages whose `sender_id` is the given `operator_id`, in order.
pub fn filter_by_operator(messages: &[MatrixMessage], operator_id: &str) -> (r: Vec<MatrixMessage>)
    ensures
        r@ == by_sender(messages@, operator_id@),
{
    let ghost keep = sent_by(operator_id@);
    let mut out: Vec<MatrixMessage> = Vec::new();
    let mut i: usize = 0;
    assert(messages@.take(0).filter(keep) == Seq::<MatrixMessage>::empty()) by {
        reveal(Seq::filter);
    }
    while i < messages.len()
        invariant
            i <= messages@.len(),
            keep == sent_by(operator_id@),
            out@ == messages@.take(i as int).filter(keep),
        decreases messages@.len() - i,
    {
        proof {
            lists::filter_step(messages@, keep, i as int);
        }
        if text::same_text(&messages[i].sender_id, operator_id) {
            out.push(messages[i].clone());
        }
        i = i + 1;
    }
    assert(messages@.take(i as int) == messages@);
    out
}

/// The messages of the operator, or all where no operator is set.
pub fn keep_operator(messages: Vec<MatrixMessage>, operator_id: Option<&str>) -> (r: Vec<
    MatrixMessage,
>)
    ensures
        r@ == by_operator(messages@, lists::chars_in(operator_id)),
{
    match operator_id {
        Some(id) => filter_by_operator(messages.as_slice(), id),
        None => messages,
    }
}

/// The messages of one room.
pub fn keep_room(messages: &Vec<MatrixMessage>, room_id: &str) -> (r: Vec<MatrixMessage>)
    ensures
        r@ == in_room(messages@, room_id@),
{
    let ghost keep = sent_in(room_id@);
    let mut out: Vec<MatrixMessage> = Vec::new();
    let mut i: usize = 0;
    assert(messages@.take(0).filter(keep) == Seq::<MatrixMessage>::empty()) by {
        reveal(Seq::filter);
    }
    while i < messages.len()
        invariant
            i <= messages@.len(),
            keep == sent_in(room_id@),
            out@ == messages@.take(i as int).filter(keep),
        decreases messages@.len() - i,
    {
        proof {
            lists::filter_step(messages@, keep, i as int);
        }
        if text::same_text(&messages[i].room_id, room_id) {
            out.push(messages[i].clone());
        }
        i = i + 1;
    }
    assert(messages@.take(i as int) == messages@);
    out
}

/// The messages of all senders but one.
pub fn drop_sender(messages: &Vec<MatrixMessage>, sender_id: &str) -> (r: Vec<MatrixMessage>)
    ensures
        r@ == by_others(messages@, sender_id@),
{
    let ghost keep = not_sent_by(sender_id@);
    let mut out: Vec<MatrixMessage> = Vec::new();
    let mut i: usize = 0;
    assert(messages@.take(0).filter(keep) == Seq::<MatrixMessage>::empty()) by {
        reveal(Seq::filter);
    }
    while i < messages.len()
        invariant
            i <= messages@.len(),
            keep == not_sent_by(sender_id@),
            out@ == messages@.take(i as int).filter(keep),
        decreases messages@.len() - i,
    {
        proof {
            lists::filter_step(messages@, keep, i as int);
        }
        if !text::same_text(&messages[i].sender_id, sender_id) {
            out.push(messages[i].clone());
        }
        i = i + 1;
    }
    assert(messages@.take(i as int) == messages@);
    out
}

/// The messages whose sender ID does not contain a name.
pub fn drop_named(messages: &Vec<MatrixMessage>, name: &str) -> (r: Vec<MatrixMessage>)
    ensures
        r@ == not_named(messages@, name@),
{
    let ghost keep = sent_by_others(name@);
    let mut out: Vec<MatrixMessage> = Vec::new();
    let mut i: usize = 0;
    assert(messages@.take(0).filter(keep) == Seq::<MatrixMessage>::empty()) by {
        reveal(Seq::filter);
    }
    while i < messages.len()
        invariant
            i <= messages@.len(),
            keep == sent_by_others(name@),
            out@ == messages@.take(i as int).filter(keep),
        decreases messages@.len() - i,
    {
        proof {
            lists::filter_step(messages@, keep, i as int);
        }
        if !text::has_text(&messages[i].sender_id, name) {
            out.push(messages[i].clone());
        }
        i = i + 1;
    }
    assert(messages@.take(i as int) == messages@);
    out
}

/// With an operator set, a message is kept exactly if the operator sent it, and
/// filtering again changes nothing.
pub proof fn only_the_operator_is_heard(messages: Seq<MatrixMessage>, operator: Seq<char>)
    ensures
        forall|m: MatrixMessage| #[trigger]
            by_sender(messages, operator).contains(m) <==> messages.contains(m) && m.sender_id@
                == operator,
        by_sender(by_sender(messages, operator), operator) == by_sender(messages, operator),
{
    lists::filter_contents(messages, sent_by(operator));
    lists::filter_twice(messages, sent_by(operator));
}

/// A message is kept exactly if another sender sent it.
pub proof fn only_others_are_heard(messages: Seq<MatrixMessage>, sender: Seq<char>)
    ensures
        forall|m: MatrixMessage| #[trigger]
            by_others(messages, sender).contains(m) <==> messages.contains(m) && m.sender_id@
                != sender,
{
    lists::filter_contents(messages, not_sent_by(sender));
}

/// A message is kept exactly if it was sent in the room.
pub proof fn only_the_room_is_heard(messages: Seq<MatrixMessage>, room: Seq<char>)
    ensures
        forall|m: MatrixMessage| #[trigger]
            in_room(messages, room).contains(m) <==> messages.contains(m) && m.room_id@ == room,
{
    lists::filter_contents(messages, sent_in(room));
}

/// Messages are chosen one by one and stay in order: from two lists one after the other
/// those of the first are chosen and then those of the second, and a single message is
/// chosen exactly if it was sent by the sender, by another sender, in the room, or by a
/// sender whose ID does not contain the name.
pub proof fn messages_stay_in_order(
    a: Seq<MatrixMessage>,
    b: Seq<MatrixMessage>,
    m: MatrixMessage,
    key: Seq<char>,
)
    ensures
        by_sender(a + b, key) == by_sender(a, key) + by_sender(b, key),
        by_others(a + b, key) == by_others(a, key) + by_others(b, key),
        in_room(a + b, key) == in_room(a, key) + in_room(b, key),
        not_named(a + b, key) == not_named(a, key) + not_named(b, key),
        by_operator(a + b, Some(key)) == by_operator(a, Some(key)) + by_operator(b, Some(key)),
        by_operator(a, None) == a,
        by_sender(seq![m], key) == (if m.sender_id@ == key {
            seq![m]
        } else {
            Seq::empty()
        }),
        by_operator(seq![m], Some(key)) == (if m.sender_id@ == key {
            seq![m]
        } else {
            Seq::empty()
        }),
        by_others(seq![m], key) == (if m.sender_id@ != key {
            seq![m]
        } else {
            Seq::empty()
        }),
        in_room(seq![m], key) == (if m.room_id@ == key {
            seq![m]
        } else {
            Seq::empty()
        }),
        not_named(seq![m], key) == (if text::contains(m.sender_id@, key) {
            Seq::empty()
        } else {
            seq![m]
        }),
{
    lists::filter_adds(a, b, m, sent_by(key));
    lists::filter_adds(a, b, m, not_sent_by(key));
    lists::filter_adds(a, b, m, sent_in(key));
    lists::filter_adds(a, b, m, sent_by_others(key));
}

} // verus!
