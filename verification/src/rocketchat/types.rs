//! Rocket.Chat users, messages and rooms, and the choice of messages to process.

use crate::lists::copy_text;
use crate::{lists, text};
use vstd::prelude::*;

verus! {

/// A Rocket.Chat user.
#[derive(Debug)]
pub struct RcUser {
    /// The user's unique ID.
    pub id: String,
    /// The user's username (e.g., "ralph-bot").
    pub username: String,
    /// The user's display name.
    pub name: Option<String>,
}

impl Clone for RcUser {
    fn clone(&self) -> (r: Self)
        ensures
            r == *self,
    {
        RcUser {
            id: self.id.clone(),
            username: self.username.clone(),
            name: copy_text(&self.name),
        }
    }
}

/// A Rocket.Chat message.
#[derive(Debug)]
pub struct RcMessage {
    /// The message's unique ID.
    pub id: String,
    /// The room ID this message belongs to.
    pub rid: String,
    /// The message text content.
    pub msg: String,
    /// The user who sent this message.
    pub u: RcUser,
    /// Timestamp of the message (ISO 8601 string from the server).
    pub ts: String,
    /// Thread message ID — if set, this message is a reply in a thread.
    pub tmid: Option<String>,
    /// Message type — `None` for normal user messages, `Some("uj")` for "user joined", etc.
    pub t: Option<String>,
}

impl Clone for RcMessage {
    fn clone(&self) -> (r: Self)
        ensures
            r == *self,
    {
        RcMessage {
            id: self.id.clone(),
            rid: self.rid.clone(),
            msg: self.msg.clone(),
            u: self.u.clone(),
            ts: self.ts.clone(),
            tmid: copy_text(&self.tmid),
            t: copy_text(&self.t),
        }
    }
}

/// A Rocket.Chat room (channel, group, or DM).
#[derive(Debug)]
pub struct RcRoom {
    /// The room's unique ID.
    pub id: String,
    /// Room type: "c" (channel), "p" (private group), "d" (direct message).
    pub t: String,
    /// The room's name (not present for DMs).
    pub name: Option<String>,
    /// The room's display name (not present for DMs).
    pub fname: Option<String>,
}

/// Result of a `chat.syncMessages` API call.
#[derive(Debug)]
pub struct SyncResult {
    /// Messages that were created or updated since the last sync.
    pub updated: Vec<RcMessage>,
    /// Messages that were deleted since the last sync.
    pub deleted: Vec<RcMessage>,
}

/// The test for a message of one user that is not a system message.
pub open spec fn sent_by(user: Seq<char>) -> spec_fn(RcMessage) -> bool {
    |m: RcMessage| m.u.id@ == user && m.t is None
}

/// The test for a message that is not a system message.
pub open spec fn sent_by_anyone() -> spec_fn(RcMessage) -> bool {
    |m: RcMessage| m.t is None
}

/// The test for a message of other users that is not a system message.
pub open spec fn sent_by_others(user: Seq<char>) -> spec_fn(RcMessage) -> bool {
    |m: RcMessage| m.u.id@ != user && m.t is None
}

/// The messages of one user, in order, without system messages.
pub open spec fn by_sender(messages: Seq<RcMessage>, user: Seq<char>) -> Seq<RcMessage> {
    messages.filter(sent_by(user))
}

/// Filters messages to only those sent by a specific operator, excluding system messages.
///
/// System messages have `t` set to `Some(...)` (e.g., "uj" = user joined, "au" = added user).
/// Only normal user messages (`t` is `None`) from the given operator ID are returned, in order.
pub fn filter_by_operator(messages: &[RcMessage], operator_id: &str) -> (r: Vec<RcMessage>)
    ensures
        r@ == by_sender(messages@, operator_id@),
{
    let ghost keep = sent_by(operator_id@);
    let mut out: Vec<RcMessage> = Vec::new();
    let mut i: usize = 0;
    assert(messages@.take(0).filter(keep) == Seq::<RcMessage>::empty()) by {
        reveal(Seq::filter);
    }
    while i < messages.len()
        invariant
            i <= messages@.len(),
            keep == sent_by(operator_id@),
            out@ == messages@.take(i as int).filter(keep),
        decreases messages@.len() - i,
    {
        proof {
            lists::filter_step(messages@, keep, i as int);
        }
        if text::same_text(&messages[i].u.id, operator_id) && messages[i].t.is_none() {
            out.push(messages[i].clone());
        }
        i = i + 1;
    }
    assert(messages@.take(i as int) == messages@);
    out
}

/// The messages that are not system messages.
pub fn drop_system(messages: &Vec<RcMessage>) -> (r: Vec<RcMessage>)
    ensures
        r@ == messages@.filter(sent_by_anyone()),
{
    let ghost keep = sent_by_anyone();
    let mut out: Vec<RcMessage> = Vec::new();
    let mut i: usize = 0;
    assert(messages@.take(0).filter(keep) == Seq::<RcMessage>::empty()) by {
        reveal(Seq::filter);
    }
    while i < messages.len()
        invariant
            i <= messages@.len(),
            keep == sent_by_anyone(),
            out@ == messages@.take(i as int).filter(keep),
        decreases messages@.len() - i,
    {
        proof {
            lists::filter_step(messages@, keep, i as int);
        }
        if messages[i].t.is_none() {
            out.push(messages[i].clone());
        }
        i = i + 1;
    }
    assert(messages@.take(i as int) == messages@);
    out
}

/// The messages of other users that are not system messages.
pub fn drop_sender(messages: &Vec<RcMessage>, user: &str) -> (r: Vec<RcMessage>)
    ensures
        r@ == messages@.filter(sent_by_others(user@)),
{
    let ghost keep = sent_by_others(user@);
    let mut out: Vec<RcMessage> = Vec::new();
    let mut i: usize = 0;
    assert(messages@.take(0).filter(keep) == Seq::<RcMessage>::empty()) by {
        reveal(Seq::filter);
    }
    while i < messages.len()
        invariant
            i <= messages@.len(),
            keep == sent_by_others(user@),
            out@ == messages@.take(i as int).filter(keep),
        decreases messages@.len() - i,
    {
        proof {
            lists::filter_step(messages@, keep, i as int);
        }
        if !text::same_text(&messages[i].u.id, user) && messages[i].t.is_none() {
            out.push(messages[i].clone());
        }
        i = i + 1;
    }
    assert(messages@.take(i as int) == messages@);
    out
}

/// With an operator set, a message is kept exactly if the operator sent it and
/// it is no system message, and filtering again changes nothing.
pub proof fn only_the_operator_is_heard(messages: Seq<RcMessage>, operator: Seq<char>)
    ensures
        forall|m: RcMessage| #[trigger]
            by_sender(messages, operator).contains(m) <==> messages.contains(m) && m.u.id@
                == operator && m.t is None,
        by_sender(by_sender(messages, operator), operator) == by_sender(messages, operator),
{
    lists::filter_contents(messages, sent_by(operator));
    lists::filter_twice(messages, sent_by(operator));
}

/// Messages are chosen one by one and stay in order: from two lists one after the other
/// those of the first are chosen and then those of the second, and a single message is
/// chosen exactly if it is no system message and was sent by the user, by another user, or
/// by anyone.
pub proof fn messages_stay_in_order(
    a: Seq<RcMessage>,
    b: Seq<RcMessage>,
    m: RcMessage,
    user: Seq<char>,
)
    ensures
        by_sender(a + b, user) == by_sender(a, user) + by_sender(b, user),
        (a + b).filter(sent_by_others(user)) == a.filter(sent_by_others(user)) + b.filter(
            sent_by_others(user),
        ),
        (a + b).filter(sent_by_anyone()) == a.filter(sent_by_anyone()) + b.filter(
            sent_by_anyone(),
        ),
        by_sender(seq![m], user) == (if m.t is None && m.u.id@ == user {
            seq![m]
        } else {
            Seq::empty()
        }),
        seq![m].filter(sent_by_others(user)) == (if m.t is None && m.u.id@ != user {
            seq![m]
        } else {
            Seq::empty()
        }),
        seq![m].filter(sent_by_anyone()) == (if m.t is None {
            seq![m]
        } else {
            Seq::empty()
        }),
{
    lists::filter_adds(a, b, m, sent_by(user));
    lists::filter_adds(a, b, m, sent_by_others(user));
    lists::filter_adds(a, b, m, sent_by_anyone());
}

} // verus!
