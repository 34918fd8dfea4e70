//! The Rocket.Chat side of the daemon.

use super::types::{self, RcMessage, SyncResult};
use crate::place;
use crate::{lists, text};
use vstd::prelude::*;

verus! {

/// A Rocket.Chat-based daemon adapter.
#[derive(Debug)]
pub struct RocketChatDaemon {
    /// Base URL of the Rocket.Chat server.
    pub server_url: String,
    /// Personal Access Token for authentication.
    pub auth_token: String,
    /// The bot's own Rocket.Chat user ID.
    pub bot_user_id: String,
    /// The room to communicate in.
    pub room_id: String,
    /// Operator user ID for filtering messages in group chats.
    pub operator_id: Option<String>,
}

/// The texts of messages.
pub open spec fn bodies(messages: Seq<RcMessage>) -> Seq<Seq<char>> {
    messages.map_values(|m: RcMessage| m.msg@)
}

/// The messages that the idle daemon looks at: neither the bot's own nor system
/// messages, and with an operator set only the operator's.
pub open spec fn heard(
    messages: Seq<RcMessage>,
    bot_user_id: Seq<char>,
    operator: Option<Seq<char>>,
) -> Seq<RcMessage> {
    let others = messages.filter(types::sent_by_others(bot_user_id));
    match operator {
        Some(id) => types::by_sender(others, id),
        None => others,
    }
}

/// Whether a time is the latest among those of some messages, in the order of
/// strings.
pub open spec fn is_latest(time: Seq<char>, messages: Seq<RcMessage>) -> bool {
    &&& exists|i: int| 0 <= i < messages.len() && (#[trigger] messages[i]).ts@ == time
    &&& forall|i: int|
        0 <= i < messages.len() ==> text::at_most((#[trigger] messages[i]).ts@, time)
}

impl RocketChatDaemon {
    /// A Rocket.Chat daemon.
    ///
    /// * `server_url` — Base URL of the Rocket.Chat server (e.g., `https://chat.example.com`).
    /// * `auth_token` — Personal Access Token for authentication.
    /// * `bot_user_id` — The bot's own Rocket.Chat user ID (used for `X-User-Id` header).
    /// * `room_id` — The room to communicate in.
    /// * `operator_id` — Optional operator user ID for filtering messages in group chats.
    pub fn new(
        server_url: String,
        auth_token: String,
        bot_user_id: String,
        room_id: String,
        operator_id: Option<String>,
    ) -> (r: Self)
        ensures
            r == (RocketChatDaemon { server_url, auth_token, bot_user_id, room_id, operator_id }),
    {
        RocketChatDaemon { server_url, auth_token, bot_user_id, room_id, operator_id }
    }

    /// The texts of the messages of a sync that the idle daemon looks at. If there
    /// are any, the next sync asks for messages since the latest of them.
    pub fn idle_messages(&self, result: SyncResult, last_update: &mut String) -> (r: Vec<String>)
        ensures
            place::texts(r@) == bodies(
                heard(result.updated@, self.bot_user_id@, lists::text_in(self.operator_id)),
            ),
            if r@.len() == 0 {
                final(last_update)@ == old(last_update)@
            } else {
                is_latest(
                    final(last_update)@,
                    heard(result.updated@, self.bot_user_id@, lists::text_in(self.operator_id)),
                )
            },
    {
        let others = types::drop_sender(&result.updated, &self.bot_user_id);
        let messages = match &self.operator_id {
            Some(id) => types::filter_by_operator(others.as_slice(), id),
            None => others,
        };
        let mut out: Vec<String> = Vec::new();
        if messages.len() == 0 {
            assert(place::texts(out@) =~= bodies(messages@));
            return out;
        }
        let mut latest: usize = 0;
        let mut i: usize = 0;
        proof {
            text::at_most_reflexive(messages@[0].ts@);
        }
        while i < messages.len()
            invariant
                i <= messages@.len(),
                messages@.len() > 0,
                out@.len() == i,
                forall|j: int| 0 <= j < i ==> (#[trigger] out@[j])@ == messages@[j].msg@,
                latest < messages@.len(),
                forall|j: int|
                    0 <= j < i ==> text::at_most(
                        (#[trigger] messages@[j]).ts@,
                        messages@[latest as int].ts@,
                    ),
            decreases messages@.len() - i,
        {
            out.push(messages[i].msg.clone());
            let ghost before = messages@[latest as int].ts@;
            if text::is_at_most(&messages[latest].ts, &messages[i].ts) {
                latest = i;
                proof {
                    assert forall|j: int| 0 <= j <= i implies text::at_most(
                        (#[trigger] messages@[j]).ts@,
                        messages@[latest as int].ts@,
                    ) by {
                        if j < i {
                            text::at_most_transitive(
                                messages@[j].ts@,
                                before,
                                messages@[i as int].ts@,
                            );
                        } else {
                            text::at_most_reflexive(messages@[i as int].ts@);
                        }
                    }
                }
            } else {
                proof {
                    text::at_most_total(before, messages@[i as int].ts@);
                }
            }
            i = i + 1;
        }
        *last_update = messages[latest].ts.clone();
        assert(place::texts(out@) =~= bodies(messages@));
        out
    }
}

/// The idle daemon looks at messages one by one and in order: at one exactly if it is no
/// system message, not the bot's own and, where an operator is set, the operator's. It
/// sees the whole text.
pub proof fn idle_daemon_hears_in_order(
    a: Seq<RcMessage>,
    b: Seq<RcMessage>,
    m: RcMessage,
    bot_user_id: Seq<char>,
    operator: Option<Seq<char>>,
)
    ensures
        heard(a + b, bot_user_id, operator) == heard(a, bot_user_id, operator) + heard(
            b,
            bot_user_id,
            operator,
        ),
        heard(seq![m], bot_user_id, operator) == (if m.t is None && m.u.id@ != bot_user_id && (
        operator is None || m.u.id@ == operator->0) {
            seq![m]
        } else {
            Seq::empty()
        }),
        bodies(seq![m]) == seq![m.msg@],
        bodies(a + b) == bodies(a) + bodies(b),
{
    types::messages_stay_in_order(a, b, m, bot_user_id);
    match operator {
        Some(id) => {
            types::messages_stay_in_order(
                a.filter(types::sent_by_others(bot_user_id)),
                b.filter(types::sent_by_others(bot_user_id)),
                m,
                id,
            );
            lists::filter_adds(Seq::empty(), Seq::empty(), m, types::sent_by(id));
        },
        None => {},
    }
    assert(bodies(seq![m]) =~= seq![m.msg@]);
    assert(bodies(a + b) =~= bodies(a) + bodies(b));
}

/// The next sync of the idle daemon asks for messages since a time that one of the
/// messages has and that none of them is later than.
pub proof fn latest_time_is_kept(time: Seq<char>, messages: Seq<RcMessage>, i: int)
    requires
        is_latest(time, messages),
        0 <= i < messages.len(),
    ensures
        text::at_most(messages[i].ts@, time),
        exists|j: int| 0 <= j < messages.len() && (#[trigger] messages[j]).ts@ == time,
{
}

/// After a sync of the idle daemon: with nothing to look at, the time to ask from stays; else
/// it is that of one of the messages that were looked at, and no message that was looked at
/// is later.
pub proof fn next_sync_asks_from_the_latest(
    daemon: &RocketChatDaemon,
    result: SyncResult,
    before: String,
    after: String,
    i: int,
    r: Vec<String>,
)
    requires
        exists|time: &mut String|
            *time == before && *final(time) == after && #[trigger] call_ensures(
                RocketChatDaemon::idle_messages,
                (daemon, result, time),
                r,
            ),
    ensures
        ({
            let messages = heard(
                result.updated@,
                daemon.bot_user_id@,
                lists::text_in(daemon.operator_id),
            );
            &&& r@.len() == messages.len()
            &&& 0 <= i < r@.len() ==> r@[i]@ == messages[i].msg@
            &&& r@.len() == 0 ==> after@ == before@
            &&& 0 <= i < r@.len() ==> text::at_most(messages[i].ts@, after@)
            &&& r@.len() > 0 ==> exists|j: int|
                0 <= j < messages.len() && (#[trigger] messages[j]).ts@ == after@
        }),
{
    let messages = heard(result.updated@, daemon.bot_user_id@, lists::text_in(daemon.operator_id));
    assert(place::texts(r@).len() == r@.len());
    assert(bodies(messages).len() == messages.len());
    if 0 <= i < r@.len() {
        assert(place::texts(r@)[i] == r@[i]@);
        assert(bodies(messages)[i] == messages[i].msg@);
        assert(text::at_most(messages[i].ts@, after@));
    }
}

} // verus!
