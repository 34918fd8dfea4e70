//! The state of the Rocket.Chat bot that outlives a run.

use crate::clock::utc_now;
use crate::json::{self, Fields, Json, JsonTree, Unreadable};
use crate::place::{self, Location};
use crate::table::TextMap;
use crate::{lists, text};
use vstd::prelude::*;

verus! {

/// Persistent state of the Rocket.Chat bot, stored at `.ralph/rocketchat-state.json`.
#[derive(Debug)]
pub struct RocketChatState {
    /// ISO timestamp for `chat.syncMessages` `lastUpdate` parameter.
    pub last_sync: Option<String>,
    /// Pending questions keyed by loop ID, tracking which message awaits a reply.
    pub pending_questions: TextMap<PendingQuestion>,
}

/// A question sent to the human that is awaiting a response.
#[derive(Debug)]
pub struct PendingQuestion {
    /// When the question was sent (ISO 8601 timestamp).
    pub asked_at: String,
    /// The Rocket.Chat message `_id`, used to match thread-based reply routing.
    pub message_id: String,
}

impl Clone for PendingQuestion {
    fn clone(&self) -> (r: Self)
        ensures
            r == *self,
    {
        PendingQuestion { asked_at: self.asked_at.clone(), message_id: self.message_id.clone() }
    }
}

/// The pending questions of a state.
pub type Pending = Map<Seq<char>, PendingQuestion>;

/// Whether `found` is a loop whose question was sent as the given message, or
/// `None` where no question was.
pub open spec fn is_reply_loop(
    pending: Pending,
    message_id: Seq<char>,
    found: Option<Seq<char>>,
) -> bool {
    match found {
        Some(loop_id) => pending.dom().contains(loop_id) && pending[loop_id].message_id@
            == message_id,
        None => forall|loop_id: Seq<char>| #[trigger]
            pending.dom().contains(loop_id) ==> pending[loop_id].message_id@ != message_id,
    }
}

// ── Mathematical values ─────────────────────────────────────────────────

/// The mathematical value of a pending question.
#[verifier::ext_equal]
pub struct QuestionView {
    /// When the question was sent.
    pub asked_at: Seq<char>,
    /// The message that carries the question.
    pub message_id: Seq<char>,
}

impl View for PendingQuestion {
    type V = QuestionView;

    open spec fn view(&self) -> QuestionView {
        QuestionView {
            asked_at: self.asked_at@,
            message_id: self.message_id@,
        }
    }
}

/// The mathematical values of pending questions.
pub type Questions = Map<Seq<char>, QuestionView>;

/// The mathematical values of the pending questions of a state.
pub open spec fn questions_of(pending: Pending) -> Questions {
    Map::new(
        |key: Seq<char>| pending.dom().contains(key),
        |key: Seq<char>| pending[key]@,
    )
}

/// The mathematical value of a state.
#[verifier::ext_equal]
pub struct StateView {
    /// The time of the last sync.
    pub last_sync: Option<Seq<char>>,
    /// The pending questions by loop.
    pub pending: Questions,
}

impl View for RocketChatState {
    type V = StateView;

    open spec fn view(&self) -> StateView {
        StateView {
            last_sync: lists::text_in(self.last_sync),
            pending: questions_of(self.pending_questions@),
        }
    }
}

// ── State file ──────────────────────────────────────────────────────────

/// A pending question in the state file.
pub open spec fn question_tree(question: QuestionView) -> JsonTree {
    JsonTree::Object(
        Map::<Seq<char>, JsonTree>::empty()
            .insert("asked_at"@, JsonTree::Text(question.asked_at))
            .insert("message_id"@, JsonTree::Text(question.message_id)),
    )
}

/// The pending questions in the state file.
pub open spec fn questions_tree(pending: Questions) -> JsonTree {
    JsonTree::Object(
        Map::new(
            |key: Seq<char>| pending.dom().contains(key),
            |key: Seq<char>| question_tree(pending[key]),
        ),
    )
}

/// The document of the state file.
pub open spec fn state_tree(state: StateView) -> JsonTree {
    JsonTree::Object(
        Map::<Seq<char>, JsonTree>::empty()
            .insert("last_sync"@, json::optional_tree(state.last_sync))
            .insert("pending_questions"@, questions_tree(state.pending)),
    )
}

/// The pending question that a part of a document holds, if it is one.
pub open spec fn question_in(tree: JsonTree) -> Option<QuestionView> {
    match (tree.text_entry("asked_at"@), tree.text_entry("message_id"@)) {
        (Some(asked_at), Some(message_id)) => Some(QuestionView { asked_at, message_id }),
        _ => None,
    }
}

/// The pending questions that a part of a document holds, if it is an object of
/// such.
pub open spec fn questions_in(tree: JsonTree) -> Option<Questions> {
    match tree {
        JsonTree::Object(map) => if forall|key: Seq<char>| #[trigger]
            map.dom().contains(key) ==> question_in(map[key]) is Some {
            Some(
                Map::new(
                    |key: Seq<char>| map.dom().contains(key),
                    |key: Seq<char>| question_in(map[key])->0,
                ),
            )
        } else {
            None
        },
        _ => None,
    }
}

/// The state that a document holds, if it is one: an object, in which optional
/// fields and the pending questions may be missing.
pub open spec fn state_in(tree: JsonTree) -> Option<StateView> {
    let pending = match tree.entry("pending_questions"@) {
        Some(value) => questions_in(value),
        None => Some(Map::<Seq<char>, QuestionView>::empty()),
    };
    match (tree.maybe_text("last_sync"@), pending) {
        (Some(last_sync), Some(pending)) if tree is Object => Some(StateView { last_sync, pending }),
        _ => None,
    }
}

/// Whether every pending question has a key that is read back from the state file.
pub open spec fn is_storable(state: StateView) -> bool {
    forall|key: Seq<char>| #[trigger]
        state.pending.dom().contains(key) ==> json::is_plain_key(key)
}

proof fn field_keys()
    ensures
        "asked_at"@ != "message_id"@,
        "last_sync"@ != "pending_questions"@,
        json::is_plain_key("asked_at"@),
        json::is_plain_key("message_id"@),
        json::is_plain_key("last_sync"@),
        json::is_plain_key("pending_questions"@),
{
    json::undollared_keys_are_plain();
    reveal_strlit("asked_at");
    reveal_strlit("message_id");
    reveal_strlit("last_sync");
    reveal_strlit("pending_questions");
    assert("asked_at"@.len() == 8);
    assert("message_id"@.len() == 10);
    assert("last_sync"@.len() == 9);
    assert("pending_questions"@.len() == 17);
}

proof fn state_is_shallow(state: StateView)
    ensures
        state_tree(state).is_shallow(),
        is_storable(state) ==> state_tree(state).has_plain_keys(),
{
    field_keys();
    reveal_with_fuel(JsonTree::is_within, 4);
    reveal_with_fuel(JsonTree::has_plain_within, 4);
    assert forall|question: QuestionView| #[trigger]
        question_tree(question).is_within(1) && question_tree(question).has_plain_within(1) by {}
    let pending = questions_tree(state.pending);
    assert(pending.is_within(2));
    assert(is_storable(state) ==> pending.has_plain_within(2));
}

fn question_json(question: &PendingQuestion) -> (r: Json)
    ensures
        r.tree() == question_tree(question@),
{
    Fields::new()
        .with_text("asked_at", &question.asked_at)
        .with_text("message_id", &question.message_id)
        .object()
}

fn questions_json(pending: &TextMap<PendingQuestion>) -> (r: Json)
    ensures
        r.tree() == questions_tree(questions_of(pending@)),
{
    let ghost all = questions_of(pending@);
    let count: usize = pending.len();
    let mut fields = Fields::new();
    let mut i: usize = 0;
    let ghost order = pending.order();
    proof {
        assert(order.take(0) =~= Seq::empty());
        assert(fields@ =~= written(all, order.take(0)));
    }
    while i < count
        invariant
            i <= count,
            count == order.len(),
            order == pending.order(),
            all == questions_of(pending@),
            fields@ == written(all, order.take(i as int)),
        decreases count - i,
    {
        let question = question_json(pending.value_at(i));
        fields = fields.with(pending.key_at(i), question);
        proof {
            let key = order[i as int];
            assert(order.take(i + 1) =~= order.take(i as int).push(key));
            assert forall|other: Seq<char>| #[trigger]
                order.take(i + 1).contains(other) <==> order.take(i as int).contains(other)
                    || other == key by {
                lists::contains_after_push(order.take(i as int), key, other);
            }
            assert(fields@ =~= written(all, order.take(i + 1)));
        }
        i = i + 1;
    }
    proof {
        assert(order.take(i as int) =~= order);
        assert(JsonTree::Object(fields@) =~= questions_tree(all)) by {
            assert(written(all, order) =~= questions_tree(all)->Object_0);
        }
    }
    fields.object()
}

spec fn written(pending: Questions, keys: Seq<Seq<char>>) -> Map<Seq<char>, JsonTree> {
    Map::new(
        |key: Seq<char>| keys.contains(key),
        |key: Seq<char>| question_tree(pending[key]),
    )
}

fn state_json(state: &RocketChatState) -> (r: Json)
    ensures
        r.tree() == state_tree(state@),
{
    Fields::new()
        .with("last_sync", json::optional_json(&state.last_sync))
        .with("pending_questions", questions_json(&state.pending_questions))
        .object()
}

fn question_from(document: &Json) -> (r: Option<PendingQuestion>)
    ensures
        match r {
            Some(question) => question_in(document.tree()) == Some(question@),
            None => question_in(document.tree()) is None,
        },
{
    match (document.text_at("asked_at"), document.text_at("message_id")) {
        (Some(asked_at), Some(message_id)) => Some(
            PendingQuestion {
                asked_at: String::from_str(asked_at),
                message_id: String::from_str(message_id),
            },
        ),
        _ => None,
    }
}

fn questions_from(document: &Json) -> (r: Option<TextMap<PendingQuestion>>)
    ensures
        match r {
            Some(pending) => questions_in(document.tree()) == Some(questions_of(pending@)),
            None => questions_in(document.tree()) is None,
        },
{
    match document {
        Json::Object(_) => {},
        _ => {
            return None;
        },
    }
    let ghost map = document.tree()->Object_0;
    let keys = document.keys();
    let ghost names = place::texts(keys@);
    let mut pending: TextMap<PendingQuestion> = TextMap::new();
    let mut i: usize = 0;
    assert(names.take(0) =~= Seq::empty());
    while i < keys.len()
        invariant
            i <= keys@.len(),
            document.tree() == JsonTree::Object(map),
            names == place::texts(keys@),
            forall|key: Seq<char>|
                names.contains(key) <==> #[trigger] document.tree().entry(key) is Some,
            forall|key: Seq<char>| #[trigger]
                pending@.dom().contains(key) <==> names.take(i as int).contains(key),
            forall|key: Seq<char>| #[trigger]
                pending@.dom().contains(key) ==> question_in(map[key]) == Some(pending@[key]@),
        decreases keys@.len() - i,
    {
        proof {
            let key = keys@[i as int]@;
            assert(names[i as int] == key);
            assert(names.contains(key));
            assert(document.tree().entry(key) is Some);
            assert(map.dom().contains(key));
            assert(names.take(i + 1) =~= names.take(i as int).push(key));
            assert forall|other: Seq<char>| #[trigger]
                names.take(i + 1).contains(other) <==> names.take(i as int).contains(other)
                    || other == key by {
                lists::contains_after_push(names.take(i as int), key, other);
            }
        }
        let found = match document.get(&keys[i]) {
            Some(value) => question_from(value),
            None => None,
        };
        match found {
            Some(question) => {
                pending.insert(keys[i].clone(), question);
            },
            None => {
                return None;
            },
        }
        i = i + 1;
    }
    proof {
        assert(names.take(i as int) =~= names);
        assert forall|key: Seq<char>| #[trigger]
            map.dom().contains(key) <==> pending@.dom().contains(key) by {
            assert(document.tree().entry(key) is Some <==> map.dom().contains(key));
        }
        assert forall|key: Seq<char>| #[trigger] map.dom().contains(key) implies question_in(
            map[key],
        ) is Some by {
            assert(pending@.dom().contains(key));
        }
        assert(questions_in(document.tree())->0 =~= questions_of(pending@));
    }
    Some(pending)
}

fn state_from(document: &Json) -> (r: Option<RocketChatState>)
    ensures
        match r {
            Some(state) => state_in(document.tree()) == Some(state@),
            None => state_in(document.tree()) is None,
        },
{
    match document {
        Json::Object(_) => {},
        _ => {
            return None;
        },
    }
    let pending = match document.get("pending_questions") {
        Some(value) => questions_from(value),
        None => {
            let none: TextMap<PendingQuestion> = TextMap::new();
            assert(questions_of(none@) =~= Map::<Seq<char>, QuestionView>::empty());
            Some(none)
        },
    };
    match (document.maybe_text_at("last_sync"), pending) {
        (Some(last_sync), Some(pending_questions)) => Some(
            RocketChatState { last_sync, pending_questions },
        ),
        _ => None,
    }
}
/// The state that the content of a state file holds, if it holds one.
pub open spec fn loaded(content: Seq<char>) -> Option<StateView> {
    match json::json_parsed(content) {
        Some(document) => state_in(document),
        None => None,
    }
}

/// Manages the state of the Rocket.Chat bot, which is kept in a file.
pub struct StateManager {
    path: Location,
}

impl StateManager {
    /// The place of the state file.
    pub closed spec fn place(&self) -> Location {
        self.path
    }

    /// A manager of the state in a file.
    pub fn new(path: Location) -> (r: Self)
        ensures
            r.place() == path,
    {
        StateManager { path }
    }

    /// Loads the state, given the content of the state file, or `None` if the file
    /// doesn't exist. Returns `None` then, and an error where the file holds no state.
    /// Of a field that occurs twice, the last value counts.
    pub fn load(&self, content: Option<&str>) -> (r: Result<Option<RocketChatState>, Unreadable>)
        ensures
            match content {
                None => r == Ok::<Option<RocketChatState>, Unreadable>(None),
                Some(source) => match loaded(source@) {
                    Some(stored) => r matches Ok(Some(state)) && state@ == stored,
                    None => r is Err,
                },
            },
    {
        match content {
            None => Ok(None),
            Some(source) => match json::parse(source) {
                Some(document) => match state_from(&document) {
                    Some(state) => Ok(Some(state)),
                    None => Err(Unreadable),
                },
                None => Err(Unreadable),
            },
        }
    }

    /// The content of the state file for a state. The caller replaces the file by way
    /// of a temporary one.
    pub fn save(&self, state: &RocketChatState) -> (r: String)
        ensures
            r@ == json::json_indented(state_tree(state@)),
            is_storable(state@) ==> loaded(r@) == Some(state@),
    {
        proof {
            state_is_shallow(state@);
            stored_state_is_read_back(state@);
        }
        json::to_indented(&state_json(state))
    }

    /// The state that was loaded, or a fresh empty state where there is no file.
    pub fn load_or_default(&self, loaded: Option<RocketChatState>) -> (r: RocketChatState)
        ensures
            match loaded {
                Some(state) => r == state,
                None => r.last_sync is None && r.pending_questions@ == Map::<
                    Seq<char>,
                    PendingQuestion,
                >::empty(),
            },
    {
        match loaded {
            Some(state) => state,
            None => RocketChatState { last_sync: None, pending_questions: TextMap::new() },
        }
    }

    /// Adds a pending question of a loop, asked now. The caller saves the state.
    pub fn add_pending_question(
        &self,
        state: &mut RocketChatState,
        loop_id: &str,
        message_id: &str,
    )
        ensures
            final(state).pending_questions@ == old(state).pending_questions@.insert(
                loop_id@,
                final(state).pending_questions@[loop_id@],
            ),
            final(state).pending_questions@[loop_id@].message_id@ == message_id@,
            final(state).last_sync == old(state).last_sync,
    {
        self.add_pending_question_at(state, loop_id, message_id, utc_now());
    }

    /// Adds a pending question of a loop, asked at a given time. The caller saves
    /// the state.
    pub fn add_pending_question_at(
        &self,
        state: &mut RocketChatState,
        loop_id: &str,
        message_id: &str,
        asked_at: String,
    )
        ensures
            final(state).pending_questions@ == old(state).pending_questions@.insert(
                loop_id@,
                final(state).pending_questions@[loop_id@],
            ),
            final(state).pending_questions@[loop_id@].message_id@ == message_id@,
            final(state).pending_questions@[loop_id@].asked_at == asked_at,
            final(state)@ == (StateView {
                pending: old(state)@.pending.insert(
                    loop_id@,
                    QuestionView { asked_at: asked_at@, message_id: message_id@ },
                ),
                ..old(state)@
            }),
            final(state).last_sync == old(state).last_sync,
    {
        let ghost before = state@;
        let ghost asked = asked_at@;
        let entry = PendingQuestion { asked_at, message_id: String::from_str(message_id) };
        state.pending_questions.insert(String::from_str(loop_id), entry);
        assert(state@.pending =~= before.pending.insert(
            loop_id@,
            QuestionView { asked_at: asked, message_id: message_id@ },
        ));
    }

    /// Removes the pending question of a loop. The caller saves the state.
    pub fn remove_pending_question(&self, state: &mut RocketChatState, loop_id: &str)
        ensures
            final(state).pending_questions@ == old(state).pending_questions@.remove(loop_id@),
            final(state)@ == (StateView {
                pending: old(state)@.pending.remove(loop_id@),
                ..old(state)@
            }),
            final(state).last_sync == old(state).last_sync,
    {
        let ghost before = state@;
        state.pending_questions.remove(loop_id);
        assert(state@.pending =~= before.pending.remove(loop_id@));
    }

    /// Given a thread message ID (`tmid`), finds which loop it belongs to.
    pub fn get_loop_for_reply(&self, state: &RocketChatState, reply_message_id: &str) -> (r: Option<
        String,
    >)
        ensures
            is_reply_loop(state.pending_questions@, reply_message_id@, lists::text_in(r)),
    {
        let table = &state.pending_questions;
        let count: usize = table.len();
        let mut i: usize = 0;
        while i < count
            invariant
                i <= count,
                *table == state.pending_questions,
                count == table.order().len(),
                forall|j: int|
                    0 <= j < i ==> table@[#[trigger] table.order()[j]].message_id@
                        != reply_message_id@,
                forall|key: Seq<char>| #[trigger]
                    table@.dom().contains(key) == table.order().contains(key),
            decreases count - i,
        {
            if text::same_text(&table.value_at(i).message_id, reply_message_id) {
                return Some(table.key_at(i).clone());
            }
            i = i + 1;
        }
        proof {
            assert forall|key: Seq<char>| #[trigger] table@.dom().contains(
                key,
            ) implies table@[key].message_id@ != reply_message_id@ by {
                let j = choose|j: int| 0 <= j < table.order().len() && table.order()[j] == key;
                assert(table@[table.order()[j]].message_id@ != reply_message_id@);
            }
        }
        None
    }

    /// The place of the state file.
    pub fn path(&self) -> (r: &Location)
        ensures
            *r == self.place(),
    {
        &self.path
    }
}

/// A reply in the thread of a question goes to the loop that asked it, as long
/// as no other pending question was sent as the same message.
pub proof fn reply_finds_the_asking_loop(
    pending: Pending,
    loop_id: Seq<char>,
    question: PendingQuestion,
    found: Option<Seq<char>>,
)
    requires
        is_reply_loop(pending.remove(loop_id), question.message_id@, None),
        is_reply_loop(pending.insert(loop_id, question), question.message_id@, found),
    ensures
        found == Some(loop_id),
{
    let asked = pending.insert(loop_id, question);
    assert(asked.dom().contains(loop_id));
    match found {
        Some(other) => {
            if other != loop_id {
                assert(pending.remove(loop_id).dom().contains(other));
            }
        },
        None => {},
    }
}

/// The document of a state holds that state.
pub proof fn stored_state_is_read_back(state: StateView)
    ensures
        state_in(state_tree(state)) == Some(state),
{
    field_keys();
    assert forall|question: QuestionView| #[trigger]
        question_in(question_tree(question)) == Some(question) by {}
    let pending = questions_tree(state.pending);
    let map = pending->Object_0;
    assert forall|key: Seq<char>| #[trigger] map.dom().contains(key) implies question_in(map[key])
        == Some(state.pending[key]) by {
        assert(map[key] == question_tree(state.pending[key]));
    }
    assert(questions_in(pending)->0 =~= state.pending);
}

/// Removing a question undoes adding it, in memory and on disk: from the state
/// before, with a question added under a new key and removed again, everything is as
/// it was, and what is then saved is loaded as the state before. Removing it once
/// more changes nothing.
pub proof fn removing_undoes_saving(
    state: StateView,
    key: Seq<char>,
    question: QuestionView,
    content: Seq<char>,
)
    requires
        !state.pending.dom().contains(key),
    ensures
        ({
            let added = StateView { pending: state.pending.insert(key, question), ..state };
            let removed = StateView { pending: added.pending.remove(key), ..added };
            &&& removed == state
            &&& removed.pending.remove(key) == removed.pending
            &&& json::json_parsed(content) == Some(state_tree(removed)) ==> loaded(content)
                == Some(state)
        }),
{
    let added = StateView { pending: state.pending.insert(key, question), ..state };
    assert(added.pending.remove(key) =~= state.pending);
    assert(state.pending.remove(key) =~= state.pending);
    stored_state_is_read_back(state);
}

/// Removing a question undoes adding it, and a loop has at most one question.
pub proof fn removing_undoes_adding(
    pending: Pending,
    loop_id: Seq<char>,
    question: PendingQuestion,
    later: PendingQuestion,
)
    ensures
        !pending.dom().contains(loop_id) ==> pending.insert(loop_id, question).remove(loop_id)
            == pending,
        pending.insert(loop_id, question).insert(loop_id, later) == pending.insert(loop_id, later),
{
    if !pending.dom().contains(loop_id) {
        assert(pending.insert(loop_id, question).remove(loop_id) =~= pending);
    }
    assert(pending.insert(loop_id, question).insert(loop_id, later) =~= pending.insert(
        loop_id,
        later,
    ));
}

/// What the state file holds: the time of the last sync, as text or `null`, and each
/// pending question under its loop, with its time and its message; and nothing else.
pub proof fn state_files_hold_all(
    state: StateView,
    key: Seq<char>,
    question: QuestionView,
    other: Seq<char>,
)
    requires
        state.pending.dom().contains(key) ==> state.pending[key] == question,
    ensures
        ({
            let file = state_tree(state);
            let pending = file.entry("pending_questions"@)->0;
            let stored = pending.entry(key)->0;
            &&& state.last_sync matches Some(words) ==> file.entry("last_sync"@) == Some(
                JsonTree::Text(words),
            )
            &&& state.last_sync is None ==> file.entry("last_sync"@) == Some(JsonTree::Null)
            &&& file.entry("pending_questions"@) is Some && pending is Object
            &&& other != "last_sync"@ && other != "pending_questions"@ ==> file.entry(other) is None
            &&& pending.entry(key) is Some <==> state.pending.dom().contains(key)
            &&& state.pending.dom().contains(key) ==> {
                &&& stored.entry("asked_at"@) == Some(JsonTree::Text(question.asked_at))
                &&& stored.entry("message_id"@) == Some(JsonTree::Text(question.message_id))
                &&& other != "asked_at"@ && other != "message_id"@ ==> stored.entry(other) is None
            }
        }),
{
    field_keys();
}

/// What is loaded from a state file: the time of the last sync where it is text, none
/// where it is missing or `null`, and no question where there are none in it. A file whose
/// time is anything else holds no state.
pub proof fn state_files_are_read(file: JsonTree, words: Seq<char>)
    requires
        file is Object,
        file.entry("pending_questions"@) is None,
    ensures
        ({
            let time = file.entry("last_sync"@);
            &&& state_in(file) is Some <==> time is None || time->0 is Null || time->0 is Text
            &&& state_in(file) matches Some(state) ==> {
                &&& state.pending.dom() =~= Set::empty()
                &&& time == Some(JsonTree::Text(words)) <==> state.last_sync == Some(words)
            }
        }),
{
}

/// The loop of a reply is found exactly if a pending question was sent as the message that
/// it replies to, and it is a loop with such a question.
pub proof fn asking_loops_are_found(
    manager: &StateManager,
    state: &RocketChatState,
    message_id: &str,
    key: Seq<char>,
    r: Option<String>,
)
    requires
        call_ensures(StateManager::get_loop_for_reply, (manager, state, message_id), r),
    ensures
        ({
            let pending = state.pending_questions@;
            &&& r matches Some(id) ==> pending.dom().contains(id@) && pending[id@].message_id@
                == message_id@
            &&& r is None && pending.dom().contains(key) ==> pending[key].message_id@ != message_id@
        }),
{
}

/// A question that is added is the pending one of its loop, with its message and its time;
/// one that is removed is not; and no other question, nor the time of the last sync,
/// changes with either.
pub proof fn questions_are_added_and_removed(
    manager: &StateManager,
    before: RocketChatState,
    added: RocketChatState,
    removed: RocketChatState,
    loop_id: &str,
    message_id: &str,
    asked_at: String,
    key: Seq<char>,
)
    requires
        exists|state: &mut RocketChatState|
            *state == before && *final(state) == added && #[trigger] call_ensures(
                StateManager::add_pending_question_at,
                (manager, state, loop_id, message_id, asked_at),
                (),
            ),
        exists|state: &mut RocketChatState|
            *state == before && *final(state) == removed && #[trigger] call_ensures(
                StateManager::remove_pending_question,
                (manager, state, loop_id),
                (),
            ),
    ensures
        ({
            let x = before.pending_questions@;
            let y = added.pending_questions@;
            let z = removed.pending_questions@;
            &&& y.dom().contains(key) <==> x.dom().contains(key) || key == loop_id@
            &&& z.dom().contains(key) <==> x.dom().contains(key) && key != loop_id@
            &&& x.dom().contains(key) && key != loop_id@ ==> y[key] == x[key] && z[key] == x[key]
            &&& y[loop_id@].message_id@ == message_id@ && y[loop_id@].asked_at@ == asked_at@
        }),
        added.last_sync == before.last_sync && removed.last_sync == before.last_sync,
{
}

/// Where there is no state file, and where it could be loaded, the state is an empty one or
/// that which was loaded.
pub proof fn states_begin_empty(
    manager: &StateManager,
    state: RocketChatState,
    none: Result<Option<RocketChatState>, Unreadable>,
    fresh: RocketChatState,
    known: RocketChatState,
    key: Seq<char>,
)
    requires
        call_ensures(StateManager::load, (manager, None::<&str>), none),
        call_ensures(StateManager::load_or_default, (manager, None::<RocketChatState>), fresh),
        call_ensures(StateManager::load_or_default, (manager, Some(state)), known),
    ensures
        none matches Ok(found) && found is None,
        fresh.last_sync is None,
        !fresh.pending_questions@.dom().contains(key),
        known == state,
{
}

} // verus!
