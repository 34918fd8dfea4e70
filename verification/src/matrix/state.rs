//! The state of the Matrix bot that outlives a run.

use crate::clock::utc_now;
use crate::lists::{copy_text, own_text};
use crate::json::{self, Fields, Json, JsonTree, Unreadable};
use crate::place::{self, Location};
use crate::table::TextMap;
use crate::{lists, text};
use vstd::prelude::*;

verus! {

/// Persistent state of the Matrix bot, stored at `.ralph/matrix-state.json`.
#[derive(Debug)]
pub struct MatrixState {
    /// Sync token for incremental `/sync` requests.
    pub since_token: Option<String>,
    /// Matrix room ID the bot is operating in.
    pub room_id: Option<String>,
    /// Pending questions keyed by Matrix event ID (the bot's question message).
    pub pending_questions: TextMap<PendingQuestion>,
}

/// A question sent to the human that is awaiting a response.
#[derive(Debug)]
pub struct PendingQuestion {
    /// Which orchestration loop asked this question.
    pub loop_id: Option<String>,
    /// The question text that was sent.
    pub question: String,
    /// When the question was sent (ISO 8601 timestamp).
    pub asked_at: String,
}

impl Clone for PendingQuestion {
    fn clone(&self) -> (r: Self)
        ensures
            r == *self,
    {
        PendingQuestion {
            loop_id: copy_text(&self.loop_id),
            question: self.question.clone(),
            asked_at: self.asked_at.clone(),
        }
    }
}

/// The pending questions of a state.
pub type Pending = Map<Seq<char>, PendingQuestion>;

impl PendingQuestion {
    /// Whether this is the question of a loop.
    pub open spec fn is_of(&self, loop_id: Seq<char>) -> bool {
        self.loop_id matches Some(id) && id@ == loop_id
    }

    /// Whether this question was asked by a loop, in these words, at this time.
    pub open spec fn asks(
        &self,
        loop_id: Option<Seq<char>>,
        question: Seq<char>,
        asked_at: Seq<char>,
    ) -> bool {
        lists::text_in(self.loop_id) == loop_id && self.question@ == question && self.asked_at@
            == asked_at
    }
}

/// The loop that asked the question with a given event ID.
pub open spec fn reply_loop(pending: Pending, event_id: Seq<char>) -> Option<Seq<char>> {
    if pending.dom().contains(event_id) {
        lists::text_in(pending[event_id].loop_id)
    } else {
        None
    }
}

/// Whether `found` is an event ID of a pending question of the loop, or `None`
/// where the loop has no pending question.
pub open spec fn is_pending_of(
    pending: Pending,
    loop_id: Seq<char>,
    found: Option<Seq<char>>,
) -> bool {
    match found {
        Some(event_id) => pending.dom().contains(event_id) && pending[event_id].is_of(loop_id),
        None => forall|event_id: Seq<char>| #[trigger]
            pending.dom().contains(event_id) ==> !pending[event_id].is_of(loop_id),
    }
}

// ── Mathematical values ─────────────────────────────────────────────────

/// The mathematical value of a pending question.
#[verifier::ext_equal]
pub struct QuestionView {
    /// The loop that asked, if it is known.
    pub loop_id: Option<Seq<char>>,
    /// The question text that was sent.
    pub question: Seq<char>,
    /// When the question was sent.
    pub asked_at: Seq<char>,
}

impl View for PendingQuestion {
    type V = QuestionView;

    open spec fn view(&self) -> QuestionView {
        QuestionView {
            loop_id: lists::text_in(self.loop_id),
            question: self.question@,
            asked_at: self.asked_at@,
        }
    }
}

/// The mathematical values of pending questions.
pub type Questions = Map<Seq<char>, QuestionView>;

/// The mathematical values of the pending questions of a state.
pub open spec fn questions_of(pending: Pending) -> Questions {
    Map::new(
        |key: Seq<char>| pending.dom().contains(key),
        |key: Seq<char>| pending[key]@,
    )
}

/// The mathematical value of a state.
#[verifier::ext_equal]
pub struct StateView {
    /// The sync token.
    pub since_token: Option<Seq<char>>,
    /// The room.
    pub room_id: Option<Seq<char>>,
    /// The pending questions by event ID.
    pub pending: Questions,
}

impl View for MatrixState {
    type V = StateView;

    open spec fn view(&self) -> StateView {
        StateView {
            since_token: lists::text_in(self.since_token),
            room_id: lists::text_in(self.room_id),
            pending: questions_of(self.pending_questions@),
        }
    }
}

// ── State file ──────────────────────────────────────────────────────────

/// A pending question in the state file.
pub open spec fn question_tree(question: QuestionView) -> JsonTree {
    JsonTree::Object(
        Map::<Seq<char>, JsonTree>::empty()
            .insert("loop_id"@, json::optional_tree(question.loop_id))
            .insert("question"@, JsonTree::Text(question.question))
            .insert("asked_at"@, JsonTree::Text(question.asked_at)),
    )
}

/// The pending questions in the state file.
pub open spec fn questions_tree(pending: Questions) -> JsonTree {
    JsonTree::Object(
        Map::new(
            |key: Seq<char>| pending.dom().contains(key),
            |key: Seq<char>| question_tree(pending[key]),
        ),
    )
}

/// The document of the state file.
pub open spec fn state_tree(state: StateView) -> JsonTree {
    JsonTree::Object(
        Map::<Seq<char>, JsonTree>::empty()
            .insert("since_token"@, json::optional_tree(state.since_token))
            .insert("room_id"@, json::optional_tree(state.room_id))
            .insert("pending_questions"@, questions_tree(state.pending)),
    )
}

/// The pending question that a part of a document holds, if it is one.
pub open spec fn question_in(tree: JsonTree) -> Option<QuestionView> {
    match (
        tree.maybe_text("loop_id"@),
        tree.text_entry("question"@),
        tree.text_entry("asked_at"@),
    ) {
        (Some(loop_id), Some(question), Some(asked_at)) => Some(
            QuestionView { loop_id, question, asked_at },
        ),
        _ => None,
    }
}

/// The pending questions that a part of a document holds, if it is an object of
/// such.
pub open spec fn questions_in(tree: JsonTree) -> Option<Questions> {
    match tree {
        JsonTree::Object(map) => if forall|key: Seq<char>| #[trigger]
            map.dom().contains(key) ==> question_in(map[key]) is Some {
            Some(
                Map::new(
                    |key: Seq<char>| map.dom().contains(key),
                    |key: Seq<char>| question_in(map[key])->0,
                ),
            )
        } else {
            None
        },
        _ => None,
    }
}

/// The state that a document holds, if it is one: an object, in which optional
/// fields and the pending questions may be missing.
pub open spec fn state_in(tree: JsonTree) -> Option<StateView> {
    let pending = match tree.entry("pending_questions"@) {
        Some(value) => questions_in(value),
        None => Some(Map::<Seq<char>, QuestionView>::empty()),
    };
    match (tree.maybe_text("since_token"@), tree.maybe_text("room_id"@), pending) {
        (Some(since_token), Some(room_id), Some(pending)) if tree is Object => Some(
            StateView { since_token, room_id, pending },
        ),
        _ => None,
    }
}

/// Whether every pending question has a key that is read back from the state file.
pub open spec fn is_storable(state: StateView) -> bool {
    forall|key: Seq<char>| #[trigger]
        state.pending.dom().contains(key) ==> json::is_plain_key(key)
}

proof fn field_keys()
    ensures
        "loop_id"@ != "question"@,
        "loop_id"@ != "asked_at"@,
        "question"@ != "asked_at"@,
        "since_token"@ != "room_id"@,
        "since_token"@ != "pending_questions"@,
        "room_id"@ != "pending_questions"@,
        json::is_plain_key("loop_id"@),
        json::is_plain_key("question"@),
        json::is_plain_key("asked_at"@),
        json::is_plain_key("since_token"@),
        json::is_plain_key("room_id"@),
        json::is_plain_key("pending_questions"@),
{
    json::undollared_keys_are_plain();
    reveal_strlit("loop_id");
    reveal_strlit("question");
    reveal_strlit("asked_at");
    reveal_strlit("since_token");
    reveal_strlit("room_id");
    reveal_strlit("pending_questions");
    assert("loop_id"@.len() == 7);
    assert("question"@.len() == 8);
    assert("asked_at"@.len() == 8);
    assert("since_token"@.len() == 11);
    assert("room_id"@.len() == 7);
    assert("pending_questions"@.len() == 17);
    assert("question"@[0] != "asked_at"@[0]);
}

proof fn state_is_shallow(state: StateView)
    ensures
        state_tree(state).is_shallow(),
        is_storable(state) ==> state_tree(state).has_plain_keys(),
{
    field_keys();
    reveal_with_fuel(JsonTree::is_within, 4);
    reveal_with_fuel(JsonTree::has_plain_within, 4);
    assert forall|question: QuestionView| #[trigger]
        question_tree(question).is_within(1) && question_tree(question).has_plain_within(1) by {}
    let pending = questions_tree(state.pending);
    assert(pending.is_within(2));
    assert(is_storable(state) ==> pending.has_plain_within(2));
}

fn question_json(question: &PendingQuestion) -> (r: Json)
    ensures
        r.tree() == question_tree(question@),
{
    Fields::new()
        .with("loop_id", json::optional_json(&question.loop_id))
        .with_text("question", &question.question)
        .with_text("asked_at", &question.asked_at)
        .object()
}

fn questions_json(pending: &TextMap<PendingQuestion>) -> (r: Json)
    ensures
        r.tree() == questions_tree(questions_of(pending@)),
{
    let ghost all = questions_of(pending@);
    let count: usize = pending.len();
    let mut fields = Fields::new();
    let mut i: usize = 0;
    let ghost order = pending.order();
    proof {
        assert(order.take(0) =~= Seq::empty());
        assert(fields@ =~= written(all, order.take(0)));
    }
    while i < count
        invariant
            i <= count,
            count == order.len(),
            order == pending.order(),
            all == questions_of(pending@),
            fields@ == written(all, order.take(i as int)),
        decreases count - i,
    {
        let question = question_json(pending.value_at(i));
        fields = fields.with(pending.key_at(i), question);
        proof {
            let key = order[i as int];
            assert(order.take(i + 1) =~= order.take(i as int).push(key));
            assert forall|other: Seq<char>| #[trigger]
                order.take(i + 1).contains(other) <==> order.take(i as int).contains(other)
                    || other == key by {
                lists::contains_after_push(order.take(i as int), key, other);
            }
            assert(fields@ =~= written(all, order.take(i + 1)));
        }
        i = i + 1;
    }
    proof {
        assert(order.take(i as int) =~= order);
        assert(JsonTree::Object(fields@) =~= questions_tree(all)) by {
            assert(written(all, order) =~= questions_tree(all)->Object_0);
        }
    }
    fields.object()
}

spec fn written(pending: Questions, keys: Seq<Seq<char>>) -> Map<Seq<char>, JsonTree> {
    Map::new(
        |key: Seq<char>| keys.contains(key),
        |key: Seq<char>| question_tree(pending[key]),
    )
}

fn state_json(state: &MatrixState) -> (r: Json)
    ensures
        r.tree() == state_tree(state@),
{
    Fields::new()
        .with("since_token", json::optional_json(&state.since_token))
        .with("room_id", json::optional_json(&state.room_id))
        .with("pending_questions", questions_json(&state.pending_questions))
        .object()
}

fn question_from(document: &Json) -> (r: Option<PendingQuestion>)
    ensures
        match r {
            Some(question) => question_in(document.tree()) == Some(question@),
            None => question_in(document.tree()) is None,
        },
{
    match (
        document.maybe_text_at("loop_id"),
        document.text_at("question"),
        document.text_at("asked_at"),
    ) {
        (Some(loop_id), Some(question), Some(asked_at)) => Some(
            PendingQuestion {
                loop_id,
                question: String::from_str(question),
                asked_at: String::from_str(asked_at),
            },
        ),
        _ => None,
    }
}

fn questions_from(document: &Json) -> (r: Option<TextMap<PendingQuestion>>)
    ensures
        match r {
            Some(pending) => questions_in(document.tree()) == Some(questions_of(pending@)),
            None => questions_in(document.tree()) is None,
        },
{
    match document {
        Json::Object(_) => {},
        _ => {
            return None;
        },
    }
    let ghost map = document.tree()->Object_0;
    let keys = document.keys();
    let ghost names = place::texts(keys@);
    let mut pending: TextMap<PendingQuestion> = TextMap::new();
    let mut i: usize = 0;
    assert(names.take(0) =~= Seq::empty());
    while i < keys.len()
        invariant
            i <= keys@.len(),
            document.tree() == JsonTree::Object(map),
            names == place::texts(keys@),
            forall|key: Seq<char>|
                names.contains(key) <==> #[trigger] document.tree().entry(key) is Some,
            forall|key: Seq<char>| #[trigger]
                pending@.dom().contains(key) <==> names.take(i as int).contains(key),
            forall|key: Seq<char>| #[trigger]
                pending@.dom().contains(key) ==> question_in(map[key]) == Some(pending@[key]@),
        decreases keys@.len() - i,
    {
        proof {
            let key = keys@[i as int]@;
            assert(names[i as int] == key);
            assert(names.contains(key));
            assert(document.tree().entry(key) is Some);
            assert(map.dom().contains(key));
            assert(names.take(i + 1) =~= names.take(i as int).push(key));
            assert forall|other: Seq<char>| #[trigger]
                names.take(i + 1).contains(other) <==> names.take(i as int).contains(other)
                    || other == key by {
                lists::contains_after_push(names.take(i as int), key, other);
            }
        }
        let found = match document.get(&keys[i]) {
            Some(value) => question_from(value),
            None => None,
        };
        match found {
            Some(question) => {
                pending.insert(keys[i].clone(), question);
            },
            None => {
                return None;
            },
        }
        i = i + 1;
    }
    proof {
        assert(names.take(i as int) =~= names);
        assert forall|key: Seq<char>| #[trigger]
            map.dom().contains(key) <==> pending@.dom().contains(key) by {
            assert(document.tree().entry(key) is Some <==> map.dom().contains(key));
        }
        assert forall|key: Seq<char>| #[trigger] map.dom().contains(key) implies question_in(
            map[key],
        ) is Some by {
            assert(pending@.dom().contains(key));
        }
        assert(questions_in(document.tree())->0 =~= questions_of(pending@));
    }
    Some(pending)
}

fn state_from(document: &Json) -> (r: Option<MatrixState>)
    ensures
        match r {
            Some(state) => state_in(document.tree()) == Some(state@),
            None => state_in(document.tree()) is None,
        },
{
    match document {
        Json::Object(_) => {},
        _ => {
            return None;
        },
    }
    let pending = match document.get("pending_questions") {
        Some(value) => questions_from(value),
        None => {
            let none: TextMap<PendingQuestion> = TextMap::new();
            assert(questions_of(none@) =~= Map::<Seq<char>, QuestionView>::empty());
            Some(none)
        },
    };
    match (
        document.maybe_text_at("since_token"),
        document.maybe_text_at("room_id"),
        pending,
    ) {
        (Some(since_token), Some(room_id), Some(pending_questions)) => Some(
            MatrixState { since_token, room_id, pending_questions },
        ),
        _ => None,
    }
}
/// The state that the content of a state file holds, if it holds one.
pub open spec fn loaded(content: Seq<char>) -> Option<StateView> {
    match json::json_parsed(content) {
        Some(document) => state_in(document),
        None => None,
    }
}

/// Manages the state of the Matrix bot, which is kept in a file.
pub struct StateManager {
    path: Location,
}

impl StateManager {
    /// The place of the state file.
    pub closed spec fn place(&self) -> Location {
        self.path
    }

    /// A manager of the state in a file.
    pub fn new(path: Location) -> (r: Self)
        ensures
            r.place() == path,
    {
        StateManager { path }
    }

    /// Loads the state, given the content of the state file, or `None` if the file
    /// doesn't exist. Returns `None` then, and an error where the file holds no state.
    /// Of a field that occurs twice, the last value counts.
    pub fn load(&self, content: Option<&str>) -> (r: Result<Option<MatrixState>, Unreadable>)
        ensures
            match content {
                None => r == Ok::<Option<MatrixState>, Unreadable>(None),
                Some(source) => match loaded(source@) {
                    Some(stored) => r matches Ok(Some(state)) && state@ == stored,
                    None => r is Err,
                },
            },
    {
        match content {
            None => Ok(None),
            Some(source) => match json::parse(source) {
                Some(document) => match state_from(&document) {
                    Some(state) => Ok(Some(state)),
                    None => Err(Unreadable),
                },
                None => Err(Unreadable),
            },
        }
    }

    /// The content of the state file for a state. The caller replaces the file by way
    /// of a temporary one.
    pub fn save(&self, state: &MatrixState) -> (r: String)
        ensures
            r@ == json::json_indented(state_tree(state@)),
            is_storable(state@) ==> loaded(r@) == Some(state@),
    {
        proof {
            state_is_shallow(state@);
            stored_state_is_read_back(state@);
        }
        json::to_indented(&state_json(state))
    }

    /// The state that was loaded, or a fresh empty state where there is no file.
    pub fn load_or_default(&self, loaded: Option<MatrixState>) -> (r: MatrixState)
        ensures
            match loaded {
                Some(state) => r == state,
                None => r.since_token is None && r.room_id is None && r.pending_questions@
                    == Map::<Seq<char>, PendingQuestion>::empty(),
            },
    {
        match loaded {
            Some(state) => state,
            None => MatrixState {
                since_token: None,
                room_id: None,
                pending_questions: TextMap::new(),
            },
        }
    }

    /// Adds a pending question keyed by the bot's Matrix event ID, asked now.
    /// The caller saves the state.
    pub fn add_pending_question(
        &self,
        state: &mut MatrixState,
        event_id: &str,
        loop_id: Option<&str>,
        question: &str,
    )
        ensures
            final(state).pending_questions@ == old(state).pending_questions@.insert(
                event_id@,
                final(state).pending_questions@[event_id@],
            ),
            final(state).pending_questions@[event_id@].asks(
                lists::chars_in(loop_id),
                question@,
                final(state).pending_questions@[event_id@].asked_at@,
            ),
            final(state).since_token == old(state).since_token,
            final(state).room_id == old(state).room_id,
    {
        self.add_pending_question_at(state, event_id, loop_id, question, utc_now());
    }

    /// Adds a pending question keyed by the bot's Matrix event ID, asked at a
    /// given time. The caller saves the state.
    pub fn add_pending_question_at(
        &self,
        state: &mut MatrixState,
        event_id: &str,
        loop_id: Option<&str>,
        question: &str,
        asked_at: String,
    )
        ensures
            final(state).pending_questions@ == old(state).pending_questions@.insert(
                event_id@,
                final(state).pending_questions@[event_id@],
            ),
            final(state).pending_questions@[event_id@].asks(
                lists::chars_in(loop_id),
                question@,
                asked_at@,
            ),
            final(state)@ == (StateView {
                pending: old(state)@.pending.insert(
                    event_id@,
                    QuestionView {
                        loop_id: lists::chars_in(loop_id),
                        question: question@,
                        asked_at: asked_at@,
                    },
                ),
                ..old(state)@
            }),
            final(state).since_token == old(state).since_token,
            final(state).room_id == old(state).room_id,
    {
        let ghost before = state@;
        let ghost asked = asked_at@;
        let entry = PendingQuestion {
            loop_id: own_text(loop_id),
            question: String::from_str(question),
            asked_at,
        };
        state.pending_questions.insert(String::from_str(event_id), entry);
        assert(state@.pending =~= before.pending.insert(
            event_id@,
            QuestionView {
                loop_id: lists::chars_in(loop_id),
                question: question@,
                asked_at: asked,
            },
        ));
    }

    /// Removes a pending question by event ID. The caller saves the state.
    pub fn remove_pending_question(&self, state: &mut MatrixState, event_id: &str)
        ensures
            final(state).pending_questions@ == old(state).pending_questions@.remove(event_id@),
            final(state)@ == (StateView {
                pending: old(state)@.pending.remove(event_id@),
                ..old(state)@
            }),
            final(state).since_token == old(state).since_token,
            final(state).room_id == old(state).room_id,
    {
        let ghost before = state@;
        state.pending_questions.remove(event_id);
        assert(state@.pending =~= before.pending.remove(event_id@));
    }

    /// Given a reply-to event ID, finds which loop asked the question.
    pub fn get_loop_for_reply(&self, state: &MatrixState, reply_to_event_id: &str) -> (r: Option<
        String,
    >)
        ensures
            lists::text_in(r) == reply_loop(state.pending_questions@, reply_to_event_id@),
    {
        match state.pending_questions.get(reply_to_event_id) {
            Some(question) => copy_text(&question.loop_id),
            None => None,
        }
    }

    /// Finds the event ID of a pending question of a loop.
    pub fn pending_of_loop(&self, state: &MatrixState, loop_id: &str) -> (r: Option<String>)
        ensures
            is_pending_of(state.pending_questions@, loop_id@, lists::text_in(r)),
    {
        let table = &state.pending_questions;
        let count: usize = table.len();
        let mut i: usize = 0;
        while i < count
            invariant
                i <= count,
                *table == state.pending_questions,
                count == table.order().len(),
                forall|j: int|
                    0 <= j < i ==> !table@[#[trigger] table.order()[j]].is_of(loop_id@),
                forall|key: Seq<char>| #[trigger]
                    table@.dom().contains(key) == table.order().contains(key),
            decreases count - i,
        {
            if text::is_text(&table.value_at(i).loop_id, loop_id) {
                return Some(table.key_at(i).clone());
            }
            i = i + 1;
        }
        proof {
            assert forall|key: Seq<char>| #[trigger] table@.dom().contains(key) implies !table@[key]
                .is_of(loop_id@) by {
                let j = choose|j: int| 0 <= j < table.order().len() && table.order()[j] == key;
                assert(!table@[table.order()[j]].is_of(loop_id@));
            }
        }
        None
    }

    /// The place of the state file.
    pub fn path(&self) -> (r: &Location)
        ensures
            *r == self.place(),
    {
        &self.path
    }
}

/// A reply to a question goes to the loop that asked it, for as long as the
/// question is pending.
pub proof fn reply_finds_the_asking_loop(
    pending: Pending,
    event_id: Seq<char>,
    question: PendingQuestion,
)
    ensures
        reply_loop(pending.insert(event_id, question), event_id) == lists::text_in(
            question.loop_id,
        ),
        reply_loop(pending.remove(event_id), event_id) is None,
{
}

/// The document of a state holds that state.
pub proof fn stored_state_is_read_back(state: StateView)
    ensures
        state_in(state_tree(state)) == Some(state),
{
    field_keys();
    assert forall|question: QuestionView| #[trigger]
        question_in(question_tree(question)) == Some(question) by {}
    let pending = questions_tree(state.pending);
    let map = pending->Object_0;
    assert forall|key: Seq<char>| #[trigger] map.dom().contains(key) implies question_in(map[key])
        == Some(state.pending[key]) by {
        assert(map[key] == question_tree(state.pending[key]));
    }
    assert(questions_in(pending)->0 =~= state.pending);
}

/// Removing a question undoes adding it, in memory and on disk: from the state
/// before, with a question added under a new key and removed again, everything is as
/// it was, and what is then saved is loaded as the state before. Removing it once
/// more changes nothing.
pub proof fn removing_undoes_saving(
    state: StateView,
    key: Seq<char>,
    question: QuestionView,
    content: Seq<char>,
)
    requires
        !state.pending.dom().contains(key),
    ensures
        ({
            let added = StateView { pending: state.pending.insert(key, question), ..state };
            let removed = StateView { pending: added.pending.remove(key), ..added };
            &&& removed == state
            &&& removed.pending.remove(key) == removed.pending
            &&& json::json_parsed(content) == Some(state_tree(removed)) ==> loaded(content)
                == Some(state)
        }),
{
    let added = StateView { pending: state.pending.insert(key, question), ..state };
    assert(added.pending.remove(key) =~= state.pending);
    assert(state.pending.remove(key) =~= state.pending);
    stored_state_is_read_back(state);
}

/// Removing a question undoes adding it, and neither touches another question.
pub proof fn removing_undoes_adding(
    pending: Pending,
    event_id: Seq<char>,
    question: PendingQuestion,
)
    requires
        !pending.dom().contains(event_id),
    ensures
        pending.insert(event_id, question).remove(event_id) == pending,
        forall|other: Seq<char>|
            other != event_id ==> #[trigger] reply_loop(pending.insert(event_id, question), other)
                == reply_loop(pending, other),
{
    assert(pending.insert(event_id, question).remove(event_id) =~= pending);
}

/// What the state file holds: the sync token and the room, as text or `null`, and each
/// pending question under its event ID, with its loop as text or `null`, its words and its
/// time; and nothing else.
pub proof fn state_files_hold_all(
    state: StateView,
    key: Seq<char>,
    question: QuestionView,
    other: Seq<char>,
)
    requires
        state.pending.dom().contains(key) ==> state.pending[key] == question,
    ensures
        ({
            let file = state_tree(state);
            let pending = file.entry("pending_questions"@)->0;
            let stored = pending.entry(key)->0;
            &&& state.since_token matches Some(words) ==> file.entry("since_token"@) == Some(
                JsonTree::Text(words),
            )
            &&& state.since_token is None ==> file.entry("since_token"@) == Some(JsonTree::Null)
            &&& state.room_id matches Some(words) ==> file.entry("room_id"@) == Some(
                JsonTree::Text(words),
            )
            &&& state.room_id is None ==> file.entry("room_id"@) == Some(JsonTree::Null)
            &&& file.entry("pending_questions"@) is Some && pending is Object
            &&& other != "since_token"@ && other != "room_id"@ && other != "pending_questions"@
                ==> file.entry(other) is None
            &&& pending.entry(key) is Some <==> state.pending.dom().contains(key)
            &&& state.pending.dom().contains(key) ==> {
                &&& question.loop_id matches Some(words) ==> stored.entry("loop_id"@) == Some(
                    JsonTree::Text(words),
                )
                &&& question.loop_id is None ==> stored.entry("loop_id"@) == Some(JsonTree::Null)
                &&& stored.entry("question"@) == Some(JsonTree::Text(question.question))
                &&& stored.entry("asked_at"@) == Some(JsonTree::Text(question.asked_at))
                &&& other != "loop_id"@ && other != "question"@ && other != "asked_at"@
                    ==> stored.entry(other) is None
            }
        }),
{
    field_keys();
}

/// What is loaded from a state file: the token and the room where they are text, none
/// where they are missing or `null`, and no question where there are none in it. A file
/// whose token or room is anything else holds no state.
pub proof fn state_files_are_read(file: JsonTree, words: Seq<char>)
    requires
        file is Object,
        file.entry("pending_questions"@) is None,
    ensures
        ({
            let fits = |value: Option<JsonTree>|
                value is None || value->0 is Null || value->0 is Text;
            let since = file.entry("since_token"@);
            let room = file.entry("room_id"@);
            &&& state_in(file) is Some <==> fits(since) && fits(room)
            &&& state_in(file) matches Some(state) ==> {
                &&& state.pending.dom() =~= Set::empty()
                &&& since == Some(JsonTree::Text(words)) <==> state.since_token == Some(words)
                &&& room == Some(JsonTree::Text(words)) <==> state.room_id == Some(words)
            }
        }),
{
}

/// A question of a loop is found exactly if there is one, and it is one of that loop.
pub proof fn pending_questions_are_found(
    manager: &StateManager,
    state: &MatrixState,
    loop_id: &str,
    key: Seq<char>,
    r: Option<String>,
    replied: &str,
    asker: Option<String>,
)
    requires
        call_ensures(StateManager::pending_of_loop, (manager, state, loop_id), r),
        call_ensures(StateManager::get_loop_for_reply, (manager, state, replied), asker),
    ensures
        ({
            let pending = state.pending_questions@;
            &&& r matches Some(id) ==> pending.dom().contains(id@) && pending[id@].loop_id is Some
                && pending[id@].loop_id->0@ == loop_id@
            &&& r is None && pending.dom().contains(key) && pending[key].loop_id is Some
                ==> pending[key].loop_id->0@ != loop_id@
            &&& asker is Some <==> pending.dom().contains(replied@)
                && pending[replied@].loop_id is Some
            &&& asker matches Some(id) ==> id@ == pending[replied@].loop_id->0@
        }),
{
}

/// A question that is added is pending under its event ID, with its loop, its words and its
/// time; one that is removed is not; and no other question, nor the token or the room,
/// changes with either.
pub proof fn questions_are_added_and_removed(
    manager: &StateManager,
    before: MatrixState,
    added: MatrixState,
    removed: MatrixState,
    event_id: &str,
    loop_id: Option<&str>,
    question: &str,
    asked_at: String,
    key: Seq<char>,
)
    requires
        exists|state: &mut MatrixState|
            *state == before && *final(state) == added && #[trigger] call_ensures(
                StateManager::add_pending_question_at,
                (manager, state, event_id, loop_id, question, asked_at),
                (),
            ),
        exists|state: &mut MatrixState|
            *state == before && *final(state) == removed && #[trigger] call_ensures(
                StateManager::remove_pending_question,
                (manager, state, event_id),
                (),
            ),
    ensures
        ({
            let x = before.pending_questions@;
            let y = added.pending_questions@;
            let z = removed.pending_questions@;
            let new = y[event_id@];
            &&& y.dom().contains(key) <==> x.dom().contains(key) || key == event_id@
            &&& z.dom().contains(key) <==> x.dom().contains(key) && key != event_id@
            &&& x.dom().contains(key) && key != event_id@ ==> y[key] == x[key] && z[key] == x[key]
            &&& new.question@ == question@ && new.asked_at@ == asked_at@
            &&& loop_id matches Some(id) ==> new.loop_id is Some && new.loop_id->0@ == id@
            &&& loop_id is None ==> new.loop_id is None
        }),
        added.since_token == before.since_token && added.room_id == before.room_id,
        removed.since_token == before.since_token && removed.room_id == before.room_id,
{
}

/// Where there is no state file, and where it could be loaded, the state is an empty one or
/// that which was loaded.
pub proof fn states_begin_empty(
    manager: &StateManager,
    state: MatrixState,
    none: Result<Option<MatrixState>, Unreadable>,
    fresh: MatrixState,
    known: MatrixState,
    key: Seq<char>,
)
    requires
        call_ensures(StateManager::load, (manager, None::<&str>), none),
        call_ensures(StateManager::load_or_default, (manager, None::<MatrixState>), fresh),
        call_ensures(StateManager::load_or_default, (manager, Some(state)), known),
    ensures
        none matches Ok(found) && found is None,
        fresh.since_token is None && fresh.room_id is None,
        !fresh.pending_questions@.dom().contains(key),
        known == state,
{
}

} // verus!
