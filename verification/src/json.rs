//! JSON documents: a plain tree for what the robot reads and writes, and the
//! calls into `serde_json` that parse and print it.

use crate::{lists, place, text};
use vstd::prelude::*;

verus! {

/// A JSON document. Numbers that do not fit an `i64` are kept as `Other`.
pub enum Json {
    /// `null`.
    Null,
    /// `true` or `false`.
    Bool(bool),
    /// A number that is an `i64`.
    Int(i64),
    /// A string.
    Text(String),
    /// An array.
    Array(Vec<Json>),
    /// An object, as a list of entries; a later entry replaces an earlier one
    /// with the same key.
    Object(Vec<(String, Json)>),
    /// Any other number.
    Other,
}

/// The mathematical value of a JSON document.
#[verifier::ext_equal]
pub enum JsonTree {
    /// `null`.
    Null,
    /// `true` or `false`.
    Bool(bool),
    /// A number that is an `i64`.
    Int(i64),
    /// A string.
    Text(Seq<char>),
    /// An array.
    Array(Seq<JsonTree>),
    /// An object.
    Object(Map<Seq<char>, JsonTree>),
    /// Any other number.
    Other,
}

impl Json {
    /// The mathematical value of this document.
    pub open spec fn tree(&self) -> JsonTree
        decreases self,
    {
        match self {
            Json::Null => JsonTree::Null,
            Json::Bool(b) => JsonTree::Bool(*b),
            Json::Int(n) => JsonTree::Int(*n),
            Json::Text(s) => JsonTree::Text(s@),
            Json::Array(items) => JsonTree::Array(
                Seq::new(
                    items@.len(),
                    |i: int|
                        if 0 <= i < items@.len() {
                            items@[i].tree()
                        } else {
                            JsonTree::Null
                        },
                ),
            ),
            Json::Object(entries) => JsonTree::Object(Self::entries_map(entries@)),
            Json::Other => JsonTree::Other,
        }
    }

    /// The map of an object's entries, in which later entries win.
    pub open spec fn entries_map(entries: Seq<(String, Json)>) -> Map<Seq<char>, JsonTree>
        decreases entries,
    {
        if entries.len() == 0 {
            Map::empty()
        } else {
            Self::entries_map(entries.drop_last()).insert(
                entries.last().0@,
                entries.last().1.tree(),
            )
        }
    }
}

/// The mathematical value of a document that may be missing.
pub open spec fn tree_of(document: Option<Json>) -> Option<JsonTree> {
    match document {
        Some(json) => Some(json.tree()),
        None => None,
    }
}

/// The error of a text that does not hold the document that it should.
#[derive(Debug, Clone, Copy, PartialEq, Eq)]
pub struct Unreadable;

/// Optional text: a string or `null`.
pub open spec fn optional_tree(value: Option<Seq<char>>) -> JsonTree {
    match value {
        Some(s) => JsonTree::Text(s),
        None => JsonTree::Null,
    }
}

/// Optional text: a string or `null`.
pub fn optional_json(value: &Option<String>) -> (r: Json)
    ensures
        r.tree() == optional_tree(lists::text_in(*value)),
{
    match value {
        Some(s) => Json::Text(s.clone()),
        None => Json::Null,
    }
}

/// A key that the parser keeps for raw values.
pub const RAW_MARK: &'static str = "$serde_json::private::RawValue";

/// A key that the parser keeps for numbers.
pub const NUMBER_MARK: &'static str = "$serde_json::private::Number";

/// Whether a key is read back as a key: it is none that the parser keeps for values
/// of its own.
pub open spec fn is_plain_key(key: Seq<char>) -> bool {
    key != RAW_MARK@ && key != NUMBER_MARK@
}

/// A key that does not begin with a dollar sign is plain.
pub proof fn undollared_keys_are_plain()
    ensures
        forall|key: Seq<char>|
            key.len() == 0 || key[0] != '$' ==> #[trigger] is_plain_key(key),
{
    reveal_strlit("$serde_json::private::RawValue");
    reveal_strlit("$serde_json::private::Number");
    assert(RAW_MARK@[0] == '$');
    assert(NUMBER_MARK@[0] == '$');
}

/// How many objects a shallow document can be deep.
pub const SHALLOW_DEPTH: u8 = 3;

impl JsonTree {
    /// The value under a key, if this is an object that has the key.
    pub open spec fn entry(self, key: Seq<char>) -> Option<JsonTree> {
        match self {
            JsonTree::Object(map) => if map.dom().contains(key) {
                Some(map[key])
            } else {
                None
            },
            _ => None,
        }
    }

    /// The characters, if this is a string.
    pub open spec fn text(self) -> Option<Seq<char>> {
        match self {
            JsonTree::Text(s) => Some(s),
            _ => None,
        }
    }

    /// The number, if this is an `i64`.
    pub open spec fn whole(self) -> Option<i64> {
        match self {
            JsonTree::Int(n) => Some(n),
            _ => None,
        }
    }

    /// The string under a key.
    pub open spec fn text_entry(self, key: Seq<char>) -> Option<Seq<char>> {
        match self.entry(key) {
            Some(value) => value.text(),
            None => None,
        }
    }

    /// The number under a key.
    pub open spec fn int_entry(self, key: Seq<char>) -> Option<i64> {
        match self.entry(key) {
            Some(value) => value.whole(),
            None => None,
        }
    }

    /// Neither an array nor an object, nor a number that is not an `i64`.
    pub open spec fn is_scalar(self) -> bool {
        self is Null || self is Bool || self is Int || self is Text
    }

    /// A scalar or a tree of objects down to scalars that is at most this many
    /// objects deep.
    pub open spec fn is_within(self, depth: nat) -> bool
        decreases depth,
    {
        self.is_scalar() || (self matches JsonTree::Object(map) && depth > 0 && forall|
            key: Seq<char>,
        | #[trigger]
            map.dom().contains(key) ==> map[key].is_within((depth - 1) as nat))
    }

    /// A scalar or a tree of objects down to scalars that is not too deep.
    pub open spec fn is_shallow(self) -> bool {
        self.is_within(SHALLOW_DEPTH as nat)
    }

    /// Whether every key is plain, in the objects that are at most this deep.
    pub open spec fn has_plain_within(self, depth: nat) -> bool
        decreases depth,
    {
        match self {
            JsonTree::Object(map) => depth > 0 ==> forall|key: Seq<char>| #[trigger]
                map.dom().contains(key) ==> is_plain_key(key) && map[key].has_plain_within(
                    (depth - 1) as nat,
                ),
            _ => true,
        }
    }

    /// Whether every key of a shallow document is plain.
    pub open spec fn has_plain_keys(self) -> bool {
        self.has_plain_within(SHALLOW_DEPTH as nat)
    }

    /// The characters under a key that may be missing or `null`; `None` where it
    /// holds anything else but a string.
    pub open spec fn maybe_text(self, key: Seq<char>) -> Option<Option<Seq<char>>> {
        match self.entry(key) {
            None => Some(None),
            Some(JsonTree::Null) => Some(None),
            Some(JsonTree::Text(s)) => Some(Some(s)),
            Some(_) => None,
        }
    }
}

impl Json {
    /// The value under a key, if this is an object that has the key.
    pub fn get(&self, key: &str) -> (r: Option<&Json>)
        ensures
            match r {
                Some(value) => self.tree().entry(key@) == Some(value.tree()),
                None => self.tree().entry(key@) is None,
            },
    {
        match self {
            Json::Object(entries) => {
                let mut i: usize = entries.len();
                assert(entries@.take(i as int) == entries@);
                while i > 0
                    invariant
                        i <= entries@.len(),
                        self.tree() == JsonTree::Object(Json::entries_map(entries@)),
                        Json::entries_map(entries@).dom().contains(key@) == Json::entries_map(
                            entries@.take(i as int),
                        ).dom().contains(key@),
                        Json::entries_map(entries@.take(i as int)).dom().contains(key@)
                            ==> Json::entries_map(entries@)[key@] == Json::entries_map(
                            entries@.take(i as int),
                        )[key@],
                    decreases i,
                {
                    assert(entries@.take(i as int).drop_last() == entries@.take(i - 1));
                    if text::same_text(&entries[i - 1].0, key) {
                        return Some(&entries[i - 1].1);
                    }
                    i = i - 1;
                }
                None
            },
            _ => None,
        }
    }

    /// The characters, if this is a string.
    pub fn as_str(&self) -> (r: Option<&str>)
        ensures
            match r {
                Some(s) => self.tree().text() == Some(s@),
                None => self.tree().text() is None,
            },
    {
        match self {
            Json::Text(s) => Some(s.as_str()),
            _ => None,
        }
    }

    /// The number, if this is an `i64`.
    pub fn as_i64(&self) -> (r: Option<i64>)
        ensures
            r == self.tree().whole(),
    {
        match self {
            Json::Int(n) => Some(*n),
            _ => None,
        }
    }

    /// The string under a key.
    pub fn text_at(&self, key: &str) -> (r: Option<&str>)
        ensures
            match r {
                Some(s) => self.tree().text_entry(key@) == Some(s@),
                None => self.tree().text_entry(key@) is None,
            },
    {
        match self.get(key) {
            Some(value) => value.as_str(),
            None => None,
        }
    }

    /// The characters under a key that may be missing or `null`; `None` where it
    /// holds anything else but a string.
    pub fn maybe_text_at(&self, key: &str) -> (r: Option<Option<String>>)
        ensures
            match r {
                Some(found) => self.tree().maybe_text(key@) == Some(lists::text_in(found)),
                None => self.tree().maybe_text(key@) is None,
            },
    {
        match self.get(key) {
            None => Some(None),
            Some(Json::Null) => Some(None),
            Some(Json::Text(s)) => Some(Some(s.clone())),
            Some(_) => None,
        }
    }

    /// The keys of an object, some perhaps more than once; none for anything else.
    pub fn keys(&self) -> (r: Vec<String>)
        ensures
            forall|key: Seq<char>|
                place::texts(r@).contains(key) <==> #[trigger] self.tree().entry(key) is Some,
    {
        let mut out: Vec<String> = Vec::new();
        match self {
            Json::Object(entries) => {
                let mut i: usize = 0;
                assert(entries@.take(0) == Seq::<(String, Json)>::empty());
                while i < entries.len()
                    invariant
                        i <= entries@.len(),
                        out@.len() == i,
                        forall|key: Seq<char>| #[trigger]
                            place::texts(out@).contains(key) <==> Json::entries_map(
                                entries@.take(i as int),
                            ).dom().contains(key),
                    decreases entries@.len() - i,
                {
                    let ghost before = place::texts(out@);
                    out.push(entries[i].0.clone());
                    proof {
                        let key = entries@[i as int].0@;
                        let next = entries@.take(i + 1);
                        assert(next.drop_last() == entries@.take(i as int));
                        assert(place::texts(out@) =~= before.push(key));
                        assert forall|other: Seq<char>| #[trigger]
                            place::texts(out@).contains(other) <==> Json::entries_map(
                                next,
                            ).dom().contains(other) by {
                            lists::contains_after_push(before, key, other);
                        }
                    }
                    i = i + 1;
                }
                assert(entries@.take(i as int) == entries@);
                out
            },
            _ => {
                assert(place::texts(out@) =~= Seq::empty());
                out
            },
        }
    }

    /// The number under a key.
    pub fn int_at(&self, key: &str) -> (r: Option<i64>)
        ensures
            r == self.tree().int_entry(key@),
    {
        match self.get(key) {
            Some(value) => value.as_i64(),
            None => None,
        }
    }

    /// The entries of an object.
    pub fn fields(self) -> (r: Fields)
        requires
            self.tree() is Object,
        ensures
            JsonTree::Object(r@) == self.tree(),
    {
        match self {
            Json::Object(entries) => Fields { entries },
            _ => Fields { entries: Vec::new() },
        }
    }

    /// Whether the value under a key is `true`.
    pub fn true_at(&self, key: &str) -> (r: bool)
        ensures
            r == (self.tree().entry(key@) == Some(JsonTree::Bool(true))),
    {
        match self.get(key) {
            Some(Json::Bool(b)) => *b,
            _ => false,
        }
    }
}

/// The entries of an object under construction.
pub struct Fields {
    entries: Vec<(String, Json)>,
}

impl View for Fields {
    type V = Map<Seq<char>, JsonTree>;

    closed spec fn view(&self) -> Map<Seq<char>, JsonTree> {
        Json::entries_map(self.entries@)
    }
}

impl Fields {
    /// No entries.
    pub fn new() -> (r: Fields)
        ensures
            r@ == Map::<Seq<char>, JsonTree>::empty(),
    {
        Fields { entries: Vec::new() }
    }

    /// One more entry.
    pub fn with(self, key: &str, value: Json) -> (r: Fields)
        ensures
            r@ == self@.insert(key@, value.tree()),
    {
        let mut entries = self.entries;
        entries.push((String::from_str(key), value));
        assert(entries@.drop_last() == self.entries@);
        Fields { entries }
    }

    /// One more entry, a string.
    pub fn with_text(self, key: &str, value: &str) -> (r: Fields)
        ensures
            r@ == self@.insert(key@, JsonTree::Text(value@)),
    {
        self.with(key, Json::Text(String::from_str(value)))
    }

    /// The object of these entries.
    pub fn object(self) -> (r: Json)
        ensures
            r.tree() == JsonTree::Object(self@),
    {
        Json::Object(self.entries)
    }
}

// ── serde_json ──────────────────────────────────────────────────────────

/// `serde_json::Value`, carried between the calls below.
#[verifier::external_type_specification]
#[verifier::external_body]
pub struct ExJsonValue(serde_json::Value);

/// `serde_json::Error`.
#[verifier::external_type_specification]
#[verifier::external_body]
pub struct ExJsonError(serde_json::Error);

/// The document that `serde_json::from_str` reads from a text; `None` where it
/// fails.
pub uninterp spec fn json_parsed(text: Seq<char>) -> Option<JsonTree>;

/// The text that `serde_json::to_string_pretty` prints for a shallow value with
/// these contents. Keys are printed in their order as strings, so that it depends
/// on the contents alone.
pub uninterp spec fn json_indented(tree: JsonTree) -> Seq<char>;

/// What a `serde_json::Value` holds.
pub uninterp spec fn json_value(value: serde_json::Value) -> JsonTree;

/// Calls `serde_json::from_str` for a `serde_json::Value`. It succeeds exactly
/// on the texts that have a parsed document, with a value that holds it.
#[verifier::external_body]
fn parse_value(text: &str) -> (r: Result<serde_json::Value, serde_json::Error>)
    ensures
        match r {
            Ok(value) => json_parsed(text@) == Some(json_value(value)),
            Err(_) => json_parsed(text@) is None,
        },
{
    serde_json::from_str::<serde_json::Value>(text)
}

/// Takes a `serde_json::Value` apart by its variants; a number is asked for its
/// `i64` with `Number::as_i64`. The result has the value's contents.
#[verifier::external_body]
pub(crate) fn from_value(value: serde_json::Value) -> (r: Json)
    ensures
        r.tree() == json_value(value),
{
    match value {
        serde_json::Value::Null => Json::Null,
        serde_json::Value::Bool(b) => Json::Bool(b),
        serde_json::Value::Number(n) => n.as_i64().map_or(Json::Other, Json::Int),
        serde_json::Value::String(s) => Json::Text(s),
        serde_json::Value::Array(items) => Json::Array(items.into_iter().map(from_value).collect()),
        serde_json::Value::Object(map) => Json::Object(
            map.into_iter().map(|(key, item)| (key, from_value(item))).collect(),
        ),
    }
}

/// Builds a `serde_json::Value` from its variants, an object by collecting into
/// `serde_json::Map`, where a later entry replaces an earlier one with its key.
/// The value has the contents of the tree, which holds no `Other`.
#[verifier::external_body]
fn to_value(json: &Json) -> (r: serde_json::Value)
    requires
        json.tree().is_shallow(),
    ensures
        json_value(r) == json.tree(),
{
    match json {
        Json::Null | Json::Other => serde_json::Value::Null,
        Json::Bool(b) => serde_json::Value::Bool(*b),
        Json::Int(n) => serde_json::Value::Number(serde_json::Number::from(*n)),
        Json::Text(s) => serde_json::Value::String(s.clone()),
        Json::Array(items) => serde_json::Value::Array(items.iter().map(to_value).collect()),
        Json::Object(entries) => serde_json::Value::Object(
            entries.iter().map(|(key, item)| (key.clone(), to_value(item))).collect(),
        ),
    }
}

/// Calls `serde_json::to_string` on a shallow value. It cannot fail there, since
/// every key is a string and the text is written to memory. The text parses to
/// the contents of the value again if no key is one that `serde_json` reads as the
/// mark of a raw value or of a number. It holds no line break: the compact form
/// puts none between tokens, and strings have theirs escaped. The text of an object
/// begins with its brace.
#[verifier::external_body]
fn print_compact(value: &serde_json::Value) -> (r: Result<String, serde_json::Error>)
    requires
        json_value(*value).is_shallow(),
    ensures
        match r {
            Ok(line) => (json_value(*value).has_plain_keys() ==> json_parsed(line@) == Some(
                json_value(*value),
            )) && !line@.contains('\n') && !line@.contains('\r') && (json_value(*value) is Object
                ==> line@.len() > 0 && line@[0] == '{'),
            Err(_) => false,
        },
{
    serde_json::to_string(value)
}

/// Calls `serde_json::to_string_pretty` on a shallow value. It cannot fail there,
/// since every key is a string and the text is written to memory. The text depends
/// on the contents of the value alone. It parses to these contents again, also with
/// whitespace after it, if no key is one that `serde_json` reads as the mark of a
/// raw value or of a number.
#[verifier::external_body]
fn print_pretty(value: &serde_json::Value) -> (r: Result<String, serde_json::Error>)
    requires
        json_value(*value).is_shallow(),
    ensures
        match r {
            Ok(body) => body@ == json_indented(json_value(*value)) && (json_value(
                *value,
            ).has_plain_keys() ==> json_parsed(body@) == Some(json_value(*value)) && json_parsed(
                body@ + "\n"@,
            ) == Some(json_value(*value))),
            Err(_) => false,
        },
{
    serde_json::to_string_pretty(value)
}

/// Reads a JSON document; `None` where the text is not one.
pub fn parse(source: &str) -> (r: Option<Json>)
    ensures
        match r {
            Some(json) => json_parsed(source@) == Some(json.tree()),
            None => json_parsed(source@) is None,
        },
{
    match parse_value(source) {
        Ok(value) => Some(from_value(value)),
        Err(_) => None,
    }
}

/// Writes a shallow document with plain keys on one line: the text parses to the
/// document again and holds no line break, and that of an object begins with its
/// brace.
pub fn to_line(json: &Json) -> (r: String)
    requires
        json.tree().is_shallow(),
        json.tree().has_plain_keys(),
    ensures
        json_parsed(r@) == Some(json.tree()),
        !r@.contains('\n'),
        !r@.contains('\r'),
        json.tree() is Object ==> r@.len() > 0 && r@[0] == '{',
{
    match print_compact(&to_value(json)) {
        Ok(line) => line,
        Err(_) => String::new(),
    }
}

/// Writes a shallow document in indented form: with plain keys, the text parses to
/// the document again.
pub fn to_indented(json: &Json) -> (r: String)
    requires
        json.tree().is_shallow(),
    ensures
        r@ == json_indented(json.tree()),
        json.tree().has_plain_keys() ==> json_parsed(r@) == Some(json.tree()),
{
    match print_pretty(&to_value(json)) {
        Ok(body) => body,
        Err(_) => String::new(),
    }
}

/// Writes a shallow document in indented form, ended by a line break: with plain
/// keys, the text parses to the document again.
pub fn to_pretty(json: &Json) -> (r: String)
    requires
        json.tree().is_shallow(),
    ensures
        r@ == json_indented(json.tree()) + "\n"@,
        json.tree().has_plain_keys() ==> json_parsed(r@) == Some(json.tree()),
{
    match print_pretty(&to_value(json)) {
        Ok(body) => text::cat2(&body, "\n"),
        Err(_) => String::new(),
    }
}

// ── Laws ────────────────────────────────────────────────────────────────

/// What is under a key of an object is what was put there last, and no other key changes
/// with it. Only an object has keys.
pub proof fn last_entry_counts(
    entries: Seq<(String, Json)>,
    key: String,
    value: Json,
    other: Seq<char>,
    tree: JsonTree,
)
    ensures
        ({
            let before = JsonTree::Object(Json::entries_map(entries));
            let after = JsonTree::Object(Json::entries_map(entries.push((key, value))));
            &&& after.entry(key@) == Some(value.tree())
            &&& other != key@ ==> after.entry(other) == before.entry(other)
        }),
        !(tree is Object) ==> tree.entry(other) is None,
{
    assert(entries.push((key, value)).drop_last() =~= entries);
}

/// What an entry is read as: text as its characters, a whole number as it is, and what may
/// be missing as nothing where it is missing or `null`. Nothing else is read as any of them.
pub proof fn entries_are_read(
    json: &Json,
    key: &str,
    words: Seq<char>,
    n: i64,
    text_r: Option<&str>,
    int_r: Option<i64>,
    true_r: bool,
    maybe_r: Option<Option<String>>,
)
    requires
        call_ensures(Json::text_at, (json, key), text_r),
        call_ensures(Json::int_at, (json, key), int_r),
        call_ensures(Json::true_at, (json, key), true_r),
        call_ensures(Json::maybe_text_at, (json, key), maybe_r),
    ensures
        ({
            let entry = json.tree().entry(key@);
            &&& text_r is Some && text_r->0@ == words <==> entry == Some(JsonTree::Text(words))
            &&& int_r == Some(n) <==> entry == Some(JsonTree::Int(n))
            &&& true_r <==> entry == Some(JsonTree::Bool(true))
            &&& maybe_r is None <==> entry is Some && !(entry->0 is Null) && !(entry->0 is Text)
            &&& maybe_r is Some && maybe_r->0 is None <==> entry is None || entry->0 is Null
            &&& maybe_r is Some && maybe_r->0 is Some && (maybe_r->0)->0@ == words <==> entry
                == Some(JsonTree::Text(words))
        }),
{
}

} // verus!
