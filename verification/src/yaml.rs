//! YAML documents: a plain tree for what the robot reads and edits, and the
//! calls into `serde_yaml` that parse and print it.

use crate::text;
use serde_yaml::value::{Tag, TaggedValue};
use vstd::prelude::*;

verus! {

/// A YAML document.
pub enum Yaml {
    /// `null`.
    Null,
    /// A string.
    Text(String),
    /// `true` or `false`.
    Flag(bool),
    /// A number.
    Number(serde_yaml::Number),
    /// A sequence.
    Sequence(Vec<Yaml>),
    /// A mapping, entry by entry.
    Mapping(Vec<(Yaml, Yaml)>),
    /// A value with an explicit tag.
    Tagged(YamlTag, Box<Yaml>),
}

/// An explicit tag, with the exclamation mark that it begins with.
pub struct YamlTag {
    shown: String,
}

impl View for YamlTag {
    type V = Seq<char>;

    closed spec fn view(&self) -> Seq<char> {
        self.shown@
    }
}

impl YamlTag {
    #[verifier::type_invariant]
    spec fn well_formed(self) -> bool {
        self.shown@.len() > 0
    }
}

/// The mathematical value of a number.
pub enum YamlNumber {
    /// A `u64`.
    Whole(u64),
    /// An `i64` below zero.
    Negative(i64),
    /// Any other number, as it is displayed.
    Decimal(Seq<char>),
}

/// The mathematical value of a YAML document.
pub enum YamlTree {
    /// `null`.
    Null,
    /// A string.
    Text(Seq<char>),
    /// `true` or `false`.
    Flag(bool),
    /// A number.
    Number(YamlNumber),
    /// A sequence.
    Sequence(Seq<YamlTree>),
    /// A mapping, entry by entry.
    Mapping(Seq<(YamlTree, YamlTree)>),
    /// A value with an explicit tag.
    Tagged(Seq<char>, Box<YamlTree>),
}

impl Yaml {
    /// The mathematical value of this document.
    pub open spec fn tree(&self) -> YamlTree
        decreases self,
    {
        match self {
            Yaml::Null => YamlTree::Null,
            Yaml::Text(s) => YamlTree::Text(s@),
            Yaml::Flag(b) => YamlTree::Flag(*b),
            Yaml::Number(n) => YamlTree::Number(yaml_number(*n)),
            Yaml::Sequence(items) => YamlTree::Sequence(
                Seq::new(
                    items@.len(),
                    |i: int|
                        if 0 <= i < items@.len() {
                            items@[i].tree()
                        } else {
                            arbitrary()
                        },
                ),
            ),
            Yaml::Mapping(entries) => YamlTree::Mapping(
                Seq::new(
                    entries@.len(),
                    |i: int|
                        if 0 <= i < entries@.len() {
                            (entries@[i].0.tree(), entries@[i].1.tree())
                        } else {
                            arbitrary()
                        },
                ),
            ),
            Yaml::Tagged(tag, value) => YamlTree::Tagged(tag@, Box::new(value.tree())),
        }
    }
}

// ── Lookup ──────────────────────────────────────────────────────────────

/// The mathematical value of a mapping's entries.
pub open spec fn entries_tree(entries: Seq<(Yaml, Yaml)>) -> Seq<(YamlTree, YamlTree)> {
    Seq::new(entries.len(), |i: int| (entries[i].0.tree(), entries[i].1.tree()))
}

proof fn mapping_tree(yaml: Yaml)
    requires
        yaml is Mapping,
    ensures
        yaml.tree() == YamlTree::Mapping(entries_tree(yaml->Mapping_0@)),
{
    assert(yaml.tree()->Mapping_0 =~= entries_tree(yaml->Mapping_0@));
}

/// The position of the first entry with a string key, or the number of entries
/// where there is none.
pub open spec fn slot(entries: Seq<(YamlTree, YamlTree)>, key: Seq<char>) -> int
    decreases entries.len(),
{
    if entries.len() == 0 || entries[0].0 == YamlTree::Text(key) {
        0
    } else {
        1 + slot(entries.skip(1), key)
    }
}

/// The value under a string key of a mapping.
pub open spec fn lookup(entries: Seq<(YamlTree, YamlTree)>, key: Seq<char>) -> Option<YamlTree> {
    if slot(entries, key) < entries.len() {
        Some(entries[slot(entries, key)].1)
    } else {
        None
    }
}

/// A mapping with a value put under a string key: in the place of the entry
/// with that key, or else at the end.
pub open spec fn put(
    entries: Seq<(YamlTree, YamlTree)>,
    key: Seq<char>,
    value: YamlTree,
) -> Seq<(YamlTree, YamlTree)> {
    if slot(entries, key) < entries.len() {
        entries.update(slot(entries, key), (YamlTree::Text(key), value))
    } else {
        entries.push((YamlTree::Text(key), value))
    }
}

/// The slot of a key is the first position with that key.
pub proof fn slot_is_first(entries: Seq<(YamlTree, YamlTree)>, key: Seq<char>, i: int)
    requires
        0 <= i <= entries.len(),
        forall|j: int| 0 <= j < i ==> (#[trigger] entries[j]).0 != YamlTree::Text(key),
        i < entries.len() ==> entries[i].0 == YamlTree::Text(key),
    ensures
        slot(entries, key) == i,
    decreases entries.len(),
{
    if i > 0 {
        assert(entries[0].0 != YamlTree::Text(key));
        assert forall|j: int| 0 <= j < i - 1 implies (#[trigger] entries.skip(1)[j]).0
            != YamlTree::Text(key) by {
            assert(entries.skip(1)[j] == entries[j + 1]);
        }
        slot_is_first(entries.skip(1), key, i - 1);
    }
}

/// What the slot of a key is: no earlier entry has the key, and the entry there
/// has it, if there is one.
pub proof fn slot_properties(entries: Seq<(YamlTree, YamlTree)>, key: Seq<char>)
    ensures
        0 <= slot(entries, key) <= entries.len(),
        forall|j: int|
            0 <= j < slot(entries, key) ==> (#[trigger] entries[j]).0 != YamlTree::Text(key),
        slot(entries, key) < entries.len() ==> entries[slot(entries, key)].0 == YamlTree::Text(key),
    decreases entries.len(),
{
    if entries.len() > 0 && entries[0].0 != YamlTree::Text(key) {
        slot_properties(entries.skip(1), key);
        assert forall|j: int| 0 <= j < slot(entries, key) implies (#[trigger] entries[j]).0
            != YamlTree::Text(key) by {
            if j > 0 {
                assert(entries[j] == entries.skip(1)[j - 1]);
            }
        }
    }
}

/// A key that was put is found with the value that was put.
pub proof fn lookup_after_put(
    entries: Seq<(YamlTree, YamlTree)>,
    key: Seq<char>,
    value: YamlTree,
)
    ensures
        lookup(put(entries, key, value), key) == Some(value),
{
    let i = slot(entries, key);
    slot_properties(entries, key);
    let after = put(entries, key, value);
    assert forall|j: int| 0 <= j < i implies (#[trigger] after[j]).0 != YamlTree::Text(key) by {
        assert(after[j] == entries[j]);
    }
    slot_is_first(after, key, i);
}

/// Putting under one key leaves every other key as it was.
pub proof fn lookup_after_other_put(
    entries: Seq<(YamlTree, YamlTree)>,
    key: Seq<char>,
    value: YamlTree,
    other: Seq<char>,
)
    requires
        other != key,
    ensures
        lookup(put(entries, key, value), other) == lookup(entries, other),
{
    let at = slot(entries, key);
    let i = slot(entries, other);
    slot_properties(entries, key);
    slot_properties(entries, other);
    let after = put(entries, key, value);
    assert forall|j: int| 0 <= j < i implies (#[trigger] after[j]).0 != YamlTree::Text(other) by {
        if j == at {
            assert(after[j].0 == YamlTree::Text(key));
        } else {
            assert(after[j] == entries[j]);
        }
    }
    if i < entries.len() {
        assert(i != at);
        assert(after[i] == entries[i]);
        slot_is_first(after, other, i);
    } else {
        assert forall|j: int| 0 <= j < after.len() implies (#[trigger] after[j]).0
            != YamlTree::Text(other) by {
            if j == at {
                assert(after[j].0 == YamlTree::Text(key));
            } else {
                assert(after[j] == entries[j]);
            }
        }
        slot_is_first(after, other, after.len() as int);
    }
}

impl YamlTree {
    /// The value under all explicit tags.
    pub open spec fn untagged(self) -> YamlTree
        decreases self,
    {
        match self {
            YamlTree::Tagged(_, value) => value.untagged(),
            _ => self,
        }
    }

    /// The value under a string key, if this is a mapping that has the key.
    /// Tags are looked through.
    pub open spec fn entry(self, key: Seq<char>) -> Option<YamlTree> {
        match self.untagged() {
            YamlTree::Mapping(entries) => lookup(entries, key),
            _ => None,
        }
    }

    /// The characters, if this is a string. Tags are looked through.
    pub open spec fn text(self) -> Option<Seq<char>> {
        match self.untagged() {
            YamlTree::Text(s) => Some(s),
            _ => None,
        }
    }

    /// The truth value, if this is one. Tags are looked through.
    pub open spec fn flag(self) -> Option<bool> {
        match self.untagged() {
            YamlTree::Flag(b) => Some(b),
            _ => None,
        }
    }

    /// The entries of an untagged mapping; none for anything else.
    pub open spec fn entries(self) -> Seq<(YamlTree, YamlTree)> {
        match self {
            YamlTree::Mapping(entries) => entries,
            _ => Seq::empty(),
        }
    }
}

/// The position of the first entry with a string key, or the number of entries
/// where there is none.
pub fn find_slot(entries: &Vec<(Yaml, Yaml)>, key: &str) -> (i: usize)
    ensures
        i == slot(entries_tree(entries@), key@),
        i <= entries@.len(),
{
    let ghost trees = entries_tree(entries@);
    let mut i: usize = 0;
    while i < entries.len()
        invariant
            i <= entries@.len(),
            trees == entries_tree(entries@),
            forall|j: int| 0 <= j < i ==> (#[trigger] trees[j]).0 != YamlTree::Text(key@),
        decreases entries@.len() - i,
    {
        let here: bool = match &entries[i].0 {
            Yaml::Text(s) => text::same_text(s, key),
            _ => false,
        };
        assert(here == (trees[i as int].0 == YamlTree::Text(key@)));
        if here {
            proof {
                slot_is_first(trees, key@, i as int);
            }
            return i;
        }
        i = i + 1;
    }
    proof {
        slot_is_first(trees, key@, i as int);
    }
    i
}

/// Puts a value under a string key of a mapping: in the place of the entry with
/// that key, or else at the end.
pub fn put_entry(entries: Vec<(Yaml, Yaml)>, key: &str, value: Yaml) -> (r: Vec<(Yaml, Yaml)>)
    ensures
        entries_tree(r@) == put(entries_tree(entries@), key@, value.tree()),
{
    let i: usize = find_slot(&entries, key);
    let mut out = entries;
    let ghost tree = value.tree();
    let entry = (Yaml::Text(String::from_str(key)), value);
    if i < out.len() {
        out.set(i, entry);
        assert(entries_tree(out@) =~= entries_tree(entries@).update(
            i as int,
            (YamlTree::Text(key@), tree),
        ));
    } else {
        out.push(entry);
        assert(entries_tree(out@) =~= entries_tree(entries@).push((YamlTree::Text(key@), tree)));
    }
    out
}

/// The entries of the mapping under a string key, taken out of `entries`; none
/// where the value there is not an untagged mapping.
pub fn take_mapping(entries: &mut Vec<(Yaml, Yaml)>, key: &str) -> (r: Vec<(Yaml, Yaml)>)
    ensures
        entries_tree(r@) == (match lookup(entries_tree(old(entries)@), key@) {
            Some(value) => value.entries(),
            None => Seq::empty(),
        }),
        forall|value: YamlTree| #[trigger]
            put(entries_tree(final(entries)@), key@, value) == put(
                entries_tree(old(entries)@),
                key@,
                value,
            ),
{
    let i: usize = find_slot(entries, key);
    let ghost before = entries_tree(entries@);
    if i < entries.len() {
        let mut taken = Yaml::Flag(false);
        let mut slot_key = Yaml::Text(String::from_str(key));
        let mut entry = (slot_key, taken);
        entries.set_and_swap(i, &mut entry);
        let ghost after = entries_tree(entries@);
        proof {
            slot_properties(before, key@);
            assert forall|j: int| 0 <= j < i implies (#[trigger] after[j]).0 != YamlTree::Text(
                key@,
            ) by {
                assert(after[j] == before[j]);
            }
            slot_is_first(after, key@, i as int);
            assert forall|value: YamlTree| #[trigger] put(after, key@, value) == put(
                before,
                key@,
                value,
            ) by {
                assert(put(after, key@, value) =~= put(before, key@, value));
            }
        }
        match entry.1 {
            Yaml::Mapping(inner) => {
                proof {
                    mapping_tree(entry.1);
                }
                return inner;
            },
            _ => {},
        }
    }
    let none: Vec<(Yaml, Yaml)> = Vec::new();
    assert(entries_tree(none@) =~= Seq::empty());
    none
}

impl Yaml {
    /// The value under all explicit tags.
    pub fn untag(&self) -> (r: &Yaml)
        ensures
            r.tree() == self.tree().untagged(),
            r !is Tagged,
        decreases self,
    {
        match self {
            Yaml::Tagged(_, value) => value.untag(),
            _ => self,
        }
    }

    /// The value under a string key, if this is a mapping that has the key.
    /// Tags are looked through.
    pub fn get(&self, key: &str) -> (r: Option<&Yaml>)
        ensures
            match r {
                Some(value) => self.tree().entry(key@) == Some(value.tree()),
                None => self.tree().entry(key@) is None,
            },
    {
        let inner = self.untag();
        match inner {
            Yaml::Mapping(entries) => {
                proof {
                    mapping_tree(*inner);
                }
                let i: usize = find_slot(entries, key);
                if i < entries.len() {
                    Some(&entries[i].1)
                } else {
                    None
                }
            },
            _ => None,
        }
    }

    /// The characters, if this is a string. Tags are looked through.
    pub fn as_str(&self) -> (r: Option<&str>)
        ensures
            match r {
                Some(s) => self.tree().text() == Some(s@),
                None => self.tree().text() is None,
            },
    {
        match self.untag() {
            Yaml::Text(s) => Some(s.as_str()),
            _ => None,
        }
    }

    /// The truth value, if this is one. Tags are looked through.
    pub fn as_bool(&self) -> (r: Option<bool>)
        ensures
            r == self.tree().flag(),
    {
        match self.untag() {
            Yaml::Flag(b) => Some(*b),
            _ => None,
        }
    }

    /// The entries of an untagged mapping; none for anything else.
    pub fn into_entries(self) -> (r: Vec<(Yaml, Yaml)>)
        ensures
            entries_tree(r@) == self.tree().entries(),
    {
        match self {
            Yaml::Mapping(entries) => {
                proof {
                    mapping_tree(self);
                }
                entries
            },
            _ => {
                let none: Vec<(Yaml, Yaml)> = Vec::new();
                assert(entries_tree(none@) =~= Seq::empty());
                none
            },
        }
    }

    /// The mapping with the given entries.
    pub fn mapping(entries: Vec<(Yaml, Yaml)>) -> (r: Yaml)
        ensures
            r.tree() == YamlTree::Mapping(entries_tree(entries@)),
            r is Mapping,
    {
        let r = Yaml::Mapping(entries);
        proof {
            mapping_tree(r);
        }
        r
    }
}

// ── Plain documents ─────────────────────────────────────────────────────

/// How many mappings and sequences a plain document can be deep.
pub const PLAIN_DEPTH: u8 = 128;

/// Whether a tag is an exclamation mark with a word of ASCII letters, digits, `-` and
/// `_`.
pub open spec fn is_simple_tag(tag: Seq<char>) -> bool {
    &&& tag.len() > 1 && tag[0] == '!'
    &&& forall|i: int|
        1 <= i < tag.len() ==> ('a' <= #[trigger] tag[i] <= 'z' || 'A' <= tag[i] <= 'Z' || '0'
            <= tag[i] <= '9' || tag[i] == '-' || tag[i] == '_')
}

/// Whether a value is read back as a key that differs from all others: a string,
/// `null`, a boolean, a number other than the negative zero, which the parser takes
/// for the same key as zero, or a sequence of such values that is at most this many
/// sequences deep.
pub open spec fn is_plain_key(key: YamlTree, depth: nat) -> bool
    decreases depth,
{
    match key {
        YamlTree::Null => true,
        YamlTree::Text(_) => true,
        YamlTree::Flag(_) => true,
        YamlTree::Number(YamlNumber::Decimal(shown)) => shown != "-0.0"@,
        YamlTree::Number(_) => true,
        YamlTree::Sequence(items) => depth > 0 && forall|i: int|
            0 <= i < items.len() ==> is_plain_key(#[trigger] items[i], (depth - 1) as nat),
        YamlTree::Mapping(_) => false,
        YamlTree::Tagged(_, _) => false,
    }
}

/// Whether the keys of a mapping are plain and differ.
pub open spec fn has_plain_keys(entries: Seq<(YamlTree, YamlTree)>, depth: nat) -> bool {
    &&& forall|i: int| 0 <= i < entries.len() ==> is_plain_key((#[trigger] entries[i]).0, depth)
    &&& forall|i: int, j: int|
        0 <= i < j < entries.len() ==> (#[trigger] entries[i]).0 != (#[trigger] entries[j]).0
}

/// Whether a document is made of sequences and of mappings with plain keys, at most
/// this many deep, down to strings, booleans, numbers and `null`. Values may have a
/// simple tag, but not a second one.
pub open spec fn is_plain(tree: YamlTree, depth: nat) -> bool
    decreases depth, tree,
{
    match tree {
        YamlTree::Null => true,
        YamlTree::Text(_) => true,
        YamlTree::Flag(_) => true,
        YamlTree::Number(_) => true,
        YamlTree::Sequence(items) => depth > 0 && forall|i: int|
            0 <= i < items.len() ==> is_plain(#[trigger] items[i], (depth - 1) as nat),
        YamlTree::Mapping(entries) => depth > 0 && has_plain_keys(entries, (depth - 1) as nat)
            && forall|i: int|
            0 <= i < entries.len() ==> is_plain((#[trigger] entries[i]).1, (depth - 1) as nat),
        YamlTree::Tagged(tag, value) => is_simple_tag(tag) && !(*value is Tagged) && is_plain(
            *value,
            depth,
        ),
    }
}

/// A plain key is plain within any greater depth.
pub proof fn plain_key_within(key: YamlTree, depth: nat, greater: nat)
    requires
        is_plain_key(key, depth),
        depth <= greater,
    ensures
        is_plain_key(key, greater),
    decreases depth,
{
    match key {
        YamlTree::Sequence(items) => {
            assert forall|i: int| 0 <= i < items.len() implies is_plain_key(
                #[trigger] items[i],
                (greater - 1) as nat,
            ) by {
                plain_key_within(items[i], (depth - 1) as nat, (greater - 1) as nat);
            }
        },
        _ => {},
    }
}

/// A plain document is plain within any greater depth.
pub proof fn plain_within(tree: YamlTree, depth: nat, greater: nat)
    requires
        is_plain(tree, depth),
        depth <= greater,
    ensures
        is_plain(tree, greater),
    decreases depth, tree,
{
    match tree {
        YamlTree::Sequence(items) => {
            assert forall|i: int| 0 <= i < items.len() implies is_plain(
                #[trigger] items[i],
                (greater - 1) as nat,
            ) by {
                plain_within(items[i], (depth - 1) as nat, (greater - 1) as nat);
            }
        },
        YamlTree::Mapping(entries) => {
            assert forall|i: int| 0 <= i < entries.len() implies is_plain(
                (#[trigger] entries[i]).1,
                (greater - 1) as nat,
            ) by {
                plain_within(entries[i].1, (depth - 1) as nat, (greater - 1) as nat);
            }
            assert forall|i: int| 0 <= i < entries.len() implies is_plain_key(
                (#[trigger] entries[i]).0,
                (greater - 1) as nat,
            ) by {
                plain_key_within(entries[i].0, (depth - 1) as nat, (greater - 1) as nat);
            }
        },
        YamlTree::Tagged(_, value) => {
            plain_within(*value, depth, greater);
        },
        _ => {},
    }
}

/// Putting a plain value under a string key keeps a mapping plain.
pub proof fn put_keeps_plain(
    entries: Seq<(YamlTree, YamlTree)>,
    key: Seq<char>,
    value: YamlTree,
    depth: nat,
)
    requires
        is_plain(YamlTree::Mapping(entries), depth + 1),
        is_plain(value, depth),
    ensures
        is_plain(YamlTree::Mapping(put(entries, key, value)), depth + 1),
{
    let after = put(entries, key, value);
    let at = slot(entries, key);
    slot_properties(entries, key);
    assert forall|i: int, j: int| 0 <= i < j < after.len() implies (#[trigger] after[i]).0 != (
    #[trigger] after[j]).0 by {
        if j < entries.len() {
            assert(after[i].0 == entries[i].0);
            assert(after[j].0 == entries[j].0);
        } else {
            assert(entries[i].0 != YamlTree::Text(key));
        }
    }
    assert forall|i: int| 0 <= i < after.len() implies is_plain((#[trigger] after[i]).1, depth) by {
        if i != at {
            assert(after[i] == entries[i]);
        }
    }
    assert forall|i: int| 0 <= i < after.len() implies is_plain_key(
        (#[trigger] after[i]).0,
        depth,
    ) by {
        if i != at {
            assert(after[i] == entries[i]);
        }
    }
}

// ── serde_yaml ──────────────────────────────────────────────────────────

/// `serde_yaml::Value`, carried between the calls below.
#[verifier::external_type_specification]
#[verifier::external_body]
pub struct ExYamlValue(serde_yaml::Value);

/// `serde_yaml::Number`.
#[verifier::external_type_specification]
#[verifier::external_body]
pub struct ExYamlNumber(serde_yaml::Number);

/// `serde_yaml::Error`.
#[verifier::external_type_specification]
#[verifier::external_body]
pub struct ExYamlError(serde_yaml::Error);

/// The document that `serde_yaml::from_str` reads from a text; `None` where it
/// fails.
pub uninterp spec fn yaml_parsed(text: Seq<char>) -> Option<YamlTree>;

/// What a `serde_yaml::Value` holds.
pub uninterp spec fn yaml_tree(value: serde_yaml::Value) -> YamlTree;

/// What a `serde_yaml::Number` holds: a `u64`, an `i64` below zero, or a floating
/// point number, here by the text that it is displayed as.
pub uninterp spec fn yaml_number(number: serde_yaml::Number) -> YamlNumber;

/// The `serde_yaml::Value` that the constructors of `serde_yaml` build from a
/// tree.
pub uninterp spec fn yaml_node(tree: YamlTree) -> serde_yaml::Value;

/// The text that `serde_yaml::to_string` prints for a value; `None` where it
/// fails.
pub uninterp spec fn yaml_printed(value: serde_yaml::Value) -> Option<Seq<char>>;

/// Calls `serde_yaml::from_str` for a `serde_yaml::Value`. It succeeds exactly on
/// the texts that have a parsed document, with a value that holds it.
#[verifier::external_body]
fn parse_value(text: &str) -> (r: Result<serde_yaml::Value, serde_yaml::Error>)
    ensures
        match r {
            Ok(value) => yaml_parsed(text@) == Some(yaml_tree(value)),
            Err(_) => yaml_parsed(text@) is None,
        },
{
    serde_yaml::from_str::<serde_yaml::Value>(text)
}

/// Calls `serde_yaml::Number::from` for a `u64`. The number holds it.
#[verifier::external_body]
pub(crate) fn whole_number(n: u64) -> (r: serde_yaml::Number)
    ensures
        yaml_number(r) == YamlNumber::Whole(n),
{
    serde_yaml::Number::from(n)
}

/// Takes a `serde_yaml::Value` apart by its variants; a tag is displayed, which
/// gives an exclamation mark and the word. The result has the value's contents.
#[verifier::external_body]
fn from_value(value: serde_yaml::Value) -> (r: Yaml)
    ensures
        r.tree() == yaml_tree(value),
{
    match value {
        serde_yaml::Value::Null => Yaml::Null,
        serde_yaml::Value::String(s) => Yaml::Text(s),
        serde_yaml::Value::Bool(b) => Yaml::Flag(b),
        serde_yaml::Value::Number(n) => Yaml::Number(n),
        serde_yaml::Value::Sequence(v) => Yaml::Sequence(v.into_iter().map(from_value).collect()),
        serde_yaml::Value::Mapping(map) => Yaml::Mapping(
            map.into_iter().map(|(key, item)| (from_value(key), from_value(item))).collect(),
        ),
        serde_yaml::Value::Tagged(t) => Yaml::Tagged(
            YamlTag { shown: t.tag.to_string() },
            Box::new(from_value(t.value)),
        ),
    }
}

/// Builds a `serde_yaml::Value` from its variants, a mapping by collecting into
/// `serde_yaml::Mapping` and a tag with `Tag::new`, which takes any text but the
/// empty one. The value depends on the tree alone, and of a plain document, whose
/// keys differ, it holds the tree.
#[verifier::external_body]
fn to_value(yaml: Yaml) -> (r: serde_yaml::Value)
    ensures
        r == yaml_node(yaml.tree()),
        is_plain(yaml.tree(), PLAIN_DEPTH as nat) ==> yaml_tree(r) == yaml.tree(),
{
    match yaml {
        Yaml::Null => serde_yaml::Value::Null,
        Yaml::Text(s) => serde_yaml::Value::String(s),
        Yaml::Flag(b) => serde_yaml::Value::Bool(b),
        Yaml::Number(n) => serde_yaml::Value::Number(n),
        Yaml::Sequence(v) => serde_yaml::Value::Sequence(v.into_iter().map(to_value).collect()),
        Yaml::Mapping(entries) => serde_yaml::Value::Mapping(
            entries.into_iter().map(|(key, item)| (to_value(key), to_value(item))).collect(),
        ),
        Yaml::Tagged(tag, item) => serde_yaml::Value::Tagged(
            Box::new(TaggedValue { tag: Tag::new(tag.shown), value: to_value(*item) }),
        ),
    }
}

/// Calls `serde_yaml::to_string`. It succeeds exactly on the values that have a
/// printed text, with that text. A plain document is printed, and its text parses
/// to the document again. Strings that would be read as something else are quoted,
/// and characters that a line cannot hold are escaped. No line is folded. A string
/// of several lines becomes a literal block, which says how far it is indented
/// where it begins with a space or a line break, or is quoted. A floating point
/// number is printed with the digits that tell it from all others. The parser takes
/// the depth of a plain document. A simple tag is printed as it is, before its value.
/// Nothing is claimed of the text of documents with other tags, some of which are
/// printed as what is not a tag, nor with other keys or with more depth.
#[verifier::external_body]
fn print_value(value: &serde_yaml::Value) -> (r: Result<String, serde_yaml::Error>)
    ensures
        match r {
            Ok(body) => yaml_printed(*value) == Some(body@) && (is_plain(
                yaml_tree(*value),
                PLAIN_DEPTH as nat,
            ) ==> yaml_parsed(body@) == Some(yaml_tree(*value))),
            Err(_) => yaml_printed(*value) is None && !is_plain(
                yaml_tree(*value),
                PLAIN_DEPTH as nat,
            ),
        },
{
    serde_yaml::to_string(value)
}

/// Reads a YAML document; `None` where the text is not one.
pub fn parse(source: &str) -> (r: Option<Yaml>)
    ensures
        match r {
            Some(yaml) => yaml_parsed(source@) == Some(yaml.tree()),
            None => yaml_parsed(source@) is None,
        },
{
    match parse_value(source) {
        Ok(value) => Some(from_value(value)),
        Err(_) => None,
    }
}

/// Prints a YAML document; `None` where it has no printed form. A plain document
/// has one, which is read as the document again.
pub fn print(yaml: Yaml) -> (r: Option<String>)
    ensures
        is_plain(yaml.tree(), PLAIN_DEPTH as nat) ==> (r matches Some(body) && yaml_parsed(body@)
            == Some(yaml.tree())),
        match r {
            Some(body) => yaml_printed(yaml_node(yaml.tree())) == Some(body@),
            None => yaml_printed(yaml_node(yaml.tree())) is None,
        },
{
    match print_value(&to_value(yaml)) {
        Ok(body) => Some(body),
        Err(_) => None,
    }
}

/// A key that is not there yet is put at the end.
pub proof fn new_key_is_put_last(
    entries: Seq<(YamlTree, YamlTree)>,
    key: Seq<char>,
    value: YamlTree,
)
    requires
        forall|i: int| 0 <= i < entries.len() ==> (#[trigger] entries[i]).0 != YamlTree::Text(key),
    ensures
        put(entries, key, value) == entries.push((YamlTree::Text(key), value)),
{
    slot_is_first(entries, key, entries.len() as int);
}

/// What is under a key of a mapping is the value of the first entry with that key, through
/// any tags of the mapping; a mapping without such an entry, and what is no mapping, have
/// none. Text and truth values are read through their tags, and nothing else is read as
/// either.
pub proof fn first_entry_counts(
    entries: Seq<(YamlTree, YamlTree)>,
    i: int,
    key: Seq<char>,
    tag: Seq<char>,
    inner: YamlTree,
    words: Seq<char>,
    flag: bool,
)
    requires
        0 <= i <= entries.len(),
        forall|j: int| 0 <= j < i ==> (#[trigger] entries[j]).0 != YamlTree::Text(key),
        i < entries.len() ==> entries[i].0 == YamlTree::Text(key),
    ensures
        YamlTree::Mapping(entries).entry(key) == (if i < entries.len() {
            Some(entries[i].1)
        } else {
            None
        }),
        YamlTree::Tagged(tag, Box::new(inner)).entry(key) == inner.entry(key),
        YamlTree::Tagged(tag, Box::new(inner)).text() == inner.text(),
        YamlTree::Tagged(tag, Box::new(inner)).flag() == inner.flag(),
        YamlTree::Text(words).text() == Some(words),
        YamlTree::Flag(flag).flag() == Some(flag),
        !(inner is Tagged) && !(inner is Mapping) ==> inner.entry(key) is None,
        !(inner is Tagged) && !(inner is Text) ==> inner.text() is None,
        !(inner is Tagged) && !(inner is Flag) ==> inner.flag() is None,
{
    reveal_with_fuel(YamlTree::untagged, 2);
    slot_is_first(entries, key, i);
}

/// A key that is there already keeps its place when a value is put under it, and every
/// other entry stays as it is.
pub proof fn known_key_keeps_its_place(
    entries: Seq<(YamlTree, YamlTree)>,
    i: int,
    key: Seq<char>,
    value: YamlTree,
)
    requires
        0 <= i < entries.len(),
        entries[i].0 == YamlTree::Text(key),
        forall|j: int| 0 <= j < i ==> (#[trigger] entries[j]).0 != YamlTree::Text(key),
    ensures
        put(entries, key, value) == entries.update(i, (YamlTree::Text(key), value)),
{
    slot_is_first(entries, key, i);
}

} // verus!
