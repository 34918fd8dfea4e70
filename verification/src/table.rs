//! A map from strings to values.

use crate::text;
use vstd::prelude::*;

verus! {

/// A map from strings to values, whose view is the mathematical map. No key
/// occurs twice.
#[derive(Debug)]
pub struct TextMap<V> {
    entries: Vec<(String, V)>,
}

spec fn keys_distinct<V>(entries: Seq<(String, V)>) -> bool {
    forall|i: int, j: int|
        0 <= i < j < entries.len() ==> (#[trigger] entries[i]).0@ != (#[trigger] entries[j]).0@
}

spec fn map_of<V>(entries: Seq<(String, V)>) -> Map<Seq<char>, V> {
    Map::new(
        |key: Seq<char>|
            exists|i: int| 0 <= i < entries.len() && (#[trigger] entries[i]).0@ == key,
        |key: Seq<char>|
            entries[choose|i: int| 0 <= i < entries.len() && (#[trigger] entries[i]).0@ == key].1,
    )
}

impl<V> View for TextMap<V> {
    type V = Map<Seq<char>, V>;

    closed spec fn view(&self) -> Map<Seq<char>, V> {
        map_of(self.entries@)
    }
}

impl<V> TextMap<V> {
    #[verifier::type_invariant]
    spec fn well_formed(self) -> bool {
        keys_distinct(self.entries@)
    }

    /// The keys, in the order in which the map is walked.
    pub closed spec fn order(&self) -> Seq<Seq<char>> {
        self.entries@.map_values(|entry: (String, V)| entry.0@)
    }

    /// The empty map.
    pub fn new() -> (r: Self)
        ensures
            r@ == Map::<Seq<char>, V>::empty(),
    {
        let r = TextMap { entries: Vec::new() };
        assert(r@ =~= Map::<Seq<char>, V>::empty());
        r
    }

    /// The number of keys. The walking order lists every key, and each once.
    pub fn len(&self) -> (r: usize)
        ensures
            r == self.order().len(),
            self.order().no_duplicates(),
            forall|key: Seq<char>| #[trigger]
                self@.dom().contains(key) == self.order().contains(key),
            r == self@.dom().len(),
    {
        proof {
            use_type_invariant(self);
            assert forall|key: Seq<char>| #[trigger]
                self@.dom().contains(key) == self.order().contains(key) by {
                if self@.dom().contains(key) {
                    let i = choose|i: int|
                        0 <= i < self.entries@.len() && (#[trigger] self.entries@[i]).0@ == key;
                    assert(self.order()[i] == key);
                }
                if self.order().contains(key) {
                    let i = choose|i: int| 0 <= i < self.order().len() && self.order()[i] == key;
                    assert(self.entries@[i].0@ == key);
                }
            }
            self.order().unique_seq_to_set();
            assert(self@.dom() =~= self.order().to_set());
        }
        self.entries.len()
    }

    /// Whether there is no key.
    pub fn is_empty(&self) -> (r: bool)
        ensures
            r == (self@ == Map::<Seq<char>, V>::empty()),
    {
        if self.entries.len() == 0 {
            assert(self@ =~= Map::<Seq<char>, V>::empty());
            true
        } else {
            assert(self@.dom().contains(self.entries@[0].0@));
            false
        }
    }

    /// The key at a place of the walking order.
    pub fn key_at(&self, i: usize) -> (r: &String)
        requires
            i < self.order().len(),
        ensures
            r@ == self.order()[i as int],
            self@.dom().contains(r@),
    {
        assert(self.entries@[i as int].0@ == self.order()[i as int]);
        &self.entries[i].0
    }

    /// The value at a place of the walking order.
    pub fn value_at(&self, i: usize) -> (r: &V)
        requires
            i < self.order().len(),
        ensures
            self@.dom().contains(self.order()[i as int]),
            *r == self@[self.order()[i as int]],
    {
        proof {
            use_type_invariant(self);
            assert(self.entries@[i as int].0@ == self.order()[i as int]);
        }
        &self.entries[i].1
    }

    fn find(&self, key: &str) -> (r: Option<usize>)
        ensures
            match r {
                Some(i) => i < self.entries@.len() && self.entries@[i as int].0@ == key@,
                None => forall|i: int|
                    0 <= i < self.entries@.len() ==> (#[trigger] self.entries@[i]).0@ != key@,
            },
    {
        let mut i: usize = 0;
        while i < self.entries.len()
            invariant
                i <= self.entries@.len(),
                forall|j: int| 0 <= j < i ==> (#[trigger] self.entries@[j]).0@ != key@,
            decreases self.entries@.len() - i,
        {
            if text::same_text(&self.entries[i].0, key) {
                return Some(i);
            }
            i = i + 1;
        }
        None
    }

    /// The value under a key.
    pub fn get(&self, key: &str) -> (r: Option<&V>)
        ensures
            match r {
                Some(value) => self@.dom().contains(key@) && *value == self@[key@],
                None => !self@.dom().contains(key@),
            },
    {
        proof {
            use_type_invariant(self);
        }
        match self.find(key) {
            Some(i) => Some(&self.entries[i].1),
            None => None,
        }
    }

    /// Whether a key has a value.
    pub fn contains_key(&self, key: &str) -> (r: bool)
        ensures
            r == self@.dom().contains(key@),
    {
        self.get(key).is_some()
    }

    /// Puts a value under a key, and gives back the value that was there.
    pub fn insert(&mut self, key: String, value: V) -> (r: Option<V>)
        ensures
            final(self)@ == old(self)@.insert(key@, value),
            r == (if old(self)@.dom().contains(key@) {
                Some(old(self)@[key@])
            } else {
                None
            }),
    {
        let r = self.remove(&key);
        let ghost between = self@;
        let mut entries: Vec<(String, V)> = Vec::new();
        proof {
            use_type_invariant(&*self);
        }
        std::mem::swap(&mut entries, &mut self.entries);
        let ghost kept = entries@;
        assert(map_of(kept) == between);
        entries.push((key, value));
        proof {
            assert forall|i: int, j: int| 0 <= i < j < entries@.len() implies (
            #[trigger] entries@[i]).0@ != (#[trigger] entries@[j]).0@ by {
                if j == kept.len() {
                    assert(map_of(kept).dom().contains(kept[i].0@));
                }
            }
            map_of_push(kept, (key, value));
        }
        self.entries = entries;
        assert(self@ =~= old(self)@.insert(key@, value));
        r
    }

    /// Removes a key, and gives back the value that was there.
    pub fn remove(&mut self, key: &str) -> (r: Option<V>)
        ensures
            final(self)@ == old(self)@.remove(key@),
            r == (if old(self)@.dom().contains(key@) {
                Some(old(self)@[key@])
            } else {
                None
            }),
    {
        proof {
            use_type_invariant(&*self);
        }
        match self.find(key) {
            Some(i) => {
                let mut entries: Vec<(String, V)> = Vec::new();
                std::mem::swap(&mut entries, &mut self.entries);
                let ghost all = entries@;
                let (_, value) = entries.remove(i);
                proof {
                    assert(entries@ =~= all.remove(i as int));
                    map_of_remove(all, i as int);
                }
                self.entries = entries;
                Some(value)
            },
            None => {
                assert(self@.remove(key@) =~= self@);
                None
            },
        }
    }
}

impl<V: Clone> Clone for TextMap<V> {
    /// A map with the same keys, each with a clone of its value.
    fn clone(&self) -> (r: Self)
        ensures
            r@.dom() == self@.dom(),
            forall|key: Seq<char>| #[trigger]
                r@.dom().contains(key) ==> cloned::<V>(self@[key], r@[key]),
    {
        let mut entries: Vec<(String, V)> = Vec::new();
        let mut i: usize = 0;
        while i < self.entries.len()
            invariant
                i <= self.entries@.len(),
                entries@.len() == i,
                forall|j: int|
                    0 <= j < i ==> (#[trigger] entries@[j]).0@ == self.entries@[j].0@ && cloned::<V>(
                        self.entries@[j].1,
                        entries@[j].1,
                    ),
            decreases self.entries@.len() - i,
        {
            entries.push((self.entries[i].0.clone(), self.entries[i].1.clone()));
            i = i + 1;
        }
        proof {
            use_type_invariant(self);
        }
        let ghost copied = entries@;
        let r = TextMap { entries };
        proof {
            assert forall|key: Seq<char>| r@.dom().contains(key) == self@.dom().contains(key) by {
                if r@.dom().contains(key) {
                    let j = choose|j: int| 0 <= j < copied.len() && (#[trigger] copied[j]).0@ == key;
                    assert(self.entries@[j].0@ == key);
                }
                if self@.dom().contains(key) {
                    let j = choose|j: int|
                        0 <= j < self.entries@.len() && (#[trigger] self.entries@[j]).0@ == key;
                    assert(copied[j].0@ == key);
                }
            }
            assert(r@.dom() =~= self@.dom());
            assert forall|key: Seq<char>| #[trigger] r@.dom().contains(key) implies cloned::<V>(
                self@[key],
                r@[key],
            ) by {
                let j = choose|j: int| 0 <= j < copied.len() && (#[trigger] copied[j]).0@ == key;
                assert(self.entries@[j].0@ == key);
                let k = choose|k: int|
                    0 <= k < self.entries@.len() && (#[trigger] self.entries@[k]).0@ == key;
                assert(j == k);
            }
        }
        r
    }
}

proof fn map_of_push<V>(entries: Seq<(String, V)>, entry: (String, V))
    requires
        keys_distinct(entries.push(entry)),
    ensures
        map_of(entries.push(entry)) == map_of(entries).insert(entry.0@, entry.1),
{
    let more = entries.push(entry);
    assert(more[entries.len() as int] == entry);
    assert forall|key: Seq<char>| map_of(more).dom().contains(key) == map_of(entries).insert(
        entry.0@,
        entry.1,
    ).dom().contains(key) by {
        if map_of(entries).dom().contains(key) {
            let i = choose|i: int| 0 <= i < entries.len() && (#[trigger] entries[i]).0@ == key;
            assert(more[i].0@ == key);
        }
        if map_of(more).dom().contains(key) && key != entry.0@ {
            let i = choose|i: int| 0 <= i < more.len() && (#[trigger] more[i]).0@ == key;
            assert(entries[i].0@ == key);
        }
    }
    assert forall|key: Seq<char>| map_of(more).dom().contains(key) implies map_of(more)[key]
        == map_of(entries).insert(entry.0@, entry.1)[key] by {
        if key != entry.0@ {
            let i = choose|i: int| 0 <= i < more.len() && (#[trigger] more[i]).0@ == key;
            assert(entries[i].0@ == key);
            let k = choose|k: int| 0 <= k < entries.len() && (#[trigger] entries[k]).0@ == key;
            assert(more[k].0@ == key);
            assert(i == k);
        }
    }
    assert(map_of(more) =~= map_of(entries).insert(entry.0@, entry.1));
}

proof fn map_of_remove<V>(entries: Seq<(String, V)>, at: int)
    requires
        keys_distinct(entries),
        0 <= at < entries.len(),
    ensures
        keys_distinct(entries.remove(at)),
        map_of(entries.remove(at)) == map_of(entries).remove(entries[at].0@),
        map_of(entries)[entries[at].0@] == entries[at].1,
{
    let fewer = entries.remove(at);
    assert forall|i: int, j: int| 0 <= i < j < fewer.len() implies (#[trigger] fewer[i]).0@ != (
    #[trigger] fewer[j]).0@ by {
        let a = if i < at {
            i
        } else {
            i + 1
        };
        let b = if j < at {
            j
        } else {
            j + 1
        };
        assert(fewer[i] == entries[a] && fewer[j] == entries[b]);
    }
    assert forall|key: Seq<char>| map_of(fewer).dom().contains(key) == map_of(entries).remove(
        entries[at].0@,
    ).dom().contains(key) by {
        if map_of(fewer).dom().contains(key) {
            let i = choose|i: int| 0 <= i < fewer.len() && (#[trigger] fewer[i]).0@ == key;
            let a = if i < at {
                i
            } else {
                i + 1
            };
            assert(entries[a].0@ == key);
        }
        if map_of(entries).dom().contains(key) && key != entries[at].0@ {
            let i = choose|i: int| 0 <= i < entries.len() && (#[trigger] entries[i]).0@ == key;
            let a = if i < at {
                i
            } else {
                i - 1
            };
            assert(fewer[a].0@ == key);
        }
    }
    assert forall|key: Seq<char>| map_of(fewer).dom().contains(key) implies map_of(fewer)[key]
        == map_of(entries).remove(entries[at].0@)[key] by {
        let i = choose|i: int| 0 <= i < fewer.len() && (#[trigger] fewer[i]).0@ == key;
        let a = if i < at {
            i
        } else {
            i + 1
        };
        assert(entries[a].0@ == key);
        let k = choose|k: int| 0 <= k < entries.len() && (#[trigger] entries[k]).0@ == key;
        assert(a == k);
    }
    assert(map_of(fewer) =~= map_of(entries).remove(entries[at].0@));
}

} // verus!
