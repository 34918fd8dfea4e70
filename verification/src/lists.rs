//! Facts about filtered lists, and copies of optional text.

use vstd::prelude::*;

verus! {

/// How filtering a prefix goes on with the next element.
pub proof fn filter_step<T>(s: Seq<T>, keep: spec_fn(T) -> bool, i: int)
    requires
        0 <= i < s.len(),
    ensures
        s.take(i + 1).filter(keep) == (if keep(s[i]) {
            s.take(i).filter(keep).push(s[i])
        } else {
            s.take(i).filter(keep)
        }),
{
    assert(s.take(i + 1) == s.take(i).push(s[i]));
    s.take(i).lemma_filter_push(s[i], keep);
}

/// Filtering by the same test a second time changes nothing.
pub proof fn filter_twice<T>(s: Seq<T>, keep: spec_fn(T) -> bool)
    ensures
        s.filter(keep).filter(keep) == s.filter(keep),
    decreases s.len(),
{
    reveal(Seq::filter);
    if s.len() > 0 {
        filter_twice(s.drop_last(), keep);
        let kept = s.drop_last().filter(keep);
        if keep(s.last()) {
            kept.lemma_filter_push(s.last(), keep);
        }
    }
}

/// A filtered list holds exactly the elements that pass the test.
pub proof fn filter_contents<T>(s: Seq<T>, keep: spec_fn(T) -> bool)
    ensures
        forall|x: T| #[trigger] s.filter(keep).contains(x) <==> s.contains(x) && keep(x),
{
    let kept = s.filter(keep);
    assert forall|x: T| #[trigger] kept.contains(x) <==> s.contains(x) && keep(x) by {
        if kept.contains(x) {
            s.lemma_filter_contains_rev(keep, x);
            let i = choose|i: int| 0 <= i < kept.len() && kept[i] == x;
            s.lemma_filter_pred(keep, i);
        }
        if s.contains(x) && keep(x) {
            let i = choose|i: int| 0 <= i < s.len() && s[i] == x;
            s.lemma_filter_contains(keep, i);
        }
    }
}

/// What a list holds after one more element.
pub proof fn contains_after_push<T>(s: Seq<T>, x: T, other: T)
    ensures
        s.push(x).contains(other) <==> s.contains(other) || other == x,
{
    let after = s.push(x);
    if after.contains(other) {
        let i = choose|i: int| 0 <= i < after.len() && after[i] == other;
        assert(i < s.len() ==> s[i] == other);
    }
    if s.contains(other) {
        let i = choose|i: int| 0 <= i < s.len() && s[i] == other;
        assert(after[i] == other);
    }
    assert(after[s.len() as int] == x);
}

/// The characters of optional text.
pub open spec fn text_in(value: Option<String>) -> Option<Seq<char>> {
    match value {
        Some(s) => Some(s@),
        None => None,
    }
}

/// The characters of optional borrowed text.
pub open spec fn chars_in(value: Option<&str>) -> Option<Seq<char>> {
    match value {
        Some(s) => Some(s@),
        None => None,
    }
}

/// A copy of optional text.
pub fn copy_text(value: &Option<String>) -> (r: Option<String>)
    ensures
        r == *value,
{
    match value {
        Some(s) => Some(s.clone()),
        None => None,
    }
}

/// Optional text, borrowed.
pub fn borrow_text(value: &Option<String>) -> (r: Option<&str>)
    ensures
        chars_in(r) == text_in(*value),
{
    match value {
        Some(s) => Some(s.as_str()),
        None => None,
    }
}

/// Optional borrowed text, as a string of its own.
pub fn own_text(value: Option<&str>) -> (r: Option<String>)
    ensures
        text_in(r) == chars_in(value),
{
    match value {
        Some(s) => Some(String::from_str(s)),
        None => None,
    }
}

/// Filtering two lists one after the other comes to the same as filtering them at once,
/// and a list of one element is kept or dropped as a whole.
pub proof fn filter_adds<T>(a: Seq<T>, b: Seq<T>, one: T, keep: spec_fn(T) -> bool)
    ensures
        (a + b).filter(keep) == a.filter(keep) + b.filter(keep),
        seq![one].filter(keep) == (if keep(one) {
            seq![one]
        } else {
            Seq::empty()
        }),
        Seq::<T>::empty().filter(keep) == Seq::<T>::empty(),
    decreases b.len(),
{
    reveal(Seq::filter);
    let none = Seq::<T>::empty();
    assert(none.filter(keep) =~= none);
    assert(seq![one].drop_last() =~= none);
    assert(seq![one].last() == one);
    if keep(one) {
        assert(seq![one].filter(keep) =~= seq![one]);
    }
    if b.len() == 0 {
        assert(a + b =~= a);
        assert(a.filter(keep) + none =~= a.filter(keep));
    } else {
        filter_adds(a, b.drop_last(), one, keep);
        assert((a + b).drop_last() =~= a + b.drop_last());
        assert((a + b).last() == b.last());
        if keep(b.last()) {
            assert((a + b).filter(keep) =~= a.filter(keep) + b.filter(keep));
        }
    }
}

} // verus!
