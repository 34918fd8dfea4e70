//! Places in the file system.

use std::path::PathBuf;
use vstd::prelude::*;

verus! {

/// `std::path::PathBuf`, carried unopened.
#[verifier::external_type_specification]
#[verifier::external_body]
pub struct ExPathBuf(PathBuf);

/// `PathBuf::clone` gives an equal path.
pub assume_specification[ <PathBuf as Clone>::clone ](path: &PathBuf) -> (r: PathBuf)
    ensures
        r == *path,
;

/// A file: a base path and the parts that are joined onto it one after the
/// other, each by the rules of the platform.
#[derive(Debug, PartialEq, Eq)]
pub struct Location {
    /// The path to start from.
    pub base: PathBuf,
    /// The parts to join onto it, in order.
    pub parts: Vec<String>,
}

/// The characters of each string in a list.
pub open spec fn texts(list: Seq<String>) -> Seq<Seq<char>> {
    list.map_values(|s: String| s@)
}

impl Location {
    /// The parts as sequences of characters.
    pub open spec fn part_texts(&self) -> Seq<Seq<char>> {
        texts(self.parts@)
    }

    /// The place one part below a base path.
    pub fn under(base: &PathBuf, part: &str) -> (r: Location)
        ensures
            r.base == *base,
            r.part_texts() == seq![part@],
    {
        let mut parts: Vec<String> = Vec::new();
        parts.push(String::from_str(part));
        let r = Location { base: base.clone(), parts };
        assert(r.part_texts() =~= seq![part@]);
        r
    }
}

impl Clone for Location {
    fn clone(&self) -> (r: Self)
        ensures
            r.base == self.base,
            r.part_texts() == self.part_texts(),
    {
        let mut parts: Vec<String> = Vec::new();
        let mut i: usize = 0;
        while i < self.parts.len()
            invariant
                i <= self.parts@.len(),
                texts(parts@) == self.part_texts().take(i as int),
            decreases self.parts@.len() - i,
        {
            let ghost before = parts@;
            parts.push(self.parts[i].clone());
            assert(texts(parts@) =~= texts(before).push(self.parts@[i as int]@));
            assert(self.part_texts().take(i + 1) =~= self.part_texts().take(i as int).push(
                self.parts@[i as int]@,
            ));
            i = i + 1;
        }
        assert(self.part_texts().take(i as int) =~= self.part_texts());
        Location { base: self.base.clone(), parts }
    }
}

} // verus!
