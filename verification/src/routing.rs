//! Which loop a message is for, and where that loop's events are kept.

use crate::place::Location;
use crate::{place, text};
use std::path::PathBuf;
use vstd::prelude::*;

verus! {

/// The loop that messages without routing go to.
pub const MAIN_LOOP: &'static str = "main";

/// The directory of a loop's own files.
pub const RALPH_DIR: &'static str = ".ralph";

/// The directory of the loops that work in a tree of their own.
pub const WORKTREES_DIR: &'static str = ".worktrees";

/// The file that names the current events file of a loop.
pub const MARKER_FILE: &'static str = "current-events";

/// The events file of a loop that has no marker.
pub const EVENTS_FILE: &'static str = "events.jsonl";

/// The loop that a text names by an `@loop-id` prefix.
pub open spec fn prefix_loop(message: Seq<char>) -> Option<Seq<char>> {
    if message.len() > 0 && message[0] == '@' {
        text::word_of(message.skip(1))
    } else {
        None
    }
}

/// The loop that a message is for: the loop that asked the question it replies
/// to, else the loop that its prefix names, else the main loop.
pub open spec fn target_loop(replied: Option<Seq<char>>, message: Seq<char>) -> Seq<char> {
    match replied {
        Some(loop_id) => loop_id,
        None => match prefix_loop(message) {
            Some(loop_id) => loop_id,
            None => MAIN_LOOP@,
        },
    }
}

/// The loop that a message is for, from the loop that its reply or thread
/// belongs to and from its text.
pub fn route(replied: Option<String>, message: &str) -> (r: String)
    ensures
        r@ == target_loop(
            match replied {
                Some(loop_id) => Some(loop_id@),
                None => None,
            },
            message@,
        ),
{
    match replied {
        Some(loop_id) => loop_id,
        None => {
            if text::starts_with_char(message, '@') {
                match text::first_word_from(message, 1) {
                    Some(word) => String::from_str(word),
                    None => String::from_str(MAIN_LOOP),
                }
            } else {
                String::from_str(MAIN_LOOP)
            }
        },
    }
}

/// The parts below the workspace root that lead to a loop's tree.
pub open spec fn tree_parts(loop_id: Seq<char>) -> Seq<Seq<char>> {
    if loop_id == MAIN_LOOP@ {
        Seq::empty()
    } else {
        seq![WORKTREES_DIR@, loop_id]
    }
}

/// The parts below the workspace root that lead to a loop's marker file.
pub open spec fn marker_parts(loop_id: Seq<char>) -> Seq<Seq<char>> {
    tree_parts(loop_id) + seq![RALPH_DIR@, MARKER_FILE@]
}

/// The parts below the workspace root that lead to a loop's events file: the
/// file that the marker names, or the usual one where there is no marker or the
/// marker is blank.
pub open spec fn events_parts(loop_id: Seq<char>, marker: Option<Seq<char>>) -> Seq<Seq<char>> {
    match marker {
        Some(contents) if text::trimmed(contents).len() > 0 => tree_parts(loop_id) + seq![
            text::trimmed(contents),
        ],
        _ => tree_parts(loop_id) + seq![RALPH_DIR@, EVENTS_FILE@],
    }
}

fn loop_tree(root: &PathBuf, loop_id: &str) -> (r: Location)
    ensures
        r.base == *root,
        r.part_texts() == tree_parts(loop_id@),
{
    let mut parts: Vec<String> = Vec::new();
    if !text::same_text(loop_id, MAIN_LOOP) {
        parts.push(String::from_str(WORKTREES_DIR));
        parts.push(String::from_str(loop_id));
    }
    assert(place::texts(parts@) =~= tree_parts(loop_id@));
    Location { base: root.clone(), parts }
}

fn extend(place: Location, first: &str, second: &str) -> (r: Location)
    ensures
        r.base == place.base,
        r.part_texts() == place.part_texts() + seq![first@, second@],
{
    let mut out = place;
    out.parts.push(String::from_str(first));
    out.parts.push(String::from_str(second));
    assert(out.part_texts() =~= place.part_texts() + seq![first@, second@]);
    out
}

/// The place of a loop's marker file.
pub fn marker_location(root: &PathBuf, loop_id: &str) -> (r: Location)
    ensures
        r.base == *root,
        r.part_texts() == marker_parts(loop_id@),
{
    extend(loop_tree(root, loop_id), RALPH_DIR, MARKER_FILE)
}

/// The place of a loop's events file, given the contents of its marker file if
/// that file can be read.
pub fn events_location(root: &PathBuf, loop_id: &str, marker: Option<&str>) -> (r: Location)
    ensures
        r.base == *root,
        r.part_texts() == events_parts(
            loop_id@,
            match marker {
                Some(contents) => Some(contents@),
                None => None,
            },
        ),
{
    let tree = loop_tree(root, loop_id);
    match marker {
        Some(contents) => {
            let relative = text::trim(contents);
            if relative.unicode_len() > 0 {
                let mut out = tree;
                out.parts.push(String::from_str(relative));
                assert(out.part_texts() =~= tree_parts(loop_id@) + seq![relative@]);
                return out;
            }
        },
        None => {},
    }
    extend(tree, RALPH_DIR, EVENTS_FILE)
}

/// A reply to a pending question goes to the loop that asked, whatever the text
/// says; without one an `@loop-id` prefix decides; and a message with neither
/// goes to the main loop.
pub proof fn routing_priority(replied: Option<Seq<char>>, message: Seq<char>)
    ensures
        replied matches Some(asker) ==> target_loop(replied, message) == asker,
        replied is None && prefix_loop(message) is Some ==> target_loop(replied, message)
            == prefix_loop(message)->0,
        replied is None && prefix_loop(message) is None ==> target_loop(replied, message)
            == MAIN_LOOP@,
{
}

/// Two loops without markers never keep their events under the same parts.
pub proof fn loops_have_their_own_events(a: Seq<char>, b: Seq<char>)
    requires
        a != b,
    ensures
        events_parts(a, None) != events_parts(b, None),
{
    let x = events_parts(a, None);
    let y = events_parts(b, None);
    if a != MAIN_LOOP@ && b != MAIN_LOOP@ {
        assert(x[1] == a);
        assert(y[1] == b);
    } else {
        assert(x.len() != y.len());
    }
}

/// A message without a reply that is `@`, a loop ID without whitespace and then
/// nothing, or anything that begins with whitespace, is for exactly that loop. Blanks
/// between the `@` and the loop ID do not matter. A message that is `@` and blanks, or
/// that does not begin with `@`, is for the main loop. A reply is for the loop that
/// asked, whatever it says.
pub proof fn prefixes_name_their_loop(
    blanks: Seq<char>,
    loop_id: Seq<char>,
    rest: Seq<char>,
    other: Seq<char>,
    asker: Seq<char>,
)
    requires
        text::is_blank(blanks),
        text::is_solid(loop_id),
        loop_id.len() > 0,
        rest.len() > 0 ==> text::is_whitespace(rest[0]),
        other.len() > 0 ==> other[0] != '@',
    ensures
        target_loop(None, seq!['@'] + loop_id + rest) == loop_id,
        target_loop(None, seq!['@'] + blanks + loop_id + rest) == loop_id,
        target_loop(None, seq!['@'] + blanks) == "main"@,
        target_loop(None, other) == "main"@,
        target_loop(Some(asker), other) == asker,
        target_loop(Some(asker), seq!['@'] + loop_id + rest) == asker,
{
    let none = Seq::<char>::empty();
    text::first_word_is_found(none, loop_id, rest);
    assert((seq!['@'] + loop_id + rest).skip(1) =~= none + loop_id + rest);
    text::first_word_is_found(blanks, loop_id, rest);
    assert((seq!['@'] + blanks + loop_id + rest).skip(1) =~= blanks + loop_id + rest);
    text::first_word_is_found(blanks, none, none);
    assert((seq!['@'] + blanks).skip(1) =~= blanks + none + none);
}

/// The main loop keeps its files at the workspace root and any other loop in a tree
/// of its own. The marker file is `.ralph/current-events` there. Without words in it
/// the events file is `.ralph/events.jsonl`, else it is where the words say.
pub proof fn where_events_are_kept(
    loop_id: Seq<char>,
    before: Seq<char>,
    words: Seq<char>,
    after: Seq<char>,
)
    requires
        text::is_blank(before),
        text::is_blank(after),
        words.len() > 0,
        !text::is_whitespace(words[0]),
        !text::is_whitespace(words.last()),
    ensures
        marker_parts("main"@) == seq![".ralph"@, "current-events"@],
        events_parts("main"@, None) == seq![".ralph"@, "events.jsonl"@],
        events_parts("main"@, Some(before)) == seq![".ralph"@, "events.jsonl"@],
        events_parts("main"@, Some(before + words + after)) == seq![words],
        loop_id != "main"@ ==> {
            let tree = seq![".worktrees"@, loop_id];
            &&& marker_parts(loop_id) == tree + seq![".ralph"@, "current-events"@]
            &&& events_parts(loop_id, None) == tree + seq![".ralph"@, "events.jsonl"@]
            &&& events_parts(loop_id, Some(before)) == tree + seq![".ralph"@, "events.jsonl"@]
            &&& events_parts(loop_id, Some(before + words + after)) == tree + seq![words]
        },
{
    let none = Seq::<char>::empty();
    text::trimming_leaves_the_words(before, words, after);
    text::trimming_leaves_the_words(before, none, none);
    assert(before + none + none =~= before);
}

} // verus!
