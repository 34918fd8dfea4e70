//! The lines that the bot commands print.

use crate::text;
use vstd::prelude::*;

verus! {

/// A line that reports success.
pub open spec fn success(use_colors: bool, message: Seq<char>) -> Seq<char> {
    if use_colors {
        "  \x1b[32m\u{2713}\x1b[0m "@ + message + "\n"@
    } else {
        "  OK: "@ + message + "\n"@
    }
}

/// A line that reports an error.
pub open spec fn failure(use_colors: bool, message: Seq<char>) -> Seq<char> {
    if use_colors {
        "  \x1b[31m\u{2717}\x1b[0m "@ + message + "\n"@
    } else {
        "  ERROR: "@ + message + "\n"@
    }
}

/// A line that warns.
pub open spec fn warning(use_colors: bool, message: Seq<char>) -> Seq<char> {
    if use_colors {
        "  \x1b[33m!\x1b[0m "@ + message + "\n"@
    } else {
        "  WARN: "@ + message + "\n"@
    }
}

/// A line that reports how things stand.
pub open spec fn status(use_colors: bool, message: Seq<char>) -> Seq<char> {
    if use_colors {
        "  \x1b[2m-\x1b[0m "@ + message + "\n"@
    } else {
        "  "@ + message + "\n"@
    }
}

/// A title with its underline, between empty lines.
pub open spec fn heading(use_colors: bool, title: Seq<char>, rule: Seq<char>) -> Seq<char> {
    if use_colors {
        "\n\x1b[1m"@ + title + "\x1b[0m\n\x1b[1m"@ + rule + "\x1b[0m\n\n"@
    } else {
        "\n"@ + title + "\n"@ + rule + "\n\n"@
    }
}

/// The last words of a setup.
pub open spec fn setup_complete(use_colors: bool, backend: Seq<char>) -> Seq<char> {
    (if use_colors {
        "\n\x1b[32mSetup complete!\x1b[0m Run `ralph run` to start with "@
    } else {
        "\nSetup complete! Run `ralph run` to start with "@
    }) + backend + " integration.\n"@
}

/// The headline of the daemon command.
pub open spec fn daemon_headline(use_colors: bool, backend: Seq<char>) -> Seq<char> {
    (if use_colors {
        "\x1b[1mRalph Daemon\x1b[0m ("@
    } else {
        "Ralph Daemon ("@
    }) + backend + ")\n"@
}

/// Adds a line that reports success.
pub fn put_success(out: &mut String, use_colors: bool, message: &str)
    ensures
        final(out)@ == old(out)@ + success(use_colors, message@),
{
    let line: String = if use_colors {
        text::cat3("  \x1b[32m\u{2713}\x1b[0m ", message, "\n")
    } else {
        text::cat3("  OK: ", message, "\n")
    };
    out.append(&line);
}

/// Adds a line that reports an error.
pub fn put_failure(out: &mut String, use_colors: bool, message: &str)
    ensures
        final(out)@ == old(out)@ + failure(use_colors, message@),
{
    let line: String = if use_colors {
        text::cat3("  \x1b[31m\u{2717}\x1b[0m ", message, "\n")
    } else {
        text::cat3("  ERROR: ", message, "\n")
    };
    out.append(&line);
}

/// Adds a line that warns.
pub fn put_warning(out: &mut String, use_colors: bool, message: &str)
    ensures
        final(out)@ == old(out)@ + warning(use_colors, message@),
{
    let line: String = if use_colors {
        text::cat3("  \x1b[33m!\x1b[0m ", message, "\n")
    } else {
        text::cat3("  WARN: ", message, "\n")
    };
    out.append(&line);
}

/// Adds a line that reports how things stand.
pub fn put_status(out: &mut String, use_colors: bool, message: &str)
    ensures
        final(out)@ == old(out)@ + status(use_colors, message@),
{
    let line: String = if use_colors {
        text::cat3("  \x1b[2m-\x1b[0m ", message, "\n")
    } else {
        text::cat3("  ", message, "\n")
    };
    out.append(&line);
}

/// A title with its underline, between empty lines.
pub fn heading_text(use_colors: bool, title: &str, rule: &str) -> (r: String)
    ensures
        r@ == heading(use_colors, title@, rule@),
{
    if use_colors {
        text::cat5("\n\x1b[1m", title, "\x1b[0m\n\x1b[1m", rule, "\x1b[0m\n\n")
    } else {
        text::cat5("\n", title, "\n", rule, "\n\n")
    }
}

/// Adds the last words of a setup.
pub fn put_setup_complete(out: &mut String, use_colors: bool, backend: &str)
    ensures
        final(out)@ == old(out)@ + setup_complete(use_colors, backend@),
{
    let start: &'static str = if use_colors {
        "\n\x1b[32mSetup complete!\x1b[0m Run `ralph run` to start with "
    } else {
        "\nSetup complete! Run `ralph run` to start with "
    };
    out.append(&text::cat3(start, backend, " integration.\n"));
}

/// The headline of the daemon command.
pub fn daemon_headline_text(use_colors: bool, backend: &str) -> (r: String)
    ensures
        r@ == daemon_headline(use_colors, backend@),
{
    let start: &'static str = if use_colors {
        "\x1b[1mRalph Daemon\x1b[0m ("
    } else {
        "Ralph Daemon ("
    };
    text::cat3(start, backend, ")\n")
}

// ── Laws ────────────────────────────────────────────────────────────────

/// Words behind the mark of success.
pub open spec fn ok_line(use_colors: bool, words: Seq<char>) -> Seq<char> {
    (if use_colors {
        "  \x1b[32m\u{2713}\x1b[0m "@
    } else {
        "  OK: "@
    }) + words
}

/// Words behind the mark of an error.
pub open spec fn error_line(use_colors: bool, words: Seq<char>) -> Seq<char> {
    (if use_colors {
        "  \x1b[31m\u{2717}\x1b[0m "@
    } else {
        "  ERROR: "@
    }) + words
}

/// Words behind the mark of a warning.
pub open spec fn warn_line(use_colors: bool, words: Seq<char>) -> Seq<char> {
    (if use_colors {
        "  \x1b[33m!\x1b[0m "@
    } else {
        "  WARN: "@
    }) + words
}

/// Words behind the mark of how things stand.
pub open spec fn info_line(use_colors: bool, words: Seq<char>) -> Seq<char> {
    (if use_colors {
        "  \x1b[2m-\x1b[0m "@
    } else {
        "  "@
    }) + words
}

/// The kinds of marks.
spec fn mark(use_colors: bool, kind: int) -> Seq<char> {
    if kind == 0 {
        ok_line(use_colors, Seq::empty())
    } else if kind == 1 {
        error_line(use_colors, Seq::empty())
    } else if kind == 2 {
        warn_line(use_colors, Seq::empty())
    } else if kind == 3 {
        info_line(use_colors, Seq::empty())
    } else {
        Seq::empty()
    }
}

/// Words behind a mark of a kind: success, error, warning, how things stand, or none.
pub closed spec fn marked(use_colors: bool, kind: int, words: Seq<char>) -> Seq<char> {
    mark(use_colors, kind) + words
}

/// What the kinds of marks are.
pub proof fn marks(use_colors: bool, words: Seq<char>)
    ensures
        marked(use_colors, 0, words) == ok_line(use_colors, words),
        marked(use_colors, 1, words) == error_line(use_colors, words),
        marked(use_colors, 2, words) == warn_line(use_colors, words),
        marked(use_colors, 3, words) == info_line(use_colors, words),
        marked(use_colors, 4, words) == words,
{
    assert(marked(use_colors, 0, words) =~= ok_line(use_colors, words));
    assert(marked(use_colors, 1, words) =~= error_line(use_colors, words));
    assert(marked(use_colors, 2, words) =~= warn_line(use_colors, words));
    assert(marked(use_colors, 3, words) =~= info_line(use_colors, words));
    assert(marked(use_colors, 4, words) =~= words);
}

/// Marked lines.
pub open spec fn marked_lines(
    use_colors: bool,
    kinds: Seq<int>,
    words: Seq<Seq<char>>,
) -> Seq<Seq<char>> {
    Seq::new(kinds.len(), |i: int| marked(use_colors, kinds[i], words[i]))
}

/// One more marked line comes behind those before it.
pub proof fn marked_line_added(
    use_colors: bool,
    kinds: Seq<int>,
    words: Seq<Seq<char>>,
    kind: int,
    more: Seq<char>,
)
    requires
        kinds.len() == words.len(),
    ensures
        text::lined(marked_lines(use_colors, kinds.push(kind), words.push(more))) == text::lined(
            marked_lines(use_colors, kinds, words),
        ) + (marked(use_colors, kind, more) + "\n"@),
        kinds.push(kind).len() == words.push(more).len(),
{
    let before = marked_lines(use_colors, kinds, words);
    text::line_added(before, marked(use_colors, kind, more));
    assert(marked_lines(use_colors, kinds.push(kind), words.push(more)) =~= before.push(
        marked(use_colors, kind, more),
    ));
}

/// Words that begin otherwise than any mark does behind its blanks.
pub open spec fn is_plain(words: Seq<char>) -> bool {
    &&& words.len() >= 2
    &&& !(words[0] == 'O' && words[1] == 'K')
    &&& !(words[0] == 'E' && words[1] == 'R')
    &&& !(words[0] == 'W' && words[1] == 'A')
}

/// Whether two texts begin with the same two characters.
pub open spec fn begin_alike(a: Seq<char>, b: Seq<char>) -> bool {
    a.len() >= 2 && b.len() >= 2 && a[0] == b[0] && a[1] == b[1]
}

#[verifier::rlimit(50)]
#[verifier::spinoff_prover]
proof fn marks_tell_apart(use_colors: bool, k1: int, w1: Seq<char>, k2: int, w2: Seq<char>)
    requires
        0 <= k1 < 4,
        0 <= k2 < 4,
        is_plain(w1),
        is_plain(w2),
        k1 != k2 || !begin_alike(w1, w2),
    ensures
        marked(use_colors, k1, w1) != marked(use_colors, k2, w2),
{
    let a = marked(use_colors, k1, w1);
    let b = marked(use_colors, k2, w2);
    let n1 = mark(use_colors, k1).len() as int;
    if k1 == k2 {
        assert(a[n1] == w1[0] && a[n1 + 1] == w1[1]);
        assert(b[n1] == w2[0] && b[n1 + 1] == w2[1]);
    } else if use_colors {
        reveal_strlit("  \x1b[32m\u{2713}\x1b[0m ");
        reveal_strlit("  \x1b[31m\u{2717}\x1b[0m ");
        reveal_strlit("  \x1b[33m!\x1b[0m ");
        reveal_strlit("  \x1b[2m-\x1b[0m ");
        assert(a[5] != b[5] || a[4] != b[4]);
    } else {
        reveal_strlit("  OK: ");
        reveal_strlit("  ERROR: ");
        reveal_strlit("  WARN: ");
        reveal_strlit("  ");
        assert(a[2] != b[2] || a[3] != b[3]);
    }
}

proof fn marks_are_on_one_line(use_colors: bool, kind: int)
    ensures
        text::one_line(mark(use_colors, kind)),
{
    if use_colors {
        reveal_strlit("  \x1b[32m\u{2713}\x1b[0m ");
        reveal_strlit("  \x1b[31m\u{2717}\x1b[0m ");
        reveal_strlit("  \x1b[33m!\x1b[0m ");
        reveal_strlit("  \x1b[2m-\x1b[0m ");
    } else {
        reveal_strlit("  OK: ");
        reveal_strlit("  ERROR: ");
        reveal_strlit("  WARN: ");
        reveal_strlit("  ");
    }
}

/// Whether a text tells a fact by a line: it shows the line where the fact holds, and,
/// where nothing in the text breaks its lines, only there.
pub open spec fn tells(printed: Seq<char>, unbroken: bool, line: Seq<char>, fact: bool) -> bool {
    &&& fact ==> text::shows(printed, line)
    &&& unbroken && text::shows(printed, line) ==> fact
}

/// Whether each line of a report is blank or has plain words behind a mark.
pub open spec fn is_report(kinds: Seq<int>, words: Seq<Seq<char>>) -> bool {
    &&& kinds.len() == words.len()
    &&& forall|i: int|
        0 <= i < kinds.len() ==> (#[trigger] kinds[i] == 4 && words[i].len() == 0) || (0 <= kinds[i]
            < 4 && is_plain(words[i]))
}

/// A report tells by one of its lines, whose beginning no other line has, what kind of
/// line it is and what its words are.
pub proof fn lines_tell(
    use_colors: bool,
    kinds: Seq<int>,
    words: Seq<Seq<char>>,
    rest: Seq<char>,
    j: int,
    kind: int,
    line: Seq<char>,
    unbroken: bool,
)
    requires
        is_report(kinds, words),
        0 < j < kinds.len(),
        0 <= kind < 4,
        is_plain(line),
        forall|i: int| 0 <= i < kinds.len() && i != j ==> !begin_alike(#[trigger] words[i], line),
        unbroken ==> forall|i: int|
            0 <= i < words.len() ==> text::one_line(#[trigger] words[i]),
        unbroken ==> text::one_line(rest) && text::one_line(line),
    ensures
        tells(
            text::lined(marked_lines(use_colors, kinds, words)) + rest,
            unbroken,
            marked(use_colors, kind, line),
            kinds[j] == kind && words[j] == line,
        ),
{
    let lines = marked_lines(use_colors, kinds, words);
    let wanted = marked(use_colors, kind, line);
    let printed = text::lined(lines) + rest;
    text::lines_are_shown(lines, rest, j);
    if unbroken && text::shows(printed, wanted) {
        assert forall|i: int| 0 <= i < lines.len() implies text::one_line(#[trigger] lines[i]) by {
            marks_are_on_one_line(use_colors, kinds[i]);
            assert(text::one_line(words[i]));
            text::one_line_adds(mark(use_colors, kinds[i]), words[i]);
        }
        marks_are_on_one_line(use_colors, kind);
        text::one_line_adds(mark(use_colors, kind), line);
        text::only_lines_are_shown(lines, rest, wanted);
        let i = choose|i: int| 0 < i < lines.len() && #[trigger] lines[i] == wanted;
        assert(lines[i] == marked(use_colors, kinds[i], words[i]));
        assert(wanted.len() >= 2);
        assert(kinds[i] != 4);
        if kinds[i] != kind || !begin_alike(words[i], line) {
            marks_tell_apart(use_colors, kinds[i], words[i], kind, line);
        }
        assert(i == j);
        assert(words[j] =~= line) by {
            let m = mark(use_colors, kind);
            assert((m + words[j]).skip(m.len() as int) =~= words[j]);
            assert((m + line).skip(m.len() as int) =~= line);
        }
    }
}

/// A report without broken lines has as many lines as it was made of, and what comes
/// behind them.
pub proof fn lines_are_counted(
    use_colors: bool,
    kinds: Seq<int>,
    words: Seq<Seq<char>>,
    rest: Seq<char>,
)
    requires
        is_report(kinds, words),
        forall|i: int| 0 <= i < words.len() ==> text::one_line(#[trigger] words[i]),
        text::one_line(rest),
    ensures
        text::pieces(text::lined(marked_lines(use_colors, kinds, words)) + rest, '\n').len()
            == kinds.len() + 1,
{
    let lines = marked_lines(use_colors, kinds, words);
    assert forall|i: int| 0 <= i < lines.len() implies text::one_line(#[trigger] lines[i]) by {
        marks_are_on_one_line(use_colors, kinds[i]);
        assert(text::one_line(words[i]));
        text::one_line_adds(mark(use_colors, kinds[i]), words[i]);
    }
    text::pieces_of_lines(lines, rest);
}

/// A title stands on a line of its own with its rule on the next, both in bold where
/// there are colors, between blank lines. A setup ends with the name of its backend, and
/// the daemon begins with it.
pub proof fn titles_and_ends(use_colors: bool, title: Seq<char>, rule: Seq<char>, backend: Seq<char>)
    ensures
        !use_colors ==> heading(use_colors, title, rule) == "\n"@ + title + "\n"@ + rule + "\n\n"@,
        use_colors ==> heading(use_colors, title, rule) == "\n\x1b[1m"@ + title
            + "\x1b[0m\n\x1b[1m"@ + rule + "\x1b[0m\n\n"@,
        text::contains(
            setup_complete(use_colors, backend),
            " Run `ralph run` to start with "@ + backend + " integration.\n"@,
        ),
        text::contains(setup_complete(use_colors, backend), "Setup complete!"@),
        text::contains(daemon_headline(use_colors, backend), "Ralph Daemon"@),
        text::ends_with(daemon_headline(use_colors, backend), " ("@ + backend + ")\n"@),
{
    reveal_strlit("\n\x1b[32mSetup complete!\x1b[0m Run `ralph run` to start with ");
    reveal_strlit("\nSetup complete! Run `ralph run` to start with ");
    reveal_strlit(" Run `ralph run` to start with ");
    reveal_strlit("Setup complete!");
    reveal_strlit("\x1b[1mRalph Daemon\x1b[0m (");
    reveal_strlit("Ralph Daemon (");
    reveal_strlit("Ralph Daemon");
    reveal_strlit(" (");
    let setup = setup_complete(use_colors, backend);
    let start = if use_colors {
        "\n\x1b[32mSetup complete!\x1b[0m Run `ralph run` to start with "@
    } else {
        "\nSetup complete! Run `ralph run` to start with "@
    };
    let run = " Run `ralph run` to start with "@;
    let none = Seq::<char>::empty();
    let cut = start.take(start.len() - run.len());
    assert(start =~= cut + run);
    assert(setup =~= cut + (run + backend + " integration.\n"@) + none);
    text::contained(cut, run + backend + " integration.\n"@, none);
    let done = "Setup complete!"@;
    let at: int = if use_colors {
        6
    } else {
        1
    };
    assert(setup.subrange(at, at + done.len()) =~= done);
    assert(text::occurs_at(setup, done, at));
    let line = daemon_headline(use_colors, backend);
    let name = "Ralph Daemon"@;
    let from: int = if use_colors {
        4
    } else {
        0
    };
    assert(line.subrange(from, from + name.len()) =~= name);
    assert(text::occurs_at(line, name, from));
    let end = " ("@ + backend + ")\n"@;
    assert(line.skip(line.len() - end.len()) =~= end);
}

/// A heading contains its title and its rule.
pub proof fn titles_are_contained(use_colors: bool, title: Seq<char>, rule: Seq<char>)
    ensures
        text::contains(heading(use_colors, title, rule), title),
        text::contains(heading(use_colors, title, rule), rule),
{
    let (a, b, d) = if use_colors {
        ("\n\x1b[1m"@, "\x1b[0m\n\x1b[1m"@, "\x1b[0m\n\n"@)
    } else {
        ("\n"@, "\n"@, "\n\n"@)
    };
    text::in_sum4(a, title, b, rule);
    text::in_sum_within(a + title + b + rule, d, title);
    text::in_sum_within(a + title + b + rule, d, rule);
}

/// Each kind of line is its mark, the words and the end of the line.
pub proof fn lines_are_marked(use_colors: bool, words: Seq<char>, backend: Seq<char>)
    ensures
        success(use_colors, words) == ok_line(use_colors, words) + "\n"@,
        failure(use_colors, words) == error_line(use_colors, words) + "\n"@,
        warning(use_colors, words) == warn_line(use_colors, words) + "\n"@,
        status(use_colors, words) == info_line(use_colors, words) + "\n"@,
        setup_complete(false, backend) == "\nSetup complete! Run `ralph run` to start with "@
            + backend + " integration.\n"@,
        setup_complete(true, backend)
            == "\n\x1b[32mSetup complete!\x1b[0m Run `ralph run` to start with "@ + backend
            + " integration.\n"@,
        daemon_headline(false, backend) == "Ralph Daemon ("@ + backend + ")\n"@,
        daemon_headline(true, backend) == "\x1b[1mRalph Daemon\x1b[0m ("@ + backend + ")\n"@,
{
}

} // verus!
