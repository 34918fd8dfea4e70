//! Text operations on Unicode strings, stated over sequences of characters.

use vstd::prelude::*;
use vstd::string::*;

verus! {

broadcast use vstd::string::group_string_axioms;

// ── Characters ──────────────────────────────────────────────────────────

/// The characters with the Unicode `White_Space` property.
pub open spec fn is_whitespace(c: char) -> bool {
    ||| '\u{9}' <= c <= '\u{d}'
    ||| c == '\u{20}'
    ||| c == '\u{85}'
    ||| c == '\u{a0}'
    ||| c == '\u{1680}'
    ||| '\u{2000}' <= c <= '\u{200a}'
    ||| c == '\u{2028}'
    ||| c == '\u{2029}'
    ||| c == '\u{202f}'
    ||| c == '\u{205f}'
    ||| c == '\u{3000}'
}

/// Whether a character has the Unicode `White_Space` property.
pub fn is_white(c: char) -> (r: bool)
    ensures
        r == is_whitespace(c),
{
    ('\u{9}' <= c && c <= '\u{d}') || c == '\u{20}' || c == '\u{85}' || c == '\u{a0}' || c
        == '\u{1680}' || ('\u{2000}' <= c && c <= '\u{200a}') || c == '\u{2028}' || c == '\u{2029}'
        || c == '\u{202f}' || c == '\u{205f}' || c == '\u{3000}'
}

/// The characters of a string, in order.
pub fn to_chars(s: &str) -> (r: Vec<char>)
    ensures
        r@ == s@,
{
    let mut out: Vec<char> = Vec::new();
    for c in it: s.chars()
        invariant
            out@ == it.seq().take(it.index() as int),
            it.seq() == s@,
    {
        out.push(c);
    }
    out
}

// ── Trimming ────────────────────────────────────────────────────────────

/// What a trim strips: one given character, or any whitespace.
pub open spec fn strips(strip: Option<char>, c: char) -> bool {
    match strip {
        Some(x) => c == x,
        None => is_whitespace(c),
    }
}

/// `s` without its longest prefix of stripped characters.
pub open spec fn strip_front(s: Seq<char>, strip: Option<char>) -> Seq<char>
    decreases s.len(),
{
    if s.len() > 0 && strips(strip, s[0]) {
        strip_front(s.skip(1), strip)
    } else {
        s
    }
}

/// `s` without its longest suffix of stripped characters.
pub open spec fn strip_back(s: Seq<char>, strip: Option<char>) -> Seq<char>
    decreases s.len(),
{
    if s.len() > 0 && strips(strip, s.last()) {
        strip_back(s.drop_last(), strip)
    } else {
        s
    }
}

/// `s` without leading and trailing whitespace.
pub open spec fn trimmed(s: Seq<char>) -> Seq<char> {
    strip_back(strip_front(s, None), None)
}

/// `s` without leading and trailing occurrences of `c`.
pub open spec fn trimmed_of(s: Seq<char>, c: char) -> Seq<char> {
    strip_back(strip_front(s, Some(c)), Some(c))
}

fn stripped(strip: Option<char>, c: char) -> (r: bool)
    ensures
        r == strips(strip, c),
{
    match strip {
        Some(x) => c == x,
        None => is_white(c),
    }
}

fn front_skip(chars: &Vec<char>, strip: Option<char>) -> (i: usize)
    ensures
        i <= chars@.len(),
        chars@.skip(i as int) == strip_front(chars@, strip),
{
    let mut i: usize = 0;
    assert(chars@.skip(0) == chars@);
    while i < chars.len() && stripped(strip, chars[i])
        invariant
            i <= chars@.len(),
            strip_front(chars@.skip(i as int), strip) == strip_front(chars@, strip),
        decreases chars@.len() - i,
    {
        assert(chars@.skip(i as int).skip(1) == chars@.skip(i + 1));
        i = i + 1;
    }
    i
}

fn back_keep(chars: &Vec<char>, from: usize, strip: Option<char>) -> (j: usize)
    requires
        from <= chars@.len(),
    ensures
        from <= j <= chars@.len(),
        chars@.subrange(from as int, j as int) == strip_back(chars@.skip(from as int), strip),
{
    let mut j: usize = chars.len();
    while j > from && stripped(strip, chars[j - 1])
        invariant
            from <= j <= chars@.len(),
            strip_back(chars@.subrange(from as int, j as int), strip) == strip_back(
                chars@.skip(from as int),
                strip,
            ),
        decreases j,
    {
        assert(chars@.subrange(from as int, j as int).drop_last() == chars@.subrange(
            from as int,
            j - 1,
        ));
        j = j - 1;
    }
    j
}

/// `s` without leading and trailing whitespace.
pub fn trim(s: &str) -> (r: &str)
    ensures
        r@ == trimmed(s@),
{
    let chars = to_chars(s);
    let i: usize = front_skip(&chars, None);
    let j: usize = back_keep(&chars, i, None);
    s.substring_char(i, j)
}

/// `s` without leading and trailing occurrences of `c`.
pub fn trim_matches(s: &str, c: char) -> (r: &str)
    ensures
        r@ == trimmed_of(s@, c),
{
    let chars = to_chars(s);
    let i: usize = front_skip(&chars, Some(c));
    let j: usize = back_keep(&chars, i, Some(c));
    s.substring_char(i, j)
}

/// `s` without trailing occurrences of `c`.
pub fn trim_end_matches(s: &str, c: char) -> (r: &str)
    ensures
        r@ == strip_back(s@, Some(c)),
{
    let chars = to_chars(s);
    let j: usize = back_keep(&chars, 0, Some(c));
    assert(chars@.skip(0) == chars@);
    s.substring_char(0, j)
}

// ── Searching ───────────────────────────────────────────────────────────

/// Whether `part` occurs in `s` at position `i`.
pub open spec fn occurs_at(s: Seq<char>, part: Seq<char>, i: int) -> bool {
    0 <= i && i + part.len() <= s.len() && s.subrange(i, i + part.len()) == part
}

/// Whether `part` occurs somewhere in `s`.
pub open spec fn contains(s: Seq<char>, part: Seq<char>) -> bool {
    exists|i: int| occurs_at(s, part, i)
}

fn matches_at(s: &Vec<char>, part: &Vec<char>, i: usize) -> (r: bool)
    requires
        i + part@.len() <= s@.len(),
    ensures
        r == occurs_at(s@, part@, i as int),
{
    let mut k: usize = 0;
    let size: usize = s.len();
    while k < part.len()
        invariant
            k <= part@.len(),
            i + part@.len() <= s@.len(),
            size == s@.len(),
            forall|m: int| 0 <= m < k ==> s@[i + m] == part@[m],
        decreases part@.len() - k,
    {
        if s[i + k] != part[k] {
            assert(s@.subrange(i as int, i + part@.len())[k as int] != part@[k as int]);
            return false;
        }
        k = k + 1;
    }
    assert(s@.subrange(i as int, i + part@.len()) =~= part@);
    true
}

/// Whether `s` begins with `part`.
pub fn starts_with(s: &str, part: &str) -> (r: bool)
    ensures
        r == occurs_at(s@, part@, 0),
{
    let chars = to_chars(s);
    let wanted = to_chars(part);
    wanted.len() <= chars.len() && matches_at(&chars, &wanted, 0)
}

/// Whether the first character of `s` is `c`.
pub fn starts_with_char(s: &str, c: char) -> (r: bool)
    ensures
        r == (s@.len() > 0 && s@[0] == c),
{
    s.unicode_len() > 0 && s.get_char(0) == c
}

/// Whether `part` occurs in `s`.
pub fn has_text(s: &str, part: &str) -> (r: bool)
    ensures
        r == contains(s@, part@),
{
    let chars = to_chars(s);
    let wanted = to_chars(part);
    if wanted.len() > chars.len() {
        return false;
    }
    let last: usize = chars.len() - wanted.len();
    let mut i: usize = 0;
    while !matches_at(&chars, &wanted, i)
        invariant
            chars@ == s@,
            wanted@ == part@,
            i <= last,
            last + wanted@.len() == chars@.len(),
            forall|m: int| 0 <= m < i ==> !occurs_at(s@, part@, m),
        decreases last - i,
    {
        if i == last {
            return false;
        }
        i = i + 1;
    }
    true
}

/// Whether two strings hold the same characters.
pub fn same_text(a: &str, b: &str) -> (r: bool)
    ensures
        r == (a@ == b@),
{
    let x = a.as_bytes();
    let y = b.as_bytes();
    proof {
        vstd::utf8::encode_utf8_decode_utf8(a@);
        vstd::utf8::encode_utf8_decode_utf8(b@);
    }
    if x.len() != y.len() {
        return false;
    }
    let mut i: usize = 0;
    while i < x.len()
        invariant
            i <= x@.len(),
            x@.len() == y@.len(),
            forall|m: int| 0 <= m < i ==> x@[m] == y@[m],
            a@ == b@ ==> x@ == y@,
        decreases x@.len() - i,
    {
        if x[i] != y[i] {
            return false;
        }
        i = i + 1;
    }
    assert(x@ =~= y@);
    true
}

/// Whether an optional string holds the given characters.
pub fn is_text(value: &Option<String>, wanted: &str) -> (r: bool)
    ensures
        r == (value matches Some(v) && v@ == wanted@),
{
    match value {
        Some(v) => same_text(v, wanted),
        None => false,
    }
}

// ── Words and pieces ────────────────────────────────────────────────────

/// The longest prefix of `s` without whitespace.
pub open spec fn leading_word(s: Seq<char>) -> Seq<char>
    decreases s.len(),
{
    if s.len() > 0 && !is_whitespace(s[0]) {
        seq![s[0]] + leading_word(s.skip(1))
    } else {
        Seq::empty()
    }
}

/// The first word of `s`: `None` if `s` is blank.
pub open spec fn word_of(s: Seq<char>) -> Option<Seq<char>> {
    let rest = strip_front(s, None);
    if rest.len() == 0 {
        None
    } else {
        Some(leading_word(rest))
    }
}

/// The first word of the text after its first `from` characters.
pub fn first_word_from(s: &str, from: usize) -> (r: Option<&str>)
    requires
        from <= s@.len(),
    ensures
        match r {
            Some(word) => word_of(s@.skip(from as int)) == Some(word@),
            None => word_of(s@.skip(from as int)) is None,
        },
{
    let chars = to_chars(s);
    let mut i: usize = from;
    while i < chars.len() && is_white(chars[i])
        invariant
            chars@ == s@,
            from <= i <= chars@.len(),
            strip_front(s@.skip(i as int), None) == strip_front(s@.skip(from as int), None),
        decreases chars@.len() - i,
    {
        assert(s@.skip(i as int).skip(1) == s@.skip(i + 1));
        i = i + 1;
    }
    if i == chars.len() {
        return None;
    }
    let mut j: usize = i;
    while j < chars.len() && !is_white(chars[j])
        invariant
            chars@ == s@,
            i <= j <= chars@.len(),
            leading_word(s@.skip(i as int)) == s@.subrange(i as int, j as int) + leading_word(
                s@.skip(j as int),
            ),
        decreases chars@.len() - j,
    {
        assert(s@.skip(j as int).skip(1) == s@.skip(j + 1));
        assert(s@.subrange(i as int, j as int) + (seq![s@[j as int]] + leading_word(s@.skip(j + 1)))
            == s@.subrange(i as int, j + 1) + leading_word(s@.skip(j + 1)));
        j = j + 1;
    }
    assert(leading_word(s@.skip(j as int)) == Seq::<char>::empty());
    Some(s.substring_char(i, j))
}

/// The pieces of `s` between the occurrences of `sep`, in order; without one,
/// `s` is the only piece.
pub open spec fn pieces(s: Seq<char>, sep: char) -> Seq<Seq<char>>
    decreases s.len(),
{
    if s.len() == 0 {
        seq![Seq::empty()]
    } else {
        let before = pieces(s.drop_last(), sep);
        if s.last() == sep {
            before.push(Seq::empty())
        } else {
            before.drop_last().push(before.last().push(s.last()))
        }
    }
}

/// The pieces of a string between the occurrences of `sep`, in order.
pub fn split_on<'a>(s: &'a str, sep: char) -> (r: Vec<&'a str>)
    ensures
        r@.len() == pieces(s@, sep).len(),
        forall|i: int| 0 <= i < r@.len() ==> (#[trigger] r@[i])@ == pieces(s@, sep)[i],
{
    let chars = to_chars(s);
    let mut out: Vec<&'a str> = Vec::new();
    let mut start: usize = 0;
    let mut i: usize = 0;
    assert(s@.take(0) == Seq::<char>::empty());
    while i < chars.len()
        invariant
            chars@ == s@,
            start <= i <= chars@.len(),
            pieces(s@.take(i as int), sep).len() == out@.len() + 1,
            forall|k: int|
                0 <= k < out@.len() ==> (#[trigger] out@[k])@ == pieces(s@.take(i as int), sep)[k],
            pieces(s@.take(i as int), sep).last() == s@.subrange(start as int, i as int),
        decreases chars@.len() - i,
    {
        assert(s@.take(i + 1).drop_last() == s@.take(i as int));
        if chars[i] == sep {
            out.push(s.substring_char(start, i));
            start = i + 1;
            assert(s@.subrange(start as int, i + 1) == Seq::<char>::empty());
        } else {
            assert(s@.subrange(start as int, i + 1) == s@.subrange(start as int, i as int).push(
                s@[i as int],
            ));
        }
        i = i + 1;
    }
    assert(s@.take(i as int) == s@);
    out.push(s.substring_char(start, i));
    out
}

/// The encoding of two texts, one after the other, is that of the first and then
/// that of the second.
pub proof fn encoding_adds(a: Seq<char>, b: Seq<char>)
    ensures
        vstd::utf8::encode_utf8(a + b) == vstd::utf8::encode_utf8(a) + vstd::utf8::encode_utf8(b),
    decreases a.len(),
{
    if a.len() == 0 {
        assert(a + b == b);
        assert(vstd::utf8::encode_utf8(a) + vstd::utf8::encode_utf8(b)
            == vstd::utf8::encode_utf8(b));
    } else {
        assert((a + b).drop_first() == a.drop_first() + b);
        encoding_adds(a.drop_first(), b);
        assert(vstd::utf8::encode_utf8(a + b) =~= vstd::utf8::encode_utf8(a)
            + vstd::utf8::encode_utf8(b));
    }
}

/// The pieces of a text that goes on behind a separator are those up to it, and
/// then those behind it.
pub proof fn pieces_add(a: Seq<char>, b: Seq<char>, sep: char)
    requires
        a.len() > 0,
        a.last() == sep,
    ensures
        pieces(a + b, sep) == pieces(a, sep).drop_last() + pieces(b, sep),
    decreases b.len(),
{
    pieces_exist(b, sep);
    if b.len() == 0 {
        assert(a + b == a);
        assert(pieces(a, sep) =~= pieces(a, sep).drop_last() + pieces(b, sep));
    } else {
        let rest = b.drop_last();
        assert((a + b).drop_last() == a + rest);
        assert((a + b).last() == b.last());
        pieces_add(a, rest, sep);
        pieces_exist(rest, sep);
        let front = pieces(a, sep).drop_last();
        let before = pieces(rest, sep);
        assert((front + before).last() == before.last());
        assert((front + before).drop_last() =~= front + before.drop_last());
        assert(pieces(a + b, sep) =~= front + pieces(b, sep));
    }
}

/// There is always a piece.
pub proof fn pieces_exist(s: Seq<char>, sep: char)
    ensures
        pieces(s, sep).len() > 0,
    decreases s.len(),
{
    if s.len() > 0 {
        pieces_exist(s.drop_last(), sep);
    }
}

/// A text without a separator is its only piece.
pub proof fn whole_piece(s: Seq<char>, sep: char)
    requires
        !s.contains(sep),
    ensures
        pieces(s, sep) == seq![s],
    decreases s.len(),
{
    if s.len() > 0 {
        assert(s.last() == s[s.len() - 1]);
        assert forall|i: int| 0 <= i < s.drop_last().len() implies s.drop_last()[i] != sep by {
            assert(s[i] != sep);
        }
        whole_piece(s.drop_last(), sep);
        assert(s.drop_last().push(s.last()) == s);
        assert(pieces(s, sep) =~= seq![s]);
    } else {
        assert(s =~= Seq::empty());
    }
}

// ── Order ───────────────────────────────────────────────────────────────

/// The lexicographic order of strings by code point.
pub open spec fn at_most(a: Seq<char>, b: Seq<char>) -> bool
    decreases a.len(),
{
    if a.len() == 0 {
        true
    } else if b.len() == 0 {
        false
    } else if a[0] == b[0] {
        at_most(a.skip(1), b.skip(1))
    } else {
        a[0] < b[0]
    }
}

/// Whether `a` comes no later than `b` in lexicographic order by code point.
pub fn is_at_most(a: &str, b: &str) -> (r: bool)
    ensures
        r == at_most(a@, b@),
{
    let x = to_chars(a);
    let y = to_chars(b);
    let mut i: usize = 0;
    assert(x@.skip(0) == x@ && y@.skip(0) == y@);
    while i < x.len() && i < y.len() && x[i] == y[i]
        invariant
            x@ == a@,
            y@ == b@,
            i <= x@.len(),
            i <= y@.len(),
            at_most(x@.skip(i as int), y@.skip(i as int)) == at_most(a@, b@),
        decreases x@.len() - i,
    {
        assert(x@.skip(i as int).skip(1) == x@.skip(i + 1));
        assert(y@.skip(i as int).skip(1) == y@.skip(i + 1));
        i = i + 1;
    }
    if i == x.len() {
        true
    } else if i == y.len() {
        false
    } else {
        x[i] < y[i]
    }
}

/// Every string comes no later than itself.
pub proof fn at_most_reflexive(a: Seq<char>)
    ensures
        at_most(a, a),
    decreases a.len(),
{
    if a.len() > 0 {
        at_most_reflexive(a.skip(1));
    }
}

/// Of two strings one comes no later than the other.
pub proof fn at_most_total(a: Seq<char>, b: Seq<char>)
    ensures
        at_most(a, b) || at_most(b, a),
    decreases a.len(),
{
    if a.len() > 0 && b.len() > 0 {
        at_most_total(a.skip(1), b.skip(1));
    }
}

/// The order of strings is transitive.
pub proof fn at_most_transitive(a: Seq<char>, b: Seq<char>, c: Seq<char>)
    requires
        at_most(a, b),
        at_most(b, c),
    ensures
        at_most(a, c),
    decreases a.len(),
{
    if a.len() > 0 && b.len() > 0 && c.len() > 0 && a[0] == b[0] && b[0] == c[0] {
        at_most_transitive(a.skip(1), b.skip(1), c.skip(1));
    }
}

// ── Numbers ─────────────────────────────────────────────────────────────

/// The decimal digit for `0 <= d < 10`.
pub open spec fn digit(d: nat) -> char {
    (('0' as int) + d) as char
}

/// The decimal notation of a natural number, without leading zeros.
pub open spec fn decimal(n: nat) -> Seq<char>
    decreases n,
{
    if n < 10 {
        seq![digit(n)]
    } else {
        decimal(n / 10).push(digit(n % 10))
    }
}

/// The decimal notation of an integer.
pub open spec fn decimal_int(n: int) -> Seq<char> {
    if n < 0 {
        "-"@ + decimal((-n) as nat)
    } else {
        decimal(n as nat)
    }
}

fn digit_text(d: u64) -> (r: &'static str)
    requires
        d < 10,
    ensures
        r@ == seq![digit(d as nat)],
{
    proof {
        reveal_strlit("0");
        reveal_strlit("1");
        reveal_strlit("2");
        reveal_strlit("3");
        reveal_strlit("4");
        reveal_strlit("5");
        reveal_strlit("6");
        reveal_strlit("7");
        reveal_strlit("8");
        reveal_strlit("9");
    }
    let r: &'static str = match d {
        0 => "0",
        1 => "1",
        2 => "2",
        3 => "3",
        4 => "4",
        5 => "5",
        6 => "6",
        7 => "7",
        8 => "8",
        _ => "9",
    };
    assert(r@ =~= seq![digit(d as nat)]);
    r
}

/// The decimal notation of a number.
pub fn number(n: u64) -> (r: String)
    ensures
        r@ == decimal(n as nat),
    decreases n,
{
    if n < 10 {
        String::from_str(digit_text(n))
    } else {
        let mut s = number(n / 10);
        s.append(digit_text(n % 10));
        assert(s@ =~= decimal((n / 10) as nat).push(digit((n % 10) as nat)));
        s
    }
}

/// The decimal notation of a wide number.
pub fn wide_number(n: u128) -> (r: String)
    ensures
        r@ == decimal(n as nat),
    decreases n,
{
    if n < 10 {
        String::from_str(digit_text(n as u64))
    } else {
        let mut s = wide_number(n / 10);
        s.append(digit_text((n % 10) as u64));
        assert(s@ =~= decimal((n / 10) as nat).push(digit((n % 10) as nat)));
        s
    }
}

/// The decimal notation of a signed number.
pub fn signed_number(n: i64) -> (r: String)
    ensures
        r@ == decimal_int(n as int),
{
    if n >= 0 {
        number(n as u64)
    } else {
        let magnitude: u64 = (-(n + 1)) as u64 + 1;
        let mut s = String::from_str("-");
        s.append(&number(magnitude));
        s
    }
}

// ── Composition ─────────────────────────────────────────────────────────

/// `a` followed by `b`.
pub fn cat2(a: &str, b: &str) -> (r: String)
    ensures
        r@ == a@ + b@,
{
    let mut s = String::from_str(a);
    s.append(b);
    s
}

/// `a`, `b` and `c` in a row.
pub fn cat3(a: &str, b: &str, c: &str) -> (r: String)
    ensures
        r@ == a@ + b@ + c@,
{
    let mut s = cat2(a, b);
    s.append(c);
    s
}

/// `a`, `b`, `c` and `d` in a row.
pub fn cat4(a: &str, b: &str, c: &str, d: &str) -> (r: String)
    ensures
        r@ == a@ + b@ + c@ + d@,
{
    let mut s = cat3(a, b, c);
    s.append(d);
    s
}

/// `a`, `b`, `c`, `d` and `e` in a row.
pub fn cat5(a: &str, b: &str, c: &str, d: &str, e: &str) -> (r: String)
    ensures
        r@ == a@ + b@ + c@ + d@ + e@,
{
    let mut s = cat4(a, b, c, d);
    s.append(e);
    s
}

// ── Laws ────────────────────────────────────────────────────────────────

/// Whitespace is what Unicode lists as such, by code point.
pub proof fn whitespace_by_code_point(c: char)
    ensures
        is_whitespace(c) <==> 9 <= c as int <= 13 || c as int == 32 || c as int == 133 || c as int
            == 160 || c as int == 5760 || 8192 <= c as int <= 8202 || c as int == 8232 || c as int
            == 8233 || c as int == 8239 || c as int == 8287 || c as int == 12288,
{
}

/// Whether every character is whitespace.
pub open spec fn is_blank(s: Seq<char>) -> bool {
    forall|i: int| 0 <= i < s.len() ==> is_whitespace(#[trigger] s[i])
}

/// Whether no character is whitespace.
pub open spec fn is_solid(s: Seq<char>) -> bool {
    forall|i: int| 0 <= i < s.len() ==> !is_whitespace(#[trigger] s[i])
}

proof fn front_is_stripped(before: Seq<char>, rest: Seq<char>, strip: Option<char>)
    requires
        forall|i: int| 0 <= i < before.len() ==> strips(strip, #[trigger] before[i]),
        rest.len() > 0 ==> !strips(strip, rest[0]),
    ensures
        strip_front(before + rest, strip) == rest,
    decreases before.len(),
{
    if before.len() == 0 {
        assert(before + rest =~= rest);
    } else {
        assert((before + rest)[0] == before[0]);
        assert((before + rest).skip(1) =~= before.skip(1) + rest);
        assert forall|i: int| 0 <= i < before.skip(1).len() implies strips(
            strip,
            #[trigger] before.skip(1)[i],
        ) by {
            assert(before.skip(1)[i] == before[i + 1]);
        }
        front_is_stripped(before.skip(1), rest, strip);
    }
}

/// Stripping the end of a text takes away exactly the stripped characters there.
pub proof fn back_is_stripped(rest: Seq<char>, after: Seq<char>, strip: Option<char>)
    requires
        forall|i: int| 0 <= i < after.len() ==> strips(strip, #[trigger] after[i]),
        rest.len() > 0 ==> !strips(strip, rest.last()),
    ensures
        strip_back(rest + after, strip) == rest,
    decreases after.len(),
{
    if after.len() == 0 {
        assert(rest + after =~= rest);
    } else {
        assert((rest + after).last() == after[after.len() - 1]);
        assert((rest + after).drop_last() =~= rest + after.drop_last());
        assert forall|i: int| 0 <= i < after.drop_last().len() implies strips(
            strip,
            #[trigger] after.drop_last()[i],
        ) by {
            assert(after.drop_last()[i] == after[i]);
        }
        back_is_stripped(rest, after.drop_last(), strip);
    }
}

proof fn both_ends_are_stripped(
    before: Seq<char>,
    words: Seq<char>,
    after: Seq<char>,
    strip: Option<char>,
)
    requires
        forall|i: int| 0 <= i < before.len() ==> strips(strip, #[trigger] before[i]),
        forall|i: int| 0 <= i < after.len() ==> strips(strip, #[trigger] after[i]),
        words.len() > 0 ==> !strips(strip, words[0]) && !strips(strip, words.last()),
    ensures
        strip_back(strip_front(before + words + after, strip), strip) == words,
{
    if words.len() == 0 {
        let all = before + words + after;
        assert forall|i: int| 0 <= i < all.len() implies strips(strip, #[trigger] all[i]) by {
            if i < before.len() {
                assert(all[i] == before[i]);
            } else {
                assert(all[i] == after[i - before.len()]);
            }
        }
        assert(all =~= all + words);
        front_is_stripped(all, words, strip);
        assert(words =~= words + words);
        back_is_stripped(words, words, strip);
    } else {
        let rest = words + after;
        assert(rest[0] == words[0]);
        assert(before + words + after =~= before + rest);
        front_is_stripped(before, rest, strip);
        back_is_stripped(words, after, strip);
    }
}

/// Trimming takes away exactly the whitespace around a text: words with blanks
/// before and behind them come out as the words, and a blank text as nothing.
pub proof fn trimming_leaves_the_words(before: Seq<char>, words: Seq<char>, after: Seq<char>)
    requires
        is_blank(before),
        is_blank(after),
        words.len() > 0 ==> !is_whitespace(words[0]) && !is_whitespace(words.last()),
    ensures
        trimmed(before + words + after) == words,
{
    both_ends_are_stripped(before, words, after, None);
}

/// Trimming of one character takes away exactly its occurrences around a text.
pub proof fn trimming_of_one_character(
    before: Seq<char>,
    words: Seq<char>,
    after: Seq<char>,
    c: char,
)
    requires
        forall|i: int| 0 <= i < before.len() ==> #[trigger] before[i] == c,
        forall|i: int| 0 <= i < after.len() ==> #[trigger] after[i] == c,
        words.len() > 0 ==> words[0] != c && words.last() != c,
    ensures
        trimmed_of(before + words + after, c) == words,
        before.len() == 0 ==> strip_back(words + after, Some(c)) == words,
{
    both_ends_are_stripped(before, words, after, Some(c));
    back_is_stripped(words, after, Some(c));
}

proof fn word_leads(word: Seq<char>, rest: Seq<char>)
    requires
        is_solid(word),
        rest.len() > 0 ==> is_whitespace(rest[0]),
    ensures
        leading_word(word + rest) == word,
    decreases word.len(),
{
    if word.len() == 0 {
        assert(word + rest =~= rest);
        assert(word =~= Seq::empty());
    } else {
        assert((word + rest)[0] == word[0]);
        assert((word + rest).skip(1) =~= word.skip(1) + rest);
        assert forall|i: int| 0 <= i < word.skip(1).len() implies !is_whitespace(
            #[trigger] word.skip(1)[i],
        ) by {
            assert(word.skip(1)[i] == word[i + 1]);
        }
        word_leads(word.skip(1), rest);
        assert(seq![word[0]] + word.skip(1) =~= word);
    }
}

/// The first word of a text is what stands between the blanks before it and the
/// whitespace behind it, or the end; a blank text has none.
pub proof fn first_word_is_found(before: Seq<char>, word: Seq<char>, rest: Seq<char>)
    requires
        is_blank(before),
        is_solid(word),
        word.len() == 0 ==> rest.len() == 0,
        rest.len() > 0 ==> is_whitespace(rest[0]),
    ensures
        word_of(before + word + rest) == (if word.len() > 0 {
            Some(word)
        } else {
            None
        }),
{
    let tail = word + rest;
    assert(before + word + rest =~= before + tail);
    if word.len() > 0 {
        assert(tail[0] == word[0]);
        word_leads(word, rest);
    } else {
        assert(tail.len() == 0);
    }
    front_is_stripped(before, tail, None);
}

/// Parts, with a separator between any two of them.
pub open spec fn joined(parts: Seq<Seq<char>>, sep: char) -> Seq<char>
    decreases parts.len(),
{
    if parts.len() == 0 {
        Seq::empty()
    } else if parts.len() == 1 {
        parts[0]
    } else {
        joined(parts.drop_last(), sep) + seq![sep] + parts.last()
    }
}

proof fn pieces_of_parts(s: Seq<char>, part: Seq<char>, sep: char)
    requires
        !part.contains(sep),
    ensures
        pieces(s + seq![sep] + part, sep) == pieces(s, sep).push(part),
    decreases part.len(),
{
    let all = s + seq![sep] + part;
    if part.len() == 0 {
        assert(all.drop_last() =~= s);
        assert(all.last() == sep);
        assert(part =~= Seq::empty());
    } else {
        let less = part.drop_last();
        assert(part[part.len() - 1] == part.last());
        assert forall|i: int| 0 <= i < less.len() implies less[i] != sep by {
            assert(less[i] == part[i]);
        }
        pieces_of_parts(s, less, sep);
        assert(all.drop_last() =~= s + seq![sep] + less);
        assert(all.last() == part.last());
        let before = pieces(s, sep).push(less);
        assert(before.drop_last() =~= pieces(s, sep));
        assert(less.push(part.last()) =~= part);
    }
}

/// Splitting undoes joining: the pieces of parts that were joined by a separator
/// which none of them holds are these parts.
pub proof fn splitting_undoes_joining(parts: Seq<Seq<char>>, sep: char)
    requires
        parts.len() > 0,
        forall|i: int| 0 <= i < parts.len() ==> !(#[trigger] parts[i]).contains(sep),
    ensures
        pieces(joined(parts, sep), sep) == parts,
    decreases parts.len(),
{
    if parts.len() == 1 {
        assert(!parts[0].contains(sep));
        whole_piece(parts[0], sep);
        assert(parts =~= seq![parts[0]]);
    } else {
        let less = parts.drop_last();
        assert forall|i: int| 0 <= i < less.len() implies !(#[trigger] less[i]).contains(sep) by {
            assert(less[i] == parts[i]);
        }
        splitting_undoes_joining(less, sep);
        assert(!parts[parts.len() - 1].contains(sep));
        pieces_of_parts(joined(less, sep), parts.last(), sep);
        assert(less.push(parts.last()) =~= parts);
    }
}

/// A text contains exactly the parts that it can be cut into with something before
/// and something behind them.
pub proof fn containing_is_cutting(s: Seq<char>, part: Seq<char>)
    ensures
        contains(s, part) <==> exists|before: Seq<char>, after: Seq<char>|
            #![trigger before + part + after]
            s == before + part + after,
{
    if contains(s, part) {
        let i = choose|i: int| occurs_at(s, part, i);
        let before = s.take(i);
        let after = s.skip(i + part.len());
        assert(s =~= before + part + after) by {
            assert forall|k: int| i <= k < i + part.len() implies s[k] == part[k - i] by {
                assert(s.subrange(i, i + part.len())[k - i] == s[k]);
            }
        }
    }
    if exists|before: Seq<char>, after: Seq<char>|
        #![trigger before + part + after]
        s == before + part + after {
        let (before, after) = choose|before: Seq<char>, after: Seq<char>|
            #![trigger before + part + after]
            s == before + part + after;
        contained(before, part, after);
    }
}

/// What stands in the middle of a text is contained in it.
pub proof fn contained(before: Seq<char>, part: Seq<char>, after: Seq<char>)
    ensures
        contains(before + part + after, part),
{
    let s = before + part + after;
    let end = (before.len() + part.len()) as int;
    assert(s.subrange(before.len() as int, end) =~= part);
    assert(occurs_at(s, part, before.len() as int));
}

/// What a part of a text contains, the text contains.
pub proof fn contained_within(before: Seq<char>, middle: Seq<char>, after: Seq<char>, part: Seq<char>)
    requires
        contains(middle, part),
    ensures
        contains(before + middle + after, part),
{
    containing_is_cutting(middle, part);
    let (x, y) = choose|x: Seq<char>, y: Seq<char>|
        #![trigger x + part + y]
        middle == x + part + y;
    assert(before + middle + after =~= (before + x) + part + (y + after));
    contained(before + x, part, y + after);
}

/// The number that decimal digits stand for.
pub open spec fn number_of(digits: Seq<char>) -> int
    decreases digits.len(),
{
    if digits.len() == 0 {
        0
    } else {
        10 * number_of(digits.drop_last()) + (digits.last() as int - '0' as int)
    }
}

/// The decimal notation of a number is made of digits, stands for the number, and
/// has no leading zero.
pub proof fn decimals_stand_for_their_number(n: nat)
    ensures
        number_of(decimal(n)) == n,
        decimal(n).len() > 0,
        forall|i: int| 0 <= i < decimal(n).len() ==> '0' <= #[trigger] decimal(n)[i] <= '9',
        n > 0 ==> decimal(n)[0] != '0',
        n == 0 ==> decimal(n) == seq!['0'],
    decreases n,
{
    reveal_with_fuel(number_of, 2);
    if n < 10 {
        assert(decimal(n).drop_last() =~= Seq::empty());
        if n == 0 {
            assert(decimal(n) =~= seq!['0']);
        }
    } else {
        decimals_stand_for_their_number(n / 10);
        let before = decimal(n / 10);
        assert(decimal(n).drop_last() =~= before);
        assert(decimal(n)[0] == before[0]);
        assert forall|i: int| 0 <= i < decimal(n).len() implies '0' <= #[trigger] decimal(n)[i]
            <= '9' by {
            if i < before.len() {
                assert(decimal(n)[i] == before[i]);
            }
        }
    }
}

/// A negative number is written as a minus sign and the number without its sign,
/// any other as it is.
pub proof fn signed_decimals(n: nat)
    ensures
        decimal_int(n as int) == decimal(n),
        n > 0 ==> decimal_int(-(n as int)) == seq!['-'] + decimal(n),
{
    reveal_strlit("-");
    assert("-"@ =~= seq!['-']);
}

/// In the order of texts, what a text begins with comes before it, and of two texts
/// that differ the first difference decides.
pub proof fn first_difference_decides(
    common: Seq<char>,
    x: char,
    y: char,
    a: Seq<char>,
    b: Seq<char>,
)
    ensures
        at_most(common, common + a),
        a.len() > 0 ==> !at_most(common + a, common),
        x != y ==> (at_most(common + seq![x] + a, common + seq![y] + b) <==> (x as int) < (y as int)),
    decreases common.len(),
{
    if common.len() == 0 {
        assert(common + a =~= a);
        assert((common + seq![x] + a)[0] == x);
        assert((common + seq![y] + b)[0] == y);
    } else {
        let less = common.skip(1);
        first_difference_decides(less, x, y, a, b);
        assert((common + a).skip(1) =~= less + a);
        assert((common + a)[0] == common[0]);
        assert((common + seq![x] + a).skip(1) =~= less + seq![x] + a);
        assert((common + seq![y] + b).skip(1) =~= less + seq![y] + b);
        assert((common + seq![x] + a)[0] == common[0]);
        assert((common + seq![y] + b)[0] == common[0]);
    }
}

/// Lines, each with its end.
pub open spec fn lined(lines: Seq<Seq<char>>) -> Seq<char>
    decreases lines.len(),
{
    if lines.len() == 0 {
        Seq::empty()
    } else {
        lined(lines.drop_last()) + (lines.last() + "\n"@)
    }
}

/// Whether a text is on one line.
pub open spec fn one_line(s: Seq<char>) -> bool {
    !s.contains('\n')
}

/// One more line comes behind those before it.
pub proof fn line_added(lines: Seq<Seq<char>>, line: Seq<char>)
    ensures
        lined(lines.push(line)) == lined(lines) + (line + "\n"@),
{
    assert(lines.push(line).drop_last() =~= lines);
}

/// A text of two parts that are on one line is on one line.
pub proof fn one_line_adds(a: Seq<char>, b: Seq<char>)
    requires
        one_line(a),
        one_line(b),
    ensures
        one_line(a + b),
{
    assert forall|i: int| 0 <= i < (a + b).len() implies (a + b)[i] != '\n' by {
        if i < a.len() {
            assert(a[i] == (a + b)[i]);
        } else {
            assert(b[i - a.len()] == (a + b)[i]);
        }
    }
}

/// The pieces of two texts with a separator between them are those of the one and
/// then those of the other.
pub proof fn pieces_around(a: Seq<char>, b: Seq<char>, sep: char)
    ensures
        pieces(a + seq![sep] + b, sep) == pieces(a, sep) + pieces(b, sep),
{
    let first = a + seq![sep];
    assert(first.drop_last() =~= a);
    pieces_add(first, b, sep);
    assert(pieces(first, sep) == pieces(a, sep).push(Seq::empty()));
    assert(pieces(first, sep).drop_last() =~= pieces(a, sep));
}

/// Lines and an unfinished last one come apart again into these lines.
pub proof fn pieces_of_lines(lines: Seq<Seq<char>>, rest: Seq<char>)
    requires
        forall|i: int| 0 <= i < lines.len() ==> one_line(#[trigger] lines[i]),
        one_line(rest),
    ensures
        pieces(lined(lines) + rest, '\n') == lines.push(rest),
    decreases lines.len(),
{
    reveal_strlit("\n");
    assert("\n"@ =~= seq!['\n']);
    if lines.len() == 0 {
        assert(lined(lines) + rest =~= rest);
        whole_piece(rest, '\n');
        assert(lines.push(rest) =~= seq![rest]);
    } else {
        let less = lines.drop_last();
        let last = lines.last();
        assert forall|i: int| 0 <= i < less.len() implies one_line(#[trigger] less[i]) by {
            assert(less[i] == lines[i]);
        }
        assert(one_line(lines[lines.len() - 1]));
        pieces_of_lines(less, last);
        assert(lined(lines) + rest =~= (lined(less) + last) + seq!['\n'] + rest);
        pieces_around(lined(less) + last, rest, '\n');
        whole_piece(rest, '\n');
        assert(less.push(last) + seq![rest] =~= lines.push(rest));
    }
}

/// Whether a text has a line between two ends of lines.
pub open spec fn shows(s: Seq<char>, line: Seq<char>) -> bool {
    contains(s, "\n"@ + line + "\n"@)
}

/// Each line but the first is shown.
pub proof fn lines_are_shown(lines: Seq<Seq<char>>, rest: Seq<char>, j: int)
    requires
        0 < j < lines.len(),
    ensures
        shows(lined(lines) + rest, lines[j]),
    decreases lines.len(),
{
    reveal_strlit("\n");
    let less = lines.drop_last();
    let line = lines.last();
    if j == lines.len() - 1 {
        let front = lined(less.drop_last()) + less.last();
        assert(lined(lines) + rest =~= front + ("\n"@ + line + "\n"@) + rest);
        contained(front, "\n"@ + line + "\n"@, rest);
    } else {
        lines_are_shown(less, line + "\n"@ + rest, j);
        assert(lined(lines) + rest =~= lined(less) + (line + "\n"@ + rest));
        assert(less[j] == lines[j]);
    }
}

/// Nothing else is shown.
pub proof fn only_lines_are_shown(lines: Seq<Seq<char>>, rest: Seq<char>, line: Seq<char>)
    requires
        forall|i: int| 0 <= i < lines.len() ==> one_line(#[trigger] lines[i]),
        one_line(rest),
        one_line(line),
        shows(lined(lines) + rest, line),
    ensures
        exists|j: int| 0 < j < lines.len() && #[trigger] lines[j] == line,
{
    reveal_strlit("\n");
    assert("\n"@ =~= seq!['\n']);
    let s = lined(lines) + rest;
    let part = "\n"@ + line + "\n"@;
    containing_is_cutting(s, part);
    let (a, b) = choose|a: Seq<char>, b: Seq<char>|
        #![trigger a + part + b]
        s == a + part + b;
    let tail = line + seq!['\n'] + b;
    assert(s =~= a + seq!['\n'] + tail);
    pieces_around(a, tail, '\n');
    pieces_around(line, b, '\n');
    whole_piece(line, '\n');
    pieces_exist(a, '\n');
    pieces_exist(b, '\n');
    pieces_of_lines(lines, rest);
    let j = pieces(a, '\n').len() as int;
    let all = pieces(a, '\n') + (seq![line] + pieces(b, '\n'));
    assert(all == lines.push(rest));
    assert(all[j] == line);
    assert(lines.push(rest)[j] == lines[j]);
}

/// Whether a text ends with another.
pub open spec fn ends_with(s: Seq<char>, part: Seq<char>) -> bool {
    part.len() <= s.len() && s.skip(s.len() - part.len()) == part
}

/// A text ends with what was added to it.
pub proof fn addition_ends(s: Seq<char>, part: Seq<char>)
    ensures
        ends_with(s + part, part),
{
    assert((s + part).skip(s.len() as int) =~= part);
}

/// A text begins with what was added to.
pub proof fn addition_begins(s: Seq<char>, part: Seq<char>)
    ensures
        occurs_at(s + part, s, 0),
{
    assert((s + part).subrange(0, s.len() as int) =~= s);
}

/// The first piece of a text that begins with words without a separator begins with them.
pub proof fn first_piece_begins(words: Seq<char>, rest: Seq<char>, sep: char)
    requires
        !words.contains(sep),
    ensures
        pieces(words + rest, sep).len() > 0,
        occurs_at(pieces(words + rest, sep)[0], words, 0),
    decreases rest.len(),
{
    let all = words + rest;
    if rest.len() == 0 {
        assert(all =~= words);
        whole_piece(words, sep);
        assert(words.subrange(0, words.len() as int) =~= words);
    } else {
        let less = rest.drop_last();
        first_piece_begins(words, less, sep);
        assert(all.drop_last() =~= words + less);
        assert(all.last() == rest.last());
        let before = pieces(words + less, sep);
        if before.len() == 1 && all.last() != sep {
            assert(pieces(all, sep)[0] == before[0].push(all.last()));
            assert(before[0].push(all.last()).subrange(0, words.len() as int) =~= before[0].subrange(
                0,
                words.len() as int,
            ));
        } else {
            assert(pieces(all, sep)[0] == before[0]);
        }
    }
}

/// Whether a line has these words, and nothing but blanks around them.
pub open spec fn has_words(line: Seq<char>, words: Seq<char>) -> bool {
    &&& words.len() > 0
    &&& !is_whitespace(words[0])
    &&& !is_whitespace(words.last())
    &&& exists|before: Seq<char>, after: Seq<char>|
        #![trigger before + words + after]
        is_blank(before) && is_blank(after) && line == before + words + after
}

/// The words of a line are what is left of it when it is trimmed, and nothing is left of a
/// blank line.
pub proof fn words_are_trimmed(line: Seq<char>, words: Seq<char>)
    ensures
        has_words(line, words) ==> trimmed(line) == words,
        is_blank(line) ==> trimmed(line).len() == 0,
{
    let none = Seq::<char>::empty();
    if has_words(line, words) {
        let (before, after) = choose|before: Seq<char>, after: Seq<char>|
            #![trigger before + words + after]
            is_blank(before) && is_blank(after) && line == before + words + after;
        trimming_leaves_the_words(before, words, after);
    }
    if is_blank(line) {
        trimming_leaves_the_words(line, none, none);
        assert(line + none + none =~= line);
    }
}

/// A text that is made of parts contains each of them.
pub proof fn in_sum2(a: Seq<char>, b: Seq<char>)
    ensures
        contains(a + b, a),
        contains(a + b, b),
{
    let none = Seq::<char>::empty();
    contained(none, a, b);
    assert(none + a + b =~= a + b);
    contained(a, b, none);
    assert(a + b + none =~= a + b);
}

/// What one of two parts contains, both contain.
pub proof fn in_sum_within(a: Seq<char>, b: Seq<char>, part: Seq<char>)
    ensures
        contains(a, part) ==> contains(a + b, part),
        contains(b, part) ==> contains(a + b, part),
{
    let none = Seq::<char>::empty();
    if contains(a, part) {
        contained_within(none, a, b, part);
        assert(none + a + b =~= a + b);
    }
    if contains(b, part) {
        contained_within(a, b, none, part);
        assert(a + b + none =~= a + b);
    }
}

/// A text that is made of three parts contains each of them.
pub proof fn in_sum3(a: Seq<char>, b: Seq<char>, c: Seq<char>)
    ensures
        contains(a + b + c, a),
        contains(a + b + c, b),
        contains(a + b + c, c),
{
    in_sum2(a, b);
    in_sum2(a + b, c);
    in_sum_within(a + b, c, a);
    in_sum_within(a + b, c, b);
}

/// A text that is made of four parts contains each of them.
pub proof fn in_sum4(a: Seq<char>, b: Seq<char>, c: Seq<char>, d: Seq<char>)
    ensures
        contains(a + b + c + d, a),
        contains(a + b + c + d, b),
        contains(a + b + c + d, c),
        contains(a + b + c + d, d),
{
    in_sum3(a, b, c);
    in_sum2(a + b + c, d);
    in_sum_within(a + b + c, d, a);
    in_sum_within(a + b + c, d, b);
    in_sum_within(a + b + c, d, c);
}

/// A part occurs at a position exactly if the text has its characters from there on, one
/// by one; so a text begins with exactly what it can be cut into with something behind it.
pub proof fn occurring_is_agreeing(s: Seq<char>, part: Seq<char>, i: int)
    ensures
        occurs_at(s, part, i) <==> 0 <= i && i + part.len() <= s.len() && forall|k: int|
            0 <= k < part.len() ==> #[trigger] part[k] == s[i + k],
        occurs_at(s, part, 0) <==> exists|after: Seq<char>| #[trigger] (part + after) == s,
{
    if 0 <= i && i + part.len() <= s.len() {
        let cut = s.subrange(i, i + part.len());
        if occurs_at(s, part, i) {
            assert forall|k: int| 0 <= k < part.len() implies #[trigger] part[k] == s[i + k] by {
                assert(cut[k] == s[i + k]);
            }
        }
        if forall|k: int| 0 <= k < part.len() ==> #[trigger] part[k] == s[i + k] {
            assert(cut =~= part);
        }
    }
    if occurs_at(s, part, 0) {
        let after = s.skip(part.len() as int);
        assert(part + after =~= s) by {
            assert forall|k: int| 0 <= k < part.len() implies part[k] == s[k] by {
                assert(s.subrange(0, part.len() as int)[k] == s[k]);
            }
        }
    }
    if exists|after: Seq<char>| #[trigger] (part + after) == s {
        let after = choose|after: Seq<char>| #[trigger] (part + after) == s;
        addition_begins(part, after);
    }
}

} // verus!
