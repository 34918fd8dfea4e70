//! The events that carry an operator's words to a loop: how they are written
//! to an events file, and how a response is found there again.

use crate::json::{self, Fields, Json, JsonTree};
use crate::text;
use vstd::prelude::*;

verus! {

/// The topic of an answer to a question of the loop.
pub const RESPONSE_TOPIC: &'static str = "human.response";

/// The topic of a message that answers no question.
pub const GUIDANCE_TOPIC: &'static str = "human.guidance";

/// What a response in the pipe-separated format contains.
pub const PIPE_MARKER: &'static str = "EVENT: human.response";

/// What the payload field of the pipe-separated format begins with.
pub const PIPE_FIELD: &'static str = "message:";

/// The key of an event's topic.
pub const TOPIC_KEY: &'static str = "topic";

/// The key of an event's payload.
pub const PAYLOAD_KEY: &'static str = "payload";

/// The key of an event's time.
pub const TIME_KEY: &'static str = "ts";

/// The topic of a message, by whether it answers a question.
pub open spec fn topic_of(is_response: bool) -> Seq<char> {
    if is_response {
        RESPONSE_TOPIC@
    } else {
        GUIDANCE_TOPIC@
    }
}

/// The topic of a message, by whether it answers a question.
pub fn topic(is_response: bool) -> (r: String)
    ensures
        r@ == topic_of(is_response),
{
    if is_response {
        String::from_str(RESPONSE_TOPIC)
    } else {
        String::from_str(GUIDANCE_TOPIC)
    }
}

/// The JSON document of an event.
pub open spec fn event_tree(topic: Seq<char>, payload: Seq<char>, ts: Seq<char>) -> JsonTree {
    JsonTree::Object(
        Map::<Seq<char>, JsonTree>::empty().insert(TOPIC_KEY@, JsonTree::Text(topic)).insert(
            PAYLOAD_KEY@,
            JsonTree::Text(payload),
        ).insert(TIME_KEY@, JsonTree::Text(ts)),
    )
}

/// Whether a line is the record of an event: one line of JSON that holds it.
pub open spec fn is_event_line(
    line: Seq<char>,
    topic: Seq<char>,
    payload: Seq<char>,
    ts: Seq<char>,
) -> bool {
    &&& json::json_parsed(line) == Some(event_tree(topic, payload, ts))
    &&& line.len() > 0 && line[0] == '{'
    &&& !line.contains('\n')
    &&& !line.contains('\r')
}

proof fn keys_differ()
    ensures
        TOPIC_KEY@ != PAYLOAD_KEY@,
        TOPIC_KEY@ != TIME_KEY@,
        PAYLOAD_KEY@ != TIME_KEY@,
        json::is_plain_key(TOPIC_KEY@),
        json::is_plain_key(PAYLOAD_KEY@),
        json::is_plain_key(TIME_KEY@),
{
    json::undollared_keys_are_plain();
    reveal_strlit("topic");
    reveal_strlit("payload");
    reveal_strlit("ts");
    assert(TOPIC_KEY@.len() == 5);
    assert(PAYLOAD_KEY@.len() == 7);
    assert(TIME_KEY@.len() == 2);
}

/// The record of an event.
pub fn event_line(topic: &str, payload: &str, ts: &str) -> (r: String)
    ensures
        is_event_line(r@, topic@, payload@, ts@),
{
    let document = Fields::new().with_text(TOPIC_KEY, topic).with_text(
        PAYLOAD_KEY,
        payload,
    ).with_text(TIME_KEY, ts).object();
    proof {
        keys_differ();
        reveal_with_fuel(JsonTree::is_within, 4);
        reveal_with_fuel(JsonTree::has_plain_within, 4);
    }
    json::to_line(&document)
}

// ── Reading responses ───────────────────────────────────────────────────

/// The message of a line in the pipe-separated format: the first field that
/// begins with `message:`, without that, blanks around it and quotes around it;
/// empty where there is no such field.
pub open spec fn message_field(fields: Seq<Seq<char>>) -> Seq<char>
    decreases fields.len(),
{
    if fields.len() == 0 {
        Seq::empty()
    } else if text::occurs_at(text::trimmed(fields[0]), PIPE_FIELD@, 0) {
        text::trimmed_of(
            text::trimmed(text::trimmed(fields[0]).skip(PIPE_FIELD@.len() as int)),
            '"',
        )
    } else {
        message_field(fields.skip(1))
    }
}

/// The response that a line of an events file holds, given the JSON document
/// that it parses to, if it does: that of a record with the response topic, or
/// that of the pipe-separated format.
pub open spec fn response_given(line: Seq<char>, document: Option<JsonTree>) -> Option<Seq<char>> {
    if text::trimmed(line).len() == 0 {
        None
    } else {
        match document {
            Some(event) if event.text_entry(TOPIC_KEY@) == Some(RESPONSE_TOPIC@) => Some(
                match event.text_entry(PAYLOAD_KEY@) {
                    Some(payload) => payload,
                    None => Seq::empty(),
                },
            ),
            _ => if text::contains(line, PIPE_MARKER@) {
                Some(message_field(text::pieces(line, '|')))
            } else {
                None
            },
        }
    }
}

/// The response that a line of an events file holds.
pub open spec fn line_response(line: Seq<char>) -> Option<Seq<char>> {
    response_given(line, json::json_parsed(line))
}

/// The message of a line in the pipe-separated format.
fn pipe_message(line: &str) -> (r: String)
    ensures
        r@ == message_field(text::pieces(line@, '|')),
{
    let fields = text::split_on(line, '|');
    let ghost all = text::pieces(line@, '|');
    let mut i: usize = 0;
    assert(all.skip(0) == all);
    while i < fields.len()
        invariant
            i <= fields@.len(),
            all == text::pieces(line@, '|'),
            fields@.len() == all.len(),
            forall|k: int| 0 <= k < fields@.len() ==> (#[trigger] fields@[k])@ == all[k],
            message_field(all.skip(i as int)) == message_field(all),
        decreases fields@.len() - i,
    {
        let field = text::trim(fields[i]);
        assert(all.skip(i as int)[0] == all[i as int]);
        if text::starts_with(field, PIPE_FIELD) {
            let value = field.substring_char(PIPE_FIELD.unicode_len(), field.unicode_len());
            assert(value@ == text::trimmed(all[i as int]).skip(PIPE_FIELD@.len() as int));
            return String::from_str(text::trim_matches(text::trim(value), '"'));
        }
        assert(all.skip(i as int).skip(1) == all.skip(i + 1));
        i = i + 1;
    }
    String::new()
}

/// The response that a line of an events file holds, given the JSON document
/// that it parses to, if it does.
pub fn response_from(line: &str, document: Option<Json>) -> (r: Option<String>)
    ensures
        match r {
            Some(message) => response_given(line@, json::tree_of(document)) == Some(message@),
            None => response_given(line@, json::tree_of(document)) is None,
        },
{
    if text::trim(line).unicode_len() == 0 {
        return None;
    }
    match document {
        Some(event) => {
            let is_response: bool = match event.text_at(TOPIC_KEY) {
                Some(topic) => text::same_text(topic, RESPONSE_TOPIC),
                None => false,
            };
            if is_response {
                return Some(
                    match event.text_at(PAYLOAD_KEY) {
                        Some(payload) => String::from_str(payload),
                        None => String::new(),
                    },
                );
            }
        },
        None => {},
    }
    if text::has_text(line, PIPE_MARKER) {
        Some(pipe_message(line))
    } else {
        None
    }
}

/// The response that a line of an events file holds, if any.
pub fn response_of_line(line: &str) -> (r: Option<String>)
    ensures
        match r {
            Some(message) => line_response(line@) == Some(message@),
            None => line_response(line@) is None,
        },
{
    response_from(line, json::parse(line))
}

/// The first response in a list of lines.
pub open spec fn lines_response(lines: Seq<Seq<char>>) -> Option<Seq<char>>
    decreases lines.len(),
{
    if lines.len() == 0 {
        None
    } else if line_response(lines[0]) is Some {
        line_response(lines[0])
    } else {
        lines_response(lines.skip(1))
    }
}

/// A line without the carriage return that its line break begins with, if it has
/// one.
pub open spec fn without_return(line: Seq<char>) -> Seq<char> {
    if line.len() > 0 && line.last() == '\r' {
        line.drop_last()
    } else {
        line
    }
}

/// The lines of a text. Each ends in a line break, `\n` or `\r\n`, which is no part
/// of it; only the last one may have none.
pub open spec fn lines_of(source: Seq<char>) -> Seq<Seq<char>> {
    let parts = text::pieces(source, '\n');
    let ended = Seq::new((parts.len() - 1) as nat, |i: int| without_return(parts[i]));
    if parts.last().len() == 0 {
        ended
    } else {
        ended.push(parts.last())
    }
}

/// How many bytes a text takes in a file.
pub open spec fn span(source: Seq<char>) -> nat {
    vstd::utf8::encode_utf8(source).len()
}

fn line_without_return(line: &str) -> (r: &str)
    ensures
        r@ == without_return(line@),
{
    let size: usize = line.unicode_len();
    if size > 0 && line.get_char(size - 1) == '\r' {
        let r = line.substring_char(0, size - 1);
        assert(r@ =~= line@.drop_last());
        r
    } else {
        line
    }
}

/// Looks for the first response in the text that follows `file_pos` in an events
/// file, line by line, and moves `file_pos` behind all of that text, to the new end
/// of the file.
pub fn find_response(tail: &str, file_pos: &mut u64) -> (r: Option<String>)
    requires
        *old(file_pos) + span(tail@) <= u64::MAX,
    ensures
        match r {
            Some(message) => lines_response(lines_of(tail@)) == Some(message@),
            None => lines_response(lines_of(tail@)) is None,
        },
        *final(file_pos) == *old(file_pos) + span(tail@),
{
    let size: u64 = tail.as_bytes().len() as u64;
    *file_pos = *file_pos + size;
    let parts = text::split_on(tail, '\n');
    let ghost all = lines_of(tail@);
    let ghost pieces = text::pieces(tail@, '\n');
    proof {
        text::pieces_exist(tail@, '\n');
        assert(all.skip(0) == all);
    }
    let last: usize = parts.len() - 1;
    let mut i: usize = 0;
    while i < last
        invariant
            i <= last,
            last == parts@.len() - 1,
            parts@.len() == pieces.len(),
            pieces == text::pieces(tail@, '\n'),
            all == lines_of(tail@),
            forall|k: int| 0 <= k < parts@.len() ==> (#[trigger] parts@[k])@ == pieces[k],
            lines_response(all.skip(i as int)) == lines_response(all),
            *file_pos == *old(file_pos) + span(tail@),
        decreases last - i,
    {
        let line = line_without_return(parts[i]);
        assert(all.skip(i as int)[0] == line@);
        assert(all.skip(i as int).skip(1) == all.skip(i + 1));
        let found = response_of_line(line);
        if found.is_some() {
            return found;
        }
        i = i + 1;
    }
    let rest = parts[last];
    if rest.unicode_len() == 0 {
        assert(all.skip(i as int).len() == 0);
        return None;
    }
    assert(pieces.last() == rest@);
    assert(all.skip(i as int) =~= seq![rest@]);
    assert(lines_response(seq![rest@].skip(1)) is None);
    response_of_line(rest)
}

// ── Laws ────────────────────────────────────────────────────────────────

proof fn strip_keeps_first(s: Seq<char>)
    requires
        s.len() > 0,
        !text::is_whitespace(s[0]),
    ensures
        text::strip_back(s, None).len() > 0,
    decreases s.len(),
{
    if text::is_whitespace(s.last()) {
        strip_keeps_first(s.drop_last());
    }
}

/// What was recorded as a response is read back as that response, word for
/// word.
pub proof fn recorded_response_is_read_back(line: Seq<char>, payload: Seq<char>, ts: Seq<char>)
    requires
        is_event_line(line, RESPONSE_TOPIC@, payload, ts),
    ensures
        line_response(line) == Some(payload),
{
    keys_differ();
    strip_keeps_first(line);
    let event = event_tree(RESPONSE_TOPIC@, payload, ts);
    assert(event.text_entry(TOPIC_KEY@) == Some(RESPONSE_TOPIC@));
    assert(event.text_entry(PAYLOAD_KEY@) == Some(payload));
}

/// What was recorded as guidance is not read as a response, unless the record
/// contains the marker of the pipe-separated format.
pub proof fn recorded_guidance_is_no_response(line: Seq<char>, payload: Seq<char>, ts: Seq<char>)
    requires
        is_event_line(line, GUIDANCE_TOPIC@, payload, ts),
        !text::contains(line, PIPE_MARKER@),
    ensures
        line_response(line) is None,
{
    keys_differ();
    reveal_strlit("human.response");
    reveal_strlit("human.guidance");
    assert(RESPONSE_TOPIC@[6] == 'r' && GUIDANCE_TOPIC@[6] == 'g');
    let event = event_tree(GUIDANCE_TOPIC@, payload, ts);
    assert(event.text_entry(TOPIC_KEY@) == Some(GUIDANCE_TOPIC@));
}

/// A response that was recorded on a line of its own is found in the text of that
/// line.
pub proof fn recorded_response_is_found(line: Seq<char>, payload: Seq<char>, ts: Seq<char>)
    requires
        is_event_line(line, RESPONSE_TOPIC@, payload, ts),
    ensures
        lines_response(lines_of(line + "\n"@)) == Some(payload),
{
    reveal_strlit("\n");
    recorded_response_is_read_back(line, payload, ts);
    let source = line + "\n"@;
    text::whole_piece(line, '\n');
    assert(source.drop_last() == line);
    assert(source.last() == '\n');
    let parts = text::pieces(source, '\n');
    assert(parts =~= seq![line, Seq::empty()]);
    assert(without_return(line) == line) by {
        assert(line.last() == line[line.len() - 1]);
    }
    assert(lines_of(source) =~= seq![line]);
    assert(lines_of(source)[0] == line);
}

/// Looking through a text in two steps, of which the first ends in a line break,
/// comes to the same as in one: the response of the first step is found, or else
/// that of the second, and the position ends behind all the text.
pub proof fn search_resumes(earlier: Seq<char>, later: Seq<char>)
    requires
        earlier.len() > 0,
        earlier.last() == '\n',
    ensures
        lines_of(earlier + later) == lines_of(earlier) + lines_of(later),
        lines_response(lines_of(earlier + later)) == (if lines_response(lines_of(earlier)) is Some {
            lines_response(lines_of(earlier))
        } else {
            lines_response(lines_of(later))
        }),
        span(earlier + later) == span(earlier) + span(later),
{
    text::encoding_adds(earlier, later);
    text::pieces_add(earlier, later, '\n');
    text::pieces_exist(earlier, '\n');
    text::pieces_exist(earlier.drop_last(), '\n');
    text::pieces_exist(later, '\n');
    let a = text::pieces(earlier, '\n');
    let b = text::pieces(later, '\n');
    let both = text::pieces(earlier + later, '\n');
    assert(a.last().len() == 0);
    assert(both.last() == b.last());
    assert forall|i: int| 0 <= i < both.len() - 1 implies without_return(#[trigger] both[i]) == (
    if i < a.len() - 1 {
        without_return(a[i])
    } else {
        without_return(b[i - (a.len() - 1)])
    }) by {}
    assert(lines_of(earlier + later) =~= lines_of(earlier) + lines_of(later));
    search_skips(lines_of(earlier), lines_of(later));
}

proof fn search_skips(earlier: Seq<Seq<char>>, later: Seq<Seq<char>>)
    ensures
        lines_response(earlier + later) == (if lines_response(earlier) is Some {
            lines_response(earlier)
        } else {
            lines_response(later)
        }),
    decreases earlier.len(),
{
    if earlier.len() == 0 {
        assert(earlier + later == later);
    } else {
        assert((earlier + later).skip(1) == earlier.skip(1) + later);
        search_skips(earlier.skip(1), later);
    }
}

/// The record of an event is read as an object that holds the topic, the payload and the
/// time, word for word, and nothing else. An answer to a question has the topic
/// `human.response`, and any other message `human.guidance`.
pub proof fn records_hold_all(
    topic_words: &str,
    payload: &str,
    ts: &str,
    other: Seq<char>,
    line: String,
    is_response: bool,
    chosen: String,
)
    requires
        call_ensures(event_line, (topic_words, payload, ts), line),
        call_ensures(topic, (is_response,), chosen),
    ensures
        json::json_parsed(line@) is Some,
        ({
            let event = json::json_parsed(line@)->0;
            &&& event.entry("topic"@) == Some(JsonTree::Text(topic_words@))
            &&& event.entry("payload"@) == Some(JsonTree::Text(payload@))
            &&& event.entry("ts"@) == Some(JsonTree::Text(ts@))
            &&& other != "topic"@ && other != "payload"@ && other != "ts"@ ==> event.entry(
                other,
            ) is None
        }),
        text::one_line(line@),
        is_response ==> chosen@ == "human.response"@,
        !is_response ==> chosen@ == "human.guidance"@,
{
    keys_differ();
}

/// What a line with words in it says, given the document that it parses to: an object with
/// the topic `human.response` gives its payload, or nothing where that is no text; a line
/// with any other document, or none, gives a response exactly if it contains the marker of
/// the pipe-separated format. A blank line gives none.
pub proof fn responses_are_told_by_topic(
    line: &str,
    before: Seq<char>,
    words: Seq<char>,
    after: Seq<char>,
    document: Option<Json>,
    payload: Seq<char>,
    r: Option<String>,
)
    requires
        call_ensures(response_from, (line, document), r),
        line@ == before + words + after,
        text::is_blank(before),
        text::is_blank(after),
        words.len() > 0 ==> !text::is_whitespace(words[0]) && !text::is_whitespace(words.last()),
    ensures
        words.len() == 0 ==> r is None,
        words.len() > 0 && (document matches Some(event) && event.tree().entry("topic"@) == Some(
            JsonTree::Text("human.response"@),
        )) ==> {
            &&& document->0.tree().entry("payload"@) == Some(JsonTree::Text(payload)) ==> r is Some
                && r->0@ == payload
            &&& document->0.tree().text_entry("payload"@) is None ==> r is Some && r->0@.len() == 0
        },
        words.len() > 0 && !(document matches Some(event) && event.tree().entry("topic"@) == Some(
            JsonTree::Text("human.response"@),
        )) ==> (r is Some <==> text::contains(line@, "EVENT: human.response"@)),
{
    text::trimming_leaves_the_words(before, words, after);
}

proof fn later_field_is_found(fields: Seq<Seq<char>>, j: int)
    requires
        0 <= j <= fields.len(),
        forall|i: int|
            0 <= i < j ==> !text::occurs_at(text::trimmed(#[trigger] fields[i]), PIPE_FIELD@, 0),
    ensures
        message_field(fields) == message_field(fields.skip(j)),
    decreases j,
{
    if j > 0 {
        let rest = fields.skip(1);
        assert(!text::occurs_at(text::trimmed(fields[0]), PIPE_FIELD@, 0));
        assert forall|i: int| 0 <= i < j - 1 implies !text::occurs_at(
            text::trimmed(#[trigger] rest[i]),
            PIPE_FIELD@,
            0,
        ) by {
            assert(rest[i] == fields[i + 1]);
        }
        later_field_is_found(rest, j - 1);
        assert(rest.skip(j - 1) =~= fields.skip(j));
    } else {
        assert(fields.skip(0) =~= fields);
    }
}

/// In the pipe-separated format, the response is what follows `message:` in the first of
/// the fields between the pipes that begins so, without blanks and quotes around it. It is
/// empty where no field begins so.
pub proof fn piped_message_is_found(
    fields: Seq<Seq<char>>,
    j: int,
    before: Seq<char>,
    blanks: Seq<char>,
    opening: Seq<char>,
    message: Seq<char>,
    closing: Seq<char>,
    after: Seq<char>,
)
    requires
        0 <= j < fields.len(),
        forall|i: int| 0 <= i < fields.len() ==> !(#[trigger] fields[i]).contains('|'),
        forall|i: int|
            0 <= i < j ==> !text::occurs_at(text::trimmed(#[trigger] fields[i]), "message:"@, 0),
        fields[j] == before + ("message:"@ + blanks + (opening + message + closing)) + after,
        text::is_blank(before),
        text::is_blank(blanks),
        text::is_blank(after),
        forall|i: int| 0 <= i < opening.len() ==> #[trigger] opening[i] == '"',
        forall|i: int| 0 <= i < closing.len() ==> #[trigger] closing[i] == '"',
        message.len() > 0,
        message[0] != '"',
        message.last() != '"',
        opening.len() > 0 || !text::is_whitespace(message[0]),
        closing.len() > 0 || !text::is_whitespace(message.last()),
        text::contains(text::joined(fields, '|'), "EVENT: human.response"@),
        text::trimmed(text::joined(fields, '|')).len() > 0,
    ensures
        response_given(text::joined(fields, '|'), None) == Some(message),
{
    let key = "message:"@;
    reveal_strlit("message:");
    let none = Seq::<char>::empty();
    let quoted = opening + message + closing;
    let words = key + blanks + quoted;
    text::splitting_undoes_joining(fields, '|');
    later_field_is_found(fields, j);
    assert(quoted.len() > 0);
    assert(quoted[0] == (if opening.len() > 0 {
        opening[0]
    } else {
        message[0]
    }));
    assert(quoted.last() == (if closing.len() > 0 {
        closing[closing.len() - 1]
    } else {
        message.last()
    }));
    assert(!text::is_whitespace(quoted[0]) && !text::is_whitespace(quoted.last()));
    assert(words[0] == 'm');
    assert(words.last() == quoted.last());
    text::trimming_leaves_the_words(before, words, after);
    assert(fields.skip(j)[0] == fields[j]);
    assert(words.subrange(0, key.len() as int) =~= key);
    assert(words.skip(key.len() as int) =~= blanks + quoted + none);
    text::trimming_leaves_the_words(blanks, quoted, none);
    text::trimming_of_one_character(opening, message, closing, '"');
}

/// A line in the pipe-separated format without a field that begins with `message:` gives
/// an empty response.
pub proof fn piped_message_may_be_missing(fields: Seq<Seq<char>>)
    requires
        fields.len() > 0,
        forall|i: int| 0 <= i < fields.len() ==> !(#[trigger] fields[i]).contains('|'),
        forall|i: int|
            0 <= i < fields.len() ==> !text::occurs_at(
                text::trimmed(#[trigger] fields[i]),
                "message:"@,
                0,
            ),
        text::contains(text::joined(fields, '|'), "EVENT: human.response"@),
        text::trimmed(text::joined(fields, '|')).len() > 0,
    ensures
        response_given(text::joined(fields, '|'), None) == Some(Seq::<char>::empty()),
{
    text::splitting_undoes_joining(fields, '|');
    later_field_is_found(fields, fields.len() as int);
}

/// The lines of a text are what stands between its line breaks, `\n` or `\r\n`, and behind
/// the last of them.
pub proof fn line_breaks_end_lines(lines: Seq<Seq<char>>, long: Seq<bool>, rest: Seq<char>)
    requires
        lines.len() == long.len(),
        forall|i: int| 0 <= i < lines.len() ==> text::one_line(#[trigger] lines[i]),
        forall|i: int|
            0 <= i < lines.len() && (#[trigger] lines[i]).len() > 0 && !long[i]
                ==> lines[i].last() != '\r',
        text::one_line(rest),
    ensures
        ({
            let ended = Seq::new(
                lines.len(),
                |i: int|
                    if long[i] {
                        lines[i] + seq!['\r']
                    } else {
                        lines[i]
                    },
            );
            lines_of(text::lined(ended) + rest) == (if rest.len() > 0 {
                lines.push(rest)
            } else {
                lines
            })
        }),
{
    let ended = Seq::new(
        lines.len(),
        |i: int|
            if long[i] {
                lines[i] + seq!['\r']
            } else {
                lines[i]
            },
    );
    assert forall|i: int| 0 <= i < ended.len() implies text::one_line(#[trigger] ended[i]) by {
        assert(text::one_line(lines[i]));
        assert(text::one_line(seq!['\r']));
        text::one_line_adds(lines[i], seq!['\r']);
    }
    text::pieces_of_lines(ended, rest);
    assert forall|i: int| 0 <= i < lines.len() implies without_return(#[trigger] ended[i])
        == lines[i] by {
        if long[i] {
            assert((lines[i] + seq!['\r']).drop_last() =~= lines[i]);
        }
    }
    let parts = ended.push(rest);
    let all = Seq::new((parts.len() - 1) as nat, |i: int| without_return(parts[i]));
    assert(all =~= lines) by {
        assert forall|i: int| 0 <= i < lines.len() implies all[i] == lines[i] by {
            assert(parts[i] == ended[i]);
        }
    }
    assert(parts.last() == rest);
}

/// The response among lines is that of the first line that gives one, and there is none
/// where no line gives one.
pub proof fn first_response_counts(lines: Seq<Seq<char>>, i: int)
    requires
        0 <= i <= lines.len(),
        forall|k: int| 0 <= k < i ==> line_response(#[trigger] lines[k]) is None,
        i < lines.len() ==> line_response(lines[i]) is Some,
    ensures
        i < lines.len() ==> lines_response(lines) == line_response(lines[i]),
        i == lines.len() ==> lines_response(lines) is None,
    decreases i,
{
    if i > 0 {
        assert(line_response(lines[0]) is None);
        let rest = lines.skip(1);
        assert forall|k: int| 0 <= k < i - 1 implies line_response(#[trigger] rest[k]) is None by {
            assert(rest[k] == lines[k + 1]);
        }
        first_response_counts(rest, i - 1);
    }
}

/// A text takes as many bytes in a file as its encoding in UTF-8 has.
pub proof fn positions_count_bytes(source: Seq<char>)
    ensures
        span(source) == vstd::utf8::encode_utf8(source).len(),
{
}

/// A search through the text that follows a position gives the response of the first line
/// that has one, and none exactly if no line has one; the position moves behind the text.
pub proof fn searches_find_the_first(
    tail: &str,
    before: u64,
    after: u64,
    i: int,
    r: Option<String>,
)
    requires
        exists|pos: &mut u64|
            *pos == before && *final(pos) == after && #[trigger] call_ensures(
                find_response,
                (tail, pos),
                r,
            ),
        0 <= i <= lines_of(tail@).len(),
        forall|k: int| 0 <= k < i ==> line_response(#[trigger] lines_of(tail@)[k]) is None,
        i < lines_of(tail@).len() ==> line_response(lines_of(tail@)[i]) is Some,
    ensures
        after == before + vstd::utf8::encode_utf8(tail@).len(),
        i == lines_of(tail@).len() ==> r is None,
        i < lines_of(tail@).len() ==> r is Some && line_response(lines_of(tail@)[i]) == Some(
            r->0@,
        ),
{
    first_response_counts(lines_of(tail@), i);
}

/// What a line says is what it says with the document that it parses to.
pub proof fn lines_are_parsed(
    line: &str,
    document: Option<Json>,
    r: Option<String>,
    of_document: Option<String>,
)
    requires
        call_ensures(response_of_line, (line,), r),
        call_ensures(response_from, (line, document), of_document),
        json::tree_of(document) == json::json_parsed(line@),
    ensures
        r is Some <==> of_document is Some,
        r is Some ==> r->0@ == of_document->0@,
        r is Some ==> line_response(line@) == Some(r->0@),
        r is None ==> line_response(line@) is None,
{
}

} // verus!
