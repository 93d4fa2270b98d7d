//! What cutting a text into events promises, line by line and block by block.
use vstd::prelude::*;

use crate::sse;
use crate::sse::{EventBuffer, SseEvent, SseEventView};
use crate::text;

verus! {

/// A text with white space around it is trimmed to what stands between; what begins and
/// ends with something else is left as it is.
pub proof fn law_trimming(before: Seq<char>, core: Seq<char>, after: Seq<char>)
    requires
        forall|i: int| 0 <= i < before.len() ==> text::is_white(#[trigger] before[i]),
        forall|i: int| 0 <= i < after.len() ==> text::is_white(#[trigger] after[i]),
        core.len() > 0 ==> !text::is_white(core[0]) && !text::is_white(core.last()),
    ensures
        text::trim(before + core + after) == core,
{
    text::lemma_trim_ignores_space(before, core, after);
}

/// Whether the text holds no two line feeds in a row.
pub open spec fn has_no_blank_line(s: Seq<char>) -> bool {
    forall|i: int| 0 <= i < s.len() - 1 ==> !(#[trigger] s[i] == '\n' && s[i + 1] == '\n')
}

/// A text without a blank line holds no event, and all of it is left.
pub proof fn law_text_without_a_blank_line(s: Seq<char>)
    requires
        has_no_blank_line(s),
    ensures
        sse::events(s).len() == 0,
        sse::residue(s) == s,
{
    text::lemma_find(s, sse::blank_line());
    assert forall|i: int| !text::occurs_at(s, sse::blank_line(), i) by {
        if text::occurs_at(s, sse::blank_line(), i) {
            assert(s.subrange(i, i + 2)[0] == '\n' && s.subrange(i, i + 2)[1] == '\n');
            assert(s[i] == '\n' && s[i + 1] == '\n');
        }
    }
}

/// A block ends at the first blank line. It is an event where it has a type, and no
/// event otherwise; what stands behind the blank line is read as if nothing had come
/// before.
pub proof fn law_block_ends_at_a_blank_line(block: Seq<char>, rest: Seq<char>)
    requires
        has_no_blank_line(block.push('\n')),
    ensures
        ({
            let whole = block + seq!['\n', '\n'] + rest;
            let event = sse::block_event(block);
            &&& sse::residue(whole) == sse::residue(rest)
            &&& event.event_type.len() > 0 ==> sse::events(whole) == seq![event] + sse::events(rest)
            &&& event.event_type.len() == 0 ==> sse::events(whole) == sse::events(rest)
        }),
{
    let whole = block + seq!['\n', '\n'] + rest;
    let n = block.len() as int;
    assert(whole.subrange(n, n + 2) =~= sse::blank_line());
    assert forall|j: int| 0 <= j < n implies !text::occurs_at(whole, sse::blank_line(), j) by {
        if text::occurs_at(whole, sse::blank_line(), j) {
            assert(whole.subrange(j, j + 2)[0] == '\n' && whole.subrange(j, j + 2)[1] == '\n');
            assert(block.push('\n')[j] == whole[j] && block.push('\n')[j + 1] == whole[j + 1]);
        }
    }
    text::lemma_find_is(whole, sse::blank_line(), n);
    assert(whole.take(n) =~= block);
    assert(whole.skip(n + 2) =~= rest);
}

/// An empty block is no event.
pub proof fn law_empty_block()
    ensures
        sse::block_event(Seq::empty()) == (SseEventView {
            event_type: Seq::empty(),
            data: Seq::empty(),
        }),
{
}

/// What an event is with one more line: an `event:` line sets its type, a `data:` line
/// adds a line to its data, and any other line says nothing. What stands behind the
/// colon is trimmed.
pub open spec fn with_line(event: SseEventView, line: Seq<char>, longer: SseEventView) -> bool {
    &&& forall|value: Seq<char>|
        line == #[trigger] ("event:"@ + value) ==> longer.event_type == text::trim(value)
            && longer.data == event.data
    &&& forall|value: Seq<char>|
        line == #[trigger] ("data:"@ + value) ==> longer.event_type == event.event_type
            && longer.data == (if event.data.len() == 0 {
            text::trim(value)
        } else {
            event.data + seq!['\n'] + text::trim(value)
        })
    &&& !"event:"@.is_prefix_of(line) && !"data:"@.is_prefix_of(line) ==> longer == event
}

/// A block is read line by line: one more line at its end does what that line says, and
/// leaves the rest as it was.
pub proof fn law_block_is_read_line_by_line(block: Seq<char>, line: Seq<char>)
    requires
        forall|i: int| 0 <= i < line.len() ==> #[trigger] line[i] != '\n',
    ensures
        with_line(
            sse::block_event(block),
            line,
            sse::block_event(block + seq!['\n'] + line),
        ),
        with_line(
            SseEventView { event_type: Seq::empty(), data: Seq::empty() },
            line,
            sse::block_event(line),
        ),
{
    lemma_lines_of_longer_block(sse::no_event(), block, line);
    lemma_read_from_start(text::lines(block));
    lemma_read_from_start(text::lines(block + seq!['\n'] + line));
    lemma_lines_of_one_line(sse::no_event(), line);
    lemma_read_from_start(text::lines(line));
    lemma_read_line(sse::block_event(block), line);
    lemma_read_line(sse::no_event(), line);
}

/// `start` with the lines read, one after the other.
spec fn read_from(start: SseEventView, all: Seq<Seq<char>>) -> SseEventView
    decreases all.len(),
{
    if all.len() == 0 {
        start
    } else {
        sse::read_line(read_from(start, all.drop_last()), all.last())
    }
}

proof fn lemma_read_from_start(all: Seq<Seq<char>>)
    ensures
        read_from(sse::no_event(), all) == sse::read_lines(all),
    decreases all.len(),
{
    if all.len() > 0 {
        lemma_read_from_start(all.drop_last());
    }
}

proof fn lemma_read_from_one_more(start: SseEventView, first: Seq<char>, rest: Seq<Seq<char>>)
    ensures
        read_from(start, seq![first] + rest) == read_from(sse::read_line(start, first), rest),
    decreases rest.len(),
{
    let all = seq![first] + rest;
    if rest.len() == 0 {
        assert(all =~= seq![first]);
        assert(all.drop_last() =~= Seq::<Seq<char>>::empty());
        assert(read_from(start, all.drop_last()) == start);
    } else {
        assert(all.drop_last() =~= seq![first] + rest.drop_last());
        assert(all.last() == rest.last());
        lemma_read_from_one_more(start, first, rest.drop_last());
    }
}

proof fn lemma_find_no_newline(s: Seq<char>)
    requires
        forall|i: int| 0 <= i < s.len() ==> #[trigger] s[i] != '\n',
    ensures
        text::find(s, seq!['\n']) is None,
{
    text::lemma_find(s, seq!['\n']);
    if text::has_substring(s, seq!['\n']) {
        let i = choose|i: int| text::occurs_at(s, seq!['\n'], i);
        assert(s.subrange(i, i + 1)[0] == '\n');
        assert(s[i] == '\n');
    }
}

proof fn lemma_lines_of_one_line(start: SseEventView, line: Seq<char>)
    requires
        forall|i: int| 0 <= i < line.len() ==> #[trigger] line[i] != '\n',
    ensures
        read_from(start, text::lines(line)) == sse::read_line(start, line),
{
    lemma_find_no_newline(line);
    reveal_strlit("event:");
    reveal_strlit("data:");
    if line.len() > 0 {
        assert(text::lines(line) == seq![line]);
        assert(seq![line].drop_last() =~= Seq::<Seq<char>>::empty());
        assert(read_from(start, seq![line].drop_last()) == start);
    }
}

proof fn lemma_read_stripped_line(start: SseEventView, line: Seq<char>)
    ensures
        sse::read_line(start, text::strip_carriage_return(line)) == sse::read_line(start, line),
{
    reveal_strlit("event:");
    reveal_strlit("data:");
    if line.len() > 0 && line.last() == '\r' {
        let stripped = line.drop_last();
        assert(line =~= stripped.push('\r'));
        lemma_field_of_stripped_line(stripped, "event:"@);
        lemma_field_of_stripped_line(stripped, "data:"@);
    }
}

proof fn lemma_field_of_stripped_line(stripped: Seq<char>, name: Seq<char>)
    requires
        name.len() > 0,
        name.last() != '\r',
    ensures
        sse::field_value(stripped.push('\r'), name) == sse::field_value(stripped, name),
{
    let line = stripped.push('\r');
    if name.is_prefix_of(line) {
        if name.len() == line.len() {
            assert(name =~= line);
        }
        assert(line.take(name.len() as int) =~= name);
        assert(stripped.take(name.len() as int) =~= name);
        let value = stripped.skip(name.len() as int);
        assert(line.skip(name.len() as int) =~= Seq::<char>::empty() + value + seq!['\r']);
        text::lemma_trim_ignores_space(Seq::empty(), value, seq!['\r']);
    } else if name.is_prefix_of(stripped) {
        assert(line.take(name.len() as int) =~= name);
    }
}

proof fn lemma_lines_of_longer_block(start: SseEventView, block: Seq<char>, line: Seq<char>)
    requires
        forall|i: int| 0 <= i < line.len() ==> #[trigger] line[i] != '\n',
    ensures
        read_from(start, text::lines(block + seq!['\n'] + line)) == sse::read_line(
            read_from(start, text::lines(block)),
            line,
        ),
    decreases block.len(),
{
    let whole = block + seq!['\n'] + line;
    let newline = seq!['\n'];
    text::lemma_find(block, newline);
    match text::find(block, newline) {
        Some(i) => {
            assert(whole.subrange(i, i + 1) =~= block.subrange(i, i + 1));
            assert forall|j: int| 0 <= j < i implies !text::occurs_at(whole, newline, j) by {
                if text::occurs_at(whole, newline, j) {
                    assert(whole.subrange(j, j + 1) =~= block.subrange(j, j + 1));
                    assert(text::occurs_at(block, newline, j));
                }
            }
            text::lemma_find_is(whole, newline, i);
            assert(whole.take(i) =~= block.take(i));
            let tail = block.skip(i + 1);
            assert(whole.skip(i + 1) =~= tail + seq!['\n'] + line);
            let first = text::strip_carriage_return(block.take(i));
            lemma_lines_of_longer_block(sse::read_line(start, first), tail, line);
            lemma_read_from_one_more(start, first, text::lines(whole.skip(i + 1)));
            lemma_read_from_one_more(start, first, text::lines(tail));
        },
        None => {
            let n = block.len() as int;
            assert(whole.subrange(n, n + 1) =~= newline);
            assert forall|j: int| 0 <= j < n implies !text::occurs_at(whole, newline, j) by {
                if text::occurs_at(whole, newline, j) {
                    assert(whole.subrange(j, j + 1) =~= block.subrange(j, j + 1));
                    assert(text::occurs_at(block, newline, j));
                }
            }
            text::lemma_find_is(whole, newline, n);
            assert(whole.take(n) =~= block);
            assert(whole.skip(n + 1) =~= line);
            let first = text::strip_carriage_return(block);
            lemma_read_from_one_more(start, first, text::lines(line));
            lemma_read_stripped_line(start, block);
            lemma_lines_of_one_line(sse::read_line(start, first), line);
            assert forall|i: int| 0 <= i < block.len() implies #[trigger] block[i] != '\n' by {
                if block[i] == '\n' {
                    assert(block.subrange(i, i + 1) =~= newline);
                    assert(text::occurs_at(block, newline, i));
                }
            }
            lemma_lines_of_one_line(start, block);
        },
    }
}

proof fn lemma_read_line(event: SseEventView, line: Seq<char>)
    ensures
        with_line(event, line, sse::read_line(event, line)),
{
    let longer = sse::read_line(event, line);
    reveal_strlit("event:");
    reveal_strlit("data:");
    assert forall|value: Seq<char>| line == #[trigger] ("event:"@ + value) implies longer.event_type
        == text::trim(value) && longer.data == event.data by {
        assert(line.skip(6) =~= value);
        assert(line.take(6) =~= "event:"@);
        assert("event:"@.is_prefix_of(line));
    }
    assert forall|value: Seq<char>| line == #[trigger] ("data:"@ + value) implies longer.event_type
        == event.event_type && longer.data == (if event.data.len() == 0 {
        text::trim(value)
    } else {
        event.data + seq!['\n'] + text::trim(value)
    }) by {
        assert(line.skip(5) =~= value);
        assert(line.take(5) =~= "data:"@);
        assert("data:"@.is_prefix_of(line));
        assert(line[0] == 'd');
        assert("event:"@[0] == 'e');
        assert(!"event:"@.is_prefix_of(line));
        assert(event.data.push('\n') + text::trim(value) =~= event.data + seq!['\n'] + text::trim(
            value,
        ));
    }
}

/// A new buffer is empty, and what arrives is added at its end.
pub proof fn law_buffer_keeps_what_arrives(
    fresh: EventBuffer,
    buffer: &mut EventBuffer,
    more: &str,
)
    requires
        call_ensures(EventBuffer::new, (), fresh),
        call_ensures(EventBuffer::push_text, (buffer, more), ()),
    ensures
        fresh@.len() == 0,
        final(buffer)@ == old(buffer)@ + more@,
{
}

/// Bytes that encode text are added at the end of the buffer as that text.
pub proof fn law_buffer_keeps_what_bytes_encode(buffer: &mut EventBuffer, bytes: &[u8])
    requires
        call_ensures(EventBuffer::push_bytes, (buffer, bytes), ()),
    ensures
        final(buffer)@ == old(buffer)@ + sse::utf8_lossy(bytes@),
        vstd::utf8::valid_utf8(bytes@) ==> final(buffer)@ == old(buffer)@
            + vstd::utf8::decode_utf8(bytes@),
{
}

/// The buffer hands out its events one by one, first come first, each with its type and
/// its data, and keeps the others and what is left behind them.
pub proof fn law_buffer_hands_out_the_first_event(
    buffer: &mut EventBuffer,
    r: Option<SseEvent>,
)
    requires
        call_ensures(EventBuffer::next_event, (buffer,), r),
    ensures
        r is Some <==> sse::events(old(buffer)@).len() > 0,
        r matches Some(event) ==> {
            &&& event.event_type@ == sse::events(old(buffer)@)[0].event_type
            &&& event.data@ == sse::events(old(buffer)@)[0].data
            &&& event.event_type@.len() > 0
            &&& sse::events(final(buffer)@) == sse::events(old(buffer)@).skip(1)
        },
        r is None ==> sse::events(final(buffer)@).len() == 0 && final(buffer)@ == sse::residue(
            old(buffer)@,
        ),
        sse::residue(final(buffer)@) == sse::residue(old(buffer)@),
{
    match r {
        Some(event) => {
            assert(sse::events(old(buffer)@).skip(1) =~= sse::events(final(buffer)@));
        },
        None => {
            crate::sse_laws::law_residue_is_incomplete(old(buffer)@);
        },
    }
}

/// White space is what Unicode says it is: six characters of ASCII, and those that are listed
/// behind them.
pub proof fn law_white_space(c: char)
    ensures
        text::is_white(c) <==> {
            ||| c == ' ' || c == '\t' || c == '\n' || c == '\r' || c == '\u{b}' || c == '\u{c}'
            ||| c == '\u{85}' || c == '\u{a0}' || c == '\u{1680}'
            ||| '\u{2000}' <= c <= '\u{200a}'
            ||| c == '\u{2028}' || c == '\u{2029}' || c == '\u{202f}' || c == '\u{205f}'
            ||| c == '\u{3000}'
        },
{
}

} // verus!
