//! Laws of the event framing: how a response is cut into pieces on its way does
//! not matter, and an event that is written is read back.
use vstd::prelude::*;

use crate::sse;
use crate::sse::SseEventView;
use crate::text;

verus! {

/// The events that come out, and what is left, when the pieces arrive one after
/// the other behind `buffer` and all complete events are taken out each time.
pub open spec fn run_pieces(buffer: Seq<char>, pieces: Seq<Seq<char>>) -> (
    Seq<SseEventView>,
    Seq<char>,
)
    decreases pieces.len(),
{
    if pieces.len() == 0 {
        (Seq::empty(), buffer)
    } else {
        let text = buffer + pieces[0];
        let (later, rest) = run_pieces(sse::residue(text), pieces.drop_first());
        (sse::events(text) + later, rest)
    }
}

/// Taking the events out of `first` and then out of what is left with `second`
/// behind it gives what `first` and `second` give together.
pub proof fn law_events_of_two_pieces(first: Seq<char>, second: Seq<char>)
    ensures
        sse::events(first + second) == sse::events(first) + sse::events(sse::residue(first) + second),
        sse::residue(first + second) == sse::residue(sse::residue(first) + second),
    decreases first.len(),
{
    let both = first + second;
    let sep = sse::blank_line();
    text::lemma_find(first, sep);
    match text::find(first, sep) {
        Some(i) => {
            assert forall|j: int| 0 <= j <= first.len() - 2 implies text::occurs_at(first, sep, j)
                == text::occurs_at(both, sep, j) by {
                assert(first.subrange(j, j + 2) =~= both.subrange(j, j + 2));
            }
            text::lemma_find_is(both, sep, i);
            assert(both.take(i) =~= first.take(i));
            assert(both.skip(i + 2) =~= first.skip(i + 2) + second);
            law_events_of_two_pieces(first.skip(i + 2), second);
            let event = sse::block_event(first.take(i));
            let rest = sse::events(first.skip(i + 2));
            if event.event_type.len() == 0 {
                assert(sse::events(first) == rest);
            } else {
                assert(sse::events(first) == seq![event] + rest);
                assert(seq![event] + (rest + sse::events(sse::residue(first) + second)) =~= (seq![event]
                    + rest) + sse::events(sse::residue(first) + second));
            }
        },
        None => {
            assert(sse::events(first) + sse::events(both) =~= sse::events(both));
        },
    }
}

/// Nothing is complete in what is left: it holds no event and is its own residue.
pub proof fn law_residue_is_incomplete(text: Seq<char>)
    ensures
        text::find(sse::residue(text), sse::blank_line()) is None,
        sse::events(sse::residue(text)).len() == 0,
        sse::residue(sse::residue(text)) == sse::residue(text),
    decreases text.len(),
{
    text::lemma_find(text, sse::blank_line());
    if let Some(i) = text::find(text, sse::blank_line()) {
        law_residue_is_incomplete(text.skip(i + 2));
    }
}

proof fn lemma_run_pieces(buffer: Seq<char>, pieces: Seq<Seq<char>>)
    requires
        text::find(buffer, sse::blank_line()) is None,
    ensures
        run_pieces(buffer, pieces) == (
            sse::events(buffer + pieces.flatten()),
            sse::residue(buffer + pieces.flatten()),
        ),
    decreases pieces.len(),
{
    if pieces.len() == 0 {
        assert(buffer + pieces.flatten() =~= buffer);
    } else {
        let text = buffer + pieces[0];
        let tail = pieces.drop_first();
        law_residue_is_incomplete(text);
        lemma_run_pieces(sse::residue(text), tail);
        law_events_of_two_pieces(text, tail.flatten());
        assert(buffer + pieces.flatten() =~= text + tail.flatten());
    }
}

/// Where the text of a response is cut does not matter: whatever the pieces, the
/// events that come out and the residue are those of the whole.
pub proof fn law_framing_ignores_piece_boundaries(pieces: Seq<Seq<char>>)
    ensures
        run_pieces(Seq::empty(), pieces) == (sse::events(pieces.flatten()), sse::residue(pieces.flatten())),
{
    text::lemma_find(Seq::empty(), sse::blank_line());
    lemma_run_pieces(Seq::empty(), pieces);
    assert(Seq::empty() + pieces.flatten() =~= pieces.flatten());
}

proof fn lemma_encode_utf8_add(a: Seq<char>, b: Seq<char>)
    ensures
        vstd::utf8::encode_utf8(a + b) == vstd::utf8::encode_utf8(a) + vstd::utf8::encode_utf8(b),
    decreases a.len(),
{
    if a.len() == 0 {
        assert(a + b =~= b);
        assert(vstd::utf8::encode_utf8(a) + vstd::utf8::encode_utf8(b)
            =~= vstd::utf8::encode_utf8(b));
    } else {
        lemma_encode_utf8_add(a.drop_first(), b);
        assert((a + b).drop_first() =~= a.drop_first() + b);
        assert(vstd::utf8::encode_utf8(a + b) =~= vstd::utf8::encode_utf8(a)
            + vstd::utf8::encode_utf8(b));
    }
}

proof fn lemma_decode_utf8_add(a: Seq<u8>, b: Seq<u8>)
    requires
        vstd::utf8::valid_utf8(a),
        vstd::utf8::valid_utf8(b),
    ensures
        vstd::utf8::valid_utf8(a + b),
        vstd::utf8::decode_utf8(a + b) == vstd::utf8::decode_utf8(a) + vstd::utf8::decode_utf8(b),
{
    vstd::utf8::valid_utf8_concat(a, b);
    let ca = vstd::utf8::decode_utf8(a);
    let cb = vstd::utf8::decode_utf8(b);
    vstd::utf8::decode_utf8_encode_utf8(a);
    vstd::utf8::decode_utf8_encode_utf8(b);
    lemma_encode_utf8_add(ca, cb);
    vstd::utf8::encode_utf8_decode_utf8(ca + cb);
}

/// Pieces that each encode text encode, taken together, the texts one after the
/// other.
pub proof fn lemma_decode_utf8_flatten(pieces: Seq<Seq<u8>>)
    requires
        forall|i: int| 0 <= i < pieces.len() ==> vstd::utf8::valid_utf8(#[trigger] pieces[i]),
    ensures
        vstd::utf8::valid_utf8(pieces.flatten()),
        vstd::utf8::decode_utf8(pieces.flatten()) == pieces.map_values(
            |piece: Seq<u8>| vstd::utf8::decode_utf8(piece),
        ).flatten(),
    decreases pieces.len(),
{
    let decode = |piece: Seq<u8>| vstd::utf8::decode_utf8(piece);
    if pieces.len() == 0 {
        assert(vstd::utf8::decode_utf8(pieces.flatten()) =~= pieces.map_values(decode).flatten());
    } else {
        let tail = pieces.drop_first();
        lemma_decode_utf8_flatten(tail);
        lemma_decode_utf8_add(pieces[0], tail.flatten());
        assert(pieces.map_values(decode).drop_first() =~= tail.map_values(decode));
    }
}

/// Where the bytes of a response are cut does not matter either, as long as no
/// cut falls inside a character: the events that come out are those of the text
/// that all the bytes together encode.
pub proof fn law_framing_ignores_cuts_between_characters(pieces: Seq<Seq<u8>>)
    requires
        forall|i: int| 0 <= i < pieces.len() ==> vstd::utf8::valid_utf8(#[trigger] pieces[i]),
    ensures
        run_pieces(
            Seq::empty(),
            pieces.map_values(|piece: Seq<u8>| vstd::utf8::decode_utf8(piece)),
        ) == (
            sse::events(vstd::utf8::decode_utf8(pieces.flatten())),
            sse::residue(vstd::utf8::decode_utf8(pieces.flatten())),
        ),
{
    lemma_decode_utf8_flatten(pieces);
    law_framing_ignores_piece_boundaries(
        pieces.map_values(|piece: Seq<u8>| vstd::utf8::decode_utf8(piece)),
    );
}

/// An event of the given type with one line of data, as a server writes it.
pub open spec fn written_event(event_type: Seq<char>, data: Seq<char>) -> Seq<char> {
    "event: "@ + event_type + seq!['\n'] + "data: "@ + data + sse::blank_line()
}

/// Whether `s` is one line that neither begins nor ends with white space.
pub open spec fn is_trimmed_line(s: Seq<char>) -> bool {
    &&& forall|i: int| 0 <= i < s.len() ==> #[trigger] s[i] != '\n'
    &&& s.len() > 0 ==> !text::is_white(s[0]) && !text::is_white(s.last())
}

proof fn lemma_field_of_written_line(head: Seq<char>, name: Seq<char>, value: Seq<char>)
    requires
        head == name.push(' '),
        is_trimmed_line(value),
    ensures
        sse::field_value(head + value, name) == Some(value),
{
    let line = head + value;
    assert(line.subrange(0, name.len() as int) =~= name);
    let rest = line.skip(name.len() as int);
    assert(rest =~= seq![' '] + value);
    assert(rest[0] == ' ');
    assert(rest.skip(1) =~= value);
    assert(text::trim_start(rest) == text::trim_start(value));
    if value.len() > 0 {
        assert(text::trim_start(value) == value);
        assert(text::trim_end(value) == value);
    } else {
        assert(text::trim_start(value) == value);
        assert(text::trim_end(value) == value);
    }
}

/// What is written as an event, with a type that is not empty, is read back as
/// that event, and what is written behind it is read on its own.
#[verifier::spinoff_prover]
pub proof fn law_written_event_is_read_back(
    event_type: Seq<char>,
    data: Seq<char>,
    behind: Seq<char>,
)
    requires
        event_type.len() > 0,
        is_trimmed_line(event_type),
        is_trimmed_line(data),
    ensures
        sse::events(written_event(event_type, data) + behind) == seq![
            SseEventView { event_type, data },
        ] + sse::events(behind),
        sse::residue(written_event(event_type, data) + behind) == sse::residue(behind),
{
    reveal_strlit("event: ");
    reveal_strlit("event:");
    reveal_strlit("data: ");
    reveal_strlit("data:");
    let first = "event: "@ + event_type;
    let second = "data: "@ + data;
    let block = first + seq!['\n'] + second;
    let text = written_event(event_type, data) + behind;
    let n = block.len() as int;
    let f = first.len() as int;
    assert(text =~= block + sse::blank_line() + behind);
    assert(text.subrange(n, n + 2) =~= sse::blank_line());
    assert forall|j: int| 0 <= j < f implies first[j] != '\n' by {
        if j >= 7 {
            assert(first[j] == event_type[j - 7]);
        }
    }
    assert forall|j: int| 0 <= j < second.len() implies second[j] != '\n' by {
        if j >= 6 {
            assert(second[j] == data[j - 6]);
        }
    }
    assert forall|j: int| 0 <= j < n implies !text::occurs_at(text, sse::blank_line(), j) by {
        if text::occurs_at(text, sse::blank_line(), j) {
            assert(text.subrange(j, j + 2)[0] == text[j]);
            assert(text.subrange(j, j + 2)[1] == text[j + 1]);
            if j < f {
                assert(text[j] == first[j]);
            } else if j == f {
                assert(text[j + 1] == second[0]);
            } else {
                assert(text[j] == second[j - f - 1]);
            }
        }
    }
    text::lemma_find_is(text, sse::blank_line(), n);
    assert(text.take(n) =~= block);
    assert(text.skip(n + 2) =~= behind);
    // the lines of the block
    let newline = seq!['\n'];
    assert(block.subrange(f, f + 1) =~= newline);
    assert forall|j: int| 0 <= j < f implies !text::occurs_at(block, newline, j) by {
        if text::occurs_at(block, newline, j) {
            assert(block.subrange(j, j + 1)[0] == block[j]);
            assert(block[j] == first[j]);
        }
    }
    text::lemma_find_is(block, newline, f);
    assert(block.take(f) =~= first);
    assert(block.skip(f + 1) =~= second);
    text::lemma_find(second, newline);
    if text::has_substring(second, newline) {
        let j = choose|j: int| text::occurs_at(second, newline, j);
        assert(second.subrange(j, j + 1)[0] == second[j]);
    }
    assert(text::lines(second) == seq![second]);
    assert(first.last() == event_type.last());
    assert(text::is_white('\r'));
    assert(text::strip_carriage_return(first) == first);
    let all = text::lines(block);
    assert(all =~= seq![first, second]);
    // what they say
    assert("event: "@ =~= "event:"@.push(' '));
    assert("data: "@ =~= "data:"@.push(' '));
    lemma_field_of_written_line("event: "@, "event:"@, event_type);
    lemma_field_of_written_line("data: "@, "data:"@, data);
    assert(sse::field_value(second, "event:"@) is None) by {
        if "event:"@.is_prefix_of(second) {
            assert(second.subrange(0, 6)[0] == second[0]);
            assert("event:"@[0] == 'e');
            assert(second[0] == 'd');
        }
    }
    assert(all.drop_last() =~= seq![first]);
    assert(seq![first].drop_last() =~= Seq::<Seq<char>>::empty());
    assert(sse::read_lines(Seq::<Seq<char>>::empty()) == sse::no_event());
    assert(sse::read_lines(seq![first]) == sse::read_line(sse::no_event(), first));
    assert(sse::read_lines(all) == sse::read_line(sse::read_lines(seq![first]), second));
    assert(text::append_line(Seq::empty(), data) == data);
    assert(sse::block_event(block) == SseEventView { event_type, data });
}

} // verus!
