//! Server-sent events: cutting the bytes of a response into events.
//!
//! An event is a block of lines that a blank line ends. `events` says which
//! events a text holds, `residue` what is left behind the last of them;
//! [`EventBuffer`] takes the bytes as they arrive and hands the events out.
use vstd::prelude::*;

use crate::text;
use crate::text::{begins_with, chars_of, position_of, split_lines, trimmed_from};

verus! {

/// One event: its type and its data.
#[derive(Debug)]
pub struct SseEvent {
    pub event_type: String,
    pub data: String,
}

/// An `SseEvent` with its texts as character sequences.
pub struct SseEventView {
    pub event_type: Seq<char>,
    pub data: Seq<char>,
}

impl DeepView for SseEvent {
    type V = SseEventView;

    open spec fn deep_view(&self) -> SseEventView {
        SseEventView { event_type: self.event_type@, data: self.data@ }
    }
}

/// The event of which nothing has been read yet.
pub open spec fn no_event() -> SseEventView {
    SseEventView { event_type: Seq::empty(), data: Seq::empty() }
}

/// What stands behind `name` in a line that begins with it, trimmed.
pub open spec fn field_value(line: Seq<char>, name: Seq<char>) -> Option<Seq<char>> {
    if name.is_prefix_of(line) {
        Some(text::trim(line.skip(name.len() as int)))
    } else {
        None
    }
}

/// `event` with one more line read: an `event:` line sets the type, a `data:`
/// line adds a line to the data, any other line says nothing.
pub open spec fn read_line(event: SseEventView, line: Seq<char>) -> SseEventView {
    match field_value(line, "event:"@) {
        Some(value) => SseEventView { event_type: value, ..event },
        None => match field_value(line, "data:"@) {
            Some(value) => SseEventView { data: text::append_line(event.data, value), ..event },
            None => event,
        },
    }
}

/// The event that the lines make up, read one after the other.
pub open spec fn read_lines(all: Seq<Seq<char>>) -> SseEventView
    decreases all.len(),
{
    if all.len() == 0 {
        no_event()
    } else {
        read_line(read_lines(all.drop_last()), all.last())
    }
}

/// The event that a block of text makes up.
pub open spec fn block_event(block: Seq<char>) -> SseEventView {
    read_lines(text::lines(block))
}

/// What ends an event.
pub open spec fn blank_line() -> Seq<char> {
    seq!['\n', '\n']
}

/// The events that stand complete in `text`, in order. A block without an event
/// type is none.
pub open spec fn events(text: Seq<char>) -> Seq<SseEventView>
    decreases text.len(),
{
    match text::find(text, blank_line()) {
        Some(i) => if 0 <= i <= text.len() - 2 {
            let event = block_event(text.take(i));
            let rest = events(text.skip(i + 2));
            if event.event_type.len() == 0 {
                rest
            } else {
                seq![event] + rest
            }
        } else {
            Seq::empty()
        },
        None => Seq::empty(),
    }
}

/// What is left of `text` behind its last complete block.
pub open spec fn residue(text: Seq<char>) -> Seq<char>
    decreases text.len(),
{
    match text::find(text, blank_line()) {
        Some(i) => if 0 <= i <= text.len() - 2 {
            residue(text.skip(i + 2))
        } else {
            text
        },
        None => text,
    }
}

/// What `String::from_utf8_lossy` of std makes of the bytes.
pub uninterp spec fn utf8_lossy(bytes: Seq<u8>) -> Seq<char>;

/// `String::from_utf8_lossy` of std: a function of the bytes alone, named
/// `utf8_lossy`. Bytes that are valid UTF-8 come out as the characters that
/// they encode; what stands in the place of invalid bytes is not stated.
#[verifier::external_body]
fn decode_lossy(bytes: &[u8]) -> (r: String)
    ensures
        r@ == utf8_lossy(bytes@),
        vstd::utf8::valid_utf8(bytes@) ==> r@ == vstd::utf8::decode_utf8(bytes@),
{
    String::from_utf8_lossy(bytes).into_owned()
}

/// Reads one block of lines.
fn parse_block(block: &[char]) -> (r: SseEvent)
    ensures
        r.deep_view() == block_event(block@),
{
    let event_name = chars_of("event:");
    let data_name = chars_of("data:");
    let all = split_lines(block);
    let mut event_type = String::new();
    let mut data = String::new();
    assert(text::texts(all@).take(0) =~= Seq::<Seq<char>>::empty());
    for k in 0..all.len()
        invariant
            event_name@ == "event:"@,
            data_name@ == "data:"@,
            (SseEventView { event_type: event_type@, data: data@ }) == read_lines(
                text::texts(all@).take(k as int),
            ),
    {
        let line = &all[k];
        proof {
            let upto = text::texts(all@).take(k + 1);
            assert(upto.drop_last() =~= text::texts(all@).take(k as int));
            assert(upto.last() == line@);
        }
        if begins_with(line, &event_name) {
            event_type = trimmed_from(line, event_name.len());
        } else if begins_with(line, &data_name) {
            let value = trimmed_from(line, data_name.len());
            if !data.as_str().is_empty() {
                data.push('\n');
            }
            data.append(value.as_str());
            assert(data@ =~= text::append_line(read_lines(text::texts(all@).take(k as int)).data, value@));
        }
    }
    assert(text::texts(all@).take(all@.len() as int) =~= text::lines(block@));
    SseEvent { event_type, data }
}

/// The bytes of a response that have arrived and belong to no event yet.
pub struct EventBuffer {
    text: Vec<char>,
}

impl View for EventBuffer {
    type V = Seq<char>;

    closed spec fn view(&self) -> Seq<char> {
        self.text@
    }
}

impl EventBuffer {
    /// A buffer into which nothing has arrived.
    pub fn new() -> (r: Self)
        ensures
            r@ == Seq::<char>::empty(),
    {
        EventBuffer { text: Vec::new() }
    }

    /// Takes in more of the text.
    pub fn push_text(&mut self, text: &str)
        ensures
            final(self)@ == old(self)@ + text@,
    {
        let mut more = chars_of(text);
        self.text.append(&mut more);
    }

    /// Takes in the bytes that arrived together.
    pub fn push_bytes(&mut self, bytes: &[u8])
        ensures
            final(self)@ == old(self)@ + utf8_lossy(bytes@),
            vstd::utf8::valid_utf8(bytes@) ==> final(self)@ == old(self)@
                + vstd::utf8::decode_utf8(bytes@),
    {
        let text = decode_lossy(bytes);
        self.push_text(text.as_str());
    }

    /// Hands out the next event that has arrived in full. `None` means that
    /// there is none: what is left then is the beginning of a block.
    pub fn next_event(&mut self) -> (r: Option<SseEvent>)
        ensures
            residue(final(self)@) == residue(old(self)@),
            match r {
                Some(event) => {
                    &&& events(old(self)@) == seq![event.deep_view()] + events(final(self)@)
                    &&& event.event_type@.len() > 0
                },
                None => events(old(self)@).len() == 0 && final(self)@ == residue(old(self)@),
            },
    {
        let separator = vec!['\n', '\n'];
        let mut searching = true;
        while searching
            invariant
                separator@ == blank_line(),
                residue(self@) == residue(old(self)@),
                events(self@) == events(old(self)@),
                !searching ==> text::find(self@, blank_line()) is None,
            decreases self@.len(), (if searching { 1int } else { 0int }),
        {
            match position_of(&self.text, &separator) {
                Some(i) => {
                    let ghost before = self@;
                    let mut rest = self.text.split_off(i);
                    let tail = rest.split_off(2);
                    let event = parse_block(&self.text);
                    assert(self.text@ =~= before.take(i as int));
                    assert(tail@ =~= before.skip(i + 2));
                    self.text = tail;
                    if !event.event_type.as_str().is_empty() {
                        return Some(event);
                    }
                },
                None => {
                    searching = false;
                },
            }
        }
        None
    }
}

} // verus!
