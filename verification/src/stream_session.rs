//! Reading a streamed answer: what is done next, step by step.
//!
//! The session never waits. It says what it needs next, and is told what came
//! of it: an event is decoded, chunks are delivered, bytes are received.
use vstd::prelude::*;

use crate::chat::StreamChunk;
use crate::error::{LLMError, LLMErrorView};
use crate::sse;
use crate::sse::{EventBuffer, SseEvent, SseEventView};
use crate::sse_laws;
use crate::stream_laws;
use crate::stream_laws::TypedEvent;
use crate::stream_parser;
use crate::stream_parser::{ChunkView, EventPayload, ParserState, ResponsesStreamParser};

verus! {

/// What came of waiting for more of the answer.
#[derive(Debug)]
pub enum Arrival {
    /// More bytes.
    Piece(Vec<u8>),
    /// The connection broke; the text says why.
    Broken(String),
    /// The answer is over.
    End,
}

/// What is done next.
#[derive(Debug)]
pub enum NextStep {
    /// The data of the event is read.
    Decode(SseEvent),
    /// The chunks are handed out.
    Deliver(Vec<Result<StreamChunk, LLMError>>),
    /// More of the answer is waited for.
    Receive,
    /// Nothing: the stream is over.
    Finish,
}

/// The state of a session: that of the parser, and the text that has arrived and
/// was not looked at yet.
pub struct SessionState {
    pub parser: ParserState,
    pub text: Seq<char>,
}

/// What is done next when the session goes on from `before`: the next complete
/// event is decoded, or, where there is none, more is received. Which of them it
/// is, and what the session is left with, `after` and `next` say.
pub open spec fn goes_on(before: SessionState, after: SessionState, next: NextStep) -> bool {
    &&& after.parser == before.parser
    &&& sse::residue(after.text) == sse::residue(before.text)
    &&& match next {
        NextStep::Decode(event) => sse::events(before.text) == seq![event.deep_view()]
            + sse::events(after.text),
        NextStep::Receive => sse::events(before.text).len() == 0 && after.text == sse::residue(
            before.text,
        ),
        _ => false,
    }
}

/// Reads a streamed answer.
pub struct StreamSession {
    parser: ResponsesStreamParser,
    buffer: EventBuffer,
}

impl View for StreamSession {
    type V = SessionState;

    closed spec fn view(&self) -> SessionState {
        SessionState { parser: self.parser@, text: self.buffer@ }
    }
}

impl StreamSession {
    /// No chunk is kept back.
    pub closed spec fn well_formed(&self) -> bool {
        self.parser.pending() == Seq::<ChunkView>::empty()
    }

    /// A session into which nothing has arrived.
    pub fn new() -> (r: Self)
        ensures
            r.well_formed(),
            r@ == (SessionState {
                parser: stream_parser::initial_state(),
                text: Seq::<char>::empty(),
            }),
    {
        StreamSession { parser: ResponsesStreamParser::new(), buffer: EventBuffer::new() }
    }

    /// Goes on, at the beginning and when chunks were delivered.
    pub fn resume(&mut self) -> (r: NextStep)
        requires
            old(self).well_formed(),
        ensures
            final(self).well_formed(),
            goes_on(old(self)@, final(self)@, r),
    {
        match self.buffer.next_event() {
            Some(event) => NextStep::Decode(event),
            None => NextStep::Receive,
        }
    }

    /// Goes on when the data of an event was read: the chunks that it gives are
    /// delivered, if there are any.
    pub fn decoded(&mut self, event_type: &str, payload: EventPayload) -> (r: NextStep)
        requires
            old(self).well_formed(),
        ensures
            final(self).well_formed(),
            ({
                let (parser, chunks) = stream_parser::step(
                    old(self)@.parser,
                    event_type@,
                    payload,
                );
                let stepped = SessionState { parser, text: old(self)@.text };
                if chunks.len() > 0 {
                    &&& final(self)@ == stepped
                    &&& r matches NextStep::Deliver(delivered)
                    &&& stream_parser::chunk_views(delivered@) == chunks
                } else {
                    goes_on(stepped, final(self)@, r)
                }
            }),
    {
        let chunks = self.parser.process_event(event_type, payload);
        assert(stream_parser::chunk_views(chunks@) =~= stream_parser::step(
            old(self)@.parser,
            event_type@,
            payload,
        ).1);
        if chunks.len() > 0 {
            NextStep::Deliver(chunks)
        } else {
            self.resume()
        }
    }

    /// Goes on when more of the answer was waited for. A broken connection is
    /// delivered as an error; the end of the answer is the end of the stream, and
    /// what is left of the text is dropped.
    pub fn received(&mut self, arrival: Arrival) -> (r: NextStep)
        requires
            old(self).well_formed(),
        ensures
            final(self).well_formed(),
            match arrival {
                Arrival::Piece(bytes) => {
                    let more = SessionState {
                        text: old(self)@.text + sse::utf8_lossy(bytes@),
                        ..old(self)@
                    };
                    &&& goes_on(more, final(self)@, r)
                    &&& vstd::utf8::valid_utf8(bytes@) ==> more.text == old(self)@.text
                        + vstd::utf8::decode_utf8(bytes@)
                },
                Arrival::Broken(reason) => {
                    &&& final(self)@ == old(self)@
                    &&& r matches NextStep::Deliver(delivered)
                    &&& delivered@.len() == 1
                    &&& delivered@[0] matches Err(error)
                    &&& error.deep_view() == LLMErrorView::HttpError(reason@)
                },
                Arrival::End => final(self)@ == old(self)@ && r is Finish,
            },
    {
        match arrival {
            Arrival::Piece(bytes) => {
                self.buffer.push_bytes(&bytes);
                self.resume()
            },
            Arrival::Broken(reason) => {
                let mut chunks: Vec<Result<StreamChunk, LLMError>> = Vec::new();
                chunks.push(Err(LLMError::HttpError(reason)));
                NextStep::Deliver(chunks)
            },
            Arrival::End => NextStep::Finish,
        }
    }
}

/// The events with their data read.
pub open spec fn typed_events(
    events: Seq<SseEventView>,
    decode: spec_fn(SseEventView) -> EventPayload,
) -> Seq<TypedEvent> {
    events.map_values(|event: SseEventView| (event.event_type, decode(event)))
}

/// What a session comes to when it goes on until it needs more: its state and all
/// the chunks that it delivers on the way.
pub open spec fn drained(
    s: SessionState,
    decode: spec_fn(SseEventView) -> EventPayload,
) -> (SessionState, Seq<ChunkView>) {
    let (parser, chunks) = stream_laws::run(s.parser, typed_events(sse::events(s.text), decode));
    (SessionState { parser, text: sse::residue(s.text) }, chunks)
}

/// What a session comes to when the pieces arrive one after the other and it goes
/// on until it needs more each time: its state and all the chunks that it
/// delivered.
pub open spec fn run_session(
    s: SessionState,
    pieces: Seq<Seq<char>>,
    decode: spec_fn(SseEventView) -> EventPayload,
) -> (SessionState, Seq<ChunkView>)
    decreases pieces.len(),
{
    if pieces.len() == 0 {
        (s, Seq::empty())
    } else {
        let more = SessionState { text: s.text + pieces[0], ..s };
        let (now, chunks) = drained(more, decode);
        let (last, later) = run_session(now, pieces.drop_first(), decode);
        (last, chunks + later)
    }
}

/// Each step of a session brings it on: where an event is to be decoded, what the
/// session comes to is what that event does and then what the rest comes to;
/// where more is to be received, the session has come to where it is.
pub proof fn law_session_goes_on_event_by_event(
    before: SessionState,
    after: SessionState,
    next: NextStep,
    decode: spec_fn(SseEventView) -> EventPayload,
)
    requires
        goes_on(before, after, next),
    ensures
        match next {
            NextStep::Decode(event) => {
                let (parser, chunks) = stream_parser::step(
                    before.parser,
                    event.event_type@,
                    decode(event.deep_view()),
                );
                let (last, later) = drained(SessionState { parser, text: after.text }, decode);
                drained(before, decode) == (last, chunks + later)
            },
            NextStep::Receive => drained(before, decode) == (after, Seq::<ChunkView>::empty()),
            _ => false,
        },
{
    match next {
        NextStep::Decode(event) => {
            let first = seq![event.deep_view()];
            let rest = sse::events(after.text);
            let head = typed_events(first, decode);
            assert(typed_events(first + rest, decode) =~= head + typed_events(rest, decode));
            stream_laws::law_run_in_two_parts(before.parser, head, typed_events(rest, decode));
            assert(head.drop_last() =~= Seq::<TypedEvent>::empty());
            reveal_with_fuel(stream_laws::run, 2);
            let chunks = stream_parser::step(
                before.parser,
                event.event_type@,
                decode(event.deep_view()),
            ).1;
            assert(stream_laws::run(before.parser, head).1 =~= chunks);
        },
        _ => {
            assert(typed_events(sse::events(before.text), decode) =~= Seq::<TypedEvent>::empty());
        },
    }
}

/// Where an answer is cut on its way does not matter: the session delivers the
/// chunks that the events of the whole text give, one after the other.
pub proof fn law_chunks_ignore_piece_boundaries(
    pieces: Seq<Seq<char>>,
    decode: spec_fn(SseEventView) -> EventPayload,
)
    ensures
        ({
            let start = SessionState {
                parser: stream_parser::initial_state(),
                text: Seq::<char>::empty(),
            };
            run_session(start, pieces, decode) == drained(
                SessionState { text: pieces.flatten(), ..start },
                decode,
            )
        }),
{
    let start = SessionState {
        parser: stream_parser::initial_state(),
        text: Seq::<char>::empty(),
    };
    lemma_run_session(start, pieces, decode);
    sse_laws::law_framing_ignores_piece_boundaries(pieces);
}

/// Where the bytes of an answer are cut does not matter either, as long as no cut
/// falls inside a character: the session delivers the chunks that the text gives
/// which all the bytes together encode.
pub proof fn law_chunks_ignore_cuts_between_characters(
    pieces: Seq<Seq<u8>>,
    decode: spec_fn(SseEventView) -> EventPayload,
)
    requires
        forall|i: int| 0 <= i < pieces.len() ==> vstd::utf8::valid_utf8(#[trigger] pieces[i]),
    ensures
        vstd::utf8::valid_utf8(pieces.flatten()),
        ({
            let start = SessionState {
                parser: stream_parser::initial_state(),
                text: Seq::<char>::empty(),
            };
            run_session(
                start,
                pieces.map_values(|piece: Seq<u8>| vstd::utf8::decode_utf8(piece)),
                decode,
            ) == drained(
                SessionState { text: vstd::utf8::decode_utf8(pieces.flatten()), ..start },
                decode,
            )
        }),
{
    sse_laws::lemma_decode_utf8_flatten(pieces);
    law_chunks_ignore_piece_boundaries(
        pieces.map_values(|piece: Seq<u8>| vstd::utf8::decode_utf8(piece)),
        decode,
    );
}

proof fn lemma_run_session(
    s: SessionState,
    pieces: Seq<Seq<char>>,
    decode: spec_fn(SseEventView) -> EventPayload,
)
    ensures
        ({
            let (events, rest) = sse_laws::run_pieces(s.text, pieces);
            let (parser, chunks) = stream_laws::run(s.parser, typed_events(events, decode));
            run_session(s, pieces, decode) == (SessionState { parser, text: rest }, chunks)
        }),
    decreases pieces.len(),
{
    if pieces.len() == 0 {
        assert(typed_events(Seq::<SseEventView>::empty(), decode) =~= Seq::<TypedEvent>::empty());
    } else {
        let text = s.text + pieces[0];
        let now = sse::events(text);
        let (later, rest) = sse_laws::run_pieces(sse::residue(text), pieces.drop_first());
        let parser = stream_laws::run(s.parser, typed_events(now, decode)).0;
        lemma_run_session(
            SessionState { parser, text: sse::residue(text) },
            pieces.drop_first(),
            decode,
        );
        assert(typed_events(now + later, decode) =~= typed_events(now, decode) + typed_events(
            later,
            decode,
        ));
        stream_laws::law_run_in_two_parts(
            s.parser,
            typed_events(now, decode),
            typed_events(later, decode),
        );
    }
}

/// Whether the session, with the parser and the text that it had, goes on as it should: to
/// the first event of the text, which it takes out, or, where there is none, to more text,
/// with what is left of the old one.
pub open spec fn takes_the_first_event(
    parser: ParserState,
    text: Seq<char>,
    after: SessionState,
    next: NextStep,
) -> bool {
    &&& after.parser == parser
    &&& sse::residue(after.text) == sse::residue(text)
    &&& sse::events(text).len() > 0 ==> {
        &&& next matches NextStep::Decode(event)
        &&& event.event_type@ == sse::events(text)[0].event_type
        &&& event.data@ == sse::events(text)[0].data
        &&& sse::events(after.text) == sse::events(text).skip(1)
    }
    &&& sse::events(text).len() == 0 ==> next is Receive && after.text == sse::residue(text)
}

proof fn lemma_takes_the_first_event(before: SessionState, after: SessionState, next: NextStep)
    requires
        goes_on(before, after, next),
    ensures
        takes_the_first_event(before.parser, before.text, after, next),
{
    if let NextStep::Decode(event) = next {
        assert(sse::events(before.text).skip(1) =~= sse::events(after.text));
    }
}

/// A new session has seen nothing, and going on takes the first event.
pub proof fn law_session_starts_and_goes_on(
    fresh: StreamSession,
    session: &mut StreamSession,
    next: NextStep,
)
    requires
        call_ensures(StreamSession::new, (), fresh),
        call_ensures(StreamSession::resume, (session,), next),
    ensures
        fresh.well_formed(),
        fresh@.text.len() == 0,
        fresh@.parser == stream_parser::initial_state(),
        final(session).well_formed(),
        takes_the_first_event(old(session)@.parser, old(session)@.text, final(session)@, next),
{
    lemma_takes_the_first_event(old(session)@, final(session)@, next);
}

/// When an event was read, the session delivers all the chunks that it gives, in order, and
/// takes nothing more of the text; where it gives none, the session goes on.
pub proof fn law_session_delivers_what_an_event_gives(
    session: &mut StreamSession,
    event_type: &str,
    payload: EventPayload,
    next: NextStep,
)
    requires
        call_ensures(StreamSession::decoded, (session, event_type, payload), next),
    ensures
        final(session).well_formed(),
        ({
            let (parser, chunks) = stream_parser::step(
                old(session)@.parser,
                event_type@,
                payload,
            );
            &&& chunks.len() > 0 ==> {
                &&& final(session)@.parser == parser
                &&& final(session)@.text == old(session)@.text
                &&& next matches NextStep::Deliver(delivered)
                &&& delivered@.len() == chunks.len()
                &&& forall|i: int|
                    0 <= i < chunks.len() ==> stream_laws::chunk_shows(
                        #[trigger] delivered@[i],
                        chunks[i],
                    )
            }
            &&& chunks.len() == 0 ==> takes_the_first_event(
                parser,
                old(session)@.text,
                final(session)@,
                next,
            )
        }),
{
    let (parser, chunks) = stream_parser::step(old(session)@.parser, event_type@, payload);
    if chunks.len() == 0 {
        lemma_takes_the_first_event(
            SessionState { parser, text: old(session)@.text },
            final(session)@,
            next,
        );
    } else if let NextStep::Deliver(delivered) = next {
        assert forall|i: int| 0 <= i < chunks.len() implies stream_laws::chunk_shows(
            #[trigger] delivered@[i],
            chunks[i],
        ) by {
            assert(stream_parser::chunk_views(delivered@)[i] == stream_parser::chunk_view(
                delivered@[i],
            ));
        }
    }
}

/// When bytes arrive they are added to the text, and the session goes on. A broken connection
/// is delivered as one error with its reason, and the end of the answer is the end; neither
/// changes the session.
pub proof fn law_session_takes_what_arrives(
    session: &mut StreamSession,
    arrival: Arrival,
    next: NextStep,
)
    requires
        call_ensures(StreamSession::received, (session, arrival), next),
    ensures
        final(session).well_formed(),
        arrival matches Arrival::Piece(bytes) ==> takes_the_first_event(
            old(session)@.parser,
            old(session)@.text + sse::utf8_lossy(bytes@),
            final(session)@,
            next,
        ),
        arrival matches Arrival::Piece(bytes) ==> vstd::utf8::valid_utf8(bytes@)
            ==> takes_the_first_event(
            old(session)@.parser,
            old(session)@.text + vstd::utf8::decode_utf8(bytes@),
            final(session)@,
            next,
        ),
        arrival matches Arrival::Broken(reason) ==> {
            &&& final(session)@ == old(session)@
            &&& next matches NextStep::Deliver(delivered)
            &&& delivered@.len() == 1
            &&& delivered@[0] matches Err(LLMError::HttpError(told))
            &&& told@ == reason@
        },
        arrival is End ==> next is Finish && final(session)@ == old(session)@,
{
    if let Arrival::Piece(bytes) = arrival {
        lemma_takes_the_first_event(
            SessionState { text: old(session)@.text + sse::utf8_lossy(bytes@), ..old(session)@ },
            final(session)@,
            next,
        );
    }
}

} // verus!
