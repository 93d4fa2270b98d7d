//! Laws of the stream parser, over whole sequences of events.
use vstd::prelude::*;

use crate::chat::{StreamChunk, StreamChunkView, ToolCallView};
use crate::error::{LLMError, LLMErrorView};
use crate::stream_parser;
use crate::stream_parser::{
    ChunkView, CompletedEvent, CompletedResponse, EventKind, EventPayload, FnArgsDeltaEvent,
    FnArgsDoneEvent, FnCallView, ItemAddedEvent, ItemStateView, ParserState,
    ResponsesStreamParser, TextDeltaEvent,
};
use crate::text;

verus! {

/// An event: its type and its data.
pub type TypedEvent = (Seq<char>, EventPayload);

/// What a sequence of events does: the state behind it and all the chunks that
/// it gives.
pub open spec fn run(s: ParserState, events: Seq<TypedEvent>) -> (ParserState, Seq<ChunkView>)
    decreases events.len(),
{
    if events.len() == 0 {
        (s, Seq::empty())
    } else {
        let (before, chunks) = run(s, events.drop_last());
        let (after, more) = stream_parser::step(before, events.last().0, events.last().1);
        (after, chunks + more)
    }
}

/// The seven types of events that the parser knows, and no other, are told apart.
pub proof fn law_event_types(event_type: Seq<char>)
    ensures
        stream_parser::event_kind(event_type) == EventKind::ItemAdded <==> event_type
            == "response.output_item.added"@,
        stream_parser::event_kind(event_type) == EventKind::TextDelta <==> event_type
            == "response.output_text.delta"@,
        stream_parser::event_kind(event_type) == EventKind::FnArgsDelta <==> event_type
            == "response.function_call_arguments.delta"@,
        stream_parser::event_kind(event_type) == EventKind::FnArgsDone <==> event_type
            == "response.function_call_arguments.done"@,
        stream_parser::event_kind(event_type) == EventKind::Completed <==> event_type
            == "response.completed"@,
        stream_parser::event_kind(event_type) == EventKind::Failed <==> event_type
            == "response.failed"@,
        stream_parser::event_kind(event_type) == EventKind::Incomplete <==> event_type
            == "response.incomplete"@,
{
    reveal_strlit("response.output_item.added");
    reveal_strlit("response.output_text.delta");
    reveal_strlit("response.function_call_arguments.delta");
    reveal_strlit("response.function_call_arguments.done");
    reveal_strlit("response.completed");
    reveal_strlit("response.failed");
    reveal_strlit("response.incomplete");
    assert("response.output_item.added"@[16] != "response.output_text.delta"@[16]);
    assert("response.output_item.added"@.len() == 26);
    assert("response.output_text.delta"@.len() == 26);
    assert("response.function_call_arguments.delta"@.len() == 38);
    assert("response.function_call_arguments.done"@.len() == 37);
    assert("response.completed"@.len() == 18);
    assert("response.failed"@.len() == 15);
    assert("response.incomplete"@.len() == 19);
}

/// An event whose type is none of the seven does nothing, whatever its data.
pub proof fn law_unknown_event_types_are_ignored(
    s: ParserState,
    event_type: Seq<char>,
    payload: EventPayload,
)
    requires
        event_type != "response.output_item.added"@,
        event_type != "response.output_text.delta"@,
        event_type != "response.function_call_arguments.delta"@,
        event_type != "response.function_call_arguments.done"@,
        event_type != "response.completed"@,
        event_type != "response.failed"@,
        event_type != "response.incomplete"@,
    ensures
        stream_parser::step(s, event_type, payload) == (s, Seq::<ChunkView>::empty()),
{
    law_event_types(event_type);
}

/// Whether the event announces a function call.
pub open spec fn starts_function_call(event: TypedEvent) -> bool {
    &&& event.0 == "response.output_item.added"@
    &&& event.1 matches EventPayload::ItemAdded(added)
    &&& added.item.item_type@ == "function_call"@
}

/// Whether the event announces the function call of the item `id`.
pub open spec fn announces(event: TypedEvent, id: Seq<char>) -> bool {
    starts_function_call(event) && event.1->ItemAdded_0.item.id@ == id
}

/// Whether the event opens or closes the call of the item `id`.
pub open spec fn opens_or_closes(event: TypedEvent, id: Seq<char>) -> bool {
    ||| announces(event, id)
    ||| event.0 == "response.function_call_arguments.done"@ && (event.1 matches
        EventPayload::FnArgsDone(done) && done.item_id@ == id)
}

/// The text that the event adds to the answer.
pub open spec fn event_text(event: TypedEvent) -> Seq<char> {
    if event.0 == "response.output_text.delta"@ {
        match event.1 {
            EventPayload::TextDelta(delta) => delta.delta@,
            _ => Seq::empty(),
        }
    } else {
        Seq::empty()
    }
}

/// The text that a chunk brings.
pub open spec fn chunk_text(chunk: ChunkView) -> Seq<char> {
    match chunk {
        Ok(StreamChunkView::Text(text)) => text,
        _ => Seq::empty(),
    }
}

/// The texts of the events, one behind the other.
pub open spec fn events_text(events: Seq<TypedEvent>) -> Seq<char>
    decreases events.len(),
{
    if events.len() == 0 {
        Seq::empty()
    } else {
        events_text(events.drop_last()) + event_text(events.last())
    }
}

/// The texts of the chunks, one behind the other.
pub open spec fn chunks_text(chunks: Seq<ChunkView>) -> Seq<char>
    decreases chunks.len(),
{
    if chunks.len() == 0 {
        Seq::empty()
    } else {
        chunks_text(chunks.drop_last()) + chunk_text(chunks.last())
    }
}

proof fn lemma_chunks_text_add(a: Seq<ChunkView>, b: Seq<ChunkView>)
    ensures
        chunks_text(a + b) == chunks_text(a) + chunks_text(b),
    decreases b.len(),
{
    if b.len() == 0 {
        assert(a + b =~= a);
        assert(chunks_text(a) + chunks_text(b) =~= chunks_text(a));
    } else {
        lemma_chunks_text_add(a, b.drop_last());
        assert((a + b).drop_last() =~= a + b.drop_last());
        assert(chunks_text(a + b) =~= chunks_text(a) + chunks_text(b));
    }
}

/// Running one event after the other is running all of them: a run can be cut
/// anywhere.
pub proof fn law_run_in_two_parts(s: ParserState, first: Seq<TypedEvent>, second: Seq<TypedEvent>)
    ensures
        run(s, first + second).0 == run(run(s, first).0, second).0,
        run(s, first + second).1 == run(s, first).1 + run(run(s, first).0, second).1,
    decreases second.len(),
{
    if second.len() == 0 {
        assert(first + second =~= first);
        assert(run(s, first).1 + Seq::<ChunkView>::empty() =~= run(s, first).1);
    } else {
        law_run_in_two_parts(s, first, second.drop_last());
        assert((first + second).drop_last() =~= first + second.drop_last());
        assert(run(s, first + second).1 =~= run(s, first).1 + run(run(s, first).0, second).1);
    }
}

/// The chunks bring exactly the text that the events brought, in order.
pub proof fn law_streamed_text_is_complete(s: ParserState, events: Seq<TypedEvent>)
    ensures
        chunks_text(run(s, events).1) == events_text(events),
    decreases events.len(),
{
    if events.len() > 0 {
        law_streamed_text_is_complete(s, events.drop_last());
        let (before, chunks) = run(s, events.drop_last());
        let more = stream_parser::step(before, events.last().0, events.last().1).1;
        law_event_types(events.last().0);
        lemma_chunks_text_add(chunks, more);
        reveal_with_fuel(chunks_text, 3);
        if more.len() == 1 {
            assert(more.drop_last() =~= Seq::<ChunkView>::empty());
            assert(chunks_text(more) =~= chunk_text(more[0]));
        } else if more.len() == 2 {
            assert(more.drop_last().drop_last() =~= Seq::<ChunkView>::empty());
            assert(chunks_text(more) =~= chunk_text(more[0]) + chunk_text(more[1]));
        }
        assert(chunks_text(more) =~= event_text(events.last()));
    }
}

/// No chunk is an empty text.
pub proof fn law_text_chunks_are_not_empty(s: ParserState, events: Seq<TypedEvent>, i: int)
    requires
        0 <= i < run(s, events).1.len(),
    ensures
        run(s, events).1[i] matches Ok(StreamChunkView::Text(text)) ==> text.len() > 0,
    decreases events.len(),
{
    if events.len() > 0 {
        let chunks = run(s, events.drop_last()).1;
        if i < chunks.len() {
            law_text_chunks_are_not_empty(s, events.drop_last(), i);
        }
    }
}

/// A completed answer ends with `tool_use` exactly where one of the events
/// announced a function call, and with `end_turn` otherwise.
pub proof fn law_stop_reason_tells_of_function_calls(events: Seq<TypedEvent>)
    ensures
        stream_parser::stop_reason(run(stream_parser::initial_state(), events).0) == (
        if exists|i: int| 0 <= i < events.len() && starts_function_call(#[trigger] events[i]) {
            "tool_use"@
        } else {
            "end_turn"@
        }),
{
    lemma_has_function_calls(events);
}

/// A completed answer gives its usage, where its data can be read and tells of
/// one, and then its end and nothing more; the end says whether one of the events
/// before announced a function call, even one that is complete by now. Data that
/// cannot be read is no error.
pub proof fn law_completed_answer_ends_the_stream(
    events: Seq<TypedEvent>,
    event_type: Seq<char>,
    payload: EventPayload,
)
    requires
        stream_parser::event_kind(event_type) == EventKind::Completed,
    ensures
        ({
            let before = run(stream_parser::initial_state(), events).0;
            let end: ChunkView = Ok(
                StreamChunkView::Done {
                    stop_reason: if exists|i: int|
                        0 <= i < events.len() && starts_function_call(#[trigger] events[i]) {
                        "tool_use"@
                    } else {
                        "end_turn"@
                    },
                },
            );
            let (after, chunks) = stream_parser::step(before, event_type, payload);
            &&& after == before
            &&& match payload {
                EventPayload::Completed(
                    CompletedEvent { response: CompletedResponse { usage: Some(usage) } },
                ) => {
                    let told: ChunkView = Ok(StreamChunkView::Usage(usage));
                    chunks == seq![told, end]
                },
                _ => chunks == seq![end],
            }
        }),
{
    law_stop_reason_tells_of_function_calls(events);
}

/// A completed answer gives its usage, where its data can be read and tells of
/// one, and then its end and nothing more; the end says whether one of the events
/// before announced a function call, even one that is complete by now. Data that
/// cannot be read is no error.
pub proof fn law_completed_answer_tells_usage_and_ends(
    events: Seq<TypedEvent>,
    payload: EventPayload,
)
    ensures
        ({
            let before = run(stream_parser::initial_state(), events).0;
            let end: ChunkView = Ok(
                StreamChunkView::Done {
                    stop_reason: if exists|i: int|
                        0 <= i < events.len() && starts_function_call(#[trigger] events[i]) {
                        "tool_use"@
                    } else {
                        "end_turn"@
                    },
                },
            );
            let (after, chunks) = stream_parser::step(before, "response.completed"@, payload);
            &&& after == before
            &&& match payload {
                EventPayload::Completed(
                    CompletedEvent { response: CompletedResponse { usage: Some(usage) } },
                ) => {
                    let told: ChunkView = Ok(StreamChunkView::Usage(usage));
                    chunks == seq![told, end]
                },
                _ => chunks == seq![end],
            }
        }),
{
    law_event_types("response.completed"@);
    law_stop_reason_tells_of_function_calls(events);
}

proof fn lemma_has_function_calls(events: Seq<TypedEvent>)
    ensures
        run(stream_parser::initial_state(), events).0.has_function_calls == exists|i: int|
            0 <= i < events.len() && starts_function_call(#[trigger] events[i]),
    decreases events.len(),
{
    if events.len() > 0 {
        let init = events.drop_last();
        lemma_has_function_calls(init);
        law_event_types(events.last().0);
        let before = run(stream_parser::initial_state(), init).0;
        assert(before.has_function_calls ==> exists|i: int|
            0 <= i < events.len() && starts_function_call(#[trigger] events[i])) by {
            if before.has_function_calls {
                let i = choose|i: int| 0 <= i < init.len() && starts_function_call(
                    #[trigger] init[i],
                );
                assert(events[i] == init[i]);
            }
        }
        if starts_function_call(events.last()) {
            assert(starts_function_call(events[events.len() - 1]));
        }
        if exists|i: int| 0 <= i < events.len() && starts_function_call(#[trigger] events[i]) {
            let i = choose|i: int| 0 <= i < events.len() && starts_function_call(
                #[trigger] events[i],
            );
            if i < init.len() {
                assert(init[i] == events[i]);
            } else {
                assert(events[i] == events.last());
            }
        }
    }
}

proof fn lemma_open_call_is_kept(s: ParserState, events: Seq<TypedEvent>, id: Seq<char>)
    requires
        s.calls.contains_key(id),
        forall|i: int| 0 <= i < events.len() ==> !opens_or_closes(#[trigger] events[i], id),
    ensures
        ({
            let after = run(s, events).0;
            &&& after.calls.contains_key(id)
            &&& after.calls[id].call_id == s.calls[id].call_id
            &&& after.calls[id].name == s.calls[id].name
            &&& after.calls[id].output_index == s.calls[id].output_index
        }),
    decreases events.len(),
{
    if events.len() > 0 {
        let init = events.drop_last();
        assert forall|i: int| 0 <= i < init.len() implies !opens_or_closes(
            #[trigger] init[i],
            id,
        ) by {
            assert(init[i] == events[i]);
        }
        lemma_open_call_is_kept(s, init, id);
        law_event_types(events.last().0);
        assert(!opens_or_closes(events[events.len() - 1], id));
    }
}

/// A function call that was announced and whose arguments are then complete is
/// reported with the id, the name and the index of the announcement and the
/// arguments of the completion, whatever other events came in between.
pub proof fn law_announced_call_is_completed(
    s: ParserState,
    added_type: Seq<char>,
    added: ItemAddedEvent,
    between: Seq<TypedEvent>,
    done_type: Seq<char>,
    done: FnArgsDoneEvent,
)
    requires
        stream_parser::event_kind(added_type) == EventKind::ItemAdded,
        stream_parser::event_kind(done_type) == EventKind::FnArgsDone,
        added.item.item_type@ == "function_call"@,
        done.item_id@ == added.item.id@,
        forall|i: int|
            0 <= i < between.len() ==> !opens_or_closes(#[trigger] between[i], added.item.id@),
    ensures
        ({
            let opened = stream_parser::step(s, added_type, EventPayload::ItemAdded(added)).0;
            let before = run(opened, between).0;
            let report: ChunkView = Ok(
                StreamChunkView::ToolUseComplete {
                    index: added.output_index,
                    tool_call: ToolCallView {
                        id: text::text_or_empty(added.item.call_id),
                        call_type: "function"@,
                        name: text::text_or_empty(added.item.name),
                        arguments: done.arguments@,
                    },
                },
            );
            stream_parser::step(before, done_type, EventPayload::FnArgsDone(done)).1 == seq![report]
        }),
{
    let opened = stream_parser::item_added(s, added).0;
    lemma_open_call_is_kept(opened, between, added.item.id@);
}

/// A function call is reported when it is announced, with the id, the name and the
/// index of the announcement. Whatever other events come in between, each piece of
/// its arguments is then reported under that index, and the complete call with that
/// id, name and index and the arguments of the completion.
pub proof fn law_function_call_is_reported_from_start_to_end(
    s: ParserState,
    added: ItemAddedEvent,
    between: Seq<TypedEvent>,
    done: FnArgsDoneEvent,
    delta: FnArgsDeltaEvent,
)
    requires
        delta.item_id@ == added.item.id@,
        added.item.item_type@ == "function_call"@,
        done.item_id@ == added.item.id@,
        forall|i: int|
            0 <= i < between.len() ==> !opens_or_closes(#[trigger] between[i], added.item.id@),
    ensures
        ({
            let id = match added.item.call_id {
                Some(id) => id@,
                None => Seq::empty(),
            };
            let name = match added.item.name {
                Some(name) => name@,
                None => Seq::empty(),
            };
            let (opened, started) = stream_parser::step(
                s,
                "response.output_item.added"@,
                EventPayload::ItemAdded(added),
            );
            let before = run(opened, between).0;
            let start: ChunkView = Ok(
                StreamChunkView::ToolUseStart {
                    index: added.output_index,
                    id,
                    name,
                },
            );
            let piece: ChunkView = Ok(
                StreamChunkView::ToolUseInputDelta {
                    index: added.output_index,
                    partial_json: delta.delta@,
                },
            );
            let report: ChunkView = Ok(
                StreamChunkView::ToolUseComplete {
                    index: added.output_index,
                    tool_call: ToolCallView {
                        id,
                        call_type: "function"@,
                        name,
                        arguments: done.arguments@,
                    },
                },
            );
            &&& started == seq![start]
            &&& stream_parser::step(
                before,
                "response.function_call_arguments.delta"@,
                EventPayload::FnArgsDelta(delta),
            ).1 == seq![piece]
            &&& stream_parser::step(
                before,
                "response.function_call_arguments.done"@,
                EventPayload::FnArgsDone(done),
            ).1 == seq![report]
        }),
{
    law_event_types("response.output_item.added"@);
    law_event_types("response.function_call_arguments.delta"@);
    law_event_types("response.function_call_arguments.done"@);
    let opened = stream_parser::item_added(s, added).0;
    lemma_open_call_is_kept(opened, between, added.item.id@);
}

proof fn lemma_closed_call_stays_closed(s: ParserState, events: Seq<TypedEvent>, id: Seq<char>)
    requires
        !s.calls.contains_key(id),
        forall|i: int| 0 <= i < events.len() ==> !announces(#[trigger] events[i], id),
    ensures
        !run(s, events).0.calls.contains_key(id),
    decreases events.len(),
{
    if events.len() > 0 {
        let init = events.drop_last();
        assert forall|i: int| 0 <= i < init.len() implies !announces(#[trigger] init[i], id) by {
            assert(init[i] == events[i]);
        }
        lemma_closed_call_stays_closed(s, init, id);
        law_event_types(events.last().0);
        assert(!announces(events[events.len() - 1], id));
    }
}

/// A call is reported once: when it is complete it is closed, and further
/// completions or pieces of arguments for it do nothing, whatever other events
/// come in between, as long as it is not announced again.
pub proof fn law_completed_call_is_closed(
    s: ParserState,
    done_type: Seq<char>,
    done: FnArgsDoneEvent,
    between: Seq<TypedEvent>,
    again: FnArgsDoneEvent,
    delta_type: Seq<char>,
    late: FnArgsDeltaEvent,
)
    requires
        stream_parser::event_kind(done_type) == EventKind::FnArgsDone,
        stream_parser::event_kind(delta_type) == EventKind::FnArgsDelta,
        again.item_id@ == done.item_id@,
        late.item_id@ == done.item_id@,
        forall|i: int|
            0 <= i < between.len() ==> !announces(#[trigger] between[i], done.item_id@),
    ensures
        ({
            let closed = stream_parser::step(s, done_type, EventPayload::FnArgsDone(done)).0;
            let after = run(closed, between).0;
            &&& stream_parser::step(after, done_type, EventPayload::FnArgsDone(again)) == (
                after,
                Seq::<ChunkView>::empty(),
            )
            &&& stream_parser::step(after, delta_type, EventPayload::FnArgsDelta(late)) == (
                after,
                Seq::<ChunkView>::empty(),
            )
        }),
{
    let closed = stream_parser::step(s, done_type, EventPayload::FnArgsDone(done)).0;
    lemma_closed_call_stays_closed(closed, between, done.item_id@);
}

/// A call is reported once: when it is complete it is closed, and further
/// completions or pieces of arguments for it do nothing, whatever other events
/// come in between, as long as it is not announced again.
pub proof fn law_finished_call_is_reported_no_more(
    s: ParserState,
    done: FnArgsDoneEvent,
    between: Seq<TypedEvent>,
    again: FnArgsDoneEvent,
    late: FnArgsDeltaEvent,
)
    requires
        again.item_id@ == done.item_id@,
        late.item_id@ == done.item_id@,
        forall|i: int|
            0 <= i < between.len() ==> !announces(#[trigger] between[i], done.item_id@),
    ensures
        ({
            let closed = stream_parser::step(
                s,
                "response.function_call_arguments.done"@,
                EventPayload::FnArgsDone(done),
            ).0;
            let after = run(closed, between).0;
            &&& stream_parser::step(
                after,
                "response.function_call_arguments.done"@,
                EventPayload::FnArgsDone(again),
            ) == (
                after,
                Seq::<ChunkView>::empty(),
            )
            &&& stream_parser::step(
                after,
                "response.function_call_arguments.delta"@,
                EventPayload::FnArgsDelta(late),
            ) == (
                after,
                Seq::<ChunkView>::empty(),
            )
        }),
{
    let closed = stream_parser::step(
                s,
                "response.function_call_arguments.done"@,
                EventPayload::FnArgsDone(done),
            ).0;
    law_event_types("response.function_call_arguments.delta"@);
    law_event_types("response.function_call_arguments.done"@);
    lemma_closed_call_stays_closed(closed, between, done.item_id@);
}

/// A call that was never announced is never completed: completions and pieces of
/// arguments for it do nothing.
pub proof fn law_unannounced_call_is_never_completed(
    events: Seq<TypedEvent>,
    done_type: Seq<char>,
    done: FnArgsDoneEvent,
    delta_type: Seq<char>,
    delta: FnArgsDeltaEvent,
)
    requires
        stream_parser::event_kind(done_type) == EventKind::FnArgsDone,
        stream_parser::event_kind(delta_type) == EventKind::FnArgsDelta,
        delta.item_id@ == done.item_id@,
        forall|i: int| 0 <= i < events.len() ==> !announces(#[trigger] events[i], done.item_id@),
    ensures
        ({
            let after = run(stream_parser::initial_state(), events).0;
            &&& stream_parser::step(after, done_type, EventPayload::FnArgsDone(done)) == (
                after,
                Seq::<ChunkView>::empty(),
            )
            &&& stream_parser::step(after, delta_type, EventPayload::FnArgsDelta(delta)) == (
                after,
                Seq::<ChunkView>::empty(),
            )
        }),
{
    lemma_closed_call_stays_closed(stream_parser::initial_state(), events, done.item_id@);
}

/// A call that was never announced is never completed: completions and pieces of
/// arguments for it do nothing.
pub proof fn law_unannounced_call_is_not_reported(
    events: Seq<TypedEvent>,
    done: FnArgsDoneEvent,
    delta: FnArgsDeltaEvent,
)
    requires
        delta.item_id@ == done.item_id@,
        forall|i: int| 0 <= i < events.len() ==> !announces(#[trigger] events[i], done.item_id@),
    ensures
        ({
            let after = run(stream_parser::initial_state(), events).0;
            &&& stream_parser::step(
                after,
                "response.function_call_arguments.done"@,
                EventPayload::FnArgsDone(done),
            ) == (
                after,
                Seq::<ChunkView>::empty(),
            )
            &&& stream_parser::step(
                after,
                "response.function_call_arguments.delta"@,
                EventPayload::FnArgsDelta(delta),
            ) == (
                after,
                Seq::<ChunkView>::empty(),
            )
        }),
{
    law_event_types("response.function_call_arguments.delta"@);
    law_event_types("response.function_call_arguments.done"@);
    lemma_closed_call_stays_closed(stream_parser::initial_state(), events, done.item_id@);
}

/// The pieces of arguments, one behind the other.
pub open spec fn joined_deltas(deltas: Seq<FnArgsDeltaEvent>) -> Seq<char>
    decreases deltas.len(),
{
    if deltas.len() == 0 {
        Seq::empty()
    } else {
        joined_deltas(deltas.drop_last()) + deltas.last().delta@
    }
}

/// The events of the pieces of arguments.
pub open spec fn delta_events(deltas: Seq<FnArgsDeltaEvent>) -> Seq<TypedEvent> {
    deltas.map_values(
        |delta: FnArgsDeltaEvent|
            ("response.function_call_arguments.delta"@, EventPayload::FnArgsDelta(delta)),
    )
}

proof fn lemma_delta_kind()
    ensures
        stream_parser::event_kind("response.function_call_arguments.delta"@)
            == EventKind::FnArgsDelta,
{
    reveal_strlit("response.output_item.added");
    reveal_strlit("response.output_text.delta");
    reveal_strlit("response.function_call_arguments.delta");
    assert("response.output_item.added"@.len() != "response.function_call_arguments.delta"@.len());
    assert("response.output_text.delta"@.len() != "response.function_call_arguments.delta"@.len());
}

/// The arguments of an open call build up piece by piece, and each piece is
/// reported under the index of the call.
pub proof fn law_argument_pieces_accumulate(
    s: ParserState,
    id: Seq<char>,
    deltas: Seq<FnArgsDeltaEvent>,
)
    requires
        s.calls.contains_key(id),
        forall|i: int| 0 <= i < deltas.len() ==> (#[trigger] deltas[i]).item_id@ == id,
    ensures
        ({
            let (after, chunks) = run(s, delta_events(deltas));
            &&& after.calls.contains_key(id)
            &&& after.calls[id].arguments_buffer == s.calls[id].arguments_buffer + joined_deltas(
                deltas,
            )
            &&& after.calls[id].output_index == s.calls[id].output_index
            &&& chunks == deltas.map_values(
                |delta: FnArgsDeltaEvent|
                    {
                        let chunk: ChunkView = Ok(
                            StreamChunkView::ToolUseInputDelta {
                                index: s.calls[id].output_index,
                                partial_json: delta.delta@,
                            },
                        );
                        chunk
                    },
            )
        }),
    decreases deltas.len(),
{
    lemma_delta_kind();
    let events = delta_events(deltas);
    let report = |delta: FnArgsDeltaEvent|
        {
            let chunk: ChunkView = Ok(
                StreamChunkView::ToolUseInputDelta {
                    index: s.calls[id].output_index,
                    partial_json: delta.delta@,
                },
            );
            chunk
        };
    if deltas.len() == 0 {
        assert(s.calls[id].arguments_buffer + joined_deltas(deltas)
            =~= s.calls[id].arguments_buffer);
        assert(run(s, events).1 =~= deltas.map_values(report));
    } else {
        let init = deltas.drop_last();
        assert forall|i: int| 0 <= i < init.len() implies (#[trigger] init[i]).item_id@ == id by {
            assert(init[i] == deltas[i]);
        }
        law_argument_pieces_accumulate(s, id, init);
        assert(events.drop_last() =~= delta_events(init));
        assert(deltas.last() == deltas[deltas.len() - 1]);
        let after = run(s, events).0;
        assert(after.calls[id].arguments_buffer =~= s.calls[id].arguments_buffer + joined_deltas(
            deltas,
        ));
        assert(run(s, events).1 =~= deltas.map_values(report));
    }
}

/// An event of an unknown type is ignored, and so is one of the kinds that carry
/// text, items or arguments when its data cannot be read.
pub proof fn law_unknown_and_unreadable_events_are_ignored(
    s: ParserState,
    event_type: Seq<char>,
    payload: EventPayload,
)
    ensures
        stream_parser::event_kind(event_type) == EventKind::Other ==> stream_parser::step(
            s,
            event_type,
            payload,
        ) == (s, Seq::<ChunkView>::empty()),
        payload is Unreadable && (stream_parser::event_kind(event_type) == EventKind::ItemAdded
            || stream_parser::event_kind(event_type) == EventKind::TextDelta
            || stream_parser::event_kind(event_type) == EventKind::FnArgsDelta
            || stream_parser::event_kind(event_type) == EventKind::FnArgsDone)
            ==> stream_parser::step(s, event_type, payload) == (s, Seq::<ChunkView>::empty()),
{
}

/// An event that carries text, an item or arguments is ignored when its data cannot
/// be read or is of another kind.
pub proof fn law_unreadable_events_are_ignored(s: ParserState, payload: EventPayload)
    ensures
        payload !is ItemAdded ==> stream_parser::step(
            s,
            "response.output_item.added"@,
            payload,
        ) == (s, Seq::<ChunkView>::empty()),
        payload !is TextDelta ==> stream_parser::step(
            s,
            "response.output_text.delta"@,
            payload,
        ) == (s, Seq::<ChunkView>::empty()),
        payload !is FnArgsDelta ==> stream_parser::step(
            s,
            "response.function_call_arguments.delta"@,
            payload,
        ) == (s, Seq::<ChunkView>::empty()),
        payload !is FnArgsDone ==> stream_parser::step(
            s,
            "response.function_call_arguments.done"@,
            payload,
        ) == (s, Seq::<ChunkView>::empty()),
{
    law_event_types("response.output_item.added"@);
    law_event_types("response.output_text.delta"@);
    law_event_types("response.function_call_arguments.delta"@);
    law_event_types("response.function_call_arguments.done"@);
}

/// An announced item that is no function call gives no chunk, and opens and closes no
/// call.
pub proof fn law_other_items_give_no_chunk(s: ParserState, added: ItemAddedEvent)
    requires
        added.item.item_type@ != "function_call"@,
    ensures
        ({
            let (after, chunks) = stream_parser::step(
                s,
                "response.output_item.added"@,
                EventPayload::ItemAdded(added),
            );
            &&& chunks.len() == 0
            &&& after.calls == s.calls
            &&& after.has_function_calls == s.has_function_calls
        }),
{
    law_event_types("response.output_item.added"@);
}

/// A piece of text gives one chunk with that text where it is not empty, and none
/// where it is; it changes nothing else.
pub proof fn law_piece_of_text_is_a_chunk(s: ParserState, delta: TextDeltaEvent)
    ensures
        ({
            let chunk: ChunkView = Ok(StreamChunkView::Text(delta.delta@));
            stream_parser::step(
                s,
                "response.output_text.delta"@,
                EventPayload::TextDelta(delta),
            ) == (
                s,
                if delta.delta@.len() == 0 {
                    Seq::<ChunkView>::empty()
                } else {
                    seq![chunk]
                },
            )
        }),
{
    law_event_types("response.output_text.delta"@);
}

/// A failed answer gives one error of the provider, with the message that the data
/// tells, or a message of its own where it tells none; it changes nothing else.
pub proof fn law_failed_answer_is_an_error(s: ParserState, payload: EventPayload)
    ensures
        ({
            let (after, chunks) = stream_parser::step(s, "response.failed"@, payload);
            &&& after == s
            &&& chunks.len() == 1
            &&& chunks[0] matches Err(error)
            &&& error matches LLMErrorView::ProviderError(told)
            &&& match payload {
                EventPayload::Failed(event) => match event.response {
                    Some(response) => match response.error {
                        Some(failure) => match failure.message {
                            Some(message) => told == message@,
                            None => told == "Response generation failed"@,
                        },
                        None => told == "Response generation failed"@,
                    },
                    None => told == "Response generation failed"@,
                },
                _ => told == "Response generation failed"@,
            }
        }),
{
    law_event_types("response.failed"@);
}

/// An answer that is cut short ends with that reason, whatever the data; it changes
/// nothing else.
pub proof fn law_incomplete_answer_ends(s: ParserState, payload: EventPayload)
    ensures
        ({
            let end: ChunkView = Ok(StreamChunkView::Done { stop_reason: "max_tokens"@ });
            stream_parser::step(s, "response.incomplete"@, payload) == (s, seq![end])
        }),
{
    law_event_types("response.incomplete"@);
}

/// A parser that has seen no event keeps nothing back and starts at the beginning.
pub proof fn law_new_parser(parser: ResponsesStreamParser)
    requires
        call_ensures(ResponsesStreamParser::new, (), parser),
    ensures
        parser@.items == Map::<usize, ItemStateView>::empty(),
        parser@.calls == Map::<Seq<char>, FnCallView>::empty(),
        !parser@.has_function_calls,
        parser.pending().len() == 0,
{
}

/// Processing an event takes one step, hands out the chunks that waited and then those that
/// it gives, and keeps none back.
pub proof fn law_processing_is_one_step(
    parser: &mut ResponsesStreamParser,
    event_type: &str,
    payload: EventPayload,
    chunks: Vec<Result<StreamChunk, LLMError>>,
)
    requires
        call_ensures(
            ResponsesStreamParser::process_event,
            (parser, event_type, payload),
            chunks,
        ),
    ensures
        final(parser)@ == stream_parser::step(old(parser)@, event_type@, payload).0,
        final(parser).pending().len() == 0,
        ({
            let given = old(parser).pending() + stream_parser::step(
                old(parser)@,
                event_type@,
                payload,
            ).1;
            &&& chunks@.len() == given.len()
            &&& forall|i: int|
                0 <= i < chunks@.len() ==> chunk_shows(#[trigger] chunks@[i], given[i])
        }),
{
    let given = old(parser).pending() + stream_parser::step(
        old(parser)@,
        event_type@,
        payload,
    ).1;
    assert forall|i: int| 0 <= i < chunks@.len() implies chunk_shows(
        #[trigger] chunks@[i],
        given[i],
    ) by {
        assert(stream_parser::chunk_views(chunks@)[i] == stream_parser::chunk_view(chunks@[i]));
    }
}

/// Whether the chunk holds what is told of it, each part under its own name.
pub open spec fn chunk_shows(chunk: Result<StreamChunk, LLMError>, told: ChunkView) -> bool {
    match chunk {
        Ok(StreamChunk::Text(text)) => told == Ok::<StreamChunkView, LLMErrorView>(
            StreamChunkView::Text(text@),
        ),
        Ok(StreamChunk::ToolUseStart { index, id, name }) => told == Ok::<
            StreamChunkView,
            LLMErrorView,
        >(StreamChunkView::ToolUseStart { index, id: id@, name: name@ }),
        Ok(StreamChunk::ToolUseInputDelta { index, partial_json }) => told == Ok::<
            StreamChunkView,
            LLMErrorView,
        >(StreamChunkView::ToolUseInputDelta { index, partial_json: partial_json@ }),
        Ok(StreamChunk::ToolUseComplete { index, tool_call }) => told == Ok::<
            StreamChunkView,
            LLMErrorView,
        >(
            StreamChunkView::ToolUseComplete {
                index,
                tool_call: ToolCallView {
                    id: tool_call.id@,
                    call_type: tool_call.call_type@,
                    name: tool_call.function.name@,
                    arguments: tool_call.function.arguments@,
                },
            },
        ),
        Ok(StreamChunk::Done { stop_reason }) => told == Ok::<StreamChunkView, LLMErrorView>(
            StreamChunkView::Done { stop_reason: stop_reason@ },
        ),
        Ok(StreamChunk::Usage(usage)) => told == Ok::<StreamChunkView, LLMErrorView>(
            StreamChunkView::Usage(usage),
        ),
        Err(LLMError::HttpError(m)) => told == Err::<StreamChunkView, LLMErrorView>(
            LLMErrorView::HttpError(m@),
        ),
        Err(LLMError::AuthError(m)) => told == Err::<StreamChunkView, LLMErrorView>(
            LLMErrorView::AuthError(m@),
        ),
        Err(LLMError::InvalidRequest(m)) => told == Err::<StreamChunkView, LLMErrorView>(
            LLMErrorView::InvalidRequest(m@),
        ),
        Err(LLMError::ProviderError(m)) => told == Err::<StreamChunkView, LLMErrorView>(
            LLMErrorView::ProviderError(m@),
        ),
        Err(LLMError::ResponseFormatError { message, raw_response }) => told == Err::<
            StreamChunkView,
            LLMErrorView,
        >(
            LLMErrorView::ResponseFormatError { message: message@, raw_response: raw_response@ },
        ),
    }
}

/// In which form the data of an event is read depends on its type alone, and each of
/// the seven types has its own.
pub proof fn law_kind_of_an_event(event_type: &str, kind: EventKind)
    requires
        call_ensures(EventKind::of, (event_type,), kind),
    ensures
        kind == EventKind::ItemAdded <==> event_type@ == "response.output_item.added"@,
        kind == EventKind::TextDelta <==> event_type@ == "response.output_text.delta"@,
        kind == EventKind::FnArgsDelta <==> event_type@
            == "response.function_call_arguments.delta"@,
        kind == EventKind::FnArgsDone <==> event_type@
            == "response.function_call_arguments.done"@,
        kind == EventKind::Completed <==> event_type@ == "response.completed"@,
        kind == EventKind::Failed <==> event_type@ == "response.failed"@,
        kind == EventKind::Incomplete <==> event_type@ == "response.incomplete"@,
{
    law_event_types(event_type@);
}

/// Whether the parser took the step of an event of the given type, and keeps the chunks that it
/// gives behind those that waited.
pub open spec fn took_step(
    before: ParserState,
    waiting: Seq<ChunkView>,
    after: ParserState,
    kept: Seq<ChunkView>,
    event_type: Seq<char>,
    payload: EventPayload,
) -> bool {
    &&& after == stream_parser::step(before, event_type, payload).0
    &&& kept == waiting + stream_parser::step(before, event_type, payload).1
}

/// The handlers for items, text and arguments take the steps of the events that they are for.
pub proof fn law_handlers_take_steps(
    items: &mut ResponsesStreamParser,
    texts: &mut ResponsesStreamParser,
    pieces: &mut ResponsesStreamParser,
    calls: &mut ResponsesStreamParser,
    payload: EventPayload,
)
    requires
        call_ensures(ResponsesStreamParser::handle_item_added, (items, payload), ()),
        call_ensures(ResponsesStreamParser::handle_text_delta, (texts, payload), ()),
        call_ensures(ResponsesStreamParser::handle_fn_args_delta, (pieces, payload), ()),
        call_ensures(ResponsesStreamParser::handle_fn_args_done, (calls, payload), ()),
    ensures
        took_step(
            old(items)@,
            old(items).pending(),
            final(items)@,
            final(items).pending(),
            "response.output_item.added"@,
            payload,
        ),
        took_step(
            old(texts)@,
            old(texts).pending(),
            final(texts)@,
            final(texts).pending(),
            "response.output_text.delta"@,
            payload,
        ),
        took_step(
            old(pieces)@,
            old(pieces).pending(),
            final(pieces)@,
            final(pieces).pending(),
            "response.function_call_arguments.delta"@,
            payload,
        ),
        took_step(
            old(calls)@,
            old(calls).pending(),
            final(calls)@,
            final(calls).pending(),
            "response.function_call_arguments.done"@,
            payload,
        ),
{
    law_event_types("response.output_item.added"@);
    law_event_types("response.output_text.delta"@);
    law_event_types("response.function_call_arguments.delta"@);
    law_event_types("response.function_call_arguments.done"@);
    let none = Seq::<ChunkView>::empty();
    assert(old(items).pending() + none =~= old(items).pending());
    assert(old(texts).pending() + none =~= old(texts).pending());
    assert(old(pieces).pending() + none =~= old(pieces).pending());
    assert(old(calls).pending() + none =~= old(calls).pending());
}

/// The handlers for the end of an answer take the steps of the events that they are for.
pub proof fn law_end_handlers_take_steps(
    completed: &mut ResponsesStreamParser,
    failed: &mut ResponsesStreamParser,
    incomplete: &mut ResponsesStreamParser,
    payload: EventPayload,
)
    requires
        call_ensures(ResponsesStreamParser::handle_completed, (completed, payload), ()),
        call_ensures(ResponsesStreamParser::handle_failed, (failed, payload), ()),
        call_ensures(ResponsesStreamParser::handle_incomplete, (incomplete,), ()),
    ensures
        took_step(
            old(completed)@,
            old(completed).pending(),
            final(completed)@,
            final(completed).pending(),
            "response.completed"@,
            payload,
        ),
        took_step(
            old(failed)@,
            old(failed).pending(),
            final(failed)@,
            final(failed).pending(),
            "response.failed"@,
            payload,
        ),
        took_step(
            old(incomplete)@,
            old(incomplete).pending(),
            final(incomplete)@,
            final(incomplete).pending(),
            "response.incomplete"@,
            payload,
        ),
{
    law_event_types("response.completed"@);
    law_event_types("response.failed"@);
    law_event_types("response.incomplete"@);
}

} // verus!
