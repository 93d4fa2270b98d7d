//! The events of a streamed answer of the Responses API, turned into chunks.
//!
//! `step` says what one event does to the state of the parser and which chunks
//! it gives; [`ResponsesStreamParser`] carries that state.
use std::collections::HashMap;
use vstd::hash_map::StringHashMap;
use vstd::prelude::*;

use crate::chat::{FunctionCall, StreamChunk, StreamChunkView, ToolCall, ToolCallView, Usage};
use crate::error::{LLMError, LLMErrorView};
use crate::text;
use crate::text::{or_empty, same_text};

verus! {

/// The item that an `output_item.added` event announces.
#[derive(Debug)]
pub struct ItemAddedItem {
    pub id: String,
    pub item_type: String,
    pub name: Option<String>,
    pub call_id: Option<String>,
}

/// The data of an `output_item.added` event.
#[derive(Debug)]
pub struct ItemAddedEvent {
    pub output_index: usize,
    pub item: ItemAddedItem,
}

/// The data of an `output_text.delta` event.
#[derive(Debug)]
pub struct TextDeltaEvent {
    pub delta: String,
}

/// The data of a `function_call_arguments.delta` event.
#[derive(Debug)]
pub struct FnArgsDeltaEvent {
    pub item_id: String,
    pub delta: String,
}

/// The data of a `function_call_arguments.done` event.
#[derive(Debug)]
pub struct FnArgsDoneEvent {
    pub item_id: String,
    pub arguments: String,
}

/// What a `completed` event says of the response.
#[derive(Debug)]
pub struct CompletedResponse {
    pub usage: Option<Usage>,
}

/// The data of a `completed` event.
#[derive(Debug)]
pub struct CompletedEvent {
    pub response: CompletedResponse,
}

/// What a `failed` event says of the error.
#[derive(Debug)]
pub struct FailedError {
    pub message: Option<String>,
}

/// What a `failed` event says of the response.
#[derive(Debug)]
pub struct FailedResponse {
    pub error: Option<FailedError>,
}

/// The data of a `failed` event.
#[derive(Debug)]
pub struct FailedEvent {
    pub response: Option<FailedResponse>,
}

/// The data of an event, read from its JSON in the form that goes with the type
/// of the event; `Unreadable` where the JSON does not have that form.
#[derive(Debug)]
pub enum EventPayload {
    ItemAdded(ItemAddedEvent),
    TextDelta(TextDeltaEvent),
    FnArgsDelta(FnArgsDeltaEvent),
    FnArgsDone(FnArgsDoneEvent),
    Completed(CompletedEvent),
    Failed(FailedEvent),
    Unreadable,
}

/// The events that the parser knows.
#[derive(Debug, Clone, Copy, PartialEq, Eq, Structural)]
pub enum EventKind {
    ItemAdded,
    TextDelta,
    FnArgsDelta,
    FnArgsDone,
    Completed,
    Failed,
    Incomplete,
    Other,
}

/// The kind of the events of the given type.
pub open spec fn event_kind(event_type: Seq<char>) -> EventKind {
    if event_type == "response.output_item.added"@ {
        EventKind::ItemAdded
    } else if event_type == "response.output_text.delta"@ {
        EventKind::TextDelta
    } else if event_type == "response.function_call_arguments.delta"@ {
        EventKind::FnArgsDelta
    } else if event_type == "response.function_call_arguments.done"@ {
        EventKind::FnArgsDone
    } else if event_type == "response.completed"@ {
        EventKind::Completed
    } else if event_type == "response.failed"@ {
        EventKind::Failed
    } else if event_type == "response.incomplete"@ {
        EventKind::Incomplete
    } else {
        EventKind::Other
    }
}

impl EventKind {
    /// The kind of the events of the given type: it says in which form the data
    /// is to be read.
    pub fn of(event_type: &str) -> (r: EventKind)
        ensures
            r == event_kind(event_type@),
    {
        if same_text(event_type, "response.output_item.added") {
            EventKind::ItemAdded
        } else if same_text(event_type, "response.output_text.delta") {
            EventKind::TextDelta
        } else if same_text(event_type, "response.function_call_arguments.delta") {
            EventKind::FnArgsDelta
        } else if same_text(event_type, "response.function_call_arguments.done") {
            EventKind::FnArgsDone
        } else if same_text(event_type, "response.completed") {
            EventKind::Completed
        } else if same_text(event_type, "response.failed") {
            EventKind::Failed
        } else if same_text(event_type, "response.incomplete") {
            EventKind::Incomplete
        } else {
            EventKind::Other
        }
    }
}

/// An output item that has been announced.
#[derive(Debug)]
struct ResponsesItemState {
    id: String,
    item_type: String,
    name: Option<String>,
    call_id: Option<String>,
    output_index: usize,
}

/// A function call whose arguments are still arriving.
#[derive(Debug)]
struct FnCallState {
    call_id: String,
    name: String,
    arguments_buffer: String,
    output_index: usize,
}

/// An announced output item, with its texts as character sequences.
pub struct ItemStateView {
    pub id: Seq<char>,
    pub item_type: Seq<char>,
    pub name: Option<Seq<char>>,
    pub call_id: Option<Seq<char>>,
    pub output_index: usize,
}

/// An open function call, with its texts as character sequences.
pub struct FnCallView {
    pub call_id: Seq<char>,
    pub name: Seq<char>,
    pub arguments_buffer: Seq<char>,
    pub output_index: usize,
}

impl DeepView for ResponsesItemState {
    type V = ItemStateView;

    closed spec fn deep_view(&self) -> ItemStateView {
        ItemStateView {
            id: self.id@,
            item_type: self.item_type@,
            name: self.name.deep_view(),
            call_id: self.call_id.deep_view(),
            output_index: self.output_index,
        }
    }
}

impl DeepView for FnCallState {
    type V = FnCallView;

    closed spec fn deep_view(&self) -> FnCallView {
        FnCallView {
            call_id: self.call_id@,
            name: self.name@,
            arguments_buffer: self.arguments_buffer@,
            output_index: self.output_index,
        }
    }
}

/// What the parser remembers: the announced items by their index, the open
/// function calls by the id of their item, and whether there was a function
/// call at all.
#[verifier::ext_equal]
pub struct ParserState {
    pub items: Map<usize, ItemStateView>,
    pub calls: Map<Seq<char>, FnCallView>,
    pub has_function_calls: bool,
}

/// What the parser remembers before the first event.
pub open spec fn initial_state() -> ParserState {
    ParserState { items: Map::empty(), calls: Map::empty(), has_function_calls: false }
}

/// A chunk or an error, with its texts as character sequences.
pub type ChunkView = Result<StreamChunkView, LLMErrorView>;

/// A chunk or an error by its view.
pub open spec fn chunk_view(chunk: Result<StreamChunk, LLMError>) -> ChunkView {
    match chunk {
        Ok(c) => Ok(c.deep_view()),
        Err(e) => Err(e.deep_view()),
    }
}

/// Chunks and errors by their views.
pub open spec fn chunk_views(chunks: Seq<Result<StreamChunk, LLMError>>) -> Seq<ChunkView> {
    chunks.map_values(|chunk: Result<StreamChunk, LLMError>| chunk_view(chunk))
}

/// An item is announced. A function call becomes an open call without
/// arguments, and its start is reported.
pub open spec fn item_added(s: ParserState, event: ItemAddedEvent) -> (
    ParserState,
    Seq<ChunkView>,
) {
    let index = event.output_index;
    let item = event.item;
    let items = s.items.insert(
        index,
        ItemStateView {
            id: item.id@,
            item_type: item.item_type@,
            name: item.name.deep_view(),
            call_id: item.call_id.deep_view(),
            output_index: index,
        },
    );
    if item.item_type@ == "function_call"@ {
        let call_id = text::text_or_empty(item.call_id);
        let name = text::text_or_empty(item.name);
        let call = FnCallView {
            call_id,
            name,
            arguments_buffer: Seq::empty(),
            output_index: index,
        };
        (
            ParserState {
                items,
                calls: s.calls.insert(item.id@, call),
                has_function_calls: true,
            },
            seq![Ok(StreamChunkView::ToolUseStart { index, id: call_id, name })],
        )
    } else {
        (ParserState { items, ..s }, Seq::empty())
    }
}

/// A piece of the answer's text arrives; an empty one is not reported.
pub open spec fn text_delta(event: TextDeltaEvent) -> Seq<ChunkView> {
    if event.delta@.len() == 0 {
        Seq::empty()
    } else {
        seq![Ok(StreamChunkView::Text(event.delta@))]
    }
}

/// A piece of an open call's arguments arrives. For a call that is not open
/// nothing happens.
pub open spec fn fn_args_delta(s: ParserState, event: FnArgsDeltaEvent) -> (
    ParserState,
    Seq<ChunkView>,
) {
    if s.calls.contains_key(event.item_id@) {
        let call = s.calls[event.item_id@];
        let longer = FnCallView {
            arguments_buffer: call.arguments_buffer + event.delta@,
            ..call
        };
        (
            ParserState { calls: s.calls.insert(event.item_id@, longer), ..s },
            seq![
                Ok(
                    StreamChunkView::ToolUseInputDelta {
                        index: call.output_index,
                        partial_json: event.delta@,
                    },
                ),
            ],
        )
    } else {
        (s, Seq::empty())
    }
}

/// The arguments of an open call are complete: the call is reported and closed.
/// For a call that is not open nothing happens.
pub open spec fn fn_args_done(s: ParserState, event: FnArgsDoneEvent) -> (
    ParserState,
    Seq<ChunkView>,
) {
    if s.calls.contains_key(event.item_id@) {
        let call = s.calls[event.item_id@];
        (
            ParserState { calls: s.calls.remove(event.item_id@), ..s },
            seq![
                Ok(
                    StreamChunkView::ToolUseComplete {
                        index: call.output_index,
                        tool_call: ToolCallView {
                            id: call.call_id,
                            call_type: "function"@,
                            name: call.name,
                            arguments: event.arguments@,
                        },
                    },
                ),
            ],
        )
    } else {
        (s, Seq::empty())
    }
}

/// Why a completed answer has ended.
pub open spec fn stop_reason(s: ParserState) -> Seq<char> {
    if s.has_function_calls {
        "tool_use"@
    } else {
        "end_turn"@
    }
}

/// The answer is complete: its usage is reported where it is known, and then the
/// end.
pub open spec fn completed(s: ParserState, usage: Option<Usage>) -> Seq<ChunkView> {
    let done: ChunkView = Ok(StreamChunkView::Done { stop_reason: stop_reason(s) });
    match usage {
        Some(u) => seq![Ok(StreamChunkView::Usage(u)), done],
        None => seq![done],
    }
}

/// The usage that the data of a `completed` event gives.
pub open spec fn completed_usage(payload: EventPayload) -> Option<Usage> {
    match payload {
        EventPayload::Completed(event) => event.response.usage,
        _ => None,
    }
}

/// The message that the data of a `failed` event gives, or a general one.
pub open spec fn failure_message(payload: EventPayload) -> Seq<char> {
    match payload {
        EventPayload::Failed(
            FailedEvent {
                response: Some(
                    FailedResponse { error: Some(FailedError { message: Some(message) }) },
                ),
            },
        ) => message@,
        _ => "Response generation failed"@,
    }
}

/// What an event does: the state behind it and the chunks that it gives. Data in
/// another form than the event's own counts as unreadable.
pub open spec fn step(s: ParserState, event_type: Seq<char>, payload: EventPayload) -> (
    ParserState,
    Seq<ChunkView>,
) {
    match event_kind(event_type) {
        EventKind::ItemAdded => match payload {
            EventPayload::ItemAdded(event) => item_added(s, event),
            _ => (s, Seq::empty()),
        },
        EventKind::TextDelta => match payload {
            EventPayload::TextDelta(event) => (s, text_delta(event)),
            _ => (s, Seq::empty()),
        },
        EventKind::FnArgsDelta => match payload {
            EventPayload::FnArgsDelta(event) => fn_args_delta(s, event),
            _ => (s, Seq::empty()),
        },
        EventKind::FnArgsDone => match payload {
            EventPayload::FnArgsDone(event) => fn_args_done(s, event),
            _ => (s, Seq::empty()),
        },
        EventKind::Completed => (s, completed(s, completed_usage(payload))),
        EventKind::Failed => (s, seq![Err(LLMErrorView::ProviderError(failure_message(payload)))]),
        EventKind::Incomplete => (
            s,
            seq![Ok(StreamChunkView::Done { stop_reason: "max_tokens"@ })],
        ),
        EventKind::Other => (s, Seq::empty()),
    }
}

/// Turns the events of a streamed answer into chunks.
pub struct ResponsesStreamParser {
    items: HashMap<usize, ResponsesItemState>,
    fn_arg_buffers: StringHashMap<FnCallState>,
    has_function_calls: bool,
    pending: Vec<Result<StreamChunk, LLMError>>,
}

impl View for ResponsesStreamParser {
    type V = ParserState;

    closed spec fn view(&self) -> ParserState {
        ParserState {
            items: self.items@.map_values(|item: ResponsesItemState| item.deep_view()),
            calls: self.fn_arg_buffers@.map_values(|call: FnCallState| call.deep_view()),
            has_function_calls: self.has_function_calls,
        }
    }
}

impl ResponsesStreamParser {
    /// The chunks that wait to be handed out.
    pub closed spec fn pending(&self) -> Seq<ChunkView> {
        chunk_views(self.pending@)
    }

    /// A parser that has seen no event.
    pub fn new() -> (r: Self)
        ensures
            r@ == initial_state(),
            r.pending() == Seq::<ChunkView>::empty(),
    {
        broadcast use vstd::std_specs::hash::group_hash_axioms;

        let r = ResponsesStreamParser {
            items: HashMap::new(),
            fn_arg_buffers: StringHashMap::new(),
            has_function_calls: false,
            pending: Vec::new(),
        };
        assert(r@ =~= initial_state());
        assert(r.pending() =~= Seq::<ChunkView>::empty());
        r
    }

    /// Takes in an event and hands out the chunks that it gives, behind those
    /// that were waiting.
    pub fn process_event(&mut self, event_type: &str, payload: EventPayload) -> (r: Vec<
        Result<StreamChunk, LLMError>,
    >)
        ensures
            final(self)@ == step(old(self)@, event_type@, payload).0,
            chunk_views(r@) == old(self).pending() + step(old(self)@, event_type@, payload).1,
            final(self).pending() == Seq::<ChunkView>::empty(),
    {
        match EventKind::of(event_type) {
            EventKind::ItemAdded => self.handle_item_added(payload),
            EventKind::TextDelta => self.handle_text_delta(payload),
            EventKind::FnArgsDelta => self.handle_fn_args_delta(payload),
            EventKind::FnArgsDone => self.handle_fn_args_done(payload),
            EventKind::Completed => self.handle_completed(payload),
            EventKind::Failed => self.handle_failed(payload),
            EventKind::Incomplete => self.handle_incomplete(),
            EventKind::Other => {
                assert(self.pending() =~= old(self).pending() + Seq::<ChunkView>::empty());
            },
        }
        let mut chunks: Vec<Result<StreamChunk, LLMError>> = Vec::new();
        std::mem::swap(&mut chunks, &mut self.pending);
        assert(self.pending() =~= Seq::<ChunkView>::empty());
        chunks
    }

    /// Adds a chunk to those that wait.
    fn report(&mut self, chunk: Result<StreamChunk, LLMError>)
        ensures
            final(self)@ == old(self)@,
            final(self).pending() == old(self).pending() + seq![chunk_view(chunk)],
    {
        self.pending.push(chunk);
        assert(self.pending() =~= old(self).pending() + seq![chunk_view(chunk)]);
    }

    /// Takes in the announcement of an item; any other data does nothing. The chunks
    /// wait until the next event hands them out, as those of every handler do.
    pub fn handle_item_added(&mut self, payload: EventPayload)
        ensures
            match payload {
                EventPayload::ItemAdded(event) => {
                    &&& final(self)@ == item_added(old(self)@, event).0
                    &&& final(self).pending() == old(self).pending() + item_added(
                        old(self)@,
                        event,
                    ).1
                },
                _ => *final(self) == *old(self),
            },
    {
        broadcast use vstd::std_specs::hash::group_hash_axioms;

        let event = match payload {
            EventPayload::ItemAdded(event) => event,
            _ => {
                return;
            },
        };
        let ghost before = self@;
        let idx: usize = event.output_index;
        let item = event.item;
        if same_text(item.item_type.as_str(), "function_call") {
            self.has_function_calls = true;
            let name = or_empty(&item.name);
            let call_id = or_empty(&item.call_id);
            self.report(
                Ok(
                    StreamChunk::ToolUseStart {
                        index: idx,
                        id: call_id.clone(),
                        name: name.clone(),
                    },
                ),
            );
            let ghost calls = self.fn_arg_buffers@;
            let call = FnCallState {
                call_id,
                name,
                arguments_buffer: String::new(),
                output_index: idx,
            };
            self.fn_arg_buffers.insert(item.id.clone(), call);
            proof {
                let f = |c: FnCallState| c.deep_view();
                assert(calls.insert(item.id@, call).map_values(f) =~= calls.map_values(f).insert(
                    item.id@,
                    call.deep_view(),
                ));
                assert(call.deep_view().arguments_buffer =~= Seq::<char>::empty());
            }
        } else {
            assert(self.pending() =~= old(self).pending() + Seq::<ChunkView>::empty());
        }
        let ghost items = self.items@;
        let state = ResponsesItemState {
            id: item.id,
            item_type: item.item_type,
            name: item.name,
            call_id: item.call_id,
            output_index: idx,
        };
        self.items.insert(idx, state);
        proof {
            let g = |i: ResponsesItemState| i.deep_view();
            assert(items.insert(idx, state).map_values(g) =~= items.map_values(g).insert(
                idx,
                state.deep_view(),
            ));
            assert(self@ =~= item_added(before, event).0);
        }
    }

    /// Takes in a piece of text; any other data does nothing.
    pub fn handle_text_delta(&mut self, payload: EventPayload)
        ensures
            final(self)@ == old(self)@,
            match payload {
                EventPayload::TextDelta(event) => final(self).pending() == old(self).pending()
                    + text_delta(event),
                _ => *final(self) == *old(self),
            },
    {
        let event = match payload {
            EventPayload::TextDelta(event) => event,
            _ => {
                return;
            },
        };
        if !event.delta.as_str().is_empty() {
            self.report(Ok(StreamChunk::Text(event.delta)));
        } else {
            assert(self.pending() =~= old(self).pending() + Seq::<ChunkView>::empty());
        }
    }

    /// Takes in a piece of the arguments of a call; any other data does nothing.
    pub fn handle_fn_args_delta(&mut self, payload: EventPayload)
        ensures
            match payload {
                EventPayload::FnArgsDelta(event) => {
                    &&& final(self)@ == fn_args_delta(old(self)@, event).0
                    &&& final(self).pending() == old(self).pending() + fn_args_delta(
                        old(self)@,
                        event,
                    ).1
                },
                _ => *final(self) == *old(self),
            },
    {
        let event = match payload {
            EventPayload::FnArgsDelta(event) => event,
            _ => {
                return;
            },
        };
        let ghost calls = self.fn_arg_buffers@;
        let updated = match self.fn_arg_buffers.get(event.item_id.as_str()) {
            Some(state) => {
                let mut arguments_buffer = state.arguments_buffer.clone();
                arguments_buffer.append(event.delta.as_str());
                FnCallState {
                    call_id: state.call_id.clone(),
                    name: state.name.clone(),
                    arguments_buffer,
                    output_index: state.output_index,
                }
            },
            None => {
                assert(self.pending() =~= old(self).pending() + Seq::<ChunkView>::empty());
                return;
            },
        };
        let index: usize = updated.output_index;
        self.fn_arg_buffers.insert(event.item_id, updated);
        proof {
            let f = |c: FnCallState| c.deep_view();
            assert(calls.insert(event.item_id@, updated).map_values(f) =~= calls.map_values(
                f,
            ).insert(event.item_id@, updated.deep_view()));
        }
        self.report(Ok(StreamChunk::ToolUseInputDelta { index, partial_json: event.delta }));
    }

    /// Takes in the arguments of a call; any other data does nothing.
    pub fn handle_fn_args_done(&mut self, payload: EventPayload)
        ensures
            match payload {
                EventPayload::FnArgsDone(event) => {
                    &&& final(self)@ == fn_args_done(old(self)@, event).0
                    &&& final(self).pending() == old(self).pending() + fn_args_done(
                        old(self)@,
                        event,
                    ).1
                },
                _ => *final(self) == *old(self),
            },
    {
        let event = match payload {
            EventPayload::FnArgsDone(event) => event,
            _ => {
                return;
            },
        };
        let ghost calls = self.fn_arg_buffers@;
        let chunk = match self.fn_arg_buffers.get(event.item_id.as_str()) {
            Some(state) => StreamChunk::ToolUseComplete {
                index: state.output_index,
                tool_call: ToolCall {
                    id: state.call_id.clone(),
                    call_type: "function".to_string(),
                    function: FunctionCall {
                        name: state.name.clone(),
                        arguments: event.arguments,
                    },
                },
            },
            None => {
                assert(self.pending() =~= old(self).pending() + Seq::<ChunkView>::empty());
                return;
            },
        };
        self.fn_arg_buffers.remove(event.item_id.as_str());
        proof {
            let f = |c: FnCallState| c.deep_view();
            assert(calls.remove(event.item_id@).map_values(f) =~= calls.map_values(f).remove(
                event.item_id@,
            ));
        }
        self.report(Ok(chunk));
    }

    /// Takes in that the answer is complete, whatever the data.
    pub fn handle_completed(&mut self, payload: EventPayload)
        ensures
            final(self)@ == old(self)@,
            final(self).pending() == old(self).pending() + completed(
                old(self)@,
                completed_usage(payload),
            ),
    {
        let usage = match payload {
            EventPayload::Completed(event) => event.response.usage,
            _ => None,
        };
        if let Some(usage) = usage {
            self.report(Ok(StreamChunk::Usage(usage)));
        }
        let stop_reason = if self.has_function_calls {
            "tool_use"
        } else {
            "end_turn"
        };
        self.report(Ok(StreamChunk::Done { stop_reason: stop_reason.to_string() }));
        assert(self.pending() =~= old(self).pending() + completed(
            old(self)@,
            completed_usage(payload),
        ));
    }

    /// Takes in that the answer failed, whatever the data.
    pub fn handle_failed(&mut self, payload: EventPayload)
        ensures
            final(self)@ == old(self)@,
            final(self).pending() == old(self).pending() + seq![
                Err(LLMErrorView::ProviderError(failure_message(payload))),
            ],
    {
        let message = match payload {
            EventPayload::Failed(
                FailedEvent {
                    response: Some(
                        FailedResponse { error: Some(FailedError { message: Some(message) }) },
                    ),
                },
            ) => message,
            _ => "Response generation failed".to_string(),
        };
        self.report(Err(LLMError::ProviderError(message)));
    }

    /// Takes in that the answer is cut short.
    pub fn handle_incomplete(&mut self)
        ensures
            final(self)@ == old(self)@,
            final(self).pending() == old(self).pending() + seq![
                Ok(StreamChunkView::Done { stop_reason: "max_tokens"@ }),
            ],
    {
        self.report(Ok(StreamChunk::Done { stop_reason: "max_tokens".to_string() }));
    }
}

} // verus!
