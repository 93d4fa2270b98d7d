//! Streamed answers: framing, parsing and the forms in which they are handed on.
use openai_responses::chat::{
    FunctionCall, StreamChoice, StreamChunk, StreamDelta, StreamResponse, ToolCall, Usage,
};
use openai_responses::error::LLMError;
use openai_responses::openai::OpenAI;
use openai_responses::sse::EventBuffer;
use openai_responses::stream_parser::{
    CompletedEvent, CompletedResponse, EventKind, EventPayload, FailedError, FailedEvent,
    FailedResponse, FnArgsDeltaEvent, FnArgsDoneEvent, ItemAddedEvent, ItemAddedItem,
    ResponsesStreamParser, TextDeltaEvent,
};
use openai_responses::stream_session::{Arrival, NextStep, StreamSession};
use serde_json::Value;

fn text(value: &Value, key: &str) -> Option<String> {
    value.get(key)?.as_str().map(String::from)
}

fn usage(value: &Value) -> Option<Usage> {
    Some(Usage {
        prompt_tokens: value.get("input_tokens")?.as_u64()? as u32,
        completion_tokens: value.get("output_tokens")?.as_u64()? as u32,
        total_tokens: value.get("total_tokens")?.as_u64()? as u32,
    })
}

fn read_payload(event_type: &str, data: &str) -> Option<EventPayload> {
    let value: Value = serde_json::from_str(data).ok()?;
    Some(match EventKind::of(event_type) {
        EventKind::ItemAdded => {
            let item = value.get("item")?;
            EventPayload::ItemAdded(ItemAddedEvent {
                output_index: value.get("output_index")?.as_u64()? as usize,
                item: ItemAddedItem {
                    id: text(item, "id")?,
                    item_type: text(item, "type")?,
                    name: text(item, "name"),
                    call_id: text(item, "call_id"),
                },
            })
        }
        EventKind::TextDelta => {
            EventPayload::TextDelta(TextDeltaEvent { delta: text(&value, "delta")? })
        }
        EventKind::FnArgsDelta => EventPayload::FnArgsDelta(FnArgsDeltaEvent {
            item_id: text(&value, "item_id")?,
            delta: text(&value, "delta")?,
        }),
        EventKind::FnArgsDone => EventPayload::FnArgsDone(FnArgsDoneEvent {
            item_id: text(&value, "item_id")?,
            arguments: text(&value, "arguments")?,
        }),
        EventKind::Completed => EventPayload::Completed(CompletedEvent {
            response: CompletedResponse { usage: value.get("response")?.get("usage").and_then(usage) },
        }),
        EventKind::Failed => EventPayload::Failed(FailedEvent {
            response: value.get("response").map(|response| FailedResponse {
                error: response
                    .get("error")
                    .map(|error| FailedError { message: text(error, "message") }),
            }),
        }),
        EventKind::Incomplete | EventKind::Other => return None,
    })
}

fn process(
    parser: &mut ResponsesStreamParser,
    event_type: &str,
    data: &str,
) -> Vec<Result<StreamChunk, LLMError>> {
    let payload = read_payload(event_type, data).unwrap_or(EventPayload::Unreadable);
    parser.process_event(event_type, payload)
}

// -- the parser --

#[test]
fn test_stream_parser_text_delta() {
    let mut parser = ResponsesStreamParser::new();

    // Add a message item
    let added = r#"{
        "output_index": 0,
        "item": {"id": "msg_1", "type": "message", "role": "assistant"}
    }"#;
    let chunks = process(&mut parser, "response.output_item.added", added);
    assert!(chunks.is_empty()); // message items don't emit start events

    // Text delta
    let delta = r#"{"item_id": "msg_1", "content_index": 0, "delta": "Hello"}"#;
    let chunks = process(&mut parser, "response.output_text.delta", delta);
    assert_eq!(chunks.len(), 1);
    match &chunks[0] {
        Ok(StreamChunk::Text(t)) => assert_eq!(t, "Hello"),
        other => panic!("expected Text, got {other:?}"),
    }
}

#[test]
fn test_stream_parser_function_call() {
    let mut parser = ResponsesStreamParser::new();

    // Add a function_call item
    let added = r#"{
        "output_index": 0,
        "item": {
            "id": "fc_1",
            "type": "function_call",
            "name": "get_weather",
            "call_id": "call_abc"
        }
    }"#;
    let chunks = process(&mut parser, "response.output_item.added", added);
    assert_eq!(chunks.len(), 1);
    match &chunks[0] {
        Ok(StreamChunk::ToolUseStart { index, id, name }) => {
            assert_eq!(*index, 0);
            assert_eq!(id, "call_abc");
            assert_eq!(name, "get_weather");
        }
        other => panic!("expected ToolUseStart, got {other:?}"),
    }

    // Argument deltas
    let delta1 = r#"{"item_id": "fc_1", "delta": "{\"ci"}"#;
    let chunks = process(&mut parser, "response.function_call_arguments.delta", delta1);
    assert_eq!(chunks.len(), 1);
    match &chunks[0] {
        Ok(StreamChunk::ToolUseInputDelta { index, partial_json }) => {
            assert_eq!(*index, 0);
            assert_eq!(partial_json, r#"{"ci"#);
        }
        other => panic!("expected ToolUseInputDelta, got {other:?}"),
    }

    // Arguments done
    let done = r#"{"item_id": "fc_1", "arguments": "{\"city\":\"SF\"}"}"#;
    let chunks = process(&mut parser, "response.function_call_arguments.done", done);
    assert_eq!(chunks.len(), 1);
    match &chunks[0] {
        Ok(StreamChunk::ToolUseComplete { index, tool_call }) => {
            assert_eq!(*index, 0);
            assert_eq!(tool_call.id, "call_abc");
            assert_eq!(tool_call.function.name, "get_weather");
            assert_eq!(tool_call.function.arguments, r#"{"city":"SF"}"#);
        }
        other => panic!("expected ToolUseComplete, got {other:?}"),
    }
}

#[test]
fn test_stream_parser_completed_with_usage() {
    let mut parser = ResponsesStreamParser::new();

    let completed = r#"{
        "response": {
            "id": "resp_1",
            "status": "completed",
            "usage": {"input_tokens": 10, "output_tokens": 5, "total_tokens": 15}
        }
    }"#;
    let chunks = process(&mut parser, "response.completed", completed);
    assert_eq!(chunks.len(), 2);
    match &chunks[0] {
        Ok(StreamChunk::Usage(u)) => {
            assert_eq!(u.prompt_tokens, 10);
            assert_eq!(u.completion_tokens, 5);
        }
        other => panic!("expected Usage, got {other:?}"),
    }
    match &chunks[1] {
        Ok(StreamChunk::Done { stop_reason }) => assert_eq!(stop_reason, "end_turn"),
        other => panic!("expected Done, got {other:?}"),
    }
}

#[test]
fn test_stream_parser_completed_with_tool_use() {
    let mut parser = ResponsesStreamParser::new();

    // First add a function call to set has_function_calls
    let added = r#"{
        "output_index": 0,
        "item": {"id": "fc_1", "type": "function_call", "name": "fn", "call_id": "c1"}
    }"#;
    process(&mut parser, "response.output_item.added", added);

    let completed = r#"{
        "response": {
            "id": "resp_1",
            "status": "completed",
            "usage": {"input_tokens": 10, "output_tokens": 5, "total_tokens": 15}
        }
    }"#;
    let chunks = process(&mut parser, "response.completed", completed);
    let done = chunks.iter().find(|c| matches!(c, Ok(StreamChunk::Done { .. })));
    match done {
        Some(Ok(StreamChunk::Done { stop_reason })) => assert_eq!(stop_reason, "tool_use"),
        other => panic!("expected Done with tool_use, got {other:?}"),
    }
}

#[test]
fn test_stream_parser_failed() {
    let mut parser = ResponsesStreamParser::new();
    let failed = r#"{"response": {"error": {"message": "Rate limit exceeded"}}}"#;
    let chunks = process(&mut parser, "response.failed", failed);
    assert_eq!(chunks.len(), 1);
    assert!(chunks[0].is_err());
    match &chunks[0] {
        Err(LLMError::ProviderError(message)) => assert_eq!(message, "Rate limit exceeded"),
        other => panic!("expected an error, got {other:?}"),
    }
}

#[test]
fn test_stream_parser_incomplete() {
    let mut parser = ResponsesStreamParser::new();
    let chunks = process(&mut parser, "response.incomplete", "{}");
    assert_eq!(chunks.len(), 1);
    match &chunks[0] {
        Ok(StreamChunk::Done { stop_reason }) => assert_eq!(stop_reason, "max_tokens"),
        other => panic!("expected Done max_tokens, got {other:?}"),
    }
}

#[test]
fn test_stream_parser_unknown_event_ignored() {
    let mut parser = ResponsesStreamParser::new();
    let chunks = process(&mut parser, "response.some_future_event", r#"{"foo":"bar"}"#);
    assert!(chunks.is_empty());
}

#[test]
fn failures_without_a_message_have_one() {
    for data in ["{}", r#"{"response": {}}"#, r#"{"response": {"error": {}}}"#, "not json"] {
        let mut parser = ResponsesStreamParser::new();
        let chunks = process(&mut parser, "response.failed", data);
        match &chunks[..] {
            [Err(LLMError::ProviderError(message))] => {
                assert_eq!(message, "Response generation failed")
            }
            other => panic!("expected one error, got {other:?}"),
        }
    }
}

#[test]
fn unreadable_events_are_left_out() {
    let mut parser = ResponsesStreamParser::new();
    for event_type in [
        "response.output_item.added",
        "response.output_text.delta",
        "response.function_call_arguments.delta",
        "response.function_call_arguments.done",
    ] {
        assert!(process(&mut parser, event_type, "not json").is_empty());
    }
    // The end is an end even where its data cannot be read.
    let chunks = process(&mut parser, "response.completed", "not json");
    assert!(matches!(&chunks[..], [Ok(StreamChunk::Done { stop_reason })] if stop_reason == "end_turn"));
}

#[test]
fn empty_deltas_give_no_chunk() {
    let mut parser = ResponsesStreamParser::new();
    assert!(process(&mut parser, "response.output_text.delta", r#"{"delta": ""}"#).is_empty());
}

#[test]
fn arguments_of_a_call_that_is_not_open_are_left_out() {
    let mut parser = ResponsesStreamParser::new();
    let delta = r#"{"item_id": "fc_9", "delta": "{"}"#;
    assert!(process(&mut parser, "response.function_call_arguments.delta", delta).is_empty());
    let done = r#"{"item_id": "fc_9", "arguments": "{}"}"#;
    assert!(process(&mut parser, "response.function_call_arguments.done", done).is_empty());
}

#[test]
fn a_call_is_completed_once() {
    let mut parser = ResponsesStreamParser::new();
    let added = r#"{"output_index": 3, "item": {"id": "fc_1", "type": "function_call"}}"#;
    let chunks = process(&mut parser, "response.output_item.added", added);
    assert!(matches!(
        &chunks[..],
        [Ok(StreamChunk::ToolUseStart { index: 3, id, name })] if id.is_empty() && name.is_empty()
    ));
    let done = r#"{"item_id": "fc_1", "arguments": "{}"}"#;
    assert_eq!(process(&mut parser, "response.function_call_arguments.done", done).len(), 1);
    assert!(process(&mut parser, "response.function_call_arguments.done", done).is_empty());
    // Other calls in between do not open it again; an announcement does.
    let other = r#"{"output_index": 4, "item": {"id": "fc_2", "type": "function_call"}}"#;
    assert_eq!(process(&mut parser, "response.output_item.added", other).len(), 1);
    assert!(process(&mut parser, "response.function_call_arguments.done", done).is_empty());
    assert_eq!(process(&mut parser, "response.output_item.added", added).len(), 1);
    assert_eq!(process(&mut parser, "response.function_call_arguments.done", done).len(), 1);
}

#[test]
fn chunks_of_a_handler_wait_for_the_next_event() {
    let mut parser = ResponsesStreamParser::new();
    parser.handle_text_delta(EventPayload::TextDelta(TextDeltaEvent { delta: "a".into() }));
    parser.handle_fn_args_done(EventPayload::Unreadable);
    parser.handle_completed(EventPayload::Unreadable);
    let chunks = process(&mut parser, "response.some_future_event", "{}");
    assert!(matches!(
        &chunks[..],
        [Ok(StreamChunk::Text(text)), Ok(StreamChunk::Done { stop_reason })]
            if text == "a" && stop_reason == "end_turn"
    ));
}

#[test]
fn the_end_tells_of_calls_that_are_complete() {
    let mut parser = ResponsesStreamParser::new();
    let added = r#"{"output_index": 0, "item": {"id": "fc_1", "type": "function_call"}}"#;
    process(&mut parser, "response.output_item.added", added);
    let done = r#"{"item_id": "fc_1", "arguments": "{}"}"#;
    process(&mut parser, "response.function_call_arguments.done", done);
    let chunks = process(&mut parser, "response.completed", "not json");
    assert!(matches!(&chunks[..], [Ok(StreamChunk::Done { stop_reason })] if stop_reason == "tool_use"));
}

// -- other forms of a stream --

#[test]
fn test_responses_chunk_to_stream_response_maps_tool_use_complete() {
    let tool_call = ToolCall {
        id: "call_1".into(),
        call_type: "function".into(),
        function: FunctionCall { name: "lookup".into(), arguments: r#"{"q":"x"}"#.into() },
    };
    let mapped = OpenAI::responses_chunk_to_stream_response(Ok(StreamChunk::ToolUseComplete {
        index: 0,
        tool_call: tool_call.clone(),
    }))
    .expect("expected mapped value")
    .expect("expected Ok value");

    assert_eq!(mapped.choices.len(), 1);
    assert!(mapped.choices[0].delta.content.is_none());
    let calls = mapped.choices[0].delta.tool_calls.as_ref().expect("expected tool calls");
    assert_eq!(calls.len(), 1);
    assert_eq!(calls[0].id, "call_1");
    assert_eq!(calls[0].function.name, "lookup");
    assert_eq!(calls[0].function.arguments, r#"{"q":"x"}"#);
}

fn every_chunk() -> Vec<Result<StreamChunk, LLMError>> {
    let tool_call = ToolCall {
        id: "c".into(),
        call_type: "function".into(),
        function: FunctionCall { name: "f".into(), arguments: "{}".into() },
    };
    let usage = Usage { prompt_tokens: 1, completion_tokens: 2, total_tokens: 3 };
    vec![
        Ok(StreamChunk::Text("hi".into())),
        Ok(StreamChunk::Text(String::new())),
        Ok(StreamChunk::ToolUseStart { index: 0, id: "c".into(), name: "f".into() }),
        Ok(StreamChunk::ToolUseInputDelta { index: 0, partial_json: "{".into() }),
        Ok(StreamChunk::ToolUseComplete { index: 0, tool_call }),
        Ok(StreamChunk::Usage(usage)),
        Ok(StreamChunk::Done { stop_reason: "end_turn".into() }),
        Err(LLMError::ProviderError("broken".into())),
    ]
}

#[test]
fn starts_parts_and_ends_have_no_form_of_the_chat_completions_api() {
    let mapped: Vec<_> =
        every_chunk().into_iter().map(OpenAI::responses_chunk_to_stream_response).collect();
    let kept: Vec<bool> = mapped.iter().map(Option::is_some).collect();
    assert_eq!(kept, vec![true, true, false, false, true, true, false, true]);
    match &mapped[0] {
        Some(Ok(response)) => {
            assert_eq!(response.choices[0].delta.content.as_deref(), Some("hi"));
            assert!(response.usage.is_none());
        }
        other => panic!("expected text, got {other:?}"),
    }
    match &mapped[5] {
        Some(Ok(response)) => {
            assert!(response.choices.is_empty());
            assert_eq!(response.usage.unwrap().total_tokens, 3);
        }
        other => panic!("expected usage, got {other:?}"),
    }
    assert!(matches!(&mapped[7], Some(Err(LLMError::ProviderError(_)))));
}

#[test]
fn texts_are_the_same_in_both_forms() {
    for (a, b) in every_chunk().into_iter().zip(every_chunk()) {
        let direct = OpenAI::text_of_chunk(a);
        let mapped = OpenAI::responses_chunk_to_stream_response(b)
            .and_then(OpenAI::text_of_stream_response);
        assert_eq!(format!("{direct:?}"), format!("{mapped:?}"));
    }
    let texts: Vec<String> = every_chunk()
        .into_iter()
        .filter_map(OpenAI::text_of_chunk)
        .filter_map(Result::ok)
        .collect();
    assert_eq!(texts, vec!["hi".to_string()]);
}

#[test]
fn the_text_of_a_stream_response_is_that_of_its_first_choice() {
    let choice = |content: Option<&str>| StreamChoice {
        delta: StreamDelta {
            content: content.map(String::from),
            reasoning_content: None,
            tool_calls: None,
        },
    };
    let text_of = |choices: Vec<StreamChoice>| {
        OpenAI::text_of_stream_response(Ok(StreamResponse { choices, usage: None }))
            .map(Result::unwrap)
    };
    assert_eq!(text_of(vec![choice(Some("a")), choice(Some("b"))]).as_deref(), Some("a"));
    assert_eq!(text_of(vec![choice(Some(""))]), None);
    assert_eq!(text_of(vec![choice(None), choice(Some("b"))]), None);
    assert_eq!(text_of(vec![]), None);
}

// -- framing --

fn events_of(pieces: &[&[u8]]) -> Vec<(String, String)> {
    let mut buffer = EventBuffer::new();
    let mut all = Vec::new();
    for piece in pieces {
        buffer.push_bytes(piece);
        while let Some(event) = buffer.next_event() {
            all.push((event.event_type, event.data));
        }
    }
    all
}

fn event(event_type: &str, data: &str) -> (String, String) {
    (event_type.to_string(), data.to_string())
}

#[test]
fn events_end_at_a_blank_line() {
    assert_eq!(
        events_of(&[b"event: a\ndata: 1\n\nevent:b\ndata:2\ndata: 3 \n\nevent: c\ndata: 4\n"]),
        vec![event("a", "1"), event("b", "2\n3")]
    );
}

#[test]
fn lines_may_end_with_a_carriage_return_but_blocks_may_not() {
    assert_eq!(events_of(&[b"event: a\r\ndata: 1\r\n\n"]), vec![event("a", "1")]);
    assert_eq!(events_of(&[b"event: a\r\ndata: 1\r\n\r\n"]), vec![]);
}

#[test]
fn blocks_without_a_type_and_unknown_lines_are_left_out() {
    assert_eq!(
        events_of(&[b": ping\n\ndata: 1\n\nid: 7\nevent: x\nevent: y\nretry: 1\ndata:\ndata: z\n\n"]),
        vec![event("y", "z")]
    );
}

#[test]
fn the_cut_between_pieces_does_not_matter() {
    let stream = "event: a\ndata: \u{20ac}uro\n\nevent: b\ndata: 2\n\n".as_bytes();
    let whole = events_of(&[stream]);
    assert_eq!(whole, vec![event("a", "\u{20ac}uro"), event("b", "2")]);
    for cut in 0..=stream.len() {
        // A cut inside the euro sign garbles that sign and nothing else.
        let parts = events_of(&[&stream[..cut], &stream[cut..]]);
        if std::str::from_utf8(&stream[..cut]).is_ok() {
            assert_eq!(parts, whole);
        } else {
            assert_eq!(parts.len(), 2);
            assert!(parts[0].1.ends_with("uro"));
        }
    }
}

#[test]
fn invalid_bytes_are_replaced() {
    assert_eq!(
        events_of(&[b"event: a\ndata: x\xffy\n\n"]),
        vec![event("a", "x\u{fffd}y")]
    );
}

#[test]
fn text_can_be_pushed_as_text() {
    let mut buffer = EventBuffer::new();
    buffer.push_text("event: a\n");
    assert!(buffer.next_event().is_none());
    buffer.push_text("data: 1\n\n");
    let found = buffer.next_event().unwrap();
    assert_eq!(found.event_type, "a");
    assert_eq!(found.data, "1");
    assert!(buffer.next_event().is_none());
}

#[test]
fn a_stream_delivers_the_text_of_its_events() {
    let stream: &[u8] = b"event: response.output_text.delta\ndata: {\"delta\": \"Hel\"}\n\n\
event: response.output_text.delta\ndata: {\"delta\": \"\"}\n\n\
event: response.output_text.delta\ndata: {\"delta\": \"lo\"}\n\n\
event: response.completed\ndata: {\"response\": {}}\n\n";
    let mut parser = ResponsesStreamParser::new();
    let mut delivered = String::new();
    for (event_type, data) in events_of(&[stream]) {
        for chunk in process(&mut parser, &event_type, &data) {
            if let Some(text) = OpenAI::text_of_chunk(chunk) {
                delivered.push_str(&text.unwrap());
            }
        }
    }
    assert_eq!(delivered, "Hello");
}

// -- sessions --

/// The chunks that the session delivers for the arrivals, and whether it finished.
fn run_session(arrivals: Vec<Arrival>) -> (Vec<Result<StreamChunk, LLMError>>, bool) {
    let mut session = StreamSession::new();
    let mut arrivals = arrivals.into_iter();
    let mut delivered = Vec::new();
    let mut next = session.resume();
    loop {
        next = match next {
            NextStep::Decode(event) => {
                let payload = read_payload(&event.event_type, &event.data)
                    .unwrap_or(EventPayload::Unreadable);
                session.decoded(&event.event_type, payload)
            }
            NextStep::Deliver(chunks) => {
                assert!(!chunks.is_empty());
                delivered.extend(chunks);
                session.resume()
            }
            NextStep::Receive => match arrivals.next() {
                Some(arrival) => session.received(arrival),
                None => return (delivered, false),
            },
            NextStep::Finish => return (delivered, true),
        };
    }
}

#[test]
fn a_session_delivers_the_same_chunks_however_the_answer_is_cut() {
    let stream: &[u8] = b"event: ping\ndata: {}\n\n\
event: response.output_item.added\ndata: {\"output_index\": 1,\ndata: \"item\": {\"id\": \"f\", \"type\": \"function_call\"}}\n\n\
event: response.output_text.delta\ndata: {\"delta\": \"Hi\"}\n\n\
event: response.function_call_arguments.done\ndata: {\"item_id\": \"f\", \"arguments\": \"{}\"}\n\n\
event: response.completed\ndata: {\"response\": {}}\n\nevent: response.incomplete\n";
    let (whole, finished) = run_session(vec![Arrival::Piece(stream.to_vec()), Arrival::End]);
    assert!(finished);
    // What stands behind the last blank line is dropped.
    assert_eq!(whole.len(), 4);
    assert!(matches!(&whole[0], Ok(StreamChunk::ToolUseStart { index: 1, .. })));
    assert!(matches!(&whole[1], Ok(StreamChunk::Text(text)) if text == "Hi"));
    assert!(matches!(&whole[2], Ok(StreamChunk::ToolUseComplete { .. })));
    assert!(matches!(&whole[3], Ok(StreamChunk::Done { stop_reason }) if stop_reason == "tool_use"));
    for size in 1..40 {
        let mut arrivals: Vec<Arrival> =
            stream.chunks(size).map(|piece| Arrival::Piece(piece.to_vec())).collect();
        arrivals.push(Arrival::End);
        let (parts, _) = run_session(arrivals);
        assert_eq!(format!("{parts:?}"), format!("{whole:?}"));
    }
}

#[test]
fn a_broken_connection_is_delivered_as_an_error() {
    let (delivered, finished) = run_session(vec![
        Arrival::Piece(b"event: response.output_text.delta\ndata: {\"delta\": \"a\"}\n\nevent".to_vec()),
        Arrival::Broken("reset".into()),
        Arrival::Piece(b": response.incomplete\n\n".to_vec()),
    ]);
    assert!(!finished);
    match &delivered[..] {
        [Ok(StreamChunk::Text(text)), Err(LLMError::HttpError(reason)), Ok(StreamChunk::Done { .. })] => {
            assert_eq!(text, "a");
            assert_eq!(reason, "reset");
        }
        other => panic!("expected text, error and end, got {other:?}"),
    }
}
