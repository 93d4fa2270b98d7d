//! Answers of the Responses API and of the hosted tools.
use openai_responses::chat::{ChatResponse, Usage};
use openai_responses::response::{
    Annotation, OpenAIResponsesResponse, OpenAIWebSearchChatResponse, OpenAIWebSearchContent,
    OpenAIWebSearchOutput, OutputContentPart, OutputItem, ReasoningSummaryPart,
};
use serde_json::Value;

fn optional_text(value: &Value, key: &str) -> Option<String> {
    value.get(key).and_then(Value::as_str).map(String::from)
}

fn text(value: &Value, key: &str) -> String {
    optional_text(value, key).unwrap()
}

fn list<T>(value: &Value, key: &str, read: fn(&Value) -> T) -> Vec<T> {
    match value.get(key).and_then(Value::as_array) {
        Some(items) => items.iter().map(read).collect(),
        None => Vec::new(),
    }
}

fn index(value: &Value, key: &str) -> Option<usize> {
    value.get(key).and_then(Value::as_u64).map(|n| n as usize)
}

fn count(value: &Value, key: &str) -> u32 {
    value[key].as_u64().unwrap() as u32
}

fn annotation(value: &Value) -> Annotation {
    Annotation {
        annotation_type: optional_text(value, "type"),
        start_index: index(value, "start_index"),
        end_index: index(value, "end_index"),
        url: optional_text(value, "url"),
        title: optional_text(value, "title"),
        file_id: optional_text(value, "file_id"),
    }
}

fn content_part(value: &Value) -> OutputContentPart {
    match value["type"].as_str() {
        Some("output_text") => OutputContentPart::Text {
            text: text(value, "text"),
            annotations: list(value, "annotations", annotation),
        },
        Some("refusal") => OutputContentPart::Refusal { refusal: text(value, "refusal") },
        _ => OutputContentPart::Unknown,
    }
}

fn summary_part(value: &Value) -> ReasoningSummaryPart {
    ReasoningSummaryPart {
        part_type: optional_text(value, "type"),
        text: optional_text(value, "text"),
    }
}

fn output_item(value: &Value) -> OutputItem {
    match value["type"].as_str() {
        Some("message") => OutputItem::Message {
            id: text(value, "id"),
            role: text(value, "role"),
            content: list(value, "content", content_part),
        },
        Some("function_call") => OutputItem::FunctionCall {
            id: text(value, "id"),
            call_id: text(value, "call_id"),
            name: text(value, "name"),
            arguments: text(value, "arguments"),
        },
        Some("reasoning") => OutputItem::Reasoning {
            id: text(value, "id"),
            summary: list(value, "summary", summary_part),
        },
        Some("web_search_call") => {
            OutputItem::WebSearchCall { id: text(value, "id"), status: text(value, "status") }
        }
        Some("file_search_call") => {
            OutputItem::FileSearchCall { id: text(value, "id"), status: text(value, "status") }
        }
        _ => OutputItem::Unknown,
    }
}

fn answer(json: &str) -> OpenAIResponsesResponse {
    let value: Value = serde_json::from_str(json).unwrap();
    OpenAIResponsesResponse {
        id: text(&value, "id"),
        status: text(&value, "status"),
        output: list(&value, "output", output_item),
        usage: value.get("usage").map(|usage| Usage {
            prompt_tokens: count(usage, "input_tokens"),
            completion_tokens: count(usage, "output_tokens"),
            total_tokens: count(usage, "total_tokens"),
        }),
        model: optional_text(&value, "model"),
    }
}

#[test]
fn test_responses_response_text_deserialization() {
    let resp = answer(
        r#"{
            "id": "resp_123",
            "status": "completed",
            "output": [{
                "type": "message",
                "id": "msg_1",
                "role": "assistant",
                "content": [{"type": "output_text", "text": "Hello!", "annotations": []}]
            }],
            "usage": {"input_tokens": 10, "output_tokens": 5, "total_tokens": 15}
        }"#,
    );
    assert_eq!(resp.id, "resp_123");
    assert_eq!(resp.status, "completed");
    assert_eq!(resp.text(), Some("Hello!".into()));
    assert!(resp.tool_calls().is_none());
    let usage = resp.usage().unwrap();
    assert_eq!(usage.prompt_tokens, 10);
    assert_eq!(usage.completion_tokens, 5);
}

#[test]
fn test_responses_response_tool_calls_deserialization() {
    let resp = answer(
        r#"{
            "id": "resp_456",
            "status": "completed",
            "output": [
                {
                    "type": "function_call",
                    "id": "fc_1",
                    "call_id": "call_abc",
                    "name": "get_weather",
                    "arguments": "{\"city\":\"SF\"}"
                }
            ],
            "usage": {"input_tokens": 10, "output_tokens": 20, "total_tokens": 30}
        }"#,
    );
    assert!(resp.text().is_none());
    let calls = resp.tool_calls().unwrap();
    assert_eq!(calls.len(), 1);
    assert_eq!(calls[0].id, "call_abc");
    assert_eq!(calls[0].function.name, "get_weather");
    assert_eq!(calls[0].call_type, "function");
    assert_eq!(calls[0].function.arguments, r#"{"city":"SF"}"#);
}

#[test]
fn test_responses_response_unknown_output_type() {
    let resp = answer(
        r#"{
            "id": "resp_789",
            "status": "completed",
            "output": [
                {"type": "some_future_type", "id": "ft_1", "data": "whatever"},
                {"type": "message", "id": "msg_1", "role": "assistant",
                 "content": [{"type": "output_text", "text": "Hi", "annotations": []}]}
            ],
            "usage": {"input_tokens": 5, "output_tokens": 2, "total_tokens": 7}
        }"#,
    );
    assert_eq!(resp.output.len(), 2);
    assert!(matches!(resp.output[0], OutputItem::Unknown));
    assert_eq!(resp.text(), Some("Hi".into()));
}

#[test]
fn test_responses_response_refusal() {
    let resp = answer(
        r#"{
            "id": "resp_ref",
            "status": "completed",
            "output": [{
                "type": "message",
                "id": "msg_1",
                "role": "assistant",
                "content": [{"type": "refusal", "refusal": "I can't do that"}]
            }],
            "usage": {"input_tokens": 5, "output_tokens": 5, "total_tokens": 10}
        }"#,
    );
    assert!(resp.text().is_none()); // refusals don't appear as text
}

#[test]
fn test_output_text_with_annotations() {
    let resp = answer(
        r#"{
            "id": "resp_ann",
            "status": "completed",
            "output": [{
                "type": "message",
                "id": "msg_1",
                "role": "assistant",
                "content": [{
                    "type": "output_text",
                    "text": "Here is info [1].",
                    "annotations": [{
                        "type": "url_citation",
                        "start_index": 13,
                        "end_index": 16,
                        "url": "https://example.com",
                        "title": "Source"
                    }]
                }]
            }],
            "usage": {"input_tokens": 10, "output_tokens": 10, "total_tokens": 20}
        }"#,
    );
    assert_eq!(resp.text(), Some("Here is info [1].".into()));
    if let OutputItem::Message { content, .. } = &resp.output[0] {
        if let OutputContentPart::Text { annotations, .. } = &content[0] {
            assert_eq!(annotations.len(), 1);
            assert_eq!(annotations[0].url, Some("https://example.com".into()));
        } else {
            panic!("expected text content");
        }
    } else {
        panic!("expected message");
    }
}

#[test]
fn test_web_search_call_output_item() {
    let resp = answer(
        r#"{
            "id": "resp_ws",
            "status": "completed",
            "output": [
                {"type": "web_search_call", "id": "ws_1", "status": "completed"},
                {"type": "message", "id": "msg_1", "role": "assistant",
                 "content": [{"type": "output_text", "text": "Result", "annotations": []}]}
            ],
            "usage": {"input_tokens": 5, "output_tokens": 3, "total_tokens": 8}
        }"#,
    );
    assert_eq!(resp.output.len(), 2);
    match &resp.output[0] {
        OutputItem::WebSearchCall { id, status } => {
            assert_eq!(id, "ws_1");
            assert_eq!(status, "completed");
        }
        _ => panic!("expected WebSearchCall"),
    }
    assert_eq!(resp.text(), Some("Result".into()));
}

#[test]
fn test_response_id() {
    let resp = answer(
        r#"{
            "id": "resp_abc123",
            "status": "completed",
            "output": [{"type": "message", "id": "m1", "role": "assistant",
                        "content": [{"type": "output_text", "text": "Hi", "annotations": []}]}],
            "usage": {"input_tokens": 5, "output_tokens": 2, "total_tokens": 7}
        }"#,
    );
    assert_eq!(resp.response_id(), Some("resp_abc123"));
}

#[test]
fn test_thinking_from_reasoning_summary() {
    let resp = answer(
        r#"{
            "id": "resp_think",
            "status": "completed",
            "output": [
                {
                    "type": "reasoning",
                    "id": "rs_1",
                    "summary": [
                        {"type": "summary_text", "text": "The user asked about weather."},
                        {"type": "summary_text", "text": "I should check the forecast."}
                    ]
                },
                {"type": "message", "id": "m1", "role": "assistant",
                 "content": [{"type": "output_text", "text": "It's sunny!", "annotations": []}]}
            ],
            "usage": {"input_tokens": 10, "output_tokens": 5, "total_tokens": 15}
        }"#,
    );
    let thinking = resp.thinking().unwrap();
    assert!(thinking.contains("The user asked about weather."));
    assert!(thinking.contains("I should check the forecast."));
    assert_eq!(resp.text(), Some("It's sunny!".into()));
    assert_eq!(thinking, "The user asked about weather.\nI should check the forecast.");
}

#[test]
fn test_thinking_none_when_no_reasoning() {
    let resp = answer(
        r#"{
            "id": "resp_no_think",
            "status": "completed",
            "output": [{"type": "message", "id": "m1", "role": "assistant",
                        "content": [{"type": "output_text", "text": "Hi", "annotations": []}]}],
            "usage": {"input_tokens": 5, "output_tokens": 2, "total_tokens": 7}
        }"#,
    );
    assert!(resp.thinking().is_none());
}

#[test]
fn text_is_joined_over_parts_and_messages() {
    let resp = answer(
        r#"{
            "id": "r", "status": "completed",
            "output": [
                {"type": "message", "id": "m1", "role": "assistant", "content": [
                    {"type": "output_text", "text": "a"},
                    {"type": "refusal", "refusal": "no"},
                    {"type": "some_future_part"},
                    {"type": "output_text", "text": "b"}]},
                {"type": "file_search_call", "id": "fs_1", "status": "completed"},
                {"type": "message", "id": "m2", "role": "assistant", "content": [
                    {"type": "output_text", "text": "c"}]}
            ]
        }"#,
    );
    assert_eq!(resp.text().as_deref(), Some("abc"));
    assert!(resp.usage().is_none());
    assert_eq!(resp.to_string(), "abc");
}

#[test]
fn thinking_skips_parts_without_text_and_leading_breaks() {
    let resp = answer(
        r#"{
            "id": "r", "status": "completed",
            "output": [
                {"type": "reasoning", "id": "r1", "summary": [{"text": ""}, {}, {"text": "x"}]},
                {"type": "reasoning", "id": "r2"},
                {"type": "reasoning", "id": "r3", "summary": [{"text": ""}, {"text": "y"}]}
            ]
        }"#,
    );
    assert_eq!(resp.thinking().as_deref(), Some("x\n\ny"));
}

#[test]
fn an_answer_without_text_says_so() {
    let resp = answer(r#"{"id": "r", "status": "completed", "output": []}"#);
    assert!(resp.text().is_none());
    assert!(resp.tool_calls().is_none());
    assert_eq!(resp.to_string(), "No response content");
}

#[test]
fn unknown_items_change_nothing() {
    let known = r#"{"type": "message", "id": "m", "role": "assistant",
        "content": [{"type": "output_text", "text": "t"}]},
        {"type": "function_call", "id": "f", "call_id": "c", "name": "n", "arguments": "{}"}"#;
    let plain = answer(&format!(
        r#"{{"id": "r", "status": "completed", "output": [{known}]}}"#
    ));
    let mixed = answer(&format!(
        r#"{{"id": "r", "status": "completed", "output":
            [{{"type": "new"}}, {known}, {{"type": "newer"}}]}}"#
    ));
    assert_eq!(plain.text(), mixed.text());
    assert_eq!(plain.tool_calls().unwrap().len(), mixed.tool_calls().unwrap().len());
    assert_eq!(plain.thinking(), mixed.thinking());
}

fn content(text: &str) -> OpenAIWebSearchContent {
    OpenAIWebSearchContent { msg_type: "output_text".into(), text: text.into() }
}

#[test]
fn web_search_answer_is_the_last_text_of_the_last_output() {
    let usage = Usage { prompt_tokens: 1, completion_tokens: 2, total_tokens: 3 };
    let mut resp = OpenAIWebSearchChatResponse {
        output: vec![
            OpenAIWebSearchOutput { content: Some(vec![content("old")]), usage: None },
            OpenAIWebSearchOutput {
                content: Some(vec![content("first"), content("second")]),
                usage: None,
            },
        ],
        usage: Some(usage),
    };
    assert_eq!(resp.text().as_deref(), Some("second"));
    assert_eq!(resp.to_string(), "second");
    assert_eq!(resp.usage(), Some(usage));
    assert!(resp.tool_calls().is_none());
    assert!(resp.thinking().is_none());
    assert!(resp.response_id().is_none());

    resp.output.push(OpenAIWebSearchOutput { content: None, usage: None });
    assert!(resp.text().is_none());
    assert_eq!(resp.to_string(), "No response content");
    resp.output.push(OpenAIWebSearchOutput { content: Some(Vec::new()), usage: None });
    assert!(resp.text().is_none());
}
