//! The bodies and the heads of requests.
use openai_responses::chat::{
    ChatMessage, ChatRole, FunctionCall, FunctionTool, ImageMime, MessageType,
    StructuredOutputFormat, Tool, ToolCall, ToolChoice,
};
use openai_responses::error::LLMError;
use openai_responses::exchange::{accepts_status, Api, Endpoint, Method};
use openai_responses::openai::OpenAI;
use openai_responses::request::{
    ContentPart, ImageSource, InputItem, MessageContent, OpenAIAPIChatRequest, OpenAITool,
    ResponsesInput, ResponsesTextFormat, ResponsesTextFormatType,
};

fn make_provider(model: &str) -> OpenAI {
    OpenAI::new(
        "key",
        None,
        Some(model.to_string()),
        None,
        None,
        None,
        None,
        None,
        None,
        None,
        None,
        None,
        None,
        None,
        None,
        None,
        None,
        None,
        None,
        None,
        None,
    )
    .unwrap()
}

fn json(text: &str) -> serde_json::Value {
    serde_json::from_str(text).unwrap()
}

fn message(role: ChatRole, message_type: MessageType, content: &str) -> ChatMessage {
    ChatMessage { role, message_type, content: content.to_string() }
}

fn search_tool() -> Tool {
    Tool {
        tool_type: "function".to_string(),
        function: FunctionTool {
            name: "search".to_string(),
            description: "Search the web".to_string(),
            parameters: json(r#"{"type": "object", "properties": {}}"#),
        },
    }
}

// -- tools --

#[test]
fn test_build_function_tools_empty_returns_none() {
    let provider = make_provider("gpt-4.1");
    let tools = provider.build_function_tools(None);
    assert!(tools.is_none());
}

#[test]
fn test_build_responses_function_tools_empty_returns_none() {
    let provider = make_provider("codex-mini");
    let tools = provider.build_responses_function_tools(None);
    assert!(tools.is_none());
}

#[test]
fn test_build_responses_function_tools_produces_flat_format() {
    let provider = make_provider("codex-mini");
    let tools = vec![search_tool()];
    let result = provider.build_responses_function_tools(Some(&tools)).unwrap();
    assert_eq!(result.len(), 1);
    match &result[0] {
        OpenAITool::ResponsesFunction { tool_type, name, description, parameters } => {
            assert_eq!(tool_type, "function");
            assert_eq!(name, "search");
            assert_eq!(description, "Search the web");
            assert_eq!(*parameters, json(r#"{"type": "object", "properties": {}}"#));
        }
        _ => panic!("expected a flat function tool"),
    }
}

#[test]
fn tools_keep_their_order_and_form() {
    let provider = make_provider("gpt-4.1");
    let mut other = search_tool();
    other.tool_type = "custom".to_string();
    other.function.name = "other".to_string();
    let tools = vec![search_tool(), other];

    let nested = provider.build_function_tools(Some(&tools)).unwrap();
    assert_eq!(nested.len(), 2);
    match &nested[1] {
        OpenAITool::Function { tool_type, function } => {
            assert_eq!(tool_type, "custom");
            assert_eq!(function.name, "other");
            assert_eq!(function.parameters, tools[1].function.parameters);
        }
        _ => panic!("expected a function tool"),
    }

    let flat = provider.build_responses_function_tools(Some(&tools)).unwrap();
    match &flat[1] {
        OpenAITool::ResponsesFunction { tool_type, name, .. } => {
            assert_eq!(tool_type, "function");
            assert_eq!(name, "other");
        }
        _ => panic!("expected a flat function tool"),
    }

    assert!(provider.build_function_tools(Some(&[])).is_none());
    assert!(provider.build_responses_function_tools(Some(&[])).is_none());
}

#[test]
fn tool_choice_goes_with_tools_only() {
    let mut provider = make_provider("gpt-4.1");
    provider.provider.tool_choice = Some(ToolChoice::Tool("search".into()));
    let tools = vec![search_tool()];
    let offered = provider.build_function_tools(Some(&tools));
    match provider.resolve_tool_choice_for_request(&offered) {
        Some(ToolChoice::Tool(name)) => assert_eq!(name, "search"),
        other => panic!("expected the choice, got {other:?}"),
    }
    assert!(provider.resolve_tool_choice_for_request(&None).is_none());
}

#[test]
fn test_build_web_search_tool_with_location() {
    let provider = OpenAI::new(
        "key",
        None,
        None,
        None,
        None,
        None,
        None,
        None,
        None,
        None,
        None,
        None,
        None,
        None,
        None,
        Some(true),
        None,
        Some("approximate".to_string()),
        Some("US".to_string()),
        Some("SF".to_string()),
        Some("CA".to_string()),
    )
    .unwrap();

    let tool = provider.build_web_search_tool();
    match tool {
        OpenAITool::WebSearch { user_location, .. } => {
            let loc = user_location.expect("location");
            assert_eq!(loc.location_type, "approximate");
            let approx = loc.approximate.expect("approx");
            assert_eq!(approx.country, "US");
            assert_eq!(approx.city, "SF");
            assert_eq!(approx.region, "CA");
        }
        _ => panic!("expected web search tool"),
    }
}

#[test]
fn web_search_tool_says_only_what_is_known() {
    let mut provider = make_provider("m");
    match provider.build_web_search_tool() {
        OpenAITool::WebSearch { tool_type, user_location } => {
            assert_eq!(tool_type, "web_search_preview");
            assert!(user_location.is_none());
        }
        _ => panic!("expected web search tool"),
    }

    provider.web_search_user_location_type = Some("exact".into());
    match provider.build_web_search_tool() {
        OpenAITool::WebSearch { user_location, .. } => {
            let location = user_location.unwrap();
            assert_eq!(location.location_type, "exact");
            assert!(location.approximate.is_none());
        }
        _ => panic!("expected web search tool"),
    }

    provider.web_search_user_location_approximate_city = Some("Paris".into());
    match provider.build_web_search_tool() {
        OpenAITool::WebSearch { user_location, .. } => {
            let place = user_location.unwrap().approximate.unwrap();
            assert_eq!(place.country, "");
            assert_eq!(place.city, "Paris");
            assert_eq!(place.region, "");
        }
        _ => panic!("expected web search tool"),
    }

    provider.web_search_user_location_type = Some("somewhere".into());
    match provider.build_web_search_tool() {
        OpenAITool::WebSearch { user_location, .. } => assert!(user_location.is_none()),
        _ => panic!("expected web search tool"),
    }
}

// -- the text format --

#[test]
fn test_responses_text_format_from_structured_output() {
    let sof = StructuredOutputFormat {
        name: "MySchema".into(),
        description: Some("A schema".into()),
        schema: Some(json(r#"{"type": "object", "properties": {"x": {"type": "string"}}}"#)),
        strict: Some(true),
    };
    let format = ResponsesTextFormat::from(sof);
    match format.format {
        ResponsesTextFormatType::JsonSchema { name, schema, strict } => {
            assert_eq!(name, "MySchema");
            assert_eq!(strict, Some(true));
            assert!(schema["additionalProperties"].as_bool().is_some());
        }
        _ => panic!("expected a JSON schema"),
    }
}

fn schema_of(schema: Option<serde_json::Value>) -> Option<serde_json::Value> {
    let format = StructuredOutputFormat {
        name: "S".into(),
        description: None,
        schema,
        strict: None,
    };
    ResponsesTextFormat::checked_from(format).map(|format| match format.format {
        ResponsesTextFormatType::JsonSchema { schema, .. } => schema,
        _ => panic!("expected a JSON schema"),
    })
}

#[test]
fn a_schema_forbids_further_members_unless_it_says_otherwise() {
    assert_eq!(
        schema_of(Some(json(r#"{"type": "object"}"#))),
        Some(json(r#"{"type": "object", "additionalProperties": false}"#))
    );
    let open = json(r#"{"type": "object", "additionalProperties": true}"#);
    assert_eq!(schema_of(Some(open.clone())), Some(open));
    let null = json(r#"{"additionalProperties": null}"#);
    assert_eq!(schema_of(Some(null.clone())), Some(null));
    assert_eq!(schema_of(None), Some(json("{}")));
    assert_eq!(
        schema_of(Some(json("null"))),
        Some(json(r#"{"additionalProperties": false}"#))
    );
}

#[test]
fn closing_a_schema_twice_changes_nothing() {
    let once = schema_of(Some(json(r#"{"type": "object"}"#)));
    assert_eq!(schema_of(once.clone()), once);
}

#[test]
fn a_schema_that_is_no_object_is_not_accepted() {
    for schema in ["[]", "true", "1", r#""text""#] {
        assert_eq!(schema_of(Some(json(schema))), None, "{schema}");
    }
    let format = StructuredOutputFormat {
        name: "S".into(),
        description: None,
        schema: Some(json("[]")),
        strict: None,
    };
    let provider = make_provider("codex-mini");
    assert!(!ResponsesTextFormat::accepts(&format));
    assert!(provider.checked_responses_request(&[], None, Some(format), false).is_none());
}

// -- the input of the Responses API --

#[test]
fn test_prepare_responses_input_system_becomes_instructions() {
    let p = make_provider("codex-mini");
    let messages = vec![
        ChatMessage {
            role: ChatRole::System,
            message_type: MessageType::Text,
            content: "You are helpful".into(),
        },
        ChatMessage {
            role: ChatRole::User,
            message_type: MessageType::Text,
            content: "Hi".into(),
        },
    ];

    let (instructions, items) = p.prepare_responses_input(&messages);
    assert_eq!(instructions, Some("You are helpful".into()));
    assert_eq!(items.len(), 1);
    match &items[0] {
        InputItem::Message { role, content } => {
            assert_eq!(role, "user");
            match content {
                MessageContent::Text(t) => assert_eq!(t, "Hi"),
                _ => panic!("expected text"),
            }
        }
        _ => panic!("expected message"),
    }
}

#[test]
fn test_prepare_responses_input_tool_use_and_result() {
    let p = make_provider("codex-mini");
    let tc = ToolCall {
        id: "call_1".into(),
        call_type: "function".into(),
        function: FunctionCall {
            name: "get_weather".into(),
            arguments: r#"{"city":"SF"}"#.into(),
        },
    };

    let messages = vec![
        ChatMessage {
            role: ChatRole::Assistant,
            message_type: MessageType::ToolUse(vec![tc.clone()]),
            content: String::new(),
        },
        ChatMessage {
            role: ChatRole::Tool,
            message_type: MessageType::ToolResult(vec![tc]),
            content: "72F".into(),
        },
    ];

    let (instructions, items) = p.prepare_responses_input(&messages);
    assert!(instructions.is_none());
    assert_eq!(items.len(), 2);

    match &items[0] {
        InputItem::FunctionCall { call_id, name, arguments } => {
            assert_eq!(call_id, "call_1");
            assert_eq!(name, "get_weather");
            assert_eq!(arguments, r#"{"city":"SF"}"#);
        }
        _ => panic!("expected function_call"),
    }

    match &items[1] {
        InputItem::FunctionCallOutput { call_id, output } => {
            assert_eq!(call_id, "call_1");
            assert_eq!(output, "72F");
        }
        _ => panic!("expected function_call_output"),
    }
}

#[test]
fn test_prepare_responses_input_tool_result_falls_back_to_tool_call_arguments() {
    let p = make_provider("codex-mini");
    let tc = ToolCall {
        id: "call_1".into(),
        call_type: "function".into(),
        function: FunctionCall { name: "get_weather".into(), arguments: "72F".into() },
    };

    let messages = vec![ChatMessage {
        role: ChatRole::Tool,
        message_type: MessageType::ToolResult(vec![tc]),
        content: String::new(),
    }];

    let (_, items) = p.prepare_responses_input(&messages);
    assert_eq!(items.len(), 1);
    match &items[0] {
        InputItem::FunctionCallOutput { call_id, output } => {
            assert_eq!(call_id, "call_1");
            assert_eq!(output, "72F");
        }
        _ => panic!("expected function_call_output"),
    }
}

#[test]
fn test_prepare_responses_input_image_url() {
    let p = make_provider("codex-mini");
    let messages = vec![ChatMessage {
        role: ChatRole::User,
        message_type: MessageType::ImageURL("https://example.com/img.png".into()),
        content: String::new(),
    }];

    let (_, items) = p.prepare_responses_input(&messages);
    assert_eq!(items.len(), 1);
    match &items[0] {
        InputItem::Message { content, .. } => match content {
            MessageContent::Parts(parts) => {
                assert_eq!(parts.len(), 1);
                match &parts[0] {
                    ContentPart::InputImage { source: ImageSource::Url { url } } => {
                        assert_eq!(url, "https://example.com/img.png")
                    }
                    _ => panic!("expected url image"),
                }
            }
            _ => panic!("expected parts"),
        },
        _ => panic!("expected message"),
    }
}

#[test]
fn test_prepare_responses_input_image_url_with_text() {
    let p = make_provider("codex-mini");
    let messages = vec![ChatMessage {
        role: ChatRole::User,
        message_type: MessageType::ImageURL("https://example.com/img.png".into()),
        content: "Describe this image".into(),
    }];

    let (_, items) = p.prepare_responses_input(&messages);
    assert_eq!(items.len(), 1);
    match &items[0] {
        InputItem::Message { content, .. } => match content {
            MessageContent::Parts(parts) => {
                assert_eq!(parts.len(), 2);
                match &parts[0] {
                    ContentPart::InputText { text } => assert_eq!(text, "Describe this image"),
                    _ => panic!("expected input_text first"),
                }
                match &parts[1] {
                    ContentPart::InputImage { source: ImageSource::Url { url } } => {
                        assert_eq!(url, "https://example.com/img.png")
                    }
                    _ => panic!("expected url image second"),
                }
            }
            _ => panic!("expected parts"),
        },
        _ => panic!("expected message"),
    }
}

#[test]
fn test_prepare_responses_input_image_base64() {
    let p = make_provider("codex-mini");
    let messages = vec![ChatMessage {
        role: ChatRole::User,
        message_type: MessageType::Image((ImageMime::PNG, vec![1, 2, 3])),
        content: String::new(),
    }];

    let (_, items) = p.prepare_responses_input(&messages);
    assert_eq!(items.len(), 1);
    match &items[0] {
        InputItem::Message { content, .. } => match content {
            MessageContent::Parts(parts) => {
                assert_eq!(parts.len(), 1);
                match &parts[0] {
                    ContentPart::InputImage {
                        source: ImageSource::Base64 { media_type, .. },
                    } => assert_eq!(media_type, "image/png"),
                    _ => panic!("expected base64 image"),
                }
            }
            _ => panic!("expected parts"),
        },
        _ => panic!("expected message"),
    }
}

#[test]
fn test_prepare_responses_input_image_base64_with_text() {
    let p = make_provider("codex-mini");
    let messages = vec![ChatMessage {
        role: ChatRole::User,
        message_type: MessageType::Image((ImageMime::PNG, vec![1, 2, 3])),
        content: "Analyze this image".into(),
    }];

    let (_, items) = p.prepare_responses_input(&messages);
    assert_eq!(items.len(), 1);
    match &items[0] {
        InputItem::Message { content, .. } => match content {
            MessageContent::Parts(parts) => {
                assert_eq!(parts.len(), 2);
                match &parts[0] {
                    ContentPart::InputText { text } => assert_eq!(text, "Analyze this image"),
                    _ => panic!("expected input_text first"),
                }
                match &parts[1] {
                    ContentPart::InputImage {
                        source: ImageSource::Base64 { media_type, .. },
                    } => assert_eq!(media_type, "image/png"),
                    _ => panic!("expected base64 image second"),
                }
            }
            _ => panic!("expected parts"),
        },
        _ => panic!("expected message"),
    }
}

#[test]
fn image_bytes_are_written_in_base64_with_padding() {
    let p = make_provider("codex-mini");
    for (bytes, expected) in [
        (vec![1, 2, 3], "AQID"),
        (vec![], ""),
        (vec![255], "/w=="),
        (vec![251, 255], "+/8="),
        (vec![0, 16, 131, 16, 81, 135, 32, 146, 139], "ABCDEFGHIJKL"),
        (b"light work.".to_vec(), "bGlnaHQgd29yay4="),
    ] {
        let messages = [message(ChatRole::User, MessageType::Image((ImageMime::WEBP, bytes)), "")];
        assert!(OpenAI::can_send_images(&messages));
        let (_, items) = p.prepare_responses_input(&messages);
        match &items[0] {
            InputItem::Message { content: MessageContent::Parts(parts), .. } => match &parts[0] {
                ContentPart::InputImage { source: ImageSource::Base64 { data, media_type } } => {
                    assert_eq!(data, expected);
                    assert_eq!(media_type, "image/webp");
                }
                _ => panic!("expected base64 image"),
            },
            _ => panic!("expected parts"),
        }
    }
}

#[test]
fn base64_image_content_takes_the_encoded_bytes() {
    let content =
        OpenAI::base64_image_content(&"Look".to_string(), ImageMime::GIF, "R0lG".to_string());
    match content {
        MessageContent::Parts(parts) => {
            assert_eq!(parts.len(), 2);
            match &parts[1] {
                ContentPart::InputImage { source: ImageSource::Base64 { data, media_type } } => {
                    assert_eq!(data, "R0lG");
                    assert_eq!(media_type, "image/gif");
                }
                _ => panic!("expected base64 image"),
            }
        }
        _ => panic!("expected parts"),
    }
}

#[test]
fn the_last_system_message_gives_the_instructions() {
    let p = make_provider("codex-mini");
    let messages = [
        message(ChatRole::System, MessageType::Text, "first"),
        message(ChatRole::Assistant, MessageType::Text, "hello"),
        message(ChatRole::System, MessageType::Text, "second"),
        message(ChatRole::User, MessageType::Text, "hi"),
    ];
    let (instructions, items) = p.prepare_responses_input(&messages);
    assert_eq!(instructions.as_deref(), Some("second"));
    assert_eq!(items.len(), 2);
    match &items[0] {
        InputItem::Message { role, content: MessageContent::Text(text) } => {
            assert_eq!(role, "assistant");
            assert_eq!(text, "hello");
        }
        _ => panic!("expected message"),
    }
}

#[test]
fn the_input_of_a_conversation_is_that_of_its_parts() {
    let p = make_provider("codex-mini");
    let call = ToolCall {
        id: "c".into(),
        call_type: "function".into(),
        function: FunctionCall { name: "f".into(), arguments: "{}".into() },
    };
    let calls = vec![call.clone(), call];
    let messages = [
        message(ChatRole::System, MessageType::Text, "be brief"),
        message(ChatRole::Assistant, MessageType::ToolUse(calls.clone()), "ignored"),
        message(ChatRole::Tool, MessageType::ToolResult(calls), "done"),
        // A message of a tool that holds no result is left out.
        message(ChatRole::Tool, MessageType::Text, "lost"),
        // Calls in a message of the user are no calls.
        message(ChatRole::User, MessageType::ToolUse(Vec::new()), "text"),
    ];
    let (instructions, whole) = p.prepare_responses_input(&messages);
    assert_eq!(instructions.as_deref(), Some("be brief"));
    assert_eq!(whole.len(), 5);
    for cut in 0..=messages.len() {
        let (first, mut items) = p.prepare_responses_input(&messages[..cut]);
        let (second, more) = p.prepare_responses_input(&messages[cut..]);
        items.extend(more);
        assert_eq!(format!("{items:?}"), format!("{whole:?}"));
        assert_eq!(second.or(first), instructions);
    }
}

// -- bodies --

#[test]
fn responses_request_carries_the_settings() {
    let mut p = make_provider("codex-mini");
    p.provider.max_tokens = Some(99);
    p.provider.tool_choice = Some(ToolChoice::Auto);
    p.provider.reasoning_effort = Some("high".into());
    p.provider.extra_body.insert("seed".into(), json("7"));
    p.previous_response_id = Some("resp_prev_123".into());
    let messages = [
        message(ChatRole::System, MessageType::Text, "be brief"),
        message(ChatRole::User, MessageType::Text, "hi"),
    ];
    let tools = vec![search_tool()];
    let format = StructuredOutputFormat {
        name: "S".into(),
        description: None,
        schema: None,
        strict: Some(false),
    };
    let body = p.responses_request(&messages, Some(&tools), Some(format), true);
    assert_eq!(body.model, "codex-mini");
    assert_eq!(body.instructions.as_deref(), Some("be brief"));
    assert!(matches!(&body.input, ResponsesInput::Items(items) if items.len() == 1));
    assert_eq!(body.tools.map(|tools| tools.len()), Some(1));
    assert!(matches!(body.tool_choice, Some(ToolChoice::Auto)));
    assert_eq!(body.max_output_tokens, Some(99));
    assert_eq!(body.previous_response_id.as_deref(), Some("resp_prev_123"));
    let reasoning = body.reasoning.unwrap();
    assert_eq!(reasoning.effort.as_deref(), Some("high"));
    assert_eq!(reasoning.summary.as_deref(), Some("auto"));
    assert!(body.text.is_some());
    assert!(body.stream);
    assert_eq!(body.extra_body["seed"], json("7"));

    let body = p.checked_responses_request(&messages, None, None, false).unwrap();
    assert!(body.tools.is_none());
    assert!(body.tool_choice.is_none());
    assert!(body.text.is_none());
    assert!(!body.stream);
}

#[test]
fn chat_request_and_its_stream() {
    let mut p = make_provider("gpt-4.1");
    p.provider.max_tokens = Some(12);
    p.provider.top_k = Some(4);
    p.provider.tool_choice = Some(ToolChoice::Disabled);
    p.provider.reasoning_effort = Some("low".into());
    let body = p.chat_request(vec!["hi"], None, Some("format"));
    assert_eq!(body.model, "gpt-4.1");
    assert_eq!(body.messages, vec!["hi"]);
    assert!(body.input.is_none());
    assert_eq!(body.max_completion_tokens, Some(12));
    assert!(body.max_output_tokens.is_none());
    assert_eq!(body.top_k, Some(4));
    assert!(body.tools.is_none());
    assert!(body.tool_choice.is_none());
    assert_eq!(body.reasoning_effort.as_deref(), Some("low"));
    assert_eq!(body.response_format, Some("format"));
    assert!(body.stream_options.is_none());
    assert!(!body.stream);

    let body = p.chat_stream_request(vec!["hi"], None, None::<&str>);
    assert!(body.tools.is_none());
    assert!(matches!(body.tool_choice, Some(ToolChoice::Disabled)));
    assert!(body.stream_options.unwrap().include_usage);
    assert!(body.stream);

    let tools = vec![search_tool()];
    let body = p.chat_request(vec!["hi"], Some(&tools), None::<&str>);
    assert!(matches!(body.tool_choice, Some(ToolChoice::Disabled)));
    assert!(matches!(&body.tools.unwrap()[0], OpenAITool::Function { .. }));
}

#[test]
fn hosted_tools_request_takes_a_text() {
    let mut p = make_provider("gpt-4.1");
    p.provider.max_tokens = Some(12);
    p.provider.tool_choice = Some(ToolChoice::Any);
    let hosted = vec![OpenAITool::FileSearch {
        tool_type: "file_search".into(),
        vector_store_ids: vec!["vs_1".into()],
        max_num_results: Some(5),
    }];
    let body: OpenAIAPIChatRequest<String, String> =
        p.hosted_tools_request("look".to_string(), hosted);
    assert!(body.messages.is_empty());
    assert_eq!(body.input.as_deref(), Some("look"));
    assert!(body.max_completion_tokens.is_none());
    assert_eq!(body.max_output_tokens, Some(12));
    assert!(matches!(body.tool_choice, Some(ToolChoice::Any)));
    assert!(matches!(&body.tools.unwrap()[0], OpenAITool::FileSearch { .. }));

    let body: OpenAIAPIChatRequest<String, String> = p.hosted_web_search_request("look".into());
    let tools = body.tools.unwrap();
    assert_eq!(tools.len(), 1);
    assert!(matches!(&tools[0], OpenAITool::WebSearch { .. }));
}

#[test]
fn web_search_request_asks_for_no_choice() {
    let mut p = make_provider("gpt-5");
    p.provider.tool_choice = Some(ToolChoice::Any);
    p.previous_response_id = Some("resp_1".into());
    let body = p.web_search_request("news".to_string());
    assert!(body.tool_choice.is_none());
    assert!(body.instructions.is_none());
    assert!(body.text.is_none());
    assert!(!body.stream);
    assert_eq!(body.previous_response_id.as_deref(), Some("resp_1"));
    assert!(matches!(&body.tools.unwrap()[0], OpenAITool::WebSearch { .. }));
    match body.input {
        ResponsesInput::Items(items) => match &items[0] {
            InputItem::Message { role, content: MessageContent::Text(text) } => {
                assert_eq!(items.len(), 1);
                assert_eq!(role, "user");
                assert_eq!(text, "news");
            }
            _ => panic!("expected message"),
        },
        _ => panic!("expected items"),
    }
}

#[test]
fn embedding_request_needs_a_key() {
    let mut p = make_provider("text-embedding-3-small");
    p.provider.embedding_dimensions = Some(8);
    let body = p.embedding_request(vec!["a".into(), "b".into()]).unwrap();
    assert_eq!(body.model, "text-embedding-3-small");
    assert_eq!(body.input, vec!["a".to_string(), "b".to_string()]);
    assert_eq!(body.encoding_format.as_deref(), Some("float"));
    assert_eq!(body.dimensions, Some(8));

    p.provider.embedding_encoding_format = Some("base64".into());
    let body = p.embedding_request(Vec::new()).unwrap();
    assert_eq!(body.encoding_format.as_deref(), Some("base64"));

    p.provider.api_key = String::new();
    match p.embedding_request(Vec::new()) {
        Err(LLMError::AuthError(message)) => assert_eq!(message, "Missing OpenAI API key"),
        other => panic!("expected an error, got {other:?}"),
    }
}

// -- heads and replies --

#[test]
fn request_heads_join_the_address_and_the_path() {
    let mut p = make_provider("m");
    p.provider.timeout_seconds = Some(9);
    for (endpoint, url, method, timeout) in [
        (Endpoint::Responses, "https://api.openai.com/v1/responses", Method::Post, Some(9)),
        (
            Endpoint::ChatCompletions,
            "https://api.openai.com/v1/chat/completions",
            Method::Post,
            Some(9),
        ),
        (Endpoint::Models, "https://api.openai.com/v1/models", Method::Get, None),
        (Endpoint::Embeddings, "https://api.openai.com/v1/embeddings", Method::Post, None),
    ] {
        let head = p.request_head(endpoint).unwrap();
        assert_eq!(head.url, url);
        assert_eq!(head.method, method);
        assert_eq!(head.bearer, "key");
        assert_eq!(head.timeout_seconds, timeout);
    }
    // Without a slash at its end the last part of the address is replaced.
    p.provider.base_url = "https://example.com/a/b".into();
    assert_eq!(p.request_head(Endpoint::Models).unwrap().url, "https://example.com/a/models");
}

#[test]
fn an_address_that_cannot_be_read_is_an_error() {
    let mut p = make_provider("m");
    p.provider.base_url = "no address".into();
    assert!(matches!(p.request_head(Endpoint::Responses), Err(LLMError::HttpError(_))));
    match p.request_head_at(Endpoint::Responses, Err("broken".into())) {
        Err(LLMError::HttpError(message)) => assert_eq!(message, "broken"),
        other => panic!("expected an error, got {other:?}"),
    }
    let head = p.request_head_at(Endpoint::Responses, Ok("https://x/".into())).unwrap();
    assert_eq!(head.url, "https://x/");
}

#[test]
fn a_refused_request_is_answered_with_status_and_body() {
    for (api, message) in [
        (Api::Responses, "OpenAI Responses API returned error status: 429 Too Many Requests"),
        (Api::HostedTools, "OpenAI hosted tools API returned error status: 429 Too Many Requests"),
        (Api::ChatCompletions, "OpenAI API returned error status: 429 Too Many Requests"),
    ] {
        match api.status_error("429 Too Many Requests", "slow down".to_string()) {
            LLMError::ResponseFormatError { message: text, raw_response } => {
                assert_eq!(text, message);
                assert_eq!(raw_response, "slow down");
            }
            other => panic!("expected an error, got {other:?}"),
        }
    }
}

#[test]
fn a_reply_is_a_success_exactly_on_a_status_in_the_two_hundreds() {
    for (code, success) in
        [(0, false), (199, false), (200, true), (204, true), (299, true), (300, false), (404, false)]
    {
        assert_eq!(accepts_status(code), success, "{code}");
        let refused = Api::Responses.check_status(code, "the status", "the body");
        assert_eq!(refused.is_none(), success, "{code}");
        let read = Api::HostedTools.read_reply(code, "the status", "the body".to_string(), Ok(5));
        assert_eq!(read.is_ok(), success, "{code}");
    }
    match Api::Responses.check_status(500, "500 Internal Server Error", "oops") {
        Some(LLMError::ResponseFormatError { message, raw_response }) => {
            assert_eq!(
                message,
                "OpenAI Responses API returned error status: 500 Internal Server Error"
            );
            assert_eq!(raw_response, "oops");
        }
        other => panic!("expected an error, got {other:?}"),
    }
}

#[test]
fn a_reply_gives_its_answer_or_the_first_error() {
    let read = |code: u16, decoded: Result<u8, String>| {
        Api::HostedTools.read_reply(code, "the status", "the body".to_string(), decoded)
    };
    assert_eq!(read(200, Ok(5)).unwrap(), 5);
    for (code, decoded, expected) in [
        (200, Err("bad".to_string()), "Failed to decode OpenAI hosted tools API response: bad"),
        (400, Ok(5), "OpenAI hosted tools API returned error status: the status"),
        (400, Err("bad".to_string()), "OpenAI hosted tools API returned error status: the status"),
    ] {
        match read(code, decoded) {
            Err(LLMError::ResponseFormatError { message, raw_response }) => {
                assert_eq!(message, expected);
                assert_eq!(raw_response, "the body");
            }
            other => panic!("expected an error, got {other:?}"),
        }
    }
}

#[test]
fn a_body_that_cannot_be_read_is_an_error() {
    let read: Result<u8, LLMError> = Api::Responses.check_decoded("5".to_string(), Ok(5));
    assert_eq!(read.unwrap(), 5);
    for (api, message) in [
        (Api::Responses, "Failed to decode OpenAI Responses API response: bad"),
        (Api::HostedTools, "Failed to decode OpenAI hosted tools API response: bad"),
        (Api::ChatCompletions, "Failed to decode OpenAI API response: bad"),
    ] {
        let read: Result<u8, LLMError> = api.check_decoded("{".to_string(), Err("bad".into()));
        match read {
            Err(LLMError::ResponseFormatError { message: text, raw_response }) => {
                assert_eq!(text, message);
                assert_eq!(raw_response, "{");
            }
            other => panic!("expected an error, got {other:?}"),
        }
    }
}
