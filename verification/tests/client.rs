//! The client's settings, the choice of the API and the builders.
use openai_responses::address::hold_address;
use openai_responses::builder::{EmbeddingBuilder, LLMBuilder};
use openai_responses::chat::{ChatResponse, ToolChoice};
use openai_responses::error::LLMError;
use openai_responses::exchange::{AfterResponses, Api, Endpoint, Operation};
use openai_responses::openai::OpenAI;
use openai_responses::request::{F32Bits, OpenAIAPIChatRequest};
use openai_responses::response::{OpenAIResponsesResponse, OpenAIWebSearchChatResponse};

fn make_provider(model: &str) -> OpenAI {
    OpenAI::new(
        "key",
        None,
        Some(model.to_string()),
        None,
        None,
        None,
        None,
        None,
        None,
        None,
        None,
        None,
        None,
        None,
        None,
        None,
        None,
        None,
        None,
        None,
        None,
    )
    .unwrap()
}

fn make_provider_with_responses_api(model: &str, use_responses_api: Option<bool>) -> OpenAI {
    let mut p = make_provider(model);
    p.use_responses_api = use_responses_api;
    p
}

// -- which API a model wants --

#[test]
fn test_should_use_responses_api_auto_detect_codex() {
    let p = make_provider("codex-mini");
    assert!(p.should_use_responses_api());
}

#[test]
fn test_should_use_responses_api_auto_detect_gpt4() {
    let p = make_provider("gpt-4.1");
    assert!(!p.should_use_responses_api());
}

#[test]
fn test_should_use_responses_api_auto_detect_gpt5() {
    let p = make_provider("gpt-5-mini");
    assert!(p.should_use_responses_api());
}

#[test]
fn test_should_use_responses_api_auto_detect_o1() {
    let p = make_provider("o1-mini");
    assert!(p.should_use_responses_api());
}

#[test]
fn test_should_use_responses_api_auto_detect_prefixed_model() {
    let p = make_provider("openai/gpt-5");
    assert!(p.should_use_responses_api());
}

#[test]
fn test_should_use_responses_api_auto_detect_trims_model_name() {
    let p = make_provider("  gpt-5  ");
    assert!(p.should_use_responses_api());
}

#[test]
fn test_should_use_responses_api_explicit_true() {
    let p = make_provider_with_responses_api("gpt-4.1", Some(true));
    assert!(p.should_use_responses_api());
}

#[test]
fn test_should_use_responses_api_explicit_false() {
    let p = make_provider_with_responses_api("codex-mini", Some(false));
    assert!(!p.should_use_responses_api());
}

#[test]
fn detection_ignores_case_and_space() {
    assert!(make_provider("GPT-5").should_use_responses_api());
    assert!(make_provider("\t O3-Mini \n").should_use_responses_api());
    assert!(make_provider("My-CODEX-model").should_use_responses_api());
    // U+3000, U+00A0 and U+2028 are white space too.
    assert!(make_provider("\u{3000}o4\u{a0}\u{2028}").should_use_responses_api());
    // U+200B is not.
    assert!(!make_provider("\u{200b}o4").should_use_responses_api());
    // Beyond ASCII: the Kelvin sign becomes a `k`, which is of no family.
    assert!(!make_provider("\u{212a}").should_use_responses_api());
}

#[test]
fn detection_takes_whole_family_names() {
    for name in ["o1", "o3.5", "o4-mini", "gpt-5.1", "azure/o3", "us:o4", "a/b/gpt-5-x"] {
        assert!(make_provider(name).should_use_responses_api(), "{name}");
    }
    for name in ["", "o2", "o11", "gpt-50", "gpt-4o", "pro1", "x-o1", "o"] {
        assert!(!make_provider(name).should_use_responses_api(), "{name}");
    }
    // Behind a separator the rest of the name does not matter.
    assert!(make_provider("azure/o100").should_use_responses_api());
}

#[test]
fn model_has_family_cases() {
    assert!(OpenAI::model_has_family("gpt-5", "gpt-5"));
    assert!(OpenAI::model_has_family("gpt-5-nano", "gpt-5"));
    assert!(OpenAI::model_has_family("gpt-5.2", "gpt-5"));
    assert!(OpenAI::model_has_family("openai/gpt-5x", "gpt-5"));
    assert!(OpenAI::model_has_family("openai:gpt-5x", "gpt-5"));
    assert!(!OpenAI::model_has_family("gpt-5x", "gpt-5"));
    assert!(!OpenAI::model_has_family("mygpt-5", "gpt-5"));
    assert!(!OpenAI::model_has_family("GPT-5", "gpt-5"));
}

#[test]
fn model_wants_responses_api_takes_a_lower_case_name() {
    assert!(OpenAI::model_wants_responses_api("codex"));
    assert!(!OpenAI::model_wants_responses_api("CODEX"));
    assert!(!OpenAI::model_wants_responses_api(" o1 "));
}

// -- turning to the Chat Completions API --

#[test]
fn test_should_fallback_from_responses_api_error_azure_version_gate() {
    let p = make_provider_with_responses_api("us/azure/openai/o3-mini", None);
    let error = LLMError::ResponseFormatError {
        message: "OpenAI Responses API returned error status: 400 Bad Request".to_string(),
        raw_response: r#"{"error":{"message":"Azure OpenAI Responses API is enabled only for api-version 2025-03-01-preview and later"}}"#.to_string(),
    };
    assert!(p.should_fallback_from_responses_api_error(&error));
}

#[test]
fn test_should_not_fallback_from_responses_api_error_when_forced() {
    let p = make_provider_with_responses_api("o3-mini", Some(true));
    let error = LLMError::ResponseFormatError {
        message: "OpenAI Responses API returned error status: 400 Bad Request".to_string(),
        raw_response: r#"{"error":{"message":"Responses API is enabled only for api-version 2025-03-01-preview and later"}}"#.to_string(),
    };
    assert!(!p.should_fallback_from_responses_api_error(&error));
}

#[test]
fn test_should_not_fallback_from_unrelated_responses_error() {
    let p = make_provider_with_responses_api("o3-mini", None);
    let error = LLMError::ResponseFormatError {
        message: "OpenAI Responses API returned error status: 500 Internal Server Error"
            .to_string(),
        raw_response: r#"{"error":{"message":"upstream overloaded"}}"#.to_string(),
    };
    assert!(!p.should_fallback_from_responses_api_error(&error));
}

#[test]
fn each_marker_leads_to_the_chat_completions_api() {
    let p = make_provider("o3-mini");
    for report in [
        "The Responses API is enabled only for api-version 9",
        "responses api wants API-VERSION 2025-03-01-PREVIEW",
        "RESPONSES API IS NOT SUPPORTED",
        "this model does not support the Responses API",
        "not supported in v1/responses",
        "V1/Responses is not supported",
    ] {
        assert!(
            p.should_fallback_from_responses_api_error(&LLMError::ProviderError(report.into())),
            "{report}"
        );
        assert!(
            p.should_fallback_from_responses_api_error(&LLMError::HttpError(report.into())),
            "{report}"
        );
        assert!(
            !p.should_fallback_from_responses_api_error(&LLMError::AuthError(report.into())),
            "{report}"
        );
        assert!(
            !p.should_fallback_from_responses_api_error(&LLMError::InvalidRequest(report.into())),
            "{report}"
        );
    }
}

#[test]
fn a_report_that_is_not_about_the_responses_api_is_no_reason() {
    let p = make_provider("o3-mini");
    let error = LLMError::HttpError("api-version 2025-03-01-preview".into());
    assert!(!p.should_fallback_from_responses_api_error(&error));
    let error = LLMError::HttpError("at /responses: api-version 2025-03-01-preview".into());
    assert!(p.should_fallback_from_responses_api_error(&error));
}

#[test]
fn the_two_texts_of_an_error_are_read_as_one() {
    let p = make_provider_with_responses_api("o3-mini", Some(false));
    let error = LLMError::ResponseFormatError {
        message: "see v1/responses".into(),
        raw_response: "api-version 2025-03-01-preview".into(),
    };
    assert!(p.should_fallback_from_responses_api_error(&error));
    // A line break stands between them.
    let error = LLMError::ResponseFormatError {
        message: "responses api is not".into(),
        raw_response: " supported".into(),
    };
    assert!(!p.should_fallback_from_responses_api_error(&error));
}

#[test]
fn after_responses_answers_fails_or_falls_back() {
    let p = make_provider("o3-mini");
    assert!(matches!(p.after_responses::<u8>(Ok(7)), AfterResponses::Answer(7)));
    match p.after_responses::<u8>(Err(LLMError::HttpError("timeout".into()))) {
        AfterResponses::Failure(error) => assert_eq!(error.message(), "timeout"),
        other => panic!("expected a failure, got {other:?}"),
    }
    let refused = Api::Responses
        .status_error("404 Not Found", "the responses api is not supported here".to_string());
    match p.after_responses::<u8>(Err(refused)) {
        AfterResponses::TryChatCompletions(error) => assert_eq!(
            error.message(),
            "OpenAI Responses API returned error status: 404 Not Found"
        ),
        other => panic!("expected a fallback, got {other:?}"),
    }
}

#[test]
fn operations_go_where_the_client_sends_them() {
    let responses = make_provider("gpt-5");
    let chat = make_provider("gpt-4.1");
    for operation in [Operation::Chat, Operation::ChatStream] {
        assert_eq!(responses.route(operation), (Api::Responses, Endpoint::Responses));
        assert_eq!(chat.route(operation), (Api::ChatCompletions, Endpoint::ChatCompletions));
    }
    let web_search = Operation::WebSearch;
    assert_eq!(responses.route(web_search), (Api::Responses, Endpoint::Responses));
    assert_eq!(chat.route(web_search), (Api::HostedTools, Endpoint::Responses));
    for client in [&responses, &chat] {
        let route = client.route(Operation::HostedTools);
        assert_eq!(route, (Api::HostedTools, Endpoint::Responses));
    }
    assert_eq!(Api::ChatCompletions.endpoint(), Endpoint::ChatCompletions);
}

// -- construction --

#[test]
fn test_openai_new_requires_api_key() {
    let result = OpenAI::new(
        "", None, None, None, None, None, None, None, None, None, None, None, None, None, None,
        None, None, None, None, None, None,
    );
    assert!(matches!(result, Err(LLMError::AuthError(_))));
    assert_eq!(result.unwrap_err().message(), "Missing OpenAI API key");
}

#[test]
fn new_has_defaults() {
    let p = OpenAI::new(
        "k", None, None, None, None, None, None, None, None, None, None, None, None, None, None,
        None, None, None, None, None, None,
    )
    .unwrap();
    assert_eq!(p.api_key(), "k");
    assert_eq!(p.base_url(), "https://api.openai.com/v1/");
    assert_eq!(p.model(), "gpt-4.1-nano");
    assert_eq!(p.timeout_seconds(), None);
    assert!(p.provider.extra_body.is_empty());
    assert!(p.use_responses_api.is_none());
    assert!(p.previous_response_id.is_none());
    assert!(!p.enable_web_search);
}

#[test]
fn an_address_is_held_as_it_was_read() {
    for (given, held) in [
        ("https://EXAMPLE.com", "https://example.com/"),
        ("HTTPS://example.com:443/v1/../v2", "https://example.com/v2"),
        ("  https://example.com/a b ", "https://example.com/a%20b"),
        ("https://api.openai.com/v1/", "https://api.openai.com/v1/"),
        // What cannot be read is held as it was given.
        ("no address", "no address"),
    ] {
        let mut builder = LLMBuilder::<OpenAI>::new().api_key("k");
        builder.base_url = Some(given.to_string());
        let openai = builder.build().unwrap();
        assert_eq!(openai.base_url(), held);
        // Reading it again changes nothing.
        let mut builder = EmbeddingBuilder::<OpenAI>::new();
        builder.api_key = Some("k".into());
        builder.base_url = Some(held.to_string());
        assert_eq!(builder.build().unwrap().base_url(), held);
    }
    assert_eq!(hold_address("given".into(), Ok("read".into())), "read");
    assert_eq!(hold_address("given".into(), Err("why".into())), "given");
}

#[test]
fn new_keeps_every_setting() {
    let extra = serde_json::from_str(r#"{"seed": 7, "user": "u"}"#).unwrap();
    let p = OpenAI::new(
        "k",
        Some("https://example.com/api/".into()),
        Some("m".into()),
        Some(10),
        Some(F32Bits(0.5f32.to_bits())),
        Some(30),
        Some(F32Bits(0.25f32.to_bits())),
        Some(3),
        Some("base64".into()),
        Some(256),
        Some(ToolChoice::Any),
        Some(false),
        Some("high".into()),
        Some("alloy".into()),
        Some(extra),
        Some(true),
        Some("large".into()),
        Some("exact".into()),
        Some("FR".into()),
        Some("Paris".into()),
        Some("IDF".into()),
    )
    .unwrap();
    assert_eq!(p.base_url(), "https://example.com/api/");
    assert_eq!(p.model(), "m");
    assert_eq!(p.provider.max_tokens, Some(10));
    assert_eq!(p.provider.temperature, Some(F32Bits(0x3f00_0000)));
    assert_eq!(p.timeout_seconds(), Some(30));
    assert_eq!(p.provider.top_p, Some(F32Bits(0x3e80_0000)));
    assert_eq!(p.provider.top_k, Some(3));
    assert_eq!(p.provider.embedding_encoding_format.as_deref(), Some("base64"));
    assert_eq!(p.provider.embedding_dimensions, Some(256));
    assert!(matches!(p.provider.tool_choice, Some(ToolChoice::Any)));
    assert_eq!(p.provider.normalize_response, Some(false));
    assert_eq!(p.provider.reasoning_effort.as_deref(), Some("high"));
    assert_eq!(p.provider.voice.as_deref(), Some("alloy"));
    assert_eq!(p.provider.extra_body.len(), 2);
    assert_eq!(p.provider.extra_body["seed"].as_u64(), Some(7));
    assert_eq!(p.provider.extra_body["user"].as_str(), Some("u"));
    assert!(p.enable_web_search);
    assert_eq!(p.web_search_context_size.as_deref(), Some("large"));
    assert_eq!(p.web_search_user_location_type.as_deref(), Some("exact"));
    assert_eq!(p.web_search_user_location_approximate_country.as_deref(), Some("FR"));
    assert_eq!(p.web_search_user_location_approximate_city.as_deref(), Some("Paris"));
    assert_eq!(p.web_search_user_location_approximate_region.as_deref(), Some("IDF"));
}

#[test]
fn an_extra_body_that_is_no_object_adds_nothing() {
    let mut builder = LLMBuilder::<OpenAI>::new().api_key("k");
    builder.extra_body = Some(serde_json::from_str("[1, 2]").unwrap());
    assert!(builder.build().unwrap().provider.extra_body.is_empty());
}

#[test]
fn completion_is_not_offered() {
    let answer = make_provider("m").complete().unwrap();
    assert_eq!(answer.text, "OpenAI completion not implemented.");
}

// -- chaining --

#[test]
fn test_previous_response_id_field_on_openai() {
    let mut p = make_provider("codex-mini");
    assert!(p.previous_response_id.is_none());
    p.previous_response_id = Some("resp_abc".into());
    assert_eq!(p.previous_response_id, Some("resp_abc".into()));
}

#[test]
fn chaining_sets_and_clears_the_id() {
    let mut p = make_provider("codex-mini");
    p.set_previous_response_id(Some("resp_1".into()));
    assert_eq!(p.previous_response_id.as_deref(), Some("resp_1"));
    p.set_previous_response_id(None);
    assert!(p.previous_response_id.is_none());

    let answer = OpenAIResponsesResponse {
        id: "resp_2".into(),
        status: "completed".into(),
        output: Vec::new(),
        usage: None,
        model: None,
    };
    p.chain_response(&answer);
    assert_eq!(p.previous_response_id.as_deref(), Some("resp_2"));
    let body = p.responses_request(&[], None, None, false);
    assert_eq!(body.previous_response_id.as_deref(), Some("resp_2"));
    let body = p.web_search_request("news".to_string());
    assert_eq!(body.previous_response_id.as_deref(), Some("resp_2"));
    let body: OpenAIAPIChatRequest<String, String> =
        p.hosted_tools_request("look".to_string(), Vec::new());
    assert_eq!(body.previous_response_id.as_deref(), Some("resp_2"));
    let body: OpenAIAPIChatRequest<String, String> = p.hosted_web_search_request("look".into());
    assert_eq!(body.previous_response_id.as_deref(), Some("resp_2"));
    // The Chat Completions API keeps no answers.
    let body = p.chat_request(vec!["hi"], None, None::<&str>);
    assert!(body.previous_response_id.is_none());
    let body = p.chat_stream_request(vec!["hi"], None, None::<&str>);
    assert!(body.previous_response_id.is_none());

    // An answer without an id ends the chain.
    let answer = OpenAIWebSearchChatResponse { output: Vec::new(), usage: None };
    assert!(answer.response_id().is_none());
    p.chain_response(&answer);
    assert!(p.previous_response_id.is_none());
}

// -- builders --

#[test]
fn test_openai_builder_requires_api_key() {
    let result = LLMBuilder::<OpenAI>::new().build();
    assert!(result.is_err());
    if let Err(err) = result {
        assert!(err.message().contains("No API key provided"));
    }
}

#[test]
fn test_builder_use_responses_api() {
    let builder = LLMBuilder::<OpenAI>::new()
        .api_key("test-key")
        .model("gpt-4.1")
        .use_responses_api(true);
    let openai = builder.build().unwrap();
    assert!(openai.should_use_responses_api());
}

#[test]
fn test_builder_default_auto_detect() {
    let openai = LLMBuilder::<OpenAI>::new()
        .api_key("test-key")
        .model("codex-mini")
        .build()
        .unwrap();
    assert!(openai.should_use_responses_api());

    let openai = LLMBuilder::<OpenAI>::new()
        .api_key("test-key")
        .model("gpt-4.1")
        .build()
        .unwrap();
    assert!(!openai.should_use_responses_api());
}

#[test]
fn builder_passes_its_settings_on() {
    let openai = LLMBuilder::<OpenAI>::new()
        .api_key("test-key")
        .model("m")
        .max_tokens(256)
        .voice("alloy")
        .use_responses_api(false)
        .build()
        .unwrap();
    assert_eq!(openai.api_key(), "test-key");
    assert_eq!(openai.model(), "m");
    assert_eq!(openai.provider.max_tokens, Some(256));
    assert_eq!(openai.provider.voice.as_deref(), Some("alloy"));
    assert_eq!(openai.use_responses_api, Some(false));
    assert!(openai.web_search_user_location_type.is_none());
}

#[test]
fn builder_tells_no_key_from_an_empty_key() {
    let missing = LLMBuilder::<OpenAI>::new().build().unwrap_err();
    assert!(matches!(missing, LLMError::InvalidRequest(_)));
    assert_eq!(missing.message(), "No API key provided for OpenAI");
    let empty = LLMBuilder::<OpenAI>::new().api_key("").build().unwrap_err();
    assert!(matches!(empty, LLMError::AuthError(_)));
}

#[test]
fn embedding_builder_has_a_model_of_its_own() {
    let mut builder = EmbeddingBuilder::<OpenAI>::new();
    builder.api_key = Some("k".into());
    builder.embedding_dimensions = Some(64);
    builder.timeout_seconds = Some(5);
    let openai = builder.build().unwrap();
    assert_eq!(openai.model(), "text-embedding-3-small");
    assert_eq!(openai.base_url(), "https://api.openai.com/v1/");
    assert_eq!(openai.timeout_seconds(), Some(5));
    assert_eq!(openai.provider.embedding_dimensions, Some(64));

    let mut builder = EmbeddingBuilder::<OpenAI>::new();
    builder.api_key = Some("k".into());
    builder.model = Some("text-embedding-3-large".into());
    assert_eq!(builder.build().unwrap().model(), "text-embedding-3-large");

    let missing = EmbeddingBuilder::<OpenAI>::new().build().unwrap_err();
    assert!(matches!(missing, LLMError::InvalidRequest(_)));
    let mut builder = EmbeddingBuilder::<OpenAI>::new();
    builder.api_key = Some(String::new());
    assert!(matches!(builder.build(), Err(LLMError::AuthError(_))));
}
