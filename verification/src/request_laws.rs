//! What the builders of requests promise, over what they are given and what they
//! return.
use vstd::prelude::*;

use crate::base64_text;
use crate::chat::{
    ChatMessage, ChatRole, ImageMime, MessageType, StructuredOutputFormat, Tool, ToolCall,
    ToolChoice,
};
use crate::error::LLMError;
use crate::json;
use crate::openai::OpenAI;
use crate::request::{
    ContentPart, ContentPartView, ImageSource, InputItem, InputItemView, MessageContent,
    MessageContentView, OpenAIAPIChatRequest, OpenAIEmbeddingRequest, OpenAIResponsesRequest,
    OpenAITool, OpenAIToolView, ResponsesInput, ResponsesTextFormat, ResponsesTextFormatType,
    TextFormatView,
};

verus! {

/// The body of a request to the Responses API carries the settings of the client,
/// each under its own name.
pub proof fn law_responses_request_carries_the_settings(
    client: OpenAI,
    messages: &[ChatMessage],
    tools: Option<&[Tool]>,
    json_schema: Option<StructuredOutputFormat>,
    stream: bool,
    body: OpenAIResponsesRequest,
)
    requires
        call_ensures(
            OpenAI::responses_request,
            (&client, messages, tools, json_schema, stream),
            body,
        ),
    ensures
        body.model@ == client.provider.model@,
        body.temperature == client.provider.temperature,
        body.top_p == client.provider.top_p,
        body.max_output_tokens == client.provider.max_tokens,
        body.previous_response_id.deep_view() == client.previous_response_id.deep_view(),
        body.reasoning is Some <==> client.provider.reasoning_effort is Some,
        body.reasoning matches Some(reasoning) ==> {
            &&& reasoning.effort matches Some(effort)
            &&& effort@ == client.provider.reasoning_effort->0@
            &&& reasoning.summary matches Some(summary)
            &&& summary@ == "auto"@
        },
        body.stream == stream,
        body.extra_body == client.provider.extra_body,
{
}

/// The body of a request to the Responses API carries the conversation, the tools
/// and the structure that is asked for, in the form of that API, and a choice of a
/// tool exactly where there are tools.
pub proof fn law_responses_request_carries_the_conversation(
    client: OpenAI,
    messages: &[ChatMessage],
    tools: Option<&[Tool]>,
    json_schema: Option<StructuredOutputFormat>,
    stream: bool,
    body: OpenAIResponsesRequest,
    prepared: (Option<String>, Vec<InputItem>),
    offered: Option<Vec<OpenAITool>>,
    format: ResponsesTextFormat,
)
    requires
        call_ensures(
            OpenAI::responses_request,
            (&client, messages, tools, json_schema, stream),
            body,
        ),
        call_ensures(OpenAI::prepare_responses_input, (&client, messages), prepared),
        call_ensures(OpenAI::build_responses_function_tools, (&client, tools), offered),
        json_schema is Some ==> call_ensures(
            ResponsesTextFormat::from,
            (json_schema->0,),
            format,
        ),
    ensures
        body.instructions.deep_view() == prepared.0.deep_view(),
        body.input matches ResponsesInput::Items(items) && items.deep_view()
            == prepared.1.deep_view(),
        body.tools.deep_view() == offered.deep_view(),
        body.tools is Some ==> body.tool_choice == client.provider.tool_choice,
        body.tools is None ==> body.tool_choice is None,
        json_schema is None ==> body.text is None,
        json_schema is Some ==> (body.text matches Some(text) && text.deep_view()
            == format.deep_view()),
{
}

/// A conversation can be sent exactly where its images and its structure can, and
/// the checked body is then the body.
pub proof fn law_checked_request_is_the_request(
    client: OpenAI,
    messages: &[ChatMessage],
    tools: Option<&[Tool]>,
    json_schema: Option<StructuredOutputFormat>,
    stream: bool,
    checked: Option<OpenAIResponsesRequest>,
    sendable: bool,
    images: bool,
    schema: bool,
    body: OpenAIResponsesRequest,
)
    requires
        call_ensures(
            OpenAI::checked_responses_request,
            (&client, messages, tools, json_schema, stream),
            checked,
        ),
        call_ensures(
            OpenAI::can_send_responses_request,
            (messages, &json_schema),
            sendable,
        ),
        call_ensures(OpenAI::can_send_images, (messages,), images),
        json_schema is Some ==> call_ensures(
            ResponsesTextFormat::accepts,
            (&json_schema->0,),
            schema,
        ),
        json_schema is None ==> schema,
        images && schema ==> call_ensures(
            OpenAI::responses_request,
            (&client, messages, tools, json_schema, stream),
            body,
        ),
    ensures
        sendable == (images && schema),
        checked is Some == sendable,
        checked matches Some(checked_body) ==> checked_body.deep_view() == body.deep_view(),
{
}

/// A request to look something up on the web sends the text as one message of the
/// user, offers the web search tool alone, leaves its choice to the model, and
/// carries the settings of the client.
pub proof fn law_web_search_request(
    client: OpenAI,
    text: String,
    body: OpenAIResponsesRequest,
    tool: OpenAITool,
)
    requires
        call_ensures(OpenAI::web_search_request, (&client, text), body),
        call_ensures(OpenAI::build_web_search_tool, (&client,), tool),
    ensures
        body.input matches ResponsesInput::Items(items) && items.deep_view() == seq![
            InputItemView::Message { role: "user"@, content: MessageContentView::Text(text@) },
        ],
        body.instructions is None,
        body.tools matches Some(tools) && tools.deep_view() == seq![tool.deep_view()],
        body.tool_choice is None,
        body.text is None,
        !body.stream,
        body.model@ == client.provider.model@,
        body.temperature == client.provider.temperature,
        body.top_p == client.provider.top_p,
        body.max_output_tokens == client.provider.max_tokens,
        body.previous_response_id.deep_view() == client.previous_response_id.deep_view(),
        body.reasoning is Some <==> client.provider.reasoning_effort is Some,
        body.reasoning matches Some(reasoning) ==> {
            &&& reasoning.effort matches Some(effort)
            &&& effort@ == client.provider.reasoning_effort->0@
            &&& reasoning.summary matches Some(summary)
            &&& summary@ == "auto"@
        },
        body.extra_body == client.provider.extra_body,
{
}

/// The body of a request to the Chat Completions API carries the messages, the
/// tools, the format and the settings of the client, each under its own name, and
/// a choice of a tool exactly where there are tools.
pub proof fn law_chat_request<Message, Format>(
    client: OpenAI,
    messages: Vec<Message>,
    tools: Option<&[Tool]>,
    response_format: Option<Format>,
    body: OpenAIAPIChatRequest<Message, Format>,
    offered: Option<Vec<OpenAITool>>,
)
    requires
        call_ensures(
            OpenAI::chat_request::<Message, Format>,
            (&client, messages, tools, response_format),
            body,
        ),
        call_ensures(OpenAI::build_function_tools, (&client, tools), offered),
    ensures
        body.model@ == client.provider.model@,
        body.messages@ == messages@,
        body.input is None,
        body.max_completion_tokens == client.provider.max_tokens,
        body.max_output_tokens is None,
        body.temperature == client.provider.temperature,
        !body.stream,
        body.top_p == client.provider.top_p,
        body.top_k == client.provider.top_k,
        body.tools.deep_view() == offered.deep_view(),
        body.tools is Some ==> body.tool_choice == client.provider.tool_choice,
        body.tools is None ==> body.tool_choice is None,
        body.reasoning_effort.deep_view() == client.provider.reasoning_effort.deep_view(),
        body.response_format == response_format,
        body.stream_options is None,
        body.previous_response_id is None,
        body.extra_body == client.provider.extra_body,
{
}

/// The body of a streamed request to the Chat Completions API is that of the plain
/// one but for three things: it asks for a stream, for the usage at its end, and
/// for the choice of a tool whether or not there are tools.
pub proof fn law_chat_stream_request<Message, Format>(
    client: OpenAI,
    messages: Vec<Message>,
    tools: Option<&[Tool]>,
    response_format: Option<Format>,
    body: OpenAIAPIChatRequest<Message, Format>,
    plain: OpenAIAPIChatRequest<Message, Format>,
)
    requires
        call_ensures(
            OpenAI::chat_stream_request::<Message, Format>,
            (&client, messages, tools, response_format),
            body,
        ),
        call_ensures(
            OpenAI::chat_request::<Message, Format>,
            (&client, messages, tools, response_format),
            plain,
        ),
    ensures
        body.stream,
        body.stream_options matches Some(options) && options.include_usage,
        body.tool_choice == client.provider.tool_choice,
        body.messages@ == messages@,
        body.response_format == response_format,
        body.model@ == client.provider.model@,
        body.temperature == client.provider.temperature,
        body.top_p == client.provider.top_p,
        body.top_k == client.provider.top_k,
        body.max_completion_tokens == client.provider.max_tokens,
        body.extra_body == client.provider.extra_body,
        body.model@ == plain.model@,
        body.messages@ == plain.messages@,
        body.input.deep_view() == plain.input.deep_view(),
        body.max_completion_tokens == plain.max_completion_tokens,
        body.max_output_tokens == plain.max_output_tokens,
        body.temperature == plain.temperature,
        body.top_p == plain.top_p,
        body.top_k == plain.top_k,
        body.tools.deep_view() == plain.tools.deep_view(),
        body.reasoning_effort.deep_view() == plain.reasoning_effort.deep_view(),
        body.response_format == plain.response_format,
        body.previous_response_id.deep_view() == plain.previous_response_id.deep_view(),
        body.extra_body == plain.extra_body,
{
}

/// The body of a request that has hosted tools work on a text carries the text, the
/// tools and the settings of the client, each under its own name; it holds no
/// messages, and continues the answer that the client was chained to.
pub proof fn law_hosted_tools_request<Message, Format>(
    client: OpenAI,
    text: String,
    hosted_tools: Vec<OpenAITool>,
    body: OpenAIAPIChatRequest<Message, Format>,
)
    requires
        call_ensures(
            OpenAI::hosted_tools_request::<Message, Format>,
            (&client, text, hosted_tools),
            body,
        ),
    ensures
        body.model@ == client.provider.model@,
        body.messages@.len() == 0,
        body.input matches Some(input) && input@ == text@,
        body.max_completion_tokens is None,
        body.max_output_tokens == client.provider.max_tokens,
        body.temperature == client.provider.temperature,
        !body.stream,
        body.top_p == client.provider.top_p,
        body.top_k == client.provider.top_k,
        body.tools matches Some(tools) && tools.deep_view() == hosted_tools.deep_view(),
        body.tool_choice == client.provider.tool_choice,
        body.reasoning_effort.deep_view() == client.provider.reasoning_effort.deep_view(),
        body.response_format is None,
        body.stream_options is None,
        body.previous_response_id.deep_view() == client.previous_response_id.deep_view(),
        body.extra_body == client.provider.extra_body,
{
}

/// A web search by hosted tools is a request for hosted tools with the web search
/// tool alone.
pub proof fn law_hosted_web_search_request<Message, Format>(
    client: OpenAI,
    text: String,
    tool: OpenAITool,
    hosted_tools: Vec<OpenAITool>,
    body: OpenAIAPIChatRequest<Message, Format>,
    hosted: OpenAIAPIChatRequest<Message, Format>,
)
    requires
        call_ensures(
            OpenAI::hosted_web_search_request::<Message, Format>,
            (&client, text),
            body,
        ),
        call_ensures(OpenAI::build_web_search_tool, (&client,), tool),
        hosted_tools@ == seq![tool],
        call_ensures(
            OpenAI::hosted_tools_request::<Message, Format>,
            (&client, text, hosted_tools),
            hosted,
        ),
    ensures
        body@ == hosted@,
        body.input matches Some(input) && input@ == text@,
        body.tools matches Some(tools) && tools.deep_view() == seq![tool.deep_view()],
{
    assert(hosted_tools.deep_view() =~= seq![tool.deep_view()]);
}

/// A request for embeddings sends the texts, with the model and the settings for
/// embeddings of the client, in floats unless it is set otherwise. Without a key it
/// is an error.
pub proof fn law_embedding_request(
    client: OpenAI,
    texts: Vec<String>,
    r: Result<OpenAIEmbeddingRequest, LLMError>,
)
    requires
        call_ensures(OpenAI::embedding_request, (&client, texts), r),
    ensures
        r is Ok <==> client.provider.api_key@.len() > 0,
        r matches Ok(body) ==> {
            &&& body.model@ == client.provider.model@
            &&& body.input == texts
            &&& body.dimensions == client.provider.embedding_dimensions
            &&& body.encoding_format matches Some(format)
            &&& match client.provider.embedding_encoding_format {
                Some(set) => format@ == set@,
                None => format@ == "float"@,
            }
        },
        r matches Err(error) ==> {
            &&& error matches LLMError::AuthError(message)
            &&& message@ == "Missing OpenAI API key"@
        },
{
}

/// Each given tool is offered in the nested form, in order, and nothing else is.
pub proof fn law_function_tools_are_the_given_tools(
    client: OpenAI,
    tools: Option<&[Tool]>,
    offered: Option<Vec<OpenAITool>>,
    i: int,
)
    requires
        call_ensures(OpenAI::build_function_tools, (&client, tools), offered),
    ensures
        offered is None <==> tools is None || tools->0@.len() == 0,
        offered matches Some(built) ==> built@.len() == tools->0@.len(),
        offered is Some && 0 <= i < offered->0@.len() ==> {
            let tool = tools->0@[i];
            &&& offered->0@[i] matches OpenAITool::Function { tool_type, function }
            &&& tool_type@ == tool.tool_type@
            &&& function.name@ == tool.function.name@
            &&& function.description@ == tool.function.description@
            &&& function.parameters == tool.function.parameters
        },
{
    if let Some(built) = offered {
        if 0 <= i < built@.len() {
            assert(built.deep_view()[i] == built@[i].deep_view());
        }
    }
}

/// Each given tool is offered in the flat form, in order, and nothing else is.
pub proof fn law_responses_function_tools_are_the_given_tools(
    client: OpenAI,
    tools: Option<&[Tool]>,
    offered: Option<Vec<OpenAITool>>,
    i: int,
)
    requires
        call_ensures(OpenAI::build_responses_function_tools, (&client, tools), offered),
    ensures
        offered is None <==> tools is None || tools->0@.len() == 0,
        offered matches Some(built) ==> built@.len() == tools->0@.len(),
        offered is Some && 0 <= i < offered->0@.len() ==> {
            let tool = tools->0@[i];
            &&& offered->0@[i] matches OpenAITool::ResponsesFunction {
                tool_type,
                name,
                description,
                parameters,
            }
            &&& tool_type@ == "function"@
            &&& name@ == tool.function.name@
            &&& description@ == tool.function.description@
            &&& parameters == tool.function.parameters
        },
{
    if let Some(built) = offered {
        if 0 <= i < built@.len() {
            assert(built.deep_view()[i] == built@[i].deep_view());
        }
    }
}

/// A choice of a tool goes with tools, and is the one that the client is set to.
pub proof fn law_tool_choice_goes_with_tools(
    client: OpenAI,
    tools: Option<Vec<OpenAITool>>,
    choice: Option<ToolChoice>,
)
    requires
        call_ensures(OpenAI::resolve_tool_choice_for_request, (&client, &tools), choice),
    ensures
        tools is Some ==> choice == client.provider.tool_choice,
        tools is None ==> choice is None,
{
}

/// The web search tool says where the user is exactly where the type of the location
/// is one of two, and then as far as the client knows, each part under its own name.
pub proof fn law_web_search_tool_tells_the_location(client: OpenAI, tool: OpenAITool)
    requires
        call_ensures(OpenAI::build_web_search_tool, (&client,), tool),
    ensures
        tool matches OpenAITool::WebSearch { tool_type, user_location } && {
            let kind = client.web_search_user_location_type;
            let country = client.web_search_user_location_approximate_country;
            let city = client.web_search_user_location_approximate_city;
            let region = client.web_search_user_location_approximate_region;
            &&& tool_type@ == "web_search_preview"@
            &&& user_location is Some <==> kind is Some && (kind->0@ == "exact"@ || kind->0@
                == "approximate"@)
            &&& user_location matches Some(location) ==> {
                &&& location.location_type@ == kind->0@
                &&& location.approximate is None <==> country is None && city is None
                    && region is None
                &&& location.approximate matches Some(place) ==> {
                    &&& country matches Some(known) ==> place.country@ == known@
                    &&& country is None ==> place.country@.len() == 0
                    &&& city matches Some(known) ==> place.city@ == known@
                    &&& city is None ==> place.city@.len() == 0
                    &&& region matches Some(known) ==> place.region@ == known@
                    &&& region is None ==> place.region@.len() == 0
                }
            }
        },
{
}

/// A structure is asked for under its name and as strictly as it says. Its schema
/// forbids further members unless it says otherwise, and is kept as it is but for
/// that; without one it is the empty object.
pub proof fn law_text_format_asks_for_the_structure(
    format: StructuredOutputFormat,
    asked: ResponsesTextFormat,
)
    requires
        call_ensures(ResponsesTextFormat::from, (format,), asked),
    ensures
        asked.format matches ResponsesTextFormatType::JsonSchema { name, schema, strict } && {
            &&& name@ == format.name@
            &&& strict == format.strict
            &&& json::object_members(schema) matches Some(members)
            &&& match format.schema {
                None => members == Map::<Seq<char>, serde_json::Value>::empty(),
                Some(given) => {
                    let known = match json::object_members(given) {
                        Some(known) => known,
                        None => Map::<Seq<char>, serde_json::Value>::empty(),
                    };
                    &&& members.dom() == known.dom().insert("additionalProperties"@)
                    &&& forall|key: Seq<char>| #[trigger]
                        known.contains_key(key) ==> members[key] == known[key]
                    &&& !known.contains_key("additionalProperties"@) ==> members[
                        "additionalProperties"@] == json::bool_value(false)
                },
            }
        },
{
    if let Some(given) = format.schema {
        let known = match json::object_members(given) {
            Some(known) => known,
            None => Map::<Seq<char>, serde_json::Value>::empty(),
        };
        if known.contains_key("additionalProperties"@) {
            assert(known.dom().insert("additionalProperties"@) =~= known.dom());
        } else {
            assert(known.insert("additionalProperties"@, json::bool_value(false)).dom()
                =~= known.dom().insert("additionalProperties"@));
        }
    }
}

/// A structure can be asked for exactly where it has no schema, an object or `null`
/// as its schema, and it is then asked for as ever.
pub proof fn law_usable_structures(
    format: StructuredOutputFormat,
    accepted: bool,
    checked: Option<ResponsesTextFormat>,
    asked: ResponsesTextFormat,
)
    requires
        call_ensures(ResponsesTextFormat::accepts, (&format,), accepted),
        call_ensures(ResponsesTextFormat::checked_from, (format,), checked),
        accepted ==> call_ensures(ResponsesTextFormat::from, (format,), asked),
    ensures
        accepted <==> format.schema is None || json::object_members(format.schema->0) is Some
            || json::is_null(format.schema->0),
        checked is Some == accepted,
        checked matches Some(checked_format) ==> checked_format.deep_view() == asked.deep_view(),
{
}

/// The text by which a format of images is known.
pub proof fn law_media_types(mime: ImageMime, r: &'static str)
    requires
        call_ensures(ImageMime::mime_type, (&mime,), r),
    ensures
        mime is JPEG ==> r@ == "image/jpeg"@,
        mime is PNG ==> r@ == "image/png"@,
        mime is GIF ==> r@ == "image/gif"@,
        mime is WEBP ==> r@ == "image/webp"@,
{
}

/// An empty conversation has no input.
pub proof fn law_empty_conversation_has_no_input(
    client: OpenAI,
    messages: &[ChatMessage],
    prepared: (Option<String>, Vec<InputItem>),
)
    requires
        call_ensures(OpenAI::prepare_responses_input, (&client, messages), prepared),
        messages@.len() == 0,
    ensures
        prepared.0 is None,
        prepared.1@.len() == 0,
{
    assert(prepared.1.deep_view().len() == prepared.1@.len());
}

/// The parts in which a message of the user shows an image: its text, unless there is
/// none, and then the image.
pub open spec fn text_and_image(text: Seq<char>, image: ContentPartView) -> Seq<ContentPartView> {
    if text.len() == 0 {
        seq![image]
    } else {
        seq![ContentPartView::InputText { text }, image]
    }
}

/// One more message leaves the items of the messages before it as they are. From the
/// system it sets the instructions and adds no item.
pub proof fn law_system_message_sets_the_instructions(
    client: OpenAI,
    before: &[ChatMessage],
    after: &[ChatMessage],
    message: ChatMessage,
    first: (Option<String>, Vec<InputItem>),
    second: (Option<String>, Vec<InputItem>),
)
    requires
        call_ensures(OpenAI::prepare_responses_input, (&client, before), first),
        call_ensures(OpenAI::prepare_responses_input, (&client, after), second),
        after@ == before@.push(message),
    ensures
        message.role is System ==> {
            &&& second.0 matches Some(text)
            &&& text@ == message.content@
            &&& second.1.deep_view() == first.1.deep_view()
        },
        message.role !is System ==> second.0.deep_view() == first.0.deep_view(),
{
    assert(after@.drop_last() =~= before@);
}

/// One more message of the user adds one item: its text, or its parts where it shows
/// an image.
pub proof fn law_user_message_adds_an_item(
    client: OpenAI,
    before: &[ChatMessage],
    after: &[ChatMessage],
    message: ChatMessage,
    first: (Option<String>, Vec<InputItem>),
    second: (Option<String>, Vec<InputItem>),
    mime_text: &'static str,
)
    requires
        call_ensures(OpenAI::prepare_responses_input, (&client, before), first),
        call_ensures(OpenAI::prepare_responses_input, (&client, after), second),
        after@ == before@.push(message),
        message.role is User,
        message.message_type matches MessageType::Image((mime, _)) ==> call_ensures(
            ImageMime::mime_type,
            (&mime,),
            mime_text,
        ),
    ensures
        second.1.deep_view() == first.1.deep_view().push(
            InputItemView::Message {
                role: "user"@,
                content: match message.message_type {
                    MessageType::Image((_, data)) => MessageContentView::Parts(
                        text_and_image(
                            message.content@,
                            ContentPartView::ImageBase64 {
                                data: base64_text::encoded(data@),
                                media_type: mime_text@,
                            },
                        ),
                    ),
                    MessageType::ImageURL(url) => MessageContentView::Parts(
                        text_and_image(message.content@, ContentPartView::ImageUrl { url: url@ }),
                    ),
                    _ => MessageContentView::Text(message.content@),
                },
            },
        ),
{
    assert(after@.drop_last() =~= before@);
}

/// One more message of the assistant adds one item for each call of a tool that it
/// holds, in order, and one item with its text where it holds none.
pub proof fn law_assistant_message_adds_items(
    client: OpenAI,
    before: &[ChatMessage],
    after: &[ChatMessage],
    message: ChatMessage,
    first: (Option<String>, Vec<InputItem>),
    second: (Option<String>, Vec<InputItem>),
    i: int,
)
    requires
        call_ensures(OpenAI::prepare_responses_input, (&client, before), first),
        call_ensures(OpenAI::prepare_responses_input, (&client, after), second),
        after@ == before@.push(message),
        message.role is Assistant,
    ensures
        second.1@.len() >= first.1@.len(),
        second.1.deep_view().take(first.1@.len() as int) == first.1.deep_view(),
        match message.message_type {
            MessageType::ToolUse(calls) => {
                &&& second.1@.len() == first.1@.len() + calls@.len()
                &&& 0 <= i < calls@.len() ==> second.1.deep_view()[first.1@.len() + i] == (
                InputItemView::FunctionCall {
                    call_id: calls@[i].id@,
                    name: calls@[i].function.name@,
                    arguments: calls@[i].function.arguments@,
                })
            },
            _ => {
                &&& second.1@.len() == first.1@.len() + 1
                &&& second.1.deep_view().last() == (InputItemView::Message {
                    role: "assistant"@,
                    content: MessageContentView::Text(message.content@),
                })
            },
        },
{
    assert(after@.drop_last() =~= before@);
    assert(first.1.deep_view().len() == first.1@.len());
    assert(second.1.deep_view().len() == second.1@.len());
    assert(second.1.deep_view().take(first.1@.len() as int) =~= first.1.deep_view());
}

/// One more message of a tool adds one item for each result that it holds, in order:
/// the text of the message under the id of the call, or the arguments of the call
/// where there is no text. It adds none where it holds no result.
pub proof fn law_tool_message_adds_items(
    client: OpenAI,
    before: &[ChatMessage],
    after: &[ChatMessage],
    message: ChatMessage,
    first: (Option<String>, Vec<InputItem>),
    second: (Option<String>, Vec<InputItem>),
    i: int,
)
    requires
        call_ensures(OpenAI::prepare_responses_input, (&client, before), first),
        call_ensures(OpenAI::prepare_responses_input, (&client, after), second),
        after@ == before@.push(message),
        message.role is Tool,
    ensures
        second.1@.len() >= first.1@.len(),
        second.1.deep_view().take(first.1@.len() as int) == first.1.deep_view(),
        match message.message_type {
            MessageType::ToolResult(calls) => {
                &&& second.1@.len() == first.1@.len() + calls@.len()
                &&& 0 <= i < calls@.len() ==> second.1.deep_view()[first.1@.len() + i] == (
                InputItemView::FunctionCallOutput {
                    call_id: calls@[i].id@,
                    output: if message.content@.len() > 0 {
                        message.content@
                    } else {
                        calls@[i].function.arguments@
                    },
                })
            },
            _ => second.1@.len() == first.1@.len(),
        },
{
    assert(after@.drop_last() =~= before@);
    assert(first.1.deep_view().len() == first.1@.len());
    assert(second.1.deep_view().len() == second.1@.len());
    assert(second.1.deep_view().take(first.1@.len() as int) =~= first.1.deep_view());
}

/// An item is seen by what it holds, each part under its own name.
pub proof fn law_items_show_what_they_hold(item: InputItem)
    ensures
        match item {
            InputItem::Message { role, content } => item.deep_view() == (InputItemView::Message {
                role: role@,
                content: content.deep_view(),
            }),
            InputItem::FunctionCall { call_id, name, arguments } => item.deep_view() == (
            InputItemView::FunctionCall {
                call_id: call_id@,
                name: name@,
                arguments: arguments@,
            }),
            InputItem::FunctionCallOutput { call_id, output } => item.deep_view() == (
            InputItemView::FunctionCallOutput { call_id: call_id@, output: output@ }),
        },
{
}

/// The content of a message is seen by what it holds.
pub proof fn law_contents_show_what_they_hold(content: MessageContent, part: ContentPart, i: int)
    ensures
        content matches MessageContent::Text(text) ==> content.deep_view()
            == MessageContentView::Text(text@),
        content matches MessageContent::Parts(parts) ==> {
            &&& content.deep_view() matches MessageContentView::Parts(seen)
            &&& seen.len() == parts@.len()
            &&& 0 <= i < parts@.len() ==> seen[i] == parts@[i].deep_view()
        },
        match part {
            ContentPart::InputText { text } => part.deep_view() == (ContentPartView::InputText {
                text: text@,
            }),
            ContentPart::InputImage { source: ImageSource::Url { url } } => part.deep_view() == (
            ContentPartView::ImageUrl { url: url@ }),
            ContentPart::InputImage { source: ImageSource::Base64 { data, media_type } } =>
                part.deep_view() == (ContentPartView::ImageBase64 {
                data: data@,
                media_type: media_type@,
            }),
        },
{
}

/// A message that shows an image whose bytes are given in Base64 holds its text,
/// unless there is none, and then the image.
pub proof fn law_base64_image_content(
    text: String,
    mime: ImageMime,
    data: String,
    content: MessageContent,
    mime_text: &'static str,
)
    requires
        call_ensures(OpenAI::base64_image_content, (&text, mime, data), content),
        call_ensures(ImageMime::mime_type, (&mime,), mime_text),
    ensures
        content.deep_view() == MessageContentView::Parts(
            text_and_image(
                text@,
                ContentPartView::ImageBase64 { data: data@, media_type: mime_text@ },
            ),
        ),
{
}

/// The images of a conversation can be sent exactly where none that the user sends
/// takes more than three quarters of the longest text.
pub proof fn law_images_that_can_be_sent(messages: &[ChatMessage], r: bool)
    requires
        call_ensures(OpenAI::can_send_images, (messages,), r),
    ensures
        r <==> forall|i: int| #![trigger messages@[i]]
            0 <= i < messages@.len() && messages@[i].role is User ==> (
            messages@[i].message_type matches MessageType::Image((_, data)) ==> data@.len()
                <= isize::MAX / 4 * 3),
{
    assert(forall|n: nat| #![auto]
        base64_text::encoded_len(n) <= isize::MAX <==> n <= isize::MAX / 4 * 3);
    if r {
    } else {
        let i = choose|i: int|
            0 <= i < messages@.len() && !crate::input::image_fits(#[trigger] messages@[i]);
        assert(messages@[i].role is User);
    }
}

/// A tool is seen by what it holds, each part under its own name.
pub proof fn law_tools_show_what_they_hold(tool: OpenAITool)
    ensures
        match tool {
            OpenAITool::Function { tool_type, function } => {
                &&& tool.deep_view() matches OpenAIToolView::Function {
                    tool_type: kind,
                    function: seen,
                }
                &&& kind == tool_type@
                &&& seen.name == function.name@
                &&& seen.description == function.description@
                &&& seen.parameters == function.parameters
            },
            OpenAITool::ResponsesFunction { tool_type, name, description, parameters } =>
                tool.deep_view() == (OpenAIToolView::ResponsesFunction {
                tool_type: tool_type@,
                name: name@,
                description: description@,
                parameters,
            }),
            OpenAITool::WebSearch { tool_type, user_location } => {
                &&& tool.deep_view() matches OpenAIToolView::WebSearch {
                    tool_type: kind,
                    user_location: seen,
                }
                &&& kind == tool_type@
                &&& seen is Some <==> user_location is Some
                &&& user_location matches Some(location) ==> {
                    &&& seen->0.location_type == location.location_type@
                    &&& seen->0.approximate is Some <==> location.approximate is Some
                    &&& location.approximate matches Some(place) ==> {
                        &&& seen->0.approximate->0.country == place.country@
                        &&& seen->0.approximate->0.city == place.city@
                        &&& seen->0.approximate->0.region == place.region@
                    }
                }
            },
            OpenAITool::FileSearch { tool_type, vector_store_ids, max_num_results } => {
                &&& tool.deep_view() matches OpenAIToolView::FileSearch {
                    tool_type: kind,
                    vector_store_ids: ids,
                    max_num_results: most,
                }
                &&& kind == tool_type@
                &&& ids == vector_store_ids.deep_view()
                &&& most == max_num_results
            },
            OpenAITool::CodeInterpreter { tool_type } => tool.deep_view() == (
            OpenAIToolView::CodeInterpreter { tool_type: tool_type@ }),
        },
{
}

/// A text format is seen by what it holds; a schema by its members.
pub proof fn law_text_formats_show_what_they_hold(format: ResponsesTextFormat)
    ensures
        match format.format {
            ResponsesTextFormatType::Text => format.deep_view() is Text,
            ResponsesTextFormatType::JsonObject => format.deep_view() is JsonObject,
            ResponsesTextFormatType::JsonSchema { name, schema, strict } => format.deep_view() == (
            TextFormatView::JsonSchema {
                name: name@,
                schema: json::object_members(schema),
                strict,
            }),
        },
{
}

} // verus!
