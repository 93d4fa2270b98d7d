//! The bodies of the requests that the client sends.
//!
//! Numbers that travel as floating-point values are held by their bit pattern:
//! the client hands them on and never computes with them.
use vstd::prelude::*;

use crate::chat::{FunctionTool, FunctionToolView, StructuredOutputFormat, ToolChoice};
use crate::json;

verus! {

/// A 32-bit floating-point number by its bit pattern.
#[derive(Debug, Clone, Copy, PartialEq, Eq, Structural)]
pub struct F32Bits(pub u32);

/// An approximate place on the map.
#[derive(Debug)]
pub struct ApproximateLocation {
    pub country: String,
    pub city: String,
    pub region: String,
}

/// Where the user of a web search is.
#[derive(Debug)]
pub struct UserLocation {
    pub location_type: String,
    pub approximate: Option<ApproximateLocation>,
}

/// A tool of a request: a function of the caller, or one that is built in.
#[derive(Debug)]
pub enum OpenAITool {
    Function { tool_type: String, function: FunctionTool },
    /// A function in the form of the Responses API, without a nested object.
    ResponsesFunction {
        tool_type: String,
        name: String,
        description: String,
        parameters: serde_json::Value,
    },
    WebSearch { tool_type: String, user_location: Option<UserLocation> },
    FileSearch {
        tool_type: String,
        vector_store_ids: Vec<String>,
        max_num_results: Option<u32>,
    },
    CodeInterpreter { tool_type: String },
}

/// An `ApproximateLocation` with its texts as character sequences.
pub struct ApproximateLocationView {
    pub country: Seq<char>,
    pub city: Seq<char>,
    pub region: Seq<char>,
}

/// A `UserLocation` with its texts as character sequences.
pub struct UserLocationView {
    pub location_type: Seq<char>,
    pub approximate: Option<ApproximateLocationView>,
}

/// An `OpenAITool` with its texts as character sequences.
pub enum OpenAIToolView {
    Function { tool_type: Seq<char>, function: FunctionToolView },
    ResponsesFunction {
        tool_type: Seq<char>,
        name: Seq<char>,
        description: Seq<char>,
        parameters: serde_json::Value,
    },
    WebSearch { tool_type: Seq<char>, user_location: Option<UserLocationView> },
    FileSearch {
        tool_type: Seq<char>,
        vector_store_ids: Seq<Seq<char>>,
        max_num_results: Option<u32>,
    },
    CodeInterpreter { tool_type: Seq<char> },
}

impl DeepView for ApproximateLocation {
    type V = ApproximateLocationView;

    open spec fn deep_view(&self) -> ApproximateLocationView {
        ApproximateLocationView { country: self.country@, city: self.city@, region: self.region@ }
    }
}

impl DeepView for UserLocation {
    type V = UserLocationView;

    open spec fn deep_view(&self) -> UserLocationView {
        UserLocationView {
            location_type: self.location_type@,
            approximate: self.approximate.deep_view(),
        }
    }
}

impl DeepView for OpenAITool {
    type V = OpenAIToolView;

    open spec fn deep_view(&self) -> OpenAIToolView {
        match self {
            OpenAITool::Function { tool_type, function } => OpenAIToolView::Function {
                tool_type: tool_type@,
                function: function.deep_view(),
            },
            OpenAITool::ResponsesFunction { tool_type, name, description, parameters } =>
                OpenAIToolView::ResponsesFunction {
                tool_type: tool_type@,
                name: name@,
                description: description@,
                parameters: *parameters,
            },
            OpenAITool::WebSearch { tool_type, user_location } => OpenAIToolView::WebSearch {
                tool_type: tool_type@,
                user_location: user_location.deep_view(),
            },
            OpenAITool::FileSearch { tool_type, vector_store_ids, max_num_results } =>
                OpenAIToolView::FileSearch {
                tool_type: tool_type@,
                vector_store_ids: vector_store_ids.deep_view(),
                max_num_results: *max_num_results,
            },
            OpenAITool::CodeInterpreter { tool_type } => OpenAIToolView::CodeInterpreter {
                tool_type: tool_type@,
            },
        }
    }
}

/// Where an image comes from.
#[derive(Debug)]
pub enum ImageSource {
    Url { url: String },
    Base64 { data: String, media_type: String },
}

/// A part of the content of a message.
#[derive(Debug)]
pub enum ContentPart {
    InputText { text: String },
    InputImage { source: ImageSource },
}

/// The content of a message: a text or several parts.
#[derive(Debug)]
pub enum MessageContent {
    Text(String),
    Parts(Vec<ContentPart>),
}

/// An item of the input of the Responses API.
#[derive(Debug)]
pub enum InputItem {
    Message { role: String, content: MessageContent },
    FunctionCall { call_id: String, name: String, arguments: String },
    FunctionCallOutput { call_id: String, output: String },
}

/// The input of the Responses API: a text or several items.
#[derive(Debug)]
pub enum ResponsesInput {
    Text(String),
    Items(Vec<InputItem>),
}

/// A `ContentPart` with its texts as character sequences.
pub enum ContentPartView {
    InputText { text: Seq<char> },
    ImageUrl { url: Seq<char> },
    ImageBase64 { data: Seq<char>, media_type: Seq<char> },
}

/// A `MessageContent` with its texts as character sequences.
pub enum MessageContentView {
    Text(Seq<char>),
    Parts(Seq<ContentPartView>),
}

/// An `InputItem` with its texts as character sequences.
pub enum InputItemView {
    Message { role: Seq<char>, content: MessageContentView },
    FunctionCall { call_id: Seq<char>, name: Seq<char>, arguments: Seq<char> },
    FunctionCallOutput { call_id: Seq<char>, output: Seq<char> },
}

/// A `ResponsesInput` with its texts as character sequences.
pub enum ResponsesInputView {
    Text(Seq<char>),
    Items(Seq<InputItemView>),
}

impl DeepView for ContentPart {
    type V = ContentPartView;

    open spec fn deep_view(&self) -> ContentPartView {
        match self {
            ContentPart::InputText { text } => ContentPartView::InputText { text: text@ },
            ContentPart::InputImage { source: ImageSource::Url { url } } =>
                ContentPartView::ImageUrl { url: url@ },
            ContentPart::InputImage { source: ImageSource::Base64 { data, media_type } } =>
                ContentPartView::ImageBase64 { data: data@, media_type: media_type@ },
        }
    }
}

impl DeepView for MessageContent {
    type V = MessageContentView;

    open spec fn deep_view(&self) -> MessageContentView {
        match self {
            MessageContent::Text(text) => MessageContentView::Text(text@),
            MessageContent::Parts(parts) => MessageContentView::Parts(parts.deep_view()),
        }
    }
}

impl DeepView for InputItem {
    type V = InputItemView;

    open spec fn deep_view(&self) -> InputItemView {
        match self {
            InputItem::Message { role, content } => InputItemView::Message {
                role: role@,
                content: content.deep_view(),
            },
            InputItem::FunctionCall { call_id, name, arguments } => InputItemView::FunctionCall {
                call_id: call_id@,
                name: name@,
                arguments: arguments@,
            },
            InputItem::FunctionCallOutput { call_id, output } =>
                InputItemView::FunctionCallOutput { call_id: call_id@, output: output@ },
        }
    }
}

impl DeepView for ResponsesInput {
    type V = ResponsesInputView;

    open spec fn deep_view(&self) -> ResponsesInputView {
        match self {
            ResponsesInput::Text(text) => ResponsesInputView::Text(text@),
            ResponsesInput::Items(items) => ResponsesInputView::Items(items.deep_view()),
        }
    }
}

/// The form of the text in an answer of the Responses API.
#[derive(Debug)]
pub enum ResponsesTextFormatType {
    Text,
    JsonObject,
    JsonSchema { name: String, schema: serde_json::Value, strict: Option<bool> },
}

/// The `text` parameter of the Responses API.
#[derive(Debug)]
pub struct ResponsesTextFormat {
    pub format: ResponsesTextFormatType,
}

/// A `ResponsesTextFormat`; a schema is given by the members of its object.
pub enum TextFormatView {
    Text,
    JsonObject,
    JsonSchema {
        name: Seq<char>,
        schema: Option<Map<Seq<char>, serde_json::Value>>,
        strict: Option<bool>,
    },
}

impl DeepView for ResponsesTextFormat {
    type V = TextFormatView;

    open spec fn deep_view(&self) -> TextFormatView {
        match self.format {
            ResponsesTextFormatType::Text => TextFormatView::Text,
            ResponsesTextFormatType::JsonObject => TextFormatView::JsonObject,
            ResponsesTextFormatType::JsonSchema { name, schema, strict } =>
                TextFormatView::JsonSchema {
                name: name@,
                schema: json::object_members(schema),
                strict,
            },
        }
    }
}

/// The members of an object that says of itself whether further members are
/// allowed: those given, and `false` where they are silent.
pub open spec fn closed_members(members: Map<Seq<char>, serde_json::Value>) -> Map<
    Seq<char>,
    serde_json::Value,
> {
    if members.contains_key("additionalProperties"@) {
        members
    } else {
        members.insert("additionalProperties"@, json::bool_value(false))
    }
}

/// Whether the schema, if there is one, is an object or `null`.
pub open spec fn has_usable_schema(format: StructuredOutputFormat) -> bool {
    match format.schema {
        Some(schema) => json::object_members(schema) is Some || json::is_null(schema),
        None => true,
    }
}

/// The text format that asks for the given structure. A schema that does not
/// say so forbids further members; without a schema it is the empty object.
pub open spec fn text_format(format: StructuredOutputFormat) -> TextFormatView {
    let schema = match format.schema {
        Some(schema) => closed_members(
            match json::object_members(schema) {
                Some(members) => members,
                None => json::no_members(),
            },
        ),
        None => json::no_members(),
    };
    TextFormatView::JsonSchema { name: format.name@, schema: Some(schema), strict: format.strict }
}

impl ResponsesTextFormat {
    /// Whether the schema, if there is one, is an object or `null`.
    pub fn accepts(format: &StructuredOutputFormat) -> (r: bool)
        ensures
            r == has_usable_schema(*format),
    {
        match &format.schema {
            Some(schema) => json::as_object(schema).is_some() || json::value_is_null(schema),
            None => true,
        }
    }

    /// The text format that asks for the given structure.
    pub fn from(format: StructuredOutputFormat) -> (r: Self)
        requires
            has_usable_schema(format),
        ensures
            r.deep_view() == text_format(format),
    {
        match format.schema {
            Some(given) => {
                let mut schema = given;
                if json::get(&schema, "additionalProperties").is_none() {
                    json::set(&mut schema, "additionalProperties", json::from_bool(false));
                }
                ResponsesTextFormat {
                    format: ResponsesTextFormatType::JsonSchema {
                        name: format.name,
                        schema,
                        strict: format.strict,
                    },
                }
            },
            None => ResponsesTextFormat {
                format: ResponsesTextFormatType::JsonSchema {
                    name: format.name,
                    schema: json::from_map(json::empty_map()),
                    strict: format.strict,
                },
            },
        }
    }

    /// The text format that asks for the given structure, or `None` where its
    /// schema is neither an object nor `null`.
    pub fn checked_from(format: StructuredOutputFormat) -> (r: Option<Self>)
        ensures
            r.deep_view() == (if has_usable_schema(format) {
                Some(text_format(format))
            } else {
                None
            }),
    {
        if Self::accepts(&format) {
            Some(Self::from(format))
        } else {
            None
        }
    }
}

/// A schema always says whether further members are allowed, keeps what it says
/// already, and is not changed by asking for it again.
pub proof fn law_closing_a_schema(members: Map<Seq<char>, serde_json::Value>)
    ensures
        closed_members(members).contains_key("additionalProperties"@),
        forall|key: Seq<char>| #[trigger]
            members.contains_key(key) ==> closed_members(members).contains_key(key)
                && closed_members(members)[key] == members[key],
        closed_members(closed_members(members)) == closed_members(members),
{
}

/// The reasoning that is asked of the Responses API.
#[derive(Debug)]
pub struct ResponsesReasoningConfig {
    pub effort: Option<String>,
    pub summary: Option<String>,
}

/// A `ResponsesReasoningConfig` with its texts as character sequences.
pub struct ReasoningView {
    pub effort: Option<Seq<char>>,
    pub summary: Option<Seq<char>>,
}

impl DeepView for ResponsesReasoningConfig {
    type V = ReasoningView;

    open spec fn deep_view(&self) -> ReasoningView {
        ReasoningView { effort: self.effort.deep_view(), summary: self.summary.deep_view() }
    }
}

/// The body of a request to the Responses API.
#[derive(Debug)]
pub struct OpenAIResponsesRequest {
    pub model: String,
    pub input: ResponsesInput,
    pub instructions: Option<String>,
    pub tools: Option<Vec<OpenAITool>>,
    pub tool_choice: Option<ToolChoice>,
    pub temperature: Option<F32Bits>,
    pub top_p: Option<F32Bits>,
    pub max_output_tokens: Option<u32>,
    pub previous_response_id: Option<String>,
    pub reasoning: Option<ResponsesReasoningConfig>,
    pub text: Option<ResponsesTextFormat>,
    pub stream: bool,
    pub extra_body: serde_json::Map<String, serde_json::Value>,
}

/// An `OpenAIResponsesRequest` with its texts as character sequences.
pub struct ResponsesRequestView {
    pub model: Seq<char>,
    pub input: ResponsesInputView,
    pub instructions: Option<Seq<char>>,
    pub tools: Option<Seq<OpenAIToolView>>,
    pub tool_choice: Option<ToolChoice>,
    pub temperature: Option<F32Bits>,
    pub top_p: Option<F32Bits>,
    pub max_output_tokens: Option<u32>,
    pub previous_response_id: Option<Seq<char>>,
    pub reasoning: Option<ReasoningView>,
    pub text: Option<TextFormatView>,
    pub stream: bool,
    pub extra_body: serde_json::Map<String, serde_json::Value>,
}

impl DeepView for OpenAIResponsesRequest {
    type V = ResponsesRequestView;

    open spec fn deep_view(&self) -> ResponsesRequestView {
        ResponsesRequestView {
            model: self.model@,
            input: self.input.deep_view(),
            instructions: self.instructions.deep_view(),
            tools: self.tools.deep_view(),
            tool_choice: self.tool_choice,
            temperature: self.temperature,
            top_p: self.top_p,
            max_output_tokens: self.max_output_tokens,
            previous_response_id: self.previous_response_id.deep_view(),
            reasoning: self.reasoning.deep_view(),
            text: self.text.deep_view(),
            stream: self.stream,
            extra_body: self.extra_body,
        }
    }
}

/// What a streamed answer of the Chat Completions API has to bring besides the
/// text.
#[derive(Debug, Clone, Copy, PartialEq, Eq, Structural)]
pub struct OpenAIStreamOptions {
    pub include_usage: bool,
}

/// The body of a request to the Chat Completions API or to a hosted tool.
/// `Message` is the form in which that API takes a message, `Format` the one in
/// which it takes the structure of an answer.
#[derive(Debug)]
pub struct OpenAIAPIChatRequest<Message, Format> {
    pub model: String,
    pub messages: Vec<Message>,
    pub input: Option<String>,
    pub max_completion_tokens: Option<u32>,
    pub max_output_tokens: Option<u32>,
    pub temperature: Option<F32Bits>,
    pub stream: bool,
    pub top_p: Option<F32Bits>,
    pub top_k: Option<u32>,
    pub tools: Option<Vec<OpenAITool>>,
    pub tool_choice: Option<ToolChoice>,
    pub reasoning_effort: Option<String>,
    pub response_format: Option<Format>,
    pub stream_options: Option<OpenAIStreamOptions>,
    /// The answer that the request continues.
    pub previous_response_id: Option<String>,
    pub extra_body: serde_json::Map<String, serde_json::Value>,
}

/// An `OpenAIAPIChatRequest` with its texts as character sequences.
pub struct ChatRequestView<Message, Format> {
    pub model: Seq<char>,
    pub messages: Seq<Message>,
    pub input: Option<Seq<char>>,
    pub max_completion_tokens: Option<u32>,
    pub max_output_tokens: Option<u32>,
    pub temperature: Option<F32Bits>,
    pub stream: bool,
    pub top_p: Option<F32Bits>,
    pub top_k: Option<u32>,
    pub tools: Option<Seq<OpenAIToolView>>,
    pub tool_choice: Option<ToolChoice>,
    pub reasoning_effort: Option<Seq<char>>,
    pub response_format: Option<Format>,
    pub stream_options: Option<OpenAIStreamOptions>,
    pub previous_response_id: Option<Seq<char>>,
    pub extra_body: serde_json::Map<String, serde_json::Value>,
}

impl<Message, Format> View for OpenAIAPIChatRequest<Message, Format> {
    type V = ChatRequestView<Message, Format>;

    open spec fn view(&self) -> ChatRequestView<Message, Format> {
        ChatRequestView {
            model: self.model@,
            messages: self.messages@,
            input: self.input.deep_view(),
            max_completion_tokens: self.max_completion_tokens,
            max_output_tokens: self.max_output_tokens,
            temperature: self.temperature,
            stream: self.stream,
            top_p: self.top_p,
            top_k: self.top_k,
            tools: self.tools.deep_view(),
            tool_choice: self.tool_choice,
            reasoning_effort: self.reasoning_effort.deep_view(),
            response_format: self.response_format,
            stream_options: self.stream_options,
            previous_response_id: self.previous_response_id.deep_view(),
            extra_body: self.extra_body,
        }
    }
}

/// The body of a request for embeddings.
#[derive(Debug)]
pub struct OpenAIEmbeddingRequest {
    pub model: String,
    pub input: Vec<String>,
    pub encoding_format: Option<String>,
    pub dimensions: Option<u32>,
}

} // verus!
