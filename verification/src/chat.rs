//! Messages, tools and answers, as every chat provider sees them.
use vstd::prelude::*;

use crate::json;

verus! {

/// Who a message is from.
#[derive(Debug, Clone, Copy, PartialEq, Eq, Structural)]
pub enum ChatRole {
    System,
    User,
    Assistant,
    Tool,
}

/// The format of an image that travels with a message.
#[derive(Debug, Clone, Copy, PartialEq, Eq, Structural)]
pub enum ImageMime {
    JPEG,
    PNG,
    GIF,
    WEBP,
}

impl ImageMime {
    /// The media type of the format.
    pub open spec fn media_type(self) -> Seq<char> {
        match self {
            ImageMime::JPEG => "image/jpeg"@,
            ImageMime::PNG => "image/png"@,
            ImageMime::GIF => "image/gif"@,
            ImageMime::WEBP => "image/webp"@,
        }
    }

    /// The media type of the format.
    pub fn mime_type(&self) -> (r: &'static str)
        ensures
            r@ == self.media_type(),
    {
        match self {
            ImageMime::JPEG => "image/jpeg",
            ImageMime::PNG => "image/png",
            ImageMime::GIF => "image/gif",
            ImageMime::WEBP => "image/webp",
        }
    }
}

/// The name and the arguments of a function that the model calls.
#[derive(Debug)]
pub struct FunctionCall {
    pub name: String,
    pub arguments: String,
}

impl Clone for FunctionCall {
    fn clone(&self) -> (r: Self)
        ensures
            r == *self,
    {
        FunctionCall { name: self.name.clone(), arguments: self.arguments.clone() }
    }
}

/// A call of a tool that the model asks for, or the result of one.
#[derive(Debug)]
pub struct ToolCall {
    pub id: String,
    pub call_type: String,
    pub function: FunctionCall,
}

impl Clone for ToolCall {
    fn clone(&self) -> (r: Self)
        ensures
            r == *self,
    {
        ToolCall {
            id: self.id.clone(),
            call_type: self.call_type.clone(),
            function: self.function.clone(),
        }
    }
}

/// A `ToolCall` with its texts as character sequences.
pub struct ToolCallView {
    pub id: Seq<char>,
    pub call_type: Seq<char>,
    pub name: Seq<char>,
    pub arguments: Seq<char>,
}

impl DeepView for ToolCall {
    type V = ToolCallView;

    open spec fn deep_view(&self) -> ToolCallView {
        ToolCallView {
            id: self.id@,
            call_type: self.call_type@,
            name: self.function.name@,
            arguments: self.function.arguments@,
        }
    }
}

/// What a message carries besides its text.
#[derive(Debug)]
pub enum MessageType {
    Text,
    Image((ImageMime, Vec<u8>)),
    ImageURL(String),
    ToolUse(Vec<ToolCall>),
    ToolResult(Vec<ToolCall>),
}

/// One message of a conversation.
#[derive(Debug)]
pub struct ChatMessage {
    pub role: ChatRole,
    pub message_type: MessageType,
    pub content: String,
}

/// A function that the model may call; `parameters` is its JSON schema.
#[derive(Debug)]
pub struct FunctionTool {
    pub name: String,
    pub description: String,
    pub parameters: serde_json::Value,
}

impl Clone for FunctionTool {
    fn clone(&self) -> (r: Self)
        ensures
            r == *self,
    {
        FunctionTool {
            name: self.name.clone(),
            description: self.description.clone(),
            parameters: json::copy_value(&self.parameters),
        }
    }
}

/// A `FunctionTool` with its texts as character sequences.
pub struct FunctionToolView {
    pub name: Seq<char>,
    pub description: Seq<char>,
    pub parameters: serde_json::Value,
}

impl DeepView for FunctionTool {
    type V = FunctionToolView;

    open spec fn deep_view(&self) -> FunctionToolView {
        FunctionToolView {
            name: self.name@,
            description: self.description@,
            parameters: self.parameters,
        }
    }
}

/// A tool that is offered to the model.
#[derive(Debug)]
pub struct Tool {
    pub tool_type: String,
    pub function: FunctionTool,
}

/// Which of the offered tools the model has to use.
#[derive(Debug)]
pub enum ToolChoice {
    Any,
    Auto,
    Tool(String),
    Disabled,
}

impl Clone for ToolChoice {
    fn clone(&self) -> (r: Self)
        ensures
            r == *self,
    {
        match self {
            ToolChoice::Any => ToolChoice::Any,
            ToolChoice::Auto => ToolChoice::Auto,
            ToolChoice::Tool(name) => ToolChoice::Tool(name.clone()),
            ToolChoice::Disabled => ToolChoice::Disabled,
        }
    }
}

/// The form that an answer has to have.
#[derive(Debug, Clone)]
pub struct StructuredOutputFormat {
    pub name: String,
    pub description: Option<String>,
    pub schema: Option<serde_json::Value>,
    pub strict: Option<bool>,
}

/// How many tokens a request and its answer took.
#[derive(Debug, Clone, Copy, PartialEq, Eq, Structural)]
pub struct Usage {
    pub prompt_tokens: u32,
    pub completion_tokens: u32,
    pub total_tokens: u32,
}

/// A piece of an answer that arrives as a stream.
#[derive(Debug)]
pub enum StreamChunk {
    Text(String),
    ToolUseStart { index: usize, id: String, name: String },
    ToolUseInputDelta { index: usize, partial_json: String },
    ToolUseComplete { index: usize, tool_call: ToolCall },
    Done { stop_reason: String },
    Usage(Usage),
}

/// A `StreamChunk` with its texts as character sequences.
pub enum StreamChunkView {
    Text(Seq<char>),
    ToolUseStart { index: usize, id: Seq<char>, name: Seq<char> },
    ToolUseInputDelta { index: usize, partial_json: Seq<char> },
    ToolUseComplete { index: usize, tool_call: ToolCallView },
    Done { stop_reason: Seq<char> },
    Usage(Usage),
}

impl DeepView for StreamChunk {
    type V = StreamChunkView;

    open spec fn deep_view(&self) -> StreamChunkView {
        match self {
            StreamChunk::Text(t) => StreamChunkView::Text(t@),
            StreamChunk::ToolUseStart { index, id, name } => StreamChunkView::ToolUseStart {
                index: *index,
                id: id@,
                name: name@,
            },
            StreamChunk::ToolUseInputDelta { index, partial_json } =>
                StreamChunkView::ToolUseInputDelta { index: *index, partial_json: partial_json@ },
            StreamChunk::ToolUseComplete { index, tool_call } => StreamChunkView::ToolUseComplete {
                index: *index,
                tool_call: tool_call.deep_view(),
            },
            StreamChunk::Done { stop_reason } => StreamChunkView::Done {
                stop_reason: stop_reason@,
            },
            StreamChunk::Usage(u) => StreamChunkView::Usage(*u),
        }
    }
}

/// What one choice adds to the answer.
#[derive(Debug)]
pub struct StreamDelta {
    pub content: Option<String>,
    pub reasoning_content: Option<String>,
    pub tool_calls: Option<Vec<ToolCall>>,
}

/// One choice of a streamed answer.
#[derive(Debug)]
pub struct StreamChoice {
    pub delta: StreamDelta,
}

/// A piece of a streamed answer in the form of the Chat Completions API.
#[derive(Debug)]
pub struct StreamResponse {
    pub choices: Vec<StreamChoice>,
    pub usage: Option<Usage>,
}

/// A `StreamDelta` with its texts as character sequences.
pub struct StreamDeltaView {
    pub content: Option<Seq<char>>,
    pub reasoning_content: Option<Seq<char>>,
    pub tool_calls: Option<Seq<ToolCallView>>,
}

/// A `StreamResponse` with its texts as character sequences; each choice is
/// given by its delta.
pub struct StreamResponseView {
    pub choices: Seq<StreamDeltaView>,
    pub usage: Option<Usage>,
}

impl DeepView for StreamChoice {
    type V = StreamDeltaView;

    open spec fn deep_view(&self) -> StreamDeltaView {
        StreamDeltaView {
            content: self.delta.content.deep_view(),
            reasoning_content: self.delta.reasoning_content.deep_view(),
            tool_calls: self.delta.tool_calls.deep_view(),
        }
    }
}

impl DeepView for StreamResponse {
    type V = StreamResponseView;

    open spec fn deep_view(&self) -> StreamResponseView {
        StreamResponseView { choices: self.choices.deep_view(), usage: self.usage }
    }
}

/// The answer of a completion.
#[derive(Debug)]
pub struct CompletionResponse {
    pub text: String,
}

/// The sequence, or `None` where it is empty.
pub open spec fn none_if_empty<A>(s: Seq<A>) -> Option<Seq<A>> {
    if s.len() == 0 {
        None
    } else {
        Some(s)
    }
}

/// An answer to a chat request.
pub trait ChatResponse {
    /// The text of the answer.
    spec fn spec_text(&self) -> Option<Seq<char>>;

    /// The calls of tools that the answer asks for.
    spec fn spec_tool_calls(&self) -> Option<Seq<ToolCallView>>;

    /// The reasoning behind the answer.
    spec fn spec_thinking(&self) -> Option<Seq<char>>;

    /// The tokens that the answer took.
    spec fn spec_usage(&self) -> Option<Usage>;

    /// The id under which the conversation can be continued.
    spec fn spec_response_id(&self) -> Option<Seq<char>>;

    fn text(&self) -> (r: Option<String>)
        ensures
            r.deep_view() == self.spec_text(),
    ;

    fn tool_calls(&self) -> (r: Option<Vec<ToolCall>>)
        ensures
            r.deep_view() == self.spec_tool_calls(),
    ;

    fn thinking(&self) -> (r: Option<String>)
        ensures
            r.deep_view() == self.spec_thinking(),
    ;

    fn usage(&self) -> (r: Option<Usage>)
        ensures
            r == self.spec_usage(),
    ;

    fn response_id(&self) -> (r: Option<&str>)
        ensures
            r.deep_view() == self.spec_response_id(),
    ;
}

} // verus!
