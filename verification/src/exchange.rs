//! Requests and replies: where a request goes, what a reply means, and what is
//! done next.
use vstd::prelude::*;

use crate::address;
use crate::address::join_url;
use crate::chat::{
    StreamChoice, StreamChunk, StreamChunkView, StreamDelta, StreamDeltaView, StreamResponse,
    StreamResponseView, ToolCall,
};
use crate::error::{LLMError, LLMErrorView};
use crate::openai::OpenAI;
use crate::stream_parser;
use crate::stream_parser::ChunkView;

verus! {

/// The services that the client calls.
#[derive(Debug, Clone, Copy, PartialEq, Eq, Structural)]
pub enum Endpoint {
    Responses,
    ChatCompletions,
    Models,
    Embeddings,
}

/// How a request is made.
#[derive(Debug, Clone, Copy, PartialEq, Eq, Structural)]
pub enum Method {
    Get,
    Post,
}

impl Endpoint {
    /// The path of the service, relative to the address of the client.
    pub open spec fn spec_path(self) -> Seq<char> {
        match self {
            Endpoint::Responses => "responses"@,
            Endpoint::ChatCompletions => "chat/completions"@,
            Endpoint::Models => "models"@,
            Endpoint::Embeddings => "embeddings"@,
        }
    }

    /// The path of the service, relative to the address of the client.
    pub fn path(self) -> (r: &'static str)
        ensures
            r@ == self.spec_path(),
    {
        match self {
            Endpoint::Responses => "responses",
            Endpoint::ChatCompletions => "chat/completions",
            Endpoint::Models => "models",
            Endpoint::Embeddings => "embeddings",
        }
    }
}

/// A request without its body.
#[derive(Debug)]
pub struct RequestHead {
    pub method: Method,
    pub url: String,
    /// The key that authorises the request.
    pub bearer: String,
    pub timeout_seconds: Option<u64>,
}

/// A `RequestHead` with its texts as character sequences.
pub struct RequestHeadView {
    pub method: Method,
    pub url: Seq<char>,
    pub bearer: Seq<char>,
    pub timeout_seconds: Option<u64>,
}

impl DeepView for RequestHead {
    type V = RequestHeadView;

    open spec fn deep_view(&self) -> RequestHeadView {
        RequestHeadView {
            method: self.method,
            url: self.url@,
            bearer: self.bearer@,
            timeout_seconds: self.timeout_seconds,
        }
    }
}

/// The outcome of making a request head, over character sequences.
pub open spec fn head_view(head: Result<RequestHead, LLMError>) -> Result<
    RequestHeadView,
    LLMErrorView,
> {
    match head {
        Ok(head) => Ok(head.deep_view()),
        Err(error) => Err(error.deep_view()),
    }
}

/// Whether the status of a reply tells of success.
pub open spec fn is_success(code: u16) -> bool {
    200 <= code < 300
}

/// Whether the status of a reply tells of success.
pub fn accepts_status(code: u16) -> (r: bool)
    ensures
        r == is_success(code),
{
    200 <= code && code < 300
}

/// What the client is asked to do.
#[derive(Debug, Clone, Copy, PartialEq, Eq, Structural)]
pub enum Operation {
    /// Continue a conversation.
    Chat,
    /// Continue a conversation, with the answer as a stream.
    ChatStream,
    /// Look something up on the web.
    WebSearch,
    /// Have hosted tools work on a text.
    HostedTools,
}

/// Which part of the service a reply is from.
#[derive(Debug, Clone, Copy, PartialEq, Eq, Structural)]
pub enum Api {
    Responses,
    HostedTools,
    ChatCompletions,
}

impl Api {
    /// How the messages of errors name it.
    pub open spec fn spec_name(self) -> Seq<char> {
        match self {
            Api::Responses => "OpenAI Responses API"@,
            Api::HostedTools => "OpenAI hosted tools API"@,
            Api::ChatCompletions => "OpenAI API"@,
        }
    }

    /// How the messages of errors name it.
    pub fn name(self) -> (r: &'static str)
        ensures
            r@ == self.spec_name(),
    {
        match self {
            Api::Responses => "OpenAI Responses API",
            Api::HostedTools => "OpenAI hosted tools API",
            Api::ChatCompletions => "OpenAI API",
        }
    }

    /// Where its requests go.
    pub open spec fn spec_endpoint(self) -> Endpoint {
        match self {
            Api::Responses => Endpoint::Responses,
            Api::HostedTools => Endpoint::Responses,
            Api::ChatCompletions => Endpoint::ChatCompletions,
        }
    }

    /// Where its requests go.
    pub fn endpoint(self) -> (r: Endpoint)
        ensures
            r == self.spec_endpoint(),
    {
        match self {
            Api::Responses => Endpoint::Responses,
            Api::HostedTools => Endpoint::Responses,
            Api::ChatCompletions => Endpoint::ChatCompletions,
        }
    }

    /// The message for a reply whose status tells of a failure.
    pub open spec fn status_message(self, status: Seq<char>) -> Seq<char> {
        self.spec_name() + " returned error status: "@ + status
    }

    /// The message for a reply that cannot be read.
    pub open spec fn decode_message(self, reason: Seq<char>) -> Seq<char> {
        "Failed to decode "@ + self.spec_name() + " response: "@ + reason
    }

    /// The error for a reply whose status tells of a failure: it holds the status
    /// and the body.
    pub open spec fn spec_status_error(self, status: Seq<char>, body: Seq<char>) -> LLMErrorView {
        LLMErrorView::ResponseFormatError {
            message: self.status_message(status),
            raw_response: body,
        }
    }

    /// The error for a body that cannot be read: it holds the reason and the body.
    pub open spec fn spec_decode_error(self, reason: Seq<char>, body: Seq<char>) -> LLMErrorView {
        LLMErrorView::ResponseFormatError {
            message: self.decode_message(reason),
            raw_response: body,
        }
    }

    /// The error for a reply whose status tells of a failure.
    pub fn status_error(self, status: &str, body: String) -> (r: LLMError)
        ensures
            r.deep_view() == self.spec_status_error(status@, body@),
    {
        let mut message = self.name().to_string();
        message.append(" returned error status: ");
        message.append(status);
        LLMError::ResponseFormatError { message, raw_response: body }
    }

    /// The error that a reply comes to by its status, and none exactly where the
    /// status tells of success. The status is given as a number and as text.
    pub fn check_status(self, code: u16, status: &str, body: &str) -> (r: Option<LLMError>)
        ensures
            r.deep_view() == (if is_success(code) {
                None
            } else {
                Some(self.spec_status_error(status@, body@))
            }),
    {
        if accepts_status(code) {
            None
        } else {
            Some(self.status_error(status, body.to_string()))
        }
    }

    /// What a reply comes to: the answer exactly where the status tells of success
    /// and the body could be read, and else the error that goes with the status
    /// or, behind a good status, with the body.
    pub fn read_reply<T>(
        self,
        code: u16,
        status: &str,
        body: String,
        decoded: Result<T, String>,
    ) -> (r: Result<T, LLMError>)
        ensures
            r is Ok <==> is_success(code) && decoded is Ok,
            r matches Ok(answer) ==> decoded == Ok::<T, String>(answer),
            r matches Err(error) ==> error.deep_view() == (if is_success(code) {
                self.spec_decode_error(decoded->Err_0@, body@)
            } else {
                self.spec_status_error(status@, body@)
            }),
    {
        match self.check_status(code, status, body.as_str()) {
            Some(error) => Err(error),
            None => self.check_decoded(body, decoded),
        }
    }

    /// What a body comes to: the answer that was read from it, or an error with
    /// the reason why it could not be read and the body.
    pub fn check_decoded<T>(self, body: String, decoded: Result<T, String>) -> (r: Result<
        T,
        LLMError,
    >)
        ensures
            match decoded {
                Ok(answer) => r == Ok::<T, LLMError>(answer),
                Err(reason) => r matches Err(error) && error.deep_view()
                    == self.spec_decode_error(reason@, body@),
            },
    {
        match decoded {
            Ok(answer) => Ok(answer),
            Err(reason) => {
                let mut message = "Failed to decode ".to_string();
                message.append(self.name());
                message.append(" response: ");
                message.append(reason.as_str());
                Err(LLMError::ResponseFormatError { message, raw_response: body })
            },
        }
    }
}

/// What follows the reply of the Responses API to a chat request.
#[derive(Debug)]
pub enum AfterResponses<T> {
    /// The answer is there.
    Answer(T),
    /// The request has failed.
    Failure(LLMError),
    /// The service does not offer the Responses API: the request goes to the
    /// Chat Completions API. The error says why.
    TryChatCompletions(LLMError),
}

/// The text that a chunk adds to a stream of texts: that of a text chunk that is
/// not empty, and every error.
pub open spec fn chunk_text(chunk: ChunkView) -> Option<Result<Seq<char>, LLMErrorView>> {
    match chunk {
        Ok(StreamChunkView::Text(text)) => if text.len() > 0 {
            Some(Ok(text))
        } else {
            None
        },
        Ok(_) => None,
        Err(error) => Some(Err(error)),
    }
}

/// What a piece of a streamed answer comes to in the form of the Chat
/// Completions API: text, complete calls of tools, usage and errors; nothing
/// where it is a start, a part or an end.
pub open spec fn chunk_response(chunk: ChunkView) -> Option<
    Result<StreamResponseView, LLMErrorView>,
> {
    match chunk {
        Ok(StreamChunkView::Text(text)) => Some(
            Ok(
                StreamResponseView {
                    choices: seq![
                        StreamDeltaView {
                            content: Some(text),
                            reasoning_content: None,
                            tool_calls: None,
                        },
                    ],
                    usage: None,
                },
            ),
        ),
        Ok(StreamChunkView::ToolUseComplete { tool_call, .. }) => Some(
            Ok(
                StreamResponseView {
                    choices: seq![
                        StreamDeltaView {
                            content: None,
                            reasoning_content: None,
                            tool_calls: Some(seq![tool_call]),
                        },
                    ],
                    usage: None,
                },
            ),
        ),
        Ok(StreamChunkView::Usage(usage)) => Some(
            Ok(StreamResponseView { choices: Seq::empty(), usage: Some(usage) }),
        ),
        Ok(_) => None,
        Err(error) => Some(Err(error)),
    }
}

/// The text that a piece of a streamed answer of the Chat Completions API adds
/// to a stream of texts: the content of its first choice where it is not empty,
/// and every error.
pub open spec fn response_text(response: Result<StreamResponseView, LLMErrorView>) -> Option<
    Result<Seq<char>, LLMErrorView>,
> {
    match response {
        Ok(response) => if response.choices.len() > 0 {
            match response.choices[0].content {
                Some(content) => if content.len() > 0 {
                    Some(Ok(content))
                } else {
                    None
                },
                None => None,
            }
        } else {
            None
        },
        Err(error) => Some(Err(error)),
    }
}

/// A piece of a streamed answer of the Chat Completions API, over character
/// sequences.
pub open spec fn response_view(response: Result<StreamResponse, LLMError>) -> Result<
    StreamResponseView,
    LLMErrorView,
> {
    match response {
        Ok(response) => Ok(response.deep_view()),
        Err(error) => Err(error.deep_view()),
    }
}

/// The same where there may be none.
pub open spec fn optional_response_view(
    response: Option<Result<StreamResponse, LLMError>>,
) -> Option<Result<StreamResponseView, LLMErrorView>> {
    match response {
        Some(response) => Some(response_view(response)),
        None => None,
    }
}

/// A text or an error, if there is one, over character sequences.
pub open spec fn optional_text_view(text: Option<Result<String, LLMError>>) -> Option<
    Result<Seq<char>, LLMErrorView>,
> {
    match text {
        Some(Ok(text)) => Some(Ok(text@)),
        Some(Err(error)) => Some(Err(error.deep_view())),
        None => None,
    }
}

impl OpenAI {
    /// The part of the service that does the operation: the Responses API for a
    /// client that uses it; else the Chat Completions API for conversations and
    /// hosted tools for web searches. Hosted tools are asked for as such.
    pub open spec fn spec_api(&self, operation: Operation) -> Api {
        match operation {
            Operation::HostedTools => Api::HostedTools,
            Operation::WebSearch => if self.uses_responses_api() {
                Api::Responses
            } else {
                Api::HostedTools
            },
            Operation::Chat | Operation::ChatStream => if self.uses_responses_api() {
                Api::Responses
            } else {
                Api::ChatCompletions
            },
        }
    }

    /// The part of the service that does the operation, and where its requests go.
    pub open spec fn spec_route(&self, operation: Operation) -> (Api, Endpoint) {
        (self.spec_api(operation), self.spec_api(operation).spec_endpoint())
    }

    /// The part of the service that does the operation, and where its requests go.
    pub fn route(&self, operation: Operation) -> (r: (Api, Endpoint))
        ensures
            r == self.spec_route(operation),
    {
        let api = match operation {
            Operation::HostedTools => Api::HostedTools,
            Operation::WebSearch => if self.should_use_responses_api() {
                Api::Responses
            } else {
                Api::HostedTools
            },
            Operation::Chat | Operation::ChatStream => if self.should_use_responses_api() {
                Api::Responses
            } else {
                Api::ChatCompletions
            },
        };
        (api, api.endpoint())
    }

    /// The head of a request to the endpoint, given what its address comes to.
    /// Requests for models and embeddings have no time limit.
    pub open spec fn spec_request_head(
        &self,
        endpoint: Endpoint,
        joined: Result<Seq<char>, Seq<char>>,
    ) -> Result<RequestHeadView, LLMErrorView> {
        match joined {
            Ok(url) => Ok(
                RequestHeadView {
                    method: if endpoint is Models {
                        Method::Get
                    } else {
                        Method::Post
                    },
                    url,
                    bearer: self.provider.api_key@,
                    timeout_seconds: if endpoint is Models || endpoint is Embeddings {
                        None
                    } else {
                        self.provider.timeout_seconds
                    },
                },
            ),
            Err(message) => Err(LLMErrorView::HttpError(message)),
        }
    }

    /// The head of a request to the endpoint at the given address.
    pub fn request_head_at(&self, endpoint: Endpoint, joined: Result<String, String>) -> (r: Result<
        RequestHead,
        LLMError,
    >)
        ensures
            head_view(r) == self.spec_request_head(endpoint, address::url_view(joined)),
    {
        match joined {
            Ok(url) => Ok(
                RequestHead {
                    method: match endpoint {
                        Endpoint::Models => Method::Get,
                        _ => Method::Post,
                    },
                    url,
                    bearer: self.provider.api_key.clone(),
                    timeout_seconds: match endpoint {
                        Endpoint::Models => None,
                        Endpoint::Embeddings => None,
                        _ => self.provider.timeout_seconds,
                    },
                },
            ),
            Err(message) => Err(LLMError::HttpError(message)),
        }
    }

    /// The head of a request to the endpoint.
    pub fn request_head(&self, endpoint: Endpoint) -> (r: Result<RequestHead, LLMError>)
        ensures
            head_view(r) == self.spec_request_head(
                endpoint,
                address::joined_url(self.provider.base_url@, endpoint.spec_path()),
            ),
            address::parsed_url(self.provider.base_url@) matches Err(message) ==> head_view(r)
                == Err::<RequestHeadView, LLMErrorView>(LLMErrorView::HttpError(message)),
    {
        let joined = join_url(self.provider.base_url.as_str(), endpoint.path());
        self.request_head_at(endpoint, joined)
    }

    /// What follows the reply of the Responses API to a chat request.
    pub fn after_responses<T>(&self, outcome: Result<T, LLMError>) -> (r: AfterResponses<T>)
        ensures
            match outcome {
                Ok(answer) => r == AfterResponses::Answer(answer),
                Err(error) => if self.falls_back_after(error.deep_view()) {
                    r == AfterResponses::<T>::TryChatCompletions(error)
                } else {
                    r == AfterResponses::<T>::Failure(error)
                },
            },
    {
        match outcome {
            Ok(answer) => AfterResponses::Answer(answer),
            Err(error) => {
                if self.should_fallback_from_responses_api_error(&error) {
                    AfterResponses::TryChatCompletions(error)
                } else {
                    AfterResponses::Failure(error)
                }
            },
        }
    }

    /// A piece of a streamed answer of the Responses API in the form of the Chat
    /// Completions API.
    pub fn responses_chunk_to_stream_response(result: Result<StreamChunk, LLMError>) -> (r: Option<
        Result<StreamResponse, LLMError>,
    >)
        ensures
            optional_response_view(r) == chunk_response(stream_parser::chunk_view(result)),
    {
        match result {
            Ok(StreamChunk::Text(text)) => {
                let delta = StreamDelta {
                    content: Some(text),
                    reasoning_content: None,
                    tool_calls: None,
                };
                Some(Ok(one_choice(delta)))
            },
            Ok(StreamChunk::ToolUseComplete { tool_call, .. }) => {
                let mut calls: Vec<ToolCall> = Vec::new();
                calls.push(tool_call);
                assert(calls.deep_view() =~= seq![tool_call.deep_view()]);
                let delta = StreamDelta {
                    content: None,
                    reasoning_content: None,
                    tool_calls: Some(calls),
                };
                Some(Ok(one_choice(delta)))
            },
            Ok(StreamChunk::Usage(usage)) => {
                let choices: Vec<StreamChoice> = Vec::new();
                assert(choices.deep_view() =~= Seq::<StreamDeltaView>::empty());
                Some(Ok(StreamResponse { choices, usage: Some(usage) }))
            },
            Ok(_) => None,
            Err(error) => Some(Err(error)),
        }
    }

    /// The text that a chunk adds to a stream of texts.
    pub fn text_of_chunk(result: Result<StreamChunk, LLMError>) -> (r: Option<
        Result<String, LLMError>,
    >)
        ensures
            optional_text_view(r) == chunk_text(stream_parser::chunk_view(result)),
    {
        match result {
            Ok(StreamChunk::Text(text)) => if text.as_str().is_empty() {
                None
            } else {
                Some(Ok(text))
            },
            Ok(_) => None,
            Err(error) => Some(Err(error)),
        }
    }

    /// The text that a piece of a streamed answer of the Chat Completions API
    /// adds to a stream of texts.
    pub fn text_of_stream_response(result: Result<StreamResponse, LLMError>) -> (r: Option<
        Result<String, LLMError>,
    >)
        ensures
            optional_text_view(r) == response_text(response_view(result)),
    {
        match result {
            Ok(response) => {
                if response.choices.len() > 0 {
                    if let Some(content) = &response.choices[0].delta.content {
                        if !content.as_str().is_empty() {
                            return Some(Ok(content.clone()));
                        }
                    }
                }
                None
            },
            Err(error) => Some(Err(error)),
        }
    }
}

/// A piece of a streamed answer with one choice.
fn one_choice(delta: StreamDelta) -> (r: StreamResponse)
    ensures
        r.deep_view() == (StreamResponseView {
            choices: seq![
                StreamDeltaView {
                    content: delta.content.deep_view(),
                    reasoning_content: delta.reasoning_content.deep_view(),
                    tool_calls: delta.tool_calls.deep_view(),
                },
            ],
            usage: None,
        }),
{
    let mut choices: Vec<StreamChoice> = Vec::new();
    choices.push(StreamChoice { delta });
    assert(choices.deep_view() =~= seq![choices@[0].deep_view()]);
    StreamResponse { choices, usage: None }
}

} // verus!
