//! What the exchange with the service promises: where requests go, what replies mean
//! and in which forms streams are handed on.
use vstd::prelude::*;

use crate::address;
use crate::chat::{StreamChunk, StreamResponse};
use crate::error::LLMError;
use crate::exchange;
use crate::exchange::{AfterResponses, Api, Endpoint, Method, Operation, RequestHead};
use crate::openai::OpenAI;

verus! {

/// Each endpoint has its own path, each part of the service its own name and endpoint.
pub proof fn law_paths_and_names(
    endpoint: Endpoint,
    path: &'static str,
    api: Api,
    name: &'static str,
    target: Endpoint,
)
    requires
        call_ensures(Endpoint::path, (endpoint,), path),
        call_ensures(Api::name, (api,), name),
        call_ensures(Api::endpoint, (api,), target),
    ensures
        endpoint is Responses ==> path@ == "responses"@,
        endpoint is ChatCompletions ==> path@ == "chat/completions"@,
        endpoint is Models ==> path@ == "models"@,
        endpoint is Embeddings ==> path@ == "embeddings"@,
        api is Responses ==> name@ == "OpenAI Responses API"@ && target is Responses,
        api is HostedTools ==> name@ == "OpenAI hosted tools API"@ && target is Responses,
        api is ChatCompletions ==> name@ == "OpenAI API"@ && target is ChatCompletions,
{
}

/// A reply is a success exactly where its status is in the two hundreds; else it comes to
/// an error that names the part of the service and the status and keeps the body.
pub proof fn law_refused_reply_is_an_error(
    api: Api,
    name: &'static str,
    code: u16,
    status: &str,
    body: &str,
    accepted: bool,
    refused: Option<LLMError>,
)
    requires
        call_ensures(Api::name, (api,), name),
        call_ensures(exchange::accepts_status, (code,), accepted),
        call_ensures(Api::check_status, (api, code, status, body), refused),
    ensures
        accepted <==> 200 <= code && code <= 299,
        refused is None <==> accepted,
        refused matches Some(error) ==> {
            &&& error matches LLMError::ResponseFormatError { message, raw_response }
            &&& message@ == name@ + " returned error status: "@ + status@
            &&& raw_response@ == body@
        },
{
}

/// The error of a refused request names the part of the service and the status and keeps
/// the body.
pub proof fn law_status_error(
    api: Api,
    name: &'static str,
    status: &str,
    body: String,
    error: LLMError,
)
    requires
        call_ensures(Api::name, (api,), name),
        call_ensures(Api::status_error, (api, status, body), error),
    ensures
        error matches LLMError::ResponseFormatError { message, raw_response } && message@ == name@
            + " returned error status: "@ + status@ && raw_response@ == body@,
{
}

/// What was read from a body is the answer; where nothing could be read, the error names
/// the part of the service and the reason and keeps the body.
pub proof fn law_unreadable_body_is_an_error<T>(
    api: Api,
    name: &'static str,
    body: String,
    decoded: Result<T, String>,
    r: Result<T, LLMError>,
)
    requires
        call_ensures(Api::name, (api,), name),
        call_ensures(Api::check_decoded::<T>, (api, body, decoded), r),
    ensures
        r is Ok <==> decoded is Ok,
        r matches Ok(answer) ==> answer == decoded->Ok_0,
        r matches Err(error) ==> {
            &&& error matches LLMError::ResponseFormatError { message, raw_response }
            &&& message@ == "Failed to decode "@ + name@ + " response: "@ + decoded->Err_0@
            &&& raw_response@ == body@
        },
{
}

/// A reply gives the answer that was read from it exactly where its status is in the two
/// hundreds and its body could be read; the status is looked at first.
pub proof fn law_reply_is_read<T>(
    api: Api,
    name: &'static str,
    code: u16,
    status: &str,
    body: String,
    decoded: Result<T, String>,
    r: Result<T, LLMError>,
)
    requires
        call_ensures(Api::name, (api,), name),
        call_ensures(Api::read_reply::<T>, (api, code, status, body, decoded), r),
    ensures
        r is Ok <==> 200 <= code && code <= 299 && decoded is Ok,
        r matches Ok(answer) ==> answer == decoded->Ok_0,
        r matches Err(error) ==> {
            &&& error matches LLMError::ResponseFormatError { message, raw_response }
            &&& raw_response@ == body@
            &&& message@ == if 200 <= code && code <= 299 {
                "Failed to decode "@ + name@ + " response: "@ + decoded->Err_0@
            } else {
                name@ + " returned error status: "@ + status@
            }
        },
{
}

/// A request is made at the given address with the key of the client: models are asked
/// for, everything else is posted. The time limit of the client holds for answers, not for
/// models and embeddings. Without an address there is an error that says why.
pub proof fn law_request_head(
    client: OpenAI,
    endpoint: Endpoint,
    joined: Result<String, String>,
    r: Result<RequestHead, LLMError>,
)
    requires
        call_ensures(OpenAI::request_head_at, (&client, endpoint, joined), r),
    ensures
        r is Ok <==> joined is Ok,
        r matches Ok(head) ==> {
            &&& head.url@ == joined->Ok_0@
            &&& head.bearer@ == client.provider.api_key@
            &&& head.method == Method::Get <==> endpoint is Models
            &&& endpoint is Responses || endpoint is ChatCompletions ==> head.timeout_seconds
                == client.provider.timeout_seconds
            &&& endpoint is Models || endpoint is Embeddings ==> head.timeout_seconds is None
        },
        r matches Err(error) ==> {
            &&& error matches LLMError::HttpError(message)
            &&& message@ == joined->Err_0@
        },
{
}

/// The address of a request is that of the client joined with the path of the endpoint,
/// and the rest of its head is as at any address.
pub proof fn law_request_address(
    client: OpenAI,
    endpoint: Endpoint,
    path: &'static str,
    joined: Result<String, String>,
    r: Result<RequestHead, LLMError>,
    at: Result<RequestHead, LLMError>,
)
    requires
        call_ensures(OpenAI::request_head, (&client, endpoint), r),
        call_ensures(Endpoint::path, (endpoint,), path),
        call_ensures(OpenAI::request_head_at, (&client, endpoint, joined), at),
    ensures
        address::joined_url(client.provider.base_url@, path@) is Ok <==> r is Ok,
        r matches Ok(head) ==> head.url@ == address::joined_url(
            client.provider.base_url@,
            path@,
        )->Ok_0,
        r matches Err(error) ==> {
            &&& error matches LLMError::HttpError(message)
            &&& message@ == address::joined_url(client.provider.base_url@, path@)->Err_0
        },
        r is Ok && at is Ok ==> {
            &&& r->Ok_0.method == at->Ok_0.method
            &&& r->Ok_0.bearer@ == at->Ok_0.bearer@
            &&& r->Ok_0.timeout_seconds == at->Ok_0.timeout_seconds
        },
{
}

/// A client that uses the Responses API sends conversations and web searches there; one
/// that does not sends conversations to the Chat Completions API and web searches to
/// hosted tools. Hosted tools are asked for as such by either.
pub proof fn law_routes(
    client: OpenAI,
    operation: Operation,
    uses: bool,
    route: (Api, Endpoint),
)
    requires
        call_ensures(OpenAI::should_use_responses_api, (&client,), uses),
        call_ensures(OpenAI::route, (&client, operation), route),
    ensures
        operation is HostedTools ==> route == (Api::HostedTools, Endpoint::Responses),
        operation !is HostedTools && uses ==> route == (Api::Responses, Endpoint::Responses),
        operation is WebSearch && !uses ==> route == (Api::HostedTools, Endpoint::Responses),
        (operation is Chat || operation is ChatStream) && !uses ==> route == (
            Api::ChatCompletions,
            Endpoint::ChatCompletions,
        ),
{
}

/// An answer of the Responses API is the answer. An error is kept, and goes on to the Chat
/// Completions API exactly where the client falls back from it.
pub proof fn law_after_responses<T>(
    client: OpenAI,
    outcome: Result<T, LLMError>,
    next: AfterResponses<T>,
    falls_back: bool,
)
    requires
        call_ensures(OpenAI::after_responses::<T>, (&client, outcome), next),
        outcome is Err ==> call_ensures(
            OpenAI::should_fallback_from_responses_api_error,
            (&client, &outcome->Err_0),
            falls_back,
        ),
    ensures
        outcome matches Ok(answer) ==> next == AfterResponses::Answer(answer),
        outcome matches Err(error) ==> {
            &&& falls_back ==> next == AfterResponses::<T>::TryChatCompletions(error)
            &&& !falls_back ==> next == AfterResponses::<T>::Failure(error)
        },
{
}

/// In the form of the Chat Completions API a text is the content of one choice, a complete
/// call the one call of one choice, a usage stands alone, an error stays an error, and
/// starts, parts and ends are left out.
pub proof fn law_chunk_as_stream_response(
    chunk: Result<StreamChunk, LLMError>,
    r: Option<Result<StreamResponse, LLMError>>,
)
    requires
        call_ensures(OpenAI::responses_chunk_to_stream_response, (chunk,), r),
    ensures
        match chunk {
            Ok(StreamChunk::Text(text)) => {
                &&& r matches Some(Ok(response))
                &&& response.usage is None
                &&& response.choices@.len() == 1
                &&& response.choices@[0].delta.content matches Some(content)
                &&& content@ == text@
                &&& response.choices@[0].delta.reasoning_content is None
                &&& response.choices@[0].delta.tool_calls is None
            },
            Ok(StreamChunk::ToolUseComplete { tool_call, .. }) => {
                &&& r matches Some(Ok(response))
                &&& response.usage is None
                &&& response.choices@.len() == 1
                &&& response.choices@[0].delta.content is None
                &&& response.choices@[0].delta.reasoning_content is None
                &&& response.choices@[0].delta.tool_calls matches Some(calls)
                &&& calls@.len() == 1
                &&& calls@[0].id@ == tool_call.id@
                &&& calls@[0].call_type@ == tool_call.call_type@
                &&& calls@[0].function.name@ == tool_call.function.name@
                &&& calls@[0].function.arguments@ == tool_call.function.arguments@
            },
            Ok(StreamChunk::Usage(usage)) => {
                &&& r matches Some(Ok(response))
                &&& response.usage == Some(usage)
                &&& response.choices@.len() == 0
            },
            Ok(StreamChunk::ToolUseStart { .. }) => r is None,
            Ok(StreamChunk::ToolUseInputDelta { .. }) => r is None,
            Ok(StreamChunk::Done { .. }) => r is None,
            Err(error) => r matches Some(Err(same)) && same.deep_view() == error.deep_view(),
        },
{
    if let Some(Ok(response)) = r {
        assert(response.choices.deep_view().len() == response.choices@.len());
        if response.choices@.len() > 0 {
            let delta = response.choices@[0].delta;
            assert(response.choices.deep_view()[0] == response.choices@[0].deep_view());
            if let Some(calls) = delta.tool_calls {
                assert(calls.deep_view().len() == calls@.len());
                if calls@.len() > 0 {
                    assert(calls.deep_view()[0] == calls@[0].deep_view());
                }
            }
        }
    }
}

/// A stream of texts takes from a chunk the text that is not empty, keeps every error, and
/// leaves out everything else.
pub proof fn law_text_of_a_chunk(
    chunk: Result<StreamChunk, LLMError>,
    r: Option<Result<String, LLMError>>,
)
    requires
        call_ensures(OpenAI::text_of_chunk, (chunk,), r),
    ensures
        match chunk {
            Ok(StreamChunk::Text(text)) => {
                &&& text@.len() == 0 ==> r is None
                &&& text@.len() > 0 ==> (r matches Some(Ok(found)) && found@ == text@)
            },
            Ok(_) => r is None,
            Err(error) => r matches Some(Err(same)) && same.deep_view() == error.deep_view(),
        },
{
}

/// A stream of texts takes from a piece of an answer of the Chat Completions API the content
/// of the first choice that is not empty, keeps every error, and leaves out everything else.
pub proof fn law_text_of_a_stream_response(
    response: Result<StreamResponse, LLMError>,
    r: Option<Result<String, LLMError>>,
)
    requires
        call_ensures(OpenAI::text_of_stream_response, (response,), r),
    ensures
        match response {
            Ok(piece) => if piece.choices@.len() > 0 && piece.choices@[0].delta.content is Some
                && piece.choices@[0].delta.content->0@.len() > 0 {
                r matches Some(Ok(found)) && found@ == piece.choices@[0].delta.content->0@
            } else {
                r is None
            },
            Err(error) => r matches Some(Err(same)) && same.deep_view() == error.deep_view(),
        },
{
    if let Ok(piece) = response {
        assert(piece.choices.deep_view().len() == piece.choices@.len());
        if piece.choices@.len() > 0 {
            assert(piece.choices.deep_view()[0] == piece.choices@[0].deep_view());
        }
    }
}

/// An address is held as it was read, and as it was given where it could not be read.
pub proof fn law_held_address(given: String, parsed: Result<String, String>, r: String)
    requires
        call_ensures(address::hold_address, (given, parsed), r),
    ensures
        parsed matches Ok(text) ==> r@ == text@,
        parsed is Err ==> r@ == given@,
{
}

/// An error is seen by its kind and its texts, and tells its own message.
pub proof fn law_errors_show_what_they_hold(error: LLMError, message: &str)
    requires
        call_ensures(LLMError::message, (&error,), message),
    ensures
        match error {
            LLMError::HttpError(m) => error.deep_view() is HttpError && error.deep_view()->HttpError_0
                == m@ && message@ == m@,
            LLMError::AuthError(m) => error.deep_view() is AuthError && error.deep_view()->AuthError_0
                == m@ && message@ == m@,
            LLMError::InvalidRequest(m) => error.deep_view() is InvalidRequest
                && error.deep_view()->InvalidRequest_0 == m@ && message@ == m@,
            LLMError::ProviderError(m) => error.deep_view() is ProviderError
                && error.deep_view()->ProviderError_0 == m@ && message@ == m@,
            LLMError::ResponseFormatError { message: m, raw_response } => {
                &&& error.deep_view() is ResponseFormatError
                &&& error.deep_view()->message == m@
                &&& error.deep_view()->raw_response == raw_response@
                &&& message@ == m@
            },
        },
{
}

} // verus!
