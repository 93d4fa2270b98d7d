//! Laws of the client: which API it uses, and what its requests and streams
//! have in common.
use vstd::prelude::*;

use crate::chat::{
    ChatMessage, ChatResponse, ChatRole, MessageType, StructuredOutputFormat, Tool,
    ToolCall, ToolCallView,
};
use crate::error::LLMErrorView;
use crate::exchange;
use crate::exchange::Api;
use crate::input;
use crate::openai;
use crate::openai::OpenAI;
use crate::request::{InputItemView, OpenAIToolView, ResponsesRequestView};
use crate::response;
use crate::response::OpenAIResponsesResponse;
use crate::stream_laws;
use crate::stream_laws::TypedEvent;
use crate::stream_parser::{ChunkView, ParserState};
use crate::text;
use crate::tools;

verus! {

/// A client that is told which API to use does as it is told, whatever the
/// model; and one that is told to use the Responses API never turns away from
/// it.
pub proof fn law_told_api_is_used(client: OpenAI, told: bool, error: LLMErrorView)
    requires
        client.use_responses_api == Some(told),
    ensures
        client.uses_responses_api() == told,
        told ==> !client.falls_back_after(error),
{
}

/// White space around the name of a model does not matter to the choice of the
/// API.
pub proof fn law_detection_ignores_surrounding_space(
    client: OpenAI,
    spaced: OpenAI,
    before: Seq<char>,
    after: Seq<char>,
)
    requires
        client.use_responses_api == spaced.use_responses_api,
        spaced.provider.model@ == before + client.provider.model@ + after,
        forall|i: int| 0 <= i < before.len() ==> text::is_white(#[trigger] before[i]),
        forall|i: int| 0 <= i < after.len() ==> text::is_white(#[trigger] after[i]),
    ensures
        spaced.uses_responses_api() == client.uses_responses_api(),
{
    text::lemma_trim_ignores_space(before, client.provider.model@, after);
}

/// A model with `codex` in its name wants the Responses API, and so does one
/// whose name is that of a family, begins with that and a `-` or a `.`, or has
/// it behind a `/` or a `:`.
pub proof fn law_members_of_a_family(family: Seq<char>, before: Seq<char>, after: Seq<char>)
    ensures
        openai::wants_responses_api(before + "codex"@ + after),
        openai::has_family(family, family),
        openai::has_family(family.push('-') + after, family),
        openai::has_family(family.push('.') + after, family),
        openai::has_family(before.push('/') + family + after, family),
        openai::has_family(before.push(':') + family + after, family),
{
    lemma_middle_is_substring(before, "codex"@, after);
    lemma_middle_is_substring(before, seq!['/'] + family, after);
    lemma_middle_is_substring(before, seq![':'] + family, after);
    assert(before + (seq!['/'] + family) + after =~= before.push('/') + family + after);
    assert(before + (seq![':'] + family) + after =~= before.push(':') + family + after);
    assert((family.push('-') + after).take(family.len() as int + 1) =~= family.push('-'));
    assert((family.push('.') + after).take(family.len() as int + 1) =~= family.push('.'));
}

proof fn lemma_middle_is_substring(before: Seq<char>, middle: Seq<char>, after: Seq<char>)
    ensures
        text::has_substring(before + middle + after, middle),
{
    let whole = before + middle + after;
    assert(whole.subrange(before.len() as int, before.len() as int + middle.len()) =~= middle);
    assert(text::occurs_at(whole, middle, before.len() as int));
}

/// A model whose name holds neither `codex` nor the name of a family does not
/// want the Responses API.
pub proof fn law_other_models_use_chat_completions(model: Seq<char>)
    requires
        !text::has_substring(model, "codex"@),
        !text::has_substring(model, "o1"@),
        !text::has_substring(model, "o3"@),
        !text::has_substring(model, "o4"@),
        !text::has_substring(model, "gpt-5"@),
    ensures
        !openai::wants_responses_api(model),
{
    lemma_family_is_substring(model, "o1"@);
    lemma_family_is_substring(model, "o3"@);
    lemma_family_is_substring(model, "o4"@);
    lemma_family_is_substring(model, "gpt-5"@);
}

proof fn lemma_family_is_substring(model: Seq<char>, family: Seq<char>)
    ensures
        openai::has_family(model, family) ==> text::has_substring(model, family),
{
    if openai::has_family(model, family) {
        if model == family {
            assert(model.subrange(0, family.len() as int) =~= family);
            assert(text::occurs_at(model, family, 0));
        } else if family.push('-').is_prefix_of(model) || family.push('.').is_prefix_of(model) {
            assert(model.subrange(0, family.len() as int) =~= family);
            assert(text::occurs_at(model, family, 0));
        } else {
            let pattern = if text::has_substring(model, seq!['/'] + family) {
                seq!['/'] + family
            } else {
                seq![':'] + family
            };
            let i = choose|i: int| text::occurs_at(model, pattern, i);
            let found = model.subrange(i, i + pattern.len());
            assert(model.subrange(i + 1, i + 1 + family.len()) =~= found.skip(1));
            assert(found.skip(1) =~= family);
            assert(text::occurs_at(model, family, i + 1));
        }
    }
}

/// The case of ASCII letters does not matter to what an error reports.
pub proof fn law_reports_are_read_in_any_case(report: Seq<char>, other: Seq<char>)
    requires
        text::ascii_lower(report) == text::ascii_lower(other),
    ensures
        openai::reports_missing_api(report) == openai::reports_missing_api(other),
{
}

/// A request that the Responses API refuses goes to the Chat Completions API
/// exactly where the client was not told to use the Responses API and the
/// refusal says that it is not offered.
pub proof fn law_refused_request_falls_back(client: OpenAI, status: Seq<char>, body: Seq<char>)
    ensures
        ({
            let message = Api::Responses.status_message(status);
            let error = LLMErrorView::ResponseFormatError { message, raw_response: body };
            client.falls_back_after(error) <==> client.use_responses_api != Some(true)
                && openai::tells_of_missing_api(text::ascii_lower(message.push('\n') + body))
        }),
{
    let message = Api::Responses.status_message(status);
    let report = message.push('\n') + body;
    let lower = text::ascii_lower(report);
    reveal_strlit("OpenAI Responses API");
    reveal_strlit("responses api");
    assert(report.take(20) =~= "OpenAI Responses API"@);
    assert forall|i: int| 0 <= i < 13 implies lower[7 + i] == #[trigger] "responses api"@[i] by {
        assert(lower[7 + i] == text::ascii_lower_char(report.take(20)[7 + i]));
    }
    assert(lower.subrange(7, 20) =~= "responses api"@);
    assert(text::occurs_at(lower, "responses api"@, 7));
}

/// An answer that the client was chained to is what its next requests to the
/// Responses API continue: those for a conversation, for a web search and for
/// hosted tools.
pub proof fn law_chained_answer_is_continued<Message, Format>(
    client: OpenAI,
    answer: OpenAIResponsesResponse,
    messages: Seq<ChatMessage>,
    tools: Option<&[Tool]>,
    json_schema: Option<StructuredOutputFormat>,
    stream: bool,
    text: Seq<char>,
    hosted_tools: Seq<OpenAIToolView>,
)
    requires
        client.previous_response_id.deep_view() == answer.spec_response_id(),
    ensures
        client.spec_responses_request(messages, tools, json_schema, stream).previous_response_id
            == Some(answer.id@),
        client.spec_web_search_request(text).previous_response_id == Some(answer.id@),
        client.spec_hosted_tools_request::<Message, Format>(
            text,
            hosted_tools,
        ).previous_response_id == Some(answer.id@),
{
}

/// The calls that an answer asks for go back into the conversation, and their
/// results with them, under the ids, names and arguments that the answer gave
/// them.
pub proof fn law_tool_calls_keep_their_ids(
    answer: OpenAIResponsesResponse,
    calls: Vec<ToolCall>,
    text: String,
    result: String,
)
    requires
        answer.spec_tool_calls() == Some(calls.deep_view()),
    ensures
        input::message_items(
            ChatMessage {
                role: ChatRole::Assistant,
                message_type: MessageType::ToolUse(calls),
                content: text,
            },
        ) == response::output_tool_calls(answer.output@).map_values(
            |call: ToolCallView|
                InputItemView::FunctionCall {
                    call_id: call.id,
                    name: call.name,
                    arguments: call.arguments,
                },
        ),
        input::message_items(
            ChatMessage {
                role: ChatRole::Tool,
                message_type: MessageType::ToolResult(calls),
                content: result,
            },
        ) == response::output_tool_calls(answer.output@).map_values(
            |call: ToolCallView|
                InputItemView::FunctionCallOutput {
                    call_id: call.id,
                    output: if result@.len() == 0 {
                        call.arguments
                    } else {
                        result@
                    },
                },
        ),
{
}

/// Whether an answer is to arrive as a stream changes nothing else in a request
/// to the Responses API.
pub proof fn law_streaming_changes_only_the_stream_flag(
    client: OpenAI,
    messages: Seq<ChatMessage>,
    tools: Option<&[Tool]>,
    json_schema: Option<StructuredOutputFormat>,
)
    ensures
        client.spec_responses_request(messages, tools, json_schema, true) == (
        ResponsesRequestView {
            stream: true,
            ..client.spec_responses_request(messages, tools, json_schema, false)
        }),
{
}

/// A request that offers no tools asks for no choice of a tool; the streamed
/// request to the Chat Completions API is not among these.
pub proof fn law_no_choice_without_tools<Message, Format>(
    client: OpenAI,
    messages: Seq<ChatMessage>,
    chat_messages: Seq<Message>,
    tools: Option<&[Tool]>,
    json_schema: Option<StructuredOutputFormat>,
    response_format: Option<Format>,
    stream: bool,
)
    requires
        tools::given_tools(tools).len() == 0,
    ensures
        ({
            let body = client.spec_responses_request(messages, tools, json_schema, stream);
            body.tools is None && body.tool_choice is None
        }),
        ({
            let body = client.spec_chat_request(chat_messages, tools, response_format);
            body.tools is None && body.tool_choice is None
        }),
{
}

/// Of the chunks of a streamed answer, the starts, parts and ends are left out
/// in the form of the Chat Completions API, and nothing else is.
pub proof fn law_stream_form_leaves_out(chunk: ChunkView)
    ensures
        exchange::chunk_response(chunk) is None <==> (chunk matches Ok(piece) && (
        piece is ToolUseStart || piece is ToolUseInputDelta || piece is Done)),
{
}

/// A stream of texts is the same whether it is taken from the chunks or from
/// their form of the Chat Completions API.
pub proof fn law_texts_are_the_same_in_both_forms(chunk: ChunkView)
    ensures
        exchange::chunk_text(chunk) == (match exchange::chunk_response(chunk) {
            Some(response) => exchange::response_text(response),
            None => None,
        }),
{
}

/// The text in what a chunk adds to a stream of texts.
pub open spec fn delivered_text(chunk: ChunkView) -> Seq<char> {
    match exchange::chunk_text(chunk) {
        Some(Ok(text)) => text,
        _ => Seq::empty(),
    }
}

/// The texts in what the chunks add to a stream of texts, one after the other.
pub open spec fn delivered_texts(chunks: Seq<ChunkView>) -> Seq<char>
    decreases chunks.len(),
{
    if chunks.len() == 0 {
        Seq::empty()
    } else {
        delivered_texts(chunks.drop_last()) + delivered_text(chunks.last())
    }
}

/// A stream of texts delivers the whole text of the events and nothing else.
pub proof fn law_text_stream_is_complete(s: ParserState, events: Seq<TypedEvent>)
    ensures
        delivered_texts(stream_laws::run(s, events).1) == stream_laws::events_text(events),
{
    stream_laws::law_streamed_text_is_complete(s, events);
    lemma_delivered_texts(stream_laws::run(s, events).1);
}

proof fn lemma_delivered_texts(chunks: Seq<ChunkView>)
    ensures
        delivered_texts(chunks) == stream_laws::chunks_text(chunks),
    decreases chunks.len(),
{
    if chunks.len() > 0 {
        lemma_delivered_texts(chunks.drop_last());
        assert(delivered_text(chunks.last()) =~= stream_laws::chunk_text(chunks.last()));
    }
}

} // verus!
