//! What reading an answer promises, over the answer and what is read from it.
use vstd::prelude::*;

use crate::chat::{ChatResponse, ToolCall, Usage};
use crate::response;
use crate::response::{
    OpenAIResponsesResponse, OpenAIWebSearchChatResponse, OutputContentPart, OutputItem,
    ReasoningSummaryPart,
};

verus! {

/// The text, and the empty text where there is none.
pub open spec fn text_read(text: Option<String>) -> Seq<char> {
    match text {
        Some(text) => text@,
        None => Seq::empty(),
    }
}

/// An answer without items has no text, no calls and no reasoning; and what an answer
/// gives is never empty.
pub proof fn law_nothing_is_read_from_nothing(
    answer: OpenAIResponsesResponse,
    text: Option<String>,
    calls: Option<Vec<ToolCall>>,
    thinking: Option<String>,
)
    requires
        call_ensures(OpenAIResponsesResponse::text, (&answer,), text),
        call_ensures(OpenAIResponsesResponse::tool_calls, (&answer,), calls),
        call_ensures(OpenAIResponsesResponse::thinking, (&answer,), thinking),
    ensures
        answer.output@.len() == 0 ==> text is None && calls is None && thinking is None,
        text matches Some(found) ==> found@.len() > 0,
        calls matches Some(found) ==> found@.len() > 0,
        thinking matches Some(found) ==> found@.len() > 0,
{
    if let Some(found) = calls {
        assert(found.deep_view().len() == found@.len());
    }
}

/// An item that is no message, or a message without parts, adds nothing to the text
/// of an answer.
pub proof fn law_only_messages_have_text(
    answer: OpenAIResponsesResponse,
    longer: OpenAIResponsesResponse,
    item: OutputItem,
    text: Option<String>,
    longer_text: Option<String>,
)
    requires
        call_ensures(OpenAIResponsesResponse::text, (&answer,), text),
        call_ensures(OpenAIResponsesResponse::text, (&longer,), longer_text),
        longer.output@ == answer.output@.push(item),
        item matches OutputItem::Message { content, .. } ==> content@.len() == 0,
    ensures
        text_read(longer_text) == text_read(text),
{
    assert(longer.output@.drop_last() =~= answer.output@);
    let items = answer.output@;
    assert(response::output_text(items) + Seq::<char>::empty() =~= response::output_text(items));
}

/// One more part at the end of the last message adds its text at the end of the text
/// of the answer where it is a text, and nothing where it is a refusal or unknown.
pub proof fn law_text_grows_part_by_part(
    items: Seq<OutputItem>,
    answer: OpenAIResponsesResponse,
    longer: OpenAIResponsesResponse,
    part: OutputContentPart,
    text: Option<String>,
    longer_text: Option<String>,
)
    requires
        call_ensures(OpenAIResponsesResponse::text, (&answer,), text),
        call_ensures(OpenAIResponsesResponse::text, (&longer,), longer_text),
        answer.output@.len() == items.len() + 1,
        longer.output@.len() == items.len() + 1,
        answer.output@.drop_last() == items,
        longer.output@.drop_last() == items,
        answer.output@.last() is Message,
        longer.output@.last() is Message,
        longer.output@.last()->content@ == answer.output@.last()->content@.push(part),
    ensures
        text_read(longer_text) == text_read(text) + match part {
            OutputContentPart::Text { text: more, .. } => more@,
            OutputContentPart::Refusal { .. } => Seq::empty(),
            OutputContentPart::Unknown => Seq::empty(),
        },
{
    let short = answer.output@.last()->content@;
    let long = longer.output@.last()->content@;
    assert(long.drop_last() =~= short);
    assert(text_read(longer_text) =~= response::output_text(items) + response::parts_text(long));
    assert(text_read(text) =~= response::output_text(items) + response::parts_text(short));
}

/// The text of two answers in a row is the text of the first and then that of the
/// second.
pub proof fn law_text_of_two_answers(
    first: OpenAIResponsesResponse,
    second: OpenAIResponsesResponse,
    both: OpenAIResponsesResponse,
    first_text: Option<String>,
    second_text: Option<String>,
    both_text: Option<String>,
)
    requires
        call_ensures(OpenAIResponsesResponse::text, (&first,), first_text),
        call_ensures(OpenAIResponsesResponse::text, (&second,), second_text),
        call_ensures(OpenAIResponsesResponse::text, (&both,), both_text),
        both.output@ == first.output@ + second.output@,
    ensures
        text_read(both_text) == text_read(first_text) + text_read(second_text),
{
    lemma_output_text_add(first.output@, second.output@);
    assert(text_read(both_text) =~= response::output_text(both.output@));
    assert(text_read(first_text) =~= response::output_text(first.output@));
    assert(text_read(second_text) =~= response::output_text(second.output@));
}

proof fn lemma_output_text_add(a: Seq<OutputItem>, b: Seq<OutputItem>)
    ensures
        response::output_text(a + b) == response::output_text(a) + response::output_text(b),
    decreases b.len(),
{
    if b.len() == 0 {
        assert(a + b =~= a);
        assert(response::output_text(a) + response::output_text(b) =~= response::output_text(a));
    } else {
        assert((a + b).drop_last() =~= a + b.drop_last());
        lemma_output_text_add(a, b.drop_last());
        assert(response::output_text(a + b) =~= response::output_text(a) + response::output_text(b));
    }
}

/// The items that ask for a call of a function.
pub open spec fn asking_items(items: Seq<OutputItem>) -> Seq<OutputItem> {
    items.filter(|item: OutputItem| item is FunctionCall)
}

/// The calls of an answer are one for each item that asks for one, in order, with the
/// id, the name and the arguments of that item.
pub proof fn law_each_call_is_read(
    answer: OpenAIResponsesResponse,
    calls: Option<Vec<ToolCall>>,
    i: int,
)
    requires
        call_ensures(OpenAIResponsesResponse::tool_calls, (&answer,), calls),
    ensures
        calls is None <==> asking_items(answer.output@).len() == 0,
        calls matches Some(found) ==> found@.len() == asking_items(answer.output@).len(),
        calls is Some && 0 <= i < calls->0@.len() ==> {
            let call = calls->0@[i];
            &&& asking_items(answer.output@)[i] matches OutputItem::FunctionCall {
                call_id,
                name,
                arguments,
                ..
            }
            &&& call.id@ == call_id@
            &&& call.call_type@ == "function"@
            &&& call.function.name@ == name@
            &&& call.function.arguments@ == arguments@
        },
{
    lemma_calls_of_asking_items(answer.output@);
    if let Some(found) = calls {
        assert(found.deep_view().len() == found@.len());
        if 0 <= i < found@.len() {
            assert(found.deep_view()[i] == found@[i].deep_view());
        }
    }
}

proof fn lemma_calls_of_asking_items(items: Seq<OutputItem>)
    ensures
        response::output_tool_calls(items).len() == asking_items(items).len(),
        forall|i: int| #![trigger response::output_tool_calls(items)[i]]
            0 <= i < asking_items(items).len() ==> {
                let call = response::output_tool_calls(items)[i];
                &&& asking_items(items)[i] matches OutputItem::FunctionCall {
                    call_id,
                    name,
                    arguments,
                    ..
                }
                &&& call.id == call_id@
                &&& call.call_type == "function"@
                &&& call.name == name@
                &&& call.arguments == arguments@
            },
    decreases items.len(),
{
    reveal(Seq::filter);
    if items.len() > 0 {
        lemma_calls_of_asking_items(items.drop_last());
    }
}

/// An item that is no reasoning, or reasoning without parts, adds nothing to the
/// reasoning of an answer.
pub proof fn law_only_reasoning_is_thinking(
    answer: OpenAIResponsesResponse,
    longer: OpenAIResponsesResponse,
    item: OutputItem,
    thinking: Option<String>,
    longer_thinking: Option<String>,
)
    requires
        call_ensures(OpenAIResponsesResponse::thinking, (&answer,), thinking),
        call_ensures(OpenAIResponsesResponse::thinking, (&longer,), longer_thinking),
        longer.output@ == answer.output@.push(item),
        item matches OutputItem::Reasoning { summary, .. } ==> summary@.len() == 0,
    ensures
        text_read(longer_thinking) == text_read(thinking),
{
    assert(longer.output@.drop_last() =~= answer.output@);
}

/// One more part at the end of the last reasoning adds its text, if it has one, at the
/// end of the reasoning of the answer: on a new line, or alone where nothing came
/// before.
pub proof fn law_thinking_grows_part_by_part(
    items: Seq<OutputItem>,
    answer: OpenAIResponsesResponse,
    longer: OpenAIResponsesResponse,
    part: ReasoningSummaryPart,
    thinking: Option<String>,
    longer_thinking: Option<String>,
)
    requires
        call_ensures(OpenAIResponsesResponse::thinking, (&answer,), thinking),
        call_ensures(OpenAIResponsesResponse::thinking, (&longer,), longer_thinking),
        answer.output@.len() == items.len() + 1,
        longer.output@.len() == items.len() + 1,
        answer.output@.drop_last() == items,
        longer.output@.drop_last() == items,
        answer.output@.last() is Reasoning,
        longer.output@.last() is Reasoning,
        longer.output@.last()->summary@ == answer.output@.last()->summary@.push(part),
    ensures
        text_read(longer_thinking) == match part.text {
            Some(more) => if text_read(thinking).len() == 0 {
                more@
            } else {
                text_read(thinking) + seq!['\n'] + more@
            },
            None => text_read(thinking),
        },
{
    let short = answer.output@.last()->summary@;
    let long = longer.output@.last()->summary@;
    assert(long.drop_last() =~= short);
    let before = response::output_thinking(items);
    assert(text_read(thinking) =~= response::summary_text(before, short));
    assert(text_read(longer_thinking) =~= response::summary_text(before, long));
    if let Some(more) = part.text {
        assert(text_read(thinking).push('\n') + more@ =~= text_read(thinking) + seq!['\n']
            + more@);
    }
}

/// An answer tells its own usage and its own id, and is shown by its text, or by a
/// remark that it has none.
pub proof fn law_answer_tells_usage_and_id(
    answer: OpenAIResponsesResponse,
    usage: Option<Usage>,
    id: Option<&str>,
    text: Option<String>,
    shown: String,
)
    requires
        call_ensures(OpenAIResponsesResponse::usage, (&answer,), usage),
        call_ensures(OpenAIResponsesResponse::response_id, (&answer,), id),
        call_ensures(OpenAIResponsesResponse::text, (&answer,), text),
        call_ensures(OpenAIResponsesResponse::to_string, (&answer,), shown),
    ensures
        usage == answer.usage,
        id matches Some(told) && told@ == answer.id@,
        shown@ == match text {
            Some(text) => text@,
            None => "No response content"@,
        },
{
}

/// An answer of a hosted tool gives the text of the last part of its last output, and
/// its own usage; it has no calls, no reasoning and no id.
pub proof fn law_hosted_answer_is_its_last_text(
    answer: OpenAIWebSearchChatResponse,
    text: Option<String>,
    calls: Option<Vec<ToolCall>>,
    thinking: Option<String>,
    usage: Option<Usage>,
    id: Option<&str>,
    shown: String,
)
    requires
        call_ensures(OpenAIWebSearchChatResponse::text, (&answer,), text),
        call_ensures(OpenAIWebSearchChatResponse::tool_calls, (&answer,), calls),
        call_ensures(OpenAIWebSearchChatResponse::thinking, (&answer,), thinking),
        call_ensures(OpenAIWebSearchChatResponse::usage, (&answer,), usage),
        call_ensures(OpenAIWebSearchChatResponse::response_id, (&answer,), id),
        call_ensures(OpenAIWebSearchChatResponse::to_string, (&answer,), shown),
    ensures
        text is Some <==> {
            &&& answer.output@.len() > 0
            &&& answer.output@[answer.output@.len() - 1].content matches Some(content)
            &&& content@.len() > 0
        },
        text matches Some(found) ==> {
            let content = answer.output@[answer.output@.len() - 1].content->0;
            found@ == content@[content@.len() - 1].text@
        },
        calls is None,
        thinking is None,
        usage == answer.usage,
        id is None,
        shown@ == match text {
            Some(text) => text@,
            None => "No response content"@,
        },
{
}

} // verus!
