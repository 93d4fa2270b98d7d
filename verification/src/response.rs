//! Answers: those of the Responses API and those of the hosted tools.
use vstd::prelude::*;

use crate::chat;
use crate::chat::{ChatResponse, FunctionCall, ToolCall, ToolCallView, Usage};
use crate::text;

verus! {

/// A part of a reasoning summary.
#[derive(Debug, Clone)]
pub struct ReasoningSummaryPart {
    pub part_type: Option<String>,
    pub text: Option<String>,
}

/// An annotation on output text, such as the citation of a web page or a file.
#[derive(Debug, Clone)]
pub struct Annotation {
    pub annotation_type: Option<String>,
    /// Where the annotated part of the text begins.
    pub start_index: Option<usize>,
    /// Where the annotated part of the text ends.
    pub end_index: Option<usize>,
    /// The address of a cited page.
    pub url: Option<String>,
    /// The title of a cited page.
    pub title: Option<String>,
    /// The id of a cited file.
    pub file_id: Option<String>,
}

/// A part of a message in an answer.
#[derive(Debug, Clone)]
pub enum OutputContentPart {
    Text { text: String, annotations: Vec<Annotation> },
    Refusal { refusal: String },
    Unknown,
}

/// An item of an answer. Items of a type that is not known yet are `Unknown`.
#[derive(Debug, Clone)]
pub enum OutputItem {
    Message { id: String, role: String, content: Vec<OutputContentPart> },
    FunctionCall { id: String, call_id: String, name: String, arguments: String },
    Reasoning { id: String, summary: Vec<ReasoningSummaryPart> },
    WebSearchCall { id: String, status: String },
    FileSearchCall { id: String, status: String },
    Unknown,
}

/// An answer of the Responses API.
#[derive(Debug)]
pub struct OpenAIResponsesResponse {
    pub id: String,
    pub status: String,
    pub output: Vec<OutputItem>,
    pub usage: Option<Usage>,
    pub model: Option<String>,
}

/// The text of a part: only text parts have one, a refusal is no text.
pub open spec fn part_text(part: OutputContentPart) -> Seq<char> {
    match part {
        OutputContentPart::Text { text, .. } => text@,
        _ => Seq::empty(),
    }
}

/// The texts of the parts, one behind the other.
pub open spec fn parts_text(parts: Seq<OutputContentPart>) -> Seq<char>
    decreases parts.len(),
{
    if parts.len() == 0 {
        Seq::empty()
    } else {
        parts_text(parts.drop_last()) + part_text(parts.last())
    }
}

/// The text of an item: that of its parts if it is a message.
pub open spec fn item_text(item: OutputItem) -> Seq<char> {
    match item {
        OutputItem::Message { content, .. } => parts_text(content@),
        _ => Seq::empty(),
    }
}

/// The texts of the items, one behind the other.
pub open spec fn output_text(items: Seq<OutputItem>) -> Seq<char>
    decreases items.len(),
{
    if items.len() == 0 {
        Seq::empty()
    } else {
        output_text(items.drop_last()) + item_text(items.last())
    }
}

/// The call of a tool that an item asks for.
pub open spec fn item_tool_calls(item: OutputItem) -> Seq<ToolCallView> {
    match item {
        OutputItem::FunctionCall { call_id, name, arguments, .. } => seq![
            ToolCallView {
                id: call_id@,
                call_type: "function"@,
                name: name@,
                arguments: arguments@,
            },
        ],
        _ => Seq::empty(),
    }
}

/// The calls of tools that the items ask for, in order.
pub open spec fn output_tool_calls(items: Seq<OutputItem>) -> Seq<ToolCallView>
    decreases items.len(),
{
    if items.len() == 0 {
        Seq::empty()
    } else {
        output_tool_calls(items.drop_last()) + item_tool_calls(items.last())
    }
}

/// `so_far` with the texts of the summary behind it, each on a line of its own.
pub open spec fn summary_text(so_far: Seq<char>, summary: Seq<ReasoningSummaryPart>) -> Seq<char>
    decreases summary.len(),
{
    if summary.len() == 0 {
        so_far
    } else {
        let before = summary_text(so_far, summary.drop_last());
        match summary.last().text {
            Some(t) => text::append_line(before, t@),
            None => before,
        }
    }
}

/// The texts of all reasoning summaries among the items, each on a line of its
/// own.
pub open spec fn output_thinking(items: Seq<OutputItem>) -> Seq<char>
    decreases items.len(),
{
    if items.len() == 0 {
        Seq::empty()
    } else {
        let before = output_thinking(items.drop_last());
        match items.last() {
            OutputItem::Reasoning { summary, .. } => summary_text(before, summary@),
            _ => before,
        }
    }
}

/// The text that stands for an answer without any.
pub open spec fn shown_text(answer: Option<Seq<char>>) -> Seq<char> {
    match answer {
        Some(text) => text,
        None => "No response content"@,
    }
}

/// Appends the texts of the parts.
fn push_parts_text(so_far: &mut String, parts: &Vec<OutputContentPart>)
    ensures
        final(so_far)@ == old(so_far)@ + parts_text(parts@),
{
    assert(old(so_far)@ + parts_text(parts@.take(0)) =~= old(so_far)@);
    for k in 0..parts.len()
        invariant
            so_far@ == old(so_far)@ + parts_text(parts@.take(k as int)),
    {
        assert(parts@.take(k + 1).drop_last() =~= parts@.take(k as int));
        assert(parts@.take(k + 1).last() == parts@[k as int]);
        if let OutputContentPart::Text { text, .. } = &parts[k] {
            so_far.append(text.as_str());
        }
        assert(so_far@ =~= old(so_far)@ + parts_text(parts@.take(k + 1)));
    }
    assert(parts@.take(parts@.len() as int) =~= parts@);
}

/// Appends the texts of a reasoning summary, each on a line of its own.
fn push_summary_text(so_far: &mut String, summary: &Vec<ReasoningSummaryPart>)
    ensures
        final(so_far)@ == summary_text(old(so_far)@, summary@),
{
    assert(summary_text(old(so_far)@, summary@.take(0)) == old(so_far)@);
    for k in 0..summary.len()
        invariant
            so_far@ == summary_text(old(so_far)@, summary@.take(k as int)),
    {
        assert(summary@.take(k + 1).drop_last() =~= summary@.take(k as int));
        assert(summary@.take(k + 1).last() == summary@[k as int]);
        if let Some(text) = &summary[k].text {
            let ghost before = so_far@;
            if !so_far.as_str().is_empty() {
                so_far.push('\n');
            }
            so_far.append(text.as_str());
            assert(so_far@ =~= text::append_line(before, text@));
        }
    }
    assert(summary@.take(summary@.len() as int) =~= summary@);
}

impl ChatResponse for OpenAIResponsesResponse {
    open spec fn spec_text(&self) -> Option<Seq<char>> {
        chat::none_if_empty(output_text(self.output@))
    }

    open spec fn spec_tool_calls(&self) -> Option<Seq<ToolCallView>> {
        chat::none_if_empty(output_tool_calls(self.output@))
    }

    open spec fn spec_thinking(&self) -> Option<Seq<char>> {
        chat::none_if_empty(output_thinking(self.output@))
    }

    open spec fn spec_usage(&self) -> Option<Usage> {
        self.usage
    }

    open spec fn spec_response_id(&self) -> Option<Seq<char>> {
        Some(self.id@)
    }

    fn text(&self) -> (r: Option<String>) {
        let mut text = String::new();
        assert(text@ =~= output_text(self.output@.take(0)));
        for k in 0..self.output.len()
            invariant
                text@ == output_text(self.output@.take(k as int)),
        {
            assert(self.output@.take(k + 1).drop_last() =~= self.output@.take(k as int));
            assert(self.output@.take(k + 1).last() == self.output@[k as int]);
            if let OutputItem::Message { content, .. } = &self.output[k] {
                push_parts_text(&mut text, content);
            }
            assert(text@ =~= output_text(self.output@.take(k + 1)));
        }
        assert(self.output@.take(self.output@.len() as int) =~= self.output@);
        if text.as_str().is_empty() {
            None
        } else {
            Some(text)
        }
    }

    fn tool_calls(&self) -> (r: Option<Vec<ToolCall>>) {
        let mut calls: Vec<ToolCall> = Vec::new();
        assert(calls.deep_view() =~= output_tool_calls(self.output@.take(0)));
        for k in 0..self.output.len()
            invariant
                calls.deep_view() == output_tool_calls(self.output@.take(k as int)),
        {
            let ghost before = calls.deep_view();
            assert(self.output@.take(k + 1).drop_last() =~= self.output@.take(k as int));
            assert(self.output@.take(k + 1).last() == self.output@[k as int]);
            if let OutputItem::FunctionCall { call_id, name, arguments, .. } = &self.output[k] {
                calls.push(
                    ToolCall {
                        id: call_id.clone(),
                        call_type: "function".to_string(),
                        function: FunctionCall {
                            name: name.clone(),
                            arguments: arguments.clone(),
                        },
                    },
                );
            }
            assert(calls.deep_view() =~= before + item_tool_calls(self.output@[k as int]));
        }
        assert(self.output@.take(self.output@.len() as int) =~= self.output@);
        if calls.is_empty() {
            None
        } else {
            Some(calls)
        }
    }

    fn thinking(&self) -> (r: Option<String>) {
        let mut thinking = String::new();
        assert(thinking@ =~= output_thinking(self.output@.take(0)));
        for k in 0..self.output.len()
            invariant
                thinking@ == output_thinking(self.output@.take(k as int)),
        {
            assert(self.output@.take(k + 1).drop_last() =~= self.output@.take(k as int));
            assert(self.output@.take(k + 1).last() == self.output@[k as int]);
            if let OutputItem::Reasoning { summary, .. } = &self.output[k] {
                push_summary_text(&mut thinking, summary);
            }
        }
        assert(self.output@.take(self.output@.len() as int) =~= self.output@);
        if thinking.as_str().is_empty() {
            None
        } else {
            Some(thinking)
        }
    }

    fn usage(&self) -> (r: Option<Usage>) {
        self.usage
    }

    fn response_id(&self) -> (r: Option<&str>) {
        Some(self.id.as_str())
    }
}

impl OpenAIResponsesResponse {
    /// The answer as it is shown: its text, or a remark that it has none.
    pub fn to_string(&self) -> (r: String)
        ensures
            r@ == shown_text(self.spec_text()),
    {
        match self.text() {
            Some(text) => text,
            None => "No response content".to_string(),
        }
    }
}

/// A part of the content of a hosted tool's output.
#[derive(Debug)]
pub struct OpenAIWebSearchContent {
    pub msg_type: String,
    pub text: String,
}

/// An output of a hosted tool.
#[derive(Debug)]
pub struct OpenAIWebSearchOutput {
    pub content: Option<Vec<OpenAIWebSearchContent>>,
    pub usage: Option<Usage>,
}

/// An answer that was made with a hosted tool, such as the web search.
#[derive(Debug)]
pub struct OpenAIWebSearchChatResponse {
    pub output: Vec<OpenAIWebSearchOutput>,
    pub usage: Option<Usage>,
}

impl ChatResponse for OpenAIWebSearchChatResponse {
    /// The text of the last part of the last output.
    open spec fn spec_text(&self) -> Option<Seq<char>> {
        if self.output@.len() == 0 {
            None
        } else {
            match self.output@.last().content {
                Some(content) => if content@.len() == 0 {
                    None
                } else {
                    Some(content@.last().text@)
                },
                None => None,
            }
        }
    }

    open spec fn spec_tool_calls(&self) -> Option<Seq<ToolCallView>> {
        None
    }

    open spec fn spec_thinking(&self) -> Option<Seq<char>> {
        None
    }

    open spec fn spec_usage(&self) -> Option<Usage> {
        self.usage
    }

    open spec fn spec_response_id(&self) -> Option<Seq<char>> {
        None
    }

    fn text(&self) -> (r: Option<String>) {
        if self.output.len() == 0 {
            return None;
        }
        match &self.output[self.output.len() - 1].content {
            Some(content) => if content.len() == 0 {
                None
            } else {
                Some(content[content.len() - 1].text.clone())
            },
            None => None,
        }
    }

    fn tool_calls(&self) -> (r: Option<Vec<ToolCall>>) {
        None
    }

    fn thinking(&self) -> (r: Option<String>) {
        None
    }

    fn usage(&self) -> (r: Option<Usage>) {
        self.usage
    }

    fn response_id(&self) -> (r: Option<&str>) {
        None
    }
}

impl OpenAIWebSearchChatResponse {
    /// The answer as it is shown: its text, or a remark that it has none.
    pub fn to_string(&self) -> (r: String)
        ensures
            r@ == shown_text(self.spec_text()),
    {
        match self.text() {
            Some(text) => text,
            None => "No response content".to_string(),
        }
    }
}

/// The items without those of an unknown type.
pub open spec fn known_items(items: Seq<OutputItem>) -> Seq<OutputItem>
    decreases items.len(),
{
    if items.len() == 0 {
        Seq::empty()
    } else {
        let before = known_items(items.drop_last());
        if items.last() is Unknown {
            before
        } else {
            before.push(items.last())
        }
    }
}

/// Items of an unknown type change nothing: the text, the calls and the
/// reasoning of an answer are those of the other items.
pub proof fn law_unknown_items_are_ignored(items: Seq<OutputItem>)
    ensures
        output_text(items) == output_text(known_items(items)),
        output_tool_calls(items) == output_tool_calls(known_items(items)),
        output_thinking(items) == output_thinking(known_items(items)),
    decreases items.len(),
{
    if items.len() > 0 {
        law_unknown_items_are_ignored(items.drop_last());
        let before = known_items(items.drop_last());
        if items.last() is Unknown {
            assert(output_text(items.drop_last()) + Seq::<char>::empty() =~= output_text(
                items.drop_last(),
            ));
            assert(output_tool_calls(items.drop_last()) + Seq::<ToolCallView>::empty()
                =~= output_tool_calls(items.drop_last()));
        } else {
            assert(before.push(items.last()).drop_last() =~= before);
        }
    }
}

/// The parts that are text.
pub open spec fn text_parts(parts: Seq<OutputContentPart>) -> Seq<OutputContentPart>
    decreases parts.len(),
{
    if parts.len() == 0 {
        Seq::empty()
    } else {
        let before = text_parts(parts.drop_last());
        if parts.last() is Text {
            before.push(parts.last())
        } else {
            before
        }
    }
}

/// Refusals and parts of an unknown type are no text: the text of a message is
/// that of its text parts alone.
pub proof fn law_refusals_are_no_text(parts: Seq<OutputContentPart>)
    ensures
        parts_text(parts) == parts_text(text_parts(parts)),
    decreases parts.len(),
{
    if parts.len() > 0 {
        law_refusals_are_no_text(parts.drop_last());
        let before = text_parts(parts.drop_last());
        if parts.last() is Text {
            assert(before.push(parts.last()).drop_last() =~= before);
        } else {
            assert(parts_text(parts.drop_last()) + Seq::<char>::empty() =~= parts_text(
                parts.drop_last(),
            ));
        }
    }
}

} // verus!
