//! A conversation as the input of the Responses API.
use vstd::prelude::*;

use crate::base64_text;
use crate::chat::{ChatMessage, ChatRole, ImageMime, MessageType, ToolCall};
use crate::openai::OpenAI;
use crate::request::{
    ContentPart, ContentPartView, ImageSource, InputItem, InputItemView, MessageContent,
    MessageContentView,
};

verus! {

/// The content of a message that shows an image: the text, unless there is
/// none, and the image.
pub open spec fn content_with_image(
    text: Seq<char>,
    image: ContentPartView,
) -> MessageContentView {
    MessageContentView::Parts(
        if text.len() == 0 {
            seq![image]
        } else {
            seq![ContentPartView::InputText { text }, image]
        },
    )
}

/// The content of a message of the user.
pub open spec fn user_content(message: ChatMessage) -> MessageContentView {
    match message.message_type {
        MessageType::Image((mime, data)) => content_with_image(
            message.content@,
            ContentPartView::ImageBase64 {
                data: base64_text::encoded(data@),
                media_type: mime.media_type(),
            },
        ),
        MessageType::ImageURL(url) => content_with_image(
            message.content@,
            ContentPartView::ImageUrl { url: url@ },
        ),
        _ => MessageContentView::Text(message.content@),
    }
}

/// The item that stands for a call of a tool.
pub open spec fn call_item(call: ToolCall) -> InputItemView {
    InputItemView::FunctionCall {
        call_id: call.id@,
        name: call.function.name@,
        arguments: call.function.arguments@,
    }
}

/// The item that stands for the result of a call: the text of the message, or
/// the arguments of the call where the message has no text.
pub open spec fn result_item(call: ToolCall, text: Seq<char>) -> InputItemView {
    InputItemView::FunctionCallOutput {
        call_id: call.id@,
        output: if text.len() == 0 {
            call.function.arguments@
        } else {
            text
        },
    }
}

/// The items that a message becomes.
pub open spec fn message_items(message: ChatMessage) -> Seq<InputItemView> {
    match message.role {
        ChatRole::System => Seq::empty(),
        ChatRole::User => seq![
            InputItemView::Message { role: "user"@, content: user_content(message) },
        ],
        ChatRole::Assistant => match message.message_type {
            MessageType::ToolUse(calls) => calls@.map_values(|call: ToolCall| call_item(call)),
            _ => seq![
                InputItemView::Message {
                    role: "assistant"@,
                    content: MessageContentView::Text(message.content@),
                },
            ],
        },
        ChatRole::Tool => match message.message_type {
            MessageType::ToolResult(calls) => calls@.map_values(
                |call: ToolCall| result_item(call, message.content@),
            ),
            _ => Seq::empty(),
        },
    }
}

/// The items that a conversation becomes.
pub open spec fn input_items(messages: Seq<ChatMessage>) -> Seq<InputItemView>
    decreases messages.len(),
{
    if messages.len() == 0 {
        Seq::empty()
    } else {
        input_items(messages.drop_last()) + message_items(messages.last())
    }
}

/// The instructions of a conversation: the text of its last system message.
pub open spec fn instructions(messages: Seq<ChatMessage>) -> Option<Seq<char>>
    decreases messages.len(),
{
    if messages.len() == 0 {
        None
    } else if messages.last().role is System {
        Some(messages.last().content@)
    } else {
        instructions(messages.drop_last())
    }
}

/// Whether the image of the message, if it has one to send, is small enough to
/// be written as text.
pub open spec fn image_fits(message: ChatMessage) -> bool {
    match message.message_type {
        MessageType::Image((_, data)) => message.role is User ==> base64_text::encoded_len(
            data@.len(),
        ) <= isize::MAX,
        _ => true,
    }
}

/// Whether each image that the messages send is small enough.
pub open spec fn images_fit(messages: Seq<ChatMessage>) -> bool {
    forall|i: int| 0 <= i < messages.len() ==> image_fits(#[trigger] messages[i])
}

/// The text, unless there is none, and the image.
fn with_image(text: &String, image: ContentPart) -> (r: MessageContent)
    ensures
        r.deep_view() == content_with_image(text@, image.deep_view()),
{
    let mut parts: Vec<ContentPart> = Vec::new();
    if !text.as_str().is_empty() {
        parts.push(ContentPart::InputText { text: text.clone() });
    }
    parts.push(image);
    assert(parts.deep_view() =~= content_with_image(text@, image.deep_view())->Parts_0);
    MessageContent::Parts(parts)
}

impl OpenAI {
    /// The content of a message that shows an image whose bytes are given in
    /// Base64.
    pub fn base64_image_content(text: &String, mime: ImageMime, data: String) -> (r: MessageContent)
        ensures
            r.deep_view() == content_with_image(
                text@,
                ContentPartView::ImageBase64 { data: data@, media_type: mime.media_type() },
            ),
    {
        with_image(
            text,
            ContentPart::InputImage {
                source: ImageSource::Base64 { data, media_type: mime.mime_type().to_string() },
            },
        )
    }

    /// Whether each image that the messages send is small enough to be written
    /// as text.
    pub fn can_send_images(messages: &[ChatMessage]) -> (r: bool)
        ensures
            r == images_fit(messages@),
    {
        for i in 0..messages.len()
            invariant
                forall|j: int| 0 <= j < i ==> image_fits(#[trigger] messages@[j]),
        {
            if let MessageType::Image((_, data)) = &messages[i].message_type {
                let longest: usize = isize::MAX as usize / 4 * 3;
                if let ChatRole::User = messages[i].role {
                    if data.len() > longest {
                        assert(!image_fits(messages@[i as int]));
                        return false;
                    }
                }
            }
        }
        true
    }

    /// A conversation as the input of the Responses API: the instructions, which
    /// are the text of the last system message, and the items that the other
    /// messages become.
    pub fn prepare_responses_input(&self, messages: &[ChatMessage]) -> (r: (
        Option<String>,
        Vec<InputItem>,
    ))
        requires
            images_fit(messages@),
        ensures
            r.0.deep_view() == instructions(messages@),
            r.1.deep_view() == input_items(messages@),
    {
        let mut found: Option<String> = None;
        let mut items: Vec<InputItem> = Vec::new();
        assert(messages@.take(0) =~= Seq::<ChatMessage>::empty());
        for i in 0..messages.len()
            invariant
                images_fit(messages@),
                found.deep_view() == instructions(messages@.take(i as int)),
                items.deep_view() == input_items(messages@.take(i as int)),
        {
            let message = &messages[i];
            proof {
                let upto = messages@.take(i + 1);
                assert(upto.drop_last() =~= messages@.take(i as int));
                assert(upto.last() == *message);
            }
            match message.role {
                ChatRole::System => {
                    found = Some(message.content.clone());
                },
                ChatRole::User => {
                    let content = match &message.message_type {
                        MessageType::Image((mime, data)) => Self::base64_image_content(
                            &message.content,
                            *mime,
                            base64_text::encode(data),
                        ),
                        MessageType::ImageURL(url) => with_image(
                            &message.content,
                            ContentPart::InputImage { source: ImageSource::Url { url: url.clone() } },
                        ),
                        _ => MessageContent::Text(message.content.clone()),
                    };
                    items.push(InputItem::Message { role: "user".to_string(), content });
                },
                ChatRole::Assistant => {
                    if let MessageType::ToolUse(calls) = &message.message_type {
                        push_calls(&mut items, calls);
                    } else {
                        items.push(
                            InputItem::Message {
                                role: "assistant".to_string(),
                                content: MessageContent::Text(message.content.clone()),
                            },
                        );
                    }
                },
                ChatRole::Tool => {
                    if let MessageType::ToolResult(calls) = &message.message_type {
                        push_results(&mut items, calls, &message.content);
                    }
                },
            }
            assert(items.deep_view() =~= input_items(messages@.take(i as int)) + message_items(
                *message,
            ));
        }
        assert(messages@.take(messages@.len() as int) =~= messages@);
        (found, items)
    }
}

/// Adds the items that stand for the calls.
fn push_calls(items: &mut Vec<InputItem>, calls: &Vec<ToolCall>)
    ensures
        final(items).deep_view() == old(items).deep_view() + calls@.map_values(
            |call: ToolCall| call_item(call),
        ),
{
    let ghost before = items.deep_view();
    let ghost all = calls@.map_values(|call: ToolCall| call_item(call));
    for k in 0..calls.len()
        invariant
            all == calls@.map_values(|call: ToolCall| call_item(call)),
            items.deep_view() =~= before + all.take(k as int),
    {
        let call = &calls[k];
        let ghost so_far = items.deep_view();
        items.push(
            InputItem::FunctionCall {
                call_id: call.id.clone(),
                name: call.function.name.clone(),
                arguments: call.function.arguments.clone(),
            },
        );
        assert(items.deep_view() =~= so_far.push(call_item(*call)));
        assert(all.take(k + 1) =~= all.take(k as int).push(call_item(*call)));
    }
    assert(all.take(calls@.len() as int) =~= all);
}

/// Adds the items that stand for the results of the calls.
fn push_results(items: &mut Vec<InputItem>, calls: &Vec<ToolCall>, text: &String)
    ensures
        final(items).deep_view() == old(items).deep_view() + calls@.map_values(
            |call: ToolCall| result_item(call, text@),
        ),
{
    let ghost before = items.deep_view();
    let ghost all = calls@.map_values(|call: ToolCall| result_item(call, text@));
    for k in 0..calls.len()
        invariant
            all == calls@.map_values(|call: ToolCall| result_item(call, text@)),
            items.deep_view() =~= before + all.take(k as int),
    {
        let call = &calls[k];
        let ghost so_far = items.deep_view();
        items.push(
            InputItem::FunctionCallOutput {
                call_id: call.id.clone(),
                output: if !text.as_str().is_empty() {
                    text.clone()
                } else {
                    call.function.arguments.clone()
                },
            },
        );
        assert(items.deep_view() =~= so_far.push(result_item(*call, text@)));
        assert(all.take(k + 1) =~= all.take(k as int).push(result_item(*call, text@)));
    }
    assert(all.take(calls@.len() as int) =~= all);
}

/// The input of two conversations in a row is the input of the first and that of
/// the second: the items follow each other, and the later instructions win.
pub proof fn law_input_of_two_conversations(first: Seq<ChatMessage>, second: Seq<ChatMessage>)
    ensures
        input_items(first + second) == input_items(first) + input_items(second),
        instructions(first + second) == (match instructions(second) {
            Some(text) => Some(text),
            None => instructions(first),
        }),
    decreases second.len(),
{
    if second.len() == 0 {
        assert(first + second =~= first);
        assert(input_items(first) + input_items(second) =~= input_items(first));
    } else {
        let both = first + second;
        assert(both.drop_last() =~= first + second.drop_last());
        assert(both.last() == second.last());
        law_input_of_two_conversations(first, second.drop_last());
        assert(input_items(first) + (input_items(second.drop_last()) + message_items(second.last()))
            =~= (input_items(first) + input_items(second.drop_last())) + message_items(
            second.last(),
        ));
    }
}

/// The messages that are not from the system.
pub open spec fn without_system(messages: Seq<ChatMessage>) -> Seq<ChatMessage>
    decreases messages.len(),
{
    if messages.len() == 0 {
        Seq::empty()
    } else {
        let before = without_system(messages.drop_last());
        if messages.last().role is System {
            before
        } else {
            before.push(messages.last())
        }
    }
}

/// System messages become instructions and nothing else: the items are those of
/// the other messages, which in turn give no instructions; and there are
/// instructions exactly where there is a system message.
pub proof fn law_system_messages_are_instructions(messages: Seq<ChatMessage>)
    ensures
        input_items(messages) == input_items(without_system(messages)),
        instructions(without_system(messages)) is None,
        instructions(messages) is Some <==> exists|i: int|
            0 <= i < messages.len() && (#[trigger] messages[i]).role is System,
    decreases messages.len(),
{
    if messages.len() > 0 {
        let before = messages.drop_last();
        law_system_messages_are_instructions(before);
        if messages.last().role is System {
            assert(input_items(before) + message_items(messages.last()) =~= input_items(before));
            assert(messages[messages.len() - 1].role is System);
        } else {
            assert(without_system(messages).drop_last() =~= without_system(before));
            if instructions(messages) is Some {
                let i = choose|i: int|
                    0 <= i < before.len() && (#[trigger] before[i]).role is System;
                assert(messages[i].role is System);
            }
            if exists|i: int| 0 <= i < messages.len() && (#[trigger] messages[i]).role is System {
                let i = choose|i: int|
                    0 <= i < messages.len() && (#[trigger] messages[i]).role is System;
                assert(before[i].role is System);
            }
        }
    }
}

} // verus!
