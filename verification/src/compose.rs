//! The bodies of the requests: what the client sends for a conversation.
use vstd::prelude::*;

use crate::chat::{ChatMessage, ChatRole, MessageType, StructuredOutputFormat, Tool};
use crate::error::{LLMError, LLMErrorView};
use crate::input;
use crate::json;
use crate::openai;
use crate::openai::{copy_text, OpenAI};
use crate::request;
use crate::request::{
    ChatRequestView, InputItemView, MessageContentView, OpenAIAPIChatRequest,
    OpenAIEmbeddingRequest, OpenAIResponsesRequest, OpenAIStreamOptions, OpenAITool,
    OpenAIToolView, ReasoningView, ResponsesInput, ResponsesInputView, ResponsesReasoningConfig,
    ResponsesRequestView, ResponsesTextFormat, TextFormatView,
};
use crate::tools;

verus! {

/// Whether the structure that is asked for, if there is one, can be asked for.
pub open spec fn usable_structure(format: Option<StructuredOutputFormat>) -> bool {
    match format {
        Some(format) => request::has_usable_schema(format),
        None => true,
    }
}

/// The text format that asks for the structure, if there is one.
pub open spec fn structure_format(format: Option<StructuredOutputFormat>) -> Option<
    TextFormatView,
> {
    match format {
        Some(format) => Some(request::text_format(format)),
        None => None,
    }
}

/// The item that a text of the user becomes.
pub open spec fn user_text_item(text: Seq<char>) -> InputItemView {
    InputItemView::Message { role: "user"@, content: MessageContentView::Text(text) }
}

impl OpenAI {
    /// The reasoning that is asked for: the effort that the client is set to, if
    /// it is, with a summary.
    pub open spec fn reasoning(&self) -> Option<ReasoningView> {
        match self.provider.reasoning_effort {
            Some(effort) => Some(
                ReasoningView { effort: Some(effort@), summary: Some("auto"@) },
            ),
            None => None,
        }
    }

    /// The body of a request to the Responses API with the given input and the
    /// client's settings.
    pub open spec fn responses_body(
        &self,
        instructions: Option<Seq<char>>,
        items: Seq<InputItemView>,
        tools: Option<Seq<OpenAIToolView>>,
        text: Option<TextFormatView>,
        stream: bool,
    ) -> ResponsesRequestView {
        ResponsesRequestView {
            model: self.provider.model@,
            input: ResponsesInputView::Items(items),
            instructions,
            tools,
            tool_choice: self.tool_choice_for(tools),
            temperature: self.provider.temperature,
            top_p: self.provider.top_p,
            max_output_tokens: self.provider.max_tokens,
            previous_response_id: self.previous_response_id.deep_view(),
            reasoning: self.reasoning(),
            text,
            stream,
            extra_body: self.provider.extra_body,
        }
    }

    /// The body of the request to the Responses API that continues a
    /// conversation.
    pub open spec fn spec_responses_request(
        &self,
        messages: Seq<ChatMessage>,
        tools: Option<&[Tool]>,
        json_schema: Option<StructuredOutputFormat>,
        stream: bool,
    ) -> ResponsesRequestView {
        self.responses_body(
            input::instructions(messages),
            input::input_items(messages),
            tools::responses_function_tools(tools),
            structure_format(json_schema),
            stream,
        )
    }

    /// The body of the request to the Responses API that looks something up on
    /// the web. The choice of a tool is left to the model.
    pub open spec fn spec_web_search_request(&self, text: Seq<char>) -> ResponsesRequestView {
        ResponsesRequestView {
            tool_choice: None,
            ..self.responses_body(
                None,
                seq![user_text_item(text)],
                Some(seq![self.web_search_tool()]),
                None,
                false,
            )
        }
    }

    /// The body of the request to the Chat Completions API that continues a
    /// conversation.
    pub open spec fn spec_chat_request<Message, Format>(
        &self,
        messages: Seq<Message>,
        tools: Option<&[Tool]>,
        response_format: Option<Format>,
    ) -> ChatRequestView<Message, Format> {
        ChatRequestView {
            model: self.provider.model@,
            messages,
            input: None,
            max_completion_tokens: self.provider.max_tokens,
            max_output_tokens: None,
            temperature: self.provider.temperature,
            stream: false,
            top_p: self.provider.top_p,
            top_k: self.provider.top_k,
            tools: tools::function_tools(tools),
            tool_choice: self.tool_choice_for(tools::function_tools(tools)),
            reasoning_effort: self.provider.reasoning_effort.deep_view(),
            response_format,
            stream_options: None,
            previous_response_id: None,
            extra_body: self.provider.extra_body,
        }
    }

    /// The body of the request to the Chat Completions API whose answer is to
    /// arrive as a stream. It asks for the usage, and for the choice of a tool
    /// whether or not there are tools.
    pub open spec fn spec_chat_stream_request<Message, Format>(
        &self,
        messages: Seq<Message>,
        tools: Option<&[Tool]>,
        response_format: Option<Format>,
    ) -> ChatRequestView<Message, Format> {
        ChatRequestView {
            stream: true,
            tool_choice: self.provider.tool_choice,
            stream_options: Some(OpenAIStreamOptions { include_usage: true }),
            ..self.spec_chat_request(messages, tools, response_format)
        }
    }

    /// The body of the request that has hosted tools work on a text. It goes to
    /// the Responses API, so it continues the answer that the client was chained
    /// to.
    pub open spec fn spec_hosted_tools_request<Message, Format>(
        &self,
        text: Seq<char>,
        hosted_tools: Seq<OpenAIToolView>,
    ) -> ChatRequestView<Message, Format> {
        ChatRequestView {
            model: self.provider.model@,
            messages: Seq::empty(),
            input: Some(text),
            max_completion_tokens: None,
            max_output_tokens: self.provider.max_tokens,
            temperature: self.provider.temperature,
            stream: false,
            top_p: self.provider.top_p,
            top_k: self.provider.top_k,
            tools: Some(hosted_tools),
            tool_choice: self.provider.tool_choice,
            reasoning_effort: self.provider.reasoning_effort.deep_view(),
            response_format: None,
            stream_options: None,
            previous_response_id: self.previous_response_id.deep_view(),
            extra_body: self.provider.extra_body,
        }
    }

    /// The reasoning that is asked for.
    fn reasoning_config(&self) -> (r: Option<ResponsesReasoningConfig>)
        ensures
            r.deep_view() == self.reasoning(),
    {
        match &self.provider.reasoning_effort {
            Some(effort) => Some(
                ResponsesReasoningConfig {
                    effort: Some(effort.clone()),
                    summary: Some("auto".to_string()),
                },
            ),
            None => None,
        }
    }

    /// Whether the conversation can be sent to the Responses API: each image is
    /// small enough to be written as text, and the schema of the structure that
    /// is asked for, if there is one, is an object or `null`.
    pub fn can_send_responses_request(
        messages: &[ChatMessage],
        json_schema: &Option<StructuredOutputFormat>,
    ) -> (r: bool)
        ensures
            r == (input::images_fit(messages@) && usable_structure(*json_schema)),
    {
        Self::can_send_images(messages) && match json_schema {
            Some(format) => ResponsesTextFormat::accepts(format),
            None => true,
        }
    }

    /// The body of the request to the Responses API that continues a
    /// conversation.
    pub fn responses_request(
        &self,
        messages: &[ChatMessage],
        tools: Option<&[Tool]>,
        json_schema: Option<StructuredOutputFormat>,
        stream: bool,
    ) -> (r: OpenAIResponsesRequest)
        requires
            input::images_fit(messages@),
            usable_structure(json_schema),
        ensures
            r.deep_view() == self.spec_responses_request(messages@, tools, json_schema, stream),
    {
        let (instructions, items) = self.prepare_responses_input(messages);
        let final_tools = self.build_responses_function_tools(tools);
        let tool_choice = self.resolve_tool_choice_for_request(&final_tools);
        let text = match json_schema {
            Some(format) => Some(ResponsesTextFormat::from(format)),
            None => None,
        };
        OpenAIResponsesRequest {
            model: self.provider.model.clone(),
            input: ResponsesInput::Items(items),
            instructions,
            tools: final_tools,
            tool_choice,
            temperature: self.provider.temperature,
            top_p: self.provider.top_p,
            max_output_tokens: self.provider.max_tokens,
            previous_response_id: copy_text(&self.previous_response_id),
            reasoning: self.reasoning_config(),
            text,
            stream,
            extra_body: json::copy_map(&self.provider.extra_body),
        }
    }

    /// The body of the request to the Responses API that continues a
    /// conversation, or `None` where the conversation cannot be sent: an image
    /// is too large, or the schema is neither an object nor `null`.
    pub fn checked_responses_request(
        &self,
        messages: &[ChatMessage],
        tools: Option<&[Tool]>,
        json_schema: Option<StructuredOutputFormat>,
        stream: bool,
    ) -> (r: Option<OpenAIResponsesRequest>)
        ensures
            r.deep_view() == (if input::images_fit(messages@) && usable_structure(json_schema) {
                Some(self.spec_responses_request(messages@, tools, json_schema, stream))
            } else {
                None
            }),
    {
        if Self::can_send_responses_request(messages, &json_schema) {
            Some(self.responses_request(messages, tools, json_schema, stream))
        } else {
            None
        }
    }

    /// The body of the request to the Responses API that looks something up on
    /// the web.
    pub fn web_search_request(&self, text: String) -> (r: OpenAIResponsesRequest)
        ensures
            r.deep_view() == self.spec_web_search_request(text@),
    {
        let mut messages: Vec<ChatMessage> = Vec::new();
        messages.push(
            ChatMessage { role: ChatRole::User, message_type: MessageType::Text, content: text },
        );
        let web_search_tool = self.build_web_search_tool();
        proof {
            assert(messages@.drop_last() =~= Seq::<ChatMessage>::empty());
            reveal_with_fuel(input::input_items, 2);
            reveal_with_fuel(input::instructions, 2);
            assert(input::input_items(messages@) =~= seq![user_text_item(text@)]);
        }
        let (instructions, items) = self.prepare_responses_input(&messages);
        let mut offered: Vec<OpenAITool> = Vec::new();
        offered.push(web_search_tool);
        assert(offered.deep_view() =~= seq![self.web_search_tool()]);
        OpenAIResponsesRequest {
            model: self.provider.model.clone(),
            input: ResponsesInput::Items(items),
            instructions,
            tools: Some(offered),
            tool_choice: None,
            temperature: self.provider.temperature,
            top_p: self.provider.top_p,
            max_output_tokens: self.provider.max_tokens,
            previous_response_id: copy_text(&self.previous_response_id),
            reasoning: self.reasoning_config(),
            text: None,
            stream: false,
            extra_body: json::copy_map(&self.provider.extra_body),
        }
    }

    /// The body of the request to the Chat Completions API that continues a
    /// conversation. The messages and the format of the answer are given in the
    /// form of that API.
    pub fn chat_request<Message, Format>(
        &self,
        messages: Vec<Message>,
        tools: Option<&[Tool]>,
        response_format: Option<Format>,
    ) -> (r: OpenAIAPIChatRequest<Message, Format>)
        ensures
            r@ == self.spec_chat_request(messages@, tools, response_format),
    {
        let final_tools = self.build_function_tools(tools);
        let tool_choice = self.resolve_tool_choice_for_request(&final_tools);
        OpenAIAPIChatRequest {
            model: self.provider.model.clone(),
            messages,
            input: None,
            max_completion_tokens: self.provider.max_tokens,
            max_output_tokens: None,
            temperature: self.provider.temperature,
            stream: false,
            top_p: self.provider.top_p,
            top_k: self.provider.top_k,
            tools: final_tools,
            tool_choice,
            reasoning_effort: copy_text(&self.provider.reasoning_effort),
            response_format,
            stream_options: None,
            previous_response_id: None,
            extra_body: json::copy_map(&self.provider.extra_body),
        }
    }

    /// The body of the request to the Chat Completions API whose answer is to
    /// arrive as a stream.
    pub fn chat_stream_request<Message, Format>(
        &self,
        messages: Vec<Message>,
        tools: Option<&[Tool]>,
        response_format: Option<Format>,
    ) -> (r: OpenAIAPIChatRequest<Message, Format>)
        ensures
            r@ == self.spec_chat_stream_request(messages@, tools, response_format),
    {
        let final_tools = self.build_function_tools(tools);
        OpenAIAPIChatRequest {
            model: self.provider.model.clone(),
            messages,
            input: None,
            max_completion_tokens: self.provider.max_tokens,
            max_output_tokens: None,
            temperature: self.provider.temperature,
            stream: true,
            top_p: self.provider.top_p,
            top_k: self.provider.top_k,
            tools: final_tools,
            tool_choice: self.copied_tool_choice(),
            reasoning_effort: copy_text(&self.provider.reasoning_effort),
            response_format,
            stream_options: Some(OpenAIStreamOptions { include_usage: true }),
            previous_response_id: None,
            extra_body: json::copy_map(&self.provider.extra_body),
        }
    }

    /// The body of the request that has hosted tools work on a text.
    pub fn hosted_tools_request<Message, Format>(
        &self,
        text: String,
        hosted_tools: Vec<OpenAITool>,
    ) -> (r: OpenAIAPIChatRequest<Message, Format>)
        ensures
            r@ == self.spec_hosted_tools_request::<Message, Format>(
                text@,
                hosted_tools.deep_view(),
            ),
    {
        OpenAIAPIChatRequest {
            model: self.provider.model.clone(),
            messages: Vec::new(),
            input: Some(text),
            max_completion_tokens: None,
            max_output_tokens: self.provider.max_tokens,
            temperature: self.provider.temperature,
            stream: false,
            top_p: self.provider.top_p,
            top_k: self.provider.top_k,
            tools: Some(hosted_tools),
            tool_choice: self.copied_tool_choice(),
            reasoning_effort: copy_text(&self.provider.reasoning_effort),
            response_format: None,
            stream_options: None,
            previous_response_id: copy_text(&self.previous_response_id),
            extra_body: json::copy_map(&self.provider.extra_body),
        }
    }

    /// The body of the request that has the web search tool work on a text, for
    /// models that do not use the Responses API.
    pub fn hosted_web_search_request<Message, Format>(&self, text: String) -> (r:
        OpenAIAPIChatRequest<Message, Format>)
        ensures
            r@ == self.spec_hosted_tools_request::<Message, Format>(
                text@,
                seq![self.web_search_tool()],
            ),
    {
        let mut offered: Vec<OpenAITool> = Vec::new();
        offered.push(self.build_web_search_tool());
        assert(offered.deep_view() =~= seq![self.web_search_tool()]);
        self.hosted_tools_request(text, offered)
    }

    /// The body of a request for embeddings. It fails exactly where the client
    /// has no key. Without a setting the numbers come as floats.
    pub fn embedding_request(&self, texts: Vec<String>) -> (r: Result<
        OpenAIEmbeddingRequest,
        LLMError,
    >)
        ensures
            match r {
                Ok(body) => {
                    &&& self.provider.api_key@.len() > 0
                    &&& body.model@ == self.provider.model@
                    &&& body.input == texts
                    &&& body.encoding_format.deep_view() == Some(
                        openai::text_or(self.provider.embedding_encoding_format, "float"@),
                    )
                    &&& body.dimensions == self.provider.embedding_dimensions
                },
                Err(error) => {
                    &&& self.provider.api_key@.len() == 0
                    &&& error.deep_view() == LLMErrorView::AuthError("Missing OpenAI API key"@)
                },
            },
    {
        if self.provider.api_key.as_str().is_empty() {
            return Err(LLMError::AuthError("Missing OpenAI API key".to_string()));
        }
        let encoding_format = match copy_text(&self.provider.embedding_encoding_format) {
            Some(format) => format,
            None => "float".to_string(),
        };
        Ok(
            OpenAIEmbeddingRequest {
                model: self.provider.model.clone(),
                input: texts,
                encoding_format: Some(encoding_format),
                dimensions: self.provider.embedding_dimensions,
            },
        )
    }
}

} // verus!
