//! The client: its settings, and how it tells which API a model wants.
use vstd::prelude::*;

use crate::address;
use crate::address::{hold_address, parse_url};
use crate::chat::{ChatResponse, CompletionResponse, ToolChoice};
use crate::error::{LLMError, LLMErrorView};
use crate::json;
use crate::request::F32Bits;
use crate::text;
use crate::text::{begins_with, chars_of, contains_text, same_text, trimmed_from};

verus! {

/// What the client has in common with those of every service that speaks the
/// same protocol.
#[derive(Debug)]
pub struct OpenAICompatibleProvider {
    pub api_key: String,
    pub base_url: String,
    pub model: String,
    pub max_tokens: Option<u32>,
    pub temperature: Option<F32Bits>,
    pub timeout_seconds: Option<u64>,
    pub top_p: Option<F32Bits>,
    pub top_k: Option<u32>,
    pub tool_choice: Option<ToolChoice>,
    pub reasoning_effort: Option<String>,
    pub voice: Option<String>,
    pub extra_body: serde_json::Map<String, serde_json::Value>,
    pub normalize_response: Option<bool>,
    pub embedding_encoding_format: Option<String>,
    pub embedding_dimensions: Option<u32>,
}

/// Client for the OpenAI API.
#[derive(Debug)]
pub struct OpenAI {
    pub provider: OpenAICompatibleProvider,
    /// Whether to use the Responses API. `None` leaves it to the model's name.
    pub use_responses_api: Option<bool>,
    /// The answer that the next request to the Responses API continues.
    pub previous_response_id: Option<String>,
    pub enable_web_search: bool,
    pub web_search_context_size: Option<String>,
    pub web_search_user_location_type: Option<String>,
    pub web_search_user_location_approximate_country: Option<String>,
    pub web_search_user_location_approximate_city: Option<String>,
    pub web_search_user_location_approximate_region: Option<String>,
}

/// The given text, or `default` where none is given.
pub open spec fn text_or(given: Option<String>, default: Seq<char>) -> Seq<char> {
    match given {
        Some(text) => text@,
        None => default,
    }
}

/// The members that are added to the body of every request: those of a JSON
/// object, and none of any other value.
pub open spec fn extra_members(extra_body: Option<serde_json::Value>) -> Map<
    Seq<char>,
    serde_json::Value,
> {
    match extra_body {
        Some(value) => match json::object_members(value) {
            Some(members) => members,
            None => json::no_members(),
        },
        None => json::no_members(),
    }
}

/// Whether the model is of the family: its name is that of the family, begins
/// with it and a `-` or a `.`, or holds it behind a `/` or a `:`.
pub open spec fn has_family(model: Seq<char>, family: Seq<char>) -> bool {
    ||| model == family
    ||| family.push('-').is_prefix_of(model)
    ||| family.push('.').is_prefix_of(model)
    ||| text::has_substring(model, seq!['/'] + family)
    ||| text::has_substring(model, seq![':'] + family)
}

/// Whether a model of this name, written in lower case, wants the Responses API.
pub open spec fn wants_responses_api(model: Seq<char>) -> bool {
    ||| text::has_substring(model, "codex"@)
    ||| has_family(model, "o1"@)
    ||| has_family(model, "o3"@)
    ||| has_family(model, "o4"@)
    ||| has_family(model, "gpt-5"@)
}

/// The text of an error in which the reason for it is looked up.
pub open spec fn error_report(error: LLMErrorView) -> Option<Seq<char>> {
    match error {
        LLMErrorView::ResponseFormatError { message, raw_response } => Some(
            message.push('\n') + raw_response,
        ),
        LLMErrorView::ProviderError(message) => Some(message),
        LLMErrorView::HttpError(message) => Some(message),
        LLMErrorView::AuthError(_) => None,
        LLMErrorView::InvalidRequest(_) => None,
    }
}

/// Whether the report, written in lower case, is about the Responses API.
pub open spec fn concerns_responses_api(report: Seq<char>) -> bool {
    ||| text::has_substring(report, "responses api"@)
    ||| text::has_substring(report, "v1/responses"@)
    ||| text::has_substring(report, "/responses"@)
}

/// Whether the report, written in lower case, says that something is not
/// offered.
pub open spec fn tells_of_missing_api(report: Seq<char>) -> bool {
    ||| text::has_substring(report, "responses api is enabled only for api-version"@)
    ||| text::has_substring(report, "api-version 2025-03-01-preview"@)
    ||| text::has_substring(report, "responses api is not supported"@)
    ||| text::has_substring(report, "does not support the responses api"@)
    ||| text::has_substring(report, "not supported in v1/responses"@)
    ||| text::has_substring(report, "v1/responses is not supported"@)
}

/// Whether the report, in any case of its letters, says that the service does
/// not offer the Responses API.
pub open spec fn reports_missing_api(report: Seq<char>) -> bool {
    let lower = text::ascii_lower(report);
    concerns_responses_api(lower) && tells_of_missing_api(lower)
}

/// A copy of the text, if there is one.
pub(crate) fn copy_text(text: &Option<String>) -> (r: Option<String>)
    ensures
        r == *text,
        r.deep_view() == text.deep_view(),
{
    match text {
        Some(text) => Some(text.clone()),
        None => None,
    }
}

impl OpenAI {
    /// Whether the client uses the Responses API: as it is told, else as the
    /// model's name, trimmed and in lower case, says.
    pub open spec fn uses_responses_api(&self) -> bool {
        match self.use_responses_api {
            Some(told) => told,
            None => wants_responses_api(text::lowercase(text::trim(self.provider.model@))),
        }
    }

    /// Whether the client turns to the Chat Completions API after the error.
    pub open spec fn falls_back_after(&self, error: LLMErrorView) -> bool {
        &&& self.use_responses_api != Some(true)
        &&& match error_report(error) {
            Some(report) => reports_missing_api(report),
            None => false,
        }
    }

    /// The client speaks to the given service with the given model. Its address is
    /// held as it was read. Without an address it is OpenAI, without a model a small
    /// one.
    pub open spec fn has_service(
        &self,
        api_key: Seq<char>,
        base_url: Option<String>,
        model: Option<String>,
        timeout_seconds: Option<u64>,
    ) -> bool {
        &&& self.provider.api_key@ == api_key
        &&& self.provider.base_url@ == match base_url {
            Some(given) => address::held_address(given@, address::parsed_url(given@)),
            None => "https://api.openai.com/v1/"@,
        }
        &&& self.provider.model@ == text_or(model, "gpt-4.1-nano"@)
        &&& self.provider.timeout_seconds == timeout_seconds
    }

    /// The client asks for answers in the given way.
    pub open spec fn has_sampling(
        &self,
        max_tokens: Option<u32>,
        temperature: Option<F32Bits>,
        top_p: Option<F32Bits>,
        top_k: Option<u32>,
        tool_choice: Option<ToolChoice>,
        reasoning_effort: Option<String>,
        extra_body: Option<serde_json::Value>,
    ) -> bool {
        &&& self.provider.max_tokens == max_tokens
        &&& self.provider.temperature == temperature
        &&& self.provider.top_p == top_p
        &&& self.provider.top_k == top_k
        &&& self.provider.tool_choice == tool_choice
        &&& self.provider.reasoning_effort == reasoning_effort
        &&& json::map_members(self.provider.extra_body) == extra_members(extra_body)
    }

    /// The client wants embeddings, streams and speech in the given form.
    pub open spec fn has_output(
        &self,
        embedding_encoding_format: Option<String>,
        embedding_dimensions: Option<u32>,
        normalize_response: Option<bool>,
        voice: Option<String>,
    ) -> bool {
        &&& self.provider.embedding_encoding_format == embedding_encoding_format
        &&& self.provider.embedding_dimensions == embedding_dimensions
        &&& self.provider.normalize_response == normalize_response
        &&& self.provider.voice == voice
    }

    /// The client does nothing about web searches that it was not told to.
    pub open spec fn has_no_web_search_settings(&self) -> bool {
        &&& !self.enable_web_search
        &&& self.web_search_context_size is None
        &&& self.web_search_user_location_type is None
        &&& self.web_search_user_location_approximate_country is None
        &&& self.web_search_user_location_approximate_city is None
        &&& self.web_search_user_location_approximate_region is None
    }

    /// A client with the given settings. Without an address it speaks to
    /// OpenAI, without a model it uses a small one, and it tells from the
    /// model's name which API to use.
    #[allow(clippy::too_many_arguments)]
    pub fn new(
        api_key: &str,
        base_url: Option<String>,
        model: Option<String>,
        max_tokens: Option<u32>,
        temperature: Option<F32Bits>,
        timeout_seconds: Option<u64>,
        top_p: Option<F32Bits>,
        top_k: Option<u32>,
        embedding_encoding_format: Option<String>,
        embedding_dimensions: Option<u32>,
        tool_choice: Option<ToolChoice>,
        normalize_response: Option<bool>,
        reasoning_effort: Option<String>,
        voice: Option<String>,
        extra_body: Option<serde_json::Value>,
        enable_web_search: Option<bool>,
        web_search_context_size: Option<String>,
        web_search_user_location_type: Option<String>,
        web_search_user_location_approximate_country: Option<String>,
        web_search_user_location_approximate_city: Option<String>,
        web_search_user_location_approximate_region: Option<String>,
    ) -> (r: Result<Self, LLMError>)
        ensures
            match r {
                Ok(client) => {
                    &&& api_key@.len() > 0
                    &&& client.has_service(api_key@, base_url, model, timeout_seconds)
                    &&& client.has_sampling(
                        max_tokens,
                        temperature,
                        top_p,
                        top_k,
                        tool_choice,
                        reasoning_effort,
                        extra_body,
                    )
                    &&& client.has_output(
                        embedding_encoding_format,
                        embedding_dimensions,
                        normalize_response,
                        voice,
                    )
                    &&& client.use_responses_api is None
                    &&& client.previous_response_id is None
                    &&& client.enable_web_search == (enable_web_search == Some(true))
                    &&& client.web_search_context_size == web_search_context_size
                    &&& client.web_search_user_location_type == web_search_user_location_type
                    &&& client.web_search_user_location_approximate_country
                        == web_search_user_location_approximate_country
                    &&& client.web_search_user_location_approximate_city
                        == web_search_user_location_approximate_city
                    &&& client.web_search_user_location_approximate_region
                        == web_search_user_location_approximate_region
                },
                Err(error) => {
                    &&& api_key@.len() == 0
                    &&& error.deep_view() == LLMErrorView::AuthError("Missing OpenAI API key"@)
                },
            },
    {
        if api_key.is_empty() {
            return Err(LLMError::AuthError("Missing OpenAI API key".to_string()));
        }
        let extra_members = match &extra_body {
            Some(value) => match json::as_object(value) {
                Some(members) => json::copy_map(members),
                None => json::empty_map(),
            },
            None => json::empty_map(),
        };
        Ok(
            OpenAI {
                provider: OpenAICompatibleProvider {
                    api_key: api_key.to_string(),
                    base_url: match base_url {
                        Some(given) => {
                            let parsed = parse_url(given.as_str());
                            hold_address(given, parsed)
                        },
                        None => "https://api.openai.com/v1/".to_string(),
                    },
                    model: match model {
                        Some(name) => name,
                        None => "gpt-4.1-nano".to_string(),
                    },
                    max_tokens,
                    temperature,
                    timeout_seconds,
                    top_p,
                    top_k,
                    tool_choice,
                    reasoning_effort,
                    voice,
                    extra_body: extra_members,
                    normalize_response,
                    embedding_encoding_format,
                    embedding_dimensions,
                },
                use_responses_api: None,
                previous_response_id: None,
                enable_web_search: match enable_web_search {
                    Some(enabled) => enabled,
                    None => false,
                },
                web_search_context_size,
                web_search_user_location_type,
                web_search_user_location_approximate_country,
                web_search_user_location_approximate_city,
                web_search_user_location_approximate_region,
            },
        )
    }

    /// Whether the model is of the family.
    pub fn model_has_family(model: &str, family: &str) -> (r: bool)
        ensures
            r == has_family(model@, family@),
    {
        if same_text(model, family) {
            return true;
        }
        let name = chars_of(model);
        let mut with_dash = chars_of(family);
        with_dash.push('-');
        let mut with_dot = chars_of(family);
        with_dot.push('.');
        if begins_with(&name, &with_dash) || begins_with(&name, &with_dot) {
            return true;
        }
        let mut after_slash = String::new();
        after_slash.push('/');
        after_slash.append(family);
        let mut after_colon = String::new();
        after_colon.push(':');
        after_colon.append(family);
        assert(after_slash@ =~= seq!['/'] + family@);
        assert(after_colon@ =~= seq![':'] + family@);
        contains_text(model, after_slash.as_str()) || contains_text(model, after_colon.as_str())
    }

    /// Whether a model of this name, written in lower case, wants the Responses
    /// API.
    pub fn model_wants_responses_api(model: &str) -> (r: bool)
        ensures
            r == wants_responses_api(model@),
    {
        contains_text(model, "codex") || Self::model_has_family(model, "o1")
            || Self::model_has_family(model, "o3") || Self::model_has_family(model, "o4")
            || Self::model_has_family(model, "gpt-5")
    }

    /// Whether the client uses the Responses API.
    pub fn should_use_responses_api(&self) -> (r: bool)
        ensures
            r == self.uses_responses_api(),
            self.use_responses_api is None && text::is_ascii(text::trim(self.provider.model@))
                ==> r == wants_responses_api(text::ascii_lower(text::trim(self.provider.model@))),
    {
        match self.use_responses_api {
            Some(told) => told,
            None => {
                let name = chars_of(self.provider.model.as_str());
                let trimmed = trimmed_from(&name, 0);
                assert(name@.skip(0) =~= name@);
                let lower = trimmed.as_str().to_lowercase();
                Self::model_wants_responses_api(lower.as_str())
            },
        }
    }

    /// Whether the client turns to the Chat Completions API after the error: not
    /// where it is told to use the Responses API, and else where the error says
    /// that the service does not offer it.
    pub fn should_fallback_from_responses_api_error(&self, error: &LLMError) -> (r: bool)
        ensures
            r == self.falls_back_after(error.deep_view()),
    {
        if let Some(told) = self.use_responses_api {
            if told {
                return false;
            }
        }
        let report = match error {
            LLMError::ResponseFormatError { message, raw_response } => {
                let mut both = message.clone();
                both.push('\n');
                both.append(raw_response.as_str());
                both
            },
            LLMError::ProviderError(message) => message.clone(),
            LLMError::HttpError(message) => message.clone(),
            LLMError::AuthError(_) => return false,
            LLMError::InvalidRequest(_) => return false,
        };
        let lowered = report.as_str().to_ascii_lowercase();
        let lower = lowered.as_str();
        if !(contains_text(lower, "responses api") || contains_text(lower, "v1/responses")
            || contains_text(lower, "/responses")) {
            return false;
        }
        contains_text(lower, "responses api is enabled only for api-version") || contains_text(
            lower,
            "api-version 2025-03-01-preview",
        ) || contains_text(lower, "responses api is not supported") || contains_text(
            lower,
            "does not support the responses api",
        ) || contains_text(lower, "not supported in v1/responses") || contains_text(
            lower,
            "v1/responses is not supported",
        )
    }

    /// The key that authorises the requests.
    pub fn api_key(&self) -> (r: &str)
        ensures
            r@ == self.provider.api_key@,
    {
        self.provider.api_key.as_str()
    }

    /// The name of the model.
    pub fn model(&self) -> (r: &str)
        ensures
            r@ == self.provider.model@,
    {
        self.provider.model.as_str()
    }

    /// The address of the service, by its text.
    pub fn base_url(&self) -> (r: &str)
        ensures
            r@ == self.provider.base_url@,
    {
        self.provider.base_url.as_str()
    }

    /// How long a request may take.
    pub fn timeout_seconds(&self) -> (r: Option<u64>)
        ensures
            r == self.provider.timeout_seconds,
    {
        self.provider.timeout_seconds
    }

    /// Sets the answer that the next request to the Responses API continues.
    pub fn set_previous_response_id(&mut self, id: Option<String>)
        ensures
            *final(self) == (OpenAI { previous_response_id: id, ..*old(self) }),
    {
        self.previous_response_id = id;
    }

    /// Lets the next request to the Responses API continue the given answer.
    pub fn chain_response(&mut self, response: &dyn ChatResponse)
        ensures
            final(self).previous_response_id.deep_view() == response.spec_response_id(),
            *final(self) == (OpenAI {
                previous_response_id: final(self).previous_response_id,
                ..*old(self)
            }),
    {
        self.previous_response_id = match response.response_id() {
            Some(id) => Some(id.to_string()),
            None => None,
        };
    }

    /// Text completion, which this client does not offer.
    pub fn complete(&self) -> (r: Result<CompletionResponse, LLMError>)
        ensures
            r matches Ok(answer) && answer.text@ == "OpenAI completion not implemented."@,
    {
        Ok(CompletionResponse { text: "OpenAI completion not implemented.".to_string() })
    }
}

} // verus!
