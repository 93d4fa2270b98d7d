//! Builders, which collect the settings of a client.
use std::marker::PhantomData;
use std::sync::Arc;
use vstd::prelude::*;

use crate::chat::ToolChoice;
use crate::error::{LLMError, LLMErrorView};
use crate::openai;
use crate::openai::OpenAI;
use crate::request::F32Bits;

verus! {

/// A client with settings of its own.
pub trait HasConfig {
    /// The settings that only this client has.
    type Config;
}

/// The settings that only the OpenAI client has.
#[derive(Debug, Clone)]
pub struct OpenAIConfig {
    pub voice: Option<String>,
}

impl Default for OpenAIConfig {
    fn default() -> (r: Self)
        ensures
            r.voice is None,
    {
        OpenAIConfig { voice: None }
    }
}

impl HasConfig for OpenAI {
    type Config = OpenAIConfig;
}

/// Collects the settings of a chat client.
pub struct LLMBuilder<L: HasConfig> {
    pub api_key: Option<String>,
    pub base_url: Option<String>,
    pub model: Option<String>,
    pub max_tokens: Option<u32>,
    pub temperature: Option<F32Bits>,
    pub timeout_seconds: Option<u64>,
    pub top_p: Option<F32Bits>,
    pub top_k: Option<u32>,
    pub embedding_encoding_format: Option<String>,
    pub embedding_dimensions: Option<u32>,
    pub tool_choice: Option<ToolChoice>,
    pub normalize_response: Option<bool>,
    pub reasoning_effort: Option<String>,
    pub extra_body: Option<serde_json::Value>,
    pub use_responses_api: Option<bool>,
    pub config: L::Config,
}

/// Why a key is no key to build a client with, if it is none.
pub open spec fn key_error(api_key: Option<String>) -> Option<LLMErrorView> {
    match api_key {
        Some(key) => if key@.len() == 0 {
            Some(LLMErrorView::AuthError("Missing OpenAI API key"@))
        } else {
            None
        },
        None => Some(LLMErrorView::InvalidRequest("No API key provided for OpenAI"@)),
    }
}

impl LLMBuilder<OpenAI> {
    /// A builder that was told nothing.
    pub fn new() -> (r: Self)
        ensures
            r == (LLMBuilder::<OpenAI> {
                api_key: None,
                base_url: None,
                model: None,
                max_tokens: None,
                temperature: None,
                timeout_seconds: None,
                top_p: None,
                top_k: None,
                embedding_encoding_format: None,
                embedding_dimensions: None,
                tool_choice: None,
                normalize_response: None,
                reasoning_effort: None,
                extra_body: None,
                use_responses_api: None,
                config: OpenAIConfig { voice: None },
            }),
    {
        LLMBuilder {
            api_key: None,
            base_url: None,
            model: None,
            max_tokens: None,
            temperature: None,
            timeout_seconds: None,
            top_p: None,
            top_k: None,
            embedding_encoding_format: None,
            embedding_dimensions: None,
            tool_choice: None,
            normalize_response: None,
            reasoning_effort: None,
            extra_body: None,
            use_responses_api: None,
            config: OpenAIConfig::default(),
        }
    }

    /// Sets the key that authorises the requests.
    pub fn api_key(self, key: &str) -> (r: Self)
        ensures
            r.api_key.deep_view() == Some(key@),
            r == (LLMBuilder { api_key: r.api_key, ..self }),
    {
        LLMBuilder { api_key: Some(key.to_string()), ..self }
    }

    /// Sets the name of the model.
    pub fn model(self, model: &str) -> (r: Self)
        ensures
            r.model.deep_view() == Some(model@),
            r == (LLMBuilder { model: r.model, ..self }),
    {
        LLMBuilder { model: Some(model.to_string()), ..self }
    }

    /// Sets how long an answer may be.
    pub fn max_tokens(self, max_tokens: u32) -> (r: Self)
        ensures
            r == (LLMBuilder { max_tokens: Some(max_tokens), ..self }),
    {
        LLMBuilder { max_tokens: Some(max_tokens), ..self }
    }

    /// Sets whether the Responses API is used, whatever the model.
    pub fn use_responses_api(self, enabled: bool) -> (r: Self)
        ensures
            r == (LLMBuilder { use_responses_api: Some(enabled), ..self }),
    {
        LLMBuilder { use_responses_api: Some(enabled), ..self }
    }

    /// Sets the voice.
    pub fn voice(self, voice: &str) -> (r: Self)
        ensures
            r.config.voice.deep_view() == Some(voice@),
            r == (LLMBuilder { config: r.config, ..self }),
    {
        LLMBuilder { config: OpenAIConfig { voice: Some(voice.to_string()) }, ..self }
    }

    /// The client with the settings of the builder. It fails exactly where there
    /// is no key or an empty one.
    pub fn build(self) -> (r: Result<Arc<OpenAI>, LLMError>)
        ensures
            match r {
                Ok(client) => {
                    &&& key_error(self.api_key) is None
                    &&& client.has_service(
                        self.api_key->0@,
                        self.base_url,
                        self.model,
                        self.timeout_seconds,
                    )
                    &&& client.has_sampling(
                        self.max_tokens,
                        self.temperature,
                        self.top_p,
                        self.top_k,
                        self.tool_choice,
                        self.reasoning_effort,
                        self.extra_body,
                    )
                    &&& client.has_output(
                        self.embedding_encoding_format,
                        self.embedding_dimensions,
                        self.normalize_response,
                        self.config.voice,
                    )
                    &&& client.use_responses_api == self.use_responses_api
                    &&& client.previous_response_id is None
                    &&& client.has_no_web_search_settings()
                },
                Err(error) => key_error(self.api_key) == Some(error.deep_view()),
            },
    {
        let key = match self.api_key {
            Some(key) => key,
            None => {
                return Err(LLMError::InvalidRequest("No API key provided for OpenAI".to_string()));
            },
        };
        let mut openai = match OpenAI::new(
            key.as_str(),
            self.base_url,
            self.model,
            self.max_tokens,
            self.temperature,
            self.timeout_seconds,
            self.top_p,
            self.top_k,
            self.embedding_encoding_format,
            self.embedding_dimensions,
            self.tool_choice,
            self.normalize_response,
            self.reasoning_effort,
            self.config.voice,
            self.extra_body,
            None,
            None,
            None,
            None,
            None,
            None,
        ) {
            Ok(openai) => openai,
            Err(error) => return Err(error),
        };
        openai.use_responses_api = self.use_responses_api;
        Ok(Arc::new(openai))
    }
}

/// Collects the settings of a client for embeddings.
pub struct EmbeddingBuilder<L> {
    pub api_key: Option<String>,
    pub base_url: Option<String>,
    pub model: Option<String>,
    pub timeout_seconds: Option<u64>,
    pub embedding_encoding_format: Option<String>,
    pub embedding_dimensions: Option<u32>,
    pub client: PhantomData<L>,
}

impl EmbeddingBuilder<OpenAI> {
    /// A builder that was told nothing.
    pub fn new() -> (r: Self)
        ensures
            r.api_key is None,
            r.base_url is None,
            r.model is None,
            r.timeout_seconds is None,
            r.embedding_encoding_format is None,
            r.embedding_dimensions is None,
    {
        EmbeddingBuilder {
            api_key: None,
            base_url: None,
            model: None,
            timeout_seconds: None,
            embedding_encoding_format: None,
            embedding_dimensions: None,
            client: PhantomData,
        }
    }

    /// The client with the settings of the builder, for a small model where none
    /// is set. It fails exactly where there is no key or an empty one.
    pub fn build(self) -> (r: Result<Arc<OpenAI>, LLMError>)
        ensures
            match r {
                Ok(client) => {
                    &&& key_error(self.api_key) is None
                    &&& client.provider.model@ == openai::text_or(
                        self.model,
                        "text-embedding-3-small"@,
                    )
                    &&& client.has_service(
                        self.api_key->0@,
                        self.base_url,
                        Some(client.provider.model),
                        self.timeout_seconds,
                    )
                    &&& client.has_sampling(None, None, None, None, None, None, None)
                    &&& client.has_output(
                        self.embedding_encoding_format,
                        self.embedding_dimensions,
                        None,
                        None,
                    )
                    &&& client.use_responses_api is None
                    &&& client.previous_response_id is None
                    &&& client.has_no_web_search_settings()
                },
                Err(error) => key_error(self.api_key) == Some(error.deep_view()),
            },
    {
        let key = match self.api_key {
            Some(key) => key,
            None => {
                return Err(LLMError::InvalidRequest("No API key provided for OpenAI".to_string()));
            },
        };
        let model = match self.model {
            Some(model) => model,
            None => "text-embedding-3-small".to_string(),
        };
        match OpenAI::new(
            key.as_str(),
            self.base_url,
            Some(model),
            None,
            None,
            self.timeout_seconds,
            None,
            None,
            self.embedding_encoding_format,
            self.embedding_dimensions,
            None,
            None,
            None,
            None,
            None,
            None,
            None,
            None,
            None,
            None,
            None,
        ) {
            Ok(openai) => Ok(Arc::new(openai)),
            Err(error) => Err(error),
        }
    }
}

} // verus!
