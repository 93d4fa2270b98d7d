//! The errors of the client.
use vstd::prelude::*;

verus! {

/// What can go wrong when a request is made or an answer is read.
#[derive(Debug)]
pub enum LLMError {
    /// The request could not be sent or the connection broke.
    HttpError(String),
    /// The credentials are missing or were refused.
    AuthError(String),
    /// The request is not well-formed.
    InvalidRequest(String),
    /// The provider reported a failure.
    ProviderError(String),
    /// The answer does not have the expected form.
    ResponseFormatError { message: String, raw_response: String },
}

/// An `LLMError` with its texts as character sequences.
pub enum LLMErrorView {
    HttpError(Seq<char>),
    AuthError(Seq<char>),
    InvalidRequest(Seq<char>),
    ProviderError(Seq<char>),
    ResponseFormatError { message: Seq<char>, raw_response: Seq<char> },
}

impl DeepView for LLMError {
    type V = LLMErrorView;

    open spec fn deep_view(&self) -> LLMErrorView {
        match self {
            LLMError::HttpError(m) => LLMErrorView::HttpError(m@),
            LLMError::AuthError(m) => LLMErrorView::AuthError(m@),
            LLMError::InvalidRequest(m) => LLMErrorView::InvalidRequest(m@),
            LLMError::ProviderError(m) => LLMErrorView::ProviderError(m@),
            LLMError::ResponseFormatError { message, raw_response } =>
                LLMErrorView::ResponseFormatError {
                message: message@,
                raw_response: raw_response@,
            },
        }
    }
}

impl LLMErrorView {
    /// The message that the error carries.
    pub open spec fn message(self) -> Seq<char> {
        match self {
            LLMErrorView::HttpError(m) => m,
            LLMErrorView::AuthError(m) => m,
            LLMErrorView::InvalidRequest(m) => m,
            LLMErrorView::ProviderError(m) => m,
            LLMErrorView::ResponseFormatError { message, .. } => message,
        }
    }
}

impl LLMError {
    /// The message that the error carries.
    pub fn message(&self) -> (r: &str)
        ensures
            r@ == self.deep_view().message(),
    {
        match self {
            LLMError::HttpError(m) => m.as_str(),
            LLMError::AuthError(m) => m.as_str(),
            LLMError::InvalidRequest(m) => m.as_str(),
            LLMError::ProviderError(m) => m.as_str(),
            LLMError::ResponseFormatError { message, .. } => message.as_str(),
        }
    }
}

} // verus!
