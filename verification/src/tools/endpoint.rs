//! The model endpoint as the loop sees it: where a request goes, how it is
//! authorised, and how a call can fail.

use vstd::prelude::*;
use vstd::string::StringExecFns;
use crate::text::{decimal, decimal_text};

verus! {

/// A failed call of the model endpoint. Each is fatal for the invocation
/// that made the call.
#[derive(Debug, Clone)]
pub enum EndpointError {
    /// The request could not be sent.
    Transport(String),
    /// The endpoint answered with a status that is no success.
    Status { code: u16, body: String },
    /// The answer could not be read as JSON.
    Decode(String),
    /// The answer holds no choice.
    EmptyChoices,
}

/// The mathematical model of an [`EndpointError`].
pub enum EndpointErrorView {
    Transport(Seq<char>),
    Status { code: u16, body: Seq<char> },
    Decode(Seq<char>),
    EmptyChoices,
}

impl View for EndpointError {
    type V = EndpointErrorView;

    open spec fn view(&self) -> EndpointErrorView {
        match self {
            EndpointError::Transport(detail) => EndpointErrorView::Transport(detail@),
            EndpointError::Status { code, body } => EndpointErrorView::Status {
                code: *code,
                body: body@,
            },
            EndpointError::Decode(detail) => EndpointErrorView::Decode(detail@),
            EndpointError::EmptyChoices => EndpointErrorView::EmptyChoices,
        }
    }
}

/// The address of the chat-completions resource under `api_url`.
pub open spec fn completions_url_text(api_url: Seq<char>) -> Seq<char> {
    api_url + "/chat/completions"@
}

/// The value of the `Authorization` header for a credential.
pub open spec fn bearer_text(key: Seq<char>) -> Seq<char> {
    "Bearer "@ + key
}

/// Whether an HTTP status counts as success: the codes from 200 to 299.
pub open spec fn is_success_status(code: u16) -> bool {
    200 <= code < 300
}

/// What an error reads as.
pub open spec fn error_text(error: EndpointErrorView) -> Seq<char> {
    match error {
        EndpointErrorView::Transport(detail) => "Failed to send LLM request: "@ + detail,
        EndpointErrorView::Status { code, body } => "LLM API error "@ + decimal_text(code as nat)
            + ": "@ + body,
        EndpointErrorView::Decode(detail) => "Failed to parse LLM response: "@ + detail,
        EndpointErrorView::EmptyChoices => "Empty choices in LLM response"@,
    }
}

/// The address of the chat-completions resource under `api_url`.
pub fn completions_url(api_url: &str) -> (r: String)
    ensures
        r@ == completions_url_text(api_url@),
{
    String::from_str(api_url).concat("/chat/completions")
}

/// The `Authorization` header to send: none without a credential.
pub fn authorization_header(api_key: &Option<String>) -> (r: Option<String>)
    ensures
        r.deep_view() == match api_key.deep_view() {
            Some(key) => Some(bearer_text(key)),
            None => None,
        },
{
    match api_key {
        Some(key) => Some(String::from_str("Bearer ").concat(key.as_str())),
        None => None,
    }
}

/// Whether an HTTP status counts as success. Any other status makes the call
/// fail with [`EndpointError::Status`].
pub fn status_is_success(code: u16) -> (r: bool)
    ensures
        r == is_success_status(code),
{
    200 <= code && code < 300
}

impl EndpointError {
    /// What this error reads as.
    pub fn describe(&self) -> (r: String)
        ensures
            r@ == error_text(self@),
    {
        match self {
            EndpointError::Transport(detail) => String::from_str(
                "Failed to send LLM request: ",
            ).concat(detail.as_str()),
            EndpointError::Status { code, body } => {
                let number = decimal(*code as usize);
                String::from_str("LLM API error ").concat(number.as_str()).concat(": ").concat(
                    body.as_str(),
                )
            },
            EndpointError::Decode(detail) => String::from_str(
                "Failed to parse LLM response: ",
            ).concat(detail.as_str()),
            EndpointError::EmptyChoices => String::from_str("Empty choices in LLM response"),
        }
    }

    /// A copy of this error.
    pub fn duplicate(&self) -> (r: EndpointError)
        ensures
            r@ == self@,
    {
        match self {
            EndpointError::Transport(detail) => EndpointError::Transport(detail.clone()),
            EndpointError::Status { code, body } => EndpointError::Status {
                code: *code,
                body: body.clone(),
            },
            EndpointError::Decode(detail) => EndpointError::Decode(detail.clone()),
            EndpointError::EmptyChoices => EndpointError::EmptyChoices,
        }
    }
}

} // verus!
