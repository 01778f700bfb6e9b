//! Tools as the loop sees them: a call, what it returned, and how that is
//! written for the model.

pub mod agentic;
pub mod endpoint;
pub mod invocation;
pub mod json;
pub mod laws;
pub mod protocol;
pub mod reply;
pub mod safety;

use vstd::prelude::*;
use vstd::string::StringExecFns;
use crate::tools::json::{compact_json, json_text, pretty_json, pretty_text};

verus! {

/// A call handed to the tool registry.
#[derive(Debug, Clone)]
pub struct ToolCall {
    pub name: String,
    pub arguments: serde_json::Value,
}

/// The mathematical model of a [`ToolCall`]: the arguments stand as their
/// compact JSON text.
pub struct ToolCallView {
    pub name: Seq<char>,
    pub arguments: Seq<char>,
}

impl View for ToolCall {
    type V = ToolCallView;

    open spec fn view(&self) -> ToolCallView {
        ToolCallView { name: self.name@, arguments: json_text(self.arguments) }
    }
}

/// What a tool returned.
#[derive(Debug, Clone)]
pub enum ToolOutput {
    /// Plain text.
    Text(String),
    /// A structured value.
    Json(serde_json::Value),
    /// The tool, or a check before it, reported a failure.
    Error(String),
}

/// The mathematical model of a [`ToolOutput`]: a structured value stands as
/// its compact JSON text.
pub enum ToolOutputView {
    Text(Seq<char>),
    Json(Seq<char>),
    Error(Seq<char>),
}

impl View for ToolOutput {
    type V = ToolOutputView;

    open spec fn view(&self) -> ToolOutputView {
        match self {
            ToolOutput::Text(text) => ToolOutputView::Text(text@),
            ToolOutput::Json(value) => ToolOutputView::Json(json_text(*value)),
            ToolOutput::Error(message) => ToolOutputView::Error(message@),
        }
    }
}

/// How a structured value is written for the model: pretty-printed, or in
/// compact form where pretty-printing fails.
pub open spec fn json_display(compact: Seq<char>) -> Seq<char> {
    match pretty_text(compact) {
        Some(pretty) => pretty,
        None => compact,
    }
}

/// The text that stands for an output when it is fed back to the model.
pub open spec fn llm_text(output: ToolOutputView) -> Seq<char> {
    match output {
        ToolOutputView::Text(text) => text,
        ToolOutputView::Json(compact) => json_display(compact),
        ToolOutputView::Error(message) => "Error: "@ + message,
    }
}

/// Picks the text for a structured value from the outcome of
/// pretty-printing it: the pretty text where there is one, else the value's
/// compact text.
pub fn shown_json<E>(pretty: Result<String, E>, value: &serde_json::Value) -> (r: String)
    ensures
        r@ == match pretty {
            Ok(text) => text@,
            Err(_) => json_text(*value),
        },
{
    match pretty {
        Ok(text) => text,
        Err(_) => compact_json(value),
    }
}

/// Writes a structured value for the model.
pub fn display_json(value: &serde_json::Value) -> (r: String)
    ensures
        r@ == json_display(json_text(*value)),
{
    shown_json(pretty_json(value), value)
}

impl ToolOutput {
    /// The text that stands for this output when it is fed back to the model.
    pub fn to_llm_string(&self) -> (r: String)
        ensures
            r@ == llm_text(self@),
    {
        match self {
            ToolOutput::Text(text) => text.clone(),
            ToolOutput::Json(value) => display_json(value),
            ToolOutput::Error(message) => String::from_str("Error: ").concat(message.as_str()),
        }
    }

    /// A copy of this output.
    pub fn duplicate(&self) -> (r: ToolOutput)
        ensures
            r@ == self@,
    {
        match self {
            ToolOutput::Text(text) => ToolOutput::Text(text.clone()),
            ToolOutput::Json(value) => ToolOutput::Json(value.clone()),
            ToolOutput::Error(message) => ToolOutput::Error(message.clone()),
        }
    }
}

} // verus!
