//! Reading the model's reply off the answer of the endpoint: the message of
//! the first choice, its text, and the invocations it asks for.

use vstd::prelude::*;
use vstd::string::StringExecFns;
use crate::tools::endpoint::{EndpointError, EndpointErrorView};
use crate::tools::json::{
    element_text, json_element, json_member, json_string, json_text, member_text, string_text,
};

verus! {

/// The first choice of an answer, by compact text: the first element of its
/// `choices`, if it has one.
pub open spec fn first_choice_text(answer: Seq<char>) -> Option<Seq<char>> {
    match member_text(answer, "choices"@) {
        Some(choices) => element_text(choices, 0),
        None => None,
    }
}

/// The text of a message: its `content`, where that is a string.
pub open spec fn content_text(message: Seq<char>) -> Option<Seq<char>> {
    match member_text(message, "content"@) {
        Some(content) => string_text(content),
        None => None,
    }
}

/// The first choice of an answer. An answer without one is an error.
pub fn first_choice<'a>(answer: &'a serde_json::Value) -> (r: Result<
    &'a serde_json::Value,
    EndpointError,
>)
    ensures
        match r {
            Ok(choice) => first_choice_text(json_text(*answer)) == Some(json_text(*choice)),
            Err(error) => first_choice_text(json_text(*answer)) is None && error@
                == EndpointErrorView::EmptyChoices,
        },
{
    match json_member(answer, "choices") {
        Some(choices) => match json_element(choices, 0) {
            Some(choice) => Ok(choice),
            None => Err(EndpointError::EmptyChoices),
        },
        None => Err(EndpointError::EmptyChoices),
    }
}

/// The message of a choice, if it has one.
pub fn choice_message<'a>(choice: &'a serde_json::Value) -> (r: Option<&'a serde_json::Value>)
    ensures
        match r {
            Some(message) => member_text(json_text(*choice), "message"@) == Some(
                json_text(*message),
            ),
            None => member_text(json_text(*choice), "message"@) is None,
        },
{
    json_member(choice, "message")
}

/// The text of the reply: the content of the message where it is a string,
/// none where the message or its content is missing or is something else.
pub fn reply_content(message: Option<&serde_json::Value>) -> (r: Option<String>)
    ensures
        r.deep_view() == match message {
            Some(value) => content_text(json_text(*value)),
            None => None,
        },
{
    match message {
        Some(value) => match json_member(value, "content") {
            Some(content) => match json_string(content) {
                Some(text) => Some(String::from_str(text)),
                None => None,
            },
            None => None,
        },
        None => None,
    }
}

/// The invocations of the reply, as the endpoint wrote them: what the
/// message holds under `tool_calls`, if anything.
pub fn reply_tool_calls<'a>(message: Option<&'a serde_json::Value>) -> (r: Option<
    &'a serde_json::Value,
>)
    ensures
        match r {
            Some(calls) => message is Some && member_text(
                json_text(*message->Some_0),
                "tool_calls"@,
            ) == Some(json_text(*calls)),
            None => message is Some ==> member_text(json_text(*message->Some_0), "tool_calls"@)
                is None,
        },
{
    match message {
        Some(value) => json_member(value, "tool_calls"),
        None => None,
    }
}

} // verus!
