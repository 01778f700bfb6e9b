//! The boundary to `serde_json`: tool arguments and structured tool output
//! are carried as `serde_json::Value`, which the verifier treats as opaque.
//!
//! Contracts speak of a value through its compact JSON text. Nothing in this
//! file is proved: each item states what the outside function is taken to do.

use vstd::prelude::*;

verus! {

#[verifier::external_type_specification]
#[verifier::external_body]
pub struct ExJsonValue(serde_json::Value);

#[verifier::external_type_specification]
#[verifier::external_body]
pub struct ExJsonError(serde_json::Error);

/// The compact JSON text of a value, as `serde_json::Value::to_string`
/// writes it. It stands for the value in every contract.
pub uninterp spec fn json_text(v: serde_json::Value) -> Seq<char>;

/// What `serde_json::from_str::<serde_json::Value>` makes of a text: the
/// compact text of the value it parses to, or `None` where it refuses the
/// text.
pub uninterp spec fn parsed_text(raw: Seq<char>) -> Option<Seq<char>>;

/// What `serde_json::to_string_pretty` writes for the value with the given
/// compact text, or `None` where it fails.
pub uninterp spec fn pretty_text(compact: Seq<char>) -> Option<Seq<char>>;

/// What `serde_json::Value::get` finds under a key: the compact text of the
/// member that the object with the given compact text has under `key`, or
/// `None` where the value is no object or has no such member.
pub uninterp spec fn member_text(compact: Seq<char>, key: Seq<char>) -> Option<Seq<char>>;

/// What `serde_json::Value::get` finds at a position: the compact text of
/// the element that the array with the given compact text has at `index`, or
/// `None` where the value is no array or is too short.
pub uninterp spec fn element_text(compact: Seq<char>, index: nat) -> Option<Seq<char>>;

/// What `serde_json::Value::as_str` gives: the string that the value with
/// the given compact text is, or `None` where it is no string.
pub uninterp spec fn string_text(compact: Seq<char>) -> Option<Seq<char>>;

/// The compact text of the empty JSON object.
pub open spec fn empty_object_text() -> Seq<char> {
    seq!['{', '}']
}

/// Calls `serde_json::from_str::<serde_json::Value>`. Trusted: the outcome is
/// the one that `parsed_text` names for this text.
#[verifier::external_body]
pub(crate) fn parse_json(raw: &str) -> (r: Result<serde_json::Value, serde_json::Error>)
    ensures
        match r {
            Ok(v) => parsed_text(raw@) == Some(json_text(v)),
            Err(_) => parsed_text(raw@) is None,
        },
{
    serde_json::from_str::<serde_json::Value>(raw)
}

/// Builds `serde_json::Value::Object` over `serde_json::Map::new()`. Trusted:
/// an object without members is written as `{}`.
#[verifier::external_body]
pub(crate) fn empty_object() -> (v: serde_json::Value)
    ensures
        json_text(v) == empty_object_text(),
{
    serde_json::Value::Object(serde_json::Map::new())
}

/// `serde_json::Value::clone`. Trusted: the copy has the compact text of the
/// value it was made from.
pub assume_specification[ <serde_json::Value as Clone>::clone ](
    v: &serde_json::Value,
) -> (r: serde_json::Value)
    ensures
        json_text(r) == json_text(*v),
;

/// Calls `serde_json::Value::to_string`. Trusted: the result is the compact
/// text that `json_text` names.
#[verifier::external_body]
pub(crate) fn compact_json(v: &serde_json::Value) -> (s: String)
    ensures
        s@ == json_text(*v),
{
    v.to_string()
}

/// Calls `serde_json::to_string_pretty`. Trusted: the outcome is the one that
/// `pretty_text` names for the value's compact text.
#[verifier::external_body]
pub(crate) fn pretty_json(v: &serde_json::Value) -> (r: Result<String, serde_json::Error>)
    ensures
        match r {
            Ok(s) => pretty_text(json_text(*v)) == Some(s@),
            Err(_) => pretty_text(json_text(*v)) is None,
        },
{
    serde_json::to_string_pretty(v)
}

/// Calls `serde_json::Value::get` with a key. Trusted: the outcome is the
/// one that `member_text` names.
#[verifier::external_body]
pub(crate) fn json_member<'a>(v: &'a serde_json::Value, key: &str) -> (r: Option<
    &'a serde_json::Value,
>)
    ensures
        match r {
            Some(member) => member_text(json_text(*v), key@) == Some(json_text(*member)),
            None => member_text(json_text(*v), key@) is None,
        },
{
    v.get(key)
}

/// Calls `serde_json::Value::get` with a position. Trusted: the outcome is
/// the one that `element_text` names.
#[verifier::external_body]
pub(crate) fn json_element<'a>(v: &'a serde_json::Value, index: usize) -> (r: Option<
    &'a serde_json::Value,
>)
    ensures
        match r {
            Some(element) => element_text(json_text(*v), index as nat) == Some(
                json_text(*element),
            ),
            None => element_text(json_text(*v), index as nat) is None,
        },
{
    v.get(index)
}

/// Calls `serde_json::Value::as_str`. Trusted: the outcome is the one that
/// `string_text` names.
#[verifier::external_body]
pub(crate) fn json_string<'a>(v: &'a serde_json::Value) -> (r: Option<&'a str>)
    ensures
        match r {
            Some(text) => string_text(json_text(*v)) == Some(text@),
            None => string_text(json_text(*v)) is None,
        },
{
    v.as_str()
}

} // verus!
