//! The calls into `serde_json`, with what is taken on trust about them.

use vstd::prelude::*;

verus! {

#[verifier::external_type_specification]
#[verifier::external_body]
pub struct ExJsonValue(serde_json::Value);

#[verifier::external_type_specification]
#[verifier::external_body]
pub struct ExJsonError(serde_json::Error);

/// What `serde_json::from_str` makes of a text: `None` where it rejects the
/// text, else the members of the value it read (see `value_members`).
pub uninterp spec fn document_members(text: Seq<char>) -> Option<Map<Seq<char>, Option<Seq<char>>>>;

/// The members of a JSON object by key; a value that is no object has none.
/// A member that is a JSON string stands here as its text, any other member
/// as `None`.
pub uninterp spec fn value_members(value: serde_json::Value) -> Map<Seq<char>, Option<Seq<char>>>;

/// The text of a JSON string; `None` for every other kind of value.
pub uninterp spec fn value_text(value: serde_json::Value) -> Option<Seq<char>>;

/// What `serde_json::to_string_pretty` makes of a text: `None` where it
/// fails, else the JSON string literal that it writes, which is the text
/// between double quotes, escaped where JSON asks for it.
pub uninterp spec fn json_literal(text: Seq<char>) -> Option<Seq<char>>;

/// Calls `serde_json::from_str` for a `serde_json::Value`. The result depends
/// on the text alone; nothing is claimed about which texts are accepted.
#[verifier::external_body]
pub(crate) fn parse_value(text: &str) -> (r: Result<serde_json::Value, serde_json::Error>)
    ensures
        r matches Ok(value) ==> document_members(text@) == Some(value_members(value)),
        r is Err ==> document_members(text@) is None,
{
    serde_json::from_str::<serde_json::Value>(text)
}

/// Calls `serde_json::Value::get` with a string index: the member of that
/// name where the value is an object that has one, else `None`.
#[verifier::external_body]
pub(crate) fn member<'a>(value: &'a serde_json::Value, key: &str) -> (r: Option<&'a serde_json::Value>)
    ensures
        r is Some <==> value_members(*value).contains_key(key@),
        r matches Some(found) ==> value_members(*value)[key@] == value_text(*found),
{
    value.get(key)
}

/// Calls `serde_json::Value::as_str`: the text where the value is a JSON
/// string, else `None`.
#[verifier::external_body]
pub(crate) fn text_of<'a>(value: &'a serde_json::Value) -> (r: Option<&'a str>)
    ensures
        r matches Some(text) ==> value_text(*value) == Some(text@),
        r is None ==> value_text(*value) is None,
{
    value.as_str()
}

/// Calls `serde_json::to_string_pretty` on a text, which writes it as one
/// JSON string literal. Whether it succeeds, and what it writes, depends on
/// the text alone; nothing is claimed about which texts it succeeds on.
#[verifier::external_body]
pub(crate) fn literal(text: &str) -> (r: Result<String, serde_json::Error>)
    ensures
        r matches Ok(written) ==> json_literal(text@) == Some(written@),
        r is Err ==> json_literal(text@) is None,
{
    serde_json::to_string_pretty(text)
}

} // verus!
