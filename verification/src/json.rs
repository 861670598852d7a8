//! JSON values, as the `serde_json` crate holds them. A value is opaque; what is read from it is
//! stated over its compact text.
use vstd::prelude::*;

verus! {

/// `serde_json`'s value.
#[verifier::external_type_specification]
#[verifier::external_body]
pub struct ExValue(serde_json::Value);

/// What a value holds: its compact text.
pub uninterp spec fn json_text(value: serde_json::Value) -> Seq<char>;

/// The compact text of the value that a JSON text stands for; nothing where it is no JSON.
pub uninterp spec fn json_parsed(text: Seq<char>) -> Option<Seq<char>>;

/// The compact text of an object's member, where the text is an object's and it has the member.
pub uninterp spec fn json_member(text: Seq<char>, key: Seq<char>) -> Option<Seq<char>>;

/// The compact text of the value at a pointer inside the value whose text is given.
pub uninterp spec fn json_at(text: Seq<char>, pointer: Seq<char>) -> Option<Seq<char>>;

/// The string that a text stands for, where it is a string's.
pub uninterp spec fn json_string(text: Seq<char>) -> Option<Seq<char>>;

/// The integer that a text stands for, where it is that of an integer in the range of `i64`.
pub uninterp spec fn json_integer(text: Seq<char>) -> Option<i64>;

/// The text is an object's.
pub uninterp spec fn json_is_object(text: Seq<char>) -> bool;

/// The compact texts of an array's elements, where the text is an array's.
pub uninterp spec fn json_elements(text: Seq<char>) -> Option<Seq<Seq<char>>>;

/// The texts of values.
pub open spec fn json_texts(values: Seq<serde_json::Value>) -> Seq<Seq<char>> {
    values.map_values(|value: serde_json::Value| json_text(value))
}

/// Calls `serde_json::from_str` for a value. What it gives depends on the text alone.
#[verifier::external_body]
pub(crate) fn parse_json(text: &str) -> (result: Option<serde_json::Value>)
    ensures
        match result {
            Some(value) => json_parsed(text@) == Some(json_text(value)),
            None => json_parsed(text@) is None,
        },
{
    serde_json::from_str(text).ok()
}

/// Calls `Value::get` with a key. What it gives depends on the value and the key alone.
#[verifier::external_body]
pub(crate) fn member<'a>(value: &'a serde_json::Value, key: &str) -> (result: Option<
    &'a serde_json::Value,
>)
    ensures
        match result {
            Some(found) => json_member(json_text(*value), key@) == Some(json_text(*found)),
            None => json_member(json_text(*value), key@) is None,
        },
{
    value.get(key)
}

/// Calls `Value::pointer`. What it gives depends on the value and the pointer alone.
#[verifier::external_body]
pub(crate) fn at_pointer<'a>(value: &'a serde_json::Value, pointer: &str) -> (result: Option<
    &'a serde_json::Value,
>)
    ensures
        match result {
            Some(found) => json_at(json_text(*value), pointer@) == Some(json_text(*found)),
            None => json_at(json_text(*value), pointer@) is None,
        },
{
    value.pointer(pointer)
}

/// Calls `Value::as_str`. What it gives depends on the value alone.
#[verifier::external_body]
pub(crate) fn as_text(value: &serde_json::Value) -> (result: Option<&str>)
    ensures
        match result {
            Some(text) => json_string(json_text(*value)) == Some(text@),
            None => json_string(json_text(*value)) is None,
        },
{
    value.as_str()
}

/// The boolean that a text stands for, where it is a boolean's.
pub open spec fn json_flag(text: Seq<char>) -> Option<bool> {
    if text == "true"@ {
        Some(true)
    } else if text == "false"@ {
        Some(false)
    } else {
        None
    }
}

/// Calls `Value::as_bool`: it gives a boolean's value, and nothing for any other value.
#[verifier::external_body]
pub(crate) fn as_flag(value: &serde_json::Value) -> (result: Option<bool>)
    ensures
        result == json_flag(json_text(*value)),
{
    value.as_bool()
}

/// Calls `Value::as_i64`. What it gives depends on the value alone.
#[verifier::external_body]
pub(crate) fn as_integer(value: &serde_json::Value) -> (result: Option<i64>)
    ensures
        result == json_integer(json_text(*value)),
{
    value.as_i64()
}

/// Calls `Value::is_object`. What it gives depends on the value alone.
#[verifier::external_body]
pub(crate) fn is_object(value: &serde_json::Value) -> (result: bool)
    ensures
        result == json_is_object(json_text(*value)),
{
    value.is_object()
}

/// Calls `Value::as_array`. The elements depend on the value alone.
#[verifier::external_body]
pub(crate) fn as_elements(value: &serde_json::Value) -> (result: Option<&Vec<serde_json::Value>>)
    ensures
        match result {
            Some(values) => json_elements(json_text(*value)) == Some(json_texts(values@)),
            None => json_elements(json_text(*value)) is None,
        },
{
    value.as_array()
}

/// Makes `Value::Null`, whose text is `null`.
#[verifier::external_body]
pub(crate) fn null_value() -> (result: serde_json::Value)
    ensures
        json_text(result) == "null"@,
{
    serde_json::Value::Null
}

/// Makes `Value::Array` of values: its elements are those values.
#[verifier::external_body]
pub(crate) fn array_of(values: Vec<serde_json::Value>) -> (result: serde_json::Value)
    ensures
        json_elements(json_text(result)) == Some(json_texts(values@)),
{
    serde_json::Value::Array(values)
}

/// Calls `Value::clone`: the copy holds what the value holds.
#[verifier::external_body]
pub(crate) fn copy_of(value: &serde_json::Value) -> (result: serde_json::Value)
    ensures
        json_text(result) == json_text(*value),
{
    value.clone()
}

} // verus!
