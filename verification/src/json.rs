//! The JSON values of a response. They are read through `serde_json`, and
//! nothing about them is proved here: this file states what its functions
//! are taken to do.

use vstd::prelude::*;

verus! {

/// A JSON value of `serde_json`. Its inside is seen through the functions
/// below only.
#[verifier::external_type_specification]
#[verifier::external_body]
pub struct ExValue(serde_json::Value);

/// The error of `serde_json`.
#[verifier::external_type_specification]
#[verifier::external_body]
pub struct ExError(serde_json::Error);

/// What `serde_json::from_str` makes of a text: the value that it stands
/// for, or the error that says why it is no JSON.
pub uninterp spec fn json_read(text: Seq<char>) -> Result<serde_json::Value, serde_json::Error>;

/// The error that `serde::de::Error::custom` makes of a message.
pub uninterp spec fn json_failure(message: Seq<char>) -> serde_json::Error;

/// The member `key` of a JSON object, as `serde_json::Value::get` finds it.
pub uninterp spec fn json_member(value: serde_json::Value, key: Seq<char>) -> Option<
    serde_json::Value,
>;

/// The items of a JSON array, as `serde_json::Value::as_array` hands them
/// out.
pub uninterp spec fn json_items(value: serde_json::Value) -> Option<Seq<serde_json::Value>>;

/// The characters of a JSON string, as `serde_json::Value::as_str` hands
/// them out.
pub uninterp spec fn json_text(value: serde_json::Value) -> Option<Seq<char>>;

/// `serde_json::from_str` for a `Value`: the value that the text stands
/// for, or the error where the text is no JSON. The same text always gives
/// the same result.
#[verifier::external_body]
pub(crate) fn parse(source: &str) -> (out: Result<serde_json::Value, serde_json::Error>)
    ensures
        out == json_read(source@),
{
    serde_json::from_str::<serde_json::Value>(source)
}

/// `serde_json::Value::get` with a string: the member of that name where
/// the value is an object that has one, and nothing for any other value.
#[verifier::external_body]
pub(crate) fn member<'a>(value: &'a serde_json::Value, key: &str) -> (out: Option<
    &'a serde_json::Value,
>)
    ensures
        match out {
            Some(found) => json_member(*value, key@) == Some(*found),
            None => json_member(*value, key@) is None,
        },
{
    value.get(key)
}

/// `serde_json::Value::as_array`: the items where the value is an array,
/// and nothing for any other value.
#[verifier::external_body]
pub(crate) fn items(value: &serde_json::Value) -> (out: Option<&Vec<serde_json::Value>>)
    ensures
        match out {
            Some(found) => json_items(*value) == Some(found@),
            None => json_items(*value) is None,
        },
{
    value.as_array()
}

/// `serde_json::Value::as_str`: the characters where the value is a
/// string, and nothing for any other value.
#[verifier::external_body]
pub(crate) fn text(value: &serde_json::Value) -> (out: Option<&str>)
    ensures
        match out {
            Some(found) => json_text(*value) == Some(found@),
            None => json_text(*value) is None,
        },
{
    value.as_str()
}

/// The `clone` of a `serde_json::Value` is the same value.
pub assume_specification[ <serde_json::Value as Clone>::clone ](
    value: &serde_json::Value,
) -> (out: serde_json::Value)
    ensures
        out == *value,
;

/// `serde::de::Error::custom` for the error of `serde_json`: an error with
/// the message `message`. The same message always gives the same error;
/// nothing else is claimed of it.
#[verifier::external_body]
pub(crate) fn failure(message: &str) -> (out: serde_json::Error)
    ensures
        out == json_failure(message@),
{
    <serde_json::Error as serde::de::Error>::custom(message)
}

} // verus!
