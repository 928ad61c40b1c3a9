//! What this crate takes on trust from `serde_json`.
//!
//! A decoded JSON value stays a `serde_json::Value`. Nothing here looks
//! inside one: every question about a value is put to `serde_json`. What a
//! value holds has a model, `Json`, and the answers of `serde_json` are
//! stated over it.

use vstd::prelude::*;

verus! {

#[verifier::external_type_specification]
#[verifier::external_body]
pub struct ExValue(serde_json::Value);

#[verifier::external_type_specification]
#[verifier::external_body]
pub struct ExError(serde_json::Error);

/// A JSON value, as far as this crate reads one: a string with its text,
/// an object with its members by key, or anything else.
pub enum Json {
    Text(Seq<char>),
    Object(Map<Seq<char>, Json>),
    Other,
}

/// The JSON value that a `serde_json::Value` holds.
pub uninterp spec fn json_of(value: serde_json::Value) -> Json;

/// The JSON values that a sequence of `serde_json::Value` holds, in order.
pub open spec fn jsons_of(values: Seq<serde_json::Value>) -> Seq<Json> {
    Seq::new(values.len(), |i: int| json_of(values[i]))
}

/// What `serde_json::from_str` returns for `text` when asked for a sequence
/// of values.
pub uninterp spec fn decoded_array(text: Seq<char>) -> Result<
    Seq<serde_json::Value>,
    serde_json::Error,
>;

/// What `serde_json::from_str` returns for `text` when asked for one value.
pub uninterp spec fn decoded_value(text: Seq<char>) -> Result<serde_json::Value, serde_json::Error>;

/// What `serde_json::from_str` returns for `text` when asked for a list of
/// strings.
pub uninterp spec fn decoded_strings(text: Seq<char>) -> Result<Seq<Seq<char>>, serde_json::Error>;

/// What `serde_json::to_string_pretty` returns for a list of strings.
pub uninterp spec fn encoded_strings(list: Seq<Seq<char>>) -> Result<Seq<char>, serde_json::Error>;

/// The text that `serde_json::Error` displays as.
pub uninterp spec fn error_message(error: serde_json::Error) -> Seq<char>;

/// Calls `serde_json::from_str` for a `Vec<serde_json::Value>`.
///
/// Trusted: the outcome depends on `text` alone, so it has the name
/// `decoded_array`. Nothing is claimed about which texts decode.
#[verifier::external_body]
pub(crate) fn decode_array(text: &str) -> (outcome: Result<
    Vec<serde_json::Value>,
    serde_json::Error,
>)
    ensures
        match outcome {
            Ok(values) => decoded_array(text@) == Ok::<Seq<serde_json::Value>, serde_json::Error>(
                values@,
            ),
            Err(error) => decoded_array(text@) == Err::<Seq<serde_json::Value>, serde_json::Error>(
                error,
            ),
        },
{
    serde_json::from_str::<Vec<serde_json::Value>>(text)
}

/// Calls `serde_json::from_str` for a single `serde_json::Value`.
///
/// Trusted: the outcome depends on `text` alone, so it has the name
/// `decoded_value`. Nothing is claimed about which texts decode.
#[verifier::external_body]
pub(crate) fn decode_value(text: &str) -> (outcome: Result<serde_json::Value, serde_json::Error>)
    ensures
        outcome == decoded_value(text@),
{
    serde_json::from_str::<serde_json::Value>(text)
}

/// Calls `serde_json::from_str` for a `Vec<String>`.
///
/// Trusted: the outcome depends on `text` alone, so it has the name
/// `decoded_strings`. Nothing is claimed about which texts decode.
#[verifier::external_body]
pub(crate) fn decode_strings(text: &str) -> (outcome: Result<Vec<String>, serde_json::Error>)
    ensures
        match outcome {
            Ok(list) => decoded_strings(text@) == Ok::<Seq<Seq<char>>, serde_json::Error>(
                Seq::new(list@.len(), |i: int| list@[i]@),
            ),
            Err(error) => decoded_strings(text@) == Err::<Seq<Seq<char>>, serde_json::Error>(error),
        },
{
    serde_json::from_str::<Vec<String>>(text)
}

/// Calls `serde_json::to_string_pretty` on a `Vec<String>`.
///
/// Trusted: the outcome depends on the strings alone, so it has the name
/// `encoded_strings`. Nothing is claimed about the text.
#[verifier::external_body]
pub(crate) fn encode_strings(list: &Vec<String>) -> (outcome: Result<String, serde_json::Error>)
    ensures
        match outcome {
            Ok(text) => encoded_strings(Seq::new(list@.len(), |i: int| list@[i]@)) == Ok::<
                Seq<char>,
                serde_json::Error,
            >(text@),
            Err(error) => encoded_strings(Seq::new(list@.len(), |i: int| list@[i]@)) == Err::<
                Seq<char>,
                serde_json::Error,
            >(error),
        },
{
    serde_json::to_string_pretty(list)
}

/// Calls `serde_json::Value::get` with a string index.
///
/// Trusted: an object that has a member under `key` gives that member;
/// an object without one, and a value that is no object, give none.
#[verifier::external_body]
pub(crate) fn member<'a>(value: &'a serde_json::Value, key: &str) -> (found: Option<
    &'a serde_json::Value,
>)
    ensures
        match found {
            Some(inner) => json_of(*value) is Object && json_of(*value)->Object_0.contains_key(
                key@,
            ) && json_of(*value)->Object_0[key@] == json_of(*inner),
            None => !(json_of(*value) is Object && json_of(*value)->Object_0.contains_key(key@)),
        },
{
    value.get(key)
}

/// Calls `serde_json::Value::as_str`.
///
/// Trusted: a string gives its text, and any other value gives none.
#[verifier::external_body]
pub(crate) fn text<'a>(value: &'a serde_json::Value) -> (held: Option<&'a str>)
    ensures
        match held {
            Some(string) => json_of(*value) == Json::Text(string@),
            None => !(json_of(*value) is Text),
        },
{
    value.as_str()
}

/// Renders a `serde_json::Error` through its `Display` impl.
///
/// Trusted: the text depends on `error` alone, so it has the name
/// `error_message`.
#[verifier::external_body]
pub(crate) fn describe(error: &serde_json::Error) -> (message: String)
    ensures
        message@ == error_message(*error),
{
    error.to_string()
}

} // verus!
