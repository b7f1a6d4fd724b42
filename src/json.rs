//! The JSON parsing that request and response bodies go through.
use std::collections::HashMap;
use vstd::prelude::*;

verus! {

#[verifier::external_type_specification]
#[verifier::external_body]
pub struct ExJsonValue(serde_json::Value);

#[verifier::external_type_specification]
#[verifier::external_body]
pub struct ExJsonError(serde_json::Error);

/// Whether the text is one JSON document (whitespace around it allowed),
/// nested no deeper than serde_json's fixed limit of 128 levels.
pub uninterp spec fn is_json_text(s: Seq<char>) -> bool;

/// The JSON value that the text parses to.
pub uninterp spec fn json_value_of(s: Seq<char>) -> serde_json::Value;

/// Whether the text is one JSON object whose values are all strings.
pub uninterp spec fn is_string_map_json(s: Seq<char>) -> bool;

/// The pairs of the JSON object of strings that the text parses to; of a
/// repeated key, the last value.
pub uninterp spec fn string_map_of(s: Seq<char>) -> Map<Seq<char>, Seq<char>>;

/// Relies on serde_json::from_str into serde_json::Value: whether it
/// succeeds, and the value, depend on the text alone.
#[verifier::external_body]
pub(crate) fn parse_value(s: &str) -> (r: Result<serde_json::Value, serde_json::Error>)
    ensures
        r is Ok <==> is_json_text(s@),
        r matches Ok(v) ==> v == json_value_of(s@),
{
    serde_json::from_str::<serde_json::Value>(s)
}

/// Relies on serde_json::from_str into a map of strings: whether it
/// succeeds, and the pairs, depend on the text alone.
#[verifier::external_body]
pub(crate) fn parse_string_map(s: &str) -> (r: Result<HashMap<String, String>, serde_json::Error>)
    ensures
        r is Ok <==> is_string_map_json(s@),
        r matches Ok(m) ==> m.deep_view() == string_map_of(s@),
{
    serde_json::from_str::<HashMap<String, String>>(s)
}

/// Relies on the Display impl of serde_json::Error for a readable message.
#[verifier::external_body]
pub(crate) fn error_text(e: &serde_json::Error) -> (r: String) {
    e.to_string()
}

} // verus!
