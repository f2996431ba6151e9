//! Trusted boundary to the JSON codec. The remote service replies with JSON
//! text; the state machine only ever reads a handful of fields out of it.
//! Each extractor below names what it returns as an uninterpreted function of
//! the input text, so that callers' contracts can speak of the extracted
//! value exactly without restating the JSON grammar.

use vstd::prelude::*;

verus! {

/// The field named `key` of the top-level JSON object in `body`, when that
/// field is an array: each element's text, non-string elements reading as
/// empty text. `None` when `body` is not well-formed JSON, has no such
/// field, or the field is not an array.
pub uninterp spec fn json_string_array_field(body: Seq<char>, key: Seq<char>) -> Option<
    Seq<Seq<char>>,
>;

/// The field named `key` of the top-level JSON object in `body`, when that
/// field is a boolean.
pub uninterp spec fn json_bool_field(body: Seq<char>, key: Seq<char>) -> Option<bool>;

/// The field named `key` of the top-level JSON object in `body`, when that
/// field is a string.
pub uninterp spec fn json_string_field(body: Seq<char>, key: Seq<char>) -> Option<Seq<char>>;

/// The `id`, `name` and `thumbnailImageUrl` string fields of the top-level
/// JSON object in `body`, in that order, when all three are present.
pub uninterp spec fn json_world_fields(body: Seq<char>) -> Option<(Seq<char>, Seq<char>, Seq<char>)>;

/// Whether `body` is well-formed JSON text.
pub uninterp spec fn json_text_well_formed(body: Seq<char>) -> bool;

/// Relies on serde_json::from_str and serde_json::Value::{get, as_array,
/// as_str}: reads the array field named `key`, element texts in order. The
/// result is a function of the input text alone.
#[verifier::external_body]
pub(crate) fn string_array_field(body: &str, key: &str) -> (r: Option<Vec<String>>)
    ensures
        r is Some <==> json_string_array_field(body@, key@) is Some,
        r matches Some(v) ==> json_string_array_field(body@, key@) matches Some(s)
            && v.deep_view() == s,
{
    let value: serde_json::Value = match serde_json::from_str(body) {
        Ok(v) => v,
        Err(_) => return None,
    };
    let items = value.get(key)?.as_array()?;
    Some(items.iter().map(|e| e.as_str().unwrap_or("").to_string()).collect())
}

/// Relies on serde_json::from_str and serde_json::Value::{get, as_bool}:
/// reads the boolean field named `key`. The result is a function of the
/// input text alone.
#[verifier::external_body]
pub(crate) fn bool_field(body: &str, key: &str) -> (r: Option<bool>)
    ensures
        r == json_bool_field(body@, key@),
{
    let value: serde_json::Value = match serde_json::from_str(body) {
        Ok(v) => v,
        Err(_) => return None,
    };
    value.get(key)?.as_bool()
}

/// Relies on serde_json::from_str and serde_json::Value::{get, as_str}:
/// reads the string field named `key`. The result is a function of the
/// input text alone.
#[verifier::external_body]
pub(crate) fn string_field(body: &str, key: &str) -> (r: Option<String>)
    ensures
        r is Some <==> json_string_field(body@, key@) is Some,
        r matches Some(v) ==> json_string_field(body@, key@) matches Some(s) && v@ == s,
{
    let value: serde_json::Value = match serde_json::from_str(body) {
        Ok(v) => v,
        Err(_) => return None,
    };
    Some(value.get(key)?.as_str()?.to_string())
}

/// Relies on serde_json::from_str and serde_json::Value::{get, as_str}:
/// reads the `id`, `name` and `thumbnailImageUrl` string fields of a
/// location-metadata payload. The result is a function of the input text
/// alone.
#[verifier::external_body]
pub(crate) fn world_fields(body: &str) -> (r: Option<(String, String, String)>)
    ensures
        r is Some <==> json_world_fields(body@) is Some,
        r matches Some(t) ==> json_world_fields(body@) matches Some(s) && (t.0@, t.1@, t.2@) == s,
{
    let value: serde_json::Value = match serde_json::from_str(body) {
        Ok(v) => v,
        Err(_) => return None,
    };
    let id = value.get("id")?.as_str()?;
    let name = value.get("name")?.as_str()?;
    let thumbnail = value.get("thumbnailImageUrl")?.as_str()?;
    Some((id.to_string(), name.to_string(), thumbnail.to_string()))
}

/// Relies on serde_json::from_str: whether the text parses as JSON. The
/// result is a function of the input text alone.
#[verifier::external_body]
pub(crate) fn well_formed(body: &str) -> (r: bool)
    ensures
        r == json_text_well_formed(body@),
{
    serde_json::from_str::<serde_json::Value>(body).is_ok()
}

} // verus!
