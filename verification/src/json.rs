use vstd::prelude::*;

verus! {

/// Whether `text` is a JSON document (what `serde_json::from_str` accepts
/// as a `serde_json::Value`).
pub uninterp spec fn json_parses(text: Seq<char>) -> bool;

/// The string that the JSON pointer `pointer` leads to in the document
/// `text`: `None` when `text` is not JSON, when the pointer leads to no
/// value, or when that value is not a string.
pub uninterp spec fn json_str_at(text: Seq<char>, pointer: Seq<char>) -> Option<Seq<char>>;

/// Whether the JSON pointer `pointer` leads to a value in the document
/// `text` (false when `text` is not JSON).
pub uninterp spec fn json_has(text: Seq<char>, pointer: Seq<char>) -> bool;

/// The length of the array that the JSON pointer `pointer` leads to in the
/// document `text`: `None` when `text` is not JSON, when the pointer leads
/// to no value, or when that value is not an array.
pub uninterp spec fn json_array_len_at(text: Seq<char>, pointer: Seq<char>) -> Option<usize>;

/// The views of an optional string.
pub open spec fn opt_view(o: Option<String>) -> Option<Seq<char>> {
    match o {
        Some(s) => Some(s@),
        None => None,
    }
}

/// `serde_json::from_str::<Value>`: whether `text` parses as JSON.
#[verifier::external_body]
pub(crate) fn json_is_valid(text: &str) -> (r: bool)
    ensures
        r == json_parses(text@),
{
    serde_json::from_str::<serde_json::Value>(text).is_ok()
}

/// `serde_json::from_str::<Value>`, then `Value::pointer` and
/// `Value::as_str`: the string at `pointer` in the document `text`. A
/// string is found only in a document that parses.
#[verifier::external_body]
pub(crate) fn json_str(text: &str, pointer: &str) -> (r: Option<String>)
    ensures
        opt_view(r) == json_str_at(text@, pointer@),
        r is Some ==> json_parses(text@),
{
    match serde_json::from_str::<serde_json::Value>(text) {
        Ok(v) => v.pointer(pointer).and_then(serde_json::Value::as_str).map(String::from),
        Err(_) => None,
    }
}

/// `serde_json::from_str::<Value>`, then `Value::pointer`: whether
/// `pointer` leads to a value in the document `text`. A value is found only
/// in a document that parses.
#[verifier::external_body]
pub(crate) fn json_present(text: &str, pointer: &str) -> (r: bool)
    ensures
        r == json_has(text@, pointer@),
        r ==> json_parses(text@),
{
    match serde_json::from_str::<serde_json::Value>(text) {
        Ok(v) => v.pointer(pointer).is_some(),
        Err(_) => false,
    }
}

/// `serde_json::from_str::<Value>`, then `Value::pointer` and
/// `Value::as_array`: the length of the array at `pointer` in the document
/// `text`. An array is found only in a document that parses.
#[verifier::external_body]
pub(crate) fn json_array_len(text: &str, pointer: &str) -> (r: Option<usize>)
    ensures
        r == json_array_len_at(text@, pointer@),
        r is Some ==> json_parses(text@),
{
    match serde_json::from_str::<serde_json::Value>(text) {
        Ok(v) => v.pointer(pointer).and_then(serde_json::Value::as_array).map(Vec::len),
        Err(_) => None,
    }
}

} // verus!
