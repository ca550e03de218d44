use vstd::prelude::*;

verus! {

/// The text found in the JSON document `text` at the place that the JSON
/// pointer `pointer` names, if `text` is such a document and holds a
/// string there.
pub uninterp spec fn json_text_at(text: Seq<char>, pointer: Seq<char>) -> Option<Seq<char>>;

/// The whole number found in the JSON document `text` at the place that
/// the JSON pointer `pointer` names, if `text` is such a document and
/// holds a number there that is whole and fits.
pub uninterp spec fn json_integer_at(text: Seq<char>, pointer: Seq<char>) -> Option<i64>;

/// The view of a text that may be missing.
pub open spec fn text_view(s: Option<String>) -> Option<Seq<char>> {
    match s {
        Some(s) => Some(s@),
        None => None,
    }
}

/// Reads `text` with `serde_json::from_str` as a `serde_json::Value` and
/// looks up `pointer` in it with `serde_json::Value::pointer`. The result
/// is the string found there; there is none where the text is no JSON
/// document, the pointer leads nowhere, or what it leads to is no string.
/// The contract only names that result.
#[verifier::external_body]
pub(crate) fn json_text(text: &str, pointer: &str) -> (r: Option<String>)
    ensures
        text_view(r) == json_text_at(text@, pointer@),
{
    match serde_json::from_str::<serde_json::Value>(text) {
        Ok(value) => match value.pointer(pointer) {
            Some(serde_json::Value::String(s)) => Some(s.clone()),
            _ => None,
        },
        Err(_) => None,
    }
}

/// Reads `text` with `serde_json::from_str` as a `serde_json::Value`,
/// looks up `pointer` in it with `serde_json::Value::pointer` and takes
/// what is found as a number with `serde_json::Value::as_i64`. There is
/// no result where the text is no JSON document, the pointer leads
/// nowhere, or what it leads to is no whole number within `i64`. The
/// contract only names that result.
#[verifier::external_body]
pub(crate) fn json_integer(text: &str, pointer: &str) -> (r: Option<i64>)
    ensures
        r == json_integer_at(text@, pointer@),
{
    match serde_json::from_str::<serde_json::Value>(text) {
        Ok(value) => match value.pointer(pointer) {
            Some(found) => found.as_i64(),
            None => None,
        },
        Err(_) => None,
    }
}

} // verus!
