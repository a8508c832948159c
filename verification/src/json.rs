//! JSON text handled through `serde_json`.
//!
//! Tool arguments travel through the library as compact JSON text; reading a
//! member of such a text is done by `serde_json`, whose results are named here.

use vstd::prelude::*;

verus! {

/// The compact text that `serde_json` prints for the value that it parses out
/// of `text`, or `None` where `text` is not JSON.
pub uninterp spec fn json_reprint(text: Seq<char>) -> Option<Seq<char>>;

/// The string member `key` of the JSON object in `text`, where `text` parses,
/// is an object, and holds a string under `key`.
pub uninterp spec fn json_str_member(text: Seq<char>, key: Seq<char>) -> Option<Seq<char>>;

/// The items of the array member `key` of the JSON object in `text`, each as
/// its string where it is a string; `None` where there is no such array.
pub uninterp spec fn json_array_member(text: Seq<char>, key: Seq<char>) -> Option<
    Seq<Option<Seq<char>>>,
>;

/// The view of a list of optional strings.
pub open spec fn opt_strings_view(v: Seq<Option<String>>) -> Seq<Option<Seq<char>>> {
    v.map_values(|o: Option<String>| o.deep_view())
}

/// Parses `text` with `serde_json::from_str` into a `serde_json::Value` and
/// prints that value back with its `Display` (compact) form.
///
/// The contract ties the result to `text` through `json_reprint` only: what
/// the parser accepts and how it prints is serde_json's own.
#[verifier::external_body]
pub(crate) fn json_normalize(text: &str) -> (r: Option<String>)
    ensures
        r.deep_view() == json_reprint(text@),
{
    match serde_json::from_str::<serde_json::Value>(text) {
        Ok(v) => Some(v.to_string()),
        Err(_) => None,
    }
}

/// Parses `text` with `serde_json::from_str` and reads member `key` with
/// `serde_json::Value::get`, keeping it where it is a JSON string.
#[verifier::external_body]
pub(crate) fn json_member_str(text: &str, key: &str) -> (r: Option<String>)
    ensures
        r.deep_view() == json_str_member(text@, key@),
{
    let v: serde_json::Value = match serde_json::from_str(text) {
        Ok(v) => v,
        Err(_) => return None,
    };
    match v.get(key) {
        Some(serde_json::Value::String(s)) => Some(s.clone()),
        _ => None,
    }
}

/// Parses `text` with `serde_json::from_str` and reads member `key` with
/// `serde_json::Value::get`, where it is a JSON array; each item is handed
/// back as its string where it is a JSON string, else as `None`.
#[verifier::external_body]
pub(crate) fn json_member_items(text: &str, key: &str) -> (r: Option<Vec<Option<String>>>)
    ensures
        match r {
            Some(items) => json_array_member(text@, key@) == Some(opt_strings_view(items@)),
            None => json_array_member(text@, key@) is None,
        },
{
    let v: serde_json::Value = serde_json::from_str(text).ok()?;
    let items = match v.get(key) {
        Some(serde_json::Value::Array(items)) => items,
        _ => return None,
    };
    let mut out = Vec::new();
    for p in items {
        out.push(match p {
            serde_json::Value::String(s) => Some(s.clone()),
            _ => None,
        });
    }
    Some(out)
}

} // verus!
