//! JSON texts of the columns that hold JSON: the tag list and the metadata.
use crate::domain::strings_view;
use vstd::prelude::*;

verus! {

/// The JSON text `serde_json::to_string` writes for a list of strings.
pub uninterp spec fn json_of_strings(v: Seq<Seq<char>>) -> Seq<char>;

/// The list of strings `serde_json::from_str` reads from a text, or `None`
/// when the text is not a JSON array of strings.
pub uninterp spec fn strings_of_json(s: Seq<char>) -> Option<Seq<Seq<char>>>;

/// `serde_json::from_str::<serde_json::Value>` accepts the text.
pub uninterp spec fn json_valid(s: Seq<char>) -> bool;

/// Calls `serde_json::to_string` on a list of strings. The crate documents
/// that serialization fails only for a failing `Serialize` impl or a map
/// with non-string keys, neither of which a list of strings has. The text is
/// a JSON array of JSON strings (each escaped), which
/// `serde_json::from_str::<Vec<String>>` reads back as the same list.
#[verifier::external_body]
pub fn strings_to_json(v: &[String]) -> (r: String)
    ensures
        r@ == json_of_strings(strings_view(v@)),
        strings_of_json(r@) == Some(strings_view(v@)),
{
    match serde_json::to_string(v) {
        Ok(s) => s,
        Err(_) => String::new(),
    }
}

/// Calls `serde_json::from_str::<Vec<String>>`.
#[verifier::external_body]
pub fn strings_from_json(s: &str) -> (r: Option<Vec<String>>)
    ensures
        r is None <==> strings_of_json(s@) is None,
        r matches Some(v) ==> strings_of_json(s@) == Some(strings_view(v@)),
{
    match serde_json::from_str::<Vec<String>>(s) {
        Ok(v) => Some(v),
        Err(_) => None,
    }
}

/// Calls `serde_json::from_str::<serde_json::Value>` and reports whether it
/// succeeds.
#[verifier::external_body]
pub fn is_json(s: &str) -> (r: bool)
    ensures
        r == json_valid(s@),
{
    serde_json::from_str::<serde_json::Value>(s).is_ok()
}

} // verus!
