//! The trusted boundary around the structured-data crate.
//!
//! Documents and filters are arbitrary structured values; the engine reads
//! only their top-level shape (the document array of a response, the fields
//! of one document, the continuation cursor). Everything below that shape is
//! carried through opaquely.

use vstd::prelude::*;
use crate::document::Document;

verus! {

#[verifier::external_type_specification]
#[verifier::external_body]
pub struct ExValue(serde_json::Value);

/// Whether a piece of text parses as valid structured data.
pub uninterp spec fn json_ok(s: Seq<char>) -> bool;

/// Relies on serde_json::from_str::<serde_json::Value>: whether a piece of
/// text parses as structured data is a function of the text alone.
#[verifier::external_body]
pub(crate) fn json_filter_ok(s: &str) -> (r: bool)
    ensures
        r == json_ok(s@),
{
    serde_json::from_str::<serde_json::Value>(s).is_ok()
}

/// Relies on serde_json::Value::pointer and Value::as_array: returns the
/// array found under "/hits/hits" when that location holds an array, cloning
/// its elements, and nothing otherwise.
#[verifier::external_body]
pub(crate) fn response_hits(v: &serde_json::Value) -> (r: Option<Vec<serde_json::Value>>)
{
    v.pointer("/hits/hits").and_then(serde_json::Value::as_array).map(|a| a.to_vec())
}

/// Relies on serde_json::Value::as_object: returns the fields of an object
/// value as ordered pairs, cloning each key and value, and nothing when the
/// value is not an object.
#[verifier::external_body]
pub(crate) fn object_fields(v: &serde_json::Value) -> (r: Option<Vec<(String, serde_json::Value)>>)
{
    v.as_object().map(|m| m.iter().map(|(k, x)| (k.clone(), x.clone())).collect())
}

/// Relies on serde_json::Value::get and Value::as_str: returns the string
/// held by the named top-level field, and nothing when the field is absent
/// or not a string.
#[verifier::external_body]
pub(crate) fn string_field(v: &serde_json::Value, key: &str) -> (r: Option<String>)
{
    v.get(key).and_then(serde_json::Value::as_str).map(str::to_owned)
}

/// A page of raw results as handed back by the remote engine, reduced to the
/// shape the session reads: the document array (absent when the expected
/// field is missing, not an array, or holds a non-object entry) and the
/// continuation cursor (absent when missing or not a string).
pub struct PageInput {
    pub docs: Option<Vec<Document>>,
    pub cursor: Option<String>,
}

/// Reduces one raw response value to the shape the session reads.
pub fn read_page(v: &serde_json::Value) -> PageInput {
    let cursor = string_field(v, "_scroll_id");
    let hits = response_hits(v);
    match hits {
        None => PageInput { docs: None, cursor },
        Some(raw) => {
            let mut docs: Vec<Document> = Vec::new();
            let mut idx: usize = 0;
            while idx < raw.len()
                decreases raw.len() - idx,
            {
                match object_fields(&raw[idx]) {
                    None => {
                        return PageInput { docs: None, cursor };
                    },
                    Some(fields) => {
                        docs.push(Document { fields });
                    },
                }
                idx = idx + 1;
            }
            PageInput { docs: Some(docs), cursor }
        },
    }
}

} // verus!
