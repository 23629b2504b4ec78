//! The trusted boundary to the JSON parser.
//!
//! The engine never inspects parsed JSON values directly: every question it
//! asks about a byte span (does it parse? what is the text of a field? how
//! long is an array?) is answered by a small wrapper around `serde_json`,
//! and the answer is named by an uninterpreted spec function of the span
//! alone.  All of these are deterministic functions of their byte-string
//! arguments: `serde_json` parses a given span the same way in every
//! process, and re-serializing a `Value` (whose maps are ordered) is a
//! function of that value.

use vstd::prelude::*;

verus! {

/// Whether `serde_json` accepts `s` as a complete JSON document.
pub uninterp spec fn json_accepts(s: Seq<u8>) -> bool;

/// The canonical re-serialization of field `name` of the JSON object
/// encoded by `s`, or `None` if `s` is not an object with that field.
pub uninterp spec fn json_field(s: Seq<u8>, name: Seq<char>) -> Option<Seq<u8>>;

/// The length of the JSON array encoded by `s`, or `None` if `s` is not
/// an array.
pub uninterp spec fn json_array_len(s: Seq<u8>) -> Option<int>;

/// The canonical re-serialization of element `i` of the JSON array
/// encoded by `s`, or `None` if `s` is not an array or `i` is out of range.
pub uninterp spec fn json_elem(s: Seq<u8>, i: int) -> Option<Seq<u8>>;

/// The character content of the JSON string encoded by `s` (decoded, as
/// UTF-8 bytes), or `None` if `s` is not a JSON string.
pub uninterp spec fn json_text(s: Seq<u8>) -> Option<Seq<u8>>;

/// Relies on `serde_json::from_slice::<Value>`: whether the span is a
/// syntactically valid JSON document.
#[verifier::external_body]
pub fn parses_as_json(doc: &[u8]) -> (r: bool)
    ensures
        r == json_accepts(doc@),
{
    serde_json::from_slice::<serde_json::Value>(doc).is_ok()
}

/// Relies on `serde_json::from_slice::<Value>`, `Value::get` with a string
/// key, and `serde_json::to_vec`: extracts one field of an object and hands
/// it back re-serialized.
#[verifier::external_body]
pub fn get_field(doc: &[u8], name: &str) -> (r: Option<Vec<u8>>)
    ensures
        r is Some <==> json_field(doc@, name@) is Some,
        r matches Some(v) ==> json_field(doc@, name@) == Some(v@),
        r is Some ==> json_accepts(doc@),
{
    let parsed: serde_json::Value = serde_json::from_slice(doc).ok()?;
    let field: &serde_json::Value = parsed.get(name)?;
    serde_json::to_vec(field).ok()
}

/// Relies on `serde_json::from_slice::<Value>` and `Value::as_array`: the
/// number of elements when the span is a JSON array.
#[verifier::external_body]
pub fn get_array_len(doc: &[u8]) -> (r: Option<usize>)
    ensures
        r is Some <==> json_array_len(doc@) is Some,
        r matches Some(n) ==> json_array_len(doc@) == Some(n as int),
{
    let parsed: serde_json::Value = serde_json::from_slice(doc).ok()?;
    let items: &Vec<serde_json::Value> = parsed.as_array()?;
    Some(items.len())
}

/// Relies on `serde_json::from_slice::<Value>`, `Value::get` with a usize
/// index (Some exactly when the value is an array and the index is in
/// range), and `serde_json::to_vec`.
#[verifier::external_body]
pub fn get_elem(doc: &[u8], i: usize) -> (r: Option<Vec<u8>>)
    ensures
        r is Some <==> json_elem(doc@, i as int) is Some,
        r matches Some(v) ==> json_elem(doc@, i as int) == Some(v@),
        json_array_len(doc@) matches Some(n) && i < n ==> r is Some,
{
    let parsed: serde_json::Value = serde_json::from_slice(doc).ok()?;
    let elem: &serde_json::Value = parsed.get(i)?;
    serde_json::to_vec(elem).ok()
}

/// Relies on `serde_json::from_slice::<Value>` and `Value::as_str`: the
/// decoded content of a JSON string, as UTF-8 bytes.
#[verifier::external_body]
pub fn get_text(doc: &[u8]) -> (r: Option<Vec<u8>>)
    ensures
        r is Some <==> json_text(doc@) is Some,
        r matches Some(v) ==> json_text(doc@) == Some(v@),
{
    let parsed: serde_json::Value = serde_json::from_slice(doc).ok()?;
    let content: &str = parsed.as_str()?;
    Some(content.as_bytes().to_vec())
}

} // verus!
