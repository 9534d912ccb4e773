//! The JSON documents this layer reads and writes, through serde_json.
//!
//! What a JSON document holds is decided by serde_json, not restated here:
//! each parse result gets an uninterpreted name, and the contracts of the
//! verified callers speak of those names.

use vstd::prelude::*;

verus! {

/// The serde_json encoding of the pointer document `{"vault_path": path}`.
pub uninterp spec fn pointer_doc_of(path: Seq<char>) -> Seq<u8>;

/// The `vault_path` string serde_json reads back out of a document: `None`
/// where the bytes do not parse, or the field is absent or not a string.
pub uninterp spec fn parsed_pointer_of(bytes: Seq<u8>) -> Option<Seq<char>>;

/// Relies on serde_json::Value::to_string: the encoding of
/// `{"vault_path": <path>}` is a function of the path alone, and reading
/// the field back yields the path unchanged, because JSON string escaping
/// is lossless.
#[verifier::external_body]
pub fn encode_pointer_doc(path: &String) -> (r: Vec<u8>)
    ensures
        r@ == pointer_doc_of(path@),
        parsed_pointer_of(r@) == Some(path@),
{
    let mut doc = serde_json::Map::new();
    doc.insert("vault_path".to_string(), serde_json::Value::String(path.clone()));
    serde_json::Value::Object(doc).to_string().into_bytes()
}

/// Relies on serde_json::from_slice, Value::get and Value::as_str: which
/// `vault_path` string a document carries is a function of the bytes alone.
#[verifier::external_body]
pub fn decode_pointer_doc(bytes: &Vec<u8>) -> (r: Option<String>)
    ensures
        (match r {
            Some(p) => parsed_pointer_of(bytes@) == Some(p@),
            None => parsed_pointer_of(bytes@) is None,
        }),
{
    match serde_json::from_slice::<serde_json::Value>(bytes) {
        Ok(v) => match v.get("vault_path") {
            Some(f) => match f.as_str() {
                Some(s) => Some(s.to_string()),
                None => None,
            },
            None => None,
        },
        Err(_) => None,
    }
}

/// The `magic` string and `version` integer serde_json reads out of a
/// header document: `None` in a position where the bytes do not parse, or
/// the field is absent or of another type.
pub uninterp spec fn header_fields_of(bytes: Seq<u8>) -> (Option<Seq<char>>, Option<u64>);

/// Relies on serde_json::from_slice, Value::get, Value::as_str and
/// Value::as_u64: the two header fields are a function of the bytes alone.
#[verifier::external_body]
pub fn parse_header_fields(bytes: &Vec<u8>) -> (r: (Option<String>, Option<u64>))
    ensures
        header_fields_of(bytes@).0 == (match r.0 {
            Some(m) => Some(m@),
            None => None::<Seq<char>>,
        }),
        header_fields_of(bytes@).1 == r.1,
{
    match serde_json::from_slice::<serde_json::Value>(bytes) {
        Ok(v) => {
            let magic = match v.get("magic") {
                Some(f) => f.as_str().map(str::to_string),
                None => None,
            };
            let version = match v.get("version") {
                Some(f) => f.as_u64(),
                None => None,
            };
            (magic, version)
        },
        Err(_) => (None, None),
    }
}

/// Whether serde_json accepts the bytes as a JSON document.
pub uninterp spec fn json_parses(bytes: Seq<u8>) -> bool;

/// Relies on serde_json::from_slice: whether bytes parse as JSON is a
/// function of the bytes alone.
#[verifier::external_body]
pub fn check_json_parses(bytes: &Vec<u8>) -> (r: bool)
    ensures
        r == json_parses(bytes@),
{
    serde_json::from_slice::<serde_json::Value>(bytes).is_ok()
}

} // verus!
