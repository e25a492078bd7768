//! The payload extractor: parses decrypted text as a key/value
//! document and extracts one string field by key.

use vstd::prelude::*;
use vstd::string::StringExecFns;

use crate::errors::RageError;

verus! {

/// Declares serde_json's `Value` — one parsed JSON value — as an opaque
/// outside type.
#[verifier::external_type_specification]
#[verifier::external_body]
pub struct ExValue(serde_json::Value);

/// Declares serde_json's `Map` — the key/value document a JSON object
/// parses to — as an opaque outside type; `doc_entries` names what it
/// holds.
#[verifier::external_type_specification]
#[verifier::external_body]
#[verifier::reject_recursive_types(K)]
#[verifier::reject_recursive_types(V)]
pub struct ExMap<K, V>(serde_json::Map<K, V>);

/// What a parsed document holds: each key mapped to the character
/// content of its value when that value is a string, and to nothing
/// when it is of any other kind.
pub uninterp spec fn doc_entries(m: serde_json::Map<String, serde_json::Value>) -> Map<
    Seq<char>,
    Option<Seq<char>>,
>;

/// What parsing a text as a key/value document yields: the entries of
/// the document when the text is one, and nothing otherwise.
pub uninterp spec fn parsed_doc(s: Seq<char>) -> Option<Map<Seq<char>, Option<Seq<char>>>>;

/// A text with its surrounding whitespace removed.
pub uninterp spec fn trimmed(s: Seq<char>) -> Seq<char>;

/// Relies on `str::trim`: removes leading and trailing whitespace and
/// nothing else.
#[verifier::external_body]
fn trim_text(s: &str) -> (r: &str)
    ensures
        r@ == trimmed(s@),
{
    s.trim()
}

/// Relies on `serde_json::from_str`: parses the text as a JSON object
/// of string keys; the result is a function of the text alone.
#[verifier::external_body]
fn parse_doc(s: &str) -> (r: Result<serde_json::Map<String, serde_json::Value>, String>)
    ensures
        r is Ok <==> parsed_doc(s@) is Some,
        r matches Ok(m) ==> doc_entries(m) == parsed_doc(s@)->0,
{
    serde_json::from_str(s).map_err(|e| e.to_string())
}

enum FieldLookup {
    Absent,
    NonString(String),
    Text(String),
}

/// Relies on serde_json's `Map::get` and `Value`: looks the key up in
/// the document and tells a string value apart from the other kinds,
/// reporting the kind found.
#[verifier::external_body]
fn doc_get(m: &serde_json::Map<String, serde_json::Value>, key: &str) -> (r: FieldLookup)
    ensures
        r is Absent <==> !doc_entries(*m).contains_key(key@),
        r matches FieldLookup::Text(v) ==> doc_entries(*m)[key@] == Some(v@),
        r matches FieldLookup::NonString(k) ==> doc_entries(*m)[key@] is None,
{
    match m.get(key) {
        None => FieldLookup::Absent,
        Some(serde_json::Value::String(s)) => FieldLookup::Text(s.clone()),
        Some(serde_json::Value::Null) => FieldLookup::NonString(String::from("null")),
        Some(serde_json::Value::Bool(_)) => FieldLookup::NonString(String::from("boolean")),
        Some(serde_json::Value::Number(_)) => FieldLookup::NonString(String::from("number")),
        Some(serde_json::Value::Array(_)) => FieldLookup::NonString(String::from("array")),
        Some(serde_json::Value::Object(_)) => FieldLookup::NonString(String::from("object")),
    }
}

/// Parses the decrypted text (after trimming surrounding whitespace) as
/// a key/value document and returns the string value at `key`: a text
/// that is no document is malformed, an absent key is not found, and a
/// present key whose value is not a string is of the wrong type.
pub fn extract(plaintext: &str, key: &str) -> (r: Result<String, RageError>)
    ensures
        parsed_doc(trimmed(plaintext@)) is None ==> (r matches Err(
            RageError::MalformedPayload { .. },
        )),
        parsed_doc(trimmed(plaintext@)) matches Some(doc) ==> {
            &&& (doc.contains_key(key@) && doc[key@] is Some) ==> (r matches Ok(v) && Some(v@)
                == doc[key@])
            &&& !doc.contains_key(key@) ==> (r matches Err(RageError::KeyNotFound { key: k })
                && k@ == key@)
            &&& (doc.contains_key(key@) && doc[key@] is None) ==> (r matches Err(
                RageError::KeyType { key: k, .. },
            ) && k@ == key@)
        },
{
    let t = trim_text(plaintext);
    let m = match parse_doc(t) {
        Ok(m) => m,
        Err(detail) => {
            return Err(RageError::MalformedPayload { detail });
        },
    };
    match doc_get(&m, key) {
        FieldLookup::Text(v) => Ok(v),
        FieldLookup::Absent => Err(RageError::KeyNotFound { key: String::from_str(key) }),
        FieldLookup::NonString(kind) => Err(
            RageError::KeyType { key: String::from_str(key), kind },
        ),
    }
}

} // verus!
