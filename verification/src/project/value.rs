//! A JSON document as the project codec reads it.
//!
//! The parser is `serde_json`'s; what comes out of it is held here as plain
//! values, so that every decision the codec takes on a document — is there a
//! schema version, which files does a model name — is made by verified code.

use vstd::prelude::*;

verus! {

#[verifier::external_type_specification]
#[verifier::external_body]
pub struct ExJsonError(serde_json::Error);

#[verifier::external_type_specification]
#[verifier::external_body]
pub struct ExSerdeValue(serde_json::Value);

/// A parsed JSON value.
///
/// A number keeps what the codec reads of it: its value when it is a whole
/// number that fits in a `u64`, and `None` for any other number. An object
/// keeps its entries in the order `serde_json`'s map gives them; its keys are
/// distinct, the last of a repeated key having won.
#[derive(Debug)]
pub enum JsonValue {
    Null,
    Bool(bool),
    Number(Option<u64>),
    Text(String),
    Array(Vec<JsonValue>),
    Object(Vec<(String, JsonValue)>),
}

/// The value stored under `key` among `entries`, the first such entry.
pub open spec fn lookup(entries: Seq<(String, JsonValue)>, key: Seq<char>) -> Option<JsonValue>
    decreases entries.len(),
{
    if entries.len() == 0 {
        None
    } else if entries[0].0@ == key {
        Some(entries[0].1)
    } else {
        lookup(entries.drop_first(), key)
    }
}

/// `v[key]`: the member `key` of an object, and nothing for any other value.
pub open spec fn field(v: JsonValue, key: Seq<char>) -> Option<JsonValue> {
    match v {
        JsonValue::Object(entries) => lookup(entries@, key),
        _ => None,
    }
}

/// The text of a string value.
pub open spec fn text_of_value(v: JsonValue) -> Option<Seq<char>> {
    match v {
        JsonValue::Text(s) => Some(s@),
        _ => None,
    }
}

/// The whole number a value holds, when it is a number that fits in a `u64`.
pub open spec fn u64_of_value(v: JsonValue) -> Option<u64> {
    match v {
        JsonValue::Number(n) => n,
        _ => None,
    }
}

/// What `serde_json` parses these bytes into, or `None` when they are not a
/// JSON document.
pub uninterp spec fn json_document(bytes: Seq<u8>) -> Option<JsonValue>;

/// Parse JSON text (`serde_json::from_slice` into a `serde_json::Value`).
///
/// Trusted: the result is `json_document` of the bytes, a function of the
/// bytes alone. What that function is, is `serde_json`'s parser; it is named
/// here, not restated.
#[verifier::external_body]
pub(crate) fn parse_json(bytes: &[u8]) -> (r: Result<JsonValue, serde_json::Error>)
    ensures
        r is Ok <==> json_document(bytes@) is Some,
        r matches Ok(v) ==> json_document(bytes@) == Some(v),
{
    serde_json::from_slice::<serde_json::Value>(bytes).map(from_serde)
}

/// Move a `serde_json::Value` into a [`JsonValue`], variant for variant
/// (`serde_json::Number::as_u64` for numbers).
#[verifier::external_body]
fn from_serde(v: serde_json::Value) -> JsonValue {
    match v {
        serde_json::Value::Null => JsonValue::Null,
        serde_json::Value::Bool(b) => JsonValue::Bool(b),
        serde_json::Value::Number(n) => JsonValue::Number(n.as_u64()),
        serde_json::Value::String(s) => JsonValue::Text(s),
        serde_json::Value::Array(a) => JsonValue::Array(a.into_iter().map(from_serde).collect()),
        serde_json::Value::Object(m) => JsonValue::Object(
            m.into_iter().map(|(k, v)| (k, from_serde(v))).collect(),
        ),
    }
}

impl JsonValue {
    /// `self[key]`, like `serde_json::Value::get` with a string index.
    pub fn get(&self, key: &str) -> (r: Option<&JsonValue>)
        ensures
            r is None <==> field(*self, key@) is None,
            r matches Some(x) ==> field(*self, key@) == Some(*x),
    {
        match self {
            JsonValue::Object(entries) => {
                let mut i: usize = 0;
                assert(entries@.subrange(0, entries.len() as int) == entries@);
                while i < entries.len()
                    invariant
                        *self == JsonValue::Object(*entries),
                        i <= entries.len(),
                        lookup(entries@, key@) == lookup(entries@.subrange(i as int, entries.len() as int), key@),
                    decreases entries.len() - i,
                {
                    let ghost rest = entries@.subrange(i as int, entries.len() as int);
                    assert(rest.drop_first() == entries@.subrange(i + 1, entries.len() as int));
                    assert(rest[0] == entries@[i as int]);
                    if crate::text::text_eq(entries[i].0.as_str(), key) {
                        return Some(&entries[i].1);
                    }
                    i = i + 1;
                }
                None
            },
            _ => None,
        }
    }

    /// The elements of an array value.
    pub fn as_array(&self) -> (r: Option<&Vec<JsonValue>>)
        ensures
            r is None <==> !(*self is Array),
            r matches Some(a) ==> *self == JsonValue::Array(*a),
    {
        match self {
            JsonValue::Array(a) => Some(a),
            _ => None,
        }
    }

    /// The text of a string value.
    pub fn as_str(&self) -> (r: Option<&str>)
        ensures
            r is None <==> text_of_value(*self) is None,
            r matches Some(s) ==> text_of_value(*self) == Some(s@),
    {
        match self {
            JsonValue::Text(s) => Some(s.as_str()),
            _ => None,
        }
    }

    /// The whole number a value holds, when it fits in a `u64`.
    pub fn as_u64(&self) -> (r: Option<u64>)
        ensures
            r == u64_of_value(*self),
    {
        match self {
            JsonValue::Number(n) => *n,
            _ => None,
        }
    }
}

} // verus!
