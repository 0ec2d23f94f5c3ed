//! The boundary to the JSON parser. The library never reads a parsed
//! document directly: every `serde_json::Value` is opaque here, and what
//! it holds is spoken of through the mathematical document model
//! [`JsonRep`] and the uninterpreted names below. The verified decoders in
//! the rest of the crate work against these contracts alone.
use vstd::prelude::*;

verus! {

/// Mathematical model of a parsed JSON document.
///
/// A number appears either as `UNum` (a non-negative integer that fits in
/// `u64`, the only numeric form the event shapes use) or as `OtherNum`
/// (any other number, which the decoders reject). An `OtherNum` carries
/// the text the serializer writes for it, so that what a document
/// serializes to stays a function of the model. An object is a map from
/// key to value; a later duplicate key overwrites an earlier one while
/// parsing, so one map entry per key is faithful.
pub enum JsonRep {
    Null,
    Truth(bool),
    UNum(u64),
    OtherNum(Seq<char>),
    Text(Seq<char>),
    Arr(Seq<JsonRep>),
    Obj(Map<Seq<char>, JsonRep>),
}

#[verifier::external_type_specification]
#[verifier::external_body]
pub struct ExJsonValue(serde_json::Value);

/// The document a given `serde_json::Value` holds.
pub uninterp spec fn json_rep(v: serde_json::Value) -> JsonRep;

/// What the JSON parser makes of a string: `None` when the parser
/// rejects the text, otherwise the parsed document.
pub uninterp spec fn json_doc_of_text(s: Seq<char>) -> Option<JsonRep>;

/// What the JSON parser makes of a byte slice: `None` when the parser
/// rejects the bytes, otherwise the parsed document.
pub uninterp spec fn json_doc_of_bytes(b: Seq<u8>) -> Option<JsonRep>;

/// The canonical text the JSON serializer writes for a document.
pub uninterp spec fn json_text_of(j: JsonRep) -> Seq<char>;

/// Relies on `serde_json::from_str::<Value>`: whether a string parses as
/// JSON, and the resulting document, depend on the characters alone.
#[verifier::external_body]
pub(crate) fn parse_json_text(s: &str) -> (r: Option<serde_json::Value>)
    ensures
        match r {
            Some(v) => json_doc_of_text(s@) == Some(json_rep(v)),
            None => json_doc_of_text(s@) is None,
        },
{
    serde_json::from_str::<serde_json::Value>(s).ok()
}

/// Relies on `serde_json::from_slice::<Value>`: whether a byte slice
/// parses as JSON, and the resulting document, depend on the bytes alone.
#[verifier::external_body]
pub(crate) fn parse_json_bytes(b: &[u8]) -> (r: Option<serde_json::Value>)
    ensures
        match r {
            Some(v) => json_doc_of_bytes(b@) == Some(json_rep(v)),
            None => json_doc_of_bytes(b@) is None,
        },
{
    serde_json::from_slice::<serde_json::Value>(b).ok()
}

/// Relies on `serde_json::Value::get` with a string index: on an object it
/// looks the key up, on anything else it returns `None`.
#[verifier::external_body]
pub(crate) fn json_get<'a>(v: &'a serde_json::Value, key: &str) -> (r: Option<
    &'a serde_json::Value,
>)
    ensures
        match json_rep(*v) {
            JsonRep::Obj(m) => {
                &&& r is Some <==> m.dom().contains(key@)
                &&& (r matches Some(x) ==> m.dom().contains(key@) && json_rep(*x) == m[key@])
            },
            _ => r is None,
        },
{
    v.get(key)
}

/// Relies on `serde_json::Value::as_str`: the slice iff the value is a
/// JSON string.
#[verifier::external_body]
pub(crate) fn json_as_text<'a>(v: &'a serde_json::Value) -> (r: Option<&'a str>)
    ensures
        match json_rep(*v) {
            JsonRep::Text(t) => r matches Some(s) && s@ == t,
            _ => r is None,
        },
{
    v.as_str()
}

/// Relies on `serde_json::Value::as_array`: the elements iff the value is
/// a JSON array.
#[verifier::external_body]
pub(crate) fn json_as_array<'a>(v: &'a serde_json::Value) -> (r: Option<
    &'a Vec<serde_json::Value>,
>)
    ensures
        match json_rep(*v) {
            JsonRep::Arr(s) => r matches Some(a) && a@.len() == s.len() && (forall|i: int|
                0 <= i < s.len() ==> json_rep(#[trigger] a@[i]) == s[i]),
            _ => r is None,
        },
{
    v.as_array()
}

/// Relies on `serde_json::Value::as_u64`: the integer iff the value is a
/// non-negative JSON integer that fits in `u64`.
#[verifier::external_body]
pub(crate) fn json_as_u64(v: &serde_json::Value) -> (r: Option<u64>)
    ensures
        match json_rep(*v) {
            JsonRep::UNum(n) => r == Some(n),
            _ => r is None,
        },
{
    v.as_u64()
}

/// Relies on `serde_json::Value::is_object`.
#[verifier::external_body]
pub(crate) fn json_is_object(v: &serde_json::Value) -> (r: bool)
    ensures
        r == (json_rep(*v) is Obj),
{
    v.is_object()
}

/// Relies on `serde_json::Value::is_null`.
#[verifier::external_body]
pub(crate) fn json_is_null(v: &serde_json::Value) -> (r: bool)
    ensures
        r == (json_rep(*v) is Null),
{
    v.is_null()
}

/// Relies on `serde_json::to_string`: what it writes for a `Value`
/// depends on the document alone (object entries are kept ordered by
/// key), so the result is named, not restated. On a `Value` the
/// serializer cannot fail — object keys are strings, and the value's
/// `Serialize` impl only walks its own structure — so the call is total.
#[verifier::external_body]
pub(crate) fn json_to_text(v: &serde_json::Value) -> (r: String)
    ensures
        r@ == json_text_of(json_rep(*v)),
{
    match serde_json::to_string(v) {
        Ok(t) => t,
        Err(_) => String::new(),
    }
}

} // verus!
