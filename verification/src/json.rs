//! A mathematical model of parsed JSON documents, together with the trusted
//! boundary to the JSON parser.
//!
//! The store answers every request with a JSON body. Parsing the raw bytes is
//! the parser crate's job; deciding what shape the parsed document has, and
//! turning it into the library's own types, is this library's logic and is
//! verified. The bridge between the two is the abstract model [`Json`]: the
//! parser hands back an opaque `serde_json::Value`, and each trusted accessor
//! below states, in terms of the model, exactly what the accessor's source
//! does.

use vstd::prelude::*;

verus! {

/// The abstract model of a parsed JSON document.
///
/// Numbers mirror the parser's own storage: a non-negative integer, a negative
/// integer, or a float. The library never reads a float's value, so the model
/// does not carry one. An object is modeled as a sequence of entries;
/// [`obj_lookup`] gives the lookup semantics.
pub enum Json {
    /// The JSON value `null`.
    Null,
    /// A JSON boolean.
    Bool(bool),
    /// A JSON number stored as a non-negative integer.
    UInt(u64),
    /// A JSON number stored as a negative integer.
    Int(i64),
    /// A JSON number stored as a float; its value is never read.
    Float,
    /// A JSON string.
    Str(Seq<char>),
    /// A JSON array.
    Arr(Seq<Json>),
    /// A JSON object: its entries.
    Obj(Seq<(Seq<char>, Json)>),
}

/// Looks a key up among an object's entries: the first entry with that key.
pub open spec fn obj_lookup(entries: Seq<(Seq<char>, Json)>, key: Seq<char>) -> Option<Json>
    decreases entries.len(),
{
    if entries.len() == 0 {
        None
    } else if entries[0].0 == key {
        Some(entries[0].1)
    } else {
        obj_lookup(entries.drop_first(), key)
    }
}

/// A successful lookup result is one of the entries, so an object strictly
/// dominates it in the termination order.
pub proof fn lemma_obj_lookup_decreases(entries: Seq<(Seq<char>, Json)>, key: Seq<char>, j: Json)
    requires
        obj_lookup(entries, key) == Some(j),
    ensures
        decreases_to!(entries => j),
        decreases_to!(Json::Obj(entries) => j),
    decreases entries.len(),
{
    let o = Json::Obj(entries);
    assert(decreases_to!(o => o->Obj_0));
    if entries.len() == 0 {
    } else if entries[0].0 == key {
        assert(decreases_to!(entries => entries[0]));
        assert(decreases_to!(entries[0] => entries[0].1));
    } else {
        lemma_obj_lookup_decreases(entries.drop_first(), key, j);
        assert(decreases_to!(entries => entries.drop_first()));
    }
}

/// The model of each value in a parsed array.
pub open spec fn arr_rep(vals: Seq<serde_json::Value>) -> Seq<Json> {
    vals.map_values(|v: serde_json::Value| json_rep(v))
}

/// What a number models as a `u64`: the value of a non-negative integer that
/// fits, nothing else.
pub open spec fn json_as_u64(j: Json) -> Option<u64> {
    match j {
        Json::UInt(n) => Some(n),
        _ => None,
    }
}

/// What a number models as an `i64`: a non-negative integer that fits, or a
/// negative integer.
pub open spec fn json_as_i64(j: Json) -> Option<i64> {
    match j {
        Json::UInt(n) => if n <= i64::MAX as u64 {
            Some(n as i64)
        } else {
            None
        },
        Json::Int(n) => Some(n),
        _ => None,
    }
}

#[verifier::external_type_specification]
#[verifier::external_body]
pub struct ExValue(serde_json::Value);

/// What a parsed value holds, as the abstract model.
pub uninterp spec fn json_rep(v: serde_json::Value) -> Json;

/// What a byte body parses to: the model of the document if the bytes are
/// well-formed JSON, nothing otherwise.
pub uninterp spec fn json_doc_of(body: Seq<u8>) -> Option<Json>;

/// Relies on serde_json::from_slice: parses the bytes as one JSON document.
#[verifier::external_body]
pub fn json_parse(body: &[u8]) -> (r: Option<serde_json::Value>)
    ensures
        match r {
            Some(v) => json_doc_of(body@) == Some(json_rep(v)),
            None => json_doc_of(body@) is None,
        },
{
    serde_json::from_slice::<serde_json::Value>(body).ok()
}

/// Relies on serde_json::Value::get with a string index: looks the key up if
/// the value is an object.
#[verifier::external_body]
pub fn json_get<'a>(v: &'a serde_json::Value, key: &str) -> (r: Option<&'a serde_json::Value>)
    ensures
        match r {
            Some(f) => json_rep(*v) matches Json::Obj(entries) && obj_lookup(entries, key@)
                == Some(json_rep(*f)),
            None => json_rep(*v) matches Json::Obj(entries) ==> obj_lookup(entries, key@) is None,
        },
{
    v.get(key)
}

/// Relies on serde_json::Value::as_str: the string's characters if the value
/// is a string.
#[verifier::external_body]
pub fn json_as_str<'a>(v: &'a serde_json::Value) -> (r: Option<&'a str>)
    ensures
        match r {
            Some(s) => json_rep(*v) == Json::Str(s@),
            None => !(json_rep(*v) is Str),
        },
{
    v.as_str()
}

/// Relies on serde_json::Value::as_u64: the value of a number stored as a
/// non-negative integer.
#[verifier::external_body]
pub fn json_get_u64(v: &serde_json::Value) -> (r: Option<u64>)
    ensures
        r == json_as_u64(json_rep(*v)),
{
    v.as_u64()
}

/// Relies on serde_json::Value::as_i64: the value of a number stored as an
/// integer, when it fits.
#[verifier::external_body]
pub fn json_get_i64(v: &serde_json::Value) -> (r: Option<i64>)
    ensures
        r == json_as_i64(json_rep(*v)),
{
    v.as_i64()
}

/// Relies on serde_json::Value::as_bool: the value of a boolean.
#[verifier::external_body]
pub fn json_as_bool(v: &serde_json::Value) -> (r: Option<bool>)
    ensures
        match r {
            Some(b) => json_rep(*v) == Json::Bool(b),
            None => !(json_rep(*v) is Bool),
        },
{
    v.as_bool()
}

/// Relies on serde_json::Value::as_array: the elements if the value is an
/// array.
#[verifier::external_body]
pub fn json_as_array<'a>(v: &'a serde_json::Value) -> (r: Option<&'a Vec<serde_json::Value>>)
    ensures
        match r {
            Some(a) => json_rep(*v) == Json::Arr(arr_rep(a@)),
            None => !(json_rep(*v) is Arr),
        },
{
    v.as_array()
}

/// Relies on serde_json::Value::is_null.
#[verifier::external_body]
pub fn json_is_null(v: &serde_json::Value) -> (r: bool)
    ensures
        r == (json_rep(*v) is Null),
{
    v.is_null()
}

/// Relies on serde_json::Value::is_object.
#[verifier::external_body]
pub fn json_is_object(v: &serde_json::Value) -> (r: bool)
    ensures
        r == (json_rep(*v) is Obj),
{
    v.is_object()
}

} // verus!
