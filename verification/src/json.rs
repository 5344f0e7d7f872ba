//! The JSON boundary.
//!
//! Parsing bytes into a JSON tree is the one job delegated to the
//! `serde_json` crate; everything the rest of the crate knows about a
//! parsed tree goes through the spec-level model `JsonV` and the small
//! trusted accessors here. `serde_json::Value` itself stays opaque:
//! `value_view` names its contents, and each accessor states over that
//! name exactly what the corresponding `serde_json` method returns.

use vstd::prelude::*;

verus! {

/// The mathematical shape of a parsed JSON document. Numbers carry only
/// what the decoders read of them: their value as an unsigned 64-bit
/// integer when they have one (`None` stands for any other number).
pub enum JsonV {
    Null,
    Bool(bool),
    Num(Option<u64>),
    Str(Seq<char>),
    Arr(Seq<JsonV>),
    Obj(Map<Seq<char>, JsonV>),
}

/// The tree a `serde_json::Value` holds, as the accessors below observe it.
pub uninterp spec fn value_view(v: serde_json::Value) -> JsonV;

/// What parsing a byte string yields: a tree, or nothing when the bytes
/// are not a single well-formed JSON document.
pub uninterp spec fn parsed_json(bytes: Seq<u8>) -> Option<JsonV>;

#[verifier::external_type_specification]
#[verifier::external_body]
pub struct ExValue(serde_json::Value);

#[verifier::external_type_specification]
#[verifier::external_body]
pub struct ExJsonError(serde_json::Error);

/// A failure to understand a response body, kept apart from transport
/// failures so callers can tell the two cases apart.
#[derive(Debug, Clone, Copy, PartialEq, Eq, Structural)]
pub enum DecodeError {
    /// The bytes were not well-formed JSON.
    Syntax,
    /// The JSON was well-formed but did not fit the expected schema.
    Schema,
}

/// Relies on serde_json::from_slice::<Value>: parses one JSON document
/// from the bytes, failing exactly when they are not one.
#[verifier::external_body]
pub(crate) fn parse_value(bytes: &[u8]) -> (r: Result<serde_json::Value, serde_json::Error>)
    ensures
        r matches Ok(v) ==> parsed_json(bytes@) == Some(value_view(v)),
        r is Err ==> parsed_json(bytes@) is None,
{
    serde_json::from_slice::<serde_json::Value>(bytes)
}

/// Parse one JSON document from bytes: the parsed tree, or a syntax
/// failure exactly when the bytes are not one well-formed document.
pub fn parse_json_value(bytes: &[u8]) -> (r: Result<serde_json::Value, DecodeError>)
    ensures
        r matches Ok(v) ==> parsed_json(bytes@) == Some(value_view(v)),
        r is Err <==> parsed_json(bytes@) is None,
        r matches Err(e) ==> e == DecodeError::Syntax,
{
    match parse_value(bytes) {
        Ok(v) => Ok(v),
        Err(_) => Err(DecodeError::Syntax),
    }
}

/// Relies on serde_json::Value::get with a string index: on an object,
/// looks the key up; on anything else, returns nothing.
#[verifier::external_body]
pub(crate) fn get_field<'a>(v: &'a serde_json::Value, name: &str) -> (r: Option<&'a serde_json::Value>)
    ensures
        match value_view(*v) {
            JsonV::Obj(m) => {
                match r {
                    Some(x) => m.contains_key(name@) && value_view(*x) == m[name@],
                    None => !m.contains_key(name@),
                }
            },
            _ => r is None,
        },
{
    v.get(name)
}

/// Relies on serde_json::Value::as_u64: the number's value when it is an
/// integer representable in a u64, nothing otherwise.
#[verifier::external_body]
pub(crate) fn val_as_u64(v: &serde_json::Value) -> (r: Option<u64>)
    ensures
        r == (match value_view(*v) {
            JsonV::Num(o) => o,
            _ => None,
        }),
{
    v.as_u64()
}

/// Relies on serde_json::Value::as_bool.
#[verifier::external_body]
pub(crate) fn val_as_bool(v: &serde_json::Value) -> (r: Option<bool>)
    ensures
        r == (match value_view(*v) {
            JsonV::Bool(b) => Some(b),
            _ => None::<bool>,
        }),
{
    v.as_bool()
}

/// Relies on serde_json::Value::as_str.
#[verifier::external_body]
pub(crate) fn val_as_str<'a>(v: &'a serde_json::Value) -> (r: Option<&'a str>)
    ensures
        match value_view(*v) {
            JsonV::Str(s) => r matches Some(t) && t@ == s,
            _ => r is None,
        },
{
    v.as_str()
}

/// Relies on serde_json::Value::as_array.
#[verifier::external_body]
pub(crate) fn val_as_array<'a>(v: &'a serde_json::Value) -> (r: Option<&'a Vec<serde_json::Value>>)
    ensures
        match value_view(*v) {
            JsonV::Arr(s) => r matches Some(a) && a@.len() == s.len() && (forall|i: int|
                0 <= i < s.len() ==> value_view(a@[i]) == s[i]),
            _ => r is None,
        },
{
    v.as_array()
}

/// Relies on serde_json::Value::is_null.
#[verifier::external_body]
pub(crate) fn val_is_null(v: &serde_json::Value) -> (r: bool)
    ensures
        r == (value_view(*v) is Null),
{
    v.is_null()
}

/// Relies on the serde_json::Value::Null constructor.
#[verifier::external_body]
pub(crate) fn mk_null() -> (r: serde_json::Value)
    ensures
        value_view(r) == JsonV::Null,
{
    serde_json::Value::Null
}

/// Relies on the serde_json::Value::Bool constructor.
#[verifier::external_body]
pub(crate) fn mk_bool(b: bool) -> (r: serde_json::Value)
    ensures
        value_view(r) == JsonV::Bool(b),
{
    serde_json::Value::Bool(b)
}

/// Relies on serde_json's From<u64> for Value: an integer number node.
#[verifier::external_body]
pub(crate) fn mk_u64(n: u64) -> (r: serde_json::Value)
    ensures
        value_view(r) == JsonV::Num(Some(n)),
{
    serde_json::Value::from(n)
}

/// Relies on the serde_json::Value::String constructor.
#[verifier::external_body]
pub(crate) fn mk_str(s: &str) -> (r: serde_json::Value)
    ensures
        value_view(r) == JsonV::Str(s@),
{
    serde_json::Value::String(s.to_owned())
}

/// Relies on the serde_json::Value::Array constructor.
#[verifier::external_body]
pub(crate) fn mk_arr(items: Vec<serde_json::Value>) -> (r: serde_json::Value)
    ensures
        value_view(r) == JsonV::Arr(items@.map_values(|x: serde_json::Value| value_view(x))),
{
    serde_json::Value::Array(items)
}

/// An object assembled from key/value pairs, inserted in order, so a
/// later duplicate key overrides an earlier one.
pub open spec fn pairs_to_map(s: Seq<(Seq<char>, JsonV)>) -> Map<Seq<char>, JsonV>
    decreases s.len(),
{
    if s.len() == 0 {
        Map::empty()
    } else {
        pairs_to_map(s.drop_last()).insert(s.last().0, s.last().1)
    }
}

/// Relies on serde_json's Map collecting from an iterator of pairs,
/// and on the serde_json::Value::Object constructor. The keys must be
/// distinct, so the object holds exactly the given pairs.
#[verifier::external_body]
pub(crate) fn mk_obj(pairs: Vec<(String, serde_json::Value)>) -> (r: serde_json::Value)
    requires
        forall|i: int, l: int|
            0 <= i < l < pairs@.len() ==> pairs@[i].0@ != pairs@[l].0@,
    ensures
        value_view(r) == JsonV::Obj(
            pairs_to_map(
                pairs@.map_values(|p: (String, serde_json::Value)| (p.0@, value_view(p.1))),
            ),
        ),
{
    serde_json::Value::Object(pairs.into_iter().collect())
}

/// A key in `pairs_to_map` maps to the value of its last occurrence.
pub proof fn lemma_pairs_to_map_lookup(s: Seq<(Seq<char>, JsonV)>, i: int)
    requires
        0 <= i < s.len(),
        forall|l: int| i < l < s.len() ==> s[l].0 != s[i].0,
    ensures
        pairs_to_map(s).contains_key(s[i].0),
        pairs_to_map(s)[s[i].0] == s[i].1,
    decreases s.len(),
{
    if i == s.len() - 1 {
    } else {
        assert(s.drop_last()[i] == s[i]);
        lemma_pairs_to_map_lookup(s.drop_last(), i);
    }
}

} // verus!
