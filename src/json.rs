//! One level of a JSON document at a time.
//!
//! Parsing and printing JSON text is left to `serde_json`; this module only
//! opens a value one level deep (`node_of`) and closes a level back into a
//! value (`value_of`), so that the manifest framing can be verified.
use vstd::prelude::*;
use crate::fields::unique_keys;

verus! {

#[verifier::external_type_specification]
#[verifier::external_body]
pub struct ExValue(serde_json::Value);

#[verifier::external_type_specification]
#[verifier::external_body]
pub struct ExJsonError(serde_json::Error);

/// A JSON value opened one level: the children stay opaque values.
pub enum JsonNode {
    Bool(bool),
    Text(String),
    Array(Vec<serde_json::Value>),
    Object(Vec<(String, serde_json::Value)>),
    /// `null` or a number, kept as it is.
    Scalar(serde_json::Value),
}

/// The node that a value opens to.
pub uninterp spec fn node_of_value(v: serde_json::Value) -> JsonNode;

/// What `serde_json` makes of a byte string: a value, or nothing where the
/// bytes are not JSON text.
pub uninterp spec fn json_decode(b: Seq<u8>) -> Option<serde_json::Value>;

/// The pretty-printed JSON text of a value, as `serde_json` writes it.
pub uninterp spec fn json_pretty_text(v: serde_json::Value) -> Seq<u8>;

/// A node that `value_of` closes into a value that opens to the same node:
/// object keys are unique, and a scalar is one that opens to itself.
pub open spec fn canonical(n: JsonNode) -> bool {
    match n {
        JsonNode::Object(fields) => unique_keys(fields@),
        JsonNode::Scalar(v) => node_of_value(v) == n,
        _ => true,
    }
}

/// Relies on matching `serde_json::Value`'s variants: a value opens to the
/// node of its own variant, and the entries of an object come out of its map
/// (an `IndexMap` under the `preserve_order` feature) with distinct keys.
#[verifier::external_body]
pub(crate) fn node_of(v: serde_json::Value) -> (r: JsonNode)
    ensures
        r == node_of_value(v),
        canonical(r),
{
    match v {
        serde_json::Value::Bool(b) => JsonNode::Bool(b),
        serde_json::Value::String(s) => JsonNode::Text(s),
        serde_json::Value::Array(a) => JsonNode::Array(a),
        serde_json::Value::Object(m) => JsonNode::Object(m.into_iter().collect()),
        other => JsonNode::Scalar(other),
    }
}

/// Relies on building a `serde_json::Value` of the node's variant; an object
/// is collected into a `serde_json::Map`, which under `preserve_order` keeps
/// the insertion order of distinct keys.
#[verifier::external_body]
pub(crate) fn value_of(n: JsonNode) -> (r: serde_json::Value)
    ensures
        canonical(n) ==> node_of_value(r) == n,
{
    match n {
        JsonNode::Bool(b) => serde_json::Value::Bool(b),
        JsonNode::Text(s) => serde_json::Value::String(s),
        JsonNode::Array(a) => serde_json::Value::Array(a),
        JsonNode::Object(fields) => serde_json::Value::Object(fields.into_iter().collect()),
        JsonNode::Scalar(v) => v,
    }
}

/// Relies on `Clone` for `serde_json::Value`, which copies the whole tree.
#[verifier::external_body]
pub(crate) fn clone_value(v: &serde_json::Value) -> (r: serde_json::Value)
    ensures
        r == *v,
{
    v.clone()
}

/// Relies on `serde_json::from_slice::<Value>`: the outcome depends on the
/// bytes alone.
#[verifier::external_body]
pub(crate) fn decode_json(b: &[u8]) -> (r: Result<serde_json::Value, serde_json::Error>)
    ensures
        r is Ok <==> json_decode(b@) is Some,
        r matches Ok(v) ==> json_decode(b@) == Some(v),
{
    serde_json::from_slice::<serde_json::Value>(b)
}

/// Relies on `serde_json::to_vec_pretty` on a `Value`, whose text depends on
/// the value alone. It does not fail there: a `Value` has text keys only, and
/// writing to a `Vec` cannot fail.
#[verifier::external_body]
pub(crate) fn encode_json_pretty(v: &serde_json::Value) -> (r: Result<Vec<u8>, serde_json::Error>)
    ensures
        r is Ok,
        r matches Ok(b) ==> b@ == json_pretty_text(*v),
{
    serde_json::to_vec_pretty(v)
}

} // verus!
