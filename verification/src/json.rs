//! JSON texts, built and written by `serde_json`.

use vstd::prelude::*;

verus! {

/// `serde_json::Value`, a JSON value. Nothing is known of its inside.
#[verifier::external_type_specification]
#[verifier::external_body]
pub struct ExJsonValue(serde_json::Value);

/// The JSON string value that holds `text`: `serde_json::Value::String`.
pub uninterp spec fn json_text(text: Seq<char>) -> serde_json::Value;

/// The JSON object that `serde_json::Map` collects from `fields`, taken in
/// order.
pub uninterp spec fn json_object(fields: Seq<(Seq<char>, serde_json::Value)>) -> serde_json::Value;

/// The JSON number for `n`: `serde_json::Value::from` of a `u64`.
pub uninterp spec fn json_number(n: u64) -> serde_json::Value;

/// The JSON array of `items`: `serde_json::Value::Array`.
pub uninterp spec fn json_array(items: Seq<serde_json::Value>) -> serde_json::Value;

/// The compact text that the `Display` impl of `serde_json::Value` writes.
pub uninterp spec fn json_shown(value: serde_json::Value) -> Seq<char>;

/// The fields of an object under construction, as the contracts see them.
pub open spec fn field_views(fields: Seq<(String, serde_json::Value)>) -> Seq<
    (Seq<char>, serde_json::Value),
> {
    Seq::new(fields.len(), |i: int| (fields[i].0@, fields[i].1))
}

/// `serde_json::Value::String` wraps a string as a JSON value.
#[verifier::external_body]
pub(crate) fn string_value(text: &str) -> (out: serde_json::Value)
    ensures
        out == json_text(text@),
{
    serde_json::Value::String(text.to_string())
}

/// `serde_json::Map::from_iter` collects the fields into an object, which
/// `serde_json::Value::Object` wraps.
#[verifier::external_body]
pub(crate) fn object_value(fields: Vec<(String, serde_json::Value)>) -> (out: serde_json::Value)
    ensures
        out == json_object(field_views(fields@)),
{
    serde_json::Value::Object(fields.into_iter().collect())
}

/// `serde_json::Value::from` of a `u64`: the JSON number with that value.
#[verifier::external_body]
pub(crate) fn number_value(n: u64) -> (out: serde_json::Value)
    ensures
        out == json_number(n),
{
    serde_json::Value::from(n)
}

/// `serde_json::Value::Array` wraps a list of values as a JSON array.
#[verifier::external_body]
pub(crate) fn array_value(items: Vec<serde_json::Value>) -> (out: serde_json::Value)
    ensures
        out == json_array(items@),
{
    serde_json::Value::Array(items)
}

/// `to_string` of a `serde_json::Value`: its compact JSON text.
#[verifier::external_body]
pub(crate) fn show(value: &serde_json::Value) -> (out: String)
    ensures
        out@ == json_shown(*value),
{
    value.to_string()
}

} // verus!
