use vstd::prelude::*;

verus! {

/// serde_json's `Value`: a JSON document that the service stores and hands
/// back as it came, without looking inside.
#[verifier::external_type_specification]
#[verifier::external_body]
pub struct ExJsonValue(serde_json::Value);

/// Builds `serde_json::Value::Object` around `serde_json::Map::new()`, the
/// empty JSON object `{}`. The value is opaque here, so nothing is stated of it.
#[verifier::external_body]
pub(crate) fn empty_json_object() -> serde_json::Value {
    serde_json::Value::Object(serde_json::Map::new())
}

} // verus!
