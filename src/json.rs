use vstd::prelude::*;

verus! {

#[verifier::external_type_specification]
#[verifier::external_body]
pub struct ExValue(serde_json::Value);

#[verifier::external_type_specification]
#[verifier::external_body]
pub struct ExError(serde_json::Error);

/// Whether `text` is one JSON object, with nothing but whitespace around it, that
/// serde_json reads as a map from strings to values.
pub uninterp spec fn is_json_object_text(text: Seq<char>) -> bool;

/// Relies on `serde_json::from_str` read into a `serde_json::Map<String, Value>`:
/// it succeeds exactly on the texts that hold one JSON object. The map is handed
/// back as `Value::Object`.
#[verifier::external_body]
pub(crate) fn parse_object(text: &str) -> (r: Result<serde_json::Value, serde_json::Error>)
    ensures
        r is Ok <==> is_json_object_text(text@),
{
    serde_json::from_str::<serde_json::Map<String, serde_json::Value>>(text).map(
        serde_json::Value::Object,
    )
}

} // verus!
