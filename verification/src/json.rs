//! JSON objects of `serde_json`, as far as the builder carries them: it
//! never looks inside one, it only asks for its text.

use vstd::prelude::*;

verus! {

/// A JSON object: the type of a header.
pub type JsonObject = serde_json::Map<String, serde_json::Value>;

/// `serde_json::Map`, of which nothing is visible here.
#[verifier::external_type_specification]
#[verifier::external_body]
#[verifier::reject_recursive_types(K)]
#[verifier::reject_recursive_types(V)]
pub struct ExMap<K, V>(serde_json::Map<K, V>);

/// `serde_json::Value`, of which nothing is visible here.
#[verifier::external_type_specification]
#[verifier::external_body]
pub struct ExValue(serde_json::Value);

/// `serde_json::Error`, of which nothing is visible here.
#[verifier::external_type_specification]
#[verifier::external_body]
pub struct ExError(serde_json::Error);

/// The JSON text that `serde_json::to_string` gives for `object`, or `None`
/// where it gives an error.
pub uninterp spec fn json_object_text(object: serde_json::Map<String, serde_json::Value>) -> Option<
    Seq<char>,
>;

/// Calls `serde_json::to_string` on an object.
///
/// Trusted: whether the call succeeds, and the text it then returns, depend
/// on the object alone. Nothing is claimed about which objects have a text.
#[verifier::external_body]
fn to_string(object: &serde_json::Map<String, serde_json::Value>) -> (r: Result<
    String,
    serde_json::Error,
>)
    ensures
        match r {
            Ok(text) => json_object_text(*object) == Some(text@),
            Err(_) => json_object_text(*object) is None,
        },
{
    serde_json::to_string(object)
}

/// `Clone::clone` of `serde_json::Map<String, Value>`.
///
/// Trusted: the clone is the same object, so it has the same text.
pub assume_specification[ <serde_json::Map<String, serde_json::Value> as Clone>::clone ](
    object: &serde_json::Map<String, serde_json::Value>,
) -> (copy: serde_json::Map<String, serde_json::Value>)
    ensures
        copy == *object,
;

/// The JSON text of `object`, where it has one.
pub fn object_text(object: &JsonObject) -> (r: Option<String>)
    ensures
        match r {
            Some(text) => json_object_text(*object) == Some(text@),
            None => json_object_text(*object) is None,
        },
{
    match to_string(object) {
        Ok(text) => Some(text),
        Err(_) => None,
    }
}

} // verus!
