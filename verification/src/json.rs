//! JSON objects of text members, written by `serde_json`.
//!
//! Nothing in this file is proved. An object is a `serde_json::Map`; what it
//! holds is named by `json_members`, and the wrappers say what each call
//! does to that.

use vstd::prelude::*;

verus! {

/// Makes `serde_json::Value` known as a type whose inside is not looked at.
#[verifier::external_type_specification]
#[verifier::external_body]
pub struct ExJsonValue(serde_json::Value);

/// Makes `serde_json::Map` known as a type whose inside is not looked at.
#[verifier::external_type_specification]
#[verifier::external_body]
#[verifier::reject_recursive_types(K)]
#[verifier::reject_recursive_types(V)]
pub struct ExJsonMap<K, V>(serde_json::Map<K, V>);

/// A JSON object.
pub type JsonObject = serde_json::Map<String, serde_json::Value>;

/// What an object holds: for each of its keys, the JSON text of the value.
pub uninterp spec fn json_members(object: JsonObject) -> Map<Seq<char>, Seq<char>>;

/// The members of an object that holds nothing.
pub open spec fn no_members() -> Map<Seq<char>, Seq<char>> {
    Map::empty()
}

/// The JSON text of a string value: the string in quotes, escaped.
pub uninterp spec fn json_string_spec(text: Seq<char>) -> Seq<char>;

/// The JSON text of an object, from the JSON texts of its members.
pub uninterp spec fn json_object_spec(members: Map<Seq<char>, Seq<char>>) -> Seq<char>;

/// Calls `serde_json::Map::new`. Trusted: the new object holds nothing.
#[verifier::external_body]
pub(crate) fn json_object() -> (object: JsonObject)
    ensures
        json_members(object) == no_members(),
{
    serde_json::Map::new()
}

/// Calls `serde_json::Map::insert` with a string value. Trusted: afterwards
/// the object holds the string under the key, in place of what the key held
/// before, and everything else as before.
#[verifier::external_body]
pub(crate) fn json_put(object: &mut JsonObject, key: &str, value: &str)
    ensures
        json_members(*final(object)) == json_members(*old(object)).insert(
            key@,
            json_string_spec(value@),
        ),
{
    object.insert(key.to_owned(), serde_json::Value::String(value.to_owned()));
}

/// Calls `serde_json::to_string` on the object. Trusted: the text depends on
/// nothing but the members of the object.
#[verifier::external_body]
pub(crate) fn json_text(object: JsonObject) -> (text: String)
    ensures
        text@ == json_object_spec(json_members(object)),
{
    serde_json::to_string(&serde_json::Value::Object(object)).unwrap_or_default()
}

} // verus!
