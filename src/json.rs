use vstd::prelude::*;
use vstd::string::StringExecFns;

verus! {

/// A JSON value, carried through the library without being looked into.
#[verifier::external_type_specification]
#[verifier::external_body]
pub struct ExJsonValue(serde_json::Value);

/// A JSON object's entries.
#[verifier::external_type_specification]
#[verifier::external_body]
#[verifier::reject_recursive_types(K)]
#[verifier::reject_recursive_types(V)]
pub struct ExJsonMap<K, V>(serde_json::Map<K, V>);

/// Relies on the `Clone` that serde_json derives for `Value`: a structural copy.
pub assume_specification[ <serde_json::Value as Clone>::clone ](v: &serde_json::Value) -> (r:
    serde_json::Value)
    ensures
        r == *v,
;

/// A JSON object: string keys to JSON values.
pub type JsonObject = serde_json::Map<String, serde_json::Value>;

/// The entries of a JSON object as a map from keys to values.
pub type JsonEntries = Map<Seq<char>, serde_json::Value>;

/// The entries of a JSON object, by key.
pub uninterp spec fn json_map_entries(m: JsonObject) -> JsonEntries;

/// The entries of `v` when it is a JSON object (what `Value::as_object` sees), else `None`.
pub uninterp spec fn json_object_entries(v: serde_json::Value) -> Option<JsonEntries>;

/// Relies on serde_json::Map::new: the new map has no entries.
#[verifier::external_body]
fn empty_json_map() -> (r: JsonObject)
    ensures
        json_map_entries(r) == JsonEntries::empty(),
{
    serde_json::Map::new()
}

/// Relies on serde_json::Map::insert: the key now maps to the value, the rest is kept.
#[verifier::external_body]
fn json_map_insert(
    m: &mut JsonObject,
    key: String,
    value: serde_json::Value,
)
    ensures
        json_map_entries(*final(m)) == json_map_entries(*old(m)).insert(key@, value),
{
    m.insert(key, value);
}

/// Relies on the shape of serde_json::Value: the `Object` variant holds the object's map.
#[verifier::external_body]
fn json_into_object(v: serde_json::Value) -> (r: Result<JsonObject, serde_json::Value>)
    ensures
        match r {
            Ok(m) => json_object_entries(v) == Some(json_map_entries(m)),
            Err(w) => json_object_entries(v) is None && w == v,
        },
{
    match v {
        serde_json::Value::Object(m) => Ok(m),
        other => Err(other),
    }
}

/// The entries transmitted for a tool argument `v`: an object's own entries, any other
/// value as the single entry `"value"`.
pub open spec fn wrapped_arguments(v: serde_json::Value) -> JsonEntries {
    match json_object_entries(v) {
        Some(entries) => entries,
        None => map!["value"@ => v],
    }
}

/// Shapes the arguments of a tool call: an object is passed on as it is, a bare value is
/// wrapped into an object under the key `"value"`, and no arguments stay absent.
pub fn tool_call_arguments(arguments: Option<serde_json::Value>) -> (r: Option<JsonObject>)
    ensures
        arguments is None <==> r is None,
        arguments matches Some(v) ==> json_map_entries(r.unwrap()) == wrapped_arguments(v),
{
    match arguments {
        None => None,
        Some(v) => match json_into_object(v) {
            Ok(m) => Some(m),
            Err(other) => {
                let mut m = empty_json_map();
                json_map_insert(&mut m, String::from_str("value"), other);
                proof {
                    assert(json_map_entries(m) =~= map!["value"@ => v]);
                }
                Some(m)
            },
        },
    }
}

/// Shapes the arguments of a prompt request: only an object is passed on; anything else
/// is dropped.
pub fn prompt_arguments(arguments: Option<serde_json::Value>) -> (r: Option<JsonObject>)
    ensures
        match arguments {
            Some(v) => match json_object_entries(v) {
                Some(entries) => r is Some && json_map_entries(r.unwrap()) == entries,
                None => r is None,
            },
            None => r is None,
        },
{
    match arguments {
        None => None,
        Some(v) => match json_into_object(v) {
            Ok(m) => Some(m),
            Err(_) => None,
        },
    }
}

} // verus!
