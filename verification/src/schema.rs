//! Building blocks of the JSON schemas that describe adapter configurations.
use vstd::prelude::*;
use crate::json::{Json, JsonMap, json_entries, json_view, json_map_insert, json_map_new, json_from_string, json_from_strings, json_from_map};

verus! {

/// `{"type": ty}`
pub open spec fn typed(ty: Seq<char>) -> Json {
    Json::Object(map!["type"@ => Json::Str(ty)])
}

/// `{"type": ty, "default": default}`
pub open spec fn typed_default(ty: Seq<char>, default: Json) -> Json {
    Json::Object(map!["type"@ => Json::Str(ty), "default"@ => default])
}

/// `{"type": "string", "enum": [value]}`
pub open spec fn string_enum(value: Seq<char>) -> Json {
    Json::Object(map!["type"@ => Json::Str("string"@), "enum"@ => Json::Array(seq![Json::Str(value)])])
}

/// `{"type": "string", "enum": [value], "default": value}`
pub open spec fn string_enum_default(value: Seq<char>) -> Json {
    Json::Object(map![
        "type"@ => Json::Str("string"@),
        "enum"@ => Json::Array(seq![Json::Str(value)]),
        "default"@ => Json::Str(value),
    ])
}

/// `{"type": [first, second]}`
pub open spec fn typed_either(first: Seq<char>, second: Seq<char>) -> Json {
    Json::Object(map!["type"@ => Json::Array(seq![Json::Str(first), Json::Str(second)])])
}

/// A JSON array of strings, in order.
pub open spec fn str_array(items: Seq<Seq<char>>) -> Json {
    Json::Array(items.map_values(|s: Seq<char>| Json::Str(s)))
}

/// The map with `key` set to `value`.
pub fn with(m: JsonMap, key: &str, value: serde_json::Value) -> (r: JsonMap)
    ensures
        json_entries(r) == json_entries(m).insert(key@, json_view(value)),
{
    let mut m = m;
    json_map_insert(&mut m, String::from_str(key), value);
    m
}

/// A JSON string.
pub fn jstring(s: &str) -> (v: serde_json::Value)
    ensures
        json_view(v) == Json::Str(s@),
{
    json_from_string(String::from_str(s))
}

/// An array of the given strings.
pub fn jstrings(items: Vec<&str>) -> (v: serde_json::Value)
    ensures
        json_view(v) == str_array(items@.map_values(|s: &str| s@)),
{
    let mut owned: Vec<String> = Vec::new();
    let n = items.len();
    for i in 0..n
        invariant
            n == items@.len(),
            owned@.len() == i,
            forall|k: int| 0 <= k < i ==> #[trigger] owned@[k]@ == items@[k]@,
    {
        owned.push(String::from_str(items[i]));
    }
    let v = json_from_strings(owned);
    assert(owned@.map_values(|s: String| Json::Str(s@)) =~= items@.map_values(|s: &str| s@).map_values(
        |s: Seq<char>| Json::Str(s),
    ));
    v
}

/// `[value]`
fn single_string_array(value: &str) -> (v: serde_json::Value)
    ensures
        json_view(v) == Json::Array(seq![Json::Str(value@)]),
{
    let mut items: Vec<String> = Vec::new();
    items.push(String::from_str(value));
    let v = json_from_strings(items);
    assert(items@.map_values(|s: String| Json::Str(s@)) =~= seq![Json::Str(value@)]);
    v
}

/// `{"type": ty}`
pub fn typed_exec(ty: &str) -> (v: serde_json::Value)
    ensures
        json_view(v) == typed(ty@),
{
    json_from_map(with(json_map_new(), "type", jstring(ty)))
}

/// `{"type": ty, "default": default}`
pub fn typed_default_exec(ty: &str, default: serde_json::Value) -> (v: serde_json::Value)
    ensures
        json_view(v) == typed_default(ty@, json_view(default)),
{
    json_from_map(with(with(json_map_new(), "type", jstring(ty)), "default", default))
}

/// `{"type": "string", "enum": [value]}`
pub fn string_enum_exec(value: &str) -> (v: serde_json::Value)
    ensures
        json_view(v) == string_enum(value@),
{
    let values = single_string_array(value);
    json_from_map(with(with(json_map_new(), "type", jstring("string")), "enum", values))
}

/// `{"type": "string", "enum": [value], "default": value}`
pub fn string_enum_default_exec(value: &str) -> (v: serde_json::Value)
    ensures
        json_view(v) == string_enum_default(value@),
{
    let values = single_string_array(value);
    json_from_map(
        with(with(with(json_map_new(), "type", jstring("string")), "enum", values), "default", jstring(value)),
    )
}

/// `{"type": [first, second]}`
pub fn typed_either_exec(first: &str, second: &str) -> (v: serde_json::Value)
    ensures
        json_view(v) == typed_either(first@, second@),
{
    let types = jstrings(vec![first, second]);
    assert(json_view(types) == Json::Array(seq![Json::Str(first@), Json::Str(second@)])) by {
        assert(seq![first, second].map_values(|s: &str| s@).map_values(|s: Seq<char>| Json::Str(s))
            =~= seq![Json::Str(first@), Json::Str(second@)]);
    }
    json_from_map(with(json_map_new(), "type", types))
}

} // verus!
