//! JSON configuration values, backed by `serde_json`.
//!
//! `serde_json::Value` and `serde_json::Map` are opaque to the verifier;
//! their contents are seen through the ghost tree [`Json`].
use vstd::prelude::*;

verus! {

#[verifier::external_type_specification]
#[verifier::external_body]
pub struct ExJsonValue(serde_json::Value);

#[verifier::external_type_specification]
#[verifier::external_body]
#[verifier::reject_recursive_types(K)]
#[verifier::reject_recursive_types(V)]
pub struct ExJsonMap<K, V>(serde_json::Map<K, V>);

/// The JSON object type used for adapter configurations.
pub type JsonMap = serde_json::Map<String, serde_json::Value>;

/// A JSON document as a mathematical tree.
pub enum Json {
    Null,
    Bool(bool),
    /// An integer number.
    Int(int),
    /// A number that is not an integer.
    Fractional,
    Str(Seq<char>),
    Array(Seq<Json>),
    Object(Map<Seq<char>, Json>),
}

/// What a `serde_json::Value` holds.
pub uninterp spec fn json_view(v: serde_json::Value) -> Json;

/// What a `serde_json::Map<String, Value>` holds: each key with the tree of its value.
pub uninterp spec fn json_entries(m: serde_json::Map<String, serde_json::Value>) -> Map<Seq<char>, Json>;

/// `Json::Str` of a character sequence.
pub open spec fn jstr(s: Seq<char>) -> Json {
    Json::Str(s)
}

/// `serde_json::Map::new`: an empty map.
#[verifier::external_body]
pub fn json_map_new() -> (m: JsonMap)
    ensures
        json_entries(m) =~= Map::empty(),
{
    serde_json::Map::new()
}

/// `serde_json::Map::insert`: sets `key` to `value`; the value that was
/// there before, if any, comes back.
#[verifier::external_body]
pub fn json_map_insert(m: &mut JsonMap, key: String, value: serde_json::Value) -> (prev: Option<serde_json::Value>)
    ensures
        json_entries(*final(m)) == json_entries(*old(m)).insert(key@, json_view(value)),
        prev is Some <==> json_entries(*old(m)).contains_key(key@),
        prev matches Some(p) ==> json_view(p) == json_entries(*old(m))[key@],
{
    m.insert(key, value)
}

/// `serde_json::Map::get`.
#[verifier::external_body]
pub fn json_map_get<'a>(m: &'a JsonMap, key: &str) -> (r: Option<&'a serde_json::Value>)
    ensures
        r is Some <==> json_entries(*m).contains_key(key@),
        r matches Some(v) ==> json_view(*v) == json_entries(*m)[key@],
{
    m.get(key)
}

/// `serde_json::Map::contains_key`.
#[verifier::external_body]
pub fn json_map_contains_key(m: &JsonMap, key: &str) -> (r: bool)
    ensures
        r == json_entries(*m).contains_key(key@),
{
    m.contains_key(key)
}

/// `serde_json::Map::remove`: the key is gone afterwards; its value, if it
/// had one, comes back. (The position of other entries may change; their
/// keys and values do not.)
#[verifier::external_body]
pub fn json_map_remove(m: &mut JsonMap, key: &str) -> (prev: Option<serde_json::Value>)
    ensures
        json_entries(*final(m)) == json_entries(*old(m)).remove(key@),
        prev is Some <==> json_entries(*old(m)).contains_key(key@),
        prev matches Some(p) ==> json_view(p) == json_entries(*old(m))[key@],
{
    m.remove(key)
}

/// `Value::from(String)`: a JSON string.
#[verifier::external_body]
pub fn json_from_string(s: String) -> (v: serde_json::Value)
    ensures
        json_view(v) == Json::Str(s@),
{
    serde_json::Value::from(s)
}

/// `Value::from(bool)`: a JSON boolean.
#[verifier::external_body]
pub fn json_from_bool(b: bool) -> (v: serde_json::Value)
    ensures
        json_view(v) == Json::Bool(b),
{
    serde_json::Value::from(b)
}

/// `Value::from(u32)`: a JSON integer.
#[verifier::external_body]
pub fn json_from_u32(n: u32) -> (v: serde_json::Value)
    ensures
        json_view(v) == Json::Int(n as int),
{
    serde_json::Value::from(n)
}

/// `Value::from(Option<u32>)`: `null` for `None`, else the integer.
#[verifier::external_body]
pub fn json_from_opt_u32(n: Option<u32>) -> (v: serde_json::Value)
    ensures
        json_view(v) == (match n {
            Some(k) => Json::Int(k as int),
            None => Json::Null,
        }),
{
    serde_json::Value::from(n)
}

/// `Value::from(Vec<String>)`: a JSON array of strings, in order.
#[verifier::external_body]
pub fn json_from_strings(items: Vec<String>) -> (v: serde_json::Value)
    ensures
        json_view(v) == Json::Array(items@.map_values(|s: String| Json::Str(s@))),
{
    serde_json::Value::from(items)
}

/// `Value::Object`: a JSON object holding the map's entries.
#[verifier::external_body]
pub fn json_from_map(m: JsonMap) -> (v: serde_json::Value)
    ensures
        json_view(v) == Json::Object(json_entries(m)),
{
    serde_json::Value::Object(m)
}

/// `Value::as_str`: the string a JSON string holds.
#[verifier::external_body]
pub fn json_as_str(v: &serde_json::Value) -> (r: Option<&str>)
    ensures
        r is Some <==> json_view(*v) is Str,
        r matches Some(s) ==> json_view(*v) == Json::Str(s@),
{
    v.as_str()
}

/// `Value::as_object`: the map a JSON object holds.
#[verifier::external_body]
pub fn json_as_object(v: &serde_json::Value) -> (r: Option<&JsonMap>)
    ensures
        r is Some <==> json_view(*v) is Object,
        r matches Some(m) ==> json_view(*v) == Json::Object(json_entries(*m)),
{
    v.as_object()
}

/// Takes the map out of a `Value::Object`; any other value comes back unchanged.
#[verifier::external_body]
pub fn json_into_object(v: serde_json::Value) -> (r: Result<JsonMap, serde_json::Value>)
    ensures
        r is Ok <==> json_view(v) is Object,
        r matches Ok(m) ==> json_view(v) == Json::Object(json_entries(m)),
        r matches Err(w) ==> w == v,
{
    match v {
        serde_json::Value::Object(m) => Ok(m),
        other => Err(other),
    }
}

/// `<Value as Clone>::clone`: a value holding the same tree.
#[verifier::external_body]
pub fn json_clone(v: &serde_json::Value) -> (r: serde_json::Value)
    ensures
        json_view(r) == json_view(*v),
{
    v.clone()
}

} // verus!

verus! {

/// Sets `key` to the JSON string `value`.
pub fn insert_str(m: &mut JsonMap, key: &str, value: &str)
    ensures
        json_entries(*final(m)) == json_entries(*old(m)).insert(key@, Json::Str(value@)),
{
    json_map_insert(m, String::from_str(key), json_from_string(String::from_str(value)));
}

/// `m` with `key` set to `value` unless `key` is already set.
pub open spec fn with_default(m: Map<Seq<char>, Json>, key: Seq<char>, value: Json) -> Map<Seq<char>, Json> {
    if m.contains_key(key) {
        m
    } else {
        m.insert(key, value)
    }
}

/// Sets `key` to `value` unless `key` is already set (`entry(key).or_insert(value)`).
pub fn insert_default(m: &mut JsonMap, key: &str, value: serde_json::Value)
    ensures
        json_entries(*final(m)) == with_default(json_entries(*old(m)), key@, json_view(value)),
{
    if !json_map_contains_key(m, key) {
        json_map_insert(m, String::from_str(key), value);
    }
}

/// The string stored under `key`, if `key` holds a JSON string.
pub open spec fn entry_str(entries: Map<Seq<char>, Json>, key: Seq<char>) -> Option<Seq<char>> {
    if entries.contains_key(key) && entries[key] is Str {
        Some(entries[key]->Str_0)
    } else {
        None
    }
}

/// The string stored under `key`, if `key` holds a JSON string
/// (`get(key).and_then(Value::as_str)`).
pub fn get_str<'a>(m: &'a JsonMap, key: &str) -> (r: Option<&'a str>)
    ensures
        r matches Some(s) ==> entry_str(json_entries(*m), key@) == Some(s@),
        r is None ==> entry_str(json_entries(*m), key@) is None,
{
    match json_map_get(m, key) {
        Some(v) => json_as_str(v),
        None => None,
    }
}

} // verus!

verus! {

/// The JSON object that a list of string pairs describes, a later pair for
/// a key overriding an earlier one.
pub open spec fn pairs_entries(s: Seq<(String, String)>) -> Map<Seq<char>, Json>
    decreases s.len(),
{
    if s.len() == 0 {
        Map::empty()
    } else {
        pairs_entries(s.drop_last()).insert(s.last().0@, Json::Str(s.last().1@))
    }
}

/// A JSON object of strings from a list of pairs.
pub fn pairs_json(pairs: &Vec<(String, String)>) -> (m: JsonMap)
    ensures
        json_entries(m) == pairs_entries(pairs@),
{
    let mut m = json_map_new();
    let n = pairs.len();
    for i in 0..n
        invariant
            n == pairs@.len(),
            json_entries(m) == pairs_entries(pairs@.take(i as int)),
    {
        assert(pairs@.take(i + 1).drop_last() =~= pairs@.take(i as int));
        assert(pairs@.take(i + 1).last() == pairs@[i as int]);
        json_map_insert(&mut m, pairs[i].0.clone(), json_from_string(pairs[i].1.clone()));
    }
    assert(pairs@.take(n as int) =~= pairs@);
    m
}

/// The JSON object of a list of pairs holds, as strings, the values of the
/// map the list describes.
pub proof fn lemma_pairs_json_view(s: Seq<(String, String)>)
    ensures
        pairs_entries(s) == crate::env::pairs_view(s).map_values(|v: Seq<char>| Json::Str(v)),
    decreases s.len(),
{
    if s.len() > 0 {
        lemma_pairs_json_view(s.drop_last());
        assert(pairs_entries(s) =~= crate::env::pairs_view(s).map_values(|v: Seq<char>| Json::Str(v)));
    } else {
        assert(pairs_entries(s) =~= crate::env::pairs_view(s).map_values(|v: Seq<char>| Json::Str(v)));
    }
}

} // verus!

verus! {

/// `Value::from(Vec<Value>)`: a JSON array of the values, in order.
#[verifier::external_body]
pub fn json_from_values(items: Vec<serde_json::Value>) -> (v: serde_json::Value)
    ensures
        json_view(v) == Json::Array(items@.map_values(|x: serde_json::Value| json_view(x))),
{
    serde_json::Value::from(items)
}

/// The string stored under `key` when `config` is an object and `key`
/// holds a JSON string (`Value::get(key).and_then(Value::as_str)`).
pub open spec fn object_str(config: Json, key: Seq<char>) -> Option<Seq<char>> {
    match config {
        Json::Object(m) => entry_str(m, key),
        _ => None,
    }
}

/// The string stored under `key` when `config` is an object and `key`
/// holds a JSON string.
pub fn value_get_str<'a>(config: &'a serde_json::Value, key: &str) -> (r: Option<&'a str>)
    ensures
        r matches Some(s) ==> object_str(json_view(*config), key@) == Some(s@),
        r is None ==> object_str(json_view(*config), key@) is None,
{
    match json_as_object(config) {
        Some(m) => get_str(m, key),
        None => None,
    }
}

} // verus!

verus! {

/// The entries of a `serde_json::Map`, each key with (a clone of) its value
/// (`m.clone().into_iter().collect()`). Every entry comes out once; the
/// order is the map's iteration order, which is not stated.
#[verifier::external_body]
pub fn json_map_entries(m: &JsonMap) -> (r: Vec<(String, serde_json::Value)>)
    ensures
        forall|i: int|
            0 <= i < r@.len() ==> json_entries(*m).contains_key(#[trigger] r@[i].0@) && json_view(r@[i].1)
                == json_entries(*m)[r@[i].0@],
        forall|k: Seq<char>| #[trigger]
            json_entries(*m).contains_key(k) ==> exists|i: int| 0 <= i < r@.len() && r@[i].0@ == k,
{
    m.clone().into_iter().collect()
}

/// The string-valued entries of a JSON object, as text.
pub open spec fn string_entries(m: Map<Seq<char>, Json>) -> Map<Seq<char>, Seq<char>> {
    Map::new(|k: Seq<char>| m.contains_key(k) && m[k] is Str, |k: Seq<char>| m[k]->Str_0)
}

/// A JSON array holding the strings, in order.
pub fn strings_json(items: &Vec<String>) -> (v: serde_json::Value)
    ensures
        json_view(v) == Json::Array(items@.map_values(|s: String| Json::Str(s@))),
{
    let mut owned: Vec<String> = Vec::new();
    let n = items.len();
    for i in 0..n
        invariant
            n == items@.len(),
            owned@.len() == i,
            forall|k: int| 0 <= k < i ==> #[trigger] owned@[k]@ == items@[k]@,
    {
        owned.push(items[i].clone());
    }
    let v = json_from_strings(owned);
    assert(owned@.map_values(|s: String| Json::Str(s@)) =~= items@.map_values(|s: String| Json::Str(s@)));
    v
}

} // verus!
