use vstd::prelude::*;
use serde_json::{Map as JsonMap, Value};

verus! {

/// What a JSON value holds. A number is held as the text that serde_json
/// prints for it; an object maps each key to its value.
pub enum Json {
    Null,
    Bool(bool),
    Number(Seq<char>),
    Text(Seq<char>),
    Array(Seq<Json>),
    Object(Map<Seq<char>, Json>),
}

#[verifier::external_type_specification]
#[verifier::external_body]
pub struct ExValue(serde_json::Value);

#[verifier::external_type_specification]
#[verifier::external_body]
#[verifier::reject_recursive_types(K)]
#[verifier::reject_recursive_types(V)]
pub struct ExJsonMap<K, V>(serde_json::Map<K, V>);

/// What a `serde_json::Value` holds.
pub uninterp spec fn json_view(v: Value) -> Json;

/// What a `serde_json::Map` holds.
pub uninterp spec fn object_entries(m: JsonMap<String, Value>) -> Map<Seq<char>, Json>;

/// What `serde_json::from_str` reads from a text, if the text is JSON.
pub uninterp spec fn json_parse(s: Seq<char>) -> Option<Json>;

/// The compact text that serde_json writes for a value.
pub uninterp spec fn json_text(j: Json) -> Seq<char>;

pub assume_specification[ serde_json::Value::as_str ](v: &Value) -> (r: Option<&str>)
    ensures
        match json_view(*v) {
            Json::Text(s) => r is Some && r->0@ == s,
            _ => r is None,
        },
;

pub assume_specification[ serde_json::Value::as_array ](v: &Value) -> (r: Option<&Vec<Value>>)
    ensures
        match json_view(*v) {
            Json::Array(items) => r is Some && r->0@.map_values(|x: Value| json_view(x)) == items,
            _ => r is None,
        },
;

pub assume_specification[ serde_json::Value::as_object ](v: &Value) -> (r: Option<
    &JsonMap<String, Value>,
>)
    ensures
        match json_view(*v) {
            Json::Object(m) => r is Some && object_entries(*r->0) == m,
            _ => r is None,
        },
;

pub assume_specification[ serde_json::Value::is_null ](v: &Value) -> (r: bool)
    ensures
        r == (json_view(*v) == Json::Null),
;

pub assume_specification[ serde_json::Map::<String, Value>::len ](m: &JsonMap<String, Value>) -> (r: usize)
    ensures
        r == object_entries(*m).dom().len(),
;

pub assume_specification[ serde_json::Map::<String, Value>::new ]() -> (r: JsonMap<String, Value>)
    ensures
        object_entries(r) =~= Map::empty(),
;

pub assume_specification[ serde_json::Map::<String, Value>::insert ](
    m: &mut JsonMap<String, Value>,
    k: String,
    v: Value,
) -> (r: Option<Value>)
    ensures
        object_entries(*final(m)) == object_entries(*old(m)).insert(k@, json_view(v)),
;

/// Relies on `serde_json::from_str`, read as a `Value`: `None` where the text is not JSON.
#[verifier::external_body]
pub(crate) fn parse_value(s: &str) -> (r: Option<Value>)
    ensures
        match r {
            Some(v) => json_parse(s@) == Some(json_view(v)),
            None => json_parse(s@) is None,
        },
{
    serde_json::from_str::<Value>(s).ok()
}

/// Relies on `Value::get` with a key: the member of an object under that key.
#[verifier::external_body]
pub(crate) fn member<'a>(v: &'a Value, key: &str) -> (r: Option<&'a Value>)
    ensures
        match json_view(*v) {
            Json::Object(m) => if m.contains_key(key@) {
                r is Some && json_view(*r->0) == m[key@]
            } else {
                r is None
            },
            _ => r is None,
        },
{
    v.get(key)
}

/// Relies on the `Value::String` variant: a JSON string.
#[verifier::external_body]
pub(crate) fn text_value(s: String) -> (r: Value)
    ensures
        json_view(r) == Json::Text(s@),
{
    Value::String(s)
}

/// Relies on the `Value::Bool` variant: a JSON boolean.
#[verifier::external_body]
pub(crate) fn bool_value(b: bool) -> (r: Value)
    ensures
        json_view(r) == Json::Bool(b),
{
    Value::Bool(b)
}

/// Relies on the `Value::Array` variant: a JSON array of the given items.
#[verifier::external_body]
pub(crate) fn array_value(items: Vec<Value>) -> (r: Value)
    ensures
        json_view(r) == Json::Array(items@.map_values(|x: Value| json_view(x))),
{
    Value::Array(items)
}

/// Relies on the `Value::Object` variant: a JSON object of the given entries.
#[verifier::external_body]
pub(crate) fn object_value(m: JsonMap<String, Value>) -> (r: Value)
    ensures
        json_view(r) == Json::Object(object_entries(m)),
{
    Value::Object(m)
}

/// Relies on `Display` for `Value`: the compact JSON text of a value.
#[verifier::external_body]
pub(crate) fn value_text(v: &Value) -> (r: String)
    ensures
        r@ == json_text(json_view(*v)),
{
    v.to_string()
}

/// Whether two texts hold the same characters.
pub fn same_text(a: &str, b: &str) -> (r: bool)
    ensures
        r == (a@ == b@),
{
    let n = a.unicode_len();
    if n != b.unicode_len() {
        return false;
    }
    let mut i: usize = 0;
    while i < n
        invariant
            n == a@.len(),
            n == b@.len(),
            i <= n,
            a@.subrange(0, i as int) == b@.subrange(0, i as int),
        decreases n - i,
    {
        if a.get_char(i) != b.get_char(i) {
            return false;
        }
        assert(a@.subrange(0, i + 1) =~= a@.subrange(0, i as int).push(a@[i as int]));
        assert(b@.subrange(0, i + 1) =~= b@.subrange(0, i as int).push(b@[i as int]));
        i = i + 1;
    }
    assert(a@ =~= a@.subrange(0, n as int));
    assert(b@ =~= b@.subrange(0, n as int));
    true
}

pub open spec fn text_of(j: Json) -> Option<Seq<char>> {
    match j {
        Json::Text(s) => Some(s),
        _ => None,
    }
}

pub open spec fn member_of(j: Json, key: Seq<char>) -> Option<Json> {
    match j {
        Json::Object(m) => if m.contains_key(key) {
            Some(m[key])
        } else {
            None
        },
        _ => None,
    }
}

pub open spec fn member_text(j: Json, key: Seq<char>) -> Option<Seq<char>> {
    match member_of(j, key) {
        Some(x) => text_of(x),
        None => None,
    }
}

/// The texts of an array whose items are all strings.
pub open spec fn texts_of(j: Json) -> Option<Seq<Seq<char>>> {
    match j {
        Json::Array(items) => if forall|i: int| 0 <= i < items.len() ==> (#[trigger] items[i]) is Text {
            Some(items.map_values(|x: Json| x->Text_0))
        } else {
            None
        },
        _ => None,
    }
}

pub open spec fn text_array(s: Seq<Seq<char>>) -> Json {
    Json::Array(s.map_values(|t: Seq<char>| Json::Text(t)))
}

/// The string under `key` of an object.
pub fn member_string(v: &Value, key: &str) -> (r: Option<String>)
    ensures
        match member_text(json_view(*v), key@) {
            Some(s) => r is Some && r->0@ == s,
            None => r is None,
        },
{
    match member(v, key) {
        Some(x) => match x.as_str() {
            Some(s) => Some(String::from_str(s)),
            None => None,
        },
        None => None,
    }
}

/// The texts of a JSON array of strings.
pub fn string_list(v: &Value) -> (r: Option<Vec<String>>)
    ensures
        match texts_of(json_view(*v)) {
            Some(s) => r is Some && r->0@.map_values(|x: String| x@) == s,
            None => r is None,
        },
{
    let items = match v.as_array() {
        Some(items) => items,
        None => return None,
    };
    let ghost js = items@.map_values(|x: Value| json_view(x));
    assert(json_view(*v) == Json::Array(js));
    let mut out: Vec<String> = Vec::new();
    let mut i: usize = 0;
    while i < items.len()
        invariant
            js == items@.map_values(|x: Value| json_view(x)),
            json_view(*v) == Json::Array(js),
            i <= items@.len(),
            out@.len() == i,
            forall|t: int| 0 <= t < i ==> (#[trigger] js[t]) is Text && out@[t]@ == js[t]->Text_0,
        decreases items@.len() - i,
    {
        match items[i].as_str() {
            Some(s) => out.push(String::from_str(s)),
            None => {
                assert(js[i as int] == json_view(items@[i as int]));
                assert(!(js[i as int] is Text));
                assert(texts_of(json_view(*v)) is None);
                return None;
            },
        }
        i = i + 1;
    }
    assert(out@.map_values(|x: String| x@) =~= js.map_values(|x: Json| x->Text_0));
    Some(out)
}

/// A JSON array of strings.
pub fn string_list_value(s: &Vec<String>) -> (r: Value)
    ensures
        json_view(r) == text_array(s@.map_values(|x: String| x@)),
{
    let mut out: Vec<Value> = Vec::new();
    let mut i: usize = 0;
    while i < s.len()
        invariant
            i <= s@.len(),
            out@.len() == i,
            forall|t: int| 0 <= t < i ==> json_view(#[trigger] out@[t]) == Json::Text(s@[t]@),
        decreases s@.len() - i,
    {
        out.push(text_value(s[i].clone()));
        i = i + 1;
    }
    assert(out@.map_values(|x: Value| json_view(x)) =~= s@.map_values(|x: String| x@).map_values(
        |t: Seq<char>| Json::Text(t),
    ));
    array_value(out)
}

} // verus!
