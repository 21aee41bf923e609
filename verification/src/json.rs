//! JSON documents, held as `serde_json::Value`s and read through a model.
use vstd::prelude::*;
use crate::text::{joined_with, trim};

verus! {

#[verifier::external_type_specification]
#[verifier::external_body]
pub struct ExJsonValue(serde_json::Value);

/// What a JSON value holds: a number is known by the `u64` that
/// `Value::as_u64` reads from it (`None` for negative and fractional numbers),
/// and an object by its key-value map.
pub enum JsonModel {
    Null,
    Bool(bool),
    Number(Option<u64>),
    Str(Seq<char>),
    Array(Seq<JsonModel>),
    Object(Map<Seq<char>, JsonModel>),
}

/// What a `serde_json::Value` holds.
pub uninterp spec fn json_model(v: serde_json::Value) -> JsonModel;

/// The document that `serde_json::from_str::<Value>` reads from a text, or
/// `None` where it reports an error.
pub uninterp spec fn json_text_model(text: Seq<char>) -> Option<JsonModel>;

/// The models of a list of values.
pub open spec fn json_models(vs: Seq<serde_json::Value>) -> Seq<JsonModel> {
    vs.map_values(|v: serde_json::Value| json_model(v))
}

/// The documents that texts denote, in order; each text is taken to denote one.
pub open spec fn text_docs(texts: Seq<Seq<char>>) -> Seq<JsonModel> {
    texts.map_values(|t: Seq<char>| json_text_model(t)->0)
}

/// A JSON list written out from the texts of its items: `[`, the texts
/// separated by commas, `]`.
pub open spec fn array_text(items: Seq<Seq<char>>) -> Seq<char> {
    seq!['['] + joined_with(items, ',') + seq![']']
}

/// Scans a JSON text from position `i`, with `depth` lists and objects open
/// and `deepest` the most that were open at once before `i`; brackets inside
/// string literals (`in_text`, `escaped` after a backslash) do not count.
pub open spec fn nesting_from(
    t: Seq<char>,
    i: int,
    in_text: bool,
    escaped: bool,
    depth: int,
    deepest: int,
) -> int
    decreases t.len() - i,
{
    if i < 0 || i >= t.len() {
        deepest
    } else {
        let c = t[i];
        if in_text {
            if escaped {
                nesting_from(t, i + 1, true, false, depth, deepest)
            } else if c == '\\' {
                nesting_from(t, i + 1, true, true, depth, deepest)
            } else if c == '"' {
                nesting_from(t, i + 1, false, false, depth, deepest)
            } else {
                nesting_from(t, i + 1, true, false, depth, deepest)
            }
        } else if c == '"' {
            nesting_from(t, i + 1, true, false, depth, deepest)
        } else if c == '[' || c == '{' {
            nesting_from(
                t,
                i + 1,
                false,
                false,
                depth + 1,
                if depth + 1 > deepest {
                    depth + 1
                } else {
                    deepest
                },
            )
        } else if c == ']' || c == '}' {
            nesting_from(t, i + 1, false, false, depth - 1, deepest)
        } else {
            nesting_from(t, i + 1, false, false, depth, deepest)
        }
    }
}

/// The most lists and objects that a JSON text holds one inside another.
pub open spec fn nesting_depth(t: Seq<char>) -> int {
    nesting_from(t, 0, false, false, 0, 0)
}

/// `serde_json::from_str::<serde_json::Value>`. The contract says:
/// - the value read is the one the text denotes (`json_text_model`, a
///   function of the text alone), and an error comes exactly where it
///   denotes none;
/// - an object is read only from a text whose first character that is not
///   white space is `{`, and a list only from one where it is `[` (the
///   parser skips JSON white space, which is Unicode white space, and then
///   reads an object only at `{` and a list only at `[`);
/// - a text written as `[`, item texts separated by commas, `]` is read as
///   the list of the values that the item texts denote, where each item text
///   denotes a value and holds at most 126 lists and objects one inside
///   another (the parser reads each item as it reads a text of its own, and
///   refuses a document nested 128 deep).
#[verifier::external_body]
pub(crate) fn parse_json(text: &str) -> (r: Option<serde_json::Value>)
    ensures
        match r {
            Some(v) => {
                &&& json_text_model(text@) == Some(json_model(v))
                &&& json_model(v) is Object ==> trim(text@).len() > 0 && trim(text@)[0] == '{'
                &&& json_model(v) is Array ==> trim(text@).len() > 0 && trim(text@)[0] == '['
            },
            None => json_text_model(text@) is None,
        },
        forall|items: Seq<Seq<char>>|
            #[trigger] array_text(items) == text@ && (forall|i: int|
                0 <= i < items.len() ==> json_text_model(#[trigger] items[i]) is Some
                    && nesting_depth(items[i]) <= 126) ==> r is Some && json_model(r->0)
                == JsonModel::Array(text_docs(items)),
{
    serde_json::from_str::<serde_json::Value>(text).ok()
}

/// `Value::as_str`: the text of a string value, `None` for other values.
#[verifier::external_body]
pub(crate) fn json_as_str(v: &serde_json::Value) -> (r: Option<&str>)
    ensures
        match json_model(*v) {
            JsonModel::Str(s) => r is Some && r->0@ == s,
            _ => r is None,
        },
{
    v.as_str()
}

/// `Value::get` with a text key: the member of an object under that key,
/// `None` where the object has no such member or the value is no object.
#[verifier::external_body]
pub(crate) fn json_get<'a>(v: &'a serde_json::Value, key: &str) -> (r: Option<&'a serde_json::Value>)
    ensures
        match json_model(*v) {
            JsonModel::Object(m) => {
                &&& (r is Some <==> m.contains_key(key@))
                &&& (r is Some ==> json_model(*r->0) == m[key@])
            },
            _ => r is None,
        },
{
    v.get(key)
}

/// `Value::as_array`: the items of an array value, `None` for other values.
#[verifier::external_body]
pub(crate) fn json_as_array(v: &serde_json::Value) -> (r: Option<&Vec<serde_json::Value>>)
    ensures
        match json_model(*v) {
            JsonModel::Array(items) => r is Some && json_models(r->0@) == items,
            _ => r is None,
        },
{
    v.as_array()
}

/// `Map::keys` on an object value: its keys, each once; `None` for other
/// values.
#[verifier::external_body]
pub(crate) fn json_object_keys(v: &serde_json::Value) -> (r: Option<Vec<String>>)
    ensures
        match json_model(*v) {
            JsonModel::Object(m) => {
                &&& r is Some
                &&& r->0@.map_values(|k: String| k@).no_duplicates()
                &&& r->0@.map_values(|k: String| k@).to_set() == m.dom()
            },
            _ => r is None,
        },
{
    match v {
        serde_json::Value::Object(m) => Some(m.keys().cloned().collect()),
        _ => None,
    }
}

/// The key of an object with exactly one member.
pub open spec fn single_key(m: Map<Seq<char>, JsonModel>) -> Option<Seq<char>> {
    if exists|k: Seq<char>| m.dom() == Set::<Seq<char>>::empty().insert(k) {
        Some(choose|k: Seq<char>| m.dom() == Set::<Seq<char>>::empty().insert(k))
    } else {
        None
    }
}

/// `Value::is_object`: holds exactly of object values.
#[verifier::external_body]
pub(crate) fn json_is_object(v: &serde_json::Value) -> (r: bool)
    ensures
        r == (json_model(*v) is Object),
{
    v.is_object()
}

/// `Value::is_number`: holds exactly of numbers.
#[verifier::external_body]
pub(crate) fn json_is_number(v: &serde_json::Value) -> (r: bool)
    ensures
        r == (json_model(*v) is Number),
{
    v.is_number()
}

/// `Value::is_null`: holds exactly of `null`.
#[verifier::external_body]
pub(crate) fn json_is_null(v: &serde_json::Value) -> (r: bool)
    ensures
        r == (json_model(*v) is Null),
{
    v.is_null()
}

/// `Value::as_u64`: the number as a `u64` where it is a non-negative
/// integer that fits, `None` for other numbers and other values.
#[verifier::external_body]
pub(crate) fn json_as_u64(v: &serde_json::Value) -> (r: Option<u64>)
    ensures
        match json_model(*v) {
            JsonModel::Number(n) => r == n,
            _ => r is None,
        },
{
    v.as_u64()
}

/// `Value::String`: a string value holding `s`.
#[verifier::external_body]
pub(crate) fn json_string(s: String) -> (r: serde_json::Value)
    ensures
        json_model(r) == JsonModel::Str(s@),
{
    serde_json::Value::String(s)
}

/// `Value::from(u32)`: a non-negative integer, which `as_u64` reads back.
#[verifier::external_body]
pub(crate) fn json_u32(n: u32) -> (r: serde_json::Value)
    ensures
        json_model(r) == JsonModel::Number(Some(n as u64)),
{
    serde_json::Value::from(n)
}

/// `Value::Null`.
#[verifier::external_body]
pub(crate) fn json_null() -> (r: serde_json::Value)
    ensures
        json_model(r) == JsonModel::Null,
{
    serde_json::Value::Null
}

/// `Value::Array`: an array value holding `items`, in order.
#[verifier::external_body]
pub(crate) fn json_array(items: Vec<serde_json::Value>) -> (r: serde_json::Value)
    ensures
        json_model(r) == JsonModel::Array(json_models(items@)),
{
    serde_json::Value::Array(items)
}

/// `Value::Object(Map::new())`: an object with no member.
#[verifier::external_body]
pub(crate) fn json_object() -> (r: serde_json::Value)
    ensures
        json_model(r) == JsonModel::Object(Map::empty()),
{
    serde_json::Value::Object(serde_json::Map::new())
}

/// `Map::insert` on an object value: sets the member under `key`, replacing
/// any member that was there.
#[verifier::external_body]
pub(crate) fn json_insert(obj: &mut serde_json::Value, key: String, val: serde_json::Value)
    requires
        json_model(*old(obj)) is Object,
    ensures
        json_model(*final(obj)) == JsonModel::Object(
            json_model(*old(obj))->Object_0.insert(key@, json_model(val)),
        ),
{
    if let serde_json::Value::Object(m) = obj {
        m.insert(key, val);
    }
}

/// `Map::remove` on an object value: removes the member under `key`, if any.
#[verifier::external_body]
pub(crate) fn json_remove(obj: &mut serde_json::Value, key: &str)
    requires
        json_model(*old(obj)) is Object,
    ensures
        json_model(*final(obj)) == JsonModel::Object(
            json_model(*old(obj))->Object_0.remove(key@),
        ),
{
    if let serde_json::Value::Object(m) = obj {
        m.remove(key);
    }
}

} // verus!
