//! A JSON value tree as the interpretation logic reads it, and the parser
//! that produces it.
use vstd::prelude::*;

verus! {

/// One JSON value. Numbers are kept only as a kind: nothing here reads them.
/// An object's entries come in key order, each key once.
pub enum JsonValue {
    Null,
    Bool(bool),
    Number,
    Str(String),
    Array(Vec<JsonValue>),
    Object(Vec<(String, JsonValue)>),
}

/// `serde_json::Value`, opaque here: only the copying wrapper below reads it.
#[verifier::external_type_specification]
#[verifier::external_body]
pub struct ExSerdeValue(serde_json::Value);

/// The value that the text holds as a whole JSON document, if it holds one.
pub uninterp spec fn parsed_json(text: Seq<char>) -> Option<JsonValue>;

/// The JSON string literal that stands for the text.
pub uninterp spec fn json_quoted(s: Seq<char>) -> Seq<char>;

/// Relies on `serde_json::from_str::<serde_json::Value>`: parses the whole
/// text as one JSON value, or fails; the tree is then copied node for node.
#[verifier::external_body]
pub(crate) fn parse_json(text: &str) -> (r: Option<JsonValue>)
    ensures
        r == parsed_json(text@),
{
    serde_json::from_str::<serde_json::Value>(text).ok().map(|v| json_tree(v))
}

/// Relies on the variants of `serde_json::Value`: copies one node and its
/// children into the library's tree, keeping the map's entry order.
#[verifier::external_body]
fn json_tree(v: serde_json::Value) -> JsonValue {
    match v {
        serde_json::Value::Null => JsonValue::Null,
        serde_json::Value::Bool(b) => JsonValue::Bool(b),
        serde_json::Value::Number(_) => JsonValue::Number,
        serde_json::Value::String(s) => JsonValue::Str(s),
        serde_json::Value::Array(a) => JsonValue::Array(a.into_iter().map(json_tree).collect()),
        serde_json::Value::Object(m) => JsonValue::Object(
            m.into_iter().map(|(k, x)| (k, json_tree(x))).collect(),
        ),
    }
}

/// Relies on `serde_json::to_string` on a string slice: the quoted, escaped
/// literal. Serializing a `str` does not fail.
#[verifier::external_body]
pub(crate) fn quote_json(s: &str) -> (r: String)
    ensures
        r@ == json_quoted(s@),
{
    serde_json::to_string(s).unwrap_or_default()
}

/// The value under `key` in an object's entries: the first entry with that key.
pub open spec fn object_get(es: Seq<(String, JsonValue)>, key: Seq<char>) -> Option<JsonValue>
    decreases es.len(),
{
    if es.len() == 0 {
        None
    } else if es[0].0@ == key {
        Some(es[0].1)
    } else {
        object_get(es.drop_first(), key)
    }
}

pub fn object_get_exec<'a>(es: &'a Vec<(String, JsonValue)>, key: &String) -> (r: Option<
    &'a JsonValue,
>)
    ensures
        r matches Some(x) ==> object_get(es@, key@) == Some(*x),
        r is None ==> object_get(es@, key@) is None,
{
    let n = es.len();
    let mut i: usize = 0;
    assert(es@.subrange(0, n as int) =~= es@);
    while i < n
        invariant
            i <= n == es@.len(),
            object_get(es@, key@) == object_get(es@.subrange(i as int, n as int), key@),
        decreases n - i,
    {
        assert(es@.subrange(i as int, n as int).drop_first() =~= es@.subrange(i + 1, n as int));
        if es[i].0 == *key {
            return Some(&es[i].1);
        }
        i = i + 1;
    }
    None
}

} // verus!
