//! Reading the answer text out of each provider's JSON reply body.
use vstd::prelude::*;
use vstd::string::*;
use crate::json::{JsonValue, object_get, object_get_exec, parse_json, parsed_json};

verus! {

/// Why a reply body gave no answer text.
pub enum ReplyError {
    /// The body is not JSON.
    Malformed,
    /// The provider reported an error, with this message.
    Api(String),
    /// The answer is not where the provider puts it.
    Missing,
    /// The answer is there but empty.
    Empty,
}

pub enum ReplyErrorView {
    Malformed,
    Api(Seq<char>),
    Missing,
    Empty,
}

impl View for ReplyError {
    type V = ReplyErrorView;

    open spec fn view(&self) -> ReplyErrorView {
        match self {
            ReplyError::Malformed => ReplyErrorView::Malformed,
            ReplyError::Api(m) => ReplyErrorView::Api(m@),
            ReplyError::Missing => ReplyErrorView::Missing,
            ReplyError::Empty => ReplyErrorView::Empty,
        }
    }
}

pub open spec fn field(v: Option<JsonValue>, key: Seq<char>) -> Option<JsonValue> {
    match v {
        Some(JsonValue::Object(es)) => object_get(es@, key),
        _ => None,
    }
}

pub open spec fn item(v: Option<JsonValue>, i: int) -> Option<JsonValue> {
    match v {
        Some(JsonValue::Array(items)) => if 0 <= i < items@.len() {
            Some(items@[i])
        } else {
            None
        },
        _ => None,
    }
}

pub open spec fn text_of(v: Option<JsonValue>) -> Option<Seq<char>> {
    match v {
        Some(JsonValue::Str(s)) => Some(s@),
        _ => None,
    }
}

/// The message at `error.message`, if it is a string.
pub open spec fn api_error(v: JsonValue) -> Option<Seq<char>> {
    text_of(field(field(Some(v), "error"@), "message"@))
}

/// Gemini's answer: `candidates[0].content.parts[0].text`.
pub open spec fn gemini_text(v: JsonValue) -> Option<Seq<char>> {
    text_of(field(item(field(field(item(field(Some(v), "candidates"@), 0), "content"@), "parts"@), 0), "text"@))
}

/// Groq's answer: `choices[0].message.content`.
pub open spec fn groq_text(v: JsonValue) -> Option<Seq<char>> {
    text_of(field(field(item(field(Some(v), "choices"@), 0), "message"@), "content"@))
}

/// Ollama's answer: `response`.
pub open spec fn ollama_text(v: JsonValue) -> Option<Seq<char>> {
    text_of(field(Some(v), "response"@))
}

pub open spec fn reply_view(r: Result<String, ReplyError>) -> Result<Seq<char>, ReplyErrorView> {
    match r {
        Ok(s) => Ok(s@),
        Err(e) => Err(e@),
    }
}

/// A reply of Gemini or Groq: an error message the body carries comes first,
/// then the answer at its place.
pub open spec fn hosted_reply(body: Seq<char>, answer: spec_fn(JsonValue) -> Option<Seq<char>>) -> Result<Seq<char>, ReplyErrorView> {
    match parsed_json(body) {
        None => Err(ReplyErrorView::Malformed),
        Some(v) => if api_error(v) is Some {
            Err(ReplyErrorView::Api(api_error(v)->0))
        } else if answer(v) is Some {
            Ok(answer(v)->0)
        } else {
            Err(ReplyErrorView::Missing)
        },
    }
}

/// A reply of Ollama: the answer at its place, which must not be empty.
pub open spec fn ollama_reply(body: Seq<char>) -> Result<Seq<char>, ReplyErrorView> {
    match parsed_json(body) {
        None => Err(ReplyErrorView::Malformed),
        Some(v) => match ollama_text(v) {
            Some(t) => if t.len() == 0 {
                Err(ReplyErrorView::Empty)
            } else {
                Ok(t)
            },
            None => Err(ReplyErrorView::Missing),
        },
    }
}

fn field_exec<'a>(v: Option<&'a JsonValue>, key: &str) -> (r: Option<&'a JsonValue>)
    ensures
        match r {
            Some(x) => field(match v { Some(y) => Some(*y), None => None }, key@) == Some(*x),
            None => field(match v { Some(y) => Some(*y), None => None }, key@) is None,
        },
{
    match v {
        Some(JsonValue::Object(es)) => object_get_exec(es, &String::from_str(key)),
        _ => None,
    }
}

fn item_exec<'a>(v: Option<&'a JsonValue>, i: usize) -> (r: Option<&'a JsonValue>)
    ensures
        match r {
            Some(x) => item(match v { Some(y) => Some(*y), None => None }, i as int) == Some(*x),
            None => item(match v { Some(y) => Some(*y), None => None }, i as int) is None,
        },
{
    match v {
        Some(JsonValue::Array(items)) => if i < items.len() {
            Some(&items[i])
        } else {
            None
        },
        _ => None,
    }
}

fn text_exec(v: Option<&JsonValue>) -> (r: Option<String>)
    ensures
        match r {
            Some(s) => text_of(match v { Some(y) => Some(*y), None => None }) == Some(s@),
            None => text_of(match v { Some(y) => Some(*y), None => None }) is None,
        },
{
    match v {
        Some(JsonValue::Str(s)) => Some(s.clone()),
        _ => None,
    }
}

fn api_error_exec(v: &JsonValue) -> (r: Option<String>)
    ensures
        match r {
            Some(s) => api_error(*v) == Some(s@),
            None => api_error(*v) is None,
        },
{
    text_exec(field_exec(field_exec(Some(v), "error"), "message"))
}

/// The answer text of a Gemini reply body.
pub fn read_gemini_reply(body: &str) -> (r: Result<String, ReplyError>)
    ensures
        reply_view(r) == hosted_reply(body@, |v: JsonValue| gemini_text(v)),
{
    let v = match parse_json(body) {
        Some(v) => v,
        None => return Err(ReplyError::Malformed),
    };
    if let Some(m) = api_error_exec(&v) {
        return Err(ReplyError::Api(m));
    }
    let c = item_exec(field_exec(Some(&v), "candidates"), 0);
    let p = item_exec(field_exec(field_exec(c, "content"), "parts"), 0);
    match text_exec(field_exec(p, "text")) {
        Some(t) => Ok(t),
        None => Err(ReplyError::Missing),
    }
}

/// The answer text of a Groq reply body.
pub fn read_groq_reply(body: &str) -> (r: Result<String, ReplyError>)
    ensures
        reply_view(r) == hosted_reply(body@, |v: JsonValue| groq_text(v)),
{
    let v = match parse_json(body) {
        Some(v) => v,
        None => return Err(ReplyError::Malformed),
    };
    if let Some(m) = api_error_exec(&v) {
        return Err(ReplyError::Api(m));
    }
    let c = item_exec(field_exec(Some(&v), "choices"), 0);
    match text_exec(field_exec(field_exec(c, "message"), "content")) {
        Some(t) => Ok(t),
        None => Err(ReplyError::Missing),
    }
}

/// The answer text of an Ollama reply body.
pub fn read_ollama_reply(body: &str) -> (r: Result<String, ReplyError>)
    ensures
        reply_view(r) == ollama_reply(body@),
{
    let v = match parse_json(body) {
        Some(v) => v,
        None => return Err(ReplyError::Malformed),
    };
    match text_exec(field_exec(Some(&v), "response")) {
        Some(t) => if t.as_str().is_empty() {
            Err(ReplyError::Empty)
        } else {
            Ok(t)
        },
        None => Err(ReplyError::Missing),
    }
}

} // verus!
