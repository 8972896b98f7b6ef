//! Reading a JSON value as a reply: the shapes that the model is asked to
//! use, and the near misses it often produces instead.
use vstd::prelude::*;
use vstd::string::*;
use crate::json::{JsonValue, object_get, object_get_exec};
use crate::text::{is_blank, trim_chars, chars_of};
use crate::tools::{ToolCall, ToolCallView, ToolResponse, ResponseView, calls_view};

verus! {

/// An optional string field: absent or null is `None`; any other non-string
/// value makes the whole record fail (outer `None`).
pub open spec fn opt_field(v: Option<JsonValue>) -> Option<Option<Seq<char>>> {
    match v {
        None => Some(None),
        Some(JsonValue::Null) => Some(None),
        Some(JsonValue::Str(s)) => Some(Some(s@)),
        _ => None,
    }
}

/// A tool call read from an object with its named fields, or from an array
/// of exactly three positional fields.
pub open spec fn tool_call_of(v: JsonValue) -> Option<ToolCallView> {
    match v {
        JsonValue::Object(es) => match (
            object_get(es@, "action"@),
            opt_field(object_get(es@, "path"@)),
            opt_field(object_get(es@, "content"@)),
        ) {
            (Some(JsonValue::Str(a)), Some(p), Some(c)) => Some(
                ToolCallView { action: a@, path: p, content: c },
            ),
            _ => None,
        },
        JsonValue::Array(items) => if items@.len() == 3 {
            match (items@[0], opt_field(Some(items@[1])), opt_field(Some(items@[2]))) {
                (JsonValue::Str(a), Some(p), Some(c)) => Some(
                    ToolCallView { action: a@, path: p, content: c },
                ),
                _ => None,
            }
        } else {
            None
        },
        _ => None,
    }
}

/// Each item read as a tool call; fails if any of them does.
pub open spec fn tool_list_of(items: Seq<JsonValue>) -> Option<Seq<ToolCallView>>
    decreases items.len(),
{
    if items.len() == 0 {
        Some(Seq::empty())
    } else {
        match (tool_list_of(items.drop_last()), tool_call_of(items.last())) {
            (Some(ts), Some(t)) => Some(ts.push(t)),
            _ => None,
        }
    }
}

/// A value read as a list of tool calls: it must be an array.
pub open spec fn tool_array_of(v: JsonValue) -> Option<Seq<ToolCallView>> {
    match v {
        JsonValue::Array(items) => tool_list_of(items@),
        _ => None,
    }
}

/// An optional list of tool calls: null is `None`.
pub open spec fn opt_tools(v: Option<JsonValue>) -> Option<Option<Seq<ToolCallView>>> {
    match v {
        None => Some(None),
        Some(JsonValue::Null) => Some(None),
        Some(x) => match tool_array_of(x) {
            Some(ts) => Some(Some(ts)),
            None => None,
        },
    }
}

/// The value read directly in the reply's own shape.
pub open spec fn response_shape_of(v: JsonValue) -> Option<ResponseView> {
    match v {
        JsonValue::Object(es) => match (
            opt_tools(object_get(es@, "tools"@)),
            opt_field(object_get(es@, "response"@)),
        ) {
            (Some(t), Some(r)) => Some(ResponseView { tools: t, response: r }),
            _ => None,
        },
        JsonValue::Array(items) => if items@.len() == 2 {
            match (opt_tools(Some(items@[0])), opt_field(Some(items@[1]))) {
                (Some(t), Some(r)) => Some(ResponseView { tools: t, response: r }),
                _ => None,
            }
        } else {
            None
        },
        _ => None,
    }
}

pub open spec fn actionable(r: ResponseView) -> bool {
    ||| (r.tools matches Some(ts) && ts.len() > 0)
    ||| (r.response matches Some(s) && !is_blank(s))
}

pub open spec fn tools_reply(ts: Seq<ToolCallView>) -> ResponseView {
    ResponseView { tools: Some(ts), response: None }
}

pub open spec fn text_reply(s: Seq<char>) -> ResponseView {
    ResponseView { tools: None, response: Some(s) }
}

/// The reply that a JSON value stands for, tried in this order: the reply's
/// own shape with something to act on; an object with an `action` that is
/// one tool call; an object whose `tools` is a non-empty list; an object
/// whose `response` is a non-blank string; an array that is a non-empty
/// list of tool calls.
pub open spec fn reply_of_value(v: JsonValue) -> Option<ResponseView> {
    let shape = response_shape_of(v);
    if shape is Some && actionable(shape->0) {
        shape
    } else {
        match v {
            JsonValue::Object(es) => {
                let call = tool_call_of(v);
                let listed = match object_get(es@, "tools"@) {
                    Some(x) => tool_array_of(x),
                    None => None,
                };
                if object_get(es@, "action"@) is Some && call is Some {
                    Some(tools_reply(seq![call->0]))
                } else if listed is Some && listed->0.len() > 0 {
                    Some(tools_reply(listed->0))
                } else {
                    match object_get(es@, "response"@) {
                        Some(JsonValue::Str(s)) => if !is_blank(s@) {
                            Some(text_reply(s@))
                        } else {
                            None
                        },
                        _ => None,
                    }
                }
            },
            JsonValue::Array(items) => {
                let listed = tool_list_of(items@);
                if listed is Some && listed->0.len() > 0 {
                    Some(tools_reply(listed->0))
                } else {
                    None
                }
            },
            _ => None,
        }
    }
}

pub open spec fn opt_calls_view(r: Option<Vec<ToolCall>>) -> Option<Seq<ToolCallView>> {
    match r {
        Some(v) => Some(calls_view(v@)),
        None => None,
    }
}

pub open spec fn opt_call_view(r: Option<ToolCall>) -> Option<ToolCallView> {
    match r {
        Some(t) => Some(t@),
        None => None,
    }
}

pub open spec fn opt_reply_view(r: Option<ToolResponse>) -> Option<ResponseView> {
    match r {
        Some(t) => Some(t@),
        None => None,
    }
}

fn key(k: &str) -> (r: String)
    ensures
        r@ == k@,
{
    String::from_str(k)
}

fn opt_field_exec(v: Option<&JsonValue>) -> (r: Option<Option<String>>)
    ensures
        match r {
            Some(o) => opt_field(
                match v {
                    Some(x) => Some(*x),
                    None => None,
                },
            ) == Some(crate::tools::opt_view(o)),
            None => opt_field(
                match v {
                    Some(x) => Some(*x),
                    None => None,
                },
            ) is None,
        },
{
    match v {
        None => Some(None),
        Some(JsonValue::Null) => Some(None),
        Some(JsonValue::Str(s)) => Some(Some(s.clone())),
        _ => None,
    }
}

pub fn tool_call_from(v: &JsonValue) -> (r: Option<ToolCall>)
    ensures
        opt_call_view(r) == tool_call_of(*v),
{
    match v {
        JsonValue::Object(es) => {
            let a = object_get_exec(es, &key("action"));
            let p = opt_field_exec(object_get_exec(es, &key("path")));
            let c = opt_field_exec(object_get_exec(es, &key("content")));
            match (a, p, c) {
                (Some(JsonValue::Str(a)), Some(p), Some(c)) => Some(
                    ToolCall { action: a.clone(), path: p, content: c },
                ),
                _ => None,
            }
        },
        JsonValue::Array(items) => {
            if items.len() == 3 {
                let p = opt_field_exec(Some(&items[1]));
                let c = opt_field_exec(Some(&items[2]));
                match (&items[0], p, c) {
                    (JsonValue::Str(a), Some(p), Some(c)) => Some(
                        ToolCall { action: a.clone(), path: p, content: c },
                    ),
                    _ => None,
                }
            } else {
                None
            }
        },
        _ => None,
    }
}

pub fn tool_list_from(items: &Vec<JsonValue>) -> (r: Option<Vec<ToolCall>>)
    ensures
        opt_calls_view(r) == tool_list_of(items@),
{
    let n = items.len();
    let mut out: Vec<ToolCall> = Vec::new();
    let mut failed = false;
    let mut i: usize = 0;
    while i < n
        invariant
            i <= n == items@.len(),
            failed ==> tool_list_of(items@.subrange(0, i as int)) is None,
            !failed ==> tool_list_of(items@.subrange(0, i as int)) == Some(calls_view(out@)),
        decreases n - i,
    {
        assert(items@.subrange(0, i + 1).drop_last() =~= items@.subrange(0, i as int));
        if !failed {
            match tool_call_from(&items[i]) {
                Some(t) => {
                    proof {
                        assert(calls_view(out@.push(t)) =~= calls_view(out@).push(t@));
                    }
                    out.push(t);
                },
                None => {
                    failed = true;
                },
            }
        }
        i = i + 1;
    }
    assert(items@.subrange(0, n as int) =~= items@);
    if failed {
        None
    } else {
        Some(out)
    }
}

fn tool_array_from(v: &JsonValue) -> (r: Option<Vec<ToolCall>>)
    ensures
        opt_calls_view(r) == tool_array_of(*v),
{
    match v {
        JsonValue::Array(items) => tool_list_from(items),
        _ => None,
    }
}

fn opt_tools_exec(v: Option<&JsonValue>) -> (r: Option<Option<Vec<ToolCall>>>)
    ensures
        match r {
            Some(o) => opt_tools(
                match v {
                    Some(x) => Some(*x),
                    None => None,
                },
            ) == Some(opt_calls_view(o)),
            None => opt_tools(
                match v {
                    Some(x) => Some(*x),
                    None => None,
                },
            ) is None,
        },
{
    match v {
        None => Some(None),
        Some(JsonValue::Null) => Some(None),
        Some(x) => match tool_array_from(x) {
            Some(ts) => Some(Some(ts)),
            None => None,
        },
    }
}

fn response_shape_from(v: &JsonValue) -> (r: Option<ToolResponse>)
    ensures
        opt_reply_view(r) == response_shape_of(*v),
{
    match v {
        JsonValue::Object(es) => {
            let t = opt_tools_exec(object_get_exec(es, &key("tools")));
            let r = opt_field_exec(object_get_exec(es, &key("response")));
            match (t, r) {
                (Some(t), Some(r)) => Some(ToolResponse { tools: t, response: r }),
                _ => None,
            }
        },
        JsonValue::Array(items) => {
            if items.len() == 2 {
                let t = opt_tools_exec(Some(&items[0]));
                let r = opt_field_exec(Some(&items[1]));
                match (t, r) {
                    (Some(t), Some(r)) => Some(ToolResponse { tools: t, response: r }),
                    _ => None,
                }
            } else {
                None
            }
        },
        _ => None,
    }
}

pub fn is_blank_exec(s: &String) -> (r: bool)
    ensures
        r == is_blank(s@),
{
    let cs = chars_of(s.as_str());
    trim_chars(cs.as_slice()).len() == 0
}

fn actionable_exec(r: &ToolResponse) -> (b: bool)
    ensures
        b == actionable(r@),
{
    let has_tools = match &r.tools {
        Some(ts) => ts.len() > 0,
        None => false,
    };
    let has_text = match &r.response {
        Some(s) => !is_blank_exec(s),
        None => false,
    };
    has_tools || has_text
}

/// The reply that a parsed JSON value stands for, if any.
pub fn tool_response_from_value(v: &JsonValue) -> (r: Option<ToolResponse>)
    ensures
        opt_reply_view(r) == reply_of_value(*v),
{
    if let Some(r) = response_shape_from(v) {
        if actionable_exec(&r) {
            return Some(r);
        }
    }
    match v {
        JsonValue::Object(es) => {
            if object_get_exec(es, &key("action")).is_some() {
                if let Some(t) = tool_call_from(v) {
                    let ghost tv = t@;
                    let tools = vec![t];
                    assert(calls_view(tools@) =~= seq![tv]);
                    return Some(ToolResponse { tools: Some(tools), response: None });
                }
            }
            if let Some(tv) = object_get_exec(es, &key("tools")) {
                if let Some(ts) = tool_array_from(tv) {
                    if ts.len() > 0 {
                        return Some(ToolResponse { tools: Some(ts), response: None });
                    }
                }
            }
            if let Some(JsonValue::Str(s)) = object_get_exec(es, &key("response")) {
                if !is_blank_exec(s) {
                    return Some(ToolResponse { tools: None, response: Some(s.clone()) });
                }
            }
            None
        },
        JsonValue::Array(items) => {
            if let Some(ts) = tool_list_from(items) {
                if ts.len() > 0 {
                    return Some(ToolResponse { tools: Some(ts), response: None });
                }
            }
            None
        },
        _ => None,
    }
}

} // verus!
