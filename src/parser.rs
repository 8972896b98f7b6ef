//! The layered reading of raw model output: strict JSON, JSON embedded in
//! prose, files in markdown, and finally the text itself.
use vstd::prelude::*;
use crate::interp::{opt_reply_view, reply_of_value, text_reply, tool_response_from_value, tools_reply};
use crate::json::{parse_json, parsed_json};
use crate::markdown::{extract_files, files_from, lines};
use crate::scan::{candidates, extract_json_candidates, strings_view};
use crate::text::{chars_of, string_of, trim, trim_chars};
use crate::tools::{calls_view, ResponseView, ToolResponse};

verus! {

/// The reply that the text stands for when parsed as JSON as a whole.
pub open spec fn strict_reply(t: Seq<char>) -> Option<ResponseView> {
    match parsed_json(t) {
        Some(v) => reply_of_value(v),
        None => None,
    }
}

/// The reply of the first candidate, in order, that gives one.
pub open spec fn first_reply(cs: Seq<Seq<char>>) -> Option<ResponseView>
    decreases cs.len(),
{
    if cs.len() == 0 {
        None
    } else if strict_reply(cs[0]) is Some {
        strict_reply(cs[0])
    } else {
        first_reply(cs.drop_first())
    }
}

/// The JSON layers: the whole text, then each embedded candidate.
pub open spec fn json_reply(t: Seq<char>) -> Option<ResponseView> {
    if strict_reply(t) is Some {
        strict_reply(t)
    } else {
        first_reply(candidates(t))
    }
}

/// What raw model output means, after trimming: a JSON reply if one can be
/// found; else the files of its markdown blocks, if any; else the text.
pub open spec fn interpretation(text: Seq<char>) -> ResponseView {
    let t = trim(text);
    if json_reply(t) is Some {
        json_reply(t)->0
    } else if files_from(lines(t), 0).len() > 0 {
        tools_reply(files_from(lines(t), 0))
    } else {
        text_reply(t)
    }
}

fn strict_response(text: &str) -> (r: Option<ToolResponse>)
    ensures
        opt_reply_view(r) == strict_reply(text@),
{
    match parse_json(text) {
        Some(v) => tool_response_from_value(&v),
        None => None,
    }
}

/// The JSON reply of the text, strict or embedded, if there is one.
pub fn parse_tool_response(text: &str) -> (r: Option<ToolResponse>)
    ensures
        opt_reply_view(r) == json_reply(text@),
{
    if let Some(r) = strict_response(text) {
        return Some(r);
    }
    let cs = extract_json_candidates(text);
    let n = cs.len();
    let ghost sv = strings_view(cs@);
    let mut i: usize = 0;
    assert(sv.subrange(0, n as int) =~= sv);
    while i < n
        invariant
            i <= n == cs@.len() == sv.len(),
            sv == strings_view(cs@),
            strict_reply(text@) is None,
            candidates(text@) == sv,
            first_reply(sv) == first_reply(sv.subrange(i as int, n as int)),
        decreases n - i,
    {
        assert(sv.subrange(i as int, n as int).drop_first() =~= sv.subrange(i + 1, n as int));
        assert(sv[i as int] == cs@[i as int]@);
        assert(sv.subrange(i as int, n as int)[0] == sv[i as int]);
        if let Some(r) = strict_response(cs[i].as_str()) {
            assert(strict_reply(sv[i as int]) is Some);
            assert(first_reply(sv.subrange(i as int, n as int)) == strict_reply(sv[i as int]));
            return Some(r);
        }
        i = i + 1;
    }
    None
}

/// Reads raw model output as a reply; this never fails.
pub fn interpret(text: &str) -> (r: ToolResponse)
    ensures
        r@ == interpretation(text@),
{
    let raw = chars_of(text);
    let tc = trim_chars(raw.as_slice());
    let t = string_of(tc.as_slice());
    if let Some(r) = parse_tool_response(t.as_str()) {
        return r;
    }
    let files = extract_files(tc.as_slice());
    if files.len() > 0 {
        return ToolResponse { tools: Some(files), response: None };
    }
    ToolResponse { tools: None, response: Some(t) }
}

} // verus!
