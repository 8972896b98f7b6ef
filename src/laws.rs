//! What holds of the library across inputs and across calls.
use vstd::prelude::*;
use crate::agent::{AgentView, MAX_ROUNDS, StepView, after_reply, after_text, ask_next, exhausted_text, fresh, stall_text};
use crate::executor::{denied_text, failure, request_of};
use crate::interp::{text_reply, tools_reply, tool_list_of};
use crate::json::{JsonValue, parsed_json};
use crate::parser::{interpretation, strict_reply};
use crate::scan::{candidates, scan_close};
use crate::text::{is_blank, is_ws, trim};
use crate::tools::{ResponseView, ToolCallView};

verus! {

/// A strict JSON object whose only field is a non-blank `response` string
/// is read as that answer.
pub proof fn law_plain_answer(text: Seq<char>, v: JsonValue, x: String)
    requires
        parsed_json(trim(text)) == Some(v),
        v matches JsonValue::Object(es) && es@.len() == 1 && es@[0].0@ == "response"@ && es@[0].1
            == JsonValue::Str(x),
        !is_blank(x@),
    ensures
        interpretation(text) == text_reply(x@),
{
    reveal_strlit("response");
    reveal_strlit("tools");
    reveal_strlit("action");
    if let JsonValue::Object(es) = v {
        assert(es@.drop_first().len() == 0);
        assert("response"@.len() == 8);
        assert("tools"@.len() == 5);
        assert("response"@ != "tools"@);
        assert(crate::json::object_get(es@.drop_first(), "tools"@) is None);
        assert(crate::json::object_get(es@, "tools"@) is None);
        assert(crate::json::object_get(es@, "response"@) == Some(es@[0].1));
    }
}

/// A strict JSON object whose only field is `tools`, a non-empty list of
/// well-formed calls, is read as exactly that list, in order.
pub proof fn law_tool_list(text: Seq<char>, v: JsonValue, ts: Seq<ToolCallView>)
    requires
        parsed_json(trim(text)) == Some(v),
        v matches JsonValue::Object(es) && es@.len() == 1 && es@[0].0@ == "tools"@ && (es@[0].1 matches JsonValue::Array(items) && tool_list_of(items@) == Some(ts)),
        ts.len() > 0,
    ensures
        interpretation(text) == tools_reply(ts),
{
    reveal_strlit("response");
    reveal_strlit("tools");
    if let JsonValue::Object(es) = v {
        assert(es@.drop_first().len() == 0);
        assert("response"@.len() == 8);
        assert("tools"@.len() == 5);
        assert("response"@ != "tools"@);
        assert(crate::json::object_get(es@.drop_first(), "response"@) is None);
        assert(crate::json::object_get(es@, "response"@) is None);
        assert(crate::json::object_get(es@, "tools"@) == Some(es@[0].1));
    }
}

proof fn lemma_trim_keeps(c: Seq<char>)
    requires
        c.len() > 0,
        !is_ws(c[0]),
        !is_ws(c.last()),
    ensures
        trim(c) == c,
{
}

/// A single JSON object embedded in prose is read exactly as that object
/// read on its own, when the text as a whole is not a reply.
pub proof fn law_embedded_object(text: Seq<char>, c: Seq<char>)
    requires
        strict_reply(trim(text)) is None,
        candidates(trim(text)) == seq![c],
        c.len() > 0,
        c[0] == '{',
        c.last() == '}',
        strict_reply(c) is Some,
    ensures
        interpretation(text) == interpretation(c),
        interpretation(c) == strict_reply(c)->0,
{
    lemma_trim_keeps(c);
    assert(seq![c].drop_first().len() == 0);
}

/// Inside a quoted string a bracket, or any character but a backslash or a
/// quote, leaves the nesting as it is; after a backslash the next character,
/// a quote too, is taken as part of the string.
pub proof fn law_quoted_text_is_inert(s: Seq<char>, j: int, stack: Seq<char>)
    requires
        0 <= j < s.len(),
    ensures
        s[j] != '\\' && s[j] != '"' ==> scan_close(s, j, stack, true, false) == scan_close(s, j + 1, stack, true, false),
        scan_close(s, j, stack, true, true) == scan_close(s, j + 1, stack, true, false),
{
}

/// Outside the working root every action but `list_dir` is refused with an
/// access-denied result.
pub proof fn law_containment(t: ToolCallView)
    requires
        t.action != "list_dir"@,
    ensures
        request_of(t, false) == Err::<crate::executor::FsRequestView, _>(failure(t, denied_text())),
{
}

/// When a round's results serialize to the same text as the round before,
/// the request ends as stalled, and the model is not asked again.
pub proof fn law_stall(s: AgentView, text: Seq<char>, reply: ResponseView)
    requires
        s.round < MAX_ROUNDS,
        s.last_results != Some(text),
        reply.response is None,
        reply.tools matches Some(ts) && ts.len() > 0,
    ensures
        after_text(s, text).1 is Ask,
        ({
            let s1 = after_reply(after_text(s, text).0, reply).0;
            &&& after_text(s1, text).1 == StepView::Finish(stall_text())
            &&& after_text(s1, text).0.round == after_text(s, text).0.round
        }),
{
}

/// The rounds of a request in which the model always answers with a
/// non-empty list of calls: each reply is taken, then the round's results
/// text; the outcome is the number of questions asked and the answer.
pub open spec fn drive(s: AgentView, replies: Seq<ResponseView>, texts: Seq<Seq<char>>, k: int) -> (nat, Seq<char>)
    decreases texts.len() - k,
{
    if k < 0 || k >= texts.len() || k >= replies.len() {
        (s.round, Seq::empty())
    } else {
        let s1 = after_reply(s, replies[k]).0;
        let (s2, step) = after_text(s1, texts[k]);
        match step {
            StepView::Finish(m) => (s2.round, m),
            _ => drive(s2, replies, texts, k + 1),
        }
    }
}

proof fn lemma_drive(s: AgentView, replies: Seq<ResponseView>, texts: Seq<Seq<char>>, k: int)
    requires
        0 <= k < MAX_ROUNDS,
        texts.len() >= MAX_ROUNDS,
        replies.len() >= MAX_ROUNDS,
        forall|i: int| 0 <= i < replies.len() ==> (#[trigger] replies[i]).response is None,
        forall|i: int| 0 <= i < replies.len() ==> ((#[trigger] replies[i]).tools matches Some(ts) && ts.len() > 0),
        forall|i: int| 0 <= i < texts.len() - 1 ==> #[trigger] texts[i] != texts[i + 1],
        s.round == k + 1,
        k == 0 ==> s.last_results is None,
        k > 0 ==> s.last_results == Some(texts[k - 1]),
    ensures
        drive(s, replies, texts, k) == (MAX_ROUNDS as nat, exhausted_text()),
    decreases MAX_ROUNDS - k,
{
    let r = replies[k];
    let s1 = after_reply(s, r).0;
    assert(s1.last_results == s.last_results);
    if k > 0 {
        assert(texts[k - 1] != texts[k - 1 + 1]);
    }
    if k + 1 < MAX_ROUNDS {
        let s2 = after_text(s1, texts[k]).0;
        lemma_drive(s2, replies, texts, k + 1);
    }
}

/// A model that always answers with a non-empty list of calls, whose
/// results never repeat from one round to the next, ends the request after
/// exactly the last allowed round, with the exhaustion message.
pub proof fn law_exhaustion(
    prompt: Seq<char>,
    context: Option<Seq<char>>,
    replies: Seq<ResponseView>,
    texts: Seq<Seq<char>>,
)
    requires
        texts.len() >= MAX_ROUNDS,
        replies.len() >= MAX_ROUNDS,
        forall|i: int| 0 <= i < replies.len() ==> (#[trigger] replies[i]).response is None,
        forall|i: int| 0 <= i < replies.len() ==> ((#[trigger] replies[i]).tools matches Some(ts) && ts.len() > 0),
        forall|i: int| 0 <= i < texts.len() - 1 ==> #[trigger] texts[i] != texts[i + 1],
    ensures
        drive(ask_next(fresh(prompt, context)).0, replies, texts, 0) == (10nat, exhausted_text()),
{
    lemma_drive(ask_next(fresh(prompt, context)).0, replies, texts, 0);
}

} // verus!
