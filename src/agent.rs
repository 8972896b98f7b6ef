//! The conversation loop as a state machine: the caller asks the model and
//! performs the operations; this decides what happens next.
use vstd::prelude::*;
use vstd::string::*;
use crate::json::{json_quoted, quote_json};
use crate::policy::{block_reason, should_block_tool_for_prompt};
use crate::text::{chars_of, string_of};
use crate::tools::{
    ToolCall, ToolCallView, ToolResponse, ToolResult, ToolResultView, calls_view, is_supported_action,
    supported_action, opt_view,
};

verus! {

/// The most rounds, that is questions to the model, for one request.
pub const MAX_ROUNDS: u32 = 10;

pub open spec fn no_action_text() -> Seq<char> {
    "No action taken."@
}

pub open spec fn no_response_text() -> Seq<char> {
    "No response."@
}

pub open spec fn stall_text() -> Seq<char> {
    "No further progress possible."@
}

pub open spec fn exhausted_text() -> Seq<char> {
    "Max iterations reached."@
}

pub open spec fn unsupported_text() -> Seq<char> {
    "Unsupported action"@
}

/// One result as a compact JSON object, fields in declaration order.
pub open spec fn result_json(r: ToolResultView) -> Seq<char> {
    "{\"action\":"@ + json_quoted(r.action) + ",\"path\":"@ + json_quoted(r.path) + ",\"success\":"@
        + (if r.success {
        "true"@
    } else {
        "false"@
    }) + ",\"result\":"@ + json_quoted(r.result) + "}"@
}

/// The results, one JSON object per line.
pub open spec fn results_text(rs: Seq<ToolResultView>) -> Seq<char>
    decreases rs.len(),
{
    if rs.len() == 0 {
        Seq::empty()
    } else if rs.len() == 1 {
        result_json(rs[0])
    } else {
        results_text(rs.drop_last()).push('\n') + result_json(rs.last())
    }
}

/// What the model is told: the request, with the previous round's results
/// where there are some, else with the repository context where there is some.
pub open spec fn user_message(prompt: Seq<char>, results: Option<Seq<char>>, context: Option<Seq<char>>) -> Seq<char> {
    match results {
        Some(r) => "Tool results:\n"@ + r + "\n\nOriginal request: "@ + prompt
            + "\n\nBased on these results, provide final response or more tool calls."@,
        None => match context {
            Some(c) => "REPO CONTEXT:\n"@ + c + "\n\nUSER REQUEST: "@ + prompt,
            None => prompt,
        },
    }
}

pub open spec fn path_or_empty(t: ToolCallView) -> Seq<char> {
    match t.path {
        Some(p) => p,
        None => Seq::empty(),
    }
}

/// The calls that run: supported, and not vetoed for the prompt.
pub open spec fn runnable(ts: Seq<ToolCallView>, prompt: Seq<char>) -> Seq<ToolCallView>
    decreases ts.len(),
{
    if ts.len() == 0 {
        Seq::empty()
    } else {
        let prev = runnable(ts.drop_last(), prompt);
        let t = ts.last();
        if supported_action(t.action) && block_reason(t, prompt) is None {
            prev.push(t)
        } else {
            prev
        }
    }
}

/// The failures for supported calls that the policy vetoes.
pub open spec fn vetoed(ts: Seq<ToolCallView>, prompt: Seq<char>) -> Seq<ToolResultView>
    decreases ts.len(),
{
    if ts.len() == 0 {
        Seq::empty()
    } else {
        let prev = vetoed(ts.drop_last(), prompt);
        let t = ts.last();
        if supported_action(t.action) && block_reason(t, prompt) is Some {
            prev.push(
                ToolResultView {
                    action: t.action,
                    path: path_or_empty(t),
                    success: false,
                    result: block_reason(t, prompt)->0,
                },
            )
        } else {
            prev
        }
    }
}

/// The failures for calls with an unknown action.
pub open spec fn refused(ts: Seq<ToolCallView>) -> Seq<ToolResultView>
    decreases ts.len(),
{
    if ts.len() == 0 {
        Seq::empty()
    } else {
        let prev = refused(ts.drop_last());
        let t = ts.last();
        if !supported_action(t.action) {
            prev.push(
                ToolResultView {
                    action: t.action,
                    path: path_or_empty(t),
                    success: false,
                    result: unsupported_text(),
                },
            )
        } else {
            prev
        }
    }
}

/// What the caller does next.
pub enum Step {
    /// Ask the model, with this user message.
    Ask(String),
    /// Perform these operations, then report their results.
    Execute(Vec<ToolCall>),
    /// The request is done; this is the answer.
    Finish(String),
}

pub enum StepView {
    Ask(Seq<char>),
    Execute(Seq<ToolCallView>),
    Finish(Seq<char>),
}

impl View for Step {
    type V = StepView;

    open spec fn view(&self) -> StepView {
        match self {
            Step::Ask(m) => StepView::Ask(m@),
            Step::Execute(ts) => StepView::Execute(calls_view(ts@)),
            Step::Finish(s) => StepView::Finish(s@),
        }
    }
}

/// The state of one request's conversation.
pub struct AgentLoop {
    prompt: String,
    context: Option<String>,
    round: u32,
    last_results: Option<String>,
    pending: Vec<ToolResult>,
}

#[verifier::ext_equal]
pub struct AgentView {
    pub prompt: Seq<char>,
    pub context: Option<Seq<char>>,
    pub round: nat,
    pub last_results: Option<Seq<char>>,
    pub pending: Seq<ToolResultView>,
}

pub open spec fn results_view(v: Seq<ToolResult>) -> Seq<ToolResultView> {
    v.map_values(|r: ToolResult| r@)
}

impl View for AgentLoop {
    type V = AgentView;

    closed spec fn view(&self) -> AgentView {
        AgentView {
            prompt: self.prompt@,
            context: opt_view(self.context),
            round: self.round as nat,
            last_results: opt_view(self.last_results),
            pending: results_view(self.pending@),
        }
    }
}

/// The next round: its number, and the question it asks.
pub open spec fn ask_next(s: AgentView) -> (AgentView, StepView) {
    (
        AgentView { round: s.round + 1, ..s },
        StepView::Ask(user_message(s.prompt, s.last_results, s.context)),
    )
}

/// After the model's reply: an answer ends the request; a list of calls is
/// split into those that run and the failures kept for the report.
pub open spec fn after_reply(s: AgentView, reply: crate::tools::ResponseView) -> (AgentView, StepView) {
    match reply.response {
        Some(t) => (s, StepView::Finish(t)),
        None => match reply.tools {
            Some(ts) => if ts.len() == 0 {
                (s, StepView::Finish(no_action_text()))
            } else {
                (
                    AgentView { pending: vetoed(ts, s.prompt) + refused(ts), ..s },
                    StepView::Execute(runnable(ts, s.prompt)),
                )
            },
            None => (s, StepView::Finish(no_response_text())),
        },
    }
}

/// After a round's results, serialized as `text`: the same text as the
/// round before ends the request as stalled; the last round ends it as
/// exhausted; otherwise the model is asked again with the new results.
pub open spec fn after_text(s: AgentView, text: Seq<char>) -> (AgentView, StepView) {
    if s.last_results == Some(text) {
        (AgentView { pending: Seq::empty(), ..s }, StepView::Finish(stall_text()))
    } else if s.round >= MAX_ROUNDS {
        (AgentView { last_results: Some(text), pending: Seq::empty(), ..s }, StepView::Finish(exhausted_text()))
    } else {
        ask_next(AgentView { last_results: Some(text), pending: Seq::empty(), ..s })
    }
}

pub open spec fn fresh(prompt: Seq<char>, context: Option<Seq<char>>) -> AgentView {
    AgentView { prompt, context, round: 0, last_results: None, pending: Seq::empty() }
}

fn append(v: &mut Vec<char>, s: &str)
    ensures
        final(v)@ == old(v)@ + s@,
{
    let cs = chars_of(s);
    let mut i: usize = 0;
    while i < cs.len()
        invariant
            i <= cs@.len(),
            v@ == old(v)@ + cs@.subrange(0, i as int),
        decreases cs.len() - i,
    {
        v.push(cs[i]);
        assert(cs@.subrange(0, i + 1) =~= cs@.subrange(0, i as int).push(cs@[i as int]));
        i = i + 1;
    }
    assert(cs@.subrange(0, cs@.len() as int) =~= cs@);
}

/// One result as a JSON object.
pub fn result_to_json(r: &ToolResult) -> (s: String)
    ensures
        s@ == result_json(r@),
{
    let mut out: Vec<char> = Vec::new();
    append(&mut out, "{\"action\":");
    append(&mut out, quote_json(r.action.as_str()).as_str());
    append(&mut out, ",\"path\":");
    append(&mut out, quote_json(r.path.as_str()).as_str());
    append(&mut out, ",\"success\":");
    append(&mut out, if r.success { "true" } else { "false" });
    append(&mut out, ",\"result\":");
    append(&mut out, quote_json(r.result.as_str()).as_str());
    append(&mut out, "}");
    string_of(out.as_slice())
}

/// The results, one JSON object per line.
pub fn serialize_results(rs: &Vec<ToolResult>) -> (s: String)
    ensures
        s@ == results_text(results_view(rs@)),
{
    let ghost rv = results_view(rs@);
    let mut out: Vec<char> = Vec::new();
    let mut i: usize = 0;
    while i < rs.len()
        invariant
            i <= rs@.len() == rv.len(),
            rv == results_view(rs@),
            out@ == results_text(rv.subrange(0, i as int)),
        decreases rs.len() - i,
    {
        assert(rv.subrange(0, i + 1).drop_last() =~= rv.subrange(0, i as int));
        assert(rv.subrange(0, i + 1).last() == rs@[i as int]@);
        if i > 0 {
            out.push('\n');
        }
        let j = result_to_json(&rs[i]);
        append(&mut out, j.as_str());
        proof {
            if i == 0 {
                assert(out@ =~= result_json(rv[0]));
            }
        }
        i = i + 1;
    }
    assert(rv.subrange(0, rs@.len() as int) =~= rv);
    string_of(out.as_slice())
}

/// What the model is told for the request.
pub fn build_user_message(prompt: &str, results: Option<&str>, context: Option<&str>) -> (m: String)
    ensures
        m@ == user_message(
            prompt@,
            match results {
                Some(r) => Some(r@),
                None => None,
            },
            match context {
                Some(c) => Some(c@),
                None => None,
            },
        ),
{
    let mut out: Vec<char> = Vec::new();
    match results {
        Some(r) => {
            append(&mut out, "Tool results:\n");
            append(&mut out, r);
            append(&mut out, "\n\nOriginal request: ");
            append(&mut out, prompt);
            append(&mut out, "\n\nBased on these results, provide final response or more tool calls.");
        },
        None => match context {
            Some(c) => {
                append(&mut out, "REPO CONTEXT:\n");
                append(&mut out, c);
                append(&mut out, "\n\nUSER REQUEST: ");
                append(&mut out, prompt);
            },
            None => {
                append(&mut out, prompt);
            },
        },
    }
    string_of(out.as_slice())
}

fn opt_str(o: &Option<String>) -> (r: Option<&str>)
    ensures
        match r {
            Some(s) => opt_view(*o) == Some(s@),
            None => o is None,
        },
{
    match o {
        Some(s) => Some(s.as_str()),
        None => None,
    }
}

impl AgentLoop {
    /// A conversation for the request, with optional repository context.
    pub fn new(prompt: String, context: Option<String>) -> (r: AgentLoop)
        ensures
            r@ == fresh(prompt@, opt_view(context)),
    {
        let r = AgentLoop { prompt, context, round: 0, last_results: None, pending: Vec::new() };
        assert(r@ =~= fresh(prompt@, opt_view(context)));
        r
    }

    /// The number of questions asked so far.
    pub fn round(&self) -> (r: u32)
        ensures
            r == self@.round,
    {
        self.round
    }

    /// The first question.
    pub fn start(&mut self) -> (step: Step)
        requires
            old(self)@.round < MAX_ROUNDS,
        ensures
            (final(self)@, step@) == ask_next(old(self)@),
    {
        self.ask()
    }

    fn ask(&mut self) -> (step: Step)
        requires
            old(self)@.round < MAX_ROUNDS,
        ensures
            (final(self)@, step@) == ask_next(old(self)@),
    {
        self.round = self.round + 1;
        let m = build_user_message(
            self.prompt.as_str(),
            opt_str(&self.last_results),
            opt_str(&self.context),
        );
        Step::Ask(m)
    }

    /// Takes the model's reply to the last question.
    pub fn on_reply(&mut self, reply: ToolResponse) -> (step: Step)
        ensures
            (final(self)@, step@) == after_reply(old(self)@, reply@),
    {
        if let Some(t) = reply.response {
            return Step::Finish(t);
        }
        let ts = match reply.tools {
            Some(ts) => ts,
            None => {
                return Step::Finish(String::from_str("No response."));
            },
        };
        if ts.len() == 0 {
            return Step::Finish(String::from_str("No action taken."));
        }
        let ghost tv = calls_view(ts@);
        let mut run: Vec<ToolCall> = Vec::new();
        let mut blocked: Vec<ToolResult> = Vec::new();
        let mut ignored: Vec<ToolResult> = Vec::new();
        let mut i: usize = 0;
        while i < ts.len()
            invariant
                i <= ts@.len() == tv.len(),
                tv == calls_view(ts@),
                calls_view(run@) == runnable(tv.subrange(0, i as int), self.prompt@),
                results_view(blocked@) == vetoed(tv.subrange(0, i as int), self.prompt@),
                results_view(ignored@) == refused(tv.subrange(0, i as int)),
            decreases ts.len() - i,
        {
            let t = &ts[i];
            assert(tv.subrange(0, i + 1).drop_last() =~= tv.subrange(0, i as int));
            assert(tv.subrange(0, i + 1).last() == t@);
            let path = match &t.path {
                Some(p) => p.clone(),
                None => String::new(),
            };
            assert(path@ == path_or_empty(t@));
            if is_supported_action(t.action.as_str()) {
                match should_block_tool_for_prompt(t, self.prompt.as_str()) {
                    Some(reason) => {
                        let r = ToolResult { action: t.action.clone(), path, success: false, result: reason };
                        proof { assert(results_view(blocked@.push(r)) =~= results_view(blocked@).push(r@)); }
                        blocked.push(r);
                    },
                    None => {
                        let c = t.duplicate();
                        proof { assert(calls_view(run@.push(c)) =~= calls_view(run@).push(c@)); }
                        run.push(c);
                    },
                }
            } else {
                let r = ToolResult {
                    action: t.action.clone(),
                    path,
                    success: false,
                    result: String::from_str("Unsupported action"),
                };
                proof { assert(results_view(ignored@.push(r)) =~= results_view(ignored@).push(r@)); }
                ignored.push(r);
            }
            i = i + 1;
        }
        assert(tv.subrange(0, ts@.len() as int) =~= tv);
        let ghost b = blocked@;
        let ghost ig = ignored@;
        blocked.append(&mut ignored);
        assert(results_view(blocked@) =~= results_view(b) + results_view(ig));
        self.pending = blocked;
        assert(self@ =~= AgentView { pending: vetoed(tv, self.prompt@) + refused(tv), ..old(self)@ });
        Step::Execute(run)
    }

    /// Takes the results of the operations that ran.
    pub fn on_results(&mut self, executed: Vec<ToolResult>) -> (step: Step)
        ensures
            (final(self)@, step@) == after_text(
                old(self)@,
                results_text(results_view(executed@) + old(self)@.pending),
            ),
    {
        let mut all = executed;
        let ghost e = all@;
        let mut pend: Vec<ToolResult> = Vec::new();
        std::mem::swap(&mut pend, &mut self.pending);
        let ghost p = pend@;
        all.append(&mut pend);
        assert(results_view(all@) =~= results_view(e) + results_view(p));
        let text = serialize_results(&all);
        let ghost t = results_text(results_view(executed@) + old(self)@.pending);
        assert(results_view(e) == results_view(executed@));
        assert(results_view(p) == old(self)@.pending);
        assert(text@ == t);
        assert(self@ =~= AgentView { pending: Seq::empty(), ..old(self)@ });
        let same = match &self.last_results {
            Some(prev) => *prev == text,
            None => false,
        };
        if same {
            return Step::Finish(String::from_str("No further progress possible."));
        }
        self.last_results = Some(text);
        assert(self@ =~= AgentView { last_results: Some(t), pending: Seq::empty(), ..old(self)@ });
        if self.round >= MAX_ROUNDS {
            return Step::Finish(String::from_str("Max iterations reached."));
        }
        self.ask()
    }
}

} // verus!
