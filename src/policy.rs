//! Vetoing operations that build for another technology stack than the one
//! the request asks for.
use vstd::prelude::*;
use vstd::string::*;
use crate::text::{ascii_lower, ascii_lower_exec, chars_of, contains, contains_exec, ends_with, ends_with_exec};
use crate::tools::{ToolCall, ToolCallView};

verus! {

/// One exclusive stack: the words that ask for it, the words that ask for
/// the competing stack, and the artifacts of the competing stack.
pub struct StackRule {
    pub wanted: Vec<String>,
    pub competing: Vec<String>,
    pub artifact_names: Vec<String>,
    pub artifact_suffixes: Vec<String>,
    pub reason: String,
}

pub struct StackRuleView {
    pub wanted: Seq<Seq<char>>,
    pub competing: Seq<Seq<char>>,
    pub artifact_names: Seq<Seq<char>>,
    pub artifact_suffixes: Seq<Seq<char>>,
    pub reason: Seq<char>,
}

pub open spec fn strs_view(v: Seq<String>) -> Seq<Seq<char>> {
    v.map_values(|s: String| s@)
}

impl View for StackRule {
    type V = StackRuleView;

    open spec fn view(&self) -> StackRuleView {
        StackRuleView {
            wanted: strs_view(self.wanted@),
            competing: strs_view(self.competing@),
            artifact_names: strs_view(self.artifact_names@),
            artifact_suffixes: strs_view(self.artifact_suffixes@),
            reason: self.reason@,
        }
    }
}

pub open spec fn rust_reason() -> Seq<char> {
    "Blocked Rust-specific file for Python/Streamlit request"@
}

/// The rules in force: a Python or Streamlit request gets no Rust files.
pub open spec fn rule_table() -> Seq<StackRuleView> {
    seq![
        StackRuleView {
            wanted: seq!["python"@, "streamlit"@],
            competing: seq!["rust"@, "cargo"@],
            artifact_names: seq!["cargo.toml"@, "cargo.lock"@],
            artifact_suffixes: seq![".rs"@],
            reason: rust_reason(),
        },
    ]
}

pub open spec fn contains_any_of(h: Seq<char>, needles: Seq<Seq<char>>) -> bool {
    exists|i: int| 0 <= i < needles.len() && contains(h, needles[i])
}

pub open spec fn is_artifact(rule: StackRuleView, path: Seq<char>) -> bool {
    let l = ascii_lower(path);
    ||| exists|i: int| 0 <= i < rule.artifact_names.len() && l == rule.artifact_names[i]
    ||| exists|i: int| 0 <= i < rule.artifact_suffixes.len() && ends_with(l, rule.artifact_suffixes[i])
}

pub open spec fn rule_blocks(rule: StackRuleView, lower_prompt: Seq<char>, path: Seq<char>) -> bool {
    contains_any_of(lower_prompt, rule.wanted) && !contains_any_of(lower_prompt, rule.competing)
        && is_artifact(rule, path)
}

/// The reason of the first rule that blocks, if any does.
pub open spec fn first_block(rules: Seq<StackRuleView>, lower_prompt: Seq<char>, path: Seq<char>) -> Option<Seq<char>>
    decreases rules.len(),
{
    if rules.len() == 0 {
        None
    } else if rule_blocks(rules[0], lower_prompt, path) {
        Some(rules[0].reason)
    } else {
        first_block(rules.drop_first(), lower_prompt, path)
    }
}

pub open spec fn is_rust_artifact(path: Seq<char>) -> bool {
    is_artifact(rule_table()[0], path)
}

/// Why the call is refused for the prompt, if it is: only calls that create
/// a file or folder at a non-empty path can be.
pub open spec fn block_reason(t: ToolCallView, prompt: Seq<char>) -> Option<Seq<char>> {
    if t.action != "create_file"@ && t.action != "create_folder"@ {
        None
    } else {
        let p = match t.path {
            Some(p) => p,
            None => Seq::empty(),
        };
        if p.len() == 0 {
            None
        } else {
            first_block(rule_table(), ascii_lower(prompt), p)
        }
    }
}

fn strs(a: &[&str]) -> (r: Vec<String>)
    ensures
        strs_view(r@) == a@.map_values(|s: &str| s@),
{
    let mut out: Vec<String> = Vec::new();
    let mut i: usize = 0;
    while i < a.len()
        invariant
            i <= a@.len(),
            out@.len() == i,
            forall|k: int| 0 <= k < i ==> #[trigger] out@[k]@ == a@[k]@,
        decreases a.len() - i,
    {
        out.push(String::from_str(a[i]));
        i = i + 1;
    }
    assert(strs_view(out@) =~= a@.map_values(|s: &str| s@));
    out
}

/// The rules in force, as values.
pub fn stack_rules() -> (r: Vec<StackRule>)
    ensures
        r@.map_values(|x: StackRule| x@) == rule_table(),
{
    let wanted = strs(&["python", "streamlit"]);
    let competing = strs(&["rust", "cargo"]);
    let names = strs(&["cargo.toml", "cargo.lock"]);
    let suffixes = strs(&[".rs"]);
    let rule = StackRule {
        wanted,
        competing,
        artifact_names: names,
        artifact_suffixes: suffixes,
        reason: String::from_str("Blocked Rust-specific file for Python/Streamlit request"),
    };
    assert(strs_view(rule.wanted@) =~= seq!["python"@, "streamlit"@]);
    assert(strs_view(rule.competing@) =~= seq!["rust"@, "cargo"@]);
    assert(strs_view(rule.artifact_names@) =~= seq!["cargo.toml"@, "cargo.lock"@]);
    assert(strs_view(rule.artifact_suffixes@) =~= seq![".rs"@]);
    let out = vec![rule];
    assert(out@.map_values(|x: StackRule| x@) =~= rule_table());
    out
}

/// Whether any of the needles occurs in the haystack.
pub fn contains_any(haystack: &str, needles: &[&str]) -> (r: bool)
    ensures
        r == contains_any_of(haystack@, needles@.map_values(|s: &str| s@)),
{
    let h = chars_of(haystack);
    let v = strs(needles);
    contains_any_chars(h.as_slice(), &v)
}

fn contains_any_chars(haystack: &[char], needles: &Vec<String>) -> (r: bool)
    ensures
        r == contains_any_of(haystack@, strs_view(needles@)),
{
    let mut i: usize = 0;
    while i < needles.len()
        invariant
            i <= needles@.len(),
            forall|k: int| 0 <= k < i ==> !contains(haystack@, #[trigger] needles@[k]@),
        decreases needles.len() - i,
    {
        let nd = chars_of(needles[i].as_str());
        if contains_exec(haystack, nd.as_slice()) {
            assert(strs_view(needles@)[i as int] == needles@[i as int]@);
            return true;
        }
        i = i + 1;
    }
    assert forall|k: int| 0 <= k < strs_view(needles@).len() implies !contains(haystack@, strs_view(needles@)[k]) by {
        assert(strs_view(needles@)[k] == needles@[k]@);
    }
    false
}

fn artifact_exec(rule: &StackRule, lower_path: &[char]) -> (r: bool)
    requires
        lower_path@ == ascii_lower(lower_path@),
    ensures
        r == ((exists|i: int| 0 <= i < rule@.artifact_names.len() && lower_path@ == rule@.artifact_names[i])
            || (exists|i: int| 0 <= i < rule@.artifact_suffixes.len() && ends_with(lower_path@, rule@.artifact_suffixes[i]))),
{
    let mut i: usize = 0;
    while i < rule.artifact_names.len()
        invariant
            i <= rule.artifact_names@.len(),
            forall|k: int| 0 <= k < i ==> lower_path@ != #[trigger] rule.artifact_names@[k]@,
        decreases rule.artifact_names.len() - i,
    {
        let nm = chars_of(rule.artifact_names[i].as_str());
        if nm.len() == lower_path.len() && ends_with_exec(lower_path, nm.as_slice()) {
            assert(lower_path@.subrange(0, lower_path@.len() as int) =~= lower_path@);
            assert(rule@.artifact_names[i as int] == rule.artifact_names@[i as int]@);
            return true;
        }
        proof {
            if lower_path@ == nm@ {
                assert(lower_path@.subrange(0, lower_path@.len() as int) =~= lower_path@);
            }
        }
        i = i + 1;
    }
    let mut j: usize = 0;
    while j < rule.artifact_suffixes.len()
        invariant
            j <= rule.artifact_suffixes@.len(),
            forall|k: int| 0 <= k < rule.artifact_names@.len() ==> lower_path@ != #[trigger] rule.artifact_names@[k]@,
            forall|k: int| 0 <= k < j ==> !ends_with(lower_path@, #[trigger] rule.artifact_suffixes@[k]@),
        decreases rule.artifact_suffixes.len() - j,
    {
        let sf = chars_of(rule.artifact_suffixes[j].as_str());
        if ends_with_exec(lower_path, sf.as_slice()) {
            assert(rule@.artifact_suffixes[j as int] == rule.artifact_suffixes@[j as int]@);
            return true;
        }
        j = j + 1;
    }
    assert forall|k: int| 0 <= k < rule@.artifact_names.len() implies lower_path@ != rule@.artifact_names[k] by {
        assert(rule@.artifact_names[k] == rule.artifact_names@[k]@);
    }
    assert forall|k: int| 0 <= k < rule@.artifact_suffixes.len() implies !ends_with(lower_path@, rule@.artifact_suffixes[k]) by {
        assert(rule@.artifact_suffixes[k] == rule.artifact_suffixes@[k]@);
    }
    false
}

/// Whether the path names a Rust artifact: `Cargo.toml`, `Cargo.lock` or a
/// `.rs` file, in any letter case.
pub fn is_rust_path(path: &str) -> (r: bool)
    ensures
        r == is_rust_artifact(path@),
{
    let rules = stack_rules();
    let cs = chars_of(path);
    let lower = ascii_lower_exec(cs.as_slice());
    proof { lemma_ascii_lower_idem(cs@); }
    assert(rules@.map_values(|x: StackRule| x@).len() == 1);
    assert(rules@.map_values(|x: StackRule| x@)[0] == rules@[0]@);
    artifact_exec(&rules[0], lower.as_slice())
}

pub proof fn lemma_ascii_lower_idem(s: Seq<char>)
    ensures
        ascii_lower(ascii_lower(s)) == ascii_lower(s),
{
    assert(ascii_lower(ascii_lower(s)) =~= ascii_lower(s));
}

/// Why the call should be refused for this prompt, if it should.
pub fn should_block_tool_for_prompt(tool: &ToolCall, prompt: &str) -> (r: Option<String>)
    ensures
        match r {
            Some(s) => block_reason(tool@, prompt@) == Some(s@),
            None => block_reason(tool@, prompt@) is None,
        },
{
    let cf = String::from_str("create_file");
    let cd = String::from_str("create_folder");
    if !(tool.action == cf) && !(tool.action == cd) {
        return None;
    }
    let p = match &tool.path {
        Some(p) => chars_of(p.as_str()),
        None => Vec::new(),
    };
    assert(p@ == match tool@.path { Some(p) => p, None => Seq::<char>::empty() });
    if p.len() == 0 {
        return None;
    }
    let pc = chars_of(prompt);
    let lp = ascii_lower_exec(pc.as_slice());
    let lpath = ascii_lower_exec(p.as_slice());
    proof { lemma_ascii_lower_idem(p@); }
    let rules = stack_rules();
    let ghost rv = rules@.map_values(|x: StackRule| x@);
    let n = rules.len();
    let mut i: usize = 0;
    assert(rv.subrange(0, n as int) =~= rv);
    while i < n
        invariant
            i <= n == rules@.len() == rv.len(),
            rv == rules@.map_values(|x: StackRule| x@),
            rv == rule_table(),
            lp@ == ascii_lower(prompt@),
            lpath@ == ascii_lower(p@),
            lpath@ == ascii_lower(lpath@),
            block_reason(tool@, prompt@) == first_block(rv.subrange(i as int, n as int), lp@, p@),
        decreases n - i,
    {
        let rule = &rules[i];
        assert(rv[i as int] == rule@);
        assert(rv.subrange(i as int, n as int)[0] == rule@);
        assert(rv.subrange(i as int, n as int).drop_first() =~= rv.subrange(i + 1, n as int));
        if contains_any_chars(lp.as_slice(), &rule.wanted) && !contains_any_chars(lp.as_slice(), &rule.competing)
            && artifact_exec(rule, lpath.as_slice()) {
            return Some(rule.reason.clone());
        }
        i = i + 1;
    }
    None
}

} // verus!
