//! Finding balanced bracketed regions in text.
use vstd::prelude::*;
use crate::text::{chars_of, string_of, sub_chars};

verus! {

pub open spec fn is_open(c: char) -> bool {
    c == '{' || c == '['
}

pub open spec fn is_close(c: char) -> bool {
    c == '}' || c == ']'
}

pub open spec fn pairs(open: char, close: char) -> bool {
    (open == '{' && close == '}') || (open == '[' && close == ']')
}

/// Scanning from position `j` with the given stack of open brackets and
/// string state: the position of the bracket that empties the stack, or
/// `None` where the text ends or a closing bracket does not match.
pub open spec fn scan_close(
    s: Seq<char>,
    j: int,
    stack: Seq<char>,
    in_str: bool,
    esc: bool,
) -> Option<int>
    decreases s.len() - j,
{
    if j < 0 || j >= s.len() {
        None
    } else {
        let c = s[j];
        if in_str {
            if esc {
                scan_close(s, j + 1, stack, true, false)
            } else if c == '\\' {
                scan_close(s, j + 1, stack, true, true)
            } else if c == '"' {
                scan_close(s, j + 1, stack, false, false)
            } else {
                scan_close(s, j + 1, stack, true, false)
            }
        } else if c == '"' {
            scan_close(s, j + 1, stack, true, false)
        } else if is_open(c) {
            scan_close(s, j + 1, stack.push(c), false, esc)
        } else if is_close(c) {
            if stack.len() == 0 || !pairs(stack.last(), c) {
                None
            } else if stack.len() == 1 {
                Some(j)
            } else {
                scan_close(s, j + 1, stack.drop_last(), false, esc)
            }
        } else {
            scan_close(s, j + 1, stack, false, esc)
        }
    }
}

/// The balanced regions found scanning left to right from position `i`;
/// after a region the scan resumes past its closing bracket.
pub open spec fn candidates_from(s: Seq<char>, i: int) -> Seq<Seq<char>>
    decreases s.len() - i,
{
    if i < 0 || i >= s.len() {
        Seq::empty()
    } else if is_open(s[i]) {
        match scan_close(s, i + 1, seq![s[i]], false, false) {
            Some(j) => if i < j < s.len() {
                seq![s.subrange(i, j + 1)].add(candidates_from(s, j + 1))
            } else {
                Seq::empty()
            },
            None => candidates_from(s, i + 1),
        }
    } else {
        candidates_from(s, i + 1)
    }
}

pub open spec fn candidates(s: Seq<char>) -> Seq<Seq<char>> {
    candidates_from(s, 0)
}

pub open spec fn strings_view(v: Seq<String>) -> Seq<Seq<char>> {
    v.map_values(|x: String| x@)
}

/// Where the region opened at `i` closes, if it does.
fn close_of(s: &Vec<char>, i: usize) -> (r: Option<usize>)
    requires
        i < s@.len(),
        is_open(s@[i as int]),
    ensures
        r matches Some(j) ==> i < j < s@.len() && scan_close(s@, i + 1, seq![s@[i as int]], false, false) == Some(j as int),
        r is None ==> scan_close(s@, i + 1, seq![s@[i as int]], false, false) is None,
{
    let n = s.len();
    let mut stack: Vec<char> = Vec::new();
    stack.push(s[i]);
    let mut in_string = false;
    let mut escape = false;
    let mut j: usize = i + 1;
    while j < n
        invariant
            i < j <= n == s@.len(),
            stack@.len() > 0,
            !in_string ==> !escape,
            scan_close(s@, i + 1, seq![s@[i as int]], false, false) == scan_close(
                s@,
                j as int,
                stack@,
                in_string,
                escape,
            ),
        decreases n - j,
    {
        let c = s[j];
        if in_string {
            if escape {
                escape = false;
            } else if c == '\\' {
                escape = true;
            } else if c == '"' {
                in_string = false;
            }
        } else if c == '"' {
            in_string = true;
        } else if c == '{' || c == '[' {
            stack.push(c);
        } else if c == '}' || c == ']' {
            let open = stack[stack.len() - 1];
            if !((open == '{' && c == '}') || (open == '[' && c == ']')) {
                return None;
            }
            if stack.len() == 1 {
                return Some(j);
            }
            let ghost before = stack@;
            stack.pop();
            assert(stack@ =~= before.drop_last());
        }
        j = j + 1;
    }
    None
}

/// Every balanced `{...}` or `[...]` region of the text, left to right,
/// with quoted strings (and the escapes in them) taken as inert.
pub fn extract_json_candidates(text: &str) -> (r: Vec<String>)
    ensures
        strings_view(r@) == candidates(text@),
{
    let s = chars_of(text);
    let n = s.len();
    let mut out: Vec<String> = Vec::new();
    let mut i: usize = 0;
    while i < n
        invariant
            i <= n == s@.len(),
            s@ == text@,
            candidates(s@) == strings_view(out@).add(candidates_from(s@, i as int)),
        decreases n - i,
    {
        if s[i] == '{' || s[i] == '[' {
            match close_of(&s, i) {
                Some(j) => {
                    let c = string_of(sub_chars(&s, i, j + 1).as_slice());
                    proof {
                        assert(strings_view(out@.push(c)) =~= strings_view(out@).push(c@));
                    }
                    out.push(c);
                    i = j + 1;
                },
                None => {
                    i = i + 1;
                },
            }
        } else {
            i = i + 1;
        }
    }
    out
}

} // verus!
