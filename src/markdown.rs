//! Recovering files from markdown: a line naming a file, followed by a
//! fenced code block holding its content.
use vstd::prelude::*;
use vstd::string::*;
use crate::text::{
    chars_of, contains, contains_exec, ends_with, ends_with_exec, find, find_exec, has_char,
    has_char_exec, occurs_at_exec, starts_with, starts_with_exec, string_of, sub_chars, trim,
    trim_chars, trim_end, trim_end_chars,
};
use crate::tools::{ToolCall, ToolCallView, calls_view};

verus! {

/// `s` with every leading copy of `p` removed.
pub open spec fn strip_lead(s: Seq<char>, p: Seq<char>) -> Seq<char>
    decreases s.len(),
{
    if p.len() > 0 && starts_with(s, p) {
        strip_lead(s.subrange(p.len() as int, s.len() as int), p)
    } else {
        s
    }
}

/// `s` with every trailing copy of `p` removed.
pub open spec fn strip_trail(s: Seq<char>, p: Seq<char>) -> Seq<char>
    decreases s.len(),
{
    if p.len() > 0 && ends_with(s, p) {
        strip_trail(s.subrange(0, s.len() - p.len()), p)
    } else {
        s
    }
}

pub open spec fn unwrap_marks(s: Seq<char>, p: Seq<char>) -> Seq<char> {
    strip_trail(strip_lead(s, p), p)
}

/// The name before a separator, emphasis stripped, if it looks like a file.
pub open spec fn name_before(l: Seq<char>, sep: Seq<char>) -> Option<Seq<char>> {
    match find(l, sep) {
        Some(pos) => {
            let n = unwrap_marks(trim(l.subrange(0, pos)), "**"@);
            if has_char(n, '.') && !has_char(n, ' ') {
                Some(n)
            } else {
                None
            }
        },
        None => None,
    }
}

/// The file that a line names: `**name**` holding a dot or ending in a
/// slash; `` `name` `` holding a dot; or `name` before ` (`, ` -` or `:`,
/// holding a dot and no space.
pub open spec fn filename_of(line: Seq<char>) -> Option<Seq<char>> {
    let l = trim(line);
    let starred = trim(unwrap_marks(l, "**"@));
    let ticked = trim(unwrap_marks(l, "`"@));
    if starts_with(l, "**"@) && ends_with(l, "**"@) && (has_char(starred, '.') || ends_with(
        starred,
        "/"@,
    )) {
        Some(starred)
    } else if starts_with(l, "`"@) && ends_with(l, "`"@) && !contains(l, "```"@) && has_char(
        ticked,
        '.',
    ) {
        Some(ticked)
    } else if name_before(l, " ("@) is Some {
        name_before(l, " ("@)
    } else if name_before(l, " -"@) is Some {
        name_before(l, " -"@)
    } else {
        name_before(l, ":"@)
    }
}

pub fn strip_lead_exec(s: &[char], p: &[char]) -> (r: Vec<char>)
    ensures
        r@ == strip_lead(s@, p@),
{
    let n = s.len();
    let mut i: usize = 0;
    assert(s@.subrange(0, n as int) =~= s@);
    if p.len() > 0 {
        while p.len() <= n - i && occurs_at_exec(s, p, i)
            invariant
                i <= n == s@.len(),
                p@.len() > 0,
                strip_lead(s@, p@) == strip_lead(s@.subrange(i as int, n as int), p@),
            decreases n - i,
        {
            let ghost t = s@.subrange(i as int, n as int);
            assert(t.subrange(0, p@.len() as int) =~= s@.subrange(i as int, i + p@.len()));
            assert(t.subrange(p@.len() as int, t.len() as int) =~= s@.subrange(
                i + p@.len(),
                n as int,
            ));
            i = i + p.len();
        }
        let ghost t = s@.subrange(i as int, n as int);
        assert(p@.len() <= t.len() ==> t.subrange(0, p@.len() as int) =~= s@.subrange(
            i as int,
            i + p@.len(),
        ));
    }
    sub_chars(s, i, n)
}

pub fn strip_trail_exec(s: &[char], p: &[char]) -> (r: Vec<char>)
    ensures
        r@ == strip_trail(s@, p@),
{
    let n = s.len();
    let mut j: usize = n;
    assert(s@.subrange(0, n as int) =~= s@);
    if p.len() > 0 {
        while j >= p.len() && occurs_at_exec(s, p, j - p.len())
            invariant
                j <= n == s@.len(),
                p@.len() > 0,
                strip_trail(s@, p@) == strip_trail(s@.subrange(0, j as int), p@),
            decreases j,
        {
            let ghost t = s@.subrange(0, j as int);
            assert(t.subrange(t.len() - p@.len(), t.len() as int) =~= s@.subrange(
                j - p@.len(),
                j as int,
            ));
            assert(t.subrange(0, t.len() - p@.len()) =~= s@.subrange(0, j - p@.len()));
            j = j - p.len();
        }
        let ghost t = s@.subrange(0, j as int);
        assert(p@.len() <= t.len() ==> t.subrange(t.len() - p@.len(), t.len() as int)
            =~= s@.subrange(j - p@.len(), j as int));
    }
    sub_chars(s, 0, j)
}

fn unwrap_marks_exec(s: &[char], p: &[char]) -> (r: Vec<char>)
    ensures
        r@ == unwrap_marks(s@, p@),
{
    let a = strip_lead_exec(s, p);
    strip_trail_exec(a.as_slice(), p)
}

#[verifier::spinoff_prover]
fn name_before_exec(l: &[char], sep: &str) -> (r: Option<Vec<char>>)
    ensures
        match r {
            Some(n) => name_before(l@, sep@) == Some(n@),
            None => name_before(l@, sep@) is None,
        },
{
    let sp = chars_of(sep);
    let stars = chars_of("**");
    match find_exec(l, sp.as_slice()) {
        Some(pos) => {
            let head = sub_chars(l, 0, pos);
            let t = trim_chars(head.as_slice());
            let n = unwrap_marks_exec(t.as_slice(), stars.as_slice());
            assert(n@ == unwrap_marks(trim(l@.subrange(0, pos as int)), "**"@));
            if has_char_exec(n.as_slice(), '.') && !has_char_exec(n.as_slice(), ' ') {
                Some(n)
            } else {
                None
            }
        },
        None => None,
    }
}

/// The file that a line names, as `filename_of` reads it.
pub fn extract_filename(line: &str) -> (r: Option<String>)
    ensures
        match r {
            Some(n) => filename_of(line@) == Some(n@),
            None => filename_of(line@) is None,
        },
{
    let raw = chars_of(line);
    let l = trim_chars(raw.as_slice());
    let stars = chars_of("**");
    let tick = chars_of("`");
    let fence = chars_of("```");
    let slash = chars_of("/");
    let u1 = unwrap_marks_exec(l.as_slice(), stars.as_slice());
    let starred = trim_chars(u1.as_slice());
    if starts_with_exec(l.as_slice(), stars.as_slice()) && ends_with_exec(
        l.as_slice(),
        stars.as_slice(),
    ) && (has_char_exec(starred.as_slice(), '.') || ends_with_exec(
        starred.as_slice(),
        slash.as_slice(),
    )) {
        return Some(string_of(starred.as_slice()));
    }
    let u2 = unwrap_marks_exec(l.as_slice(), tick.as_slice());
    let ticked = trim_chars(u2.as_slice());
    if starts_with_exec(l.as_slice(), tick.as_slice()) && ends_with_exec(l.as_slice(), tick.as_slice())
        && !contains_exec(l.as_slice(), fence.as_slice()) && has_char_exec(ticked.as_slice(), '.') {
        return Some(string_of(ticked.as_slice()));
    }
    if let Some(n) = name_before_exec(l.as_slice(), " (") {
        return Some(string_of(n.as_slice()));
    }
    if let Some(n) = name_before_exec(l.as_slice(), " -") {
        return Some(string_of(n.as_slice()));
    }
    match name_before_exec(l.as_slice(), ":") {
        Some(n) => Some(string_of(n.as_slice())),
        None => None,
    }
}

} // verus!

verus! {

/// Position of the first newline at or after `i`, or the length.
pub open spec fn next_nl(s: Seq<char>, i: int) -> int
    decreases s.len() - i,
{
    if i < 0 || i >= s.len() {
        s.len() as int
    } else if s[i] == '\n' {
        i
    } else {
        next_nl(s, i + 1)
    }
}

/// The line from `i` to the newline at `e`, a carriage return before the
/// newline dropped.
pub open spec fn line_at(s: Seq<char>, i: int, e: int) -> Seq<char> {
    if i < e < s.len() && s[e - 1] == '\r' {
        s.subrange(i, e - 1)
    } else {
        s.subrange(i, e)
    }
}

/// The lines from position `i` on, as `str::lines` splits them.
pub open spec fn lines_from(s: Seq<char>, i: int) -> Seq<Seq<char>>
    decreases s.len() - i,
{
    if i < 0 || i >= s.len() {
        Seq::empty()
    } else {
        let e = next_nl(s, i);
        if e < i || e >= s.len() {
            seq![line_at(s, i, e)]
        } else {
            seq![line_at(s, i, e)].add(lines_from(s, e + 1))
        }
    }
}

pub open spec fn lines(s: Seq<char>) -> Seq<Seq<char>> {
    lines_from(s, 0)
}

pub fn split_lines(s: &[char]) -> (r: Vec<Vec<char>>)
    ensures
        r@.map_values(|l: Vec<char>| l@) == lines(s@),
{
    let n = s.len();
    let mut out: Vec<Vec<char>> = Vec::new();
    let mut i: usize = 0;
    while i < n
        invariant
            i <= n == s@.len(),
            lines(s@) == out@.map_values(|l: Vec<char>| l@).add(lines_from(s@, i as int)),
        decreases n - i,
    {
        let mut e: usize = i;
        while e < n && s[e] != '\n'
            invariant
                i <= e <= n == s@.len(),
                next_nl(s@, i as int) == next_nl(s@, e as int),
            decreases n - e,
        {
            e = e + 1;
        }
        let line = if e < n && e > i && s[e - 1] == '\r' {
            sub_chars(s, i, e - 1)
        } else {
            sub_chars(s, i, e)
        };
        proof {
            assert(line@ == line_at(s@, i as int, e as int));
            assert(out@.push(line).map_values(|l: Vec<char>| l@) =~= out@.map_values(
                |l: Vec<char>| l@,
            ).push(line@));
            if e < n {
                assert(lines_from(s@, i as int) == seq![line@].add(lines_from(s@, e + 1)));
                assert(out@.map_values(|l: Vec<char>| l@).add(lines_from(s@, i as int))
                    =~= out@.map_values(|l: Vec<char>| l@).push(line@).add(
                    lines_from(s@, e + 1),
                ));
            } else {
                assert(lines_from(s@, i as int) == seq![line@]);
                assert(out@.map_values(|l: Vec<char>| l@).add(lines_from(s@, i as int))
                    =~= out@.map_values(|l: Vec<char>| l@).push(line@).add(
                    lines_from(s@, n as int),
                ));
            }
        }
        out.push(line);
        if e == n {
            i = n;
        } else {
            i = e + 1;
        }
    }
    out
}

pub open spec fn is_fence(line: Seq<char>) -> bool {
    starts_with(trim(line), "```"@)
}

/// The first fence line at or after `j`, or the number of lines.
pub open spec fn fence_from(ls: Seq<Seq<char>>, j: int) -> int
    decreases ls.len() - j,
{
    if j < 0 || j >= ls.len() {
        ls.len() as int
    } else if is_fence(ls[j]) {
        j
    } else {
        fence_from(ls, j + 1)
    }
}

/// Lines `a` up to `b`, each followed by a newline.
pub open spec fn block_text(ls: Seq<Seq<char>>, a: int, b: int) -> Seq<char>
    decreases b - a,
{
    if b <= a {
        Seq::empty()
    } else {
        block_text(ls, a, b - 1).add(ls[b - 1]).push('\n')
    }
}

pub open spec fn create_call(name: Seq<char>, content: Seq<char>) -> ToolCallView {
    ToolCallView { action: "create_file"@, path: Some(name), content: Some(content) }
}

/// The files found from line `i` on: a line naming a file, directly
/// followed by a fence, gives the lines up to the closing fence (or the
/// end) as its content, trailing whitespace trimmed.
pub open spec fn files_from(ls: Seq<Seq<char>>, i: int) -> Seq<ToolCallView>
    decreases ls.len() - i,
{
    if i < 0 || i >= ls.len() {
        Seq::empty()
    } else {
        match filename_of(trim(ls[i])) {
            Some(f) => if i + 1 < ls.len() && is_fence(ls[i + 1]) {
                let e = fence_from(ls, i + 2);
                if e < i + 2 || e >= ls.len() {
                    seq![create_call(f, trim_end(block_text(ls, i + 2, e)))]
                } else {
                    seq![create_call(f, trim_end(block_text(ls, i + 2, e)))].add(
                        files_from(ls, e + 1),
                    )
                }
            } else {
                files_from(ls, i + 1)
            },
            None => files_from(ls, i + 1),
        }
    }
}

pub open spec fn lines_view(ls: Seq<Vec<char>>) -> Seq<Seq<char>> {
    ls.map_values(|l: Vec<char>| l@)
}

fn is_fence_exec(line: &Vec<char>) -> (r: bool)
    ensures
        r == is_fence(line@),
{
    let t = trim_chars(line.as_slice());
    let f = chars_of("```");
    starts_with_exec(t.as_slice(), f.as_slice())
}

/// The `create_file` calls recovered from fenced blocks under file names.
pub fn extract_files(text: &[char]) -> (r: Vec<ToolCall>)
    ensures
        calls_view(r@) == files_from(lines(text@), 0),
{
    let ls = split_lines(text);
    let ghost lv = lines_view(ls@);
    assert(lv == lines(text@));
    let n = ls.len();
    let mut out: Vec<ToolCall> = Vec::new();
    let mut i: usize = 0;
    while i < n
        invariant
            i <= n == ls@.len() == lv.len(),
            lv == lines_view(ls@),
            files_from(lv, 0) == calls_view(out@).add(files_from(lv, i as int)),
        decreases n - i,
    {
        let tl = trim_chars(ls[i].as_slice());
        let name = extract_filename(string_of(tl.as_slice()).as_str());
        if let Some(f) = name {
            if i + 1 < n && is_fence_exec(&ls[i + 1]) {
                let mut content: Vec<char> = Vec::new();
                let mut j: usize = i + 2;
                while j < n && !is_fence_exec(&ls[j])
                    invariant
                        i + 2 <= j <= n == ls@.len() == lv.len(),
                        lv == lines_view(ls@),
                        fence_from(lv, i + 2) == fence_from(lv, j as int),
                        content@ == block_text(lv, i + 2, j as int),
                    decreases n - j,
                {
                    let line = &ls[j];
                    let mut k: usize = 0;
                    let ghost before = content@;
                    while k < line.len()
                        invariant
                            k <= line@.len(),
                            content@ == before + line@.subrange(0, k as int),
                        decreases line.len() - k,
                    {
                        content.push(line[k]);
                        assert(line@.subrange(0, k + 1) =~= line@.subrange(0, k as int).push(
                            line@[k as int],
                        ));
                        k = k + 1;
                    }
                    content.push('\n');
                    assert(line@.subrange(0, line@.len() as int) =~= line@);
                    assert(lv[j as int] == line@);
                    j = j + 1;
                }
                let body = trim_end_chars(content.as_slice());
                let call = ToolCall {
                    action: String::from_str("create_file"),
                    path: Some(f),
                    content: Some(string_of(body.as_slice())),
                };
                proof {
                    assert(fence_from(lv, i + 2) == j);
                    assert(filename_of(trim(lv[i as int])) == Some(f@));
                    assert(call@ == create_call(f@, trim_end(block_text(lv, i + 2, j as int))));
                    assert(calls_view(out@.push(call)) =~= calls_view(out@).push(call@));
                    if j < n {
                        assert(files_from(lv, i as int) == seq![call@].add(files_from(lv, j + 1)));
                        assert(calls_view(out@).add(files_from(lv, i as int)) =~= calls_view(
                            out@,
                        ).push(call@).add(files_from(lv, j + 1)));
                    } else {
                        assert(files_from(lv, i as int) == seq![call@]);
                        assert(calls_view(out@).add(files_from(lv, i as int)) =~= calls_view(
                            out@,
                        ).push(call@).add(files_from(lv, n as int)));
                    }
                }
                out.push(call);
                if j == n {
                    i = n;
                } else {
                    i = j + 1;
                }
            } else {
                i = i + 1;
            }
        } else {
            i = i + 1;
        }
    }
    out
}

} // verus!
