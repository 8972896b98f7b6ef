//! The decisions around one filesystem operation: whether it may run, what
//! it asks of the filesystem, and the result reported from the outcome.
//! Performing it is the caller's part.
use vstd::prelude::*;
use vstd::string::*;
use crate::text::{chars_of, string_of, sub_chars, starts_with, starts_with_exec};
use crate::tools::{ToolCall, ToolCallView, ToolResult, ToolResultView, opt_view};

verus! {

/// Position of the first `/` at or after `i`, or the length.
pub open spec fn next_sep(s: Seq<char>, i: int) -> int
    decreases s.len() - i,
{
    if i < 0 || i >= s.len() {
        s.len() as int
    } else if s[i] == '/' {
        i
    } else {
        next_sep(s, i + 1)
    }
}

/// The pieces between separators from position `i` on.
pub open spec fn pieces_from(s: Seq<char>, i: int) -> Seq<Seq<char>>
    decreases s.len() - i,
{
    if i < 0 || i > s.len() {
        Seq::empty()
    } else {
        let e = next_sep(s, i);
        if e < i || e >= s.len() {
            seq![s.subrange(i, e)]
        } else {
            seq![s.subrange(i, e)].add(pieces_from(s, e + 1))
        }
    }
}

/// Path segments with empty and `.` pieces dropped and each `..` taking
/// back the segment before it (at the top it stays there).
pub open spec fn normalize(parts: Seq<Seq<char>>) -> Seq<Seq<char>>
    decreases parts.len(),
{
    if parts.len() == 0 {
        Seq::empty()
    } else {
        let prev = normalize(parts.drop_last());
        let c = parts.last();
        if c.len() == 0 || c == "."@ {
            prev
        } else if c == ".."@ {
            if prev.len() > 0 {
                prev.drop_last()
            } else {
                prev
            }
        } else {
            prev.push(c)
        }
    }
}

pub open spec fn segments(p: Seq<char>) -> Seq<Seq<char>> {
    normalize(pieces_from(p, 0))
}

pub open spec fn is_absolute(p: Seq<char>) -> bool {
    starts_with(p, "/"@)
}

/// The target lies in the root: both are absolute or both relative, and the
/// root's segments begin the target's.
pub open spec fn within(root: Seq<char>, target: Seq<char>) -> bool {
    let r = segments(root);
    let t = segments(target);
    is_absolute(root) == is_absolute(target) && r.len() <= t.len() && t.subrange(0, r.len() as int) == r
}

fn split_pieces(s: &[char]) -> (r: Vec<Vec<char>>)
    ensures
        r@.map_values(|l: Vec<char>| l@) == pieces_from(s@, 0),
{
    let n = s.len();
    let mut out: Vec<Vec<char>> = Vec::new();
    let mut i: usize = 0;
    let mut done = false;
    while !done
        invariant
            i <= n == s@.len(),
            !done ==> pieces_from(s@, 0) == out@.map_values(|l: Vec<char>| l@).add(pieces_from(s@, i as int)),
            done ==> pieces_from(s@, 0) == out@.map_values(|l: Vec<char>| l@),
        decreases 2 * (n - i) + if done { 0int } else { 1int },
    {
        let mut e: usize = i;
        while e < n && s[e] != '/'
            invariant
                i <= e <= n == s@.len(),
                next_sep(s@, i as int) == next_sep(s@, e as int),
            decreases n - e,
        {
            e = e + 1;
        }
        let piece = sub_chars(s, i, e);
        proof {
            assert(out@.push(piece).map_values(|l: Vec<char>| l@) =~= out@.map_values(
                |l: Vec<char>| l@,
            ).push(piece@));
            if e < n {
                assert(pieces_from(s@, i as int) == seq![piece@].add(pieces_from(s@, e + 1)));
                assert(out@.map_values(|l: Vec<char>| l@).add(pieces_from(s@, i as int))
                    =~= out@.map_values(|l: Vec<char>| l@).push(piece@).add(
                    pieces_from(s@, e + 1),
                ));
            } else {
                assert(pieces_from(s@, i as int) == seq![piece@]);
                assert(out@.map_values(|l: Vec<char>| l@).add(pieces_from(s@, i as int))
                    =~= out@.map_values(|l: Vec<char>| l@).push(piece@));
            }
        }
        out.push(piece);
        if e < n {
            i = e + 1;
        } else {
            done = true;
        }
    }
    out
}

fn eq_chars(a: &Vec<char>, b: &[char]) -> (r: bool)
    ensures
        r == (a@ == b@),
{
    if a.len() != b.len() {
        return false;
    }
    let mut k: usize = 0;
    while k < a.len()
        invariant
            a@.len() == b@.len(),
            k <= a@.len(),
            forall|m: int| 0 <= m < k ==> a@[m] == b@[m],
        decreases a.len() - k,
    {
        if a[k] != b[k] {
            return false;
        }
        k = k + 1;
    }
    assert(a@ =~= b@);
    true
}

fn normalize_exec(parts: &Vec<Vec<char>>) -> (r: Vec<Vec<char>>)
    ensures
        r@.map_values(|l: Vec<char>| l@) == normalize(parts@.map_values(|l: Vec<char>| l@)),
{
    let ghost pv = parts@.map_values(|l: Vec<char>| l@);
    let dot = chars_of(".");
    let dots = chars_of("..");
    let mut out: Vec<Vec<char>> = Vec::new();
    let mut i: usize = 0;
    while i < parts.len()
        invariant
            i <= parts@.len() == pv.len(),
            pv == parts@.map_values(|l: Vec<char>| l@),
            dot@ == "."@,
            dots@ == ".."@,
            out@.map_values(|l: Vec<char>| l@) == normalize(pv.subrange(0, i as int)),
        decreases parts.len() - i,
    {
        let c = &parts[i];
        let ghost prev = out@.map_values(|l: Vec<char>| l@);
        assert(pv.subrange(0, i + 1).drop_last() =~= pv.subrange(0, i as int));
        assert(pv.subrange(0, i + 1).last() == c@);
        if c.len() == 0 || eq_chars(c, dot.as_slice()) {
        } else if eq_chars(c, dots.as_slice()) {
            if out.len() > 0 {
                out.pop();
                assert(out@.map_values(|l: Vec<char>| l@) =~= prev.drop_last());
            }
        } else {
            let cc = sub_chars(c.as_slice(), 0, c.len());
            assert(cc@ =~= c@);
            out.push(cc);
            assert(out@.map_values(|l: Vec<char>| l@) =~= prev.push(c@));
        }
        i = i + 1;
    }
    assert(pv.subrange(0, parts@.len() as int) =~= pv);
    out
}

/// Whether `target` lies inside `root`, segment by segment, with `.` and
/// `..` resolved in the text of the paths.
pub fn is_within(root: &str, target: &str) -> (r: bool)
    ensures
        r == within(root@, target@),
{
    let rc = chars_of(root);
    let tc = chars_of(target);
    let slash = chars_of("/");
    let rs = normalize_exec(&split_pieces(rc.as_slice()));
    let ts = normalize_exec(&split_pieces(tc.as_slice()));
    let ghost rv = rs@.map_values(|l: Vec<char>| l@);
    let ghost tv = ts@.map_values(|l: Vec<char>| l@);
    assert(rv == segments(root@));
    assert(tv == segments(target@));
    if starts_with_exec(rc.as_slice(), slash.as_slice()) != starts_with_exec(tc.as_slice(), slash.as_slice()) {
        return false;
    }
    if rs.len() > ts.len() {
        return false;
    }
    let mut k: usize = 0;
    while k < rs.len()
        invariant
            k <= rs@.len() <= ts@.len(),
            rv == segments(root@),
            tv == segments(target@),
            is_absolute(root@) == is_absolute(target@),
            rv == rs@.map_values(|l: Vec<char>| l@),
            tv == ts@.map_values(|l: Vec<char>| l@),
            forall|m: int| 0 <= m < k ==> rv[m] == tv[m],
        decreases rs.len() - k,
    {
        if !eq_chars(&rs[k], ts[k].as_slice()) {
            assert(tv.subrange(0, rv.len() as int)[k as int] != rv[k as int]);
            return false;
        }
        k = k + 1;
    }
    assert(tv.subrange(0, rv.len() as int) =~= rv);
    true
}

/// The filesystem effect that a call asks for, at its resolved path.
pub enum FsRequest {
    ReadFile,
    WriteFile(String),
    CreateDirs,
    Delete,
    ListDir,
}

/// What the filesystem reported for a request that succeeded.
pub enum FsOutcome {
    Read(String),
    Wrote,
    MadeDirs,
    Deleted,
    Listed(Vec<(String, bool)>),
}

pub open spec fn path_or_dot(t: ToolCallView) -> Seq<char> {
    match t.path {
        Some(p) => p,
        None => "."@,
    }
}

pub open spec fn denied_text() -> Seq<char> {
    "Access denied: path outside current directory"@
}

pub open spec fn unknown_text() -> Seq<char> {
    "Unknown action"@
}

pub open spec fn failure(t: ToolCallView, text: Seq<char>) -> ToolResultView {
    ToolResultView { action: t.action, path: path_or_dot(t), success: false, result: text }
}

pub enum FsRequestView {
    ReadFile,
    WriteFile(Seq<char>),
    CreateDirs,
    Delete,
    ListDir,
}

impl View for FsRequest {
    type V = FsRequestView;

    open spec fn view(&self) -> FsRequestView {
        match self {
            FsRequest::ReadFile => FsRequestView::ReadFile,
            FsRequest::WriteFile(c) => FsRequestView::WriteFile(c@),
            FsRequest::CreateDirs => FsRequestView::CreateDirs,
            FsRequest::Delete => FsRequestView::Delete,
            FsRequest::ListDir => FsRequestView::ListDir,
        }
    }
}

/// The request for a call, or the failure reported without touching the
/// filesystem: outside the root only `list_dir` may go; unknown actions are
/// refused; a file is written with its content, empty if none is given.
pub open spec fn request_of(t: ToolCallView, contained: bool) -> Result<FsRequestView, ToolResultView> {
    if !contained && t.action != "list_dir"@ {
        Err(failure(t, denied_text()))
    } else if t.action == "read_file"@ {
        Ok(FsRequestView::ReadFile)
    } else if t.action == "create_file"@ {
        Ok(
            FsRequestView::WriteFile(
                match t.content {
                    Some(c) => c,
                    None => Seq::empty(),
                },
            ),
        )
    } else if t.action == "create_folder"@ {
        Ok(FsRequestView::CreateDirs)
    } else if t.action == "delete"@ {
        Ok(FsRequestView::Delete)
    } else if t.action == "list_dir"@ {
        Ok(FsRequestView::ListDir)
    } else {
        Err(failure(t, unknown_text()))
    }
}

pub open spec fn result_view(r: Result<FsRequest, ToolResult>) -> Result<FsRequestView, ToolResultView> {
    match r {
        Ok(q) => Ok(q@),
        Err(e) => Err(e@),
    }
}

/// The path a call names, `.` where it names none.
pub fn tool_path(tool: &ToolCall) -> (r: String)
    ensures
        r@ == path_or_dot(tool@),
{
    match &tool.path {
        Some(p) => p.clone(),
        None => String::from_str("."),
    }
}

fn failed(tool: &ToolCall, text: &str) -> (r: ToolResult)
    ensures
        r@ == failure(tool@, text@),
{
    ToolResult { action: tool.action.clone(), path: tool_path(tool), success: false, result: String::from_str(text) }
}

/// What a call asks of the filesystem, given whether its resolved path lies
/// inside the working root; or the failure to report instead.
pub fn plan_tool(tool: &ToolCall, contained: bool) -> (r: Result<FsRequest, ToolResult>)
    ensures
        result_view(r) == request_of(tool@, contained),
{
    let a = &tool.action;
    if !contained && !(*a == String::from_str("list_dir")) {
        return Err(failed(tool, "Access denied: path outside current directory"));
    }
    if *a == String::from_str("read_file") {
        Ok(FsRequest::ReadFile)
    } else if *a == String::from_str("create_file") {
        let c = match &tool.content {
            Some(c) => c.clone(),
            None => String::new(),
        };
        Ok(FsRequest::WriteFile(c))
    } else if *a == String::from_str("create_folder") {
        Ok(FsRequest::CreateDirs)
    } else if *a == String::from_str("delete") {
        Ok(FsRequest::Delete)
    } else if *a == String::from_str("list_dir") {
        Ok(FsRequest::ListDir)
    } else {
        Err(failed(tool, "Unknown action"))
    }
}

/// The number of bytes that UTF-8 takes for the characters.
pub open spec fn utf8_len(s: Seq<char>) -> nat
    decreases s.len(),
{
    if s.len() == 0 {
        0
    } else {
        utf8_len(s.drop_last()) + if (s.last() as u32) < 0x80 {
            1nat
        } else if (s.last() as u32) < 0x800 {
            2nat
        } else if (s.last() as u32) < 0x10000 {
            3nat
        } else {
            4nat
        }
    }
}

pub open spec fn digit(d: nat) -> char {
    if d == 0 { '0' } else if d == 1 { '1' } else if d == 2 { '2' } else if d == 3 { '3' }
    else if d == 4 { '4' } else if d == 5 { '5' } else if d == 6 { '6' } else if d == 7 { '7' }
    else if d == 8 { '8' } else { '9' }
}

/// The decimal digits of `n`.
pub open spec fn decimal(n: nat) -> Seq<char>
    decreases n,
{
    if n < 10 {
        seq![digit(n)]
    } else {
        decimal(n / 10).push(digit(n % 10))
    }
}

fn digit_exec(d: usize) -> (c: char)
    requires
        d < 10,
    ensures
        c == digit(d as nat),
{
    if d == 0 { '0' } else if d == 1 { '1' } else if d == 2 { '2' } else if d == 3 { '3' }
    else if d == 4 { '4' } else if d == 5 { '5' } else if d == 6 { '6' } else if d == 7 { '7' }
    else if d == 8 { '8' } else { '9' }
}

fn decimal_exec(n: u128) -> (r: Vec<char>)
    ensures
        r@ == decimal(n as nat),
    decreases n,
{
    if n < 10 {
        vec![digit_exec(n as usize)]
    } else {
        let mut r = decimal_exec(n / 10);
        r.push(digit_exec((n % 10) as usize));
        r
    }
}

fn utf8_len_exec(s: &[char]) -> (r: u128)
    ensures
        r == utf8_len(s@),
{
    let mut total: u128 = 0;
    let mut i: usize = 0;
    while i < s.len()
        invariant
            i <= s.len(),
            total == utf8_len(s@.subrange(0, i as int)),
            total <= 4 * i,
        decreases s.len() - i,
    {
        let c = s[i] as u32;
        let w: u128 = if c < 0x80 {
            1
        } else if c < 0x800 {
            2
        } else if c < 0x10000 {
            3
        } else {
            4
        };
        assert(s@.subrange(0, i + 1).drop_last() =~= s@.subrange(0, i as int));
        total = total + w;
        i = i + 1;
    }
    assert(s@.subrange(0, s@.len() as int) =~= s@);
    total
}

pub enum FsOutcomeView {
    Read(Seq<char>),
    Wrote,
    MadeDirs,
    Deleted,
    Listed(Seq<(Seq<char>, bool)>),
}

impl View for FsOutcome {
    type V = FsOutcomeView;

    open spec fn view(&self) -> FsOutcomeView {
        match self {
            FsOutcome::Read(c) => FsOutcomeView::Read(c@),
            FsOutcome::Wrote => FsOutcomeView::Wrote,
            FsOutcome::MadeDirs => FsOutcomeView::MadeDirs,
            FsOutcome::Deleted => FsOutcomeView::Deleted,
            FsOutcome::Listed(es) => FsOutcomeView::Listed(
                es@.map_values(|e: (String, bool)| (e.0@, e.1)),
            ),
        }
    }
}

pub open spec fn action_name(q: FsRequestView) -> Seq<char> {
    match q {
        FsRequestView::ReadFile => "read_file"@,
        FsRequestView::WriteFile(_) => "create_file"@,
        FsRequestView::CreateDirs => "create_folder"@,
        FsRequestView::Delete => "delete"@,
        FsRequestView::ListDir => "list_dir"@,
    }
}

/// A directory entry as listed: directories carry a trailing `/`.
pub open spec fn entry_text(e: (Seq<char>, bool)) -> Seq<char> {
    if e.1 {
        e.0.push('/')
    } else {
        e.0
    }
}

/// The entries, one per line.
pub open spec fn listing(es: Seq<(Seq<char>, bool)>) -> Seq<char>
    decreases es.len(),
{
    if es.len() == 0 {
        Seq::empty()
    } else if es.len() == 1 {
        entry_text(es[0])
    } else {
        listing(es.drop_last()).push('\n') + entry_text(es.last())
    }
}

pub open spec fn written_len(q: FsRequestView) -> nat {
    match q {
        FsRequestView::WriteFile(c) => utf8_len(c),
        _ => 0,
    }
}

/// The text reported for a request that succeeded.
pub open spec fn success_text(q: FsRequestView, o: FsOutcomeView) -> Seq<char> {
    match o {
        FsOutcomeView::Read(c) => c,
        FsOutcomeView::Wrote => "Created file with "@ + decimal(written_len(q)) + " bytes"@,
        FsOutcomeView::MadeDirs => "Folder created"@,
        FsOutcomeView::Deleted => "Deleted"@,
        FsOutcomeView::Listed(es) => listing(es),
    }
}

pub open spec fn report_of(path: Seq<char>, q: FsRequestView, outcome: Result<FsOutcomeView, Seq<char>>) -> ToolResultView {
    ToolResultView {
        action: action_name(q),
        path,
        success: outcome is Ok,
        result: match outcome {
            Ok(o) => success_text(q, o),
            Err(e) => e,
        },
    }
}

pub open spec fn outcome_view(o: Result<FsOutcome, String>) -> Result<FsOutcomeView, Seq<char>> {
    match o {
        Ok(x) => Ok(x@),
        Err(e) => Err(e@),
    }
}

fn push_all(v: &mut Vec<char>, s: &[char])
    ensures
        final(v)@ == old(v)@ + s@,
{
    let mut i: usize = 0;
    while i < s.len()
        invariant
            i <= s@.len(),
            v@ == old(v)@ + s@.subrange(0, i as int),
        decreases s.len() - i,
    {
        v.push(s[i]);
        assert(s@.subrange(0, i + 1) =~= s@.subrange(0, i as int).push(s@[i as int]));
        i = i + 1;
    }
    assert(s@.subrange(0, s@.len() as int) =~= s@);
}

fn listing_exec(es: &Vec<(String, bool)>) -> (r: String)
    ensures
        r@ == listing(es@.map_values(|e: (String, bool)| (e.0@, e.1))),
{
    let ghost ev = es@.map_values(|e: (String, bool)| (e.0@, e.1));
    let mut out: Vec<char> = Vec::new();
    let mut i: usize = 0;
    while i < es.len()
        invariant
            i <= es@.len() == ev.len(),
            ev == es@.map_values(|e: (String, bool)| (e.0@, e.1)),
            out@ == listing(ev.subrange(0, i as int)),
        decreases es.len() - i,
    {
        assert(ev.subrange(0, i + 1).drop_last() =~= ev.subrange(0, i as int));
        assert(ev.subrange(0, i + 1).last() == ev[i as int]);
        if i > 0 {
            out.push('\n');
        }
        let name = chars_of(es[i].0.as_str());
        push_all(&mut out, name.as_slice());
        if es[i].1 {
            out.push('/');
        }
        proof {
            if i == 0 {
                assert(out@ =~= entry_text(ev[0]));
            } else {
                assert(out@ =~= listing(ev.subrange(0, i as int)).push('\n') + entry_text(ev[i as int]));
            }
        }
        i = i + 1;
    }
    assert(ev.subrange(0, es@.len() as int) =~= ev);
    string_of(out.as_slice())
}

fn success_exec(q: &FsRequest, o: &FsOutcome) -> (r: String)
    ensures
        r@ == success_text(q@, o@),
{
    match o {
        FsOutcome::Read(c) => c.clone(),
        FsOutcome::Wrote => {
            let n: u128 = match q {
                FsRequest::WriteFile(c) => utf8_len_exec(chars_of(c.as_str()).as_slice()),
                _ => 0,
            };
            let mut out = chars_of("Created file with ");
            push_all(&mut out, decimal_exec(n).as_slice());
            push_all(&mut out, chars_of(" bytes").as_slice());
            string_of(out.as_slice())
        },
        FsOutcome::MadeDirs => String::from_str("Folder created"),
        FsOutcome::Deleted => String::from_str("Deleted"),
        FsOutcome::Listed(es) => listing_exec(es),
    }
}

/// The result reported for a request, from what the filesystem did.
pub fn report_tool(path: String, request: &FsRequest, outcome: Result<FsOutcome, String>) -> (r: ToolResult)
    ensures
        r@ == report_of(path@, request@, outcome_view(outcome)),
{
    let action = match request {
        FsRequest::ReadFile => String::from_str("read_file"),
        FsRequest::WriteFile(_) => String::from_str("create_file"),
        FsRequest::CreateDirs => String::from_str("create_folder"),
        FsRequest::Delete => String::from_str("delete"),
        FsRequest::ListDir => String::from_str("list_dir"),
    };
    match outcome {
        Ok(o) => ToolResult { action, path, success: true, result: success_exec(request, &o) },
        Err(e) => ToolResult { action, path, success: false, result: e },
    }
}

} // verus!
