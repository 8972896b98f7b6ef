//! The data exchanged with the model and the executor.
use vstd::prelude::*;

verus! {

/// One requested filesystem operation.
pub struct ToolCall {
    pub action: String,
    pub path: Option<String>,
    pub content: Option<String>,
}

/// The model's reply: a list of operations or a plain answer.
pub struct ToolResponse {
    pub tools: Option<Vec<ToolCall>>,
    pub response: Option<String>,
}

/// The outcome of executing, or refusing, one operation.
pub struct ToolResult {
    pub action: String,
    pub path: String,
    pub success: bool,
    pub result: String,
}

pub struct ToolCallView {
    pub action: Seq<char>,
    pub path: Option<Seq<char>>,
    pub content: Option<Seq<char>>,
}

pub struct ResponseView {
    pub tools: Option<Seq<ToolCallView>>,
    pub response: Option<Seq<char>>,
}

pub struct ToolResultView {
    pub action: Seq<char>,
    pub path: Seq<char>,
    pub success: bool,
    pub result: Seq<char>,
}

pub open spec fn opt_view(o: Option<String>) -> Option<Seq<char>> {
    match o {
        Some(s) => Some(s@),
        None => None,
    }
}

impl View for ToolCall {
    type V = ToolCallView;

    open spec fn view(&self) -> ToolCallView {
        ToolCallView { action: self.action@, path: opt_view(self.path), content: opt_view(self.content) }
    }
}

pub open spec fn calls_view(v: Seq<ToolCall>) -> Seq<ToolCallView> {
    v.map_values(|t: ToolCall| t@)
}

impl View for ToolResponse {
    type V = ResponseView;

    open spec fn view(&self) -> ResponseView {
        ResponseView {
            tools: match self.tools {
                Some(v) => Some(calls_view(v@)),
                None => None,
            },
            response: opt_view(self.response),
        }
    }
}

impl View for ToolResult {
    type V = ToolResultView;

    open spec fn view(&self) -> ToolResultView {
        ToolResultView {
            action: self.action@,
            path: self.path@,
            success: self.success,
            result: self.result@,
        }
    }
}

pub open spec fn supported_action(a: Seq<char>) -> bool {
    ||| a == "read_file"@
    ||| a == "create_file"@
    ||| a == "create_folder"@
    ||| a == "delete"@
    ||| a == "list_dir"@
}

pub fn clone_opt(o: &Option<String>) -> (r: Option<String>)
    ensures
        opt_view(r) == opt_view(*o),
{
    match o {
        Some(s) => Some(s.clone()),
        None => None,
    }
}

impl ToolCall {
    pub fn duplicate(&self) -> (r: ToolCall)
        ensures
            r@ == self@,
    {
        ToolCall {
            action: self.action.clone(),
            path: clone_opt(&self.path),
            content: clone_opt(&self.content),
        }
    }
}

/// Whether the action is one of the five the executor knows.
pub fn is_supported_action(action: &str) -> (r: bool)
    ensures
        r == supported_action(action@),
{
    let a = action.to_string();
    proof {
        reveal_strlit("read_file");
        reveal_strlit("create_file");
        reveal_strlit("create_folder");
        reveal_strlit("delete");
        reveal_strlit("list_dir");
    }
    a == "read_file".to_string() || a == "create_file".to_string() || a == "create_folder".to_string()
        || a == "delete".to_string() || a == "list_dir".to_string()
}

} // verus!
