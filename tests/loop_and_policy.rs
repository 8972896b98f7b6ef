use clio_ai::{
    build_user_message, contains_any, is_rust_path, is_supported_action, needs_repo_context, provider_for_model,
    result_to_json, serialize_results, should_block_tool_for_prompt, AgentLoop, Config, Step, ToolCall, ToolResponse,
    ToolResult, MAX_ROUNDS,
};

fn call(action: &str, path: &str) -> ToolCall {
    ToolCall { action: action.to_string(), path: Some(path.to_string()), content: None }
}

fn tools(ts: Vec<ToolCall>) -> ToolResponse {
    ToolResponse { tools: Some(ts), response: None }
}

fn ok_result(action: &str, path: &str, text: &str) -> ToolResult {
    ToolResult { action: action.to_string(), path: path.to_string(), success: true, result: text.to_string() }
}

#[test]
fn policy_blocks_rust_file_for_streamlit_request() {
    let t = ToolCall { action: "create_file".into(), path: Some("main.rs".into()), content: Some("fn main() {}".into()) };
    assert_eq!(
        should_block_tool_for_prompt(&t, "create a streamlit app").as_deref(),
        Some("Blocked Rust-specific file for Python/Streamlit request")
    );
    assert_eq!(should_block_tool_for_prompt(&t, "create a streamlit app with rust"), None);
}

#[test]
fn policy_ignores_other_actions_and_paths() {
    let read = call("read_file", "main.rs");
    assert_eq!(should_block_tool_for_prompt(&read, "a python tool"), None);
    let py = call("create_file", "app.py");
    assert_eq!(should_block_tool_for_prompt(&py, "a python tool"), None);
    let empty = call("create_file", "");
    assert_eq!(should_block_tool_for_prompt(&empty, "a python tool"), None);
    let cargo = call("create_folder", "Cargo.TOML");
    assert!(should_block_tool_for_prompt(&cargo, "A PYTHON tool").is_some());
}

#[test]
fn rust_paths_and_keywords() {
    assert!(is_rust_path("src/lib.RS"));
    assert!(is_rust_path("Cargo.lock"));
    assert!(!is_rust_path("cargo.toml.bak"));
    assert!(contains_any("make it in python", &["rust", "python"]));
    assert!(!contains_any("make it in go", &["rust", "python"]));
    assert!(!contains_any("anything", &[]));
}

#[test]
fn supported_actions() {
    for a in ["read_file", "create_file", "create_folder", "delete", "list_dir"] {
        assert!(is_supported_action(a));
    }
    assert!(!is_supported_action("run"));
    assert!(!is_supported_action("READ_FILE"));
}

#[test]
fn result_serialization_is_compact_json() {
    let r = ToolResult { action: "read_file".into(), path: "a\"b".into(), success: false, result: "x\ny".into() };
    assert_eq!(result_to_json(&r), "{\"action\":\"read_file\",\"path\":\"a\\\"b\",\"success\":false,\"result\":\"x\\ny\"}");
    let two = vec![ok_result("delete", "f", "Deleted"), ok_result("list_dir", ".", "")];
    assert_eq!(
        serialize_results(&two),
        "{\"action\":\"delete\",\"path\":\"f\",\"success\":true,\"result\":\"Deleted\"}\n{\"action\":\"list_dir\",\"path\":\".\",\"success\":true,\"result\":\"\"}"
    );
}

#[test]
fn user_messages() {
    assert_eq!(build_user_message("hi", None, None), "hi");
    assert_eq!(build_user_message("hi", None, Some("FILES")), "REPO CONTEXT:\nFILES\n\nUSER REQUEST: hi");
    assert_eq!(
        build_user_message("hi", Some("R"), Some("FILES")),
        "Tool results:\nR\n\nOriginal request: hi\n\nBased on these results, provide final response or more tool calls."
    );
}

#[test]
fn repo_context_keywords_any_case() {
    assert!(needs_repo_context("Please EXPLAIN this code"));
    assert!(needs_repo_context("What does it do?"));
    assert!(!needs_repo_context("create hello.py"));
}

#[test]
fn answer_ends_the_request() {
    let mut a = AgentLoop::new("hi".into(), None);
    assert!(matches!(a.start(), Step::Ask(ref m) if m == "hi"));
    let s = a.on_reply(ToolResponse { tools: None, response: Some("Hello!".into()) });
    assert!(matches!(s, Step::Finish(ref m) if m == "Hello!"));
}

#[test]
fn empty_or_missing_tools_end_the_request() {
    let mut a = AgentLoop::new("x".into(), None);
    a.start();
    assert!(matches!(a.on_reply(tools(vec![])), Step::Finish(ref m) if m == "No action taken."));
    let mut b = AgentLoop::new("x".into(), None);
    b.start();
    assert!(matches!(b.on_reply(ToolResponse { tools: None, response: None }), Step::Finish(ref m) if m == "No response."));
}

#[test]
fn blocked_and_unsupported_calls_are_reported() {
    let mut a = AgentLoop::new("a streamlit app".into(), None);
    a.start();
    let step = a.on_reply(tools(vec![call("create_file", "app.py"), call("create_file", "main.rs"), call("run", "x")]));
    match step {
        Step::Execute(ts) => {
            assert_eq!(ts.len(), 1);
            assert_eq!(ts[0].path.as_deref(), Some("app.py"));
        }
        _ => panic!("expected operations to run"),
    }
    let next = a.on_results(vec![ok_result("create_file", "app.py", "Created file with 0 bytes")]);
    match next {
        Step::Ask(m) => {
            assert!(m.starts_with("Tool results:\n{\"action\":\"create_file\",\"path\":\"app.py\",\"success\":true"));
            assert!(m.contains("{\"action\":\"create_file\",\"path\":\"main.rs\",\"success\":false,\"result\":\"Blocked Rust-specific file for Python/Streamlit request\"}"));
            assert!(m.contains("{\"action\":\"run\",\"path\":\"x\",\"success\":false,\"result\":\"Unsupported action\"}"));
        }
        _ => panic!("expected another question"),
    }
}

#[test]
fn identical_results_twice_stall() {
    let mut a = AgentLoop::new("read a".into(), None);
    a.start();
    assert!(matches!(a.on_reply(tools(vec![call("read_file", "a")])), Step::Execute(_)));
    assert!(matches!(a.on_results(vec![ok_result("read_file", "a", "text")]), Step::Ask(_)));
    assert_eq!(a.round(), 2);
    assert!(matches!(a.on_reply(tools(vec![call("read_file", "a")])), Step::Execute(_)));
    let end = a.on_results(vec![ok_result("read_file", "a", "text")]);
    assert!(matches!(end, Step::Finish(ref m) if m == "No further progress possible."));
    assert_eq!(a.round(), 2);
}

#[test]
fn distinct_results_exhaust_after_ten_rounds() {
    let mut a = AgentLoop::new("loop".into(), None);
    let mut step = a.start();
    let mut asks = 0;
    let mut k = 0;
    let answer = loop {
        match step {
            Step::Ask(_) => {
                asks += 1;
                step = a.on_reply(tools(vec![call("list_dir", &format!("d{}", k))]));
            }
            Step::Execute(_) => {
                step = a.on_results(vec![ok_result("list_dir", &format!("d{}", k), "")]);
                k += 1;
            }
            Step::Finish(m) => break m,
        }
    };
    assert_eq!(answer, "Max iterations reached.");
    assert_eq!(asks, 10);
    assert_eq!(a.round(), MAX_ROUNDS);
}

#[test]
fn providers_and_defaults() {
    assert_eq!(provider_for_model("gemini-2.5-pro"), "gemini");
    assert_eq!(provider_for_model("meta-llama/llama-4-scout-17b-16e-instruct"), "groq");
    assert_eq!(provider_for_model("compound-beta"), "groq");
    assert_eq!(provider_for_model("llama3.2"), "ollama");
    assert_eq!(provider_for_model("mistral"), "ollama");
    let mut c = Config::from_values(None, None, Some("SECRET-REDACTED".into()), None, None);
    assert_eq!(c.provider, "gemini");
    assert_eq!(c.model, "gemini-3-flash-preview");
    assert_eq!(c.ollama_url.as_deref(), Some("http://localhost:11434"));
    c.set_model("llama-3.3-70b");
    assert_eq!(c.model, "llama-3.3-70b");
    assert_eq!(c.provider, "groq");
    assert_eq!(c.gemini_api_key.as_deref(), Some("SECRET-REDACTED"));
}
