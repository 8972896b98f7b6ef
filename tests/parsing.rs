use clio_ai::{extract_filename, extract_json_candidates, interpret, parse_tool_response, ToolCall, ToolResponse};

fn call(action: &str, path: Option<&str>, content: Option<&str>) -> ToolCall {
    ToolCall {
        action: action.to_string(),
        path: path.map(|p| p.to_string()),
        content: content.map(|c| c.to_string()),
    }
}

fn same_calls(a: &[ToolCall], b: &[ToolCall]) -> bool {
    a.len() == b.len()
        && a.iter().zip(b.iter()).all(|(x, y)| x.action == y.action && x.path == y.path && x.content == y.content)
}

fn tools_of(r: &ToolResponse) -> &[ToolCall] {
    r.tools.as_deref().expect("a tool list")
}

#[test]
fn strict_response_object_is_the_answer() {
    let r = interpret("{\"response\": \"hello there\"}");
    assert!(r.tools.is_none());
    assert_eq!(r.response.as_deref(), Some("hello there"));
}

#[test]
fn strict_tools_object_keeps_list_in_order() {
    let r = interpret(
        "{\"tools\": [{\"action\": \"create_file\", \"path\": \"a.txt\", \"content\": \"x\"}, {\"action\": \"list_dir\", \"path\": \".\"}]}",
    );
    assert!(r.response.is_none());
    let want = vec![call("create_file", Some("a.txt"), Some("x")), call("list_dir", Some("."), None)];
    assert!(same_calls(tools_of(&r), &want));
}

#[test]
fn embedded_object_reads_as_if_alone() {
    let inner = "{\"tools\": [{\"action\": \"read_file\", \"path\": \"notes.md\"}]}";
    let text = format!("Sure! I will read it now: {} Let me know.", inner);
    let a = interpret(&text);
    let b = interpret(inner);
    assert!(same_calls(tools_of(&a), tools_of(&b)));
    assert!(same_calls(tools_of(&a), &[call("read_file", Some("notes.md"), None)]));
}

#[test]
fn embedded_answer_in_prose() {
    let r = interpret("Here you go: {\"response\": \"done\"} (end)");
    assert_eq!(r.response.as_deref(), Some("done"));
}

#[test]
fn brackets_inside_strings_do_not_close() {
    let obj = "{\"a\": \"x}y\\\"}z\"}";
    let text = format!("pre {} post", obj);
    let cs = extract_json_candidates(&text);
    assert_eq!(cs, vec![obj.to_string()]);
}

#[test]
fn braces_in_strings_keep_depth() {
    let cs = extract_json_candidates("{\"k\": \"{{{[\"} and [1, 2]");
    assert_eq!(cs, vec!["{\"k\": \"{{{[\"}".to_string(), "[1, 2]".to_string()]);
}

#[test]
fn mismatched_bracket_gives_no_candidate() {
    let cs = extract_json_candidates("{ ] then {\"x\": 1}");
    assert_eq!(cs, vec!["{\"x\": 1}".to_string()]);
}

#[test]
fn unclosed_region_gives_no_candidate() {
    assert!(extract_json_candidates("{\"x\": 1").is_empty());
    assert!(extract_json_candidates("").is_empty());
}

#[test]
fn markdown_file_block_becomes_create_file() {
    let r = interpret("**app.py**\n```python\nprint('hi')\n```");
    assert!(r.response.is_none());
    assert!(same_calls(tools_of(&r), &[call("create_file", Some("app.py"), Some("print('hi')"))]));
}

#[test]
fn markdown_several_blocks_and_prose() {
    let text = "Here are the files.\n\n`main.py`\n```\nimport os\n\nprint(os.name)\n```\nAnd then:\nrequirements.txt:\n```\nstreamlit\n```\nDone.";
    let r = interpret(text);
    let want = vec![
        call("create_file", Some("main.py"), Some("import os\n\nprint(os.name)")),
        call("create_file", Some("requirements.txt"), Some("streamlit")),
    ];
    assert!(same_calls(tools_of(&r), &want));
}

#[test]
fn markdown_block_without_closing_fence_runs_to_end() {
    let r = interpret("**a.txt**\n```\nline one\nline two   \n\n");
    assert!(same_calls(tools_of(&r), &[call("create_file", Some("a.txt"), Some("line one\nline two"))]));
}

#[test]
fn plain_text_is_the_answer_trimmed() {
    let r = interpret("  I cannot do that.\n");
    assert!(r.tools.is_none());
    assert_eq!(r.response.as_deref(), Some("I cannot do that."));
}

#[test]
fn empty_text_is_an_empty_answer() {
    let r = interpret("   ");
    assert_eq!(r.response.as_deref(), Some(""));
}

#[test]
fn single_call_object_is_wrapped() {
    let r = interpret("{\"action\": \"delete\", \"path\": \"old.txt\"}");
    assert!(same_calls(tools_of(&r), &[call("delete", Some("old.txt"), None)]));
}

#[test]
fn bare_array_of_calls() {
    let r = interpret("[{\"action\": \"create_folder\", \"path\": \"src\"}, {\"action\": \"list_dir\"}]");
    let want = vec![call("create_folder", Some("src"), None), call("list_dir", None, None)];
    assert!(same_calls(tools_of(&r), &want));
}

#[test]
fn positional_call_array() {
    let r = interpret("[[\"read_file\", \"a.rs\", null]]");
    assert!(same_calls(tools_of(&r), &[call("read_file", Some("a.rs"), None)]));
}

#[test]
fn blank_response_and_empty_tools_are_not_replies() {
    assert!(parse_tool_response("{\"response\": \"   \"}").is_none());
    assert!(parse_tool_response("{\"tools\": []}").is_none());
    assert!(parse_tool_response("{\"other\": 1}").is_none());
    assert!(parse_tool_response("[]").is_none());
}

#[test]
fn bad_tools_field_falls_back_to_response() {
    let r = parse_tool_response("{\"tools\": 5, \"response\": \"ok\"}").expect("a reply");
    assert!(r.tools.is_none());
    assert_eq!(r.response.as_deref(), Some("ok"));
}

#[test]
fn call_with_wrong_field_type_is_rejected() {
    assert!(parse_tool_response("{\"action\": \"read_file\", \"path\": 3}").is_none());
}

#[test]
fn filename_patterns() {
    assert_eq!(extract_filename("**app.py**").as_deref(), Some("app.py"));
    assert_eq!(extract_filename("**src/**").as_deref(), Some("src/"));
    assert_eq!(extract_filename("`Dockerfile.dev`").as_deref(), Some("Dockerfile.dev"));
    assert_eq!(extract_filename("main.rs:").as_deref(), Some("main.rs"));
    assert_eq!(extract_filename("**index.html** - the page").as_deref(), Some("index.html"));
    assert_eq!(extract_filename("config.toml (settings)").as_deref(), Some("config.toml"));
    assert_eq!(extract_filename("**Notes**"), None);
    assert_eq!(extract_filename("```python"), None);
    assert_eq!(extract_filename("some text: here"), None);
    assert_eq!(extract_filename(""), None);
}
