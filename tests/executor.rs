use clio_ai::{is_within, plan_tool, report_tool, tool_path, FsOutcome, FsRequest, ToolCall};

fn call(action: &str, path: Option<&str>, content: Option<&str>) -> ToolCall {
    ToolCall {
        action: action.to_string(),
        path: path.map(|p| p.to_string()),
        content: content.map(|c| c.to_string()),
    }
}

#[test]
fn parent_escape_is_outside_the_root() {
    assert!(!is_within("/work/proj", "/work/proj/../outside.txt"));
    assert!(is_within("/work/proj", "/work/proj/./src/../lib.rs"));
    assert!(is_within("/work/proj", "/work/proj"));
    assert!(!is_within("/work/proj", "/work/project/a"));
    assert!(!is_within("/work/proj", "relative/a"));
}

#[test]
fn outside_root_denied_except_list_dir() {
    for a in ["read_file", "create_file", "create_folder", "delete", "frobnicate"] {
        let t = call(a, Some("../outside.txt"), None);
        match plan_tool(&t, false) {
            Err(r) => {
                assert!(!r.success);
                assert_eq!(r.result, "Access denied: path outside current directory");
                assert_eq!(r.path, "../outside.txt");
                assert_eq!(r.action, a);
            }
            Ok(_) => panic!("expected a denial"),
        }
    }
    assert!(matches!(plan_tool(&call("list_dir", Some("../outside.txt"), None), false), Ok(FsRequest::ListDir)));
}

#[test]
fn unknown_action_is_refused() {
    match plan_tool(&call("shell", None, None), true) {
        Err(r) => {
            assert_eq!(r.result, "Unknown action");
            assert_eq!(r.path, ".");
        }
        Ok(_) => panic!("expected a refusal"),
    }
}

#[test]
fn create_folder_twice_succeeds_both_times() {
    let t = call("create_folder", Some("nested/dir"), None);
    for _ in 0..2 {
        let q = plan_tool(&t, true).ok().expect("a request");
        assert!(matches!(q, FsRequest::CreateDirs));
        let r = report_tool(tool_path(&t), &q, Ok(FsOutcome::MadeDirs));
        assert!(r.success);
        assert_eq!(r.result, "Folder created");
    }
}

#[test]
fn write_reports_byte_count() {
    let t = call("create_file", Some("h.txt"), Some("héllo"));
    let q = plan_tool(&t, true).ok().expect("a request");
    let r = report_tool(tool_path(&t), &q, Ok(FsOutcome::Wrote));
    assert_eq!(r.result, "Created file with 6 bytes");
    assert_eq!(r.action, "create_file");
    let empty = call("create_file", Some("e.txt"), None);
    let q2 = plan_tool(&empty, true).ok().expect("a request");
    assert!(matches!(q2, FsRequest::WriteFile(ref c) if c.is_empty()));
    assert_eq!(report_tool("e.txt".into(), &q2, Ok(FsOutcome::Wrote)).result, "Created file with 0 bytes");
}

#[test]
fn listing_marks_directories() {
    let q = plan_tool(&call("list_dir", None, None), true).ok().expect("a request");
    let r = report_tool(".".into(), &q, Ok(FsOutcome::Listed(vec![("src".into(), true), ("a.txt".into(), false)])));
    assert_eq!(r.result, "src/\na.txt");
    assert_eq!(r.path, ".");
}

#[test]
fn failures_carry_the_error_text() {
    let t = call("read_file", Some("missing.txt"), None);
    let q = plan_tool(&t, true).ok().expect("a request");
    let r = report_tool(tool_path(&t), &q, Err("No such file or directory (os error 2)".into()));
    assert!(!r.success);
    assert_eq!(r.result, "No such file or directory (os error 2)");
    let ok = report_tool(tool_path(&t), &q, Ok(FsOutcome::Read("body".into())));
    assert!(ok.success);
    assert_eq!(ok.result, "body");
    let d = plan_tool(&call("delete", Some("x"), None), true).ok().expect("a request");
    assert_eq!(report_tool("x".into(), &d, Ok(FsOutcome::Deleted)).result, "Deleted");
}
