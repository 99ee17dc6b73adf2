use doge_code::dispatch::{local_tool, result_summary, route_tool_call, unknown_tool_message, LocalTool, ToolFacts, ToolRoute};
use doge_code::json::json_text;
use doge_code::process::{ProcessResult, ProcessStatus};
use doge_code::messages::{ToolCall, ToolCallFunction};

fn call(kind: &str, name: &str, args: &str) -> ToolCall {
    ToolCall {
        id: Some("c1".to_string()),
        kind: kind.to_string(),
        function: ToolCallFunction { name: name.to_string(), arguments: args.to_string() },
    }
}

#[test]
fn routes_known_tools_locally_and_others_remotely() {
    assert_eq!(route_tool_call(&call("function", "fs_read", "{}")), Ok(ToolRoute::Local(LocalTool::FsRead)));
    assert_eq!(route_tool_call(&call("function", "execute_process", "{\"program\":\"cargo\"}")),
        Ok(ToolRoute::Local(LocalTool::ExecuteProcess)));
    assert_eq!(route_tool_call(&call("function", "mcp_weather", "{}")), Ok(ToolRoute::Remote));
    assert_eq!(local_tool("search_history"), Some(LocalTool::SearchHistory));
    assert_eq!(local_tool("nope"), None);
}

#[test]
fn rejects_other_types_and_bad_arguments() {
    assert_eq!(route_tool_call(&call("code", "fs_read", "{}")), Err("unsupported tool type: code".to_string()));
    let bad = route_tool_call(&call("function", "fs_read", "{not json")).unwrap_err();
    assert!(bad.starts_with("invalid tool args: "));
    assert_eq!(unknown_tool_message("zap"), "unknown tool: zap");
}

#[test]
fn summaries_match_each_tool() {
    assert_eq!(result_summary(&ToolFacts::FsRead { path: "a.rs".into(), bytes: 12 }), "Read 12 bytes from a.rs");
    assert_eq!(
        result_summary(&ToolFacts::SearchText { pattern: "foo".into(), returned: 3, truncated: false, next_offset: None }),
        "Found 3 matches for 'foo'"
    );
    assert_eq!(
        result_summary(&ToolFacts::SearchText { pattern: "foo".into(), returned: 50, truncated: true, next_offset: Some(50) }),
        "Found matches for 'foo': returned 50 (truncated, next_offset=Some(50))"
    );
    assert_eq!(
        result_summary(&ToolFacts::Bash { command: "exit 1".into(), exit_code: Some(1) }),
        "Command 'exit 1' finished with exit code Some(1)"
    );
    assert_eq!(
        result_summary(&ToolFacts::Bash { command: "sleep".into(), exit_code: None }),
        "Command 'sleep' finished with exit code None"
    );
    assert_eq!(result_summary(&ToolFacts::PlanWrite { changed: false, items: 2 }), "Plan unchanged with 2 items");
    assert_eq!(result_summary(&ToolFacts::Workflow { name: "ci".into() }), "Ran workflow 'ci'");
    assert_eq!(
        result_summary(&ToolFacts::Edit { path: "x".into(), success: false, message_debug: "Some(\"nope\")".into() }),
        "Failed to edit x: Some(\"nope\")"
    );
    assert_eq!(result_summary(&ToolFacts::SearchHistory), "Search history disabled");
}

#[test]
fn process_results_serialize_with_ok_mirroring_success() {
    let denied = ProcessResult {
        success: false,
        status: ProcessStatus::PolicyDenied,
        exit_code: None,
        stdout: String::new(),
        stderr: String::new(),
        output_truncated: false,
        warnings: vec![],
        error: Some("x".to_string()),
    };
    assert_eq!(
        json_text(&denied.to_json()),
        "{\"error\":\"x\",\"exit_code\":null,\"ok\":false,\"output_truncated\":false,\"status\":\"policy_denied\",\"stderr\":\"\",\"stdout\":\"\",\"success\":false,\"warnings\":[]}"
    );
    let done = ProcessResult {
        success: true,
        status: ProcessStatus::Completed,
        exit_code: Some(-2),
        stdout: "o\n".to_string(),
        stderr: String::new(),
        output_truncated: true,
        warnings: vec!["w".to_string()],
        error: None,
    };
    let v: serde_json::Value = serde_json::from_str(&json_text(&done.to_json())).unwrap();
    assert_eq!(v["ok"], true);
    assert_eq!(v["exit_code"], -2);
    assert_eq!(v["status"], "completed");
    assert_eq!(v["warnings"][0], "w");
    assert!(v.get("error").is_none());
}
