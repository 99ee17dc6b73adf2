use doge_code::agent_loop::{error_tool_output, failure_summary, hint_source, skipped_tool_message, tool_followups, AgentRunState, SKIPPED_TOOL_CONTENT};
use doge_code::agent::{complete_agent_loop, get_error_hint, summarize_final, AgentLoopError, SUBAGENT_SUMMARY_BUDGET_CHARS};
use doge_code::agent_loop::{
    examined_candidates, record_examined_candidates, record_examined_files, subagent_blocked_result,
    tool_message_content, VERIFY_CHANGES_NOTE,
};
use doge_code::handlers::ToolOutput;
use doge_code::json::Json;
use doge_code::client::endpoint;
use doge_code::doc_skill::{build_file_doc_prompt, build_symbol_doc_prompt, extract_snippet, truncate_code, DocSymbol};
use doge_code::messages::{ChatMessage, ToolCall, ToolCallFunction};
use doge_code::process::{
    classify_wait_result, validate_git_output, ManagedProcessOutput, ManagedProcessTermination, WaitDecision,
};
use doge_code::symbol_edit::{extract_code_block, parse_symbol_edit_response};
use doge_code::ui_rendering::truncate_string_with_graphemes;

#[test]
fn test_error_conversion() {
    let anyhow_err = anyhow::Error::msg("test error");
    let agent_err = AgentLoopError::from_message(anyhow_err.to_string());
    assert!(matches!(agent_err, AgentLoopError::Unknown(_)));
}

#[test]
fn test_get_error_hint() {
    assert_eq!(
        get_error_hint("No such file or directory"),
        Some("Hint: The file was not found. \n1. Use `fs_list` to verify the directory structure.\n2. Use `find_file` to search for the file if you are unsure of the path.")
    );
    assert_eq!(
        get_error_hint("command not found"),
        Some("Hint: The file was not found. \n1. Use `fs_list` to verify the directory structure.\n2. Use `find_file` to search for the file if you are unsure of the path.")
    );
    assert_eq!(
        get_error_hint("patch failed: hunk #1"),
        Some("Hint: Patch failed due to context mismatch.\n1. The file content may have changed. Use `fs_read` to get the FRESH content.\n2. Rewrite the patch using the exact lines from the fresh content as context.")
    );
    assert_eq!(get_error_hint("some random error"), None);
    assert!(get_error_hint("invalid json").unwrap().contains("JSON serialization/parsing failed"));
    assert!(get_error_hint("Parse Error").unwrap().contains("JSON serialization/parsing failed"));
    assert!(get_error_hint("syntax error").unwrap().contains("Syntax error detected"));
    assert!(get_error_hint("timeout").unwrap().contains("operation timed out"));
}

#[test]
fn test_summarize_final_trims_long_output() {
    let long = "fact ".repeat(5_000);
    let summary = summarize_final(&long);
    assert!(summary.chars().count() <= SUBAGENT_SUMMARY_BUDGET_CHARS);
    assert!(summary.contains("output truncated"));
}

#[test]
fn test_summarize_final_empty() {
    assert_eq!(summarize_final("   "), "Sub-agent returned an empty summary.");
}

#[test]
fn test_record_examined_files_fs_read() {
    let output = ToolOutput {
        value: obj(vec![("ok", Json::Bool(true)), ("result", obj(vec![("path", text("/tmp/a.rs"))]))]),
        is_success: true,
        result_summary: String::new(),
    };
    let mut files = Vec::new();
    record_examined_files("fs_read", &output, &mut files);
    assert_eq!(files, vec!["/tmp/a.rs".to_string()]);
    record_examined_files("fs_read", &output, &mut files);
    assert_eq!(files.len(), 1);
}

#[test]
fn test_record_examined_files_search_results() {
    let row = |p: &str, line: &str| obj(vec![("path", text(p)), ("line", Json::Number(line.to_string())), ("text", text("hit"))]);
    let output = ToolOutput {
        value: obj(vec![("ok", Json::Bool(true)), ("results", Json::Array(vec![row("/tmp/x.rs", "1"), row("/tmp/y.rs", "2")]))]),
        is_success: true,
        result_summary: String::new(),
    };
    let mut files = Vec::new();
    record_examined_files("search_text", &output, &mut files);
    assert_eq!(files, vec!["/tmp/x.rs".to_string(), "/tmp/y.rs".to_string()]);
}

fn obj(fields: Vec<(&str, Json)>) -> Json {
    Json::Object(fields.into_iter().map(|(k, v)| (k.to_string(), v)).collect())
}

fn text(s: &str) -> Json {
    Json::Str(s.to_string())
}

#[test]
fn examined_candidates_read_listed_paths() {
    let files = obj(vec![("files", Json::Array(vec![text("a"), Json::Null, text("b")]))]);
    assert_eq!(examined_candidates("find_file", &files), vec![Some("a".to_string()), None, Some("b".to_string())]);
    assert_eq!(examined_candidates("fs_read", &files), vec![None]);
    assert!(examined_candidates("fs_write", &files).is_empty());
}

#[test]
fn test_tool_call_blocked_message_shape() {
    let payload: serde_json::Value = serde_json::from_str(&subagent_blocked_result("execute_bash")).unwrap();
    assert!(payload["error"].as_str().unwrap().contains("read-only"));
    assert!(payload["error"].as_str().unwrap().contains("'execute_bash'"));
}

#[test]
fn record_examined_files_caps_and_skips() {
    let candidates: Vec<Option<String>> =
        (0..12).map(|i| if i == 1 { None } else { Some(format!("/f{i}")) }).collect();
    let mut files = vec!["/f0".to_string()];
    record_examined_candidates("find_file", &candidates, &mut files);
    assert_eq!(files.len(), 9);
    assert_eq!(files[1], "/f2");
    record_examined_candidates("fs_write", &candidates, &mut files);
    assert_eq!(files.len(), 9);
}

#[test]
fn test_process_tool_calls() {
    assert_eq!(tool_message_content("ok".to_string(), "fs_write", true), format!("ok{}", VERIFY_CHANGES_NOTE));
    assert_eq!(tool_message_content("ok".to_string(), "fs_write", false), "ok");
    assert_eq!(tool_message_content("ok".to_string(), "fs_read", true), "ok");
}

#[test]
fn test_complete_agent_loop() {
    let history = vec![ChatMessage {
        role: "user".to_string(),
        content: Some("hi".to_string()),
        tool_calls: vec![],
        tool_call_id: None,
    }];
    let msg = ChatMessage {
        role: "assistant".to_string(),
        content: Some("done".to_string()),
        tool_calls: vec![ToolCall {
            id: Some("c".to_string()),
            kind: "function".to_string(),
            function: ToolCallFunction { name: "x".to_string(), arguments: "{}".to_string() },
        }],
        tool_call_id: Some("stray".to_string()),
    };
    let (messages, last) = complete_agent_loop(history, msg);
    assert_eq!(messages.len(), 2);
    assert_eq!(messages[1].role, "assistant");
    assert_eq!(messages[1].content.as_deref(), Some("done"));
    assert_eq!(messages[1].tool_calls.len(), 1);
    assert_eq!(messages[1].tool_call_id, None);
    assert_eq!(last.tool_call_id.as_deref(), Some("stray"));
}

#[test]
fn test_truncate_ascii() {
    assert_eq!(truncate_string_with_graphemes("hello world", 5), "he...");
    assert_eq!(truncate_string_with_graphemes("hello", 5), "hello");
    assert_eq!(truncate_string_with_graphemes("hello", 10), "hello");
}

#[test]
fn test_truncate_unicode() {
    assert_eq!(truncate_string_with_graphemes("こんにちは", 4), "...");
    assert_eq!(truncate_string_with_graphemes("こんにちは", 5), "こ...");
}

#[test]
fn test_truncate_emoji() {
    let s = "🦀🚀🔥";
    assert_eq!(truncate_string_with_graphemes(s, 4), "...");
    assert_eq!(truncate_string_with_graphemes(s, 5), "🦀...");
}

#[test]
fn llm_endpoint_normalization() {
    assert_eq!(endpoint("https://api.example.com/v1/"), "https://api.example.com/v1/chat/completions");
    assert_eq!(endpoint("https://api.example.com/"), "https://api.example.com/v1/chat/completions");
}

#[test]
fn client_endpoint_normalization() {
    assert_eq!(endpoint("https://api.example.com/v1/"), "https://api.example.com/v1/chat/completions");
    assert_eq!(endpoint("https://api.example.com/"), "https://api.example.com/v1/chat/completions");
}

#[test]
fn client_core_endpoint_normalization() {
    assert_eq!(endpoint("https://api.example.com/v1/"), "https://api.example.com/v1/chat/completions");
    assert_eq!(endpoint("https://api.example.com/"), "https://api.example.com/v1/chat/completions");
}

#[test]
fn test_build_symbol_doc_prompt() {
    let prompt = build_symbol_doc_prompt("src/main.rs", "main", "Function", "fn main() {}");
    assert!(prompt.contains("src/main.rs"));
    assert!(prompt.contains("Symbol: main"));
    assert!(prompt.contains("Function"));
    assert!(prompt.contains("fn main() {}"));
    assert!(prompt.contains("File: \"src/main.rs\"\n"));
}

#[test]
fn file_doc_prompt_lists_symbols_or_says_none() {
    let sym = DocSymbol {
        kind: "fn".to_string(),
        name: "run".to_string(),
        start_line: 0,
        end_line: 4,
        parent: None,
    };
    let p = build_file_doc_prompt("src/lib.rs", &[sym], "fn run() {}");
    assert!(p.contains("Symbols (subset):\n- [fn] run (1-5), parent: <root>\nFile excerpt (truncated):"));
    let empty = build_file_doc_prompt("src/lib.rs", &[], "x");
    assert!(empty.contains("Symbols (subset):\n(no symbols detected)File excerpt (truncated):"));
}

#[test]
fn snippet_and_code_excerpts() {
    let code = "l0\nl1\nl2\nl3\nl4\nl5\nl6\nl7\nl8";
    assert_eq!(extract_snippet(code, 4, 4, 1), "l3\nl4\nl5");
    assert_eq!(extract_snippet(code, 1, 7, 5), code);
    assert_eq!(truncate_code("abcdef", 10), "abcdef");
    assert_eq!(truncate_code("abcdef", 3), "abc\n...<truncated>...");
}

#[test]
fn test_wait_error_not_treated_as_clean_exit() {
    assert!(matches!(classify_wait_result(Ok(Err("wait failed".to_string()))), WaitDecision::WaitError(_)));
    assert!(matches!(classify_wait_result(Err(())), WaitDecision::TimedOut));
    assert!(matches!(classify_wait_result(Ok(Ok(Some(0)))), WaitDecision::Exited(Some(0))));
}

fn managed_output(termination: ManagedProcessTermination, exit_code: Option<i32>, capture_truncated: bool) -> ManagedProcessOutput {
    ManagedProcessOutput {
        termination,
        exit_code,
        stdout: String::new(),
        stderr: String::new(),
        capture_truncated,
        warnings: Vec::new(),
    }
}

#[test]
fn test_validate_git_output_rejects_timeout_and_truncation() {
    let timeout = managed_output(ManagedProcessTermination::TimedOut, None, false);
    assert!(validate_git_output(false, timeout).is_err());
    let truncated = managed_output(ManagedProcessTermination::Exited, Some(0), true);
    assert!(validate_git_output(false, truncated).is_err());
}

#[test]
fn test_validate_git_output_allows_no_index_difference_exit() {
    let output = managed_output(ManagedProcessTermination::Exited, Some(1), false);
    assert!(validate_git_output(true, output).is_ok());
    let output = managed_output(ManagedProcessTermination::Exited, Some(1), false);
    assert!(validate_git_output(false, output).is_err());
}

#[test]
fn parse_symbol_edit_response_prefers_diff() {
    let raw = "Here is patch:\n```diff\n- old\n+ new\n```";
    let resp = parse_symbol_edit_response(raw).unwrap();
    assert!(resp.patch.is_some());
    assert!(resp.replacement.is_none());
}

#[test]
fn parse_symbol_edit_response_uses_rust_block_as_replacement() {
    let raw = "```rust\nfn foo() {}\n```";
    let resp = parse_symbol_edit_response(raw).unwrap();
    assert!(resp.patch.is_none());
    assert_eq!(resp.replacement.as_deref(), Some("fn foo() {}"));
}

#[test]
fn extract_code_block_works_for_plain_block() {
    let raw = "before```\ncode\n```after";
    let code = extract_code_block(raw, "").unwrap();
    assert_eq!(code, "code");
}

#[test]
fn parse_symbol_edit_response_without_block_is_error() {
    assert!(parse_symbol_edit_response("no code here").is_err());
}

#[test]
fn run_state_counts_requests_and_file_changes() {
    let mut st = AgentRunState::new();
    assert!(st.begin_request(2).is_ok());
    assert!(st.begin_request(2).is_ok());
    assert!(matches!(st.begin_request(2), Err(AgentLoopError::MaxIterations(3))));
    st.record_tool("fs_read", true);
    assert!(!st.wants_diff_review(true, true));
    st.record_tool("edit", false);
    assert!(!st.file_was_written);
    st.record_tool("apply_patch", true);
    assert!(st.wants_diff_review(true, true));
    assert!(!st.wants_diff_review(false, true));
}

#[test]
fn followups_add_warnings_and_hints_in_order() {
    let id = Some("c1".to_string());
    let ms = tool_followups(&id, "{}".to_string(), Some("loop!".to_string()), Some("stalled".to_string()), false, "No such file or directory");
    let roles: Vec<&str> = ms.iter().map(|m| m.role.as_str()).collect();
    assert_eq!(roles, vec!["tool", "system", "user", "user"]);
    assert_eq!(ms[0].tool_call_id.as_deref(), Some("c1"));
    assert!(ms[3].content.as_deref().unwrap().starts_with("Hint: The file was not found."));
    let ok = tool_followups(&id, "{}".to_string(), None, None, true, "No such file");
    assert_eq!(ok.len(), 1);
    let skipped = skipped_tool_message(&id);
    assert_eq!(skipped.content.as_deref(), Some(SKIPPED_TOOL_CONTENT));
}

#[test]
fn tool_errors_become_budgeted_json() {
    assert_eq!(error_tool_output("boom \"x\"", "fs_read"), "{\"error\":\"boom \\\"x\\\"\"}");
    let long = error_tool_output(&"e".repeat(20_000), "edit");
    let parsed: serde_json::Value = serde_json::from_str(&long).unwrap();
    assert!(parsed["error"].as_str().unwrap().contains("truncated"));
    assert_eq!(failure_summary("short"), "short");
    assert_eq!(failure_summary(&"z".repeat(300)).chars().count(), 200);
    assert_eq!(hint_source(Some("e".to_string()), "s".to_string()), "e");
    assert_eq!(hint_source(None, "s".to_string()), "s");
}

#[test]
fn hints_for_lowered_messages_and_string_items() {
    assert!(doge_code::agent::hint_for_lowered("request timeout").unwrap().starts_with("Hint: The operation timed out."));
    assert_eq!(doge_code::agent::hint_for_lowered("REQUEST TIMEOUT"), None);
    assert_eq!(get_error_hint("REQUEST TIMEOUT"), doge_code::agent::hint_for_lowered("request timeout"));
    let items = vec![Some("a".to_string()), None, Some("b".to_string())];
    assert_eq!(doge_code::agent_loop::string_items(items), vec!["a".to_string(), "b".to_string()]);
}

#[test]
fn tools_status_reads_the_error_code_of_a_400() {
    use_classify();
}

fn use_classify() {
    let body = r#"{"error":{"code":"context_length_exceeded","message":"too long"}}"#;
    assert!(matches!(
        doge_code::agent_loop::classify_tools_status(400, "400 Bad Request", body),
        doge_code::agent_loop::ToolsHttpFailure::ContextLengthExceeded
    ));
    match doge_code::agent_loop::classify_tools_status(500, "500 Internal Server Error", body) {
        doge_code::agent_loop::ToolsHttpFailure::Other(m) => assert!(m.starts_with("chat (tools) error: 500")),
        other => panic!("{:?}", other),
    }
    assert!(matches!(
        doge_code::agent_loop::classify_tools_status(400, "400", "not json"),
        doge_code::agent_loop::ToolsHttpFailure::Other(_)
    ));
    assert!(matches!(
        doge_code::agent_loop::classify_tools_status(401, "401", body),
        doge_code::agent_loop::ToolsHttpFailure::Authentication(_)
    ));
}
