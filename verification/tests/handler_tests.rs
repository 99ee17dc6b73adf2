use doge_code::handlers::{
    doc_generate_output, execute_bash_output, fs_write_output, list_memories_output, read_memory_output,
    remote_tool_output, run_workflow_output, search_history, search_memory_output, search_text_output, str_arg, workflow_name_arg,
    write_memory_output, ToolOutput,
};
use doge_code::json::{json_text, Json};

fn text(o: &ToolOutput) -> String {
    json_text(&o.value)
}

/// The text is what serde_json writes for the same value.
fn assert_canonical(o: &ToolOutput) {
    let t = text(o);
    let v: serde_json::Value = serde_json::from_str(&t).unwrap();
    assert_eq!(serde_json::to_string(&v).unwrap(), t);
}

#[test]
fn bash_output_reports_streams_and_code() {
    let o = execute_bash_output("ls".into(), "a\nb\n".into(), String::new(), Some(0), true);
    assert_eq!(text(&o), r#"{"exit_code":0,"ok":true,"stderr":"","stdout":"a\nb\n","success":true}"#);
    assert!(o.is_success);
    assert_eq!(o.result_summary, "Command 'ls' finished with exit code Some(0)");
    assert_canonical(&o);

    let failed = execute_bash_output("false".into(), String::new(), "err".into(), Some(-2), false);
    assert!(!failed.is_success);
    assert_eq!(
        text(&failed),
        r#"{"exit_code":-2,"ok":true,"stderr":"err","stdout":"","success":false}"#
    );
    let killed = execute_bash_output("sleep".into(), String::new(), String::new(), None, false);
    assert_eq!(killed.result_summary, "Command 'sleep' finished with exit code None");
    assert!(text(&killed).starts_with(r#"{"exit_code":null,"#));
}

#[test]
fn write_output_counts_bytes() {
    let o = fs_write_output("notes.txt".into(), "h\u{e9}llo");
    assert_eq!(text(&o), r#"{"bytesWritten":6,"ok":true,"path":"notes.txt"}"#);
    assert_eq!(o.result_summary, "Wrote 6 bytes to notes.txt");
    assert!(o.is_success);
    assert_canonical(&o);
}

#[test]
fn search_output_lists_rows_and_meta() {
    let rows = vec![("src/a.rs".to_string(), 3usize, "fn main() {".to_string())];
    let o = search_text_output("main".into(), rows, 0, 50, false, None, vec![]);
    assert_eq!(
        text(&o),
        r#"{"meta":{"max_results":50,"next_offset":null,"offset":0,"returned":1,"truncated":false},"ok":true,"results":[{"line":3,"path":"src/a.rs","text":"fn main() {"}],"warnings":[]}"#
    );
    assert_eq!(o.result_summary, "Found 1 matches for 'main'");
    assert_canonical(&o);

    let rows = vec![("a".to_string(), 1usize, "x".to_string()), ("b".to_string(), 2usize, "y".to_string())];
    let o = search_text_output("x|y".into(), rows, 10, 2, true, Some(12), vec!["slow".to_string()]);
    assert_eq!(o.result_summary, "Found matches for 'x|y': returned 2 (truncated, next_offset=Some(12))");
    assert!(text(&o).contains(r#""next_offset":12"#));
    assert!(text(&o).ends_with(r#""warnings":["slow"]}"#));
    assert_canonical(&o);
}

#[test]
fn text_outputs_wrap_their_text() {
    let o = read_memory_output("k".into(), "v".into());
    assert_eq!(text(&o), r#"{"content":"v"}"#);
    assert_eq!(o.result_summary, "Read memory 'k'");
    let o = write_memory_output("k".into(), "saved".into());
    assert_eq!(text(&o), r#"{"message":"saved"}"#);
    assert_eq!(o.result_summary, "Wrote memory 'k'");
    let o = list_memories_output("none".into());
    assert_eq!(text(&o), r#"{"result":"none"}"#);
    assert_eq!(o.result_summary, "Listed memories");
    let o = search_memory_output("hit".into());
    assert_eq!(text(&o), r#"{"result":"hit"}"#);
    assert_eq!(o.result_summary, "Searched memories");
    let o = run_workflow_output("ci".into(), "done".into());
    assert_eq!(text(&o), r#"{"result":"done"}"#);
    assert_eq!(o.result_summary, "Ran workflow 'ci'");
    let o = doc_generate_output("src/lib.rs".into(), "/// doc".into());
    assert_eq!(text(&o), r#"{"doc":"/// doc","ok":true}"#);
    assert_eq!(o.result_summary, "Generated docs for src/lib.rs");
}

#[test]
fn search_history_is_disabled() {
    let o = search_history(r#"{"query":"anything","limit":3}"#);
    assert_eq!(text(&o), r#"{"result":"Search history is disabled (RAG functionality removed)"}"#);
    assert!(o.is_success);
    assert_eq!(o.result_summary, "Search history disabled");
}

#[test]
fn arguments_are_read_by_name() {
    assert_eq!(str_arg(r#"{"command":"ls -la"}"#, "command"), "ls -la");
    assert_eq!(str_arg(r#"{"command":5}"#, "command"), "");
    assert_eq!(str_arg("not json", "command"), "");
    assert_eq!(workflow_name_arg(r#"{"workflow_name":"ci"}"#), Ok("ci".to_string()));
    assert_eq!(workflow_name_arg("{}"), Err("workflow_name is required".to_string()));
}

#[test]
fn test_execute_bash_failure_flag() {
    let output = execute_bash_output("exit 1".into(), String::new(), String::new(), Some(1), false);
    assert!(!output.is_success, "execute_bash(exit 1) should be marked as failure");
    assert!(text(&output).contains(r#""exit_code":1"#));
}

#[test]
fn test_execute_bash_success_flag() {
    let output = execute_bash_output("echo hello".into(), "hello\n".into(), String::new(), Some(0), true);
    assert!(output.is_success, "execute_bash(echo hello) should be marked as success");
    assert!(text(&output).contains(r#""stdout":"hello\n""#));
}

#[test]
fn remote_results_are_passed_through() {
    let result = Json::Object(vec![("content".to_string(), Json::Array(vec![Json::Str("hi".to_string())]))]);
    let o = remote_tool_output(result);
    assert!(o.is_success);
    assert_eq!(text(&o), r#"{"content":["hi"]}"#);
    assert_eq!(o.result_summary, r#"Remote tool result: {"content":["hi"]}"#);
}
