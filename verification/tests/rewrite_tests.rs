use doge_code::messages::{ChatMessage, ToolCall, ToolCallFunction};
use doge_code::json::{json_text, Json};
use doge_code::rewrite::{
    adjust_rewrite_payload, build_rewrite_prompt, collect_tools_called, extract_rewritten_code,
    failed_run_report, format_location_hint, rewrite_report, run_report, wrap_with_snippet_markers, RewriteRun,
    REWRITE_MARKER_END, REWRITE_MARKER_START,
};

#[test]
fn test_extract_rewritten_code_preserves_trailing_newline() {
    let snippet = "fn main() { println(\"hi\"); }";
    let response = format!("{}\n{}\n{}", REWRITE_MARKER_START, snippet, REWRITE_MARKER_END);
    let original = format!("{}\n", snippet);
    let rewritten = extract_rewritten_code(&response, &original).expect("Failed to extract rewritten code");
    assert!(rewritten.ends_with('\n'));
    assert!(rewritten.starts_with("fn main()"));
}

#[test]
fn test_extract_rewritten_code_trims_padding() {
    let snippet = "fn add(a: i32, b: i32) -> i32 { a + b }";
    let response = format!("{}\n\n{}\n\n{}", REWRITE_MARKER_START, snippet, REWRITE_MARKER_END);
    let original = "fn add(a: i32, b: i32) -> i32 { a + b }";
    let rewritten = extract_rewritten_code(&response, original).expect("Failed to extract rewritten code");
    assert_eq!(rewritten, snippet);
}

#[test]
fn test_format_location_hint_relative_path() {
    let root = "/tmp/doge_project";
    let file_path = "/tmp/doge_project/src/lib.rs";
    let hint = format_location_hint(file_path, root);
    let expected = format!("src{}lib.rs", std::path::MAIN_SEPARATOR);
    assert_eq!(hint, expected);
}

#[test]
fn test_format_location_hint_outside_project() {
    let root = "/tmp/doge_project";
    let file_path = "/var/tmp/other.rs";
    let hint = format_location_hint(file_path, root);
    assert_eq!(hint, "other.rs");
}

fn call(id: &str, name: &str) -> ToolCall {
    ToolCall {
        id: Some(id.to_string()),
        kind: "function".to_string(),
        function: ToolCallFunction { name: name.to_string(), arguments: "{}".to_string() },
    }
}

#[test]
fn test_collect_tools_called_preserves_order_and_duplicates() {
    let messages = vec![
        ChatMessage {
            role: "assistant".to_string(),
            content: None,
            tool_calls: vec![call("call-1", "fs_read")],
            tool_call_id: None,
        },
        ChatMessage {
            role: "assistant".to_string(),
            content: None,
            tool_calls: vec![call("call-2", "fs_write"), call("call-3", "fs_read")],
            tool_call_id: None,
        },
        ChatMessage {
            role: "tool".to_string(),
            content: Some("ok".to_string()),
            tool_calls: vec![],
            tool_call_id: Some("call-1".to_string()),
        },
    ];
    assert_eq!(
        collect_tools_called(&messages),
        vec!["fs_read".to_string(), "fs_write".to_string(), "fs_read".to_string()]
    );
}

#[test]
fn snippet_markers_wrap_each_on_its_own_line() {
    assert_eq!(
        wrap_with_snippet_markers("let x = 1;"),
        "<ORIGINAL_SNIPPET>\nlet x = 1;\n</ORIGINAL_SNIPPET>"
    );
}

#[test]
fn rewrite_prompt_names_location_or_buffer() {
    let with_file = build_rewrite_prompt("  rename x  ", "let x = 1;", Some("src/a.rs"));
    assert!(with_file.contains("User request (natural language):\nrename x\n"));
    assert!(with_file.contains("Original snippet (from src/a.rs)"));
    let without = build_rewrite_prompt("rename", "let x = 1;", None);
    assert!(without.contains("Original snippet (from the current buffer)"));
    assert!(without.contains("<ORIGINAL_SNIPPET>\nlet x = 1;\n</ORIGINAL_SNIPPET>"));
}

#[test]
fn extract_rewritten_code_without_markers_is_none() {
    assert_eq!(extract_rewritten_code("no markers here", "x"), None);
}

#[test]
fn adjust_payload_adds_missing_trailing_newline() {
    assert_eq!(adjust_rewrite_payload("\nabc\n", "x\n"), "abc\n");
}

fn report_text(j: &Json) -> String {
    json_text(j)
}

#[test]
fn run_reports_match_the_json_shape() {
    let ok = run_report("done".to_string(), 42, vec!["fs_read".to_string()], 5);
    assert_eq!(
        report_text(&ok),
        r#"{"conversation_length":5,"response":"done","success":true,"tokens_used":42,"tools_called":["fs_read"]}"#
    );
    let failed = failed_run_report("boom".to_string(), 7);
    assert_eq!(report_text(&failed), r#"{"error":"boom","success":false,"tokens_used":7}"#);
}

#[test]
fn rewrite_reports_follow_the_outcome() {
    let snippet = "let x = 1;";
    let file = Some("src/a.rs".to_string());
    let shown = Some("a.rs".to_string());

    let none = rewrite_report(RewriteRun::NoClient, snippet, 99, file.clone(), shown.clone());
    assert_eq!(
        report_text(&none),
        r#"{"error":"OPENAI_API_KEY not set; cannot call LLM.","success":false,"tokens_used":0}"#
    );

    let reply = format!("{}\nlet x = 2;\n{}", REWRITE_MARKER_START, REWRITE_MARKER_END);
    let good = rewrite_report(
        RewriteRun::Finished { raw_response: reply.clone(), tools_called: vec![] },
        snippet,
        3,
        file.clone(),
        shown.clone(),
    );
    let expected = format!(
        r#"{{"display_path":"a.rs","file_path":"src/a.rs","mode":"rewrite","raw_response":{},"rewritten_code":"let x = 2;","success":true,"tokens_used":3,"tools_called":[]}}"#,
        serde_json::to_string(&reply).unwrap()
    );
    assert_eq!(report_text(&good), expected);

    let evil = format!("{}\nrm -rf /\n{}", REWRITE_MARKER_START, REWRITE_MARKER_END);
    let rejected =
        rewrite_report(RewriteRun::Finished { raw_response: evil, tools_called: vec![] }, snippet, 3, None, None);
    assert_eq!(
        report_text(&rejected),
        r#"{"display_path":null,"error":"Security check failed: Rewritten code contains potentially malicious patterns","file_path":null,"success":false,"tokens_used":3}"#
    );

    let unparsed = rewrite_report(
        RewriteRun::Finished { raw_response: "no markers".to_string(), tools_called: vec![] },
        snippet,
        1,
        file.clone(),
        None,
    );
    assert_eq!(
        report_text(&unparsed),
        r#"{"display_path":null,"error":"Failed to parse rewritten code from model response","file_path":"src/a.rs","raw_response":"no markers","success":false,"tokens_used":1}"#
    );

    let timed_out = rewrite_report(RewriteRun::TimedOut("deadline has elapsed".to_string()), snippet, 2, None, None);
    assert!(report_text(&timed_out).contains(r#""error":"Timeout error: deadline has elapsed""#));
    let failed = rewrite_report(RewriteRun::Failed("llm down".to_string()), snippet, 2, None, None);
    assert!(report_text(&failed).contains(r#""error":"llm down""#));
}
