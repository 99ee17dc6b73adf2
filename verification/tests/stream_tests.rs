use doge_code::agent_loop::{
    subagent_final_run, subagent_limit_run, subagent_tool_allowed, SubagentProgress, SUBAGENT_LIMIT_SUMMARY,
};
use doge_code::messages::ChatMessage;
use doge_code::stream_tools::{classify_stream_piece, finish_streamed_text, StreamPiece, ToolDeltaBuffer};
use doge_code::wire::{ToolCallDelta, ToolCallFunctionDelta};

#[test]
fn stream_pieces_are_classified() {
    assert_eq!(classify_stream_piece(""), StreamPiece::End);
    assert_eq!(
        classify_stream_piece("__TOOL_CALLS_DELTA__:[{\"index\":0}]"),
        StreamPiece::ToolDeltas("[{\"index\":0}]".to_string())
    );
    assert_eq!(classify_stream_piece("hello"), StreamPiece::Text("hello".to_string()));
}

#[test]
fn stream_deltas_fill_the_buffer() {
    let mut buf = ToolDeltaBuffer::new();
    let d = ToolCallDelta {
        index: None,
        kind: Some("function".to_string()),
        function: Some(ToolCallFunctionDelta { name: "fs_read".to_string(), arguments: "{}".to_string() }),
    };
    assert_eq!(buf.push_stream_delta(&d), 0);
    let call = buf.finalize_sync_call(0).unwrap();
    assert_eq!(call.function.name, "fs_read");
    let bare = ToolCallDelta { index: Some(2), kind: None, function: None };
    assert_eq!(buf.push_stream_delta(&bare), 2);
    assert!(buf.finalize_sync_call(2).is_err());
}

#[test]
fn streamed_text_becomes_the_answer() {
    let history = vec![ChatMessage { role: "user".into(), content: Some("q".into()), tool_calls: vec![], tool_call_id: None }];
    let (msgs, answer) = finish_streamed_text(history.clone(), "a".to_string());
    assert_eq!(msgs.len(), 2);
    assert_eq!(msgs[1].role, "assistant");
    assert_eq!(answer.unwrap().content, "a");
    let (same, none) = finish_streamed_text(history, String::new());
    assert_eq!(same.len(), 1);
    assert!(none.is_none());
}

#[test]
fn subagent_progress_and_reports() {
    let mut p = SubagentProgress::new();
    assert!(!p.begin_iteration(1));
    p.count_tool_call();
    assert!(p.begin_iteration(1));
    let limit = subagent_limit_run(vec!["/a".to_string()], p);
    assert_eq!(limit.summary, SUBAGENT_LIMIT_SUMMARY);
    assert_eq!(limit.iterations, 2);
    assert_eq!(limit.tool_calls, 1);
    let done = subagent_final_run("  found it  ", vec![], p);
    assert_eq!(done.summary, "found it");
    let allowed = vec!["fs_read".to_string(), "search_text".to_string()];
    assert!(subagent_tool_allowed("fs_read", &allowed));
    assert!(!subagent_tool_allowed("execute_bash", &allowed));
}

#[test]
fn finalize_with_reports_argument_errors() {
    let mut buf = ToolDeltaBuffer::new();
    buf.push_delta(0, Some("fs_read"), Some("{\"path\":1"), Some("c1"));
    assert_eq!(buf.finalize_with(0, Some("EOF while parsing".to_string())).unwrap_err(), "invalid tool arguments JSON: EOF while parsing");
    assert_eq!(buf.finalize_with(0, None).unwrap().function.name, "fs_read");
    assert_eq!(buf.finalize_with(3, None).unwrap_err(), "no tool call at index 3");
    assert!(buf.finalize_sync_call(0).unwrap_err().starts_with("invalid tool arguments JSON: "));
}
