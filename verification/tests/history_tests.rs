use doge_code::compaction::{CompactMetadata, CompactResult, COMPACT_PROMPT};
use doge_code::history::ChatHistory;
use doge_code::messages::{ChatMessage, ToolCall, ToolCallFunction};

fn msg(role: &str, content: Option<&str>) -> ChatMessage {
    ChatMessage { role: role.to_string(), content: content.map(|c| c.to_string()), tool_calls: vec![], tool_call_id: None }
}

#[test]
fn test_compact_prompt_constant() {
    assert!(COMPACT_PROMPT.contains("Summarize the conversation history"));
    assert!(COMPACT_PROMPT.contains("# Goal"));
    assert!(COMPACT_PROMPT.contains("# Key Info"));
}

#[test]
fn test_compact_result_struct() {
    let message = msg("user", Some("test content"));
    let metadata = CompactMetadata { success: true, error_message: None };
    let result = CompactResult { compacted_message: message.clone(), metadata };
    assert_eq!(result.compacted_message.role, "user");
    assert_eq!(result.compacted_message.content, Some("test content".to_string()));
    assert!(result.metadata.success);
}

#[test]
fn test_compact_metadata_struct() {
    let metadata = CompactMetadata { success: false, error_message: Some("test error".to_string()) };
    assert!(!metadata.success);
    assert_eq!(metadata.error_message, Some("test error".to_string()));
}

#[test]
fn trims_by_smart_priority() {
    let mut h = ChatHistory::new(50, Some("sys".into()));
    h.append_system_once();
    let tool_call_msg = ChatMessage {
        role: "assistant".into(),
        content: None,
        tool_calls: vec![ToolCall {
            id: Some("call_1".into()),
            kind: "function".into(),
            function: ToolCallFunction { name: "ls".into(), arguments: "{}".into() },
        }],
        tool_call_id: None,
    };
    let mut messages = h.build_messages();
    messages.push(msg("system", Some("sys")));
    messages.push(msg("user", Some("Do work")));
    messages.push(tool_call_msg);
    messages.push(ChatMessage {
        role: "tool".into(),
        content: Some("A".repeat(200)),
        tool_calls: vec![],
        tool_call_id: Some("call_1".into()),
    });
    messages.push(msg("assistant", Some("ok")));
    messages.push(msg("user", Some("next")));
    h.overwrite_messages(messages);
    let kept = h.build_messages();
    let roles: Vec<&str> = kept.iter().map(|m| m.role.as_str()).collect();
    assert!(roles.contains(&"system"));
    assert!(roles.contains(&"user"));
    assert!(!roles.contains(&"tool"));
}

#[test]
fn keeps_system_first() {
    let mut h = ChatHistory::new(10, Some("sys".into()));
    h.append_system_once();
    h.append_user("12345678".to_string());
    h.append_assistant("abcdefgh".to_string());
    let msgs = h.build_messages();
    assert_eq!(msgs.first().unwrap().role, "system");
}

#[test]
fn estimate_includes_tool_calls() {
    let m = ChatMessage {
        role: "assistant".into(),
        content: Some("Thinking...".into()),
        tool_calls: vec![ToolCall {
            id: Some("123".into()),
            kind: "function".into(),
            function: ToolCallFunction { name: "test_tool".into(), arguments: "{\"key\":\"val\"}".into() },
        }],
        tool_call_id: None,
    };
    let tokens = ChatHistory::estimate_tokens(&m);
    assert!(tokens > 10);
}

#[test]
fn estimate_is_exact_for_text() {
    // "Thinking..." is 11 bytes -> 3, tool name 9 -> 3, arguments 13 -> 4,
    // 10 per call and 3 per message.
    let m = ChatMessage {
        role: "assistant".into(),
        content: Some("Thinking...".into()),
        tool_calls: vec![ToolCall {
            id: Some("123".into()),
            kind: "function".into(),
            function: ToolCallFunction { name: "test_tool".into(), arguments: "{\"key\":\"val\"}".into() },
        }],
        tool_call_id: None,
    };
    assert_eq!(ChatHistory::estimate_tokens(&m), 23);
}

#[test]
fn system_prompt_is_placed_once() {
    let mut h = ChatHistory::new(1000, Some("sys".into()));
    h.append_system_once();
    h.append_system_once();
    h.append_message(msg("system", Some("other")));
    let msgs = h.build_messages();
    assert_eq!(msgs.len(), 1);
    assert_eq!(msgs[0].content.as_deref(), Some("sys"));
    h.clear();
    assert!(h.build_messages().is_empty());
}

#[test]
fn trimming_pins_the_last_three_messages() {
    let mut h = ChatHistory::new(19, Some("s".into()));
    h.overwrite_messages(vec![
        msg("system", Some("s")),
        msg("user", Some("u")),
        msg("tool", Some("t")),
        msg("assistant", Some("a")),
        msg("user", Some("v")),
    ]);
    let contents: Vec<String> = h.build_messages().into_iter().map(|m| m.content.unwrap()).collect();
    assert_eq!(contents, vec!["s", "t", "a", "v"]);
}
