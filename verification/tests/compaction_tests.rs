use doge_code::compaction::{compact_result, compaction_request, COMPACT_PROMPT, EMPTY_SUMMARY_ERROR};
use doge_code::compaction::{should_compact, HistoryManager};
use doge_code::config::AppConfig;
use doge_code::messages::{ChatMessage, ToolCall, ToolCallFunction};

fn create_dummy_messages(count: usize) -> Vec<ChatMessage> {
    (0..count)
        .map(|i| ChatMessage {
            role: if i % 2 == 0 { "user".into() } else { "assistant".into() },
            content: Some(format!("msg {}", i)),
            tool_calls: vec![],
            tool_call_id: None,
        })
        .collect()
}

fn make_msg(role: &str, content: &str) -> ChatMessage {
    ChatMessage { role: role.to_string(), content: Some(content.to_string()), tool_calls: vec![], tool_call_id: None }
}

fn make_tool_msg(tool_call_id: &str, content: &str) -> ChatMessage {
    ChatMessage {
        role: "tool".to_string(),
        content: Some(content.to_string()),
        tool_calls: vec![],
        tool_call_id: Some(tool_call_id.to_string()),
    }
}

fn make_assistant_with_tool_calls(call_id: &str, content: &str) -> ChatMessage {
    ChatMessage {
        role: "assistant".to_string(),
        content: Some(content.to_string()),
        tool_calls: vec![ToolCall {
            id: Some(call_id.to_string()),
            kind: "function".to_string(),
            function: ToolCallFunction { name: "fs_read".to_string(), arguments: "{}".to_string() },
        }],
        tool_call_id: None,
    }
}

#[test]
fn test_should_compact() {
    let mut cfg = AppConfig::default();
    cfg.auto_compact_prompt_token_threshold = 1000;
    cfg.model = "gpt-4".to_string();
    let messages = create_dummy_messages(3);
    assert!(should_compact(1001, &cfg, &messages));
    assert!(!should_compact(1000, &cfg, &messages));
}

#[test]
fn test_should_not_compact_not_enough_messages() {
    let mut cfg = AppConfig::default();
    cfg.auto_compact_prompt_token_threshold = 1000;
    let messages = create_dummy_messages(2);
    assert!(!should_compact(2000, &cfg, &messages));
}

#[test]
fn test_should_compact_safety_limit() {
    let mut cfg = AppConfig::default();
    cfg.auto_compact_prompt_token_threshold = 100_000;
    cfg.model = "gpt-4".to_string();
    let messages = create_dummy_messages(10);
    assert!(!should_compact(7000, &cfg, &messages));
    assert!(should_compact(7400, &cfg, &messages));
}

#[test]
fn test_merge_compacted_history_keeps_system_summary_and_tail() {
    let original = vec![
        make_msg("system", "System Prompt"),
        make_msg("user", "User 1"),
        make_msg("assistant", "Assistant 1"),
        make_msg("system", "Loop Warning"),
        make_msg("user", "User 2"),
    ];
    let compacted = make_msg("user", "Summary");
    let result = HistoryManager::merge_compacted_history(&original, compacted);
    assert_eq!(result.len(), 6);
    assert_eq!(result[0].role, "system");
    assert_eq!(result[0].content.as_deref(), Some("System Prompt"));
    assert_eq!(result[1].role, "system");
    assert_eq!(result[1].content.as_deref(), Some("Loop Warning"));
    assert_eq!(result[2].role, "user");
    assert_eq!(result[2].content.as_deref(), Some("Summary"));
    assert_eq!(result[3].content.as_deref(), Some("User 1"));
    assert_eq!(result[4].content.as_deref(), Some("Assistant 1"));
    assert_eq!(result[5].content.as_deref(), Some("User 2"));
}

#[test]
fn test_merge_compacted_history_no_system_messages() {
    let original = vec![make_msg("user", "User 1"), make_msg("assistant", "Assistant 1")];
    let compacted = make_msg("user", "Summary");
    let result = HistoryManager::merge_compacted_history(&original, compacted);
    assert_eq!(result.len(), 3);
    assert_eq!(result[0].content.as_deref(), Some("Summary"));
    assert_eq!(result[1].content.as_deref(), Some("User 1"));
}

#[test]
fn test_merge_compacted_history_keeps_tool_call_pairs_intact() {
    let original = vec![
        make_msg("system", "System Prompt"),
        make_msg("user", "Task"),
        make_assistant_with_tool_calls("call_1", "reading file"),
        make_tool_msg("call_1", "{\"content\": \"file body\"}"),
        make_msg("assistant", "done"),
    ];
    let compacted = make_msg("user", "Summary");
    let result = HistoryManager::merge_compacted_history(&original, compacted);
    assert_eq!(result.len(), 6);
    assert_eq!(result[2].role, "user");
    assert_eq!(result[3].role, "assistant");
    assert_eq!(result[4].role, "tool");
    assert_eq!(result[4].tool_call_id.as_deref(), Some("call_1"));
    assert_eq!(result[5].role, "assistant");
}

#[test]
fn test_merge_compacted_history_dedupes_repeated_system_warnings() {
    let original: Vec<ChatMessage> = vec![
        make_msg("system", "System Prompt"),
        make_msg("system", "WARNING: stalled progress"),
        make_msg("user", "u1"),
        make_msg("system", "WARNING: stalled progress"),
        make_msg("system", "WARNING: stalled progress"),
    ];
    let compacted = make_msg("user", "Summary");
    let result = HistoryManager::merge_compacted_history(&original, compacted);
    let system_texts: Vec<_> =
        result.iter().filter(|m| m.role == "system").map(|m| m.content.clone().unwrap_or_default()).collect();
    assert_eq!(system_texts.len(), 2, "dedupe repeated warnings: {system_texts:?}");
}

#[test]
fn test_merge_compacted_history_tail_respects_budget() {
    let big = "x".repeat(8_500);
    let original = vec![
        make_msg("system", "System Prompt"),
        make_msg("user", "old task"),
        make_msg("assistant", big.as_str()),
        make_msg("assistant", "middle"),
        make_msg("user", "recent question"),
    ];
    let compacted = make_msg("user", "Summary");
    let result = HistoryManager::merge_compacted_history(&original, compacted);
    let contents: Vec<_> = result.iter().map(|m| m.content.clone().unwrap_or_default()).collect();
    assert!(contents.contains(&"recent question".to_string()));
    assert!(contents.contains(&"middle".to_string()));
    assert!(!contents.contains(&big));
    assert!(!contents.contains(&"old task".to_string()));
}

#[test]
fn test_prune_system_messages_caps_count_and_keeps_first() {
    let original: Vec<ChatMessage> =
        (0..20).map(|i| make_msg("system", &format!("unique-warning-{i} with enough text here!!"))).collect();
    let pruned = HistoryManager::prune_system_messages(&original, 8, 4_000);
    assert_eq!(pruned.len(), 8);
    assert_eq!(pruned[0].content, original[0].content);
}

#[test]
fn test_clear_stale_tool_results_clears_old_but_keeps_recent() {
    let mut messages = vec![
        make_msg("system", "System Prompt"),
        make_msg("user", "task"),
        make_tool_msg("c1", "old result 1"),
        make_tool_msg("c2", "old result 2"),
        make_tool_msg("c3", "old result 3"),
        make_tool_msg("c4", "recent result 4"),
        make_tool_msg("c5", "recent result 5"),
    ];
    let cleared = HistoryManager::clear_stale_tool_results(&mut messages, 800, 1_000, 60, 2);
    assert_eq!(cleared, 3);
    assert!(messages[2].content.as_deref().unwrap().starts_with("[cleared tool result"), "old results cleared");
    assert_eq!(messages[5].content.as_deref(), Some("recent result 4"));
    assert_eq!(messages[6].content.as_deref(), Some("recent result 5"));
}

#[test]
fn test_clear_stale_tool_results_skips_below_threshold() {
    let mut messages = vec![
        make_tool_msg("c1", "result"),
        make_tool_msg("c2", "result"),
        make_tool_msg("c3", "result"),
        make_tool_msg("c4", "result"),
    ];
    let cleared = HistoryManager::clear_stale_tool_results(&mut messages, 100, 1_000, 60, 2);
    assert_eq!(cleared, 0);
    assert_eq!(messages[0].content.as_deref(), Some("result"));
}

#[test]
fn test_clear_stale_tool_results_idempotent() {
    let mut messages = vec![
        make_tool_msg("c1", "old"),
        make_tool_msg("c2", "old"),
        make_tool_msg("c3", "old"),
        make_tool_msg("c4", "recent"),
    ];
    let first = HistoryManager::clear_stale_tool_results(&mut messages, 900, 1_000, 60, 1);
    let second = HistoryManager::clear_stale_tool_results(&mut messages, 900, 1_000, 60, 1);
    assert_eq!(first, 3);
    assert_eq!(second, 0, "already-cleared messages are not double-counted");
}

#[test]
fn long_system_messages_are_capped() {
    let long = "s".repeat(5_000);
    let pruned = HistoryManager::prune_system_messages(&[make_msg("system", &long)], 8, 4_000);
    assert_eq!(pruned.len(), 1);
    let c = pruned[0].content.clone().unwrap();
    assert!(c.ends_with("\n[system message truncated]"));
    assert_eq!(c.chars().count(), 4_000 + "\n[system message truncated]".len());
}

#[test]
fn history_manager_keeps_and_replaces_messages() {
    let mut h = HistoryManager::new(create_dummy_messages(4), AppConfig::default());
    assert_eq!(h.len(), 4);
    assert!(!h.is_empty());
    h.push(make_msg("user", "last"));
    assert_eq!(h.last().unwrap().content.as_deref(), Some("last"));
    h.clear();
    assert!(h.is_empty());
}

#[test]
fn compaction_request_puts_the_prompt_first() {
    let msgs = compaction_request(create_dummy_messages(2));
    assert_eq!(msgs.len(), 3);
    assert_eq!(msgs[0].role, "system");
    assert_eq!(msgs[0].content.as_deref(), Some(COMPACT_PROMPT));
    assert_eq!(msgs[2].content.as_deref(), Some("msg 1"));
}

#[test]
fn compact_result_from_reply() {
    let ok = compact_result(Ok("# Goal\nx".to_string()));
    assert!(ok.metadata.success);
    assert_eq!(ok.compacted_message.role, "user");
    assert_eq!(ok.compacted_message.content.as_deref(), Some("# Goal\nx"));
    let empty = compact_result(Ok(String::new()));
    assert!(!empty.metadata.success);
    assert_eq!(empty.metadata.error_message.as_deref(), Some(EMPTY_SUMMARY_ERROR));
    let err = compact_result(Err("timeout".to_string()));
    assert_eq!(err.metadata.error_message.as_deref(), Some("Failed to compact conversation: timeout"));
    assert_eq!(err.compacted_message.content.as_deref(), Some(""));
}

#[test]
fn model_window_is_known_for_gpt4_only() {
    let mut cfg = AppConfig::default();
    cfg.model = "gpt-4".to_string();
    assert_eq!(cfg.get_context_window_size(), Some(8192));
    assert_eq!(cfg.get_effective_compaction_limit(), 7372);
    cfg.context_window_size = Some(200_000);
    assert_eq!(cfg.get_context_window_size(), Some(200_000));
    cfg.context_window_size = None;
    cfg.model = "some-other-model".to_string();
    assert_eq!(cfg.get_context_window_size(), None);
    assert_eq!(cfg.get_effective_compaction_limit(), 100_000);
}
