use doge_code::agent::LlmErrorKind;
use doge_code::auto_fix::{AutoFixer, FixLoopAction};
use doge_code::client::{chat_attempt_action, AttemptAction, AttemptOutcome};
use doge_code::diff_review::untracked_paths;
use doge_code::stream_tools::ToolDeltaBuffer;
use doge_code::workflow::parse_steps;

#[test]
fn retries_only_transient_failures_before_the_last_attempt() {
    assert_eq!(
        chat_attempt_action(1, 3, AttemptOutcome::HttpFailed { kind: LlmErrorKind::Server, retry_after: Some(2) }),
        AttemptAction::Retry { retry_after: Some(2) }
    );
    assert_eq!(
        chat_attempt_action(3, 3, AttemptOutcome::HttpFailed { kind: LlmErrorKind::Server, retry_after: None }),
        AttemptAction::Fail
    );
    assert_eq!(
        chat_attempt_action(1, 3, AttemptOutcome::HttpFailed { kind: LlmErrorKind::Client, retry_after: None }),
        AttemptAction::Fail
    );
    assert_eq!(chat_attempt_action(1, 3, AttemptOutcome::SendFailed(LlmErrorKind::Unknown)), AttemptAction::RetryNow);
    assert_eq!(chat_attempt_action(2, 3, AttemptOutcome::Parsed { has_choice: true }), AttemptAction::Succeed);
    assert_eq!(chat_attempt_action(2, 3, AttemptOutcome::Parsed { has_choice: false }), AttemptAction::Fail);
}

#[test]
fn fix_loop_requests_at_most_its_budget() {
    let mut fixer = AutoFixer::new((), 2);
    assert_eq!(fixer.after_check(false), FixLoopAction::RequestFix { iteration: 1 });
    assert_eq!(fixer.after_check(false), FixLoopAction::RequestFix { iteration: 2 });
    assert_eq!(fixer.after_check(false), FixLoopAction::Finish { iterations: 2, success: false });
    assert_eq!(fixer.after_check(false), FixLoopAction::Finish { iterations: 2, success: false });
    let mut quick = AutoFixer::new((), 5);
    assert_eq!(quick.after_check(true), FixLoopAction::Finish { iterations: 0, success: true });
}

#[test]
fn untracked_review_stays_within_the_filter() {
    let status = "?? src/new.rs\n?? notes.txt\n?? build/\n M src/lib.rs\n";
    let filter = vec!["src/new.rs".to_string()];
    assert_eq!(untracked_paths(status, &filter), vec!["src/new.rs".to_string()]);
    assert_eq!(untracked_paths(status, &vec![]), vec!["src/new.rs".to_string(), "notes.txt".to_string()]);
}

#[test]
fn streamed_fragments_reassemble_in_order() {
    let mut buf = ToolDeltaBuffer::new();
    buf.push_delta(0, Some("fs_"), Some("{\"pa"), Some("call_a"));
    buf.push_delta(1, Some("edit"), Some("{}"), Some("call_b"));
    buf.push_delta(0, Some("read"), Some("th\":\"x\"}"), Some("ignored"));
    let first = buf.finalize_sync_call(0).unwrap();
    assert_eq!(first.function.name, "fs_read");
    assert_eq!(first.function.arguments, "{\"path\":\"x\"}");
    assert_eq!(first.id.as_deref(), Some("call_a"));
    assert_eq!(first.kind, "function");
    let second = buf.finalize_sync_call(1).unwrap();
    assert_eq!(second.function.name, "edit");
    assert!(buf.finalize_sync_call(2).is_err());
    let mut bad = ToolDeltaBuffer::new();
    bad.push_delta(0, Some("x"), Some("{not json"), None);
    assert!(bad.finalize_sync_call(0).unwrap_err().starts_with("invalid tool arguments JSON: "));
}

#[test]
fn workflow_steps_are_nonempty_instructions() {
    let body = "# Title\n\n- Build the project\n1. Run the tests\n2. \n  plain step  \n#comment\n- \n";
    let steps = parse_steps(body);
    assert_eq!(
        steps,
        vec![
            "Build the project".to_string(),
            "Run the tests".to_string(),
            "2.".to_string(),
            "plain step".to_string(),
            "-".to_string()
        ]
    );
    assert!(steps.iter().all(|s| !s.is_empty()));
}
