use doge_code::agent::LlmErrorKind;
use doge_code::loop_machine::{AgentLoop, LoopAction, LoopEvent, LoopPhase};

#[test]
fn a_reply_without_tool_calls_finishes() {
    let mut l = AgentLoop::new(5);
    assert_eq!(l.step(LoopEvent::Start), LoopAction::Request { feedback: false });
    assert_eq!(l.step(LoopEvent::Replied { tool_calls: 0 }), LoopAction::Finish { file_was_written: false });
    assert_eq!(l.state().phase, LoopPhase::Done);
}

#[test]
fn tool_batches_run_in_order_and_remember_writes() {
    let mut l = AgentLoop::new(5);
    l.step(LoopEvent::Start);
    assert_eq!(l.step(LoopEvent::Replied { tool_calls: 2 }), LoopAction::RunTool { index: 0 });
    let ran = |m, s, d| LoopEvent::ToolRan { modifies_files: m, success: s, loop_detected: d };
    assert_eq!(l.step(ran(true, true, false)), LoopAction::RunTool { index: 1 });
    assert_eq!(l.step(ran(false, true, false)), LoopAction::Request { feedback: false });
    assert_eq!(l.state().iterations, 2);
    assert_eq!(l.step(LoopEvent::Replied { tool_calls: 0 }), LoopAction::Finish { file_was_written: true });
}

#[test]
fn a_detected_loop_skips_the_rest_of_the_batch() {
    let mut l = AgentLoop::new(5);
    l.step(LoopEvent::Start);
    l.step(LoopEvent::Replied { tool_calls: 3 });
    let ev = LoopEvent::ToolRan { modifies_files: false, success: true, loop_detected: true };
    assert_eq!(l.step(ev), LoopAction::SkipFrom { from: 1 });
    assert_eq!(l.step(LoopEvent::Skipped), LoopAction::Request { feedback: false });
}

#[test]
fn failed_requests_compact_ask_again_or_fail() {
    let mut l = AgentLoop::new(2);
    l.step(LoopEvent::Start);
    assert_eq!(l.step(LoopEvent::RequestFailed(Some(LlmErrorKind::ContextLengthExceeded))), LoopAction::Compact);
    assert_eq!(l.step(LoopEvent::Compacted(true)), LoopAction::Request { feedback: false });
    assert_eq!(
        l.step(LoopEvent::RequestFailed(Some(LlmErrorKind::Deserialize))),
        LoopAction::FailMaxIterations { requests: 3 }
    );
    let mut m = AgentLoop::new(3);
    m.step(LoopEvent::Start);
    assert_eq!(m.step(LoopEvent::RequestFailed(Some(LlmErrorKind::Deserialize))), LoopAction::Request { feedback: true });
    assert_eq!(m.step(LoopEvent::RequestFailed(Some(LlmErrorKind::ContextLengthExceeded))), LoopAction::Compact);
    assert_eq!(m.step(LoopEvent::Compacted(false)), LoopAction::FailRequest);
    assert_eq!(m.step(LoopEvent::Start), LoopAction::Unexpected);
}
