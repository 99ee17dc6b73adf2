//! The agent loop as a state machine: from where the loop stands and what
//! just happened (a model reply, a failed request, a compaction, a tool
//! run) to where it stands next and what to do. The requests, compactions
//! and tool runs themselves are the caller's work.
use crate::agent::LlmErrorKind;
use crate::agent_loop::{llm_error_step, LlmErrorStep};
use vstd::prelude::*;

verus! {

/// Where the loop stands.
#[derive(Debug, Clone, Copy, PartialEq, Eq, Structural)]
pub enum LoopPhase {
    /// Not started.
    Idle,
    /// A model request is out.
    AwaitingReply,
    /// The history is being compacted after an exceeded context window.
    Compacting,
    /// The tool calls of a reply are running.
    RunningTools,
    /// The rest of a batch is being answered as skipped.
    SkippingRest,
    /// The run has ended.
    Done,
}

/// What just happened.
#[derive(Debug, Clone, Copy, PartialEq, Eq, Structural)]
pub enum LoopEvent {
    /// The run starts, its history prepared.
    Start,
    /// The model replied with this many tool calls.
    Replied { tool_calls: usize },
    /// The model request failed, with its kind when known.
    RequestFailed(Option<LlmErrorKind>),
    /// The reactive compaction ended; whether it succeeded.
    Compacted(bool),
    /// The next tool call of the batch ran: whether the tool changes files,
    /// whether it succeeded, and whether the loop detector fired after it.
    ToolRan { modifies_files: bool, success: bool, loop_detected: bool },
    /// The rest of the batch was answered as skipped.
    Skipped,
}

/// What to do next.
#[derive(Debug, Clone, Copy, PartialEq, Eq, Structural)]
pub enum LoopAction {
    /// Check for proactive compaction, then ask the model; first tell it
    /// its JSON was invalid when `feedback` is set.
    Request { feedback: bool },
    /// Compact the history, then report whether that worked.
    Compact,
    /// Run tool call `index` of the batch.
    RunTool { index: usize },
    /// Answer tool calls `from..` of the batch as skipped.
    SkipFrom { from: usize },
    /// Record the final answer and end; a file was changed during the run
    /// when `file_was_written` holds.
    Finish { file_was_written: bool },
    /// End with the iteration limit exceeded at request `requests`.
    FailMaxIterations { requests: usize },
    /// End with the failed request's error.
    FailRequest,
    /// The event does not fit where the loop stands; nothing changes.
    Unexpected,
}

/// The loop's state: requests made, the request limit, whether a file was
/// changed, the phase, the size of the running batch, the next call of it,
/// and whether a loop was detected in it.
#[derive(Debug, Clone, Copy, PartialEq, Eq, Structural)]
pub struct LoopState {
    pub iterations: usize,
    pub max_iters: usize,
    pub file_was_written: bool,
    pub phase: LoopPhase,
    pub batch: usize,
    pub next_call: usize,
    pub loop_detected: bool,
}

/// States the loop can be in: never more requests than the limit, which
/// stays below `usize::MAX`, and a running batch's next call inside it.
pub open spec fn state_ok(s: LoopState) -> bool {
    &&& s.max_iters < usize::MAX
    &&& s.iterations <= s.max_iters
    &&& (s.phase == LoopPhase::RunningTools ==> s.next_call < s.batch)
    &&& (s.phase == LoopPhase::SkippingRest ==> s.next_call < s.batch)
}

/// The next request: over the limit the run fails, reporting the request
/// number; otherwise it is counted and made.
pub open spec fn begin_request(s: LoopState, feedback: bool) -> (LoopState, LoopAction) {
    if s.iterations >= s.max_iters {
        (
            LoopState { phase: LoopPhase::Done, ..s },
            LoopAction::FailMaxIterations { requests: (s.iterations + 1) as usize },
        )
    } else {
        (
            LoopState { iterations: (s.iterations + 1) as usize, phase: LoopPhase::AwaitingReply, ..s },
            LoopAction::Request { feedback },
        )
    }
}

/// One step of the loop.
/// - A start makes the first request.
/// - A reply without tool calls ends the run with the final answer; one
///   with tool calls runs them in order.
/// - A failed request compacts the history after an exceeded context
///   window, asks again with feedback after invalid JSON, and otherwise
///   ends the run with the error; a compaction that worked asks again, one
///   that failed ends the run with the request's error.
/// - After each tool run, a successful file change is remembered; once the
///   batch is done the next request follows; once the loop detector has
///   fired, the rest of the batch is skipped before it.
pub open spec fn loop_step(s: LoopState, e: LoopEvent) -> (LoopState, LoopAction) {
    match e {
        LoopEvent::Start => if s.phase == LoopPhase::Idle {
            begin_request(s, false)
        } else {
            (s, LoopAction::Unexpected)
        },
        LoopEvent::Replied { tool_calls } => if s.phase != LoopPhase::AwaitingReply {
            (s, LoopAction::Unexpected)
        } else if tool_calls == 0 {
            (LoopState { phase: LoopPhase::Done, ..s }, LoopAction::Finish { file_was_written: s.file_was_written })
        } else {
            (
                LoopState {
                    phase: LoopPhase::RunningTools,
                    batch: tool_calls,
                    next_call: 0,
                    loop_detected: false,
                    ..s
                },
                LoopAction::RunTool { index: 0 },
            )
        },
        LoopEvent::RequestFailed(kind) => if s.phase != LoopPhase::AwaitingReply {
            (s, LoopAction::Unexpected)
        } else {
            match kind {
                Some(LlmErrorKind::ContextLengthExceeded) => (
                    LoopState { phase: LoopPhase::Compacting, ..s },
                    LoopAction::Compact,
                ),
                Some(LlmErrorKind::Deserialize) => begin_request(s, true),
                _ => (LoopState { phase: LoopPhase::Done, ..s }, LoopAction::FailRequest),
            }
        },
        LoopEvent::Compacted(ok) => if s.phase != LoopPhase::Compacting {
            (s, LoopAction::Unexpected)
        } else if ok {
            begin_request(s, false)
        } else {
            (LoopState { phase: LoopPhase::Done, ..s }, LoopAction::FailRequest)
        },
        LoopEvent::ToolRan { modifies_files, success, loop_detected } => if s.phase
            != LoopPhase::RunningTools || s.next_call >= s.batch {
            (s, LoopAction::Unexpected)
        } else {
            let t = LoopState {
                file_was_written: s.file_was_written || (modifies_files && success),
                loop_detected: s.loop_detected || loop_detected,
                next_call: (s.next_call + 1) as usize,
                ..s
            };
            if t.next_call >= t.batch {
                begin_request(t, false)
            } else if t.loop_detected {
                (LoopState { phase: LoopPhase::SkippingRest, ..t }, LoopAction::SkipFrom { from: t.next_call })
            } else {
                (t, LoopAction::RunTool { index: t.next_call })
            }
        },
        LoopEvent::Skipped => if s.phase != LoopPhase::SkippingRest {
            (s, LoopAction::Unexpected)
        } else {
            begin_request(s, false)
        },
    }
}

/// The agent loop's decisions (see [`loop_step`]).
pub struct AgentLoop {
    state: LoopState,
}

impl AgentLoop {
    /// Where the loop stands.
    pub closed spec fn view_state(&self) -> LoopState {
        self.state
    }

    #[verifier::type_invariant]
    spec fn consistent(&self) -> bool {
        state_ok(self.state)
    }

    /// A loop allowed `max_iters` model requests, not started.
    pub fn new(max_iters: usize) -> (l: Self)
        requires
            max_iters < usize::MAX,
        ensures
            l.view_state() == (LoopState {
                iterations: 0,
                max_iters,
                file_was_written: false,
                phase: LoopPhase::Idle,
                batch: 0,
                next_call: 0,
                loop_detected: false,
            }),
    {
        AgentLoop {
            state: LoopState {
                iterations: 0,
                max_iters,
                file_was_written: false,
                phase: LoopPhase::Idle,
                batch: 0,
                next_call: 0,
                loop_detected: false,
            },
        }
    }

    /// Where the loop stands.
    pub fn state(&self) -> (s: LoopState)
        ensures
            s == self.view_state(),
            state_ok(s),
    {
        proof {
            use_type_invariant(self);
        }
        self.state
    }

    /// Takes one step (see [`loop_step`]).
    pub fn step(&mut self, event: LoopEvent) -> (a: LoopAction)
        ensures
            (final(self).view_state(), a) == loop_step(old(self).view_state(), event),
    {
        proof {
            use_type_invariant(&*self);
        }
        let (next, action) = step_state(self.state, event);
        self.state = next;
        action
    }
}

fn begin(s: LoopState, feedback: bool) -> (r: (LoopState, LoopAction))
    requires
        s.max_iters < usize::MAX,
        s.iterations <= s.max_iters,
    ensures
        r == begin_request(s, feedback),
        state_ok(r.0),
{
    if s.iterations >= s.max_iters {
        (LoopState { phase: LoopPhase::Done, ..s }, LoopAction::FailMaxIterations { requests: s.iterations + 1 })
    } else {
        (
            LoopState { iterations: s.iterations + 1, phase: LoopPhase::AwaitingReply, ..s },
            LoopAction::Request { feedback },
        )
    }
}

fn step_state(s: LoopState, e: LoopEvent) -> (r: (LoopState, LoopAction))
    requires
        state_ok(s),
    ensures
        r == loop_step(s, e),
        state_ok(r.0),
{
    match e {
        LoopEvent::Start => {
            if s.phase == LoopPhase::Idle {
                begin(s, false)
            } else {
                (s, LoopAction::Unexpected)
            }
        },
        LoopEvent::Replied { tool_calls } => {
            if s.phase != LoopPhase::AwaitingReply {
                (s, LoopAction::Unexpected)
            } else if tool_calls == 0 {
                (LoopState { phase: LoopPhase::Done, ..s }, LoopAction::Finish { file_was_written: s.file_was_written })
            } else {
                (
                    LoopState {
                        phase: LoopPhase::RunningTools,
                        batch: tool_calls,
                        next_call: 0,
                        loop_detected: false,
                        ..s
                    },
                    LoopAction::RunTool { index: 0 },
                )
            }
        },
        LoopEvent::RequestFailed(kind) => {
            if s.phase != LoopPhase::AwaitingReply {
                (s, LoopAction::Unexpected)
            } else {
                match llm_error_step(kind) {
                    LlmErrorStep::CompactThenRetry => (LoopState { phase: LoopPhase::Compacting, ..s }, LoopAction::Compact),
                    LlmErrorStep::AskForValidJson => begin(s, true),
                    LlmErrorStep::Fail => (LoopState { phase: LoopPhase::Done, ..s }, LoopAction::FailRequest),
                }
            }
        },
        LoopEvent::Compacted(ok) => {
            if s.phase != LoopPhase::Compacting {
                (s, LoopAction::Unexpected)
            } else if ok {
                begin(s, false)
            } else {
                (LoopState { phase: LoopPhase::Done, ..s }, LoopAction::FailRequest)
            }
        },
        LoopEvent::ToolRan { modifies_files, success, loop_detected } => {
            if s.phase != LoopPhase::RunningTools || s.next_call >= s.batch {
                (s, LoopAction::Unexpected)
            } else {
                let t = LoopState {
                    file_was_written: s.file_was_written || (modifies_files && success),
                    loop_detected: s.loop_detected || loop_detected,
                    next_call: s.next_call + 1,
                    ..s
                };
                if t.next_call >= t.batch {
                    begin(t, false)
                } else if t.loop_detected {
                    (LoopState { phase: LoopPhase::SkippingRest, ..t }, LoopAction::SkipFrom { from: t.next_call })
                } else {
                    (t, LoopAction::RunTool { index: t.next_call })
                }
            }
        },
        LoopEvent::Skipped => {
            if s.phase != LoopPhase::SkippingRest {
                (s, LoopAction::Unexpected)
            } else {
                begin(s, false)
            }
        },
    }
}

} // verus!
