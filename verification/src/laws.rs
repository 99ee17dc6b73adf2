//! Properties of the library as a whole, stated over the specifications
//! the functions' contracts use, and proved.
use crate::config::{AppConfig, ExecutionMode};
use crate::paths::{find_fact, is_absolute, PathFact};
use crate::policy::{
    disallowed_keys, effective_mode_spec, effective_timeout_spec, env_denial, env_keys,
    cwd_denial, has_shell_syntax, legacy_allows_command, legacy_fallback, opt_view, resolve_cwd_spec,
    under_some_root, legacy_shell_gate, process_denial, program_denial,
    program_in_allowlist, program_syntax_error, shell_denial, simple_command, str_views,
    DenialView, ProcessRequest, ShellGateView,
};
use crate::agent::retryable;
use crate::auto_fix::{next_action, FixLoopAction};
use crate::client::{
    attempt_action_spec, choice_events, chunk_events_spec, classify_spec, stopped, AttemptAction, AttemptOutcome,
    ChunkEventView, ErrorFacts,
};
use crate::agent::LlmErrorKind;
use crate::wire::StreamChoice;
use crate::compaction::{
    first_system_from, summary_history,
    cleared, cleared_text, clears, flatten, group_bytes, group_msgs, is_tool_result, non_system,
    opens_group, prune_state, pruned, tail_spec, tail_start, tool_results_before, MAX_TAIL_GROUPS,
};
use crate::diff_review::{diff_sections, in_filter, payload_spec, untracked_files_spec};
use crate::policy::join_with;
use crate::text::{contains_seq, matches_at};
use crate::stream_tools::{apply_delta, empty_call, padded};
use crate::text::starts_with;
use crate::tool_defs::{allowed_defs, ToolDefView};
use crate::loop_machine::{loop_step, state_ok, LoopAction, LoopEvent, LoopPhase, LoopState};
use crate::json::{escape_char, escaped, fields_text, quoted, text_of, JsonView};
use crate::message_utils::budgeted;
use crate::message_utils::{
    envelope, fallback_text, is_read_tool, model_output, truncation_note_spec, DEFAULT_MAX_LEN, READ_MAX_LEN,
};
use crate::text::{decimal, fit_chars, lemma_decimal_len, pow10};
use crate::testing::{
    all_test_files, combined, dedup, first_token, group, or_empty, or_unknown, parse_output_spec, pytest_failures,
    pytest_scan, regex_captures, test_files, FailedTestView, RE_PYTEST_FAIL,
};
use crate::text::lines_spec;
use crate::lifecycle::{grace_step_spec, kill_wait_error_spec, termination_result_spec, ChildPoll, KillWait};
use crate::workflow::steps_of;
use crate::budget::{head_spec, head_tail_spec, middle_marker, DEFAULT_TOOL_BUDGET_CHARS};
use crate::history::{evict_index, lemma_evict_index, total_tokens, trimmed};
use crate::messages::MessageView;
use crate::output::{budget_command_output_spec, trim_warning};
use vstd::prelude::*;
use vstd::string::*;

verus! {

// ---------------------------------------------------------------------------
// Execution policy
// ---------------------------------------------------------------------------
/// In deny mode (with `[execution]` authoritative) every structured process
/// request and every shell command is denied, whatever it holds.
pub proof fn law_deny_mode_denies_everything(c: AppConfig, facts: Seq<PathFact>, req: ProcessRequest, command: Seq<char>)
    requires
        !legacy_fallback(c),
        c.execution.mode == ExecutionMode::Deny,
    ensures
        process_denial(c, facts, req) == Some(DenialView::GlobalDeny),
        shell_denial(c) == Some(DenialView::GlobalDeny),
        legacy_shell_gate(c, command) == ShellGateView::Denied(DenialView::GlobalDeny),
{
}

/// Configuring `[execution]` disables the legacy `allowed_commands`
/// fallback: the configured mode is the one applied.
pub proof fn law_execution_config_is_authoritative(c: AppConfig)
    requires
        c.execution_configured,
    ensures
        !legacy_fallback(c),
        effective_mode_spec(c) == c.execution.mode,
{
}

/// In allowlist mode a request that passes has a well-formed program name
/// that an allowlist rule admits; a relative program name passes only when
/// a rule is exactly that name (`./cargo` is not `cargo`).
pub proof fn law_allowlist_matches_exactly(c: AppConfig, facts: Seq<PathFact>, req: ProcessRequest)
    requires
        !legacy_fallback(c),
        c.execution.mode == ExecutionMode::Allowlist,
        process_denial(c, facts, req).is_none(),
    ensures
        program_syntax_error(req.program@).is_none(),
        program_in_allowlist(facts, c.execution.allowed_programs@, req.program@),
        !is_absolute(req.program@) ==> exists|i: int|
            0 <= i < c.execution.allowed_programs@.len() && #[trigger] c.execution.allowed_programs@[i]@
                == req.program@,
{
    assert(program_denial(c, facts, req.program@).is_none());
    if !is_absolute(req.program@) {
        let i = choose|i: int|
            0 <= i < c.execution.allowed_programs@.len() && crate::policy::rule_allows(
                facts,
                #[trigger] c.execution.allowed_programs@[i]@,
                req.program@,
            );
        assert(c.execution.allowed_programs@[i]@ == req.program@);
    }
}

proof fn lemma_no_disallowed_keys(keys: Seq<Seq<char>>, allowed: Seq<Seq<char>>)
    requires
        disallowed_keys(keys, allowed).len() == 0,
    ensures
        forall|i: int| 0 <= i < keys.len() ==> allowed.contains(#[trigger] keys[i]),
    decreases keys.len(),
{
    if keys.len() > 0 {
        if !allowed.contains(keys.last()) {
            assert(disallowed_keys(keys, allowed).len() > 0);
        }
        lemma_no_disallowed_keys(keys.drop_last(), allowed);
        assert forall|i: int| 0 <= i < keys.len() implies allowed.contains(#[trigger] keys[i]) by {
            if i < keys.len() - 1 {
                assert(keys[i] == keys.drop_last()[i]);
            }
        }
    }
}

/// Where the allowlist applies (allowlist mode or the legacy list), a
/// request that passes overrides only keys listed in `allowed_env`.
pub proof fn law_env_overrides_allowlisted(c: AppConfig, facts: Seq<PathFact>, req: ProcessRequest)
    requires
        legacy_fallback(c) || c.execution.mode == ExecutionMode::Allowlist,
        process_denial(c, facts, req).is_none(),
    ensures
        forall|i: int|
            0 <= i < req.env@.len() ==> str_views(c.execution.allowed_env@).contains(
                #[trigger] req.env@[i].0@,
            ),
{
    assert(env_denial(c, req.env@).is_none());
    let keys = env_keys(req.env@);
    if req.env@.len() > 0 {
        lemma_no_disallowed_keys(keys, str_views(c.execution.allowed_env@));
        assert forall|i: int| 0 <= i < req.env@.len() implies str_views(c.execution.allowed_env@).contains(
            #[trigger] req.env@[i].0@,
        ) by {
            assert(keys[i] == req.env@[i].0@);
        }
    }
}

/// A requested timeout can only shrink the run: with a configured limit
/// the effective timeout is the smaller of a non-zero request and the
/// limit, and never more than the limit.
pub proof fn law_timeout_only_shrinks(configured: u64, request: Option<u64>)
    requires
        configured > 0,
    ensures
        effective_timeout_spec(configured, request) is Some,
        effective_timeout_spec(configured, request)->0 <= configured,
        match request {
            Some(r) => r > 0 ==> effective_timeout_spec(configured, request)->0 == (if r < configured {
                r
            } else {
                configured
            }),
            None => effective_timeout_spec(configured, request)->0 == configured,
        },
{
}

/// With `allow_shell = false` (and `[execution]` authoritative) every shell
/// command is denied.
pub proof fn law_shell_disabled_denies_shell(c: AppConfig, command: Seq<char>)
    requires
        !legacy_fallback(c),
        !c.execution.allow_shell,
    ensures
        shell_denial(c).is_some(),
        legacy_shell_gate(c, command) is Denied,
{
}

/// Under the legacy `allowed_commands` list a command with shell operators
/// or expansions is always denied, and one that passes runs shell-free as
/// the simple command it parses to.
pub proof fn law_legacy_rejects_shell_syntax(c: AppConfig, command: Seq<char>)
    requires
        legacy_fallback(c),
    ensures
        has_shell_syntax(command) ==> legacy_shell_gate(c, command) is Denied,
        !(legacy_shell_gate(c, command) is Shell),
        legacy_shell_gate(c, command) is FastPath ==> !has_shell_syntax(command) && simple_command(
            command,
        ) == Some((legacy_shell_gate(c, command)->FastPath_0, legacy_shell_gate(c, command)->FastPath_1))
            && legacy_allows_command(
            c,
            legacy_shell_gate(c, command)->FastPath_0,
            legacy_shell_gate(c, command)->FastPath_1,
        ),
{
}

/// A request that passes runs in a real directory whose canonical form
/// lies under the project root or one of `allowed_paths`.
pub proof fn law_cwd_within_roots(c: AppConfig, facts: Seq<PathFact>, req: ProcessRequest)
    requires
        process_denial(c, facts, req).is_none(),
    ensures
        ({
            let resolved = resolve_cwd_spec(c.project_root@, opt_view(req.cwd));
            &&& find_fact(facts, resolved) is Some
            &&& find_fact(facts, resolved)->0.exists
            &&& find_fact(facts, resolved)->0.is_dir
            &&& find_fact(facts, resolved)->0.canonical is Some
            &&& under_some_root(c, facts, find_fact(facts, resolved)->0.canonical->0@)
        }),
{
    assert(cwd_denial(c, facts, opt_view(req.cwd)).is_none());
}

// ---------------------------------------------------------------------------
// Conversation history
// ---------------------------------------------------------------------------
/// Trimming stops only when the estimate fits the limit or a single
/// message is left, never grows the history, and always keeps the first
/// message (the system prompt) in place.
pub proof fn law_trim_fits_and_keeps_first(ms: Seq<MessageView>, max: nat)
    ensures
        total_tokens(trimmed(ms, max)) <= max || trimmed(ms, max).len() <= 1,
        trimmed(ms, max).len() <= ms.len(),
        ms.len() > 0 ==> trimmed(ms, max).len() > 0 && trimmed(ms, max)[0] == ms[0],
    decreases ms.len(),
{
    if !(total_tokens(ms) <= max || ms.len() <= 1) {
        lemma_evict_index(ms);
        let i = evict_index(ms);
        law_trim_fits_and_keeps_first(ms.remove(i), max);
        assert(ms.remove(i)[0] == ms[0]);
    }
}

// ---------------------------------------------------------------------------
// Output budgets
// ---------------------------------------------------------------------------
/// Head-and-tail budgeting never exceeds the budget, cuts exactly when the
/// text is over it, leaves a fitting text unchanged, and keeps a head of
/// the original.
pub proof fn law_head_tail_within_budget(s: Seq<char>, budget: nat)
    ensures
        head_tail_spec(s, budget).1 == (s.len() > budget),
        s.len() <= budget ==> head_tail_spec(s, budget).0 == s,
        s.len() > budget ==> head_tail_spec(s, budget).0.len() <= budget,
        s.len() > budget ==> exists|h: int|
            0 <= h <= budget && #[trigger] head_tail_spec(s, budget).0.take(h) == s.take(h)
                && h >= budget / 2 - middle_marker().len(),
{
    if s.len() > budget {
        if budget <= middle_marker().len() {
            assert(head_tail_spec(s, budget).0.take(budget as int) == s.take(budget as int));
        } else {
            let keep = (budget - middle_marker().len()) as nat;
            let h = (keep + 1) / 2;
            assert(head_tail_spec(s, budget).0.take(h as int) =~= s.take(h as int));
        }
    }
}

/// Head budgeting never exceeds the budget, cuts exactly when the text is
/// over it, and what it keeps begins with the text's head.
pub proof fn law_head_within_budget(s: Seq<char>, budget: nat)
    ensures
        head_spec(s, budget).1 == (s.len() > budget),
        s.len() <= budget ==> head_spec(s, budget).0 == s,
        s.len() > budget ==> head_spec(s, budget).0.len() <= budget,
{
}

/// The combined stdout + stderr budget: both unchanged when together within
/// [`DEFAULT_TOOL_BUDGET_CHARS`]; otherwise trimmed so that together they
/// are within it, with the trim warning first among the warnings.
pub proof fn law_command_output_within_budget(out: Seq<char>, err: Seq<char>)
    ensures
        ({
            let r = budget_command_output_spec(out, err);
            &&& r.2 == (out.len() + err.len() > DEFAULT_TOOL_BUDGET_CHARS)
            &&& !r.2 ==> r.0 == out && r.1 == err && r.3.len() == 0
            &&& r.2 ==> r.0.len() + r.1.len() <= DEFAULT_TOOL_BUDGET_CHARS && r.3.len() >= 1
                && r.3[0] == trim_warning()
        }),
{
    let budget = DEFAULT_TOOL_BUDGET_CHARS as nat;
    if out.len() + err.len() > budget {
        let ob: nat = if err.len() == 0 { budget } else { budget * 7 / 10 };
        let eb: nat = if err.len() == 0 { 0 } else { (budget - budget * 7 / 10) as nat };
        law_head_tail_within_budget(out, if ob > 200 { ob } else { 200 });
        law_head_tail_within_budget(err, if eb > 200 { eb } else { 200 });
    }
}

// ---------------------------------------------------------------------------
// Model requests
// ---------------------------------------------------------------------------
/// A request is never tried again after its last attempt, and is waited on
/// and retried only for a transient failure (rate limit, server error,
/// network error or timeout).
pub proof fn law_retries_are_bounded_and_transient(attempt: nat, max: nat, o: AttemptOutcome)
    ensures
        attempt >= max ==> !(attempt_action_spec(attempt, max, o) is Retry) && !(attempt_action_spec(
            attempt,
            max,
            o,
        ) is RetryNow),
        attempt_action_spec(attempt, max, o) is Retry ==> attempt < max && (match o {
            AttemptOutcome::SendFailed(k) => retryable(k),
            AttemptOutcome::HttpFailed { kind, .. } => retryable(kind),
            AttemptOutcome::BodyFailed(k) => retryable(k),
            _ => false,
        }),
        attempt_action_spec(attempt, max, o) is Succeed <==> o == (AttemptOutcome::Parsed { has_choice: true }),
{
}

// ---------------------------------------------------------------------------
// The fix loop
// ---------------------------------------------------------------------------
/// Fixes done after `k` more failed checks, starting from `done` fixes of a
/// budget of `budget` (see [`next_action`]).
pub open spec fn fixes_after_failures(done: nat, budget: nat, k: nat) -> nat
    decreases k,
{
    if k == 0 {
        done
    } else {
        let next = if next_action(done, budget, false) is RequestFix {
            done + 1
        } else {
            done
        };
        fixes_after_failures(next, budget, (k - 1) as nat)
    }
}

/// However many checks fail, the fix loop requests at most `budget` fixes:
/// after `k` failures it has requested `min(k, budget)` of them, and once
/// the budget is spent the next failed check ends the loop unsuccessfully.
pub proof fn law_fix_loop_stays_within_budget(budget: nat, k: nat)
    requires
        budget <= usize::MAX,
    ensures
        fixes_after_failures(0, budget, k) == (if k < budget { k } else { budget }),
        next_action(fixes_after_failures(0, budget, budget), budget, false) == (FixLoopAction::Finish {
            iterations: budget as usize,
            success: false,
        }),
{
    lemma_fixes_after_failures(0, budget, k);
    lemma_fixes_after_failures(0, budget, budget);
}

proof fn lemma_fixes_after_failures(done: nat, budget: nat, k: nat)
    requires
        done <= budget,
    ensures
        fixes_after_failures(done, budget, k) == (if done + k < budget { done + k } else { budget }),
    decreases k,
{
    if k > 0 {
        if done < budget {
            lemma_fixes_after_failures(done + 1, budget, (k - 1) as nat);
        } else {
            lemma_fixes_after_failures(done, budget, (k - 1) as nat);
        }
    }
}

/// A fix loop run on check outcomes `s`, after `done` fixes of `budget`:
/// (fixes requested in all, checks consumed, final success). Each check's
/// outcome goes to [`next_action`]; a requested fix is followed by the
/// next check.
pub open spec fn fix_run(s: Seq<bool>, done: nat, budget: nat) -> (nat, nat, bool)
    decreases s.len(),
{
    if s.len() == 0 {
        (done, 0, false)
    } else {
        match next_action(done, budget, s[0]) {
            FixLoopAction::Finish { iterations, success } => (iterations as nat, 1, success),
            FixLoopAction::RequestFix { .. } => {
                let r = fix_run(s.drop_first(), done + 1, budget);
                (r.0, r.1 + 1, r.2)
            },
        }
    }
}

proof fn lemma_fix_run(s: Seq<bool>, done: nat, budget: nat, m: nat)
    requires
        budget <= usize::MAX,
        done + m <= budget,
        m < s.len(),
        forall|i: int| 0 <= i < m ==> !s[i],
        done + m == budget || s[m as int],
    ensures
        fix_run(s, done, budget) == (done + m, m + 1, s[m as int]),
    decreases m,
{
    if m > 0 {
        lemma_fix_run(s.drop_first(), done + 1, budget, (m - 1) as nat);
        assert(s.drop_first()[m - 1] == s[m as int]);
    }
}

/// The fix loop stops at the first passing check or once the budget is
/// spent: when the first `n` checks fail and then one passes (or `n` is the
/// budget), it requests exactly `n` fixes, runs `n + 1` checks, and ends as
/// the last check did.
pub proof fn law_fix_loop_run(s: Seq<bool>, budget: nat, n: nat)
    requires
        budget <= usize::MAX,
        n <= budget,
        n < s.len(),
        forall|i: int| 0 <= i < n ==> !s[i],
        n == budget || s[n as int],
    ensures
        fix_run(s, 0, budget) == (n, n + 1, s[n as int]),
{
    lemma_fix_run(s, 0, budget, n);
}

// ---------------------------------------------------------------------------
// Compaction
// ---------------------------------------------------------------------------
/// The history after one clearing of stale tool results (see [`clears`]).
pub open spec fn cleared_history(ms: Seq<MessageView>, keep_recent: nat) -> Seq<MessageView> {
    Seq::new(ms.len(), |i: int| if clears(ms, keep_recent, i) { cleared(ms[i]) } else { ms[i] })
}

proof fn lemma_clearing_keeps_counts(ms: Seq<MessageView>, keep_recent: nat, n: nat)
    requires
        n <= ms.len(),
    ensures
        tool_results_before(cleared_history(ms, keep_recent), n) == tool_results_before(ms, n),
    decreases n,
{
    if n > 0 {
        lemma_clearing_keeps_counts(ms, keep_recent, (n - 1) as nat);
        let m2 = cleared_history(ms, keep_recent)[n - 1];
        assert(is_tool_result(m2) == is_tool_result(ms[n - 1]));
    }
}

/// Clearing stale tool results a second time clears nothing more: what the
/// first clearing left is either recent, not a tool result, or already
/// marked as cleared.
pub proof fn law_clearing_is_idempotent(ms: Seq<MessageView>, keep_recent: nat)
    ensures
        forall|i: int|
            0 <= i < ms.len() ==> !#[trigger] clears(cleared_history(ms, keep_recent), keep_recent, i),
{
    let ms2 = cleared_history(ms, keep_recent);
    lemma_clearing_keeps_counts(ms, keep_recent, ms.len());
    assert forall|i: int| 0 <= i < ms.len() implies !#[trigger] clears(ms2, keep_recent, i) by {
        lemma_clearing_keeps_counts(ms, keep_recent, i as nat);
        if clears(ms, keep_recent, i) {
            reveal_strlit("[cleared tool result");
            reveal_strlit(
                "[cleared tool result: earlier tool output removed to free context; re-run the tool if needed]",
            );
            assert(ms2[i].content == Some(cleared_text()));
            assert(cleared_text().subrange(0, 20) =~= "[cleared tool result"@);
            assert(starts_with(cleared_text(), "[cleared tool result"@));
        }
    }
}

/// At most `max_count` system messages survive a compaction.
pub proof fn law_pruned_system_messages_bounded(ms: Seq<MessageView>, max_count: nat, max_chars: nat)
    ensures
        pruned(ms, max_count, max_chars).len() <= max_count,
    decreases ms.len(),
{
    lemma_prune_state_bounded(ms, max_count, max_chars);
}

proof fn lemma_prune_state_bounded(ms: Seq<MessageView>, max_count: nat, max_chars: nat)
    ensures
        prune_state(ms, max_count, max_chars).1.len() <= max_count,
    decreases ms.len(),
{
    if ms.len() > 0 {
        lemma_prune_state_bounded(ms.drop_last(), max_count, max_chars);
    }
}

// ---------------------------------------------------------------------------
// Diff review
// ---------------------------------------------------------------------------
/// The review is scoped to the files the agent modified: every untracked
/// file it takes from a status listing lies within the filter of those
/// files (an empty filter takes all).
pub proof fn law_untracked_review_scoped(ls: Seq<Seq<char>>, n: nat, filter: Seq<Seq<char>>)
    requires
        n <= ls.len(),
    ensures
        forall|i: int|
            0 <= i < untracked_files_spec(ls, n, filter).len() ==> in_filter(
                #[trigger] untracked_files_spec(ls, n, filter)[i],
                filter,
            ),
    decreases n,
{
    if n > 0 {
        law_untracked_review_scoped(ls, (n - 1) as nat, filter);
        let prev = untracked_files_spec(ls, (n - 1) as nat, filter);
        assert forall|i: int|
            0 <= i < untracked_files_spec(ls, n, filter).len() implies in_filter(
                #[trigger] untracked_files_spec(ls, n, filter)[i],
                filter,
            ) by {
            if i < prev.len() {
                assert(untracked_files_spec(ls, n, filter)[i] == prev[i]);
            }
        }
    }
}

// ---------------------------------------------------------------------------
// Streamed tool calls
// ---------------------------------------------------------------------------
/// One streamed delta: call index, name fragment, arguments fragment, id.
pub type StreamDelta = (nat, Option<Seq<char>>, Option<Seq<char>>, Option<Seq<char>>);

/// The calls after one delta (what [`ToolDeltaBuffer::push_delta`] does).
pub open spec fn after_delta(calls: Seq<(Option<Seq<char>>, Seq<char>, Seq<char>)>, d: StreamDelta) -> Seq<
    (Option<Seq<char>>, Seq<char>, Seq<char>),
> {
    padded(calls, d.0 + 1).update(d.0 as int, apply_delta(padded(calls, d.0 + 1)[d.0 as int], d.1, d.2, d.3))
}

/// The calls after a stream of deltas, from an empty buffer.
pub open spec fn replayed(ds: Seq<StreamDelta>) -> Seq<(Option<Seq<char>>, Seq<char>, Seq<char>)>
    decreases ds.len(),
{
    if ds.len() == 0 {
        Seq::empty()
    } else {
        after_delta(replayed(ds.drop_last()), ds.last())
    }
}

/// A fragment, empty when absent.
pub open spec fn fragment(o: Option<Seq<char>>) -> Seq<char> {
    match o {
        Some(f) => f,
        None => Seq::empty(),
    }
}

/// The name fragments the stream sent for call `i`, joined in order.
pub open spec fn name_sent(ds: Seq<StreamDelta>, i: nat) -> Seq<char>
    decreases ds.len(),
{
    if ds.len() == 0 {
        Seq::empty()
    } else {
        name_sent(ds.drop_last(), i) + if ds.last().0 == i { fragment(ds.last().1) } else { Seq::empty() }
    }
}

/// The arguments fragments the stream sent for call `i`, joined in order.
pub open spec fn args_sent(ds: Seq<StreamDelta>, i: nat) -> Seq<char>
    decreases ds.len(),
{
    if ds.len() == 0 {
        Seq::empty()
    } else {
        args_sent(ds.drop_last(), i) + if ds.last().0 == i { fragment(ds.last().2) } else { Seq::empty() }
    }
}

/// Rebuilding streamed tool calls loses and reorders nothing: the name and
/// arguments of each call are its fragments joined in the order sent,
/// whatever deltas of other calls came between, and a call nothing was
/// sent for does not exist (or is empty).
pub proof fn law_stream_reassembly(ds: Seq<StreamDelta>, i: nat)
    ensures
        i < replayed(ds).len() ==> replayed(ds)[i as int].1 == name_sent(ds, i) && replayed(ds)[i as int].2
            == args_sent(ds, i),
        i >= replayed(ds).len() ==> name_sent(ds, i).len() == 0 && args_sent(ds, i).len() == 0,
    decreases ds.len(),
{
    if ds.len() > 0 {
        let prev = ds.drop_last();
        let d = ds.last();
        law_stream_reassembly(prev, i);
        let calls = replayed(prev);
        let p = padded(calls, d.0 + 1);
        assert(replayed(ds) == after_delta(calls, d));
        if i < p.len() {
            if i >= calls.len() {
                assert(p[i as int] == empty_call());
                assert(name_sent(prev, i) =~= Seq::<char>::empty());
                assert(args_sent(prev, i) =~= Seq::<char>::empty());
            } else {
                assert(p[i as int] == calls[i as int]);
            }
            if i == d.0 {
                assert(name_sent(ds, i) == name_sent(prev, i) + fragment(d.1));
                assert(args_sent(ds, i) == args_sent(prev, i) + fragment(d.2));
                assert(replayed(ds)[i as int].1 =~= name_sent(ds, i));
                assert(replayed(ds)[i as int].2 =~= args_sent(ds, i));
            } else {
                assert(name_sent(ds, i) =~= name_sent(prev, i));
                assert(args_sent(ds, i) =~= args_sent(prev, i));
            }
        } else {
            assert(name_sent(ds, i) =~= name_sent(prev, i));
            assert(args_sent(ds, i) =~= args_sent(prev, i));
        }
    }
}

// ---------------------------------------------------------------------------
// Workflows
// ---------------------------------------------------------------------------
/// Every step read from a workflow body is a non-empty instruction that is
/// not a header.
pub proof fn law_workflow_steps_nonempty(lines: Seq<Seq<char>>, n: nat)
    requires
        n <= lines.len(),
    ensures
        forall|k: int| 0 <= k < steps_of(lines, n).len() ==> (#[trigger] steps_of(lines, n)[k]).len() > 0,
    decreases n,
{
    if n > 0 {
        law_workflow_steps_nonempty(lines, (n - 1) as nat);
        let prev = steps_of(lines, (n - 1) as nat);
        assert forall|k: int| 0 <= k < steps_of(lines, n).len() implies (#[trigger] steps_of(
            lines,
            n,
        )[k]).len() > 0 by {
            if k < prev.len() {
                assert(steps_of(lines, n)[k] == prev[k]);
            }
        }
    }
}

/// Bytes of a sequence of units.
pub open spec fn units_bytes(gs: Seq<Seq<MessageView>>) -> nat
    decreases gs.len(),
{
    if gs.len() == 0 {
        0
    } else {
        group_bytes(gs[0]) + units_bytes(gs.drop_first())
    }
}

proof fn lemma_tail_start(gs: Seq<Seq<MessageView>>, budget: nat, i: nat, total: nat)
    requires
        i <= gs.len(),
        total == units_bytes(gs.subrange(i as int, gs.len() as int)),
        total <= budget,
        gs.len() >= MAX_TAIL_GROUPS ==> i >= gs.len() - MAX_TAIL_GROUPS,
    ensures
        tail_start(gs, budget, i, total) <= i,
        gs.len() >= MAX_TAIL_GROUPS ==> tail_start(gs, budget, i, total) >= gs.len() - MAX_TAIL_GROUPS,
        units_bytes(gs.subrange(tail_start(gs, budget, i, total) as int, gs.len() as int)) <= budget,
    decreases i,
{
    let window = if gs.len() >= MAX_TAIL_GROUPS { gs.len() - MAX_TAIL_GROUPS } else { 0 };
    if !(i == 0 || i - 1 < window || total + group_bytes(gs[i - 1]) > budget) {
        let next = gs.subrange(i - 1, gs.len() as int);
        assert(next.drop_first() =~= gs.subrange(i as int, gs.len() as int));
        assert(next[0] == gs[i - 1]);
        lemma_tail_start(gs, budget, (i - 1) as nat, total + group_bytes(gs[i - 1]));
    }
}

/// The tail kept after a summary holds at most [`MAX_TAIL_GROUPS`] units
/// whose sizes together fit in the budget.
pub proof fn law_tail_within_budget(ms: Seq<MessageView>, budget: nat)
    ensures
        ({
            let gs = group_msgs(non_system(ms));
            let k = tail_start(gs, budget, gs.len(), 0);
            &&& k <= gs.len()
            &&& gs.len() - k <= MAX_TAIL_GROUPS
            &&& units_bytes(gs.subrange(k as int, gs.len() as int)) <= budget
            &&& tail_spec(ms, budget) == flatten(gs.subrange(k as int, gs.len() as int))
        }),
{
    let gs = group_msgs(non_system(ms));
    assert(gs.subrange(gs.len() as int, gs.len() as int) =~= Seq::<Seq<MessageView>>::empty());
    lemma_tail_start(gs, budget, gs.len(), 0);
}

/// A unit is one message, or an assistant message requesting tool calls
/// followed by tool messages.
pub open spec fn unit_shape(g: Seq<MessageView>) -> bool {
    &&& g.len() > 0
    &&& forall|j: int| 0 < j < g.len() ==> opens_group(g[0]) && (#[trigger] g[j]).role == "tool"@
}

/// Grouping into units loses and reorders nothing, and every unit has the
/// shape of [`unit_shape`], so keeping whole units never separates a tool
/// result from its request.
pub proof fn law_units_keep_tool_pairs(ms: Seq<MessageView>)
    ensures
        flatten(group_msgs(ms)) == ms,
        forall|k: int| 0 <= k < group_msgs(ms).len() ==> unit_shape(#[trigger] group_msgs(ms)[k]),
    decreases ms.len(),
{
    if ms.len() > 0 {
        let prev = ms.drop_last();
        law_units_keep_tool_pairs(prev);
        let gs = group_msgs(prev);
        let m = ms.last();
        assert(ms =~= prev.push(m));
        if !opens_group(m) && m.role == "tool"@ && gs.len() > 0 && opens_group(gs.last()[0]) {
            let ng = gs.drop_last().push(gs.last().push(m));
            assert(group_msgs(ms) == ng);
            assert(ng.drop_last() =~= gs.drop_last());
            assert(ng.last() == gs.last().push(m));
            assert(flatten(ng) == flatten(ng.drop_last()) + ng.last());
            assert(flatten(gs) == flatten(gs.drop_last()) + gs.last());
            assert(flatten(ng) =~= ms);
            assert forall|k: int| 0 <= k < ng.len() implies unit_shape(#[trigger] ng[k]) by {
                if k < gs.len() - 1 {
                    assert(ng[k] == gs[k]);
                    assert(unit_shape(gs[k]));
                } else {
                    let g = gs[k];
                    assert(unit_shape(g));
                    assert(ng[k] == g.push(m));
                    assert forall|j: int| 0 < j < g.push(m).len() implies opens_group(g.push(m)[0]) && (
                    #[trigger] g.push(m)[j]).role == "tool"@ by {
                        if j < g.len() {
                            assert(g.push(m)[j] == g[j]);
                        }
                    }
                }
            }
        } else {
            let ng = gs.push(seq![m]);
            assert(group_msgs(ms) == ng);
            assert(ng.drop_last() =~= gs);
            assert(flatten(ng) =~= flatten(gs) + seq![m]);
            assert(flatten(ng) =~= ms);
            assert forall|k: int| 0 <= k < ng.len() implies unit_shape(#[trigger] ng[k]) by {
                if k < gs.len() {
                    assert(ng[k] == gs[k]);
                    assert(unit_shape(gs[k]));
                }
            }
        }
    } else {
        assert(flatten(group_msgs(ms)) =~= ms);
    }
}

/// A sub-agent is offered exactly the allowed tools: every definition it
/// gets has an allowed name, every definition with an allowed name is among
/// them, and it never gets more definitions than the full list has.
pub proof fn law_subagent_defs_are_allowed(ds: Seq<ToolDefView>, allowed: Seq<Seq<char>>)
    ensures
        forall|i: int| 0 <= i < allowed_defs(ds, allowed).len() ==> allowed.contains(
            #[trigger] allowed_defs(ds, allowed)[i].name,
        ),
        forall|i: int| 0 <= i < ds.len() && allowed.contains(#[trigger] ds[i].name) ==> allowed_defs(
            ds,
            allowed,
        ).contains(ds[i]),
        allowed_defs(ds, allowed).len() <= ds.len(),
    decreases ds.len(),
{
    if ds.len() > 0 {
        let rest = ds.drop_last();
        law_subagent_defs_are_allowed(rest, allowed);
        let r = allowed_defs(ds, allowed);
        let rr = allowed_defs(rest, allowed);
        assert forall|i: int| 0 <= i < ds.len() && allowed.contains(#[trigger] ds[i].name) implies r.contains(
            ds[i],
        ) by {
            if i < ds.len() - 1 {
                assert(rest[i] == ds[i]);
                let j = choose|j: int| 0 <= j < rr.len() && rr[j] == rest[i];
                if allowed.contains(ds.last().name) {
                    assert(r[j] == rr[j]);
                }
            } else {
                assert(r[r.len() - 1] == ds.last());
            }
        }
        assert forall|i: int| 0 <= i < r.len() implies allowed.contains(#[trigger] r[i].name) by {
            if i < rr.len() {
                assert(r[i] == rr[i]);
            }
        }
    }
}

/// Terminating a process tree succeeds only when its group is gone and no
/// wait failed; and the grace period never ends with success while the
/// direct child is unreaped or the group alive.
pub proof fn law_termination_succeeds_only_when_group_gone(
    child_reaped: bool,
    poll: ChildPoll,
    group_alive: bool,
    past_deadline: bool,
    wait_error: Option<Seq<char>>,
    wait: KillWait,
    group_survived: bool,
)
    ensures
        termination_result_spec(kill_wait_error_spec(child_reaped, wait_error, wait), group_survived) is Ok
            ==> !group_survived && wait_error is None,
        grace_step_spec(child_reaped, poll, group_alive, past_deadline).0 ==> !group_alive && (child_reaped
            || poll is Exited),
{
}

/// `f` places the items of `a`, in order, at increasing positions of `b`.
pub open spec fn embeds(a: Seq<MessageView>, b: Seq<MessageView>, f: Seq<int>) -> bool {
    &&& f.len() == a.len()
    &&& forall|i: int, j: int| 0 <= i < j < f.len() ==> f[i] < f[j]
    &&& forall|i: int| 0 <= i < f.len() ==> 0 <= #[trigger] f[i] < b.len() && b[f[i]] == a[i]
}

/// `a` is `b` with some messages left out, the rest in their order.
pub open spec fn ordered_subsequence(a: Seq<MessageView>, b: Seq<MessageView>) -> bool {
    exists|f: Seq<int>| embeds(a, b, f)
}

proof fn lemma_trim_embedding(ms: Seq<MessageView>, max: nat) -> (f: Seq<int>)
    ensures
        embeds(trimmed(ms, max), ms, f),
    decreases ms.len(),
{
    if total_tokens(ms) <= max || ms.len() <= 1 {
        let f = Seq::new(ms.len(), |k: int| k);
        f
    } else {
        lemma_evict_index(ms);
        let i = evict_index(ms);
        let r = ms.remove(i);
        let g = lemma_trim_embedding(r, max);
        let f = g.map_values(|x: int| if x < i { x } else { x + 1 });
        assert forall|k: int| 0 <= k < f.len() implies 0 <= #[trigger] f[k] < ms.len() && ms[f[k]]
            == trimmed(ms, max)[k] by {
            assert(g[k] < r.len());
        }
        f
    }
}

/// Trimming only leaves messages out: what remains is the history with
/// some messages removed and the rest in their order; a history within
/// the limit is left as it is.
pub proof fn law_trim_keeps_order(ms: Seq<MessageView>, max: nat)
    ensures
        ordered_subsequence(trimmed(ms, max), ms),
        total_tokens(ms) <= max ==> trimmed(ms, max) == ms,
{
    let f = lemma_trim_embedding(ms, max);
    assert(embeds(trimmed(ms, max), ms, f));
}

proof fn lemma_dedup(s: Seq<Seq<char>>)
    ensures
        dedup(s).no_duplicates(),
        forall|x: Seq<char>| dedup(s).contains(x) <==> s.contains(x),
    decreases s.len(),
{
    if s.len() > 0 {
        let p = s.drop_last();
        lemma_dedup(p);
        let d = dedup(p);
        assert forall|x: Seq<char>| s.contains(x) <==> p.contains(x) || x == s.last() by {
            if s.contains(x) {
                let k = choose|k: int| 0 <= k < s.len() && s[k] == x;
                if k < s.len() - 1 {
                    assert(p[k] == x);
                }
            }
            if p.contains(x) {
                let k = choose|k: int| 0 <= k < p.len() && p[k] == x;
                assert(s[k] == x);
            }
            if x == s.last() {
                assert(s[s.len() - 1] == x);
            }
        }
        if !d.contains(s.last()) {
            let e = d.push(s.last());
            assert forall|x: Seq<char>| e.contains(x) <==> d.contains(x) || x == s.last() by {
                if e.contains(x) {
                    let k = choose|k: int| 0 <= k < e.len() && e[k] == x;
                    if k < d.len() {
                        assert(d[k] == x);
                    }
                }
                if d.contains(x) {
                    let k = choose|k: int| 0 <= k < d.len() && d[k] == x;
                    assert(e[k] == x);
                }
                if x == s.last() {
                    assert(e[d.len() as int] == x);
                }
            }
            assert forall|i: int, j: int| 0 <= i < e.len() && 0 <= j < e.len() && i != j implies e[i] != e[j] by {
                if i < d.len() && j < d.len() {
                } else if i < d.len() {
                    assert(d.contains(e[i]));
                } else {
                    assert(d.contains(e[j]));
                }
            }
        }
    }
}

proof fn lemma_all_files(ts: Seq<FailedTestView>)
    ensures
        forall|x: Seq<char>| all_test_files(ts).contains(x) <==> exists|i: int| 0 <= i < ts.len() && #[trigger] test_files(ts[i]).contains(x),
    decreases ts.len(),
{
    if ts.len() > 0 {
        let p = ts.drop_last();
        lemma_all_files(p);
        let a = all_test_files(p);
        let b = test_files(ts.last());
        assert forall|x: Seq<char>| all_test_files(ts).contains(x) <==> exists|i: int| 0 <= i < ts.len() && #[trigger] test_files(ts[i]).contains(x) by {
            let c = a + b;
            assert(all_test_files(ts) == c);
            if c.contains(x) {
                let k = choose|k: int| 0 <= k < c.len() && c[k] == x;
                if k < a.len() {
                    assert(a[k] == x);
                    assert(a.contains(x));
                    let i = choose|i: int| 0 <= i < p.len() && #[trigger] test_files(p[i]).contains(x);
                    assert(ts[i] == p[i]);
                } else {
                    assert(b[k - a.len()] == x);
                    assert(ts[ts.len() - 1] == ts.last());
                    assert(test_files(ts[ts.len() - 1]).contains(x));
                }
            }
            if exists|i: int| 0 <= i < ts.len() && #[trigger] test_files(ts[i]).contains(x) {
                let i = choose|i: int| 0 <= i < ts.len() && #[trigger] test_files(ts[i]).contains(x);
                if i < ts.len() - 1 {
                    assert(p[i] == ts[i]);
                    assert(a.contains(x));
                    let k = choose|k: int| 0 <= k < a.len() && a[k] == x;
                    assert(c[k] == x);
                } else {
                    let k = choose|k: int| 0 <= k < b.len() && b[k] == x;
                    assert(c[k + a.len()] == x);
                }
            }
        }
    }
}

/// The related files of failed tests name each file once, and name exactly
/// the files the failures point at: each failure's own file, its frames'
/// files and its related files.
pub proof fn law_related_files_unique_and_complete(ts: Seq<FailedTestView>)
    ensures
        dedup(all_test_files(ts)).no_duplicates(),
        forall|x: Seq<char>| dedup(all_test_files(ts)).contains(x) <==> exists|i: int| 0 <= i < ts.len() && #[trigger] test_files(ts[i]).contains(x),
{
    lemma_dedup(all_test_files(ts));
    lemma_all_files(ts);
    assert forall|x: Seq<char>| dedup(all_test_files(ts)).contains(x) <==> exists|i: int| 0 <= i < ts.len() && #[trigger] test_files(ts[i]).contains(x) by {
        assert(dedup(all_test_files(ts)).contains(x) <==> all_test_files(ts).contains(x));
    }
}

proof fn lemma_escaped_len(s: Seq<char>)
    ensures
        escaped(s).len() <= 6 * s.len(),
    decreases s.len(),
{
    if s.len() > 0 {
        lemma_escaped_len(s.drop_last());
        assert(escape_char(s.last()).len() <= 6);
    }
}

proof fn lemma_empty_envelope_fits(content: Seq<char>, note: Seq<char>)
    requires
        note.len() <= 120,
    ensures
        envelope(content, note, 0).len() <= 1000,
{
    assert(fit_chars(content, 0) == 0);
    assert(content.take(0) =~= Seq::<char>::empty());
    let fs = seq![("note"@, JsonView::Str(note)), ("truncated_raw"@, JsonView::Str(Seq::<char>::empty()))];
    lemma_escaped_len(note);
    lemma_escaped_len("note"@);
    lemma_escaped_len("truncated_raw"@);
    lemma_escaped_len(Seq::<char>::empty());
    reveal_strlit("note");
    reveal_strlit("truncated_raw");
    assert(fields_text(fs, 0).len() == 0);
    assert(fs[0].0 == "note"@ && fs[0].1 == JsonView::Str(note));
    assert(quoted(fs[0].0).len() <= 26);
    assert(text_of(fs[0].1) == quoted(note));
    assert(quoted(note).len() <= 722);
    assert(fields_text(fs, 1) == fields_text(fs, 0) + Seq::<char>::empty() + quoted(fs[0].0) + seq![':'] + text_of(fs[0].1));
    assert(fields_text(fs, 1).len() <= 2 + 24 + 1 + 2 + 720);
    assert(fs[1].0 == "truncated_raw"@ && fs[1].1 == JsonView::Str(Seq::<char>::empty()));
    assert(quoted(fs[1].0).len() <= 80);
    assert(text_of(fs[1].1) == quoted(Seq::<char>::empty()));
    assert(quoted(Seq::<char>::empty()).len() == 2);
    assert(fields_text(fs, 2) == fields_text(fs, 1) + seq![','] + quoted(fs[1].0) + seq![':'] + text_of(fs[1].1));
    assert(fields_text(fs, 2).len() <= fields_text(fs, 1).len() + 1 + 2 + 78 + 1 + 2);
    assert(text_of(JsonView::Object(fs)).len() == fields_text(fs, 2).len() + 2);
    assert(envelope(content, note, 0) == text_of(JsonView::Object(fs)));
}

proof fn lemma_fallback_fits(content: Seq<char>, note: Seq<char>, max: nat, keep: nat)
    requires
        envelope(content, note, 0).len() <= max,
    ensures
        fallback_text(content, note, max, keep).len() <= max,
    decreases keep,
{
    if envelope(content, note, keep).len() > max && keep != 0 {
        lemma_fallback_fits(content, note, max, keep / 2);
    }
}

proof fn lemma_fallback_is_json(content: Seq<char>, note: Seq<char>, max: nat, keep: nat) -> (v: JsonView)
    ensures
        fallback_text(content, note, max, keep) == text_of(v),
    decreases keep,
{
    if envelope(content, note, keep).len() <= max || keep == 0 {
        JsonView::Object(
            seq![
                ("note"@, JsonView::Str(note)),
                ("truncated_raw"@, JsonView::Str(content.take(fit_chars(content, keep) as int))),
            ],
        )
    } else {
        lemma_fallback_is_json(content, note, max, keep / 2)
    }
}

/// Tool output as the model receives it never exceeds the tool's budget in
/// characters (for an output whose length is a machine number), and a
/// shortened output is always the compact text of a JSON value.
pub proof fn law_tool_output_within_budget(content: Seq<char>, tool: Seq<char>, parsed: Option<JsonView>)
    requires
        content.len() <= u64::MAX,
    ensures
        model_output(content, tool, parsed).len() <= if is_read_tool(tool) {
            READ_MAX_LEN as nat
        } else {
            DEFAULT_MAX_LEN as nat
        },
        model_output(content, tool, parsed) != content ==> exists|v: JsonView|
            model_output(content, tool, parsed) == #[trigger] text_of(v),
{
    let max: nat = if is_read_tool(tool) { READ_MAX_LEN as nat } else { DEFAULT_MAX_LEN as nat };
    if content.len() > max {
        let note = truncation_note_spec(content.len());
        assert(u64::MAX < pow10(20)) by {
            reveal_with_fuel(pow10, 21);
        }
        lemma_decimal_len(content.len(), 20);
        reveal_strlit("... (Output truncated. Total length: ");
        reveal_strlit(" chars. Refine your tool call to reduce output.)");
        assert(note.len() <= 120);
        lemma_empty_envelope_fits(content, note);
        let jb: nat = if note.len() + 2 >= max { 0 } else { (max - note.len() - 2) as nat };
        let keep: nat = if jb >= 80 { (jb - 80) as nat } else { 0 };
        lemma_fallback_fits(content, note, max, keep);
        let fv = lemma_fallback_is_json(content, note, max, keep);
        match parsed {
            Some(p) => {
                let b = budgeted(p, jb);
                if text_of(b).len() <= max {
                    assert(model_output(content, tool, parsed) == text_of(b));
                } else {
                    assert(model_output(content, tool, parsed) == text_of(fv));
                }
            },
            None => {
                assert(model_output(content, tool, parsed) == text_of(fv));
            },
        }
    }
}

/// The agent loop's steps: every model request is counted and stays within
/// the limit, going over it ends the run; once the loop detector fires, no
/// further call of the batch runs; and each step keeps the state
/// consistent.
pub proof fn law_agent_loop_steps(s: LoopState, e: LoopEvent)
    requires
        state_ok(s),
    ensures
        state_ok(loop_step(s, e).0),
        loop_step(s, e).1 is Request ==> loop_step(s, e).0.iterations == s.iterations + 1
            && loop_step(s, e).0.iterations <= s.max_iters,
        loop_step(s, e).1 is FailMaxIterations ==> s.iterations == s.max_iters && loop_step(s, e).0.phase
            == LoopPhase::Done,
        (e matches LoopEvent::ToolRan { loop_detected, .. } && (loop_detected || s.loop_detected))
            ==> !(loop_step(s, e).1 is RunTool),
        loop_step(s, e).1 is RunTool ==> !loop_step(s, e).0.loop_detected,
{
}


// ---------------------------------------------------------------------------
// Test output of pytest
// ---------------------------------------------------------------------------
/// The groups of the pytest `FAILED` pattern in line `i`, if it matches.
pub open spec fn pytest_match(lines: Seq<Seq<char>>, i: int) -> Option<Seq<Option<Seq<char>>>> {
    regex_captures(RE_PYTEST_FAIL@, lines[i])
}

/// `f` is the failure a `FAILED <file>::<name> - <message>` match names:
/// the file before `::`, the test name after it (or `Unknown Test`), the
/// message after ` - ` (or none), and no line number.
pub open spec fn names_failure(f: FailedTestView, c: Seq<Option<Seq<char>>>) -> bool {
    &&& f.file_path == group(c, 1)
    &&& f.name == or_unknown(group(c, 2))
    &&& f.message == or_empty(group(c, 3))
    &&& f.line_number.is_none()
}

/// Among the first `n` lines, every line that matches the `FAILED` pattern
/// gives a failure of `out` that it names, and every failure of `out` is
/// named by such a line.
pub open spec fn failures_match_lines(lines: Seq<Seq<char>>, n: nat, out: Seq<FailedTestView>) -> bool {
    &&& forall|i: int|
        0 <= i < n && (#[trigger] pytest_match(lines, i)) is Some ==> exists|k: int|
            #![trigger out[k]]
            0 <= k < out.len() && names_failure(out[k], pytest_match(lines, i).unwrap())
    &&& forall|k: int|
        0 <= k < out.len() ==> exists|i: int|
            #![trigger pytest_match(lines, i)]
            0 <= i < n && pytest_match(lines, i) is Some && names_failure(
                #[trigger] out[k],
                pytest_match(lines, i).unwrap(),
            )
}

proof fn lemma_pytest_scan(lines: Seq<Seq<char>>, n: nat)
    requires
        n <= lines.len(),
    ensures
        failures_match_lines(lines, n, pytest_scan(lines, n)),
    decreases n,
{
    if n > 0 {
        let m = (n - 1) as nat;
        lemma_pytest_scan(lines, m);
        let prev = pytest_scan(lines, m);
        let res = pytest_scan(lines, n);
        assert(pytest_match(lines, m as int) == regex_captures(RE_PYTEST_FAIL@, lines[n - 1]));
        assert forall|k: int| 0 <= k < prev.len() implies res[k] == prev[k] by {}
        assert forall|i: int| 0 <= i < n && (#[trigger] pytest_match(lines, i)) is Some implies exists|k: int|
            #![trigger res[k]]
            0 <= k < res.len() && names_failure(res[k], pytest_match(lines, i).unwrap()) by {
            if i < m {
                let k = choose|k: int| #![trigger prev[k]]
                    0 <= k < prev.len() && names_failure(prev[k], pytest_match(lines, i).unwrap());
                assert(res[k] == prev[k]);
            } else {
                assert(res[prev.len() as int] == res.last());
            }
        }
        assert forall|k: int| 0 <= k < res.len() implies exists|i: int|
            #![trigger pytest_match(lines, i)]
            0 <= i < n && pytest_match(lines, i) is Some && names_failure(#[trigger] res[k], pytest_match(lines, i).unwrap()) by {
            if k < prev.len() {
                assert(res[k] == prev[k]);
                let i = choose|i: int| #![trigger pytest_match(lines, i)]
                    0 <= i < m && pytest_match(lines, i) is Some && names_failure(prev[k], pytest_match(lines, i).unwrap());
                assert(pytest_match(lines, i) is Some);
            } else {
                assert(pytest_match(lines, m as int) is Some);
            }
        }
    }
}

/// Reading pytest output (the command `pytest ...` or `python ...` for a
/// Python project): every `FAILED <file>::<name> - <message>` line gives a
/// failure that carries the file before `::`, the name after it and the
/// message, and every failure comes from such a line.
pub proof fn law_pytest_failures_carry_their_file(command: Seq<char>, stdout: Seq<char>, stderr: Seq<char>)
    requires
        first_token(command) == "pytest"@ || first_token(command) == "python"@,
    ensures
        failures_match_lines(
            lines_spec(combined(stdout, stderr)),
            lines_spec(combined(stdout, stderr)).len(),
            parse_output_spec(command, stdout, stderr, "python"@),
        ),
{
    reveal_strlit("cargo");
    reveal_strlit("go");
    reveal_strlit("npm");
    reveal_strlit("npx");
    reveal_strlit("pytest");
    reveal_strlit("python");
    reveal_strlit("rust");
    reveal_strlit("typescript");
    let ls = lines_spec(combined(stdout, stderr));
    assert("python"@.len() == 6 && "rust"@.len() == 4 && "go"@.len() == 2);
    assert(parse_output_spec(command, stdout, stderr, "python"@) == pytest_failures(stdout, stderr));
    lemma_pytest_scan(ls, ls.len());
}

// ---------------------------------------------------------------------------
// Diff review payload
// ---------------------------------------------------------------------------
/// Each part occurs in the parts joined by a separator.
proof fn lemma_join_contains(parts: Seq<Seq<char>>, sep: Seq<char>, k: int)
    requires
        0 <= k < parts.len(),
    ensures
        matches_at(join_with(parts, sep), parts[k], join_start(parts, sep, k)),
    decreases parts.len(),
{
    if parts.len() > 1 {
        let prev = parts.drop_last();
        let j = join_with(prev, sep);
        if k < parts.len() - 1 {
            lemma_join_contains(prev, sep, k);
            assert(prev[k] == parts[k]);
            let p = join_start(prev, sep, k);
            assert((j + sep + parts.last()).subrange(p, p + parts[k].len()) =~= j.subrange(p, p + parts[k].len()));
        } else {
            assert((j + sep + parts.last()).subrange((j.len() + sep.len()) as int, (j.len() + sep.len() + parts[k].len()) as int)
                =~= parts.last());
        }
    } else {
        assert(parts[0].subrange(0, parts[0].len() as int) =~= parts[0]);
    }
}

/// Where part `k` starts in the parts joined by a separator.
pub open spec fn join_start(parts: Seq<Seq<char>>, sep: Seq<char>, k: int) -> int
    decreases parts.len(),
{
    if parts.len() <= 1 || k >= parts.len() - 1 {
        if parts.len() <= 1 {
            0
        } else {
            (join_with(parts.drop_last(), sep).len() + sep.len()) as int
        }
    } else {
        join_start(parts.drop_last(), sep, k)
    }
}

/// The diff sections are empty exactly when every diff is, and hold every
/// non-empty untracked diff.
proof fn lemma_sections(indexed: Seq<char>, untracked: Seq<(Seq<char>, Seq<char>)>)
    ensures
        diff_sections(indexed, untracked).len() == 0 <==> (indexed.len() == 0 && forall|j: int|
            0 <= j < untracked.len() ==> (#[trigger] untracked[j]).1.len() == 0),
        forall|j: int|
            0 <= j < untracked.len() && (#[trigger] untracked[j]).1.len() > 0 ==> diff_sections(
                indexed,
                untracked,
            ).contains(untracked[j].1),
        indexed.len() > 0 ==> diff_sections(indexed, untracked)[0] == indexed,
    decreases untracked.len(),
{
    if untracked.len() > 0 {
        let prev = untracked.drop_last();
        lemma_sections(indexed, prev);
        let ps = diff_sections(indexed, prev);
        let s = diff_sections(indexed, untracked);
        assert forall|j: int| 0 <= j < prev.len() implies #[trigger] prev[j] == untracked[j] by {}
        assert forall|k: int| 0 <= k < ps.len() implies s[k] == ps[k] by {}
        assert forall|j: int|
            0 <= j < untracked.len() && (#[trigger] untracked[j]).1.len() > 0 implies s.contains(untracked[j].1) by {
            if j < prev.len() {
                assert(prev[j] == untracked[j]);
                let k = choose|k: int| 0 <= k < ps.len() && ps[k] == prev[j].1;
                assert(s[k] == ps[k]);
            } else {
                assert(s[s.len() - 1] == untracked.last().1);
            }
        }
        if s.len() == 0 {
            assert forall|j: int| 0 <= j < untracked.len() implies (#[trigger] untracked[j]).1.len() == 0 by {
                if j < prev.len() {
                    assert(prev[j] == untracked[j]);
                }
            }
        }
        if indexed.len() > 0 {
            assert(ps.len() > 0);
            assert(s[0] == ps[0]);
        }
    }
}

/// The review payload takes in every diff: there is one exactly when the
/// tracked diff or some untracked file's diff is non-empty; its text begins
/// with the tracked diff and holds each non-empty untracked diff.
pub proof fn law_review_holds_every_diff(
    indexed: Seq<char>,
    files: Seq<Seq<char>>,
    untracked: Seq<(Seq<char>, Seq<char>)>,
)
    ensures
        payload_spec(indexed, files, untracked).is_some() <==> (indexed.len() > 0 || exists|j: int|
            0 <= j < untracked.len() && (#[trigger] untracked[j]).1.len() > 0),
        forall|j: int|
            0 <= j < untracked.len() && (#[trigger] untracked[j]).1.len() > 0 ==> contains_seq(
                payload_spec(indexed, files, untracked).unwrap().0,
                untracked[j].1,
            ),
        indexed.len() > 0 ==> payload_spec(indexed, files, untracked).unwrap().0.take(indexed.len() as int)
            == indexed,
{
    lemma_sections(indexed, untracked);
    let sections = diff_sections(indexed, untracked);
    if sections.len() > 0 {
        let joined = join_with(sections, "\n"@);
        let text = payload_spec(indexed, files, untracked).unwrap().0;
        assert(text == joined || text == joined.push('\n'));
        assert forall|p: int, q: int| 0 <= p <= q <= joined.len() implies text.subrange(p, q) == joined.subrange(p, q) by {
            assert(text.subrange(p, q) =~= joined.subrange(p, q));
        }
        assert forall|j: int|
            0 <= j < untracked.len() && (#[trigger] untracked[j]).1.len() > 0 implies contains_seq(text, untracked[j].1) by {
            let k = choose|k: int| 0 <= k < sections.len() && sections[k] == untracked[j].1;
            lemma_join_contains(sections, "\n"@, k);
            let p = join_start(sections, "\n"@, k);
            assert(text.subrange(p, p + sections[k].len()) == joined.subrange(p, p + sections[k].len()));
            assert(matches_at(text, untracked[j].1, p));
        }
        if indexed.len() > 0 {
            lemma_join_contains(sections, "\n"@, 0);
            assert(join_start(sections, "\n"@, 0) == 0) by {
                lemma_join_start_first(sections, "\n"@);
            }
            assert(text.subrange(0, indexed.len() as int) == joined.subrange(0, indexed.len() as int));
            assert(text.take(indexed.len() as int) =~= text.subrange(0, indexed.len() as int));
        }
    } else {
        if exists|j: int| 0 <= j < untracked.len() && (#[trigger] untracked[j]).1.len() > 0 {
            let j = choose|j: int| 0 <= j < untracked.len() && (#[trigger] untracked[j]).1.len() > 0;
            assert(sections.contains(untracked[j].1));
        }
    }
}

/// The first part starts the joined text.
proof fn lemma_join_start_first(parts: Seq<Seq<char>>, sep: Seq<char>)
    requires
        parts.len() > 0,
    ensures
        join_start(parts, sep, 0) == 0,
    decreases parts.len(),
{
    if parts.len() > 1 {
        lemma_join_start_first(parts.drop_last(), sep);
    }
}

// ---------------------------------------------------------------------------
// Error classification
// ---------------------------------------------------------------------------
/// A failed request that carries no kind of its own is classified by its
/// HTTP status first: 429 is a rate limit, any 5xx a server error (both
/// retried, after a wait, while attempts remain), any other 4xx a client
/// error (never retried); the transport facts count only for other
/// statuses. A kind the error carries is kept.
pub proof fn law_status_decides_the_kind(status: u16, e: ErrorFacts, attempt: nat, max: nat, retry_after: Option<u64>)
    ensures
        e.own_kind.is_some() ==> classify_spec(Some(status), e) == e.own_kind.unwrap(),
        e.own_kind.is_none() && status == 429 ==> classify_spec(Some(status), e) == LlmErrorKind::RateLimited,
        e.own_kind.is_none() && 500 <= status <= 599 ==> classify_spec(Some(status), e) == LlmErrorKind::Server,
        e.own_kind.is_none() && 400 <= status <= 499 && status != 429 ==> classify_spec(Some(status), e)
            == LlmErrorKind::Client,
        e.own_kind.is_none() && 400 <= status <= 599 ==> (retryable(classify_spec(Some(status), e)) <==> (
        status == 429 || status >= 500)),
        e.own_kind.is_none() && status == 429 && attempt < max ==> attempt_action_spec(
            attempt,
            max,
            AttemptOutcome::HttpFailed { kind: classify_spec(Some(status), e), retry_after },
        ) == (AttemptAction::Retry { retry_after }),
{
}

// ---------------------------------------------------------------------------
// Compaction
// ---------------------------------------------------------------------------
proof fn lemma_first_system_at(ms: Seq<MessageView>, i: nat, j: int)
    requires
        i <= j < ms.len(),
        ms[j].role == "system"@,
        forall|k: int| i <= k < j ==> (#[trigger] ms[k]).role != "system"@,
    ensures
        first_system_from(ms, i) == Some(ms[j]),
    decreases j - i,
{
    if i < j {
        lemma_first_system_at(ms, i + 1, j);
    }
}

proof fn lemma_no_system(ms: Seq<MessageView>, i: nat)
    requires
        forall|k: int| 0 <= k < ms.len() ==> (#[trigger] ms[k]).role != "system"@,
    ensures
        first_system_from(ms, i).is_none(),
    decreases ms.len() - i,
{
    if i < ms.len() {
        lemma_no_system(ms, i + 1);
    }
}

/// After a successful summary the history is the summary, preceded by the
/// first system message of the old history when it had one: the system
/// prompt survives compaction and nothing else of the old history does.
pub proof fn law_summary_keeps_the_system_prompt(ms: Seq<MessageView>, summary: MessageView, j: int)
    ensures
        0 <= j < ms.len() && ms[j].role == "system"@ && (forall|k: int|
            0 <= k < j ==> (#[trigger] ms[k]).role != "system"@) ==> summary_history(ms, summary) == seq![
            ms[j],
            summary,
        ],
        (forall|k: int| 0 <= k < ms.len() ==> (#[trigger] ms[k]).role != "system"@) ==> summary_history(
            ms,
            summary,
        ) == seq![summary],
{
    if 0 <= j < ms.len() && ms[j].role == "system"@ && (forall|k: int|
        0 <= k < j ==> (#[trigger] ms[k]).role != "system"@) {
        lemma_first_system_at(ms, 0, j);
    }
    if forall|k: int| 0 <= k < ms.len() ==> (#[trigger] ms[k]).role != "system"@ {
        lemma_no_system(ms, 0);
    }
}

// ---------------------------------------------------------------------------
// Stream chunks
// ---------------------------------------------------------------------------
/// Every choice of a stream chunk that has not stopped hands on its text
/// when it has any and its tool-call deltas, by its position, when it has
/// any; a stopped choice hands on nothing, and every tool-call event names
/// a choice of the chunk that has not stopped and has deltas.
pub proof fn law_chunk_hands_on_tool_calls(cs: Seq<StreamChoice>, n: nat)
    requires
        n <= cs.len(),
    ensures
        forall|i: int|
            0 <= i < n && !stopped(#[trigger] cs[i]) && cs[i].delta.tool_calls@.len() > 0 ==> chunk_events_spec(
                cs,
                n,
            ).contains(ChunkEventView::ToolCalls(i as nat)),
        forall|i: int|
            0 <= i < n && !stopped(#[trigger] cs[i]) && cs[i].delta.content@.len() > 0 ==> chunk_events_spec(
                cs,
                n,
            ).contains(ChunkEventView::Text(cs[i].delta.content@)),
        forall|k: int|
            0 <= k < chunk_events_spec(cs, n).len() && (#[trigger] chunk_events_spec(cs, n)[k]) is ToolCalls
                ==> ({
                let i = chunk_events_spec(cs, n)[k]->ToolCalls_0;
                i < n && !stopped(cs[i as int]) && cs[i as int].delta.tool_calls@.len() > 0
            }),
    decreases n,
{
    if n > 0 {
        let m = (n - 1) as nat;
        law_chunk_hands_on_tool_calls(cs, m);
        let prev = chunk_events_spec(cs, m);
        let last = choice_events(cs[m as int], m);
        let res = chunk_events_spec(cs, n);
        assert(res == prev + last);
        assert forall|k: int| 0 <= k < prev.len() implies res[k] == prev[k] by {}
        assert forall|i: int|
            0 <= i < n && !stopped(#[trigger] cs[i]) && cs[i].delta.tool_calls@.len() > 0 implies res.contains(
                ChunkEventView::ToolCalls(i as nat),
            ) by {
            if i < m {
                let k = choose|k: int| 0 <= k < prev.len() && prev[k] == ChunkEventView::ToolCalls(i as nat);
                assert(res[k] == prev[k]);
            } else {
                assert(res[res.len() - 1] == last[last.len() - 1]);
            }
        }
        assert forall|i: int|
            0 <= i < n && !stopped(#[trigger] cs[i]) && cs[i].delta.content@.len() > 0 implies res.contains(
                ChunkEventView::Text(cs[i].delta.content@),
            ) by {
            if i < m {
                let k = choose|k: int| 0 <= k < prev.len() && prev[k] == ChunkEventView::Text(cs[i].delta.content@);
                assert(res[k] == prev[k]);
            } else {
                assert(res[prev.len() as int] == last[0]);
            }
        }
        assert forall|k: int|
            0 <= k < res.len() && (#[trigger] res[k]) is ToolCalls implies ({
                let i = res[k]->ToolCalls_0;
                i < n && !stopped(cs[i as int]) && cs[i as int].delta.tool_calls@.len() > 0
            }) by {
            if k < prev.len() {
                assert(res[k] == prev[k]);
            } else {
                assert(res[k] == last[k - prev.len()]);
            }
        }
    }
}

} // verus!
