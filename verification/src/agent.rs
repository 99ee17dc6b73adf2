//! Agent-loop support: error kinds and retry policy, error reporting and
//! hints, the final-turn bookkeeping, and the sub-agent summary.
use crate::budget::{head_spec, head_truncate};
use crate::messages::{calls_view, copy_calls, msgs_view, ChatMessage, MessageView};
use crate::text::{chars_of, contains_seq, push_decimal, push_str, str_contains, trim_spec, trim_str};
use vstd::prelude::*;
use vstd::string::*;

verus! {

// ---------------------------------------------------------------------------
// LLM error kinds and retries
// ---------------------------------------------------------------------------
/// Classified failure of a model request.
#[derive(Debug, Clone, Copy, PartialEq, Eq, Structural)]
pub enum LlmErrorKind {
    RateLimited,
    Server,
    Network,
    Timeout,
    Client,
    Deserialize,
    Cancelled,
    ContextLengthExceeded,
    Authentication,
    Unknown,
}

impl LlmErrorKind {
    /// Display text of the kind.
    pub fn describe(&self) -> (s: &'static str)
        ensures
            s@ == match self {
                LlmErrorKind::RateLimited => "rate limited"@,
                LlmErrorKind::Server => "server error"@,
                LlmErrorKind::Network => "network error"@,
                LlmErrorKind::Timeout => "timeout"@,
                LlmErrorKind::Client => "client error"@,
                LlmErrorKind::Deserialize => "deserialization error"@,
                LlmErrorKind::Cancelled => "request cancelled"@,
                LlmErrorKind::ContextLengthExceeded => "context length exceeded"@,
                LlmErrorKind::Authentication => "authentication error"@,
                LlmErrorKind::Unknown => "unknown error"@,
            },
    {
        match self {
            LlmErrorKind::RateLimited => "rate limited",
            LlmErrorKind::Server => "server error",
            LlmErrorKind::Network => "network error",
            LlmErrorKind::Timeout => "timeout",
            LlmErrorKind::Client => "client error",
            LlmErrorKind::Deserialize => "deserialization error",
            LlmErrorKind::Cancelled => "request cancelled",
            LlmErrorKind::ContextLengthExceeded => "context length exceeded",
            LlmErrorKind::Authentication => "authentication error",
            LlmErrorKind::Unknown => "unknown error",
        }
    }
}

/// Transient failures worth retrying.
pub open spec fn retryable(kind: LlmErrorKind) -> bool {
    kind == LlmErrorKind::RateLimited || kind == LlmErrorKind::Server || kind
        == LlmErrorKind::Network || kind == LlmErrorKind::Timeout
}

/// Whether a request that failed with `kind` is retried.
pub fn should_retry(kind: LlmErrorKind) -> (b: bool)
    ensures
        b == retryable(kind),
{
    match kind {
        LlmErrorKind::RateLimited | LlmErrorKind::Server | LlmErrorKind::Network
        | LlmErrorKind::Timeout => true,
        _ => false,
    }
}

/// Retry settings of the model client.
#[derive(Debug, Clone, Copy)]
pub struct RetryConfig {
    pub respect_retry_after: bool,
    pub retry_base_ms: u64,
    pub retry_jitter_ms: u64,
}

/// A delay, in seconds or in milliseconds.
#[derive(Debug, Clone, Copy, PartialEq, Eq, Structural)]
pub enum Delay {
    Seconds(u64),
    Millis(u64),
}

/// `2^n`.
pub open spec fn pow2(n: nat) -> nat
    decreases n,
{
    if n == 0 {
        1
    } else {
        2 * pow2((n - 1) as nat)
    }
}

/// Backoff before retry `attempt` given a jitter draw: a server-provided
/// `Retry-After` when honoured, else `base * 2^(attempt-1)` plus the
/// non-negative part of the draw, saturating at `u64::MAX`.
pub open spec fn backoff_spec(cfg: RetryConfig, attempt: nat, retry_after: Option<u64>, draw: int) -> Delay {
    if cfg.respect_retry_after && retry_after.is_some() {
        Delay::Seconds(retry_after.unwrap())
    } else {
        let exp = cfg.retry_base_ms * pow2((attempt - 1) as nat);
        let exp_sat: int = if exp > u64::MAX { u64::MAX as int } else { exp };
        let extra: int = if draw > 0 { draw } else { 0 };
        let total = exp_sat + extra;
        Delay::Millis(if total > u64::MAX { u64::MAX } else { total as u64 })
    }
}

/// Half the jitter span, as drawn around zero.
pub open spec fn jitter_half(cfg: RetryConfig) -> int {
    (cfg.retry_jitter_ms as int) / 2
}

/// Uniform random draw in `[-half, half]` (`fastrand::i64`): only its
/// range is stated, since the value is random.
#[verifier::external_body]
fn random_jitter(half: i64) -> (r: i64)
    requires
        half >= 0,
    ensures
        -half <= r <= half,
{
    fastrand::i64(-half..=half)
}

/// Backoff for a given jitter draw (see [`backoff_spec`]).
pub fn backoff_from(cfg: RetryConfig, attempt: usize, retry_after_secs: Option<u64>, draw: i64) -> (d: Delay)
    requires
        1 <= attempt <= 64,
    ensures
        d == backoff_spec(cfg, attempt as nat, retry_after_secs, draw as int),
{
    if cfg.respect_retry_after {
        if let Some(secs) = retry_after_secs {
            return Delay::Seconds(secs);
        }
    }
    let mut k: usize = 1;
    let mut exp: u64 = cfg.retry_base_ms;
    let mut saturated = false;
    assert(pow2(0) == 1);
    assert(cfg.retry_base_ms * pow2(0) == cfg.retry_base_ms);
    while k < attempt
        invariant
            1 <= k <= attempt <= 64,
            saturated ==> cfg.retry_base_ms * pow2((k - 1) as nat) > u64::MAX,
            !saturated ==> exp == cfg.retry_base_ms * pow2((k - 1) as nat),
        decreases attempt - k,
    {
        proof {
            assert(pow2(k as nat) == 2 * pow2((k - 1) as nat));
            assert(cfg.retry_base_ms * pow2(k as nat) == 2 * (cfg.retry_base_ms * pow2((k - 1) as nat))) by (nonlinear_arith)
                requires pow2(k as nat) == 2 * pow2((k - 1) as nat);
        }
        if !saturated {
            if exp > u64::MAX / 2 {
                saturated = true;
            } else {
                exp = exp * 2;
            }
        }
        k += 1;
    }
    let exp_sat: u64 = if saturated { u64::MAX } else { exp };
    let extra: u64 = if draw > 0 { draw as u64 } else { 0 };
    let total: u64 = if exp_sat > u64::MAX - extra { u64::MAX } else { exp_sat + extra };
    Delay::Millis(total)
}

/// Backoff before retry `attempt`, with a random jitter draw: equal to
/// [`backoff_spec`] for some draw in the jitter range.
pub fn backoff_delay(cfg: RetryConfig, attempt: usize, retry_after_secs: Option<u64>) -> (d: Delay)
    requires
        1 <= attempt <= 64,
        cfg.retry_jitter_ms <= i64::MAX,
    ensures
        exists|draw: int|
            -jitter_half(cfg) <= draw <= jitter_half(cfg) && d == backoff_spec(
                cfg,
                attempt as nat,
                retry_after_secs,
                draw,
            ),
{
    let half = (cfg.retry_jitter_ms as i64) / 2;
    let draw = random_jitter(half);
    backoff_from(cfg, attempt, retry_after_secs, draw)
}

// ---------------------------------------------------------------------------
// Agent-loop errors
// ---------------------------------------------------------------------------
/// Failure of the agent loop.
#[derive(Debug, Clone)]
pub enum AgentLoopError {
    Llm(String),
    MaxIterations(usize),
    DiffCollection(String),
    Serialization(String),
    Unknown(String),
}

impl AgentLoopError {
    /// An error of unknown origin, carrying its message.
    pub fn from_message(msg: String) -> (e: Self)
        ensures
            e == AgentLoopError::Unknown(msg),
    {
        AgentLoopError::Unknown(msg)
    }
}

/// UI line reporting an agent error: `::error:<kind>:<detail>`.
pub open spec fn agent_error_line(e: AgentLoopError) -> Seq<char> {
    match e {
        AgentLoopError::Llm(m) => "::error:llm:"@ + m@,
        AgentLoopError::MaxIterations(n) => "::error:max_iterations:"@ + crate::text::decimal(n as nat),
        AgentLoopError::DiffCollection(m) => "::error:diff_collection:"@ + m@,
        AgentLoopError::Serialization(m) => "::error:serialization:"@ + m@,
        AgentLoopError::Unknown(m) => "::error:unknown:"@ + m@,
    }
}

/// The UI line that reports `error` (see [`agent_error_line`]); the caller
/// sends it and logs the error.
pub fn handle_agent_error(error: &AgentLoopError) -> (line: String)
    ensures
        line@ == agent_error_line(*error),
{
    match error {
        AgentLoopError::Llm(m) => {
            let mut s = String::from_str("::error:llm:");
            push_str(&mut s, m.as_str());
            s
        },
        AgentLoopError::MaxIterations(n) => {
            let mut s = String::from_str("::error:max_iterations:");
            push_decimal(&mut s, *n as u64);
            s
        },
        AgentLoopError::DiffCollection(m) => {
            let mut s = String::from_str("::error:diff_collection:");
            push_str(&mut s, m.as_str());
            s
        },
        AgentLoopError::Serialization(m) => {
            let mut s = String::from_str("::error:serialization:");
            push_str(&mut s, m.as_str());
            s
        },
        AgentLoopError::Unknown(m) => {
            let mut s = String::from_str("::error:unknown:");
            push_str(&mut s, m.as_str());
            s
        },
    }
}

// ---------------------------------------------------------------------------
// Error hints
// ---------------------------------------------------------------------------
/// Lower-case form of a text (`str::to_lowercase`, full Unicode mapping).
pub uninterp spec fn lowercase(s: Seq<char>) -> Seq<char>;

/// ASCII lower-casing of one character.
pub open spec fn ascii_lower(c: char) -> char {
    if 'A' <= c && c <= 'Z' {
        ((c as u32) + 32) as char
    } else {
        c
    }
}

/// Lower-cases a text (`str::to_lowercase`): the result is named by
/// [`lowercase`]; on ASCII text it maps `A`-`Z` to `a`-`z` and keeps every
/// other character, as the documentation states.
#[verifier::external_body]
fn to_lower(s: &str) -> (r: String)
    ensures
        r@ == lowercase(s@),
        (forall|i: int| 0 <= i < s@.len() ==> (s@[i] as u32) < 128) ==> r@ == s@.map_values(
            |c: char| ascii_lower(c),
        ),
{
    s.to_lowercase()
}

/// Hint shown for a not-found error.
pub open spec fn hint_not_found() -> Seq<char> {
    "Hint: The file was not found. \n1. Use `fs_list` to verify the directory structure.\n2. Use `find_file` to search for the file if you are unsure of the path."@
}

/// Hint shown for a failed patch.
pub open spec fn hint_patch() -> Seq<char> {
    "Hint: Patch failed due to context mismatch.\n1. The file content may have changed. Use `fs_read` to get the FRESH content.\n2. Rewrite the patch using the exact lines from the fresh content as context."@
}

/// Hint shown for a JSON problem.
pub open spec fn hint_json() -> Seq<char> {
    "Hint: JSON serialization/parsing failed.\n1. Check if you are using unescaped quotes inside strings.\n2. Ensure the arguments match the tool schema exactly.\n3. Wrap your step-by-step thinking in <thinking> tags to calm down and format correct JSON."@
}

/// Hint shown for a syntax error.
pub open spec fn hint_syntax() -> Seq<char> {
    "Hint: Syntax error detected in the code you wrote.\n1. Read the error message carefully.\n2. If it's a bracket mismatch, check the nesting.\n3. Fix the code immediately."@
}

/// Hint shown for a timeout.
pub open spec fn hint_timeout() -> Seq<char> {
    "Hint: The operation timed out.\n1. If you are reading a huge file, try reading it in chunks or use `grep_search` to find what you need.\n2. If it's a network request, try again."@
}

/// Hint for a lower-cased error text: the first matching category among
/// not-found, failed patch, JSON, syntax and timeout.
pub open spec fn hint_for(l: Seq<char>) -> Option<Seq<char>> {
    if contains_seq(l, "no such file"@) || contains_seq(l, "not found"@) {
        Some(hint_not_found())
    } else if contains_seq(l, "context bounds"@) || contains_seq(l, "patch failed"@)
        || contains_seq(l, "hunk"@) {
        Some(hint_patch())
    } else if contains_seq(l, "json"@) || contains_seq(l, "parse error"@) || contains_seq(
        l,
        "invalid request"@,
    ) {
        Some(hint_json())
    } else if contains_seq(l, "syntax"@) {
        Some(hint_syntax())
    } else if contains_seq(l, "timeout"@) {
        Some(hint_timeout())
    } else {
        None
    }
}

/// Whether every character of a text is ASCII.
pub open spec fn ascii_text(s: Seq<char>) -> bool {
    forall|i: int| 0 <= i < s.len() ==> (s[i] as u32) < 128
}

/// Hint for an error message, matched case-insensitively (see
/// [`hint_for`]): on the message lower-cased by `str::to_lowercase`, which
/// for an ASCII message maps `A`-`Z` to `a`-`z` and keeps the rest.
pub fn get_error_hint(err_str: &str) -> (r: Option<&'static str>)
    ensures
        match r {
            Some(h) => hint_for(lowercase(err_str@)) == Some(h@),
            None => hint_for(lowercase(err_str@)).is_none(),
        },
        ascii_text(err_str@) ==> match r {
            Some(h) => hint_for(err_str@.map_values(|c: char| ascii_lower(c))) == Some(h@),
            None => hint_for(err_str@.map_values(|c: char| ascii_lower(c))).is_none(),
        },
{
    let lower = to_lower(err_str);
    hint_for_lowered(lower.as_str())
}

/// Hint for an already lower-cased error message (see [`hint_for`]).
pub fn hint_for_lowered(l: &str) -> (r: Option<&'static str>)
    ensures
        match r {
            Some(h) => hint_for(l@) == Some(h@),
            None => hint_for(l@).is_none(),
        },
{
    if str_contains(l, "no such file") || str_contains(l, "not found") {
        Some(
            "Hint: The file was not found. \n1. Use `fs_list` to verify the directory structure.\n2. Use `find_file` to search for the file if you are unsure of the path.",
        )
    } else if str_contains(l, "context bounds") || str_contains(l, "patch failed") || str_contains(
        l,
        "hunk",
    ) {
        Some(
            "Hint: Patch failed due to context mismatch.\n1. The file content may have changed. Use `fs_read` to get the FRESH content.\n2. Rewrite the patch using the exact lines from the fresh content as context.",
        )
    } else if str_contains(l, "json") || str_contains(l, "parse error") || str_contains(
        l,
        "invalid request",
    ) {
        Some(
            "Hint: JSON serialization/parsing failed.\n1. Check if you are using unescaped quotes inside strings.\n2. Ensure the arguments match the tool schema exactly.\n3. Wrap your step-by-step thinking in <thinking> tags to calm down and format correct JSON.",
        )
    } else if str_contains(l, "syntax") {
        Some(
            "Hint: Syntax error detected in the code you wrote.\n1. Read the error message carefully.\n2. If it's a bracket mismatch, check the nesting.\n3. Fix the code immediately.",
        )
    } else if str_contains(l, "timeout") {
        Some(
            "Hint: The operation timed out.\n1. If you are reading a huge file, try reading it in chunks or use `grep_search` to find what you need.\n2. If it's a network request, try again.",
        )
    } else {
        None
    }
}

// ---------------------------------------------------------------------------
// Final turn and sub-agent summary
// ---------------------------------------------------------------------------
/// Appends the final assistant message (content and tool calls of `msg`, no
/// tool-call id) to the history and hands both back.
pub fn complete_agent_loop(messages: Vec<ChatMessage>, msg: ChatMessage) -> (r: (Vec<ChatMessage>, ChatMessage))
    ensures
        msgs_view(r.0@) == msgs_view(messages@).push(
            MessageView {
                role: "assistant"@,
                content: msg@.content,
                tool_calls: msg@.tool_calls,
                tool_call_id: None,
            },
        ),
        r.1@ == msg@,
{
    let mut messages = messages;
    let ghost prev = msgs_view(messages@);
    let m = ChatMessage {
        role: String::from_str("assistant"),
        content: crate::messages::copy_opt(&msg.content),
        tool_calls: copy_calls(&msg.tool_calls),
        tool_call_id: None,
    };
    let ghost mv = m@;
    messages.push(m);
    assert(msgs_view(messages@) =~= prev.push(mv));
    (messages, msg)
}

/// UI status line announcing the final answer, when it has content.
pub fn final_status_line(msg: &ChatMessage) -> (r: Option<String>)
    ensures
        match r {
            Some(s) => msg@.content.is_some() && msg@.content.unwrap().len() > 0 && s@
                == "::status:done:"@ + msg@.content.unwrap(),
            None => msg@.content.is_none() || msg@.content.unwrap().len() == 0,
        },
{
    match &msg.content {
        Some(c) => {
            if c.as_str().is_empty() {
                None
            } else {
                let mut s = String::from_str("::status:done:");
                push_str(&mut s, c.as_str());
                Some(s)
            }
        },
        None => None,
    }
}

/// Character budget of a sub-agent summary.
pub const SUBAGENT_SUMMARY_BUDGET_CHARS: usize = 4000;

/// Sub-agent summary: a fixed notice when the answer is blank, else the
/// trimmed answer cut to the summary budget.
pub open spec fn summary_of(content: Seq<char>) -> Seq<char> {
    let t = trim_spec(content);
    if t.len() == 0 {
        "Sub-agent returned an empty summary."@
    } else {
        head_spec(t, SUBAGENT_SUMMARY_BUDGET_CHARS as nat).0
    }
}

/// Condenses a sub-agent's final answer (see [`summary_of`]).
pub fn summarize_final(content: &str) -> (s: String)
    ensures
        s@ == summary_of(content@),
        s@.len() <= SUBAGENT_SUMMARY_BUDGET_CHARS,
{
    let trimmed = trim_str(content);
    if trimmed.as_str().is_empty() {
        proof {
            reveal_strlit("Sub-agent returned an empty summary.");
        }
        return String::from_str("Sub-agent returned an empty summary.");
    }
    head_truncate(trimmed.as_str(), SUBAGENT_SUMMARY_BUDGET_CHARS).text
}

/// A completed sub-agent run.
#[derive(Debug, Clone)]
pub struct SubagentRun {
    pub summary: String,
    pub files_examined: Vec<String>,
    pub iterations: usize,
    pub tool_calls: usize,
}

} // verus!
