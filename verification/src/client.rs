//! Decisions of the chat-completions client: the endpoint URL, the error
//! classification, the retry protocol of a request and of a stream, and the
//! framing of server-sent events.
use crate::agent::{retryable, LlmErrorKind};
use crate::messages::Usage;
use crate::text::{
    chars_of, contains_seq, is_last_match, push_chars, push_str, rfind, slice_to_vec, starts_with,
    string_from, trim_chars, trim_spec,
};
use crate::wire::{ChatStreamChunk, StreamChoice};
use vstd::prelude::*;
use vstd::string::*;
use vstd::utf8::*;

verus! {

// ---------------------------------------------------------------------------
// Endpoint
// ---------------------------------------------------------------------------
/// `s` with every trailing `c` removed (`str::trim_end_matches`).
pub open spec fn trim_end_char(s: Seq<char>, c: char) -> Seq<char>
    decreases s.len(),
{
    if s.len() > 0 && s.last() == c {
        trim_end_char(s.drop_last(), c)
    } else {
        s
    }
}

/// Index of the last `/v1` in `s`.
pub open spec fn last_v1(s: Seq<char>) -> int {
    choose|i: int| is_last_match(s, "/v1"@, i)
}

/// The chat-completions URL for a base URL: trailing slashes dropped, the
/// base cut before its last `/v1` (and trailing slashes dropped again), then
/// `/v1/chat/completions` appended.
pub open spec fn endpoint_spec(base_url: Seq<char>) -> Seq<char> {
    let b = trim_end_char(base_url, '/');
    let root = if contains_seq(b, "/v1"@) {
        trim_end_char(b.take(last_v1(b)), '/')
    } else {
        b
    };
    root + "/v1/chat/completions"@
}

fn trim_end_slashes(s: &[char], end: usize) -> (k: usize)
    requires
        end <= s.len(),
    ensures
        k <= end,
        s@.take(k as int) == trim_end_char(s@.take(end as int), '/'),
{
    let mut k = end;
    while k > 0 && s[k - 1] == '/'
        invariant
            k <= end <= s.len(),
            trim_end_char(s@.take(end as int), '/') == trim_end_char(s@.take(k as int), '/'),
        decreases k,
    {
        assert(s@.take(k as int).drop_last() == s@.take(k - 1));
        k -= 1;
    }
    k
}

/// The chat-completions URL for `base_url` (see [`endpoint_spec`]).
pub fn endpoint(base_url: &str) -> (url: String)
    ensures
        url@ == endpoint_spec(base_url@),
{
    let cs = chars_of(base_url);
    let n = trim_end_slashes(cs.as_slice(), cs.len());
    assert(cs@.take(cs.len() as int) == cs@);
    let b = slice_to_vec(cs.as_slice(), 0, n);
    let v1 = chars_of("/v1");
    let root_len = match rfind(b.as_slice(), v1.as_slice()) {
        Some(pos) => {
            proof {
                assert(is_last_match(b@, "/v1"@, pos as int));
                let c = last_v1(b@);
                assert(is_last_match(b@, "/v1"@, c));
                if c < pos as int {
                    assert(!crate::text::matches_at(b@, "/v1"@, pos as int));
                } else if pos < c {
                    assert(!crate::text::matches_at(b@, "/v1"@, c));
                }
            }
            let k = trim_end_slashes(b.as_slice(), pos);
            assert(b@.take(pos as int) == b@.take(last_v1(b@)));
            k
        },
        None => {
            assert(b@.take(b.len() as int) == b@);
            b.len()
        },
    };
    let mut url = string_from(slice_to_vec(b.as_slice(), 0, root_len).as_slice());
    push_str(&mut url, "/v1/chat/completions");
    url
}

/// Whether the service at `url` gets reasoning enabled (the OpenAI API).
pub fn reason_enabled(url: &str) -> (b: bool)
    ensures
        b == contains_seq(url@, "api.openai.com"@),
{
    crate::text::str_contains(url, "api.openai.com")
}

// ---------------------------------------------------------------------------
// Error classification
// ---------------------------------------------------------------------------
/// What the classification reads of a failed request's error: the kind it
/// already carries, and whether it is a transport error that timed out or
/// failed to connect, send or read.
#[derive(Debug, Clone, Copy)]
pub struct ErrorFacts {
    pub own_kind: Option<LlmErrorKind>,
    pub timed_out: bool,
    pub transport: bool,
}

/// Kind of a failed request: the kind the error carries; else by HTTP
/// status (429 rate limited, 5xx server, 4xx client); else by transport
/// failure (timeout, then network); else unknown.
pub open spec fn classify_spec(status: Option<u16>, e: ErrorFacts) -> LlmErrorKind {
    if e.own_kind.is_some() {
        e.own_kind.unwrap()
    } else if status.is_some() && status.unwrap() == 429 {
        LlmErrorKind::RateLimited
    } else if status.is_some() && 500 <= status.unwrap() <= 599 {
        LlmErrorKind::Server
    } else if status.is_some() && 400 <= status.unwrap() <= 499 {
        LlmErrorKind::Client
    } else if e.timed_out {
        LlmErrorKind::Timeout
    } else if e.transport {
        LlmErrorKind::Network
    } else {
        LlmErrorKind::Unknown
    }
}

/// Classifies a failed request (see [`classify_spec`]).
pub fn classify_error(status: Option<u16>, err: &ErrorFacts) -> (k: LlmErrorKind)
    ensures
        k == classify_spec(status, *err),
{
    if let Some(k) = err.own_kind {
        return k;
    }
    if let Some(st) = status {
        if st == 429 {
            return LlmErrorKind::RateLimited;
        }
        if 500 <= st && st <= 599 {
            return LlmErrorKind::Server;
        }
        if 400 <= st && st <= 499 {
            return LlmErrorKind::Client;
        }
    }
    if err.timed_out {
        LlmErrorKind::Timeout
    } else if err.transport {
        LlmErrorKind::Network
    } else {
        LlmErrorKind::Unknown
    }
}

// ---------------------------------------------------------------------------
// Retry protocol of one request
// ---------------------------------------------------------------------------
/// Attempts allowed for `max_retries` retries (saturating).
pub fn max_attempts(max_retries: usize) -> (n: usize)
    ensures
        n == (if max_retries == usize::MAX {
            usize::MAX as int
        } else {
            max_retries + 1
        }),
{
    max_retries.saturating_add(1)
}

/// How one attempt of a request ended.
#[derive(Debug, Clone, Copy, PartialEq, Eq, Structural)]
pub enum AttemptOutcome {
    /// The request could not be sent; the error is of this kind.
    SendFailed(LlmErrorKind),
    /// The server answered with a non-success status, classified as
    /// `kind`, possibly naming a `Retry-After` in seconds.
    HttpFailed { kind: LlmErrorKind, retry_after: Option<u64> },
    /// The body of a success reply could not be read.
    BodyFailed(LlmErrorKind),
    /// The body was parsed; it holds a choice or not.
    Parsed { has_choice: bool },
    /// The body could not be parsed.
    ParseFailed,
}

/// What the client does after an attempt.
#[derive(Debug, Clone, Copy, PartialEq, Eq, Structural)]
pub enum AttemptAction {
    /// Wait the backoff for this attempt (honouring `retry_after` when so
    /// configured), then try again.
    Retry { retry_after: Option<u64> },
    /// Try again at once.
    RetryNow,
    /// Return this attempt's error.
    Fail,
    /// Return the first choice.
    Succeed,
}

/// Decision after attempt `attempt` of `max`: transient failures are
/// retried while attempts remain; a send failure of another kind is tried
/// again at once while attempts remain; a non-transient HTTP, read or parse
/// failure, a reply without choices, and a failure at the last attempt end
/// the request.
pub open spec fn attempt_action_spec(attempt: nat, max: nat, o: AttemptOutcome) -> AttemptAction {
    match o {
        AttemptOutcome::SendFailed(k) => if attempt < max {
            if retryable(k) {
                AttemptAction::Retry { retry_after: None }
            } else {
                AttemptAction::RetryNow
            }
        } else {
            AttemptAction::Fail
        },
        AttemptOutcome::HttpFailed { kind, retry_after } => if retryable(kind) && attempt < max {
            AttemptAction::Retry { retry_after }
        } else {
            AttemptAction::Fail
        },
        AttemptOutcome::BodyFailed(k) => if retryable(k) && attempt < max {
            AttemptAction::Retry { retry_after: None }
        } else {
            AttemptAction::Fail
        },
        AttemptOutcome::Parsed { has_choice } => if has_choice {
            AttemptAction::Succeed
        } else {
            AttemptAction::Fail
        },
        AttemptOutcome::ParseFailed => AttemptAction::Fail,
    }
}

/// Decides what follows attempt `attempt` of `max_attempts` (see
/// [`attempt_action_spec`]); no retry is ever decided at the last attempt.
pub fn chat_attempt_action(attempt: usize, max_attempts: usize, outcome: AttemptOutcome) -> (a: AttemptAction)
    requires
        1 <= attempt <= max_attempts,
    ensures
        a == attempt_action_spec(attempt as nat, max_attempts as nat, outcome),
        (a is Retry || a is RetryNow) ==> attempt < max_attempts,
{
    match outcome {
        AttemptOutcome::SendFailed(k) => {
            if attempt < max_attempts {
                if crate::agent::should_retry(k) {
                    AttemptAction::Retry { retry_after: None }
                } else {
                    AttemptAction::RetryNow
                }
            } else {
                AttemptAction::Fail
            }
        },
        AttemptOutcome::HttpFailed { kind, retry_after } => {
            if crate::agent::should_retry(kind) && attempt < max_attempts {
                AttemptAction::Retry { retry_after }
            } else {
                AttemptAction::Fail
            }
        },
        AttemptOutcome::BodyFailed(k) => {
            if crate::agent::should_retry(k) && attempt < max_attempts {
                AttemptAction::Retry { retry_after: None }
            } else {
                AttemptAction::Fail
            }
        },
        AttemptOutcome::Parsed { has_choice } => {
            if has_choice {
                AttemptAction::Succeed
            } else {
                AttemptAction::Fail
            }
        },
        AttemptOutcome::ParseFailed => AttemptAction::Fail,
    }
}

// ---------------------------------------------------------------------------
// Retry protocol of a stream
// ---------------------------------------------------------------------------
/// How one attempt to open a stream ended.
#[derive(Debug, Clone, Copy, PartialEq, Eq, Structural)]
pub enum StreamOutcome {
    SendFailed,
    HttpFailed { status: u16 },
    Connected,
}

/// What the client does after an attempt to open a stream.
#[derive(Debug, Clone, Copy, PartialEq, Eq, Structural)]
pub enum StreamAction {
    /// Wait the backoff for this attempt, then try again.
    Retry,
    /// Return this attempt's error.
    Fail,
    /// Read the stream.
    Proceed,
}

/// Opening a stream is retried, while attempts remain, after a send
/// failure or a 5xx or 429 status; other statuses end it.
pub open spec fn stream_action_spec(attempt: nat, max: nat, o: StreamOutcome) -> StreamAction {
    match o {
        StreamOutcome::SendFailed => if attempt < max {
            StreamAction::Retry
        } else {
            StreamAction::Fail
        },
        StreamOutcome::HttpFailed { status } => if attempt < max && ((500 <= status <= 599)
            || status == 429) {
            StreamAction::Retry
        } else {
            StreamAction::Fail
        },
        StreamOutcome::Connected => StreamAction::Proceed,
    }
}

/// Decides what follows attempt `attempt` of `max_attempts` to open a
/// stream (see [`stream_action_spec`]).
pub fn stream_open_action(attempt: usize, max_attempts: usize, outcome: StreamOutcome) -> (a: StreamAction)
    requires
        1 <= attempt <= max_attempts,
    ensures
        a == stream_action_spec(attempt as nat, max_attempts as nat, outcome),
        a is Retry ==> attempt < max_attempts,
{
    match outcome {
        StreamOutcome::SendFailed => {
            if attempt < max_attempts {
                StreamAction::Retry
            } else {
                StreamAction::Fail
            }
        },
        StreamOutcome::HttpFailed { status } => {
            if attempt < max_attempts && ((500 <= status && status <= 599) || status == 429) {
                StreamAction::Retry
            } else {
                StreamAction::Fail
            }
        },
        StreamOutcome::Connected => StreamAction::Proceed,
    }
}

// ---------------------------------------------------------------------------
// Server-sent events
// ---------------------------------------------------------------------------
/// Left-to-right split of bytes at `\n`: finished lines (without the
/// terminator) and the unfinished rest.
pub open spec fn byte_lines(b: Seq<u8>) -> (Seq<Seq<u8>>, Seq<u8>)
    decreases b.len(),
{
    if b.len() == 0 {
        (Seq::empty(), Seq::empty())
    } else {
        let (ls, cur) = byte_lines(b.drop_last());
        if b.last() == 10u8 {
            (ls.push(cur), Seq::empty())
        } else {
            (ls, cur.push(b.last()))
        }
    }
}

/// Views of byte buffers.
pub open spec fn byte_bufs(v: Seq<Vec<u8>>) -> Seq<Seq<u8>> {
    v.map_values(|x: Vec<u8>| x@)
}

/// Splits buffered stream bytes into finished lines, and returns how many
/// bytes they used; the bytes after that are the unfinished line.
pub fn split_lines(buf: &[u8]) -> (r: (Vec<Vec<u8>>, usize))
    ensures
        r.1 <= buf.len(),
        (byte_bufs(r.0@), buf@.subrange(r.1 as int, buf.len() as int)) == byte_lines(buf@),
{
    let mut ls: Vec<Vec<u8>> = Vec::new();
    let mut cur: Vec<u8> = Vec::new();
    let mut start: usize = 0;
    let mut i: usize = 0;
    while i < buf.len()
        invariant
            start <= i <= buf.len(),
            cur@ == buf@.subrange(start as int, i as int),
            byte_lines(buf@.take(i as int)) == (byte_bufs(ls@), cur@),
        decreases buf.len() - i,
    {
        assert(buf@.take(i + 1).drop_last() == buf@.take(i as int));
        if buf[i] == 10u8 {
            let ghost prev = byte_bufs(ls@);
            let ghost pc = cur@;
            ls.push(cur);
            assert(byte_bufs(ls@) =~= prev.push(pc));
            cur = Vec::new();
            start = i + 1;
        } else {
            cur.push(buf[i]);
        }
        i += 1;
    }
    assert(buf@.take(buf.len() as int) == buf@);
    (ls, start)
}

/// Decodes a line as UTF-8 (`std::str::from_utf8`): `None` exactly when the
/// bytes are not valid UTF-8, else the decoded text.
#[verifier::external_body]
fn utf8_text(bytes: &[u8]) -> (r: Option<String>)
    ensures
        r.is_some() == valid_utf8(bytes@),
        r.is_some() ==> r.unwrap()@ == decode_utf8(bytes@),
{
    std::str::from_utf8(bytes).ok().map(|s| s.to_string())
}

/// Meaning of one stream line.
#[derive(Debug, Clone, PartialEq, Eq)]
pub enum SseLine {
    /// Not UTF-8, or blank: ignored.
    Skip,
    /// The end-of-stream sentinel `[DONE]`.
    Done,
    /// A payload to parse as a chunk.
    Data(String),
}

/// Payload of a text line: trimmed, without a leading `data:` (and the
/// white space after it).
pub open spec fn sse_payload(t: Seq<char>) -> Seq<char> {
    if starts_with(t, "data:"@) {
        trim_spec(t.subrange(5, t.len() as int))
    } else {
        t
    }
}

/// Meaning of a line of bytes: skipped when not UTF-8 or blank; the
/// sentinel when its payload is `[DONE]`; else its payload.
pub open spec fn sse_line_spec(bytes: Seq<u8>) -> (bool, bool, Seq<char>) {
    if !valid_utf8(bytes) || trim_spec(decode_utf8(bytes)).len() == 0 {
        (true, false, Seq::empty())
    } else {
        let p = sse_payload(trim_spec(decode_utf8(bytes)));
        if p == "[DONE]"@ {
            (false, true, Seq::empty())
        } else {
            (false, false, p)
        }
    }
}

/// View of an [`SseLine`]: (skipped, sentinel, payload).
pub open spec fn sse_view(l: SseLine) -> (bool, bool, Seq<char>) {
    match l {
        SseLine::Skip => (true, false, Seq::empty()),
        SseLine::Done => (false, true, Seq::empty()),
        SseLine::Data(s) => (false, false, s@),
    }
}

/// Interprets one line of a stream (see [`sse_line_spec`]).
pub fn sse_line(bytes: &[u8]) -> (r: SseLine)
    ensures
        sse_view(r) == sse_line_spec(bytes@),
{
    let text = match utf8_text(bytes) {
        Some(t) => t,
        None => {
            return SseLine::Skip;
        },
    };
    let cs = chars_of(text.as_str());
    let t = trim_chars(cs.as_slice());
    if t.len() == 0 {
        return SseLine::Skip;
    }
    let data = chars_of("data:");
    let p = if crate::text::has_prefix(t.as_slice(), data.as_slice()) {
        proof {
            reveal_strlit("data:");
        }
        let rest = slice_to_vec(t.as_slice(), 5, t.len());
        trim_chars(rest.as_slice())
    } else {
        t
    };
    let done = chars_of("[DONE]");
    if crate::text::chars_eq(p.as_slice(), done.as_slice()) {
        SseLine::Done
    } else {
        SseLine::Data(string_from(p.as_slice()))
    }
}

// ---------------------------------------------------------------------------
// Chunk events
// ---------------------------------------------------------------------------
/// What a stream chunk yields to the reader.
#[derive(Debug, Clone)]
pub enum ChunkEvent {
    /// A piece of reply text.
    Text(String),
    /// The tool-call deltas of the choice at this position in the chunk.
    ToolCalls(usize),
}

/// Value of a [`ChunkEvent`]: text, or the position of a choice.
pub enum ChunkEventView {
    Text(Seq<char>),
    ToolCalls(nat),
}

impl View for ChunkEvent {
    type V = ChunkEventView;

    open spec fn view(&self) -> ChunkEventView {
        match self {
            ChunkEvent::Text(s) => ChunkEventView::Text(s@),
            ChunkEvent::ToolCalls(i) => ChunkEventView::ToolCalls(*i as nat),
        }
    }
}

/// Whether a choice finished with reason `stop`.
pub open spec fn stopped(c: StreamChoice) -> bool {
    c.finish_reason.is_some() && c.finish_reason.unwrap()@ == "stop"@
}

/// Events of the choice at position `i`: none once stopped; else its text
/// when non-empty, then its tool-call deltas when there are any.
pub open spec fn choice_events(c: StreamChoice, i: nat) -> Seq<ChunkEventView> {
    if stopped(c) {
        Seq::empty()
    } else {
        (if c.delta.content@.len() > 0 {
            seq![ChunkEventView::Text(c.delta.content@)]
        } else {
            Seq::empty()
        }) + (if c.delta.tool_calls@.len() > 0 {
            seq![ChunkEventView::ToolCalls(i)]
        } else {
            Seq::empty()
        })
    }
}

/// Events of the first `n` choices, in order.
pub open spec fn chunk_events_spec(cs: Seq<StreamChoice>, n: nat) -> Seq<ChunkEventView>
    decreases n,
{
    if n == 0 {
        Seq::empty()
    } else {
        chunk_events_spec(cs, (n - 1) as nat) + choice_events(cs[n - 1], (n - 1) as nat)
    }
}

/// Views of events.
pub open spec fn events_view(v: Seq<ChunkEvent>) -> Seq<ChunkEventView> {
    v.map_values(|e: ChunkEvent| e@)
}

/// The events a stream chunk yields (see [`chunk_events_spec`]).
pub fn chunk_events(chunk: &ChatStreamChunk) -> (out: Vec<ChunkEvent>)
    ensures
        events_view(out@) == chunk_events_spec(chunk.choices@, chunk.choices@.len()),
{
    let mut out: Vec<ChunkEvent> = Vec::new();
    let mut i: usize = 0;
    while i < chunk.choices.len()
        invariant
            i <= chunk.choices.len(),
            events_view(out@) == chunk_events_spec(chunk.choices@, i as nat),
        decreases chunk.choices.len() - i,
    {
        let c = &chunk.choices[i];
        let ghost prev = events_view(out@);
        let is_stop = match &c.finish_reason {
            Some(r) => crate::text::str_eq(r.as_str(), "stop"),
            None => false,
        };
        if !is_stop {
            if c.delta.content.unicode_len() > 0 {
                out.push(ChunkEvent::Text(c.delta.content.clone()));
            }
            if c.delta.tool_calls.len() > 0 {
                out.push(ChunkEvent::ToolCalls(i));
            }
        }
        proof {
            assert(events_view(out@) =~= prev + choice_events(chunk.choices@[i as int], i as nat));
        }
        i += 1;
    }
    out
}

/// Tokens a chunk reports, if it carries usage.
pub fn chunk_tokens(usage: &Option<Usage>) -> (t: Option<u32>)
    ensures
        t == (match usage {
            Some(u) => Some(u.total_tokens),
            None => None,
        }),
{
    match usage {
        Some(u) => Some(u.total_tokens),
        None => None,
    }
}

} // verus!
