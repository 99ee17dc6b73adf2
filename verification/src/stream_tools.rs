//! Tool calls rebuilt from streamed deltas.
use crate::messages::{msgs_view, opt_str, ChatMessage, MessageView, ToolCall, ToolCallFunction, ToolCallView};
use crate::text::{chars_of, decimal, push_decimal, push_str};
use vstd::prelude::*;
use vstd::string::*;

verus! {

/// A tool call put together from streamed fragments; `arguments` is the
/// raw JSON text.
#[derive(Debug, Clone)]
pub struct ReconstructedToolCall {
    pub id: Option<String>,
    pub name: String,
    pub arguments: String,
}

/// Value of a [`ReconstructedToolCall`]: id, name, arguments.
pub open spec fn call_view(c: ReconstructedToolCall) -> (Option<Seq<char>>, Seq<char>, Seq<char>) {
    (opt_str(c.id), c.name@, c.arguments@)
}

/// Views of rebuilt calls.
pub open spec fn calls_of(v: Seq<ReconstructedToolCall>) -> Seq<(Option<Seq<char>>, Seq<char>, Seq<char>)> {
    v.map_values(|c: ReconstructedToolCall| call_view(c))
}

/// An empty rebuilt call.
pub open spec fn empty_call() -> (Option<Seq<char>>, Seq<char>, Seq<char>) {
    (None, Seq::empty(), Seq::empty())
}

/// `calls` padded with empty calls to at least `n` entries.
pub open spec fn padded(
    calls: Seq<(Option<Seq<char>>, Seq<char>, Seq<char>)>,
    n: nat,
) -> Seq<(Option<Seq<char>>, Seq<char>, Seq<char>)> {
    if calls.len() >= n {
        calls
    } else {
        calls + Seq::new((n - calls.len()) as nat, |i: int| empty_call())
    }
}

/// A call after one delta: the id is set if it had none; the name and
/// arguments fragments are appended.
pub open spec fn apply_delta(
    c: (Option<Seq<char>>, Seq<char>, Seq<char>),
    name: Option<Seq<char>>,
    args: Option<Seq<char>>,
    id: Option<Seq<char>>,
) -> (Option<Seq<char>>, Seq<char>, Seq<char>) {
    (
        if c.0.is_none() && id.is_some() { id } else { c.0 },
        match name {
            Some(n) => c.1 + n,
            None => c.1,
        },
        match args {
            Some(a) => c.2 + a,
            None => c.2,
        },
    )
}

/// Buffer that rebuilds tool calls from streamed deltas, one slot per
/// call index.
#[derive(Debug)]
pub struct ToolDeltaBuffer {
    calls: Vec<ReconstructedToolCall>,
}

/// Text of an optional string slice.
pub open spec fn opt_slice(o: Option<&str>) -> Option<Seq<char>> {
    match o {
        Some(s) => Some(s@),
        None => None,
    }
}

/// Why `serde_json::from_str::<serde_json::Value>` rejects `text`, or
/// `None` when it is valid JSON.
pub uninterp spec fn json_error(text: Seq<char>) -> Option<Seq<char>>;

/// Checks that a text is JSON (`serde_json::from_str` into a
/// `serde_json::Value`): the result is named by [`json_error`].
#[verifier::external_body]
pub(crate) fn json_check(text: &str) -> (r: Option<String>)
    ensures
        opt_str(r) == json_error(text@),
{
    match serde_json::from_str::<serde_json::Value>(text) {
        Ok(_) => None,
        Err(e) => Some(e.to_string()),
    }
}

/// Result of finalising the call at `index`, given `args_error`, why its
/// arguments are not JSON (`None` when they are): an error when there is
/// no such call, when it has no name, or when its arguments are not JSON;
/// else the call, of type `function`.
pub open spec fn finalize_given(
    calls: Seq<(Option<Seq<char>>, Seq<char>, Seq<char>)>,
    index: nat,
    args_error: Option<Seq<char>>,
) -> Result<ToolCallView, Seq<char>> {
    if index >= calls.len() {
        Err("no tool call at index "@ + decimal(index))
    } else if calls[index as int].1.len() == 0 {
        Err("tool call missing name"@)
    } else {
        match args_error {
            Some(e) => Err("invalid tool arguments JSON: "@ + e),
            None => Ok(
                ToolCallView {
                    id: calls[index as int].0,
                    kind: "function"@,
                    name: calls[index as int].1,
                    arguments: calls[index as int].2,
                },
            ),
        }
    }
}

/// Result of finalising the call at `index` (see [`finalize_given`]), its
/// arguments checked by `serde_json`.
pub open spec fn finalize_spec(calls: Seq<(Option<Seq<char>>, Seq<char>, Seq<char>)>, index: nat) -> Result<
    ToolCallView,
    Seq<char>,
> {
    finalize_given(
        calls,
        index,
        if index < calls.len() {
            json_error(calls[index as int].2)
        } else {
            None
        },
    )
}

fn append_fragment(s: &mut String, frag: Option<&str>)
    ensures
        final(s)@ == match opt_slice(frag) {
            Some(n) => old(s)@ + n,
            None => old(s)@,
        },
{
    match frag {
        Some(n) => {
            if n.unicode_len() > 0 {
                push_str(s, n);
            } else {
                assert(old(s)@ + n@ =~= old(s)@);
            }
        },
        None => {},
    }
}

impl ToolDeltaBuffer {
    /// The calls, by index.
    pub closed spec fn calls(&self) -> Seq<(Option<Seq<char>>, Seq<char>, Seq<char>)> {
        calls_of(self.calls@)
    }

    /// An empty buffer.
    pub fn new() -> (b: Self)
        ensures
            b.calls().len() == 0,
    {
        let calls: Vec<ReconstructedToolCall> = Vec::new();
        assert(calls_of(calls@) =~= Seq::empty());
        ToolDeltaBuffer { calls }
    }

    /// Adds one streamed delta to the call at `index`, creating empty
    /// calls up to it when needed (see [`apply_delta`]).
    pub fn push_delta(&mut self, index: usize, name_delta: Option<&str>, args_delta: Option<&str>, id: Option<&str>)
        requires
            index < usize::MAX,
        ensures
            final(self).calls() == padded(old(self).calls(), (index + 1) as nat).update(
                index as int,
                apply_delta(
                    padded(old(self).calls(), (index + 1) as nat)[index as int],
                    opt_slice(name_delta),
                    opt_slice(args_delta),
                    opt_slice(id),
                ),
            ),
    {
        let ghost start = self.calls();
        let ghost target = padded(start, (index + 1) as nat);
        while self.calls.len() <= index
            invariant
                index < usize::MAX,
                start.len() <= self.calls@.len(),
                self.calls@.len() > start.len() ==> self.calls@.len() <= index + 1,
                calls_of(self.calls@) == padded(start, self.calls@.len() as nat),
            decreases index + 1 - self.calls.len(),
        {
            let ghost prev = calls_of(self.calls@);
            let ghost n = self.calls@.len();
            let e = ReconstructedToolCall { id: None, name: String::new(), arguments: String::new() };
            assert(call_view(e) == empty_call());
            self.calls.push(e);
            assert(calls_of(self.calls@) =~= prev.push(empty_call()));
            assert(padded(start, (n + 1) as nat) =~= padded(start, n as nat).push(empty_call()));
        }
        assert(calls_of(self.calls@) =~= target) by {
            if start.len() >= index + 1 {
                assert(padded(start, self.calls@.len() as nat) == start);
            }
        }
        let mut slot = self.calls.remove(index);
        let ghost before = call_view(slot);
        assert(before == target[index as int]);
        match id {
            Some(v) => {
                if slot.id.is_none() {
                    slot.id = Some(String::from_str(v));
                }
            },
            None => {},
        }
        append_fragment(&mut slot.name, name_delta);
        append_fragment(&mut slot.arguments, args_delta);
        self.calls.insert(index, slot);
        assert(calls_of(self.calls@) =~= target.update(
            index as int,
            apply_delta(before, opt_slice(name_delta), opt_slice(args_delta), opt_slice(id)),
        ));
    }

    /// The call at `index` as a tool call (see [`finalize_spec`]).
    pub fn finalize_sync_call(&self, index: usize) -> (r: Result<ToolCall, String>)
        ensures
            match r {
                Ok(c) => finalize_spec(self.calls(), index as nat) == Ok::<ToolCallView, Seq<char>>(c@),
                Err(e) => finalize_spec(self.calls(), index as nat) == Err::<ToolCallView, Seq<char>>(e@),
            },
    {
        let args_error = if index < self.calls.len() {
            assert(call_view(self.calls@[index as int]) == self.calls()[index as int]);
            json_check(self.calls[index].arguments.as_str())
        } else {
            None
        };
        self.finalize_with(index, args_error)
    }

    /// Finalises the call at `index` given why its arguments are not JSON
    /// (see [`finalize_given`]).
    pub fn finalize_with(&self, index: usize, args_error: Option<String>) -> (r: Result<ToolCall, String>)
        ensures
            match r {
                Ok(c) => finalize_given(self.calls(), index as nat, opt_str(args_error)) == Ok::<
                    ToolCallView,
                    Seq<char>,
                >(c@),
                Err(e) => finalize_given(self.calls(), index as nat, opt_str(args_error)) == Err::<
                    ToolCallView,
                    Seq<char>,
                >(e@),
            },
    {
        if index >= self.calls.len() {
            let mut e = String::from_str("no tool call at index ");
            push_decimal(&mut e, index as u64);
            return Err(e);
        }
        let rc = &self.calls[index];
        assert(call_view(*rc) == self.calls()[index as int]);
        if rc.name.unicode_len() == 0 {
            return Err(String::from_str("tool call missing name"));
        }
        match args_error {
            Some(err) => {
                let mut e = String::from_str("invalid tool arguments JSON: ");
                push_str(&mut e, err.as_str());
                Err(e)
            },
            None => Ok(
                ToolCall {
                    id: crate::messages::copy_opt(&rc.id),
                    kind: String::from_str("function"),
                    function: ToolCallFunction { name: rc.name.clone(), arguments: rc.arguments.clone() },
                },
            ),
        }
    }
}

// ---------------------------------------------------------------------------
// A streamed reply
// ---------------------------------------------------------------------------
/// Marker that opens a piece of streamed tool-call fragments.
pub const TOOL_DELTAS_MARKER: &'static str = "__TOOL_CALLS_DELTA__:";

/// What one piece of a streamed reply is.
#[derive(Debug, Clone, PartialEq, Eq)]
pub enum StreamPiece {
    /// The empty piece: the reply is over.
    End,
    /// Tool-call fragments, as the JSON text after the marker.
    ToolDeltas(String),
    /// Reply text.
    Text(String),
}

/// Classifies a piece of a streamed reply (see [`StreamPiece`]).
pub fn classify_stream_piece(piece: &str) -> (r: StreamPiece)
    ensures
        piece@.len() == 0 ==> r == StreamPiece::End,
        piece@.len() > 0 && crate::text::starts_with(piece@, TOOL_DELTAS_MARKER@) ==> (r is ToolDeltas
            && r->ToolDeltas_0@ == piece@.subrange(TOOL_DELTAS_MARKER@.len() as int, piece@.len() as int)),
        piece@.len() > 0 && !crate::text::starts_with(piece@, TOOL_DELTAS_MARKER@) ==> (r is Text
            && r->Text_0@ == piece@),
{
    let cs = chars_of(piece);
    if cs.len() == 0 {
        return StreamPiece::End;
    }
    let marker = chars_of(TOOL_DELTAS_MARKER);
    if crate::text::has_prefix(cs.as_slice(), marker.as_slice()) {
        let rest = crate::text::substring(cs.as_slice(), marker.len(), cs.len());
        StreamPiece::ToolDeltas(rest)
    } else {
        StreamPiece::Text(String::from_str(piece))
    }
}

impl ToolDeltaBuffer {
    /// Adds a streamed fragment: its index (0 when absent), and its name and
    /// arguments when it carries a function part; returns the index.
    pub fn push_stream_delta(&mut self, d: &crate::wire::ToolCallDelta) -> (idx: usize)
        requires
            (match d.index {
                Some(i) => i,
                None => 0,
            }) < usize::MAX,
        ensures
            idx == (match d.index {
                Some(i) => i,
                None => 0,
            }),
            final(self).calls() == padded(old(self).calls(), (idx + 1) as nat).update(
                idx as int,
                apply_delta(
                    padded(old(self).calls(), (idx + 1) as nat)[idx as int],
                    match d.function {
                        Some(f) => Some(f.name@),
                        None => None,
                    },
                    match d.function {
                        Some(f) => Some(f.arguments@),
                        None => None,
                    },
                    None,
                ),
            ),
    {
        let idx = match d.index {
            Some(i) => i,
            None => 0,
        };
        match &d.function {
            Some(f) => self.push_delta(idx, Some(f.name.as_str()), Some(f.arguments.as_str()), None),
            None => self.push_delta(idx, None, None, None),
        }
        idx
    }
}

/// The end of a streamed reply without a finished tool call: accumulated
/// text, when there is any, becomes the assistant's message and the answer.
pub fn finish_streamed_text(messages: Vec<ChatMessage>, text: String) -> (r: (Vec<ChatMessage>, Option<crate::wire::ChoiceMessage>))
    ensures
        text@.len() == 0 ==> msgs_view(r.0@) == msgs_view(messages@) && r.1.is_none(),
        text@.len() > 0 ==> msgs_view(r.0@) == msgs_view(messages@).push(
            MessageView { role: "assistant"@, content: Some(text@), tool_calls: Seq::empty(), tool_call_id: None },
        ) && r.1.is_some() && r.1.unwrap().role@ == "assistant"@ && r.1.unwrap().content@ == text@,
{
    let mut messages = messages;
    if text.unicode_len() == 0 {
        return (messages, None);
    }
    let answer = crate::wire::ChoiceMessage { role: String::from_str("assistant"), content: text.clone() };
    let m = ChatMessage::text("assistant", text);
    let ghost prev = msgs_view(messages@);
    messages.push(m);
    assert(msgs_view(messages@) =~= prev.push(m@));
    (messages, Some(answer))
}

} // verus!
