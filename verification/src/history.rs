//! Token-bounded conversation history with priority-based eviction.
use crate::messages::{
    copy_messages, msgs_view, ChatMessage, MessageView, ToolCall, ToolCallView,
};
use crate::text::{chars_of, str_eq};
use vstd::prelude::*;
use vstd::utf8::*;

verus! {

// ---------------------------------------------------------------------------
// Token estimate
// ---------------------------------------------------------------------------
/// `n / 4` rounded up.
pub open spec fn ceil4(n: nat) -> nat {
    (n + 3) / 4
}

/// UTF-8 byte length of a text.
pub open spec fn byte_len(s: Seq<char>) -> nat {
    encode_utf8(s).len()
}

/// Tokens for one tool call: name and arguments at four bytes per token,
/// plus ten for the JSON structure.
pub open spec fn call_tokens(t: ToolCallView) -> nat {
    ceil4(byte_len(t.name)) + ceil4(byte_len(t.arguments)) + 10
}

/// Tokens for a list of tool calls.
pub open spec fn calls_tokens(ts: Seq<ToolCallView>) -> nat
    decreases ts.len(),
{
    if ts.len() == 0 {
        0
    } else {
        calls_tokens(ts.drop_last()) + call_tokens(ts.last())
    }
}

/// Estimated tokens of a message: content, tool calls and tool-call id at
/// four bytes per token (rounded up), plus three for the message itself.
pub open spec fn estimate(m: MessageView) -> nat {
    let content: nat = match m.content {
        Some(c) => ceil4(byte_len(c)),
        None => 0,
    };
    let id: nat = match m.tool_call_id {
        Some(i) => ceil4(byte_len(i)),
        None => 0,
    };
    content + calls_tokens(m.tool_calls) + id + 3
}

/// Estimated tokens of a list of messages.
pub open spec fn total_tokens(ms: Seq<MessageView>) -> nat
    decreases ms.len(),
{
    if ms.len() == 0 {
        0
    } else {
        total_tokens(ms.drop_last()) + estimate(ms.last())
    }
}

// ---------------------------------------------------------------------------
// Eviction policy
// ---------------------------------------------------------------------------
/// Eviction priority (lower goes first): tool output, then tool-call
/// requests, then other roles, then assistant answers, then user turns.
pub open spec fn score(m: MessageView) -> int {
    if m.role == "tool"@ {
        10
    } else if m.role == "assistant"@ && m.tool_calls.len() > 0 {
        20
    } else if m.role == "assistant"@ {
        50
    } else if m.role == "user"@ {
        60
    } else {
        40
    }
}

/// First index of lowest score in `[1, hi)` (1 when the range is empty).
pub open spec fn first_min(ms: Seq<MessageView>, hi: int) -> int
    decreases hi,
{
    if hi <= 2 {
        1
    } else {
        let j = first_min(ms, hi - 1);
        if score(ms[hi - 1]) < score(ms[j]) {
            hi - 1
        } else {
            j
        }
    }
}

/// Index evicted next: never the first message (the system prompt); never
/// one of the last three (the recent context) unless no more than four
/// messages remain, when the second one goes.
pub open spec fn evict_index(ms: Seq<MessageView>) -> int {
    if ms.len() <= 4 {
        1
    } else {
        first_min(ms, ms.len() - 3)
    }
}

/// Messages left after evicting until the estimate fits `max` or a single
/// message remains.
pub open spec fn trimmed(ms: Seq<MessageView>, max: nat) -> Seq<MessageView>
    decreases ms.len(),
{
    if total_tokens(ms) <= max || ms.len() <= 1 {
        ms
    } else {
        proof {
            lemma_evict_index(ms);
        }
        trimmed(ms.remove(evict_index(ms)), max)
    }
}

// ---------------------------------------------------------------------------
// Lemmas
// ---------------------------------------------------------------------------
/// The estimate of a prefix never exceeds the estimate of the whole list.
pub proof fn lemma_total_prefix(ms: Seq<MessageView>, k: int)
    requires
        0 <= k <= ms.len(),
    ensures
        total_tokens(ms.take(k)) <= total_tokens(ms),
    decreases ms.len(),
{
    if k < ms.len() {
        assert(ms.drop_last().take(k) == ms.take(k));
        lemma_total_prefix(ms.drop_last(), k);
    } else {
        assert(ms.take(k) == ms);
    }
}

/// Removing one message lowers the estimate by that message's estimate.
pub proof fn lemma_total_remove(ms: Seq<MessageView>, i: int)
    requires
        0 <= i < ms.len(),
    ensures
        total_tokens(ms.remove(i)) + estimate(ms[i]) == total_tokens(ms),
    decreases ms.len(),
{
    if i == ms.len() - 1 {
        assert(ms.remove(i) == ms.drop_last());
    } else {
        assert(ms.remove(i).drop_last() == ms.drop_last().remove(i));
        assert(ms.remove(i).last() == ms.last());
        lemma_total_remove(ms.drop_last(), i);
    }
}

/// `first_min` lies in `[1, hi)` (or is 1).
pub proof fn lemma_first_min_range(ms: Seq<MessageView>, hi: int)
    ensures
        1 <= first_min(ms, hi),
        hi >= 2 ==> first_min(ms, hi) < hi,
    decreases hi,
{
    if hi > 2 {
        lemma_first_min_range(ms, hi - 1);
    }
}

/// The evicted index is a valid non-first position, and not one of the
/// last three when more than four messages remain.
pub proof fn lemma_evict_index(ms: Seq<MessageView>)
    requires
        ms.len() >= 2,
    ensures
        1 <= evict_index(ms) < ms.len(),
        ms.len() > 4 ==> evict_index(ms) < ms.len() - 3,
{
    if ms.len() > 4 {
        lemma_first_min_range(ms, ms.len() - 3);
    }
}

// ---------------------------------------------------------------------------
// Executable
// ---------------------------------------------------------------------------
/// `n / 4` rounded up.
fn div_ceil4(n: usize) -> (r: usize)
    ensures
        r == ceil4(n as nat),
{
    n / 4 + if n % 4 != 0 { 1 } else { 0 }
}

/// UTF-8 byte length of a string.
fn bytes_of(s: &String) -> (n: usize)
    ensures
        n == byte_len(s@),
{
    s.as_str().as_bytes().len()
}

/// Eviction priority of a message (see [`score`]).
pub fn message_score(m: &ChatMessage) -> (s: i32)
    ensures
        s == score(m@),
{
    if str_eq(m.role.as_str(), "tool") {
        10
    } else if str_eq(m.role.as_str(), "assistant") && m.tool_calls.len() > 0 {
        20
    } else if str_eq(m.role.as_str(), "assistant") {
        50
    } else if str_eq(m.role.as_str(), "user") {
        60
    } else {
        40
    }
}

/// Token-bounded chat history.
#[derive(Debug, Clone)]
pub struct ChatHistory {
    messages: Vec<ChatMessage>,
    max_tokens: usize,
    system_added: bool,
    system_prompt: Option<String>,
}

impl ChatHistory {
    /// Current messages.
    pub closed spec fn msgs(&self) -> Seq<MessageView> {
        msgs_view(self.messages@)
    }

    /// Token limit.
    pub closed spec fn limit(&self) -> nat {
        self.max_tokens as nat
    }

    /// The limit is a `usize`.
    pub proof fn lemma_limit_fits(&self)
        ensures
            self.limit() <= usize::MAX,
    {
    }

    /// Whether the system prompt has been placed.
    pub closed spec fn has_system(&self) -> bool {
        self.system_added
    }

    /// Configured system prompt.
    pub closed spec fn prompt(&self) -> Option<Seq<char>> {
        crate::messages::opt_str(self.system_prompt)
    }

    /// An empty history with token limit `max_tokens`.
    pub fn new(max_tokens: usize, system_prompt: Option<String>) -> (h: Self)
        ensures
            h.msgs() == Seq::<MessageView>::empty(),
            h.limit() == max_tokens,
            !h.has_system(),
            h.prompt() == crate::messages::opt_str(system_prompt),
    {
        let h = ChatHistory { messages: Vec::new(), max_tokens, system_added: false, system_prompt };
        assert(h.msgs() =~= Seq::<MessageView>::empty());
        h
    }

    /// Estimated tokens of one message (see [`estimate`]).
    pub fn estimate_tokens(msg: &ChatMessage) -> (n: usize)
        requires
            estimate(msg@) <= usize::MAX,
        ensures
            n == estimate(msg@),
    {
        let ghost mv = msg@;
        let content: usize = match &msg.content {
            Some(c) => div_ceil4(bytes_of(c)),
            None => 0,
        };
        let mut calls: usize = 0;
        let mut i: usize = 0;
        while i < msg.tool_calls.len()
            invariant
                i <= msg.tool_calls.len(),
                mv == msg@,
                calls == calls_tokens(mv.tool_calls.take(i as int)),
                content + calls_tokens(mv.tool_calls) + 3 <= usize::MAX,
            decreases msg.tool_calls.len() - i,
        {
            assert(mv.tool_calls.take(i + 1).drop_last() =~= mv.tool_calls.take(i as int));
            proof {
                lemma_calls_prefix(mv.tool_calls, i + 1);
            }
            let t: &ToolCall = &msg.tool_calls[i];
            assert(mv.tool_calls[i as int] == t@);
            calls = calls + div_ceil4(bytes_of(&t.function.name)) + div_ceil4(
                bytes_of(&t.function.arguments),
            ) + 10;
            i += 1;
        }
        assert(mv.tool_calls.take(msg.tool_calls.len() as int) =~= mv.tool_calls);
        let id: usize = match &msg.tool_call_id {
            Some(x) => div_ceil4(bytes_of(x)),
            None => 0,
        };
        content + calls + id + 3
    }

    /// Places the system prompt first, once.
    pub fn append_system_once(&mut self)
        ensures
            old(self).has_system() || old(self).prompt().is_none() ==> final(self).msgs() == old(
                self,
            ).msgs() && final(self).has_system() == old(self).has_system(),
            !old(self).has_system() && old(self).prompt().is_some() ==> {
                &&& final(self).has_system()
                &&& final(self).msgs() == seq![system_text(old(self).prompt().unwrap())] + old(
                    self,
                ).msgs()
            },
            final(self).limit() == old(self).limit(),
            final(self).prompt() == old(self).prompt(),
    {
        if self.system_added {
            return;
        }
        match &self.system_prompt {
            Some(sys) => {
                let m = ChatMessage::text("system", sys.clone());
                let ghost prev = self.messages@;
                self.messages.insert(0, m);
                assert(self.messages@ == prev.insert(0, m));
                assert(msgs_view(self.messages@) =~= seq![m@] + msgs_view(prev));
                self.system_added = true;
            },
            None => {},
        }
    }

    /// Evicts messages by priority until the estimate fits the limit (see
    /// [`trimmed`]).
    pub fn smart_trim(&mut self)
        requires
            total_tokens(old(self).msgs()) <= usize::MAX,
        ensures
            final(self).msgs() == trimmed(old(self).msgs(), old(self).limit()),
            final(self).limit() == old(self).limit(),
            final(self).prompt() == old(self).prompt(),
            final(self).has_system() == old(self).has_system(),
    {
        let ghost orig = self.msgs();
        let mut total: usize = 0;
        let mut k: usize = 0;
        while k < self.messages.len()
            invariant
                k <= self.messages.len(),
                orig == msgs_view(self.messages@),
                total_tokens(orig) <= usize::MAX,
                total == total_tokens(orig.take(k as int)),
            decreases self.messages.len() - k,
        {
            proof {
                lemma_total_prefix(orig, k + 1);
                assert(orig.take(k + 1).drop_last() =~= orig.take(k as int));
            }
            let e = Self::estimate_tokens(&self.messages[k]);
            total = total + e;
            k += 1;
        }
        assert(orig.take(self.messages.len() as int) =~= orig);
        while total > self.max_tokens && self.messages.len() > 1
            invariant
                trimmed(orig, self.max_tokens as nat) == trimmed(self.msgs(), self.max_tokens as nat),
                total == total_tokens(self.msgs()),
                orig == msgs_view(old(self).messages@),
                self.max_tokens == old(self).max_tokens,
                self.system_added == old(self).system_added,
                self.system_prompt == old(self).system_prompt,
            decreases self.messages.len(),
        {
            let ghost cur = self.msgs();
            let len = self.messages.len();
            let idx: usize = if len <= 4 {
                1
            } else {
                let scan_end = len - 3;
                let mut best: usize = 1;
                let mut lowest = message_score(&self.messages[1]);
                let mut i: usize = 2;
                while i < scan_end
                    invariant
                        2 <= i <= scan_end,
                        scan_end == len - 3,
                        len == self.messages.len(),
                        cur == msgs_view(self.messages@),
                        best == first_min(cur, i as int),
                        1 <= best < i,
                        lowest == score(cur[best as int]),
                    decreases scan_end - i,
                {
                    proof {
                        lemma_first_min_range(cur, i as int);
                    }
                    let sc = message_score(&self.messages[i]);
                    if sc < lowest {
                        lowest = sc;
                        best = i;
                    }
                    i += 1;
                }
                best
            };
            proof {
                lemma_evict_index(cur);
                lemma_total_remove(cur, idx as int);
            }
            assert(idx == evict_index(cur));
            let ghost prev = self.messages@;
            let removed = self.messages.remove(idx);
            assert(msgs_view(self.messages@) =~= cur.remove(idx as int));
            let freed = Self::estimate_tokens(&removed);
            total = total - freed;
        }
        assert(trimmed(self.msgs(), self.max_tokens as nat) == self.msgs());
    }

    /// Appends a user turn, then trims.
    pub fn append_user(&mut self, content: String)
        requires
            total_tokens(old(self).msgs()) + estimate(MessageView {
                role: "user"@,
                content: Some(content@),
                tool_calls: Seq::empty(),
                tool_call_id: None,
            }) <= usize::MAX,
        ensures
            final(self).msgs() == trimmed(
                old(self).msgs().push(MessageView {
                    role: "user"@,
                    content: Some(content@),
                    tool_calls: Seq::empty(),
                    tool_call_id: None,
                }),
                old(self).limit(),
            ),
            final(self).limit() == old(self).limit(),
            final(self).has_system() == old(self).has_system(),
            final(self).prompt() == old(self).prompt(),
    {
        let m = ChatMessage::text("user", content);
        self.push_and_trim(m);
    }

    /// Appends an assistant turn, then trims.
    pub fn append_assistant(&mut self, content: String)
        requires
            total_tokens(old(self).msgs()) + estimate(MessageView {
                role: "assistant"@,
                content: Some(content@),
                tool_calls: Seq::empty(),
                tool_call_id: None,
            }) <= usize::MAX,
        ensures
            final(self).msgs() == trimmed(
                old(self).msgs().push(MessageView {
                    role: "assistant"@,
                    content: Some(content@),
                    tool_calls: Seq::empty(),
                    tool_call_id: None,
                }),
                old(self).limit(),
            ),
            final(self).limit() == old(self).limit(),
            final(self).has_system() == old(self).has_system(),
            final(self).prompt() == old(self).prompt(),
    {
        let m = ChatMessage::text("assistant", content);
        self.push_and_trim(m);
    }

    fn push_and_trim(&mut self, m: ChatMessage)
        requires
            total_tokens(old(self).msgs()) + estimate(m@) <= usize::MAX,
        ensures
            final(self).msgs() == trimmed(old(self).msgs().push(m@), old(self).limit()),
            final(self).limit() == old(self).limit(),
            final(self).has_system() == old(self).has_system(),
            final(self).prompt() == old(self).prompt(),
    {
        let ghost prev = self.messages@;
        let ghost mv = m@;
        self.messages.push(m);
        assert(msgs_view(self.messages@) =~= msgs_view(prev).push(mv));
        assert(msgs_view(self.messages@).drop_last() =~= msgs_view(prev));
        self.smart_trim();
    }

    /// Appends a message: a system message is placed first (the configured
    /// prompt when there is one, else this message) unless one is already
    /// placed; any other message goes last. Then trims.
    pub fn append_message(&mut self, msg: ChatMessage)
        requires
            total_tokens(old(self).msgs()) + estimate(msg@) + match old(self).prompt() {
                Some(p) => estimate(system_text(p)),
                None => 0,
            } <= usize::MAX,
        ensures
            final(self).msgs() == trimmed(
                appended(old(self).msgs(), old(self).has_system(), old(self).prompt(), msg@),
                old(self).limit(),
            ),
            final(self).has_system() == (old(self).has_system() || msg@.role == "system"@),
            final(self).limit() == old(self).limit(),
            final(self).prompt() == old(self).prompt(),
    {
        if str_eq(msg.role.as_str(), "system") {
            let ghost before = self.msgs();
            self.append_system_once();
            proof {
                if !old(self).has_system() && old(self).prompt().is_some() {
                    lemma_total_push_front(before, system_text(old(self).prompt().unwrap()));
                }
            }
            if !self.system_added {
                let ghost prev = self.messages@;
                let ghost mv = msg@;
                self.messages.insert(0, msg);
                assert(self.messages@ == prev.insert(0, msg));
                assert(msgs_view(self.messages@) =~= seq![mv] + msgs_view(prev));
                proof {
                    lemma_total_push_front(msgs_view(prev), mv);
                }
                self.system_added = true;
            }
            self.smart_trim();
        } else {
            self.push_and_trim(msg);
        }
    }

    /// Current messages, copied.
    pub fn build_messages(&self) -> (r: Vec<ChatMessage>)
        ensures
            msgs_view(r@) == self.msgs(),
    {
        copy_messages(&self.messages)
    }

    /// Removes every message; the system prompt may be placed again.
    pub fn clear(&mut self)
        ensures
            final(self).msgs() == Seq::<MessageView>::empty(),
            !final(self).has_system(),
            final(self).limit() == old(self).limit(),
            final(self).prompt() == old(self).prompt(),
    {
        self.messages.clear();
        self.system_added = false;
        assert(self.msgs() =~= Seq::<MessageView>::empty());
    }

    /// Replaces the history with `messages` (a leading system message counts
    /// as the placed system prompt), then trims.
    pub fn overwrite_messages(&mut self, messages: Vec<ChatMessage>)
        requires
            total_tokens(msgs_view(messages@)) <= usize::MAX,
        ensures
            final(self).msgs() == trimmed(msgs_view(messages@), old(self).limit()),
            final(self).has_system() == (old(self).has_system() || (messages@.len() > 0
                && messages@[0]@.role == "system"@)),
            final(self).limit() == old(self).limit(),
            final(self).prompt() == old(self).prompt(),
    {
        self.messages = messages;
        if self.messages.len() > 0 && str_eq(self.messages[0].role.as_str(), "system") {
            self.system_added = true;
        }
        self.smart_trim();
    }
}

/// The system message carrying prompt `p`.
pub open spec fn system_text(p: Seq<char>) -> MessageView {
    MessageView { role: "system"@, content: Some(p), tool_calls: Seq::empty(), tool_call_id: None }
}

/// Messages after appending `m` (before trimming): see
/// [`ChatHistory::append_message`].
pub open spec fn appended(
    ms: Seq<MessageView>,
    has_system: bool,
    prompt: Option<Seq<char>>,
    m: MessageView,
) -> Seq<MessageView> {
    if m.role == "system"@ {
        if has_system {
            ms
        } else {
            match prompt {
                Some(p) => seq![system_text(p)] + ms,
                None => seq![m] + ms,
            }
        }
    } else {
        ms.push(m)
    }
}

/// Prepending a message adds its estimate.
pub proof fn lemma_total_push_front(ms: Seq<MessageView>, m: MessageView)
    ensures
        total_tokens(seq![m] + ms) == total_tokens(ms) + estimate(m),
    decreases ms.len(),
{
    let s = seq![m] + ms;
    if ms.len() == 0 {
        assert(s.drop_last() =~= Seq::<MessageView>::empty());
        assert(s.last() == m);
        assert(total_tokens(s.drop_last()) == 0);
        assert(total_tokens(ms) == 0);
    } else {
        assert(s.drop_last() =~= seq![m] + ms.drop_last());
        assert(s.last() == ms.last());
        lemma_total_push_front(ms.drop_last(), m);
        assert(total_tokens(s) == total_tokens(s.drop_last()) + estimate(s.last()));
    }
}

/// Tool-call tokens of a prefix never exceed those of the whole list.
pub proof fn lemma_calls_prefix(ts: Seq<ToolCallView>, k: int)
    requires
        0 <= k <= ts.len(),
    ensures
        calls_tokens(ts.take(k)) <= calls_tokens(ts),
    decreases ts.len(),
{
    if k < ts.len() {
        assert(ts.drop_last().take(k) == ts.take(k));
        lemma_calls_prefix(ts.drop_last(), k);
    } else {
        assert(ts.take(k) == ts);
    }
}

} // verus!
