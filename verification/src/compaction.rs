//! Keeping the conversation within the model's context: when to compact,
//! clearing stale tool output, and rebuilding the history around a summary.
use crate::config::{effective_limit, AppConfig};
use crate::history::byte_len;
use crate::messages::{calls_view, copy_calls, copy_opt, msgs_view, opt_str, ChatMessage, MessageView};
use crate::text::{
    chars_of, count_fitting, fit_chars, is_white_space, push_chars, push_str, slice_to_vec,
    starts_with, str_eq, string_from,
};
use vstd::prelude::*;
use vstd::string::*;

verus! {

/// The prompt used to summarise the conversation history.
pub const COMPACT_PROMPT: &'static str = "Summarize the conversation history into a concise, dense Markdown snapshot.\nThis snapshot will be the agent's memory. It MUST contain all context needed to resume work.\n\nStructure:\n# Goal\nSingle sentence objective.\n\n# Key Info\nCritical facts, commands, or constraints (e.g., \"Tests: `npm test`\").\n\n# Files\nList accessed files with status (READ/MODIFIED/CREATED) and key insights.\nCWD: <cwd>\n\n# History\nConcise summary of actions and outcomes. Focus on what was done and what failed.\n";

/// Outcome of summarising the history.
#[derive(Debug, Clone)]
pub struct CompactResult {
    /// The message holding the summary.
    pub compacted_message: ChatMessage,
    /// How the summarising went.
    pub metadata: CompactMetadata,
}

/// Whether summarising succeeded, and why not.
#[derive(Debug, Clone)]
pub struct CompactMetadata {
    pub success: bool,
    pub error_message: Option<String>,
}

/// The messages of a summarising request: the summarising prompt as a
/// system message, then the history.
pub fn compaction_request(history: Vec<ChatMessage>) -> (msgs: Vec<ChatMessage>)
    ensures
        msgs_view(msgs@) == seq![
            MessageView {
                role: "system"@,
                content: Some(COMPACT_PROMPT@),
                tool_calls: Seq::empty(),
                tool_call_id: None,
            },
        ] + msgs_view(history@),
{
    let mut msgs: Vec<ChatMessage> = Vec::new();
    msgs.push(ChatMessage::text("system", String::from_str(COMPACT_PROMPT)));
    let mut rest = history;
    msgs.append(&mut rest);
    assert(msgs_view(msgs@) =~= seq![
        MessageView {
            role: "system"@,
            content: Some(COMPACT_PROMPT@),
            tool_calls: Seq::empty(),
            tool_call_id: None,
        },
    ] + msgs_view(history@));
    msgs
}

/// The error recorded when the model's summary is empty.
pub const EMPTY_SUMMARY_ERROR: &'static str = "Received empty response from LLM during compaction.";

/// Outcome of summarising, from the model's reply (its content, or the
/// request's error): a non-empty summary becomes a user message; an empty
/// one or an error leaves an empty user message and the reason.
pub fn compact_result(reply: Result<String, String>) -> (r: CompactResult)
    ensures
        r.compacted_message@.role == "user"@,
        r.compacted_message@.tool_calls.len() == 0,
        r.compacted_message@.tool_call_id.is_none(),
        match reply {
            Ok(summary) => if summary@.len() > 0 {
                r.metadata.success && r.metadata.error_message.is_none() && r.compacted_message@.content
                    == Some(summary@)
            } else {
                !r.metadata.success && opt_str(r.metadata.error_message) == Some(EMPTY_SUMMARY_ERROR@)
                    && r.compacted_message@.content == Some(Seq::<char>::empty())
            },
            Err(e) => !r.metadata.success && opt_str(r.metadata.error_message) == Some(
                "Failed to compact conversation: "@ + e@,
            ) && r.compacted_message@.content == Some(Seq::<char>::empty()),
        },
{
    match reply {
        Ok(summary) => {
            if summary.unicode_len() > 0 {
                CompactResult {
                    compacted_message: ChatMessage::text("user", summary),
                    metadata: CompactMetadata { success: true, error_message: None },
                }
            } else {
                CompactResult {
                    compacted_message: ChatMessage::text("user", String::new()),
                    metadata: CompactMetadata {
                        success: false,
                        error_message: Some(String::from_str(EMPTY_SUMMARY_ERROR)),
                    },
                }
            }
        },
        Err(e) => {
            let mut m = String::from_str("Failed to compact conversation: ");
            push_str(&mut m, e.as_str());
            CompactResult {
                compacted_message: ChatMessage::text("user", String::new()),
                metadata: CompactMetadata { success: false, error_message: Some(m) },
            }
        },
    }
}

/// Whether to compact: usage above the effective limit (see
/// [`effective_limit`]) and more than two messages of history.
pub fn should_compact(current_tokens: u32, cfg: &AppConfig, messages: &Vec<ChatMessage>) -> (b: bool)
    ensures
        b == (current_tokens > effective_limit(*cfg) && messages@.len() > 2),
{
    let limit = cfg.get_effective_compaction_limit();
    current_tokens > limit && messages.len() > 2
}

/// Index of the first system message of `ms` at or after `i`, if any.
pub open spec fn first_system_from(ms: Seq<MessageView>, i: nat) -> Option<MessageView>
    decreases ms.len() - i,
{
    if i >= ms.len() {
        None
    } else if ms[i as int].role == "system"@ {
        Some(ms[i as int])
    } else {
        first_system_from(ms, i + 1)
    }
}

/// The history after a successful summary that keeps only the first system
/// message: that message (if any), then the summary.
pub open spec fn summary_history(ms: Seq<MessageView>, summary: MessageView) -> Seq<MessageView> {
    match first_system_from(ms, 0) {
        Some(s) => seq![s, summary],
        None => seq![summary],
    }
}

/// Applies a summary to the history: on success the history becomes the
/// first system message (if any) followed by the summary, and `true` is
/// returned; on failure the history is unchanged and `false` is returned.
pub fn apply_compaction_result(messages: &mut Vec<ChatMessage>, result: CompactResult) -> (applied: bool)
    ensures
        applied == result.metadata.success,
        applied ==> msgs_view(final(messages)@) == summary_history(
            msgs_view(old(messages)@),
            result.compacted_message@,
        ),
        !applied ==> final(messages)@ == old(messages)@,
{
    if !result.metadata.success {
        return false;
    }
    let ghost ms = msgs_view(messages@);
    let mut i: usize = 0;
    while i < messages.len() && !str_eq(messages[i].role.as_str(), "system")
        invariant
            i <= messages.len(),
            ms == msgs_view(messages@),
            first_system_from(ms, 0) == first_system_from(ms, i as nat),
        decreases messages.len() - i,
    {
        assert(first_system_from(ms, i as nat) == first_system_from(ms, (i + 1) as nat));
        i += 1;
    }
    let found: Option<ChatMessage> = if i < messages.len() {
        assert(ms[i as int] == messages@[i as int]@);
        assert(first_system_from(ms, i as nat) == Some(ms[i as int]));
        Some(messages[i].duplicate())
    } else {
        None
    };
    messages.clear();
    match found {
        Some(s) => messages.push(s),
        None => {},
    }
    messages.push(result.compacted_message);
    proof {
        assert(msgs_view(messages@) =~= summary_history(ms, result.compacted_message@));
    }
    true
}

// ---------------------------------------------------------------------------
// Clearing stale tool results
// ---------------------------------------------------------------------------
/// Text that replaces a cleared tool result.
pub open spec fn cleared_text() -> Seq<char> {
    "[cleared tool result: earlier tool output removed to free context; re-run the tool if needed]"@
}

/// A tool message that carries output.
pub open spec fn is_tool_result(m: MessageView) -> bool {
    m.role == "tool"@ && m.content.is_some()
}

/// Number of tool results among the first `n` messages.
pub open spec fn tool_results_before(ms: Seq<MessageView>, n: nat) -> nat
    decreases n,
{
    if n == 0 {
        0
    } else {
        tool_results_before(ms, (n - 1) as nat) + if is_tool_result(ms[n - 1]) {
            1nat
        } else {
            0nat
        }
    }
}

/// Whether clearing runs at all: a non-zero threshold, prompt usage at
/// least `ratio_percent`% of it, and more tool results than are kept.
pub open spec fn clearing_active(
    ms: Seq<MessageView>,
    prompt_tokens: u32,
    threshold: u32,
    ratio_percent: u32,
    keep_recent: nat,
) -> bool {
    &&& threshold != 0
    &&& prompt_tokens * 100 >= threshold * ratio_percent
    &&& tool_results_before(ms, ms.len()) > keep_recent
}

/// Message `i` is a tool result older than the `keep_recent` latest ones
/// and not cleared yet.
pub open spec fn clears(ms: Seq<MessageView>, keep_recent: nat, i: int) -> bool {
    &&& is_tool_result(ms[i])
    &&& tool_results_before(ms, i as nat) + keep_recent < tool_results_before(ms, ms.len())
    &&& !starts_with(ms[i].content.unwrap(), "[cleared tool result"@)
}

/// `m` with its content replaced by the cleared text.
pub open spec fn cleared(m: MessageView) -> MessageView {
    MessageView { content: Some(cleared_text()), ..m }
}

/// Number of the first `n` messages that [`clears`] selects.
pub open spec fn cleared_before(ms: Seq<MessageView>, keep_recent: nat, n: nat) -> nat
    decreases n,
{
    if n == 0 {
        0
    } else {
        cleared_before(ms, keep_recent, (n - 1) as nat) + if clears(ms, keep_recent, n - 1) {
            1nat
        } else {
            0nat
        }
    }
}

proof fn lemma_counts_bounded(ms: Seq<MessageView>, keep_recent: nat, n: nat)
    requires
        n <= ms.len(),
    ensures
        tool_results_before(ms, n) <= n,
        cleared_before(ms, keep_recent, n) <= n,
    decreases n,
{
    if n > 0 {
        lemma_counts_bounded(ms, keep_recent, (n - 1) as nat);
    }
}

// ---------------------------------------------------------------------------
// Rebuilding the history around a summary
// ---------------------------------------------------------------------------
/// Most system messages kept across a compaction.
pub const MAX_SYSTEM_MESSAGES: usize = 8;

/// Longest system message, in characters, kept whole across a compaction.
pub const MAX_SYSTEM_MESSAGE_CHARS: usize = 4_000;

/// Byte budget of the recent messages kept after the summary.
pub const TAIL_BUDGET_CHARS: usize = 8_000;

/// Most conversation units kept after the summary.
pub const MAX_TAIL_GROUPS: usize = 3;

/// Content of a message, empty when absent.
pub open spec fn content_or_empty(m: MessageView) -> Seq<char> {
    match m.content {
        Some(c) => c,
        None => Seq::empty(),
    }
}

/// The messages of `ms` with role `system`, in order.
pub open spec fn system_only(ms: Seq<MessageView>) -> Seq<MessageView>
    decreases ms.len(),
{
    if ms.len() == 0 {
        Seq::empty()
    } else if ms.last().role == "system"@ {
        system_only(ms.drop_last()).push(ms.last())
    } else {
        system_only(ms.drop_last())
    }
}

/// The messages of `ms` with another role, in order.
pub open spec fn non_system(ms: Seq<MessageView>) -> Seq<MessageView>
    decreases ms.len(),
{
    if ms.len() == 0 {
        Seq::empty()
    } else if ms.last().role == "system"@ {
        non_system(ms.drop_last())
    } else {
        non_system(ms.drop_last()).push(ms.last())
    }
}

/// Key under which repeated system messages are recognised: the first 80
/// characters, each white-space character read as a space.
pub open spec fn dedupe_key(c: Seq<char>) -> Seq<char> {
    c.take(if c.len() < 80 { c.len() as int } else { 80 }).map_values(
        |ch: char|
            if is_white_space(ch) {
                ' '
            } else {
                ch
            },
    )
}

/// A system message cut to `max_chars`: when longer, its longest head whose
/// UTF-8 encoding fits in `max_chars` bytes, then a marker.
pub open spec fn capped_system(m: MessageView, max_chars: nat) -> MessageView {
    let c = content_or_empty(m);
    if c.len() > max_chars {
        MessageView {
            content: Some(c.take(fit_chars(c, max_chars) as int) + "\n[system message truncated]"@),
            ..m
        }
    } else {
        m
    }
}

/// Keys seen and messages kept after pruning `ms` in order: a message whose
/// key was seen is skipped; past `max_count` kept messages the rest are
/// dropped (their keys still count as seen); kept ones are capped.
pub open spec fn prune_state(ms: Seq<MessageView>, max_count: nat, max_chars: nat) -> (
    Seq<Seq<char>>,
    Seq<MessageView>,
)
    decreases ms.len(),
{
    if ms.len() == 0 {
        (Seq::empty(), Seq::empty())
    } else {
        let (seen, kept) = prune_state(ms.drop_last(), max_count, max_chars);
        let k = dedupe_key(content_or_empty(ms.last()));
        if seen.contains(k) {
            (seen, kept)
        } else if kept.len() >= max_count {
            (seen.push(k), kept)
        } else {
            (seen.push(k), kept.push(capped_system(ms.last(), max_chars)))
        }
    }
}

/// The system messages that survive a compaction (see [`prune_state`]).
pub open spec fn pruned(ms: Seq<MessageView>, max_count: nat, max_chars: nat) -> Seq<MessageView> {
    prune_state(ms, max_count, max_chars).1
}

fn dedupe_key_of(content: &[char]) -> (k: Vec<char>)
    ensures
        k@ == dedupe_key(content@),
{
    let n: usize = if content.len() < 80 { content.len() } else { 80 };
    let mut k: Vec<char> = Vec::new();
    let mut i: usize = 0;
    while i < n
        invariant
            i <= n <= content.len(),
            n == (if content@.len() < 80 { content@.len() as int } else { 80 }),
            k@ =~= content@.take(i as int).map_values(
                |ch: char|
                    if is_white_space(ch) {
                        ' '
                    } else {
                        ch
                    },
            ),
        decreases n - i,
    {
        let c = content[i];
        let d = if crate::text::is_ws(c) { ' ' } else { c };
        k.push(d);
        i += 1;
    }
    k
}

fn key_seen(keys: &Vec<Vec<char>>, k: &Vec<char>) -> (b: bool)
    ensures
        b == crate::text::bufs_view(keys@).contains(k@),
{
    let ghost kv = crate::text::bufs_view(keys@);
    let mut i: usize = 0;
    while i < keys.len()
        invariant
            i <= keys.len(),
            kv == crate::text::bufs_view(keys@),
            forall|j: int| 0 <= j < i ==> kv[j] != k@,
        decreases keys.len() - i,
    {
        if crate::text::chars_eq(keys[i].as_slice(), k.as_slice()) {
            assert(kv[i as int] == k@);
            return true;
        }
        i += 1;
    }
    false
}

fn capped_copy(m: &ChatMessage, max_chars: usize) -> (r: ChatMessage)
    ensures
        r@ == capped_system(m@, max_chars as nat),
{
    let cs: Vec<char> = match &m.content {
        Some(c) => chars_of(c.as_str()),
        None => Vec::new(),
    };
    assert(cs@ == content_or_empty(m@));
    if cs.len() > max_chars {
        let kept = count_fitting(cs.as_slice(), max_chars);
        let head = slice_to_vec(cs.as_slice(), 0, kept);
        let mut text = string_from(head.as_slice());
        push_str(&mut text, "\n[system message truncated]");
        let r = ChatMessage {
            role: m.role.clone(),
            content: Some(text),
            tool_calls: copy_calls(&m.tool_calls),
            tool_call_id: copy_opt(&m.tool_call_id),
        };
        assert(cs@.subrange(0, kept as int) == cs@.take(kept as int));
        r
    } else {
        m.duplicate()
    }
}

/// Bytes of the tool calls' names and arguments.
pub open spec fn calls_bytes(ts: Seq<crate::messages::ToolCallView>) -> nat
    decreases ts.len(),
{
    if ts.len() == 0 {
        0
    } else {
        calls_bytes(ts.drop_last()) + byte_len(ts.last().name) + byte_len(ts.last().arguments)
    }
}

/// Size of a message for the tail budget: bytes of its content and of its
/// tool calls' names and arguments.
pub open spec fn msg_bytes(m: MessageView) -> nat {
    byte_len(content_or_empty(m)) + calls_bytes(m.tool_calls)
}

/// Size of a group of messages.
pub open spec fn group_bytes(g: Seq<MessageView>) -> nat
    decreases g.len(),
{
    if g.len() == 0 {
        0
    } else {
        group_bytes(g.drop_last()) + msg_bytes(g.last())
    }
}

/// An assistant message that requests tool calls opens a unit.
pub open spec fn opens_group(m: MessageView) -> bool {
    m.role == "assistant"@ && m.tool_calls.len() > 0
}

/// Conversation units of `ms`: an assistant message with tool calls and
/// the tool messages that follow it form one unit; every other message is a
/// unit of its own.
pub open spec fn group_msgs(ms: Seq<MessageView>) -> Seq<Seq<MessageView>>
    decreases ms.len(),
{
    if ms.len() == 0 {
        Seq::empty()
    } else {
        let gs = group_msgs(ms.drop_last());
        let m = ms.last();
        if !opens_group(m) && m.role == "tool"@ && gs.len() > 0 && opens_group(gs.last()[0]) {
            gs.drop_last().push(gs.last().push(m))
        } else {
            gs.push(seq![m])
        }
    }
}

/// First unit of the tail: walking back from unit `i` with `total` bytes
/// taken, the previous unit is taken while it lies within the last
/// [`MAX_TAIL_GROUPS`] units and fits in the budget.
pub open spec fn tail_start(gs: Seq<Seq<MessageView>>, budget: nat, i: nat, total: nat) -> nat
    decreases i,
{
    let window = if gs.len() >= MAX_TAIL_GROUPS { gs.len() - MAX_TAIL_GROUPS } else { 0 };
    if i == 0 || i - 1 < window || total + group_bytes(gs[i - 1]) > budget {
        i
    } else {
        tail_start(gs, budget, (i - 1) as nat, total + group_bytes(gs[i - 1]))
    }
}

/// Messages of a sequence of units, in order.
pub open spec fn flatten(gs: Seq<Seq<MessageView>>) -> Seq<MessageView>
    decreases gs.len(),
{
    if gs.len() == 0 {
        Seq::empty()
    } else {
        flatten(gs.drop_last()) + gs.last()
    }
}

/// The recent non-system messages kept after a summary: the latest units
/// (at most [`MAX_TAIL_GROUPS`]) whose sizes fit in `budget`, never
/// splitting a unit.
pub open spec fn tail_spec(ms: Seq<MessageView>, budget: nat) -> Seq<MessageView> {
    let gs = group_msgs(non_system(ms));
    flatten(gs.subrange(tail_start(gs, budget, gs.len(), 0) as int, gs.len() as int))
}

/// Every unit's size fits in `usize`.
pub open spec fn units_fit(ms: Seq<MessageView>) -> bool {
    let gs = group_msgs(non_system(ms));
    forall|k: int| 0 <= k < gs.len() ==> #[trigger] group_bytes(gs[k]) <= usize::MAX
}

/// Views of lists of messages.
pub open spec fn groups_view(v: Seq<Vec<ChatMessage>>) -> Seq<Seq<MessageView>> {
    v.map_values(|g: Vec<ChatMessage>| msgs_view(g@))
}

proof fn lemma_calls_bytes_prefix(ts: Seq<crate::messages::ToolCallView>, k: int)
    requires
        0 <= k <= ts.len(),
    ensures
        calls_bytes(ts.take(k)) <= calls_bytes(ts),
    decreases ts.len(),
{
    if k < ts.len() {
        assert(ts.drop_last().take(k) == ts.take(k));
        lemma_calls_bytes_prefix(ts.drop_last(), k);
    } else {
        assert(ts.take(k) == ts);
    }
}

proof fn lemma_group_bytes_prefix(g: Seq<MessageView>, k: int)
    requires
        0 <= k <= g.len(),
    ensures
        group_bytes(g.take(k)) <= group_bytes(g),
    decreases g.len(),
{
    if k < g.len() {
        assert(g.drop_last().take(k) == g.take(k));
        lemma_group_bytes_prefix(g.drop_last(), k);
    } else {
        assert(g.take(k) == g);
    }
}

fn msg_len(m: &ChatMessage) -> (n: usize)
    requires
        msg_bytes(m@) <= usize::MAX,
    ensures
        n == msg_bytes(m@),
{
    let mut n: usize = match &m.content {
        Some(c) => c.as_str().len(),
        None => 0,
    };
    assert(n == byte_len(content_or_empty(m@)));
    let ghost ts = calls_view(m.tool_calls@);
    let mut k: usize = 0;
    while k < m.tool_calls.len()
        invariant
            k <= m.tool_calls.len(),
            ts == calls_view(m.tool_calls@),
            msg_bytes(m@) <= usize::MAX,
            n == byte_len(content_or_empty(m@)) + calls_bytes(ts.take(k as int)),
        decreases m.tool_calls.len() - k,
    {
        assert(ts.take(k + 1).drop_last() == ts.take(k as int));
        proof {
            lemma_calls_bytes_prefix(ts, k + 1);
        }
        let t = &m.tool_calls[k];
        n = n + t.function.name.as_str().len() + t.function.arguments.as_str().len();
        k += 1;
    }
    assert(ts.take(m.tool_calls.len() as int) == ts);
    n
}

fn group_len(g: &Vec<ChatMessage>) -> (n: usize)
    requires
        group_bytes(msgs_view(g@)) <= usize::MAX,
    ensures
        n == group_bytes(msgs_view(g@)),
{
    let ghost gv = msgs_view(g@);
    let mut n: usize = 0;
    let mut k: usize = 0;
    while k < g.len()
        invariant
            k <= g.len(),
            gv == msgs_view(g@),
            group_bytes(gv) <= usize::MAX,
            n == group_bytes(gv.take(k as int)),
        decreases g.len() - k,
    {
        assert(gv.take(k + 1).drop_last() == gv.take(k as int));
        proof {
            lemma_group_bytes_prefix(gv, k + 1);
        }
        let l = msg_len(&g[k]);
        n = n + l;
        k += 1;
    }
    assert(gv.take(g.len() as int) == gv);
    n
}

/// Content of the last user message among the first `n` messages, if it
/// has content; `None` when there is no user message.
pub open spec fn last_user_content(ms: Seq<MessageView>, n: nat) -> Option<Seq<char>>
    decreases n,
{
    if n == 0 {
        None
    } else if ms[n - 1].role == "user"@ {
        ms[n - 1].content
    } else {
        last_user_content(ms, (n - 1) as nat)
    }
}

/// A memory search result worth passing on: one that does not report that
/// nothing was found.
pub open spec fn relevant_memory_spec(result: Seq<char>) -> Option<Seq<char>> {
    if crate::text::contains_seq(result, "No matching memories found"@) || crate::text::contains_seq(
        result,
        "No memories found"@,
    ) {
        None
    } else {
        Some(result)
    }
}

/// Keeps a memory search result unless it reports that nothing was found.
pub fn relevant_memory(result: String) -> (r: Option<String>)
    ensures
        opt_str(r) == relevant_memory_spec(result@),
{
    if crate::text::str_contains(result.as_str(), "No matching memories found")
        || crate::text::str_contains(result.as_str(), "No memories found") {
        None
    } else {
        Some(result)
    }
}

/// Text of the context message.
pub open spec fn context_text(prompt: Seq<char>, memory: Option<Seq<char>>) -> Seq<char> {
    (if prompt.len() > 0 {
        prompt + "\n\n"@
    } else {
        Seq::empty()
    }) + match memory {
        Some(m) => "<RelevantMemory>\n"@ + m + "\n</RelevantMemory>"@,
        None => Seq::empty(),
    }
}

/// History with a context message of text `text` added (see
/// [`HistoryManager::insert_context`]).
pub open spec fn with_context(ms: Seq<MessageView>, text: Seq<char>) -> Seq<MessageView> {
    let msg = MessageView {
        role: "system"@,
        content: Some(text),
        tool_calls: Seq::empty(),
        tool_call_id: None,
    };
    if text.len() == 0 {
        ms
    } else if ms.len() > 0 && ms.last().role == "user"@ {
        ms.insert(ms.len() - 1, msg)
    } else {
        ms.push(msg)
    }
}

// ---------------------------------------------------------------------------
// The history of an agent run
// ---------------------------------------------------------------------------
/// The message history of an agent run, with the settings that decide its
/// compaction.
pub struct HistoryManager {
    messages: Vec<ChatMessage>,
    config: AppConfig,
}

impl HistoryManager {
    /// The messages, in order.
    pub closed spec fn msgs(&self) -> Seq<MessageView> {
        msgs_view(self.messages@)
    }

    /// The settings.
    pub closed spec fn cfg(&self) -> AppConfig {
        self.config
    }

    /// A history holding `messages`.
    pub fn new(messages: Vec<ChatMessage>, config: AppConfig) -> (h: Self)
        ensures
            h.msgs() == msgs_view(messages@),
            h.cfg() == config,
    {
        HistoryManager { messages, config }
    }

    /// Appends a message.
    pub fn push(&mut self, message: ChatMessage)
        ensures
            final(self).msgs() == old(self).msgs().push(message@),
            final(self).cfg() == old(self).cfg(),
    {
        let ghost prev = self.msgs();
        self.messages.push(message);
        assert(self.msgs() =~= prev.push(message@));
    }

    /// Inserts a message at `index`.
    pub fn insert(&mut self, index: usize, message: ChatMessage)
        requires
            index <= old(self).msgs().len(),
        ensures
            final(self).msgs() == old(self).msgs().insert(index as int, message@),
            final(self).cfg() == old(self).cfg(),
    {
        let ghost prev = self.msgs();
        self.messages.insert(index, message);
        assert(self.msgs() =~= prev.insert(index as int, message@));
    }

    /// The last message, if any.
    pub fn last(&self) -> (m: Option<&ChatMessage>)
        ensures
            self.msgs().len() == 0 ==> m.is_none(),
            self.msgs().len() > 0 ==> m.is_some() && m.unwrap()@ == self.msgs().last(),
    {
        if self.messages.len() == 0 {
            None
        } else {
            Some(&self.messages[self.messages.len() - 1])
        }
    }

    /// Removes every message.
    pub fn clear(&mut self)
        ensures
            final(self).msgs().len() == 0,
            final(self).cfg() == old(self).cfg(),
    {
        self.messages.clear();
    }

    /// The messages, in order.
    pub fn as_slice(&self) -> (s: &[ChatMessage])
        ensures
            msgs_view(s@) == self.msgs(),
    {
        self.messages.as_slice()
    }

    /// Number of messages.
    pub fn len(&self) -> (n: usize)
        ensures
            n == self.msgs().len(),
    {
        self.messages.len()
    }

    /// Whether there are no messages.
    pub fn is_empty(&self) -> (b: bool)
        ensures
            b == (self.msgs().len() == 0),
    {
        self.messages.len() == 0
    }

    /// The messages, giving up the history.
    pub fn into_messages(self) -> (v: Vec<ChatMessage>)
        ensures
            msgs_view(v@) == self.msgs(),
    {
        self.messages
    }

    /// Content of the latest user message, if that message has content.
    pub fn last_user_goal(&self) -> (g: Option<String>)
        ensures
            opt_str(g) == last_user_content(self.msgs(), self.msgs().len()),
    {
        let ghost ms = self.msgs();
        let mut i = self.messages.len();
        while i > 0 && !str_eq(self.messages[i - 1].role.as_str(), "user")
            invariant
                i <= self.messages.len(),
                ms == msgs_view(self.messages@),
                last_user_content(ms, ms.len()) == last_user_content(ms, i as nat),
            decreases i,
        {
            i -= 1;
        }
        if i == 0 {
            None
        } else {
            assert(ms[i - 1] == self.messages@[i - 1]@);
            copy_opt(&self.messages[i - 1].content)
        }
    }

    /// Adds retrieved context as a system message: the context prompt (if
    /// any) followed by a blank line, then the relevant memory (if any)
    /// wrapped in `<RelevantMemory>` tags. Nothing is added when both are
    /// empty; the message goes before a final user message, else last.
    pub fn insert_context(&mut self, context_prompt: &str, memory: Option<String>)
        ensures
            final(self).cfg() == old(self).cfg(),
            final(self).msgs() == with_context(old(self).msgs(), context_text(context_prompt@, opt_str(memory))),
    {
        let mut combined = String::new();
        if context_prompt.unicode_len() > 0 {
            crate::text::push_str(&mut combined, context_prompt);
            crate::text::push_str(&mut combined, "\n\n");
        }
        match &memory {
            Some(mem) => {
                crate::text::push_str(&mut combined, "<RelevantMemory>\n");
                crate::text::push_str(&mut combined, mem.as_str());
                crate::text::push_str(&mut combined, "\n</RelevantMemory>");
            },
            None => {},
        }
        assert(combined@ == context_text(context_prompt@, opt_str(memory)));
        if combined.unicode_len() == 0 {
            return;
        }
        let ghost prev = self.msgs();
        let msg = ChatMessage::text("system", combined);
        let n = self.messages.len();
        if n > 0 && str_eq(self.messages[n - 1].role.as_str(), "user") {
            self.messages.insert(n - 1, msg);
            assert(self.msgs() =~= prev.insert(n - 1, msg@));
        } else {
            self.messages.push(msg);
            assert(self.msgs() =~= prev.push(msg@));
        }
    }

    /// Clears stale tool results before a proactive compaction: at 60% of
    /// the compaction limit, keeping the three latest (see
    /// [`HistoryManager::clear_stale_tool_results`]).
    pub fn clear_stale(&mut self, prompt_tokens: u32) -> (n: usize)
        ensures
            final(self).cfg() == old(self).cfg(),
            final(self).msgs().len() == old(self).msgs().len(),
            !clearing_active(old(self).msgs(), prompt_tokens, effective_limit(old(self).cfg()) as u32, 60, 3)
                ==> final(self).msgs() == old(self).msgs() && n == 0,
            clearing_active(old(self).msgs(), prompt_tokens, effective_limit(old(self).cfg()) as u32, 60, 3) ==> {
                &&& n == cleared_before(old(self).msgs(), 3, old(self).msgs().len())
                &&& forall|i: int|
                    0 <= i < old(self).msgs().len() ==> #[trigger] final(self).msgs()[i] == if clears(
                        old(self).msgs(),
                        3,
                        i,
                    ) {
                        cleared(old(self).msgs()[i])
                    } else {
                        old(self).msgs()[i]
                    }
            },
    {
        let limit = self.config.get_effective_compaction_limit();
        let ghost before = self.messages@;
        let n = Self::clear_stale_tool_results(&mut self.messages, prompt_tokens, limit, 60, 3);
        proof {
            if !clearing_active(msgs_view(before), prompt_tokens, limit, 60, 3) {
                assert(self.messages@ == before);
            }
        }
        n
    }

    /// Whether a proactive compaction is due: prompt usage above the
    /// compaction limit and more than two messages.
    pub fn needs_compaction(&self, prompt_tokens: u32) -> (b: bool)
        ensures
            b == (prompt_tokens > effective_limit(self.cfg()) && self.msgs().len() > 2),
    {
        prompt_tokens > self.config.get_effective_compaction_limit() && self.messages.len() > 2
    }

    /// Rebuilds the history around a summary (see
    /// [`HistoryManager::merge_compacted_history`]).
    pub fn apply_summary(&mut self, compacted: ChatMessage)
        requires
            units_fit(old(self).msgs()),
        ensures
            final(self).cfg() == old(self).cfg(),
            final(self).msgs() == pruned(
                system_only(old(self).msgs()),
                MAX_SYSTEM_MESSAGES as nat,
                MAX_SYSTEM_MESSAGE_CHARS as nat,
            ).push(compacted@) + tail_spec(old(self).msgs(), TAIL_BUDGET_CHARS as nat),
    {
        let merged = Self::merge_compacted_history(self.messages.as_slice(), compacted);
        self.messages = merged;
    }

    /// Replaces old tool output with a short placeholder to free context.
    ///
    /// When [`clearing_active`] holds, every message that [`clears`] selects
    /// gets the cleared text, every other message is unchanged, and the number
    /// of messages changed is returned; otherwise nothing changes and `0` is
    /// returned. The usage ratio is given in percent.
    pub fn clear_stale_tool_results(
        messages: &mut Vec<ChatMessage>,
        prompt_tokens: u32,
        threshold: u32,
        ratio_percent: u32,
        keep_recent: usize,
    ) -> (n: usize)
        ensures
            final(messages)@.len() == old(messages)@.len(),
            !clearing_active(msgs_view(old(messages)@), prompt_tokens, threshold, ratio_percent, keep_recent as nat)
                ==> final(messages)@ == old(messages)@ && n == 0,
            clearing_active(msgs_view(old(messages)@), prompt_tokens, threshold, ratio_percent, keep_recent as nat)
                ==> {
                &&& n == cleared_before(msgs_view(old(messages)@), keep_recent as nat, old(messages)@.len())
                &&& forall|i: int|
                    0 <= i < old(messages)@.len() ==> #[trigger] msgs_view(final(messages)@)[i] == if clears(
                        msgs_view(old(messages)@),
                        keep_recent as nat,
                        i,
                    ) {
                        cleared(msgs_view(old(messages)@)[i])
                    } else {
                        msgs_view(old(messages)@)[i]
                    }
            },
    {
        let ghost ms = msgs_view(messages@);
        let t: u128 = threshold as u128;
        let r: u128 = ratio_percent as u128;
        assert(t * r <= 0xffff_ffffu128 * 0xffff_ffffu128) by (nonlinear_arith)
            requires
                t <= 0xffff_ffffu128,
                r <= 0xffff_ffffu128,
        ;
        if threshold == 0 || (prompt_tokens as u128) * 100 < t * r {
            return 0;
        }
        // Count the tool results.
        let mut total: usize = 0;
        let mut i: usize = 0;
        while i < messages.len()
            invariant
                i <= messages.len(),
                ms == msgs_view(messages@),
                total == tool_results_before(ms, i as nat),
            decreases messages.len() - i,
        {
            proof {
                lemma_counts_bounded(ms, keep_recent as nat, i as nat);
            }
            if str_eq(messages[i].role.as_str(), "tool") && messages[i].content.is_some() {
                total += 1;
            }
            i += 1;
        }
        if total <= keep_recent {
            return 0;
        }
        let cutoff = total - keep_recent;
        let mut seen: usize = 0;
        let mut n: usize = 0;
        let mut j: usize = 0;
        while j < messages.len()
            invariant
                j <= messages.len() == ms.len(),
                total == tool_results_before(ms, ms.len()),
                cutoff + keep_recent == total,
                seen == tool_results_before(ms, j as nat),
                n == cleared_before(ms, keep_recent as nat, j as nat),
                forall|k: int|
                    0 <= k < j ==> #[trigger] msgs_view(messages@)[k] == if clears(ms, keep_recent as nat, k) {
                        cleared(ms[k])
                    } else {
                        ms[k]
                    },
                forall|k: int| j <= k < ms.len() ==> #[trigger] msgs_view(messages@)[k] == ms[k],
            decreases messages.len() - j,
        {
            proof {
                lemma_counts_bounded(ms, keep_recent as nat, j as nat);
            }
            assert(msgs_view(messages@)[j as int] == ms[j as int]);
            assert(messages@[j as int]@ == ms[j as int]);
            let is_tool = str_eq(messages[j].role.as_str(), "tool") && messages[j].content.is_some();
            assert(is_tool == is_tool_result(ms[j as int]));
            let ghost count_before = n;
            if is_tool {
                if seen < cutoff {
                    let already = match &messages[j].content {
                        Some(c) => {
                            let cs = chars_of(c.as_str());
                            let p = chars_of("[cleared tool result");
                            crate::text::has_prefix(cs.as_slice(), p.as_slice())
                        },
                        None => false,
                    };
                    if !already {
                        let old_m = messages[j].duplicate();
                        let m = ChatMessage {
                            role: old_m.role,
                            content: Some(
                                String::from_str(
                                    "[cleared tool result: earlier tool output removed to free context; re-run the tool if needed]",
                                ),
                            ),
                            tool_calls: old_m.tool_calls,
                            tool_call_id: old_m.tool_call_id,
                        };
                        let ghost before = messages@;
                        messages.set(j, m);
                        proof {
                            assert forall|k: int| 0 <= k < ms.len() && k != j implies #[trigger] msgs_view(
                                messages@,
                            )[k] == msgs_view(before)[k] by {}
                        }
                        n += 1;
                    }
                }
                seen += 1;
            }
            proof {
                assert(tool_results_before(ms, (j + 1) as nat) == tool_results_before(ms, j as nat) + if is_tool_result(ms[j as int]) { 1nat } else { 0nat });
                assert(cleared_before(ms, keep_recent as nat, (j + 1) as nat) == cleared_before(ms, keep_recent as nat, j as nat) + if clears(ms, keep_recent as nat, j as int) { 1nat } else { 0nat });
            }
            j += 1;
        }
        proof {
            assert forall|i: int| 0 <= i < ms.len() implies #[trigger] msgs_view(messages@)[i] == if clears(
                ms,
                keep_recent as nat,
                i,
            ) {
                cleared(ms[i])
            } else {
                ms[i]
            } by {}
        }
        n
    }

    /// Dedupes system messages by [`dedupe_key`], keeps at most `max_count`
    /// and caps each at `max_chars` (see [`pruned`]).
    pub fn prune_system_messages(messages: &[ChatMessage], max_count: usize, max_chars: usize) -> (out: Vec<ChatMessage>)
        ensures
            msgs_view(out@) == pruned(msgs_view(messages@), max_count as nat, max_chars as nat),
    {
        let ghost ms = msgs_view(messages@);
        let mut keys: Vec<Vec<char>> = Vec::new();
        let mut kept: Vec<ChatMessage> = Vec::new();
        let mut i: usize = 0;
        while i < messages.len()
            invariant
                i <= messages.len(),
                ms == msgs_view(messages@),
                prune_state(ms.take(i as int), max_count as nat, max_chars as nat) == (
                    crate::text::bufs_view(keys@),
                    msgs_view(kept@),
                ),
            decreases messages.len() - i,
        {
            assert(ms.take(i + 1).drop_last() == ms.take(i as int));
            assert(ms.take(i + 1).last() == messages@[i as int]@);
            let m = &messages[i];
            let cs: Vec<char> = match &m.content {
                Some(c) => chars_of(c.as_str()),
                None => Vec::new(),
            };
            assert(cs@ == content_or_empty(m@));
            let k = dedupe_key_of(cs.as_slice());
            if !key_seen(&keys, &k) {
                let ghost prev_keys = crate::text::bufs_view(keys@);
                let ghost prev_kept = msgs_view(kept@);
                keys.push(k);
                assert(crate::text::bufs_view(keys@) =~= prev_keys.push(dedupe_key(content_or_empty(m@))));
                if kept.len() < max_count {
                    let c = capped_copy(m, max_chars);
                    kept.push(c);
                    assert(msgs_view(kept@) =~= prev_kept.push(capped_system(m@, max_chars as nat)));
                }
            }
            i += 1;
        }
        assert(ms.take(messages.len() as int) == ms);
        kept
    }

    /// The recent non-system messages of `original` that fit in `budget` (see
    /// [`tail_spec`]).
    pub fn tail_messages(original: &[ChatMessage], budget: usize) -> (out: Vec<ChatMessage>)
        requires
            units_fit(msgs_view(original@)),
        ensures
            msgs_view(out@) == tail_spec(msgs_view(original@), budget as nat),
    {
        let ghost ms = msgs_view(original@);
        let mut groups: Vec<Vec<ChatMessage>> = Vec::new();
        let mut i: usize = 0;
        while i < original.len()
            invariant
                i <= original.len(),
                ms == msgs_view(original@),
                groups_view(groups@) == group_msgs(non_system(ms.take(i as int))),
                forall|k: int| 0 <= k < groups@.len() ==> #[trigger] groups@[k]@.len() > 0,
            decreases original.len() - i,
        {
            assert(ms.take(i + 1).drop_last() == ms.take(i as int));
            assert(ms.take(i + 1).last() == original@[i as int]@);
            let m = &original[i];
            let ghost ns = non_system(ms.take(i as int));
            if !str_eq(m.role.as_str(), "system") {
                let ghost prev = groups_view(groups@);
                assert(non_system(ms.take(i + 1)) == ns.push(m@));
                assert(ns.push(m@).drop_last() == ns);
                let opens = str_eq(m.role.as_str(), "assistant") && m.tool_calls.len() > 0;
                let mut joins = false;
                if !opens && str_eq(m.role.as_str(), "tool") && groups.len() > 0 {
                    let last = groups.len() - 1;
                    assert(groups@[last as int]@.len() > 0);
                    let head = &groups[last][0];
                    assert(prev.last()[0] == head@);
                    joins = str_eq(head.role.as_str(), "assistant") && head.tool_calls.len() > 0;
                }
                if joins {
                    let mut g = groups.pop().unwrap();
                    let ghost gprev = msgs_view(g@);
                    g.push(m.duplicate());
                    assert(msgs_view(g@) =~= gprev.push(m@));
                    groups.push(g);
                    assert(groups_view(groups@) =~= prev.drop_last().push(prev.last().push(m@)));
                } else {
                    let mut g: Vec<ChatMessage> = Vec::new();
                    g.push(m.duplicate());
                    assert(msgs_view(g@) =~= seq![m@]);
                    groups.push(g);
                    assert(groups_view(groups@) =~= prev.push(seq![m@]));
                }
            } else {
                assert(non_system(ms.take(i + 1)) == ns);
            }
            i += 1;
        }
        assert(ms.take(original.len() as int) == ms);
        let ghost gs = groups_view(groups@);
        let n = groups.len();
        let window: usize = if n >= MAX_TAIL_GROUPS { n - MAX_TAIL_GROUPS } else { 0 };
        let mut total: usize = 0;
        let mut take_from: usize = n;
        let mut stop = false;
        while take_from > 0 && !stop
            invariant
                take_from <= n == groups@.len() == gs.len(),
                gs == groups_view(groups@),
                units_fit(ms),
                gs == group_msgs(non_system(ms)),
                window == (if gs.len() >= MAX_TAIL_GROUPS { gs.len() - MAX_TAIL_GROUPS } else { 0 }),
                total <= budget,
                tail_start(gs, budget as nat, n as nat, 0) == tail_start(gs, budget as nat, take_from as nat, total as nat),
                stop ==> tail_start(gs, budget as nat, take_from as nat, total as nat) == take_from,
            decreases take_from, (if stop { 0int } else { 1int }),
        {
            let idx = take_from - 1;
            if idx < window {
                stop = true;
            } else {
                assert(gs[idx as int] == msgs_view(groups@[idx as int]@));
                assert(group_bytes(gs[idx as int]) <= usize::MAX);
                let gl = group_len(&groups[idx]);
                if gl > budget - total {
                    stop = true;
                } else {
                    total = total + gl;
                    take_from = idx;
                }
            }
        }
        let mut out: Vec<ChatMessage> = Vec::new();
        let mut k = take_from;
        while k < n
            invariant
                take_from <= k <= n == groups@.len() == gs.len(),
                gs == groups_view(groups@),
                msgs_view(out@) == flatten(gs.subrange(take_from as int, k as int)),
            decreases n - k,
        {
            assert(gs.subrange(take_from as int, k + 1).drop_last() == gs.subrange(take_from as int, k as int));
            let g = &groups[k];
            let ghost base = msgs_view(out@);
            let mut j: usize = 0;
            while j < g.len()
                invariant
                    j <= g.len(),
                    gs == groups_view(groups@),
                    g@ == groups@[k as int]@,
                    k < gs.len(),
                    msgs_view(out@) == base + msgs_view(g@).take(j as int),
                decreases g.len() - j,
            {
                let ghost prev = msgs_view(out@);
                out.push(g[j].duplicate());
                assert(msgs_view(out@) =~= prev.push(g@[j as int]@));
                assert(msgs_view(g@).take(j + 1) =~= msgs_view(g@).take(j as int).push(g@[j as int]@));
                j += 1;
            }
            assert(msgs_view(g@).take(g.len() as int) == msgs_view(g@));
            assert(gs.subrange(take_from as int, k + 1).last() == gs[k as int]);
            k += 1;
        }
        out
    }

    /// The history after a compaction: the surviving system messages (see
    /// [`pruned`]), the summary, then the recent tail (see [`tail_spec`]).
    pub fn merge_compacted_history(original: &[ChatMessage], compacted: ChatMessage) -> (out: Vec<ChatMessage>)
        requires
            units_fit(msgs_view(original@)),
        ensures
            msgs_view(out@) == pruned(
                system_only(msgs_view(original@)),
                MAX_SYSTEM_MESSAGES as nat,
                MAX_SYSTEM_MESSAGE_CHARS as nat,
            ).push(compacted@) + tail_spec(msgs_view(original@), TAIL_BUDGET_CHARS as nat),
    {
        let ghost ms = msgs_view(original@);
        let mut systems: Vec<ChatMessage> = Vec::new();
        let mut i: usize = 0;
        while i < original.len()
            invariant
                i <= original.len(),
                ms == msgs_view(original@),
                msgs_view(systems@) == system_only(ms.take(i as int)),
            decreases original.len() - i,
        {
            assert(ms.take(i + 1).drop_last() == ms.take(i as int));
            assert(ms.take(i + 1).last() == original@[i as int]@);
            if str_eq(original[i].role.as_str(), "system") {
                let ghost prev = msgs_view(systems@);
                systems.push(original[i].duplicate());
                assert(msgs_view(systems@) =~= prev.push(original@[i as int]@));
            }
            i += 1;
        }
        assert(ms.take(original.len() as int) == ms);
        let mut out = Self::prune_system_messages(systems.as_slice(), MAX_SYSTEM_MESSAGES, MAX_SYSTEM_MESSAGE_CHARS);
        let ghost head = msgs_view(out@);
        out.push(compacted);
        assert(msgs_view(out@) =~= head.push(compacted@));
        let ghost with_summary = msgs_view(out@);
        let mut tail = Self::tail_messages(original, TAIL_BUDGET_CHARS);
        let ghost tv = msgs_view(tail@);
        out.append(&mut tail);
        assert(msgs_view(out@) =~= with_summary + tv);
        out
    }
}

} // verus!
