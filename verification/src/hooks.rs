//! Hooks run after each instruction: the example hooks' reports, and the
//! hook that refreshes the repository map.
use crate::messages::{msgs_view, ChatMessage, MessageView};
use crate::test_fix::{lemma_prefix_strict, lemma_width_push, width_sum};
use crate::text::{chars_of, contains_seq, decimal, push_chars, push_decimal, push_str, slice_to_vec, str_contains};
use vstd::prelude::*;
use vstd::string::*;

verus! {

/// Hook that reports each completed instruction.
#[derive(Clone, Debug)]
pub struct LoggingHook {
    name: String,
}

/// Hook that writes the conversation out.
#[derive(Clone, Debug)]
pub struct SaveConversationHook {
    name: String,
    output_path: String,
}

/// Hook that reports the kinds of change in the working tree.
#[derive(Clone, Debug)]
pub struct AnalysisHook {
    name: String,
    model: String,
}

/// Hook that rebuilds the repository map when files changed.
#[derive(Clone, Copy, Debug)]
pub struct RepomapUpdateHook;

impl LoggingHook {
    /// The hook's name.
    pub closed spec fn name_spec(&self) -> Seq<char> {
        self.name@
    }

    /// The hook, named `LoggingHook`.
    pub fn new() -> (h: Self)
        ensures
            h.name_spec() == "LoggingHook"@,
    {
        LoggingHook { name: String::from_str("LoggingHook") }
    }

    /// The hook's name.
    pub fn name(&self) -> (n: &str)
        ensures
            n@ == self.name_spec(),
    {
        self.name.as_str()
    }
}

impl Default for LoggingHook {
    /// The hook, named `LoggingHook`.
    fn default() -> (h: Self)
        ensures
            h.name_spec() == "LoggingHook"@,
    {
        Self::new()
    }
}

impl SaveConversationHook {
    /// Where the conversation goes.
    pub closed spec fn path_spec(&self) -> Seq<char> {
        self.output_path@
    }

    /// The hook's name.
    pub closed spec fn name_spec(&self) -> Seq<char> {
        self.name@
    }

    /// The hook, named `SaveConversationHook`, writing to `output_path`.
    pub fn new(output_path: String) -> (h: Self)
        ensures
            h.name_spec() == "SaveConversationHook"@,
            h.path_spec() == output_path@,
    {
        SaveConversationHook { name: String::from_str("SaveConversationHook"), output_path }
    }

    /// The hook's name.
    pub fn name(&self) -> (n: &str)
        ensures
            n@ == self.name_spec(),
    {
        self.name.as_str()
    }

    /// Where the conversation goes.
    pub fn output_path(&self) -> (p: &str)
        ensures
            p@ == self.path_spec(),
    {
        self.output_path.as_str()
    }
}

impl AnalysisHook {
    /// The model the hook names.
    pub closed spec fn model_spec(&self) -> Seq<char> {
        self.model@
    }

    /// The hook's name.
    pub closed spec fn name_spec(&self) -> Seq<char> {
        self.name@
    }

    /// The hook, named `AnalysisHook`, for `model`.
    pub fn new(model: String) -> (h: Self)
        ensures
            h.name_spec() == "AnalysisHook"@,
            h.model_spec() == model@,
    {
        AnalysisHook { name: String::from_str("AnalysisHook"), model }
    }

    /// The hook's name.
    pub fn name(&self) -> (n: &str)
        ensures
            n@ == self.name_spec(),
    {
        self.name.as_str()
    }
}

impl RepomapUpdateHook {
    /// The hook.
    pub fn new() -> (h: Self) {
        RepomapUpdateHook
    }

    /// The hook's name.
    pub fn name(&self) -> (n: &'static str)
        ensures
            n@ == "RepomapUpdateHook"@,
    {
        "RepomapUpdateHook"
    }
}

impl Default for RepomapUpdateHook {
    /// The hook.
    fn default() -> (h: Self) {
        Self::new()
    }
}

// ---------------------------------------------------------------------------
// Reports
// ---------------------------------------------------------------------------
/// Bytes of a response shown in the log.
pub const PREVIEW_BYTES: usize = 100;

/// Inputs the preview can cut: at most [`PREVIEW_BYTES`] bytes, or with a
/// prefix of exactly that many bytes.
pub open spec fn preview_defined(s: Seq<char>) -> bool {
    width_sum(s) <= PREVIEW_BYTES || exists|k: int|
        0 <= k <= s.len() && #[trigger] width_sum(s.take(k)) == PREVIEW_BYTES
}

/// Where the preview is cut.
pub open spec fn preview_cut(s: Seq<char>) -> int {
    choose|k: int| 0 <= k <= s.len() && #[trigger] width_sum(s.take(k)) == PREVIEW_BYTES
}

/// A response as the log shows it: whole when at most [`PREVIEW_BYTES`]
/// bytes, else its first [`PREVIEW_BYTES`] bytes and `...`.
pub open spec fn preview_spec(s: Seq<char>) -> Seq<char> {
    if width_sum(s) <= PREVIEW_BYTES {
        s
    } else {
        s.take(preview_cut(s)) + "..."@
    }
}

/// The log's form of a response (see [`preview_spec`]).
pub fn response_preview(content: &str) -> (out: String)
    requires
        preview_defined(content@),
    ensures
        out@ == preview_spec(content@),
{
    let cs = chars_of(content);
    let mut k: usize = 0;
    let mut acc: usize = 0;
    assert(cs@.take(0) =~= Seq::<char>::empty());
    while k < cs.len() && acc < PREVIEW_BYTES
        invariant
            k <= cs.len(),
            cs@ == content@,
            acc == width_sum(content@.take(k as int)),
            acc < PREVIEW_BYTES + 4,
            k > 0 ==> width_sum(content@.take(k - 1)) < PREVIEW_BYTES,
        decreases cs.len() - k,
    {
        assert(content@.take(k + 1) =~= content@.take(k as int).push(content@[k as int]));
        proof {
            lemma_width_push(content@.take(k as int), content@[k as int]);
        }
        acc = acc + crate::text::char_width(cs[k]);
        k += 1;
    }
    assert(content@.take(content@.len() as int) == content@);
    if k < cs.len() {
        proof {
            lemma_prefix_strict(content@, k as int, content@.len() as int);
        }
    }
    proof {
        if acc > PREVIEW_BYTES && width_sum(content@) > PREVIEW_BYTES {
            let w = preview_cut(content@);
            assert(0 <= w <= content@.len() && width_sum(content@.take(w)) == PREVIEW_BYTES);
            if w < k - 1 {
                lemma_prefix_strict(content@, w, k - 1);
            } else if w > k {
                lemma_prefix_strict(content@, k as int, w);
            }
        }
    }
    if k == cs.len() && acc <= PREVIEW_BYTES {
        return String::from_str(content);
    }
    proof {
        assert(width_sum(content@.take(k as int)) == PREVIEW_BYTES);
        let w = preview_cut(content@);
        assert(0 <= w <= content@.len() && width_sum(content@.take(w)) == PREVIEW_BYTES);
        if w < k {
            lemma_prefix_strict(content@, w, k as int);
        } else if w > k {
            lemma_prefix_strict(content@, k as int, w);
        }
    }
    let head = slice_to_vec(cs.as_slice(), 0, k);
    let mut out = crate::text::string_from(head.as_slice());
    push_str(&mut out, "...");
    out
}

/// First report line of the logging hook.
pub fn completion_line(message_count: usize) -> (s: String)
    ensures
        s@ == "[HOOK] Instruction completed with "@ + decimal(message_count as nat) + " total messages"@,
{
    let mut s = String::from_str("[HOOK] Instruction completed with ");
    push_decimal(&mut s, message_count as u64);
    push_str(&mut s, " total messages");
    s
}

/// Second report line of the logging hook, for a final response.
pub fn response_line(content: &str) -> (s: String)
    requires
        preview_defined(content@),
    ensures
        s@ == "[HOOK] Final assistant response: "@ + preview_spec(content@),
{
    let mut s = String::from_str("[HOOK] Final assistant response: ");
    let p = response_preview(content);
    push_str(&mut s, p.as_str());
    s
}

/// Content of a message, empty when absent.
pub open spec fn text_of(m: MessageView) -> Seq<char> {
    match m.content {
        Some(c) => c,
        None => Seq::empty(),
    }
}

/// Numbered lines `<n> <role>: <content>` for the first `n` messages.
pub open spec fn message_lines(ms: Seq<MessageView>, n: nat) -> Seq<char>
    decreases n,
{
    if n == 0 {
        Seq::empty()
    } else {
        message_lines(ms, (n - 1) as nat) + decimal(n) + " "@ + ms[n - 1].role + ": "@ + text_of(ms[n - 1])
            + "\n"@
    }
}

/// Transcript of a conversation: the number of messages, the project,
/// each message numbered, then the final response when it has content.
pub open spec fn transcript_spec(ms: Seq<MessageView>, fin: MessageView, project_root: Seq<char>) -> Seq<char> {
    "Conversation with "@ + decimal(ms.len()) + " messages\n"@ + "Project: "@ + project_root + "\n"@
        + "=== MESSAGES ===\n"@ + message_lines(ms, ms.len()) + match fin.content {
        Some(c) => "=== FINAL RESPONSE ===\n"@ + c,
        None => Seq::empty(),
    }
}

/// The transcript the conversation hook writes (see [`transcript_spec`]).
pub fn conversation_transcript(messages: &Vec<ChatMessage>, final_msg: &ChatMessage, project_root: &str) -> (out: String)
    ensures
        out@ == transcript_spec(msgs_view(messages@), final_msg@, project_root@),
{
    let ghost ms = msgs_view(messages@);
    let mut out = String::from_str("Conversation with ");
    push_decimal(&mut out, messages.len() as u64);
    push_str(&mut out, " messages\n");
    push_str(&mut out, "Project: ");
    push_str(&mut out, project_root);
    push_str(&mut out, "\n");
    push_str(&mut out, "=== MESSAGES ===\n");
    let ghost head = out@;
    let mut i: usize = 0;
    while i < messages.len()
        invariant
            i <= messages.len(),
            ms == msgs_view(messages@),
            out@ == head + message_lines(ms, i as nat),
        decreases messages.len() - i,
    {
        assert(messages@[i as int]@ == ms[i as int]);
        let m = &messages[i];
        let ghost before = out@;
        push_decimal(&mut out, (i + 1) as u64);
        push_str(&mut out, " ");
        push_str(&mut out, m.role.as_str());
        push_str(&mut out, ": ");
        match &m.content {
            Some(c) => push_str(&mut out, c.as_str()),
            None => {},
        }
        push_str(&mut out, "\n");
        assert(out@ =~= head + message_lines(ms, (i + 1) as nat));
        i += 1;
    }
    let ghost body = out@;
    match &final_msg.content {
        Some(c) => {
            push_str(&mut out, "=== FINAL RESPONSE ===\n");
            push_str(&mut out, c.as_str());
        },
        None => {},
    }
    assert(out@ =~= transcript_spec(ms, final_msg@, project_root@));
    out
}

/// Report lines of the analysis hook for a working-tree diff: its size and
/// the kinds of change it shows, or that there is none.
pub open spec fn analysis_lines_spec(diff: Seq<char>, empty: bool, size: nat) -> Seq<Seq<char>> {
    if empty {
        seq!["[HOOK] No git changes detected"@]
    } else {
        seq!["[HOOK] Changes detected in the codebase ("@ + decimal(size) + " chars)"@] + (if contains_seq(
            diff,
            "fn "@,
        ) || contains_seq(diff, "def "@) || contains_seq(diff, "function"@) {
            seq!["[HOOK] Function/Method changes detected"@]
        } else {
            Seq::empty()
        }) + (if contains_seq(diff, "struct"@) || contains_seq(diff, "class"@) || contains_seq(
            diff,
            "interface"@,
        ) {
            seq!["[HOOK] Type definition changes detected"@]
        } else {
            Seq::empty()
        })
    }
}

/// The analysis hook's report (see [`analysis_lines_spec`]); `empty` tells
/// whether the diff output was empty, `diff` is its text and the size its
/// length in bytes.
pub fn analysis_lines(diff: &str, empty: bool) -> (lines: Vec<String>)
    ensures
        crate::testing::strs_view(lines@) == analysis_lines_spec(diff@, empty, diff.len() as nat),
{
    let mut lines: Vec<String> = Vec::new();
    if empty {
        lines.push(String::from_str("[HOOK] No git changes detected"));
        assert(crate::testing::strs_view(lines@) =~= analysis_lines_spec(diff@, empty, diff.len() as nat));
        return lines;
    }
    let mut first = String::from_str("[HOOK] Changes detected in the codebase (");
    push_decimal(&mut first, diff.len() as u64);
    push_str(&mut first, " chars)");
    let ghost fv = first@;
    assert(fv == "[HOOK] Changes detected in the codebase ("@ + decimal(diff.len() as nat) + " chars)"@);
    lines.push(first);
    assert(crate::testing::strs_view(lines@) =~= seq![fv]);
    let ghost l1 = crate::testing::strs_view(lines@);
    if str_contains(diff, "fn ") || str_contains(diff, "def ") || str_contains(diff, "function") {
        let x = String::from_str("[HOOK] Function/Method changes detected");
        let ghost xv = x@;
        lines.push(x);
        assert(crate::testing::strs_view(lines@) =~= l1 + seq![xv]);
    } else {
        assert(crate::testing::strs_view(lines@) =~= l1 + Seq::<Seq<char>>::empty());
    }
    let ghost l2 = crate::testing::strs_view(lines@);
    if str_contains(diff, "struct") || str_contains(diff, "class") || str_contains(diff, "interface") {
        let x = String::from_str("[HOOK] Type definition changes detected");
        let ghost xv = x@;
        lines.push(x);
        assert(crate::testing::strs_view(lines@) =~= l2 + seq![xv]);
    } else {
        assert(crate::testing::strs_view(lines@) =~= l2 + Seq::<Seq<char>>::empty());
    }
    assert(crate::testing::strs_view(lines@) =~= analysis_lines_spec(diff@, empty, diff.len() as nat));
    lines
}

} // verus!
