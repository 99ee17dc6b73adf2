//! Decisions of the agent loop and of the tool-enabled request it makes:
//! retrying, reacting to model errors, and what each tool call adds to the
//! conversation and to the display.
use crate::agent::{AgentLoopError, LlmErrorKind};
use crate::messages::{msgs_view, ChatMessage, MessageView};
use crate::json::{items_view, json_get, json_text_of, jview, lemma_items_view, member_of, text_in, Json, JsonView};
use crate::text::{contains_seq, decimal, push_decimal, push_str, str_eq};
use crate::verification::json_str_field;
use vstd::prelude::*;
use vstd::string::*;

verus! {

// ---------------------------------------------------------------------------
// Starting a run
// ---------------------------------------------------------------------------
/// Whether the conversation lacks a system message.
pub open spec fn lacks_system(ms: Seq<MessageView>) -> bool {
    forall|i: int| 0 <= i < ms.len() ==> #[trigger] ms[i].role != "system"@
}

/// Whether the default system prompt must be put first.
pub fn needs_system_prompt(messages: &Vec<ChatMessage>) -> (b: bool)
    ensures
        b == lacks_system(msgs_view(messages@)),
{
    let ghost ms = msgs_view(messages@);
    let mut i: usize = 0;
    while i < messages.len()
        invariant
            i <= messages.len(),
            ms == msgs_view(messages@),
            forall|j: int| 0 <= j < i ==> #[trigger] ms[j].role != "system"@,
        decreases messages.len() - i,
    {
        assert(ms[i as int] == messages@[i as int]@);
        if str_eq(messages[i].role.as_str(), "system") {
            assert(ms[i as int].role == "system"@);
            return false;
        }
        i += 1;
    }
    true
}

// ---------------------------------------------------------------------------
// The run between model requests
// ---------------------------------------------------------------------------
/// What an agent run keeps between model requests: requests made so far,
/// and whether a tool changed a file.
#[derive(Debug, Clone, Copy)]
pub struct AgentRunState {
    pub iterations: usize,
    pub file_was_written: bool,
}

impl AgentRunState {
    /// A run that has made no request.
    pub fn new() -> (s: Self)
        ensures
            s.iterations == 0,
            !s.file_was_written,
    {
        AgentRunState { iterations: 0, file_was_written: false }
    }

    /// Counts the next model request; once more than `max_iters` requests
    /// are counted the run ends with [`AgentLoopError::MaxIterations`].
    pub fn begin_request(&mut self, max_iters: usize) -> (r: Result<(), AgentLoopError>)
        requires
            old(self).iterations < usize::MAX,
        ensures
            final(self).iterations == old(self).iterations + 1,
            final(self).file_was_written == old(self).file_was_written,
            r == (if old(self).iterations + 1 > max_iters {
                Err::<(), AgentLoopError>(AgentLoopError::MaxIterations((old(self).iterations + 1) as usize))
            } else {
                Ok(())
            }),
    {
        self.iterations = self.iterations + 1;
        if self.iterations > max_iters {
            Err(AgentLoopError::MaxIterations(self.iterations))
        } else {
            Ok(())
        }
    }

    /// Records a finished tool call: a successful file change is remembered.
    pub fn record_tool(&mut self, tool_name: &str, success: bool)
        ensures
            final(self).iterations == old(self).iterations,
            final(self).file_was_written == (old(self).file_was_written || (success
                && modifies_files_spec(tool_name@))),
    {
        if success && modifies_files(tool_name) {
            self.file_was_written = true;
        }
    }

    /// Whether the final answer is followed by a diff review: diffs are
    /// shown, a file was changed, and there is a display to show it on.
    pub fn wants_diff_review(&self, show_diff: bool, has_display: bool) -> (b: bool)
        ensures
            b == (show_diff && self.file_was_written && has_display),
    {
        show_diff && self.file_was_written && has_display
    }
}

/// The tool message for a call skipped because a loop was detected
/// earlier in its batch.
pub fn skipped_tool_message(call_id: &Option<String>) -> (m: ChatMessage)
    ensures
        m@ == (MessageView {
            role: "tool"@,
            content: Some(SKIPPED_TOOL_CONTENT@),
            tool_calls: Seq::empty(),
            tool_call_id: crate::messages::opt_str(*call_id),
        }),
{
    let m = ChatMessage {
        role: String::from_str("tool"),
        content: Some(String::from_str(SKIPPED_TOOL_CONTENT)),
        tool_calls: Vec::new(),
        tool_call_id: crate::messages::copy_opt(call_id),
    };
    assert(m@.tool_calls =~= Seq::<crate::messages::ToolCallView>::empty());
    m
}

/// Summary of a tool call that failed with `error`: its first 200 columns.
pub fn failure_summary(error: &str) -> (s: String)
    ensures
        s@ == crate::ui_rendering::truncated_spec(error@, 200),
{
    crate::ui_rendering::truncate_string_with_graphemes(error, 200)
}

/// Text the recovery hint is chosen by: the `error` field of the tool's
/// output when it has one, else the result summary.
pub fn hint_source(output_error: Option<String>, summary: String) -> (t: String)
    ensures
        t@ == (match output_error {
            Some(e) => e@,
            None => summary@,
        }),
{
    match output_error {
        Some(e) => e,
        None => summary,
    }
}

/// A user message with `text`.
pub open spec fn user_text(text: Seq<char>) -> MessageView {
    MessageView { role: "user"@, content: Some(text), tool_calls: Seq::empty(), tool_call_id: None }
}

/// Messages that follow a tool call in the history: the tool message with
/// `content`; the loop warning, if any, as a system message; the stall
/// warning, if any, as a user message; after a failure, the recovery hint
/// for `hint_text` (see [`crate::agent::get_error_hint`]), if there is one,
/// as a user message.
pub open spec fn followups_spec(
    call_id: Option<Seq<char>>,
    content: Seq<char>,
    loop_warning: Option<Seq<char>>,
    stall_warning: Option<Seq<char>>,
    success: bool,
    hint_text: Seq<char>,
) -> Seq<MessageView> {
    let tool = seq![MessageView { role: "tool"@, content: Some(content), tool_calls: Seq::empty(), tool_call_id: call_id }];
    let with_loop = match loop_warning {
        Some(w) => tool.push(MessageView { role: "system"@, content: Some(w), tool_calls: Seq::empty(), tool_call_id: None }),
        None => tool,
    };
    let with_stall = match stall_warning {
        Some(w) => with_loop.push(user_text(w)),
        None => with_loop,
    };
    if !success && crate::agent::hint_for(crate::agent::lowercase(hint_text)).is_some() {
        with_stall.push(user_text(crate::agent::hint_for(crate::agent::lowercase(hint_text)).unwrap()))
    } else {
        with_stall
    }
}

/// Builds the messages that follow a tool call (see [`followups_spec`]).
pub fn tool_followups(
    call_id: &Option<String>,
    content: String,
    loop_warning: Option<String>,
    stall_warning: Option<String>,
    success: bool,
    hint_text: &str,
) -> (ms: Vec<ChatMessage>)
    ensures
        msgs_view(ms@) == followups_spec(
            crate::messages::opt_str(*call_id),
            content@,
            crate::messages::opt_str(loop_warning),
            crate::messages::opt_str(stall_warning),
            success,
            hint_text@,
        ),
{
    let ghost expected = followups_spec(
        crate::messages::opt_str(*call_id),
        content@,
        crate::messages::opt_str(loop_warning),
        crate::messages::opt_str(stall_warning),
        success,
        hint_text@,
    );
    let mut ms: Vec<ChatMessage> = Vec::new();
    let first = ChatMessage {
        role: String::from_str("tool"),
        content: Some(content),
        tool_calls: Vec::new(),
        tool_call_id: crate::messages::copy_opt(call_id),
    };
    assert(first@.tool_calls =~= Seq::<crate::messages::ToolCallView>::empty());
    ms.push(first);
    let ghost tool = seq![first@];
    assert(msgs_view(ms@) =~= tool);
    match loop_warning {
        Some(w) => {
            let m = ChatMessage { role: String::from_str("system"), content: Some(w), tool_calls: Vec::new(), tool_call_id: None };
            assert(m@.tool_calls =~= Seq::<crate::messages::ToolCallView>::empty());
            let ghost prev = msgs_view(ms@);
            ms.push(m);
            assert(msgs_view(ms@) =~= prev.push(m@));
        },
        None => {},
    }
    match stall_warning {
        Some(w) => {
            let m = ChatMessage::text("user", w);
            let ghost prev = msgs_view(ms@);
            ms.push(m);
            assert(msgs_view(ms@) =~= prev.push(m@));
        },
        None => {},
    }
    if !success {
        match crate::agent::get_error_hint(hint_text) {
            Some(h) => {
                let m = ChatMessage::text("user", String::from_str(h));
                let ghost prev = msgs_view(ms@);
                ms.push(m);
                assert(msgs_view(ms@) =~= prev.push(m@));
            },
            None => {},
        }
    }
    assert(msgs_view(ms@) =~= expected);
    ms
}

/// The tool message content for a tool call that failed with `error`: the
/// JSON object `{"error": error}`, budgeted for the model like any tool
/// output (see [`crate::message_utils::model_output`]).
pub fn error_tool_output(error: &str, tool_name: &str) -> (s: String)
    ensures
        s@ == crate::message_utils::model_output(
            crate::json::text_of(crate::json::JsonView::Object(seq![("error"@, crate::json::JsonView::Str(error@))])),
            tool_name@,
            Some(crate::json::JsonView::Object(seq![("error"@, crate::json::JsonView::Str(error@))])),
        ),
{
    let fields = vec![(String::from_str("error"), crate::json::Json::Str(String::from_str(error)))];
    let ghost fv = crate::json::fields_view(fields, 2);
    proof {
        crate::json::lemma_fields_view(fields, 1);
        assert(crate::json::fields_view(fields, 1) =~= seq![("error"@, crate::json::JsonView::Str(error@))]);
    }
    let obj = crate::json::Json::Object(fields);
    let text = crate::json::json_text(&obj);
    crate::message_utils::truncate_parsed_output(text, tool_name, Some(obj))
}

// ---------------------------------------------------------------------------
// Model errors
// ---------------------------------------------------------------------------
/// What the loop does about a failed model request.
#[derive(Debug, Clone, Copy, PartialEq, Eq, Structural)]
pub enum LlmErrorStep {
    /// Compact the history and ask again; if compacting fails, give up.
    CompactThenRetry,
    /// Tell the model its JSON was invalid and ask again.
    AskForValidJson,
    /// Give up with the error.
    Fail,
}

/// Reaction to a failed model request of kind `kind` (when it carries
/// one): compact on an exceeded context, ask for valid JSON after a
/// deserialisation error, else give up.
pub fn llm_error_step(kind: Option<LlmErrorKind>) -> (s: LlmErrorStep)
    ensures
        s == (match kind {
            Some(LlmErrorKind::ContextLengthExceeded) => LlmErrorStep::CompactThenRetry,
            Some(LlmErrorKind::Deserialize) => LlmErrorStep::AskForValidJson,
            _ => LlmErrorStep::Fail,
        }),
{
    match kind {
        Some(LlmErrorKind::ContextLengthExceeded) => LlmErrorStep::CompactThenRetry,
        Some(LlmErrorKind::Deserialize) => LlmErrorStep::AskForValidJson,
        _ => LlmErrorStep::Fail,
    }
}

/// The message asking the model for valid JSON.
pub fn invalid_json_feedback(error: &str) -> (s: String)
    ensures
        s@ == "Error: Invalid JSON format in your response: "@ + error@
            + ". Please correct your output to be valid JSON. Ensure you are not using markdown code blocks for the entire response if it's not required by the tool."@,
{
    let mut s = String::from_str("Error: Invalid JSON format in your response: ");
    push_str(&mut s, error);
    push_str(
        &mut s,
        ". Please correct your output to be valid JSON. Ensure you are not using markdown code blocks for the entire response if it's not required by the tool.",
    );
    s
}

// ---------------------------------------------------------------------------
// Tool calls
// ---------------------------------------------------------------------------
/// Tools that change files.
pub open spec fn modifies_files_spec(name: Seq<char>) -> bool {
    name == "fs_write"@ || name == "edit"@ || name == "apply_patch"@
}

/// Whether a tool changes files.
pub fn modifies_files(name: &str) -> (b: bool)
    ensures
        b == modifies_files_spec(name@),
{
    str_eq(name, "fs_write") || str_eq(name, "edit") || str_eq(name, "apply_patch")
}

/// Note appended to the result of a successful file change.
pub const VERIFY_CHANGES_NOTE: &'static str = "\n\n<SYSTEM_NOTE>\nFile modification detected. You MUST now verify your changes:\n\n1. Read the file to confirm the content is correct.\n2. Run tests to ensure no regressions.\n</SYSTEM_NOTE>";

/// Result of a tool call skipped after a loop was detected in its batch.
pub const SKIPPED_TOOL_CONTENT: &'static str = "{\"error\":\"Loop detected in current tool batch. Execution skipped to allow for immediate reassessment.\"}";

/// The tool message for a result: the result, with the note asking for
/// verification after a successful file change.
pub fn tool_message_content(result: String, tool_name: &str, success: bool) -> (s: String)
    ensures
        s@ == if success && modifies_files_spec(tool_name@) {
            result@ + VERIFY_CHANGES_NOTE@
        } else {
            result@
        },
{
    let mut s = result;
    if success && modifies_files(tool_name) {
        push_str(&mut s, VERIFY_CHANGES_NOTE);
    }
    s
}

/// Header line of a finished tool call in the display.
pub fn tool_header_line(timestamp: &str, tool_name: &str, success: bool) -> (s: String)
    ensures
        s@ == "🛠️  ["@ + timestamp@ + "] "@ + crate::ui_rendering::tool_icon_spec(tool_name@) + " "@ + tool_name@
            + " => "@ + (if success {
            "✅ SUCCESS"@
        } else {
            "❌ FAILED"@
        }),
{
    let mut s = String::from_str("🛠️  [");
    push_str(&mut s, timestamp);
    push_str(&mut s, "] ");
    push_str(&mut s, crate::ui_rendering::tool_icon(tool_name));
    push_str(&mut s, " ");
    push_str(&mut s, tool_name);
    push_str(&mut s, " => ");
    push_str(&mut s, crate::ui_rendering::status_text(success));
    s
}

/// The items of the JSON array field `key` of the JSON object in `text`,
/// when it parses and the field is an array (`serde_json`): each string
/// item as its text, any other item as `None`.
pub uninterp spec fn json_array_items(text: Seq<char>, key: Seq<char>) -> Option<Seq<Option<Seq<char>>>>;

/// Texts of optional texts, one for one.
pub open spec fn opt_strs_view(v: Seq<Option<String>>) -> Seq<Option<Seq<char>>> {
    v.map_values(|o: Option<String>| match o {
        Some(s) => Some(s@),
        None => None,
    })
}

/// Reads the items of a JSON array field (`serde_json::from_str`, then
/// `get`, `as_array`, and `as_str` on each item); the result is named by
/// [`json_array_items`].
#[verifier::external_body]
fn json_items(text: &str, key: &str) -> (r: Option<Vec<Option<String>>>)
    ensures
        match r {
            Some(v) => json_array_items(text@, key@) == Some(opt_strs_view(v@)),
            None => json_array_items(text@, key@).is_none(),
        },
{
    let v: serde_json::Value = serde_json::from_str(text).ok()?;
    let items = v.get(key)?.as_array()?;
    Some(items.iter().map(|i| i.as_str().map(|s| s.to_string())).collect())
}

/// The texts among optional texts, in order.
pub open spec fn texts_only(v: Seq<Option<Seq<char>>>) -> Seq<Seq<char>>
    decreases v.len(),
{
    if v.len() == 0 {
        Seq::empty()
    } else {
        match v.last() {
            Some(t) => texts_only(v.drop_last()).push(t),
            None => texts_only(v.drop_last()),
        }
    }
}

/// The string items among the items of a JSON array (see [`texts_only`]).
pub fn string_items(items: Vec<Option<String>>) -> (r: Vec<String>)
    ensures
        crate::testing::strs_view(r@) == texts_only(opt_strs_view(items@)),
{
    let ghost all = opt_strs_view(items@);
    let mut r: Vec<String> = Vec::new();
    let mut i: usize = 0;
    while i < items.len()
        invariant
            i <= items.len(),
            all == opt_strs_view(items@),
            crate::testing::strs_view(r@) == texts_only(all.take(i as int)),
        decreases items.len() - i,
    {
        assert(all.take(i + 1).drop_last() =~= all.take(i as int));
        assert(all.take(i + 1).last() == all[i as int]);
        match &items[i] {
            Some(t) => {
                let ghost before = crate::testing::strs_view(r@);
                r.push(t.clone());
                assert(crate::testing::strs_view(r@) =~= before.push(t@));
            },
            None => {},
        }
        i += 1;
    }
    assert(all.take(items.len() as int) =~= all);
    r
}

/// The string items of the JSON array field `key` of `text`, when it
/// parses and the field is an array.
pub open spec fn json_str_items(text: Seq<char>, key: Seq<char>) -> Option<Seq<Seq<char>>> {
    match json_array_items(text, key) {
        Some(items) => Some(texts_only(items)),
        None => None,
    }
}

fn json_string_items(text: &str, key: &str) -> (r: Option<Vec<String>>)
    ensures
        match r {
            Some(v) => json_str_items(text@, key@) == Some(crate::testing::strs_view(v@)),
            None => json_str_items(text@, key@).is_none(),
        },
{
    match json_items(text, key) {
        Some(items) => Some(string_items(items)),
        None => None,
    }
}

/// A display line with `prefix` and a string field of the arguments, when
/// it is there.
pub open spec fn field_line(args: Seq<char>, key: Seq<char>, prefix: Seq<char>) -> Seq<Seq<char>> {
    match json_str_field(args, key) {
        Some(v) => seq![prefix + v],
        None => Seq::empty(),
    }
}

/// Detail lines under a tool's header: after a success, the read, edited
/// or listed path, the search keyword or keywords, or the command run;
/// after a failure, the error summary.
pub open spec fn detail_lines_spec(name: Seq<char>, success: bool, args: Seq<char>, summary: Seq<char>) -> Seq<Seq<char>> {
    if !success {
        seq!["    Error: "@ + summary]
    } else if name == "fs_read"@ || name == "fs_list"@ {
        field_line(args, "path"@, Seq::empty())
    } else if name == "edit"@ {
        field_line(args, "file_path"@, Seq::empty())
    } else if name == "search_text"@ {
        field_line(args, "search_pattern"@, "Keyword: "@)
    } else if name == "execute_bash"@ {
        field_line(args, "command"@, "Command: "@)
    } else if name == "search_repomap"@ {
        match json_str_items(args, "keyword_search"@) {
            Some(ks) => if ks.len() > 0 {
                seq!["Keywords: "@ + crate::policy::join_with(ks, ", "@)]
            } else {
                Seq::empty()
            },
            None => Seq::empty(),
        }
    } else {
        Seq::empty()
    }
}

fn field_line_of(args: &str, key: &str, prefix: &str) -> (v: Vec<String>)
    ensures
        crate::testing::strs_view(v@) == field_line(args@, key@, prefix@),
{
    let mut v: Vec<String> = Vec::new();
    match crate::verification::json_field(args, key) {
        Some(x) => {
            let mut s = String::from_str(prefix);
            push_str(&mut s, x.as_str());
            let ghost sv = s@;
            v.push(s);
            assert(crate::testing::strs_view(v@) =~= seq![sv]);
        },
        None => {
            assert(crate::testing::strs_view(v@) =~= Seq::<Seq<char>>::empty());
        },
    }
    v
}

/// The detail lines of a finished tool call (see [`detail_lines_spec`]).
pub fn detail_lines(tool_name: &str, success: bool, args: &str, summary: &str) -> (v: Vec<String>)
    ensures
        crate::testing::strs_view(v@) == detail_lines_spec(tool_name@, success, args@, summary@),
{
    if !success {
        let mut s = String::from_str("    Error: ");
        push_str(&mut s, summary);
        let ghost sv = s@;
        let mut v: Vec<String> = Vec::new();
        v.push(s);
        assert(crate::testing::strs_view(v@) =~= seq![sv]);
        return v;
    }
    if str_eq(tool_name, "fs_read") || str_eq(tool_name, "fs_list") {
        proof {
            reveal_strlit("");
        }
        field_line_of(args, "path", "")
    } else if str_eq(tool_name, "edit") {
        proof {
            reveal_strlit("");
        }
        field_line_of(args, "file_path", "")
    } else if str_eq(tool_name, "search_text") {
        field_line_of(args, "search_pattern", "Keyword: ")
    } else if str_eq(tool_name, "execute_bash") {
        field_line_of(args, "command", "Command: ")
    } else if str_eq(tool_name, "search_repomap") {
        let mut v: Vec<String> = Vec::new();
        match json_string_items(args, "keyword_search") {
            Some(ks) => {
                if ks.len() > 0 {
                    let mut s = String::from_str("Keywords: ");
                    let joined = crate::policy::join_strings(&ks, ", ");
                    proof {
                        assert(crate::policy::str_views(ks@) =~= crate::testing::strs_view(ks@));
                    }
                    push_str(&mut s, joined.as_str());
                    let ghost sv = s@;
                    v.push(s);
                    assert(crate::testing::strs_view(v@) =~= seq![sv]);
                } else {
                    assert(crate::testing::strs_view(v@) =~= Seq::<Seq<char>>::empty());
                }
            },
            None => {
                assert(crate::testing::strs_view(v@) =~= Seq::<Seq<char>>::empty());
            },
        }
        v
    } else {
        let v: Vec<String> = Vec::new();
        assert(crate::testing::strs_view(v@) =~= Seq::<Seq<char>>::empty());
        v
    }
}

// ---------------------------------------------------------------------------
// The tool-enabled request
// ---------------------------------------------------------------------------
/// Most attempts of a tool-enabled request.
pub const MAX_TOOL_RETRIES: u64 = 100;

/// Most retries after timeouts.
pub const MAX_TIMEOUT_RETRIES: u64 = 20;

/// What a failed attempt tells the retry protocol: whether it timed out
/// (by kind or by message), and its kind when it carries one.
#[derive(Debug, Clone, Copy)]
pub struct ToolsFailure {
    pub timed_out: bool,
    pub kind: Option<LlmErrorKind>,
}

/// What follows a failed attempt of a tool-enabled request.
#[derive(Debug, Clone, Copy, PartialEq, Eq, Structural)]
pub enum ToolsRetry {
    /// Wait, then try again.
    Wait,
    /// Return the error.
    GiveUp,
}

/// Decision after failed attempt `attempt` with `timeouts` timeouts
/// before it: a timeout is retried until more than
/// [`MAX_TIMEOUT_RETRIES`] have occurred; other failures are retried
/// before the last attempt unless they are deserialisation or
/// authentication errors. Returns the decision and the new timeout count.
pub open spec fn tools_retry_spec(attempt: u64, timeouts: u64, f: ToolsFailure) -> (ToolsRetry, u64) {
    if f.timed_out {
        (if timeouts + 1 > MAX_TIMEOUT_RETRIES { ToolsRetry::GiveUp } else { ToolsRetry::Wait }, (timeouts
            + 1) as u64)
    } else if attempt >= MAX_TOOL_RETRIES || f.kind == Some(LlmErrorKind::Deserialize) || f.kind == Some(
        LlmErrorKind::Authentication,
    ) {
        (ToolsRetry::GiveUp, timeouts)
    } else {
        (ToolsRetry::Wait, timeouts)
    }
}

/// Decides what follows a failed attempt (see [`tools_retry_spec`]).
pub fn tools_retry_step(attempt: u64, timeouts: u64, failure: ToolsFailure) -> (r: (ToolsRetry, u64))
    requires
        timeouts <= MAX_TIMEOUT_RETRIES,
    ensures
        r == tools_retry_spec(attempt, timeouts, failure),
{
    if failure.timed_out {
        let t = timeouts + 1;
        if t > MAX_TIMEOUT_RETRIES {
            (ToolsRetry::GiveUp, t)
        } else {
            (ToolsRetry::Wait, t)
        }
    } else if attempt >= MAX_TOOL_RETRIES || failure.kind == Some(LlmErrorKind::Deserialize)
        || failure.kind == Some(LlmErrorKind::Authentication) {
        (ToolsRetry::GiveUp, timeouts)
    } else {
        (ToolsRetry::Wait, timeouts)
    }
}

/// Milliseconds to wait before retrying attempt `attempt`: two seconds per
/// attempt, at most a minute, plus `draw` modulo five seconds.
pub fn tools_retry_delay_ms(attempt: u64, draw: u64) -> (ms: u64)
    requires
        attempt <= MAX_TOOL_RETRIES,
    ensures
        ms == (if 2 * attempt * 1000 < 60_000 { 2 * attempt * 1000 } else { 60_000 }) + draw % 5000,
{
    let base = 2 * attempt * 1000;
    let capped = if base < 60_000 { base } else { 60_000 };
    capped + draw % 5000
}

/// A random draw for the retry jitter (`rand::random::<u64>`): any value.
#[verifier::external_body]
fn random_draw() -> (d: u64) {
    rand::random::<u64>()
}

/// Milliseconds to wait before retrying attempt `attempt`, with a random
/// jitter below five seconds.
pub fn tools_retry_wait(attempt: u64) -> (ms: u64)
    requires
        attempt <= MAX_TOOL_RETRIES,
    ensures
        exists|draw: u64| ms == #[trigger] tools_retry_delay_ms_spec(attempt, draw),
{
    let d = random_draw();
    let ms = tools_retry_delay_ms(attempt, d);
    assert(ms == tools_retry_delay_ms_spec(attempt, d));
    ms
}

/// See [`tools_retry_delay_ms`].
pub open spec fn tools_retry_delay_ms_spec(attempt: u64, draw: u64) -> int {
    (if 2 * attempt * 1000 < 60_000 { 2 * attempt * 1000 } else { 60_000 }) + draw % 5000
}

/// Status line shown before retry `attempt + 1`.
pub fn retry_status_line(attempt: u64) -> (s: String)
    requires
        attempt < u64::MAX,
    ensures
        s@ == "::status:waiting:Retrying request (Attempt "@ + decimal((attempt + 1) as nat) + "/"@
            + decimal(MAX_TOOL_RETRIES as nat) + ")..."@,
{
    let mut s = String::from_str("::status:waiting:Retrying request (Attempt ");
    push_decimal(&mut s, attempt + 1);
    push_str(&mut s, "/");
    push_decimal(&mut s, MAX_TOOL_RETRIES);
    push_str(&mut s, ")...");
    s
}

/// How a non-success reply to a tool-enabled request is read.
#[derive(Debug, Clone, PartialEq, Eq)]
pub enum ToolsHttpFailure {
    /// 401 or 403: authentication failed.
    Authentication(String),
    /// 400 with error code `context_length_exceeded`.
    ContextLengthExceeded,
    /// Anything else.
    Other(String),
}

/// The `error.code` text of a JSON reply body, when the body is JSON whose
/// `error` member has a string `code` (`serde_json`).
pub uninterp spec fn json_error_code(text: Seq<char>) -> Option<Seq<char>>;

/// Reads `error.code` of a reply body (`serde_json::from_str`, then
/// `get("error")`, `get("code")` and `as_str`); the result is named by
/// [`json_error_code`].
#[verifier::external_body]
fn error_code_of(text: &str) -> (r: Option<String>)
    ensures
        crate::messages::opt_str(r) == json_error_code(text@),
{
    let v: serde_json::Value = serde_json::from_str(text).ok()?;
    Some(v.get("error")?.get("code")?.as_str()?.to_string())
}

/// Reads a non-success reply: its status and its body; for a 400 the
/// body's `error.code` (see [`json_error_code`]) decides whether the
/// context window was exceeded (see [`classify_tools_failure`]).
pub fn classify_tools_status(status: u16, status_text: &str, body: &str) -> (r: ToolsHttpFailure)
    ensures
        (status == 401 || status == 403) ==> r == ToolsHttpFailure::Authentication(
            r->Authentication_0,
        ) && r->Authentication_0@ == "chat (tools) auth error: "@ + status_text@ + " - "@ + body@,
        !(status == 401 || status == 403) && status == 400 && json_error_code(body@) == Some(
            "context_length_exceeded"@,
        ) ==> r == ToolsHttpFailure::ContextLengthExceeded,
        !(status == 401 || status == 403) && !(status == 400 && json_error_code(body@)
            == Some("context_length_exceeded"@)) ==> r == ToolsHttpFailure::Other(r->Other_0)
            && r->Other_0@ == "chat (tools) error: "@ + status_text@ + " - "@ + body@,
{
    let code = if status == 400 {
        error_code_of(body)
    } else {
        None
    };
    classify_tools_failure(status, status_text, body, code)
}

/// Reads a non-success reply given the `error.code` of its body, when it
/// has one: 401 and 403 are authentication failures; a 400 whose code is
/// `context_length_exceeded` says the context window was exceeded; any
/// other reply is an error naming its status and body.
pub fn classify_tools_failure(status: u16, status_text: &str, body: &str, error_code: Option<String>) -> (r: ToolsHttpFailure)
    ensures
        (status == 401 || status == 403) ==> r == ToolsHttpFailure::Authentication(
            r->Authentication_0,
        ) && r->Authentication_0@ == "chat (tools) auth error: "@ + status_text@ + " - "@ + body@,
        !(status == 401 || status == 403) && status == 400 && crate::messages::opt_str(error_code) == Some(
            "context_length_exceeded"@,
        ) ==> r == ToolsHttpFailure::ContextLengthExceeded,
        !(status == 401 || status == 403) && !(status == 400 && crate::messages::opt_str(error_code)
            == Some("context_length_exceeded"@)) ==> r == ToolsHttpFailure::Other(r->Other_0)
            && r->Other_0@ == "chat (tools) error: "@ + status_text@ + " - "@ + body@,
{
    if status == 401 || status == 403 {
        let mut m = String::from_str("chat (tools) auth error: ");
        push_str(&mut m, status_text);
        push_str(&mut m, " - ");
        push_str(&mut m, body);
        return ToolsHttpFailure::Authentication(m);
    }
    if status == 400 {
        match &error_code {
            Some(c) => {
                if str_eq(c.as_str(), "context_length_exceeded") {
                    return ToolsHttpFailure::ContextLengthExceeded;
                }
            },
            None => {},
        }
    }
    let mut m = String::from_str("chat (tools) error: ");
    push_str(&mut m, status_text);
    push_str(&mut m, " - ");
    push_str(&mut m, body);
    ToolsHttpFailure::Other(m)
}

/// Reasoning settings sent to OpenRouter.
#[derive(Debug, Clone, PartialEq, Eq)]
pub struct Reasoning {
    pub effort: Option<String>,
    pub max_tokens: Option<u32>,
    pub enabled: Option<bool>,
}

/// Reasoning settings for `model`: enabled for `grok-4-fast` models.
pub fn reasoning_for(model: &str) -> (r: Option<Reasoning>)
    ensures
        contains_seq(model@, "grok-4-fast"@) ==> r == Some(
            Reasoning { effort: None, max_tokens: None, enabled: Some(true) },
        ),
        !contains_seq(model@, "grok-4-fast"@) ==> r.is_none(),
{
    if crate::text::str_contains(model, "grok-4-fast") {
        Some(Reasoning { effort: None, max_tokens: None, enabled: Some(true) })
    } else {
        None
    }
}

/// Reasoning effort requested: `high` when the service supports it.
pub fn reasoning_effort(reason_enable: bool) -> (r: Option<&'static str>)
    ensures
        reason_enable ==> r.is_some() && r.unwrap()@ == "high"@,
        !reason_enable ==> r.is_none(),
{
    if reason_enable {
        Some("high")
    } else {
        None
    }
}

/// The user message that starts a sub-agent.
pub fn subagent_task_message(description: &str, prompt: &str) -> (s: String)
    ensures
        s@ == "Task description: "@ + description@ + "\n\nTask instructions:\n"@ + prompt@,
{
    let mut s = String::from_str("Task description: ");
    push_str(&mut s, description);
    push_str(&mut s, "\n\nTask instructions:\n");
    push_str(&mut s, prompt);
    s
}

/// The tool result for a tool the sub-agent may not use: a JSON object
/// with the reason under `error`.
pub fn subagent_blocked_result(tool_name: &str) -> (s: String)
    ensures
        s@ == "{\"error\":"@ + crate::json::quoted(
            "tool '"@ + tool_name@ + "' is not available to the sub-agent; only read-only tools are allowed"@,
        ) + "}"@,
{
    let mut m = String::from_str("tool '");
    push_str(&mut m, tool_name);
    push_str(&mut m, "' is not available to the sub-agent; only read-only tools are allowed");
    let mut s = String::from_str("{\"error\":");
    crate::json::push_quoted(&mut s, m.as_str());
    push_str(&mut s, "}");
    s
}

/// Summary of a sub-agent stopped at its iteration limit.
pub const SUBAGENT_LIMIT_SUMMARY: &'static str = "Sub-agent stopped: reached its iteration limit before finishing. Partial results may be incomplete.";

/// Most candidate paths read from a list result.
pub const EXAMINED_LIST_LIMIT: usize = 10;

/// Report of a sub-agent run.
#[derive(Debug, Clone)]
pub struct SubagentRun {
    pub summary: String,
    pub files_examined: Vec<String>,
    pub iterations: usize,
    pub tool_calls: usize,
}

/// Counters of a sub-agent run.
#[derive(Debug, Clone, Copy)]
pub struct SubagentProgress {
    pub iterations: usize,
    pub tool_calls: usize,
}

impl SubagentProgress {
    /// A run that has done nothing.
    pub fn new() -> (p: Self)
        ensures
            p.iterations == 0,
            p.tool_calls == 0,
    {
        SubagentProgress { iterations: 0, tool_calls: 0 }
    }

    /// Counts the next model request; `true` once more than `max_iters`
    /// requests are counted (the run then stops).
    pub fn begin_iteration(&mut self, max_iters: usize) -> (limit_reached: bool)
        requires
            old(self).iterations < usize::MAX,
        ensures
            final(self).iterations == old(self).iterations + 1,
            final(self).tool_calls == old(self).tool_calls,
            limit_reached == (old(self).iterations + 1 > max_iters),
    {
        self.iterations = self.iterations + 1;
        self.iterations > max_iters
    }

    /// Counts a tool call that was run.
    pub fn count_tool_call(&mut self)
        requires
            old(self).tool_calls < usize::MAX,
        ensures
            final(self).tool_calls == old(self).tool_calls + 1,
            final(self).iterations == old(self).iterations,
    {
        self.tool_calls = self.tool_calls + 1;
    }
}

/// Whether the sub-agent may use tool `name`: it is one of `allowed` (the
/// read-only tools).
pub fn subagent_tool_allowed(name: &str, allowed: &Vec<String>) -> (b: bool)
    ensures
        b == crate::testing::strs_view(allowed@).contains(name@),
{
    let mut i: usize = 0;
    while i < allowed.len()
        invariant
            i <= allowed.len(),
            forall|j: int| 0 <= j < i ==> crate::testing::strs_view(allowed@)[j] != name@,
        decreases allowed.len() - i,
    {
        if str_eq(allowed[i].as_str(), name) {
            assert(crate::testing::strs_view(allowed@)[i as int] == name@);
            return true;
        }
        i += 1;
    }
    false
}

/// The report of a sub-agent stopped at its iteration limit.
pub fn subagent_limit_run(files_examined: Vec<String>, p: SubagentProgress) -> (r: SubagentRun)
    ensures
        r.summary@ == SUBAGENT_LIMIT_SUMMARY@,
        r.files_examined@ == files_examined@,
        r.iterations == p.iterations,
        r.tool_calls == p.tool_calls,
{
    SubagentRun {
        summary: String::from_str(SUBAGENT_LIMIT_SUMMARY),
        files_examined,
        iterations: p.iterations,
        tool_calls: p.tool_calls,
    }
}

/// The report of a sub-agent that answered with `content` (see
/// [`crate::agent::summarize_final`]).
pub fn subagent_final_run(content: &str, files_examined: Vec<String>, p: SubagentProgress) -> (r: SubagentRun)
    ensures
        r.summary@ == crate::agent::summary_of(content@),
        r.files_examined@ == files_examined@,
        r.iterations == p.iterations,
        r.tool_calls == p.tool_calls,
{
    SubagentRun {
        summary: crate::agent::summarize_final(content),
        files_examined,
        iterations: p.iterations,
        tool_calls: p.tool_calls,
    }
}

/// Paths a tool result adds to the examined files: the first candidate for
/// `fs_read`, the first ten for `find_file` and `search_text`, none for
/// other tools; missing ones skipped, and none added twice.
pub open spec fn examined_after(files: Seq<Seq<char>>, tool: Seq<char>, candidates: Seq<Option<Seq<char>>>) -> Seq<Seq<char>> {
    let n: int = if tool == "fs_read"@ {
        if candidates.len() < 1 { candidates.len() as int } else { 1 }
    } else if tool == "find_file"@ || tool == "search_text"@ {
        if candidates.len() < 10 { candidates.len() as int } else { 10 }
    } else {
        0
    };
    add_unique(files, candidates.take(n))
}

/// `files` extended by the present candidates not in it yet, in order.
pub open spec fn add_unique(files: Seq<Seq<char>>, c: Seq<Option<Seq<char>>>) -> Seq<Seq<char>>
    decreases c.len(),
{
    if c.len() == 0 {
        files
    } else {
        let prev = add_unique(files, c.drop_last());
        match c.last() {
            Some(p) => if prev.contains(p) {
                prev
            } else {
                prev.push(p)
            },
            None => prev,
        }
    }
}

/// The paths a sub-agent tool result lists, in order: the read path of
/// `fs_read` (`result.path`), the items of `find_file`'s `files`, the
/// `path` of each row of `search_text`'s `results`; `None` where an item is
/// not a string; nothing for other tools.
pub open spec fn examined_candidates_spec(tool: Seq<char>, v: JsonView) -> Seq<Option<Seq<char>>> {
    if tool == "fs_read"@ {
        seq![
            match member_of(v, "result"@) {
                Some(r) => text_in(member_of(r, "path"@)),
                None => None,
            },
        ]
    } else if tool == "find_file"@ {
        match member_of(v, "files"@) {
            Some(JsonView::Array(items)) => items.map_values(|i: JsonView| text_in(Some(i))),
            _ => Seq::empty(),
        }
    } else if tool == "search_text"@ {
        match member_of(v, "results"@) {
            Some(JsonView::Array(items)) => items.map_values(|i: JsonView| text_in(member_of(i, "path"@))),
            _ => Seq::empty(),
        }
    } else {
        Seq::empty()
    }
}

fn array_items<'a>(j: Option<&'a Json>) -> (r: Option<&'a Vec<Json>>)
    ensures
        match r {
            Some(v) => j.is_some() && j.unwrap()@ == JsonView::Array(Seq::new(v@.len(), |k: int| jview(v@[k]))),
            None => !(j matches Some(x) && x@ is Array),
        },
{
    match j {
        Some(Json::Array(items)) => {
            proof {
                lemma_items_view(*items, items.len() as nat);
                assert(items_view(*items, items.len() as nat) =~= Seq::new(items@.len(), |k: int| jview(items@[k])));
            }
            Some(items)
        },
        _ => None,
    }
}

/// The paths a sub-agent tool result lists (see
/// [`examined_candidates_spec`]).
pub fn examined_candidates(tool_name: &str, value: &Json) -> (r: Vec<Option<String>>)
    ensures
        r@.map_values(|o: Option<String>| crate::messages::opt_str(o)) == examined_candidates_spec(tool_name@, value@),
{
    let mut out: Vec<Option<String>> = Vec::new();
    proof {
        reveal_strlit("fs_read");
        reveal_strlit("find_file");
        reveal_strlit("search_text");
        reveal_strlit("results");
        reveal_strlit("files");
        assert("search_text"@.len() == 11 && "find_file"@.len() == 9 && "fs_read"@.len() == 7);
    }
    if str_eq(tool_name, "fs_read") {
        let p = match json_get(value, "result") {
            Some(r) => json_text_of(json_get(r, "path")),
            None => None,
        };
        out.push(p);
        assert(out@.map_values(|o: Option<String>| crate::messages::opt_str(o)) =~= examined_candidates_spec(tool_name@, value@));
    } else if str_eq(tool_name, "find_file") || str_eq(tool_name, "search_text") {
        let search = str_eq(tool_name, "search_text");
        let key = if search { "results" } else { "files" };
        let field = json_get(value, key);
        assert(key@ == (if search { "results"@ } else { "files"@ }));
        match array_items(field) {
            Some(items) => {
                let ghost iv = Seq::new(items@.len(), |k: int| jview(items@[k]));
                assert(member_of(value@, key@) == Some(JsonView::Array(iv)));
                let mut i: usize = 0;
                while i < items.len()
                    invariant
                        i <= items.len(),
                        out@.len() == i,
                        forall|k: int| 0 <= k < i ==> #[trigger] crate::messages::opt_str(out@[k]) == (if search {
                            text_in(member_of(jview(items@[k]), "path"@))
                        } else {
                            text_in(Some(jview(items@[k])))
                        }),
                    decreases items.len() - i,
                {
                    let t = if search {
                        json_text_of(json_get(&items[i], "path"))
                    } else {
                        json_text_of(Some(&items[i]))
                    };
                    out.push(t);
                    i += 1;
                }
                assert(out@.map_values(|o: Option<String>| crate::messages::opt_str(o)) =~= examined_candidates_spec(tool_name@, value@));
            },
            None => {
                assert(out@.map_values(|o: Option<String>| crate::messages::opt_str(o)) =~= examined_candidates_spec(tool_name@, value@));
            },
        }
    } else {
        assert(out@.map_values(|o: Option<String>| crate::messages::opt_str(o)) =~= examined_candidates_spec(tool_name@, value@));
    }
    out
}

/// Records the files a sub-agent tool call examined: the paths its result
/// lists (see [`examined_candidates_spec`]) go through
/// [`examined_after`].
pub fn record_examined_files(tool_name: &str, output: &crate::handlers::ToolOutput, files: &mut Vec<String>)
    ensures
        crate::testing::strs_view(final(files)@) == examined_after(
            crate::testing::strs_view(old(files)@),
            tool_name@,
            examined_candidates_spec(tool_name@, output.value@),
        ),
{
    let candidates = examined_candidates(tool_name, &output.value);
    record_examined_candidates(tool_name, &candidates, files);
}

/// Records examined files from the paths a result lists, in order (see
/// [`examined_after`]).
pub fn record_examined_candidates(tool_name: &str, candidates: &Vec<Option<String>>, files: &mut Vec<String>)
    ensures
        crate::testing::strs_view(final(files)@) == examined_after(
            crate::testing::strs_view(old(files)@),
            tool_name@,
            candidates@.map_values(|o: Option<String>| crate::messages::opt_str(o)),
        ),
{
    let ghost cv = candidates@.map_values(|o: Option<String>| crate::messages::opt_str(o));
    let ghost start = crate::testing::strs_view(files@);
    let n: usize = if str_eq(tool_name, "fs_read") {
        if candidates.len() < 1 { candidates.len() } else { 1 }
    } else if str_eq(tool_name, "find_file") || str_eq(tool_name, "search_text") {
        if candidates.len() < EXAMINED_LIST_LIMIT { candidates.len() } else { EXAMINED_LIST_LIMIT }
    } else {
        0
    };
    let mut i: usize = 0;
    assert(cv.take(n as int).take(0) =~= Seq::<Option<Seq<char>>>::empty());
    while i < n
        invariant
            i <= n <= candidates.len(),
            cv == candidates@.map_values(|o: Option<String>| crate::messages::opt_str(o)),
            crate::testing::strs_view(files@) == add_unique(start, cv.take(i as int)),
        decreases n - i,
    {
        assert(cv.take(i + 1).drop_last() == cv.take(i as int));
        assert(cv.take(i + 1).last() == crate::messages::opt_str(candidates@[i as int]));
        match &candidates[i] {
            Some(p) => {
                let ghost prev = crate::testing::strs_view(files@);
                let mut seen = false;
                let mut k: usize = 0;
                while k < files.len() && !seen
                    invariant
                        k <= files.len(),
                        prev == crate::testing::strs_view(files@),
                        seen ==> prev.contains(p@),
                        !seen ==> forall|j: int| 0 <= j < k ==> prev[j] != p@,
                    decreases files.len() - k,
                {
                    if str_eq(files[k].as_str(), p.as_str()) {
                        assert(prev[k as int] == p@);
                        seen = true;
                    }
                    k += 1;
                }
                assert(cv.take(i + 1).last() == Some(p@));
                if !seen {
                    assert(!prev.contains(p@));
                    files.push(p.clone());
                    assert(crate::testing::strs_view(files@) =~= prev.push(p@));
                }
            },
            None => {
                assert(cv.take(i + 1).last() is None);
            },
        }
        i += 1;
    }
    assert(cv.take(n as int) == cv.take(n as int).take(n as int));
}

} // verus!
