//! Pure helpers of the `exec` subcommand: tool-call bookkeeping, location
//! hints, and the snippet-rewrite prompt and response protocol.
use crate::json::{jnum, jopt_str, jstr, member, num, object, opt_text, strings, Json, JsonView};
use crate::messages::{opt_str, ChatMessage, MessageView, ToolCallView};
use crate::paths::{components, path_components, seg_views};
use crate::text::{
    chars_of, find, is_first_match_from, push_char, push_chars, push_str, string_from, trim_spec,
    trim_str,
};
use vstd::prelude::*;
use vstd::string::*;

verus! {

/// Failure of the `exec` subcommand.
#[derive(Debug)]
pub enum ExecError {
    /// Execution failed with this message.
    Failed(String),
    /// The run timed out.
    Timeout,
}

impl ExecError {
    /// Display text of the error.
    pub fn describe(&self) -> (s: String)
        ensures
            match self {
                ExecError::Failed(m) => s@ == "Execution failed: "@ + m@,
                ExecError::Timeout => s@ == "Timeout"@,
            },
    {
        match self {
            ExecError::Failed(m) => {
                let mut s = String::from_str("Execution failed: ");
                push_str(&mut s, m.as_str());
                s
            },
            ExecError::Timeout => String::from_str("Timeout"),
        }
    }
}

// ---------------------------------------------------------------------------
// Tool calls made during a run
// ---------------------------------------------------------------------------
/// Names of the tool calls of `calls`, in order.
pub open spec fn call_names(calls: Seq<ToolCallView>) -> Seq<Seq<char>> {
    calls.map_values(|t: ToolCallView| t.name)
}

/// Names of every tool call in `ms`, in message order, duplicates kept.
pub open spec fn tool_names(ms: Seq<MessageView>) -> Seq<Seq<char>>
    decreases ms.len(),
{
    if ms.len() == 0 {
        Seq::empty()
    } else {
        tool_names(ms.drop_last()) + call_names(ms.last().tool_calls)
    }
}

/// Views of strings.
pub open spec fn names_view(v: Seq<String>) -> Seq<Seq<char>> {
    v.map_values(|s: String| s@)
}

/// Names of every tool call made in `messages` (see [`tool_names`]).
pub fn collect_tools_called(messages: &Vec<ChatMessage>) -> (out: Vec<String>)
    ensures
        names_view(out@) == tool_names(crate::messages::msgs_view(messages@)),
{
    let ghost ms = crate::messages::msgs_view(messages@);
    let mut out: Vec<String> = Vec::new();
    let mut i: usize = 0;
    while i < messages.len()
        invariant
            i <= messages.len(),
            ms == crate::messages::msgs_view(messages@),
            names_view(out@) == tool_names(ms.take(i as int)),
        decreases messages.len() - i,
    {
        assert(ms.take(i + 1).drop_last() =~= ms.take(i as int));
        let calls = &messages[i].tool_calls;
        let ghost base = names_view(out@);
        let mut k: usize = 0;
        while k < calls.len()
            invariant
                k <= calls.len(),
                calls@ == messages@[i as int].tool_calls@,
                names_view(out@) =~= base + call_names(crate::messages::calls_view(calls@)).take(
                    k as int,
                ),
            decreases calls.len() - k,
        {
            let ghost prev = out@;
            let name = calls[k].function.name.clone();
            out.push(name);
            assert(names_view(out@) =~= names_view(prev).push(name@));
            k += 1;
        }
        assert(call_names(crate::messages::calls_view(calls@)).take(calls.len() as int)
            =~= call_names(ms[i as int].tool_calls));
        i += 1;
    }
    assert(ms.take(messages.len() as int) =~= ms);
    out
}

// ---------------------------------------------------------------------------
// Location hints
// ---------------------------------------------------------------------------
/// `parts` joined with `/`.
pub open spec fn slash_join(parts: Seq<Seq<char>>) -> Seq<char>
    decreases parts.len(),
{
    if parts.len() == 0 {
        Seq::empty()
    } else if parts.len() == 1 {
        parts[0]
    } else {
        slash_join(parts.drop_last()).push('/') + parts.last()
    }
}

/// Final normal component of a path (`Path::file_name`).
pub open spec fn file_name(p: Seq<char>) -> Option<Seq<char>> {
    let cs = path_components(p);
    if cs.len() > 0 && cs.last() != seq!['/'] && cs.last() != seq!['.', '.'] {
        Some(cs.last())
    } else {
        None
    }
}

/// Location hint for a file: its path relative to the project root when it
/// lies strictly inside it, else its file name, else the path itself.
pub open spec fn location_hint(file: Seq<char>, root: Seq<char>) -> Seq<char> {
    let cf = path_components(file);
    let cr = path_components(root);
    if cr.len() < cf.len() && cf.subrange(0, cr.len() as int) == cr {
        slash_join(cf.subrange(cr.len() as int, cf.len() as int))
    } else {
        match file_name(file) {
            Some(n) => n,
            None => file,
        }
    }
}

/// Location hint for `file_path` relative to `project_root` (see
/// [`location_hint`]).
pub fn format_location_hint(file_path: &str, project_root: &str) -> (out: String)
    ensures
        out@ == location_hint(file_path@, project_root@),
{
    let cf = components(file_path);
    let cr = components(project_root);
    let mut prefix = cr.len() < cf.len();
    let mut i: usize = 0;
    while prefix && i < cr.len()
        invariant
            i <= cr.len(),
            prefix ==> cr.len() < cf.len(),
            prefix ==> forall|j: int| 0 <= j < i ==> seg_views(cf@)[j] == seg_views(cr@)[j],
            !prefix ==> !(cr.len() < cf.len() && seg_views(cf@).subrange(0, cr.len() as int)
                == seg_views(cr@)),
        decreases cr.len() - i,
    {
        if !crate::text::chars_eq(cf[i].as_slice(), cr[i].as_slice()) {
            assert(seg_views(cf@).subrange(0, cr.len() as int)[i as int] != seg_views(cr@)[i as int]);
            prefix = false;
        }
        i += 1;
    }
    if prefix {
        assert(seg_views(cf@).subrange(0, cr.len() as int) =~= seg_views(cr@));
        let mut out = String::new();
        let mut k = cr.len();
        let ghost parts = seg_views(cf@).subrange(cr.len() as int, cf.len() as int);
        while k < cf.len()
            invariant
                cr.len() <= k <= cf.len(),
                parts == seg_views(cf@).subrange(cr.len() as int, cf.len() as int),
                out@ == slash_join(parts.take(k - cr.len())),
            decreases cf.len() - k,
        {
            assert(parts.take(k + 1 - cr.len()).drop_last() =~= parts.take(k - cr.len()));
            if k > cr.len() {
                push_char(&mut out, '/');
            }
            push_chars(&mut out, cf[k].as_slice());
            k += 1;
        }
        assert(parts.take(cf.len() - cr.len()) =~= parts);
        return out;
    }
    let n = cf.len();
    if n > 0 {
        let last = &cf[n - 1];
        let is_root = last.len() == 1 && last[0] == '/';
        let is_up = last.len() == 2 && last[0] == '.' && last[1] == '.';
        proof {
            if !is_root {
                assert(seg_views(cf@).last() != seq!['/']);
            }
            if !is_up {
                assert(seg_views(cf@).last() != seq!['.', '.']);
            }
            if is_root {
                assert(seg_views(cf@).last() =~= seq!['/']);
            }
            if is_up {
                assert(seg_views(cf@).last() =~= seq!['.', '.']);
            }
        }
        if !is_root && !is_up {
            return string_from(last.as_slice());
        }
    }
    String::from_str(file_path)
}

// ---------------------------------------------------------------------------
// Rewrite prompt and response
// ---------------------------------------------------------------------------
/// Opening marker of the rewritten code in the model's reply.
pub const REWRITE_MARKER_START: &'static str = "<REWRITTEN_CODE>";

/// Closing marker of the rewritten code in the model's reply.
pub const REWRITE_MARKER_END: &'static str = "</REWRITTEN_CODE>";

/// The snippet between the snippet markers, each on its own line.
pub open spec fn wrapped_snippet(snippet: Seq<char>) -> Seq<char> {
    "<ORIGINAL_SNIPPET>\n"@ + snippet + "\n</ORIGINAL_SNIPPET>"@
}

/// Wraps `snippet` between the snippet markers.
pub fn wrap_with_snippet_markers(snippet: &str) -> (out: String)
    ensures
        out@ == wrapped_snippet(snippet@),
{
    let mut out = String::from_str("<ORIGINAL_SNIPPET>\n");
    push_str(&mut out, snippet);
    push_str(&mut out, "\n</ORIGINAL_SNIPPET>");
    out
}

/// The rewrite prompt: fixed instructions around the trimmed request, the
/// location (or "the current buffer") and the wrapped snippet.
pub open spec fn rewrite_prompt(prompt: Seq<char>, snippet: Seq<char>, location: Seq<char>) -> Seq<char> {
    "You are an expert software engineer helping to rewrite a code snippet for a user editing a file inside Emacs.\nOnly work with the provided snippet; do not assume or modify code outside it.\nUser request (natural language):\n"@
        + trim_spec(prompt) + "\nOriginal snippet (from "@ + location
        + "), wrapped between <ORIGINAL_SNIPPET> and </ORIGINAL_SNIPPET> markers:\n"@
        + wrapped_snippet(snippet)
        + "\nRewrite the snippet so it satisfies the request.\nReturn only the rewritten snippet enclosed between <REWRITTEN_CODE> and </REWRITTEN_CODE> markers.\nDo not include explanations, commentary, code fences, or additional text outside the markers."@
}

/// Builds the rewrite prompt (see [`rewrite_prompt`]).
pub fn build_rewrite_prompt(prompt: &str, snippet: &str, file_path: Option<&str>) -> (out: String)
    ensures
        out@ == rewrite_prompt(
            prompt@,
            snippet@,
            match file_path {
                Some(f) => f@,
                None => "the current buffer"@,
            },
        ),
{
    let location = match file_path {
        Some(f) => f,
        None => "the current buffer",
    };
    let mut out = String::from_str(
        "You are an expert software engineer helping to rewrite a code snippet for a user editing a file inside Emacs.\nOnly work with the provided snippet; do not assume or modify code outside it.\nUser request (natural language):\n",
    );
    let t = trim_str(prompt);
    push_str(&mut out, t.as_str());
    push_str(&mut out, "\nOriginal snippet (from ");
    push_str(&mut out, location);
    push_str(&mut out, "), wrapped between <ORIGINAL_SNIPPET> and </ORIGINAL_SNIPPET> markers:\n");
    let w = wrap_with_snippet_markers(snippet);
    push_str(&mut out, w.as_str());
    push_str(
        &mut out,
        "\nRewrite the snippet so it satisfies the request.\nReturn only the rewritten snippet enclosed between <REWRITTEN_CODE> and </REWRITTEN_CODE> markers.\nDo not include explanations, commentary, code fences, or additional text outside the markers.",
    );
    out
}

/// Line-break characters stripped around a rewritten payload.
pub open spec fn is_line_break(c: char) -> bool {
    c == '\r' || c == '\n'
}

/// Number of leading line-break characters.
pub open spec fn leading_breaks(s: Seq<char>) -> nat
    decreases s.len(),
{
    if s.len() > 0 && is_line_break(s[0]) {
        1 + leading_breaks(s.drop_first())
    } else {
        0
    }
}

/// Number of trailing line-break characters.
pub open spec fn trailing_breaks(s: Seq<char>) -> nat
    decreases s.len(),
{
    if s.len() > 0 && is_line_break(s.last()) {
        1 + trailing_breaks(s.drop_last())
    } else {
        0
    }
}

/// The payload without surrounding line breaks, with a final newline when
/// the original snippet ended with one.
pub open spec fn adjusted_payload(payload: Seq<char>, original: Seq<char>) -> Seq<char> {
    let a = payload.subrange(leading_breaks(payload) as int, payload.len() as int);
    let b = a.subrange(0, a.len() - trailing_breaks(a));
    if original.len() > 0 && original.last() == '\n' {
        b.push('\n')
    } else {
        b
    }
}

proof fn lemma_leading_breaks(s: Seq<char>, i: int)
    requires
        0 <= i <= s.len(),
        forall|k: int| 0 <= k < i ==> is_line_break(s[k]),
        i == s.len() || !is_line_break(s[i]),
    ensures
        leading_breaks(s) == i,
    decreases i,
{
    if i > 0 {
        lemma_leading_breaks(s.drop_first(), i - 1);
    }
}

proof fn lemma_trailing_breaks(s: Seq<char>, i: int)
    requires
        0 <= i <= s.len(),
        forall|k: int| s.len() - i <= k < s.len() ==> is_line_break(s[k]),
        i == s.len() || !is_line_break(s[s.len() - i - 1]),
    ensures
        trailing_breaks(s) == i,
    decreases i,
{
    if i > 0 {
        lemma_trailing_breaks(s.drop_last(), i - 1);
    }
}

/// Strips surrounding line breaks from a rewritten payload and restores the
/// original snippet's final newline (see [`adjusted_payload`]).
pub fn adjust_rewrite_payload(payload: &str, original_snippet: &str) -> (out: String)
    ensures
        out@ == adjusted_payload(payload@, original_snippet@),
{
    let p = chars_of(payload);
    let mut a: usize = 0;
    while a < p.len() && (p[a] == '\r' || p[a] == '\n')
        invariant
            a <= p.len(),
            forall|k: int| 0 <= k < a ==> is_line_break(p@[k]),
        decreases p.len() - a,
    {
        a += 1;
    }
    proof {
        lemma_leading_breaks(p@, a as int);
    }
    let ghost t = p@.subrange(a as int, p@.len() as int);
    let mut b = p.len();
    while b > a && (p[b - 1] == '\r' || p[b - 1] == '\n')
        invariant
            a <= b <= p.len(),
            forall|k: int| b <= k < p.len() ==> is_line_break(p@[k]),
        decreases b,
    {
        b -= 1;
    }
    proof {
        lemma_trailing_breaks(t, (p.len() - b) as int);
        assert(t.subrange(0, t.len() - trailing_breaks(t)) =~= p@.subrange(a as int, b as int));
    }
    let mut out = crate::text::substring(p.as_slice(), a, b);
    let o = chars_of(original_snippet);
    if o.len() > 0 && o[o.len() - 1] == '\n' {
        push_char(&mut out, '\n');
    }
    out
}

/// Extracted rewrite: the text between the first start marker and the
/// first end marker after it, adjusted; `None` when a marker is missing.
pub open spec fn extracted_rewrite(response: Seq<char>, original: Seq<char>) -> Option<Seq<char>> {
    let sm = "<REWRITTEN_CODE>"@;
    let em = "</REWRITTEN_CODE>"@;
    if !crate::text::contains_seq(response, sm) {
        None
    } else {
        let s = choose|i: int| is_first_match_from(response, sm, 0, i);
        let rest = response.subrange(s + sm.len(), response.len() as int);
        if !crate::text::contains_seq(rest, em) {
            None
        } else {
            let e = choose|j: int| is_first_match_from(rest, em, 0, j);
            Some(adjusted_payload(rest.subrange(0, e), original))
        }
    }
}

proof fn lemma_first_match_unique(hay: Seq<char>, pat: Seq<char>, i: int, j: int)
    requires
        is_first_match_from(hay, pat, 0, i),
        is_first_match_from(hay, pat, 0, j),
    ensures
        i == j,
{
}

/// Extracts the rewritten code from a model response (see
/// [`extracted_rewrite`]).
pub fn extract_rewritten_code(response: &str, original_snippet: &str) -> (r: Option<String>)
    ensures
        match r {
            Some(s) => extracted_rewrite(response@, original_snippet@) == Some(s@),
            None => extracted_rewrite(response@, original_snippet@).is_none(),
        },
{
    let resp = chars_of(response);
    let sm = chars_of("<REWRITTEN_CODE>");
    let em = chars_of("</REWRITTEN_CODE>");
    let s = match find(resp.as_slice(), sm.as_slice()) {
        Some(s) => s,
        None => return None,
    };
    proof {
        let c = choose|i: int| is_first_match_from(resp@, sm@, 0, i);
        assert(is_first_match_from(resp@, sm@, 0, s as int));
        lemma_first_match_unique(resp@, sm@, c, s as int);
    }
    assert(crate::text::matches_at(resp@, sm@, s as int));
    assert(s + sm@.len() <= resp@.len());
    assert(sm@.len() == sm.len());
    assert(resp@.len() == resp.len());
    let start = s + sm.len();
    let rest = crate::text::slice_to_vec(resp.as_slice(), start, resp.len());
    let e = match find(rest.as_slice(), em.as_slice()) {
        Some(e) => e,
        None => return None,
    };
    proof {
        let c = choose|j: int| is_first_match_from(rest@, em@, 0, j);
        assert(is_first_match_from(rest@, em@, 0, e as int));
        lemma_first_match_unique(rest@, em@, c, e as int);
    }
    let snippet = crate::text::substring(rest.as_slice(), 0, e);
    Some(adjust_rewrite_payload(snippet.as_str(), original_snippet))
}

// ---------------------------------------------------------------------------
// Outcomes of a run
// ---------------------------------------------------------------------------
/// Rewritten code that contains a destructive pattern (`rm -rf`, `drop
/// table`, `exec(`).
pub open spec fn suspicious(code: Seq<char>) -> bool {
    crate::text::contains_seq(code, "rm -rf"@) || crate::text::contains_seq(code, "drop table"@)
        || crate::text::contains_seq(code, "exec("@)
}

/// What a rewrite run produced.
#[derive(Debug, Clone)]
pub enum RewriteOutcome {
    /// The rewritten snippet.
    Rewritten(String),
    /// The rewrite contains a destructive pattern and is withheld.
    Rejected,
    /// The response holds no rewrite.
    Unparsed,
}

/// Outcome of a rewrite run from the model's final reply: no rewrite when
/// the markers are missing; withheld when suspicious; else the rewrite.
pub open spec fn rewrite_outcome_holds(o: RewriteOutcome, response: Seq<char>, snippet: Seq<char>) -> bool {
    match extracted_rewrite(response, snippet) {
        None => o is Unparsed,
        Some(code) => if suspicious(code) {
            o is Rejected
        } else {
            o matches RewriteOutcome::Rewritten(c) && c@ == code
        },
    }
}

/// Decides the outcome of a rewrite run (see [`rewrite_outcome_holds`]).
pub fn rewrite_outcome(raw_response: &str, snippet: &str) -> (o: RewriteOutcome)
    ensures
        rewrite_outcome_holds(o, raw_response@, snippet@),
{
    match extract_rewritten_code(raw_response, snippet) {
        None => RewriteOutcome::Unparsed,
        Some(code) => {
            if crate::text::str_contains(code.as_str(), "rm -rf") || crate::text::str_contains(
                code.as_str(),
                "drop table",
            ) || crate::text::str_contains(code.as_str(), "exec(") {
                RewriteOutcome::Rejected
            } else {
                RewriteOutcome::Rewritten(code)
            }
        },
    }
}

/// Message for a withheld rewrite.
pub const REJECTED_REWRITE: &'static str = "Security check failed: Rewritten code contains potentially malicious patterns";

/// Message for a response without a rewrite.
pub const UNPARSED_REWRITE: &'static str = "Failed to parse rewritten code from model response";

/// Message when no API key is configured.
pub const MISSING_API_KEY: &'static str = "OPENAI_API_KEY not set; cannot call LLM.";

/// Notification body after a successful rewrite.
pub open spec fn rewrite_notice(display_path: Option<Seq<char>>) -> Seq<char> {
    "Successfully rewrote code in "@ + match display_path {
        Some(p) => p,
        None => "the file"@,
    }
}

/// The notification body after a successful rewrite.
pub fn rewrite_notification(display_path: &Option<String>) -> (s: String)
    ensures
        s@ == rewrite_notice(crate::messages::opt_str(*display_path)),
{
    let mut s = String::from_str("Successfully rewrote code in ");
    match display_path {
        Some(p) => push_str(&mut s, p.as_str()),
        None => push_str(&mut s, "the file"),
    }
    s
}

/// Notification body after a successful run.
pub open spec fn success_notice(tokens: u32, steps: nat) -> Seq<char> {
    "Execution Completed Successfully\nTokens: "@ + crate::text::decimal(tokens as nat) + "\nSteps: "@
        + crate::text::decimal(steps)
}

/// The notification body after a successful run.
pub fn success_summary(tokens: u32, steps: usize) -> (s: String)
    ensures
        s@ == success_notice(tokens, steps as nat),
{
    let mut s = String::from_str("Execution Completed Successfully\nTokens: ");
    crate::text::push_decimal(&mut s, tokens as u64);
    push_str(&mut s, "\nSteps: ");
    crate::text::push_decimal(&mut s, steps as u64);
    s
}

/// Notification body after a failed run.
pub open spec fn failure_notice(error: Seq<char>, tokens: u32) -> Seq<char> {
    "Execution Failed\nError: "@ + error + "\nTokens: "@ + crate::text::decimal(tokens as nat)
}

/// The notification body after a failed run.
pub fn failure_summary(error: &str, tokens: u32) -> (s: String)
    ensures
        s@ == failure_notice(error@, tokens),
{
    let mut s = String::from_str("Execution Failed\nError: ");
    push_str(&mut s, error);
    push_str(&mut s, "\nTokens: ");
    crate::text::push_decimal(&mut s, tokens as u64);
    s
}

/// Messages a run starts from: the history, the system prompt, then the
/// instruction as a user message.
pub fn run_messages(history: Vec<ChatMessage>, system_prompt: String, instruction: &str) -> (ms: Vec<ChatMessage>)
    ensures
        crate::messages::msgs_view(ms@) == crate::messages::msgs_view(history@).push(
            MessageView {
                role: "system"@,
                content: Some(system_prompt@),
                tool_calls: Seq::empty(),
                tool_call_id: None,
            },
        ).push(
            MessageView {
                role: "user"@,
                content: Some(instruction@),
                tool_calls: Seq::empty(),
                tool_call_id: None,
            },
        ),
{
    let ghost h = crate::messages::msgs_view(history@);
    let mut ms = history;
    let sys = ChatMessage::text("system", system_prompt);
    let ghost sv = sys@;
    ms.push(sys);
    assert(crate::messages::msgs_view(ms@) =~= h.push(sv));
    let ghost with_sys = crate::messages::msgs_view(ms@);
    let user = ChatMessage::text("user", String::from_str(instruction));
    let ghost uv = user@;
    ms.push(user);
    assert(crate::messages::msgs_view(ms@) =~= with_sys.push(uv));
    ms
}

/// The messages a run added: those of `updated` past the `existing` ones
/// the history held, none when it has no more.
pub fn run_delta(updated: &Vec<ChatMessage>, existing: usize) -> (d: Vec<ChatMessage>)
    ensures
        crate::messages::msgs_view(d@) == if updated@.len() > existing {
            crate::messages::msgs_view(updated@).subrange(existing as int, updated@.len() as int)
        } else {
            Seq::empty()
        },
{
    let ghost uv = crate::messages::msgs_view(updated@);
    let mut d: Vec<ChatMessage> = Vec::new();
    if updated.len() <= existing {
        assert(crate::messages::msgs_view(d@) =~= Seq::<MessageView>::empty());
        return d;
    }
    let mut i = existing;
    assert(crate::messages::msgs_view(d@) =~= uv.subrange(existing as int, existing as int));
    while i < updated.len()
        invariant
            existing <= i <= updated.len(),
            uv == crate::messages::msgs_view(updated@),
            crate::messages::msgs_view(d@) == uv.subrange(existing as int, i as int),
        decreases updated.len() - i,
    {
        let m = updated[i].duplicate();
        let ghost prev = crate::messages::msgs_view(d@);
        d.push(m);
        assert(m@ == uv[i as int]);
        assert(crate::messages::msgs_view(d@) =~= prev.push(m@));
        assert(crate::messages::msgs_view(d@) =~= uv.subrange(existing as int, i + 1));
        i += 1;
    }
    d
}

// ---------------------------------------------------------------------------
// JSON reports
// ---------------------------------------------------------------------------
/// The report of a finished run: its reply, the tokens used, the tools
/// called, the length of the conversation, and success.
pub open spec fn run_report_spec(response: Seq<char>, tokens_used: u32, tools_called: Seq<String>, length: nat) -> JsonView {
    JsonView::Object(
        seq![
            ("conversation_length"@, jnum(length)),
            ("response"@, jstr(response)),
            ("success"@, JsonView::Bool(true)),
            ("tokens_used"@, jnum(tokens_used as nat)),
            ("tools_called"@, JsonView::Array(tools_called.map_values(|t: String| jstr(t@)))),
        ],
    )
}

/// The JSON report of a finished run (see [`run_report_spec`]).
pub fn run_report(response: String, tokens_used: u32, tools_called: Vec<String>, conversation_length: usize) -> (j: Json)
    ensures
        j@ == run_report_spec(response@, tokens_used, tools_called@, conversation_length as nat),
{
    let j = object(
        vec![
            member("conversation_length", num(conversation_length as u64)),
            member("response", Json::Str(response)),
            member("success", Json::Bool(true)),
            member("tokens_used", num(tokens_used as u64)),
            member("tools_called", strings(tools_called)),
        ],
    );
    assert(j@->Object_0 =~= run_report_spec(response@, tokens_used, tools_called@, conversation_length as nat)->Object_0);
    j
}

/// The report of a failed run: its error and the tokens used.
pub open spec fn failed_run_report_spec(error: Seq<char>, tokens_used: u32) -> JsonView {
    JsonView::Object(
        seq![
            ("error"@, jstr(error)),
            ("success"@, JsonView::Bool(false)),
            ("tokens_used"@, jnum(tokens_used as nat)),
        ],
    )
}

/// The JSON report of a failed run (see [`failed_run_report_spec`]).
pub fn failed_run_report(error: String, tokens_used: u32) -> (j: Json)
    ensures
        j@ == failed_run_report_spec(error@, tokens_used),
{
    let j = object(
        vec![
            member("error", Json::Str(error)),
            member("success", Json::Bool(false)),
            member("tokens_used", num(tokens_used as u64)),
        ],
    );
    assert(j@->Object_0 =~= failed_run_report_spec(error@, tokens_used)->Object_0);
    j
}

/// How a rewrite run ended.
#[derive(Debug)]
pub enum RewriteRun {
    /// No API key: the model was not called.
    NoClient,
    /// The agent finished with `raw_response`, having called `tools_called`.
    Finished { raw_response: String, tools_called: Vec<String> },
    /// The agent failed with this message.
    Failed(String),
    /// The run hit its time limit; the message says so.
    TimedOut(String),
}

/// The report of a rewrite run. Without an API key: the error and no
/// tokens. Otherwise each report names the file and its display path, and
/// the tokens used: for a finished run, the outcome of its reply (see
/// [`rewrite_outcome_holds`]) — the rewrite with the reply and the tools
/// called, or the security error, or the parse error with the reply; for a
/// failed run its error; for a timeout its error after `Timeout error: `.
pub open spec fn rewrite_report_spec(
    run: RewriteRun,
    snippet: Seq<char>,
    tokens_used: u32,
    file_path: Option<Seq<char>>,
    display_path: Option<Seq<char>>,
) -> JsonView {
    let t = jnum(tokens_used as nat);
    let fp = jopt_str(file_path);
    let dp = jopt_str(display_path);
    match run {
        RewriteRun::NoClient => JsonView::Object(
            seq![
                ("error"@, jstr(MISSING_API_KEY@)),
                ("success"@, JsonView::Bool(false)),
                ("tokens_used"@, jnum(0)),
            ],
        ),
        RewriteRun::Finished { raw_response, tools_called } => match extracted_rewrite(raw_response@, snippet) {
            None => JsonView::Object(
                seq![
                    ("display_path"@, dp),
                    ("error"@, jstr(UNPARSED_REWRITE@)),
                    ("file_path"@, fp),
                    ("raw_response"@, jstr(raw_response@)),
                    ("success"@, JsonView::Bool(false)),
                    ("tokens_used"@, t),
                ],
            ),
            Some(code) => if suspicious(code) {
                JsonView::Object(
                    seq![
                        ("display_path"@, dp),
                        ("error"@, jstr(REJECTED_REWRITE@)),
                        ("file_path"@, fp),
                        ("success"@, JsonView::Bool(false)),
                        ("tokens_used"@, t),
                    ],
                )
            } else {
                JsonView::Object(
                    seq![
                        ("display_path"@, dp),
                        ("file_path"@, fp),
                        ("mode"@, jstr("rewrite"@)),
                        ("raw_response"@, jstr(raw_response@)),
                        ("rewritten_code"@, jstr(code)),
                        ("success"@, JsonView::Bool(true)),
                        ("tokens_used"@, t),
                        ("tools_called"@, JsonView::Array(tools_called@.map_values(|n: String| jstr(n@)))),
                    ],
                )
            },
        },
        RewriteRun::Failed(e) => JsonView::Object(
            seq![
                ("display_path"@, dp),
                ("error"@, jstr(e@)),
                ("file_path"@, fp),
                ("success"@, JsonView::Bool(false)),
                ("tokens_used"@, t),
            ],
        ),
        RewriteRun::TimedOut(e) => JsonView::Object(
            seq![
                ("display_path"@, dp),
                ("error"@, jstr("Timeout error: "@ + e@)),
                ("file_path"@, fp),
                ("success"@, JsonView::Bool(false)),
                ("tokens_used"@, t),
            ],
        ),
    }
}

fn error_report(error: String, tokens_used: u32, file_path: Option<String>, display_path: Option<String>) -> (j: Json)
    ensures
        j@ == JsonView::Object(
            seq![
                ("display_path"@, jopt_str(opt_str(display_path))),
                ("error"@, jstr(error@)),
                ("file_path"@, jopt_str(opt_str(file_path))),
                ("success"@, JsonView::Bool(false)),
                ("tokens_used"@, jnum(tokens_used as nat)),
            ],
        ),
{
    let ghost (e, f, d) = (error@, opt_str(file_path), opt_str(display_path));
    let j = object(
        vec![
            member("display_path", opt_text(display_path)),
            member("error", Json::Str(error)),
            member("file_path", opt_text(file_path)),
            member("success", Json::Bool(false)),
            member("tokens_used", num(tokens_used as u64)),
        ],
    );
    assert(j@->Object_0 =~= seq![
        ("display_path"@, jopt_str(d)),
        ("error"@, jstr(e)),
        ("file_path"@, jopt_str(f)),
        ("success"@, JsonView::Bool(false)),
        ("tokens_used"@, jnum(tokens_used as nat)),
    ]);
    j
}

/// The JSON report of a rewrite run (see [`rewrite_report_spec`]).
pub fn rewrite_report(
    run: RewriteRun,
    snippet: &str,
    tokens_used: u32,
    file_path: Option<String>,
    display_path: Option<String>,
) -> (j: Json)
    ensures
        j@ == rewrite_report_spec(run, snippet@, tokens_used, opt_str(file_path), opt_str(display_path)),
{
    let ghost (f, d) = (opt_str(file_path), opt_str(display_path));
    let ghost whole = run;
    match run {
        RewriteRun::NoClient => {
            let j = object(
                vec![
                    member("error", Json::Str(String::from_str(MISSING_API_KEY))),
                    member("success", Json::Bool(false)),
                    member("tokens_used", num(0)),
                ],
            );
            assert(j@->Object_0 =~= rewrite_report_spec(whole, snippet@, tokens_used, f, d)->Object_0);
            j
        },
        RewriteRun::Finished { raw_response, tools_called } => {
            let ghost raw = raw_response@;
            match rewrite_outcome(raw_response.as_str(), snippet) {
                RewriteOutcome::Unparsed => {
                    let j = object(
                        vec![
                            member("display_path", opt_text(display_path)),
                            member("error", Json::Str(String::from_str(UNPARSED_REWRITE))),
                            member("file_path", opt_text(file_path)),
                            member("raw_response", Json::Str(raw_response)),
                            member("success", Json::Bool(false)),
                            member("tokens_used", num(tokens_used as u64)),
                        ],
                    );
                    assert(j@->Object_0 =~= rewrite_report_spec(whole, snippet@, tokens_used, f, d)->Object_0);
                    j
                },
                RewriteOutcome::Rejected => {
                    let j = error_report(String::from_str(REJECTED_REWRITE), tokens_used, file_path, display_path);
                    assert(j@->Object_0 =~= rewrite_report_spec(whole, snippet@, tokens_used, f, d)->Object_0);
                    j
                },
                RewriteOutcome::Rewritten(code) => {
                    let j = object(
                        vec![
                            member("display_path", opt_text(display_path)),
                            member("file_path", opt_text(file_path)),
                            member("mode", Json::Str(String::from_str("rewrite"))),
                            member("raw_response", Json::Str(raw_response)),
                            member("rewritten_code", Json::Str(code)),
                            member("success", Json::Bool(true)),
                            member("tokens_used", num(tokens_used as u64)),
                            member("tools_called", strings(tools_called)),
                        ],
                    );
                    assert(j@->Object_0 =~= rewrite_report_spec(whole, snippet@, tokens_used, f, d)->Object_0);
                    j
                },
            }
        },
        RewriteRun::Failed(e) => {
            let j = error_report(e, tokens_used, file_path, display_path);
            assert(j@->Object_0 =~= rewrite_report_spec(whole, snippet@, tokens_used, f, d)->Object_0);
            j
        },
        RewriteRun::TimedOut(e) => {
            let mut m = String::from_str("Timeout error: ");
            push_str(&mut m, e.as_str());
            let j = error_report(m, tokens_used, file_path, display_path);
            assert(j@->Object_0 =~= rewrite_report_spec(whole, snippet@, tokens_used, f, d)->Object_0);
            j
        },
    }
}

} // verus!
