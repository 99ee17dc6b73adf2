//! Edits limited to one symbol: the request sent to the model, the parsing
//! of its reply, and the extraction of the symbol's source lines.
use crate::messages::{opt_str, ChatMessage, MessageView, ToolCallView};
use crate::text::{
    bufs_view, chars_of, contains_seq, decimal, find, first_match, is_first_match_from,
    lemma_first_match, lines_of, lines_spec, push_chars, push_decimal, push_str, slice_to_vec,
    string_from, trim_chars, trim_spec,
};
use vstd::prelude::*;
use vstd::string::*;

verus! {

/// Kind of a symbol found in a source file.
#[derive(Debug, Clone, Copy, PartialEq, Eq, Structural)]
pub enum SymbolKind {
    Function,
    Struct,
    Enum,
    Trait,
    Impl,
    Method,
    AssocFn,
    Mod,
    Variable,
    Comment,
}

/// A symbol and the lines (1-based, inclusive) it spans in `file`.
#[derive(Debug, Clone)]
pub struct SymbolSpan {
    pub name: String,
    pub kind: SymbolKind,
    pub file: String,
    pub start_line: u32,
    pub end_line: u32,
}

/// Request for an edit limited to one symbol.
#[derive(Debug, Clone)]
pub struct SymbolEditRequest {
    pub model: String,
    pub symbol: SymbolSpan,
    pub original_code: String,
    pub instruction: String,
}

/// The model's reply to a symbol edit, interpreted.
#[derive(Debug, Clone)]
pub struct SymbolEditResponse {
    /// A unified diff, when the reply holds one.
    pub patch: Option<String>,
    /// A full replacement of the symbol's definition.
    pub replacement: Option<String>,
    /// The reply as received.
    pub raw: String,
}

/// Label of a symbol kind in prompts.
pub open spec fn kind_label(k: SymbolKind) -> Seq<char> {
    match k {
        SymbolKind::Function => "function"@,
        SymbolKind::Struct => "struct"@,
        SymbolKind::Enum => "enum"@,
        SymbolKind::Trait => "trait"@,
        SymbolKind::Impl => "impl"@,
        SymbolKind::Method => "method"@,
        SymbolKind::AssocFn => "assoc_fn"@,
        SymbolKind::Mod => "mod"@,
        SymbolKind::Variable => "var"@,
        SymbolKind::Comment => "comment"@,
    }
}

/// Label of the kind of `symbol` (see [`kind_label`]).
pub fn format_symbol_kind(symbol: &SymbolSpan) -> (s: &'static str)
    ensures
        s@ == kind_label(symbol.kind),
{
    match symbol.kind {
        SymbolKind::Function => "function",
        SymbolKind::Struct => "struct",
        SymbolKind::Enum => "enum",
        SymbolKind::Trait => "trait",
        SymbolKind::Impl => "impl",
        SymbolKind::Method => "method",
        SymbolKind::AssocFn => "assoc_fn",
        SymbolKind::Mod => "mod",
        SymbolKind::Variable => "var",
        SymbolKind::Comment => "comment",
    }
}

// ---------------------------------------------------------------------------
// Request
// ---------------------------------------------------------------------------
/// System prompt of a symbol edit.
pub open spec fn edit_system_prompt() -> Seq<char> {
    "You are an AI code editor. Edit ONLY the specified symbol in the given Rust code. Respond with either a unified diff or a full replacement of that symbol. Do not modify any other parts of the file."@
}

/// Closing instructions of the user prompt.
pub open spec fn edit_output_format() -> Seq<char> {
    "\n\nOutput format:\n- Prefer unified diff starting with '```diff' and including only changes for this file; or\n- A full replacement of the symbol definition inside '```rust' code fences.\n- Do not include explanations outside code blocks."@
}

/// User prompt of a symbol edit: where the symbol is, its code in a fence,
/// the instruction, and the expected reply format.
pub open spec fn edit_user_prompt(req: SymbolEditRequest) -> Seq<char> {
    "Target file: "@ + req.symbol.file@ + "\nTarget symbol: "@ + req.symbol.name@ + " ("@
        + kind_label(req.symbol.kind) + ") lines "@ + decimal(req.symbol.start_line as nat) + "-"@
        + decimal(req.symbol.end_line as nat) + "\n\nOriginal symbol code:\n```rust\n"@
        + req.original_code@ + "\n```\n\nInstruction:\n"@ + req.instruction@
        + edit_output_format()
}

/// The two messages of a symbol edit: the system prompt, then the user
/// prompt (see [`edit_user_prompt`]).
pub fn symbol_edit_messages(req: &SymbolEditRequest) -> (ms: Vec<ChatMessage>)
    ensures
        ms@.len() == 2,
        ms@[0]@ == (MessageView {
            role: "system"@,
            content: Some(edit_system_prompt()),
            tool_calls: Seq::<ToolCallView>::empty(),
            tool_call_id: None,
        }),
        ms@[1]@ == (MessageView {
            role: "user"@,
            content: Some(edit_user_prompt(*req)),
            tool_calls: Seq::<ToolCallView>::empty(),
            tool_call_id: None,
        }),
{
    let system = ChatMessage::text(
        "system",
        String::from_str(
            "You are an AI code editor. Edit ONLY the specified symbol in the given Rust code. Respond with either a unified diff or a full replacement of that symbol. Do not modify any other parts of the file.",
        ),
    );
    let mut u = String::from_str("Target file: ");
    push_str(&mut u, req.symbol.file.as_str());
    push_str(&mut u, "\nTarget symbol: ");
    push_str(&mut u, req.symbol.name.as_str());
    push_str(&mut u, " (");
    push_str(&mut u, format_symbol_kind(&req.symbol));
    push_str(&mut u, ") lines ");
    push_decimal(&mut u, req.symbol.start_line as u64);
    push_str(&mut u, "-");
    push_decimal(&mut u, req.symbol.end_line as u64);
    push_str(&mut u, "\n\nOriginal symbol code:\n```rust\n");
    push_str(&mut u, req.original_code.as_str());
    push_str(&mut u, "\n```\n\nInstruction:\n");
    push_str(&mut u, req.instruction.as_str());
    push_str(
        &mut u,
        "\n\nOutput format:\n- Prefer unified diff starting with '```diff' and including only changes for this file; or\n- A full replacement of the symbol definition inside '```rust' code fences.\n- Do not include explanations outside code blocks.",
    );
    let user = ChatMessage::text("user", u);
    let mut ms: Vec<ChatMessage> = Vec::new();
    ms.push(system);
    ms.push(user);
    ms
}

// ---------------------------------------------------------------------------
// Reply
// ---------------------------------------------------------------------------
/// Contents of the first code block of `src` opened by a fence tagged
/// `lang` (a bare fence when `lang` is empty): the text after the opening
/// fence (and, for a tagged fence, after one line break) up to the next
/// fence, trimmed. `None` when there is no such opening or closing fence.
pub open spec fn code_block_spec(src: Seq<char>, lang: Seq<char>) -> Option<Seq<char>> {
    let f = "```"@ + lang;
    if !contains_seq(src, f) {
        None
    } else {
        let after = src.subrange(first_match(src, f) + f.len(), src.len() as int);
        let body = if lang.len() > 0 && after.len() > 0 && after[0] == '\n' {
            after.drop_first()
        } else {
            after
        };
        if !contains_seq(body, "```"@) {
            None
        } else {
            Some(trim_spec(body.take(first_match(body, "```"@))))
        }
    }
}

/// Extracts the first code block tagged `lang` (see [`code_block_spec`]).
pub fn extract_code_block(src: &str, lang: &str) -> (r: Option<String>)
    ensures
        opt_str(r) == code_block_spec(src@, lang@),
{
    let s = chars_of(src);
    let l = chars_of(lang);
    let mut f = chars_of("```");
    proof {
        reveal_strlit("```");
    }
    let mut k: usize = 0;
    while k < l.len()
        invariant
            k <= l.len(),
            l@ == lang@,
            f@ == "```"@ + l@.take(k as int),
        decreases l.len() - k,
    {
        f.push(l[k]);
        k += 1;
        assert(l@.take(k as int) == l@.take(k - 1).push(l@[k - 1]));
    }
    assert(l@.take(l.len() as int) == l@);
    let start = match find(s.as_slice(), f.as_slice()) {
        Some(i) => i,
        None => {
            return None;
        },
    };
    proof {
        lemma_first_match(s@, f@, start as int);
    }
    assert(crate::text::matches_at(s@, f@, start as int));
    assert(start + f@.len() <= s@.len() && s@.len() == s.len() && f@.len() == f.len());
    let mut a = start + f.len();
    if l.len() > 0 && a < s.len() && s[a] == '\n' {
        a += 1;
    }
    let body = slice_to_vec(s.as_slice(), a, s.len());
    let ghost after = s@.subrange(start + f@.len(), s@.len() as int);
    assert(body@ == (if l@.len() > 0 && after.len() > 0 && after[0] == '\n' {
        after.drop_first()
    } else {
        after
    }));
    let close = chars_of("```");
    let end = match find(body.as_slice(), close.as_slice()) {
        Some(e) => e,
        None => {
            return None;
        },
    };
    proof {
        lemma_first_match(body@, close@, end as int);
    }
    let inner = slice_to_vec(body.as_slice(), 0, end);
    let t = trim_chars(inner.as_slice());
    Some(string_from(t.as_slice()))
}

/// What a reply offers: a diff, or else a replacement from a `rust` block,
/// or else from a bare block; `None` when it holds no such block.
pub open spec fn parsed_edit(raw: Seq<char>) -> Option<(Option<Seq<char>>, Option<Seq<char>>)> {
    match code_block_spec(raw, "diff"@) {
        Some(p) => Some((Some(p), None)),
        None => match code_block_spec(raw, "rust"@) {
            Some(c) => Some((None, Some(c))),
            None => match code_block_spec(raw, ""@) {
                Some(c) => Some((None, Some(c))),
                None => None,
            },
        },
    }
}

/// Error message for a reply without a code block.
pub open spec fn no_block_message() -> Seq<char> {
    "failed to parse symbol edit response: no recognizable code block"@
}

/// Interprets a symbol-edit reply (see [`parsed_edit`]).
pub fn parse_symbol_edit_response(raw: &str) -> (r: Result<SymbolEditResponse, String>)
    ensures
        match r {
            Ok(resp) => parsed_edit(raw@) == Some((opt_str(resp.patch), opt_str(resp.replacement)))
                && resp.raw@ == raw@,
            Err(e) => parsed_edit(raw@).is_none() && e@ == no_block_message(),
        },
{
    if let Some(patch) = extract_code_block(raw, "diff") {
        return Ok(SymbolEditResponse { patch: Some(patch), replacement: None, raw: String::from_str(raw) });
    }
    let code = match extract_code_block(raw, "rust") {
        Some(c) => Some(c),
        None => extract_code_block(raw, ""),
    };
    match code {
        Some(c) => Ok(SymbolEditResponse { patch: None, replacement: Some(c), raw: String::from_str(raw) }),
        None => Err(
            String::from_str("failed to parse symbol edit response: no recognizable code block"),
        ),
    }
}

// ---------------------------------------------------------------------------
// Source lines
// ---------------------------------------------------------------------------
/// The lines of `ls` whose 1-based number (as the `u32` the line counter
/// wraps to) lies in `start..=end`, each followed by a line break.
pub open spec fn selected_lines(ls: Seq<Seq<char>>, start: u32, end: u32) -> Seq<char>
    decreases ls.len(),
{
    if ls.len() == 0 {
        Seq::empty()
    } else {
        let no = (ls.len() as int) as u32;
        selected_lines(ls.drop_last(), start, end) + if start <= no && no <= end {
            ls.last() + "\n"@
        } else {
            Seq::empty()
        }
    }
}

/// The source of `span` within the text `content` of its file: the lines
/// `start_line..=end_line`, each followed by a line break.
pub fn symbol_source_lines(content: &str, span: &SymbolSpan) -> (out: String)
    ensures
        out@ == selected_lines(lines_spec(content@), span.start_line, span.end_line),
{
    let cs = chars_of(content);
    let ls = lines_of(cs.as_slice());
    let ghost all = bufs_view(ls@);
    let mut out = String::new();
    let mut i: usize = 0;
    while i < ls.len()
        invariant
            i <= ls.len(),
            all == bufs_view(ls@),
            out@ == selected_lines(all.take(i as int), span.start_line, span.end_line),
        decreases ls.len() - i,
    {
        assert(all.take(i + 1).drop_last() == all.take(i as int));
        #[verifier::truncate]
        let line_no = (i + 1) as u32;
        assert(line_no == ((all.take(i + 1).len() as int) as u32));
        if line_no >= span.start_line && line_no <= span.end_line {
            push_chars(&mut out, ls[i].as_slice());
            push_str(&mut out, "\n");
        }
        i += 1;
    }
    assert(all.take(ls.len() as int) == all);
    out
}

} // verus!
