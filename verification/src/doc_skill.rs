//! Prompts that ask the model for documentation of a symbol or of a whole
//! file, and the excerpts of code they carry.
use crate::policy::join_with;
use crate::test_fix::{lemma_prefix_strict, width_sum};
use crate::text::{
    bufs_view, char_width, chars_of, decimal, lines_of, lines_spec, push_chars, push_decimal,
    push_str, utf8_width,
};
use vstd::prelude::*;
use vstd::string::*;

verus! {

/// Most symbols a file prompt lists.
pub const FILE_PROMPT_SYMBOLS: usize = 30;

/// Bytes of a file kept in the file prompt.
pub const FILE_EXCERPT_BYTES: usize = 8000;

/// Lines of context around a symbol in the symbol prompt.
pub const SNIPPET_CONTEXT_LINES: usize = 5;

/// How a path is written in a prompt: Rust's debug form of the path
/// (quoted, with escapes).
pub uninterp spec fn path_debug(path: Seq<char>) -> Seq<char>;

/// The debug form of `path` (`format!("{:?}", Path::new(path))`).
#[verifier::external_body]
fn debug_path(path: &str) -> (s: String)
    ensures
        s@ == path_debug(path@),
{
    format!("{:?}", std::path::Path::new(path))
}

/// A symbol of a file as the file prompt lists it.
#[derive(Debug, Clone)]
pub struct DocSymbol {
    /// Label of the symbol's kind.
    pub kind: String,
    pub name: String,
    /// First line, 0-based.
    pub start_line: usize,
    /// Last line, 0-based.
    pub end_line: usize,
    /// Name of the enclosing symbol, if any.
    pub parent: Option<String>,
}

/// Value of a [`DocSymbol`].
pub struct DocSymbolView {
    pub kind: Seq<char>,
    pub name: Seq<char>,
    pub start_line: nat,
    pub end_line: nat,
    pub parent: Option<Seq<char>>,
}

impl View for DocSymbol {
    type V = DocSymbolView;

    open spec fn view(&self) -> DocSymbolView {
        DocSymbolView {
            kind: self.kind@,
            name: self.name@,
            start_line: self.start_line as nat,
            end_line: self.end_line as nat,
            parent: crate::messages::opt_str(self.parent),
        }
    }
}

/// Values of a list of [`DocSymbol`]s.
pub open spec fn doc_symbols_view(s: Seq<DocSymbol>) -> Seq<DocSymbolView> {
    s.map_values(|d: DocSymbol| d@)
}

// ---------------------------------------------------------------------------
// The symbol prompt
// ---------------------------------------------------------------------------
/// Prompt asking for the doc comment of one symbol of kind `kind` in the
/// file at `path`, whose code is `code`.
pub open spec fn symbol_doc_prompt(path: Seq<char>, name: Seq<char>, kind: Seq<char>, code: Seq<char>) -> Seq<char> {
    "Write a Rust doc comment for the symbol below. Output only the doc comment text (/// ...), no code.\nFile: "@
        + path_debug(path) + "\nSymbol: "@ + name + " ("@ + kind + ")\n\nCode snippet:\n```rust\n"@ + code
        + "\n```\n\nGuidelines: concise summary, params/returns if applicable, mention side effects, stay within the snippet scope."@
}

/// The prompt asking for the doc comment of a symbol (see
/// [`symbol_doc_prompt`]).
pub fn build_symbol_doc_prompt(file_path: &str, symbol_name: &str, symbol_kind: &str, code: &str) -> (p: String)
    ensures
        p@ == symbol_doc_prompt(file_path@, symbol_name@, symbol_kind@, code@),
{
    let mut p = String::from_str(
        "Write a Rust doc comment for the symbol below. Output only the doc comment text (/// ...), no code.\nFile: ",
    );
    let shown = debug_path(file_path);
    push_str(&mut p, shown.as_str());
    push_str(&mut p, "\nSymbol: ");
    push_str(&mut p, symbol_name);
    push_str(&mut p, " (");
    push_str(&mut p, symbol_kind);
    push_str(&mut p, ")\n\nCode snippet:\n```rust\n");
    push_str(&mut p, code);
    push_str(
        &mut p,
        "\n```\n\nGuidelines: concise summary, params/returns if applicable, mention side effects, stay within the snippet scope.",
    );
    p
}

// ---------------------------------------------------------------------------
// The file prompt
// ---------------------------------------------------------------------------
/// Line of the file prompt for one symbol: kind, name, 1-based line range
/// and parent (`<root>` when it has none).
pub open spec fn doc_symbol_line(s: DocSymbolView) -> Seq<char> {
    "- ["@ + s.kind + "] "@ + s.name + " ("@ + decimal(s.start_line + 1) + "-"@ + decimal(s.end_line + 1)
        + "), parent: "@ + (match s.parent {
        Some(p) => p,
        None => "<root>"@,
    }) + "\n"@
}

/// The lines of a list of symbols.
pub open spec fn doc_symbol_lines(ss: Seq<DocSymbolView>) -> Seq<char>
    decreases ss.len(),
{
    if ss.len() == 0 {
        Seq::empty()
    } else {
        doc_symbol_lines(ss.drop_last()) + doc_symbol_line(ss.last())
    }
}

/// The symbols a file prompt lists: the first [`FILE_PROMPT_SYMBOLS`].
pub open spec fn listed_symbols(ss: Seq<DocSymbolView>) -> Seq<DocSymbolView> {
    if ss.len() <= FILE_PROMPT_SYMBOLS {
        ss
    } else {
        ss.take(FILE_PROMPT_SYMBOLS as int)
    }
}

/// Prompt asking for the doc comment of the file at `path`, listing its
/// symbols (or saying that none were detected) and an excerpt `code`.
pub open spec fn file_doc_prompt(path: Seq<char>, ss: Seq<DocSymbolView>, code: Seq<char>) -> Seq<char> {
    let lines = doc_symbol_lines(listed_symbols(ss));
    "Create a concise Rust module/file doc comment summarizing purpose, key responsibilities, and notable symbols.\nFile: "@
        + path_debug(path) + "\nSymbols (subset):\n"@ + (if lines.len() == 0 {
        "(no symbols detected)"@
    } else {
        lines
    }) + "File excerpt (truncated):\n```rust\n"@ + code
        + "\n```\nDo not include the code itself in the output\u{2014}only the doc comment text."@
}

fn push_doc_symbol_line(out: &mut String, s: &DocSymbol)
    requires
        s.start_line < usize::MAX,
        s.end_line < usize::MAX,
    ensures
        final(out)@ == old(out)@ + doc_symbol_line(s@),
{
    let ghost start = out@;
    push_str(out, "- [");
    push_str(out, s.kind.as_str());
    push_str(out, "] ");
    push_str(out, s.name.as_str());
    push_str(out, " (");
    push_decimal(out, (s.start_line + 1) as u64);
    push_str(out, "-");
    push_decimal(out, (s.end_line + 1) as u64);
    push_str(out, "), parent: ");
    match &s.parent {
        Some(p) => push_str(out, p.as_str()),
        None => push_str(out, "<root>"),
    }
    push_str(out, "\n");
    assert(out@ =~= start + doc_symbol_line(s@));
}

/// The prompt asking for the doc comment of a file (see
/// [`file_doc_prompt`]); line numbers must leave room for the 1-based form.
pub fn build_file_doc_prompt(file_path: &str, symbols: &[DocSymbol], code: &str) -> (p: String)
    requires
        forall|i: int| 0 <= i < symbols.len() ==> #[trigger] symbols@[i].start_line < usize::MAX
            && symbols@[i].end_line < usize::MAX,
    ensures
        p@ == file_doc_prompt(file_path@, doc_symbols_view(symbols@), code@),
{
    let ghost all = doc_symbols_view(symbols@);
    let n = if symbols.len() <= FILE_PROMPT_SYMBOLS { symbols.len() } else { FILE_PROMPT_SYMBOLS };
    let mut lines = String::new();
    let mut i: usize = 0;
    while i < n
        invariant
            i <= n <= symbols.len(),
            all == doc_symbols_view(symbols@),
            forall|j: int| 0 <= j < symbols.len() ==> #[trigger] symbols@[j].start_line < usize::MAX
                && symbols@[j].end_line < usize::MAX,
            lines@ == doc_symbol_lines(all.take(i as int)),
        decreases n - i,
    {
        assert(all.take(i + 1).drop_last() =~= all.take(i as int));
        assert(all.take(i + 1).last() == symbols@[i as int]@);
        push_doc_symbol_line(&mut lines, &symbols[i]);
        i += 1;
    }
    assert(all.take(n as int) =~= listed_symbols(all));
    let mut p = String::from_str(
        "Create a concise Rust module/file doc comment summarizing purpose, key responsibilities, and notable symbols.\nFile: ",
    );
    let shown = debug_path(file_path);
    push_str(&mut p, shown.as_str());
    push_str(&mut p, "\nSymbols (subset):\n");
    if n == 0 {
        assert(lines@.len() == 0);
        push_str(&mut p, "(no symbols detected)");
    } else {
        proof {
            reveal_strlit("- [");
            let ls = all.take(n as int);
            assert(doc_symbol_lines(ls) == doc_symbol_lines(ls.drop_last()) + doc_symbol_line(ls.last()));
            assert(doc_symbol_line(ls.last()).len() >= 3);
        }
        push_str(&mut p, lines.as_str());
    }
    push_str(&mut p, "File excerpt (truncated):\n```rust\n");
    push_str(&mut p, code);
    push_str(&mut p, "\n```\nDo not include the code itself in the output\u{2014}only the doc comment text.");
    p
}

// ---------------------------------------------------------------------------
// Excerpts
// ---------------------------------------------------------------------------
/// First line of a snippet: `start_line - context`, at least 0.
pub open spec fn snippet_start(start_line: nat, context: nat) -> int {
    if start_line >= context { start_line - context } else { 0 }
}

/// End (exclusive) of a snippet over `n` lines: `end_line + 1 + context`,
/// at most `n` (and at most `usize::MAX` before that).
pub open spec fn snippet_end(n: nat, end_line: nat, context: nat) -> int {
    let want: int = if context + 1 <= usize::MAX - end_line {
        end_line + 1 + context as int
    } else {
        usize::MAX as int
    };
    if want < n { want } else { n as int }
}

/// The lines of `code` from `start_line - context` to `end_line + context`
/// (0-based, inclusive, cut to the text), joined by line breaks.
pub open spec fn snippet_spec(code: Seq<char>, start_line: nat, end_line: nat, context: nat) -> Seq<char> {
    let ls = lines_spec(code);
    join_with(
        ls.subrange(snippet_start(start_line, context), snippet_end(ls.len(), end_line, context)),
        "\n"@,
    )
}

/// The code around a symbol (see [`snippet_spec`]). The range must not be
/// reversed, which it is only when the symbol starts past the text's end.
pub fn extract_snippet(code: &str, start_line: usize, end_line: usize, context: usize) -> (s: String)
    requires
        context < usize::MAX,
        snippet_start(start_line as nat, context as nat) <= snippet_end(
            lines_spec(code@).len(),
            end_line as nat,
            context as nat,
        ),
    ensures
        s@ == snippet_spec(code@, start_line as nat, end_line as nat, context as nat),
{
    let cs = chars_of(code);
    let ls = lines_of(cs.as_slice());
    let ghost all = bufs_view(ls@);
    let start = if start_line >= context { start_line - context } else { 0 };
    let want = if context + 1 <= usize::MAX - end_line { end_line + 1 + context } else { usize::MAX };
    let end = if want < ls.len() { want } else { ls.len() };
    let mut s = String::new();
    let mut i = start;
    assert(all.subrange(start as int, start as int) =~= Seq::<Seq<char>>::empty());
    while i < end
        invariant
            start <= i <= end <= ls.len(),
            all == bufs_view(ls@),
            s@ == join_with(all.subrange(start as int, i as int), "\n"@),
        decreases end - i,
    {
        let ghost prev = all.subrange(start as int, i as int);
        assert(all.subrange(start as int, i + 1).drop_last() =~= prev);
        assert(all.subrange(start as int, i + 1).last() == ls@[i as int]@);
        if i > start {
            push_str(&mut s, "\n");
        } else {
            assert(prev.len() == 0);
            assert(all.subrange(start as int, i + 1) =~= seq![ls@[i as int]@]);
        }
        push_chars(&mut s, ls[i].as_slice());
        i += 1;
    }
    s
}

/// Inputs on which cutting `code` to `max` bytes does not split a
/// character: short enough, or with a prefix of exactly `max` bytes.
pub open spec fn head_fits(code: Seq<char>, max: nat) -> bool {
    width_sum(code) <= max || exists|k: int| 0 <= k <= code.len() && #[trigger] width_sum(code.take(k)) == max
}

/// Where the kept head ends.
pub open spec fn head_cut(code: Seq<char>, max: nat) -> int {
    choose|k: int| 0 <= k <= code.len() && #[trigger] width_sum(code.take(k)) == max
}

/// `code` cut to its first `max` bytes, with a mark of the cut.
pub open spec fn truncated_code(code: Seq<char>, max: nat) -> Seq<char> {
    if width_sum(code) <= max {
        code
    } else {
        code.take(head_cut(code, max)) + "\n...<truncated>..."@
    }
}

/// The excerpt of a file in the file prompt (see [`truncated_code`]).
pub fn truncate_code(code: &str, max_chars: usize) -> (s: String)
    requires
        head_fits(code@, max_chars as nat),
    ensures
        s@ == truncated_code(code@, max_chars as nat),
{
    let cs = chars_of(code);
    let mut k: usize = 0;
    let mut acc: usize = 0;
    assert(code@.take(0) =~= Seq::<char>::empty());
    while k < cs.len() && char_width(cs[k]) <= max_chars - acc
        invariant
            k <= cs.len(),
            cs@ == code@,
            acc == width_sum(code@.take(k as int)),
            acc <= max_chars,
        decreases cs.len() - k,
    {
        assert(code@.take(k + 1) =~= code@.take(k as int).push(cs@[k as int]));
        proof {
            crate::test_fix::lemma_width_push(code@.take(k as int), cs@[k as int]);
        }
        acc = acc + char_width(cs[k]);
        k += 1;
    }
    assert(code@.take(code@.len() as int) =~= code@);
    if k == cs.len() {
        return String::from_str(code);
    }
    proof {
        assert(code@.take(k + 1) =~= code@.take(k as int).push(cs@[k as int]));
        crate::test_fix::lemma_width_push(code@.take(k as int), cs@[k as int]);
        assert(width_sum(code@.take(k + 1)) > max_chars);
        if k + 1 < code@.len() {
            lemma_prefix_strict(code@, k + 1, code@.len() as int);
        }
        assert(width_sum(code@) > max_chars);
        let w = head_cut(code@, max_chars as nat);
        assert(0 <= w <= code@.len() && width_sum(code@.take(w)) == max_chars);
        if w < k {
            lemma_prefix_strict(code@, w, k as int);
        } else if w > k + 1 {
            lemma_prefix_strict(code@, k + 1, w);
        }
        assert(w == k);
    }
    let mut s = crate::text::string_from(crate::text::slice_to_vec(cs.as_slice(), 0, k).as_slice());
    push_str(&mut s, "\n...<truncated>...");
    s
}

} // verus!
