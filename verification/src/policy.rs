//! Execution policy: structured allow/deny decisions for process and shell
//! execution, working-directory and environment validation, and the legacy
//! `allowed_commands` fast path.
//!
//! The security boundary is `program + args`; shell syntax is only accepted
//! through the explicit `allow_shell` escape hatch or the conservative legacy
//! fast path (simple commands without operators).
use crate::config::{AppConfig, ExecutionMode};
use crate::paths::{
    canonical, canonical_of, find_fact, is_absolute, join, join_spec, lookup_fact, path_eq,
    path_has_prefix, path_is_absolute, path_starts_with, paths_equal, PathFact,
};
use crate::text::{
    chars_of, is_control, is_control_char, is_white_space, is_ws, push_str, str_eq, string_from,
    trim_chars, trim_spec,
};
use vstd::prelude::*;
use vstd::string::*;
use vstd::utf8::*;

verus! {

// ---------------------------------------------------------------------------
// Character classes
// ---------------------------------------------------------------------------
/// Character classes used by the program-name and shell-syntax checks.
#[derive(Clone, Copy, Debug, PartialEq, Eq, Structural)]
pub enum CharClass {
    Control,
    LineBreak,
    AbsoluteMeta,
    Separator,
    WhiteSpace,
    NameMeta,
}

/// Shell metacharacters rejected inside absolute program paths.
pub open spec fn is_absolute_meta(c: char) -> bool {
    c == ';' || c == '&' || c == '|' || c == '>' || c == '<' || c == '$' || c == '`' || c == '"'
        || c == '\'' || c == '\\' || c == '(' || c == ')' || c == '{' || c == '}' || c == '!'
        || c == '#' || c == '~' || c == '*' || c == '?' || c == '[' || c == ']'
}

/// Shell metacharacters rejected inside bare program names.
pub open spec fn is_name_meta(c: char) -> bool {
    c == ';' || c == '&' || c == '|' || c == '>' || c == '<' || c == '$' || c == '`' || c == '"'
        || c == '\'' || c == '(' || c == ')' || c == '{' || c == '}' || c == '!' || c == '#'
        || c == '~' || c == '*' || c == '?' || c == '[' || c == ']' || c == '=' || c == ','
        || c == ':'
}

/// Membership of `c` in class `k`.
pub open spec fn in_class(k: CharClass, c: char) -> bool {
    match k {
        CharClass::Control => is_control_char(c),
        CharClass::LineBreak => c == '\n' || c == '\r',
        CharClass::AbsoluteMeta => is_absolute_meta(c),
        CharClass::Separator => c == '/' || c == '\\',
        CharClass::WhiteSpace => is_white_space(c),
        CharClass::NameMeta => is_name_meta(c),
    }
}

/// Some character of `s` is in class `k`.
pub open spec fn has_class(s: Seq<char>, k: CharClass) -> bool {
    exists|i: int| 0 <= i < s.len() && in_class(k, #[trigger] s[i])
}

/// Whether `c` is in class `k`.
pub fn char_in_class(k: CharClass, c: char) -> (b: bool)
    ensures
        b == in_class(k, c),
{
    match k {
        CharClass::Control => is_control(c),
        CharClass::LineBreak => c == '\n' || c == '\r',
        CharClass::AbsoluteMeta => c == ';' || c == '&' || c == '|' || c == '>' || c == '<' || c
            == '$' || c == '`' || c == '"' || c == '\'' || c == '\\' || c == '(' || c == ')' || c
            == '{' || c == '}' || c == '!' || c == '#' || c == '~' || c == '*' || c == '?' || c
            == '[' || c == ']',
        CharClass::Separator => c == '/' || c == '\\',
        CharClass::WhiteSpace => is_ws(c),
        CharClass::NameMeta => c == ';' || c == '&' || c == '|' || c == '>' || c == '<' || c == '$'
            || c == '`' || c == '"' || c == '\'' || c == '(' || c == ')' || c == '{' || c == '}'
            || c == '!' || c == '#' || c == '~' || c == '*' || c == '?' || c == '[' || c == ']'
            || c == '=' || c == ',' || c == ':',
    }
}

/// Whether some character of `s` is in class `k`.
pub fn any_in_class(s: &[char], k: CharClass) -> (b: bool)
    ensures
        b == has_class(s@, k),
{
    let mut i: usize = 0;
    while i < s.len()
        invariant
            i <= s.len(),
            forall|j: int| 0 <= j < i ==> !in_class(k, #[trigger] s@[j]),
        decreases s.len() - i,
    {
        if char_in_class(k, s[i]) {
            assert(in_class(k, s@[i as int]));
            return true;
        }
        i += 1;
    }
    false
}

// ---------------------------------------------------------------------------
// Program-name syntax
// ---------------------------------------------------------------------------
/// Why `p` cannot be a plain executable name, if it cannot.
///
/// Non-empty, at most 512 bytes, no control characters; absolute paths may
/// not hold line breaks or shell metacharacters; bare names may not hold path
/// separators, start with `.`, hold white space or shell metacharacters.
pub open spec fn program_syntax_error(p: Seq<char>) -> Option<Seq<char>> {
    if p.len() == 0 {
        Some("empty program"@)
    } else if encode_utf8(p).len() > 512 {
        Some("program name too long"@)
    } else if has_class(p, CharClass::Control) {
        Some("control characters are not allowed"@)
    } else if p[0] == '/' {
        if has_class(p, CharClass::LineBreak) {
            Some("invalid characters in path"@)
        } else if has_class(p, CharClass::AbsoluteMeta) {
            Some("shell metacharacters are not allowed"@)
        } else {
            None
        }
    } else if has_class(p, CharClass::Separator) {
        Some("path separators require an explicit absolute-path rule"@)
    } else if p[0] == '.' {
        Some("relative executable paths are not allowed"@)
    } else if has_class(p, CharClass::WhiteSpace) {
        Some("whitespace is not allowed in program name"@)
    } else if has_class(p, CharClass::NameMeta) {
        Some("shell metacharacters are not allowed"@)
    } else {
        None
    }
}

/// The reason `program` is rejected, or `None` when it is a valid name
/// (see [`program_syntax_error`]).
pub fn program_syntax_reason(program: &str) -> (r: Option<String>)
    ensures
        match r {
            Some(s) => program_syntax_error(program@) == Some(s@),
            None => program_syntax_error(program@).is_none(),
        },
{
    let p = chars_of(program);
    let pb = program.as_bytes();
    let blen = pb.len();
    assert(blen == encode_utf8(program@).len());
    if p.len() == 0 {
        return Some(String::from_str("empty program"));
    }
    if blen > 512 {
        return Some(String::from_str("program name too long"));
    }
    if any_in_class(p.as_slice(), CharClass::Control) {
        return Some(String::from_str("control characters are not allowed"));
    }
    if p[0] == '/' {
        if any_in_class(p.as_slice(), CharClass::LineBreak) {
            return Some(String::from_str("invalid characters in path"));
        }
        if any_in_class(p.as_slice(), CharClass::AbsoluteMeta) {
            return Some(String::from_str("shell metacharacters are not allowed"));
        }
        return None;
    }
    if any_in_class(p.as_slice(), CharClass::Separator) {
        return Some(String::from_str("path separators require an explicit absolute-path rule"));
    }
    if p[0] == '.' {
        return Some(String::from_str("relative executable paths are not allowed"));
    }
    if any_in_class(p.as_slice(), CharClass::WhiteSpace) {
        return Some(String::from_str("whitespace is not allowed in program name"));
    }
    if any_in_class(p.as_slice(), CharClass::NameMeta) {
        return Some(String::from_str("shell metacharacters are not allowed"));
    }
    None
}

// ---------------------------------------------------------------------------
// Shell-syntax detection (bytes)
// ---------------------------------------------------------------------------
/// Bytes that make an unquoted command non-simple.
pub open spec fn is_operator_byte(c: u8) -> bool {
    c == 59u8 || c == 38u8 || c == 124u8 || c == 62u8 || c == 60u8 || c == 40u8 || c == 41u8 || c
        == 96u8 || c == 36u8 || c == 92u8 || c == 33u8 || c == 35u8 || c == 126u8 || c == 42u8
        || c == 63u8 || c == 91u8 || c == 93u8 || c == 123u8 || c == 125u8
}

/// Quote-aware scan from byte `i` in the given quoting state: true when an
/// operator or expansion is found outside single quotes, or the input ends
/// inside a quote.
pub open spec fn shell_scan(b: Seq<u8>, i: int, in_single: bool, in_double: bool) -> bool
    decreases b.len() + 1 - i,
{
    if i < 0 || i >= b.len() {
        in_single || in_double
    } else if in_single {
        shell_scan(b, i + 1, b[i] != 39u8, false)
    } else if in_double {
        if b[i] == 34u8 {
            shell_scan(b, i + 1, false, false)
        } else if b[i] == 92u8 {
            shell_scan(b, i + 2, false, true)
        } else if b[i] == 36u8 || b[i] == 96u8 {
            true
        } else {
            shell_scan(b, i + 1, false, true)
        }
    } else if b[i] == 39u8 {
        shell_scan(b, i + 1, true, false)
    } else if b[i] == 34u8 {
        shell_scan(b, i + 1, false, true)
    } else if is_operator_byte(b[i]) {
        true
    } else {
        shell_scan(b, i + 1, false, false)
    }
}

/// `cmd` is not a provably simple command: it holds a line break, an
/// unquoted operator, an expansion inside double quotes, or an unbalanced
/// quote.
pub open spec fn has_shell_syntax(cmd: Seq<char>) -> bool {
    ||| has_class(cmd, CharClass::LineBreak)
    ||| shell_scan(encode_utf8(cmd), 0, false, false)
}

/// Conservative shell-syntax detector for the legacy path.
pub fn contains_shell_syntax(cmd: &str) -> (b: bool)
    ensures
        b == has_shell_syntax(cmd@),
{
    let cs = chars_of(cmd);
    if any_in_class(cs.as_slice(), CharClass::LineBreak) {
        return true;
    }
    let bytes = cmd.as_bytes();
    let ghost bs = bytes@;
    assert(bs == cmd.spec_bytes());
    assert(bs == encode_utf8(cmd@));
    let mut i: usize = 0;
    let mut in_single = false;
    let mut in_double = false;
    while i < bytes.len()
        invariant
            i <= bytes.len(),
            bs == bytes@,
            bs == encode_utf8(cmd@),
            !(in_single && in_double),
            shell_scan(bs, 0, false, false) == shell_scan(bs, i as int, in_single, in_double),
        decreases bytes.len() + 1 - i,
    {
        let c = bytes[i];
        if in_single {
            if c == 39u8 {
                in_single = false;
            }
            i += 1;
            continue;
        }
        if in_double {
            if c == 34u8 {
                in_double = false;
            } else if c == 92u8 {
                if i + 1 >= bytes.len() {
                    assert(shell_scan(bs, i + 2, false, true));
                    return true;
                }
                i += 1;
            } else if c == 36u8 || c == 96u8 {
                return true;
            }
            i += 1;
            continue;
        }
        if c == 39u8 {
            in_single = true;
        } else if c == 34u8 {
            in_double = true;
        } else if c == 59u8 || c == 38u8 || c == 124u8 || c == 62u8 || c == 60u8 || c == 40u8 || c
            == 41u8 || c == 96u8 || c == 36u8 || c == 92u8 || c == 33u8 || c == 35u8 || c == 126u8
            || c == 42u8 || c == 63u8 || c == 91u8 || c == 93u8 || c == 123u8 || c == 125u8 {
            assert(is_operator_byte(c));
            assert(shell_scan(bs, i as int, false, false));
            return true;
        }
        i += 1;
    }
    in_single || in_double
}

/// Views of character buffers.
pub open spec fn buf_views(v: Seq<Vec<char>>) -> Seq<Seq<char>> {
    v.map_values(|x: Vec<char>| x@)
}

/// Views of strings.
pub open spec fn str_views(v: Seq<String>) -> Seq<Seq<char>> {
    v.map_values(|x: String| x@)
}

// ---------------------------------------------------------------------------
// Simple-command tokenizer
// ---------------------------------------------------------------------------
/// Tokenizer state: finished words, current word, inside single quotes,
/// inside double quotes, inside a word.
pub type TokState = (Seq<Seq<char>>, Seq<char>, bool, bool, bool);

/// One tokenizer step on character `c`: quotes group, white space outside
/// quotes ends a word.
pub open spec fn tok_step(st: TokState, c: char) -> TokState {
    let (args, cur, sq, dq, tok) = st;
    if sq {
        if c == '\'' { (args, cur, false, dq, tok) } else { (args, cur.push(c), sq, dq, tok) }
    } else if dq {
        if c == '"' { (args, cur, sq, false, tok) } else { (args, cur.push(c), sq, dq, tok) }
    } else if c == '\'' {
        (args, cur, true, dq, true)
    } else if c == '"' {
        (args, cur, sq, true, true)
    } else if is_white_space(c) {
        if tok { (args.push(cur), Seq::empty(), sq, dq, false) } else { st }
    } else {
        (args, cur.push(c), sq, dq, true)
    }
}

/// Tokenizer state after reading all of `s`.
pub open spec fn tok_run(s: Seq<char>) -> TokState
    decreases s.len(),
{
    if s.len() == 0 {
        (Seq::empty(), Seq::empty(), false, false, false)
    } else {
        tok_step(tok_run(s.drop_last()), s.last())
    }
}

/// Words of a simple command, or `None` when a quote is left open.
pub open spec fn words_of(s: Seq<char>) -> Option<Seq<Seq<char>>> {
    let (args, cur, sq, dq, tok) = tok_run(s);
    if sq || dq {
        None
    } else if tok {
        Some(args.push(cur))
    } else {
        Some(args)
    }
}

/// `(program, args)` of a provably simple command, or `None`.
///
/// Commands with shell syntax, open quotes or no words are rejected; a
/// program word that fails the name rules is still accepted unless it holds
/// control characters or white space (absolute legacy entries pass here).
pub open spec fn simple_command(cmd: Seq<char>) -> Option<(Seq<char>, Seq<Seq<char>>)> {
    if has_shell_syntax(cmd) {
        None
    } else {
        match words_of(cmd) {
            None => None,
            Some(w) => if w.len() == 0 {
                None
            } else if program_syntax_error(w[0]).is_some() && (w[0].len() == 0 || has_class(
                w[0],
                CharClass::Control,
            ) || has_class(w[0], CharClass::WhiteSpace)) {
                None
            } else {
                Some((w[0], w.drop_first()))
            },
        }
    }
}

/// Splits `cmd` into words (see [`words_of`]).
pub fn split_words(cmd: &[char]) -> (r: Option<Vec<Vec<char>>>)
    ensures
        match r {
            Some(w) => words_of(cmd@) == Some(buf_views(w@)),
            None => words_of(cmd@).is_none(),
        },
{
    let mut args: Vec<Vec<char>> = Vec::new();
    let mut cur: Vec<char> = Vec::new();
    let mut sq = false;
    let mut dq = false;
    let mut tok = false;
    let mut i: usize = 0;
    while i < cmd.len()
        invariant
            i <= cmd.len(),
            tok_run(cmd@.take(i as int)) == (buf_views(args@), cur@, sq, dq, tok),
        decreases cmd.len() - i,
    {
        let c = cmd[i];
        let ghost before = (buf_views(args@), cur@, sq, dq, tok);
        assert(cmd@.take(i + 1).drop_last() == cmd@.take(i as int));
        if sq {
            if c == '\'' {
                sq = false;
            } else {
                cur.push(c);
            }
        } else if dq {
            if c == '"' {
                dq = false;
            } else {
                cur.push(c);
            }
        } else if c == '\'' {
            sq = true;
            tok = true;
        } else if c == '"' {
            dq = true;
            tok = true;
        } else if is_ws(c) {
            if tok {
                let w = cur;
                cur = Vec::new();
                args.push(w);
                tok = false;
                assert(buf_views(args@) =~= before.0.push(before.1));
            }
        } else {
            cur.push(c);
            tok = true;
        }
        assert(tok_step(before, c) == (buf_views(args@), cur@, sq, dq, tok));
        i += 1;
    }
    assert(cmd@.take(cmd.len() as int) == cmd@);
    if sq || dq {
        return None;
    }
    if tok {
        let ghost prev = buf_views(args@);
        let ghost last = cur@;
        args.push(cur);
        assert(buf_views(args@) =~= prev.push(last));
    }
    Some(args)
}

/// Converts character buffers into strings.
pub fn strings_from(words: &Vec<Vec<char>>) -> (out: Vec<String>)
    ensures
        str_views(out@) == buf_views(words@),
{
    let mut out: Vec<String> = Vec::new();
    let mut i: usize = 0;
    while i < words.len()
        invariant
            i <= words.len(),
            str_views(out@) =~= buf_views(words@).take(i as int),
        decreases words.len() - i,
    {
        let s = string_from(words[i].as_slice());
        let ghost prev = out@;
        out.push(s);
        assert(out@ == prev.push(s));
        assert(buf_views(words@).take(i + 1) =~= buf_views(words@).take(i as int).push(words@[i as int]@));
        i += 1;
    }
    out
}

/// Tokenizes a simple shell command into `(program, args)` (see
/// [`simple_command`]).
pub fn parse_simple_command(cmd: &str) -> (r: Option<(String, Vec<String>)>)
    ensures
        match r {
            Some((p, a)) => simple_command(cmd@) == Some((p@, str_views(a@))),
            None => simple_command(cmd@).is_none(),
        },
{
    if contains_shell_syntax(cmd) {
        return None;
    }
    let cs = chars_of(cmd);
    let words = match split_words(cs.as_slice()) {
        Some(w) => w,
        None => return None,
    };
    if words.len() == 0 {
        return None;
    }
    let all = strings_from(&words);
    let program = string_from(words[0].as_slice());
    if program_syntax_reason(&program).is_some() {
        if words[0].len() == 0 || any_in_class(words[0].as_slice(), CharClass::Control)
            || any_in_class(words[0].as_slice(), CharClass::WhiteSpace) {
            return None;
        }
    }
    let mut rest: Vec<String> = Vec::new();
    let mut i: usize = 1;
    while i < all.len()
        invariant
            1 <= i <= all.len(),
            str_views(all@) == buf_views(words@),
            str_views(rest@) =~= str_views(all@).subrange(1, i as int),
        decreases all.len() - i,
    {
        let ghost prev = rest@;
        let x = all[i].clone();
        rest.push(x);
        assert(rest@ == prev.push(x));
        assert(str_views(all@).subrange(1, i + 1) =~= str_views(all@).subrange(1, i as int).push(all@[i as int]@));
        i += 1;
    }
    assert(str_views(rest@) =~= buf_views(words@).drop_first());
    Some((program, rest))
}


// ---------------------------------------------------------------------------
// Denials and requests
// ---------------------------------------------------------------------------
/// Why a request was denied. Surfaced to the model as structured data.
#[derive(Debug, Clone, PartialEq, Eq)]
pub enum PolicyDenial {
    /// `mode = "deny"`: everything is denied.
    GlobalDeny,
    /// Program is not in `allowed_programs`.
    ProgramNotAllowed { program: String },
    /// Program name itself is malformed.
    InvalidProgram { program: String, reason: String },
    /// Shell execution is disabled (`allow_shell = false`).
    ShellDisabled,
    /// Shell command contains dangerous syntax (legacy path only).
    UnsafeShellSyntax { reason: String },
    /// Legacy `allowed_commands` did not match.
    LegacyCommandNotAllowed { command: String },
    /// `cwd` is outside the allowed roots or not a real directory.
    CwdNotAllowed { cwd: String, reason: String },
    /// Environment override contains keys outside `allowed_env`.
    EnvNotAllowed { keys: Vec<String> },
}

/// Mathematical value of a [`PolicyDenial`].
pub enum DenialView {
    GlobalDeny,
    ProgramNotAllowed { program: Seq<char> },
    InvalidProgram { program: Seq<char>, reason: Seq<char> },
    ShellDisabled,
    UnsafeShellSyntax { reason: Seq<char> },
    LegacyCommandNotAllowed { command: Seq<char> },
    CwdNotAllowed { cwd: Seq<char>, reason: Seq<char> },
    EnvNotAllowed { keys: Seq<Seq<char>> },
}

impl View for PolicyDenial {
    type V = DenialView;

    open spec fn view(&self) -> DenialView {
        match self {
            PolicyDenial::GlobalDeny => DenialView::GlobalDeny,
            PolicyDenial::ProgramNotAllowed { program } => DenialView::ProgramNotAllowed {
                program: program@,
            },
            PolicyDenial::InvalidProgram { program, reason } => DenialView::InvalidProgram {
                program: program@,
                reason: reason@,
            },
            PolicyDenial::ShellDisabled => DenialView::ShellDisabled,
            PolicyDenial::UnsafeShellSyntax { reason } => DenialView::UnsafeShellSyntax {
                reason: reason@,
            },
            PolicyDenial::LegacyCommandNotAllowed { command } =>
                DenialView::LegacyCommandNotAllowed { command: command@ },
            PolicyDenial::CwdNotAllowed { cwd, reason } => DenialView::CwdNotAllowed {
                cwd: cwd@,
                reason: reason@,
            },
            PolicyDenial::EnvNotAllowed { keys } => DenialView::EnvNotAllowed {
                keys: str_views(keys@),
            },
        }
    }
}

/// `parts` joined with `sep` between consecutive items.
pub open spec fn join_with(parts: Seq<Seq<char>>, sep: Seq<char>) -> Seq<char>
    decreases parts.len(),
{
    if parts.len() == 0 {
        Seq::empty()
    } else if parts.len() == 1 {
        parts[0]
    } else {
        join_with(parts.drop_last(), sep) + sep + parts.last()
    }
}

/// The human-readable message of a denial.
pub open spec fn denial_message(d: DenialView) -> Seq<char> {
    match d {
        DenialView::GlobalDeny => "Process execution is disabled by execution policy (mode = deny)"@,
        DenialView::ProgramNotAllowed { program } => "Program '"@ + program
            + "' is not in allowed_programs"@,
        DenialView::InvalidProgram { program, reason } => "Invalid program '"@ + program + "': "@
            + reason,
        DenialView::ShellDisabled => "Shell execution is disabled by execution policy"@,
        DenialView::UnsafeShellSyntax { reason } => "Shell command rejected by execution policy: "@
            + reason,
        DenialView::LegacyCommandNotAllowed { command } => "Command '"@ + command
            + "' is not allowed"@,
        DenialView::CwdNotAllowed { cwd, reason } => "Working directory '"@ + cwd
            + "' is not allowed: "@ + reason,
        DenialView::EnvNotAllowed { keys } => "Environment variables not in allowed_env: "@
            + join_with(keys, ", "@),
    }
}

/// Joins strings with a separator.
pub fn join_strings(parts: &Vec<String>, sep: &str) -> (out: String)
    ensures
        out@ == join_with(str_views(parts@), sep@),
{
    let mut out = String::new();
    let mut i: usize = 0;
    while i < parts.len()
        invariant
            i <= parts.len(),
            out@ == join_with(str_views(parts@).take(i as int), sep@),
        decreases parts.len() - i,
    {
        let ghost before = str_views(parts@).take(i as int);
        assert(str_views(parts@).take(i + 1).drop_last() =~= before);
        if i > 0 {
            push_str(&mut out, sep);
        } else {
            assert(before.len() == 0);
        }
        push_str(&mut out, parts[i].as_str());
        i += 1;
    }
    assert(str_views(parts@).take(parts.len() as int) =~= str_views(parts@));
    out
}

impl PolicyDenial {
    /// The human-readable message of this denial.
    pub fn message(&self) -> (m: String)
        ensures
            m@ == denial_message(self@),
    {
        match self {
            PolicyDenial::GlobalDeny => String::from_str(
                "Process execution is disabled by execution policy (mode = deny)",
            ),
            PolicyDenial::ProgramNotAllowed { program } => {
                let mut m = String::from_str("Program '");
                push_str(&mut m, program.as_str());
                push_str(&mut m, "' is not in allowed_programs");
                m
            },
            PolicyDenial::InvalidProgram { program, reason } => {
                let mut m = String::from_str("Invalid program '");
                push_str(&mut m, program.as_str());
                push_str(&mut m, "': ");
                push_str(&mut m, reason.as_str());
                m
            },
            PolicyDenial::ShellDisabled => String::from_str(
                "Shell execution is disabled by execution policy",
            ),
            PolicyDenial::UnsafeShellSyntax { reason } => {
                let mut m = String::from_str("Shell command rejected by execution policy: ");
                push_str(&mut m, reason.as_str());
                m
            },
            PolicyDenial::LegacyCommandNotAllowed { command } => {
                let mut m = String::from_str("Command '");
                push_str(&mut m, command.as_str());
                push_str(&mut m, "' is not allowed");
                m
            },
            PolicyDenial::CwdNotAllowed { cwd, reason } => {
                let mut m = String::from_str("Working directory '");
                push_str(&mut m, cwd.as_str());
                push_str(&mut m, "' is not allowed: ");
                push_str(&mut m, reason.as_str());
                m
            },
            PolicyDenial::EnvNotAllowed { keys } => {
                let mut m = String::from_str("Environment variables not in allowed_env: ");
                let j = join_strings(keys, ", ");
                push_str(&mut m, j.as_str());
                m
            },
        }
    }
}

/// Structured process request (mirrors the `execute_process` tool schema).
/// `env` lists `(key, value)` overrides.
#[derive(Debug, Clone)]
pub struct ProcessRequest {
    pub program: String,
    pub args: Vec<String>,
    pub cwd: Option<String>,
    pub env: Vec<(String, String)>,
    pub timeout_ms: Option<u64>,
}

/// View of an optional string.
pub open spec fn opt_view(o: Option<String>) -> Option<Seq<char>> {
    match o {
        Some(s) => Some(s@),
        None => None,
    }
}

/// Keys of an environment override list.
pub open spec fn env_keys(env: Seq<(String, String)>) -> Seq<Seq<char>> {
    env.map_values(|kv: (String, String)| kv.0@)
}


// ---------------------------------------------------------------------------
// Policy decisions (specification)
// ---------------------------------------------------------------------------
/// The legacy `allowed_commands` list is the authority: `[execution]` is
/// absent and the legacy list is non-empty.
pub open spec fn legacy_fallback(c: AppConfig) -> bool {
    !c.execution_configured && c.allowed_commands@.len() > 0
}

/// Mode applied to structured requests (legacy lists behave as allowlists).
pub open spec fn effective_mode_spec(c: AppConfig) -> ExecutionMode {
    if legacy_fallback(c) {
        ExecutionMode::Allowlist
    } else {
        c.execution.mode
    }
}

/// Some legacy entry is a simple command whose program is `program`.
pub open spec fn legacy_allows_program(c: AppConfig, program: Seq<char>) -> bool {
    exists|i: int|
        0 <= i < c.allowed_commands@.len() && (match simple_command(
            #[trigger] c.allowed_commands@[i]@,
        ) {
            Some((p, _)) => p == program,
            None => false,
        })
}

/// Canonical equality of two paths, `None` when either cannot be
/// canonicalized.
pub open spec fn canonical_paths_equal_spec(facts: Seq<PathFact>, a: Seq<char>, b: Seq<char>) -> Option<bool> {
    match (canonical_of(facts, a), canonical_of(facts, b)) {
        (Some(x), Some(y)) => Some(path_eq(x, y)),
        _ => None,
    }
}

/// One allowlist rule admits `program`: exact string match (for two
/// absolute paths, unless their canonical forms are known to differ), or
/// two absolute paths whose canonical forms are equal.
pub open spec fn rule_allows(facts: Seq<PathFact>, rule: Seq<char>, program: Seq<char>) -> bool {
    let both_absolute = is_absolute(rule) && is_absolute(program);
    if rule == program {
        !both_absolute || canonical_paths_equal_spec(facts, rule, program) != Some(false)
    } else {
        both_absolute && canonical_paths_equal_spec(facts, rule, program) == Some(true)
    }
}

/// Some allowlist rule admits `program`.
pub open spec fn program_in_allowlist(facts: Seq<PathFact>, allowed: Seq<String>, program: Seq<char>) -> bool {
    exists|i: int| 0 <= i < allowed.len() && rule_allows(facts, #[trigger] allowed[i]@, program)
}

/// Denial (if any) of `program` by the allowlist stage.
pub open spec fn program_denial(c: AppConfig, facts: Seq<PathFact>, program: Seq<char>) -> Option<DenialView> {
    if legacy_fallback(c) {
        if legacy_allows_program(c, program) {
            None
        } else {
            Some(DenialView::ProgramNotAllowed { program })
        }
    } else {
        match c.execution.mode {
            ExecutionMode::Unrestricted => None,
            ExecutionMode::Deny => Some(DenialView::GlobalDeny),
            ExecutionMode::Allowlist => if program_in_allowlist(
                facts,
                c.execution.allowed_programs@,
                program,
            ) {
                None
            } else {
                Some(DenialView::ProgramNotAllowed { program })
            },
        }
    }
}

/// Effective working directory: an absolute `cwd` as is, a relative one
/// under the project root, the project root when absent.
pub open spec fn resolve_cwd_spec(root: Seq<char>, cwd: Option<Seq<char>>) -> Seq<char> {
    match cwd {
        Some(p) => if is_absolute(p) {
            p
        } else {
            join_spec(root, p)
        },
        None => root,
    }
}

/// Directories a process may run in: the project root, then `allowed_paths`.
pub open spec fn cwd_roots(c: AppConfig) -> Seq<Seq<char>> {
    seq![c.project_root@] + str_views(c.allowed_paths@)
}

/// Canonical form of a root, or the root itself when it cannot be
/// canonicalized.
pub open spec fn canonical_root(facts: Seq<PathFact>, r: Seq<char>) -> Seq<char> {
    match canonical_of(facts, r) {
        Some(x) => x,
        None => r,
    }
}

/// The canonical directory lies under one of the allowed roots.
pub open spec fn under_some_root(c: AppConfig, facts: Seq<PathFact>, canon: Seq<char>) -> bool {
    exists|i: int|
        0 <= i < cwd_roots(c).len() && path_starts_with(
            canon,
            canonical_root(facts, #[trigger] cwd_roots(c)[i]),
        )
}

/// Denial (if any) of the working directory `cwd`.
pub open spec fn cwd_denial(c: AppConfig, facts: Seq<PathFact>, cwd: Option<Seq<char>>) -> Option<DenialView> {
    let resolved = resolve_cwd_spec(c.project_root@, cwd);
    match find_fact(facts, resolved) {
        None => Some(DenialView::CwdNotAllowed { cwd: resolved, reason: "directory does not exist"@ }),
        Some(f) => if !f.exists {
            Some(DenialView::CwdNotAllowed { cwd: resolved, reason: "directory does not exist"@ })
        } else if !f.is_dir {
            Some(DenialView::CwdNotAllowed { cwd: resolved, reason: "not a directory"@ })
        } else {
            match f.canonical {
                None => Some(
                    DenialView::CwdNotAllowed { cwd: resolved, reason: "could not canonicalize path"@ },
                ),
                Some(canon) => if under_some_root(c, facts, canon@) {
                    None
                } else {
                    Some(
                        DenialView::CwdNotAllowed {
                            cwd: resolved,
                            reason: "outside project root and allowed_paths"@,
                        },
                    )
                },
            }
        },
    }
}

/// Keys of `keys` that are not in `allowed`, in order.
pub open spec fn disallowed_keys(keys: Seq<Seq<char>>, allowed: Seq<Seq<char>>) -> Seq<Seq<char>>
    decreases keys.len(),
{
    if keys.len() == 0 {
        Seq::empty()
    } else if allowed.contains(keys.last()) {
        disallowed_keys(keys.drop_last(), allowed)
    } else {
        disallowed_keys(keys.drop_last(), allowed).push(keys.last())
    }
}

/// Denial (if any) of the environment overrides: in allowlist mode (and
/// under the legacy list) only `allowed_env` keys may be set.
pub open spec fn env_denial(c: AppConfig, env: Seq<(String, String)>) -> Option<DenialView> {
    let bad = disallowed_keys(env_keys(env), str_views(c.execution.allowed_env@));
    if env.len() == 0 {
        None
    } else if !(legacy_fallback(c) || c.execution.mode == ExecutionMode::Allowlist) {
        None
    } else if bad.len() == 0 {
        None
    } else {
        Some(DenialView::EnvNotAllowed { keys: bad })
    }
}

/// Decision on a structured process request: deny mode, then program-name
/// syntax, then the allowlist, then the working directory, then the
/// environment.
pub open spec fn process_denial(c: AppConfig, facts: Seq<PathFact>, req: ProcessRequest) -> Option<DenialView> {
    if effective_mode_spec(c) == ExecutionMode::Deny {
        Some(DenialView::GlobalDeny)
    } else if program_syntax_error(req.program@).is_some() {
        Some(
            DenialView::InvalidProgram {
                program: req.program@,
                reason: program_syntax_error(req.program@).unwrap(),
            },
        )
    } else if program_denial(c, facts, req.program@).is_some() {
        program_denial(c, facts, req.program@)
    } else if cwd_denial(c, facts, opt_view(req.cwd)).is_some() {
        cwd_denial(c, facts, opt_view(req.cwd))
    } else {
        env_denial(c, req.env@)
    }
}

/// Shell tools may run (legacy lists always admit the shell layer).
pub open spec fn shell_allowed_spec(c: AppConfig) -> bool {
    legacy_fallback(c) || c.execution.allow_shell
}

/// Denial (if any) of shell execution.
pub open spec fn shell_denial(c: AppConfig) -> Option<DenialView> {
    if c.execution.mode == ExecutionMode::Deny && !legacy_fallback(c) {
        Some(DenialView::GlobalDeny)
    } else if shell_allowed_spec(c) {
        None
    } else {
        Some(DenialView::ShellDisabled)
    }
}

/// Some legacy entry admits the simple command `(prog, args)`: same program
/// and the entry's arguments are a prefix of `args`.
pub open spec fn legacy_allows_command(c: AppConfig, prog: Seq<char>, args: Seq<Seq<char>>) -> bool {
    exists|i: int|
        0 <= i < c.allowed_commands@.len() && (match simple_command(
            #[trigger] c.allowed_commands@[i]@,
        ) {
            Some((p, a)) => p == prog && a.len() <= args.len() && args.subrange(0, a.len() as int)
                == a,
            None => false,
        })
}

/// Outcome of the legacy shell gate for `command`.
pub enum ShellGateView {
    /// Denied with this denial.
    Denied(DenialView),
    /// Allowed; run shell-free as `(program, args)`.
    FastPath(Seq<char>, Seq<Seq<char>>),
    /// Allowed; run through the shell as given.
    Shell,
}

/// Decision of the legacy `execute_bash` gate.
pub open spec fn legacy_shell_gate(c: AppConfig, command: Seq<char>) -> ShellGateView {
    if shell_denial(c).is_some() {
        ShellGateView::Denied(shell_denial(c).unwrap())
    } else if legacy_fallback(c) {
        if has_shell_syntax(command) {
            ShellGateView::Denied(
                DenialView::UnsafeShellSyntax {
                    reason: "shell operators/expansions are not allowed under legacy allowed_commands"@,
                },
            )
        } else {
            match simple_command(command) {
                None => ShellGateView::Denied(
                    DenialView::UnsafeShellSyntax {
                        reason: "command could not be parsed as a simple command"@,
                    },
                ),
                Some((prog, args)) => if legacy_allows_command(c, prog, args) {
                    ShellGateView::FastPath(prog, args)
                } else {
                    ShellGateView::Denied(DenialView::LegacyCommandNotAllowed { command })
                },
            }
        }
    } else if trim_spec(command).len() == 0 {
        ShellGateView::Denied(DenialView::UnsafeShellSyntax { reason: "empty command"@ })
    } else {
        ShellGateView::Shell
    }
}

/// Effective timeout in milliseconds: with a configured limit, the request
/// can only shrink it (`0` or absent requests keep the limit); without one
/// (`0`), a non-zero request applies and otherwise there is no timeout.
pub open spec fn effective_timeout_spec(cfg: u64, req: Option<u64>) -> Option<u64> {
    if cfg == 0 {
        match req {
            Some(r) => if r != 0 { Some(r) } else { None },
            None => None,
        }
    } else {
        match req {
            Some(r) => if r != 0 && r < cfg { Some(r) } else { Some(cfg) },
            None => Some(cfg),
        }
    }
}


// ---------------------------------------------------------------------------
// Policy decisions (executable)
// ---------------------------------------------------------------------------
/// `None` for `Ok`, the denial's view for `Err`.
pub open spec fn denial_of(r: Result<(), PolicyDenial>) -> Option<DenialView> {
    match r {
        Ok(_) => None,
        Err(d) => Some(d@),
    }
}

/// Rejects program names that cannot be plain executable names (see
/// [`program_syntax_error`]).
pub fn validate_program_syntax(program: &str) -> (r: Result<(), PolicyDenial>)
    ensures
        denial_of(r) == match program_syntax_error(program@) {
            Some(reason) => Some(DenialView::InvalidProgram { program: program@, reason }),
            None => None,
        },
{
    match program_syntax_reason(program) {
        Some(reason) => Err(PolicyDenial::InvalidProgram { program: String::from_str(program), reason }),
        None => Ok(()),
    }
}

/// Canonical equality of two absolute paths; `None` when either side
/// cannot be canonicalized.
pub fn canonical_paths_equal(a: &str, b: &str, facts: &[PathFact]) -> (r: Option<bool>)
    ensures
        r == canonical_paths_equal_spec(facts@, a@, b@),
{
    match (canonical(facts, a), canonical(facts, b)) {
        (Some(x), Some(y)) => Some(paths_equal(x.as_str(), y.as_str())),
        _ => None,
    }
}

/// Exact program allow check against `allowed` (see [`rule_allows`]).
pub fn is_program_allowed(program: &str, allowed: &Vec<String>, facts: &[PathFact]) -> (b: bool)
    ensures
        b == program_in_allowlist(facts@, allowed@, program@),
{
    let prog_abs = path_is_absolute(program);
    let mut i: usize = 0;
    while i < allowed.len()
        invariant
            i <= allowed.len(),
            prog_abs == is_absolute(program@),
            forall|j: int| 0 <= j < i ==> !rule_allows(facts@, #[trigger] allowed@[j]@, program@),
        decreases allowed.len() - i,
    {
        let rule = &allowed[i];
        let both_absolute = path_is_absolute(rule.as_str()) && prog_abs;
        let ok = if str_eq(rule.as_str(), program) {
            if !both_absolute {
                true
            } else {
                match canonical_paths_equal(rule.as_str(), program, facts) {
                    Some(false) => false,
                    _ => true,
                }
            }
        } else {
            both_absolute && match canonical_paths_equal(rule.as_str(), program, facts) {
                Some(true) => true,
                _ => false,
            }
        };
        if ok {
            assert(rule_allows(facts@, allowed@[i as int]@, program@));
            return true;
        }
        i += 1;
    }
    false
}

/// Keys of `env` not listed in `allowed`, in order.
pub fn disallowed_env_keys(env: &Vec<(String, String)>, allowed: &Vec<String>) -> (out: Vec<String>)
    ensures
        str_views(out@) == disallowed_keys(env_keys(env@), str_views(allowed@)),
{
    let mut out: Vec<String> = Vec::new();
    let mut i: usize = 0;
    while i < env.len()
        invariant
            i <= env.len(),
            str_views(out@) == disallowed_keys(env_keys(env@).take(i as int), str_views(allowed@)),
        decreases env.len() - i,
    {
        let key = &env[i].0;
        assert(env_keys(env@).take(i + 1).drop_last() =~= env_keys(env@).take(i as int));
        assert(env_keys(env@).take(i + 1).last() == key@);
        let mut found = false;
        let mut k: usize = 0;
        while k < allowed.len()
            invariant
                k <= allowed.len(),
                found == exists|j: int| 0 <= j < k && str_views(allowed@)[j] == key@,
            decreases allowed.len() - k,
        {
            assert(str_views(allowed@)[k as int] == allowed@[k as int]@);
            if str_eq(allowed[k].as_str(), key.as_str()) {
                found = true;
            }
            k += 1;
        }
        assert(found == str_views(allowed@).contains(key@));
        if !found {
            let ghost prev = out@;
            let kk = key.clone();
            out.push(kk);
            assert(str_views(out@) =~= str_views(prev).push(key@));
        }
        i += 1;
    }
    assert(env_keys(env@).take(env.len() as int) =~= env_keys(env@));
    out
}

/// Execution policy over one application configuration.
#[derive(Debug, Clone)]
pub struct ExecutionPolicy {
    config: AppConfig,
}

impl ExecutionPolicy {
    /// The configuration this policy decides on.
    pub closed spec fn cfg(&self) -> AppConfig {
        self.config
    }

    /// A policy over `config`.
    pub fn new(config: AppConfig) -> (p: Self)
        ensures
            p.cfg() == config,
    {
        ExecutionPolicy { config }
    }

    /// True when the `[execution]` section is the authority rather than the
    /// legacy `allowed_commands` fallback.
    pub fn uses_new_policy(&self) -> (b: bool)
        ensures
            b == (self.cfg().execution_configured || !legacy_fallback(self.cfg())),
    {
        self.config.execution_configured || !self.uses_legacy_fallback()
    }

    /// True when the legacy `allowed_commands` list is the authority.
    pub fn uses_legacy_fallback(&self) -> (b: bool)
        ensures
            b == legacy_fallback(self.cfg()),
    {
        !self.config.execution_configured && self.config.allowed_commands.len() > 0
    }

    /// Mode applied to structured requests.
    pub fn effective_mode(&self) -> (m: ExecutionMode)
        ensures
            m == effective_mode_spec(self.cfg()),
    {
        if self.uses_legacy_fallback() {
            ExecutionMode::Allowlist
        } else {
            self.config.execution.mode
        }
    }

    /// Allowlist stage for `program` (see [`program_denial`]).
    #[verifier::loop_isolation(false)]
    pub fn check_program_allowed(&self, program: &str, facts: &[PathFact]) -> (r: Result<(), PolicyDenial>)
        ensures
            denial_of(r) == program_denial(self.cfg(), facts@, program@),
    {
        if self.uses_legacy_fallback() {
            let entries = &self.config.allowed_commands;
            let mut i: usize = 0;
            while i < entries.len()
                invariant
                    i <= entries.len(),
                    entries@ == self.cfg().allowed_commands@,
                    forall|j: int|
                        0 <= j < i ==> !(match simple_command(#[trigger] entries@[j]@) {
                            Some((p, _)) => p == program@,
                            None => false,
                        }),
                decreases entries.len() - i,
            {
                if let Some((prog, _)) = parse_simple_command(entries[i].as_str()) {
                    if str_eq(prog.as_str(), program) {
                        assert(match simple_command(entries@[i as int]@) {
                            Some((p, _)) => p == program@,
                            None => false,
                        });
                        assert(entries@[i as int] == self.cfg().allowed_commands@[i as int]);
                        assert(legacy_allows_program(self.cfg(), program@));
                        return Ok(());
                    }
                }
                i += 1;
            }
            return Err(PolicyDenial::ProgramNotAllowed { program: String::from_str(program) });
        }
        match self.config.execution.mode {
            ExecutionMode::Unrestricted => Ok(()),
            ExecutionMode::Deny => Err(PolicyDenial::GlobalDeny),
            ExecutionMode::Allowlist => {
                if is_program_allowed(program, &self.config.execution.allowed_programs, facts) {
                    Ok(())
                } else {
                    Err(PolicyDenial::ProgramNotAllowed { program: String::from_str(program) })
                }
            },
        }
    }

    /// Whether shell tools (`execute_bash` / `execute_shell`) may run.
    pub fn is_shell_allowed(&self) -> (b: bool)
        ensures
            b == shell_allowed_spec(self.cfg()),
    {
        if self.uses_legacy_fallback() {
            return true;
        }
        self.config.execution.allow_shell
    }

    /// Shell gate (see [`shell_denial`]).
    pub fn check_shell(&self) -> (r: Result<(), PolicyDenial>)
        ensures
            denial_of(r) == shell_denial(self.cfg()),
    {
        if self.config.execution.mode == ExecutionMode::Deny && !self.uses_legacy_fallback() {
            return Err(PolicyDenial::GlobalDeny);
        }
        if self.is_shell_allowed() {
            Ok(())
        } else {
            Err(PolicyDenial::ShellDisabled)
        }
    }

    /// Legacy `execute_bash` gate: shell policy plus allowlist match.
    /// Returns the shell-free fast path when the command is a simple
    /// command admitted by a legacy entry (see [`legacy_shell_gate`]).
    #[verifier::loop_isolation(false)]
    pub fn check_legacy_shell_command(&self, command: &str) -> (r: Result<Option<ProcessRequest>, PolicyDenial>)
        ensures
            match r {
                Err(d) => legacy_shell_gate(self.cfg(), command@) == ShellGateView::Denied(d@),
                Ok(Some(req)) => {
                    &&& legacy_shell_gate(self.cfg(), command@) == ShellGateView::FastPath(
                        req.program@,
                        str_views(req.args@),
                    )
                    &&& req.cwd.is_none()
                    &&& req.env@.len() == 0
                    &&& req.timeout_ms.is_none()
                },
                Ok(None) => legacy_shell_gate(self.cfg(), command@) == ShellGateView::Shell,
            },
    {
        self.check_shell()?;
        if self.uses_legacy_fallback() {
            if contains_shell_syntax(command) {
                return Err(PolicyDenial::UnsafeShellSyntax {
                    reason: String::from_str(
                        "shell operators/expansions are not allowed under legacy allowed_commands",
                    ),
                });
            }
            let (prog, args) = match parse_simple_command(command) {
                Some(pa) => pa,
                None => {
                    return Err(PolicyDenial::UnsafeShellSyntax {
                        reason: String::from_str("command could not be parsed as a simple command"),
                    });
                },
            };
            let entries = &self.config.allowed_commands;
            let mut i: usize = 0;
            while i < entries.len()
                invariant
                    i <= entries.len(),
                    entries@ == self.cfg().allowed_commands@,
                    forall|j: int|
                        0 <= j < i ==> !(match simple_command(#[trigger] entries@[j]@) {
                            Some((p, a)) => p == prog@ && a.len() <= str_views(args@).len()
                                && str_views(args@).subrange(0, a.len() as int) == a,
                            None => false,
                        }),
                decreases entries.len() - i,
            {
                if let Some((allowed_prog, allowed_args)) = parse_simple_command(entries[i].as_str()) {
                    if str_eq(allowed_prog.as_str(), prog.as_str()) && args.len() >= allowed_args.len()
                        && strings_prefix(&allowed_args, &args) {
                        assert(entries@[i as int] == self.cfg().allowed_commands@[i as int]);
                        assert(legacy_allows_command(self.cfg(), prog@, str_views(args@)));
                        return Ok(Some(ProcessRequest {
                            program: prog,
                            args,
                            cwd: None,
                            env: Vec::new(),
                            timeout_ms: None,
                        }));
                    }
                }
                i += 1;
            }
            return Err(PolicyDenial::LegacyCommandNotAllowed { command: String::from_str(command) });
        }
        let cs = chars_of(command);
        let trimmed = trim_chars(cs.as_slice());
        if trimmed.len() == 0 {
            return Err(PolicyDenial::UnsafeShellSyntax { reason: String::from_str("empty command") });
        }
        Ok(None)
    }

    /// Resolves the effective working directory (defaults to the project
    /// root).
    pub fn resolve_cwd(&self, cwd: &Option<String>) -> (p: String)
        ensures
            p@ == resolve_cwd_spec(self.cfg().project_root@, opt_view(*cwd)),
    {
        match cwd {
            Some(p) => if path_is_absolute(p.as_str()) {
                p.clone()
            } else {
                join(self.config.project_root.as_str(), p.as_str())
            },
            None => self.config.project_root.clone(),
        }
    }

    /// Working-directory stage (see [`cwd_denial`]).
    #[verifier::loop_isolation(false)]
    pub fn check_cwd(&self, cwd: &Option<String>, facts: &[PathFact]) -> (r: Result<(), PolicyDenial>)
        ensures
            denial_of(r) == cwd_denial(self.cfg(), facts@, opt_view(*cwd)),
    {
        let resolved = self.resolve_cwd(cwd);
        let fact = match lookup_fact(facts, resolved.as_str()) {
            Some(f) => f,
            None => {
                return Err(PolicyDenial::CwdNotAllowed {
                    cwd: resolved,
                    reason: String::from_str("directory does not exist"),
                });
            },
        };
        if !fact.exists {
            return Err(PolicyDenial::CwdNotAllowed {
                cwd: resolved,
                reason: String::from_str("directory does not exist"),
            });
        }
        if !fact.is_dir {
            return Err(PolicyDenial::CwdNotAllowed {
                cwd: resolved,
                reason: String::from_str("not a directory"),
            });
        }
        let canon = match &fact.canonical {
            Some(c) => c,
            None => {
                return Err(PolicyDenial::CwdNotAllowed {
                    cwd: resolved,
                    reason: String::from_str("could not canonicalize path"),
                });
            },
        };
        let ghost roots = cwd_roots(self.cfg());
        let len = self.config.allowed_paths.len();
        let mut i: usize = 0;
        loop
            invariant
                i <= len,
                len + 1 == roots.len(),
                len == self.cfg().allowed_paths@.len(),
                roots == cwd_roots(self.cfg()),
                roots[0] == self.cfg().project_root@,
                forall|k: int| 1 <= k <= len ==> roots[k] == self.cfg().allowed_paths@[k - 1]@,
                forall|j: int|
                    0 <= j < i ==> !path_starts_with(canon@, canonical_root(facts@, #[trigger] roots[j])),
            decreases len - i,
        {
            let root: &String = if i == 0 {
                &self.config.project_root
            } else {
                &self.config.allowed_paths[i - 1]
            };
            let canon_root = match canonical(facts, root.as_str()) {
                Some(x) => x,
                None => root.clone(),
            };
            if path_has_prefix(canon.as_str(), canon_root.as_str()) {
                assert(path_starts_with(canon@, canonical_root(facts@, roots[i as int])));
                assert(under_some_root(self.cfg(), facts@, canon@));
                return Ok(());
            }
            assert(!path_starts_with(canon@, canonical_root(facts@, roots[i as int])));
            if i >= len {
                break;
            }
            i += 1;
        }
        Err(PolicyDenial::CwdNotAllowed {
            cwd: resolved,
            reason: String::from_str("outside project root and allowed_paths"),
        })
    }

    /// Environment stage (see [`env_denial`]).
    pub fn check_env(&self, env: &Vec<(String, String)>) -> (r: Result<(), PolicyDenial>)
        ensures
            denial_of(r) == env_denial(self.cfg(), env@),
    {
        if env.len() == 0 {
            return Ok(());
        }
        let allowlist = self.uses_legacy_fallback() || self.config.execution.mode
            == ExecutionMode::Allowlist;
        if !allowlist {
            return Ok(());
        }
        let bad = disallowed_env_keys(env, &self.config.execution.allowed_env);
        if bad.len() == 0 {
            Ok(())
        } else {
            Err(PolicyDenial::EnvNotAllowed { keys: bad })
        }
    }

    /// Checks a structured process request (see [`process_denial`]).
    pub fn check_process(&self, req: &ProcessRequest, facts: &[PathFact]) -> (r: Result<(), PolicyDenial>)
        ensures
            denial_of(r) == process_denial(self.cfg(), facts@, *req),
    {
        if self.effective_mode() == ExecutionMode::Deny {
            return Err(PolicyDenial::GlobalDeny);
        }
        validate_program_syntax(req.program.as_str())?;
        self.check_program_allowed(req.program.as_str(), facts)?;
        self.check_cwd(&req.cwd, facts)?;
        self.check_env(&req.env)?;
        Ok(())
    }

    /// Effective timeout in milliseconds, `None` meaning unlimited (see
    /// [`effective_timeout_spec`]).
    pub fn effective_timeout(&self, request_ms: Option<u64>) -> (t: Option<u64>)
        ensures
            t == effective_timeout_spec(self.cfg().command_timeout_ms, request_ms),
    {
        let cfg = self.config.command_timeout_ms;
        if cfg == 0 {
            match request_ms {
                Some(r) => if r != 0 { Some(r) } else { None },
                None => None,
            }
        } else {
            match request_ms {
                Some(r) => if r != 0 && r < cfg { Some(r) } else { Some(cfg) },
                None => Some(cfg),
            }
        }
    }
}


/// Whether `prefix` is a prefix of `items` (string-wise).
pub fn strings_prefix(prefix: &Vec<String>, items: &Vec<String>) -> (b: bool)
    requires
        prefix.len() <= items.len(),
    ensures
        b == (str_views(items@).subrange(0, prefix@.len() as int) == str_views(prefix@)),
{
    let mut i: usize = 0;
    while i < prefix.len()
        invariant
            i <= prefix.len() <= items.len(),
            forall|j: int| 0 <= j < i ==> str_views(items@)[j] == str_views(prefix@)[j],
        decreases prefix.len() - i,
    {
        if !str_eq(prefix[i].as_str(), items[i].as_str()) {
            assert(str_views(items@).subrange(0, prefix@.len() as int)[i as int] != str_views(prefix@)[i as int]);
            return false;
        }
        i += 1;
    }
    assert(str_views(items@).subrange(0, prefix@.len() as int) =~= str_views(prefix@));
    true
}

} // verus!
