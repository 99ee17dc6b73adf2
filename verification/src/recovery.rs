//! Recovery from failed tool calls: what kind of failure a message
//! reports, and what a fix strategy makes of it.
use crate::config::AppConfig;
use crate::messages::opt_str;
use crate::policy::{join_strings, join_with, str_views};
use crate::text::{
    bufs_view, chars_of, contains_seq, lines_of, lines_spec, push_str, starts_with, str_contains,
    str_eq, string_from,
};
use vstd::prelude::*;
use vstd::string::*;

verus! {

/// Why a patch could not be applied.
#[derive(Debug, Clone, Copy, PartialEq, Eq, Structural)]
pub enum PatchErrorKind {
    ContextMismatch,
    InvalidFormat,
    FileNotFound,
    PermissionDenied,
    LineNumberMismatch,
}

/// A diagnosed failure.
#[derive(Debug, Clone)]
pub enum ErrorType {
    PatchApplicationError {
        error_kind: PatchErrorKind,
        file_path: String,
        expected_context: Option<String>,
        actual_context: Option<String>,
        patch_content: String,
    },
    CompilationError {
        language: String,
        error_message: String,
        file_path: String,
        line_number: Option<u32>,
        column_number: Option<u32>,
    },
    TestFailure { test_framework: String, test_name: String, failure_message: String, file_path: String },
    RuntimeError { error_message: String, stack_trace: Option<String>, file_path: String },
    SyntaxError { file_path: String, error_message: String, line_number: u32, column_number: Option<u32> },
}

/// What a fix attempt came to.
#[derive(Debug)]
pub enum FixResult {
    Success { message: String },
    PatchAdjustment { new_patch: String },
    RequiresHumanIntervention { message: String },
    Failed { reason: String },
}

/// Value of a [`FixResult`].
pub enum FixResultView {
    Success(Seq<char>),
    PatchAdjustment(Seq<char>),
    RequiresHumanIntervention(Seq<char>),
    Failed(Seq<char>),
}

impl View for FixResult {
    type V = FixResultView;

    open spec fn view(&self) -> FixResultView {
        match self {
            FixResult::Success { message } => FixResultView::Success(message@),
            FixResult::PatchAdjustment { new_patch } => FixResultView::PatchAdjustment(new_patch@),
            FixResult::RequiresHumanIntervention { message } => FixResultView::RequiresHumanIntervention(
                message@,
            ),
            FixResult::Failed { reason } => FixResultView::Failed(reason@),
        }
    }
}

/// Where a failure came from and what it involved.
#[derive(Debug, Clone)]
pub struct ErrorContext {
    /// The failing tool (`apply_patch`, `execute_bash`, ...).
    pub error_source: String,
    pub file_path: String,
    /// The patch, for patch failures.
    pub patch_content: String,
    /// The command, for command failures.
    pub command: String,
    /// The command's output.
    pub output: String,
}

// ---------------------------------------------------------------------------
// Diagnosis
// ---------------------------------------------------------------------------
/// Kind of a patch failure by its message: mismatched context lines,
/// mismatched line numbers, a missing file, a read-only file, or else an
/// invalid patch.
pub open spec fn patch_error_kind(msg: Seq<char>) -> PatchErrorKind {
    if contains_seq(msg, "context lines do not match"@) {
        PatchErrorKind::ContextMismatch
    } else if contains_seq(msg, "line numbers do not match"@) {
        PatchErrorKind::LineNumberMismatch
    } else if contains_seq(msg, "File does not exist"@) {
        PatchErrorKind::FileNotFound
    } else if contains_seq(msg, "read-only"@) || contains_seq(msg, "no write permissions"@) {
        PatchErrorKind::PermissionDenied
    } else {
        PatchErrorKind::InvalidFormat
    }
}

/// Context lines of a patch (those starting with a space, but not with
/// ` @@ `), without their leading space.
pub open spec fn context_lines(ls: Seq<Seq<char>>) -> Seq<Seq<char>>
    decreases ls.len(),
{
    if ls.len() == 0 {
        Seq::empty()
    } else {
        let l = ls.last();
        if starts_with(l, " "@) && !starts_with(l, " @@ "@) {
            context_lines(ls.drop_last()).push(l.drop_first())
        } else {
            context_lines(ls.drop_last())
        }
    }
}

/// The context a patch expects: its context lines joined by line breaks,
/// `None` when it has none.
pub open spec fn expected_context_spec(patch: Seq<char>) -> Option<Seq<char>> {
    let c = context_lines(lines_spec(patch));
    if c.len() == 0 {
        None
    } else {
        Some(join_with(c, "\n"@))
    }
}

/// The diagnosis of a failed patch: its kind (see [`patch_error_kind`]),
/// and for mismatched context the context the patch expects and the file's
/// current content.
pub open spec fn patch_diagnosis_holds(
    r: ErrorType,
    msg: Seq<char>,
    file_path: Seq<char>,
    patch: Seq<char>,
    current: Option<Seq<char>>,
) -> bool {
    match r {
        ErrorType::PatchApplicationError { error_kind, file_path: f, expected_context, actual_context, patch_content } => {
            &&& error_kind == patch_error_kind(msg)
            &&& f@ == file_path
            &&& patch_content@ == patch
            &&& error_kind == PatchErrorKind::ContextMismatch ==> opt_str(expected_context)
                == expected_context_spec(patch) && opt_str(actual_context) == current
            &&& error_kind != PatchErrorKind::ContextMismatch ==> expected_context.is_none()
                && actual_context.is_none()
        },
        _ => false,
    }
}

/// Diagnoses failures.
pub struct DiagnosisEngine;

impl DiagnosisEngine {
    /// The context lines a patch expects (see [`expected_context_spec`]).
    pub fn extract_expected_context(patch_content: &str) -> (r: Option<String>)
        ensures
            opt_str(r) == expected_context_spec(patch_content@),
    {
        let cs = chars_of(patch_content);
        let ls = lines_of(cs.as_slice());
        let ghost lv = bufs_view(ls@);
        let space = chars_of(" ");
        let hunk = chars_of(" @@ ");
        let mut kept: Vec<String> = Vec::new();
        let mut i: usize = 0;
        assert(str_views(kept@) =~= context_lines(lv.take(0)));
        while i < ls.len()
            invariant
                i <= ls.len(),
                lv == bufs_view(ls@),
                space@ == " "@,
                hunk@ == " @@ "@,
                str_views(kept@) == context_lines(lv.take(i as int)),
            decreases ls.len() - i,
        {
            assert(lv.take(i + 1).drop_last() == lv.take(i as int));
            assert(lv.take(i + 1).last() == ls@[i as int]@);
            let l = &ls[i];
            proof {
                reveal_strlit(" ");
            }
            if crate::text::has_prefix(l.as_slice(), space.as_slice()) && !crate::text::has_prefix(
                l.as_slice(),
                hunk.as_slice(),
            ) {
                let rest = crate::text::slice_to_vec(l.as_slice(), 1, l.len());
                assert(rest@ == l@.drop_first());
                let ghost prev = str_views(kept@);
                let s = string_from(rest.as_slice());
                kept.push(s);
                assert(str_views(kept@) =~= prev.push(s@));
            }
            i += 1;
        }
        assert(lv.take(ls.len() as int) == lv);
        if kept.len() == 0 {
            None
        } else {
            Some(join_strings(&kept, "\n"))
        }
    }

    /// Diagnoses a failed patch from its error message (see
    /// [`patch_diagnosis_holds`]); `current_content` is the file's content
    /// when it could be read.
    pub fn diagnose_apply_patch_error(
        &self,
        error_message: &str,
        file_path: &str,
        patch_content: &str,
        current_content: Option<String>,
    ) -> (r: ErrorType)
        ensures
            patch_diagnosis_holds(r, error_message@, file_path@, patch_content@, opt_str(current_content)),
    {
        let kind = if str_contains(error_message, "context lines do not match") {
            PatchErrorKind::ContextMismatch
        } else if str_contains(error_message, "line numbers do not match") {
            PatchErrorKind::LineNumberMismatch
        } else if str_contains(error_message, "File does not exist") {
            PatchErrorKind::FileNotFound
        } else if str_contains(error_message, "read-only") || str_contains(
            error_message,
            "no write permissions",
        ) {
            PatchErrorKind::PermissionDenied
        } else {
            PatchErrorKind::InvalidFormat
        };
        let (expected, actual) = match kind {
            PatchErrorKind::ContextMismatch => (
                Self::extract_expected_context(patch_content),
                current_content,
            ),
            _ => (None, None),
        };
        ErrorType::PatchApplicationError {
            error_kind: kind,
            file_path: String::from_str(file_path),
            expected_context: expected,
            actual_context: actual,
            patch_content: String::from_str(patch_content),
        }
    }
}

// ---------------------------------------------------------------------------
// Fix strategies
// ---------------------------------------------------------------------------
/// The error text of `diffy::Patch::from_str` on `patch`, or `None` when it
/// parses.
pub uninterp spec fn diffy_parse_error(patch: Seq<char>) -> Option<Seq<char>>;

/// The unified diff `diffy::create_patch` makes from `original` to
/// `modified`, as text.
pub uninterp spec fn diffy_unified_diff(original: Seq<char>, modified: Seq<char>) -> Seq<char>;

/// Reading state of [`header_scan`]: whether the current line is a hunk
/// header (starts with `@@`), the position in the line, the length of the
/// current run of ASCII digits, and whether a header held a run of ten or
/// more digits.
pub open spec fn header_scan(s: Seq<char>, n: nat) -> (bool, nat, nat, bool)
    decreases n,
{
    if n == 0 || n > s.len() {
        (false, 0, 0, false)
    } else {
        let prev = header_scan(s, (n - 1) as nat);
        let c = s[n - 1];
        if c == '\n' {
            (false, 0, 0, prev.3)
        } else {
            let header = if prev.1 == 1 {
                s[n - 2] == '@' && c == '@'
            } else {
                prev.0
            };
            let run: nat = if '0' <= c && c <= '9' { prev.2 + 1 } else { 0 };
            (header, prev.1 + 1, run, prev.3 || (header && run >= 10))
        }
    }
}

/// Whether some hunk header line (a line starting with `@@`) of a patch
/// holds a number of ten or more digits.
pub open spec fn oversized_hunk_numbers(patch: Seq<char>) -> bool {
    header_scan(patch, patch.len()).3
}

/// Tells whether a patch has a hunk header with a number of ten or more
/// digits (see [`oversized_hunk_numbers`]).
pub fn has_oversized_hunk_numbers(patch: &str) -> (b: bool)
    ensures
        b == oversized_hunk_numbers(patch@),
{
    let cs = crate::text::chars_of(patch);
    let mut header = false;
    let mut pos: usize = 0;
    let mut run: usize = 0;
    let mut found = false;
    let mut i: usize = 0;
    while i < cs.len()
        invariant
            i <= cs.len(),
            cs@ == patch@,
            header_scan(cs@, i as nat) == (header, pos as nat, run as nat, found),
            pos <= i,
            run <= i,
        decreases cs.len() - i,
    {
        let c = cs[i];
        if c == '\n' {
            header = false;
            pos = 0;
            run = 0;
        } else {
            if pos == 1 {
                header = cs[i - 1] == '@' && c == '@';
            }
            run = if '0' <= c && c <= '9' { run + 1 } else { 0 };
            pos = pos + 1;
            found = found || (header && run >= 10);
        }
        i += 1;
    }
    found
}

/// Parses a patch (`diffy::Patch::from_str`): the result is named by
/// [`diffy_parse_error`]; an error's text starts with `error parsing
/// patch: `, as `ParsePatchError`'s `Display` writes it. The parser adds a
/// hunk's start and length unchecked (`HunkRange::end`), so a patch whose
/// hunk headers hold numbers of ten or more digits is not handed to it:
/// below that every start and length is under 10^9, and their sum fits a
/// `usize` on every platform.
#[verifier::external_body]
fn patch_parse_error(patch: &str) -> (r: Option<String>)
    requires
        !oversized_hunk_numbers(patch@),
    ensures
        opt_str(r) == diffy_parse_error(patch@),
        r.is_some() ==> starts_with(r.unwrap()@, "error parsing patch: "@),
{
    match diffy::Patch::from_str(patch) {
        Ok(_) => None,
        Err(e) => Some(e.to_string()),
    }
}

/// Why recovery refuses a patch whose hunk headers hold oversized numbers.
pub const OVERSIZED_HUNK_NUMBERS: &'static str = "hunk line numbers out of range";

/// Renders the unified diff between two texts (`diffy::create_patch`,
/// then `Display`); the result is named by [`diffy_unified_diff`].
#[verifier::external_body]
fn unified_diff(original: &str, modified: &str) -> (r: String)
    ensures
        r@ == diffy_unified_diff(original@, modified@),
{
    diffy::create_patch(original, modified).to_string()
}

/// A way to fix some failures.
pub trait FixStrategy {
    /// Whether this strategy applies to `error`.
    fn can_handle(&self, error: &ErrorType) -> bool;
}

/// Fixes failed patches.
pub struct PatchFixStrategy;

impl FixStrategy for PatchFixStrategy {
    /// Patch failures only.
    fn can_handle(&self, error: &ErrorType) -> (b: bool)
        ensures
            b == (error is PatchApplicationError),
    {
        match error {
            ErrorType::PatchApplicationError { .. } => true,
            _ => false,
        }
    }
}

/// What recovering a failed patch comes to. For mismatched context: a
/// request for help when the current content is unknown (the diagnosed one
/// first, else `file_content`); a failure when the patch does not parse
/// (or, before parsing, when a hunk header holds a number of ten or more
/// digits, see [`oversized_hunk_numbers`]);
/// the diff from the current content to `fuzzed` (the outcome of applying
/// the patch with fuzz to it) when that worked, else a request for help.
/// Mismatched line numbers need help; a missing file, a read-only file and
/// an invalid patch fail. Other failures are not handled.
pub open spec fn patch_fix_spec(
    error: ErrorType,
    file_content: Option<Seq<char>>,
    fuzzed: Result<Seq<char>, Seq<char>>,
) -> Result<FixResultView, Seq<char>> {
    match error {
        ErrorType::PatchApplicationError { error_kind, file_path, actual_context, patch_content, .. } => {
            let f = file_path@;
            match error_kind {
                PatchErrorKind::ContextMismatch => {
                    let current = match opt_str(actual_context) {
                        Some(c) => Some(c),
                        None => file_content,
                    };
                    match current {
                        None => Ok(
                            FixResultView::RequiresHumanIntervention(
                                "Context mismatch detected in '"@ + f
                                    + "', and current file content could not be read."@,
                            ),
                        ),
                        Some(cur) => match (if oversized_hunk_numbers(patch_content@) {
                            Some(OVERSIZED_HUNK_NUMBERS@)
                        } else {
                            diffy_parse_error(patch_content@)
                        }) {
                            Some(e) => Ok(
                                FixResultView::Failed("Patch parse failed during recovery: "@ + e),
                            ),
                            None => match fuzzed {
                                Ok(patched) => Ok(
                                    FixResultView::PatchAdjustment(diffy_unified_diff(cur, patched)),
                                ),
                                Err(e) => Ok(
                                    FixResultView::RequiresHumanIntervention(
                                        "Context mismatch recovery failed for '"@ + f + "': "@ + e,
                                    ),
                                ),
                            },
                        },
                    }
                },
                PatchErrorKind::LineNumberMismatch => Ok(
                    FixResultView::RequiresHumanIntervention(
                        "Line numbers in patch do not match current file '"@ + f
                            + "'. Please regenerate the patch with current file content."@,
                    ),
                ),
                PatchErrorKind::FileNotFound => Ok(
                    FixResultView::Failed("File '"@ + f + "' does not exist. Cannot apply patch."@),
                ),
                PatchErrorKind::PermissionDenied => Ok(
                    FixResultView::Failed(
                        "No permission to write to file '"@ + f + "'. Check file permissions."@,
                    ),
                ),
                PatchErrorKind::InvalidFormat => Ok(
                    FixResultView::Failed(
                        "Patch format is invalid for file '"@ + f
                            + "'. Please check the patch format."@,
                    ),
                ),
            }
        },
        _ => Err("This strategy cannot handle this error type"@),
    }
}

/// View of a fix outcome.
pub open spec fn fix_outcome_view(r: Result<FixResult, String>) -> Result<FixResultView, Seq<char>> {
    match r {
        Ok(f) => Ok(f@),
        Err(e) => Err(e@),
    }
}

/// View of an outcome with a text on both sides.
pub open spec fn text_result(r: Result<String, String>) -> Result<Seq<char>, Seq<char>> {
    match r {
        Ok(s) => Ok(s@),
        Err(e) => Err(e@),
    }
}

fn prefixed(prefix: &str, f: &str) -> (s: String)
    ensures
        s@ == prefix@ + f@,
{
    let mut s = String::from_str(prefix);
    push_str(&mut s, f);
    s
}

fn quoted(prefix: &str, f: &str, suffix: &str) -> (s: String)
    ensures
        s@ == prefix@ + f@ + suffix@,
{
    let mut s = String::from_str(prefix);
    push_str(&mut s, f);
    push_str(&mut s, suffix);
    s
}

impl PatchFixStrategy {
    /// Attempts to fix a failure (see [`patch_fix_spec`]).
    pub fn attempt_fix(
        &self,
        error: &ErrorType,
        file_content: Option<String>,
        fuzzed: Result<String, String>,
    ) -> (r: Result<FixResult, String>)
        ensures
            fix_outcome_view(r) == patch_fix_spec(*error, opt_str(file_content), text_result(fuzzed)),
    {
        match error {
            ErrorType::PatchApplicationError { error_kind, file_path, actual_context, patch_content, .. } => {
                let f = file_path.as_str();
                match error_kind {
                    PatchErrorKind::ContextMismatch => {
                        let current = match actual_context {
                            Some(c) => Some(c.clone()),
                            None => file_content,
                        };
                        match current {
                            None => Ok(
                                FixResult::RequiresHumanIntervention {
                                    message: quoted(
                                        "Context mismatch detected in '",
                                        f,
                                        "', and current file content could not be read.",
                                    ),
                                },
                            ),
                            Some(cur) => match (if has_oversized_hunk_numbers(patch_content.as_str()) {
                                Some(String::from_str(OVERSIZED_HUNK_NUMBERS))
                            } else {
                                patch_parse_error(patch_content.as_str())
                            }) {
                                Some(e) => Ok(
                                    FixResult::Failed {
                                        reason: prefixed("Patch parse failed during recovery: ", e.as_str()),
                                    },
                                ),
                                None => match fuzzed {
                                    Ok(patched) => Ok(
                                        FixResult::PatchAdjustment {
                                            new_patch: unified_diff(cur.as_str(), patched.as_str()),
                                        },
                                    ),
                                    Err(e) => {
                                        let mut m = quoted("Context mismatch recovery failed for '", f, "': ");
                                        push_str(&mut m, e.as_str());
                                        Ok(FixResult::RequiresHumanIntervention { message: m })
                                    },
                                },
                            },
                        }
                    },
                    PatchErrorKind::LineNumberMismatch => Ok(
                        FixResult::RequiresHumanIntervention {
                            message: quoted(
                                "Line numbers in patch do not match current file '",
                                f,
                                "'. Please regenerate the patch with current file content.",
                            ),
                        },
                    ),
                    PatchErrorKind::FileNotFound => Ok(
                        FixResult::Failed {
                            reason: quoted("File '", f, "' does not exist. Cannot apply patch."),
                        },
                    ),
                    PatchErrorKind::PermissionDenied => Ok(
                        FixResult::Failed {
                            reason: quoted("No permission to write to file '", f, "'. Check file permissions."),
                        },
                    ),
                    PatchErrorKind::InvalidFormat => Ok(
                        FixResult::Failed {
                            reason: quoted(
                                "Patch format is invalid for file '",
                                f,
                                "'. Please check the patch format.",
                            ),
                        },
                    ),
                }
            },
            _ => Err(String::from_str("This strategy cannot handle this error type")),
        }
    }
}

// ---------------------------------------------------------------------------
// The recovery tool
// ---------------------------------------------------------------------------
/// Diagnoses failures and hands them to the strategy that can fix them.
pub struct ErrorRecoveryTool {
    config: AppConfig,
    diagnosis_engine: DiagnosisEngine,
    patch_strategy: PatchFixStrategy,
}

/// Outcome of diagnosing a failure reported by `source`: the patch
/// diagnosis for `apply_patch`, an error naming any other source.
pub open spec fn diagnosis_ok(source: Seq<char>) -> bool {
    source == "apply_patch"@
}

impl ErrorRecoveryTool {
    /// The settings the tool was made with.
    pub closed spec fn cfg(&self) -> AppConfig {
        self.config
    }

    /// A recovery tool with the patch strategy.
    pub fn new(config: AppConfig) -> (t: Self)
        ensures
            t.cfg() == config,
    {
        ErrorRecoveryTool { config, diagnosis_engine: DiagnosisEngine, patch_strategy: PatchFixStrategy }
    }

    /// Diagnoses a failure: for source `apply_patch` the patch diagnosis of
    /// the context's file and patch, else an unknown-source error.
    pub fn diagnose_error(&self, error_message: &str, context: &ErrorContext, current_content: Option<String>) -> (r: Result<
        ErrorType,
        String,
    >)
        ensures
            diagnosis_ok(context.error_source@) <==> r.is_ok(),
            r.is_ok() ==> patch_diagnosis_holds(
                r.unwrap(),
                error_message@,
                context.file_path@,
                context.patch_content@,
                opt_str(current_content),
            ),
            r.is_err() ==> r->Err_0@ == "Unknown error source: "@ + context.error_source@,
    {
        if str_eq(context.error_source.as_str(), "apply_patch") {
            Ok(
                self.diagnosis_engine.diagnose_apply_patch_error(
                    error_message,
                    context.file_path.as_str(),
                    context.patch_content.as_str(),
                    current_content,
                ),
            )
        } else {
            Err(prefixed("Unknown error source: ", context.error_source.as_str()))
        }
    }

    /// Recovers from a failure: diagnoses it, then lets the patch strategy
    /// fix it (every diagnosis it makes is a patch failure, which that
    /// strategy handles). `file_content` and `fuzzed` are as for
    /// [`PatchFixStrategy::attempt_fix`].
    pub fn attempt_recovery(
        &self,
        error_message: &str,
        error_context: &ErrorContext,
        file_content: Option<String>,
        fuzzed: Result<String, String>,
    ) -> (r: Result<FixResult, String>)
        ensures
            !diagnosis_ok(error_context.error_source@) ==> fix_outcome_view(r) == Err::<FixResultView, Seq<char>>(
                "Unknown error source: "@ + error_context.error_source@,
            ),
            diagnosis_ok(error_context.error_source@) ==> exists|d: ErrorType|
                patch_diagnosis_holds(
                    d,
                    error_message@,
                    error_context.file_path@,
                    error_context.patch_content@,
                    opt_str(file_content),
                ) && fix_outcome_view(r) == patch_fix_spec(d, opt_str(file_content), text_result(fuzzed)),
    {
        let content_copy = crate::messages::copy_opt(&file_content);
        let d = match self.diagnose_error(error_message, error_context, content_copy) {
            Ok(d) => d,
            Err(e) => {
                return Err(e);
            },
        };
        assert(patch_diagnosis_holds(
            d,
            error_message@,
            error_context.file_path@,
            error_context.patch_content@,
            opt_str(file_content),
        ));
        if self.patch_strategy.can_handle(&d) {
            self.patch_strategy.attempt_fix(&d, file_content, fuzzed)
        } else {
            let mut m = String::from_str("No strategy available to fix this error: ");
            push_str(&mut m, error_message);
            Ok(FixResult::RequiresHumanIntervention { message: m })
        }
    }
}

} // verus!
