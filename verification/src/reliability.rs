//! What the agent is told after a verified write: the check passed, was
//! fixed automatically, or failed (and whether the change was reverted).
use crate::text::{decimal, push_decimal, push_signed_decimal, push_str, signed_decimal};
use crate::ui_rendering::{truncate_string_with_graphemes, truncated_spec};
use vstd::prelude::*;
use vstd::string::*;

verus! {

/// Note appended when the written file passed its check.
pub const PASSED_NOTE: &'static str = "\n    \n    <SYSTEM_NOTE>\n    File modification detected. Verification passed.\n    </SYSTEM_NOTE>";

/// `Option<i32>` as `{:?}` prints it.
pub open spec fn debug_code(c: Option<i32>) -> Seq<char> {
    match c {
        Some(v) => "Some("@ + signed_decimal(v as int) + ")"@,
        None => "None"@,
    }
}

fn push_debug_code(s: &mut String, c: Option<i32>)
    ensures
        final(s)@ == old(s)@ + debug_code(c),
{
    match c {
        Some(v) => {
            let ghost start = s@;
            push_str(s, "Some(");
            push_signed_decimal(s, v as i64);
            push_str(s, ")");
            assert(s@ =~= start + debug_code(c));
        },
        None => push_str(s, "None"),
    }
}

/// How a failed check ends for the change.
#[derive(Debug, Clone, Copy, PartialEq, Eq, Structural)]
pub enum FailureMode {
    /// Strict mode reverted the change.
    Reverted,
    /// Strict mode could not revert the change.
    RevertFailed,
    /// Reverting is off; the agent must fix the change.
    Suppressed,
}

/// Mode of a failed check: no revert unless auto-revert is on; then
/// whether the revert worked.
pub fn failure_mode(auto_revert: bool, reverted: bool) -> (m: FailureMode)
    ensures
        m == (if !auto_revert {
            FailureMode::Suppressed
        } else if reverted {
            FailureMode::Reverted
        } else {
            FailureMode::RevertFailed
        }),
{
    if !auto_revert {
        FailureMode::Suppressed
    } else if reverted {
        FailureMode::Reverted
    } else {
        FailureMode::RevertFailed
    }
}
/// The warning for a failed check: its exit code and output (standard
/// output cut to 1000 columns, standard error to 2000) inside the mode's
/// directive.
pub open spec fn failure_warning_spec(mode: FailureMode, exit_code: Option<i32>, stdout: Seq<char>, stderr: Seq<char>) -> Seq<char> {
    match mode {
        FailureMode::Reverted => "\n    \n    <AUTOMATED_VERIFICATION_FAILURE>\n    The tool execution succeeded, but an automated check FAILED with strict mode enabled.\n    Exit Code: "@ + debug_code(exit_code) + "\n    \n    STDOUT:\n    "@ + truncated_spec(stdout, 1000) + "\n    \n    STDERR:\n    "@
            + truncated_spec(stderr, 2000) + "\n    </AUTOMATED_VERIFICATION_FAILURE>\n    \n    <DIRECTIVE>\n    ⚠️ CRITICAL: Verification failed and your changes have been AUTOMATICALLY REVERTED.\n    The file has been restored to its previous state.\n    \n    1. Analyze the STDERR output above to understand why your code failed.\n    2. You MUST apply a DIFFERENT solution. Do not try the same broken code again.\n    3. Fix the logical error or syntax error that caused the failure.\n    </DIRECTIVE>"@,
        FailureMode::RevertFailed => "\n    \n    <AUTOMATED_VERIFICATION_FAILURE>\n    The tool execution succeeded, but an automated check FAILED.\n    Exit Code: "@ + debug_code(exit_code) + "\n    \n    STDOUT:\n    "@ + truncated_spec(stdout, 1000) + "\n    \n    STDERR:\n    "@
            + truncated_spec(stderr, 2000) + "\n    </AUTOMATED_VERIFICATION_FAILURE>\n    \n    <DIRECTIVE>\n    ⚠️ CRITICAL: Verification failed and automatic revert FAILED.\n    The codebase is potentially in a broken state. You MUST fix this immediately.\n    \n    1. Analyze the STDERR output above.\n    2. Fix the error in the current file state.\n    </DIRECTIVE>"@,
        FailureMode::Suppressed => "\n    \n    <AUTOMATED_VERIFICATION_FAILURE>\n    The tool execution succeeded, but an automated check FAILED.\n    (Auto-revert suppressed to allow fix)\n    Exit Code: "@ + debug_code(exit_code) + "\n    \n    STDOUT:\n    "@ + truncated_spec(stdout, 1000) + "\n    \n    STDERR:\n    "@
            + truncated_spec(stderr, 2000) + "\n    </AUTOMATED_VERIFICATION_FAILURE>\n    \n    <DIRECTIVE>\n    ⚠️ CRITICAL: Verification failed.\n    The codebase is potentially in a broken state. You MUST fix this immediately.\n    Do not proceed with other tasks until this is resolved.\n    \n    1. Analyze the STDERR output above.\n    2. Fix the error in the current file state.\n    </DIRECTIVE>"@,
    }
}

/// The warning for a failed check (see [`failure_warning_spec`]).
pub fn failure_warning(mode: FailureMode, exit_code: Option<i32>, stdout: &str, stderr: &str) -> (w: String)
    ensures
        w@ == failure_warning_spec(mode, exit_code, stdout@, stderr@),
{
    let (a, b, c, d): (&str, &str, &str, &str) = match mode {
            FailureMode::Reverted => ("\n    \n    <AUTOMATED_VERIFICATION_FAILURE>\n    The tool execution succeeded, but an automated check FAILED with strict mode enabled.\n    Exit Code: ", "\n    \n    STDOUT:\n    ", "\n    \n    STDERR:\n    ", "\n    </AUTOMATED_VERIFICATION_FAILURE>\n    \n    <DIRECTIVE>\n    ⚠️ CRITICAL: Verification failed and your changes have been AUTOMATICALLY REVERTED.\n    The file has been restored to its previous state.\n    \n    1. Analyze the STDERR output above to understand why your code failed.\n    2. You MUST apply a DIFFERENT solution. Do not try the same broken code again.\n    3. Fix the logical error or syntax error that caused the failure.\n    </DIRECTIVE>"),
            FailureMode::RevertFailed => ("\n    \n    <AUTOMATED_VERIFICATION_FAILURE>\n    The tool execution succeeded, but an automated check FAILED.\n    Exit Code: ", "\n    \n    STDOUT:\n    ", "\n    \n    STDERR:\n    ", "\n    </AUTOMATED_VERIFICATION_FAILURE>\n    \n    <DIRECTIVE>\n    ⚠️ CRITICAL: Verification failed and automatic revert FAILED.\n    The codebase is potentially in a broken state. You MUST fix this immediately.\n    \n    1. Analyze the STDERR output above.\n    2. Fix the error in the current file state.\n    </DIRECTIVE>"),
            FailureMode::Suppressed => ("\n    \n    <AUTOMATED_VERIFICATION_FAILURE>\n    The tool execution succeeded, but an automated check FAILED.\n    (Auto-revert suppressed to allow fix)\n    Exit Code: ", "\n    \n    STDOUT:\n    ", "\n    \n    STDERR:\n    ", "\n    </AUTOMATED_VERIFICATION_FAILURE>\n    \n    <DIRECTIVE>\n    ⚠️ CRITICAL: Verification failed.\n    The codebase is potentially in a broken state. You MUST fix this immediately.\n    Do not proceed with other tasks until this is resolved.\n    \n    1. Analyze the STDERR output above.\n    2. Fix the error in the current file state.\n    </DIRECTIVE>"),
    };
    let mut w = String::from_str(a);
    push_debug_code(&mut w, exit_code);
    push_str(&mut w, b);
    let o = truncate_string_with_graphemes(stdout, 1000);
    push_str(&mut w, o.as_str());
    push_str(&mut w, c);
    let e = truncate_string_with_graphemes(stderr, 2000);
    push_str(&mut w, e.as_str());
    push_str(&mut w, d);
    w
}

/// Status line shown for a failed check.
pub fn failure_status(mode: FailureMode) -> (s: &'static str)
    ensures
        s@ == match mode {
            FailureMode::Reverted => "::status:error:Verification failed. Changes reverted."@,
            FailureMode::RevertFailed => "::status:error:Verification failed. Revert failed."@,
            FailureMode::Suppressed => "::status:warning:Auto-verification failed. Correction required."@,
        },
{
    match mode {
        FailureMode::Reverted => "::status:error:Verification failed. Changes reverted.",
        FailureMode::RevertFailed => "::status:error:Verification failed. Revert failed.",
        FailureMode::Suppressed => "::status:warning:Auto-verification failed. Correction required.",
    }
}

/// The fix request for a failing check at iteration `iteration`: the file
/// and both outputs (standard output cut to 2000 columns, standard error to
/// 4000).
pub open spec fn fix_request_spec(iteration: nat, path: Seq<char>, stdout: Seq<char>, stderr: Seq<char>) -> Seq<char> {
    "<VERIFICATION_FAILURE iteration=\""@ + decimal(iteration) + "\">\nThe verification command for "@ + path
        + " failed.\n\nSTDOUT:\n"@ + truncated_spec(stdout, 2000) + "\n\nSTDERR:\n"@ + truncated_spec(stderr, 4000)
        + "\n\nPlease fix the code to resolve these errors.</VERIFICATION_FAILURE>"@
}

/// The fix request for a failing check (see [`fix_request_spec`]).
pub fn verification_fix_prompt(iteration: usize, path: &str, stdout: &str, stderr: &str) -> (p: String)
    ensures
        p@ == fix_request_spec(iteration as nat, path@, stdout@, stderr@),
{
    let mut p = String::from_str("<VERIFICATION_FAILURE iteration=\"");
    push_decimal(&mut p, iteration as u64);
    push_str(&mut p, "\">\nThe verification command for ");
    push_str(&mut p, path);
    push_str(&mut p, " failed.\n\nSTDOUT:\n");
    let o = truncate_string_with_graphemes(stdout, 2000);
    push_str(&mut p, o.as_str());
    push_str(&mut p, "\n\nSTDERR:\n");
    let e = truncate_string_with_graphemes(stderr, 4000);
    push_str(&mut p, e.as_str());
    push_str(&mut p, "\n\nPlease fix the code to resolve these errors.</VERIFICATION_FAILURE>");
    p
}

/// Note appended when the check was fixed automatically.
pub fn auto_fix_note(iterations: usize) -> (s: String)
    ensures
        s@ == "\n\n<AUTO_FIX>\nVerification failed initially, but was automatically fixed after "@ + decimal(
            iterations as nat,
        ) + " iterations.\n</AUTO_FIX>"@,
{
    let mut s = String::from_str("\n\n<AUTO_FIX>\nVerification failed initially, but was automatically fixed after ");
    push_decimal(&mut s, iterations as u64);
    push_str(&mut s, " iterations.\n</AUTO_FIX>");
    s
}

/// Report of a check still failing after the fix attempts.
pub fn exhausted_report(iterations: usize, stdout: &str, stderr: &str) -> (s: String)
    ensures
        s@ == "<verification_error>\nVerification Failed after "@ + decimal(iterations as nat)
            + " auto-fix attempts:\n"@ + stdout@ + stderr@ + "\n</verification_error>"@,
{
    let mut s = String::from_str("<verification_error>\nVerification Failed after ");
    push_decimal(&mut s, iterations as u64);
    push_str(&mut s, " auto-fix attempts:\n");
    push_str(&mut s, stdout);
    push_str(&mut s, stderr);
    push_str(&mut s, "\n</verification_error>");
    s
}

/// Whether an automatic fix is attempted: a positive iteration budget and
/// a model client.
pub fn attempts_fix(max_iterations: usize, has_client: bool) -> (b: bool)
    ensures
        b == (max_iterations > 0 && has_client),
{
    max_iterations > 0 && has_client
}

} // verus!
