//! The fix loop for a failing shell command: run it, hand its failure to
//! the agent, and run it again, a bounded number of times.
use crate::test_fix::{keep_tail, tail_fits, tail_with};
use crate::text::{decimal, push_decimal, push_str};
use vstd::prelude::*;
use vstd::string::*;

verus! {

/// What follows attempt `attempt` of `max_retries`.
#[derive(Debug, Clone, Copy, PartialEq, Eq, Structural)]
pub enum CommandFixStep {
    /// The command succeeded: stop.
    Succeeded,
    /// The command failed at the last attempt: stop.
    GiveUp,
    /// Ask the agent to fix the failure, then try again.
    AskFix,
}

/// Decides what follows an attempt of the command: stop on success or at
/// the last attempt; else ask for a fix.
pub fn after_attempt(attempt: usize, max_retries: usize, success: bool) -> (s: CommandFixStep)
    ensures
        s == (if success {
            CommandFixStep::Succeeded
        } else if attempt == max_retries {
            CommandFixStep::GiveUp
        } else {
            CommandFixStep::AskFix
        }),
{
    if success {
        CommandFixStep::Succeeded
    } else if attempt == max_retries {
        CommandFixStep::GiveUp
    } else {
        CommandFixStep::AskFix
    }
}

/// Both outputs of a failed command, labelled.
pub open spec fn combined_spec(stdout: Seq<char>, stderr: Seq<char>) -> Seq<char> {
    "STDOUT:\n"@ + stdout + "\n\nSTDERR:\n"@ + stderr
}

/// Both outputs of a failed command (see [`combined_spec`]).
pub fn combined_output(stdout: &str, stderr: &str) -> (s: String)
    ensures
        s@ == combined_spec(stdout@, stderr@),
{
    let mut s = String::from_str("STDOUT:\n");
    push_str(&mut s, stdout);
    push_str(&mut s, "\n\nSTDERR:\n");
    push_str(&mut s, stderr);
    s
}

/// The failure as the agent sees it: the combined output cut to its tail
/// (see [`tail_with`]); it must be cut on a character boundary.
pub fn truncated_output(combined: &str) -> (s: String)
    requires
        tail_fits(combined@),
    ensures
        s@ == tail_with(combined@, "... (truncated)\n"@),
{
    keep_tail(combined, "... (truncated)\n")
}

/// The request to fix a failing command.
pub open spec fn fix_command_prompt_spec(command: Seq<char>, output: Seq<char>) -> Seq<char> {
    "The command `"@ + command + "` failed to execute.\n\nHere is the output (truncated if too long):\n```\n"@
        + output
        + "\n```\nPlease analyze the error and modify the code to fix the issue.\nUse the available tools (edit, apply_patch, etc.) to apply the fix.\nIMPORTANT: Focus ONLY on fixing the error shown above. Do not refactor unrelated code.\nAfter you have applied the fix, simply reply with a summary of what you fixed."@
}

/// The request to fix a failing command (see [`fix_command_prompt_spec`]).
pub fn fix_command_prompt(command: &str, output: &str) -> (s: String)
    ensures
        s@ == fix_command_prompt_spec(command@, output@),
{
    let mut s = String::from_str("The command `");
    push_str(&mut s, command);
    push_str(&mut s, "` failed to execute.\n\nHere is the output (truncated if too long):\n```\n");
    push_str(&mut s, output);
    push_str(
        &mut s,
        "\n```\nPlease analyze the error and modify the code to fix the issue.\nUse the available tools (edit, apply_patch, etc.) to apply the fix.\nIMPORTANT: Focus ONLY on fixing the error shown above. Do not refactor unrelated code.\nAfter you have applied the fix, simply reply with a summary of what you fixed.",
    );
    s
}

/// Progress line after a successful attempt.
pub fn success_line(attempt: usize, max_retries: usize) -> (s: String)
    ensures
        s@ == "✅ Command executed successfully on attempt "@ + decimal(attempt as nat) + "/"@ + decimal(
            max_retries as nat,
        ) + "."@,
{
    let mut s = String::from_str("✅ Command executed successfully on attempt ");
    push_decimal(&mut s, attempt as u64);
    push_str(&mut s, "/");
    push_decimal(&mut s, max_retries as u64);
    push_str(&mut s, ".");
    s
}

/// Progress line before asking for a fix.
pub fn asking_line(attempt: usize, max_retries: usize) -> (s: String)
    ensures
        s@ == "🤖 Asking AI to fix the issue... (Attempt "@ + decimal(attempt as nat) + "/"@ + decimal(
            max_retries as nat,
        ) + ")"@,
{
    let mut s = String::from_str("🤖 Asking AI to fix the issue... (Attempt ");
    push_decimal(&mut s, attempt as u64);
    push_str(&mut s, "/");
    push_decimal(&mut s, max_retries as u64);
    push_str(&mut s, ")");
    s
}

/// Summary of a fix attempt: the agent's error, or that it tried.
pub fn fix_summary(agent_error: Option<String>) -> (s: String)
    ensures
        s@ == match agent_error {
            Some(e) => "Agent error: "@ + e@,
            None => "Agent attempted fix (see logs)"@,
        },
{
    match agent_error {
        Some(e) => {
            let mut s = String::from_str("Agent error: ");
            push_str(&mut s, e.as_str());
            s
        },
        None => String::from_str("Agent attempted fix (see logs)"),
    }
}

/// The request for a regression test after a verified fix in `language`.
pub fn regression_test_prompt(language: &str) -> (s: String)
    ensures
        s@ == "The bug fix verified successfully.\nNow, please generate a regression test case (unit test in "@
            + language@
            + ") to ensure this bug does not reappear.\nPlease write the test code to the appropriate test file using available tools (e.g., `fs_write` or `edit`).\nIf an existing test file matches the fixed code, append the test there. Otherwise create a new test file following standard conventions (e.g., `_test.go`, `tests/*.rs`, `test_*.py`, `*.test.ts`)."@,
{
    let mut s = String::from_str(
        "The bug fix verified successfully.\nNow, please generate a regression test case (unit test in ",
    );
    push_str(&mut s, language);
    push_str(
        &mut s,
        ") to ensure this bug does not reappear.\nPlease write the test code to the appropriate test file using available tools (e.g., `fs_write` or `edit`).\nIf an existing test file matches the fixed code, append the test there. Otherwise create a new test file following standard conventions (e.g., `_test.go`, `tests/*.rs`, `test_*.py`, `*.test.ts`).",
    );
    s
}

} // verus!
