//! Checks run after the agent writes a file: which check applies, the
//! command it runs, and what its outcome means.
use crate::config::{AppConfig, VerificationConfig, VerificationView};
use crate::messages::{opt_str, ToolCall};
use crate::paths::{extension_spec, path_extension};
use crate::testing::strs_view;
use crate::text::{decimal, push_decimal, push_str, replace_all, replace_spec, str_eq};
use vstd::prelude::*;
use vstd::string::*;

verus! {

/// Outcome of a failed check.
#[derive(Debug, Clone)]
pub struct VerificationResult {
    pub success: bool,
    pub stdout: String,
    pub stderr: String,
    pub exit_code: Option<i32>,
    /// Report handed to the model.
    pub message: String,
    /// Whether the change should be rolled back.
    pub should_revert: bool,
}

/// Runs checks on changed files.
#[derive(Clone, Debug)]
pub struct AutoVerifier {
    config: VerificationConfig,
    project_root: String,
}

/// The string field `key` of the JSON object in `text`, when `text` parses
/// as JSON and the field is a string (`serde_json`).
pub uninterp spec fn json_str_field(text: Seq<char>, key: Seq<char>) -> Option<Seq<char>>;

/// Reads a string field of a JSON text (`serde_json::from_str`, then
/// `Value::get` and `as_str`); the result is named by [`json_str_field`].
#[verifier::external_body]
pub(crate) fn json_field(text: &str, key: &str) -> (r: Option<String>)
    ensures
        opt_str(r) == json_str_field(text@, key@),
{
    let v: serde_json::Value = serde_json::from_str(text).ok()?;
    v.get(key).and_then(|f| f.as_str()).map(|s| s.to_string())
}

/// Tools whose success changes a file.
pub open spec fn writes_file(name: Seq<char>) -> bool {
    name == "fs_write"@ || name == "edit"@ || name == "apply_patch"@
}

/// The argument naming the written file.
pub open spec fn path_key(name: Seq<char>) -> Seq<char> {
    if name == "fs_write"@ {
        "path"@
    } else {
        "file_path"@
    }
}

/// The language check for a file extension: its label and which command
/// list of the settings it runs (0 Rust, 1 Python, 2 Node.js, 3
/// TypeScript, 4 Go).
pub open spec fn check_for(ext: Seq<char>) -> Option<(Seq<char>, nat)> {
    if ext == "rs"@ {
        Some(("Rust"@, 0))
    } else if ext == "py"@ {
        Some(("Python"@, 1))
    } else if ext == "js"@ || ext == "jsx"@ {
        Some(("Node.js"@, 2))
    } else if ext == "ts"@ || ext == "tsx"@ {
        Some(("TypeScript"@, 3))
    } else if ext == "go"@ {
        Some(("Go"@, 4))
    } else {
        None
    }
}

/// The command list of check `k`.
pub open spec fn commands_of(cfg: VerificationView, k: nat) -> Seq<Seq<char>> {
    if k == 0 {
        cfg.rust
    } else if k == 1 {
        cfg.python
    } else if k == 2 {
        cfg.node
    } else if k == 3 {
        cfg.typescript
    } else {
        cfg.go
    }
}

/// A command with `{path}` and then `{project_root}` replaced in each part.
pub open spec fn rendered(parts: Seq<Seq<char>>, path: Seq<char>, root: Seq<char>) -> Seq<Seq<char>> {
    parts.map_values(|p: Seq<char>| replace_spec(replace_spec(p, "{path}"@, path), "{project_root}"@, root))
}

/// A check to run: its label and rendered command (program first).
#[derive(Debug, Clone)]
pub struct CheckPlan {
    pub label: String,
    pub command: Vec<String>,
}

/// How a check's process ended.
#[derive(Debug, Clone)]
pub enum CheckRun {
    /// It could not be started or waited for, or timed out; the message
    /// says which.
    NotRun(String),
    /// It exited, successfully or not, with this output.
    Exited { success: bool, exit_code: Option<i32>, stdout: String, stderr: String },
}

/// Report of a failed check.
pub open spec fn failure_report(label: Seq<char>, detail: Seq<char>) -> Seq<char> {
    "<verification_error>\n"@ + label + " Check Failed:\n"@ + detail + "\n</verification_error>"@
}

fn report(label: &str, detail: &str) -> (s: String)
    ensures
        s@ == failure_report(label@, detail@),
{
    let mut s = String::from_str("<verification_error>\n");
    push_str(&mut s, label);
    push_str(&mut s, " Check Failed:\n");
    push_str(&mut s, detail);
    push_str(&mut s, "\n</verification_error>");
    s
}

/// Why a check process did not run to completion.
#[derive(Debug, Clone, Copy, PartialEq, Eq, Structural)]
pub enum RunFailure {
    Spawn,
    Wait,
    Timeout,
}

/// Message for a check that did not run to completion.
pub open spec fn run_failure_text(f: RunFailure, detail: Seq<char>, timeout_ms: u64) -> Seq<char> {
    match f {
        RunFailure::Spawn => "Failed to spawn verification command: "@ + detail,
        RunFailure::Wait => "Failed to wait for verification command: "@ + detail,
        RunFailure::Timeout => "Verification command timed out after "@ + decimal(timeout_ms as nat) + " ms"@,
    }
}

impl AutoVerifier {
    /// The check settings.
    pub closed spec fn cfg(&self) -> VerificationView {
        self.config@
    }

    /// The project root checks run in.
    pub closed spec fn root(&self) -> Seq<char> {
        self.project_root@
    }

    /// A verifier with the settings and project root of `config`.
    pub fn new(config: &AppConfig) -> (v: Self)
        ensures
            v.cfg() == config.verification@,
            v.root() == config.project_root@,
    {
        AutoVerifier { config: config.verification.duplicate(), project_root: config.project_root.clone() }
    }

    /// Where checks run.
    pub fn project_root(&self) -> (r: &str)
        ensures
            r@ == self.root(),
    {
        self.project_root.as_str()
    }

    /// Time limit of a check; `0` means none.
    pub fn timeout_ms(&self) -> (t: u64)
        ensures
            t == self.cfg().timeout_ms,
    {
        self.config.timeout_ms
    }

    /// The file a tool call wrote, when it is to be checked: checks are
    /// enabled, the call succeeded, the tool writes files, and its
    /// arguments name the file.
    pub fn target_path(&self, tool_call: &ToolCall, success: bool) -> (p: Option<String>)
        ensures
            !success || !self.cfg().enabled || !writes_file(tool_call.function.name@) ==> p.is_none(),
            success && self.cfg().enabled && writes_file(tool_call.function.name@) ==> opt_str(p)
                == json_str_field(tool_call.function.arguments@, path_key(tool_call.function.name@)),
    {
        if !success || !self.config.enabled {
            return None;
        }
        let name = tool_call.function.name.as_str();
        if !(str_eq(name, "fs_write") || str_eq(name, "edit") || str_eq(name, "apply_patch")) {
            return None;
        }
        let key = if str_eq(name, "fs_write") { "path" } else { "file_path" };
        json_field(tool_call.function.arguments.as_str(), key)
    }

    /// The check for a changed file: the language check of its extension
    /// with its command rendered for the file, when that language has a
    /// non-empty command.
    pub fn plan_for(&self, path: &str) -> (r: Option<CheckPlan>)
        ensures
            match r {
                Some(plan) => match extension_spec(path@) {
                    Some(ext) => match check_for(ext) {
                        Some((label, k)) => commands_of(self.cfg(), k).len() > 0 && plan.label@ == label
                            && strs_view(plan.command@) == rendered(
                            commands_of(self.cfg(), k),
                            path@,
                            self.root(),
                        ),
                        None => false,
                    },
                    None => false,
                },
                None => match extension_spec(path@) {
                    Some(ext) => match check_for(ext) {
                        Some((label, k)) => commands_of(self.cfg(), k).len() == 0,
                        None => true,
                    },
                    None => true,
                },
            },
    {
        let ext = match path_extension(path) {
            Some(e) => e,
            None => {
                return None;
            },
        };
        let e = ext.as_str();
        let (label, cmds): (&str, &Vec<String>) = if str_eq(e, "rs") {
            ("Rust", &self.config.commands.rust)
        } else if str_eq(e, "py") {
            ("Python", &self.config.commands.python)
        } else if str_eq(e, "js") || str_eq(e, "jsx") {
            ("Node.js", &self.config.commands.node)
        } else if str_eq(e, "ts") || str_eq(e, "tsx") {
            ("TypeScript", &self.config.commands.typescript)
        } else if str_eq(e, "go") {
            ("Go", &self.config.commands.go)
        } else {
            return None;
        };
        if cmds.len() == 0 {
            return None;
        }
        let command = self.render_command(cmds, path);
        Some(CheckPlan { label: String::from_str(label), command })
    }

    /// A command with `{path}` and `{project_root}` replaced in each part.
    pub fn render_command(&self, command: &Vec<String>, path: &str) -> (out: Vec<String>)
        ensures
            strs_view(out@) == rendered(strs_view(command@), path@, self.root()),
    {
        let mut out: Vec<String> = Vec::new();
        let mut i: usize = 0;
        proof {
            reveal_strlit("{path}");
            reveal_strlit("{project_root}");
        }
        while i < command.len()
            invariant
                i <= command.len(),
                strs_view(out@) =~= rendered(strs_view(command@), path@, self.root()).take(i as int),
            decreases command.len() - i,
        {
            proof {
                reveal_strlit("{path}");
                reveal_strlit("{project_root}");
            }
            let a = replace_all(command[i].as_str(), "{path}", path);
            let b = replace_all(a.as_str(), "{project_root}", self.project_root.as_str());
            let ghost prev = strs_view(out@);
            out.push(b);
            assert(strs_view(out@) =~= prev.push(b@));
            i += 1;
        }
        out
    }

    /// The result of a check: a failure report when it did not run to
    /// completion or exited unsuccessfully (reverting when enforced),
    /// nothing when it passed.
    pub fn check_result(&self, label: &str, run: CheckRun) -> (r: Option<VerificationResult>)
        ensures
            match run {
                CheckRun::NotRun(m) => r matches Some(v) && !v.success && v.stdout@.len() == 0
                    && v.stderr@ == m@ && v.exit_code.is_none() && v.message@ == failure_report(label@, m@)
                    && v.should_revert == self.cfg().enforce,
                CheckRun::Exited { success, exit_code, stdout, stderr } => if success {
                    r.is_none()
                } else {
                    r matches Some(v) && !v.success && v.stdout@ == stdout@ && v.stderr@ == stderr@
                        && v.exit_code == exit_code && v.message@ == failure_report(label@, stdout@ + stderr@)
                        && v.should_revert == self.cfg().enforce
                },
            },
    {
        match run {
            CheckRun::NotRun(m) => {
                let message = report(label, m.as_str());
                Some(
                    VerificationResult {
                        success: false,
                        stdout: String::new(),
                        stderr: m,
                        exit_code: None,
                        message,
                        should_revert: self.config.enforce,
                    },
                )
            },
            CheckRun::Exited { success, exit_code, stdout, stderr } => {
                if success {
                    return None;
                }
                let mut both = stdout.clone();
                push_str(&mut both, stderr.as_str());
                let message = report(label, both.as_str());
                Some(
                    VerificationResult {
                        success: false,
                        stdout,
                        stderr,
                        exit_code,
                        message,
                        should_revert: self.config.enforce,
                    },
                )
            },
        }
    }

    /// Message for a check that did not run to completion.
    pub fn run_failure(&self, f: RunFailure, detail: &str) -> (m: String)
        ensures
            m@ == run_failure_text(f, detail@, self.cfg().timeout_ms),
    {
        match f {
            RunFailure::Spawn => {
                let mut m = String::from_str("Failed to spawn verification command: ");
                push_str(&mut m, detail);
                m
            },
            RunFailure::Wait => {
                let mut m = String::from_str("Failed to wait for verification command: ");
                push_str(&mut m, detail);
                m
            },
            RunFailure::Timeout => {
                let mut m = String::from_str("Verification command timed out after ");
                push_decimal(&mut m, self.config.timeout_ms);
                push_str(&mut m, " ms");
                m
            },
        }
    }
}

impl Default for AutoVerifier {
    /// A verifier with the default settings.
    fn default() -> (v: Self)
        ensures
            !v.cfg().enabled,
    {
        Self::new(&AppConfig::default())
    }
}

} // verus!
