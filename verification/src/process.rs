//! Structured process execution: the managed-run request and result types,
//! the decisions taken before a run (policy, working directory, timeout),
//! and the mapping of a finished run to the model-facing result.
use crate::output::{budget_command_output, budget_command_output_spec, string_views};
use crate::json::{fields_view, items_view, jview, lemma_fields_view, lemma_items_view, Json, JsonView};
use crate::paths::PathFact;
use crate::policy::{
    denial_message, effective_timeout_spec, opt_view, process_denial, resolve_cwd_spec,
    ExecutionPolicy, PolicyDenial, ProcessRequest,
};
use crate::text::{decimal, push_decimal, push_signed_decimal, push_str, signed_decimal, trim_spec, trim_str};
use vstd::prelude::*;
use vstd::string::*;

verus! {

// ---------------------------------------------------------------------------
// Managed runs
// ---------------------------------------------------------------------------
/// A finite process-tree request: program, arguments, working directory and
/// environment overrides. Callers apply policy before building one.
#[derive(Debug, Clone)]
pub struct ManagedProcessSpec {
    pub program: String,
    pub args: Vec<String>,
    pub cwd: String,
    pub env: Vec<(String, String)>,
}

impl ManagedProcessSpec {
    /// A request with no environment overrides.
    pub fn new(program: String, args: Vec<String>, cwd: String) -> (s: Self)
        ensures
            s.program == program,
            s.args == args,
            s.cwd == cwd,
            s.env@.len() == 0,
    {
        ManagedProcessSpec { program, args, cwd, env: Vec::new() }
    }

    /// The same request with `env` as its overrides.
    pub fn with_env(self, env: Vec<(String, String)>) -> (s: Self)
        ensures
            s.program == self.program,
            s.args == self.args,
            s.cwd == self.cwd,
            s.env == env,
    {
        ManagedProcessSpec { env, ..self }
    }
}

/// Why a managed process stopped.
#[derive(Debug, Clone, Copy, PartialEq, Eq, Structural)]
pub enum ManagedProcessTermination {
    Exited,
    TimedOut,
    Cancelled,
}

/// Result of a managed run after its process tree was cleaned up.
#[derive(Debug, Clone)]
pub struct ManagedProcessOutput {
    pub termination: ManagedProcessTermination,
    pub exit_code: Option<i32>,
    pub stdout: String,
    pub stderr: String,
    pub capture_truncated: bool,
    pub warnings: Vec<String>,
}

impl ManagedProcessOutput {
    /// The process exited on its own with code 0.
    pub fn success(&self) -> (b: bool)
        ensures
            b == (self.termination == ManagedProcessTermination::Exited && self.exit_code
                == Some(0i32)),
    {
        self.termination == ManagedProcessTermination::Exited && match self.exit_code {
            Some(c) => c == 0,
            None => false,
        }
    }
}

/// Failures of a managed run that have no normal process result; the
/// operating-system error is carried as its message.
#[derive(Debug, Clone)]
pub enum ManagedProcessError {
    Spawn(String),
    Wait(String),
    Cleanup(String),
}

impl ManagedProcessError {
    /// Display text of the error.
    pub fn describe(&self) -> (s: String)
        ensures
            s@ == match self {
                ManagedProcessError::Spawn(e) => "failed to spawn process: "@ + e@,
                ManagedProcessError::Wait(e) => "failed to wait for process: "@ + e@,
                ManagedProcessError::Cleanup(e) => "failed to clean up process tree: "@ + e@,
            },
    {
        let (mut s, e) = match self {
            ManagedProcessError::Spawn(e) => (String::from_str("failed to spawn process: "), e),
            ManagedProcessError::Wait(e) => (String::from_str("failed to wait for process: "), e),
            ManagedProcessError::Cleanup(e) => (
                String::from_str("failed to clean up process tree: "),
                e,
            ),
        };
        push_str(&mut s, e.as_str());
        s
    }
}

/// Output of a run cancelled before the process was spawned.
pub fn empty_output(termination: ManagedProcessTermination) -> (o: ManagedProcessOutput)
    ensures
        o.termination == termination,
        o.exit_code.is_none(),
        o.stdout@.len() == 0,
        o.stderr@.len() == 0,
        !o.capture_truncated,
        string_views(o.warnings@) == seq!["managed process cancelled before spawn"@],
{
    let mut warnings: Vec<String> = Vec::new();
    warnings.push(String::from_str("managed process cancelled before spawn"));
    assert(string_views(warnings@) =~= seq!["managed process cancelled before spawn"@]);
    ManagedProcessOutput {
        termination,
        exit_code: None,
        stdout: String::new(),
        stderr: String::new(),
        capture_truncated: false,
        warnings,
    }
}

/// Outcome of waiting for the child: exit status, wait failure, or
/// deadline.
#[derive(Debug, Clone)]
pub enum WaitDecision {
    /// The child exited with this code (`None` when killed by a signal).
    Exited(Option<i32>),
    /// Waiting failed with this message.
    WaitError(String),
    /// The deadline passed first.
    TimedOut,
}

/// Classifies the result of a deadline-bounded wait: `Err(())` is the
/// deadline; a wait error is never taken for a clean exit.
pub fn classify_wait_result(result: Result<Result<Option<i32>, String>, ()>) -> (d: WaitDecision)
    ensures
        match result {
            Ok(Ok(code)) => d == WaitDecision::Exited(code),
            Ok(Err(e)) => d == WaitDecision::WaitError(e),
            Err(()) => d == WaitDecision::TimedOut,
        },
{
    match result {
        Ok(Ok(code)) => WaitDecision::Exited(code),
        Ok(Err(e)) => WaitDecision::WaitError(e),
        Err(()) => WaitDecision::TimedOut,
    }
}

// ---------------------------------------------------------------------------
// Model-facing result
// ---------------------------------------------------------------------------
/// Terminal status of a structured process run.
#[derive(Debug, Clone, Copy, PartialEq, Eq, Structural)]
pub enum ProcessStatus {
    Completed,
    TimedOut,
    PolicyDenied,
    SpawnFailed,
}

/// Structured result returned to the model.
#[derive(Debug, Clone)]
pub struct ProcessResult {
    pub success: bool,
    pub status: ProcessStatus,
    pub exit_code: Option<i32>,
    pub stdout: String,
    pub stderr: String,
    pub output_truncated: bool,
    pub warnings: Vec<String>,
    pub error: Option<String>,
}

/// Name of a status in JSON (`snake_case`).
pub open spec fn status_name(s: ProcessStatus) -> Seq<char> {
    match s {
        ProcessStatus::Completed => "completed"@,
        ProcessStatus::TimedOut => "timed_out"@,
        ProcessStatus::PolicyDenied => "policy_denied"@,
        ProcessStatus::SpawnFailed => "spawn_failed"@,
    }
}

/// A result as the tool layer sends it: a JSON object with its fields in
/// key order, `error` only when there is one, and `ok` mirroring
/// `success`.
pub open spec fn result_json(r: ProcessResult) -> JsonView {
    let head = match r.error {
        Some(e) => seq![("error"@, JsonView::Str(e@))],
        None => Seq::empty(),
    };
    JsonView::Object(
        head + seq![
            (
                "exit_code"@,
                match r.exit_code {
                    Some(c) => JsonView::Number(signed_decimal(c as int)),
                    None => JsonView::Null,
                },
            ),
            ("ok"@, JsonView::Bool(r.success)),
            ("output_truncated"@, JsonView::Bool(r.output_truncated)),
            ("status"@, JsonView::Str(status_name(r.status))),
            ("stderr"@, JsonView::Str(r.stderr@)),
            ("stdout"@, JsonView::Str(r.stdout@)),
            ("success"@, JsonView::Bool(r.success)),
            ("warnings"@, JsonView::Array(r.warnings@.map_values(|w: String| JsonView::Str(w@)))),
        ],
    )
}

/// A failed result with empty output and `error` as message.
pub open spec fn failed_result(r: ProcessResult, status: ProcessStatus, error: Seq<char>) -> bool {
    &&& !r.success
    &&& r.status == status
    &&& r.exit_code.is_none()
    &&& r.stdout@.len() == 0
    &&& r.stderr@.len() == 0
    &&& !r.output_truncated
    &&& r.warnings@.len() == 0
    &&& opt_view(r.error) == Some(error)
}

impl ProcessResult {
    /// The result as JSON (see [`result_json`]).
    pub fn to_json(&self) -> (j: Json)
        ensures
            j@ == result_json(*self),
    {
        let mut fields: Vec<(String, Json)> = Vec::new();
        match &self.error {
            Some(e) => fields.push((String::from_str("error"), Json::Str(e.clone()))),
            None => {},
        }
        let code = match self.exit_code {
            Some(c) => {
                let mut t = String::new();
                push_signed_decimal(&mut t, c as i64);
                Json::Number(t)
            },
            None => Json::Null,
        };
        fields.push((String::from_str("exit_code"), code));
        fields.push((String::from_str("ok"), Json::Bool(self.success)));
        fields.push((String::from_str("output_truncated"), Json::Bool(self.output_truncated)));
        let status = match self.status {
            ProcessStatus::Completed => "completed",
            ProcessStatus::TimedOut => "timed_out",
            ProcessStatus::PolicyDenied => "policy_denied",
            ProcessStatus::SpawnFailed => "spawn_failed",
        };
        fields.push((String::from_str("status"), Json::Str(String::from_str(status))));
        fields.push((String::from_str("stderr"), Json::Str(self.stderr.clone())));
        fields.push((String::from_str("stdout"), Json::Str(self.stdout.clone())));
        fields.push((String::from_str("success"), Json::Bool(self.success)));
        let mut items: Vec<Json> = Vec::new();
        let mut i: usize = 0;
        while i < self.warnings.len()
            invariant
                i <= self.warnings.len(),
                items@.len() == i,
                forall|k: int| 0 <= k < i ==> #[trigger] jview(items@[k]) == JsonView::Str(self.warnings@[k]@),
            decreases self.warnings.len() - i,
        {
            items.push(Json::Str(self.warnings[i].clone()));
            i += 1;
        }
        proof {
            lemma_items_view(items, items.len() as nat);
            assert(items_view(items, items.len() as nat) =~= self.warnings@.map_values(|w: String| JsonView::Str(w@)));
        }
        fields.push((String::from_str("warnings"), Json::Array(items)));
        proof {
            lemma_fields_view(fields, fields.len() as nat);
            assert(fields_view(fields, fields.len() as nat) =~= result_json(*self)->Object_0);
        }
        Json::Object(fields)
    }

    /// Result for a request the policy denied; the error is the denial's
    /// message.
    pub fn policy_denied(denial: &PolicyDenial) -> (r: Self)
        ensures
            failed_result(r, ProcessStatus::PolicyDenied, denial_message(denial@)),
    {
        ProcessResult {
            success: false,
            status: ProcessStatus::PolicyDenied,
            exit_code: None,
            stdout: String::new(),
            stderr: String::new(),
            output_truncated: false,
            warnings: Vec::new(),
            error: Some(denial.message()),
        }
    }

    /// Result for a process that could not be spawned.
    pub fn spawn_failed(msg: String) -> (r: Self)
        ensures
            failed_result(r, ProcessStatus::SpawnFailed, msg@),
    {
        ProcessResult {
            success: false,
            status: ProcessStatus::SpawnFailed,
            exit_code: None,
            stdout: String::new(),
            stderr: String::new(),
            output_truncated: false,
            warnings: Vec::new(),
            error: Some(msg),
        }
    }
}

/// Parameters of one structured run (tool schema shape).
#[derive(Debug, Clone)]
pub struct ExecuteProcessParams {
    pub program: String,
    pub args: Vec<String>,
    pub cwd: Option<String>,
    pub env: Vec<(String, String)>,
    pub timeout_ms: Option<u64>,
}

impl ExecuteProcessParams {
    /// The same fields as a policy request.
    pub fn into_request(self) -> (r: ProcessRequest)
        ensures
            r.program == self.program,
            r.args == self.args,
            r.cwd == self.cwd,
            r.env == self.env,
            r.timeout_ms == self.timeout_ms,
    {
        ProcessRequest {
            program: self.program,
            args: self.args,
            cwd: self.cwd,
            env: self.env,
            timeout_ms: self.timeout_ms,
        }
    }
}

/// What to do with a structured request before anything runs.
#[derive(Debug, Clone)]
pub enum RunPlan {
    /// Denied: answer with this result.
    Denied(ProcessResult),
    /// Run this request with this timeout in milliseconds (`None`: no
    /// limit).
    Run(ManagedProcessSpec, Option<u64>),
}

/// Applies the policy to `req` and, when allowed, builds the managed request
/// (resolved working directory, effective timeout).
pub fn plan_process(policy: &ExecutionPolicy, req: ProcessRequest, facts: &[PathFact]) -> (p: RunPlan)
    ensures
        match p {
            RunPlan::Denied(r) => process_denial(policy.cfg(), facts@, req).is_some() && failed_result(
                r,
                ProcessStatus::PolicyDenied,
                denial_message(process_denial(policy.cfg(), facts@, req).unwrap()),
            ),
            RunPlan::Run(spec, timeout) => {
                &&& process_denial(policy.cfg(), facts@, req).is_none()
                &&& spec.program == req.program
                &&& spec.args == req.args
                &&& spec.env == req.env
                &&& spec.cwd@ == resolve_cwd_spec(policy.cfg().project_root@, opt_view(req.cwd))
                &&& timeout == effective_timeout_spec(policy.cfg().command_timeout_ms, req.timeout_ms)
            },
        },
{
    match policy.check_process(&req, facts) {
        Err(denial) => RunPlan::Denied(ProcessResult::policy_denied(&denial)),
        Ok(()) => {
            let cwd = policy.resolve_cwd(&req.cwd);
            let timeout = policy.effective_timeout(req.timeout_ms);
            RunPlan::Run(
                ManagedProcessSpec { program: req.program, args: req.args, cwd, env: req.env },
                timeout,
            )
        },
    }
}

/// `Debug` rendering of an optional exit code (`Some(3)`, `None`).
pub open spec fn debug_exit_code(c: Option<i32>) -> Seq<char> {
    match c {
        Some(v) => "Some("@ + signed_decimal(v as int) + ")"@,
        None => "None"@,
    }
}

/// Appends the `Debug` rendering of an optional exit code.
pub fn push_debug_exit_code(s: &mut String, c: Option<i32>)
    ensures
        final(s)@ == old(s)@ + debug_exit_code(c),
{
    match c {
        Some(v) => {
            let ghost s0 = s@;
            push_str(s, "Some(");
            push_signed_decimal(s, v as i64);
            push_str(s, ")");
            assert(s@ =~= s0 + debug_exit_code(c));
        },
        None => push_str(s, "None"),
    }
}

/// The run was cancelled by the agent: not a model-visible failure.
#[derive(Debug, Clone, Copy, PartialEq, Eq, Structural)]
pub struct Cancelled;

/// Warning added when the capture itself dropped output.
pub open spec fn capture_warning() -> Seq<char> {
    "process output exceeded capture limits; head and tail preserved"@
}

/// Model-facing result of a finished managed run: cancellation propagates;
/// a timeout is a failure without exit code and with its limit in the
/// message; an exit is a completed result whose success mirrors the exit
/// code. Output is budgeted, and capture losses are reported.
pub open spec fn result_of_run(m: ManagedProcessOutput, timeout_ms: Option<u64>, r: ProcessResult) -> bool {
    let b = budget_command_output_spec(m.stdout@, m.stderr@);
    let warnings = if m.capture_truncated { b.3.push(capture_warning()) } else { b.3 };
    &&& r.stdout@ == b.0
    &&& r.stderr@ == b.1
    &&& string_views(r.warnings@) == warnings
    &&& if m.termination == ManagedProcessTermination::TimedOut {
        &&& !r.success
        &&& r.status == ProcessStatus::TimedOut
        &&& r.exit_code.is_none()
        &&& r.output_truncated
        &&& opt_view(r.error) == Some(
            "Command timed out after "@ + decimal(
                match timeout_ms {
                    Some(t) => t as nat,
                    None => 0,
                },
            ) + " ms"@,
        )
    } else {
        let success = m.exit_code == Some(0i32);
        &&& r.success == success
        &&& r.status == ProcessStatus::Completed
        &&& r.exit_code == m.exit_code
        &&& r.output_truncated == (b.2 || m.capture_truncated)
        &&& opt_view(r.error) == if success {
            None
        } else {
            Some("Process exited with code "@ + debug_exit_code(m.exit_code))
        }
    }
}

/// Maps a finished managed run to the model-facing result (see
/// [`result_of_run`]).
pub fn process_result_from_managed(managed: ManagedProcessOutput, timeout_ms: Option<u64>) -> (r: Result<ProcessResult, Cancelled>)
    ensures
        match r {
            Err(_) => managed.termination == ManagedProcessTermination::Cancelled,
            Ok(res) => managed.termination != ManagedProcessTermination::Cancelled && result_of_run(
                managed,
                timeout_ms,
                res,
            ),
        },
{
    if managed.termination == ManagedProcessTermination::Cancelled {
        return Err(Cancelled);
    }
    let (stdout, stderr, budgeted, mut warnings) = budget_command_output(
        managed.stdout.as_str(),
        managed.stderr.as_str(),
    );
    let ghost w0 = string_views(warnings@);
    if managed.capture_truncated {
        warnings.push(String::from_str("process output exceeded capture limits; head and tail preserved"));
        assert(string_views(warnings@) =~= w0.push(capture_warning()));
    }
    if managed.termination == ManagedProcessTermination::TimedOut {
        let ms: u64 = match timeout_ms {
            Some(t) => t,
            None => 0,
        };
        let mut error = String::from_str("Command timed out after ");
        push_decimal(&mut error, ms);
        push_str(&mut error, " ms");
        return Ok(ProcessResult {
            success: false,
            status: ProcessStatus::TimedOut,
            exit_code: None,
            stdout,
            stderr,
            output_truncated: true,
            warnings,
            error: Some(error),
        });
    }
    let success = managed.success();
    let exit_code = managed.exit_code;
    let error = if success {
        None
    } else {
        let mut e = String::from_str("Process exited with code ");
        push_debug_exit_code(&mut e, exit_code);
        Some(e)
    };
    Ok(ProcessResult {
        success,
        status: ProcessStatus::Completed,
        exit_code,
        stdout,
        stderr,
        output_truncated: budgeted || managed.capture_truncated,
        warnings,
        error,
    })
}

/// Result for a managed run that failed without a process result.
pub fn process_result_from_error(program: &str, error: &ManagedProcessError) -> (r: ProcessResult)
    ensures
        failed_result(
            r,
            ProcessStatus::SpawnFailed,
            match error {
                ManagedProcessError::Spawn(e) => "Failed to spawn '"@ + program@ + "': "@ + e@,
                ManagedProcessError::Wait(e) => "Failed to wait for process: "@ + e@,
                ManagedProcessError::Cleanup(e) => "Failed to clean up process tree: "@ + e@,
            },
        ),
{
    let msg = match error {
        ManagedProcessError::Spawn(e) => {
            let mut m = String::from_str("Failed to spawn '");
            push_str(&mut m, program);
            push_str(&mut m, "': ");
            push_str(&mut m, e.as_str());
            m
        },
        ManagedProcessError::Wait(e) => {
            let mut m = String::from_str("Failed to wait for process: ");
            push_str(&mut m, e.as_str());
            m
        },
        ManagedProcessError::Cleanup(e) => {
            let mut m = String::from_str("Failed to clean up process tree: ");
            push_str(&mut m, e.as_str());
            m
        },
    };
    ProcessResult::spawn_failed(msg)
}

// ---------------------------------------------------------------------------
// Git output validation (diff review)
// ---------------------------------------------------------------------------
/// Seconds a git diff command may run.
pub const GIT_DIFF_TIMEOUT_SECS: u64 = 30;

/// Why a git command's output cannot be used.
#[derive(Debug, Clone)]
pub enum GitOutputError {
    /// The agent cancelled the run.
    Cancelled,
    /// Any other failure, with its message.
    Failed(String),
}

/// Decision on a git command's output: timeouts, cancellations, truncated
/// captures and unaccepted exit codes are errors; exit code 1 is accepted
/// only for `--no-index` diffs.
pub open spec fn git_output_error(allow_no_index_diff: bool, o: ManagedProcessOutput) -> Option<
    Option<Seq<char>>,
> {
    if o.termination == ManagedProcessTermination::TimedOut {
        Some(Some("git command timed out after 30 seconds"@))
    } else if o.termination == ManagedProcessTermination::Cancelled {
        Some(None)
    } else if o.capture_truncated {
        Some(Some("git output exceeded the capture limit; refusing incomplete diff review"@))
    } else if o.exit_code == Some(0i32) || (allow_no_index_diff && o.exit_code == Some(1i32)) {
        None
    } else if trim_spec(o.stderr@).len() == 0 {
        Some(Some("git command failed with exit code "@ + debug_exit_code(o.exit_code)))
    } else {
        Some(
            Some(
                "git command failed with exit code "@ + debug_exit_code(o.exit_code) + ": "@
                    + trim_spec(o.stderr@),
            ),
        )
    }
}

/// Validates a git command's output (see [`git_output_error`]); accepted
/// output is handed back unchanged.
pub fn validate_git_output(allow_no_index_diff: bool, output: ManagedProcessOutput) -> (r: Result<ManagedProcessOutput, GitOutputError>)
    ensures
        match r {
            Ok(o) => o == output && git_output_error(allow_no_index_diff, output).is_none(),
            Err(GitOutputError::Cancelled) => git_output_error(allow_no_index_diff, output)
                == Some(None::<Seq<char>>),
            Err(GitOutputError::Failed(m)) => git_output_error(allow_no_index_diff, output) == Some(
                Some(m@),
            ),
        },
{
    match output.termination {
        ManagedProcessTermination::TimedOut => {
            let mut m = String::from_str("git command timed out after ");
            push_decimal(&mut m, GIT_DIFF_TIMEOUT_SECS);
            push_str(&mut m, " seconds");
            proof {
                reveal_strlit("git command timed out after ");
                reveal_strlit(" seconds");
                reveal_strlit("git command timed out after 30 seconds");
                assert(decimal(30) =~= seq!['3', '0']) by {
                    assert(decimal(3) == seq!['3']);
                }
                assert(m@ =~= "git command timed out after 30 seconds"@);
            }
            return Err(GitOutputError::Failed(m));
        },
        ManagedProcessTermination::Cancelled => {
            return Err(GitOutputError::Cancelled);
        },
        ManagedProcessTermination::Exited => {},
    }
    if output.capture_truncated {
        return Err(GitOutputError::Failed(String::from_str(
            "git output exceeded the capture limit; refusing incomplete diff review",
        )));
    }
    let accepted = match output.exit_code {
        Some(c) => c == 0 || (allow_no_index_diff && c == 1),
        None => false,
    };
    if !accepted {
        let detail = trim_str(output.stderr.as_str());
        let mut m = String::from_str("git command failed with exit code ");
        push_debug_exit_code(&mut m, output.exit_code);
        if !detail.as_str().is_empty() {
            push_str(&mut m, ": ");
            push_str(&mut m, detail.as_str());
        }
        return Err(GitOutputError::Failed(m));
    }
    Ok(output)
}

// ---------------------------------------------------------------------------
// Liveness
// ---------------------------------------------------------------------------
/// Whether probing a process with signal 0 shows it alive: the probe
/// succeeded (`kill_result == 0`), or it failed with another error than
/// `no_such_process` (the process exists but may not be signalled).
pub fn probe_shows_alive(kill_result: i32, os_error: Option<i32>, no_such_process: i32) -> (alive: bool)
    ensures
        alive == (kill_result == 0 || os_error != Some(no_such_process)),
{
    if kill_result == 0 {
        return true;
    }
    match os_error {
        Some(e) => e != no_such_process,
        None => true,
    }
}

} // verus!
