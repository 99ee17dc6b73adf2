//! Configuration values that the library's decisions depend on.
use vstd::prelude::*;
use vstd::string::*;

verus! {

/// Execution policy mode (`[execution] mode`).
#[derive(Clone, Copy, Debug, PartialEq, Eq, Structural)]
pub enum ExecutionMode {
    /// Any program may run.
    Unrestricted,
    /// Only `allowed_programs` may run.
    Allowlist,
    /// Nothing may run.
    Deny,
}

/// The `[execution]` section.
#[derive(Clone, Debug)]
pub struct ExecutionConfig {
    pub mode: ExecutionMode,
    pub allowed_programs: Vec<String>,
    pub allowed_env: Vec<String>,
    pub allow_shell: bool,
}

impl Default for ExecutionConfig {
    /// Unrestricted mode, empty allowlists, shell allowed.
    fn default() -> (r: Self)
        ensures
            r.mode == ExecutionMode::Unrestricted,
            r.allowed_programs@.len() == 0,
            r.allowed_env@.len() == 0,
            r.allow_shell,
    {
        ExecutionConfig {
            mode: ExecutionMode::Unrestricted,
            allowed_programs: Vec::new(),
            allowed_env: Vec::new(),
            allow_shell: true,
        }
    }
}

/// Commands that check a changed file, per language; `{path}` and
/// `{project_root}` in them are replaced before they run.
#[derive(Clone, Debug)]
pub struct VerificationCommands {
    pub rust: Vec<String>,
    pub python: Vec<String>,
    pub node: Vec<String>,
    pub typescript: Vec<String>,
    pub go: Vec<String>,
}

/// The `[verification]` section: checks run after a file is written.
#[derive(Clone, Debug)]
pub struct VerificationConfig {
    /// Whether checks run at all.
    pub enabled: bool,
    /// Whether a failed check asks for the change to be reverted.
    pub enforce: bool,
    /// Time limit of a check; `0` means none.
    pub timeout_ms: u64,
    pub commands: VerificationCommands,
}

/// Value of a [`VerificationConfig`].
pub struct VerificationView {
    pub enabled: bool,
    pub enforce: bool,
    pub timeout_ms: u64,
    pub rust: Seq<Seq<char>>,
    pub python: Seq<Seq<char>>,
    pub node: Seq<Seq<char>>,
    pub typescript: Seq<Seq<char>>,
    pub go: Seq<Seq<char>>,
}

/// Views of strings.
pub open spec fn string_views(v: Seq<String>) -> Seq<Seq<char>> {
    v.map_values(|s: String| s@)
}

impl View for VerificationConfig {
    type V = VerificationView;

    open spec fn view(&self) -> VerificationView {
        VerificationView {
            enabled: self.enabled,
            enforce: self.enforce,
            timeout_ms: self.timeout_ms,
            rust: string_views(self.commands.rust@),
            python: string_views(self.commands.python@),
            node: string_views(self.commands.node@),
            typescript: string_views(self.commands.typescript@),
            go: string_views(self.commands.go@),
        }
    }
}

fn copy_strings(v: &Vec<String>) -> (r: Vec<String>)
    ensures
        string_views(r@) == string_views(v@),
{
    let mut r: Vec<String> = Vec::new();
    let mut i: usize = 0;
    while i < v.len()
        invariant
            i <= v.len(),
            string_views(r@) =~= string_views(v@).take(i as int),
        decreases v.len() - i,
    {
        let x = v[i].clone();
        let ghost prev = r@;
        r.push(x);
        assert(string_views(r@) =~= string_views(prev).push(x@));
        i += 1;
    }
    r
}

impl VerificationConfig {
    /// A copy with the same value.
    pub fn duplicate(&self) -> (r: Self)
        ensures
            r@ == self@,
    {
        VerificationConfig {
            enabled: self.enabled,
            enforce: self.enforce,
            timeout_ms: self.timeout_ms,
            commands: VerificationCommands {
                rust: copy_strings(&self.commands.rust),
                python: copy_strings(&self.commands.python),
                node: copy_strings(&self.commands.node),
                typescript: copy_strings(&self.commands.typescript),
                go: copy_strings(&self.commands.go),
            },
        }
    }
}

impl Default for VerificationConfig {
    /// Checks disabled, not enforced, no time limit, no commands.
    fn default() -> (r: Self)
        ensures
            !r.enabled,
            !r.enforce,
            r.timeout_ms == 0,
            r.commands.rust@.len() == 0,
            r.commands.python@.len() == 0,
            r.commands.node@.len() == 0,
            r.commands.typescript@.len() == 0,
            r.commands.go@.len() == 0,
    {
        VerificationConfig {
            enabled: false,
            enforce: false,
            timeout_ms: 0,
            commands: VerificationCommands {
                rust: Vec::new(),
                python: Vec::new(),
                node: Vec::new(),
                typescript: Vec::new(),
                go: Vec::new(),
            },
        }
    }
}

/// Application settings consulted by the execution policy and the
/// compaction heuristics.
#[derive(Clone, Debug)]
pub struct AppConfig {
    /// Project root directory.
    pub project_root: String,
    /// Extra directories a process may run in.
    pub allowed_paths: Vec<String>,
    /// Deprecated simple-command allowlist.
    pub allowed_commands: Vec<String>,
    /// The `[execution]` section.
    pub execution: ExecutionConfig,
    /// Whether any `[execution]` field was given.
    pub execution_configured: bool,
    /// Configured process timeout; `0` means unlimited.
    pub command_timeout_ms: u64,
    /// Model name.
    pub model: String,
    /// Prompt-token threshold for automatic compaction.
    pub auto_compact_prompt_token_threshold: u32,
    /// Context window of the model, when known.
    pub context_window_size: Option<u32>,
    /// The `[verification]` section.
    pub verification: VerificationConfig,
}

impl Default for AppConfig {
    /// Project root `.`, no extra paths, no legacy commands, the default
    /// `[execution]` section (not configured), unlimited timeout, model
    /// `gpt-4`, compaction threshold 100000 and an unknown context window.
    fn default() -> (r: Self)
        ensures
            r.project_root@ == "."@,
            r.allowed_paths@.len() == 0,
            r.allowed_commands@.len() == 0,
            r.execution.mode == ExecutionMode::Unrestricted,
            r.execution.allowed_programs@.len() == 0,
            r.execution.allowed_env@.len() == 0,
            r.execution.allow_shell,
            !r.execution_configured,
            r.command_timeout_ms == 0,
            r.model@ == "gpt-4"@,
            r.auto_compact_prompt_token_threshold == 100_000,
            r.context_window_size.is_none(),
            !r.verification.enabled,
            !r.verification.enforce,
            r.verification.timeout_ms == 0,
    {
        AppConfig {
            project_root: String::from_str("."),
            allowed_paths: Vec::new(),
            allowed_commands: Vec::new(),
            execution: ExecutionConfig::default(),
            execution_configured: false,
            command_timeout_ms: 0,
            model: String::from_str("gpt-4"),
            auto_compact_prompt_token_threshold: 100_000,
            context_window_size: None,
            verification: VerificationConfig::default(),
        }
    }
}

impl AppConfig {
    /// Compaction threshold for the configured model.
    pub fn auto_compact_prompt_token_threshold_for_current_model(&self) -> (r: u32)
        ensures
            r == self.auto_compact_prompt_token_threshold,
    {
        self.auto_compact_prompt_token_threshold
    }

    /// Context window size: the configured one, else the known window of
    /// the configured model (see [`context_window`]).
    pub fn get_context_window_size(&self) -> (r: Option<u32>)
        ensures
            r == context_window(*self),
    {
        match self.context_window_size {
            Some(c) => Some(c),
            None => model_context_window(self.model.as_str()),
        }
    }

    /// Prompt-token count above which the history is compacted: the
    /// configured threshold, capped at 90% (rounded down) of the context
    /// window (128000 when neither configured nor known for the model).
    pub fn get_effective_compaction_limit(&self) -> (r: u32)
        ensures
            r == effective_limit(*self),
    {
        let context: u32 = match self.get_context_window_size() {
            Some(c) => c,
            None => 128_000,
        };
        let safety = ((context as u64) * 9 / 10) as u32;
        let threshold = self.auto_compact_prompt_token_threshold;
        if threshold < safety {
            threshold
        } else {
            safety
        }
    }
}

/// Context windows known by model name: `gpt-4` has 8192 tokens; no
/// other model's window is known.
pub open spec fn model_window(model: Seq<char>) -> Option<u32> {
    if model == "gpt-4"@ {
        Some(8192u32)
    } else {
        None
    }
}

/// The known context window of a model (see [`model_window`]).
pub fn model_context_window(model: &str) -> (r: Option<u32>)
    ensures
        r == model_window(model@),
{
    if crate::text::str_eq(model, "gpt-4") {
        Some(8192)
    } else {
        None
    }
}

/// The context window of a configuration: the configured size, else the
/// model's known window.
pub open spec fn context_window(cfg: AppConfig) -> Option<u32> {
    match cfg.context_window_size {
        Some(c) => Some(c),
        None => model_window(cfg.model@),
    }
}

/// Context window assumed for compaction: the known one, else 128000.
pub open spec fn context_or_default(cfg: AppConfig) -> int {
    match context_window(cfg) {
        Some(c) => c as int,
        None => 128_000,
    }
}

/// 90% of a context window, rounded down (the value `(c as f64 * 0.9) as
/// u32` takes for every `u32`).
pub open spec fn safety_limit(context: int) -> int {
    (9 * context) / 10
}

/// The compaction limit: threshold capped by the safety limit.
pub open spec fn effective_limit(cfg: AppConfig) -> int {
    let s = safety_limit(context_or_default(cfg));
    if cfg.auto_compact_prompt_token_threshold < s {
        cfg.auto_compact_prompt_token_threshold as int
    } else {
        s
    }
}

} // verus!
