//! The command line: its options and subcommands, and the choices the
//! program makes from them before any work starts.
use crate::messages::opt_str;
use vstd::prelude::*;
use vstd::string::*;

verus! {

/// Options of the program.
#[derive(Debug, Clone)]
pub struct Cli {
    /// API base URL; empty when not given.
    pub base_url: String,
    /// Model name; empty when not given.
    pub model: String,
    pub api_key: Option<String>,
    /// Skip building the repository map at startup.
    pub no_repomap: bool,
    /// Path to the project instructions file.
    pub instructions_file: Option<String>,
    /// Session to resume (`latest` when the option is given bare).
    pub resume: Option<String>,
    pub command: Option<Commands>,
}

/// Subcommands of the program.
#[derive(Debug, Clone)]
pub enum Commands {
    /// Interactive mode (also when no subcommand is given).
    Tui,
    /// Watch for file changes and execute tasks.
    Watch,
    /// Execute one instruction and exit.
    Exec { instruction: String, json: bool, resume: Option<String> },
    /// Serve the tools over MCP.
    McpServer { address: Option<String> },
    /// Run a predefined workflow.
    Run { workflow: String },
}

/// What the program runs.
#[derive(Debug, Clone, Copy, PartialEq, Eq, Structural)]
pub enum Mode {
    Tui,
    Watch,
    Exec,
    McpServer,
    Run,
}

/// The mode a subcommand selects; none selects the interactive mode.
pub open spec fn mode_spec(command: Option<Commands>) -> Mode {
    match command {
        None => Mode::Tui,
        Some(Commands::Tui) => Mode::Tui,
        Some(Commands::Watch) => Mode::Watch,
        Some(Commands::Exec { .. }) => Mode::Exec,
        Some(Commands::McpServer { .. }) => Mode::McpServer,
        Some(Commands::Run { .. }) => Mode::Run,
    }
}

/// The mode the command line selects (see [`mode_spec`]).
pub fn mode_of(command: &Option<Commands>) -> (m: Mode)
    ensures
        m == mode_spec(*command),
{
    match command {
        None => Mode::Tui,
        Some(Commands::Tui) => Mode::Tui,
        Some(Commands::Watch) => Mode::Watch,
        Some(Commands::Exec { .. }) => Mode::Exec,
        Some(Commands::McpServer { .. }) => Mode::McpServer,
        Some(Commands::Run { .. }) => Mode::Run,
    }
}

/// Address the MCP server listens on when none is given.
pub const DEFAULT_MCP_ADDRESS: &'static str = "127.0.0.1:8000";

/// Address of the MCP server: the one given, else [`DEFAULT_MCP_ADDRESS`].
pub fn mcp_server_address(address: &Option<String>) -> (a: String)
    ensures
        a@ == (match address {
            Some(s) => s@,
            None => DEFAULT_MCP_ADDRESS@,
        }),
{
    match address {
        Some(s) => s.clone(),
        None => String::from_str(DEFAULT_MCP_ADDRESS),
    }
}

/// Session that `exec` resumes: the one its own option names, else the
/// one configured.
pub fn exec_resume(configured: &Option<String>, requested: &Option<String>) -> (r: Option<String>)
    ensures
        opt_str(r) == (if requested.is_some() { opt_str(*requested) } else { opt_str(*configured) }),
{
    match requested {
        Some(s) => Some(s.clone()),
        None => match configured {
            Some(s) => Some(s.clone()),
            None => None,
        },
    }
}

} // verus!
