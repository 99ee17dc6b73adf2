//! Routing of a model's tool call to the tool that runs it, and the
//! one-line summaries of tool results.
use crate::messages::ToolCall;
use crate::process::{debug_exit_code, push_debug_exit_code};
use crate::stream_tools::{json_check, json_error};
use crate::text::{decimal, push_decimal, push_str, str_eq};
use vstd::prelude::*;
use vstd::string::*;

verus! {

/// The tools this program runs itself.
#[derive(Debug, Clone, Copy, PartialEq, Eq, Structural)]
pub enum LocalTool {
    FsList,
    FsRead,
    SearchText,
    FsWrite,
    FindFile,
    FsReadManyFiles,
    SearchRepomap,
    ExecuteProcess,
    ExecuteBash,
    ExecuteShell,
    Edit,
    ApplyPatch,
    Task,
    PlanWrite,
    PlanRead,
    Undo,
    ReadMemory,
    WriteMemory,
    ListMemories,
    SearchMemory,
    RunWorkflow,
    DocGenerate,
    SearchHistory,
}

/// The local tool named `name`, if any.
pub open spec fn local_tool_named(name: Seq<char>) -> Option<LocalTool> {
    if name == "fs_list"@ {
        Some(LocalTool::FsList)
    } else if name == "fs_read"@ {
        Some(LocalTool::FsRead)
    } else if name == "search_text"@ {
        Some(LocalTool::SearchText)
    } else if name == "fs_write"@ {
        Some(LocalTool::FsWrite)
    } else if name == "find_file"@ {
        Some(LocalTool::FindFile)
    } else if name == "fs_read_many_files"@ {
        Some(LocalTool::FsReadManyFiles)
    } else if name == "search_repomap"@ {
        Some(LocalTool::SearchRepomap)
    } else if name == "execute_process"@ {
        Some(LocalTool::ExecuteProcess)
    } else if name == "execute_bash"@ {
        Some(LocalTool::ExecuteBash)
    } else if name == "execute_shell"@ {
        Some(LocalTool::ExecuteShell)
    } else if name == "edit"@ {
        Some(LocalTool::Edit)
    } else if name == "apply_patch"@ {
        Some(LocalTool::ApplyPatch)
    } else if name == "task"@ {
        Some(LocalTool::Task)
    } else if name == "plan_write"@ {
        Some(LocalTool::PlanWrite)
    } else if name == "plan_read"@ {
        Some(LocalTool::PlanRead)
    } else if name == "undo"@ {
        Some(LocalTool::Undo)
    } else if name == "read_memory"@ {
        Some(LocalTool::ReadMemory)
    } else if name == "write_memory"@ {
        Some(LocalTool::WriteMemory)
    } else if name == "list_memories"@ {
        Some(LocalTool::ListMemories)
    } else if name == "search_memory"@ {
        Some(LocalTool::SearchMemory)
    } else if name == "run_workflow"@ {
        Some(LocalTool::RunWorkflow)
    } else if name == "doc_generate"@ {
        Some(LocalTool::DocGenerate)
    } else if name == "search_history"@ {
        Some(LocalTool::SearchHistory)
    } else {
        None
    }
}

/// The local tool named `name` (see [`local_tool_named`]).
pub fn local_tool(name: &str) -> (t: Option<LocalTool>)
    ensures
        t == local_tool_named(name@),
{
    if str_eq(name, "fs_list") {
        Some(LocalTool::FsList)
    } else if str_eq(name, "fs_read") {
        Some(LocalTool::FsRead)
    } else if str_eq(name, "search_text") {
        Some(LocalTool::SearchText)
    } else if str_eq(name, "fs_write") {
        Some(LocalTool::FsWrite)
    } else if str_eq(name, "find_file") {
        Some(LocalTool::FindFile)
    } else if str_eq(name, "fs_read_many_files") {
        Some(LocalTool::FsReadManyFiles)
    } else if str_eq(name, "search_repomap") {
        Some(LocalTool::SearchRepomap)
    } else if str_eq(name, "execute_process") {
        Some(LocalTool::ExecuteProcess)
    } else if str_eq(name, "execute_bash") {
        Some(LocalTool::ExecuteBash)
    } else if str_eq(name, "execute_shell") {
        Some(LocalTool::ExecuteShell)
    } else if str_eq(name, "edit") {
        Some(LocalTool::Edit)
    } else if str_eq(name, "apply_patch") {
        Some(LocalTool::ApplyPatch)
    } else if str_eq(name, "task") {
        Some(LocalTool::Task)
    } else if str_eq(name, "plan_write") {
        Some(LocalTool::PlanWrite)
    } else if str_eq(name, "plan_read") {
        Some(LocalTool::PlanRead)
    } else if str_eq(name, "undo") {
        Some(LocalTool::Undo)
    } else if str_eq(name, "read_memory") {
        Some(LocalTool::ReadMemory)
    } else if str_eq(name, "write_memory") {
        Some(LocalTool::WriteMemory)
    } else if str_eq(name, "list_memories") {
        Some(LocalTool::ListMemories)
    } else if str_eq(name, "search_memory") {
        Some(LocalTool::SearchMemory)
    } else if str_eq(name, "run_workflow") {
        Some(LocalTool::RunWorkflow)
    } else if str_eq(name, "doc_generate") {
        Some(LocalTool::DocGenerate)
    } else if str_eq(name, "search_history") {
        Some(LocalTool::SearchHistory)
    } else {
        None
    }
}

/// Where a tool call goes.
#[derive(Debug, Clone, Copy, PartialEq, Eq, Structural)]
pub enum ToolRoute {
    /// A tool of this program.
    Local(LocalTool),
    /// Any other name: asked of the remote tool servers.
    Remote,
}

/// Routing of a call of type `kind` to `name` with arguments `args`: an
/// error for a type other than `function` or for arguments that are not
/// JSON; else the local tool of that name, or the remote servers.
pub open spec fn route_spec(kind: Seq<char>, name: Seq<char>, args: Seq<char>) -> Result<ToolRoute, Seq<char>> {
    if kind != "function"@ {
        Err("unsupported tool type: "@ + kind)
    } else if json_error(args).is_some() {
        Err("invalid tool args: "@ + json_error(args).unwrap())
    } else {
        match local_tool_named(name) {
            Some(t) => Ok(ToolRoute::Local(t)),
            None => Ok(ToolRoute::Remote),
        }
    }
}

/// Routes a tool call (see [`route_spec`]).
pub fn route_tool_call(call: &ToolCall) -> (r: Result<ToolRoute, String>)
    ensures
        match r {
            Ok(route) => route_spec(call.kind@, call.function.name@, call.function.arguments@) == Ok::<
                ToolRoute,
                Seq<char>,
            >(route),
            Err(e) => route_spec(call.kind@, call.function.name@, call.function.arguments@) == Err::<
                ToolRoute,
                Seq<char>,
            >(e@),
        },
{
    if !str_eq(call.kind.as_str(), "function") {
        let mut e = String::from_str("unsupported tool type: ");
        push_str(&mut e, call.kind.as_str());
        return Err(e);
    }
    match json_check(call.function.arguments.as_str()) {
        Some(err) => {
            let mut e = String::from_str("invalid tool args: ");
            push_str(&mut e, err.as_str());
            Err(e)
        },
        None => match local_tool(call.function.name.as_str()) {
            Some(t) => Ok(ToolRoute::Local(t)),
            None => Ok(ToolRoute::Remote),
        },
    }
}

/// The error for a name that neither this program nor a remote server
/// knows.
pub fn unknown_tool_message(name: &str) -> (m: String)
    ensures
        m@ == "unknown tool: "@ + name@,
{
    let mut m = String::from_str("unknown tool: ");
    push_str(&mut m, name);
    m
}

// ---------------------------------------------------------------------------
// Result summaries
// ---------------------------------------------------------------------------
/// What a finished tool call reports, for its summary line.
#[derive(Debug, Clone)]
pub enum ToolFacts {
    /// `fs_read` read `bytes` bytes from `path`.
    FsRead { path: String, bytes: usize },
    /// `search_text` returned `returned` rows for `pattern`.
    SearchText { pattern: String, returned: usize, truncated: bool, next_offset: Option<usize> },
    /// `fs_write` wrote `bytes` bytes to `path`.
    FsWrite { path: String, bytes: usize },
    /// `find_file` found `files` files.
    FindFile { files: usize },
    /// `fs_read_many_files` read `files` files.
    ReadMany { files: usize },
    /// A shell command finished with `exit_code`.
    Bash { command: String, exit_code: Option<i32> },
    /// `edit` on `path`; on failure, the debug form of its message.
    Edit { path: String, success: bool, message_debug: String },
    /// `apply_patch` succeeded or not.
    Patch { success: bool },
    /// `plan_write` with `items` items, changed or not.
    PlanWrite { changed: bool, items: usize },
    /// `plan_read` read `items` items.
    PlanRead { items: usize },
    Undo,
    ReadMemory { key: String },
    WriteMemory { key: String },
    ListMemories,
    SearchMemory,
    Workflow { name: String },
    DocGenerate { path: String },
    SearchHistory,
}

/// `Debug` rendering of an optional count (`Some(5)`, `None`).
pub open spec fn debug_count(c: Option<usize>) -> Seq<char> {
    match c {
        Some(v) => "Some("@ + decimal(v as nat) + ")"@,
        None => "None"@,
    }
}

/// The summary line of a tool result.
pub open spec fn summary_spec(f: ToolFacts) -> Seq<char> {
    match f {
        ToolFacts::FsRead { path, bytes } => "Read "@ + decimal(bytes as nat) + " bytes from "@ + path@,
        ToolFacts::SearchText { pattern, returned, truncated, next_offset } => if truncated {
            "Found matches for '"@ + pattern@ + "': returned "@ + decimal(returned as nat)
                + " (truncated, next_offset="@ + debug_count(next_offset) + ")"@
        } else {
            "Found "@ + decimal(returned as nat) + " matches for '"@ + pattern@ + "'"@
        },
        ToolFacts::FsWrite { path, bytes } => "Wrote "@ + decimal(bytes as nat) + " bytes to "@ + path@,
        ToolFacts::FindFile { files } => "Found "@ + decimal(files as nat) + " files"@,
        ToolFacts::ReadMany { files } => "Read "@ + decimal(files as nat) + " files"@,
        ToolFacts::Bash { command, exit_code } => "Command '"@ + command@ + "' finished with exit code "@
            + debug_exit_code(exit_code),
        ToolFacts::Edit { path, success, message_debug } => if success {
            "Successfully edited "@ + path@
        } else {
            "Failed to edit "@ + path@ + ": "@ + message_debug@
        },
        ToolFacts::Patch { success } => if success {
            "Successfully applied patch"@
        } else {
            "Failed to apply patch"@
        },
        ToolFacts::PlanWrite { changed, items } => if changed {
            "Wrote plan with "@ + decimal(items as nat) + " items"@
        } else {
            "Plan unchanged with "@ + decimal(items as nat) + " items"@
        },
        ToolFacts::PlanRead { items } => "Read plan with "@ + decimal(items as nat) + " items"@,
        ToolFacts::Undo => "Undid last action"@,
        ToolFacts::ReadMemory { key } => "Read memory '"@ + key@ + "'"@,
        ToolFacts::WriteMemory { key } => "Wrote memory '"@ + key@ + "'"@,
        ToolFacts::ListMemories => "Listed memories"@,
        ToolFacts::SearchMemory => "Searched memories"@,
        ToolFacts::Workflow { name } => "Ran workflow '"@ + name@ + "'"@,
        ToolFacts::DocGenerate { path } => "Generated docs for "@ + path@,
        ToolFacts::SearchHistory => "Search history disabled"@,
    }
}

fn push_count(s: &mut String, n: usize)
    ensures
        final(s)@ == old(s)@ + decimal(n as nat),
{
    push_decimal(s, n as u64);
}

/// The summary line of a tool result (see [`summary_spec`]).
pub fn result_summary(f: &ToolFacts) -> (s: String)
    ensures
        s@ == summary_spec(*f),
{
    match f {
        ToolFacts::FsRead { path, bytes } => {
            let mut s = String::from_str("Read ");
            push_count(&mut s, *bytes);
            push_str(&mut s, " bytes from ");
            push_str(&mut s, path.as_str());
            s
        },
        ToolFacts::SearchText { pattern, returned, truncated, next_offset } => {
            if *truncated {
                let mut s = String::from_str("Found matches for '");
                push_str(&mut s, pattern.as_str());
                push_str(&mut s, "': returned ");
                push_count(&mut s, *returned);
                push_str(&mut s, " (truncated, next_offset=");
                match next_offset {
                    Some(v) => {
                        push_str(&mut s, "Some(");
                        push_count(&mut s, *v);
                        push_str(&mut s, ")");
                    },
                    None => push_str(&mut s, "None"),
                }
                push_str(&mut s, ")");
                s
            } else {
                let mut s = String::from_str("Found ");
                push_count(&mut s, *returned);
                push_str(&mut s, " matches for '");
                push_str(&mut s, pattern.as_str());
                push_str(&mut s, "'");
                s
            }
        },
        ToolFacts::FsWrite { path, bytes } => {
            let mut s = String::from_str("Wrote ");
            push_count(&mut s, *bytes);
            push_str(&mut s, " bytes to ");
            push_str(&mut s, path.as_str());
            s
        },
        ToolFacts::FindFile { files } => {
            let mut s = String::from_str("Found ");
            push_count(&mut s, *files);
            push_str(&mut s, " files");
            s
        },
        ToolFacts::ReadMany { files } => {
            let mut s = String::from_str("Read ");
            push_count(&mut s, *files);
            push_str(&mut s, " files");
            s
        },
        ToolFacts::Bash { command, exit_code } => {
            let mut s = String::from_str("Command '");
            push_str(&mut s, command.as_str());
            push_str(&mut s, "' finished with exit code ");
            push_debug_exit_code(&mut s, *exit_code);
            s
        },
        ToolFacts::Edit { path, success, message_debug } => {
            if *success {
                let mut s = String::from_str("Successfully edited ");
                push_str(&mut s, path.as_str());
                s
            } else {
                let mut s = String::from_str("Failed to edit ");
                push_str(&mut s, path.as_str());
                push_str(&mut s, ": ");
                push_str(&mut s, message_debug.as_str());
                s
            }
        },
        ToolFacts::Patch { success } => {
            if *success {
                String::from_str("Successfully applied patch")
            } else {
                String::from_str("Failed to apply patch")
            }
        },
        ToolFacts::PlanWrite { changed, items } => {
            let mut s = if *changed {
                String::from_str("Wrote plan with ")
            } else {
                String::from_str("Plan unchanged with ")
            };
            push_count(&mut s, *items);
            push_str(&mut s, " items");
            s
        },
        ToolFacts::PlanRead { items } => {
            let mut s = String::from_str("Read plan with ");
            push_count(&mut s, *items);
            push_str(&mut s, " items");
            s
        },
        ToolFacts::Undo => String::from_str("Undid last action"),
        ToolFacts::ReadMemory { key } => {
            let mut s = String::from_str("Read memory '");
            push_str(&mut s, key.as_str());
            push_str(&mut s, "'");
            s
        },
        ToolFacts::WriteMemory { key } => {
            let mut s = String::from_str("Wrote memory '");
            push_str(&mut s, key.as_str());
            push_str(&mut s, "'");
            s
        },
        ToolFacts::ListMemories => String::from_str("Listed memories"),
        ToolFacts::SearchMemory => String::from_str("Searched memories"),
        ToolFacts::Workflow { name } => {
            let mut s = String::from_str("Ran workflow '");
            push_str(&mut s, name.as_str());
            push_str(&mut s, "'");
            s
        },
        ToolFacts::DocGenerate { path } => {
            let mut s = String::from_str("Generated docs for ");
            push_str(&mut s, path.as_str());
            s
        },
        ToolFacts::SearchHistory => String::from_str("Search history disabled"),
    }
}

} // verus!
