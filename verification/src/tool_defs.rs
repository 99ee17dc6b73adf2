//! The tool definitions offered to the model: the local ones, those that
//! remote servers add, and the read-only subset a sub-agent gets.
use crate::agent_loop::subagent_tool_allowed;
use crate::json::{Json, JsonView};
use crate::testing::strs_view;
use crate::text::push_str;
use vstd::prelude::*;
use vstd::string::*;

verus! {

/// The callable part of a tool definition.
#[derive(Debug)]
pub struct ToolFunctionDef {
    pub name: String,
    pub description: String,
    /// JSON schema of the arguments.
    pub parameters: Json,
    pub strict: Option<bool>,
}

/// A tool definition as sent to the model.
#[derive(Debug)]
pub struct ToolDef {
    /// Always `function`.
    pub kind: String,
    pub function: ToolFunctionDef,
}

/// Value of a [`ToolDef`].
pub struct ToolDefView {
    pub kind: Seq<char>,
    pub name: Seq<char>,
    pub description: Seq<char>,
    pub parameters: JsonView,
    pub strict: Option<bool>,
}

impl View for ToolDef {
    type V = ToolDefView;

    open spec fn view(&self) -> ToolDefView {
        ToolDefView {
            kind: self.kind@,
            name: self.function.name@,
            description: self.function.description@,
            parameters: self.function.parameters@,
            strict: self.function.strict,
        }
    }
}

/// Values of a list of definitions.
pub open spec fn defs_view(ds: Seq<ToolDef>) -> Seq<ToolDefView> {
    ds.map_values(|d: ToolDef| d@)
}

/// A tool that a remote server offers, under the name the model sees.
#[derive(Debug)]
pub struct RemoteToolInfo {
    /// Name offered to the model.
    pub alias: String,
    /// Name on its server.
    pub remote_name: String,
    pub server_name: String,
    pub description: Option<String>,
    pub parameters: Json,
    pub strict: Option<bool>,
}

/// Description of a remote tool: its own, else one naming the tool and its
/// server.
pub open spec fn remote_description(info: RemoteToolInfo) -> Seq<char> {
    match info.description {
        Some(d) => d@,
        None => "Remote MCP tool '"@ + info.remote_name@ + "' from server '"@ + info.server_name@ + "'"@,
    }
}

/// The definition offered for a remote tool.
pub open spec fn remote_def(info: RemoteToolInfo) -> ToolDefView {
    ToolDefView {
        kind: "function"@,
        name: info.alias@,
        description: remote_description(info),
        parameters: info.parameters@,
        strict: info.strict,
    }
}

fn remote_tool_def(info: &RemoteToolInfo) -> (d: ToolDef)
    ensures
        d@ == remote_def(*info),
{
    let description = match &info.description {
        Some(d) => d.clone(),
        None => {
            let mut s = String::from_str("Remote MCP tool '");
            push_str(&mut s, info.remote_name.as_str());
            push_str(&mut s, "' from server '");
            push_str(&mut s, info.server_name.as_str());
            push_str(&mut s, "'");
            s
        },
    };
    ToolDef {
        kind: String::from_str("function"),
        function: ToolFunctionDef {
            name: info.alias.clone(),
            description,
            parameters: info.parameters.duplicate(),
            strict: info.strict,
        },
    }
}

/// Appends a definition for each remote tool, in order.
pub fn append_remote_tools(tools: &mut Vec<ToolDef>, remote: &[RemoteToolInfo])
    ensures
        defs_view(final(tools)@) == defs_view(old(tools)@) + remote@.map_values(|r: RemoteToolInfo| remote_def(r)),
{
    let ghost start = defs_view(tools@);
    let mut i: usize = 0;
    while i < remote.len()
        invariant
            i <= remote.len(),
            defs_view(tools@) == start + remote@.take(i as int).map_values(|r: RemoteToolInfo| remote_def(r)),
        decreases remote.len() - i,
    {
        let d = remote_tool_def(&remote[i]);
        let ghost before = tools@;
        tools.push(d);
        assert(defs_view(tools@) =~= defs_view(before).push(d@));
        assert(remote@.take(i + 1).map_values(|r: RemoteToolInfo| remote_def(r)) =~= remote@.take(
            i as int,
        ).map_values(|r: RemoteToolInfo| remote_def(r)).push(remote_def(remote@[i as int])));
        i += 1;
    }
    assert(remote@.take(remote.len() as int) =~= remote@);
}

/// The definitions whose name is in `allowed`, in order.
pub open spec fn allowed_defs(ds: Seq<ToolDefView>, allowed: Seq<Seq<char>>) -> Seq<ToolDefView>
    decreases ds.len(),
{
    if ds.len() == 0 {
        Seq::empty()
    } else if allowed.contains(ds.last().name) {
        allowed_defs(ds.drop_last(), allowed).push(ds.last())
    } else {
        allowed_defs(ds.drop_last(), allowed)
    }
}

/// The definitions a sub-agent may use: those named in `allowed`.
pub fn subagent_tool_defs(tools: &[ToolDef], allowed: &Vec<String>) -> (r: Vec<ToolDef>)
    ensures
        defs_view(r@) == allowed_defs(defs_view(tools@), strs_view(allowed@)),
{
    let ghost all = defs_view(tools@);
    let mut out: Vec<ToolDef> = Vec::new();
    let mut i: usize = 0;
    while i < tools.len()
        invariant
            i <= tools.len(),
            all == defs_view(tools@),
            defs_view(out@) == allowed_defs(all.take(i as int), strs_view(allowed@)),
        decreases tools.len() - i,
    {
        assert(all.take(i + 1).drop_last() =~= all.take(i as int));
        assert(all.take(i + 1).last() == tools@[i as int]@);
        let t = &tools[i];
        if subagent_tool_allowed(t.function.name.as_str(), allowed) {
            let copy = ToolDef {
                kind: t.kind.clone(),
                function: ToolFunctionDef {
                    name: t.function.name.clone(),
                    description: t.function.description.clone(),
                    parameters: t.function.parameters.duplicate(),
                    strict: t.function.strict,
                },
            };
            let ghost before = out@;
            out.push(copy);
            assert(defs_view(out@) =~= defs_view(before).push(copy@));
        }
        i += 1;
    }
    assert(all.take(tools.len() as int) =~= all);
    out
}

} // verus!
