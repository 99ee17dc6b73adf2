//! Chat messages exchanged with the model, with their mathematical views.
use vstd::prelude::*;

verus! {

/// Function part of a tool call: name and raw JSON arguments.
#[derive(Debug, Clone)]
pub struct ToolCallFunction {
    pub name: String,
    pub arguments: String,
}

/// A tool call requested by the model. `kind` is the call type
/// (`"function"`).
#[derive(Debug, Clone)]
pub struct ToolCall {
    pub id: Option<String>,
    pub kind: String,
    pub function: ToolCallFunction,
}

/// One chat message.
#[derive(Debug, Clone)]
pub struct ChatMessage {
    pub role: String,
    pub content: Option<String>,
    pub tool_calls: Vec<ToolCall>,
    pub tool_call_id: Option<String>,
}

/// Token usage reported by the API.
#[derive(Debug, Clone, Copy)]
pub struct Usage {
    pub prompt_tokens: u32,
    pub completion_tokens: u32,
    pub total_tokens: u32,
}

/// Value of a [`ToolCall`].
pub struct ToolCallView {
    pub id: Option<Seq<char>>,
    pub kind: Seq<char>,
    pub name: Seq<char>,
    pub arguments: Seq<char>,
}

/// Value of a [`ChatMessage`].
pub struct MessageView {
    pub role: Seq<char>,
    pub content: Option<Seq<char>>,
    pub tool_calls: Seq<ToolCallView>,
    pub tool_call_id: Option<Seq<char>>,
}

/// View of an optional string.
pub open spec fn opt_str(o: Option<String>) -> Option<Seq<char>> {
    match o {
        Some(s) => Some(s@),
        None => None,
    }
}

impl View for ToolCall {
    type V = ToolCallView;

    open spec fn view(&self) -> ToolCallView {
        ToolCallView {
            id: opt_str(self.id),
            kind: self.kind@,
            name: self.function.name@,
            arguments: self.function.arguments@,
        }
    }
}

/// Views of tool calls.
pub open spec fn calls_view(v: Seq<ToolCall>) -> Seq<ToolCallView> {
    v.map_values(|t: ToolCall| t@)
}

impl View for ChatMessage {
    type V = MessageView;

    open spec fn view(&self) -> MessageView {
        MessageView {
            role: self.role@,
            content: opt_str(self.content),
            tool_calls: calls_view(self.tool_calls@),
            tool_call_id: opt_str(self.tool_call_id),
        }
    }
}

/// Views of messages.
pub open spec fn msgs_view(v: Seq<ChatMessage>) -> Seq<MessageView> {
    v.map_values(|m: ChatMessage| m@)
}

/// Copies an optional string.
pub fn copy_opt(o: &Option<String>) -> (r: Option<String>)
    ensures
        opt_str(r) == opt_str(*o),
{
    match o {
        Some(s) => Some(s.clone()),
        None => None,
    }
}

impl ToolCall {
    /// A copy with the same value.
    pub fn duplicate(&self) -> (r: ToolCall)
        ensures
            r@ == self@,
    {
        ToolCall {
            id: copy_opt(&self.id),
            kind: self.kind.clone(),
            function: ToolCallFunction {
                name: self.function.name.clone(),
                arguments: self.function.arguments.clone(),
            },
        }
    }
}

/// Copies a list of tool calls.
pub fn copy_calls(v: &Vec<ToolCall>) -> (r: Vec<ToolCall>)
    ensures
        calls_view(r@) == calls_view(v@),
{
    let mut r: Vec<ToolCall> = Vec::new();
    let mut i: usize = 0;
    while i < v.len()
        invariant
            i <= v.len(),
            calls_view(r@) =~= calls_view(v@).take(i as int),
        decreases v.len() - i,
    {
        let t = v[i].duplicate();
        let ghost prev = r@;
        r.push(t);
        assert(calls_view(r@) =~= calls_view(prev).push(t@));
        i += 1;
    }
    r
}

impl ChatMessage {
    /// A copy with the same value.
    pub fn duplicate(&self) -> (r: ChatMessage)
        ensures
            r@ == self@,
    {
        ChatMessage {
            role: self.role.clone(),
            content: copy_opt(&self.content),
            tool_calls: copy_calls(&self.tool_calls),
            tool_call_id: copy_opt(&self.tool_call_id),
        }
    }

    /// A message with `role` and `content`, no tool calls and no tool-call
    /// id.
    pub fn text(role: &str, content: String) -> (r: ChatMessage)
        ensures
            r@ == (MessageView {
                role: role@,
                content: Some(content@),
                tool_calls: Seq::empty(),
                tool_call_id: None,
            }),
    {
        let calls: Vec<ToolCall> = Vec::new();
        assert(calls_view(calls@) =~= Seq::<ToolCallView>::empty());
        ChatMessage {
            role: crate::text::owned(role),
            content: Some(content),
            tool_calls: calls,
            tool_call_id: None,
        }
    }
}

/// Copies a list of messages.
pub fn copy_messages(v: &Vec<ChatMessage>) -> (r: Vec<ChatMessage>)
    ensures
        msgs_view(r@) == msgs_view(v@),
{
    let mut r: Vec<ChatMessage> = Vec::new();
    let mut i: usize = 0;
    while i < v.len()
        invariant
            i <= v.len(),
            msgs_view(r@) =~= msgs_view(v@).take(i as int),
        decreases v.len() - i,
    {
        let m = v[i].duplicate();
        let ghost prev = r@;
        r.push(m);
        assert(msgs_view(r@) =~= msgs_view(prev).push(m@));
        i += 1;
    }
    r
}

} // verus!
