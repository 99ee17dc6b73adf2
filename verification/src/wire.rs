//! Values exchanged with the chat-completions API, as the library sees
//! them; the JSON encoding of each lives with the program around it.
use crate::messages::{ToolCall, Usage};
use vstd::prelude::*;

verus! {

/// Message of a plain (tool-less) completion choice.
#[derive(Debug, Clone)]
pub struct ChoiceMessage {
    pub role: String,
    pub content: String,
}

/// One completion choice.
#[derive(Debug, Clone)]
pub struct Choice {
    pub index: usize,
    pub message: ChoiceMessage,
}

/// Reply of a plain completion request.
#[derive(Debug, Clone)]
pub struct ChatResponse {
    pub id: Option<String>,
    pub choices: Vec<Choice>,
    pub usage: Option<Usage>,
}

/// Function part of a streamed tool-call delta.
#[derive(Debug, Clone)]
pub struct ToolCallFunctionDelta {
    pub name: String,
    pub arguments: String,
}

/// Streamed fragment of a tool call; `kind` is the call type.
#[derive(Debug, Clone)]
pub struct ToolCallDelta {
    pub index: Option<usize>,
    pub kind: Option<String>,
    pub function: Option<ToolCallFunctionDelta>,
}

/// Delta carried by a streamed choice.
#[derive(Debug, Clone)]
pub struct StreamChoiceDelta {
    pub content: String,
    pub role: Option<String>,
    pub tool_calls: Vec<ToolCallDelta>,
}

/// One streamed choice.
#[derive(Debug, Clone)]
pub struct StreamChoice {
    pub index: usize,
    pub delta: StreamChoiceDelta,
    pub finish_reason: Option<String>,
}

/// One chunk of a streamed reply.
#[derive(Debug, Clone)]
pub struct ChatStreamChunk {
    pub id: Option<String>,
    pub choices: Vec<StreamChoice>,
    pub usage: Option<Usage>,
}

/// Message of a completion choice that may request tool calls.
#[derive(Debug, Clone)]
pub struct ChoiceMessageWithTools {
    pub role: String,
    pub content: Option<String>,
    pub tool_calls: Vec<ToolCall>,
}

/// One completion choice of a tool-enabled request.
#[derive(Debug, Clone)]
pub struct ChoiceWithTools {
    pub index: usize,
    pub message: ChoiceMessageWithTools,
}

/// Reply of a tool-enabled completion request.
#[derive(Debug, Clone)]
pub struct ChatResponseWithTools {
    pub id: Option<String>,
    pub choices: Vec<ChoiceWithTools>,
    pub usage: Option<Usage>,
}

/// A tool result sent back to the model (`role` is `"tool"`, `content` the
/// JSON text of the result).
#[derive(Debug, Clone)]
pub struct ToolMessagePayload {
    pub role: String,
    pub content: String,
    pub tool_call_id: Option<String>,
    pub name: Option<String>,
}

/// The message of the first choice of a plain reply, if any.
pub fn first_choice_message(resp: ChatResponse) -> (m: Option<ChoiceMessage>)
    ensures
        resp.choices@.len() == 0 ==> m.is_none(),
        resp.choices@.len() > 0 ==> m == Some(resp.choices@[0].message),
{
    let mut choices = resp.choices;
    if choices.len() == 0 {
        None
    } else {
        let c = choices.remove(0);
        Some(c.message)
    }
}

} // verus!
