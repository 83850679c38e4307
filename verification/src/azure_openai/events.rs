//! Events of the Chat Completions stream.

use vstd::prelude::*;

verus! {

/// One event of the stream. The last one before the end carries the token counters and no
/// choices; an event with an error takes the place of a chunk when the service fails.
#[derive(Debug)]
pub struct ChatCompletionsChunk {
    pub id: Option<String>,
    pub choices: Vec<Choice>,
    pub usage: Option<ChunkUsage>,
    pub error: Option<ChunkError>,
}

#[derive(Debug)]
pub struct Choice {
    pub index: u32,
    pub delta: Delta,
    pub finish_reason: Option<String>,
}

#[derive(Debug)]
pub struct Delta {
    pub role: Option<String>,
    pub content: Option<String>,
    pub tool_calls: Vec<ToolCallDelta>,
    /// Reasoning text, which Chat Completions does not take back and the stream leaves out.
    pub reasoning_content: Option<String>,
}

/// A part of a tool call. The first part of a call carries its id and name.
#[derive(Debug)]
pub struct ToolCallDelta {
    pub index: u32,
    pub id: Option<String>,
    pub kind: Option<String>,
    pub function: Option<FunctionDelta>,
}

#[derive(Debug)]
pub struct FunctionDelta {
    pub name: Option<String>,
    pub arguments: Option<String>,
}

/// Token counters of a turn.
#[derive(Debug, Clone, Copy, PartialEq, Eq, Structural)]
pub struct ChunkUsage {
    pub prompt_tokens: u32,
    pub completion_tokens: u32,
    pub prompt_tokens_details: Option<PromptTokensDetails>,
}

#[derive(Debug, Clone, Copy, PartialEq, Eq, Structural)]
pub struct PromptTokensDetails {
    pub cached_tokens: u32,
}

/// What a failing service reports in the middle of a stream.
#[derive(Debug)]
pub struct ChunkError {
    pub code: Option<String>,
    pub error_type: Option<String>,
    pub message: String,
}

impl Default for Delta {
    fn default() -> (r: Self)
        ensures
            r.role is None,
            r.content is None,
            r.tool_calls@.len() == 0,
            r.reasoning_content is None,
    {
        Delta { role: None, content: None, tool_calls: Vec::new(), reasoning_content: None }
    }
}

} // verus!
