//! What a provider is asked: [`ChatRequest`] with its tools and controls.

use vstd::prelude::*;

use crate::json::Json;
use crate::message::{CacheControl, Message, SystemPrompt};

verus! {

/// Output-token cap of a request that does not set one.
pub const DEFAULT_MAX_TOKENS: u32 = 4096;

/// One request to a provider. Controls that a provider lacks are ignored by its adapter.
#[derive(Debug, Clone)]
pub struct ChatRequest {
    /// Conversation history, in order.
    pub messages: Vec<Message>,
    pub system_prompt: Option<SystemPrompt>,
    /// Tools the model may call; `None` disables tool use.
    pub tools: Option<Vec<ToolDefinition>>,
    /// Sampling temperature.
    pub temperature: Option<serde_json::Number>,
    /// Nucleus sampling cutoff.
    pub top_p: Option<serde_json::Number>,
    /// Top-k sampling cutoff.
    pub top_k: Option<u32>,
    /// Texts that end the response.
    pub stop_sequences: Vec<String>,
    /// Cap on output tokens.
    pub max_tokens: u32,
    pub tool_choice: Option<ToolChoice>,
    /// Forbids more than one tool call per turn.
    pub disable_parallel_tool_use: Option<bool>,
    pub reasoning_effort: Option<ReasoningEffort>,
    /// Entries merged into the request body last, over everything else.
    pub additional_params: Option<Json>,
}

/// Constraint on the model's tool selection.
#[derive(Debug, Clone, PartialEq, Eq)]
pub enum ToolChoice {
    /// The model decides.
    Auto,
    /// The model must call some tool.
    Any,
    /// The model must call this tool.
    Tool { name: String },
    /// The model must not call a tool.
    None_,
}

/// Tool description sent to the provider.
#[derive(Debug, Clone)]
pub struct ToolDefinition {
    pub name: String,
    pub description: String,
    /// JSON Schema of the tool's input.
    pub input_schema: Json,
    /// Tags read by capability filters and approval middleware.
    pub tags: Vec<ToolTag>,
    pub cache_control: Option<CacheControl>,
}

/// How hard the model should think before it answers.
#[derive(Debug, Clone, Copy, PartialEq, Eq, Structural)]
pub enum ReasoningEffort {
    Minimal,
    Low,
    Medium,
    High,
    /// An exact number of tokens.
    Budget(u32),
}

/// Capability tag of a tool.
#[derive(Debug, Clone, PartialEq, Eq)]
pub enum ToolTag {
    /// Changes state outside the conversation.
    Destructive,
    ReadOnly,
    /// Reaches the network.
    Network,
    /// Writes to the local filesystem.
    WritesFiles,
    /// A tag of the caller's own.
    Custom(String),
}

impl Default for ChatRequest {
    fn default() -> (r: Self)
        ensures
            r.messages@.len() == 0,
            r.system_prompt is None,
            r.tools is None,
            r.temperature is None,
            r.top_p is None,
            r.top_k is None,
            r.stop_sequences@.len() == 0,
            r.max_tokens == DEFAULT_MAX_TOKENS,
            r.tool_choice is None,
            r.disable_parallel_tool_use is None,
            r.reasoning_effort is None,
            r.additional_params is None,
    {
        ChatRequest::new(Vec::new(), DEFAULT_MAX_TOKENS)
    }
}

impl ChatRequest {
    /// A request with the given history and token cap and nothing else set.
    pub fn new(messages: Vec<Message>, max_tokens: u32) -> (r: Self)
        ensures
            r.messages == messages,
            r.system_prompt is None,
            r.tools is None,
            r.temperature is None,
            r.top_p is None,
            r.top_k is None,
            r.stop_sequences@.len() == 0,
            r.max_tokens == max_tokens,
            r.tool_choice is None,
            r.disable_parallel_tool_use is None,
            r.reasoning_effort is None,
            r.additional_params is None,
    {
        ChatRequest {
            messages,
            system_prompt: None,
            tools: None,
            temperature: None,
            top_p: None,
            top_k: None,
            stop_sequences: Vec::new(),
            max_tokens,
            tool_choice: None,
            disable_parallel_tool_use: None,
            reasoning_effort: None,
            additional_params: None,
        }
    }
}

impl ToolDefinition {
    /// A definition without a cache breakpoint.
    pub fn new(name: &str, description: &str, input_schema: Json, tags: Vec<ToolTag>) -> (r: Self)
        ensures
            r.name@ == name@,
            r.description@ == description@,
            r.input_schema == input_schema,
            r.tags == tags,
            r.cache_control is None,
    {
        ToolDefinition {
            name: name.to_owned(),
            description: description.to_owned(),
            input_schema,
            tags,
            cache_control: None,
        }
    }

    /// Attaches a cache breakpoint.
    pub fn with_cache_control(self, cache_control: CacheControl) -> (r: Self)
        ensures
            r == (ToolDefinition { cache_control: Some(cache_control), ..self }),
    {
        ToolDefinition {
            name: self.name,
            description: self.description,
            input_schema: self.input_schema,
            tags: self.tags,
            cache_control: Some(cache_control),
        }
    }
}

} // verus!
