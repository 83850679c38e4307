//! Events of the Messages stream.

use vstd::prelude::*;

use crate::json::Json;

verus! {

/// One event of the stream.
#[derive(Debug)]
pub enum AnthropicEvent {
    MessageStart { message: MessageStartPayload },
    ContentBlockStart { index: u32, content_block: AnthropicBlock },
    ContentBlockDelta { index: u32, delta: AnthropicDelta },
    ContentBlockStop { index: u32 },
    MessageDelta { delta: MessageDeltaPayload, usage: UsageDelta },
    MessageStop,
    Ping,
    Error { error: AnthropicErrorPayload },
}

/// A content block as it begins.
#[derive(Debug)]
pub enum AnthropicBlock {
    Text { text: String },
    ToolUse { id: String, name: String, input: Json },
    Thinking { thinking: String, signature: String },
    RedactedThinking { data: String },
    /// A block type that is not modelled.
    Unknown,
}

/// An increment of a content block.
#[derive(Debug)]
pub enum AnthropicDelta {
    TextDelta { text: String },
    InputJsonDelta { partial_json: String },
    ThinkingDelta { thinking: String },
    SignatureDelta { signature: String },
    /// A delta type that is not modelled.
    Unknown,
}

#[derive(Debug)]
pub struct MessageStartPayload {
    pub usage: MessageStartUsage,
}

/// Token counters at the beginning of a message.
#[derive(Debug)]
pub struct MessageStartUsage {
    pub input_tokens: u32,
    pub cache_read_input_tokens: u32,
    /// The total of cache writes without a breakdown.
    pub cache_creation_input_tokens: u32,
    pub cache_creation: Option<CacheCreationBreakdown>,
    pub service_tier: Option<String>,
}

/// Cache writes by time to live.
#[derive(Debug, Clone, Copy, PartialEq, Eq, Structural)]
pub struct CacheCreationBreakdown {
    pub ephemeral_5m_input_tokens: u32,
    pub ephemeral_1h_input_tokens: u32,
}

/// Why a message stopped.
#[derive(Debug)]
pub struct MessageDeltaPayload {
    pub stop_reason: Option<String>,
    /// The text that stopped it, where one did.
    pub stop_sequence: Option<String>,
}

/// Token counters towards the end of a message.
#[derive(Debug, Clone, Copy, PartialEq, Eq, Structural)]
pub struct UsageDelta {
    pub output_tokens: u32,
    pub cache_read_input_tokens: u32,
    pub cache_creation_input_tokens: u32,
    pub cache_creation: Option<CacheCreationBreakdown>,
}

#[derive(Debug)]
pub struct AnthropicErrorPayload {
    pub error_type: String,
    pub message: String,
}

impl Default for MessageStartUsage {
    fn default() -> (r: Self)
        ensures
            r.input_tokens == 0,
            r.cache_read_input_tokens == 0,
            r.cache_creation_input_tokens == 0,
            r.cache_creation is None,
            r.service_tier is None,
    {
        MessageStartUsage {
            input_tokens: 0,
            cache_read_input_tokens: 0,
            cache_creation_input_tokens: 0,
            cache_creation: None,
            service_tier: None,
        }
    }
}

impl Default for UsageDelta {
    fn default() -> (r: Self)
        ensures
            r == (UsageDelta {
                output_tokens: 0,
                cache_read_input_tokens: 0,
                cache_creation_input_tokens: 0,
                cache_creation: None,
            }),
    {
        UsageDelta {
            output_tokens: 0,
            cache_read_input_tokens: 0,
            cache_creation_input_tokens: 0,
            cache_creation: None,
        }
    }
}

} // verus!
