//! Reads the events of the Messages stream.

use vstd::prelude::*;

use super::errors::AnthropicError;
use super::events::{
    AnthropicBlock, AnthropicDelta, AnthropicErrorPayload, AnthropicEvent, CacheCreationBreakdown,
    MessageDeltaPayload, MessageStartPayload, MessageStartUsage, UsageDelta,
};
use crate::json::{self, Json, JsonModel};
use crate::record::{
    self, counter_of, field_of, is_partial_record_of, is_record_of, number_field_of,
    read_optional_text, text_field_of,
};
use crate::text::{chars_of, same_text};

verus! {

/// Whether a field is a text, empty where it is not there.
pub open spec fn has_defaulted_text(
    record: JsonModel,
    name: Seq<char>,
    place: int,
    text: String,
) -> bool {
    match record::field(record, name, place) {
        Some(value) => value == JsonModel::Text(text@),
        None => text@ == Seq::<char>::empty(),
    }
}

/// Whether a field is a text.
pub open spec fn has_text(record: JsonModel, name: Seq<char>, place: int, text: String) -> bool {
    record::text_field(record, name, place) == Some(text@)
}

/// Whether a document holds a breakdown of cache writes.
pub open spec fn is_breakdown(document: JsonModel, breakdown: CacheCreationBreakdown) -> bool {
    &&& record::is_partial_record(document, 0, 2)
    &&& record::has_counter(
        document,
        "ephemeral_5m_input_tokens"@,
        0,
        breakdown.ephemeral_5m_input_tokens,
    )
    &&& record::has_counter(
        document,
        "ephemeral_1h_input_tokens"@,
        1,
        breakdown.ephemeral_1h_input_tokens,
    )
}

/// Whether the field `cache_creation` is a breakdown, or null or not there.
pub open spec fn has_breakdown(
    record: JsonModel,
    place: int,
    breakdown: Option<CacheCreationBreakdown>,
) -> bool {
    match record::field(record, "cache_creation"@, place) {
        None => breakdown is None,
        Some(JsonModel::Null) => breakdown is None,
        Some(value) => breakdown matches Some(b) && is_breakdown(value, b),
    }
}

/// Whether a document holds the counters at the beginning of a message.
pub open spec fn is_start_usage(document: JsonModel, usage: MessageStartUsage) -> bool {
    &&& record::is_partial_record(document, 1, 5)
    &&& record::has_number(document, "input_tokens"@, 0, usage.input_tokens)
    &&& record::has_counter(
        document,
        "cache_read_input_tokens"@,
        1,
        usage.cache_read_input_tokens,
    )
    &&& record::has_counter(
        document,
        "cache_creation_input_tokens"@,
        2,
        usage.cache_creation_input_tokens,
    )
    &&& has_breakdown(document, 3, usage.cache_creation)
    &&& record::has_optional_text(document, "service_tier"@, 4, usage.service_tier)
}

/// Whether a document holds the beginning of a message.
pub open spec fn is_start(document: JsonModel, start: MessageStartPayload) -> bool {
    &&& record::is_record(document, 1)
    &&& record::field(document, "usage"@, 0) matches Some(usage) && is_start_usage(
        usage,
        start.usage,
    )
}

/// Whether a document holds the counters towards the end of a message.
pub open spec fn is_usage_delta(document: JsonModel, usage: UsageDelta) -> bool {
    &&& record::is_partial_record(document, 1, 4)
    &&& record::has_number(document, "output_tokens"@, 0, usage.output_tokens)
    &&& record::has_counter(
        document,
        "cache_read_input_tokens"@,
        1,
        usage.cache_read_input_tokens,
    )
    &&& record::has_counter(
        document,
        "cache_creation_input_tokens"@,
        2,
        usage.cache_creation_input_tokens,
    )
    &&& has_breakdown(document, 3, usage.cache_creation)
}

/// Whether a document says why a message stopped.
pub open spec fn is_message_delta(document: JsonModel, delta: MessageDeltaPayload) -> bool {
    &&& record::is_partial_record(document, 1, 2)
    &&& record::has_optional_text(document, "stop_reason"@, 0, delta.stop_reason)
    &&& record::has_optional_text(document, "stop_sequence"@, 1, delta.stop_sequence)
}

/// Whether a document holds an error.
pub open spec fn is_error(document: JsonModel, error: AnthropicErrorPayload) -> bool {
    &&& record::is_record(document, 2)
    &&& has_text(document, "type"@, 0, error.error_type)
    &&& has_text(document, "message"@, 1, error.message)
}

/// Whether a document holds a content block. Types that are not known are taken, too.
pub open spec fn is_block(document: JsonModel, block: AnthropicBlock) -> bool {
    match record::text_field(document, "type"@, 0) {
        Some(tag) => if tag == "text"@ {
            block matches AnthropicBlock::Text { text } && record::is_record(document, 2)
                && has_text(document, "text"@, 1, text)
        } else if tag == "tool_use"@ {
            block matches AnthropicBlock::ToolUse { id, name, input } && record::is_record(
                document,
                4,
            ) && has_text(document, "id"@, 1, id) && has_text(document, "name"@, 2, name)
                && record::field(document, "input"@, 3) == Some(input@)
        } else if tag == "thinking"@ {
            block matches AnthropicBlock::Thinking { thinking, signature }
                && record::is_partial_record(document, 1, 3) && has_defaulted_text(
                document,
                "thinking"@,
                1,
                thinking,
            ) && has_defaulted_text(document, "signature"@, 2, signature)
        } else if tag == "redacted_thinking"@ {
            block matches AnthropicBlock::RedactedThinking { data } && record::is_record(
                document,
                2,
            ) && has_text(document, "data"@, 1, data)
        } else {
            block is Unknown && record::is_record(document, 1)
        },
        None => false,
    }
}

/// Whether a document holds an increment. Types that are not known are taken, too.
pub open spec fn is_delta(document: JsonModel, delta: AnthropicDelta) -> bool {
    match record::text_field(document, "type"@, 0) {
        Some(tag) => if tag == "text_delta"@ {
            delta matches AnthropicDelta::TextDelta { text } && record::is_record(document, 2)
                && has_text(document, "text"@, 1, text)
        } else if tag == "input_json_delta"@ {
            delta matches AnthropicDelta::InputJsonDelta { partial_json } && record::is_record(
                document,
                2,
            ) && has_text(document, "partial_json"@, 1, partial_json)
        } else if tag == "thinking_delta"@ {
            delta matches AnthropicDelta::ThinkingDelta { thinking } && record::is_record(
                document,
                2,
            ) && has_text(document, "thinking"@, 1, thinking)
        } else if tag == "signature_delta"@ {
            delta matches AnthropicDelta::SignatureDelta { signature } && record::is_record(
                document,
                2,
            ) && has_text(document, "signature"@, 1, signature)
        } else {
            delta is Unknown && record::is_record(document, 1)
        },
        None => false,
    }
}

/// Whether a document holds an event.
pub open spec fn is_event(document: JsonModel, event: AnthropicEvent) -> bool {
    match record::text_field(document, "type"@, 0) {
        Some(tag) => if tag == "message_start"@ {
            event matches AnthropicEvent::MessageStart { message } && record::is_record(
                document,
                2,
            ) && (record::field(document, "message"@, 1) matches Some(value) && is_start(
                value,
                message,
            ))
        } else if tag == "content_block_start"@ {
            event matches AnthropicEvent::ContentBlockStart { index, content_block }
                && record::is_record(document, 3) && record::has_number(
                document,
                "index"@,
                1,
                index,
            ) && (record::field(document, "content_block"@, 2) matches Some(value) && is_block(
                value,
                content_block,
            ))
        } else if tag == "content_block_delta"@ {
            event matches AnthropicEvent::ContentBlockDelta { index, delta } && record::is_record(
                document,
                3,
            ) && record::has_number(document, "index"@, 1, index) && (record::field(
                document,
                "delta"@,
                2,
            ) matches Some(value) && is_delta(value, delta))
        } else if tag == "content_block_stop"@ {
            event matches AnthropicEvent::ContentBlockStop { index } && record::is_record(
                document,
                2,
            ) && record::has_number(document, "index"@, 1, index)
        } else if tag == "message_delta"@ {
            event matches AnthropicEvent::MessageDelta { delta, usage } && record::is_record(
                document,
                3,
            ) && (record::field(document, "delta"@, 1) matches Some(value) && is_message_delta(
                value,
                delta,
            )) && (record::field(document, "usage"@, 2) matches Some(value) && is_usage_delta(
                value,
                usage,
            ))
        } else if tag == "message_stop"@ {
            event is MessageStop && record::is_record(document, 1)
        } else if tag == "ping"@ {
            event is Ping && record::is_record(document, 1)
        } else if tag == "error"@ {
            event matches AnthropicEvent::Error { error } && record::is_record(document, 2) && (
            record::field(document, "error"@, 1) matches Some(value) && is_error(value, error))
        } else {
            false
        },
        None => false,
    }
}

fn read_text(record: &Json, name: &str, place: usize) -> (r: Option<String>)
    ensures
        r matches Some(text) ==> has_text(record@, name@, place as int, text),
        r is None ==> forall|text: String| !has_text(record@, name@, place as int, text),
{
    match text_field_of(record, name, place) {
        Some(text) => Some(text.clone()),
        None => None,
    }
}

fn read_defaulted_text(record: &Json, name: &str, place: usize) -> (r: Option<String>)
    ensures
        r matches Some(text) ==> has_defaulted_text(record@, name@, place as int, text),
        r is None ==> forall|text: String| !has_defaulted_text(record@, name@, place as int, text),
{
    match field_of(record, name, place) {
        Some(value) => match value {
            Json::Text(text) => Some(text.clone()),
            _ => None,
        },
        None => Some(String::new()),
    }
}

impl CacheCreationBreakdown {
    /// Reads a breakdown from a document.
    pub fn from_json(document: &Json) -> (r: Option<Self>)
        ensures
            r matches Some(breakdown) ==> is_breakdown(document@, breakdown),
            r is None ==> forall|breakdown: Self| !is_breakdown(document@, breakdown),
    {
        if !is_partial_record_of(document, 0, 2) {
            return None;
        }
        match (
            counter_of(document, "ephemeral_5m_input_tokens", 0),
            counter_of(document, "ephemeral_1h_input_tokens", 1),
        ) {
            (Some(ephemeral_5m_input_tokens), Some(ephemeral_1h_input_tokens)) => Some(
                CacheCreationBreakdown { ephemeral_5m_input_tokens, ephemeral_1h_input_tokens },
            ),
            _ => None,
        }
    }
}

fn read_breakdown(record: &Json, place: usize) -> (r: Option<Option<CacheCreationBreakdown>>)
    ensures
        r matches Some(breakdown) ==> has_breakdown(record@, place as int, breakdown),
        r is None ==> forall|breakdown: Option<CacheCreationBreakdown>|
            !has_breakdown(record@, place as int, breakdown),
{
    match field_of(record, "cache_creation", place) {
        None => Some(None),
        Some(Json::Null) => Some(None),
        Some(value) => match CacheCreationBreakdown::from_json(value) {
            Some(breakdown) => Some(Some(breakdown)),
            None => None,
        },
    }
}

impl MessageStartUsage {
    /// Reads the counters at the beginning of a message.
    pub fn from_json(document: &Json) -> (r: Option<Self>)
        ensures
            r matches Some(usage) ==> is_start_usage(document@, usage),
            r is None ==> forall|usage: Self| !is_start_usage(document@, usage),
    {
        if !is_partial_record_of(document, 1, 5) {
            return None;
        }
        match (
            number_field_of(document, "input_tokens", 0),
            counter_of(document, "cache_read_input_tokens", 1),
            counter_of(document, "cache_creation_input_tokens", 2),
            read_breakdown(document, 3),
            read_optional_text(document, "service_tier", 4),
        ) {
            (
                Some(input_tokens),
                Some(cache_read_input_tokens),
                Some(cache_creation_input_tokens),
                Some(cache_creation),
                Some(service_tier),
            ) => Some(
                MessageStartUsage {
                    input_tokens,
                    cache_read_input_tokens,
                    cache_creation_input_tokens,
                    cache_creation,
                    service_tier,
                },
            ),
            _ => None,
        }
    }
}

impl MessageStartPayload {
    /// Reads the beginning of a message.
    pub fn from_json(document: &Json) -> (r: Option<Self>)
        ensures
            r matches Some(start) ==> is_start(document@, start),
            r is None ==> forall|start: Self| !is_start(document@, start),
    {
        match (is_record_of(document, 1), field_of(document, "usage", 0)) {
            (true, Some(usage)) => match MessageStartUsage::from_json(usage) {
                Some(usage) => Some(MessageStartPayload { usage }),
                None => None,
            },
            _ => None,
        }
    }
}

impl UsageDelta {
    /// Reads the counters towards the end of a message.
    pub fn from_json(document: &Json) -> (r: Option<Self>)
        ensures
            r matches Some(usage) ==> is_usage_delta(document@, usage),
            r is None ==> forall|usage: Self| !is_usage_delta(document@, usage),
    {
        if !is_partial_record_of(document, 1, 4) {
            return None;
        }
        match (
            number_field_of(document, "output_tokens", 0),
            counter_of(document, "cache_read_input_tokens", 1),
            counter_of(document, "cache_creation_input_tokens", 2),
            read_breakdown(document, 3),
        ) {
            (
                Some(output_tokens),
                Some(cache_read_input_tokens),
                Some(cache_creation_input_tokens),
                Some(cache_creation),
            ) => Some(
                UsageDelta {
                    output_tokens,
                    cache_read_input_tokens,
                    cache_creation_input_tokens,
                    cache_creation,
                },
            ),
            _ => None,
        }
    }
}

impl MessageDeltaPayload {
    /// Reads why a message stopped.
    pub fn from_json(document: &Json) -> (r: Option<Self>)
        ensures
            r matches Some(delta) ==> is_message_delta(document@, delta),
            r is None ==> forall|delta: Self| !is_message_delta(document@, delta),
    {
        match (
            is_partial_record_of(document, 1, 2),
            read_optional_text(document, "stop_reason", 0),
            read_optional_text(document, "stop_sequence", 1),
        ) {
            (true, Some(stop_reason), Some(stop_sequence)) => Some(
                MessageDeltaPayload { stop_reason, stop_sequence },
            ),
            _ => None,
        }
    }
}

impl AnthropicErrorPayload {
    /// Reads an error.
    pub fn from_json(document: &Json) -> (r: Option<Self>)
        ensures
            r matches Some(error) ==> is_error(document@, error),
            r is None ==> forall|error: Self| !is_error(document@, error),
    {
        match (
            is_record_of(document, 2),
            read_text(document, "type", 0),
            read_text(document, "message", 1),
        ) {
            (true, Some(error_type), Some(message)) => Some(
                AnthropicErrorPayload { error_type, message },
            ),
            _ => None,
        }
    }
}

impl AnthropicBlock {
    /// Reads a content block.
    pub fn from_json(document: &Json) -> (r: Option<Self>)
        ensures
            r matches Some(block) ==> is_block(document@, block),
            r is None ==> forall|block: Self| !is_block(document@, block),
    {
        let tag = match text_field_of(document, "type", 0) {
            Some(tag) => tag.as_str(),
            None => {
                return None;
            },
        };
        if same_text(tag, "text") {
            match (is_record_of(document, 2), read_text(document, "text", 1)) {
                (true, Some(text)) => Some(AnthropicBlock::Text { text }),
                _ => None,
            }
        } else if same_text(tag, "tool_use") {
            match (
                is_record_of(document, 4),
                read_text(document, "id", 1),
                read_text(document, "name", 2),
                field_of(document, "input", 3),
            ) {
                (true, Some(id), Some(name), Some(input)) => Some(
                    AnthropicBlock::ToolUse { id, name, input: input.clone() },
                ),
                _ => None,
            }
        } else if same_text(tag, "thinking") {
            match (
                is_partial_record_of(document, 1, 3),
                read_defaulted_text(document, "thinking", 1),
                read_defaulted_text(document, "signature", 2),
            ) {
                (true, Some(thinking), Some(signature)) => Some(
                    AnthropicBlock::Thinking { thinking, signature },
                ),
                _ => None,
            }
        } else if same_text(tag, "redacted_thinking") {
            match (is_record_of(document, 2), read_text(document, "data", 1)) {
                (true, Some(data)) => Some(AnthropicBlock::RedactedThinking { data }),
                _ => None,
            }
        } else if is_record_of(document, 1) {
            Some(AnthropicBlock::Unknown)
        } else {
            None
        }
    }
}

impl AnthropicDelta {
    /// Reads an increment.
    pub fn from_json(document: &Json) -> (r: Option<Self>)
        ensures
            r matches Some(delta) ==> is_delta(document@, delta),
            r is None ==> forall|delta: Self| !is_delta(document@, delta),
    {
        let tag = match text_field_of(document, "type", 0) {
            Some(tag) => tag.as_str(),
            None => {
                return None;
            },
        };
        if same_text(tag, "text_delta") {
            match (is_record_of(document, 2), read_text(document, "text", 1)) {
                (true, Some(text)) => Some(AnthropicDelta::TextDelta { text }),
                _ => None,
            }
        } else if same_text(tag, "input_json_delta") {
            match (is_record_of(document, 2), read_text(document, "partial_json", 1)) {
                (true, Some(partial_json)) => Some(AnthropicDelta::InputJsonDelta { partial_json }),
                _ => None,
            }
        } else if same_text(tag, "thinking_delta") {
            match (is_record_of(document, 2), read_text(document, "thinking", 1)) {
                (true, Some(thinking)) => Some(AnthropicDelta::ThinkingDelta { thinking }),
                _ => None,
            }
        } else if same_text(tag, "signature_delta") {
            match (is_record_of(document, 2), read_text(document, "signature", 1)) {
                (true, Some(signature)) => Some(AnthropicDelta::SignatureDelta { signature }),
                _ => None,
            }
        } else if is_record_of(document, 1) {
            Some(AnthropicDelta::Unknown)
        } else {
            None
        }
    }
}

impl AnthropicEvent {
    /// Reads an event.
    pub fn from_json(document: &Json) -> (r: Option<Self>)
        ensures
            r matches Some(event) ==> is_event(document@, event),
            r is None ==> forall|event: Self| !is_event(document@, event),
    {
        let tag = match text_field_of(document, "type", 0) {
            Some(tag) => tag.as_str(),
            None => {
                return None;
            },
        };
        if same_text(tag, "message_start") {
            match (is_record_of(document, 2), field_of(document, "message", 1)) {
                (true, Some(message)) => match MessageStartPayload::from_json(message) {
                    Some(message) => Some(AnthropicEvent::MessageStart { message }),
                    None => None,
                },
                _ => None,
            }
        } else if same_text(tag, "content_block_start") {
            match (
                is_record_of(document, 3),
                number_field_of(document, "index", 1),
                field_of(document, "content_block", 2),
            ) {
                (true, Some(index), Some(block)) => match AnthropicBlock::from_json(block) {
                    Some(content_block) => Some(
                        AnthropicEvent::ContentBlockStart { index, content_block },
                    ),
                    None => None,
                },
                _ => None,
            }
        } else if same_text(tag, "content_block_delta") {
            match (
                is_record_of(document, 3),
                number_field_of(document, "index", 1),
                field_of(document, "delta", 2),
            ) {
                (true, Some(index), Some(delta)) => match AnthropicDelta::from_json(delta) {
                    Some(delta) => Some(AnthropicEvent::ContentBlockDelta { index, delta }),
                    None => None,
                },
                _ => None,
            }
        } else if same_text(tag, "content_block_stop") {
            match (is_record_of(document, 2), number_field_of(document, "index", 1)) {
                (true, Some(index)) => Some(AnthropicEvent::ContentBlockStop { index }),
                _ => None,
            }
        } else if same_text(tag, "message_delta") {
            match (
                is_record_of(document, 3),
                field_of(document, "delta", 1),
                field_of(document, "usage", 2),
            ) {
                (true, Some(delta), Some(usage)) => match (
                    MessageDeltaPayload::from_json(delta),
                    UsageDelta::from_json(usage),
                ) {
                    (Some(delta), Some(usage)) => Some(
                        AnthropicEvent::MessageDelta { delta, usage },
                    ),
                    _ => None,
                },
                _ => None,
            }
        } else if same_text(tag, "message_stop") {
            if is_record_of(document, 1) {
                Some(AnthropicEvent::MessageStop)
            } else {
                None
            }
        } else if same_text(tag, "ping") {
            if is_record_of(document, 1) {
                Some(AnthropicEvent::Ping)
            } else {
                None
            }
        } else if same_text(tag, "error") {
            match (is_record_of(document, 2), field_of(document, "error", 1)) {
                (true, Some(error)) => match AnthropicErrorPayload::from_json(error) {
                    Some(error) => Some(AnthropicEvent::Error { error }),
                    None => None,
                },
                _ => None,
            }
        } else {
            None
        }
    }
}

/// Whether an event's payload that parses to `parsed` is read as `result`.
pub open spec fn is_event_reading(
    parsed: Result<JsonModel, Seq<char>>,
    result: Result<AnthropicEvent, AnthropicError>,
) -> bool {
    match (parsed, result) {
        (Ok(document), Ok(event)) => is_event(document, event),
        (Ok(document), Err(AnthropicError::Json(reason))) => reason@ == "no event of the stream"@
            && forall|event: AnthropicEvent| !is_event(document, event),
        (Err(message), Err(AnthropicError::Json(reason))) => reason@ == message,
        _ => false,
    }
}

/// Reads an event from what its payload parses to.
pub fn event_of_parsed(parsed: Result<Json, String>) -> (r: Result<AnthropicEvent, AnthropicError>)
    ensures
        is_event_reading(
            match parsed {
                Ok(document) => Ok(document@),
                Err(reason) => Err(reason@),
            },
            r,
        ),
{
    match parsed {
        Ok(document) => match AnthropicEvent::from_json(&document) {
            Some(event) => Ok(event),
            None => Err(AnthropicError::Json("no event of the stream".to_owned())),
        },
        Err(reason) => Err(AnthropicError::Json(reason)),
    }
}

/// Reads an event from its payload. An empty payload is no event.
pub fn read_event(data: &str) -> (r: Option<Result<AnthropicEvent, AnthropicError>>)
    ensures
        r is None <==> data@.len() == 0,
        r matches Some(result) ==> is_event_reading(json::json_parse(data@), result),
{
    if chars_of(data).len() == 0 {
        return None;
    }
    Some(event_of_parsed(Json::parse(data)))
}

} // verus!
