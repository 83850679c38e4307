//! Reads the events of the Chat Completions stream.

use vstd::prelude::*;

use super::errors::AzureOpenAIError;
use super::events::{
    ChatCompletionsChunk, Choice, ChunkError, ChunkUsage, Delta, FunctionDelta,
    PromptTokensDetails, ToolCallDelta,
};
use crate::json::{self, Json, JsonModel};
use crate::record::{
    self, counter_of, field_of, is_partial_record_of, number_field_of, read_optional_text,
    text_field_of,
};
use crate::text::{chars_of, same_text};

verus! {

/// Whether a document holds the part of a function call.
pub open spec fn is_function(document: JsonModel, function: FunctionDelta) -> bool {
    &&& record::is_partial_record(document, 0, 2)
    &&& record::has_optional_text(document, "name"@, 0, function.name)
    &&& record::has_optional_text(document, "arguments"@, 1, function.arguments)
}

/// Whether the field `function` is the part of a function call, or null or not there.
pub open spec fn has_function(
    record: JsonModel,
    place: int,
    function: Option<FunctionDelta>,
) -> bool {
    match record::field(record, "function"@, place) {
        None => function is None,
        Some(JsonModel::Null) => function is None,
        Some(value) => function matches Some(f) && is_function(value, f),
    }
}

/// Whether a document holds the part of a tool call.
pub open spec fn is_tool_call(document: JsonModel, call: ToolCallDelta) -> bool {
    &&& record::is_partial_record(document, 1, 4)
    &&& record::has_number(document, "index"@, 0, call.index)
    &&& record::has_optional_text(document, "id"@, 1, call.id)
    &&& record::has_optional_text(document, "type"@, 2, call.kind)
    &&& has_function(document, 3, call.function)
}

/// Whether the items of a list hold the parts of tool calls.
pub open spec fn are_tool_calls(items: Seq<JsonModel>, calls: Seq<ToolCallDelta>) -> bool {
    items.len() == calls.len() && forall|i: int|
        0 <= i < items.len() ==> is_tool_call(#[trigger] items[i], calls[i])
}

/// Whether the field `tool_calls` is a list of parts of tool calls, empty where it is not there.
pub open spec fn has_tool_calls(record: JsonModel, place: int, calls: Seq<ToolCallDelta>) -> bool {
    match record::field(record, "tool_calls"@, place) {
        None => calls.len() == 0,
        Some(JsonModel::Array(items)) => are_tool_calls(items, calls),
        Some(_) => false,
    }
}

/// Whether a document holds an increment.
pub open spec fn is_delta(document: JsonModel, delta: Delta) -> bool {
    &&& record::is_partial_record(document, 0, 4)
    &&& record::has_optional_text(document, "role"@, 0, delta.role)
    &&& record::has_optional_text(document, "content"@, 1, delta.content)
    &&& has_tool_calls(document, 2, delta.tool_calls@)
    &&& record::has_optional_text(document, "reasoning_content"@, 3, delta.reasoning_content)
}

/// Whether an increment says nothing.
pub open spec fn is_empty_delta(delta: Delta) -> bool {
    &&& delta.role is None
    &&& delta.content is None
    &&& delta.tool_calls@.len() == 0
    &&& delta.reasoning_content is None
}

/// Whether the field `delta` is an increment, one that says nothing where it is not there.
pub open spec fn has_delta(record: JsonModel, place: int, delta: Delta) -> bool {
    match record::field(record, "delta"@, place) {
        None => is_empty_delta(delta),
        Some(value) => is_delta(value, delta),
    }
}

/// Whether a document holds a choice.
pub open spec fn is_choice(document: JsonModel, choice: Choice) -> bool {
    &&& record::is_partial_record(document, 1, 3)
    &&& record::has_number(document, "index"@, 0, choice.index)
    &&& has_delta(document, 1, choice.delta)
    &&& record::has_optional_text(document, "finish_reason"@, 2, choice.finish_reason)
}

/// Whether the items of a list hold choices.
pub open spec fn are_choices(items: Seq<JsonModel>, choices: Seq<Choice>) -> bool {
    items.len() == choices.len() && forall|i: int|
        0 <= i < items.len() ==> is_choice(#[trigger] items[i], choices[i])
}

/// Whether the field `choices` is a list of choices, empty where it is not there.
pub open spec fn has_choices(record: JsonModel, place: int, choices: Seq<Choice>) -> bool {
    match record::field(record, "choices"@, place) {
        None => choices.len() == 0,
        Some(JsonModel::Array(items)) => are_choices(items, choices),
        Some(_) => false,
    }
}

/// Whether a document holds details of the prompt's tokens.
pub open spec fn is_details(document: JsonModel, details: PromptTokensDetails) -> bool {
    &&& record::is_partial_record(document, 0, 1)
    &&& record::has_counter(document, "cached_tokens"@, 0, details.cached_tokens)
}

/// Whether the field `prompt_tokens_details` holds details, or null, or is not there.
pub open spec fn has_details(
    record: JsonModel,
    place: int,
    details: Option<PromptTokensDetails>,
) -> bool {
    match record::field(record, "prompt_tokens_details"@, place) {
        None => details is None,
        Some(JsonModel::Null) => details is None,
        Some(value) => details matches Some(d) && is_details(value, d),
    }
}

/// Whether a document holds token counters.
pub open spec fn is_usage(document: JsonModel, usage: ChunkUsage) -> bool {
    &&& record::is_partial_record(document, 2, 3)
    &&& record::has_number(document, "prompt_tokens"@, 0, usage.prompt_tokens)
    &&& record::has_number(document, "completion_tokens"@, 1, usage.completion_tokens)
    &&& has_details(document, 2, usage.prompt_tokens_details)
}

/// Whether the field `usage` holds token counters, or null, or is not there.
pub open spec fn has_usage(record: JsonModel, place: int, usage: Option<ChunkUsage>) -> bool {
    match record::field(record, "usage"@, place) {
        None => usage is None,
        Some(JsonModel::Null) => usage is None,
        Some(value) => usage matches Some(u) && is_usage(value, u),
    }
}

/// Whether a document holds an error.
pub open spec fn is_error(document: JsonModel, error: ChunkError) -> bool {
    &&& document is Object
    &&& record::has_optional_text(document, "code"@, 0, error.code)
    &&& record::text_field(document, "message"@, 1) == Some(error.message@)
    &&& record::has_optional_text(document, "type"@, 2, error.error_type)
}

/// Whether a document holds no error.
pub open spec fn is_no_error(document: JsonModel) -> bool {
    forall|error: ChunkError| !is_error(document, error)
}

/// Whether an error is what the entry `error` of an event says: an entry that is not there or
/// holds anything else says none.
pub open spec fn has_error(event: JsonModel, error: Option<ChunkError>) -> bool {
    let entry = match event {
        JsonModel::Object(entries) => if entries.dom().contains("error"@) {
            Some(entries["error"@])
        } else {
            None
        },
        _ => None,
    };
    match (entry, error) {
        (Some(value), Some(e)) => is_error(value, e),
        (Some(value), None) => is_no_error(value),
        (None, _) => error is None,
    }
}

/// Whether a document holds an event. Fields that are not known do not matter.
pub open spec fn is_chunk(document: JsonModel, chunk: ChatCompletionsChunk) -> bool {
    &&& record::is_partial_record(document, 0, 3)
    &&& record::has_optional_text(document, "id"@, 0, chunk.id)
    &&& has_choices(document, 1, chunk.choices@)
    &&& has_usage(document, 2, chunk.usage)
    &&& has_error(document, chunk.error)
}

impl FunctionDelta {
    /// Reads the part of a function call.
    pub fn from_json(document: &Json) -> (r: Option<Self>)
        ensures
            r matches Some(function) ==> is_function(document@, function),
            r is None ==> forall|function: Self| !is_function(document@, function),
    {
        match (
            is_partial_record_of(document, 0, 2),
            read_optional_text(document, "name", 0),
            read_optional_text(document, "arguments", 1),
        ) {
            (true, Some(name), Some(arguments)) => Some(FunctionDelta { name, arguments }),
            _ => None,
        }
    }
}

fn read_function(record: &Json, place: usize) -> (r: Option<Option<FunctionDelta>>)
    ensures
        r matches Some(function) ==> has_function(record@, place as int, function),
        r is None ==> forall|function: Option<FunctionDelta>|
            !has_function(record@, place as int, function),
{
    match field_of(record, "function", place) {
        None => Some(None),
        Some(Json::Null) => Some(None),
        Some(value) => match FunctionDelta::from_json(value) {
            Some(function) => Some(Some(function)),
            None => None,
        },
    }
}

impl ToolCallDelta {
    /// Reads the part of a tool call.
    pub fn from_json(document: &Json) -> (r: Option<Self>)
        ensures
            r matches Some(call) ==> is_tool_call(document@, call),
            r is None ==> forall|call: Self| !is_tool_call(document@, call),
    {
        if !is_partial_record_of(document, 1, 4) {
            return None;
        }
        match (
            number_field_of(document, "index", 0),
            read_optional_text(document, "id", 1),
            read_optional_text(document, "type", 2),
            read_function(document, 3),
        ) {
            (Some(index), Some(id), Some(kind), Some(function)) => Some(
                ToolCallDelta { index, id, kind, function },
            ),
            _ => None,
        }
    }
}

fn read_tool_calls(record: &Json, place: usize) -> (r: Option<Vec<ToolCallDelta>>)
    ensures
        r matches Some(calls) ==> has_tool_calls(record@, place as int, calls@),
        r is None ==> forall|calls: Seq<ToolCallDelta>|
            !has_tool_calls(record@, place as int, calls),
{
    let field = match field_of(record, "tool_calls", place) {
        Some(field) => field,
        None => {
            return Some(Vec::new());
        },
    };
    let items = match field.as_array() {
        Some(items) => items,
        None => {
            return None;
        },
    };
    let ghost all = json::models(items@);
    let mut out: Vec<ToolCallDelta> = Vec::new();
    let mut i: usize = 0;
    while i < items.len()
        invariant
            i <= items.len(),
            all == json::models(items@),
            out@.len() == i,
            record::field(record@, "tool_calls"@, place as int) == Some(JsonModel::Array(all)),
            forall|k: int| 0 <= k < i ==> is_tool_call(#[trigger] all[k], out@[k]),
        decreases items.len() - i,
    {
        assert(all[i as int] == items@[i as int]@);
        match ToolCallDelta::from_json(&items[i]) {
            Some(call) => out.push(call),
            None => {
                assert forall|calls: Seq<ToolCallDelta>| !has_tool_calls(
                    record@,
                    place as int,
                    calls,
                ) by {
                    assert(!is_tool_call(all[i as int], calls[i as int]));
                }
                return None;
            },
        }
        i = i + 1;
    }
    Some(out)
}

impl Delta {
    /// Reads an increment.
    pub fn from_json(document: &Json) -> (r: Option<Self>)
        ensures
            r matches Some(delta) ==> is_delta(document@, delta),
            r is None ==> forall|delta: Self| !is_delta(document@, delta),
    {
        if !is_partial_record_of(document, 0, 4) {
            return None;
        }
        match (
            read_optional_text(document, "role", 0),
            read_optional_text(document, "content", 1),
            read_tool_calls(document, 2),
            read_optional_text(document, "reasoning_content", 3),
        ) {
            (Some(role), Some(content), Some(tool_calls), Some(reasoning_content)) => Some(
                Delta { role, content, tool_calls, reasoning_content },
            ),
            _ => None,
        }
    }
}

fn read_delta(record: &Json, place: usize) -> (r: Option<Delta>)
    ensures
        r matches Some(delta) ==> has_delta(record@, place as int, delta),
        r is None ==> forall|delta: Delta| !has_delta(record@, place as int, delta),
{
    match field_of(record, "delta", place) {
        Some(value) => Delta::from_json(value),
        None => Some(Delta::default()),
    }
}

impl Choice {
    /// Reads a choice.
    pub fn from_json(document: &Json) -> (r: Option<Self>)
        ensures
            r matches Some(choice) ==> is_choice(document@, choice),
            r is None ==> forall|choice: Self| !is_choice(document@, choice),
    {
        if !is_partial_record_of(document, 1, 3) {
            return None;
        }
        match (
            number_field_of(document, "index", 0),
            read_delta(document, 1),
            read_optional_text(document, "finish_reason", 2),
        ) {
            (Some(index), Some(delta), Some(finish_reason)) => Some(
                Choice { index, delta, finish_reason },
            ),
            _ => None,
        }
    }
}

fn read_choices(record: &Json, place: usize) -> (r: Option<Vec<Choice>>)
    ensures
        r matches Some(choices) ==> has_choices(record@, place as int, choices@),
        r is None ==> forall|choices: Seq<Choice>| !has_choices(record@, place as int, choices),
{
    let field = match field_of(record, "choices", place) {
        Some(field) => field,
        None => {
            return Some(Vec::new());
        },
    };
    let items = match field.as_array() {
        Some(items) => items,
        None => {
            return None;
        },
    };
    let ghost all = json::models(items@);
    let mut out: Vec<Choice> = Vec::new();
    let mut i: usize = 0;
    while i < items.len()
        invariant
            i <= items.len(),
            all == json::models(items@),
            out@.len() == i,
            record::field(record@, "choices"@, place as int) == Some(JsonModel::Array(all)),
            forall|k: int| 0 <= k < i ==> is_choice(#[trigger] all[k], out@[k]),
        decreases items.len() - i,
    {
        assert(all[i as int] == items@[i as int]@);
        match Choice::from_json(&items[i]) {
            Some(choice) => out.push(choice),
            None => {
                assert forall|choices: Seq<Choice>| !has_choices(record@, place as int, choices) by {
                    assert(!is_choice(all[i as int], choices[i as int]));
                }
                return None;
            },
        }
        i = i + 1;
    }
    Some(out)
}

impl PromptTokensDetails {
    /// Reads details of the prompt's tokens.
    pub fn from_json(document: &Json) -> (r: Option<Self>)
        ensures
            r matches Some(details) ==> is_details(document@, details),
            r is None ==> forall|details: Self| !is_details(document@, details),
    {
        match (is_partial_record_of(document, 0, 1), counter_of(document, "cached_tokens", 0)) {
            (true, Some(cached_tokens)) => Some(PromptTokensDetails { cached_tokens }),
            _ => None,
        }
    }
}

fn read_details(record: &Json, place: usize) -> (r: Option<Option<PromptTokensDetails>>)
    ensures
        r matches Some(details) ==> has_details(record@, place as int, details),
        r is None ==> forall|details: Option<PromptTokensDetails>|
            !has_details(record@, place as int, details),
{
    match field_of(record, "prompt_tokens_details", place) {
        None => Some(None),
        Some(Json::Null) => Some(None),
        Some(value) => match PromptTokensDetails::from_json(value) {
            Some(details) => Some(Some(details)),
            None => None,
        },
    }
}

impl ChunkUsage {
    /// Reads token counters.
    pub fn from_json(document: &Json) -> (r: Option<Self>)
        ensures
            r matches Some(usage) ==> is_usage(document@, usage),
            r is None ==> forall|usage: Self| !is_usage(document@, usage),
    {
        if !is_partial_record_of(document, 2, 3) {
            return None;
        }
        match (
            number_field_of(document, "prompt_tokens", 0),
            number_field_of(document, "completion_tokens", 1),
            read_details(document, 2),
        ) {
            (Some(prompt_tokens), Some(completion_tokens), Some(prompt_tokens_details)) => Some(
                ChunkUsage { prompt_tokens, completion_tokens, prompt_tokens_details },
            ),
            _ => None,
        }
    }
}

fn read_usage(record: &Json, place: usize) -> (r: Option<Option<ChunkUsage>>)
    ensures
        r matches Some(usage) ==> has_usage(record@, place as int, usage),
        r is None ==> forall|usage: Option<ChunkUsage>| !has_usage(record@, place as int, usage),
{
    match field_of(record, "usage", place) {
        None => Some(None),
        Some(Json::Null) => Some(None),
        Some(value) => match ChunkUsage::from_json(value) {
            Some(usage) => Some(Some(usage)),
            None => None,
        },
    }
}

impl ChunkError {
    /// Reads an error.
    pub fn from_json(document: &Json) -> (r: Option<Self>)
        ensures
            r matches Some(error) ==> is_error(document@, error),
            r is None ==> forall|error: Self| !is_error(document@, error),
    {
        if !matches!(document, Json::Object(_)) {
            return None;
        }
        match (
            read_optional_text(document, "code", 0),
            text_field_of(document, "message", 1),
            read_optional_text(document, "type", 2),
        ) {
            (Some(code), Some(message), Some(error_type)) => Some(
                ChunkError { code, error_type, message: message.clone() },
            ),
            _ => None,
        }
    }
}

fn read_error(event: &Json) -> (r: Option<ChunkError>)
    ensures
        has_error(event@, r),
{
    match event.get("error") {
        None => None,
        Some(value) => ChunkError::from_json(value),
    }
}

impl ChatCompletionsChunk {
    /// Reads an event.
    pub fn from_json(document: &Json) -> (r: Option<Self>)
        ensures
            r matches Some(chunk) ==> is_chunk(document@, chunk),
            r is None ==> forall|chunk: Self| !is_chunk(document@, chunk),
    {
        if !is_partial_record_of(document, 0, 3) {
            return None;
        }
        match (
            read_optional_text(document, "id", 0),
            read_choices(document, 1),
            read_usage(document, 2),
        ) {
            (Some(id), Some(choices), Some(usage)) => Some(
                ChatCompletionsChunk { id, choices, usage, error: read_error(document) },
            ),
            _ => None,
        }
    }
}

/// Whether an event's payload that parses to `parsed` is read as `result`.
pub open spec fn is_chunk_reading(
    parsed: Result<JsonModel, Seq<char>>,
    result: Result<ChatCompletionsChunk, AzureOpenAIError>,
) -> bool {
    match (parsed, result) {
        (Ok(document), Ok(chunk)) => is_chunk(document, chunk),
        (Ok(document), Err(AzureOpenAIError::Json(reason))) => reason@ == "no chunk of the stream"@
            && forall|chunk: ChatCompletionsChunk| !is_chunk(document, chunk),
        (Err(message), Err(AzureOpenAIError::Json(reason))) => reason@ == message,
        _ => false,
    }
}

/// Reads an event from what its payload parses to.
pub fn chunk_of_parsed(parsed: Result<Json, String>) -> (r: Result<
    ChatCompletionsChunk,
    AzureOpenAIError,
>)
    ensures
        is_chunk_reading(
            match parsed {
                Ok(document) => Ok(document@),
                Err(reason) => Err(reason@),
            },
            r,
        ),
{
    match parsed {
        Ok(document) => match ChatCompletionsChunk::from_json(&document) {
            Some(chunk) => Ok(chunk),
            None => Err(AzureOpenAIError::Json("no chunk of the stream".to_owned())),
        },
        Err(reason) => Err(AzureOpenAIError::Json(reason)),
    }
}

/// Reads an event from its payload. An empty payload and the mark at the end of the stream,
/// `[DONE]`, are no events.
pub fn read_chunk(data: &str) -> (r: Option<Result<ChatCompletionsChunk, AzureOpenAIError>>)
    ensures
        r is None <==> data@ == "[DONE]"@ || data@.len() == 0,
        r matches Some(result) ==> is_chunk_reading(json::json_parse(data@), result),
{
    if same_text(data, "[DONE]") || chars_of(data).len() == 0 {
        return None;
    }
    Some(chunk_of_parsed(Json::parse(data)))
}

} // verus!
