//! Events of the Chat Completions stream: every field is read under its own name.

use vstd::prelude::*;

use super::wire;
use crate::azure_openai::decode;
use crate::azure_openai::errors::AzureOpenAIError;
use crate::azure_openai::events::{
    ChatCompletionsChunk, Choice, ChunkError, ChunkUsage, Delta, FunctionDelta,
    PromptTokensDetails, ToolCallDelta,
};
use crate::json::{self, JsonModel};
use crate::record;

verus! {

/// A value that says a text, or null.
pub open spec fn says(text: Option<Seq<char>>) -> JsonModel {
    match text {
        Some(s) => JsonModel::Text(s),
        None => JsonModel::Null,
    }
}

/// A number value.
pub open spec fn counts(n: u32) -> JsonModel {
    JsonModel::Number(json::json_number(n as u64))
}

/// Whether an optional text is the given one.
pub open spec fn same(text: Option<String>, said: Option<Seq<char>>) -> bool {
    match (text, said) {
        (Some(t), Some(s)) => t@ == s,
        (None, None) => true,
        _ => false,
    }
}

proof fn lemma_fields(document: JsonModel, fields: Seq<(Seq<char>, JsonModel)>)
    requires
        wire::lays_out(document, fields),
    ensures
        record::is_record(document, fields.len() as int),
        forall|i: int|
            0 <= i < fields.len() ==> record::field(document, (#[trigger] fields[i]).0, i) == Some(
                fields[i].1,
            ),
{
}

/// The part of a function call decodes to its name and its arguments; null says none.
pub proof fn functions_decode(
    document: JsonModel,
    name: Option<Seq<char>>,
    arguments: Option<Seq<char>>,
    function: FunctionDelta,
)
    requires
        wire::lays_out(document, seq![("name"@, says(name)), ("arguments"@, says(arguments))]),
    ensures
        decode::is_function(document, function) <==> same(function.name, name) && same(
            function.arguments,
            arguments,
        ),
{
    let fields = seq![("name"@, says(name)), ("arguments"@, says(arguments))];
    lemma_fields(document, fields);
    assert(fields[0] == ("name"@, says(name)));
    assert(fields[1] == ("arguments"@, says(arguments)));
}

/// The part of a tool call decodes to its index, its id, its type and its function.
pub proof fn tool_calls_decode(
    document: JsonModel,
    index: u32,
    id: Option<Seq<char>>,
    kind: Option<Seq<char>>,
    function: JsonModel,
    call: ToolCallDelta,
)
    requires
        wire::lays_out(
            document,
            seq![
                ("index"@, counts(index)),
                ("id"@, says(id)),
                ("type"@, says(kind)),
                ("function"@, function),
            ],
        ),
    ensures
        decode::is_tool_call(document, call) <==> {
            &&& counts(call.index) == counts(index)
            &&& same(call.id, id)
            &&& same(call.kind, kind)
            &&& function is Null ==> call.function is None
            &&& !(function is Null) ==> (call.function matches Some(f) && decode::is_function(
                function,
                f,
            ))
        },
{
    let fields = seq![
        ("index"@, counts(index)),
        ("id"@, says(id)),
        ("type"@, says(kind)),
        ("function"@, function),
    ];
    lemma_fields(document, fields);
    assert(fields[0] == ("index"@, counts(index)));
    assert(fields[1] == ("id"@, says(id)));
    assert(fields[2] == ("type"@, says(kind)));
    assert(fields[3] == ("function"@, function));
}

/// A later part of a tool call, which says neither id nor type nor function, only has its index.
pub proof fn tool_calls_may_be_short(document: JsonModel, index: u32, call: ToolCallDelta)
    requires
        document is Object,
        wire::entry(document, "index"@) == Some(counts(index)),
        wire::entry(document, "id"@) is None,
        wire::entry(document, "type"@) is None,
        wire::entry(document, "function"@) is None,
    ensures
        decode::is_tool_call(document, call) <==> counts(call.index) == counts(index)
            && call.id is None && call.kind is None && call.function is None,
{
}

/// An increment decodes to its role, its content, its parts of tool calls in order and its
/// reasoning.
pub proof fn deltas_decode(
    document: JsonModel,
    role: Option<Seq<char>>,
    content: Option<Seq<char>>,
    calls: Seq<JsonModel>,
    reasoning: Option<Seq<char>>,
    delta: Delta,
)
    requires
        wire::lays_out(
            document,
            seq![
                ("role"@, says(role)),
                ("content"@, says(content)),
                ("tool_calls"@, JsonModel::Array(calls)),
                ("reasoning_content"@, says(reasoning)),
            ],
        ),
    ensures
        decode::is_delta(document, delta) <==> {
            &&& same(delta.role, role)
            &&& same(delta.content, content)
            &&& same(delta.reasoning_content, reasoning)
            &&& delta.tool_calls@.len() == calls.len()
            &&& forall|i: int|
                0 <= i < calls.len() ==> decode::is_tool_call(
                    #[trigger] calls[i],
                    delta.tool_calls@[i],
                )
        },
{
    let fields = seq![
        ("role"@, says(role)),
        ("content"@, says(content)),
        ("tool_calls"@, JsonModel::Array(calls)),
        ("reasoning_content"@, says(reasoning)),
    ];
    lemma_fields(document, fields);
    assert(fields[0] == ("role"@, says(role)));
    assert(fields[1] == ("content"@, says(content)));
    assert(fields[2] == ("tool_calls"@, JsonModel::Array(calls)));
    assert(fields[3] == ("reasoning_content"@, says(reasoning)));
}

/// An increment may say nothing at all.
pub proof fn deltas_may_be_empty(document: JsonModel, delta: Delta)
    requires
        document is Object,
        wire::entry(document, "role"@) is None,
        wire::entry(document, "content"@) is None,
        wire::entry(document, "tool_calls"@) is None,
        wire::entry(document, "reasoning_content"@) is None,
    ensures
        decode::is_delta(document, delta) <==> delta.role is None && delta.content is None
            && delta.tool_calls@.len() == 0 && delta.reasoning_content is None,
{
}

/// A choice decodes to its index, its increment and its finish reason.
pub proof fn choices_decode(
    document: JsonModel,
    index: u32,
    inner: JsonModel,
    reason: Option<Seq<char>>,
    choice: Choice,
)
    requires
        wire::lays_out(
            document,
            seq![
                ("index"@, counts(index)),
                ("delta"@, inner),
                ("finish_reason"@, says(reason)),
            ],
        ),
    ensures
        decode::is_choice(document, choice) <==> counts(choice.index) == counts(index)
            && decode::is_delta(inner, choice.delta) && same(choice.finish_reason, reason),
{
    let fields = seq![
        ("index"@, counts(index)),
        ("delta"@, inner),
        ("finish_reason"@, says(reason)),
    ];
    lemma_fields(document, fields);
    assert(fields[0] == ("index"@, counts(index)));
    assert(fields[1] == ("delta"@, inner));
    assert(fields[2] == ("finish_reason"@, says(reason)));
}

/// A choice without an increment has one that says nothing, and one without a finish reason has
/// none.
pub proof fn choices_may_be_short(document: JsonModel, index: u32, choice: Choice)
    requires
        document is Object,
        wire::entry(document, "index"@) == Some(counts(index)),
        wire::entry(document, "delta"@) is None,
        wire::entry(document, "finish_reason"@) is None,
    ensures
        decode::is_choice(document, choice) <==> {
            &&& counts(choice.index) == counts(index)
            &&& choice.finish_reason is None
            &&& choice.delta.role is None && choice.delta.content is None
            &&& choice.delta.tool_calls@.len() == 0 && choice.delta.reasoning_content is None
        },
{
}

/// Token counters decode each from the field of its name; the cached ones come from the details.
pub proof fn counters_decode(
    document: JsonModel,
    prompt: u32,
    completion: u32,
    details: JsonModel,
    usage: ChunkUsage,
)
    requires
        wire::lays_out(
            document,
            seq![
                ("prompt_tokens"@, counts(prompt)),
                ("completion_tokens"@, counts(completion)),
                ("prompt_tokens_details"@, details),
            ],
        ),
    ensures
        decode::is_usage(document, usage) <==> {
            &&& counts(usage.prompt_tokens) == counts(prompt)
            &&& counts(usage.completion_tokens) == counts(completion)
            &&& details is Null ==> usage.prompt_tokens_details is None
            &&& !(details is Null) ==> (usage.prompt_tokens_details matches Some(d)
                && decode::is_details(details, d))
        },
{
    let fields = seq![
        ("prompt_tokens"@, counts(prompt)),
        ("completion_tokens"@, counts(completion)),
        ("prompt_tokens_details"@, details),
    ];
    lemma_fields(document, fields);
    assert(fields[0] == ("prompt_tokens"@, counts(prompt)));
    assert(fields[1] == ("completion_tokens"@, counts(completion)));
    assert(fields[2] == ("prompt_tokens_details"@, details));
}

/// Counters without details have none, and details without cached tokens have zero.
pub proof fn details_may_be_missing(
    document: JsonModel,
    prompt: u32,
    completion: u32,
    usage: ChunkUsage,
    details: PromptTokensDetails,
    cached: u32,
)
    requires
        document is Object,
    ensures
        wire::entry(document, "prompt_tokens"@) == Some(counts(prompt)) && wire::entry(
            document,
            "completion_tokens"@,
        ) == Some(counts(completion)) && wire::entry(document, "prompt_tokens_details"@) is None
            ==> (decode::is_usage(document, usage) <==> counts(usage.prompt_tokens) == counts(prompt)
            && counts(usage.completion_tokens) == counts(completion)
            && usage.prompt_tokens_details is None),
        wire::entry(document, "cached_tokens"@) == Some(counts(cached)) ==> (decode::is_details(
            document,
            details,
        ) <==> counts(details.cached_tokens) == counts(cached)),
        wire::entry(document, "cached_tokens"@) is None ==> (decode::is_details(document, details)
            <==> details.cached_tokens == 0),
{
}

/// An error decodes to its code, its message and its type.
pub proof fn errors_decode(
    document: JsonModel,
    code: Option<Seq<char>>,
    message: Seq<char>,
    error_type: Option<Seq<char>>,
    error: ChunkError,
)
    requires
        document is Object,
        wire::lays_out(
            document,
            seq![
                ("code"@, says(code)),
                ("message"@, JsonModel::Text(message)),
                ("type"@, says(error_type)),
            ],
        ),
    ensures
        decode::is_error(document, error) <==> same(error.code, code) && error.message@ == message
            && same(error.error_type, error_type),
{
    let fields = seq![
        ("code"@, says(code)),
        ("message"@, JsonModel::Text(message)),
        ("type"@, says(error_type)),
    ];
    assert(fields[0] == ("code"@, says(code)));
    assert(fields[1] == ("message"@, JsonModel::Text(message)));
    assert(fields[2] == ("type"@, says(error_type)));
}

/// An event decodes to its id, its choices in order and its counters. Where it has no error entry
/// it has no error.
pub proof fn events_decode(
    document: JsonModel,
    id: Option<Seq<char>>,
    choices: Seq<JsonModel>,
    usage: JsonModel,
    chunk: ChatCompletionsChunk,
)
    requires
        wire::lays_out(
            document,
            seq![
                ("id"@, says(id)),
                ("choices"@, JsonModel::Array(choices)),
                ("usage"@, usage),
            ],
        ),
        wire::entry(document, "error"@) is None,
    ensures
        decode::is_chunk(document, chunk) <==> {
            &&& same(chunk.id, id)
            &&& chunk.choices@.len() == choices.len()
            &&& forall|i: int|
                0 <= i < choices.len() ==> decode::is_choice(#[trigger] choices[i], chunk.choices@[i])
            &&& usage is Null ==> chunk.usage is None
            &&& !(usage is Null) ==> (chunk.usage matches Some(u) && decode::is_usage(usage, u))
            &&& chunk.error is None
        },
{
    let fields = seq![
        ("id"@, says(id)),
        ("choices"@, JsonModel::Array(choices)),
        ("usage"@, usage),
    ];
    lemma_fields(document, fields);
    assert(fields[0] == ("id"@, says(id)));
    assert(fields[1] == ("choices"@, JsonModel::Array(choices)));
    assert(fields[2] == ("usage"@, usage));
}

/// What an optional text says.
pub open spec fn said(text: Option<String>) -> Option<Seq<char>> {
    match text {
        Some(t) => Some(t@),
        None => None,
    }
}

/// An event with an error says that error, and without choices and counters nothing else.
pub proof fn error_events_decode(
    document: JsonModel,
    inner: JsonModel,
    error: ChunkError,
    chunk: ChatCompletionsChunk,
)
    requires
        document is Object,
        wire::entry(document, "id"@) is None,
        wire::entry(document, "choices"@) is None,
        wire::entry(document, "usage"@) is None,
        wire::entry(document, "error"@) == Some(inner),
        inner is Object,
        wire::lays_out(
            inner,
            seq![
                ("code"@, says(said(error.code))),
                ("message"@, JsonModel::Text(error.message@)),
                ("type"@, says(said(error.error_type))),
            ],
        ),
    ensures
        decode::is_chunk(document, chunk) <==> {
            &&& chunk.id is None && chunk.choices@.len() == 0 && chunk.usage is None
            &&& chunk.error matches Some(e)
            &&& same(e.code, said(error.code)) && e.message@ == error.message@
            &&& same(e.error_type, said(error.error_type))
        },
{
    errors_decode(inner, said(error.code), error.message@, said(error.error_type), error);
    assert(decode::is_error(inner, error));
    if let Some(e) = chunk.error {
        errors_decode(inner, said(error.code), error.message@, said(error.error_type), e);
    }
}

/// An entry that is no error object says no error.
pub proof fn other_error_entries_do_not_matter(
    document: JsonModel,
    inner: JsonModel,
    chunk: ChatCompletionsChunk,
)
    requires
        wire::entry(document, "error"@) == Some(inner),
        !(inner is Object) || wire::word(inner, "message"@) is None,
        decode::is_chunk(document, chunk),
    ensures
        chunk.error is None,
{
}

/// A payload that does not parse, or that is no event, ends as a decoding error with the reason; one
/// that is an event is read as it.
pub proof fn readings_are_faithful(
    parsed: Result<JsonModel, Seq<char>>,
    result: Result<ChatCompletionsChunk, AzureOpenAIError>,
)
    requires
        decode::is_chunk_reading(parsed, result),
    ensures
        parsed matches Err(reason) ==> (result matches Err(AzureOpenAIError::Json(r)) && r@
            == reason),
        parsed matches Ok(document) ==> {
            &&& result matches Ok(chunk) ==> decode::is_chunk(document, chunk)
            &&& result is Err ==> result->Err_0 is Json && forall|chunk: ChatCompletionsChunk|
                !decode::is_chunk(document, chunk)
        },
{
}

} // verus!
