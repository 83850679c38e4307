//! What one call writes, another reads.

use vstd::prelude::*;

use super::azure_stream;
use super::texts;
use crate::anthropic::error_body as messages_bodies;
use crate::anthropic::errors::AnthropicApiErrorKind;
use crate::anthropic::stream as messages_turns;
use crate::azure_openai::error_body as azure_bodies;
use crate::azure_openai::errors::{AzureOpenAIError, ErrorModel};
use crate::azure_openai::events::ChatCompletionsChunk;
use crate::azure_openai::stream as azure_turns;
use crate::compaction::CompactionError;
use crate::context_manager::FromMessagesError;
use crate::duration::Duration;
use crate::history_store::{FileRead, JsonFileHistoryStore, JsonFileHistoryStoreError};
use crate::json::{self, Json};
use crate::mcp::connection::McpError;
use crate::message::Message;
use crate::prompt::PromptError;
use crate::snapshot::{self, ConversationSnapshot, SnapshotError};
use crate::stream::{self, ChunkModel, FinishReason, StreamChunk};
use crate::testing::ScriptedError;
use crate::text;

verus! {

/// A number is read from its numeral, with white space around it once that is trimmed.
pub proof fn numerals_are_parsed(
    n: u64,
    numeral: String,
    parsed: Option<u64>,
    spaced: &str,
    trimmed: String,
    again: &str,
    before: Seq<char>,
    after: Seq<char>,
)
    requires
        call_ensures(text::decimal_text, (n,), numeral),
        text::blank(before),
        text::blank(after),
        spaced@ == before + numeral@ + after,
        call_ensures(text::trim, (spaced,), trimmed),
        again@ == trimmed@,
        call_ensures(text::parse_unsigned, (again,), parsed),
    ensures
        trimmed@ == numeral@,
        parsed == Some(n),
{
    texts::numerals_read_back(n as nat);
    assert(text::is_digit(numeral@[0]));
    assert(text::is_digit(numeral@[numeral@.len() - 1]));
    texts::trimming_keeps_the_middle(before, numeral@, after);
}

/// Texts, numbers, truth values and lists read back from the values that they were made into, and
/// from no other kind of value.
pub proof fn values_read_back(
    s: &str,
    n: u64,
    b: bool,
    items: Vec<Json>,
    a: Json,
    c: Json,
    d: Json,
    e: Json,
    text: Option<&String>,
    number: Option<u64>,
    flag: Option<bool>,
    list: Option<&Vec<Json>>,
    wrong: Option<&String>,
)
    requires
        call_ensures(Json::text, (s,), a),
        call_ensures(Json::number, (n,), c),
        call_ensures(Json::flag, (b,), d),
        call_ensures(Json::array, (items,), e),
        call_ensures(Json::as_text, (&a,), text),
        call_ensures(Json::as_unsigned, (&c,), number),
        call_ensures(Json::as_flag, (&d,), flag),
        call_ensures(Json::as_array, (&e,), list),
        call_ensures(Json::as_text, (&c,), wrong),
    ensures
        text matches Some(t) && t@ == s@,
        number == Some(n),
        flag == Some(b),
        list matches Some(l) && json::models(l@) == json::models(items@),
        wrong is None,
{
}

/// A message reads back from the document it is written as, but for its cache breakpoints.
pub proof fn messages_read_back(message: Message, document: Json, read: Option<Message>)
    requires
        call_ensures(Message::to_json, (&message,), document),
        call_ensures(Message::from_json, (&document,), read),
    ensures
        read matches Some(m) && m@ == super::stored::without_breakpoints(message@),
{
    super::stored::messages_are_stored(message@);
}

/// A valid snapshot whose arguments read back is loaded from the text that it is written as, but for
/// its cache breakpoints. A file that is not there holds none, and a failure to read is passed on.
pub proof fn snapshots_are_loaded(
    stored: ConversationSnapshot,
    written: String,
    reason: String,
    loaded: Result<Option<ConversationSnapshot>, JsonFileHistoryStoreError>,
    missing: Result<Option<ConversationSnapshot>, JsonFileHistoryStoreError>,
    failed: Result<Option<ConversationSnapshot>, JsonFileHistoryStoreError>,
)
    requires
        snapshot::is_valid(stored@),
        snapshot::arguments_read_back(stored@),
        call_ensures(ConversationSnapshot::to_text, (&stored,), written),
        call_ensures(JsonFileHistoryStore::loaded, (FileRead::Text(written),), loaded),
        call_ensures(JsonFileHistoryStore::loaded, (FileRead::Missing,), missing),
        call_ensures(JsonFileHistoryStore::loaded, (FileRead::Failed(reason),), failed),
    ensures
        loaded matches Ok(Some(s)) && s@ == snapshot::kept_snapshot(stored@),
        missing matches Ok(None),
        failed matches Err(JsonFileHistoryStoreError::Io(e)) && e == reason,
{
    match loaded {
        Ok(Some(s)) => {
            assert(snapshot::is_text_reading(
                written@,
                Ok::<ConversationSnapshot, SnapshotError>(s),
            ));
        },
        Err(JsonFileHistoryStoreError::Json(e)) => {
            assert(snapshot::is_text_reading(
                written@,
                Err::<ConversationSnapshot, SnapshotError>(e),
            ));
        },
        _ => {},
    }
}

/// The wait in a response is the number in its header: seconds for one provider, and for the other
/// milliseconds where they are given and else seconds.
pub proof fn waits_are_parsed(
    n: u64,
    header: &str,
    a: Option<Duration>,
    b: Option<Duration>,
    c: Option<Duration>,
)
    requires
        header@ == text::decimal(n as nat),
        call_ensures(messages_bodies::parse_retry_after, (Some(header),), a),
        call_ensures(azure_bodies::parse_retry_after, (Some(header), Some(header)), b),
        call_ensures(azure_bodies::parse_retry_after, (None::<&str>, Some(header)), c),
    ensures
        a matches Some(d) && d@ == n * 1_000_000_000,
        b matches Some(d) && d@ == n * 1_000_000,
        c matches Some(d) && d@ == n * 1_000_000_000,
{
    let none = Seq::<char>::empty();
    assert(header@ =~= none + text::decimal(n as nat) + none);
    texts::numerals_read_back(n as nat);
    let numeral = text::decimal(n as nat);
    assert(text::is_digit(numeral[0]));
    assert(text::is_digit(numeral[numeral.len() - 1]));
    texts::trimming_keeps_the_middle(none, numeral, none);
}

/// An invalid request is an overflow exactly where its message says that the prompt is too long.
pub proof fn overflows_are_recognised(
    error_type: &str,
    message: &str,
    kind: AnthropicApiErrorKind,
)
    requires
        call_ensures(AnthropicApiErrorKind::from_error, (error_type, message), kind),
    ensures
        kind is ContextOverflow <==> error_type@ == "invalid_request_error"@ && text::has_part(
            text::ascii_lower(message@),
            "prompt is too long"@,
        ),
        kind is InvalidRequest ==> error_type@ == "invalid_request_error"@,
{
    super::anthropic_errors::error_types_have_their_category(error_type@);
}

/// Reasons for the end of a turn are mapped to their meaning by either provider.
pub proof fn reasons_are_mapped(a: String, stop: &str, r: FinishReason, f: FinishReason)
    requires
        call_ensures(messages_turns::map_stop_reason, (&Some(a),), r),
        call_ensures(azure_turns::map_finish_reason, (Some(stop),), f),
    ensures
        r is ToolUse <==> a@ == "tool_use"@,
        r is MaxTokens <==> a@ == "max_tokens"@,
        r is EndTurn <==> a@ == "end_turn"@,
        r is StopSequence <==> a@ == "stop_sequence"@,
        f is ToolUse <==> stop@ == "tool_calls"@ || stop@ == "function_call"@,
        f is MaxTokens <==> stop@ == "length"@,
        f is EndTurn <==> stop@ == "stop"@,
        r matches FinishReason::Other(s) ==> s@ == a@,
        f matches FinishReason::Other(s) ==> s@ == stop@,
{
    super::anthropic_stream::stop_reasons_have_their_meaning(Some(a@));
    azure_stream::finish_reasons_have_their_meaning(Some(stop@));
}

/// A stream of one tool call comes out as the call's start, its argument fragments as they came, one
/// closing chunk for the fragments put together, and the end of the turn.
pub proof fn tool_calls_stream_through(
    index: u32,
    id: String,
    name: String,
    fragments: Seq<String>,
    reason: String,
    events: Vec<Result<ChatCompletionsChunk, AzureOpenAIError>>,
    out: Vec<Result<StreamChunk, AzureOpenAIError>>,
)
    requires
        events@.len() == fragments.len() + 2,
        azure_stream::says_part(events@[0], azure_stream::first_part(index, id, name)),
        forall|i: int|
            0 <= i < fragments.len() ==> azure_stream::says_part(
                #[trigger] events@[i + 1],
                azure_stream::fragment_part(index, fragments[i]),
            ),
        azure_stream::says_finish(events@[fragments.len() as int + 1], reason),
        call_ensures(azure_turns::process_events, (events,), out),
    ensures
        azure_turns::item_models(out@) == azure_turns::items(
            seq![ChunkModel::ToolCallStarted { id: id@, name: name@ }]
                + azure_stream::shown_fragments(id@, fragments) + seq![
                stream::tool_call_closed(id@, name@, azure_stream::put_together(fragments)),
                ChunkModel::TurnFinished {
                    reason: azure_turns::finish_meaning(Some(reason@)),
                    usage: stream::no_usage(),
                    service_tier: None,
                },
            ],
        ),
{
    let fresh = azure_turns::fresh_turn();
    azure_stream::tool_call_streams(fresh, index, id, name, fragments, reason, events@);
    assert(events@.skip(fragments.len() as int + 2) =~= Seq::empty());
    let chunks = seq![ChunkModel::ToolCallStarted { id: id@, name: name@ }]
        + azure_stream::shown_fragments(id@, fragments) + seq![
        stream::tool_call_closed(id@, name@, azure_stream::put_together(fragments)),
    ];
    let end = ChunkModel::TurnFinished {
        reason: azure_turns::finish_meaning(Some(reason@)),
        usage: stream::no_usage(),
        service_tier: None,
    };
    assert(seq![ChunkModel::ToolCallStarted { id: id@, name: name@ }]
        + azure_stream::shown_fragments(id@, fragments) + seq![
        stream::tool_call_closed(id@, name@, azure_stream::put_together(fragments)),
        end,
    ] =~= chunks.push(end));
    assert(azure_turns::items(chunks) + seq![Ok::<ChunkModel, ErrorModel>(end)]
        =~= azure_turns::items(chunks.push(end)));
}

/// Every error's text names what went wrong: the reason as it came, or the numbers that do not
/// match.
pub proof fn error_texts_say_what_went_wrong(
    reason: String,
    path: String,
    version: u32,
    a: String,
    b: String,
    c: String,
    d: String,
    e: String,
    f: String,
    g: String,
)
    requires
        call_ensures(CompactionError::text, (&CompactionError::SummarizationFailed(reason),), a),
        call_ensures(PromptError::text, (&PromptError::LoadFile { path, source: reason },), b),
        call_ensures(JsonFileHistoryStoreError::text, (&JsonFileHistoryStoreError::Io(reason),), c),
        call_ensures(McpError::text, (&McpError::Service(reason),), d),
        call_ensures(ScriptedError::text, (&ScriptedError(reason),), e),
        call_ensures(SnapshotError::text, (&SnapshotError::UnsupportedVersion(version),), f),
        call_ensures(SnapshotError::text, (&SnapshotError::Syntax(reason),), g),
    ensures
        text::has_part(a@, reason@),
        text::has_part(b@, reason@),
        text::has_part(b@, path@),
        text::has_part(c@, reason@),
        text::has_part(d@, reason@),
        text::has_part(e@, reason@),
        text::has_part(f@, text::decimal(version as nat)),
        g@ == reason@,
{
    let none = Seq::<char>::empty();
    let r = reason@;
    texts::parts_are_found(r, r, "Summarization failed: "@, none);
    assert("Summarization failed: "@ + r + none =~= a@);
    let front = "failed to read prompt file "@ + path@ + ": "@;
    texts::parts_are_found(r, r, front, none);
    assert(front + r + none =~= b@);
    texts::parts_are_found(r, path@, "failed to read prompt file "@, ": "@ + r);
    assert("failed to read prompt file "@ + path@ + (": "@ + r) =~= b@);
    texts::parts_are_found(r, r, "failed to read/write snapshot file: "@, none);
    assert("failed to read/write snapshot file: "@ + r + none =~= c@);
    texts::parts_are_found(r, r, "MCP service error: "@, none);
    assert("MCP service error: "@ + r + none =~= d@);
    texts::parts_are_found(r, r, "scripted error: "@, none);
    assert("scripted error: "@ + r + none =~= e@);
    let numeral = text::decimal(version as nat);
    let back = " (expected "@ + text::decimal(1) + ")"@;
    texts::parts_are_found(r, numeral, "unsupported snapshot version "@, back);
    assert("unsupported snapshot version "@ + numeral + back =~= f@);
}

/// The numbers in an error about lengths are told apart.
pub proof fn length_errors_name_both(messages: usize, pinned: usize, a: String, b: String)
    requires
        call_ensures(
            FromMessagesError::text,
            (&FromMessagesError::LengthMismatch { messages, pinned },),
            a,
        ),
        call_ensures(
            SnapshotError::text,
            (&SnapshotError::LengthMismatch { messages, pinned },),
            b,
        ),
    ensures
        text::has_part(a@, text::decimal(messages as nat)),
        text::has_part(a@, text::decimal(pinned as nat)),
        text::has_part(b@, text::decimal(messages as nat)),
        text::has_part(b@, text::decimal(pinned as nat)),
{
    let x = text::decimal(messages as nat);
    let y = text::decimal(pinned as nat);
    let none = Seq::<char>::empty();
    let front = "messages and pinned must have the same length (messages: "@;
    texts::parts_are_found(x, x, front, ", pinned: "@ + y + ")"@);
    assert(front + x + (", pinned: "@ + y + ")"@) =~= a@);
    texts::parts_are_found(y, y, front + x + ", pinned: "@, ")"@);
    assert(front + x + ", pinned: "@ + y + ")"@ =~= a@);
    let start = "messages/pinned length mismatch: messages="@;
    texts::parts_are_found(x, x, start, ", pinned="@ + y);
    assert(start + x + (", pinned="@ + y) =~= b@);
    texts::parts_are_found(y, y, start + x + ", pinned="@, none);
    assert(start + x + ", pinned="@ + y + none =~= b@);
}

} // verus!
