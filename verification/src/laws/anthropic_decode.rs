//! Events of the Messages stream: every field is read under its own name.

use vstd::prelude::*;

use super::wire;
use crate::anthropic::decode;
use crate::anthropic::errors::AnthropicError;
use crate::anthropic::events::{
    AnthropicBlock, AnthropicDelta, AnthropicEvent, CacheCreationBreakdown, MessageDeltaPayload,
    MessageStartUsage, UsageDelta,
};
use crate::anthropic::stream::{self as turns, TurnModel};
use crate::json::{self, Json, JsonModel};
use crate::record;
use crate::stream::ChunkModel;

verus! {

/// A text value.
pub open spec fn says(text: Seq<char>) -> JsonModel {
    JsonModel::Text(text)
}

/// A number value.
pub open spec fn counts(n: u32) -> JsonModel {
    JsonModel::Number(json::json_number(n as u64))
}

proof fn lemma_fields(document: JsonModel, fields: Seq<(Seq<char>, JsonModel)>)
    requires
        wire::lays_out(document, fields),
    ensures
        record::is_record(document, fields.len() as int),
        forall|i: int|
            0 <= i < fields.len() ==> record::field(document, (#[trigger] fields[i]).0, i) == Some(
                fields[i].1,
            ),
{
}

proof fn lemma_block_tags()
    ensures
        "text"@ != "tool_use"@ && "text"@ != "thinking"@ && "text"@ != "redacted_thinking"@,
        "tool_use"@ != "thinking"@ && "tool_use"@ != "redacted_thinking"@,
        "thinking"@ != "redacted_thinking"@,
{
    reveal_strlit("text");
    reveal_strlit("tool_use");
    reveal_strlit("thinking");
    reveal_strlit("redacted_thinking");
    assert("text"@.len() == 4);
    assert("tool_use"@.len() == 8 && "tool_use"@[1] == 'o');
    assert("thinking"@.len() == 8 && "thinking"@[1] == 'h');
    assert("redacted_thinking"@.len() == 17);
}

/// A tool call block decodes to its id, its name and its input, each from the field of that name,
/// and the chunk for its start carries that id and that name.
pub proof fn tool_use_blocks_decode(
    document: JsonModel,
    id: String,
    name: String,
    input: Json,
    turn: TurnModel,
    index: u32,
)
    requires
        wire::lays_out(
            document,
            seq![
                ("type"@, says("tool_use"@)),
                ("id"@, says(id@)),
                ("name"@, says(name@)),
                ("input"@, input@),
            ],
        ),
    ensures
        decode::is_block(document, AnthropicBlock::ToolUse { id, name, input }),
        forall|block: AnthropicBlock| #[trigger]
            decode::is_block(document, block) ==> {
                &&& block matches AnthropicBlock::ToolUse { id: i, name: n, input: x }
                &&& i@ == id@ && n@ == name@ && x@ == input@
                &&& turns::after_event(
                    turn,
                    AnthropicEvent::ContentBlockStart { index, content_block: block },
                ) matches Ok((_, chunks))
                &&& chunks == seq![ChunkModel::ToolCallStarted { id: id@, name: name@ }]
            },
{
    let fields = seq![
        ("type"@, says("tool_use"@)),
        ("id"@, says(id@)),
        ("name"@, says(name@)),
        ("input"@, input@),
    ];
    lemma_block_tags();
    lemma_fields(document, fields);
    assert(fields[0] == ("type"@, says("tool_use"@)));
    assert(fields[1] == ("id"@, says(id@)));
    assert(fields[2] == ("name"@, says(name@)));
    assert(fields[3] == ("input"@, input@));
}

/// A text block decodes to its text.
pub proof fn text_blocks_decode(document: JsonModel, text: String)
    requires
        wire::lays_out(document, seq![("type"@, says("text"@)), ("text"@, says(text@))]),
    ensures
        decode::is_block(document, AnthropicBlock::Text { text }),
        forall|block: AnthropicBlock| #[trigger]
            decode::is_block(document, block) ==> (block matches AnthropicBlock::Text { text: t }
                && t@ == text@),
{
    let fields = seq![("type"@, says("text"@)), ("text"@, says(text@))];
    lemma_block_tags();
    lemma_fields(document, fields);
    assert(fields[0] == ("type"@, says("text"@)));
    assert(fields[1] == ("text"@, says(text@)));
}

/// A reasoning block decodes to its text and its signature.
pub proof fn thinking_blocks_decode(document: JsonModel, thinking: String, signature: String)
    requires
        wire::lays_out(
            document,
            seq![
                ("type"@, says("thinking"@)),
                ("thinking"@, says(thinking@)),
                ("signature"@, says(signature@)),
            ],
        ),
    ensures
        decode::is_block(document, AnthropicBlock::Thinking { thinking, signature }),
        forall|block: AnthropicBlock| #[trigger]
            decode::is_block(document, block) ==> (block matches AnthropicBlock::Thinking {
                thinking: t,
                signature: s,
            } && t@ == thinking@ && s@ == signature@),
{
    let fields = seq![
        ("type"@, says("thinking"@)),
        ("thinking"@, says(thinking@)),
        ("signature"@, says(signature@)),
    ];
    lemma_block_tags();
    lemma_fields(document, fields);
    assert(fields[0] == ("type"@, says("thinking"@)));
    assert(fields[1] == ("thinking"@, says(thinking@)));
    assert(fields[2] == ("signature"@, says(signature@)));
}

/// A reasoning block without text or without signature has an empty one, and the other as it is.
pub proof fn thinking_fields_may_be_missing(
    document: JsonModel,
    thinking: Option<Seq<char>>,
    signature: Option<Seq<char>>,
    block: AnthropicBlock,
)
    requires
        document is Object,
        wire::entry(document, "type"@) == Some(says("thinking"@)),
        wire::entry(document, "thinking"@) == (match thinking {
            Some(t) => Some(says(t)),
            None => None,
        }),
        wire::entry(document, "signature"@) == (match signature {
            Some(s) => Some(says(s)),
            None => None,
        }),
        decode::is_block(document, block),
    ensures
        block matches AnthropicBlock::Thinking { thinking: t, signature: s } && t@ == (
        match thinking {
            Some(x) => x,
            None => Seq::empty(),
        }) && s@ == (match signature {
            Some(x) => x,
            None => Seq::empty(),
        }),
{
    lemma_block_tags();
}

/// A hidden reasoning block decodes to its data.
pub proof fn redacted_blocks_decode(document: JsonModel, data: String)
    requires
        wire::lays_out(
            document,
            seq![("type"@, says("redacted_thinking"@)), ("data"@, says(data@))],
        ),
    ensures
        decode::is_block(document, AnthropicBlock::RedactedThinking { data }),
        forall|block: AnthropicBlock| #[trigger]
            decode::is_block(document, block) ==> (block matches AnthropicBlock::RedactedThinking {
                data: d,
            } && d@ == data@),
{
    let fields = seq![("type"@, says("redacted_thinking"@)), ("data"@, says(data@))];
    lemma_block_tags();
    lemma_fields(document, fields);
    assert(fields[0] == ("type"@, says("redacted_thinking"@)));
    assert(fields[1] == ("data"@, says(data@)));
}

/// A block or increment of a type that is not known is taken as unknown, and one without a type is
/// refused.
pub proof fn unknown_types_are_taken(
    document: JsonModel,
    block: AnthropicBlock,
    delta: AnthropicDelta,
)
    requires
        document is Object,
    ensures
        wire::word(document, "type"@) is None ==> !decode::is_block(document, block)
            && !decode::is_delta(document, delta),
        wire::word(document, "type"@) matches Some(tag) && tag != "text"@ && tag != "tool_use"@
            && tag != "thinking"@ && tag != "redacted_thinking"@ ==> (decode::is_block(
            document,
            block,
        ) <==> block is Unknown),
        wire::word(document, "type"@) matches Some(tag) && tag != "text_delta"@ && tag
            != "input_json_delta"@ && tag != "thinking_delta"@ && tag != "signature_delta"@ ==> (
        decode::is_delta(document, delta) <==> delta is Unknown),
{
}

proof fn lemma_delta_tags()
    ensures
        "text_delta"@ != "input_json_delta"@ && "text_delta"@ != "thinking_delta"@,
        "text_delta"@ != "signature_delta"@ && "input_json_delta"@ != "thinking_delta"@,
        "input_json_delta"@ != "signature_delta"@ && "thinking_delta"@ != "signature_delta"@,
{
    reveal_strlit("text_delta");
    reveal_strlit("input_json_delta");
    reveal_strlit("thinking_delta");
    reveal_strlit("signature_delta");
    assert("text_delta"@.len() == 10);
    assert("input_json_delta"@.len() == 16);
    assert("thinking_delta"@.len() == 14);
    assert("signature_delta"@.len() == 15);
}

/// Each increment decodes to the text in its own field: visible text, a fragment of arguments,
/// reasoning, a signature.
pub proof fn deltas_decode(document: JsonModel, text: String)
    ensures
        wire::lays_out(document, seq![("type"@, says("text_delta"@)), ("text"@, says(text@))])
            ==> decode::is_delta(document, AnthropicDelta::TextDelta { text }) && forall|
            delta: AnthropicDelta,
        | #[trigger]
            decode::is_delta(document, delta) ==> (delta matches AnthropicDelta::TextDelta {
                text: t,
            } && t@ == text@),
        wire::lays_out(
            document,
            seq![("type"@, says("input_json_delta"@)), ("partial_json"@, says(text@))],
        ) ==> decode::is_delta(document, AnthropicDelta::InputJsonDelta { partial_json: text })
            && forall|delta: AnthropicDelta| #[trigger]
            decode::is_delta(document, delta) ==> (delta matches AnthropicDelta::InputJsonDelta {
                partial_json: t,
            } && t@ == text@),
        wire::lays_out(
            document,
            seq![("type"@, says("thinking_delta"@)), ("thinking"@, says(text@))],
        ) ==> decode::is_delta(document, AnthropicDelta::ThinkingDelta { thinking: text })
            && forall|delta: AnthropicDelta| #[trigger]
            decode::is_delta(document, delta) ==> (delta matches AnthropicDelta::ThinkingDelta {
                thinking: t,
            } && t@ == text@),
        wire::lays_out(
            document,
            seq![("type"@, says("signature_delta"@)), ("signature"@, says(text@))],
        ) ==> decode::is_delta(document, AnthropicDelta::SignatureDelta { signature: text })
            && forall|delta: AnthropicDelta| #[trigger]
            decode::is_delta(document, delta) ==> (delta matches AnthropicDelta::SignatureDelta {
                signature: t,
            } && t@ == text@),
{
    lemma_delta_tags();
    let a = seq![("type"@, says("text_delta"@)), ("text"@, says(text@))];
    let b = seq![("type"@, says("input_json_delta"@)), ("partial_json"@, says(text@))];
    let c = seq![("type"@, says("thinking_delta"@)), ("thinking"@, says(text@))];
    let d = seq![("type"@, says("signature_delta"@)), ("signature"@, says(text@))];
    assert(a[0] == ("type"@, says("text_delta"@)) && a[1] == ("text"@, says(text@)));
    assert(b[0] == ("type"@, says("input_json_delta"@)) && b[1] == ("partial_json"@, says(text@)));
    assert(c[0] == ("type"@, says("thinking_delta"@)) && c[1] == ("thinking"@, says(text@)));
    assert(d[0] == ("type"@, says("signature_delta"@)) && d[1] == ("signature"@, says(text@)));
}

proof fn lemma_event_tags()
    ensures
        "message_start"@ != "content_block_start"@ && "message_start"@ != "content_block_delta"@,
        "message_start"@ != "content_block_stop"@ && "message_start"@ != "message_delta"@,
        "message_start"@ != "message_stop"@ && "message_start"@ != "ping"@,
        "message_start"@ != "error"@ && "content_block_start"@ != "content_block_delta"@,
        "content_block_start"@ != "content_block_stop"@ && "content_block_start"@
            != "message_delta"@,
        "content_block_start"@ != "message_stop"@ && "content_block_start"@ != "ping"@,
        "content_block_start"@ != "error"@ && "content_block_delta"@ != "content_block_stop"@,
        "content_block_delta"@ != "message_delta"@ && "content_block_delta"@ != "message_stop"@,
        "content_block_delta"@ != "ping"@ && "content_block_delta"@ != "error"@,
        "content_block_stop"@ != "message_delta"@ && "content_block_stop"@ != "message_stop"@,
        "content_block_stop"@ != "ping"@ && "content_block_stop"@ != "error"@,
        "message_delta"@ != "message_stop"@ && "message_delta"@ != "ping"@,
        "message_delta"@ != "error"@ && "message_stop"@ != "ping"@ && "message_stop"@ != "error"@,
        "ping"@ != "error"@,
{
    reveal_strlit("message_start");
    reveal_strlit("content_block_start");
    reveal_strlit("content_block_delta");
    reveal_strlit("content_block_stop");
    reveal_strlit("message_delta");
    reveal_strlit("message_stop");
    reveal_strlit("ping");
    reveal_strlit("error");
    assert("message_start"@.len() == 13 && "message_start"@[8] == 's');
    assert("message_delta"@.len() == 13 && "message_delta"@[8] == 'd');
    assert("content_block_start"@.len() == 19 && "content_block_start"@[14] == 's');
    assert("content_block_delta"@.len() == 19 && "content_block_delta"@[14] == 'd');
    assert("content_block_stop"@.len() == 18);
    assert("message_stop"@.len() == 12);
    assert("ping"@.len() == 4);
    assert("error"@.len() == 5);
}

/// The start of a block decodes to its index and its block.
pub proof fn block_starts_decode(
    document: JsonModel,
    index: u32,
    block: JsonModel,
    event: AnthropicEvent,
)
    requires
        wire::lays_out(
            document,
            seq![
                ("type"@, says("content_block_start"@)),
                ("index"@, counts(index)),
                ("content_block"@, block),
            ],
        ),
    ensures
        decode::is_event(document, event) <==> (event matches AnthropicEvent::ContentBlockStart {
            index: i,
            content_block,
        } && counts(i) == counts(index) && decode::is_block(block, content_block)),
{
    let fields = seq![
        ("type"@, says("content_block_start"@)),
        ("index"@, counts(index)),
        ("content_block"@, block),
    ];
    lemma_event_tags();
    lemma_fields(document, fields);
    assert(fields[0] == ("type"@, says("content_block_start"@)));
    assert(fields[1] == ("index"@, counts(index)));
    assert(fields[2] == ("content_block"@, block));
}

/// An increment of a block decodes to its index and what it adds.
pub proof fn block_deltas_decode(
    document: JsonModel,
    index: u32,
    inner: JsonModel,
    event: AnthropicEvent,
)
    requires
        wire::lays_out(
            document,
            seq![
                ("type"@, says("content_block_delta"@)),
                ("index"@, counts(index)),
                ("delta"@, inner),
            ],
        ),
    ensures
        decode::is_event(document, event) <==> (event matches AnthropicEvent::ContentBlockDelta {
            index: i,
            delta,
        } && counts(i) == counts(index) && decode::is_delta(inner, delta)),
{
    let fields = seq![
        ("type"@, says("content_block_delta"@)),
        ("index"@, counts(index)),
        ("delta"@, inner),
    ];
    lemma_event_tags();
    lemma_fields(document, fields);
    assert(fields[0] == ("type"@, says("content_block_delta"@)));
    assert(fields[1] == ("index"@, counts(index)));
    assert(fields[2] == ("delta"@, inner));
}

/// The end of a block decodes to its index.
pub proof fn block_stops_decode(document: JsonModel, index: u32, event: AnthropicEvent)
    requires
        wire::lays_out(
            document,
            seq![("type"@, says("content_block_stop"@)), ("index"@, counts(index))],
        ),
    ensures
        decode::is_event(document, event) <==> (event matches AnthropicEvent::ContentBlockStop {
            index: i,
        } && counts(i) == counts(index)),
{
    let fields = seq![("type"@, says("content_block_stop"@)), ("index"@, counts(index))];
    lemma_event_tags();
    lemma_fields(document, fields);
    assert(fields[0] == ("type"@, says("content_block_stop"@)));
    assert(fields[1] == ("index"@, counts(index)));
}

/// The start of a message decodes to its counters.
pub proof fn message_starts_decode(
    document: JsonModel,
    message: JsonModel,
    usage: JsonModel,
    event: AnthropicEvent,
)
    requires
        wire::lays_out(document, seq![("type"@, says("message_start"@)), ("message"@, message)]),
        wire::lays_out(message, seq![("usage"@, usage)]),
    ensures
        decode::is_event(document, event) <==> (event matches AnthropicEvent::MessageStart {
            message,
        } && decode::is_start_usage(usage, message.usage)),
{
    let fields = seq![("type"@, says("message_start"@)), ("message"@, message)];
    let inner = seq![("usage"@, usage)];
    lemma_event_tags();
    lemma_fields(document, fields);
    lemma_fields(message, inner);
    assert(fields[0] == ("type"@, says("message_start"@)));
    assert(fields[1] == ("message"@, message));
    assert(inner[0] == ("usage"@, usage));
}

/// The end of a message decodes to why it stopped and its counters.
pub proof fn message_deltas_decode(
    document: JsonModel,
    inner: JsonModel,
    counters: JsonModel,
    event: AnthropicEvent,
)
    requires
        wire::lays_out(
            document,
            seq![("type"@, says("message_delta"@)), ("delta"@, inner), ("usage"@, counters)],
        ),
    ensures
        decode::is_event(document, event) <==> (event matches AnthropicEvent::MessageDelta {
            delta,
            usage,
        } && decode::is_message_delta(inner, delta) && decode::is_usage_delta(counters, usage)),
{
    let fields = seq![
        ("type"@, says("message_delta"@)),
        ("delta"@, inner),
        ("usage"@, counters),
    ];
    lemma_event_tags();
    lemma_fields(document, fields);
    assert(fields[0] == ("type"@, says("message_delta"@)));
    assert(fields[1] == ("delta"@, inner));
    assert(fields[2] == ("usage"@, counters));
}

/// Why a message stopped decodes to its reason and the text that stopped it.
pub proof fn stops_decode(
    document: JsonModel,
    reason: String,
    sequence: String,
    delta: MessageDeltaPayload,
)
    requires
        wire::lays_out(
            document,
            seq![("stop_reason"@, says(reason@)), ("stop_sequence"@, says(sequence@))],
        ),
    ensures
        decode::is_message_delta(document, delta) <==> delta.stop_reason is Some
            && delta.stop_reason->0@ == reason@ && delta.stop_sequence is Some
            && delta.stop_sequence->0@ == sequence@,
{
    let fields = seq![("stop_reason"@, says(reason@)), ("stop_sequence"@, says(sequence@))];
    lemma_fields(document, fields);
    assert(fields[0] == ("stop_reason"@, says(reason@)));
    assert(fields[1] == ("stop_sequence"@, says(sequence@)));
}

/// A message that says null for why it stopped, or nothing, has no reason.
pub proof fn stops_may_be_missing(document: JsonModel, delta: MessageDeltaPayload)
    requires
        document is Object,
        wire::entry(document, "stop_reason"@) is None || wire::entry(document, "stop_reason"@)
            == Some(JsonModel::Null),
        wire::entry(document, "stop_sequence"@) is None || wire::entry(document, "stop_sequence"@)
            == Some(JsonModel::Null),
    ensures
        decode::is_message_delta(document, delta) <==> delta.stop_reason is None
            && delta.stop_sequence is None,
{
}

/// Whether an optional breakdown is what a value says: null says none.
pub open spec fn says_breakdown(
    value: JsonModel,
    breakdown: Option<CacheCreationBreakdown>,
) -> bool {
    match value {
        JsonModel::Null => breakdown is None,
        _ => breakdown matches Some(b) && decode::is_breakdown(value, b),
    }
}

/// The counters at the start of a message decode each from the field of its name.
pub proof fn start_counters_decode(
    document: JsonModel,
    input: u32,
    read: u32,
    creation: u32,
    breakdown: JsonModel,
    tier: String,
    usage: MessageStartUsage,
)
    requires
        wire::lays_out(
            document,
            seq![
                ("input_tokens"@, counts(input)),
                ("cache_read_input_tokens"@, counts(read)),
                ("cache_creation_input_tokens"@, counts(creation)),
                ("cache_creation"@, breakdown),
                ("service_tier"@, says(tier@)),
            ],
        ),
    ensures
        decode::is_start_usage(document, usage) <==> {
            &&& counts(usage.input_tokens) == counts(input)
            &&& counts(usage.cache_read_input_tokens) == counts(read)
            &&& counts(usage.cache_creation_input_tokens) == counts(creation)
            &&& says_breakdown(breakdown, usage.cache_creation)
            &&& usage.service_tier is Some && usage.service_tier->0@ == tier@
        },
{
    let fields = seq![
        ("input_tokens"@, counts(input)),
        ("cache_read_input_tokens"@, counts(read)),
        ("cache_creation_input_tokens"@, counts(creation)),
        ("cache_creation"@, breakdown),
        ("service_tier"@, says(tier@)),
    ];
    lemma_fields(document, fields);
    assert(fields[0] == ("input_tokens"@, counts(input)));
    assert(fields[1] == ("cache_read_input_tokens"@, counts(read)));
    assert(fields[2] == ("cache_creation_input_tokens"@, counts(creation)));
    assert(fields[3] == ("cache_creation"@, breakdown));
    assert(fields[4] == ("service_tier"@, says(tier@)));
}

/// Of the counters at the start of a message only the input tokens must be there: the others are
/// zero or nothing.
pub proof fn start_counters_may_be_missing(
    document: JsonModel,
    input: u32,
    usage: MessageStartUsage,
)
    requires
        document is Object,
        wire::entry(document, "input_tokens"@) == Some(counts(input)),
        wire::entry(document, "cache_read_input_tokens"@) is None,
        wire::entry(document, "cache_creation_input_tokens"@) is None,
        wire::entry(document, "cache_creation"@) is None,
        wire::entry(document, "service_tier"@) is None,
    ensures
        decode::is_start_usage(document, usage) <==> {
            &&& counts(usage.input_tokens) == counts(input)
            &&& usage.cache_read_input_tokens == 0
            &&& usage.cache_creation_input_tokens == 0
            &&& usage.cache_creation is None
            &&& usage.service_tier is None
        },
{
}

/// The counters at the end of a message decode each from the field of its name.
pub proof fn end_counters_decode(
    document: JsonModel,
    output: u32,
    read: u32,
    creation: u32,
    breakdown: JsonModel,
    usage: UsageDelta,
)
    requires
        wire::lays_out(
            document,
            seq![
                ("output_tokens"@, counts(output)),
                ("cache_read_input_tokens"@, counts(read)),
                ("cache_creation_input_tokens"@, counts(creation)),
                ("cache_creation"@, breakdown),
            ],
        ),
    ensures
        decode::is_usage_delta(document, usage) <==> {
            &&& counts(usage.output_tokens) == counts(output)
            &&& counts(usage.cache_read_input_tokens) == counts(read)
            &&& counts(usage.cache_creation_input_tokens) == counts(creation)
            &&& says_breakdown(breakdown, usage.cache_creation)
        },
{
    let fields = seq![
        ("output_tokens"@, counts(output)),
        ("cache_read_input_tokens"@, counts(read)),
        ("cache_creation_input_tokens"@, counts(creation)),
        ("cache_creation"@, breakdown),
    ];
    lemma_fields(document, fields);
    assert(fields[0] == ("output_tokens"@, counts(output)));
    assert(fields[1] == ("cache_read_input_tokens"@, counts(read)));
    assert(fields[2] == ("cache_creation_input_tokens"@, counts(creation)));
    assert(fields[3] == ("cache_creation"@, breakdown));
}

/// Of the counters at the end of a message only the output tokens must be there.
pub proof fn end_counters_may_be_missing(document: JsonModel, output: u32, usage: UsageDelta)
    requires
        document is Object,
        wire::entry(document, "output_tokens"@) == Some(counts(output)),
        wire::entry(document, "cache_read_input_tokens"@) is None,
        wire::entry(document, "cache_creation_input_tokens"@) is None,
        wire::entry(document, "cache_creation"@) is None,
    ensures
        decode::is_usage_delta(document, usage) <==> {
            &&& counts(usage.output_tokens) == counts(output)
            &&& usage.cache_read_input_tokens == 0
            &&& usage.cache_creation_input_tokens == 0
            &&& usage.cache_creation is None
        },
{
}

/// A breakdown of cache writes decodes to the tokens of each time to live; those that are not there
/// are zero.
pub proof fn breakdowns_decode(
    document: JsonModel,
    short: u32,
    long: u32,
    breakdown: CacheCreationBreakdown,
)
    ensures
        wire::lays_out(
            document,
            seq![
                ("ephemeral_5m_input_tokens"@, counts(short)),
                ("ephemeral_1h_input_tokens"@, counts(long)),
            ],
        ) ==> (decode::is_breakdown(document, breakdown) <==> counts(
            breakdown.ephemeral_5m_input_tokens,
        ) == counts(short) && counts(breakdown.ephemeral_1h_input_tokens) == counts(long)),
        document is Object && wire::entry(document, "ephemeral_5m_input_tokens"@) is None
            && wire::entry(document, "ephemeral_1h_input_tokens"@) is None ==> (
        decode::is_breakdown(document, breakdown) <==> breakdown.ephemeral_5m_input_tokens == 0
            && breakdown.ephemeral_1h_input_tokens == 0),
{
    let fields = seq![
        ("ephemeral_5m_input_tokens"@, counts(short)),
        ("ephemeral_1h_input_tokens"@, counts(long)),
    ];
    assert(fields[0] == ("ephemeral_5m_input_tokens"@, counts(short)));
    assert(fields[1] == ("ephemeral_1h_input_tokens"@, counts(long)));
}

/// An error event decodes to its type and its message.
pub proof fn errors_decode(
    document: JsonModel,
    inner: JsonModel,
    error_type: String,
    message: String,
    event: AnthropicEvent,
)
    requires
        wire::lays_out(document, seq![("type"@, says("error"@)), ("error"@, inner)]),
        wire::lays_out(
            inner,
            seq![("type"@, says(error_type@)), ("message"@, says(message@))],
        ),
    ensures
        decode::is_event(document, event) <==> (event matches AnthropicEvent::Error { error }
            && error.error_type@ == error_type@ && error.message@ == message@),
{
    let fields = seq![("type"@, says("error"@)), ("error"@, inner)];
    let more = seq![("type"@, says(error_type@)), ("message"@, says(message@))];
    lemma_event_tags();
    lemma_fields(document, fields);
    lemma_fields(inner, more);
    assert(fields[0] == ("type"@, says("error"@)));
    assert(fields[1] == ("error"@, inner));
    assert(more[0] == ("type"@, says(error_type@)));
    assert(more[1] == ("message"@, says(message@)));
}

/// The events that only have a type decode by it, and an event of a type that is not known is
/// refused.
pub proof fn plain_events_decode(document: JsonModel, event: AnthropicEvent)
    requires
        document is Object,
    ensures
        wire::word(document, "type"@) == Some("message_stop"@) ==> (decode::is_event(document, event)
            <==> event is MessageStop),
        wire::word(document, "type"@) == Some("ping"@) ==> (decode::is_event(document, event)
            <==> event is Ping),
        decode::is_event(document, event) ==> (wire::word(document, "type"@) matches Some(tag) && (
        tag == "message_start"@ || tag == "content_block_start"@ || tag == "content_block_delta"@
            || tag == "content_block_stop"@ || tag == "message_delta"@ || tag == "message_stop"@
            || tag == "ping"@ || tag == "error"@)),
{
    lemma_event_tags();
}

/// A payload that does not parse, or that is no event, ends as a decoding error with the reason; one
/// that is an event is read as it.
pub proof fn readings_are_faithful(
    parsed: Result<JsonModel, Seq<char>>,
    result: Result<AnthropicEvent, AnthropicError>,
)
    requires
        decode::is_event_reading(parsed, result),
    ensures
        parsed matches Err(reason) ==> (result matches Err(AnthropicError::Json(r)) && r@ == reason),
        parsed matches Ok(document) ==> {
            &&& result matches Ok(event) ==> decode::is_event(document, event)
            &&& result is Err ==> result->Err_0 is Json && forall|event: AnthropicEvent|
                !decode::is_event(document, event)
        },
{
}

} // verus!
