//! Messages streams: what went in comes out.

use vstd::prelude::*;

use crate::anthropic::errors::{self, AnthropicError, ErrorModel};
use crate::anthropic::events::{
    AnthropicBlock, AnthropicDelta, AnthropicErrorPayload, AnthropicEvent, CacheCreationBreakdown,
    MessageDeltaPayload, MessageStartPayload, UsageDelta,
};
use crate::anthropic::stream::{self as turns, BlockModel, TurnModel};
use crate::stream::{ChunkModel, FinishReasonModel, Usage};

verus! {

/// What a turn is after an event that does not end it.
pub open spec fn next(turn: TurnModel, event: AnthropicEvent) -> TurnModel {
    turns::after_event(turn, event)->Ok_0.0
}

/// What an event that does not end a turn emits.
pub open spec fn emitted(turn: TurnModel, event: AnthropicEvent) -> Seq<ChunkModel> {
    turns::after_event(turn, event)->Ok_0.1
}

/// Each stop reason has its meaning, none means a natural end, and one that is not known keeps its
/// name.
pub proof fn stop_reasons_have_their_meaning(reason: Option<Seq<char>>)
    ensures
        turns::stop_meaning(reason) is EndTurn <==> reason is None || reason == Some("end_turn"@),
        turns::stop_meaning(reason) is ToolUse <==> reason == Some("tool_use"@),
        turns::stop_meaning(reason) is MaxTokens <==> reason == Some("max_tokens"@),
        turns::stop_meaning(reason) is StopSequence <==> reason == Some("stop_sequence"@),
        turns::stop_meaning(reason) matches FinishReasonModel::Other(name) ==> reason == Some(name),
        !(turns::stop_meaning(reason) is Aborted),
{
    reveal_strlit("end_turn");
    reveal_strlit("tool_use");
    reveal_strlit("max_tokens");
    reveal_strlit("stop_sequence");
    assert("end_turn"@.len() == 8 && "end_turn"@[0] == 'e');
    assert("tool_use"@.len() == 8 && "tool_use"@[0] == 't');
    assert("max_tokens"@.len() == 10);
    assert("stop_sequence"@.len() == 13);
}

/// A turn ends for the reason that came last, with the counters and the service tier that it has
/// by then; a turn to which nothing came ends naturally and has spent nothing.
pub proof fn turns_end_as_reported(turn: TurnModel, reason: Option<String>, usage: UsageDelta)
    ensures
        ({
            let delta = MessageDeltaPayload { stop_reason: reason, stop_sequence: None };
            let after = next(turn, AnthropicEvent::MessageDelta { delta, usage });
            &&& turns::turn_items(after, Seq::empty()).len() == 1
            &&& turns::turn_items(after, Seq::empty())[0] matches Ok(
                ChunkModel::TurnFinished { reason: r, usage: u, service_tier },
            )
            &&& r == turns::stop_meaning(
                match reason {
                    Some(s) => Some(s@),
                    None => None,
                },
            )
            &&& u == after.usage
            &&& u.output_tokens == usage.output_tokens
            &&& service_tier == turn.service_tier
        }),
        turns::turn_items(turns::fresh_turn(), Seq::empty()) == seq![
            Ok::<ChunkModel, ErrorModel>(
                ChunkModel::TurnFinished {
                    reason: FinishReasonModel::EndTurn,
                    usage: Usage {
                        input_tokens: 0,
                        output_tokens: 0,
                        cached_input_tokens: 0,
                        cache_creation_input_tokens: 0,
                        cache_creation_5m_tokens: 0,
                        cache_creation_1h_tokens: 0,
                        reasoning_tokens: 0,
                    },
                    service_tier: None,
                },
            ),
        ],
{
}

/// The cache writes of a report: with a breakdown its two counters and their sum, else the bare
/// total.
pub open spec fn reports_cache_writes(
    usage: Usage,
    total: u32,
    breakdown: Option<CacheCreationBreakdown>,
) -> bool {
    match breakdown {
        Some(b) => {
            &&& usage.cache_creation_5m_tokens == b.ephemeral_5m_input_tokens
            &&& usage.cache_creation_1h_tokens == b.ephemeral_1h_input_tokens
            &&& usage.cache_creation_input_tokens == b.ephemeral_5m_input_tokens
                + b.ephemeral_1h_input_tokens
        },
        None => usage.cache_creation_input_tokens == total,
    }
}

/// The start of a message sets the input, cache-read and cache-write counters to what it reports,
/// and the service tier where it names one. Nothing else changes and nothing is emitted.
pub proof fn message_starts_are_counted(turn: TurnModel, message: MessageStartPayload)
    requires
        turns::event_fits(AnthropicEvent::MessageStart { message }),
    ensures
        ({
            let event = AnthropicEvent::MessageStart { message };
            let after = next(turn, event);
            &&& turns::after_event(turn, event) is Ok
            &&& emitted(turn, event).len() == 0
            &&& after.usage.input_tokens == message.usage.input_tokens
            &&& after.usage.cached_input_tokens == message.usage.cache_read_input_tokens
            &&& reports_cache_writes(
                after.usage,
                message.usage.cache_creation_input_tokens,
                message.usage.cache_creation,
            )
            &&& after.usage.output_tokens == turn.usage.output_tokens
            &&& after.usage.reasoning_tokens == turn.usage.reasoning_tokens
            &&& message.usage.cache_creation is None ==> after.usage.cache_creation_5m_tokens
                == turn.usage.cache_creation_5m_tokens && after.usage.cache_creation_1h_tokens
                == turn.usage.cache_creation_1h_tokens
            &&& message.usage.service_tier is None ==> after.service_tier == turn.service_tier
            &&& message.usage.service_tier matches Some(tier) ==> after.service_tier == Some(tier@)
            &&& after.blocks == turn.blocks
            &&& after.final_stop == turn.final_stop
        }),
{
}

/// The end of a message sets the output counter to what it reports. Counters for the cache change
/// only where it reports some, and then to what it reports.
pub proof fn message_ends_are_counted(
    turn: TurnModel,
    delta: MessageDeltaPayload,
    usage: UsageDelta,
)
    requires
        turns::breakdown_fits(usage.cache_creation),
    ensures
        ({
            let event = AnthropicEvent::MessageDelta { delta, usage };
            let after = next(turn, event);
            &&& turns::after_event(turn, event) is Ok
            &&& emitted(turn, event).len() == 0
            &&& after.usage.output_tokens == usage.output_tokens
            &&& after.usage.input_tokens == turn.usage.input_tokens
            &&& after.usage.reasoning_tokens == turn.usage.reasoning_tokens
            &&& after.usage.cached_input_tokens == (if usage.cache_read_input_tokens > 0 {
                usage.cache_read_input_tokens
            } else {
                turn.usage.cached_input_tokens
            })
            &&& usage.cache_creation is Some || usage.cache_creation_input_tokens > 0
                ==> reports_cache_writes(
                after.usage,
                usage.cache_creation_input_tokens,
                usage.cache_creation,
            )
            &&& usage.cache_creation is None ==> after.usage.cache_creation_5m_tokens
                == turn.usage.cache_creation_5m_tokens && after.usage.cache_creation_1h_tokens
                == turn.usage.cache_creation_1h_tokens
            &&& usage.cache_creation is None && usage.cache_creation_input_tokens == 0
                ==> after.usage.cache_creation_input_tokens
                == turn.usage.cache_creation_input_tokens
            &&& after.service_tier == turn.service_tier
            &&& after.blocks == turn.blocks
        }),
{
}

/// Content, pings and the end of the stream change no counter, no stop reason and no service tier.
pub proof fn content_is_not_counted(turn: TurnModel, event: AnthropicEvent)
    requires
        !(event is MessageStart),
        !(event is MessageDelta),
        !(event is Error),
    ensures
        turns::after_event(turn, event) is Ok,
        next(turn, event).usage == turn.usage,
        next(turn, event).final_stop == turn.final_stop,
        next(turn, event).service_tier == turn.service_tier,
        event is MessageStop || event is Ping ==> next(turn, event) == turn && emitted(
            turn,
            event,
        ).len() == 0,
{
}

/// An event for one block leaves every other block as it was.
pub proof fn blocks_do_not_mix(turn: TurnModel, event: AnthropicEvent, index: u32, other: u32)
    requires
        other != index,
        event matches AnthropicEvent::ContentBlockStart { index: i, .. } ==> i == index,
        event matches AnthropicEvent::ContentBlockDelta { index: i, .. } ==> i == index,
        event matches AnthropicEvent::ContentBlockStop { index: i } ==> i == index,
        !(event is Error),
    ensures
        next(turn, event).blocks.dom().contains(other) <==> turn.blocks.dom().contains(other),
        next(turn, event).blocks[other] == turn.blocks[other],
{
}

/// A text increment is one text chunk with its text, whatever block it is for. A fragment of
/// arguments is one argument chunk for the call that is open at its index, and nothing elsewhere.
pub proof fn increments_are_shown(turn: TurnModel, index: u32, text: String)
    ensures
        emitted(
            turn,
            AnthropicEvent::ContentBlockDelta { index, delta: AnthropicDelta::TextDelta { text } },
        ) == seq![ChunkModel::TextDelta { delta: text@ }],
        emitted(
            turn,
            AnthropicEvent::ContentBlockDelta {
                index,
                delta: AnthropicDelta::ThinkingDelta { thinking: text },
            },
        ) == seq![ChunkModel::ReasoningDelta { delta: text@ }],
        emitted(
            turn,
            AnthropicEvent::ContentBlockDelta {
                index,
                delta: AnthropicDelta::InputJsonDelta { partial_json: text },
            },
        ) == (match turn.blocks.dom().contains(index) {
            true => match turn.blocks[index] {
                BlockModel::ToolUse { id, .. } => seq![
                    ChunkModel::ToolCallArgsDelta { id, delta: text@ },
                ],
                _ => Seq::empty(),
            },
            false => Seq::empty(),
        }),
        emitted(
            turn,
            AnthropicEvent::ContentBlockDelta {
                index,
                delta: AnthropicDelta::SignatureDelta { signature: text },
            },
        ).len() == 0,
        emitted(
            turn,
            AnthropicEvent::ContentBlockDelta { index, delta: AnthropicDelta::Unknown },
        ).len() == 0,
{
}

/// Visible reasoning streams as its text, if it begins with some, and ends with the signature that
/// came last: that of an increment, or else the one it began with, or else none.
pub proof fn reasoning_streams(
    turn: TurnModel,
    index: u32,
    thinking: String,
    signature: String,
    more: String,
    last: Option<String>,
)
    ensures
        ({
            let begun = next(
                turn,
                AnthropicEvent::ContentBlockStart {
                    index,
                    content_block: AnthropicBlock::Thinking { thinking, signature },
                },
            );
            let grown = next(
                begun,
                AnthropicEvent::ContentBlockDelta {
                    index,
                    delta: AnthropicDelta::ThinkingDelta { thinking: more },
                },
            );
            let signed = match last {
                Some(s) => next(
                    grown,
                    AnthropicEvent::ContentBlockDelta {
                        index,
                        delta: AnthropicDelta::SignatureDelta { signature: s },
                    },
                ),
                None => grown,
            };
            let stop = AnthropicEvent::ContentBlockStop { index };
            &&& emitted(
                turn,
                AnthropicEvent::ContentBlockStart {
                    index,
                    content_block: AnthropicBlock::Thinking { thinking, signature },
                },
            ) == (if thinking@.len() == 0 {
                Seq::empty()
            } else {
                seq![ChunkModel::ReasoningDelta { delta: thinking@ }]
            })
            &&& emitted(signed, stop) == seq![
                ChunkModel::ReasoningFinished {
                    signature: match last {
                        Some(s) => Some(s@),
                        None => if signature@.len() == 0 {
                            None
                        } else {
                            Some(signature@)
                        },
                    },
                },
            ]
            &&& !next(signed, stop).blocks.dom().contains(index)
        }),
{
}

/// Hidden reasoning comes out as its data at once. Text and unknown blocks begin and end without a
/// chunk of their own.
pub proof fn quiet_blocks(turn: TurnModel, index: u32, data: String)
    ensures
        emitted(
            turn,
            AnthropicEvent::ContentBlockStart {
                index,
                content_block: AnthropicBlock::RedactedThinking { data },
            },
        ) == seq![ChunkModel::RedactedReasoningBlock { data: data@ }],
        forall|block: AnthropicBlock| #[trigger]
            is_quiet(block) ==> {
                let start = AnthropicEvent::ContentBlockStart { index, content_block: block };
                let stop = AnthropicEvent::ContentBlockStop { index };
                &&& emitted(turn, start).len() == 0
                &&& emitted(next(turn, start), stop).len() == 0
            },
{
}

/// Whether a block shows nothing by itself.
pub open spec fn is_quiet(block: AnthropicBlock) -> bool {
    block is Text || block is Unknown
}

/// An error event ends the stream with an error of its category and with its message as it came.
pub proof fn error_events_end_turns(
    turn: TurnModel,
    error: AnthropicErrorPayload,
    more: Seq<Result<AnthropicEvent, AnthropicError>>,
)
    ensures
        turns::turn_items(turn, seq![Ok(AnthropicEvent::Error { error })] + more) == seq![
            Err::<ChunkModel, ErrorModel>(
                ErrorModel::Provider {
                    kind: errors::kind_of_error(error.error_type@, error.message@),
                    message: error.message@,
                },
            ),
        ],
{
    let events = seq![Ok::<AnthropicEvent, AnthropicError>(AnthropicEvent::Error { error })] + more;
    assert(events[0] == Ok::<AnthropicEvent, AnthropicError>(AnthropicEvent::Error { error }));
}

/// A failure between events ends the stream with that failure.
pub proof fn failures_end_turns(
    turn: TurnModel,
    error: AnthropicError,
    more: Seq<Result<AnthropicEvent, AnthropicError>>,
)
    ensures
        turns::turn_items(turn, seq![Err(error)] + more) == seq![
            Err::<ChunkModel, ErrorModel>(error@),
        ],
{
    let events = seq![Err::<AnthropicEvent, AnthropicError>(error)] + more;
    assert(events[0] == Err::<AnthropicEvent, AnthropicError>(error));
}

} // verus!
