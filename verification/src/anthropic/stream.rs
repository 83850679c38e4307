//! Turns the events of a Messages stream into [`StreamChunk`]s.

use std::collections::HashMap;
use vstd::prelude::*;
use vstd::string::*;

use super::errors::{self, AnthropicApiErrorKind, AnthropicError, ErrorModel};
use super::events::{
    AnthropicBlock, AnthropicDelta, AnthropicEvent, CacheCreationBreakdown, UsageDelta,
};
use crate::stream::{
    self, ChunkModel, FinishReason, FinishReasonModel, StreamChunk, Usage,
};
use crate::text::{self, same_text};

verus! {

broadcast use vstd::std_specs::hash::group_hash_axioms;

/// What is known of a content block that has begun and not ended.
pub enum BlockState {
    Text,
    ToolUse { id: String, name: String, args_buf: String },
    Thinking { signature: Option<String> },
    Unknown,
}

/// What a [`BlockState`] says.
pub enum BlockModel {
    Text,
    ToolUse { id: Seq<char>, name: Seq<char>, args_buf: Seq<char> },
    Thinking { signature: Option<Seq<char>> },
    Unknown,
}

impl View for BlockState {
    type V = BlockModel;

    open spec fn view(&self) -> BlockModel {
        match *self {
            BlockState::Text => BlockModel::Text,
            BlockState::ToolUse { id, name, args_buf } => BlockModel::ToolUse {
                id: id@,
                name: name@,
                args_buf: args_buf@,
            },
            BlockState::Thinking { signature } => BlockModel::Thinking {
                signature: text::opt_text(signature),
            },
            BlockState::Unknown => BlockModel::Unknown,
        }
    }
}

/// What is known of a turn in the middle of its stream.
pub struct TurnState {
    blocks: HashMap<u32, BlockState>,
    final_stop: FinishReason,
    usage: Usage,
    service_tier: Option<String>,
}

/// What a [`TurnState`] says.
pub struct TurnModel {
    /// The open blocks, by index.
    pub blocks: Map<u32, BlockModel>,
    pub final_stop: FinishReasonModel,
    pub usage: Usage,
    pub service_tier: Option<Seq<char>>,
}

impl View for TurnState {
    type V = TurnModel;

    closed spec fn view(&self) -> TurnModel {
        TurnModel {
            blocks: self.blocks@.map_values(|b: BlockState| b@),
            final_stop: self.final_stop@,
            usage: self.usage,
            service_tier: text::opt_text(self.service_tier),
        }
    }
}

/// A turn before its first event.
pub open spec fn fresh_turn() -> TurnModel {
    TurnModel {
        blocks: Map::empty(),
        final_stop: FinishReasonModel::EndTurn,
        usage: stream::no_usage(),
        service_tier: None,
    }
}

/// The counters after a report of cache writes: a breakdown wins over the plain total.
pub open spec fn with_cache_creation(
    usage: Usage,
    flat_input_tokens: u32,
    breakdown: Option<CacheCreationBreakdown>,
) -> Usage {
    match breakdown {
        Some(b) => Usage {
            cache_creation_5m_tokens: b.ephemeral_5m_input_tokens,
            cache_creation_1h_tokens: b.ephemeral_1h_input_tokens,
            cache_creation_input_tokens: (b.ephemeral_5m_input_tokens
                + b.ephemeral_1h_input_tokens) as u32,
            ..usage
        },
        None => Usage { cache_creation_input_tokens: flat_input_tokens, ..usage },
    }
}

/// Whether the total of a breakdown fits its counter.
pub open spec fn breakdown_fits(breakdown: Option<CacheCreationBreakdown>) -> bool {
    breakdown matches Some(b) ==> b.ephemeral_5m_input_tokens + b.ephemeral_1h_input_tokens
        <= u32::MAX
}

/// Whether the counters of an event can be added up.
pub open spec fn event_fits(event: AnthropicEvent) -> bool {
    match event {
        AnthropicEvent::MessageStart { message } => breakdown_fits(message.usage.cache_creation),
        AnthropicEvent::MessageDelta { usage, .. } => breakdown_fits(usage.cache_creation),
        _ => true,
    }
}

fn total_fits(breakdown: Option<CacheCreationBreakdown>) -> (r: bool)
    ensures
        r == breakdown_fits(breakdown),
{
    match breakdown {
        Some(b) => b.ephemeral_5m_input_tokens <= u32::MAX - b.ephemeral_1h_input_tokens,
        None => true,
    }
}

/// Whether the counters of an event can be added up.
pub fn counters_fit(event: &AnthropicEvent) -> (r: bool)
    ensures
        r == event_fits(*event),
{
    match event {
        AnthropicEvent::MessageStart { message } => total_fits(message.usage.cache_creation),
        AnthropicEvent::MessageDelta { usage, .. } => total_fits(usage.cache_creation),
        _ => true,
    }
}

/// Whether the cache writes by time to live add up to the total, where they are told apart.
pub open spec fn cache_writes_add_up(usage: Usage) -> bool {
    ||| usage.cache_creation_input_tokens == usage.cache_creation_5m_tokens
        + usage.cache_creation_1h_tokens
    ||| usage.cache_creation_5m_tokens == 0 && usage.cache_creation_1h_tokens == 0
}

/// Takes over a report of cache writes.
pub fn apply_cache_creation(
    usage: &mut Usage,
    flat_input_tokens: u32,
    breakdown: Option<CacheCreationBreakdown>,
)
    requires
        breakdown_fits(breakdown),
    ensures
        *final(usage) == with_cache_creation(*old(usage), flat_input_tokens, breakdown),
{
    match breakdown {
        Some(b) => {
            usage.cache_creation_5m_tokens = b.ephemeral_5m_input_tokens;
            usage.cache_creation_1h_tokens = b.ephemeral_1h_input_tokens;
            usage.cache_creation_input_tokens =
            b.ephemeral_5m_input_tokens + b.ephemeral_1h_input_tokens;
        },
        None => {
            usage.cache_creation_input_tokens = flat_input_tokens;
        },
    }
}

/// The meaning of a stop reason; none means a natural end.
pub open spec fn stop_meaning(reason: Option<Seq<char>>) -> FinishReasonModel {
    match reason {
        None => FinishReasonModel::EndTurn,
        Some(s) => if s == "end_turn"@ {
            FinishReasonModel::EndTurn
        } else if s == "tool_use"@ {
            FinishReasonModel::ToolUse
        } else if s == "max_tokens"@ {
            FinishReasonModel::MaxTokens
        } else if s == "stop_sequence"@ {
            FinishReasonModel::StopSequence
        } else {
            FinishReasonModel::Other(s)
        },
    }
}

/// Maps a stop reason.
pub fn map_stop_reason(reason: &Option<String>) -> (r: FinishReason)
    ensures
        r@ == stop_meaning(text::opt_text(*reason)),
{
    match reason {
        None => FinishReason::EndTurn,
        Some(s) => {
            if same_text(s.as_str(), "end_turn") {
                FinishReason::EndTurn
            } else if same_text(s.as_str(), "tool_use") {
                FinishReason::ToolUse
            } else if same_text(s.as_str(), "max_tokens") {
                FinishReason::MaxTokens
            } else if same_text(s.as_str(), "stop_sequence") {
                FinishReason::StopSequence
            } else {
                FinishReason::Other(s.clone())
            }
        },
    }
}

/// The counters after those that come towards the end of a message.
pub open spec fn with_usage_delta(usage: Usage, u: UsageDelta) -> Usage {
    let usage = Usage { output_tokens: u.output_tokens, ..usage };
    let usage = if u.cache_read_input_tokens > 0 {
        Usage { cached_input_tokens: u.cache_read_input_tokens, ..usage }
    } else {
        usage
    };
    if u.cache_creation_input_tokens > 0 || u.cache_creation is Some {
        with_cache_creation(usage, u.cache_creation_input_tokens, u.cache_creation)
    } else {
        usage
    }
}

/// A turn and the chunks it emits.
pub open spec fn emits(turn: TurnModel, chunks: Seq<ChunkModel>) -> Result<
    (TurnModel, Seq<ChunkModel>),
    ErrorModel,
> {
    Ok((turn, chunks))
}

/// A turn with one block changed.
pub open spec fn with_block(turn: TurnModel, index: u32, block: BlockModel) -> TurnModel {
    TurnModel { blocks: turn.blocks.insert(index, block), ..turn }
}

/// What the beginning of a block does.
pub open spec fn block_started(turn: TurnModel, index: u32, block: AnthropicBlock) -> (
    TurnModel,
    Seq<ChunkModel>,
) {
    match block {
        AnthropicBlock::Text { .. } => (with_block(turn, index, BlockModel::Text), Seq::empty()),
        AnthropicBlock::ToolUse { id, name, .. } => (
            with_block(
                turn,
                index,
                BlockModel::ToolUse { id: id@, name: name@, args_buf: Seq::empty() },
            ),
            seq![ChunkModel::ToolCallStarted { id: id@, name: name@ }],
        ),
        AnthropicBlock::Thinking { thinking, signature } => (
            with_block(
                turn,
                index,
                BlockModel::Thinking {
                    signature: if signature@.len() == 0 {
                        None
                    } else {
                        Some(signature@)
                    },
                },
            ),
            if thinking@.len() == 0 {
                Seq::empty()
            } else {
                seq![ChunkModel::ReasoningDelta { delta: thinking@ }]
            },
        ),
        AnthropicBlock::RedactedThinking { data } => (
            turn,
            seq![ChunkModel::RedactedReasoningBlock { data: data@ }],
        ),
        AnthropicBlock::Unknown => (with_block(turn, index, BlockModel::Unknown), Seq::empty()),
    }
}

/// What an increment of a block does.
pub open spec fn block_grown(turn: TurnModel, index: u32, delta: AnthropicDelta) -> (
    TurnModel,
    Seq<ChunkModel>,
) {
    match delta {
        AnthropicDelta::TextDelta { text } => (turn, seq![ChunkModel::TextDelta { delta: text@ }]),
        AnthropicDelta::InputJsonDelta { partial_json } => match open_block(turn, index) {
            Some(BlockModel::ToolUse { id, name, args_buf }) => (
                with_block(
                    turn,
                    index,
                    BlockModel::ToolUse { id, name, args_buf: args_buf + partial_json@ },
                ),
                seq![ChunkModel::ToolCallArgsDelta { id, delta: partial_json@ }],
            ),
            _ => (turn, Seq::empty()),
        },
        AnthropicDelta::ThinkingDelta { thinking } => (
            turn,
            seq![ChunkModel::ReasoningDelta { delta: thinking@ }],
        ),
        AnthropicDelta::SignatureDelta { signature } => match open_block(turn, index) {
            Some(BlockModel::Thinking { .. }) => (
                with_block(turn, index, BlockModel::Thinking { signature: Some(signature@) }),
                Seq::empty(),
            ),
            _ => (turn, Seq::empty()),
        },
        AnthropicDelta::Unknown => (turn, Seq::empty()),
    }
}

/// The open block at an index.
pub open spec fn open_block(turn: TurnModel, index: u32) -> Option<BlockModel> {
    if turn.blocks.dom().contains(index) {
        Some(turn.blocks[index])
    } else {
        None
    }
}

/// What the end of a block emits.
pub open spec fn block_closed(block: Option<BlockModel>) -> Seq<ChunkModel> {
    match block {
        Some(BlockModel::ToolUse { id, name, args_buf }) => seq![
            stream::tool_call_closed(id, name, args_buf),
        ],
        Some(BlockModel::Thinking { signature }) => seq![
            ChunkModel::ReasoningFinished { signature },
        ],
        _ => Seq::empty(),
    }
}

/// What an event does: the turn after it and the chunks it emits, or the error that ends the turn.
pub open spec fn after_event(turn: TurnModel, event: AnthropicEvent) -> Result<
    (TurnModel, Seq<ChunkModel>),
    ErrorModel,
> {
    match event {
        AnthropicEvent::MessageStart { message } => emits(
            TurnModel {
                usage: with_cache_creation(
                    Usage {
                        input_tokens: message.usage.input_tokens,
                        cached_input_tokens: message.usage.cache_read_input_tokens,
                        ..turn.usage
                    },
                    message.usage.cache_creation_input_tokens,
                    message.usage.cache_creation,
                ),
                service_tier: match message.usage.service_tier {
                    Some(tier) => Some(tier@),
                    None => turn.service_tier,
                },
                ..turn
            },
            Seq::empty(),
        ),
        AnthropicEvent::ContentBlockStart { index, content_block } => Ok(
            block_started(turn, index, content_block),
        ),
        AnthropicEvent::ContentBlockDelta { index, delta } => Ok(block_grown(turn, index, delta)),
        AnthropicEvent::ContentBlockStop { index } => emits(
            TurnModel { blocks: turn.blocks.remove(index), ..turn },
            block_closed(open_block(turn, index)),
        ),
        AnthropicEvent::MessageDelta { delta, usage } => emits(
            TurnModel {
                final_stop: stop_meaning(text::opt_text(delta.stop_reason)),
                usage: with_usage_delta(turn.usage, usage),
                ..turn
            },
            Seq::empty(),
        ),
        AnthropicEvent::MessageStop => emits(turn, Seq::empty()),
        AnthropicEvent::Ping => emits(turn, Seq::empty()),
        AnthropicEvent::Error { error } => Err(
            ErrorModel::Provider {
                kind: errors::kind_of_error(error.error_type@, error.message@),
                message: error.message@,
            },
        ),
    }
}

/// The chunk that ends a turn.
pub open spec fn turn_finished(turn: TurnModel) -> ChunkModel {
    ChunkModel::TurnFinished {
        reason: turn.final_stop,
        usage: turn.usage,
        service_tier: turn.service_tier,
    }
}

/// Chunks as items of a stream that may fail.
pub open spec fn items(chunks: Seq<ChunkModel>) -> Seq<Result<ChunkModel, ErrorModel>> {
    chunks.map_values(|c: ChunkModel| Ok::<ChunkModel, ErrorModel>(c))
}

/// All that a turn emits for the events to come: chunks up to the end of the turn, or up to the
/// first error.
pub open spec fn turn_items(
    turn: TurnModel,
    events: Seq<Result<AnthropicEvent, AnthropicError>>,
) -> Seq<Result<ChunkModel, ErrorModel>>
    decreases events.len(),
{
    if events.len() == 0 {
        seq![Ok(turn_finished(turn))]
    } else {
        match events[0] {
            Err(e) => seq![Err(e@)],
            Ok(event) => match after_event(turn, event) {
                Err(e) => seq![Err(e)],
                Ok((next, chunks)) => items(chunks) + turn_items(
                    next,
                    events.subrange(1, events.len() as int),
                ),
            },
        }
    }
}

/// What a list of stream items says.
pub open spec fn item_models(items: Seq<Result<StreamChunk, AnthropicError>>) -> Seq<
    Result<ChunkModel, ErrorModel>,
> {
    items.map_values(
        |i: Result<StreamChunk, AnthropicError>|
            match i {
                Ok(c) => Ok::<ChunkModel, ErrorModel>(c@),
                Err(e) => Err(e@),
            },
    )
}

fn one(chunk: StreamChunk) -> (r: Vec<StreamChunk>)
    ensures
        stream::chunk_models(r@) == seq![chunk@],
{
    let mut out: Vec<StreamChunk> = Vec::new();
    out.push(chunk);
    assert(stream::chunk_models(out@) =~= seq![chunk@]);
    out
}

fn none() -> (r: Vec<StreamChunk>)
    ensures
        stream::chunk_models(r@) == Seq::<ChunkModel>::empty(),
{
    let out: Vec<StreamChunk> = Vec::new();
    assert(stream::chunk_models(out@) =~= Seq::<ChunkModel>::empty());
    out
}

impl TurnState {
    /// A turn before its first event.
    pub fn new() -> (r: Self)
        ensures
            r@ == fresh_turn(),
    {
        let r = TurnState {
            blocks: HashMap::new(),
            final_stop: FinishReason::EndTurn,
            usage: Usage::default(),
            service_tier: None,
        };
        assert(r@.blocks =~= Map::<u32, BlockModel>::empty());
        r
    }

    fn put_block(&mut self, index: u32, block: BlockState)
        ensures
            final(self)@ == with_block(old(self)@, index, block@),
    {
        let ghost before = self.blocks@;
        self.blocks.insert(index, block);
        assert(self.blocks@.map_values(|b: BlockState| b@) =~= before.map_values(
            |b: BlockState| b@,
        ).insert(index, block@));
    }

    fn take_block(&mut self, index: u32) -> (r: Option<BlockState>)
        ensures
            final(self)@ == (TurnModel { blocks: old(self)@.blocks.remove(index), ..old(self)@ }),
            open_block(old(self)@, index) == (match r {
                Some(b) => Some(b@),
                None => None,
            }),
    {
        let ghost before = self.blocks@;
        let r = self.blocks.remove(&index);
        assert(self.blocks@.map_values(|b: BlockState| b@) =~= before.map_values(
            |b: BlockState| b@,
        ).remove(index));
        r
    }

    fn start_block(&mut self, index: u32, block: AnthropicBlock) -> (r: Vec<StreamChunk>)
        ensures
            (final(self)@, stream::chunk_models(r@)) == block_started(old(self)@, index, block),
    {
        match block {
            AnthropicBlock::Text { .. } => {
                self.put_block(index, BlockState::Text);
                none()
            },
            AnthropicBlock::ToolUse { id, name, .. } => {
                self.put_block(
                    index,
                    BlockState::ToolUse {
                        id: id.clone(),
                        name: name.clone(),
                        args_buf: String::new(),
                    },
                );
                one(StreamChunk::ToolCallStarted { id, name })
            },
            AnthropicBlock::Thinking { thinking, signature } => {
                let known = if signature.as_str().is_empty() {
                    None
                } else {
                    Some(signature)
                };
                self.put_block(index, BlockState::Thinking { signature: known });
                if thinking.as_str().is_empty() {
                    none()
                } else {
                    one(StreamChunk::ReasoningDelta { delta: thinking })
                }
            },
            AnthropicBlock::RedactedThinking { data } => one(
                StreamChunk::RedactedReasoningBlock { data },
            ),
            AnthropicBlock::Unknown => {
                self.put_block(index, BlockState::Unknown);
                none()
            },
        }
    }

    fn grow_block(&mut self, index: u32, delta: AnthropicDelta) -> (r: Vec<StreamChunk>)
        ensures
            (final(self)@, stream::chunk_models(r@)) == block_grown(old(self)@, index, delta),
    {
        match delta {
            AnthropicDelta::TextDelta { text } => one(StreamChunk::TextDelta { delta: text }),
            AnthropicDelta::InputJsonDelta { partial_json } => {
                let ghost blocks = self@.blocks;
                match self.take_block(index) {
                    Some(BlockState::ToolUse { id, name, args_buf }) => {
                        let mut args_buf = args_buf;
                        args_buf.append(partial_json.as_str());
                        let chunk = StreamChunk::ToolCallArgsDelta {
                            id: id.clone(),
                            delta: partial_json,
                        };
                        self.put_block(index, BlockState::ToolUse { id, name, args_buf });
                        assert(self@.blocks =~= blocks.insert(index, self@.blocks[index]));
                        one(chunk)
                    },
                    Some(other) => {
                        self.put_block(index, other);
                        assert(self@.blocks =~= blocks);
                        none()
                    },
                    None => {
                        assert(self@.blocks =~= blocks);
                        none()
                    },
                }
            },
            AnthropicDelta::ThinkingDelta { thinking } => one(
                StreamChunk::ReasoningDelta { delta: thinking },
            ),
            AnthropicDelta::SignatureDelta { signature } => {
                let ghost blocks = self@.blocks;
                match self.take_block(index) {
                    Some(BlockState::Thinking { .. }) => {
                        self.put_block(index, BlockState::Thinking { signature: Some(signature) });
                        assert(self@.blocks =~= blocks.insert(index, self@.blocks[index]));
                    },
                    Some(other) => {
                        self.put_block(index, other);
                        assert(self@.blocks =~= blocks);
                    },
                    None => {
                        assert(self@.blocks =~= blocks);
                    },
                }
                none()
            },
            AnthropicDelta::Unknown => none(),
        }
    }

    /// Takes one event in and gives the chunks it emits, or the error that ends the turn.
    pub fn step(&mut self, event: AnthropicEvent) -> (r: Result<Vec<StreamChunk>, AnthropicError>)
        requires
            event_fits(event),
        ensures
            after_event(old(self)@, event) == (match r {
                Ok(chunks) => emits(final(self)@, stream::chunk_models(chunks@)),
                Err(e) => Err(e@),
            }),
    {
        match event {
            AnthropicEvent::MessageStart { message } => {
                let ghost before = self@;
                self.usage.input_tokens = message.usage.input_tokens;
                self.usage.cached_input_tokens = message.usage.cache_read_input_tokens;
                let mut usage = self.usage;
                apply_cache_creation(
                    &mut usage,
                    message.usage.cache_creation_input_tokens,
                    message.usage.cache_creation,
                );
                self.usage = usage;
                if message.usage.service_tier.is_some() {
                    self.service_tier = message.usage.service_tier;
                }
                Ok(none())
            },
            AnthropicEvent::ContentBlockStart { index, content_block } => Ok(
                self.start_block(index, content_block),
            ),
            AnthropicEvent::ContentBlockDelta { index, delta } => Ok(self.grow_block(index, delta)),
            AnthropicEvent::ContentBlockStop { index } => match self.take_block(index) {
                Some(BlockState::ToolUse { id, name, args_buf }) => Ok(
                    one(StreamChunk::tool_call_from_raw_args(id, name, args_buf)),
                ),
                Some(BlockState::Thinking { signature }) => Ok(
                    one(StreamChunk::ReasoningFinished { signature }),
                ),
                _ => Ok(none()),
            },
            AnthropicEvent::MessageDelta { delta, usage: u } => {
                self.final_stop = map_stop_reason(&delta.stop_reason);
                let mut usage = self.usage;
                usage.output_tokens = u.output_tokens;
                if u.cache_read_input_tokens > 0 {
                    usage.cached_input_tokens = u.cache_read_input_tokens;
                }
                if u.cache_creation_input_tokens > 0 || u.cache_creation.is_some() {
                    apply_cache_creation(&mut usage, u.cache_creation_input_tokens, u.cache_creation);
                }
                self.usage = usage;
                Ok(none())
            },
            AnthropicEvent::MessageStop => Ok(none()),
            AnthropicEvent::Ping => Ok(none()),
            AnthropicEvent::Error { error } => Err(
                AnthropicError::Provider {
                    kind: AnthropicApiErrorKind::from_error(
                        error.error_type.as_str(),
                        error.message.as_str(),
                    ),
                    message: error.message,
                },
            ),
        }
    }

    /// The chunk that ends the turn once the events are over.
    pub fn finish(self) -> (r: StreamChunk)
        ensures
            r@ == turn_finished(self@),
    {
        StreamChunk::TurnFinished {
            reason: self.final_stop,
            usage: self.usage,
            service_tier: self.service_tier,
        }
    }
}

/// Runs a turn over its events.
pub fn process_events(events: Vec<Result<AnthropicEvent, AnthropicError>>) -> (r: Vec<
    Result<StreamChunk, AnthropicError>,
>)
    requires
        forall|i: int|
            0 <= i < events@.len() ==> (#[trigger] events@[i] matches Ok(e) ==> event_fits(e)),
    ensures
        item_models(r@) == turn_items(fresh_turn(), events@),
{
    let ghost all = events@;
    let mut turn = TurnState::new();
    let mut out: Vec<Result<StreamChunk, AnthropicError>> = Vec::new();
    assert(all.subrange(0, all.len() as int) =~= all);
    assert(item_models(out@) =~= Seq::empty());
    assert(turn_items(fresh_turn(), all) =~= item_models(out@) + turn_items(turn@, all));
    for event in it: events
        invariant
            it.seq() == all,
            all == events@,
            forall|i: int|
                0 <= i < all.len() ==> (#[trigger] all[i] matches Ok(e) ==> event_fits(e)),
            turn_items(fresh_turn(), all) == item_models(out@) + turn_items(
                turn@,
                all.subrange(it.index() as int, all.len() as int),
            ),
    {
        let ghost k: int = it.index() as int;
        let ghost left = all.subrange(k, all.len() as int);
        let ghost before = item_models(out@);
        let ghost old_turn = turn@;
        assert(event == all[k]);
        assert(left.subrange(1, left.len() as int) =~= all.subrange(k + 1, all.len() as int));
        match event {
            Err(e) => {
                let ghost old_out = out@;
                out.push(Err(e));
                assert(item_models(out@) =~= before + seq![Err(e@)]);
                return out;
            },
            Ok(event) => {
                match turn.step(event) {
                    Err(e) => {
                        out.push(Err(e));
                        assert(item_models(out@) =~= before + seq![Err(e@)]);
                        return out;
                    },
                    Ok(chunks) => {
                        let ghost emitted = stream::chunk_models(chunks@);
                        append_chunks(&mut out, chunks);
                        assert(before + (items(emitted) + turn_items(turn@, all.subrange(k + 1, all.len() as int)))
                            =~= (before + items(emitted)) + turn_items(turn@, all.subrange(k + 1, all.len() as int)));
                    },
                }
            },
        }
    }
    let ghost before = item_models(out@);
    let last = turn.finish();
    out.push(Ok(last));
    assert(item_models(out@) =~= before + seq![Ok(last@)]);
    out
}

fn append_chunks(out: &mut Vec<Result<StreamChunk, AnthropicError>>, chunks: Vec<StreamChunk>)
    ensures
        item_models(final(out)@) == item_models(old(out)@) + items(stream::chunk_models(chunks@)),
{
    let ghost all = chunks@;
    let ghost start = item_models(out@);
    assert(item_models(out@) =~= start + items(stream::chunk_models(all.take(0))));
    for chunk in it: chunks
        invariant
            it.seq() == all,
            all == chunks@,
            start == item_models(old(out)@),
            item_models(out@) == start + items(stream::chunk_models(all.take(it.index() as int))),
    {
        let ghost k: int = it.index() as int;
        let ghost before = item_models(out@);
        assert(chunk == all[k]);
        out.push(Ok(chunk));
        assert(item_models(out@) =~= before.push(Ok(chunk@)));
        assert(items(stream::chunk_models(all.take(k + 1))) =~= items(
            stream::chunk_models(all.take(k)),
        ).push(Ok(chunk@)));
    }
    assert(all.take(all.len() as int) =~= all);
}

/// Whether an event cannot be read or reports an error.
pub open spec fn is_failure(event: Result<AnthropicEvent, AnthropicError>) -> bool {
    event is Err || event->Ok_0 is Error
}

/// A turn emits chunks and then one last item. Only that can be the end of the turn or an error,
/// and it is an error exactly where some event fails.
pub proof fn turn_ends_once(turn: TurnModel, events: Seq<Result<AnthropicEvent, AnthropicError>>)
    ensures
        ({
            let out = turn_items(turn, events);
            &&& out.len() > 0
            &&& forall|i: int|
                0 <= i < out.len() - 1 ==> (#[trigger] out[i] matches Ok(c) && !(c is TurnFinished))
            &&& out.last() matches Ok(c) ==> c is TurnFinished
            &&& out.last() is Err <==> exists|i: int| 0 <= i < events.len() && is_failure(#[trigger] events[i])
        }),
    decreases events.len(),
{
    if events.len() > 0 {
        let rest = events.subrange(1, events.len() as int);
        assert(forall|i: int| 0 <= i < rest.len() ==> rest[i] == #[trigger] events[i + 1]);
        if let Ok(event) = events[0] {
            if let Ok((next, chunks)) = after_event(turn, event) {
                turn_ends_once(next, rest);
                let tail = turn_items(next, rest);
                let out = items(chunks) + tail;
                assert(out.last() == tail.last());
                assert forall|i: int| 0 <= i < out.len() - 1 implies (#[trigger] out[i] matches Ok(c)
                    && !(c is TurnFinished)) by {
                    if i >= chunks.len() {
                        assert(out[i] == tail[i - chunks.len()]);
                    } else {
                        assert(out[i] == Ok::<ChunkModel, ErrorModel>(chunks[i]));
                    }
                }
                assert((exists|i: int| 0 <= i < events.len() && is_failure(#[trigger] events[i]))
                    ==> (exists|i: int| 0 <= i < rest.len() && is_failure(#[trigger] rest[i]))) by {
                    if exists|i: int| 0 <= i < events.len() && is_failure(#[trigger] events[i]) {
                        let i = choose|i: int|
                            0 <= i < events.len() && is_failure(#[trigger] events[i]);
                        assert(rest[i - 1] == events[i]);
                    }
                }
                assert((exists|i: int| 0 <= i < rest.len() && is_failure(#[trigger] rest[i]))
                    ==> (exists|i: int| 0 <= i < events.len() && is_failure(#[trigger] events[i]))) by {
                    if exists|i: int| 0 <= i < rest.len() && is_failure(#[trigger] rest[i]) {
                        let i = choose|i: int| 0 <= i < rest.len() && is_failure(#[trigger] rest[i]);
                        assert(events[i + 1] == rest[i]);
                    }
                }
            } else {
                assert(is_failure(events[0]));
            }
        } else {
            assert(is_failure(events[0]));
        }
    }
}

/// The visible text of an event.
pub open spec fn event_text(event: AnthropicEvent) -> Seq<char> {
    match event {
        AnthropicEvent::ContentBlockDelta { delta: AnthropicDelta::TextDelta { text }, .. } => text@,
        _ => Seq::empty(),
    }
}

/// The visible text of a list of events that can all be read.
pub open spec fn events_text(events: Seq<Result<AnthropicEvent, AnthropicError>>) -> Seq<char>
    decreases events.len(),
{
    if events.len() == 0 {
        Seq::empty()
    } else {
        event_text(events[0]->Ok_0) + events_text(events.subrange(1, events.len() as int))
    }
}

/// Text deltas put together in the order of arrival are the text that the provider sent.
pub proof fn text_is_kept(turn: TurnModel, events: Seq<Result<AnthropicEvent, AnthropicError>>)
    requires
        forall|i: int| 0 <= i < events.len() ==> !is_failure(#[trigger] events[i]),
    ensures
        stream::streamed_text(turn_items(turn, events)) == events_text(events),
    decreases events.len(),
{
    reveal_with_fuel(stream::streamed_text, 3);
    if events.len() == 0 {
        assert(stream::streamed_text(turn_items(turn, events)) =~= Seq::empty());
    } else {
        let rest = events.subrange(1, events.len() as int);
        assert(!is_failure(events[0]));
        assert(forall|i: int| 0 <= i < rest.len() ==> rest[i] == #[trigger] events[i + 1]);
        assert(after_event(turn, events[0]->Ok_0) is Ok);
        let (next, chunks) = after_event(turn, events[0]->Ok_0)->Ok_0;
        text_is_kept(next, rest);
        stream::streamed_text_in_sequence(items(chunks), turn_items(next, rest));
        assert(chunks.len() <= 1);
        assert(stream::streamed_text(items(chunks)) =~= event_text(events[0]->Ok_0));
    }
}

/// The events of one tool call: its start, fragments of its arguments, its end.
pub open spec fn tool_call_events(
    index: u32,
    block: AnthropicBlock,
    fragments: Seq<String>,
) -> Seq<Result<AnthropicEvent, AnthropicError>> {
    seq![Ok(AnthropicEvent::ContentBlockStart { index, content_block: block })]
        + fragments.map_values(
        |f: String|
            Ok::<AnthropicEvent, AnthropicError>(
                AnthropicEvent::ContentBlockDelta {
                    index,
                    delta: AnthropicDelta::InputJsonDelta { partial_json: f },
                },
            ),
    ) + seq![Ok(AnthropicEvent::ContentBlockStop { index })]
}

/// Texts one after the other.
pub open spec fn concatenation(parts: Seq<String>) -> Seq<char> {
    text::join_text(text::texts(parts), Seq::empty())
}

proof fn lemma_concatenation_push(parts: Seq<String>, part: String)
    ensures
        concatenation(parts.push(part)) == concatenation(parts) + part@,
{
    let all = text::texts(parts.push(part));
    assert(all =~= text::texts(parts).push(part@));
    assert(all.drop_last() =~= text::texts(parts));
    if parts.len() == 0 {
        assert(concatenation(parts) =~= Seq::empty());
        assert(Seq::<char>::empty() + part@ =~= part@);
    } else {
        assert(concatenation(parts) + Seq::<char>::empty() + part@ =~= concatenation(parts) + part@);
    }
}

proof fn lemma_fragments(
    turn: TurnModel,
    index: u32,
    id: Seq<char>,
    name: Seq<char>,
    fragments: Seq<String>,
    done: int,
    more: Seq<Result<AnthropicEvent, AnthropicError>>,
)
    requires
        0 <= done <= fragments.len(),
        open_block(turn, index) == Some(
            BlockModel::ToolUse { id, name, args_buf: concatenation(fragments.take(done)) },
        ),
    ensures
        turn_items(
            turn,
            fragments.skip(done).map_values(
                |f: String|
                    Ok::<AnthropicEvent, AnthropicError>(
                        AnthropicEvent::ContentBlockDelta {
                            index,
                            delta: AnthropicDelta::InputJsonDelta { partial_json: f },
                        },
                    ),
            ) + (seq![Ok(AnthropicEvent::ContentBlockStop { index })] + more),
        ) == items(
            fragments.skip(done).map_values(
                |f: String| ChunkModel::ToolCallArgsDelta { id, delta: f@ },
            ),
        ) + (items(seq![stream::tool_call_closed(id, name, concatenation(fragments))])
            + turn_items(TurnModel { blocks: turn.blocks.remove(index), ..turn }, more)),
    decreases fragments.len() - done,
{
    let grow = |f: String|
        Ok::<AnthropicEvent, AnthropicError>(
            AnthropicEvent::ContentBlockDelta {
                index,
                delta: AnthropicDelta::InputJsonDelta { partial_json: f },
            },
        );
    let show = |f: String| ChunkModel::ToolCallArgsDelta { id, delta: f@ };
    let stop = seq![Ok::<AnthropicEvent, AnthropicError>(AnthropicEvent::ContentBlockStop { index })];
    let left = fragments.skip(done);
    let events = left.map_values(grow) + (stop + more);
    let closed = items(seq![stream::tool_call_closed(id, name, concatenation(fragments))]);
    let rest = events.subrange(1, events.len() as int);
    if done == fragments.len() {
        assert(fragments.take(done) =~= fragments);
        assert(rest =~= more);
        assert(events[0] == stop[0]);
        assert(left.map_values(show) =~= Seq::empty());
        let after = TurnModel { blocks: turn.blocks.remove(index), ..turn };
        assert(items(left.map_values(show)) + (closed + turn_items(after, more)) =~= closed
            + turn_items(after, more));
    } else {
        let f = fragments[done];
        assert(events[0] == grow(f));
        assert(rest =~= fragments.skip(done + 1).map_values(grow) + (stop + more));
        assert(fragments.take(done + 1) =~= fragments.take(done).push(f));
        lemma_concatenation_push(fragments.take(done), f);
        let block = BlockModel::ToolUse {
            id,
            name,
            args_buf: concatenation(fragments.take(done + 1)),
        };
        let next = with_block(turn, index, block);
        lemma_fragments(next, index, id, name, fragments, done + 1, more);
        assert(next.blocks.remove(index) =~= turn.blocks.remove(index));
        let tail = closed + turn_items(
            TurnModel { blocks: turn.blocks.remove(index), ..turn },
            more,
        );
        let first = items(seq![show(f)]);
        assert(items(left.map_values(show)) =~= first + items(
            fragments.skip(done + 1).map_values(show),
        ));
        assert(first + (items(fragments.skip(done + 1).map_values(show)) + tail) =~= (first + items(
            fragments.skip(done + 1).map_values(show),
        )) + tail);
    }
}

/// A tool call streams as its start, its argument fragments as they came, and one closing chunk
/// for the fragments put together.
pub proof fn tool_call_streams(
    turn: TurnModel,
    index: u32,
    id: String,
    name: String,
    input: crate::json::Json,
    fragments: Seq<String>,
    more: Seq<Result<AnthropicEvent, AnthropicError>>,
)
    ensures
        turn_items(
            turn,
            tool_call_events(index, AnthropicBlock::ToolUse { id, name, input }, fragments) + more,
        ) == items(
            seq![ChunkModel::ToolCallStarted { id: id@, name: name@ }] + fragments.map_values(
                |f: String| ChunkModel::ToolCallArgsDelta { id: id@, delta: f@ },
            ) + seq![stream::tool_call_closed(id@, name@, concatenation(fragments))],
        ) + turn_items(TurnModel { blocks: turn.blocks.remove(index), ..turn }, more),
{
    let grow = |f: String|
        Ok::<AnthropicEvent, AnthropicError>(
            AnthropicEvent::ContentBlockDelta {
                index,
                delta: AnthropicDelta::InputJsonDelta { partial_json: f },
            },
        );
    let show = |f: String| ChunkModel::ToolCallArgsDelta { id: id@, delta: f@ };
    let stop = seq![Ok::<AnthropicEvent, AnthropicError>(AnthropicEvent::ContentBlockStop { index })];
    let block = AnthropicBlock::ToolUse { id, name, input };
    let events = tool_call_events(index, block, fragments) + more;
    let rest = events.subrange(1, events.len() as int);
    assert(fragments.skip(0) =~= fragments);
    assert(rest =~= fragments.skip(0).map_values(grow) + (stop + more));
    let begun = BlockModel::ToolUse { id: id@, name: name@, args_buf: Seq::empty() };
    let next = with_block(turn, index, begun);
    assert(concatenation(fragments.take(0)) =~= Seq::empty());
    lemma_fragments(next, index, id@, name@, fragments, 0, more);
    assert(next.blocks.remove(index) =~= turn.blocks.remove(index));
    let start = seq![ChunkModel::ToolCallStarted { id: id@, name: name@ }];
    let closed = seq![stream::tool_call_closed(id@, name@, concatenation(fragments))];
    let after = turn_items(TurnModel { blocks: turn.blocks.remove(index), ..turn }, more);
    assert(items(start) + (items(fragments.map_values(show)) + (items(closed) + after)) =~= items(
        start + fragments.map_values(show) + closed,
    ) + after);
}

/// Cache writes by time to live add up to the total that a turn reports, or are not told apart at
/// all, as long as no bare total follows a breakdown.
pub proof fn cache_reports_add_up(
    usage: Usage,
    flat_input_tokens: u32,
    breakdown: Option<CacheCreationBreakdown>,
)
    requires
        breakdown_fits(breakdown),
        breakdown is None ==> usage.cache_creation_5m_tokens == 0 && usage.cache_creation_1h_tokens
            == 0,
    ensures
        cache_writes_add_up(with_cache_creation(usage, flat_input_tokens, breakdown)),
{
}

/// The index of the tool call that is open after an event, from where `open` is the one that was.
pub open spec fn open_index_after(open: Option<u32>, event: AnthropicEvent) -> Option<u32> {
    match event {
        AnthropicEvent::ContentBlockStart { index, content_block: AnthropicBlock::ToolUse { .. } } =>
            Some(index),
        AnthropicEvent::ContentBlockStop { index } => if open == Some(index) {
            None
        } else {
            open
        },
        _ => open,
    }
}

/// Whether an event leaves an open tool call alone: no other call begins, and no block takes its
/// place.
pub open spec fn respects_open_call(open: Option<u32>, event: AnthropicEvent) -> bool {
    match event {
        AnthropicEvent::ContentBlockStart { index, content_block } => match content_block {
            AnthropicBlock::ToolUse { .. } => open is None,
            AnthropicBlock::RedactedThinking { .. } => true,
            _ => open != Some(index),
        },
        _ => true,
    }
}

/// Whether the provider sends one tool call after the other, up to where it fails.
pub open spec fn one_call_at_a_time(
    open: Option<u32>,
    events: Seq<Result<AnthropicEvent, AnthropicError>>,
) -> bool
    decreases events.len(),
{
    if events.len() == 0 || is_failure(events[0]) {
        true
    } else {
        let event = events[0]->Ok_0;
        respects_open_call(open, event) && one_call_at_a_time(
            open_index_after(open, event),
            events.subrange(1, events.len() as int),
        )
    }
}

/// The index of the tool call that the provider leaves open.
pub open spec fn open_index_at_end(
    open: Option<u32>,
    events: Seq<Result<AnthropicEvent, AnthropicError>>,
) -> Option<u32>
    decreases events.len(),
{
    if events.len() == 0 || is_failure(events[0]) {
        open
    } else {
        open_index_at_end(
            open_index_after(open, events[0]->Ok_0),
            events.subrange(1, events.len() as int),
        )
    }
}

/// Whether the only tool call that a turn has open is the one at an index.
spec fn only_open_call(turn: TurnModel, open: Option<u32>) -> bool {
    forall|k: u32| #[trigger] open_block(turn, k) matches Some(BlockModel::ToolUse { .. }) <==> open
        == Some(k)
}

/// The id of the tool call that a turn has open at an index.
spec fn open_id(turn: TurnModel, open: Option<u32>) -> Option<Seq<char>> {
    match open {
        Some(k) => match open_block(turn, k) {
            Some(BlockModel::ToolUse { id, .. }) => Some(id),
            _ => None,
        },
        None => None,
    }
}

proof fn lemma_event_nests(turn: TurnModel, open: Option<u32>, event: AnthropicEvent)
    requires
        only_open_call(turn, open),
        respects_open_call(open, event),
        !(event is Error),
    ensures
        ({
            let (next, chunks) = after_event(turn, event)->Ok_0;
            let after = open_index_after(open, event);
            &&& only_open_call(next, after)
            &&& stream::calls_nest(items(chunks), open_id(turn, open))
            &&& stream::open_call_after(items(chunks), open_id(turn, open)) == open_id(next, after)
        }),
{
    reveal_with_fuel(stream::calls_nest, 3);
    reveal_with_fuel(stream::open_call_after, 3);
    let (next, chunks) = after_event(turn, event)->Ok_0;
    let after = open_index_after(open, event);
    assert(chunks.len() <= 1);
    if let Some(k) = open {
        assert(open_block(turn, k) matches Some(BlockModel::ToolUse { .. }));
    }
    assert forall|k: u32| #[trigger]
        open_block(next, k) matches Some(BlockModel::ToolUse { .. }) <==> after == Some(k) by {
        assert(open_block(turn, k) matches Some(BlockModel::ToolUse { .. }) <==> open == Some(k));
    }
    match event {
        AnthropicEvent::ContentBlockStop { index } => {
            assert(open_block(turn, index) matches Some(BlockModel::ToolUse { .. }) <==> open == Some(
                index,
            ));
        },
        AnthropicEvent::ContentBlockDelta { index, .. } => {
            assert(open_block(turn, index) matches Some(BlockModel::ToolUse { .. }) <==> open == Some(
                index,
            ));
        },
        _ => {},
    }
}

proof fn lemma_turn_nests(
    turn: TurnModel,
    open: Option<u32>,
    events: Seq<Result<AnthropicEvent, AnthropicError>>,
)
    requires
        only_open_call(turn, open),
        one_call_at_a_time(open, events),
    ensures
        stream::calls_nest(turn_items(turn, events), open_id(turn, open)),
        stream::open_call_after(turn_items(turn, events), open_id(turn, open)) is Some
            <==> open_index_at_end(open, events) is Some,
    decreases events.len(),
{
    reveal_with_fuel(stream::calls_nest, 3);
    reveal_with_fuel(stream::open_call_after, 3);
    if let Some(k) = open {
        assert(open_block(turn, k) matches Some(BlockModel::ToolUse { .. }));
    }
    if events.len() > 0 && !is_failure(events[0]) {
        let event = events[0]->Ok_0;
        let rest = events.subrange(1, events.len() as int);
        let (next, chunks) = after_event(turn, event)->Ok_0;
        lemma_event_nests(turn, open, event);
        lemma_turn_nests(next, open_index_after(open, event), rest);
        stream::calls_nest_in_sequence(
            items(chunks),
            turn_items(next, rest),
            open_id(turn, open),
        );
    }
}

/// Where the provider sends one tool call after the other, the calls of a turn nest cleanly: each
/// is closed before the next begins, and the last one too, unless the provider leaves it open.
pub proof fn tool_calls_nest(events: Seq<Result<AnthropicEvent, AnthropicError>>)
    requires
        one_call_at_a_time(None, events),
    ensures
        stream::calls_nest(turn_items(fresh_turn(), events), None),
        stream::open_call_after(turn_items(fresh_turn(), events), None) is Some
            <==> open_index_at_end(None, events) is Some,
{
    assert(only_open_call(fresh_turn(), None));
    lemma_turn_nests(fresh_turn(), None, events);
}

} // verus!
