//! Events of a run: [`StreamChunk`], [`FinishReason`], [`AbortReason`] and [`Usage`].

use std::sync::Arc;
use vstd::prelude::*;
use vstd::string::*;

use crate::duration::{self, Duration};
use crate::ids::{RunId, StepId};
use crate::json::{self, Json, JsonModel};
use crate::message::{self, Message, MessageModel, ToolResultContent, ToolResultModel};
use crate::text::{self, decimal_text, is_blank};

verus! {

/// Event that is emitted as a run progresses.
#[derive(Debug, Clone)]
pub enum StreamChunk {
    /// Incremental visible text.
    TextDelta { delta: String },
    /// A tool call has begun. Closed by one `ToolCallFinished` or `ToolCallMalformed` with its id.
    ToolCallStarted { id: String, name: String },
    /// Incremental argument text of a tool call.
    ToolCallArgsDelta { id: String, delta: String },
    /// A tool call is fully assembled.
    ToolCallFinished { id: String, name: String, args: Json },
    /// A tool call whose argument text is no JSON object.
    ToolCallMalformed { id: String, name: String, raw: String, error: String },
    /// Incremental reasoning text.
    ReasoningDelta { delta: String },
    /// End of a visible reasoning block.
    ReasoningFinished { signature: Option<String> },
    /// A complete redacted reasoning block.
    RedactedReasoningBlock { data: String },
    /// End of a single provider turn.
    TurnFinished { reason: FinishReason, usage: Usage, service_tier: Option<String> },
    /// The run has been accepted.
    RunStarted { run_id: RunId },
    /// A step begins.
    StepStarted { run_id: RunId, step_id: StepId, iteration: usize },
    /// A step has ended; carries the messages that the run has added so far.
    StepFinished {
        run_id: RunId,
        step_id: StepId,
        iteration: usize,
        new_messages_so_far: Arc<Vec<Message>>,
    },
    /// A tool has produced a reply.
    ToolResult { run_id: RunId, step_id: StepId, call_id: String, content: ToolResultContent },
    /// The run has ended.
    RunFinished { run_id: RunId, reason: FinishReason, usage: Usage, new_messages: Vec<Message> },
    /// The history has been compacted on behalf of the run.
    HistoryCompacted {
        run_id: RunId,
        before_count: usize,
        after_count: usize,
        strategy: &'static str,
    },
}

/// Reason a provider turn or a run ended.
#[derive(Debug, Clone)]
pub enum FinishReason {
    EndTurn,
    ToolUse,
    MaxTokens,
    StopSequence,
    /// Stopped from outside the model.
    Aborted(AbortReason),
    /// A reason the adapter does not know.
    Other(String),
}

/// Why a run was aborted.
#[derive(Debug, Clone, PartialEq, Eq)]
pub enum AbortReason {
    /// The configured time is over.
    Timeout(Duration),
    Cancelled,
    /// A middleware refused the run.
    Terminated { reason: String },
    /// A middleware refused a tool call.
    ToolTerminated { tool_name: String, call_id: String, reason: String },
    /// The run used up its iterations.
    MaxIterations(usize),
}

/// Token counters of a turn or a run.
#[derive(Debug, Clone, Copy, PartialEq, Eq, Structural)]
pub struct Usage {
    /// Prompt tokens, cached and uncached.
    pub input_tokens: u32,
    pub output_tokens: u32,
    /// Prompt tokens that came from the cache.
    pub cached_input_tokens: u32,
    /// Tokens written to a cache.
    pub cache_creation_input_tokens: u32,
    /// Tokens written to a cache for five minutes.
    pub cache_creation_5m_tokens: u32,
    /// Tokens written to a cache for one hour.
    pub cache_creation_1h_tokens: u32,
    /// Output tokens spent on hidden reasoning.
    pub reasoning_tokens: u32,
}

/// What an [`AbortReason`] says.
pub enum AbortReasonModel {
    Timeout(nat),
    Cancelled,
    Terminated { reason: Seq<char> },
    ToolTerminated { tool_name: Seq<char>, call_id: Seq<char>, reason: Seq<char> },
    MaxIterations(usize),
}

impl View for AbortReason {
    type V = AbortReasonModel;

    open spec fn view(&self) -> AbortReasonModel {
        match *self {
            AbortReason::Timeout(d) => AbortReasonModel::Timeout(d@),
            AbortReason::Cancelled => AbortReasonModel::Cancelled,
            AbortReason::Terminated { reason } => AbortReasonModel::Terminated { reason: reason@ },
            AbortReason::ToolTerminated {
                tool_name,
                call_id,
                reason,
            } => AbortReasonModel::ToolTerminated {
                tool_name: tool_name@,
                call_id: call_id@,
                reason: reason@,
            },
            AbortReason::MaxIterations(n) => AbortReasonModel::MaxIterations(n),
        }
    }
}

/// What a [`FinishReason`] says.
pub enum FinishReasonModel {
    EndTurn,
    ToolUse,
    MaxTokens,
    StopSequence,
    Aborted(AbortReasonModel),
    Other(Seq<char>),
}

impl View for FinishReason {
    type V = FinishReasonModel;

    open spec fn view(&self) -> FinishReasonModel {
        match *self {
            FinishReason::EndTurn => FinishReasonModel::EndTurn,
            FinishReason::ToolUse => FinishReasonModel::ToolUse,
            FinishReason::MaxTokens => FinishReasonModel::MaxTokens,
            FinishReason::StopSequence => FinishReasonModel::StopSequence,
            FinishReason::Aborted(reason) => FinishReasonModel::Aborted(reason@),
            FinishReason::Other(s) => FinishReasonModel::Other(s@),
        }
    }
}

/// What a [`StreamChunk`] says.
pub enum ChunkModel {
    TextDelta { delta: Seq<char> },
    ToolCallStarted { id: Seq<char>, name: Seq<char> },
    ToolCallArgsDelta { id: Seq<char>, delta: Seq<char> },
    ToolCallFinished { id: Seq<char>, name: Seq<char>, args: JsonModel },
    ToolCallMalformed { id: Seq<char>, name: Seq<char>, raw: Seq<char>, error: Seq<char> },
    ReasoningDelta { delta: Seq<char> },
    ReasoningFinished { signature: Option<Seq<char>> },
    RedactedReasoningBlock { data: Seq<char> },
    TurnFinished { reason: FinishReasonModel, usage: Usage, service_tier: Option<Seq<char>> },
    RunStarted { run_id: RunId },
    StepStarted { run_id: RunId, step_id: StepId, iteration: usize },
    StepFinished {
        run_id: RunId,
        step_id: StepId,
        iteration: usize,
        new_messages_so_far: Seq<MessageModel>,
    },
    ToolResult { run_id: RunId, step_id: StepId, call_id: Seq<char>, content: ToolResultModel },
    RunFinished {
        run_id: RunId,
        reason: FinishReasonModel,
        usage: Usage,
        new_messages: Seq<MessageModel>,
    },
    HistoryCompacted {
        run_id: RunId,
        before_count: usize,
        after_count: usize,
        strategy: Seq<char>,
    },
}

impl View for StreamChunk {
    type V = ChunkModel;

    open spec fn view(&self) -> ChunkModel {
        match *self {
            StreamChunk::TextDelta { delta } => ChunkModel::TextDelta { delta: delta@ },
            StreamChunk::ToolCallStarted { id, name } => ChunkModel::ToolCallStarted {
                id: id@,
                name: name@,
            },
            StreamChunk::ToolCallArgsDelta { id, delta } => ChunkModel::ToolCallArgsDelta {
                id: id@,
                delta: delta@,
            },
            StreamChunk::ToolCallFinished { id, name, args } => ChunkModel::ToolCallFinished {
                id: id@,
                name: name@,
                args: args@,
            },
            StreamChunk::ToolCallMalformed { id, name, raw, error } => ChunkModel::ToolCallMalformed {
                id: id@,
                name: name@,
                raw: raw@,
                error: error@,
            },
            StreamChunk::ReasoningDelta { delta } => ChunkModel::ReasoningDelta { delta: delta@ },
            StreamChunk::ReasoningFinished { signature } => ChunkModel::ReasoningFinished {
                signature: text::opt_text(signature),
            },
            StreamChunk::RedactedReasoningBlock { data } => ChunkModel::RedactedReasoningBlock {
                data: data@,
            },
            StreamChunk::TurnFinished { reason, usage, service_tier } => ChunkModel::TurnFinished {
                reason: reason@,
                usage,
                service_tier: text::opt_text(service_tier),
            },
            StreamChunk::RunStarted { run_id } => ChunkModel::RunStarted { run_id },
            StreamChunk::StepStarted { run_id, step_id, iteration } => ChunkModel::StepStarted {
                run_id,
                step_id,
                iteration,
            },
            StreamChunk::StepFinished {
                run_id,
                step_id,
                iteration,
                new_messages_so_far,
            } => ChunkModel::StepFinished {
                run_id,
                step_id,
                iteration,
                new_messages_so_far: message::message_models(new_messages_so_far@),
            },
            StreamChunk::ToolResult { run_id, step_id, call_id, content } => ChunkModel::ToolResult {
                run_id,
                step_id,
                call_id: call_id@,
                content: content@,
            },
            StreamChunk::RunFinished {
                run_id,
                reason,
                usage,
                new_messages,
            } => ChunkModel::RunFinished {
                run_id,
                reason: reason@,
                usage,
                new_messages: message::message_models(new_messages@),
            },
            StreamChunk::HistoryCompacted {
                run_id,
                before_count,
                after_count,
                strategy,
            } => ChunkModel::HistoryCompacted {
                run_id,
                before_count,
                after_count,
                strategy: strategy@,
            },
        }
    }
}

/// What a list of events says.
pub open spec fn chunk_models(chunks: Seq<StreamChunk>) -> Seq<ChunkModel> {
    chunks.map_values(|c: StreamChunk| c@)
}

/// The event that closes a tool call whose argument text parses to `parsed`.
pub open spec fn closed_call(
    id: Seq<char>,
    name: Seq<char>,
    raw: Seq<char>,
    parsed: Result<JsonModel, Seq<char>>,
) -> ChunkModel {
    if text::blank(raw) {
        ChunkModel::ToolCallFinished { id, name, args: JsonModel::Object(Map::empty()) }
    } else {
        match parsed {
            Ok(args) => if args is Object {
                ChunkModel::ToolCallFinished { id, name, args }
            } else {
                ChunkModel::ToolCallMalformed {
                    id,
                    name,
                    raw,
                    error: "tool arguments must be a JSON object"@,
                }
            },
            Err(error) => ChunkModel::ToolCallMalformed { id, name, raw, error },
        }
    }
}

/// The event that closes a tool call with the given argument text.
pub open spec fn tool_call_closed(id: Seq<char>, name: Seq<char>, raw: Seq<char>) -> ChunkModel {
    closed_call(id, name, raw, json::json_parse(raw))
}

impl StreamChunk {
    /// Builds a [`StreamChunk::RunStarted`].
    pub fn run_started(run_id: RunId) -> (r: Self)
        ensures
            r == (StreamChunk::RunStarted { run_id }),
    {
        StreamChunk::RunStarted { run_id }
    }

    /// Builds a [`StreamChunk::StepStarted`].
    pub fn step_started(run_id: RunId, step_id: StepId, iteration: usize) -> (r: Self)
        ensures
            r == (StreamChunk::StepStarted { run_id, step_id, iteration }),
    {
        StreamChunk::StepStarted { run_id, step_id, iteration }
    }

    /// Builds a [`StreamChunk::StepFinished`].
    pub fn step_finished(
        run_id: RunId,
        step_id: StepId,
        iteration: usize,
        new_messages_so_far: Arc<Vec<Message>>,
    ) -> (r: Self)
        ensures
            r == (StreamChunk::StepFinished { run_id, step_id, iteration, new_messages_so_far }),
    {
        StreamChunk::StepFinished { run_id, step_id, iteration, new_messages_so_far }
    }

    /// Builds a [`StreamChunk::ToolResult`].
    pub fn tool_result(
        run_id: RunId,
        step_id: StepId,
        call_id: &str,
        content: ToolResultContent,
    ) -> (r: Self)
        ensures
            r@ == (ChunkModel::ToolResult { run_id, step_id, call_id: call_id@, content: content@ }),
    {
        StreamChunk::ToolResult { run_id, step_id, call_id: call_id.to_owned(), content }
    }

    /// Builds a [`StreamChunk::RunFinished`].
    pub fn run_finished(
        run_id: RunId,
        reason: FinishReason,
        usage: Usage,
        new_messages: Vec<Message>,
    ) -> (r: Self)
        ensures
            r == (StreamChunk::RunFinished { run_id, reason, usage, new_messages }),
    {
        StreamChunk::RunFinished { run_id, reason, usage, new_messages }
    }

    /// Builds a [`StreamChunk::HistoryCompacted`].
    pub fn history_compacted(
        run_id: RunId,
        before_count: usize,
        after_count: usize,
        strategy: &'static str,
    ) -> (r: Self)
        ensures
            r == (StreamChunk::HistoryCompacted { run_id, before_count, after_count, strategy }),
    {
        StreamChunk::HistoryCompacted { run_id, before_count, after_count, strategy }
    }

    /// Closes a streamed tool call from its argument text: no text at all means no arguments,
    /// and a text that is no JSON object makes the call malformed.
    pub fn tool_call_from_raw_args(id: String, name: String, raw: String) -> (r: Self)
        ensures
            r@ == tool_call_closed(id@, name@, raw@),
    {
        let parsed = Json::parse(raw.as_str());
        StreamChunk::tool_call_from_parsed_args(id, name, raw, parsed)
    }

    /// Closes a streamed tool call from its argument text and what parsing made of that.
    pub fn tool_call_from_parsed_args(
        id: String,
        name: String,
        raw: String,
        parsed: Result<Json, String>,
    ) -> (r: Self)
        ensures
            r@ == closed_call(
                id@,
                name@,
                raw@,
                match parsed {
                    Ok(j) => Ok(j@),
                    Err(e) => Err(e@),
                },
            ),
    {
        if is_blank(raw.as_str()) {
            return StreamChunk::ToolCallFinished { id, name, args: Json::empty_object() };
        }
        let error = match parsed {
            Ok(args) => {
                if let Json::Object(_) = &args {
                    return StreamChunk::ToolCallFinished { id, name, args };
                }
                "tool arguments must be a JSON object".to_owned()
            },
            Err(e) => e,
        };
        StreamChunk::ToolCallMalformed { id, name, raw, error }
    }
}

/// The text of an abort reason.
pub open spec fn abort_text(reason: AbortReasonModel) -> Seq<char> {
    match reason {
        AbortReasonModel::Timeout(nanos) => "timeout exceeded after "@ + duration::span_text(nanos),
        AbortReasonModel::Cancelled => "cancelled by caller"@,
        AbortReasonModel::Terminated { reason } => reason,
        AbortReasonModel::ToolTerminated { reason, .. } => reason,
        AbortReasonModel::MaxIterations(n) => "agent loop exceeded max iterations ("@
            + text::decimal(n as nat) + ")"@,
    }
}

impl AbortReason {
    /// Builds an [`AbortReason::Terminated`].
    pub fn terminated(reason: &str) -> (r: Self)
        ensures
            r@ == (AbortReasonModel::Terminated { reason: reason@ }),
    {
        AbortReason::Terminated { reason: reason.to_owned() }
    }

    /// Builds an [`AbortReason::ToolTerminated`].
    pub fn tool_terminated(tool_name: &str, call_id: &str, reason: &str) -> (r: Self)
        ensures
            r@ == (AbortReasonModel::ToolTerminated {
                tool_name: tool_name@,
                call_id: call_id@,
                reason: reason@,
            }),
    {
        AbortReason::ToolTerminated {
            tool_name: tool_name.to_owned(),
            call_id: call_id.to_owned(),
            reason: reason.to_owned(),
        }
    }

    /// The reason as text for logs and for a parent model.
    pub fn text(&self) -> (r: String)
        ensures
            r@ == abort_text(self@),
    {
        match self {
            AbortReason::Timeout(d) => {
                let mut out = "timeout exceeded after ".to_owned();
                let span = d.debug_text();
                out.append(span.as_str());
                out
            },
            AbortReason::Cancelled => "cancelled by caller".to_owned(),
            AbortReason::Terminated { reason } => reason.clone(),
            AbortReason::ToolTerminated { reason, .. } => reason.clone(),
            AbortReason::MaxIterations(n) => {
                let mut out = "agent loop exceeded max iterations (".to_owned();
                let count = decimal_text(*n as u64);
                out.append(count.as_str());
                out.append(")");
                out
            },
        }
    }
}

/// Whether each counter of a sum fits.
pub open spec fn usage_sum_fits(a: Usage, b: Usage) -> bool {
    &&& a.input_tokens + b.input_tokens <= u32::MAX
    &&& a.output_tokens + b.output_tokens <= u32::MAX
    &&& a.cached_input_tokens + b.cached_input_tokens <= u32::MAX
    &&& a.cache_creation_input_tokens + b.cache_creation_input_tokens <= u32::MAX
    &&& a.cache_creation_5m_tokens + b.cache_creation_5m_tokens <= u32::MAX
    &&& a.cache_creation_1h_tokens + b.cache_creation_1h_tokens <= u32::MAX
    &&& a.reasoning_tokens + b.reasoning_tokens <= u32::MAX
}

/// The sum, counter by counter.
pub open spec fn usage_sum(a: Usage, b: Usage) -> Usage {
    Usage {
        input_tokens: (a.input_tokens + b.input_tokens) as u32,
        output_tokens: (a.output_tokens + b.output_tokens) as u32,
        cached_input_tokens: (a.cached_input_tokens + b.cached_input_tokens) as u32,
        cache_creation_input_tokens: (a.cache_creation_input_tokens
            + b.cache_creation_input_tokens) as u32,
        cache_creation_5m_tokens: (a.cache_creation_5m_tokens + b.cache_creation_5m_tokens) as u32,
        cache_creation_1h_tokens: (a.cache_creation_1h_tokens + b.cache_creation_1h_tokens) as u32,
        reasoning_tokens: (a.reasoning_tokens + b.reasoning_tokens) as u32,
    }
}

/// No tokens at all.
pub open spec fn no_usage() -> Usage {
    Usage {
        input_tokens: 0,
        output_tokens: 0,
        cached_input_tokens: 0,
        cache_creation_input_tokens: 0,
        cache_creation_5m_tokens: 0,
        cache_creation_1h_tokens: 0,
        reasoning_tokens: 0,
    }
}

impl Default for Usage {
    fn default() -> (r: Self)
        ensures
            r == no_usage(),
    {
        Usage {
            input_tokens: 0,
            output_tokens: 0,
            cached_input_tokens: 0,
            cache_creation_input_tokens: 0,
            cache_creation_5m_tokens: 0,
            cache_creation_1h_tokens: 0,
            reasoning_tokens: 0,
        }
    }
}

impl std::ops::Add for Usage {
    type Output = Usage;

    fn add(self, other: Usage) -> (r: Usage) {
        Usage {
            input_tokens: self.input_tokens + other.input_tokens,
            output_tokens: self.output_tokens + other.output_tokens,
            cached_input_tokens: self.cached_input_tokens + other.cached_input_tokens,
            cache_creation_input_tokens: self.cache_creation_input_tokens
                + other.cache_creation_input_tokens,
            cache_creation_5m_tokens: self.cache_creation_5m_tokens
                + other.cache_creation_5m_tokens,
            cache_creation_1h_tokens: self.cache_creation_1h_tokens
                + other.cache_creation_1h_tokens,
            reasoning_tokens: self.reasoning_tokens + other.reasoning_tokens,
        }
    }
}

impl vstd::std_specs::ops::AddSpecImpl for Usage {
    open spec fn obeys_add_spec() -> bool {
        true
    }

    open spec fn add_req(self, other: Usage) -> bool {
        usage_sum_fits(self, other)
    }

    open spec fn add_spec(self, other: Usage) -> Usage {
        usage_sum(self, other)
    }
}

impl std::ops::AddAssign for Usage {
    fn add_assign(&mut self, other: Usage)
        requires
            usage_sum_fits(*old(self), other),
        ensures
            *final(self) == usage_sum(*old(self), other),
    {
        *self = *self + other;
    }
}

/// What a run spent is the sum of its turns in any order and grouping, and a turn that spent
/// nothing adds nothing.
pub proof fn usage_sums_in_any_order(a: Usage, b: Usage, c: Usage)
    requires
        usage_sum_fits(a, b),
        usage_sum_fits(usage_sum(a, b), c),
    ensures
        usage_sum_fits(b, a) && usage_sum(a, b) == usage_sum(b, a),
        usage_sum_fits(b, c) && usage_sum_fits(a, usage_sum(b, c)),
        usage_sum(usage_sum(a, b), c) == usage_sum(a, usage_sum(b, c)),
        usage_sum_fits(a, no_usage()) && usage_sum(a, no_usage()) == a,
{
}

/// Whether the tool calls of a stream nest cleanly, from where `open` is the id of the call that
/// is open: a call begins only after the one before is closed, and its argument text and its end
/// carry its id.
pub open spec fn calls_nest<E>(items: Seq<Result<ChunkModel, E>>, open: Option<Seq<char>>) -> bool
    decreases items.len(),
{
    if items.len() == 0 {
        true
    } else {
        let rest = items.subrange(1, items.len() as int);
        match items[0] {
            Ok(ChunkModel::ToolCallStarted { id, .. }) => open is None && calls_nest(rest, Some(id)),
            Ok(ChunkModel::ToolCallArgsDelta { id, .. }) => open == Some(id) && calls_nest(
                rest,
                open,
            ),
            Ok(ChunkModel::ToolCallFinished { id, .. }) => open == Some(id) && calls_nest(
                rest,
                None,
            ),
            Ok(ChunkModel::ToolCallMalformed { id, .. }) => open == Some(id) && calls_nest(
                rest,
                None,
            ),
            _ => calls_nest(rest, open),
        }
    }
}

/// The id of the call that is open after a stream whose calls nest cleanly.
pub open spec fn open_call_after<E>(
    items: Seq<Result<ChunkModel, E>>,
    open: Option<Seq<char>>,
) -> Option<Seq<char>>
    decreases items.len(),
{
    if items.len() == 0 {
        open
    } else {
        let rest = items.subrange(1, items.len() as int);
        match items[0] {
            Ok(ChunkModel::ToolCallStarted { id, .. }) => open_call_after(rest, Some(id)),
            Ok(ChunkModel::ToolCallFinished { .. }) => open_call_after(rest, None),
            Ok(ChunkModel::ToolCallMalformed { .. }) => open_call_after(rest, None),
            _ => open_call_after(rest, open),
        }
    }
}

/// Streams one after the other nest cleanly where each does from where the one before left off.
pub proof fn calls_nest_in_sequence<E>(
    a: Seq<Result<ChunkModel, E>>,
    b: Seq<Result<ChunkModel, E>>,
    open: Option<Seq<char>>,
)
    ensures
        calls_nest(a + b, open) <==> calls_nest(a, open) && calls_nest(b, open_call_after(a, open)),
        open_call_after(a + b, open) == open_call_after(b, open_call_after(a, open)),
    decreases a.len(),
{
    if a.len() == 0 {
        assert(a + b =~= b);
    } else {
        let rest = a.subrange(1, a.len() as int);
        assert((a + b).subrange(1, (a + b).len() as int) =~= rest + b);
        assert((a + b)[0] == a[0]);
        let next = match a[0] {
            Ok(ChunkModel::ToolCallStarted { id, .. }) => Some(id),
            Ok(ChunkModel::ToolCallFinished { .. }) => None,
            Ok(ChunkModel::ToolCallMalformed { .. }) => None,
            _ => open,
        };
        calls_nest_in_sequence(rest, b, next);
    }
}

/// The text deltas of a stream, put together in the order of arrival.
pub open spec fn streamed_text<E>(items: Seq<Result<ChunkModel, E>>) -> Seq<char>
    decreases items.len(),
{
    if items.len() == 0 {
        Seq::empty()
    } else {
        (match items[0] {
            Ok(ChunkModel::TextDelta { delta }) => delta,
            _ => Seq::empty(),
        }) + streamed_text(items.subrange(1, items.len() as int))
    }
}

/// The text of streams one after the other is their texts one after the other.
pub proof fn streamed_text_in_sequence<E>(
    a: Seq<Result<ChunkModel, E>>,
    b: Seq<Result<ChunkModel, E>>,
)
    ensures
        streamed_text(a + b) == streamed_text(a) + streamed_text(b),
    decreases a.len(),
{
    if a.len() == 0 {
        assert(a + b =~= b);
        assert(streamed_text(a) + streamed_text(b) =~= streamed_text(b));
    } else {
        let rest = a.subrange(1, a.len() as int);
        streamed_text_in_sequence(rest, b);
        assert((a + b).subrange(1, (a + b).len() as int) =~= rest + b);
        assert((a + b)[0] == a[0]);
        let head = match a[0] {
            Ok(ChunkModel::TextDelta { delta }) => delta,
            _ => Seq::empty(),
        };
        assert(head + (streamed_text(rest) + streamed_text(b)) =~= (head + streamed_text(rest))
            + streamed_text(b));
    }
}

} // verus!
