//! Turns the events of a Chat Completions stream into [`StreamChunk`]s.

use std::collections::{HashMap, HashSet};
use vstd::prelude::*;
use vstd::string::*;

use super::errors::{self, AzureOpenAIApiErrorKind, AzureOpenAIError, ErrorModel};
use super::events::{ChatCompletionsChunk, Choice, ChunkError, ChunkUsage, ToolCallDelta};
use crate::stream::{
    self, ChunkModel, FinishReason, FinishReasonModel, StreamChunk, Usage,
};
use crate::text::{self, same_text};

verus! {

broadcast use vstd::std_specs::hash::group_hash_axioms;

/// A tool call whose arguments are still coming.
struct ToolCallState {
    id: String,
    name: String,
    args_buf: String,
}

/// What a pending tool call says.
pub struct CallModel {
    pub id: Seq<char>,
    pub name: Seq<char>,
    pub args_buf: Seq<char>,
}

impl View for ToolCallState {
    type V = CallModel;

    closed spec fn view(&self) -> CallModel {
        CallModel { id: self.id@, name: self.name@, args_buf: self.args_buf@ }
    }
}

/// What is known of a turn in the middle of its stream.
pub struct TurnState {
    tool_calls: HashMap<u32, ToolCallState>,
    emitted_starts: HashSet<u32>,
    tool_call_order: Vec<u32>,
    final_finish: Option<String>,
    usage: Usage,
}

/// What a [`TurnState`] says.
pub struct TurnModel {
    /// The pending calls, by index.
    pub tool_calls: Map<u32, CallModel>,
    /// The indices of all calls that have begun.
    pub emitted_starts: Set<u32>,
    /// The indices of the pending calls, in the order in which they began.
    pub tool_call_order: Seq<u32>,
    pub final_finish: Option<Seq<char>>,
    pub usage: Usage,
}

impl View for TurnState {
    type V = TurnModel;

    closed spec fn view(&self) -> TurnModel {
        TurnModel {
            tool_calls: self.tool_calls@.map_values(|c: ToolCallState| c@),
            emitted_starts: self.emitted_starts@,
            tool_call_order: self.tool_call_order@,
            final_finish: text::opt_text(self.final_finish),
            usage: self.usage,
        }
    }
}

/// A turn before its first event.
pub open spec fn fresh_turn() -> TurnModel {
    TurnModel {
        tool_calls: Map::empty(),
        emitted_starts: Set::empty(),
        tool_call_order: Seq::empty(),
        final_finish: None,
        usage: stream::no_usage(),
    }
}

/// The meaning of a finish reason; none means a natural end.
pub open spec fn finish_meaning(reason: Option<Seq<char>>) -> FinishReasonModel {
    match reason {
        None => FinishReasonModel::EndTurn,
        Some(s) => if s == "stop"@ {
            FinishReasonModel::EndTurn
        } else if s == "length"@ {
            FinishReasonModel::MaxTokens
        } else if s == "tool_calls"@ || s == "function_call"@ {
            FinishReasonModel::ToolUse
        } else {
            FinishReasonModel::Other(s)
        },
    }
}

/// Maps a finish reason.
pub fn map_finish_reason(reason: Option<&str>) -> (r: FinishReason)
    ensures
        r@ == finish_meaning(
            match reason {
                Some(s) => Some(s@),
                None => None,
            },
        ),
{
    match reason {
        None => FinishReason::EndTurn,
        Some(s) => {
            if same_text(s, "stop") {
                FinishReason::EndTurn
            } else if same_text(s, "length") {
                FinishReason::MaxTokens
            } else if same_text(s, "tool_calls") || same_text(s, "function_call") {
                FinishReason::ToolUse
            } else {
                FinishReason::Other(s.to_owned())
            }
        },
    }
}

/// The name in a part of a tool call.
pub open spec fn delta_name(tc: ToolCallDelta) -> Option<Seq<char>> {
    match tc.function {
        Some(f) => text::opt_text(f.name),
        None => None,
    }
}

/// The arguments in a part of a tool call; none and empty are the same.
pub open spec fn delta_args(tc: ToolCallDelta) -> Seq<char> {
    match tc.function {
        Some(f) => match f.arguments {
            Some(s) => s@,
            None => Seq::empty(),
        },
        None => Seq::empty(),
    }
}

/// The turn with a call begun: the first part that has both id and name begins it.
pub open spec fn call_started(turn: TurnModel, tc: ToolCallDelta) -> (TurnModel, Seq<ChunkModel>) {
    match (tc.id, delta_name(tc)) {
        (Some(id), Some(name)) => if turn.emitted_starts.contains(tc.index) {
            (turn, Seq::empty())
        } else {
            (
                TurnModel {
                    tool_calls: turn.tool_calls.insert(
                        tc.index,
                        CallModel { id: id@, name, args_buf: Seq::empty() },
                    ),
                    emitted_starts: turn.emitted_starts.insert(tc.index),
                    tool_call_order: turn.tool_call_order.push(tc.index),
                    ..turn
                },
                seq![ChunkModel::ToolCallStarted { id: id@, name }],
            )
        },
        _ => (turn, Seq::empty()),
    }
}

/// The turn with arguments added to a pending call.
pub open spec fn call_grown(turn: TurnModel, index: u32, args: Seq<char>) -> (
    TurnModel,
    Seq<ChunkModel>,
) {
    if args.len() > 0 && turn.tool_calls.dom().contains(index) {
        let call = turn.tool_calls[index];
        (
            TurnModel {
                tool_calls: turn.tool_calls.insert(
                    index,
                    CallModel { args_buf: call.args_buf + args, ..call },
                ),
                ..turn
            },
            seq![ChunkModel::ToolCallArgsDelta { id: call.id, delta: args }],
        )
    } else {
        (turn, Seq::empty())
    }
}

/// What a part of a tool call does.
pub open spec fn after_tool_delta(turn: TurnModel, tc: ToolCallDelta) -> (
    TurnModel,
    Seq<ChunkModel>,
) {
    let (begun, first) = call_started(turn, tc);
    let (grown, second) = call_grown(begun, tc.index, delta_args(tc));
    (grown, first + second)
}

/// What a list of parts of tool calls does.
pub open spec fn after_tool_deltas(turn: TurnModel, deltas: Seq<ToolCallDelta>) -> (
    TurnModel,
    Seq<ChunkModel>,
)
    decreases deltas.len(),
{
    if deltas.len() == 0 {
        (turn, Seq::empty())
    } else {
        let (before, first) = after_tool_deltas(turn, deltas.drop_last());
        let (after, last) = after_tool_delta(before, deltas.last());
        (after, first + last)
    }
}

/// The chunks that close pending calls, in the given order, and the calls that stay pending.
pub open spec fn calls_closed(calls: Map<u32, CallModel>, order: Seq<u32>) -> (
    Map<u32, CallModel>,
    Seq<ChunkModel>,
)
    decreases order.len(),
{
    if order.len() == 0 {
        (calls, Seq::empty())
    } else {
        let (left, first) = calls_closed(calls, order.drop_last());
        let index = order.last();
        if left.dom().contains(index) {
            let call = left[index];
            (
                left.remove(index),
                first.push(stream::tool_call_closed(call.id, call.name, call.args_buf)),
            )
        } else {
            (left, first)
        }
    }
}

/// What a finish reason does: it closes the pending calls.
pub open spec fn after_finish(turn: TurnModel, reason: Option<String>) -> (
    TurnModel,
    Seq<ChunkModel>,
) {
    match reason {
        None => (turn, Seq::empty()),
        Some(s) => {
            let (left, closed) = calls_closed(turn.tool_calls, turn.tool_call_order);
            (
                TurnModel {
                    tool_calls: left,
                    tool_call_order: Seq::empty(),
                    final_finish: Some(s@),
                    ..turn
                },
                closed,
            )
        },
    }
}

/// The chunks for the text of a choice; empty text is left out.
pub open spec fn choice_text(choice: Choice) -> Seq<ChunkModel> {
    match choice.delta.content {
        Some(s) => if s@.len() > 0 {
            seq![ChunkModel::TextDelta { delta: s@ }]
        } else {
            Seq::empty()
        },
        None => Seq::empty(),
    }
}

/// What a choice does: its text, its tool calls, its finish reason.
pub open spec fn after_choice(turn: TurnModel, choice: Choice) -> (TurnModel, Seq<ChunkModel>) {
    let (called, calls) = after_tool_deltas(turn, choice.delta.tool_calls@);
    let (finished, closed) = after_finish(called, choice.finish_reason);
    (finished, choice_text(choice) + calls + closed)
}

/// What a list of choices does.
pub open spec fn after_choices(turn: TurnModel, choices: Seq<Choice>) -> (
    TurnModel,
    Seq<ChunkModel>,
)
    decreases choices.len(),
{
    if choices.len() == 0 {
        (turn, Seq::empty())
    } else {
        let (before, first) = after_choices(turn, choices.drop_last());
        let (after, last) = after_choice(before, choices.last());
        (after, first + last)
    }
}

/// The counters after a report.
pub open spec fn with_usage(usage: Usage, report: Option<ChunkUsage>) -> Usage {
    match report {
        None => usage,
        Some(u) => Usage {
            input_tokens: u.prompt_tokens,
            output_tokens: u.completion_tokens,
            cached_input_tokens: match u.prompt_tokens_details {
                Some(details) => details.cached_tokens,
                None => usage.cached_input_tokens,
            },
            ..usage
        },
    }
}

/// The error of an error event: its category comes from the code, or else from the type.
pub open spec fn event_error(error: ChunkError) -> ErrorModel {
    ErrorModel::Provider {
        kind: errors::kind_of_code(
            match (error.code, error.error_type) {
                (Some(code), _) => code@,
                (None, Some(error_type)) => error_type@,
                (None, None) => Seq::empty(),
            },
        ),
        message: error.message@,
    }
}

/// What an event does: the turn after it and the chunks it emits, or the error that ends the turn.
pub open spec fn after_event(turn: TurnModel, chunk: ChatCompletionsChunk) -> Result<
    (TurnModel, Seq<ChunkModel>),
    ErrorModel,
> {
    match chunk.error {
        Some(error) => Err(event_error(error)),
        None => Ok(
            after_choices(
                TurnModel { usage: with_usage(turn.usage, chunk.usage), ..turn },
                chunk.choices@,
            ),
        ),
    }
}

/// The chunk that ends a turn.
pub open spec fn turn_finished(turn: TurnModel) -> ChunkModel {
    ChunkModel::TurnFinished {
        reason: finish_meaning(turn.final_finish),
        usage: turn.usage,
        service_tier: None,
    }
}

/// Chunks as items of a stream that may fail.
pub open spec fn items(chunks: Seq<ChunkModel>) -> Seq<Result<ChunkModel, ErrorModel>> {
    chunks.map_values(|c: ChunkModel| Ok::<ChunkModel, ErrorModel>(c))
}

/// All that a turn emits for the events to come: chunks up to the end of the turn, or up to the
/// first error.
pub open spec fn turn_items(
    turn: TurnModel,
    events: Seq<Result<ChatCompletionsChunk, AzureOpenAIError>>,
) -> Seq<Result<ChunkModel, ErrorModel>>
    decreases events.len(),
{
    if events.len() == 0 {
        seq![Ok(turn_finished(turn))]
    } else {
        match events[0] {
            Err(e) => seq![Err(e@)],
            Ok(event) => match after_event(turn, event) {
                Err(e) => seq![Err(e)],
                Ok((next, chunks)) => items(chunks) + turn_items(
                    next,
                    events.subrange(1, events.len() as int),
                ),
            },
        }
    }
}

/// What a list of stream items says.
pub open spec fn item_models(items: Seq<Result<StreamChunk, AzureOpenAIError>>) -> Seq<
    Result<ChunkModel, ErrorModel>,
> {
    items.map_values(
        |i: Result<StreamChunk, AzureOpenAIError>|
            match i {
                Ok(c) => Ok::<ChunkModel, ErrorModel>(c@),
                Err(e) => Err(e@),
            },
    )
}

fn emit(out: &mut Vec<StreamChunk>, chunk: StreamChunk)
    ensures
        stream::chunk_models(final(out)@) == stream::chunk_models(old(out)@).push(chunk@),
{
    let ghost before = out@;
    out.push(chunk);
    assert(stream::chunk_models(out@) =~= stream::chunk_models(before).push(chunk@));
}

impl TurnState {
    /// A turn before its first event.
    pub fn new() -> (r: Self)
        ensures
            r@ == fresh_turn(),
    {
        let r = TurnState {
            tool_calls: HashMap::new(),
            emitted_starts: HashSet::new(),
            tool_call_order: Vec::new(),
            final_finish: None,
            usage: Usage::default(),
        };
        assert(r@.tool_calls =~= Map::<u32, CallModel>::empty());
        assert(r@.emitted_starts =~= Set::<u32>::empty());
        assert(r@.tool_call_order =~= Seq::<u32>::empty());
        r
    }

    fn put_call(&mut self, index: u32, call: ToolCallState)
        ensures
            final(self)@ == (TurnModel {
                tool_calls: old(self)@.tool_calls.insert(index, call@),
                ..old(self)@
            }),
    {
        let ghost before = self.tool_calls@;
        self.tool_calls.insert(index, call);
        assert(self.tool_calls@.map_values(|c: ToolCallState| c@) =~= before.map_values(
            |c: ToolCallState| c@,
        ).insert(index, call@));
    }

    fn take_call(&mut self, index: u32) -> (r: Option<ToolCallState>)
        ensures
            final(self)@ == (TurnModel {
                tool_calls: old(self)@.tool_calls.remove(index),
                ..old(self)@
            }),
            r is Some <==> old(self)@.tool_calls.dom().contains(index),
            r matches Some(c) ==> old(self)@.tool_calls[index] == c@,
    {
        let ghost before = self.tool_calls@;
        let r = self.tool_calls.remove(&index);
        assert(self.tool_calls@.map_values(|c: ToolCallState| c@) =~= before.map_values(
            |c: ToolCallState| c@,
        ).remove(index));
        r
    }

    fn start_call(&mut self, tc: &ToolCallDelta, out: &mut Vec<StreamChunk>)
        ensures
            ({
                let (turn, chunks) = call_started(old(self)@, *tc);
                final(self)@ == turn && stream::chunk_models(final(out)@) == stream::chunk_models(
                    old(out)@,
                ) + chunks
            }),
    {
        let ghost before = stream::chunk_models(out@);
        assert(before + Seq::<ChunkModel>::empty() =~= before);
        if self.emitted_starts.contains(&tc.index) {
            return;
        }
        let name = match &tc.function {
            Some(f) => match &f.name {
                Some(name) => name,
                None => {
                    return;
                },
            },
            None => {
                return;
            },
        };
        if let Some(id) = &tc.id {
            self.put_call(
                tc.index,
                ToolCallState { id: id.clone(), name: name.clone(), args_buf: String::new() },
            );
            self.emitted_starts.insert(tc.index);
            self.tool_call_order.push(tc.index);
            emit(out, StreamChunk::ToolCallStarted { id: id.clone(), name: name.clone() });
            assert(stream::chunk_models(out@) =~= before + seq![
                ChunkModel::ToolCallStarted { id: id@, name: name@ },
            ]);
        }
    }

    fn grow_call(&mut self, index: u32, args: &str, out: &mut Vec<StreamChunk>)
        ensures
            ({
                let (turn, chunks) = call_grown(old(self)@, index, args@);
                final(self)@ == turn && stream::chunk_models(final(out)@) == stream::chunk_models(
                    old(out)@,
                ) + chunks
            }),
    {
        let ghost before = stream::chunk_models(out@);
        let ghost calls = self@.tool_calls;
        assert(before + Seq::<ChunkModel>::empty() =~= before);
        if args.is_empty() {
            return;
        }
        match self.take_call(index) {
            Some(call) => {
                let id = call.id.clone();
                let mut args_buf = call.args_buf;
                args_buf.append(args);
                self.put_call(index, ToolCallState { id: call.id, name: call.name, args_buf });
                assert(self@.tool_calls =~= calls.insert(index, self@.tool_calls[index]));
                emit(out, StreamChunk::ToolCallArgsDelta { id, delta: args.to_owned() });
                assert(stream::chunk_models(out@) =~= before + seq![
                    ChunkModel::ToolCallArgsDelta { id: id@, delta: args@ },
                ]);
            },
            None => {
                assert(self@.tool_calls =~= calls);
            },
        }
    }

    fn take_tool_delta(&mut self, tc: &ToolCallDelta, out: &mut Vec<StreamChunk>)
        ensures
            ({
                let (turn, chunks) = after_tool_delta(old(self)@, *tc);
                final(self)@ == turn && stream::chunk_models(final(out)@) == stream::chunk_models(
                    old(out)@,
                ) + chunks
            }),
    {
        let ghost before = stream::chunk_models(out@);
        let ghost first = call_started(self@, *tc).1;
        self.start_call(tc, out);
        let ghost begun = self@;
        if let Some(f) = &tc.function {
            if let Some(args) = &f.arguments {
                self.grow_call(tc.index, args.as_str(), out);
            }
        }
        let ghost second = call_grown(begun, tc.index, delta_args(*tc)).1;
        assert(stream::chunk_models(out@) =~= before + (first + second));
    }

    fn take_tool_deltas(&mut self, deltas: &Vec<ToolCallDelta>, out: &mut Vec<StreamChunk>)
        ensures
            ({
                let (turn, chunks) = after_tool_deltas(old(self)@, deltas@);
                final(self)@ == turn && stream::chunk_models(final(out)@) == stream::chunk_models(
                    old(out)@,
                ) + chunks
            }),
    {
        let ghost start = stream::chunk_models(out@);
        let ghost turn0 = self@;
        let mut i: usize = 0;
        assert(start + Seq::<ChunkModel>::empty() =~= start);
        while i < deltas.len()
            invariant
                i <= deltas.len(),
                turn0 == old(self)@,
                start == stream::chunk_models(old(out)@),
                self@ == after_tool_deltas(turn0, deltas@.take(i as int)).0,
                stream::chunk_models(out@) == start + after_tool_deltas(
                    turn0,
                    deltas@.take(i as int),
                ).1,
            decreases deltas.len() - i,
        {
            let ghost first = after_tool_deltas(turn0, deltas@.take(i as int)).1;
            let ghost last = after_tool_delta(self@, deltas@[i as int]).1;
            assert(deltas@.take(i as int + 1).drop_last() =~= deltas@.take(i as int));
            self.take_tool_delta(&deltas[i], out);
            assert((start + first) + last =~= start + (first + last));
            i = i + 1;
        }
        assert(deltas@.take(i as int) =~= deltas@);
    }

    fn close_calls(&mut self, out: &mut Vec<StreamChunk>)
        ensures
            ({
                let (left, closed) = calls_closed(
                    old(self)@.tool_calls,
                    old(self)@.tool_call_order,
                );
                &&& final(self)@ == (TurnModel {
                    tool_calls: left,
                    tool_call_order: Seq::empty(),
                    ..old(self)@
                })
                &&& stream::chunk_models(final(out)@) == stream::chunk_models(old(out)@) + closed
            }),
    {
        let ghost start = stream::chunk_models(out@);
        let ghost turn0 = self@;
        let mut order: Vec<u32> = Vec::new();
        std::mem::swap(&mut order, &mut self.tool_call_order);
        let mut i: usize = 0;
        assert(start + Seq::<ChunkModel>::empty() =~= start);
        assert(self@.tool_call_order =~= Seq::<u32>::empty());
        while i < order.len()
            invariant
                i <= order.len(),
                turn0 == old(self)@,
                order@ == turn0.tool_call_order,
                start == stream::chunk_models(old(out)@),
                self@ == (TurnModel {
                    tool_calls: calls_closed(turn0.tool_calls, order@.take(i as int)).0,
                    tool_call_order: Seq::empty(),
                    ..turn0
                }),
                stream::chunk_models(out@) == start + calls_closed(
                    turn0.tool_calls,
                    order@.take(i as int),
                ).1,
            decreases order.len() - i,
        {
            let ghost first = calls_closed(turn0.tool_calls, order@.take(i as int)).1;
            let ghost left = self@.tool_calls;
            assert(order@.take(i as int + 1).drop_last() =~= order@.take(i as int));
            match self.take_call(order[i]) {
                Some(call) => {
                    let chunk = StreamChunk::tool_call_from_raw_args(
                        call.id,
                        call.name,
                        call.args_buf,
                    );
                    emit(out, chunk);
                    assert((start + first).push(chunk@) =~= start + first.push(chunk@));
                },
                None => {
                    assert(self@.tool_calls =~= left);
                },
            }
            i = i + 1;
        }
        assert(order@.take(i as int) =~= order@);
    }

    fn take_choice(&mut self, choice: &Choice, out: &mut Vec<StreamChunk>)
        ensures
            ({
                let (turn, chunks) = after_choice(old(self)@, *choice);
                final(self)@ == turn && stream::chunk_models(final(out)@) == stream::chunk_models(
                    old(out)@,
                ) + chunks
            }),
    {
        let ghost start = stream::chunk_models(out@);
        let ghost texts = choice_text(*choice);
        if let Some(s) = &choice.delta.content {
            if !s.as_str().is_empty() {
                emit(out, StreamChunk::TextDelta { delta: s.clone() });
            }
        }
        assert(stream::chunk_models(out@) =~= start + texts);
        let ghost calls = after_tool_deltas(self@, choice.delta.tool_calls@).1;
        self.take_tool_deltas(&choice.delta.tool_calls, out);
        let ghost closed = after_finish(self@, choice.finish_reason).1;
        if let Some(reason) = &choice.finish_reason {
            self.final_finish = Some(reason.clone());
            self.close_calls(out);
        }
        assert(stream::chunk_models(out@) =~= start + (texts + calls + closed));
    }

    /// Takes one event in and gives the chunks it emits, or the error that ends the turn.
    pub fn step(&mut self, chunk: ChatCompletionsChunk) -> (r: Result<
        Vec<StreamChunk>,
        AzureOpenAIError,
    >)
        ensures
            after_event(old(self)@, chunk) == (match r {
                Ok(chunks) => Ok::<(TurnModel, Seq<ChunkModel>), ErrorModel>(
                    (final(self)@, stream::chunk_models(chunks@)),
                ),
                Err(e) => Err(e@),
            }),
    {
        if let Some(error) = chunk.error {
            let kind = match (&error.code, &error.error_type) {
                (Some(code), _) => AzureOpenAIApiErrorKind::from_error_code(code.as_str()),
                (None, Some(error_type)) => AzureOpenAIApiErrorKind::from_error_code(
                    error_type.as_str(),
                ),
                (None, None) => {
                    let none = String::new();
                    AzureOpenAIApiErrorKind::from_error_code(none.as_str())
                },
            };
            return Err(AzureOpenAIError::Provider { kind, message: error.message });
        }
        if let Some(u) = chunk.usage {
            self.usage.input_tokens = u.prompt_tokens;
            self.usage.output_tokens = u.completion_tokens;
            if let Some(details) = u.prompt_tokens_details {
                self.usage.cached_input_tokens = details.cached_tokens;
            }
        }
        let ghost turn0 = self@;
        let mut out: Vec<StreamChunk> = Vec::new();
        let mut i: usize = 0;
        assert(stream::chunk_models(out@) =~= Seq::<ChunkModel>::empty());
        while i < chunk.choices.len()
            invariant
                i <= chunk.choices.len(),
                chunk.error is None,
                turn0 == (TurnModel {
                    usage: with_usage(old(self)@.usage, chunk.usage),
                    ..old(self)@
                }),
                self@ == after_choices(turn0, chunk.choices@.take(i as int)).0,
                stream::chunk_models(out@) == after_choices(turn0, chunk.choices@.take(i as int)).1,
            decreases chunk.choices.len() - i,
        {
            assert(chunk.choices@.take(i as int + 1).drop_last() =~= chunk.choices@.take(i as int));
            self.take_choice(&chunk.choices[i], &mut out);
            i = i + 1;
        }
        assert(chunk.choices@.take(i as int) =~= chunk.choices@);
        Ok(out)
    }

    /// The chunk that ends the turn once the events are over.
    pub fn finish(self) -> (r: StreamChunk)
        ensures
            r@ == turn_finished(self@),
    {
        let reason = match &self.final_finish {
            Some(s) => map_finish_reason(Some(s.as_str())),
            None => map_finish_reason(None),
        };
        StreamChunk::TurnFinished { reason, usage: self.usage, service_tier: None }
    }
}

fn append_chunks(out: &mut Vec<Result<StreamChunk, AzureOpenAIError>>, chunks: Vec<StreamChunk>)
    ensures
        item_models(final(out)@) == item_models(old(out)@) + items(stream::chunk_models(chunks@)),
{
    let ghost all = chunks@;
    let ghost start = item_models(out@);
    assert(item_models(out@) =~= start + items(stream::chunk_models(all.take(0))));
    for chunk in it: chunks
        invariant
            it.seq() == all,
            all == chunks@,
            start == item_models(old(out)@),
            item_models(out@) == start + items(stream::chunk_models(all.take(it.index() as int))),
    {
        let ghost k: int = it.index() as int;
        let ghost before = item_models(out@);
        assert(chunk == all[k]);
        out.push(Ok(chunk));
        assert(item_models(out@) =~= before.push(Ok(chunk@)));
        assert(items(stream::chunk_models(all.take(k + 1))) =~= items(
            stream::chunk_models(all.take(k)),
        ).push(Ok(chunk@)));
    }
    assert(all.take(all.len() as int) =~= all);
}

/// Runs a turn over its events.
pub fn process_events(events: Vec<Result<ChatCompletionsChunk, AzureOpenAIError>>) -> (r: Vec<
    Result<StreamChunk, AzureOpenAIError>,
>)
    ensures
        item_models(r@) == turn_items(fresh_turn(), events@),
{
    let ghost all = events@;
    let mut turn = TurnState::new();
    let mut out: Vec<Result<StreamChunk, AzureOpenAIError>> = Vec::new();
    assert(all.subrange(0, all.len() as int) =~= all);
    assert(item_models(out@) =~= Seq::empty());
    assert(turn_items(fresh_turn(), all) =~= item_models(out@) + turn_items(turn@, all));
    for event in it: events
        invariant
            it.seq() == all,
            all == events@,
            turn_items(fresh_turn(), all) == item_models(out@) + turn_items(
                turn@,
                all.subrange(it.index() as int, all.len() as int),
            ),
    {
        let ghost k: int = it.index() as int;
        let ghost left = all.subrange(k, all.len() as int);
        let ghost rest = all.subrange(k + 1, all.len() as int);
        let ghost before = item_models(out@);
        assert(event == all[k]);
        assert(left.subrange(1, left.len() as int) =~= rest);
        match event {
            Err(e) => {
                out.push(Err(e));
                assert(item_models(out@) =~= before + seq![Err(e@)]);
                return out;
            },
            Ok(event) => match turn.step(event) {
                Err(e) => {
                    out.push(Err(e));
                    assert(item_models(out@) =~= before + seq![Err(e@)]);
                    return out;
                },
                Ok(chunks) => {
                    let ghost emitted = items(stream::chunk_models(chunks@));
                    append_chunks(&mut out, chunks);
                    assert(before + (emitted + turn_items(turn@, rest)) =~= (before + emitted)
                        + turn_items(turn@, rest));
                },
            },
        }
    }
    let ghost before = item_models(out@);
    let last = turn.finish();
    out.push(Ok(last));
    assert(item_models(out@) =~= before + seq![Ok(last@)]);
    out
}

/// Whether an event cannot be read or reports an error.
pub open spec fn is_failure(event: Result<ChatCompletionsChunk, AzureOpenAIError>) -> bool {
    event is Err || event->Ok_0.error is Some
}

proof fn lemma_no_end_inside(turn: TurnModel, choices: Seq<Choice>)
    ensures
        forall|i: int|
            0 <= i < after_choices(turn, choices).1.len() ==> !(#[trigger] after_choices(
                turn,
                choices,
            ).1[i] is TurnFinished),
    decreases choices.len(),
{
    if choices.len() > 0 {
        let (before, first) = after_choices(turn, choices.drop_last());
        lemma_no_end_inside(turn, choices.drop_last());
        let choice = choices.last();
        let (called, calls) = after_tool_deltas(before, choice.delta.tool_calls@);
        lemma_no_end_in_calls(before, choice.delta.tool_calls@);
        lemma_no_end_in_closing(called.tool_calls, called.tool_call_order);
    }
}

proof fn lemma_no_end_in_calls(turn: TurnModel, deltas: Seq<ToolCallDelta>)
    ensures
        forall|i: int|
            0 <= i < after_tool_deltas(turn, deltas).1.len() ==> !(#[trigger] after_tool_deltas(
                turn,
                deltas,
            ).1[i] is TurnFinished),
    decreases deltas.len(),
{
    if deltas.len() > 0 {
        lemma_no_end_in_calls(turn, deltas.drop_last());
    }
}

proof fn lemma_no_end_in_closing(calls: Map<u32, CallModel>, order: Seq<u32>)
    ensures
        forall|i: int|
            0 <= i < calls_closed(calls, order).1.len() ==> !(#[trigger] calls_closed(
                calls,
                order,
            ).1[i] is TurnFinished),
    decreases order.len(),
{
    if order.len() > 0 {
        lemma_no_end_in_closing(calls, order.drop_last());
    }
}

/// A turn emits chunks and then one last item. Only that can be the end of the turn or an error,
/// and it is an error exactly where some event fails.
pub proof fn turn_ends_once(
    turn: TurnModel,
    events: Seq<Result<ChatCompletionsChunk, AzureOpenAIError>>,
)
    ensures
        ({
            let out = turn_items(turn, events);
            &&& out.len() > 0
            &&& forall|i: int|
                0 <= i < out.len() - 1 ==> (#[trigger] out[i] matches Ok(c) && !(c is TurnFinished))
            &&& out.last() matches Ok(c) ==> c is TurnFinished
            &&& out.last() is Err <==> exists|i: int| 0 <= i < events.len() && is_failure(#[trigger] events[i])
        }),
    decreases events.len(),
{
    if events.len() > 0 {
        let rest = events.subrange(1, events.len() as int);
        assert(forall|i: int| 0 <= i < rest.len() ==> rest[i] == #[trigger] events[i + 1]);
        if is_failure(events[0]) {
        } else {
            let event = events[0]->Ok_0;
            let (next, chunks) = after_event(turn, event)->Ok_0;
            lemma_no_end_inside(
                TurnModel { usage: with_usage(turn.usage, event.usage), ..turn },
                event.choices@,
            );
            turn_ends_once(next, rest);
            let tail = turn_items(next, rest);
            let out = items(chunks) + tail;
            assert(out.last() == tail.last());
            assert forall|i: int| 0 <= i < out.len() - 1 implies (#[trigger] out[i] matches Ok(c)
                && !(c is TurnFinished)) by {
                if i >= chunks.len() {
                    assert(out[i] == tail[i - chunks.len()]);
                } else {
                    assert(out[i] == Ok::<ChunkModel, ErrorModel>(chunks[i]));
                }
            }
            if exists|i: int| 0 <= i < events.len() && is_failure(#[trigger] events[i]) {
                let i = choose|i: int| 0 <= i < events.len() && is_failure(#[trigger] events[i]);
                assert(rest[i - 1] == events[i]);
            }
            if exists|i: int| 0 <= i < rest.len() && is_failure(#[trigger] rest[i]) {
                let i = choose|i: int| 0 <= i < rest.len() && is_failure(#[trigger] rest[i]);
                assert(events[i + 1] == rest[i]);
            }
        }
    }
}

/// What holds of every turn: the pending calls are those in the order, once each, and all of them
/// have begun.
pub open spec fn consistent(turn: TurnModel) -> bool {
    &&& turn.tool_call_order.no_duplicates()
    &&& forall|k: u32| #[trigger] turn.tool_calls.dom().contains(k) <==> turn.tool_call_order.contains(k)
    &&& forall|k: u32| #[trigger] turn.tool_calls.dom().contains(k) ==> turn.emitted_starts.contains(k)
}

proof fn lemma_closing_all(calls: Map<u32, CallModel>, order: Seq<u32>)
    requires
        order.no_duplicates(),
        forall|i: int| 0 <= i < order.len() ==> calls.dom().contains(#[trigger] order[i]),
    ensures
        forall|k: u32| #[trigger]
            calls_closed(calls, order).0.dom().contains(k) <==> calls.dom().contains(k)
                && !order.contains(k),
        forall|k: u32|
            calls_closed(calls, order).0.dom().contains(k) ==> #[trigger] calls_closed(
                calls,
                order,
            ).0[k] == calls[k],
        calls_closed(calls, order).1 == order.map_values(
            |k: u32| stream::tool_call_closed(calls[k].id, calls[k].name, calls[k].args_buf),
        ),
    decreases order.len(),
{
    let close = |k: u32| stream::tool_call_closed(calls[k].id, calls[k].name, calls[k].args_buf);
    if order.len() > 0 {
        let rest = order.drop_last();
        assert(forall|i: int| 0 <= i < rest.len() ==> rest[i] == #[trigger] order[i]);
        lemma_closing_all(calls, rest);
        let last = order.last();
        assert(!rest.contains(last)) by {
            if rest.contains(last) {
                let i = choose|i: int| 0 <= i < rest.len() && rest[i] == last;
                assert(order[i] == order[order.len() - 1]);
            }
        }
        assert(order[order.len() - 1] == last);
        assert(calls_closed(calls, rest).0.dom().contains(last));
        assert(order.map_values(close) =~= rest.map_values(close).push(close(last)));
        assert forall|k: u32| order.contains(k) <==> rest.contains(k) || k == last by {
            if order.contains(k) && k != last {
                let i = choose|i: int| 0 <= i < order.len() && order[i] == k;
                assert(rest[i] == k);
            }
            if rest.contains(k) {
                let i = choose|i: int| 0 <= i < rest.len() && rest[i] == k;
                assert(order[i] == k);
            }
        }
    } else {
        assert(order.map_values(close) =~= Seq::<ChunkModel>::empty());
    }
}

proof fn lemma_tool_delta_consistent(turn: TurnModel, tc: ToolCallDelta)
    requires
        consistent(turn),
        turn.tool_calls.dom().subset_of(turn.emitted_starts),
    ensures
        consistent(after_tool_delta(turn, tc).0),
{
    let begun = call_started(turn, tc).0;
    if begun != turn {
        assert(!turn.tool_calls.dom().contains(tc.index));
        assert(!turn.tool_call_order.contains(tc.index));
        let order = turn.tool_call_order.push(tc.index);
        assert forall|k: u32| order.contains(k) <==> turn.tool_call_order.contains(k) || k
            == tc.index by {
            if turn.tool_call_order.contains(k) {
                let i = choose|i: int|
                    0 <= i < turn.tool_call_order.len() && turn.tool_call_order[i] == k;
                assert(order[i] == k);
            }
            if k == tc.index {
                assert(order[order.len() - 1] == k);
            }
        }
    }
}

/// A list of parts of tool calls keeps a turn consistent.
pub proof fn lemma_tool_deltas_consistent(turn: TurnModel, deltas: Seq<ToolCallDelta>)
    requires
        consistent(turn),
    ensures
        consistent(after_tool_deltas(turn, deltas).0),
    decreases deltas.len(),
{
    if deltas.len() > 0 {
        lemma_tool_deltas_consistent(turn, deltas.drop_last());
        lemma_tool_delta_consistent(after_tool_deltas(turn, deltas.drop_last()).0, deltas.last());
    }
}

/// A finish reason closes every pending call, once each, in the order in which the calls began,
/// and leaves none pending.
pub proof fn finish_closes_every_call(turn: TurnModel, reason: String)
    requires
        consistent(turn),
    ensures
        ({
            let (next, chunks) = after_finish(turn, Some(reason));
            &&& next.tool_calls =~= Map::empty()
            &&& next.tool_call_order.len() == 0
            &&& consistent(next)
            &&& chunks == turn.tool_call_order.map_values(
                |k: u32|
                    stream::tool_call_closed(
                        turn.tool_calls[k].id,
                        turn.tool_calls[k].name,
                        turn.tool_calls[k].args_buf,
                    ),
            )
        }),
{
    let order = turn.tool_call_order;
    assert forall|i: int| 0 <= i < order.len() implies turn.tool_calls.dom().contains(
        #[trigger] order[i],
    ) by {
        assert(order.contains(order[i]));
    }
    lemma_closing_all(turn.tool_calls, order);
    let next = after_finish(turn, Some(reason)).0;
    assert forall|k: u32| !next.tool_calls.dom().contains(k) by {
        if next.tool_calls.dom().contains(k) {
            assert(turn.tool_calls.dom().contains(k));
        }
    }
}

proof fn lemma_choices_consistent(turn: TurnModel, choices: Seq<Choice>)
    requires
        consistent(turn),
    ensures
        consistent(after_choices(turn, choices).0),
    decreases choices.len(),
{
    if choices.len() > 0 {
        lemma_choices_consistent(turn, choices.drop_last());
        let before = after_choices(turn, choices.drop_last()).0;
        let choice = choices.last();
        lemma_tool_deltas_consistent(before, choice.delta.tool_calls@);
        let called = after_tool_deltas(before, choice.delta.tool_calls@).0;
        if let Some(reason) = choice.finish_reason {
            finish_closes_every_call(called, reason);
        }
    }
}

/// Every turn is consistent: a fresh one is, and each event keeps it so.
pub proof fn turns_stay_consistent(turn: TurnModel, chunk: ChatCompletionsChunk)
    ensures
        consistent(fresh_turn()),
        consistent(turn) ==> (after_event(turn, chunk) matches Ok((next, _)) ==> consistent(next)),
{
    if consistent(turn) && chunk.error is None {
        let counted = TurnModel { usage: with_usage(turn.usage, chunk.usage), ..turn };
        assert(consistent(counted));
        lemma_choices_consistent(counted, chunk.choices@);
    }
}

/// A part of one tool call leaves every other pending call as it was.
pub proof fn parallel_calls_do_not_mix(turn: TurnModel, tc: ToolCallDelta, other: u32)
    requires
        other != tc.index,
    ensures
        ({
            let next = after_tool_delta(turn, tc).0;
            &&& next.tool_calls.dom().contains(other) <==> turn.tool_calls.dom().contains(other)
            &&& next.tool_calls[other] == turn.tool_calls[other]
        }),
{
}

/// The visible text of a choice.
pub open spec fn content_text(choice: Choice) -> Seq<char> {
    match choice.delta.content {
        Some(s) => s@,
        None => Seq::empty(),
    }
}

/// The visible text of a list of choices.
pub open spec fn choices_text(choices: Seq<Choice>) -> Seq<char>
    decreases choices.len(),
{
    if choices.len() == 0 {
        Seq::empty()
    } else {
        choices_text(choices.drop_last()) + content_text(choices.last())
    }
}

/// The visible text of a list of events that can all be read.
pub open spec fn events_text(events: Seq<Result<ChatCompletionsChunk, AzureOpenAIError>>) -> Seq<
    char,
>
    decreases events.len(),
{
    if events.len() == 0 {
        Seq::empty()
    } else {
        choices_text(events[0]->Ok_0.choices@) + events_text(
            events.subrange(1, events.len() as int),
        )
    }
}

proof fn lemma_items_concat(a: Seq<ChunkModel>, b: Seq<ChunkModel>)
    ensures
        items(a + b) == items(a) + items(b),
{
    assert(items(a + b) =~= items(a) + items(b));
}

proof fn lemma_no_text(chunks: Seq<ChunkModel>)
    requires
        forall|i: int| 0 <= i < chunks.len() ==> !(#[trigger] chunks[i] is TextDelta),
    ensures
        stream::streamed_text(items(chunks)) == Seq::<char>::empty(),
    decreases chunks.len(),
{
    if chunks.len() > 0 {
        let rest = chunks.subrange(1, chunks.len() as int);
        assert(items(chunks).subrange(1, chunks.len() as int) =~= items(rest));
        assert(items(chunks)[0] == Ok::<ChunkModel, ErrorModel>(chunks[0]));
        lemma_no_text(rest);
    }
}

proof fn lemma_no_text_in_calls(turn: TurnModel, deltas: Seq<ToolCallDelta>)
    ensures
        forall|i: int|
            0 <= i < after_tool_deltas(turn, deltas).1.len() ==> !(#[trigger] after_tool_deltas(
                turn,
                deltas,
            ).1[i] is TextDelta),
    decreases deltas.len(),
{
    if deltas.len() > 0 {
        lemma_no_text_in_calls(turn, deltas.drop_last());
    }
}

proof fn lemma_no_text_in_closing(calls: Map<u32, CallModel>, order: Seq<u32>)
    ensures
        forall|i: int|
            0 <= i < calls_closed(calls, order).1.len() ==> !(#[trigger] calls_closed(
                calls,
                order,
            ).1[i] is TextDelta),
    decreases order.len(),
{
    if order.len() > 0 {
        lemma_no_text_in_closing(calls, order.drop_last());
    }
}

proof fn lemma_choices_text(turn: TurnModel, choices: Seq<Choice>)
    ensures
        stream::streamed_text(items(after_choices(turn, choices).1)) == choices_text(choices),
    decreases choices.len(),
{
    reveal_with_fuel(stream::streamed_text, 3);
    if choices.len() > 0 {
        let (before, first) = after_choices(turn, choices.drop_last());
        let choice = choices.last();
        let shown = choice_text(choice);
        let (called, calls) = after_tool_deltas(before, choice.delta.tool_calls@);
        let closed = after_finish(called, choice.finish_reason).1;
        lemma_choices_text(turn, choices.drop_last());
        lemma_no_text_in_calls(before, choice.delta.tool_calls@);
        lemma_no_text_in_closing(called.tool_calls, called.tool_call_order);
        lemma_no_text(calls);
        lemma_no_text(closed);
        lemma_items_concat(first, shown + calls + closed);
        lemma_items_concat(shown + calls, closed);
        lemma_items_concat(shown, calls);
        stream::streamed_text_in_sequence(items(first), items(shown + calls + closed));
        stream::streamed_text_in_sequence(items(shown + calls), items(closed));
        stream::streamed_text_in_sequence(items(shown), items(calls));
        assert(stream::streamed_text(items(shown)) =~= content_text(choice));
        assert(stream::streamed_text(items(shown + calls + closed)) =~= content_text(choice));
    }
}

/// Text deltas put together in the order of arrival are the text that the provider sent.
pub proof fn text_is_kept(
    turn: TurnModel,
    events: Seq<Result<ChatCompletionsChunk, AzureOpenAIError>>,
)
    requires
        forall|i: int| 0 <= i < events.len() ==> !is_failure(#[trigger] events[i]),
    ensures
        stream::streamed_text(turn_items(turn, events)) == events_text(events),
    decreases events.len(),
{
    reveal_with_fuel(stream::streamed_text, 3);
    if events.len() == 0 {
        assert(stream::streamed_text(turn_items(turn, events)) =~= Seq::empty());
    } else {
        let rest = events.subrange(1, events.len() as int);
        assert(!is_failure(events[0]));
        assert(forall|i: int| 0 <= i < rest.len() ==> rest[i] == #[trigger] events[i + 1]);
        let event = events[0]->Ok_0;
        let (next, chunks) = after_event(turn, event)->Ok_0;
        text_is_kept(next, rest);
        lemma_choices_text(
            TurnModel { usage: with_usage(turn.usage, event.usage), ..turn },
            event.choices@,
        );
        stream::streamed_text_in_sequence(items(chunks), turn_items(next, rest));
    }
}

/// Whether a part of a tool call begins no call while another is pending.
pub open spec fn begins_alone(turn: TurnModel, tc: ToolCallDelta) -> bool {
    call_started(turn, tc).1.len() > 0 ==> turn.tool_call_order.len() == 0
}

/// Whether no part of a list begins a call while another is pending.
pub open spec fn parts_begin_alone(turn: TurnModel, deltas: Seq<ToolCallDelta>) -> bool
    decreases deltas.len(),
{
    deltas.len() == 0 || (parts_begin_alone(turn, deltas.drop_last()) && begins_alone(
        after_tool_deltas(turn, deltas.drop_last()).0,
        deltas.last(),
    ))
}

/// Whether no choice of a list begins a call while another is pending.
pub open spec fn choices_begin_alone(turn: TurnModel, choices: Seq<Choice>) -> bool
    decreases choices.len(),
{
    choices.len() == 0 || (choices_begin_alone(turn, choices.drop_last()) && parts_begin_alone(
        after_choices(turn, choices.drop_last()).0,
        choices.last().delta.tool_calls@,
    ))
}

/// Whether the provider sends one tool call after the other, up to where it fails.
pub open spec fn one_call_at_a_time(
    turn: TurnModel,
    events: Seq<Result<ChatCompletionsChunk, AzureOpenAIError>>,
) -> bool
    decreases events.len(),
{
    if events.len() == 0 || is_failure(events[0]) {
        true
    } else {
        let event = events[0]->Ok_0;
        choices_begin_alone(
            TurnModel { usage: with_usage(turn.usage, event.usage), ..turn },
            event.choices@,
        ) && one_call_at_a_time(
            after_event(turn, event)->Ok_0.0,
            events.subrange(1, events.len() as int),
        )
    }
}

/// The turn after events, up to where they fail.
pub open spec fn turn_at_end(
    turn: TurnModel,
    events: Seq<Result<ChatCompletionsChunk, AzureOpenAIError>>,
) -> TurnModel
    decreases events.len(),
{
    if events.len() == 0 || is_failure(events[0]) {
        turn
    } else {
        turn_at_end(
            after_event(turn, events[0]->Ok_0)->Ok_0.0,
            events.subrange(1, events.len() as int),
        )
    }
}

/// Whether a turn has at most one call pending.
spec fn one_pending(turn: TurnModel) -> bool {
    consistent(turn) && turn.tool_call_order.len() <= 1
}

/// The id of the only call that a turn has pending.
spec fn pending_id(turn: TurnModel) -> Option<Seq<char>> {
    if turn.tool_call_order.len() == 0 {
        None
    } else {
        Some(turn.tool_calls[turn.tool_call_order[0]].id)
    }
}

proof fn lemma_part_nests(turn: TurnModel, tc: ToolCallDelta)
    requires
        one_pending(turn),
        begins_alone(turn, tc),
    ensures
        ({
            let (next, chunks) = after_tool_delta(turn, tc);
            &&& one_pending(next)
            &&& stream::calls_nest(items(chunks), pending_id(turn))
            &&& stream::open_call_after(items(chunks), pending_id(turn)) == pending_id(next)
        }),
{
    reveal_with_fuel(stream::calls_nest, 3);
    reveal_with_fuel(stream::open_call_after, 3);
    lemma_tool_delta_consistent(turn, tc);
    let (begun, first) = call_started(turn, tc);
    let (grown, second) = call_grown(begun, tc.index, delta_args(tc));
    assert(stream::calls_nest(items(first), pending_id(turn)));
    assert(stream::open_call_after(items(first), pending_id(turn)) == pending_id(begun));
    if second.len() > 0 {
        if first.len() == 0 {
            assert(turn.tool_calls.dom().contains(tc.index));
            assert(turn.tool_call_order.contains(tc.index));
        }
        assert(begun.tool_call_order[0] == tc.index);
    }
    assert(stream::calls_nest(items(second), pending_id(begun)));
    assert(stream::open_call_after(items(second), pending_id(begun)) == pending_id(grown));
    lemma_items_concat(first, second);
    stream::calls_nest_in_sequence(items(first), items(second), pending_id(turn));
}

proof fn lemma_parts_nest(turn: TurnModel, deltas: Seq<ToolCallDelta>)
    requires
        one_pending(turn),
        parts_begin_alone(turn, deltas),
    ensures
        ({
            let (next, chunks) = after_tool_deltas(turn, deltas);
            &&& one_pending(next)
            &&& stream::calls_nest(items(chunks), pending_id(turn))
            &&& stream::open_call_after(items(chunks), pending_id(turn)) == pending_id(next)
        }),
    decreases deltas.len(),
{
    if deltas.len() > 0 {
        let (before, first) = after_tool_deltas(turn, deltas.drop_last());
        let (after, last) = after_tool_delta(before, deltas.last());
        lemma_parts_nest(turn, deltas.drop_last());
        lemma_part_nests(before, deltas.last());
        lemma_items_concat(first, last);
        stream::calls_nest_in_sequence(items(first), items(last), pending_id(turn));
    }
}

proof fn lemma_finish_nests(turn: TurnModel, reason: Option<String>)
    requires
        one_pending(turn),
    ensures
        ({
            let (next, chunks) = after_finish(turn, reason);
            &&& one_pending(next)
            &&& stream::calls_nest(items(chunks), pending_id(turn))
            &&& stream::open_call_after(items(chunks), pending_id(turn)) == pending_id(next)
        }),
{
    reveal_with_fuel(stream::calls_nest, 3);
    reveal_with_fuel(stream::open_call_after, 3);
    if let Some(s) = reason {
        finish_closes_every_call(turn, s);
    }
}

proof fn lemma_choices_nest(turn: TurnModel, choices: Seq<Choice>)
    requires
        one_pending(turn),
        choices_begin_alone(turn, choices),
    ensures
        ({
            let (next, chunks) = after_choices(turn, choices);
            &&& one_pending(next)
            &&& stream::calls_nest(items(chunks), pending_id(turn))
            &&& stream::open_call_after(items(chunks), pending_id(turn)) == pending_id(next)
        }),
    decreases choices.len(),
{
    reveal_with_fuel(stream::calls_nest, 3);
    reveal_with_fuel(stream::open_call_after, 3);
    if choices.len() > 0 {
        let (before, first) = after_choices(turn, choices.drop_last());
        let choice = choices.last();
        let shown = choice_text(choice);
        let (called, calls) = after_tool_deltas(before, choice.delta.tool_calls@);
        let (finished, closed) = after_finish(called, choice.finish_reason);
        lemma_choices_nest(turn, choices.drop_last());
        lemma_parts_nest(before, choice.delta.tool_calls@);
        lemma_finish_nests(called, choice.finish_reason);
        assert(stream::calls_nest(items(shown), pending_id(before)));
        assert(stream::open_call_after(items(shown), pending_id(before)) == pending_id(before));
        lemma_items_concat(first, shown + calls + closed);
        lemma_items_concat(shown + calls, closed);
        lemma_items_concat(shown, calls);
        stream::calls_nest_in_sequence(items(shown), items(calls), pending_id(before));
        stream::calls_nest_in_sequence(items(shown + calls), items(closed), pending_id(before));
        stream::calls_nest_in_sequence(
            items(first),
            items(shown + calls + closed),
            pending_id(turn),
        );
    }
}

proof fn lemma_turn_nests(
    turn: TurnModel,
    events: Seq<Result<ChatCompletionsChunk, AzureOpenAIError>>,
)
    requires
        one_pending(turn),
        one_call_at_a_time(turn, events),
    ensures
        stream::calls_nest(turn_items(turn, events), pending_id(turn)),
        stream::open_call_after(turn_items(turn, events), pending_id(turn)) is Some
            <==> turn_at_end(turn, events).tool_call_order.len() > 0,
    decreases events.len(),
{
    reveal_with_fuel(stream::calls_nest, 3);
    reveal_with_fuel(stream::open_call_after, 3);
    if events.len() > 0 && !is_failure(events[0]) {
        let event = events[0]->Ok_0;
        let rest = events.subrange(1, events.len() as int);
        let counted = TurnModel { usage: with_usage(turn.usage, event.usage), ..turn };
        let (next, chunks) = after_event(turn, event)->Ok_0;
        assert(one_pending(counted));
        lemma_choices_nest(counted, event.choices@);
        lemma_turn_nests(next, rest);
        stream::calls_nest_in_sequence(items(chunks), turn_items(next, rest), pending_id(turn));
    }
}

/// Where the provider sends one tool call after the other, the calls of a turn nest cleanly: each
/// is closed before the next begins, and the last one too, unless no finish reason follows it.
pub proof fn tool_calls_nest(events: Seq<Result<ChatCompletionsChunk, AzureOpenAIError>>)
    requires
        one_call_at_a_time(fresh_turn(), events),
    ensures
        stream::calls_nest(turn_items(fresh_turn(), events), None),
        stream::open_call_after(turn_items(fresh_turn(), events), None) is Some <==> turn_at_end(
            fresh_turn(),
            events,
        ).tool_call_order.len() > 0,
{
    lemma_turn_nests(fresh_turn(), events);
}

} // verus!
