//! Chat Completions streams: what went in comes out.

use vstd::prelude::*;

use crate::azure_openai::errors::{self, AzureOpenAIError, ErrorModel};
use crate::azure_openai::events::{
    ChatCompletionsChunk, Choice, ChunkError, ChunkUsage, FunctionDelta, ToolCallDelta,
};
use crate::azure_openai::stream::{self as turns, CallModel, TurnModel};
use crate::stream::{self, ChunkModel, FinishReasonModel, Usage};

verus! {

/// The argument text that one part carries, as it came.
pub open spec fn carried(part: ToolCallDelta) -> Seq<char> {
    match part.function {
        Some(FunctionDelta { arguments: Some(text), .. }) => text@,
        _ => Seq::empty(),
    }
}

/// All the argument text that parts carry for the call at an index, in order.
pub open spec fn sent_arguments(parts: Seq<ToolCallDelta>, index: u32) -> Seq<char>
    decreases parts.len(),
{
    if parts.len() == 0 {
        Seq::empty()
    } else if parts.last().index == index {
        sent_arguments(parts.drop_last(), index) + carried(parts.last())
    } else {
        sent_arguments(parts.drop_last(), index)
    }
}

/// All the argument text that chunks show for a call id, in order.
pub open spec fn shown_arguments(chunks: Seq<ChunkModel>, id: Seq<char>) -> Seq<char>
    decreases chunks.len(),
{
    if chunks.len() == 0 {
        Seq::empty()
    } else {
        match chunks.last() {
            ChunkModel::ToolCallArgsDelta { id: shown, delta } => if shown == id {
                shown_arguments(chunks.drop_last(), id) + delta
            } else {
                shown_arguments(chunks.drop_last(), id)
            },
            _ => shown_arguments(chunks.drop_last(), id),
        }
    }
}

proof fn lemma_shown_push(chunks: Seq<ChunkModel>, chunk: ChunkModel, id: Seq<char>)
    ensures
        shown_arguments(chunks.push(chunk), id) == shown_arguments(chunks, id) + (match chunk {
            ChunkModel::ToolCallArgsDelta { id: shown, delta } => if shown == id {
                delta
            } else {
                Seq::empty()
            },
            _ => Seq::empty(),
        }),
{
    assert(chunks.push(chunk).drop_last() =~= chunks);
    assert(shown_arguments(chunks, id) + Seq::<char>::empty() =~= shown_arguments(chunks, id));
}

/// The pending argument text of a call is what it was before and all the fragments that came for
/// its index since, as they came and in order, whatever else comes in between. Its id and name
/// stay. Where no other call has its id, the argument chunks for that id show the same text.
pub proof fn fragments_add_up(turn: TurnModel, parts: Seq<ToolCallDelta>, index: u32)
    requires
        turn.tool_calls.dom().contains(index),
        turns::consistent(turn),
    ensures
        ({
            let (after, chunks) = turns::after_tool_deltas(turn, parts);
            let call = turn.tool_calls[index];
            &&& after.tool_calls.dom().contains(index)
            &&& after.tool_calls[index].id == call.id
            &&& after.tool_calls[index].name == call.name
            &&& after.tool_calls[index].args_buf == call.args_buf + sent_arguments(parts, index)
            &&& (forall|other: u32|
                other != index && #[trigger] after.tool_calls.dom().contains(other)
                    ==> after.tool_calls[other].id != call.id) ==> shown_arguments(chunks, call.id)
                == sent_arguments(parts, index)
        }),
        turns::consistent(turns::after_tool_deltas(turn, parts).0),
        forall|other: u32| #[trigger]
            turn.tool_calls.dom().contains(other) ==> turns::after_tool_deltas(
                turn,
                parts,
            ).0.tool_calls.dom().contains(other),
    decreases parts.len(),
{
    let call = turn.tool_calls[index];
    let (after, chunks) = turns::after_tool_deltas(turn, parts);
    if parts.len() == 0 {
        assert(call.args_buf + Seq::<char>::empty() =~= call.args_buf);
    } else {
        let (before, first) = turns::after_tool_deltas(turn, parts.drop_last());
        let part = parts.last();
        fragments_add_up(turn, parts.drop_last(), index);
        turns::lemma_tool_deltas_consistent(turn, parts);
        let (begun, one) = turns::call_started(before, part);
        let (grown, two) = turns::call_grown(begun, part.index, turns::delta_args(part));
        let sent = sent_arguments(parts.drop_last(), index);
        assert(before.emitted_starts.contains(index));
        assert(begun.tool_calls[index] == before.tool_calls[index]);
        assert(call.args_buf + sent + carried(part) =~= call.args_buf + (sent + carried(part)));
        assert(sent + Seq::<char>::empty() =~= sent);
        assert(grown.tool_calls[index].args_buf =~= call.args_buf + sent_arguments(parts, index));
        if forall|other: u32|
            other != index && #[trigger] after.tool_calls.dom().contains(other)
                ==> after.tool_calls[other].id != call.id {
            assert forall|other: u32|
                other != index && #[trigger] before.tool_calls.dom().contains(other)
                implies before.tool_calls[other].id != call.id by {
                assert(before.emitted_starts.contains(other));
                assert(after.tool_calls.dom().contains(other));
                assert(after.tool_calls[other].id == before.tool_calls[other].id);
            }
            assert(chunks =~= first + (one + two));
            if one.len() == 1 {
                lemma_shown_push(first, one[0], call.id);
                assert(first + one =~= first.push(one[0]));
            } else {
                assert(first + one =~= first);
            }
            if two.len() == 1 {
                lemma_shown_push(first + one, two[0], call.id);
                assert(chunks =~= (first + one).push(two[0]));
                if part.index != index {
                    assert(after.tool_calls.dom().contains(part.index));
                }
            } else {
                assert(chunks =~= first + one);
            }
            assert(shown_arguments(first, call.id) + Seq::<char>::empty() =~= shown_arguments(
                first,
                call.id,
            ));
        }
    }
}

/// Texts one after the other, as they are.
pub open spec fn put_together(texts: Seq<String>) -> Seq<char>
    decreases texts.len(),
{
    if texts.len() == 0 {
        Seq::empty()
    } else {
        put_together(texts.drop_last()) + texts.last()@
    }
}

/// The argument chunks for fragments: one for each that holds anything, with its text.
pub open spec fn shown_fragments(id: Seq<char>, fragments: Seq<String>) -> Seq<ChunkModel>
    decreases fragments.len(),
{
    if fragments.len() == 0 {
        Seq::empty()
    } else if fragments[0]@.len() == 0 {
        shown_fragments(id, fragments.skip(1))
    } else {
        seq![ChunkModel::ToolCallArgsDelta { id, delta: fragments[0]@ }] + shown_fragments(
            id,
            fragments.skip(1),
        )
    }
}

/// Whether an event says one part of a tool call and nothing else.
pub open spec fn says_part(
    event: Result<ChatCompletionsChunk, AzureOpenAIError>,
    part: ToolCallDelta,
) -> bool {
    &&& event matches Ok(chunk)
    &&& chunk.error is None
    &&& chunk.usage is None
    &&& chunk.choices@.len() == 1
    &&& chunk.choices@[0].delta.content is None
    &&& chunk.choices@[0].delta.tool_calls@ == seq![part]
    &&& chunk.choices@[0].finish_reason is None
}

/// Whether an event says the finish reason and nothing else.
pub open spec fn says_finish(
    event: Result<ChatCompletionsChunk, AzureOpenAIError>,
    reason: String,
) -> bool {
    &&& event matches Ok(chunk)
    &&& chunk.error is None
    &&& chunk.usage is None
    &&& chunk.choices@.len() == 1
    &&& chunk.choices@[0].delta.content is None
    &&& chunk.choices@[0].delta.tool_calls@.len() == 0
    &&& chunk.choices@[0].finish_reason == Some(reason)
}

/// The part that begins a call.
pub open spec fn first_part(index: u32, id: String, name: String) -> ToolCallDelta {
    ToolCallDelta {
        index,
        id: Some(id),
        kind: None,
        function: Some(FunctionDelta { name: Some(name), arguments: None }),
    }
}

/// A part that carries a fragment of the arguments.
pub open spec fn fragment_part(index: u32, fragment: String) -> ToolCallDelta {
    ToolCallDelta {
        index,
        id: None,
        kind: None,
        function: Some(FunctionDelta { name: None, arguments: Some(fragment) }),
    }
}

proof fn lemma_one_part(
    turn: TurnModel,
    event: Result<ChatCompletionsChunk, AzureOpenAIError>,
    part: ToolCallDelta,
)
    requires
        says_part(event, part),
    ensures
        turns::after_event(turn, event->Ok_0) == Ok::<_, ErrorModel>(
            turns::after_tool_delta(turn, part),
        ),
{
    let chunk = event->Ok_0;
    let choice = chunk.choices@[0];
    reveal_with_fuel(turns::after_choices, 2);
    reveal_with_fuel(turns::after_tool_deltas, 2);
    assert(chunk.choices@.drop_last() =~= Seq::empty());
    assert(seq![part].drop_last() =~= Seq::empty());
    let (next, chunks) = turns::after_tool_delta(turn, part);
    assert(seq![part].last() == part);
    assert(Seq::<ChunkModel>::empty() + chunks =~= chunks);
    assert(turns::after_tool_deltas(turn, seq![part]) == (next, chunks));
    assert(Seq::<ChunkModel>::empty() + (Seq::<ChunkModel>::empty() + chunks
        + Seq::<ChunkModel>::empty()) =~= chunks);
}

proof fn lemma_fragments(
    turn: TurnModel,
    index: u32,
    id: String,
    name: String,
    fragments: Seq<String>,
    done: int,
    reason: String,
    events: Seq<Result<ChatCompletionsChunk, AzureOpenAIError>>,
)
    requires
        turn.tool_calls == Map::<u32, CallModel>::empty(),
        0 <= done <= fragments.len(),
        events.len() >= fragments.len() - done + 1,
        forall|i: int|
            0 <= i < fragments.len() - done ==> says_part(
                #[trigger] events[i],
                fragment_part(index, fragments[i + done]),
            ),
        says_finish(events[fragments.len() - done], reason),
    ensures
        turns::turn_items(
            pending(turn, index, id@, name@, put_together(fragments.take(done))),
            events,
        ) == turns::items(
            shown_fragments(id@, fragments.skip(done)) + seq![
                stream::tool_call_closed(id@, name@, put_together(fragments)),
            ],
        ) + turns::turn_items(
            TurnModel {
                emitted_starts: turn.emitted_starts.insert(index),
                tool_call_order: Seq::empty(),
                final_finish: Some(reason@),
                ..turn
            },
            events.skip(fragments.len() - done + 1),
        ),
    decreases fragments.len() - done,
{
    let so_far = put_together(fragments.take(done));
    let now = pending(turn, index, id@, name@, so_far);
    let rest = events.subrange(1, events.len() as int);
    let closed = seq![stream::tool_call_closed(id@, name@, put_together(fragments))];
    let last = TurnModel {
        emitted_starts: turn.emitted_starts.insert(index),
        tool_call_order: Seq::empty(),
        final_finish: Some(reason@),
        ..turn
    };
    let more = turns::turn_items(last, events.skip(fragments.len() - done + 1));
    if done == fragments.len() {
        assert(fragments.take(done) =~= fragments);
        assert(fragments.skip(done) =~= Seq::empty());
        assert(rest =~= events.skip(1));
        let chunk = events[0]->Ok_0;
        let choice = chunk.choices@[0];
        reveal_with_fuel(turns::after_choices, 2);
        reveal_with_fuel(turns::calls_closed, 2);
        assert(chunk.choices@.drop_last() =~= Seq::empty());
        assert(seq![index].drop_last() =~= Seq::<u32>::empty());
        assert(turns::calls_closed(now.tool_calls, seq![index]).1 =~= closed);
        assert(now.tool_calls.remove(index) =~= Map::empty());
        assert(turns::after_finish(now, Some(reason)) == (last, closed));
        assert(turns::after_event(now, chunk)->Ok_0.0 == last);
        assert(turns::after_event(now, chunk)->Ok_0.1 =~= closed);
        assert(Seq::<ChunkModel>::empty() + closed =~= closed);
    } else {
        let f = fragments[done];
        let part = fragment_part(index, f);
        assert(fragments[0 + done] == f);
        assert(says_part(events[0], part));
        lemma_one_part(now, events[0], part);
        assert(fragments.take(done + 1).drop_last() =~= fragments.take(done));
        assert(fragments.skip(done).skip(1) =~= fragments.skip(done + 1));
        let next = pending(turn, index, id@, name@, so_far + f@);
        assert(put_together(fragments.take(done + 1)) == so_far + f@);
        let one = if f@.len() == 0 {
            Seq::empty()
        } else {
            seq![ChunkModel::ToolCallArgsDelta { id: id@, delta: f@ }]
        };
        if f@.len() == 0 {
            assert(so_far + f@ =~= so_far);
        }
        assert(turns::after_tool_delta(now, part).0.tool_calls =~= next.tool_calls);
        assert(turns::after_tool_delta(now, part).0 == next);
        assert(turns::after_tool_delta(now, part).1 =~= one);
        assert forall|i: int| 0 <= i < fragments.len() - (done + 1) implies says_part(
            #[trigger] rest[i],
            fragment_part(index, fragments[i + (done + 1)]),
        ) by {
            assert(rest[i] == events[i + 1]);
        }
        assert(rest[fragments.len() - (done + 1)] == events[fragments.len() - done]);
        lemma_fragments(turn, index, id, name, fragments, done + 1, reason, rest);
        assert(rest.skip(fragments.len() - (done + 1) + 1) =~= events.skip(
            fragments.len() - done + 1,
        ));
        let left = shown_fragments(id@, fragments.skip(done + 1));
        assert(shown_fragments(id@, fragments.skip(done)) =~= one + left);
        assert(turns::items(one) + (turns::items(left + closed) + more) =~= turns::items(
            one + left + closed,
        ) + more);
    }
}

/// A tool call of a Chat Completions turn streams as its start, its argument fragments as they
/// came, and one closing chunk for exactly those fragments put together.
pub proof fn tool_call_streams(
    turn: TurnModel,
    index: u32,
    id: String,
    name: String,
    fragments: Seq<String>,
    reason: String,
    events: Seq<Result<ChatCompletionsChunk, AzureOpenAIError>>,
)
    requires
        turn.tool_calls == Map::<u32, CallModel>::empty(),
        turn.tool_call_order.len() == 0,
        !turn.emitted_starts.contains(index),
        events.len() >= fragments.len() + 2,
        says_part(events[0], first_part(index, id, name)),
        forall|i: int|
            0 <= i < fragments.len() ==> says_part(
                #[trigger] events[i + 1],
                fragment_part(index, fragments[i]),
            ),
        says_finish(events[fragments.len() as int + 1], reason),
    ensures
        turns::turn_items(turn, events) == turns::items(
            seq![ChunkModel::ToolCallStarted { id: id@, name: name@ }] + shown_fragments(
                id@,
                fragments,
            ) + seq![stream::tool_call_closed(id@, name@, put_together(fragments))],
        ) + turns::turn_items(
            TurnModel {
                emitted_starts: turn.emitted_starts.insert(index),
                tool_call_order: Seq::empty(),
                final_finish: Some(reason@),
                ..turn
            },
            events.skip(fragments.len() as int + 2),
        ),
{
    lemma_one_part(turn, events[0], first_part(index, id, name));
    let begun = pending(turn, index, id@, name@, Seq::empty());
    assert(turns::after_tool_delta(turn, first_part(index, id, name)).0 == begun) by {
        assert(turn.tool_call_order.push(index) =~= seq![index]);
    }
    let start = seq![ChunkModel::ToolCallStarted { id: id@, name: name@ }];
    assert(turns::after_tool_delta(turn, first_part(index, id, name)).1 =~= start);
    let rest = events.subrange(1, events.len() as int);
    assert forall|i: int| 0 <= i < fragments.len() implies says_part(
        #[trigger] rest[i],
        fragment_part(index, fragments[i]),
    ) by {
        assert(rest[i] == events[i + 1]);
    }
    assert(rest[fragments.len() as int] == events[fragments.len() as int + 1]);
    assert(put_together(fragments.take(0)) =~= Seq::empty());
    assert(fragments.skip(0) =~= fragments);
    lemma_fragments(turn, index, id, name, fragments, 0, reason, rest);
    let closed = seq![stream::tool_call_closed(id@, name@, put_together(fragments))];
    let shown = shown_fragments(id@, fragments);
    assert(rest.skip(fragments.len() as int + 1) =~= events.skip(fragments.len() as int + 2));
    let more = turns::turn_items(
        TurnModel {
            emitted_starts: turn.emitted_starts.insert(index),
            tool_call_order: Seq::empty(),
            final_finish: Some(reason@),
            ..turn
        },
        events.skip(fragments.len() as int + 2),
    );
    assert(turns::items(start) + (turns::items(shown + closed) + more)
        =~= turns::items(start + shown + closed) + more);
}

/// A turn with one pending call.
pub open spec fn pending(
    turn: TurnModel,
    index: u32,
    id: Seq<char>,
    name: Seq<char>,
    args_buf: Seq<char>,
) -> TurnModel {
    TurnModel {
        tool_calls: Map::empty().insert(index, CallModel { id, name, args_buf }),
        emitted_starts: turn.emitted_starts.insert(index),
        tool_call_order: seq![index],
        ..turn
    }
}

/// Each finish reason has its meaning, none means a natural end, and one that is not known keeps
/// its name.
pub proof fn finish_reasons_have_their_meaning(reason: Option<Seq<char>>)
    ensures
        turns::finish_meaning(reason) is EndTurn <==> reason is None || reason == Some("stop"@),
        turns::finish_meaning(reason) is MaxTokens <==> reason == Some("length"@),
        turns::finish_meaning(reason) is ToolUse <==> reason == Some("tool_calls"@) || reason
            == Some("function_call"@),
        turns::finish_meaning(reason) matches FinishReasonModel::Other(name) ==> reason == Some(
            name,
        ),
        !(turns::finish_meaning(reason) is Aborted),
        !(turns::finish_meaning(reason) is StopSequence),
{
    reveal_strlit("stop");
    reveal_strlit("length");
    reveal_strlit("tool_calls");
    reveal_strlit("function_call");
    assert("stop"@.len() == 4);
    assert("length"@.len() == 6);
    assert("tool_calls"@.len() == 10);
    assert("function_call"@.len() == 13);
}

/// The first part with both id and name begins the call at its index, once: it is shown with that
/// id and that name and waits behind the calls that began before. Later parts begin nothing, and
/// neither does a part that lacks one of the two.
pub proof fn calls_begin_once(turn: TurnModel, part: ToolCallDelta)
    ensures
        ({
            let (after, chunks) = turns::after_tool_delta(turn, part);
            let starts = chunks.len() > 0 && chunks[0] is ToolCallStarted;
            let named = part.id is Some && part.function is Some && part.function->0.name is Some;
            &&& starts <==> named && !turn.emitted_starts.contains(part.index)
            &&& starts ==> chunks[0] == (ChunkModel::ToolCallStarted {
                id: part.id->0@,
                name: part.function->0.name->0@,
            })
            &&& starts ==> after.tool_call_order == turn.tool_call_order.push(part.index)
                && after.emitted_starts == turn.emitted_starts.insert(part.index)
                && after.tool_calls.dom().contains(part.index)
                && after.tool_calls[part.index].id == part.id->0@
                && after.tool_calls[part.index].name == part.function->0.name->0@
                && after.tool_calls[part.index].args_buf == carried(part)
            &&& !starts ==> after.tool_call_order == turn.tool_call_order && after.emitted_starts
                == turn.emitted_starts && after.tool_calls.dom() =~= turn.tool_calls.dom()
            &&& forall|i: int| 1 <= i < chunks.len() ==> !(#[trigger] chunks[i] is ToolCallStarted)
            &&& after.usage == turn.usage && after.final_finish == turn.final_finish
        }),
{
    let (begun, one) = turns::call_started(turn, part);
    let (grown, two) = turns::call_grown(begun, part.index, turns::delta_args(part));
    assert(Seq::<char>::empty() + carried(part) =~= carried(part));
    if one.len() == 0 {
        assert(one + two =~= two);
        assert(grown.tool_calls.dom() =~= turn.tool_calls.dom());
    } else {
        assert((one + two)[0] == one[0]);
    }
}

/// A part with arguments for a call that never began is not shown and not kept.
pub proof fn stray_arguments_are_dropped(turn: TurnModel, part: ToolCallDelta)
    requires
        !turn.tool_calls.dom().contains(part.index),
        part.id is None || part.function is None || part.function->0.name is None,
    ensures
        turns::after_tool_delta(turn, part).0 == turn,
        turns::after_tool_delta(turn, part).1.len() == 0,
{
}

/// A choice shows its text first, in one chunk and as it came, then its tool calls, then what its
/// finish reason closes. An empty text is not shown.
pub proof fn choices_are_shown_in_order(turn: TurnModel, choice: Choice)
    ensures
        ({
            let (after, chunks) = turns::after_choice(turn, choice);
            let (called, calls) = turns::after_tool_deltas(turn, choice.delta.tool_calls@);
            let (finished, closed) = turns::after_finish(called, choice.finish_reason);
            let text = match choice.delta.content {
                Some(s) => s@,
                None => Seq::empty(),
            };
            &&& after == finished
            &&& text.len() > 0 ==> chunks == seq![ChunkModel::TextDelta { delta: text }] + calls
                + closed
            &&& text.len() == 0 ==> chunks == calls + closed
            &&& choice.finish_reason is None ==> closed.len() == 0 && after == called
            &&& choice.finish_reason matches Some(reason) ==> after.final_finish == Some(reason@)
        }),
{
    let (called, calls) = turns::after_tool_deltas(turn, choice.delta.tool_calls@);
    let (finished, closed) = turns::after_finish(called, choice.finish_reason);
    assert(Seq::<ChunkModel>::empty() + calls + closed =~= calls + closed);
}

/// Choices are taken one after the other, in order.
pub proof fn choices_are_taken_in_order(turn: TurnModel, a: Seq<Choice>, b: Seq<Choice>)
    ensures
        ({
            let (between, first) = turns::after_choices(turn, a);
            let (after, second) = turns::after_choices(between, b);
            turns::after_choices(turn, a + b) == (after, first + second)
        }),
        forall|choice: Choice| #[trigger]
            turns::after_choices(turn, seq![choice]) == turns::after_choice(turn, choice),
    decreases b.len(),
{
    let (between, first) = turns::after_choices(turn, a);
    assert forall|choice: Choice| #[trigger]
        turns::after_choices(turn, seq![choice]) == turns::after_choice(turn, choice) by {
        reveal_with_fuel(turns::after_choices, 2);
        assert(seq![choice].drop_last() =~= Seq::empty());
        let (next, chunks) = turns::after_choice(turn, choice);
        assert(Seq::<ChunkModel>::empty() + chunks =~= chunks);
    }
    if b.len() == 0 {
        assert(a + b =~= a);
        assert(first + Seq::<ChunkModel>::empty() =~= first);
    } else {
        choices_are_taken_in_order(turn, a, b.drop_last());
        assert((a + b).drop_last() =~= a + b.drop_last());
        assert((a + b).last() == b.last());
        let (middle, second) = turns::after_choices(between, b.drop_last());
        let (after, third) = turns::after_choice(middle, b.last());
        assert(first + second + third =~= first + (second + third));
    }
}

/// A report of counters is taken over: prompt and completion tokens as they are, cached ones where
/// it has them, and no other counter changes. An event without a report changes none.
pub proof fn reports_are_taken_over(usage: Usage, report: ChunkUsage)
    ensures
        ({
            let after = turns::with_usage(usage, Some(report));
            &&& after.input_tokens == report.prompt_tokens
            &&& after.output_tokens == report.completion_tokens
            &&& report.prompt_tokens_details matches Some(details) ==> after.cached_input_tokens
                == details.cached_tokens
            &&& report.prompt_tokens_details is None ==> after.cached_input_tokens
                == usage.cached_input_tokens
            &&& after.cache_creation_input_tokens == usage.cache_creation_input_tokens
            &&& after.cache_creation_5m_tokens == usage.cache_creation_5m_tokens
            &&& after.cache_creation_1h_tokens == usage.cache_creation_1h_tokens
            &&& after.reasoning_tokens == usage.reasoning_tokens
        }),
        turns::with_usage(usage, None) == usage,
{
}

/// The report of an event reaches the turn whatever its choices are, and the turn ends with it.
pub proof fn reports_reach_the_end(turn: TurnModel, event: ChatCompletionsChunk)
    requires
        event.error is None,
    ensures
        turns::after_event(turn, event) matches Ok((after, _)) && after.usage == turns::with_usage(
            turn.usage,
            event.usage,
        ) && turns::turn_items(after, Seq::empty()) == seq![
            Ok::<ChunkModel, ErrorModel>(
                ChunkModel::TurnFinished {
                    reason: turns::finish_meaning(after.final_finish),
                    usage: after.usage,
                    service_tier: None,
                },
            ),
        ],
{
    let counted = TurnModel { usage: turns::with_usage(turn.usage, event.usage), ..turn };
    lemma_choices_keep_usage(counted, event.choices@);
}

proof fn lemma_parts_keep_usage(turn: TurnModel, parts: Seq<ToolCallDelta>)
    ensures
        turns::after_tool_deltas(turn, parts).0.usage == turn.usage,
    decreases parts.len(),
{
    if parts.len() > 0 {
        lemma_parts_keep_usage(turn, parts.drop_last());
    }
}

proof fn lemma_choices_keep_usage(turn: TurnModel, choices: Seq<Choice>)
    ensures
        turns::after_choices(turn, choices).0.usage == turn.usage,
    decreases choices.len(),
{
    if choices.len() > 0 {
        lemma_choices_keep_usage(turn, choices.drop_last());
        let before = turns::after_choices(turn, choices.drop_last()).0;
        lemma_parts_keep_usage(before, choices.last().delta.tool_calls@);
    }
}

/// An error event ends the stream with an error: its category comes from the code, or else from the
/// type, and its message is as it came. What else the event says does not matter.
pub proof fn error_events_end_turns(
    turn: TurnModel,
    event: ChatCompletionsChunk,
    error: ChunkError,
    more: Seq<Result<ChatCompletionsChunk, AzureOpenAIError>>,
)
    requires
        event.error == Some(error),
    ensures
        turns::turn_items(turn, seq![Ok(event)] + more).len() == 1,
        turns::turn_items(turn, seq![Ok(event)] + more)[0] matches Err(
            ErrorModel::Provider { kind, message },
        ) && message == error.message@ && kind == errors::kind_of_code(
            match (error.code, error.error_type) {
                (Some(code), _) => code@,
                (None, Some(error_type)) => error_type@,
                (None, None) => Seq::empty(),
            },
        ),
{
    let events = seq![Ok::<ChatCompletionsChunk, AzureOpenAIError>(event)] + more;
    assert(events[0] == Ok::<ChatCompletionsChunk, AzureOpenAIError>(event));
}

/// A failure between events ends the stream with that failure.
pub proof fn failures_end_turns(
    turn: TurnModel,
    error: AzureOpenAIError,
    more: Seq<Result<ChatCompletionsChunk, AzureOpenAIError>>,
)
    ensures
        turns::turn_items(turn, seq![Err(error)] + more) == seq![
            Err::<ChunkModel, ErrorModel>(error@),
        ],
{
    let events = seq![Err::<ChatCompletionsChunk, AzureOpenAIError>(error)] + more;
    assert(events[0] == Err::<ChatCompletionsChunk, AzureOpenAIError>(error));
}

} // verus!
