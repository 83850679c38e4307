//! Stream chunks: how tool calls close, what usage adds up to, why runs end.

use vstd::prelude::*;

use super::texts;
use crate::duration;
use crate::json::{self, JsonModel};
use crate::stream::{self, AbortReasonModel, ChunkModel, Usage};
use crate::text;

verus! {

/// A closed tool call has the id and the name it began with. It is finished where its argument text
/// is an object, with exactly that object, or is blank, without arguments. Otherwise it is
/// malformed and shows the text as it came, with the parser's reason where there is one.
pub proof fn calls_close_with_what_came(
    id: Seq<char>,
    name: Seq<char>,
    raw: Seq<char>,
    parsed: Result<JsonModel, Seq<char>>,
)
    ensures
        match stream::closed_call(id, name, raw, parsed) {
            ChunkModel::ToolCallFinished { id: i, name: n, args } => {
                &&& i == id && n == name
                &&& args is Object
                &&& text::blank(raw) ==> args->Object_0 =~= Map::empty()
                &&& !text::blank(raw) ==> parsed == Ok::<JsonModel, Seq<char>>(args)
            },
            ChunkModel::ToolCallMalformed { id: i, name: n, raw: shown, error } => {
                &&& i == id && n == name
                &&& shown == raw
                &&& !text::blank(raw)
                &&& parsed matches Err(reason) ==> error == reason
                &&& parsed matches Ok(args) ==> !(args is Object) && error
                    == "tool arguments must be a JSON object"@
            },
            _ => false,
        },
        stream::tool_call_closed(id, name, raw) == stream::closed_call(
            id,
            name,
            raw,
            json::json_parse(raw),
        ),
{
}

/// Every counter of a sum is the sum of that counter.
pub proof fn each_counter_adds_up(a: Usage, b: Usage)
    requires
        stream::usage_sum_fits(a, b),
    ensures
        ({
            let sum = stream::usage_sum(a, b);
            &&& sum.input_tokens == a.input_tokens + b.input_tokens
            &&& sum.output_tokens == a.output_tokens + b.output_tokens
            &&& sum.cached_input_tokens == a.cached_input_tokens + b.cached_input_tokens
            &&& sum.cache_creation_input_tokens == a.cache_creation_input_tokens
                + b.cache_creation_input_tokens
            &&& sum.cache_creation_5m_tokens == a.cache_creation_5m_tokens
                + b.cache_creation_5m_tokens
            &&& sum.cache_creation_1h_tokens == a.cache_creation_1h_tokens
                + b.cache_creation_1h_tokens
            &&& sum.reasoning_tokens == a.reasoning_tokens + b.reasoning_tokens
        }),
{
}

/// A sum fits exactly where every counter of it does.
pub proof fn sums_fit_counter_by_counter(a: Usage, b: Usage)
    ensures
        stream::usage_sum_fits(a, b) <==> {
            &&& a.input_tokens + b.input_tokens <= u32::MAX
            &&& a.output_tokens + b.output_tokens <= u32::MAX
            &&& a.cached_input_tokens + b.cached_input_tokens <= u32::MAX
            &&& a.cache_creation_input_tokens + b.cache_creation_input_tokens <= u32::MAX
            &&& a.cache_creation_5m_tokens + b.cache_creation_5m_tokens <= u32::MAX
            &&& a.cache_creation_1h_tokens + b.cache_creation_1h_tokens <= u32::MAX
            &&& a.reasoning_tokens + b.reasoning_tokens <= u32::MAX
        },
{
}

/// A run that was terminated says the reason given for it, as it is. Runs that hit their number of
/// turns say that number, so that different numbers give different texts.
pub proof fn abort_texts_say_why(
    tool_name: Seq<char>,
    call_id: Seq<char>,
    reason: Seq<char>,
    a: usize,
    b: usize,
)
    ensures
        stream::abort_text(AbortReasonModel::Terminated { reason }) == reason,
        stream::abort_text(AbortReasonModel::ToolTerminated { tool_name, call_id, reason })
            == reason,
        stream::abort_text(AbortReasonModel::MaxIterations(a)) == stream::abort_text(
            AbortReasonModel::MaxIterations(b),
        ) ==> a == b,
        stream::abort_text(AbortReasonModel::Cancelled) == "cancelled by caller"@,
        forall|nanos: nat| #[trigger]
            stream::abort_text(AbortReasonModel::Timeout(nanos)) == "timeout exceeded after "@
                + duration::span_text(nanos),
        text::has_part(
            stream::abort_text(AbortReasonModel::MaxIterations(a)),
            text::decimal(a as nat),
        ),
{
    let front = "agent loop exceeded max iterations ("@;
    let back = ")"@;
    let x = text::decimal(a as nat);
    let y = text::decimal(b as nat);
    texts::parts_are_found(x, x, front, back);
    let s = front + x + back;
    let t = front + y + back;
    if s == t {
        assert(x.len() == y.len());
        assert(s.subrange(front.len() as int, front.len() as int + x.len()) =~= x);
        assert(t.subrange(front.len() as int, front.len() as int + y.len()) =~= y);
        texts::numerals_are_told_apart(a as nat, b as nat);
    }
}

} // verus!
