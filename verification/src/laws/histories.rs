//! Histories: what calls for what, and what a truncation leaves.

use vstd::prelude::*;

use crate::compaction;
use crate::context_manager as managers;
use crate::message::{AssistantBlockModel, MessageModel, UserBlockModel};

verus! {

/// A turn calls for the tools of its call blocks and of nothing else: one more call block adds its
/// id, any other block adds none, and a user turn calls for nothing.
pub proof fn calls_are_those_of_the_blocks(
    blocks: Seq<AssistantBlockModel>,
    block: AssistantBlockModel,
    user: Seq<UserBlockModel>,
    id: Seq<char>,
)
    ensures
        managers::calls(MessageModel::Assistant { blocks: blocks.push(block) }, id) <==> {
            ||| managers::calls(MessageModel::Assistant { blocks }, id)
            ||| block is ToolCall && block->ToolCall_id == id
        },
        !managers::calls(MessageModel::Assistant { blocks: Seq::empty() }, id),
        !managers::calls(MessageModel::User { blocks: user }, id),
{
    let more = blocks.push(block);
    assert(more[blocks.len() as int] == block);
    assert(forall|i: int| 0 <= i < blocks.len() ==> more[i] == #[trigger] blocks[i]);
    if managers::calls(MessageModel::Assistant { blocks }, id) {
        let i = choose|i: int|
            0 <= i < blocks.len() && (#[trigger] blocks[i] matches AssistantBlockModel::ToolCall {
                id: call,
                ..
            } && call == id);
        assert(more[i] == blocks[i]);
    }
    if managers::calls(MessageModel::Assistant { blocks: more }, id) {
        let i = choose|i: int|
            0 <= i < more.len() && (#[trigger] more[i] matches AssistantBlockModel::ToolCall {
                id: call,
                ..
            } && call == id);
        if i < blocks.len() {
            assert(blocks[i] == more[i]);
        }
    }
}

/// A turn answers the calls of its tool replies and of nothing else.
pub proof fn answers_are_those_of_the_blocks(
    blocks: Seq<UserBlockModel>,
    block: UserBlockModel,
    assistant: Seq<AssistantBlockModel>,
    id: Seq<char>,
)
    ensures
        managers::answers(MessageModel::User { blocks: blocks.push(block) }, id) <==> {
            ||| managers::answers(MessageModel::User { blocks }, id)
            ||| block is ToolResult && block->ToolResult_call_id == id
        },
        !managers::answers(MessageModel::User { blocks: Seq::empty() }, id),
        !managers::answers(MessageModel::Assistant { blocks: assistant }, id),
{
    let more = blocks.push(block);
    assert(more[blocks.len() as int] == block);
    if managers::answers(MessageModel::User { blocks }, id) {
        let i = choose|i: int|
            0 <= i < blocks.len() && (#[trigger] blocks[i] matches UserBlockModel::ToolResult {
                call_id,
                ..
            } && call_id == id);
        assert(more[i] == blocks[i]);
    }
    if managers::answers(MessageModel::User { blocks: more }, id) {
        let i = choose|i: int|
            0 <= i < more.len() && (#[trigger] more[i] matches UserBlockModel::ToolResult {
                call_id,
                ..
            } && call_id == id);
        if i < blocks.len() {
            assert(blocks[i] == more[i]);
        }
    }
}

/// Two turns are partners exactly where one calls under an id and the other answers it.
pub proof fn partners_share_an_id(a: MessageModel, b: MessageModel)
    ensures
        managers::partners(a, b) <==> exists|id: Seq<char>|
            #![trigger managers::calls(a, id)]
            #![trigger managers::calls(b, id)]
            managers::calls(a, id) && managers::answers(b, id) || managers::calls(b, id)
                && managers::answers(a, id),
{
    if exists|id: Seq<char>|
        #![trigger managers::calls(a, id)]
        #![trigger managers::calls(b, id)]
        managers::calls(a, id) && managers::answers(b, id) || managers::calls(b, id)
            && managers::answers(a, id) {
        let id = choose|id: Seq<char>|
            #![trigger managers::calls(a, id)]
            #![trigger managers::calls(b, id)]
            managers::calls(a, id) && managers::answers(b, id) || managers::calls(b, id)
                && managers::answers(a, id);
        assert(managers::answers(b, id) || managers::answers(a, id));
    }
}

/// A history can begin with a user turn that answers no call, and with no other turn.
pub proof fn beginnings_answer_nothing(message: MessageModel)
    ensures
        compaction::safe_start(message) <==> message is User && forall|id: Seq<char>|
            !#[trigger] managers::answers(message, id),
{
    if let MessageModel::User { blocks } = message {
        if forall|id: Seq<char>| !#[trigger] managers::answers(message, id) {
            assert forall|i: int| 0 <= i < blocks.len() implies !(#[trigger] blocks[i] is ToolResult) by {
                if let UserBlockModel::ToolResult { call_id, .. } = blocks[i] {
                    assert(managers::answers(message, call_id));
                }
            }
        }
    }
}

proof fn lemma_pinned_before(messages: Seq<MessageModel>, pinned: Seq<bool>, end: int, i: int)
    requires
        0 <= end <= messages.len(),
        messages.len() == pinned.len(),
        0 <= i < compaction::pinned_before(messages, pinned, end).len(),
    ensures
        exists|k: int|
            0 <= k < end && pinned[k] && compaction::pinned_before(messages, pinned, end)[i]
                == #[trigger] messages[k],
    decreases end,
{
    if end > 0 {
        let before = compaction::pinned_before(messages, pinned, end - 1);
        if i < before.len() {
            lemma_pinned_before(messages, pinned, end - 1, i);
            let k = choose|k: int|
                0 <= k < end - 1 && pinned[k] && before[i] == #[trigger] messages[k];
            assert(messages[k] == compaction::pinned_before(messages, pinned, end)[i]);
        } else {
            assert(messages[end - 1] == compaction::pinned_before(messages, pinned, end)[i]);
        }
    }
}

/// A truncated history is made of pinned messages from before the cut, which stay pinned, and of the
/// messages from the cut on, which keep their pins: everything else is gone.
pub proof fn truncation_drops_the_rest(
    messages: Seq<MessageModel>,
    pinned: Seq<bool>,
    preserve_n_last: int,
    i: int,
)
    requires
        messages.len() == pinned.len(),
        0 <= preserve_n_last < messages.len(),
    ensures
        ({
            let start = compaction::truncation_start(messages, preserve_n_last);
            let kept = compaction::truncated_messages(messages, pinned, start);
            let pins = compaction::truncated_pins(messages, pinned, start);
            let front = kept.len() - (messages.len() - start);
            &&& 0 <= start <= messages.len() - preserve_n_last
            &&& 0 <= front <= start
            &&& pins.len() == kept.len()
            &&& 0 <= i < front ==> pins[i] && exists|k: int|
                0 <= k < start && pinned[k] && kept[i] == #[trigger] messages[k]
            &&& front <= i < kept.len() ==> kept[i] == messages[start + (i - front)] && pins[i]
                == pinned[start + (i - front)]
        }),
{
    let start = compaction::truncation_start(messages, preserve_n_last);
    compaction::cut_is_safe(messages, messages.len() - preserve_n_last);
    compaction::truncation_never_grows(messages, pinned, preserve_n_last);
    let first = compaction::pinned_before(messages, pinned, start);
    let kept = compaction::truncated_messages(messages, pinned, start);
    if 0 <= i < first.len() {
        lemma_pinned_before(messages, pinned, start, i);
        assert(kept[i] == first[i]);
    }
}

} // verus!
