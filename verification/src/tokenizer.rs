//! Token counting.

use vstd::prelude::*;

use crate::json;
use crate::message::{
    self, AssistantBlock, AssistantBlockModel, Message, MessageModel, ToolResultBlock, UserBlock,
    UserBlockModel,
};
use crate::text;

verus! {

/// The texts of a user block that a provider sees: its text, or a tool reply's call id and texts.
pub open spec fn user_block_texts(block: UserBlockModel) -> Seq<Seq<char>> {
    match block {
        UserBlockModel::Text { text, .. } => seq![text],
        UserBlockModel::ToolResult { call_id, content, .. } => seq![call_id]
            + message::block_texts(content.blocks),
        _ => Seq::empty(),
    }
}

/// The texts of an assistant block that a provider sees; a tool call's arguments count as their
/// JSON text.
pub open spec fn assistant_block_texts(block: AssistantBlockModel) -> Seq<Seq<char>> {
    match block {
        AssistantBlockModel::Text { text, .. } => seq![text],
        AssistantBlockModel::ToolCall { id, name, args, .. } => seq![
            id,
            name,
            json::json_text(args),
        ],
        AssistantBlockModel::Reasoning { text, signature } => match signature {
            Some(s) => seq![text, s],
            None => seq![text],
        },
        AssistantBlockModel::RedactedReasoning { data } => seq![data],
    }
}

/// The texts of user blocks, in order.
pub open spec fn user_texts(blocks: Seq<UserBlockModel>) -> Seq<Seq<char>>
    decreases blocks.len(),
{
    if blocks.len() == 0 {
        Seq::empty()
    } else {
        user_texts(blocks.drop_last()) + user_block_texts(blocks.last())
    }
}

/// The texts of assistant blocks, in order.
pub open spec fn assistant_texts(blocks: Seq<AssistantBlockModel>) -> Seq<Seq<char>>
    decreases blocks.len(),
{
    if blocks.len() == 0 {
        Seq::empty()
    } else {
        assistant_texts(blocks.drop_last()) + assistant_block_texts(blocks.last())
    }
}

/// The texts of a message that a provider sees.
pub open spec fn message_texts(message: MessageModel) -> Seq<Seq<char>> {
    match message {
        MessageModel::User { blocks } => user_texts(blocks),
        MessageModel::Assistant { blocks } => assistant_texts(blocks),
    }
}

fn push_text(out: &mut Vec<String>, s: &str)
    ensures
        text::texts(final(out)@) == text::texts(old(out)@).push(s@),
{
    let ghost before = out@;
    out.push(s.to_owned());
    assert(text::texts(out@) =~= text::texts(before).push(s@));
}

fn push_user_block(out: &mut Vec<String>, block: &UserBlock)
    ensures
        text::texts(final(out)@) == text::texts(old(out)@) + user_block_texts(block@),
{
    let ghost start = text::texts(out@);
    match block {
        UserBlock::Text { text, .. } => {
            push_text(out, text.as_str());
            assert(start.push(text@) =~= start + seq![text@]);
        },
        UserBlock::ToolResult { call_id, content, .. } => {
            push_text(out, call_id.as_str());
            let ghost blocks = content@.blocks;
            let mut i: usize = 0;
            assert(text::texts(out@) =~= start + (seq![call_id@] + message::block_texts(
                blocks.take(0),
            )));
            while i < content.blocks.len()
                invariant
                    i <= content.blocks.len(),
                    blocks == content@.blocks,
                    text::texts(out@) == start + (seq![call_id@] + message::block_texts(
                        blocks.take(i as int),
                    )),
                decreases content.blocks.len() - i,
            {
                let ghost before = message::block_texts(blocks.take(i as int));
                assert(blocks.take(i as int + 1).drop_last() =~= blocks.take(i as int));
                if let ToolResultBlock::Text { text } = &content.blocks[i] {
                    push_text(out, text.as_str());
                    assert((start + (seq![call_id@] + before)).push(text@) =~= start + (seq![call_id@]
                        + before.push(text@)));
                }
                i = i + 1;
            }
            assert(blocks.take(i as int) =~= blocks);
        },
        _ => {
            assert(start + Seq::<Seq<char>>::empty() =~= start);
        },
    }
}

fn push_assistant_block(out: &mut Vec<String>, block: &AssistantBlock)
    ensures
        text::texts(final(out)@) == text::texts(old(out)@) + assistant_block_texts(block@),
{
    let ghost start = text::texts(out@);
    match block {
        AssistantBlock::Text { text, .. } => {
            push_text(out, text.as_str());
        },
        AssistantBlock::ToolCall { id, name, args, .. } => {
            push_text(out, id.as_str());
            push_text(out, name.as_str());
            let args_text = args.to_text();
            push_text(out, args_text.as_str());
        },
        AssistantBlock::Reasoning { text, signature } => {
            push_text(out, text.as_str());
            if let Some(s) = signature {
                push_text(out, s.as_str());
            }
        },
        AssistantBlock::RedactedReasoning { data } => {
            push_text(out, data.as_str());
        },
    }
    assert(text::texts(out@) =~= start + assistant_block_texts(block@));
}

fn push_message(out: &mut Vec<String>, message: &Message)
    ensures
        text::texts(final(out)@) == text::texts(old(out)@) + message_texts(message@),
{
    let ghost start = text::texts(out@);
    let mut i: usize = 0;
    match message {
        Message::User { blocks } => {
            let ghost all = message@->User_blocks;
            assert(start + user_texts(all.take(0)) =~= start);
            while i < blocks.len()
                invariant
                    i <= blocks.len(),
                    all == blocks@.map_values(|b: UserBlock| b@),
                    text::texts(out@) == start + user_texts(all.take(i as int)),
                decreases blocks.len() - i,
            {
                let ghost before = user_texts(all.take(i as int));
                assert(all.take(i as int + 1).drop_last() =~= all.take(i as int));
                push_user_block(out, &blocks[i]);
                assert((start + before) + user_block_texts(all[i as int]) =~= start + (before
                    + user_block_texts(all[i as int])));
                i = i + 1;
            }
            assert(all.take(i as int) =~= all);
        },
        Message::Assistant { blocks } => {
            let ghost all = message@->Assistant_blocks;
            assert(start + assistant_texts(all.take(0)) =~= start);
            while i < blocks.len()
                invariant
                    i <= blocks.len(),
                    all == blocks@.map_values(|b: AssistantBlock| b@),
                    text::texts(out@) == start + assistant_texts(all.take(i as int)),
                decreases blocks.len() - i,
            {
                let ghost before = assistant_texts(all.take(i as int));
                assert(all.take(i as int + 1).drop_last() =~= all.take(i as int));
                push_assistant_block(out, &blocks[i]);
                assert((start + before) + assistant_block_texts(all[i as int]) =~= start + (before
                    + assistant_block_texts(all[i as int])));
                i = i + 1;
            }
            assert(all.take(i as int) =~= all);
        },
    }
}

/// The texts of a message that are counted.
pub fn texts_of_message(message: &Message) -> (r: Vec<String>)
    ensures
        text::texts(r@) == message_texts(message@),
{
    let mut out: Vec<String> = Vec::new();
    assert(text::texts(out@) =~= Seq::<Seq<char>>::empty());
    push_message(&mut out, message);
    assert(Seq::<Seq<char>>::empty() + message_texts(message@) =~= message_texts(message@));
    out
}

/// The sum of counts, at most `usize::MAX`.
pub open spec fn total(counts: Seq<usize>) -> usize
    decreases counts.len(),
{
    if counts.len() == 0 {
        0
    } else {
        let sum = total(counts.drop_last()) + counts.last();
        if sum > usize::MAX {
            usize::MAX
        } else {
            sum as usize
        }
    }
}

/// Whether each of `counts` is possible for the text at its place.
pub open spec fn counts_of(
    texts: Seq<Seq<char>>,
    counts: Seq<usize>,
    may: spec_fn(Seq<char>, usize) -> bool,
) -> bool {
    &&& counts.len() == texts.len()
    &&& forall|i: int| 0 <= i < texts.len() ==> may(texts[i], #[trigger] counts[i])
}

/// Counts tokens in texts and messages.
pub trait Tokenizer: Send + Sync {
    /// Whether `count` is a possible count for a text. A tokenizer may give different counts at
    /// different times.
    open spec fn may_count(&self, text: Seq<char>, count: usize) -> bool {
        true
    }

    /// Counts the tokens of a text.
    fn count_text(&self, text: &str) -> (r: usize)
        ensures
            self.may_count(text@, r),
    ;

    /// Counts the tokens of a message: the sum over its texts, as far as a `usize` holds it.
    fn count_message(&self, message: &Message) -> (r: usize)
        default_ensures
            exists|counts: Seq<usize>|
                r == #[trigger] total(counts) && counts_of(
                    message_texts(message@),
                    counts,
                    |t: Seq<char>, c: usize| self.may_count(t, c),
                ),
    {
        let texts = texts_of_message(message);
        let mut sum: usize = 0;
        let ghost mut counts = Seq::<usize>::empty();
        let mut i: usize = 0;
        while i < texts.len()
            invariant
                i <= texts.len(),
                counts.len() == i,
                forall|k: int| 0 <= k < i ==> self.may_count(texts@[k]@, #[trigger] counts[k]),
                sum == total(counts),
            decreases texts.len() - i,
        {
            let n: usize = self.count_text(texts[i].as_str());
            sum = sum.saturating_add(n);
            proof {
                let before = counts;
                counts = counts.push(n);
                assert(counts.drop_last() =~= before);
            }
            i = i + 1;
        }
        assert(counts_of(
            text::texts(texts@),
            counts,
            |t: Seq<char>, c: usize| self.may_count(t, c),
        ));
        sum
    }

    /// Counts the tokens of a history: the sum over its messages, as far as a `usize` holds it.
    fn count_messages(&self, messages: &Vec<Message>) -> (r: usize)
        default_ensures
            exists|counts: Seq<usize>|
                r == #[trigger] total(counts) && counts.len() == messages@.len() && forall|i: int|
                    0 <= i < counts.len() ==> call_ensures(
                        Self::count_message,
                        (self, &messages@[i]),
                        #[trigger] counts[i],
                    ),
    {
        let mut sum: usize = 0;
        let ghost mut counts = Seq::<usize>::empty();
        let mut i: usize = 0;
        while i < messages.len()
            invariant
                i <= messages.len(),
                counts.len() == i,
                forall|k: int|
                    0 <= k < i ==> call_ensures(
                        Self::count_message,
                        (self, &messages@[k]),
                        #[trigger] counts[k],
                    ),
                sum == total(counts),
            decreases messages.len() - i,
        {
            let n: usize = self.count_message(&messages[i]);
            sum = sum.saturating_add(n);
            proof {
                let before = counts;
                counts = counts.push(n);
                assert(counts.drop_last() =~= before);
            }
            i = i + 1;
        }
        sum
    }
}

/// Fallback tokenizer: a token for every four bytes.
pub struct CharTokenizer;

impl Tokenizer for CharTokenizer {
    open spec fn may_count(&self, text: Seq<char>, count: usize) -> bool {
        count == vstd::utf8::encode_utf8(text).len() / 4
    }

    fn count_text(&self, text: &str) -> (r: usize) {
        text.as_bytes().len() / 4
    }
}

} // verus!
