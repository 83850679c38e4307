//! Messages: what blocks say, which of it counts, and where breakpoints stand.

use vstd::prelude::*;

use super::anthropic_request as blocks;
use crate::json::{self, Json};
use crate::message::{
    self, AssistantBlock, AssistantBlockModel, CacheControl, Message, MessageModel, Source,
    SourceModel, SystemBlockModel, SystemPromptModel, ToolResultBlock, ToolResultBlockModel,
    UserBlock, UserBlockModel,
};
use crate::tokenizer::{self, CharTokenizer, Tokenizer};

verus! {

/// A user block says exactly what its fields hold.
pub proof fn user_blocks_say_their_fields(block: UserBlock)
    ensures
        match block {
            UserBlock::Text { text, cache_control } => block@ == (UserBlockModel::Text {
                text: text@,
                cache_control,
            }),
            UserBlock::ToolResult { call_id, content, cache_control } => {
                &&& block@ matches UserBlockModel::ToolResult { call_id: c, content: r, .. }
                &&& c == call_id@
                &&& r.is_error == content.is_error
                &&& r.blocks.len() == content.blocks@.len()
                &&& forall|i: int|
                    0 <= i < r.blocks.len() ==> #[trigger] r.blocks[i] == content.blocks@[i]@
                &&& message::user_block_cache(block@) == cache_control
            },
            UserBlock::Image { source, cache_control } => block@ == (UserBlockModel::Image {
                source: source@,
                cache_control,
            }),
            UserBlock::Document { source, cache_control } => block@ == (UserBlockModel::Document {
                source: source@,
                cache_control,
            }),
        },
{
}

/// An assistant block says exactly what its fields hold.
pub proof fn assistant_blocks_say_their_fields(block: AssistantBlock)
    ensures
        match block {
            AssistantBlock::Text { text, cache_control } => block@ == (AssistantBlockModel::Text {
                text: text@,
                cache_control,
            }),
            AssistantBlock::ToolCall { id, name, args, cache_control } => block@ == (
            AssistantBlockModel::ToolCall { id: id@, name: name@, args: args@, cache_control }),
            AssistantBlock::Reasoning { text, signature } => {
                &&& block@ matches AssistantBlockModel::Reasoning { text: t, signature: s }
                &&& t == text@
                &&& s is Some <==> signature is Some
                &&& signature is Some ==> s == Some(signature->0@)
            },
            AssistantBlock::RedactedReasoning { data } => block@ == (
            AssistantBlockModel::RedactedReasoning { data: data@ }),
        },
{
}

/// A source, a block of a tool reply and a message say exactly what their fields hold, in order.
pub proof fn messages_say_their_fields(source: Source, block: ToolResultBlock, message: Message)
    ensures
        match source {
            Source::Base64 { media_type, data } => source@ == (SourceModel::Base64 {
                media_type: media_type@,
                data: data@,
            }),
            Source::Url { url } => source@ == (SourceModel::Url { url: url@ }),
            Source::FileId { id } => source@ == (SourceModel::FileId { id: id@ }),
        },
        match block {
            ToolResultBlock::Text { text } => block@ == (ToolResultBlockModel::Text { text: text@ }),
            ToolResultBlock::Image { source } => block@ == (ToolResultBlockModel::Image {
                source: source@,
            }),
        },
        match message {
            Message::User { blocks } => message@ matches MessageModel::User { blocks: said }
                && said.len() == blocks@.len() && forall|i: int|
                0 <= i < said.len() ==> #[trigger] said[i] == blocks@[i]@,
            Message::Assistant { blocks } => message@ matches MessageModel::Assistant {
                blocks: said,
            } && said.len() == blocks@.len() && forall|i: int|
                0 <= i < said.len() ==> #[trigger] said[i] == blocks@[i]@,
        },
{
}

/// A value says exactly what it holds: numbers, texts and truth values as they are, lists in order,
/// and of entries with one key the last.
pub proof fn values_say_what_they_hold(
    items: Vec<Json>,
    entries: Seq<(String, Json)>,
    entry: (String, Json),
    other: Seq<char>,
)
    ensures
        Json::Array(items)@ matches json::JsonModel::Array(said) && said.len() == items@.len()
            && forall|i: int| 0 <= i < said.len() ==> #[trigger] said[i] == items@[i]@,
        json::entries_model(Seq::empty()) == Map::<Seq<char>, json::JsonModel>::empty(),
        ({
            let before = json::entries_model(entries);
            let after = json::entries_model(entries.push(entry));
            &&& after.dom().contains(entry.0@) && after[entry.0@] == entry.1@
            &&& other != entry.0@ ==> (after.dom().contains(other) <==> before.dom().contains(other))
            &&& other != entry.0@ ==> after[other] == before[other]
        }),
{
    assert(entries.push(entry).drop_last() =~= entries);
}

/// Setting a cache breakpoint sets that and nothing else: it is the one that is found, the last one
/// set counts, and the block says what it said. Reasoning takes none.
pub proof fn breakpoints_are_set(
    user: UserBlockModel,
    assistant: AssistantBlockModel,
    cc: Option<CacheControl>,
    other: Option<CacheControl>,
)
    ensures
        message::user_block_cache(message::user_block_with_cache(user, cc)) == cc,
        message::user_block_with_cache(user, cc) == blocks::user_block_at(user, cc),
        message::user_block_with_cache(user, message::user_block_cache(user)) == user,
        message::user_block_with_cache(message::user_block_with_cache(user, other), cc)
            == message::user_block_with_cache(user, cc),
        message::assistant_block_with_cache(assistant, cc) == blocks::assistant_block_at(
            assistant,
            cc,
        ),
        message::assistant_block_with_cache(assistant, message::assistant_block_cache(assistant))
            == assistant,
        assistant is Text || assistant is ToolCall ==> message::assistant_block_cache(
            message::assistant_block_with_cache(assistant, cc),
        ) == cc,
        assistant is Reasoning || assistant is RedactedReasoning
            ==> message::assistant_block_with_cache(assistant, cc) == assistant
            && message::assistant_block_cache(assistant) is None,
{
}

/// The texts of a tool reply are those of its text blocks, as they are and in order.
pub proof fn reply_texts_are_in_order(
    a: Seq<ToolResultBlockModel>,
    b: Seq<ToolResultBlockModel>,
    text: Seq<char>,
    source: SourceModel,
)
    ensures
        message::block_texts(a + b) == message::block_texts(a) + message::block_texts(b),
        message::block_texts(seq![ToolResultBlockModel::Text { text }]) == seq![text],
        message::block_texts(seq![ToolResultBlockModel::Image { source }]).len() == 0,
        message::block_texts(Seq::empty()).len() == 0,
    decreases b.len(),
{
    reveal_with_fuel(message::block_texts, 2);
    let one = seq![ToolResultBlockModel::Text { text }];
    let image = seq![ToolResultBlockModel::Image { source }];
    assert(one.drop_last() =~= Seq::empty());
    assert(image.drop_last() =~= Seq::empty());
    assert(message::block_texts(one) =~= seq![text]);
    if b.len() == 0 {
        assert(a + b =~= a);
        assert(message::block_texts(a) + Seq::<Seq<char>>::empty() =~= message::block_texts(a));
    } else {
        reply_texts_are_in_order(a, b.drop_last(), text, source);
        assert((a + b).drop_last() =~= a + b.drop_last());
        assert((a + b).last() == b.last());
        let x = message::block_texts(a);
        let y = message::block_texts(b.drop_last());
        if let ToolResultBlockModel::Text { text: t } = b.last() {
            assert((x + y).push(t) =~= x + y.push(t));
        }
    }
}

/// A system prompt as text is its text, or its blocks in order with an empty line between.
pub proof fn prompts_are_their_texts(a: Seq<SystemBlockModel>, block: SystemBlockModel, s: Seq<char>)
    ensures
        message::prompt_text(SystemPromptModel::Plain(s)) == s,
        message::prompt_text(SystemPromptModel::Blocks(seq![block])) == block.text,
        a.len() > 0 ==> message::prompt_text(SystemPromptModel::Blocks(a.push(block)))
            == message::prompt_text(SystemPromptModel::Blocks(a)) + seq!['\n', '\n'] + block.text,
{
    let texts = a.map_values(|b: SystemBlockModel| b.text);
    let more = a.push(block).map_values(|b: SystemBlockModel| b.text);
    assert(more =~= texts.push(block.text));
    assert(more.drop_last() =~= texts);
    assert(seq![block].map_values(|b: SystemBlockModel| b.text)[0] == block.text);
    reveal_strlit("\n\n");
    assert("\n\n"@ =~= seq!['\n', '\n']);
}

/// What is counted of a user block: its text, or the call id and the texts of a tool reply. Images
/// and documents do not count.
pub proof fn counted_of_user_blocks(block: UserBlockModel)
    ensures
        match block {
            UserBlockModel::Text { text, .. } => tokenizer::user_block_texts(block) == seq![text],
            UserBlockModel::ToolResult { call_id, content, .. } => {
                let texts = tokenizer::user_block_texts(block);
                &&& texts.len() == 1 + message::block_texts(content.blocks).len()
                &&& texts[0] == call_id
                &&& texts.skip(1) == message::block_texts(content.blocks)
            },
            _ => tokenizer::user_block_texts(block).len() == 0,
        },
{
    if let UserBlockModel::ToolResult { call_id, content, .. } = block {
        assert(tokenizer::user_block_texts(block).skip(1) =~= message::block_texts(content.blocks));
    }
}

/// What is counted of an assistant block: every text of it, a tool call's arguments as their JSON.
pub proof fn counted_of_assistant_blocks(block: AssistantBlockModel)
    ensures
        ({
            let texts = tokenizer::assistant_block_texts(block);
            match block {
                AssistantBlockModel::Text { text, .. } => texts == seq![text],
                AssistantBlockModel::ToolCall { id, name, args, .. } => texts.len() == 3
                    && texts.contains(id) && texts.contains(name) && texts.contains(
                    json::json_text(args),
                ) && texts == seq![id, name, json::json_text(args)],
                AssistantBlockModel::Reasoning { text, signature } => texts.len() == (
                if signature is Some {
                    2int
                } else {
                    1
                }) && texts[0] == text && (signature is Some ==> texts[1] == signature->0),
                AssistantBlockModel::RedactedReasoning { data } => texts == seq![data],
            }
        }),
{
    if let AssistantBlockModel::ToolCall { id, name, args, .. } = block {
        let texts = tokenizer::assistant_block_texts(block);
        assert(texts[0] == id && texts[1] == name && texts[2] == json::json_text(args));
    }
}

/// What is counted of a turn is what is counted of its blocks, one after the other, for user and
/// assistant alike.
pub proof fn counted_block_by_block(
    a: Seq<UserBlockModel>,
    b: UserBlockModel,
    c: Seq<AssistantBlockModel>,
    d: AssistantBlockModel,
)
    ensures
        tokenizer::message_texts(MessageModel::User { blocks: a.push(b) })
            == tokenizer::message_texts(MessageModel::User { blocks: a })
            + tokenizer::user_block_texts(b),
        tokenizer::message_texts(MessageModel::Assistant { blocks: c.push(d) })
            == tokenizer::message_texts(MessageModel::Assistant { blocks: c })
            + tokenizer::assistant_block_texts(d),
        tokenizer::message_texts(MessageModel::User { blocks: Seq::empty() }).len() == 0,
        tokenizer::message_texts(MessageModel::Assistant { blocks: Seq::empty() }).len() == 0,
{
    assert(a.push(b).drop_last() =~= a);
    assert(c.push(d).drop_last() =~= c);
}

/// The sum of counts without a bound.
pub open spec fn sum(counts: Seq<usize>) -> nat
    decreases counts.len(),
{
    if counts.len() == 0 {
        0
    } else {
        sum(counts.drop_last()) + counts.last() as nat
    }
}

/// Counts add up exactly as long as the sum fits, and otherwise to the largest number.
pub proof fn counts_add_up(counts: Seq<usize>)
    ensures
        sum(counts) <= usize::MAX ==> tokenizer::total(counts) == sum(counts),
        sum(counts) > usize::MAX ==> tokenizer::total(counts) == usize::MAX,
    decreases counts.len(),
{
    if counts.len() > 0 {
        counts_add_up(counts.drop_last());
    }
}

/// The plain tokenizer takes four bytes for a token and leaves out what is over.
pub proof fn four_bytes_are_a_token(counter: CharTokenizer, s: Seq<char>, count: usize)
    ensures
        counter.may_count(s, count) <==> 4 * count <= vstd::utf8::encode_utf8(s).len() < 4 * count
            + 4,
{
}

} // verus!
