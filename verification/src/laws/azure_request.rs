//! Chat Completions requests: nothing that a history says is lost or moved.

use vstd::prelude::*;

use super::wire;
use crate::azure_openai::errors::ErrorModel;
use crate::azure_openai::request::{self as requests, PartModel};
use crate::json::{self, JsonModel};
use crate::message::{
    self, AssistantBlockModel, MessageModel, SourceModel, ToolResultBlockModel, ToolResultModel,
    UserBlockModel,
};
use crate::request::{ChatRequest, ReasoningEffort, ToolChoice, ToolDefinition};

verus! {

/// The content of an assistant message.
pub open spec fn content_of(blocks: Seq<AssistantBlockModel>) -> Option<JsonModel> {
    wire::entry(requests::assistant_message(blocks), "content"@)
}

/// The tool calls of an assistant message.
pub open spec fn calls_of(blocks: Seq<AssistantBlockModel>) -> Option<JsonModel> {
    wire::entry(requests::assistant_message(blocks), "tool_calls"@)
}

/// The visible texts of an assistant turn, one to a line; none where it has no text block.
pub open spec fn visible_text(blocks: Seq<AssistantBlockModel>) -> Option<Seq<char>>
    decreases blocks.len(),
{
    if blocks.len() == 0 {
        None
    } else {
        let before = visible_text(blocks.drop_last());
        match blocks.last() {
            AssistantBlockModel::Text { text, .. } => match before {
                None => Some(text),
                Some(lines) => Some(lines.push('\n') + text),
            },
            _ => before,
        }
    }
}

proof fn lemma_message_entries(blocks: Seq<AssistantBlockModel>)
    ensures
        content_of(blocks) == Some(
            if requests::assistant_texts(blocks).len() == 0 {
                JsonModel::Null
            } else {
                JsonModel::Text(
                    crate::text::join_text(requests::assistant_texts(blocks), "\n"@),
                )
            },
        ),
        calls_of(blocks) == (if requests::assistant_calls(blocks).len() == 0 {
            None
        } else {
            Some(JsonModel::Array(requests::assistant_calls(blocks)))
        }),
        wire::entry(requests::assistant_message(blocks), "role"@) == Some(
            JsonModel::Text("assistant"@),
        ),
{
    reveal_strlit("role");
    reveal_strlit("content");
    reveal_strlit("tool_calls");
    assert("role"@.len() == 4);
    assert("content"@.len() == 7);
    assert("tool_calls"@.len() == 10);
}

proof fn lemma_visible_text(blocks: Seq<AssistantBlockModel>)
    ensures
        visible_text(blocks) == (if requests::assistant_texts(blocks).len() == 0 {
            None
        } else {
            Some(crate::text::join_text(requests::assistant_texts(blocks), "\n"@))
        }),
        requests::assistant_texts(blocks).len() == 0 <==> forall|i: int|
            0 <= i < blocks.len() ==> !(#[trigger] blocks[i] is Text),
    decreases blocks.len(),
{
    if blocks.len() > 0 {
        let before = blocks.drop_last();
        lemma_visible_text(before);
        let texts = requests::assistant_texts(before);
        assert(forall|i: int| 0 <= i < before.len() ==> before[i] == #[trigger] blocks[i]);
        assert(blocks[blocks.len() - 1] == blocks.last());
        if let AssistantBlockModel::Text { text, .. } = blocks.last() {
            assert(texts.push(text).drop_last() =~= texts);
            reveal_strlit("\n");
            if texts.len() > 0 {
                let lines = crate::text::join_text(texts, "\n"@);
                assert(lines + "\n"@ + text =~= lines.push('\n') + text);
            }
        } else {
            if forall|i: int| 0 <= i < before.len() ==> !(#[trigger] before[i] is Text) {
                assert forall|i: int| 0 <= i < blocks.len() implies !(#[trigger] blocks[i] is Text) by {
                    if i < before.len() {
                        assert(before[i] == blocks[i]);
                    }
                }
            }
        }
    }
}

/// The content of an assistant message is null exactly where the turn has no text block. Otherwise
/// it holds every text of the turn, in order and one to a line, whether the turn calls tools or not.
pub proof fn assistant_text_is_sent(blocks: Seq<AssistantBlockModel>)
    ensures
        content_of(blocks) == Some(JsonModel::Null) <==> forall|i: int|
            0 <= i < blocks.len() ==> !(#[trigger] blocks[i] is Text),
        content_of(blocks) == Some(
            match visible_text(blocks) {
                None => JsonModel::Null,
                Some(lines) => JsonModel::Text(lines),
            },
        ),
{
    lemma_message_entries(blocks);
    lemma_visible_text(blocks);
}

/// The content of an assistant message depends on its text blocks alone, and its tool calls on its
/// call blocks alone.
pub proof fn text_and_calls_do_not_mix(a: Seq<AssistantBlockModel>, b: Seq<AssistantBlockModel>)
    ensures
        a.filter(|x: AssistantBlockModel| x is Text) == b.filter(
            |x: AssistantBlockModel| x is Text,
        ) ==> content_of(a) == content_of(b),
        a.filter(|x: AssistantBlockModel| x is ToolCall) == b.filter(
            |x: AssistantBlockModel| x is ToolCall,
        ) ==> calls_of(a) == calls_of(b),
{
    lemma_message_entries(a);
    lemma_message_entries(b);
    lemma_filtered(a);
    lemma_filtered(b);
}

proof fn lemma_filtered(blocks: Seq<AssistantBlockModel>)
    ensures
        requests::assistant_texts(blocks) == requests::assistant_texts(
            blocks.filter(|x: AssistantBlockModel| x is Text),
        ),
        requests::assistant_calls(blocks) == requests::assistant_calls(
            blocks.filter(|x: AssistantBlockModel| x is ToolCall),
        ),
    decreases blocks.len(),
{
    let is_text = |x: AssistantBlockModel| x is Text;
    let is_call = |x: AssistantBlockModel| x is ToolCall;
    reveal(Seq::filter);
    if blocks.len() > 0 {
        let before = blocks.drop_last();
        lemma_filtered(before);
        let texts = before.filter(is_text);
        let calls = before.filter(is_call);
        assert(texts.push(blocks.last()).drop_last() =~= texts);
        assert(calls.push(blocks.last()).drop_last() =~= calls);
    }
}

/// A tool call of an assistant turn is one more call of its message, at the end. Its id, its name
/// and the text of its arguments can be read from there, and the calls before it stay.
pub proof fn assistant_calls_are_sent(
    blocks: Seq<AssistantBlockModel>,
    call: AssistantBlockModel,
)
    requires
        call is ToolCall,
    ensures
        ({
            let before = match calls_of(blocks) {
                Some(JsonModel::Array(calls)) => calls,
                _ => Seq::empty(),
            };
            &&& calls_of(blocks) is None || calls_of(blocks)->0 is Array
            &&& calls_of(blocks.push(call)) matches Some(JsonModel::Array(calls))
            &&& calls.len() == before.len() + 1
            &&& calls.drop_last() == before
            &&& wire::word(calls.last(), "id"@) == Some(call->ToolCall_id)
            &&& wire::word(calls.last(), "type"@) == Some("function"@)
            &&& wire::entry(calls.last(), "function"@) matches Some(function)
            &&& wire::word(function, "name"@) == Some(call->ToolCall_name)
            &&& wire::word(function, "arguments"@) == Some(json::json_text(call->ToolCall_args))
        }),
{
    lemma_message_entries(blocks);
    lemma_message_entries(blocks.push(call));
    assert(blocks.push(call).drop_last() =~= blocks);
    let calls = requests::assistant_calls(blocks.push(call));
    assert(calls.drop_last() =~= requests::assistant_calls(blocks));
    reveal_strlit("id");
    reveal_strlit("type");
    reveal_strlit("function");
    reveal_strlit("name");
    reveal_strlit("arguments");
    assert("id"@.len() == 2);
    assert("type"@.len() == 4);
    assert("function"@.len() == 8);
    assert("name"@.len() == 4);
    assert("arguments"@.len() == 9);
}

/// A turn without tool calls has no entry for them.
pub proof fn no_calls_no_entry(blocks: Seq<AssistantBlockModel>)
    ensures
        calls_of(blocks) is None <==> forall|i: int|
            0 <= i < blocks.len() ==> !(#[trigger] blocks[i] is ToolCall),
        wire::word(requests::assistant_message(blocks), "role"@) == Some("assistant"@),
{
    lemma_message_entries(blocks);
    lemma_no_calls(blocks);
}

proof fn lemma_no_calls(blocks: Seq<AssistantBlockModel>)
    ensures
        requests::assistant_calls(blocks).len() == 0 <==> forall|i: int|
            0 <= i < blocks.len() ==> !(#[trigger] blocks[i] is ToolCall),
    decreases blocks.len(),
{
    if blocks.len() > 0 {
        let before = blocks.drop_last();
        lemma_no_calls(before);
        assert(forall|i: int| 0 <= i < before.len() ==> before[i] == #[trigger] blocks[i]);
        assert(blocks[blocks.len() - 1] == blocks.last());
        if !(blocks.last() is ToolCall) && forall|i: int|
            0 <= i < before.len() ==> !(#[trigger] before[i] is ToolCall) {
            assert forall|i: int| 0 <= i < blocks.len() implies !(#[trigger] blocks[i] is ToolCall) by {
                if i < before.len() {
                    assert(before[i] == blocks[i]);
                }
            }
        }
    }
}

/// What a user turn adds, given the parts that are pending.
pub open spec fn user_turn(parts: Seq<PartModel>, blocks: Seq<UserBlockModel>) -> Result<
    Seq<JsonModel>,
    ErrorModel,
> {
    requests::user_messages(Seq::empty(), parts, blocks)
}

proof fn lemma_user_turn_appends(
    out: Seq<JsonModel>,
    parts: Seq<PartModel>,
    blocks: Seq<UserBlockModel>,
)
    ensures
        requests::user_messages(out, parts, blocks) == (match user_turn(parts, blocks) {
            Ok(added) => Ok::<Seq<JsonModel>, ErrorModel>(out + added),
            Err(e) => Err(e),
        }),
    decreases blocks.len(),
{
    let none = Seq::<JsonModel>::empty();
    if blocks.len() == 0 {
        assert(requests::flushed(out, parts) =~= out + requests::flushed(none, parts));
    } else {
        let rest = blocks.subrange(1, blocks.len() as int);
        match blocks[0] {
            UserBlockModel::Text { text, .. } => {
                lemma_user_turn_appends(out, parts.push(PartModel::Text(text)), rest);
            },
            UserBlockModel::Image { source, .. } => {
                if let Ok(url) = requests::image_url(source) {
                    lemma_user_turn_appends(out, parts.push(PartModel::ImageUrl(url)), rest);
                }
            },
            UserBlockModel::Document { .. } => {},
            UserBlockModel::ToolResult { call_id, content, .. } => {
                let tool = requests::tool_message(call_id, content);
                let long = requests::flushed(out, parts).push(tool);
                let short = requests::flushed(none, parts).push(tool);
                assert(long =~= out + short);
                lemma_user_turn_appends(long, Seq::empty(), rest);
                lemma_user_turn_appends(short, Seq::empty(), rest);
                if let Ok(added) = user_turn(Seq::empty(), rest) {
                    assert(long + added =~= out + (short + added));
                }
            },
        }
    }
}

proof fn lemma_history_appends(out: Seq<JsonModel>, messages: Seq<MessageModel>)
    ensures
        requests::history_messages(out, messages) == (match requests::history_messages(
            Seq::empty(),
            messages,
        ) {
            Ok(added) => Ok::<Seq<JsonModel>, ErrorModel>(out + added),
            Err(e) => Err(e),
        }),
    decreases messages.len(),
{
    let none = Seq::<JsonModel>::empty();
    if messages.len() == 0 {
        assert(out + none =~= out);
    } else {
        let rest = messages.subrange(1, messages.len() as int);
        match messages[0] {
            MessageModel::User { blocks } => {
                lemma_user_turn_appends(out, Seq::empty(), blocks);
                if let Ok(turn) = user_turn(Seq::empty(), blocks) {
                    lemma_history_appends(out + turn, rest);
                    lemma_history_appends(turn, rest);
                    if let Ok(added) = requests::history_messages(none, rest) {
                        assert(out + turn + added =~= out + (turn + added));
                    }
                }
            },
            MessageModel::Assistant { blocks } => {
                let turn = requests::assistant_message(blocks);
                lemma_history_appends(out.push(turn), rest);
                lemma_history_appends(none.push(turn), rest);
                if let Ok(added) = requests::history_messages(none, rest) {
                    assert(out.push(turn) + added =~= out + (none.push(turn) + added));
                }
            },
        }
    }
}

/// A history is sent turn by turn, in order: what two histories one after the other become is what
/// the first becomes and after it what the second becomes.
pub proof fn histories_are_sent_in_order(a: Seq<MessageModel>, b: Seq<MessageModel>)
    ensures
        requests::all_messages(None, a + b) == (match (
            requests::all_messages(None, a),
            requests::all_messages(None, b),
        ) {
            (Ok(first), Ok(second)) => Ok::<Seq<JsonModel>, ErrorModel>(first + second),
            (Err(e), _) => Err(e),
            (_, Err(e)) => Err(e),
        }),
        requests::all_messages(None, Seq::empty()) == Ok::<Seq<JsonModel>, ErrorModel>(Seq::empty()),
    decreases a.len(),
{
    reveal_with_fuel(requests::history_messages, 2);
    let none = Seq::<JsonModel>::empty();
    if a.len() == 0 {
        assert(a + b =~= b);
        if let Ok(second) = requests::all_messages(None, b) {
            assert(none + second =~= second);
        }
    } else {
        let rest = a.subrange(1, a.len() as int);
        assert((a + b).subrange(1, (a + b).len() as int) =~= rest + b);
        assert((a + b)[0] == a[0]);
        histories_are_sent_in_order(rest, b);
        match a[0] {
            MessageModel::User { blocks } => {
                if let Ok(turn) = user_turn(Seq::empty(), blocks) {
                    lemma_history_appends(turn, rest);
                    lemma_history_appends(turn, rest + b);
                    if let (Ok(first), Ok(second)) = (
                        requests::history_messages(none, rest),
                        requests::history_messages(none, b),
                    ) {
                        assert(turn + first + second =~= turn + (first + second));
                    }
                }
            },
            MessageModel::Assistant { blocks } => {
                let turn = none.push(requests::assistant_message(blocks));
                lemma_history_appends(turn, rest);
                lemma_history_appends(turn, rest + b);
                if let (Ok(first), Ok(second)) = (
                    requests::history_messages(none, rest),
                    requests::history_messages(none, b),
                ) {
                    assert(turn + first + second =~= turn + (first + second));
                }
            },
        }
    }
}

/// A history of one turn becomes what that turn becomes: an assistant turn is one message.
pub proof fn each_turn_is_sent(
    assistant: Seq<AssistantBlockModel>,
    user: Seq<UserBlockModel>,
)
    ensures
        requests::all_messages(None, seq![MessageModel::Assistant { blocks: assistant }]) == Ok::<
            Seq<JsonModel>,
            ErrorModel,
        >(seq![requests::assistant_message(assistant)]),
        requests::all_messages(None, seq![MessageModel::User { blocks: user }]) == user_turn(
            Seq::empty(),
            user,
        ),
{
    reveal_with_fuel(requests::history_messages, 2);
    assert(Seq::<JsonModel>::empty().push(requests::assistant_message(assistant)) =~= seq![
        requests::assistant_message(assistant),
    ]);
}

/// A system prompt is the first message, as it is, and changes nothing after it.
pub proof fn system_prompt_comes_first(prompt: Seq<char>, messages: Seq<MessageModel>)
    ensures
        requests::all_messages(Some(prompt), messages) is Ok <==> requests::all_messages(
            None,
            messages,
        ) is Ok,
        requests::all_messages(Some(prompt), messages) matches Ok(all) ==> {
            &&& all.len() > 0
            &&& wire::word(all[0], "role"@) == Some("system"@)
            &&& wire::word(all[0], "content"@) == Some(prompt)
            &&& requests::all_messages(None, messages) == Ok::<Seq<JsonModel>, ErrorModel>(
                all.skip(1),
            )
        },
        requests::all_messages(Some(prompt), messages) matches Err(e)
            ==> requests::all_messages(None, messages) == Err::<Seq<JsonModel>, ErrorModel>(e),
{
    let first = requests::object2(
        "role"@,
        JsonModel::Text("system"@),
        "content"@,
        JsonModel::Text(prompt),
    );
    lemma_history_appends(seq![first], messages);
    lemma_history_appends(Seq::empty(), messages);
    reveal_strlit("role");
    reveal_strlit("content");
    assert("role"@.len() == 4);
    assert("content"@.len() == 7);
    if let Ok(added) = requests::history_messages(Seq::empty(), messages) {
        assert((seq![first] + added).skip(1) =~= added);
    }
}

/// A tool reply becomes a message of its own, for its call and with its texts one to a line. What
/// comes before it and what comes after it are sent as if it were not there.
pub proof fn tool_replies_stand_alone(
    before: Seq<UserBlockModel>,
    reply: UserBlockModel,
    after: Seq<UserBlockModel>,
)
    requires
        reply is ToolResult,
        forall|i: int|
            0 <= i < reply->ToolResult_content.blocks.len()
                ==> !(#[trigger] reply->ToolResult_content.blocks[i] is Image),
    ensures
        ({
            let first = user_turn(Seq::empty(), before);
            let last = user_turn(Seq::empty(), after);
            match user_turn(Seq::empty(), before + seq![reply] + after) {
                Ok(all) => {
                    &&& first is Ok && last is Ok
                    &&& all.len() == first->Ok_0.len() + 1 + last->Ok_0.len()
                    &&& all.take(first->Ok_0.len() as int) == first->Ok_0
                    &&& all.skip(first->Ok_0.len() as int + 1) == last->Ok_0
                    &&& is_reply(all[first->Ok_0.len() as int], reply)
                },
                Err(e) => first is Err || last is Err,
            }
        }),
{
    assert(before + seq![reply] + after =~= before + (seq![reply] + after));
    lemma_reply_splits(Seq::empty(), before, reply, after);
    lemma_is_reply(reply);
    let first = user_turn(Seq::empty(), before);
    let last = user_turn(Seq::empty(), after);
    let tool = requests::tool_message(reply->ToolResult_call_id, reply->ToolResult_content);
    if first is Ok && last is Ok {
        let all = first->Ok_0.push(tool) + last->Ok_0;
        assert(all.take(first->Ok_0.len() as int) =~= first->Ok_0);
        assert(all.skip(first->Ok_0.len() as int + 1) =~= last->Ok_0);
    }
}

/// Whether a message is the reply to a tool call.
pub open spec fn is_reply(message: JsonModel, reply: UserBlockModel) -> bool {
    &&& wire::word(message, "role"@) == Some("tool"@)
    &&& wire::word(message, "tool_call_id"@) == Some(reply->ToolResult_call_id)
    &&& wire::word(message, "content"@) == Some(reply_text(reply->ToolResult_content.blocks))
}

/// The texts of a tool reply, one to a line.
pub open spec fn reply_text(blocks: Seq<ToolResultBlockModel>) -> Seq<char>
    decreases blocks.len(),
{
    if blocks.len() == 0 {
        Seq::empty()
    } else {
        match blocks.last() {
            ToolResultBlockModel::Text { text } => if has_text(blocks.drop_last()) {
                reply_text(blocks.drop_last()).push('\n') + text
            } else {
                text
            },
            _ => reply_text(blocks.drop_last()),
        }
    }
}

/// Whether a tool reply has a text.
pub open spec fn has_text(blocks: Seq<ToolResultBlockModel>) -> bool {
    exists|i: int| 0 <= i < blocks.len() && #[trigger] blocks[i] is Text
}

proof fn lemma_reply_text(blocks: Seq<ToolResultBlockModel>)
    ensures
        reply_text(blocks) == crate::text::join_text(message::block_texts(blocks), "\n"@),
        has_text(blocks) <==> message::block_texts(blocks).len() > 0,
    decreases blocks.len(),
{
    if blocks.len() > 0 {
        let before = blocks.drop_last();
        lemma_reply_text(before);
        assert(forall|i: int| 0 <= i < before.len() ==> before[i] == #[trigger] blocks[i]);
        assert(blocks[blocks.len() - 1] == blocks.last());
        let texts = message::block_texts(before);
        if has_text(before) {
            let i = choose|i: int| 0 <= i < before.len() && #[trigger] before[i] is Text;
            assert(blocks[i] is Text);
        }
        if let ToolResultBlockModel::Text { text } = blocks.last() {
            reveal_strlit("\n");
            assert(texts.push(text).drop_last() =~= texts);
            if texts.len() > 0 {
                let lines = crate::text::join_text(texts, "\n"@);
                assert(lines + "\n"@ + text =~= lines.push('\n') + text);
            }
        } else {
            if has_text(blocks) {
                let i = choose|i: int| 0 <= i < blocks.len() && #[trigger] blocks[i] is Text;
                assert(before[i] is Text);
            }
        }
    }
}

proof fn lemma_is_reply(reply: UserBlockModel)
    requires
        reply is ToolResult,
    ensures
        is_reply(
            requests::tool_message(reply->ToolResult_call_id, reply->ToolResult_content),
            reply,
        ),
{
    lemma_reply_text(reply->ToolResult_content.blocks);
    reveal_strlit("role");
    reveal_strlit("tool_call_id");
    reveal_strlit("content");
    assert("role"@.len() == 4);
    assert("tool_call_id"@.len() == 12);
    assert("content"@.len() == 7);
}

proof fn lemma_reply_splits(
    parts: Seq<PartModel>,
    before: Seq<UserBlockModel>,
    reply: UserBlockModel,
    after: Seq<UserBlockModel>,
)
    requires
        reply is ToolResult,
        !requests::has_image(reply->ToolResult_content.blocks),
    ensures
        user_turn(parts, before + (seq![reply] + after)) == (match (
            user_turn(parts, before),
            user_turn(Seq::empty(), after),
        ) {
            (Ok(first), Ok(last)) => Ok::<Seq<JsonModel>, ErrorModel>(
                first.push(
                    requests::tool_message(reply->ToolResult_call_id, reply->ToolResult_content),
                ) + last,
            ),
            (Err(e), _) => Err(e),
            (_, Err(e)) => Err(e),
        }),
    decreases before.len(),
{
    let none = Seq::<JsonModel>::empty();
    let all = before + (seq![reply] + after);
    let tail = all.subrange(1, all.len() as int);
    let own = requests::tool_message(reply->ToolResult_call_id, reply->ToolResult_content);
    if before.len() == 0 {
        assert(all[0] == reply);
        assert(tail =~= after);
        lemma_user_turn_appends(requests::flushed(none, parts).push(own), Seq::empty(), after);
    } else {
        let rest = before.subrange(1, before.len() as int);
        assert(all[0] == before[0]);
        assert(tail =~= rest + (seq![reply] + after));
        match before[0] {
            UserBlockModel::Text { text, .. } => {
                lemma_reply_splits(parts.push(PartModel::Text(text)), rest, reply, after);
            },
            UserBlockModel::Image { source, .. } => {
                if let Ok(url) = requests::image_url(source) {
                    lemma_reply_splits(parts.push(PartModel::ImageUrl(url)), rest, reply, after);
                }
            },
            UserBlockModel::Document { .. } => {},
            UserBlockModel::ToolResult { call_id, content, .. } => {
                if !requests::has_image(content.blocks) {
                    lemma_reply_splits(Seq::empty(), rest, reply, after);
                    let start = requests::flushed(none, parts).push(
                        requests::tool_message(call_id, content),
                    );
                    lemma_user_turn_appends(start, Seq::empty(), rest);
                    lemma_user_turn_appends(start, Seq::empty(), tail);
                    if let (Ok(first), Ok(last)) = (
                        user_turn(Seq::empty(), rest),
                        user_turn(Seq::empty(), after),
                    ) {
                        assert(start + (first.push(own) + last) =~= (start + first).push(own)
                            + last);
                    }
                }
            },
        }
    }
}

/// Whether a content part says what a block of user text or an image says.
pub open spec fn says_block(part: JsonModel, block: UserBlockModel) -> bool {
    match block {
        UserBlockModel::Text { text, .. } => wire::word(part, "type"@) == Some("text"@)
            && wire::word(part, "text"@) == Some(text),
        UserBlockModel::Image { source, .. } => wire::word(part, "type"@) == Some("image_url"@) && (
        wire::entry(part, "image_url"@) matches Some(image) && wire::word(image, "url"@) == (
        match source {
            SourceModel::Url { url } => Some(url),
            SourceModel::Base64 { media_type, data } => Some(
                "data:"@ + media_type + ";base64,"@ + data,
            ),
            SourceModel::FileId { .. } => None,
        })),
        _ => false,
    }
}

/// Whether a block is user text or an image that can be sent.
pub open spec fn is_content(block: UserBlockModel) -> bool {
    match block {
        UserBlockModel::Text { .. } => true,
        UserBlockModel::Image { source, .. } => !(source is FileId),
        _ => false,
    }
}

/// The part for user text or an image.
spec fn part_for(block: UserBlockModel) -> PartModel {
    match block {
        UserBlockModel::Text { text, .. } => PartModel::Text(text),
        UserBlockModel::Image { source, .. } => PartModel::ImageUrl(
            requests::image_url(source)->Ok_0,
        ),
        _ => PartModel::Text(Seq::empty()),
    }
}

proof fn lemma_gathered(parts: Seq<PartModel>, blocks: Seq<UserBlockModel>)
    requires
        forall|i: int| 0 <= i < blocks.len() ==> is_content(#[trigger] blocks[i]),
    ensures
        user_turn(parts, blocks) == Ok::<Seq<JsonModel>, ErrorModel>(
            requests::flushed(
                Seq::empty(),
                parts + blocks.map_values(|b: UserBlockModel| part_for(b)),
            ),
        ),
    decreases blocks.len(),
{
    let make = |b: UserBlockModel| part_for(b);
    if blocks.len() == 0 {
        assert(parts + blocks.map_values(make) =~= parts);
    } else {
        let rest = blocks.subrange(1, blocks.len() as int);
        assert(is_content(blocks[0]));
        assert forall|i: int| 0 <= i < rest.len() implies is_content(#[trigger] rest[i]) by {
            assert(rest[i] == blocks[i + 1]);
        }
        lemma_gathered(parts.push(part_for(blocks[0])), rest);
        assert(parts.push(part_for(blocks[0])) + rest.map_values(make) =~= parts
            + blocks.map_values(make));
    }
}

/// User text and images that stand together are one user message: a text alone is sent as it is,
/// and anything else as one part for each block, in order, that says what the block says.
pub proof fn user_content_is_sent(blocks: Seq<UserBlockModel>)
    requires
        blocks.len() > 0,
        forall|i: int| 0 <= i < blocks.len() ==> is_content(#[trigger] blocks[i]),
    ensures
        user_turn(Seq::empty(), blocks) matches Ok(all) && {
            &&& all.len() == 1
            &&& wire::word(all[0], "role"@) == Some("user"@)
            &&& blocks.len() == 1 && blocks[0] is Text ==> wire::word(all[0], "content"@) == Some(
                blocks[0]->Text_text,
            )
            &&& !(blocks.len() == 1 && blocks[0] is Text) ==> (wire::entry(
                all[0],
                "content"@,
            ) matches Some(JsonModel::Array(parts)) && parts.len() == blocks.len() && forall|i: int|
                0 <= i < blocks.len() ==> says_block(#[trigger] parts[i], blocks[i]))
        },
{
    let make = |b: UserBlockModel| part_for(b);
    let parts = blocks.map_values(make);
    lemma_gathered(Seq::empty(), blocks);
    assert(Seq::<PartModel>::empty() + parts =~= parts);
    reveal_strlit("role");
    reveal_strlit("content");
    reveal_strlit("type");
    reveal_strlit("text");
    reveal_strlit("image_url");
    assert("role"@.len() == 4);
    assert("content"@.len() == 7);
    assert("type"@[1] == 'y');
    assert("text"@[1] == 'e');
    assert("image_url"@.len() == 9);
    let all = requests::flushed(Seq::empty(), parts);
    assert(is_content(blocks[0]));
    if !(blocks.len() == 1 && blocks[0] is Text) {
        let sent = parts.map_values(|p: PartModel| requests::part_model(p));
        assert(wire::entry(all[0], "content"@) == Some(JsonModel::Array(sent)));
        assert forall|i: int| 0 <= i < blocks.len() implies says_block(
            #[trigger] sent[i],
            blocks[i],
        ) by {
            assert(is_content(blocks[i]));
            assert(sent[i] == requests::part_model(part_for(blocks[i])));
        }
    }
}

/// A tool choice says whether tools may, must or must not be called, and the one that must be
/// called by its name.
pub proof fn tool_choices_are_sent(choice: ToolChoice)
    ensures
        match choice {
            ToolChoice::Auto => requests::tool_choice_model(choice) == JsonModel::Text("auto"@),
            ToolChoice::Any => requests::tool_choice_model(choice) == JsonModel::Text("required"@),
            ToolChoice::None_ => requests::tool_choice_model(choice) == JsonModel::Text("none"@),
            ToolChoice::Tool { name } => wire::word(
                requests::tool_choice_model(choice),
                "type"@,
            ) == Some("function"@) && (wire::entry(
                requests::tool_choice_model(choice),
                "function"@,
            ) matches Some(function) && wire::word(function, "name"@) == Some(name@)),
        },
{
    reveal_strlit("type");
    reveal_strlit("function");
    assert("type"@.len() == 4);
    assert("function"@.len() == 8);
}

/// A reasoning budget is sent as the effort that it falls under: more tokens never mean less
/// effort, and the bounds are those of a low and of a medium budget.
pub proof fn budgets_fall_into_classes(n: u32)
    ensures
        requests::effort_word(ReasoningEffort::Budget(n)) == requests::effort_word(
            ReasoningEffort::Low,
        ) <==> n < 2048,
        requests::effort_word(ReasoningEffort::Budget(n)) == requests::effort_word(
            ReasoningEffort::Medium,
        ) <==> 2048 <= n < 8192,
        requests::effort_word(ReasoningEffort::Budget(n)) == requests::effort_word(
            ReasoningEffort::High,
        ) <==> n >= 8192,
        requests::effort_word(ReasoningEffort::Minimal) == "minimal"@,
        requests::effort_word(ReasoningEffort::Low) == "low"@,
        requests::effort_word(ReasoningEffort::Medium) == "medium"@,
        requests::effort_word(ReasoningEffort::High) == "high"@,
{
    reveal_strlit("low");
    reveal_strlit("medium");
    reveal_strlit("high");
    assert("low"@.len() == 3);
    assert("medium"@.len() == 6);
    assert("high"@.len() == 4);
}

/// A tool definition goes out with its name, description and schema.
pub proof fn tools_are_sent(tool: ToolDefinition)
    ensures
        wire::word(requests::tool_model(tool), "type"@) == Some("function"@),
        wire::entry(requests::tool_model(tool), "function"@) matches Some(function) && {
            &&& wire::word(function, "name"@) == Some(tool.name@)
            &&& wire::word(function, "description"@) == Some(tool.description@)
            &&& wire::entry(function, "parameters"@) == Some(tool.input_schema@)
        },
{
    reveal_strlit("type");
    reveal_strlit("function");
    reveal_strlit("name");
    reveal_strlit("description");
    reveal_strlit("parameters");
    assert("type"@.len() == 4);
    assert("function"@.len() == 8);
    assert("name"@.len() == 4);
    assert("description"@.len() == 11);
    assert("parameters"@.len() == 10);
}

/// Every control of a request has its own entry in the body and says there what the request says.
/// A control that is not set has none. Entries that `additional_params` sets are its own.
pub proof fn controls_are_sent(deployment: Seq<char>, req: ChatRequest, name: Seq<char>)
    requires
        requests::body_model(deployment, req) is Ok,
    ensures
        ({
            let body = requests::body_model(deployment, req)->Ok_0;
            let sent = |name: Seq<char>, value: Option<JsonModel>|
                wire::sets(req.additional_params, name) || wire::entry(body, name) == value;
            &&& sent("model"@, Some(JsonModel::Text(deployment)))
            &&& sent("stream"@, Some(JsonModel::Bool(true)))
            &&& wire::sets(req.additional_params, "stream_options"@) || (wire::entry(
                body,
                "stream_options"@,
            ) matches Some(options) && wire::entry(options, "include_usage"@) == Some(
                JsonModel::Bool(true),
            ))
            &&& sent(
                "max_tokens"@,
                Some(JsonModel::Number(json::json_number(req.max_tokens as u64))),
            )
            &&& sent(
                "messages"@,
                Some(JsonModel::Array(requests::request_messages(req)->Ok_0)),
            )
            &&& sent(
                "temperature"@,
                match req.temperature {
                    Some(t) => Some(JsonModel::Number(t)),
                    None => None,
                },
            )
            &&& sent(
                "top_p"@,
                match req.top_p {
                    Some(p) => Some(JsonModel::Number(p)),
                    None => None,
                },
            )
            &&& wire::sets(req.additional_params, "stop"@) || lists_texts(
                wire::entry(body, "stop"@),
                req.stop_sequences@,
            )
            &&& sent(
                "tool_choice"@,
                match req.tool_choice {
                    Some(choice) => Some(requests::tool_choice_model(choice)),
                    None => None,
                },
            )
            &&& sent(
                "parallel_tool_calls"@,
                match req.disable_parallel_tool_use {
                    Some(true) => Some(JsonModel::Bool(false)),
                    Some(false) => Some(JsonModel::Bool(true)),
                    None => None,
                },
            )
            &&& sent(
                "reasoning_effort"@,
                match req.reasoning_effort {
                    Some(effort) => Some(JsonModel::Text(requests::effort_word(effort))),
                    None => None,
                },
            )
            &&& wire::sets(req.additional_params, "tools"@) || lists_tools(
                wire::entry(body, "tools"@),
                req.tools,
            )
            &&& wire::sets(req.additional_params, name) ==> wire::entry(body, name) == wire::entry(
                req.additional_params->0@,
                name,
            )
        }),
{
    reveal_strlit("model");
    reveal_strlit("stream");
    reveal_strlit("stream_options");
    reveal_strlit("include_usage");
    reveal_strlit("max_tokens");
    reveal_strlit("messages");
    reveal_strlit("tools");
    reveal_strlit("temperature");
    reveal_strlit("top_p");
    reveal_strlit("stop");
    reveal_strlit("tool_choice");
    reveal_strlit("parallel_tool_calls");
    reveal_strlit("reasoning_effort");
    assert("model"@.len() == 5 && "model"@[0] == 'm');
    assert("stream"@.len() == 6);
    assert("stream_options"@.len() == 14);
    assert("max_tokens"@.len() == 10);
    assert("messages"@.len() == 8);
    assert("tools"@.len() == 5 && "tools"@[2] == 'o');
    assert("temperature"@.len() == 11 && "temperature"@[1] == 'e');
    assert("top_p"@.len() == 5 && "top_p"@[2] == 'p');
    assert("stop"@.len() == 4);
    assert("tool_choice"@.len() == 11 && "tool_choice"@[1] == 'o');
    assert("parallel_tool_calls"@.len() == 19);
    assert("reasoning_effort"@.len() == 16);
    let messages = requests::request_messages(req)->Ok_0;
    let own = requests::body_entries(deployment, req, messages);
    json::merged_prefers_extra(own, req.additional_params, name);
    json::merged_prefers_extra(own, req.additional_params, "model"@);
    json::merged_prefers_extra(own, req.additional_params, "stream"@);
    json::merged_prefers_extra(own, req.additional_params, "stream_options"@);
    json::merged_prefers_extra(own, req.additional_params, "max_tokens"@);
    json::merged_prefers_extra(own, req.additional_params, "messages"@);
    json::merged_prefers_extra(own, req.additional_params, "tools"@);
    json::merged_prefers_extra(own, req.additional_params, "temperature"@);
    json::merged_prefers_extra(own, req.additional_params, "top_p"@);
    json::merged_prefers_extra(own, req.additional_params, "stop"@);
    json::merged_prefers_extra(own, req.additional_params, "tool_choice"@);
    json::merged_prefers_extra(own, req.additional_params, "parallel_tool_calls"@);
    json::merged_prefers_extra(own, req.additional_params, "reasoning_effort"@);
}

/// Whether an entry lists texts in order; there is none where there are no texts.
pub open spec fn lists_texts(entry: Option<JsonModel>, texts: Seq<String>) -> bool {
    match entry {
        Some(JsonModel::Array(items)) => texts.len() > 0 && items.len() == texts.len()
            && forall|i: int|
            0 <= i < items.len() ==> #[trigger] items[i] == JsonModel::Text(texts[i]@),
        Some(_) => false,
        None => texts.len() == 0,
    }
}

/// Whether an entry lists tool definitions in order; there is none where there are no tools.
pub open spec fn lists_tools(entry: Option<JsonModel>, tools: Option<Vec<ToolDefinition>>) -> bool {
    match entry {
        Some(JsonModel::Array(items)) => tools matches Some(list) && list@.len() > 0 && items.len()
            == list@.len() && forall|i: int|
            0 <= i < items.len() ==> #[trigger] items[i] == requests::tool_model(list@[i]),
        Some(_) => false,
        None => tools is None || tools->0@.len() == 0,
    }
}

/// The label under which a block is refused: a document, an image by file id, a tool reply with an
/// image. Any other block is none to refuse.
pub open spec fn refusal_of(block: UserBlockModel) -> Option<Seq<char>> {
    match block {
        UserBlockModel::Text { .. } => None,
        UserBlockModel::Image { source, .. } => if source is FileId {
            Some("image_file_id"@)
        } else {
            None
        },
        UserBlockModel::Document { .. } => Some("document"@),
        UserBlockModel::ToolResult { content, .. } => if exists|i: int|
            0 <= i < content.blocks.len() && #[trigger] content.blocks[i] is Image {
            Some("tool_result_image"@)
        } else {
            None
        },
    }
}

/// A user turn is refused for the first of its blocks that cannot be sent, under the label of that
/// block.
pub proof fn first_refusal_decides(
    parts: Seq<PartModel>,
    before: Seq<UserBlockModel>,
    block: UserBlockModel,
    after: Seq<UserBlockModel>,
)
    requires
        forall|i: int| 0 <= i < before.len() ==> refusal_of(#[trigger] before[i]) is None,
        refusal_of(block) is Some,
    ensures
        user_turn(parts, before + (seq![block] + after)) == Err::<Seq<JsonModel>, ErrorModel>(
            ErrorModel::UnsupportedContent { kind: refusal_of(block)->0 },
        ),
    decreases before.len(),
{
    let all = before + (seq![block] + after);
    let tail = all.subrange(1, all.len() as int);
    if before.len() == 0 {
        assert(all[0] == block);
    } else {
        let rest = before.subrange(1, before.len() as int);
        assert(all[0] == before[0]);
        assert(refusal_of(before[0]) is None);
        assert(tail =~= rest + (seq![block] + after));
        assert forall|i: int| 0 <= i < rest.len() implies refusal_of(#[trigger] rest[i]) is None by {
            assert(rest[i] == before[i + 1]);
        }
        match before[0] {
            UserBlockModel::Text { text, .. } => {
                first_refusal_decides(parts.push(PartModel::Text(text)), rest, block, after);
            },
            UserBlockModel::Image { source, .. } => {
                if let Ok(url) = requests::image_url(source) {
                    first_refusal_decides(
                        parts.push(PartModel::ImageUrl(url)),
                        rest,
                        block,
                        after,
                    );
                }
            },
            UserBlockModel::Document { .. } => {},
            UserBlockModel::ToolResult { call_id, content, .. } => {
                first_refusal_decides(Seq::empty(), rest, block, after);
                lemma_user_turn_appends(
                    requests::flushed(Seq::empty(), parts).push(
                        requests::tool_message(call_id, content),
                    ),
                    Seq::empty(),
                    tail,
                );
            },
        }
    }
}

/// A turn of blocks that can all be sent is sent.
pub proof fn other_turns_are_sent(parts: Seq<PartModel>, blocks: Seq<UserBlockModel>)
    requires
        forall|i: int| 0 <= i < blocks.len() ==> refusal_of(#[trigger] blocks[i]) is None,
    ensures
        user_turn(parts, blocks) is Ok,
    decreases blocks.len(),
{
    if blocks.len() > 0 {
        let rest = blocks.subrange(1, blocks.len() as int);
        assert(refusal_of(blocks[0]) is None);
        assert forall|i: int| 0 <= i < rest.len() implies refusal_of(#[trigger] rest[i]) is None by {
            assert(rest[i] == blocks[i + 1]);
        }
        match blocks[0] {
            UserBlockModel::Text { text, .. } => {
                other_turns_are_sent(parts.push(PartModel::Text(text)), rest);
            },
            UserBlockModel::Image { source, .. } => {
                if let Ok(url) = requests::image_url(source) {
                    other_turns_are_sent(parts.push(PartModel::ImageUrl(url)), rest);
                }
            },
            UserBlockModel::Document { .. } => {},
            UserBlockModel::ToolResult { call_id, content, .. } => {
                other_turns_are_sent(Seq::empty(), rest);
                lemma_user_turn_appends(
                    requests::flushed(Seq::empty(), parts).push(
                        requests::tool_message(call_id, content),
                    ),
                    Seq::empty(),
                    rest,
                );
            },
        }
    }
}

/// A message has the entries of its kind and no others.
pub proof fn nothing_else_is_sent(
    blocks: Seq<AssistantBlockModel>,
    call_id: Seq<char>,
    content: ToolResultModel,
    tool: ToolDefinition,
)
    ensures
        wire::has_exactly(
            requests::assistant_message(blocks),
            if calls_of(blocks) is Some {
                set!["role"@, "content"@, "tool_calls"@]
            } else {
                set!["role"@, "content"@]
            },
        ),
        wire::has_exactly(
            requests::tool_message(call_id, content),
            set!["role"@, "tool_call_id"@, "content"@],
        ),
        wire::has_exactly(requests::tool_model(tool), set!["type"@, "function"@]),
{
    lemma_message_entries(blocks);
}

/// A body has the entries of its request's controls and those that `additional_params` sets, and no
/// others.
pub proof fn bodies_have_no_other_entries(deployment: Seq<char>, req: ChatRequest, name: Seq<char>)
    requires
        requests::body_model(deployment, req) is Ok,
    ensures
        wire::entry(requests::body_model(deployment, req)->Ok_0, name) is Some ==> {
            ||| wire::sets(req.additional_params, name)
            ||| name == "model"@ || name == "max_tokens"@ || name == "stream"@ || name == "messages"@
            ||| name == "stream_options"@
            ||| name == "tools"@ && req.tools is Some
            ||| name == "temperature"@ && req.temperature is Some
            ||| name == "top_p"@ && req.top_p is Some
            ||| name == "stop"@ && req.stop_sequences@.len() > 0
            ||| name == "tool_choice"@ && req.tool_choice is Some
            ||| name == "parallel_tool_calls"@ && req.disable_parallel_tool_use is Some
            ||| name == "reasoning_effort"@ && req.reasoning_effort is Some
        },
{
    let messages = requests::request_messages(req)->Ok_0;
    json::merged_prefers_extra(
        requests::body_entries(deployment, req, messages),
        req.additional_params,
        name,
    );
}

} // verus!
