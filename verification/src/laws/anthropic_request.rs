//! Messages requests: nothing that a history says is lost or moved.

use vstd::prelude::*;

use super::wire;
use crate::anthropic::request as requests;
use crate::json::{self, JsonModel};
use crate::message::{
    self, AssistantBlockModel, CacheControl, MessageModel, SourceModel, SystemBlockModel,
    SystemPromptModel, ToolResultBlockModel, UserBlockModel,
};
use crate::request::{ChatRequest, ReasoningEffort, ToolChoice, ToolDefinition};

verus! {

proof fn lemma_names()
    ensures
        "type"@ != "text"@ && "type"@ != "id"@ && "type"@ != "name"@ && "type"@ != "input"@,
        "type"@ != "thinking"@ && "type"@ != "signature"@ && "type"@ != "data"@,
        "type"@ != "cache_control"@ && "type"@ != "source"@ && "type"@ != "tool_use_id"@,
        "type"@ != "content"@ && "type"@ != "is_error"@ && "type"@ != "media_type"@,
        "type"@ != "url"@ && "type"@ != "file_id"@ && "type"@ != "ttl"@ && "type"@ != "role"@,
        "type"@ != "disable_parallel_tool_use"@ && "type"@ != "budget_tokens"@,
        "id"@ != "name"@ && "id"@ != "input"@ && "id"@ != "cache_control"@,
        "name"@ != "input"@ && "name"@ != "cache_control"@ && "name"@ != "description"@,
        "name"@ != "input_schema"@ && "name"@ != "disable_parallel_tool_use"@,
        "input"@ != "cache_control"@ && "text"@ != "cache_control"@,
        "thinking"@ != "signature"@ && "tool_use_id"@ != "content"@,
        "tool_use_id"@ != "is_error"@ && "tool_use_id"@ != "cache_control"@,
        "content"@ != "is_error"@ && "content"@ != "cache_control"@ && "content"@ != "role"@,
        "is_error"@ != "cache_control"@ && "source"@ != "cache_control"@,
        "media_type"@ != "data"@ && "description"@ != "input_schema"@,
        "description"@ != "cache_control"@ && "input_schema"@ != "cache_control"@,
{
    reveal_strlit("type");
    reveal_strlit("text");
    reveal_strlit("id");
    reveal_strlit("name");
    reveal_strlit("input");
    reveal_strlit("thinking");
    reveal_strlit("signature");
    reveal_strlit("data");
    reveal_strlit("cache_control");
    reveal_strlit("source");
    reveal_strlit("tool_use_id");
    reveal_strlit("content");
    reveal_strlit("is_error");
    reveal_strlit("media_type");
    reveal_strlit("url");
    reveal_strlit("file_id");
    reveal_strlit("ttl");
    reveal_strlit("role");
    reveal_strlit("disable_parallel_tool_use");
    reveal_strlit("budget_tokens");
    reveal_strlit("description");
    reveal_strlit("input_schema");
    assert("type"@.len() == 4 && "type"@[1] == 'y');
    assert("text"@.len() == 4 && "text"@[1] == 'e');
    assert("name"@.len() == 4 && "name"@[1] == 'a');
    assert("data"@.len() == 4 && "data"@[1] == 'a');
    assert("role"@.len() == 4 && "role"@[1] == 'o');
    assert("id"@.len() == 2);
    assert("input"@.len() == 5);
    assert("thinking"@.len() == 8);
    assert("signature"@.len() == 9);
    assert("cache_control"@.len() == 13);
    assert("source"@.len() == 6);
    assert("tool_use_id"@.len() == 11);
    assert("content"@.len() == 7);
    assert("is_error"@.len() == 8);
    assert("media_type"@.len() == 10);
    assert("url"@.len() == 3);
    assert("file_id"@.len() == 7);
    assert("ttl"@.len() == 3);
    assert("disable_parallel_tool_use"@.len() == 25);
    assert("budget_tokens"@.len() == 13);
    assert("description"@.len() == 11);
    assert("input_schema"@.len() == 12);
}

proof fn lemma_block_tags()
    ensures
        "text"@ != "tool_use"@ && "text"@ != "thinking"@ && "text"@ != "redacted_thinking"@,
        "tool_use"@ != "thinking"@ && "tool_use"@ != "redacted_thinking"@,
        "thinking"@ != "redacted_thinking"@ && "text"@ != "tool_result"@ && "text"@ != "image"@,
        "text"@ != "document"@ && "tool_result"@ != "image"@ && "tool_result"@ != "document"@,
        "image"@ != "document"@ && "base64"@ != "url"@ && "base64"@ != "file"@ && "url"@ != "file"@,
        "user"@ != "assistant"@,
{
    reveal_strlit("text");
    reveal_strlit("tool_use");
    reveal_strlit("thinking");
    reveal_strlit("redacted_thinking");
    reveal_strlit("tool_result");
    reveal_strlit("image");
    reveal_strlit("document");
    reveal_strlit("base64");
    reveal_strlit("url");
    reveal_strlit("file");
    reveal_strlit("user");
    reveal_strlit("assistant");
    assert("text"@.len() == 4);
    assert("tool_use"@.len() == 8 && "tool_use"@[1] == 'o');
    assert("thinking"@.len() == 8 && "thinking"@[1] == 'h');
    assert("redacted_thinking"@.len() == 17);
    assert("tool_result"@.len() == 11);
    assert("image"@.len() == 5);
    assert("document"@.len() == 8);
    assert("base64"@.len() == 6);
    assert("url"@.len() == 3);
    assert("file"@.len() == 4);
    assert("user"@.len() == 4);
    assert("assistant"@.len() == 9);
}

/// Whether a wire object says what an assistant block says.
pub open spec fn says_assistant_block(wire: JsonModel, block: AssistantBlockModel) -> bool {
    match block {
        AssistantBlockModel::Text { text, .. } => {
            &&& wire::word(wire, "type"@) == Some("text"@)
            &&& wire::word(wire, "text"@) == Some(text)
        },
        AssistantBlockModel::ToolCall { id, name, args, .. } => {
            &&& wire::word(wire, "type"@) == Some("tool_use"@)
            &&& wire::word(wire, "id"@) == Some(id)
            &&& wire::word(wire, "name"@) == Some(name)
            &&& wire::entry(wire, "input"@) == Some(args)
        },
        AssistantBlockModel::Reasoning { text, signature } => {
            &&& wire::word(wire, "type"@) == Some("thinking"@)
            &&& wire::word(wire, "thinking"@) == Some(text)
            &&& signature is Some ==> wire::word(wire, "signature"@) == signature
            &&& signature is None ==> wire::word(wire, "signature"@) == Some(Seq::<char>::empty())
        },
        AssistantBlockModel::RedactedReasoning { data } => {
            &&& wire::word(wire, "type"@) == Some("redacted_thinking"@)
            &&& wire::word(wire, "data"@) == Some(data)
        },
    }
}

/// Whether a wire object says what a source says.
pub open spec fn says_source(wire: JsonModel, source: SourceModel) -> bool {
    match source {
        SourceModel::Base64 { media_type, data } => {
            &&& wire::word(wire, "type"@) == Some("base64"@)
            &&& wire::word(wire, "media_type"@) == Some(media_type)
            &&& wire::word(wire, "data"@) == Some(data)
        },
        SourceModel::Url { url } => {
            &&& wire::word(wire, "type"@) == Some("url"@)
            &&& wire::word(wire, "url"@) == Some(url)
        },
        SourceModel::FileId { id } => {
            &&& wire::word(wire, "type"@) == Some("file"@)
            &&& wire::word(wire, "file_id"@) == Some(id)
        },
    }
}

/// Whether a wire object says what a block of a tool reply says.
pub open spec fn says_reply_block(wire: JsonModel, block: ToolResultBlockModel) -> bool {
    match block {
        ToolResultBlockModel::Text { text } => {
            &&& wire::word(wire, "type"@) == Some("text"@)
            &&& wire::word(wire, "text"@) == Some(text)
        },
        ToolResultBlockModel::Image { source } => {
            &&& wire::word(wire, "type"@) == Some("image"@)
            &&& wire::entry(wire, "source"@) matches Some(inner)
            &&& says_source(inner, source)
        },
    }
}

/// Whether a wire object says what a user block says.
pub open spec fn says_user_block(wire: JsonModel, block: UserBlockModel) -> bool {
    match block {
        UserBlockModel::Text { text, .. } => {
            &&& wire::word(wire, "type"@) == Some("text"@)
            &&& wire::word(wire, "text"@) == Some(text)
        },
        UserBlockModel::ToolResult { call_id, content, .. } => {
            &&& wire::word(wire, "type"@) == Some("tool_result"@)
            &&& wire::word(wire, "tool_use_id"@) == Some(call_id)
            &&& wire::entry(wire, "is_error"@) == (if content.is_error {
                Some(JsonModel::Bool(true))
            } else {
                None
            })
            &&& wire::entry(wire, "content"@) matches Some(JsonModel::Array(items))
            &&& items.len() == content.blocks.len()
            &&& forall|i: int|
                0 <= i < items.len() ==> says_reply_block(#[trigger] items[i], content.blocks[i])
        },
        UserBlockModel::Image { source, .. } => {
            &&& wire::word(wire, "type"@) == Some("image"@)
            &&& wire::entry(wire, "source"@) matches Some(inner)
            &&& says_source(inner, source)
        },
        UserBlockModel::Document { source, .. } => {
            &&& wire::word(wire, "type"@) == Some("document"@)
            &&& wire::entry(wire, "source"@) matches Some(inner)
            &&& says_source(inner, source)
        },
    }
}

/// Whether a wire object says what a message says, block by block and in order.
pub open spec fn says_message(wire: JsonModel, message: MessageModel) -> bool {
    match message {
        MessageModel::User { blocks } => {
            &&& wire::word(wire, "role"@) == Some("user"@)
            &&& wire::entry(wire, "content"@) matches Some(JsonModel::Array(items))
            &&& items.len() == blocks.len()
            &&& forall|i: int|
                0 <= i < items.len() ==> says_user_block(#[trigger] items[i], blocks[i])
        },
        MessageModel::Assistant { blocks } => {
            &&& wire::word(wire, "role"@) == Some("assistant"@)
            &&& wire::entry(wire, "content"@) matches Some(JsonModel::Array(items))
            &&& items.len() == blocks.len()
            &&& forall|i: int|
                0 <= i < items.len() ==> says_assistant_block(#[trigger] items[i], blocks[i])
        },
    }
}

/// What an assistant block says can be read from its wire object: a tool call's id, name and
/// arguments, a text, reasoning with its signature.
pub proof fn assistant_blocks_read_back(block: AssistantBlockModel)
    ensures
        says_assistant_block(requests::assistant_block_model(block), block),
{
    lemma_names();
}

/// What a source says can be read from its wire object.
pub proof fn sources_read_back(source: SourceModel)
    ensures
        says_source(requests::source_model(source), source),
{
    lemma_names();
}

/// What a block of a tool reply says can be read from its wire object.
pub proof fn reply_blocks_read_back(block: ToolResultBlockModel)
    ensures
        says_reply_block(requests::result_block_model(block), block),
{
    lemma_names();
    if let ToolResultBlockModel::Image { source } = block {
        sources_read_back(source);
    }
}

/// What a user block says can be read from its wire object.
pub proof fn user_blocks_read_back(block: UserBlockModel)
    ensures
        says_user_block(requests::user_block_model(block), block),
{
    lemma_names();
    match block {
        UserBlockModel::Text { .. } => {},
        UserBlockModel::ToolResult { call_id, content, .. } => {
            let items = content.blocks.map_values(
                |b: ToolResultBlockModel| requests::result_block_model(b),
            );
            assert forall|i: int| 0 <= i < items.len() implies says_reply_block(
                #[trigger] items[i],
                content.blocks[i],
            ) by {
                reply_blocks_read_back(content.blocks[i]);
            }
        },
        UserBlockModel::Image { source, .. } => {
            sources_read_back(source);
        },
        UserBlockModel::Document { source, .. } => {
            sources_read_back(source);
        },
    }
}

/// What a message says can be read from its wire object: whose turn it is and every block of it.
pub proof fn messages_read_back(message: MessageModel)
    ensures
        says_message(requests::message_model(message), message),
{
    lemma_names();
    match message {
        MessageModel::User { blocks } => {
            let items = blocks.map_values(|b: UserBlockModel| requests::user_block_model(b));
            assert forall|i: int| 0 <= i < items.len() implies says_user_block(
                #[trigger] items[i],
                blocks[i],
            ) by {
                user_blocks_read_back(blocks[i]);
            }
        },
        MessageModel::Assistant { blocks } => {
            let items = blocks.map_values(
                |b: AssistantBlockModel| requests::assistant_block_model(b),
            );
            assert forall|i: int| 0 <= i < items.len() implies says_assistant_block(
                #[trigger] items[i],
                blocks[i],
            ) by {
                assistant_blocks_read_back(blocks[i]);
            }
        },
    }
}

/// Whether two assistant blocks say the same, but for cache breakpoints and for whether an empty
/// signature is written out.
pub open spec fn same_assistant_block(a: AssistantBlockModel, b: AssistantBlockModel) -> bool {
    match (a, b) {
        (
            AssistantBlockModel::Text { text: s, .. },
            AssistantBlockModel::Text { text: t, .. },
        ) => s == t,
        (
            AssistantBlockModel::ToolCall { id: i, name: n, args: x, .. },
            AssistantBlockModel::ToolCall { id: j, name: m, args: y, .. },
        ) => i == j && n == m && x == y,
        (
            AssistantBlockModel::Reasoning { text: s, signature: p },
            AssistantBlockModel::Reasoning { text: t, signature: q },
        ) => s == t && (p == q || p is None && q->0.len() == 0 || q is None && p->0.len() == 0),
        (
            AssistantBlockModel::RedactedReasoning { data: s },
            AssistantBlockModel::RedactedReasoning { data: t },
        ) => s == t,
        _ => false,
    }
}

/// Whether two user blocks say the same, but for cache breakpoints.
pub open spec fn same_user_block(a: UserBlockModel, b: UserBlockModel) -> bool {
    match (a, b) {
        (UserBlockModel::Text { text: s, .. }, UserBlockModel::Text { text: t, .. }) => s == t,
        (
            UserBlockModel::ToolResult { call_id: i, content: c, .. },
            UserBlockModel::ToolResult { call_id: j, content: d, .. },
        ) => i == j && c.is_error == d.is_error && c.blocks =~= d.blocks,
        (UserBlockModel::Image { source: s, .. }, UserBlockModel::Image { source: t, .. }) => s
            == t,
        (UserBlockModel::Document { source: s, .. }, UserBlockModel::Document { source: t, .. }) =>
            s == t,
        _ => false,
    }
}

/// Whether two messages say the same, block by block.
pub open spec fn same_message(a: MessageModel, b: MessageModel) -> bool {
    match (a, b) {
        (MessageModel::User { blocks: x }, MessageModel::User { blocks: y }) => x.len() == y.len()
            && forall|i: int| 0 <= i < x.len() ==> same_user_block(#[trigger] x[i], y[i]),
        (MessageModel::Assistant { blocks: x }, MessageModel::Assistant { blocks: y }) => x.len()
            == y.len() && forall|i: int|
            0 <= i < x.len() ==> same_assistant_block(#[trigger] x[i], y[i]),
        _ => false,
    }
}

proof fn lemma_one_reading(wire: JsonModel)
    ensures
        forall|a: AssistantBlockModel, b: AssistantBlockModel|
            says_assistant_block(wire, a) && says_assistant_block(wire, b)
                ==> #[trigger] same_assistant_block(a, b),
        forall|a: SourceModel, b: SourceModel| #[trigger]
            says_source(wire, a) && #[trigger] says_source(wire, b) ==> a == b,
{
    lemma_block_tags();
}

proof fn lemma_one_user_reading(wire: JsonModel, a: UserBlockModel, b: UserBlockModel)
    requires
        says_user_block(wire, a),
        says_user_block(wire, b),
    ensures
        same_user_block(a, b),
{
    lemma_block_tags();
    match (a, b) {
        (
            UserBlockModel::ToolResult { content: c, .. },
            UserBlockModel::ToolResult { content: d, .. },
        ) => {
            let items = wire::entry(wire, "content"@)->0->Array_0;
            assert forall|i: int| 0 <= i < c.blocks.len() implies c.blocks[i] == d.blocks[i] by {
                assert(says_reply_block(items[i], c.blocks[i]));
                assert(says_reply_block(items[i], d.blocks[i]));
                if let Some(inner) = wire::entry(items[i], "source"@) {
                    lemma_one_reading(inner);
                }
            }
        },
        _ => {
            if let Some(inner) = wire::entry(wire, "source"@) {
                lemma_one_reading(inner);
            }
        },
    }
}

proof fn lemma_one_message_reading(wire: JsonModel, a: MessageModel, b: MessageModel)
    requires
        says_message(wire, a),
        says_message(wire, b),
    ensures
        same_message(a, b),
{
    lemma_block_tags();
    let items = wire::entry(wire, "content"@)->0->Array_0;
    match (a, b) {
        (MessageModel::User { blocks: x }, MessageModel::User { blocks: y }) => {
            assert forall|i: int| 0 <= i < x.len() implies same_user_block(#[trigger] x[i], y[i]) by {
                assert(says_user_block(items[i], x[i]));
                assert(says_user_block(items[i], y[i]));
                lemma_one_user_reading(items[i], x[i], y[i]);
            }
        },
        (MessageModel::Assistant { blocks: x }, MessageModel::Assistant { blocks: y }) => {
            assert forall|i: int| 0 <= i < x.len() implies same_assistant_block(
                #[trigger] x[i],
                y[i],
            ) by {
                assert(says_assistant_block(items[i], x[i]));
                assert(says_assistant_block(items[i], y[i]));
                lemma_one_reading(items[i]);
            }
        },
        _ => {},
    }
}

/// A user block with another cache breakpoint.
pub open spec fn user_block_at(block: UserBlockModel, cc: Option<CacheControl>) -> UserBlockModel {
    match block {
        UserBlockModel::Text { text, .. } => UserBlockModel::Text { text, cache_control: cc },
        UserBlockModel::ToolResult { call_id, content, .. } => UserBlockModel::ToolResult {
            call_id,
            content,
            cache_control: cc,
        },
        UserBlockModel::Image { source, .. } => UserBlockModel::Image { source, cache_control: cc },
        UserBlockModel::Document { source, .. } => UserBlockModel::Document {
            source,
            cache_control: cc,
        },
    }
}

/// An assistant text or tool call with another cache breakpoint.
pub open spec fn assistant_block_at(
    block: AssistantBlockModel,
    cc: Option<CacheControl>,
) -> AssistantBlockModel {
    match block {
        AssistantBlockModel::Text { text, .. } => AssistantBlockModel::Text {
            text,
            cache_control: cc,
        },
        AssistantBlockModel::ToolCall { id, name, args, .. } => AssistantBlockModel::ToolCall {
            id,
            name,
            args,
            cache_control: cc,
        },
        _ => block,
    }
}

/// Whether one object is another with a cache breakpoint under `cache_control` and nothing else.
pub open spec fn adds_breakpoint(with: JsonModel, without: JsonModel, cc: CacheControl) -> bool {
    &&& with is Object && without is Object
    &&& wire::entry(without, "cache_control"@) is None
    &&& with->Object_0.remove("cache_control"@) =~= without->Object_0
    &&& wire::entry(with, "cache_control"@) matches Some(mark)
    &&& wire::word(mark, "type"@) == Some("ephemeral"@)
    &&& wire::entry(mark, "ttl"@) is Some <==> cc is EphemeralWithTtl
    &&& cc matches CacheControl::EphemeralWithTtl(d) ==> wire::word(mark, "ttl"@) == Some(
        requests::ttl_for(d@ as int),
    )
}

/// A cache breakpoint adds one entry to the object it stands on and changes nothing else. Reasoning
/// takes none.
pub proof fn breakpoints_only_add(
    user: UserBlockModel,
    assistant: AssistantBlockModel,
    system: Seq<char>,
    tool: ToolDefinition,
    cc: CacheControl,
)
    ensures
        adds_breakpoint(
            requests::user_block_model(user_block_at(user, Some(cc))),
            requests::user_block_model(user_block_at(user, None)),
            cc,
        ),
        assistant is Text || assistant is ToolCall ==> adds_breakpoint(
            requests::assistant_block_model(assistant_block_at(assistant, Some(cc))),
            requests::assistant_block_model(assistant_block_at(assistant, None)),
            cc,
        ),
        adds_breakpoint(
            requests::system_block_model(
                (SystemBlockModel { text: system, cache_control: Some(cc) }),
            ),
            requests::system_block_model((SystemBlockModel { text: system, cache_control: None })),
            cc,
        ),
        adds_breakpoint(
            requests::tool_model((ToolDefinition { cache_control: Some(cc), ..tool })),
            requests::tool_model((ToolDefinition { cache_control: None, ..tool })),
            cc,
        ),
{
    lemma_names();
}

/// Of the two supported times to live the nearer one is sent: five minutes up to the middle
/// between them, and one hour from there on.
pub proof fn nearest_time_to_live(nanos: int)
    ensures
        requests::ttl_for(nanos) == "5m"@ <==> nanos <= 1_950_000_000_000,
        requests::ttl_for(nanos) == "1h"@ <==> nanos > 1_950_000_000_000,
{
    reveal_strlit("5m");
    reveal_strlit("1h");
    assert("5m"@[0] == '5');
    assert("1h"@[0] == '1');
}

/// A system prompt is sent as it is: a text as that text, blocks as a list of their texts in order.
pub proof fn system_prompts_are_sent(prompt: SystemPromptModel)
    ensures
        match prompt {
            SystemPromptModel::Plain(s) => requests::system_model(prompt) == JsonModel::Text(s),
            SystemPromptModel::Blocks(blocks) => requests::system_model(prompt) matches
                JsonModel::Array(items) && items.len() == blocks.len() && forall|i: int|
                0 <= i < items.len() ==> wire::word(#[trigger] items[i], "type"@) == Some("text"@)
                    && wire::word(items[i], "text"@) == Some(blocks[i].text)
                    && (wire::entry(items[i], "cache_control"@) is Some
                    <==> blocks[i].cache_control is Some),
        },
{
    lemma_names();
}

/// A tool definition goes out with its name, description and schema.
pub proof fn tools_are_sent(tool: ToolDefinition)
    ensures
        wire::word(requests::tool_model(tool), "name"@) == Some(tool.name@),
        wire::word(requests::tool_model(tool), "description"@) == Some(tool.description@),
        wire::entry(requests::tool_model(tool), "input_schema"@) == Some(tool.input_schema@),
        wire::entry(requests::tool_model(tool), "cache_control"@) is Some
            <==> tool.cache_control is Some,
{
    lemma_names();
}

/// A tool choice is sent by its kind, with the name of the tool that must be called, and without
/// one the model decides. Whether calls may run in parallel is sent exactly where it is set.
pub proof fn tool_choices_are_sent(choice: Option<ToolChoice>, disable: Option<bool>)
    ensures
        ({
            let sent = requests::tool_choice_model(choice, disable);
            &&& wire::word(sent, "type"@) == Some(
                match choice {
                    None => "auto"@,
                    Some(ToolChoice::Auto) => "auto"@,
                    Some(ToolChoice::Any) => "any"@,
                    Some(ToolChoice::Tool { .. }) => "tool"@,
                    Some(ToolChoice::None_) => "none"@,
                },
            )
            &&& wire::word(sent, "name"@) == (match choice {
                Some(ToolChoice::Tool { name }) => Some(name@),
                _ => None,
            })
            &&& wire::entry(sent, "disable_parallel_tool_use"@) == (match disable {
                Some(flag) => Some(JsonModel::Bool(flag)),
                None => None,
            })
        }),
{
    lemma_names();
}

/// A reasoning budget is sent as it is. Low, medium and high efforts are budgets that grow, and
/// only a minimal effort turns thinking off.
pub proof fn efforts_are_budgets(n: u32)
    ensures
        wire::word(requests::thinking_model(ReasoningEffort::Budget(n)), "type"@) == Some(
            "enabled"@,
        ),
        wire::entry(requests::thinking_model(ReasoningEffort::Budget(n)), "budget_tokens"@) == Some(
            JsonModel::Number(json::json_number(n as u64)),
        ),
        requests::thinking_model(ReasoningEffort::Low) == requests::thinking_model(
            ReasoningEffort::Budget(1024),
        ),
        requests::thinking_model(ReasoningEffort::Medium) == requests::thinking_model(
            ReasoningEffort::Budget(4096),
        ),
        requests::thinking_model(ReasoningEffort::High) == requests::thinking_model(
            ReasoningEffort::Budget(16384),
        ),
        wire::word(requests::thinking_model(ReasoningEffort::Minimal), "type"@) == Some(
            "disabled"@,
        ),
        wire::entry(requests::thinking_model(ReasoningEffort::Minimal), "budget_tokens"@) is None,
{
    lemma_names();
}

/// Whether an entry lists messages in order.
pub open spec fn lists_messages(entry: Option<JsonModel>, messages: Seq<MessageModel>) -> bool {
    entry matches Some(JsonModel::Array(items)) && items.len() == messages.len() && forall|i: int|
        0 <= i < items.len() ==> says_message(#[trigger] items[i], messages[i])
}

/// Whether an entry lists texts in order; there is none where there are no texts.
pub open spec fn lists_texts(entry: Option<JsonModel>, texts: Seq<String>) -> bool {
    match entry {
        Some(JsonModel::Array(items)) => texts.len() > 0 && items.len() == texts.len()
            && forall|i: int|
            0 <= i < items.len() ==> #[trigger] items[i] == JsonModel::Text(texts[i]@),
        Some(_) => false,
        None => texts.len() == 0,
    }
}

/// Whether an entry lists tool definitions in order; there is none where there are no tools.
pub open spec fn lists_tools(entry: Option<JsonModel>, tools: Option<Vec<ToolDefinition>>) -> bool {
    match entry {
        Some(JsonModel::Array(items)) => tools matches Some(list) && list@.len() > 0 && items.len()
            == list@.len() && forall|i: int|
            0 <= i < items.len() ==> #[trigger] items[i] == requests::tool_model(list@[i]),
        Some(_) => false,
        None => tools is None || tools->0@.len() == 0,
    }
}

/// Every control of a request has its own entry in the body and says there what the request says,
/// and the history stands there whole. A control that is not set has none. Entries that
/// `additional_params` sets are its own.
pub proof fn controls_are_sent(model: Seq<char>, req: ChatRequest, name: Seq<char>)
    ensures
        ({
            let body = requests::body_model(model, req);
            let sent = |name: Seq<char>, value: Option<JsonModel>|
                wire::sets(req.additional_params, name) || wire::entry(body, name) == value;
            &&& sent("model"@, Some(JsonModel::Text(model)))
            &&& sent("stream"@, Some(JsonModel::Bool(true)))
            &&& sent(
                "max_tokens"@,
                Some(JsonModel::Number(json::json_number(req.max_tokens as u64))),
            )
            &&& wire::sets(req.additional_params, "messages"@) || lists_messages(
                wire::entry(body, "messages"@),
                message::message_models(req.messages@),
            )
            &&& sent(
                "system"@,
                match req.system_prompt {
                    Some(prompt) => Some(requests::system_model(prompt@)),
                    None => None,
                },
            )
            &&& wire::sets(req.additional_params, "tools"@) || lists_tools(
                wire::entry(body, "tools"@),
                req.tools,
            )
            &&& sent(
                "temperature"@,
                match req.temperature {
                    Some(t) => Some(JsonModel::Number(t)),
                    None => None,
                },
            )
            &&& sent(
                "top_p"@,
                match req.top_p {
                    Some(p) => Some(JsonModel::Number(p)),
                    None => None,
                },
            )
            &&& sent(
                "top_k"@,
                match req.top_k {
                    Some(k) => Some(JsonModel::Number(json::json_number(k as u64))),
                    None => None,
                },
            )
            &&& wire::sets(req.additional_params, "stop_sequences"@) || lists_texts(
                wire::entry(body, "stop_sequences"@),
                req.stop_sequences@,
            )
            &&& sent(
                "tool_choice"@,
                match (req.tool_choice, req.disable_parallel_tool_use) {
                    (None, None) => None,
                    (choice, disable) => Some(requests::tool_choice_model(choice, disable)),
                },
            )
            &&& sent(
                "thinking"@,
                match req.reasoning_effort {
                    Some(effort) => Some(requests::thinking_model(effort)),
                    None => None,
                },
            )
            &&& wire::sets(req.additional_params, name) ==> wire::entry(body, name) == wire::entry(
                req.additional_params->0@,
                name,
            )
        }),
{
    reveal_strlit("model");
    reveal_strlit("max_tokens");
    reveal_strlit("stream");
    reveal_strlit("messages");
    reveal_strlit("system");
    reveal_strlit("tools");
    reveal_strlit("temperature");
    reveal_strlit("top_p");
    reveal_strlit("top_k");
    reveal_strlit("stop_sequences");
    reveal_strlit("tool_choice");
    reveal_strlit("thinking");
    assert("model"@.len() == 5 && "model"@[0] == 'm');
    assert("tools"@.len() == 5 && "tools"@[0] == 't' && "tools"@[2] == 'o');
    assert("top_p"@.len() == 5 && "top_p"@[0] == 't' && "top_p"@[2] == 'p' && "top_p"@[4] == 'p');
    assert("top_k"@.len() == 5 && "top_k"@[0] == 't' && "top_k"@[2] == 'p' && "top_k"@[4] == 'k');
    assert("stream"@.len() == 6 && "stream"@[1] == 't');
    assert("system"@.len() == 6 && "system"@[1] == 'y');
    assert("messages"@.len() == 8 && "messages"@[0] == 'm');
    assert("thinking"@.len() == 8 && "thinking"@[0] == 't');
    assert("max_tokens"@.len() == 10);
    assert("temperature"@.len() == 11 && "temperature"@[1] == 'e');
    assert("tool_choice"@.len() == 11 && "tool_choice"@[1] == 'o');
    assert("stop_sequences"@.len() == 14);
    let own = requests::body_entries(model, req);
    json::merged_prefers_extra(own, req.additional_params, name);
    json::merged_prefers_extra(own, req.additional_params, "model"@);
    json::merged_prefers_extra(own, req.additional_params, "stream"@);
    json::merged_prefers_extra(own, req.additional_params, "max_tokens"@);
    json::merged_prefers_extra(own, req.additional_params, "messages"@);
    json::merged_prefers_extra(own, req.additional_params, "system"@);
    json::merged_prefers_extra(own, req.additional_params, "tools"@);
    json::merged_prefers_extra(own, req.additional_params, "temperature"@);
    json::merged_prefers_extra(own, req.additional_params, "top_p"@);
    json::merged_prefers_extra(own, req.additional_params, "top_k"@);
    json::merged_prefers_extra(own, req.additional_params, "stop_sequences"@);
    json::merged_prefers_extra(own, req.additional_params, "tool_choice"@);
    json::merged_prefers_extra(own, req.additional_params, "thinking"@);
    let messages = message::message_models(req.messages@);
    let items = messages.map_values(|m: MessageModel| requests::message_model(m));
    assert forall|i: int| 0 <= i < items.len() implies says_message(
        #[trigger] items[i],
        messages[i],
    ) by {
        messages_read_back(messages[i]);
    }
}

/// Requests with the same body have the same history: the same turns in the same order, and in
/// them the same texts, tool calls with the same arguments, and tool replies.
pub proof fn bodies_tell_histories_apart(model: Seq<char>, a: ChatRequest, b: ChatRequest)
    requires
        requests::body_model(model, a) == requests::body_model(model, b),
        !wire::sets(a.additional_params, "messages"@),
        !wire::sets(b.additional_params, "messages"@),
    ensures
        a.messages@.len() == b.messages@.len(),
        forall|i: int|
            0 <= i < a.messages@.len() ==> same_message(#[trigger] a.messages@[i]@, b.messages@[i]@),
{
    controls_are_sent(model, a, "messages"@);
    controls_are_sent(model, b, "messages"@);
    let items = wire::entry(requests::body_model(model, a), "messages"@)->0->Array_0;
    let x = message::message_models(a.messages@);
    let y = message::message_models(b.messages@);
    assert forall|i: int| 0 <= i < a.messages@.len() implies same_message(
        #[trigger] a.messages@[i]@,
        b.messages@[i]@,
    ) by {
        assert(says_message(items[i], x[i]));
        assert(says_message(items[i], y[i]));
        lemma_one_message_reading(items[i], x[i], y[i]);
    }
}

/// A wire object has the entries of its kind and no others, but for a cache breakpoint.
pub proof fn nothing_else_is_sent(
    assistant: AssistantBlockModel,
    user: UserBlockModel,
    source: SourceModel,
    reply: ToolResultBlockModel,
    message: MessageModel,
)
    ensures
        wire::has_exactly(
            requests::assistant_block_model(assistant_block_at(assistant, None)),
            match assistant {
                AssistantBlockModel::Text { .. } => set!["type"@, "text"@],
                AssistantBlockModel::ToolCall { .. } => set!["type"@, "id"@, "name"@, "input"@],
                AssistantBlockModel::Reasoning { .. } => set!["type"@, "thinking"@, "signature"@],
                AssistantBlockModel::RedactedReasoning { .. } => set!["type"@, "data"@],
            },
        ),
        wire::has_exactly(
            requests::user_block_model(user_block_at(user, None)),
            match user {
                UserBlockModel::Text { .. } => set!["type"@, "text"@],
                UserBlockModel::ToolResult { content, .. } => if content.is_error {
                    set!["type"@, "tool_use_id"@, "content"@, "is_error"@]
                } else {
                    set!["type"@, "tool_use_id"@, "content"@]
                },
                _ => set!["type"@, "source"@],
            },
        ),
        wire::has_exactly(
            requests::source_model(source),
            match source {
                SourceModel::Base64 { .. } => set!["type"@, "media_type"@, "data"@],
                SourceModel::Url { .. } => set!["type"@, "url"@],
                SourceModel::FileId { .. } => set!["type"@, "file_id"@],
            },
        ),
        wire::has_exactly(
            requests::result_block_model(reply),
            if reply is Text {
                set!["type"@, "text"@]
            } else {
                set!["type"@, "source"@]
            },
        ),
        wire::has_exactly(requests::message_model(message), set!["role"@, "content"@]),
{
}

/// A body has the entries of its request's controls and those that `additional_params` sets, and no
/// others.
pub proof fn bodies_have_no_other_entries(model: Seq<char>, req: ChatRequest, name: Seq<char>)
    ensures
        wire::entry(requests::body_model(model, req), name) is Some ==> {
            ||| wire::sets(req.additional_params, name)
            ||| name == "model"@ || name == "max_tokens"@ || name == "stream"@ || name == "messages"@
            ||| name == "system"@ && req.system_prompt is Some
            ||| name == "tools"@ && req.tools is Some
            ||| name == "temperature"@ && req.temperature is Some
            ||| name == "top_p"@ && req.top_p is Some
            ||| name == "top_k"@ && req.top_k is Some
            ||| name == "stop_sequences"@ && req.stop_sequences@.len() > 0
            ||| name == "tool_choice"@ && (req.tool_choice is Some
                || req.disable_parallel_tool_use is Some)
            ||| name == "thinking"@ && req.reasoning_effort is Some
        },
{
    json::merged_prefers_extra(requests::body_entries(model, req), req.additional_params, name);
}

} // verus!
