//! Lowers a [`ChatRequest`] to the body of a Chat Completions request.

use vstd::prelude::*;
use vstd::string::*;

use super::errors::{AzureOpenAIError, ErrorModel};
use crate::json::{self, Json, JsonModel};
use crate::message::{
    self, AssistantBlock, AssistantBlockModel, Message, MessageModel, Source, SourceModel,
    ToolResultBlock, ToolResultBlockModel, ToolResultModel, UserBlock, UserBlockModel,
};
use crate::request::{ChatRequest, ReasoningEffort, ToolChoice, ToolDefinition};
use crate::text::{self, join};

verus! {

/// The refusal of content that has no form on the wire.
pub open spec fn unsupported(kind: Seq<char>) -> ErrorModel {
    ErrorModel::UnsupportedContent { kind }
}

/// `{first: value}`
pub open spec fn object1(key: Seq<char>, value: JsonModel) -> JsonModel {
    JsonModel::Object(Map::empty().insert(key, value))
}

/// `{first: value, second: value}`
pub open spec fn object2(
    key1: Seq<char>,
    value1: JsonModel,
    key2: Seq<char>,
    value2: JsonModel,
) -> JsonModel {
    JsonModel::Object(Map::empty().insert(key1, value1).insert(key2, value2))
}

/// A content part of a user message.
enum UserPart {
    Text(String),
    ImageUrl(String),
}

/// What a content part of a user message says.
pub enum PartModel {
    Text(Seq<char>),
    ImageUrl(Seq<char>),
}

impl View for UserPart {
    type V = PartModel;

    closed spec fn view(&self) -> PartModel {
        match *self {
            UserPart::Text(s) => PartModel::Text(s@),
            UserPart::ImageUrl(s) => PartModel::ImageUrl(s@),
        }
    }
}

/// The wire object of a content part.
pub open spec fn part_model(part: PartModel) -> JsonModel {
    match part {
        PartModel::Text(s) => object2("type"@, JsonModel::Text("text"@), "text"@, JsonModel::Text(s)),
        PartModel::ImageUrl(url) => object2(
            "type"@,
            JsonModel::Text("image_url"@),
            "image_url"@,
            object1("url"@, JsonModel::Text(url)),
        ),
    }
}

/// The messages so far and the pending parts as one more user message. No parts make no message,
/// and a single text is sent as plain text.
pub open spec fn flushed(out: Seq<JsonModel>, parts: Seq<PartModel>) -> Seq<JsonModel> {
    if parts.len() == 0 {
        out
    } else {
        let content = if parts.len() == 1 && parts[0] is Text {
            JsonModel::Text(parts[0]->Text_0)
        } else {
            JsonModel::Array(parts.map_values(|p: PartModel| part_model(p)))
        };
        out.push(object2("role"@, JsonModel::Text("user"@), "content"@, content))
    }
}

/// The `url` of an image part: the address itself, or the data inline.
pub open spec fn image_url(source: SourceModel) -> Result<Seq<char>, ErrorModel> {
    match source {
        SourceModel::Url { url } => Ok(url),
        SourceModel::Base64 { media_type, data } => Ok(
            "data:"@ + media_type + ";base64,"@ + data,
        ),
        SourceModel::FileId { .. } => Err(unsupported("image_file_id"@)),
    }
}

/// Whether a tool reply has an image.
pub open spec fn has_image(blocks: Seq<ToolResultBlockModel>) -> bool {
    exists|i: int| 0 <= i < blocks.len() && #[trigger] blocks[i] is Image
}

/// The message of a tool reply: its texts, one to a line.
pub open spec fn tool_message(call_id: Seq<char>, content: ToolResultModel) -> JsonModel {
    JsonModel::Object(
        Map::empty().insert("role"@, JsonModel::Text("tool"@)).insert(
            "tool_call_id"@,
            JsonModel::Text(call_id),
        ).insert(
            "content"@,
            JsonModel::Text(text::join_text(message::block_texts(content.blocks), "\n"@)),
        ),
    )
}

/// The messages of a user turn, given the messages before it and the parts that are pending. Tool
/// replies become messages of their own, what stands between them is gathered, and content that
/// Chat Completions cannot represent is refused.
pub open spec fn user_messages(
    out: Seq<JsonModel>,
    parts: Seq<PartModel>,
    blocks: Seq<UserBlockModel>,
) -> Result<Seq<JsonModel>, ErrorModel>
    decreases blocks.len(),
{
    if blocks.len() == 0 {
        Ok(flushed(out, parts))
    } else {
        let rest = blocks.subrange(1, blocks.len() as int);
        match blocks[0] {
            UserBlockModel::Text { text, .. } => user_messages(
                out,
                parts.push(PartModel::Text(text)),
                rest,
            ),
            UserBlockModel::Image { source, .. } => match image_url(source) {
                Ok(url) => user_messages(out, parts.push(PartModel::ImageUrl(url)), rest),
                Err(e) => Err(e),
            },
            UserBlockModel::Document { .. } => Err(unsupported("document"@)),
            UserBlockModel::ToolResult { call_id, content, .. } => if has_image(content.blocks) {
                Err(unsupported("tool_result_image"@))
            } else {
                user_messages(
                    flushed(out, parts).push(tool_message(call_id, content)),
                    Seq::empty(),
                    rest,
                )
            },
        }
    }
}

/// The texts of an assistant turn.
pub open spec fn assistant_texts(blocks: Seq<AssistantBlockModel>) -> Seq<Seq<char>>
    decreases blocks.len(),
{
    if blocks.len() == 0 {
        Seq::empty()
    } else {
        let before = assistant_texts(blocks.drop_last());
        match blocks.last() {
            AssistantBlockModel::Text { text, .. } => before.push(text),
            _ => before,
        }
    }
}

/// The wire object of a tool call; its arguments are a text that holds JSON.
pub open spec fn call_model(id: Seq<char>, name: Seq<char>, args: JsonModel) -> JsonModel {
    JsonModel::Object(
        Map::empty().insert("id"@, JsonModel::Text(id)).insert(
            "type"@,
            JsonModel::Text("function"@),
        ).insert(
            "function"@,
            object2(
                "name"@,
                JsonModel::Text(name),
                "arguments"@,
                JsonModel::Text(json::json_text(args)),
            ),
        ),
    )
}

/// The tool calls of an assistant turn.
pub open spec fn assistant_calls(blocks: Seq<AssistantBlockModel>) -> Seq<JsonModel>
    decreases blocks.len(),
{
    if blocks.len() == 0 {
        Seq::empty()
    } else {
        let before = assistant_calls(blocks.drop_last());
        match blocks.last() {
            AssistantBlockModel::ToolCall { id, name, args, .. } => before.push(
                call_model(id, name, args),
            ),
            _ => before,
        }
    }
}

/// The message of an assistant turn. Reasoning has no place in it.
pub open spec fn assistant_message(blocks: Seq<AssistantBlockModel>) -> JsonModel {
    let texts = assistant_texts(blocks);
    let calls = assistant_calls(blocks);
    let m = Map::empty().insert("role"@, JsonModel::Text("assistant"@)).insert(
        "content"@,
        if texts.len() == 0 {
            JsonModel::Null
        } else {
            JsonModel::Text(text::join_text(texts, "\n"@))
        },
    );
    JsonModel::Object(
        if calls.len() == 0 {
            m
        } else {
            m.insert("tool_calls"@, JsonModel::Array(calls))
        },
    )
}

/// The messages of a history, given those before it.
pub open spec fn history_messages(
    out: Seq<JsonModel>,
    messages: Seq<MessageModel>,
) -> Result<Seq<JsonModel>, ErrorModel>
    decreases messages.len(),
{
    if messages.len() == 0 {
        Ok(out)
    } else {
        let rest = messages.subrange(1, messages.len() as int);
        match messages[0] {
            MessageModel::User { blocks } => match user_messages(out, Seq::empty(), blocks) {
                Ok(next) => history_messages(next, rest),
                Err(e) => Err(e),
            },
            MessageModel::Assistant { blocks } => history_messages(
                out.push(assistant_message(blocks)),
                rest,
            ),
        }
    }
}

/// The messages of a request; a system prompt comes first.
pub open spec fn all_messages(
    system_prompt: Option<Seq<char>>,
    messages: Seq<MessageModel>,
) -> Result<Seq<JsonModel>, ErrorModel> {
    history_messages(
        match system_prompt {
            Some(prompt) => seq![
                object2("role"@, JsonModel::Text("system"@), "content"@, JsonModel::Text(prompt)),
            ],
            None => Seq::empty(),
        },
        messages,
    )
}

fn json_object1(key: &str, value: Json) -> (r: Json)
    ensures
        r@ == object1(key@, value@),
{
    let mut obj = Json::empty_object();
    obj.set(key, value);
    obj
}

fn json_object2(key1: &str, value1: Json, key2: &str, value2: Json) -> (r: Json)
    ensures
        r@ == object2(key1@, value1@, key2@, value2@),
{
    let mut obj = Json::empty_object();
    obj.set(key1, value1);
    obj.set(key2, value2);
    obj
}

fn part_json(part: &UserPart) -> (r: Json)
    ensures
        r@ == part_model(part@),
{
    match part {
        UserPart::Text(s) => json_object2(
            "type",
            Json::text("text"),
            "text",
            Json::text(s.as_str()),
        ),
        UserPart::ImageUrl(url) => json_object2(
            "type",
            Json::text("image_url"),
            "image_url",
            json_object1("url", Json::text(url.as_str())),
        ),
    }
}

/// What a list of pending parts says.
spec fn part_models(parts: Seq<UserPart>) -> Seq<PartModel> {
    parts.map_values(|p: UserPart| p@)
}

/// Sends the pending parts off as a user message.
fn flush_user_parts(out: &mut Vec<Json>, parts: &Vec<UserPart>)
    ensures
        json::models(final(out)@) == flushed(json::models(old(out)@), part_models(parts@)),
{
    if parts.len() == 0 {
        return;
    }
    let ghost before = out@;
    if parts.len() == 1 {
        if let UserPart::Text(s) = &parts[0] {
            out.push(
                json_object2("role", Json::text("user"), "content", Json::text(s.as_str())),
            );
            assert(part_models(parts@)[0] == PartModel::Text(s@));
            assert(json::models(out@) =~= json::models(before).push(out@.last()@));
            return;
        }
    }
    let mut list: Vec<Json> = Vec::new();
    let mut i: usize = 0;
    while i < parts.len()
        invariant
            i <= parts.len(),
            list.len() == i,
            forall|k: int| 0 <= k < i ==> (#[trigger] list@[k])@ == part_model(parts@[k]@),
        decreases parts.len() - i,
    {
        list.push(part_json(&parts[i]));
        i = i + 1;
    }
    assert(json::models(list@) =~= part_models(parts@).map_values(|p: PartModel| part_model(p)));
    out.push(json_object2("role", Json::text("user"), "content", Json::array(list)));
    assert(json::models(out@) =~= json::models(before).push(out@.last()@));
}

/// Encodes a source as the address of an image part.
pub fn chat_completions_image_url(source: &Source) -> (r: Result<String, AzureOpenAIError>)
    ensures
        image_url(source@) == (match r {
            Ok(url) => Ok::<Seq<char>, ErrorModel>(url@),
            Err(e) => Err(e@),
        }),
{
    match source {
        Source::Url { url } => Ok(url.clone()),
        Source::Base64 { media_type, data } => {
            let mut url = "data:".to_owned();
            url.append(media_type.as_str());
            url.append(";base64,");
            url.append(data.as_str());
            Ok(url)
        },
        Source::FileId { .. } => Err(
            AzureOpenAIError::UnsupportedContent { kind: "image_file_id" },
        ),
    }
}

fn contains_image(blocks: &Vec<ToolResultBlock>) -> (r: bool)
    ensures
        r == has_image(blocks@.map_values(|b: ToolResultBlock| b@)),
{
    let ghost all = blocks@.map_values(|b: ToolResultBlock| b@);
    let mut i: usize = 0;
    while i < blocks.len()
        invariant
            i <= blocks.len(),
            all == blocks@.map_values(|b: ToolResultBlock| b@),
            forall|k: int| 0 <= k < i ==> !(#[trigger] all[k] is Image),
        decreases blocks.len() - i,
    {
        assert(all[i as int] == blocks@[i as int]@);
        if let ToolResultBlock::Image { .. } = &blocks[i] {
            assert(all[i as int] is Image);
            return true;
        }
        i = i + 1;
    }
    false
}

/// Appends the messages of a user turn.
fn append_user_blocks(out: &mut Vec<Json>, blocks: &Vec<UserBlock>) -> (r: Result<
    (),
    AzureOpenAIError,
>)
    ensures
        user_messages(
            json::models(old(out)@),
            Seq::empty(),
            blocks@.map_values(|b: UserBlock| b@),
        ) == (match r {
            Ok(_) => Ok::<Seq<JsonModel>, ErrorModel>(json::models(final(out)@)),
            Err(e) => Err(e@),
        }),
{
    let ghost all = blocks@.map_values(|b: UserBlock| b@);
    let ghost start = json::models(out@);
    let ghost want = user_messages(start, Seq::empty(), all);
    let mut parts: Vec<UserPart> = Vec::new();
    let mut i: usize = 0;
    assert(all.subrange(0, all.len() as int) =~= all);
    assert(part_models(parts@) =~= Seq::<PartModel>::empty());
    while i < blocks.len()
        invariant
            i <= blocks.len(),
            all == blocks@.map_values(|b: UserBlock| b@),
            start == json::models(old(out)@),
            want == user_messages(start, Seq::empty(), all),
            want == user_messages(
                json::models(out@),
                part_models(parts@),
                all.subrange(i as int, all.len() as int),
            ),
        decreases blocks.len() - i,
    {
        let ghost left = all.subrange(i as int, all.len() as int);
        let ghost parts_before = parts@;
        assert(left[0] == blocks@[i as int]@);
        assert(left.subrange(1, left.len() as int) =~= all.subrange(i as int + 1, all.len() as int));
        match &blocks[i] {
            UserBlock::Text { text, .. } => {
                parts.push(UserPart::Text(text.clone()));
                assert(part_models(parts@) =~= part_models(parts_before).push(
                    PartModel::Text(text@),
                ));
            },
            UserBlock::Image { source, .. } => match chat_completions_image_url(source) {
                Ok(url) => {
                    parts.push(UserPart::ImageUrl(url));
                    assert(part_models(parts@) =~= part_models(parts_before).push(
                        PartModel::ImageUrl(url@),
                    ));
                },
                Err(e) => {
                    return Err(e);
                },
            },
            UserBlock::Document { .. } => {
                return Err(AzureOpenAIError::UnsupportedContent { kind: "document" });
            },
            UserBlock::ToolResult { call_id, content, .. } => {
                flush_user_parts(out, &parts);
                if contains_image(&content.blocks) {
                    return Err(AzureOpenAIError::UnsupportedContent { kind: "tool_result_image" });
                }
                let ghost before = out@;
                parts = Vec::new();
                let body = content.collect_text();
                let mut msg = Json::empty_object();
                msg.set("role", Json::text("tool"));
                msg.set("tool_call_id", Json::text(call_id.as_str()));
                msg.set("content", Json::text(body.as_str()));
                out.push(msg);
                assert(json::models(out@) =~= json::models(before).push(msg@));
                assert(part_models(parts@) =~= Seq::<PartModel>::empty());
            },
        }
        i = i + 1;
    }
    flush_user_parts(out, &parts);
    Ok(())
}

/// Appends the message of an assistant turn.
fn append_assistant_blocks(out: &mut Vec<Json>, blocks: &Vec<AssistantBlock>)
    ensures
        json::models(final(out)@) == json::models(old(out)@).push(
            assistant_message(blocks@.map_values(|b: AssistantBlock| b@)),
        ),
{
    let ghost all = blocks@.map_values(|b: AssistantBlock| b@);
    let mut text_parts: Vec<String> = Vec::new();
    let mut tool_calls: Vec<Json> = Vec::new();
    let mut i: usize = 0;
    assert(text::texts(text_parts@) =~= Seq::<Seq<char>>::empty());
    assert(json::models(tool_calls@) =~= Seq::<JsonModel>::empty());
    while i < blocks.len()
        invariant
            i <= blocks.len(),
            all == blocks@.map_values(|b: AssistantBlock| b@),
            text::texts(text_parts@) == assistant_texts(all.take(i as int)),
            json::models(tool_calls@) == assistant_calls(all.take(i as int)),
        decreases blocks.len() - i,
    {
        let ghost texts_before = text_parts@;
        let ghost calls_before = tool_calls@;
        assert(all.take(i as int + 1).drop_last() =~= all.take(i as int));
        assert(all.take(i as int + 1).last() == blocks@[i as int]@);
        match &blocks[i] {
            AssistantBlock::Text { text, .. } => {
                text_parts.push(text.clone());
                assert(text::texts(text_parts@) =~= text::texts(texts_before).push(text@));
            },
            AssistantBlock::ToolCall { id, name, args, .. } => {
                let arguments = args.to_text();
                let mut call = Json::empty_object();
                call.set("id", Json::text(id.as_str()));
                call.set("type", Json::text("function"));
                call.set(
                    "function",
                    json_object2(
                        "name",
                        Json::text(name.as_str()),
                        "arguments",
                        Json::text(arguments.as_str()),
                    ),
                );
                tool_calls.push(call);
                assert(json::models(tool_calls@) =~= json::models(calls_before).push(call@));
            },
            _ => {},
        }
        i = i + 1;
    }
    assert(all.take(i as int) =~= all);
    assert(text::texts(text_parts@).len() == text_parts@.len());
    assert(json::models(tool_calls@).len() == tool_calls@.len());
    let mut msg = Json::empty_object();
    msg.set("role", Json::text("assistant"));
    if text_parts.len() == 0 {
        msg.set("content", Json::Null);
    } else {
        let content = join(&text_parts, "\n");
        msg.set("content", Json::text(content.as_str()));
    }
    if tool_calls.len() > 0 {
        msg.set("tool_calls", Json::array(tool_calls));
    }
    let ghost before = out@;
    out.push(msg);
    assert(json::models(out@) =~= json::models(before).push(msg@));
}

/// Encodes the system prompt and the history.
pub fn to_messages(system_prompt: Option<&str>, messages: &Vec<Message>) -> (r: Result<
    Vec<Json>,
    AzureOpenAIError,
>)
    ensures
        all_messages(
            match system_prompt {
                Some(s) => Some(s@),
                None => None,
            },
            message::message_models(messages@),
        ) == (match r {
            Ok(list) => Ok::<Seq<JsonModel>, ErrorModel>(json::models(list@)),
            Err(e) => Err(e@),
        }),
{
    let ghost all = message::message_models(messages@);
    let mut out: Vec<Json> = Vec::new();
    if let Some(prompt) = system_prompt {
        out.push(json_object2("role", Json::text("system"), "content", Json::text(prompt)));
    }
    let ghost start = json::models(out@);
    assert(start =~= (match system_prompt {
        Some(prompt) => seq![
            object2("role"@, JsonModel::Text("system"@), "content"@, JsonModel::Text(prompt@)),
        ],
        None => Seq::empty(),
    }));
    let mut i: usize = 0;
    assert(all.subrange(0, all.len() as int) =~= all);
    while i < messages.len()
        invariant
            i <= messages.len(),
            all == message::message_models(messages@),
            history_messages(start, all) == history_messages(
                json::models(out@),
                all.subrange(i as int, all.len() as int),
            ),
            start == (match system_prompt {
                Some(prompt) => seq![
                    object2(
                        "role"@,
                        JsonModel::Text("system"@),
                        "content"@,
                        JsonModel::Text(prompt@),
                    ),
                ],
                None => Seq::empty(),
            }),
        decreases messages.len() - i,
    {
        let ghost left = all.subrange(i as int, all.len() as int);
        assert(left[0] == messages@[i as int]@);
        assert(left.subrange(1, left.len() as int) =~= all.subrange(i as int + 1, all.len() as int));
        match &messages[i] {
            Message::User { blocks } => {
                if let Err(e) = append_user_blocks(&mut out, blocks) {
                    return Err(e);
                }
            },
            Message::Assistant { blocks } => {
                append_assistant_blocks(&mut out, blocks);
            },
        }
        i = i + 1;
    }
    Ok(out)
}

/// The wire value of a tool choice.
pub open spec fn tool_choice_model(choice: ToolChoice) -> JsonModel {
    match choice {
        ToolChoice::Auto => JsonModel::Text("auto"@),
        ToolChoice::Any => JsonModel::Text("required"@),
        ToolChoice::Tool { name } => object2(
            "type"@,
            JsonModel::Text("function"@),
            "function"@,
            object1("name"@, JsonModel::Text(name@)),
        ),
        ToolChoice::None_ => JsonModel::Text("none"@),
    }
}

/// Encodes a tool choice.
pub fn to_chat_tool_choice(choice: &ToolChoice) -> (r: Json)
    ensures
        r@ == tool_choice_model(*choice),
{
    match choice {
        ToolChoice::Auto => Json::text("auto"),
        ToolChoice::Any => Json::text("required"),
        ToolChoice::Tool { name } => json_object2(
            "type",
            Json::text("function"),
            "function",
            json_object1("name", Json::text(name.as_str())),
        ),
        ToolChoice::None_ => Json::text("none"),
    }
}

/// The word for a reasoning effort; budgets fall into three classes.
pub open spec fn effort_word(effort: ReasoningEffort) -> Seq<char> {
    match effort {
        ReasoningEffort::Minimal => "minimal"@,
        ReasoningEffort::Low => "low"@,
        ReasoningEffort::Medium => "medium"@,
        ReasoningEffort::High => "high"@,
        ReasoningEffort::Budget(n) => if n < 2048 {
            "low"@
        } else if n < 8192 {
            "medium"@
        } else {
            "high"@
        },
    }
}

/// Lowers a reasoning effort to its word.
pub fn reasoning_effort_str(effort: ReasoningEffort) -> (r: &'static str)
    ensures
        r@ == effort_word(effort),
{
    match effort {
        ReasoningEffort::Minimal => "minimal",
        ReasoningEffort::Low => "low",
        ReasoningEffort::Medium => "medium",
        ReasoningEffort::High => "high",
        ReasoningEffort::Budget(n) => {
            if n < 2048 {
                "low"
            } else if n < 8192 {
                "medium"
            } else {
                "high"
            }
        },
    }
}

/// The wire object of a tool definition; tags stay behind.
pub open spec fn tool_model(tool: ToolDefinition) -> JsonModel {
    object2(
        "type"@,
        JsonModel::Text("function"@),
        "function"@,
        JsonModel::Object(
            Map::empty().insert("name"@, JsonModel::Text(tool.name@)).insert(
                "description"@,
                JsonModel::Text(tool.description@),
            ).insert("parameters"@, tool.input_schema@),
        ),
    )
}

fn tool_json(tool: &ToolDefinition) -> (r: Json)
    ensures
        r@ == tool_model(*tool),
{
    let mut function = Json::empty_object();
    function.set("name", Json::text(tool.name.as_str()));
    function.set("description", Json::text(tool.description.as_str()));
    function.set("parameters", tool.input_schema.clone());
    json_object2("type", Json::text("function"), "function", function)
}

/// Encodes the tool definitions.
pub fn to_tools(tools: &Vec<ToolDefinition>) -> (r: Json)
    ensures
        r@ == JsonModel::Array(tools@.map_values(|t: ToolDefinition| tool_model(t))),
{
    let mut out: Vec<Json> = Vec::new();
    let mut i: usize = 0;
    while i < tools.len()
        invariant
            i <= tools.len(),
            out.len() == i,
            forall|k: int| 0 <= k < i ==> (#[trigger] out@[k])@ == tool_model(tools@[k]),
        decreases tools.len() - i,
    {
        out.push(tool_json(&tools[i]));
        i = i + 1;
    }
    assert(json::models(out@) =~= tools@.map_values(|t: ToolDefinition| tool_model(t)));
    Json::array(out)
}

/// The entries that the request sets itself, given its messages.
pub open spec fn body_entries(
    deployment: Seq<char>,
    req: ChatRequest,
    messages: Seq<JsonModel>,
) -> Map<Seq<char>, JsonModel> {
    let m = Map::empty().insert("model"@, JsonModel::Text(deployment)).insert(
        "stream"@,
        JsonModel::Bool(true),
    ).insert("stream_options"@, object1("include_usage"@, JsonModel::Bool(true))).insert(
        "max_tokens"@,
        JsonModel::Number(json::json_number(req.max_tokens as u64)),
    ).insert("messages"@, JsonModel::Array(messages));
    let m = json::opt_insert(
        m,
        "tools"@,
        match req.tools {
            Some(tools) => if tools@.len() > 0 {
                Some(JsonModel::Array(tools@.map_values(|t: ToolDefinition| tool_model(t))))
            } else {
                None
            },
            None => None,
        },
    );
    let m = json::opt_insert(
        m,
        "temperature"@,
        match req.temperature {
            Some(t) => Some(JsonModel::Number(t)),
            None => None,
        },
    );
    let m = json::opt_insert(
        m,
        "top_p"@,
        match req.top_p {
            Some(p) => Some(JsonModel::Number(p)),
            None => None,
        },
    );
    let m = json::opt_insert(
        m,
        "stop"@,
        if req.stop_sequences@.len() > 0 {
            Some(JsonModel::Array(req.stop_sequences@.map_values(|s: String| JsonModel::Text(s@))))
        } else {
            None
        },
    );
    let m = json::opt_insert(
        m,
        "tool_choice"@,
        match req.tool_choice {
            Some(choice) => Some(tool_choice_model(choice)),
            None => None,
        },
    );
    let m = json::opt_insert(
        m,
        "parallel_tool_calls"@,
        match req.disable_parallel_tool_use {
            Some(disable) => Some(JsonModel::Bool(!disable)),
            None => None,
        },
    );
    json::opt_insert(
        m,
        "reasoning_effort"@,
        match req.reasoning_effort {
            Some(effort) => Some(JsonModel::Text(effort_word(effort))),
            None => None,
        },
    )
}

/// The messages of a request, or why it is refused.
pub open spec fn request_messages(req: ChatRequest) -> Result<Seq<JsonModel>, ErrorModel> {
    all_messages(
        match req.system_prompt {
            Some(prompt) => Some(message::prompt_text(prompt@)),
            None => None,
        },
        message::message_models(req.messages@),
    )
}

/// The body of a request: its own entries, and over them those of `additional_params` where that
/// is an object.
pub open spec fn body_model(deployment: Seq<char>, req: ChatRequest) -> Result<JsonModel, ErrorModel> {
    match request_messages(req) {
        Ok(messages) => Ok(
            JsonModel::Object(
                json::merged(body_entries(deployment, req, messages), req.additional_params),
            ),
        ),
        Err(e) => Err(e),
    }
}

/// Builds the body of a Chat Completions request. The deployment goes in as the model.
pub fn build_body(deployment: &str, req: &ChatRequest) -> (r: Result<Json, AzureOpenAIError>)
    ensures
        body_model(deployment@, *req) == (match r {
            Ok(body) => Ok::<JsonModel, ErrorModel>(body@),
            Err(e) => Err(e@),
        }),
{
    let mut body = Json::empty_object();
    body.set("model", Json::text(deployment));
    body.set("stream", Json::flag(true));
    body.set("stream_options", json_object1("include_usage", Json::flag(true)));
    body.set("max_tokens", Json::number(req.max_tokens as u64));
    let messages = match &req.system_prompt {
        Some(prompt) => {
            let system_text = prompt.as_text();
            to_messages(Some(system_text.as_str()), &req.messages)
        },
        None => to_messages(None, &req.messages),
    };
    let messages = match messages {
        Ok(messages) => messages,
        Err(e) => {
            return Err(e);
        },
    };
    let ghost list = json::models(messages@);
    body.set("messages", Json::array(messages));
    if let Some(tools) = &req.tools {
        if tools.len() > 0 {
            body.set("tools", to_tools(tools));
        }
    }
    if let Some(t) = &req.temperature {
        body.set("temperature", Json::Number(t.clone()));
    }
    if let Some(p) = &req.top_p {
        body.set("top_p", Json::Number(p.clone()));
    }
    if req.stop_sequences.len() > 0 {
        body.set("stop", Json::texts(&req.stop_sequences));
    }
    if let Some(choice) = &req.tool_choice {
        body.set("tool_choice", to_chat_tool_choice(choice));
    }
    if let Some(disable) = req.disable_parallel_tool_use {
        body.set("parallel_tool_calls", Json::flag(!disable));
    }
    if let Some(effort) = req.reasoning_effort {
        body.set("reasoning_effort", Json::text(reasoning_effort_str(effort)));
    }
    assert(body@ == JsonModel::Object(body_entries(deployment@, *req, list)));
    body.merge(&req.additional_params);
    Ok(body)
}

/// Content that has no form on the wire: documents, images by file id, images in tool replies.
pub open spec fn unsupported_block(block: UserBlockModel) -> bool {
    match block {
        UserBlockModel::Text { .. } => false,
        UserBlockModel::Image { source, .. } => source is FileId,
        UserBlockModel::Document { .. } => true,
        UserBlockModel::ToolResult { content, .. } => has_image(content.blocks),
    }
}

/// Whether some user turn holds content that has no form on the wire.
pub open spec fn has_unsupported(messages: Seq<MessageModel>) -> bool {
    exists|i: int|
        0 <= i < messages.len() && #[trigger] messages[i] is User && has_unsupported_block(
            messages[i]->User_blocks,
        )
}

/// Whether some block of a user turn has no form on the wire.
pub open spec fn has_unsupported_block(blocks: Seq<UserBlockModel>) -> bool {
    exists|i: int| 0 <= i < blocks.len() && unsupported_block(#[trigger] blocks[i])
}

proof fn lemma_user_turn_refused(
    out: Seq<JsonModel>,
    parts: Seq<PartModel>,
    blocks: Seq<UserBlockModel>,
)
    ensures
        user_messages(out, parts, blocks) is Err <==> has_unsupported_block(blocks),
    decreases blocks.len(),
{
    if blocks.len() > 0 {
        let rest = blocks.subrange(1, blocks.len() as int);
        assert(forall|i: int| 0 <= i < rest.len() ==> rest[i] == #[trigger] blocks[i + 1]);
        assert(has_unsupported_block(rest) ==> has_unsupported_block(blocks));
        assert(has_unsupported_block(blocks) && !unsupported_block(blocks[0])
            ==> has_unsupported_block(rest)) by {
            if has_unsupported_block(blocks) && !unsupported_block(blocks[0]) {
                let i = choose|i: int| 0 <= i < blocks.len() && unsupported_block(#[trigger] blocks[i]);
                assert(rest[i - 1] == blocks[i]);
            }
        }
        match blocks[0] {
            UserBlockModel::Text { text, .. } => {
                lemma_user_turn_refused(out, parts.push(PartModel::Text(text)), rest);
            },
            UserBlockModel::Image { source, .. } => {
                if let Ok(url) = image_url(source) {
                    lemma_user_turn_refused(out, parts.push(PartModel::ImageUrl(url)), rest);
                }
            },
            UserBlockModel::Document { .. } => {},
            UserBlockModel::ToolResult { call_id, content, .. } => {
                lemma_user_turn_refused(
                    flushed(out, parts).push(tool_message(call_id, content)),
                    Seq::empty(),
                    rest,
                );
            },
        }
    }
}

proof fn lemma_history_refused(out: Seq<JsonModel>, messages: Seq<MessageModel>)
    ensures
        history_messages(out, messages) is Err <==> has_unsupported(messages),
    decreases messages.len(),
{
    if messages.len() > 0 {
        let rest = messages.subrange(1, messages.len() as int);
        assert(forall|i: int| 0 <= i < rest.len() ==> rest[i] == #[trigger] messages[i + 1]);
        let first_bad = messages[0] is User && has_unsupported_block(messages[0]->User_blocks);
        assert(has_unsupported(messages) && !first_bad ==> has_unsupported(rest)) by {
            if has_unsupported(messages) && !first_bad {
                let i = choose|i: int|
                    0 <= i < messages.len() && #[trigger] messages[i] is User
                        && has_unsupported_block(messages[i]->User_blocks);
                assert(rest[i - 1] == messages[i]);
            }
        }
        match messages[0] {
            MessageModel::User { blocks } => {
                lemma_user_turn_refused(out, Seq::empty(), blocks);
                if let Ok(next) = user_messages(out, Seq::empty(), blocks) {
                    lemma_history_refused(next, rest);
                }
            },
            MessageModel::Assistant { blocks } => {
                lemma_history_refused(out.push(assistant_message(blocks)), rest);
            },
        }
    }
}

/// A request is refused exactly where its history holds content that Chat Completions cannot
/// represent.
pub proof fn refused_iff_unsupported(deployment: Seq<char>, req: ChatRequest)
    ensures
        body_model(deployment, req) is Err <==> has_unsupported(message::message_models(req.messages@)),
{
    lemma_history_refused(
        match req.system_prompt {
            Some(prompt) => seq![
                object2(
                    "role"@,
                    JsonModel::Text("system"@),
                    "content"@,
                    JsonModel::Text(message::prompt_text(prompt@)),
                ),
            ],
            None => Seq::empty(),
        },
        message::message_models(req.messages@),
    );
}

/// Whether a block is visible or hidden reasoning.
pub open spec fn is_reasoning(block: AssistantBlockModel) -> bool {
    block is Reasoning || block is RedactedReasoning
}

/// Reasoning leaves no trace in an assistant message.
pub proof fn reasoning_is_dropped(blocks: Seq<AssistantBlockModel>)
    ensures
        assistant_message(blocks) == assistant_message(
            blocks.filter(|b: AssistantBlockModel| !is_reasoning(b)),
        ),
{
    lemma_reasoning_is_dropped(blocks);
}

proof fn lemma_reasoning_is_dropped(blocks: Seq<AssistantBlockModel>)
    ensures
        assistant_texts(blocks) == assistant_texts(
            blocks.filter(|b: AssistantBlockModel| !is_reasoning(b)),
        ),
        assistant_calls(blocks) == assistant_calls(
            blocks.filter(|b: AssistantBlockModel| !is_reasoning(b)),
        ),
    decreases blocks.len(),
{
    let keep = |b: AssistantBlockModel| !is_reasoning(b);
    reveal(Seq::filter);
    if blocks.len() > 0 {
        let rest = blocks.drop_last();
        lemma_reasoning_is_dropped(rest);
        let kept = rest.filter(keep);
        if keep(blocks.last()) {
            assert(blocks.filter(keep) == kept.push(blocks.last()));
            assert(kept.push(blocks.last()).drop_last() =~= kept);
        } else {
            assert(blocks.filter(keep) == kept);
        }
    }
}

} // verus!
