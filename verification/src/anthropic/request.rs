//! Lowers a [`ChatRequest`] to the body of a Messages request.

use vstd::prelude::*;

use crate::duration::{Duration, NANOS_PER_SEC};
use crate::json::{self, Json, JsonModel};
use crate::message::{
    self, AssistantBlock, AssistantBlockModel, CacheControl, Message, MessageModel, Source,
    SourceModel, SystemBlock, SystemBlockModel, SystemPrompt, SystemPromptModel, ToolResultBlock,
    ToolResultBlockModel, ToolResultModel, UserBlock, UserBlockModel,
};
use crate::request::{ChatRequest, ReasoningEffort, ToolChoice, ToolDefinition};

verus! {

/// The entries of an object that so far only has its `type`.
pub open spec fn typed(kind: Seq<char>) -> Map<Seq<char>, JsonModel> {
    Map::empty().insert("type"@, JsonModel::Text(kind))
}

/// The distance of two counts.
pub open spec fn distance(a: int, b: int) -> int {
    if a < b {
        b - a
    } else {
        a - b
    }
}

/// The supported time to live nearest to a number of nanoseconds: five minutes or one hour.
pub open spec fn ttl_for(nanos: int) -> Seq<char> {
    if distance(nanos, 300 * NANOS_PER_SEC) <= distance(nanos, 3600 * NANOS_PER_SEC) {
        "5m"@
    } else {
        "1h"@
    }
}

/// The wire object of a cache breakpoint.
pub open spec fn cache_control_model(cc: CacheControl) -> JsonModel {
    match cc {
        CacheControl::Ephemeral => JsonModel::Object(typed("ephemeral"@)),
        CacheControl::EphemeralWithTtl(d) => JsonModel::Object(
            typed("ephemeral"@).insert(
                "ttl"@,
                JsonModel::Text(ttl_for(d@ as int)),
            ),
        ),
    }
}

/// An object with a cache breakpoint, where there is one.
pub open spec fn with_cache(
    m: Map<Seq<char>, JsonModel>,
    cc: Option<CacheControl>,
) -> Map<Seq<char>, JsonModel> {
    match cc {
        Some(c) => m.insert("cache_control"@, cache_control_model(c)),
        None => m,
    }
}

/// The wire object of a source.
pub open spec fn source_model(source: SourceModel) -> JsonModel {
    JsonModel::Object(
        match source {
            SourceModel::Base64 { media_type, data } => typed("base64"@).insert(
                "media_type"@,
                JsonModel::Text(media_type),
            ).insert("data"@, JsonModel::Text(data)),
            SourceModel::Url { url } => typed("url"@).insert("url"@, JsonModel::Text(url)),
            SourceModel::FileId { id } => typed("file"@).insert("file_id"@, JsonModel::Text(id)),
        },
    )
}

/// The wire object of one block of a tool reply.
pub open spec fn result_block_model(block: ToolResultBlockModel) -> JsonModel {
    JsonModel::Object(
        match block {
            ToolResultBlockModel::Text { text } => typed("text"@).insert(
                "text"@,
                JsonModel::Text(text),
            ),
            ToolResultBlockModel::Image { source } => typed("image"@).insert(
                "source"@,
                source_model(source),
            ),
        },
    )
}

/// The object of a tool reply without its cache breakpoint.
pub open spec fn tool_result_entries(
    call_id: Seq<char>,
    content: ToolResultModel,
) -> Map<Seq<char>, JsonModel> {
    let plain = typed("tool_result"@).insert("tool_use_id"@, JsonModel::Text(call_id)).insert(
        "content"@,
        JsonModel::Array(content.blocks.map_values(|b: ToolResultBlockModel| result_block_model(b))),
    );
    if content.is_error {
        plain.insert("is_error"@, JsonModel::Bool(true))
    } else {
        plain
    }
}

/// The wire object of a user block.
pub open spec fn user_block_model(block: UserBlockModel) -> JsonModel {
    JsonModel::Object(
        match block {
            UserBlockModel::Text { text, cache_control } => with_cache(
                typed("text"@).insert("text"@, JsonModel::Text(text)),
                cache_control,
            ),
            UserBlockModel::ToolResult { call_id, content, cache_control } => with_cache(
                tool_result_entries(call_id, content),
                cache_control,
            ),
            UserBlockModel::Image { source, cache_control } => with_cache(
                typed("image"@).insert("source"@, source_model(source)),
                cache_control,
            ),
            UserBlockModel::Document { source, cache_control } => with_cache(
                typed("document"@).insert("source"@, source_model(source)),
                cache_control,
            ),
        },
    )
}

/// The wire object of an assistant block. A missing signature is an empty one.
pub open spec fn assistant_block_model(block: AssistantBlockModel) -> JsonModel {
    JsonModel::Object(
        match block {
            AssistantBlockModel::Text { text, cache_control } => with_cache(
                typed("text"@).insert("text"@, JsonModel::Text(text)),
                cache_control,
            ),
            AssistantBlockModel::ToolCall { id, name, args, cache_control } => with_cache(
                typed("tool_use"@).insert("id"@, JsonModel::Text(id)).insert(
                    "name"@,
                    JsonModel::Text(name),
                ).insert("input"@, args),
                cache_control,
            ),
            AssistantBlockModel::Reasoning { text, signature } => typed("thinking"@).insert(
                "thinking"@,
                JsonModel::Text(text),
            ).insert(
                "signature"@,
                JsonModel::Text(
                    match signature {
                        Some(s) => s,
                        None => Seq::empty(),
                    },
                ),
            ),
            AssistantBlockModel::RedactedReasoning { data } => typed("redacted_thinking"@).insert(
                "data"@,
                JsonModel::Text(data),
            ),
        },
    )
}

/// The wire object of a message.
pub open spec fn message_model(message: MessageModel) -> JsonModel {
    JsonModel::Object(
        match message {
            MessageModel::User { blocks } => Map::empty().insert(
                "role"@,
                JsonModel::Text("user"@),
            ).insert(
                "content"@,
                JsonModel::Array(blocks.map_values(|b: UserBlockModel| user_block_model(b))),
            ),
            MessageModel::Assistant { blocks } => Map::empty().insert(
                "role"@,
                JsonModel::Text("assistant"@),
            ).insert(
                "content"@,
                JsonModel::Array(
                    blocks.map_values(|b: AssistantBlockModel| assistant_block_model(b)),
                ),
            ),
        },
    )
}

/// The wire object of a system prompt block.
pub open spec fn system_block_model(block: SystemBlockModel) -> JsonModel {
    JsonModel::Object(
        with_cache(
            typed("text"@).insert("text"@, JsonModel::Text(block.text)),
            block.cache_control,
        ),
    )
}

/// The wire value of a system prompt: a text, or a list of blocks.
pub open spec fn system_model(prompt: SystemPromptModel) -> JsonModel {
    match prompt {
        SystemPromptModel::Plain(s) => JsonModel::Text(s),
        SystemPromptModel::Blocks(blocks) => JsonModel::Array(
            blocks.map_values(|b: SystemBlockModel| system_block_model(b)),
        ),
    }
}

/// The wire object of a tool choice; without one it is `auto`.
pub open spec fn tool_choice_model(
    choice: Option<ToolChoice>,
    disable_parallel: Option<bool>,
) -> JsonModel {
    let m = match choice {
        None => typed("auto"@),
        Some(ToolChoice::Auto) => typed("auto"@),
        Some(ToolChoice::Any) => typed("any"@),
        Some(ToolChoice::Tool { name }) => typed("tool"@).insert("name"@, JsonModel::Text(name@)),
        Some(ToolChoice::None_) => typed("none"@),
    };
    JsonModel::Object(
        match disable_parallel {
            Some(flag) => m.insert("disable_parallel_tool_use"@, JsonModel::Bool(flag)),
            None => m,
        },
    )
}

/// Thinking with a budget of so many tokens.
pub open spec fn thinking_budget(n: u64) -> JsonModel {
    JsonModel::Object(
        typed("enabled"@).insert("budget_tokens"@, JsonModel::Number(json::json_number(n))),
    )
}

/// The wire object of a reasoning effort.
pub open spec fn thinking_model(effort: ReasoningEffort) -> JsonModel {
    match effort {
        ReasoningEffort::Minimal => JsonModel::Object(typed("disabled"@)),
        ReasoningEffort::Low => thinking_budget(1024),
        ReasoningEffort::Medium => thinking_budget(4096),
        ReasoningEffort::High => thinking_budget(16384),
        ReasoningEffort::Budget(n) => thinking_budget(n as u64),
    }
}

/// The wire object of a tool definition.
pub open spec fn tool_model(tool: ToolDefinition) -> JsonModel {
    JsonModel::Object(
        with_cache(
            Map::empty().insert("name"@, JsonModel::Text(tool.name@)).insert(
                "description"@,
                JsonModel::Text(tool.description@),
            ).insert("input_schema"@, tool.input_schema@),
            tool.cache_control,
        ),
    )
}

fn typed_object(kind: &str) -> (r: Json)
    ensures
        r@ == JsonModel::Object(typed(kind@)),
{
    let mut obj = Json::empty_object();
    obj.set("type", Json::text(kind));
    obj
}

fn nanos_apart(a: u128, b: u128) -> (r: u128)
    ensures
        r == distance(a as int, b as int),
{
    if a < b {
        b - a
    } else {
        a - b
    }
}

/// The wire name of the supported time to live nearest to a span.
pub fn ttl_string_for(d: Duration) -> (r: &'static str)
    ensures
        r@ == ttl_for(d@ as int),
{
    let nanos: u128 = d.as_nanos();
    if nanos_apart(nanos, 300_000_000_000) <= nanos_apart(nanos, 3_600_000_000_000) {
        "5m"
    } else {
        "1h"
    }
}

/// Encodes a cache breakpoint.
pub fn cache_control_value(cc: &CacheControl) -> (r: Json)
    ensures
        r@ == cache_control_model(*cc),
{
    let mut obj = typed_object("ephemeral");
    if let CacheControl::EphemeralWithTtl(d) = cc {
        obj.set("ttl", Json::text(ttl_string_for(*d)));
    }
    obj
}

fn insert_cache_control(obj: &mut Json, cc: Option<&CacheControl>)
    requires
        old(obj)@ is Object,
    ensures
        final(obj)@ == JsonModel::Object(
            with_cache(
                old(obj)@->Object_0,
                match cc {
                    Some(c) => Some(*c),
                    None => None,
                },
            ),
        ),
{
    if let Some(c) = cc {
        obj.set("cache_control", cache_control_value(c));
    }
}

/// Encodes a source.
pub fn to_anthropic_source(source: &Source) -> (r: Json)
    ensures
        r@ == source_model(source@),
{
    match source {
        Source::Base64 { media_type, data } => {
            let mut obj = typed_object("base64");
            obj.set("media_type", Json::text(media_type.as_str()));
            obj.set("data", Json::text(data.as_str()));
            obj
        },
        Source::Url { url } => {
            let mut obj = typed_object("url");
            obj.set("url", Json::text(url.as_str()));
            obj
        },
        Source::FileId { id } => {
            let mut obj = typed_object("file");
            obj.set("file_id", Json::text(id.as_str()));
            obj
        },
    }
}

/// Encodes one block of a tool reply.
pub fn to_anthropic_tool_result_block(block: &ToolResultBlock) -> (r: Json)
    ensures
        r@ == result_block_model(block@),
{
    match block {
        ToolResultBlock::Text { text } => {
            let mut obj = typed_object("text");
            obj.set("text", Json::text(text.as_str()));
            obj
        },
        ToolResultBlock::Image { source } => {
            let mut obj = typed_object("image");
            obj.set("source", to_anthropic_source(source));
            obj
        },
    }
}

/// Encodes the blocks of a tool reply.
fn result_blocks(items: &Vec<ToolResultBlock>) -> (r: Json)
    ensures
        r@ == JsonModel::Array(
            items@.map_values(|b: ToolResultBlock| b@).map_values(|b: ToolResultBlockModel| result_block_model(b)),
        ),
{
    let mut out: Vec<Json> = Vec::new();
    let mut i: usize = 0;
    while i < items.len()
        invariant
            i <= items.len(),
            out.len() == i,
            forall|k: int| 0 <= k < i ==> (#[trigger] out@[k])@ == result_block_model(items@[k]@),
        decreases items.len() - i,
    {
        out.push(to_anthropic_tool_result_block(&items[i]));
        i = i + 1;
    }
    assert(json::models(out@) =~= items@.map_values(|b: ToolResultBlock| b@).map_values(
        |b: ToolResultBlockModel| result_block_model(b),
    ));
    Json::array(out)
}

/// Encodes a user block.
pub fn to_anthropic_user_block(block: &UserBlock) -> (r: Json)
    ensures
        r@ == user_block_model(block@),
{
    match block {
        UserBlock::Text { text, cache_control } => {
            let mut obj = typed_object("text");
            obj.set("text", Json::text(text.as_str()));
            insert_cache_control(&mut obj, cache_control.as_ref());
            obj
        },
        UserBlock::ToolResult { call_id, content, cache_control } => {
            let mut obj = typed_object("tool_result");
            obj.set("tool_use_id", Json::text(call_id.as_str()));
            obj.set("content", result_blocks(&content.blocks));
            if content.is_error {
                obj.set("is_error", Json::flag(true));
            }
            assert(obj@ == JsonModel::Object(tool_result_entries(call_id@, content@)));
            insert_cache_control(&mut obj, cache_control.as_ref());
            obj
        },
        UserBlock::Image { source, cache_control } => {
            let mut obj = typed_object("image");
            obj.set("source", to_anthropic_source(source));
            insert_cache_control(&mut obj, cache_control.as_ref());
            obj
        },
        UserBlock::Document { source, cache_control } => {
            let mut obj = typed_object("document");
            obj.set("source", to_anthropic_source(source));
            insert_cache_control(&mut obj, cache_control.as_ref());
            obj
        },
    }
}

/// Encodes an assistant block.
pub fn to_anthropic_assistant_block(block: &AssistantBlock) -> (r: Json)
    ensures
        r@ == assistant_block_model(block@),
{
    match block {
        AssistantBlock::Text { text, cache_control } => {
            let mut obj = typed_object("text");
            obj.set("text", Json::text(text.as_str()));
            insert_cache_control(&mut obj, cache_control.as_ref());
            obj
        },
        AssistantBlock::ToolCall { id, name, args, cache_control } => {
            let mut obj = typed_object("tool_use");
            obj.set("id", Json::text(id.as_str()));
            obj.set("name", Json::text(name.as_str()));
            obj.set("input", args.clone());
            insert_cache_control(&mut obj, cache_control.as_ref());
            obj
        },
        AssistantBlock::Reasoning { text, signature } => {
            let mut obj = typed_object("thinking");
            obj.set("thinking", Json::text(text.as_str()));
            match signature {
                Some(s) => {
                    obj.set("signature", Json::text(s.as_str()));
                },
                None => {
                    obj.set("signature", Json::Text(String::new()));
                },
            }
            obj
        },
        AssistantBlock::RedactedReasoning { data } => {
            let mut obj = typed_object("redacted_thinking");
            obj.set("data", Json::text(data.as_str()));
            obj
        },
    }
}

/// Encodes the blocks of a user turn.
fn user_blocks(items: &Vec<UserBlock>) -> (r: Json)
    ensures
        r@ == JsonModel::Array(
            items@.map_values(|b: UserBlock| b@).map_values(|b: UserBlockModel| user_block_model(b)),
        ),
{
    let mut out: Vec<Json> = Vec::new();
    let mut i: usize = 0;
    while i < items.len()
        invariant
            i <= items.len(),
            out.len() == i,
            forall|k: int| 0 <= k < i ==> (#[trigger] out@[k])@ == user_block_model(items@[k]@),
        decreases items.len() - i,
    {
        out.push(to_anthropic_user_block(&items[i]));
        i = i + 1;
    }
    assert(json::models(out@) =~= items@.map_values(|b: UserBlock| b@).map_values(
        |b: UserBlockModel| user_block_model(b),
    ));
    Json::array(out)
}

/// Encodes the blocks of an assistant turn.
fn assistant_blocks(items: &Vec<AssistantBlock>) -> (r: Json)
    ensures
        r@ == JsonModel::Array(
            items@.map_values(|b: AssistantBlock| b@).map_values(|b: AssistantBlockModel| assistant_block_model(b)),
        ),
{
    let mut out: Vec<Json> = Vec::new();
    let mut i: usize = 0;
    while i < items.len()
        invariant
            i <= items.len(),
            out.len() == i,
            forall|k: int| 0 <= k < i ==> (#[trigger] out@[k])@ == assistant_block_model(items@[k]@),
        decreases items.len() - i,
    {
        out.push(to_anthropic_assistant_block(&items[i]));
        i = i + 1;
    }
    assert(json::models(out@) =~= items@.map_values(|b: AssistantBlock| b@).map_values(
        |b: AssistantBlockModel| assistant_block_model(b),
    ));
    Json::array(out)
}

/// Encodes a message.
pub fn to_anthropic_message(message: &Message) -> (r: Json)
    ensures
        r@ == message_model(message@),
{
    let mut obj = Json::empty_object();
    match message {
        Message::User { blocks } => {
            obj.set("role", Json::text("user"));
            obj.set("content", user_blocks(blocks));
        },
        Message::Assistant { blocks } => {
            obj.set("role", Json::text("assistant"));
            obj.set("content", assistant_blocks(blocks));
        },
    }
    obj
}

/// Encodes the history.
fn to_anthropic_messages(items: &Vec<Message>) -> (r: Json)
    ensures
        r@ == JsonModel::Array(
            items@.map_values(|b: Message| b@).map_values(|b: MessageModel| message_model(b)),
        ),
{
    let mut out: Vec<Json> = Vec::new();
    let mut i: usize = 0;
    while i < items.len()
        invariant
            i <= items.len(),
            out.len() == i,
            forall|k: int| 0 <= k < i ==> (#[trigger] out@[k])@ == message_model(items@[k]@),
        decreases items.len() - i,
    {
        out.push(to_anthropic_message(&items[i]));
        i = i + 1;
    }
    assert(json::models(out@) =~= items@.map_values(|b: Message| b@).map_values(
        |b: MessageModel| message_model(b),
    ));
    Json::array(out)
}

/// Encodes a block of the system prompt.
pub fn to_anthropic_system_block(block: &SystemBlock) -> (r: Json)
    ensures
        r@ == system_block_model(block@),
{
    let mut obj = typed_object("text");
    obj.set("text", Json::text(block.text.as_str()));
    insert_cache_control(&mut obj, block.cache_control.as_ref());
    obj
}

/// Encodes the blocks of the system prompt.
fn system_blocks(items: &Vec<SystemBlock>) -> (r: Json)
    ensures
        r@ == JsonModel::Array(
            items@.map_values(|b: SystemBlock| b@).map_values(|b: SystemBlockModel| system_block_model(b)),
        ),
{
    let mut out: Vec<Json> = Vec::new();
    let mut i: usize = 0;
    while i < items.len()
        invariant
            i <= items.len(),
            out.len() == i,
            forall|k: int| 0 <= k < i ==> (#[trigger] out@[k])@ == system_block_model(items@[k]@),
        decreases items.len() - i,
    {
        out.push(to_anthropic_system_block(&items[i]));
        i = i + 1;
    }
    assert(json::models(out@) =~= items@.map_values(|b: SystemBlock| b@).map_values(
        |b: SystemBlockModel| system_block_model(b),
    ));
    Json::array(out)
}

/// Encodes the system prompt.
pub fn to_anthropic_system(prompt: &SystemPrompt) -> (r: Json)
    ensures
        r@ == system_model(prompt@),
{
    match prompt {
        SystemPrompt::Plain(s) => Json::text(s.as_str()),
        SystemPrompt::Blocks(blocks) => system_blocks(blocks),
    }
}

/// Encodes the tool choice.
pub fn to_anthropic_tool_choice(choice: &Option<ToolChoice>, disable_parallel: Option<bool>) -> (r: Json)
    ensures
        r@ == tool_choice_model(*choice, disable_parallel),
{
    let mut obj = match choice {
        None => typed_object("auto"),
        Some(ToolChoice::Auto) => typed_object("auto"),
        Some(ToolChoice::Any) => typed_object("any"),
        Some(ToolChoice::Tool { name }) => {
            let mut obj = typed_object("tool");
            obj.set("name", Json::text(name.as_str()));
            obj
        },
        Some(ToolChoice::None_) => typed_object("none"),
    };
    if let Some(flag) = disable_parallel {
        obj.set("disable_parallel_tool_use", Json::flag(flag));
    }
    obj
}

/// Encodes a reasoning effort.
pub fn to_anthropic_thinking(effort: ReasoningEffort) -> (r: Json)
    ensures
        r@ == thinking_model(effort),
{
    let budget: u64 = match effort {
        ReasoningEffort::Minimal => {
            return typed_object("disabled");
        },
        ReasoningEffort::Low => 1024,
        ReasoningEffort::Medium => 4096,
        ReasoningEffort::High => 16384,
        ReasoningEffort::Budget(n) => n as u64,
    };
    let mut obj = typed_object("enabled");
    obj.set("budget_tokens", Json::number(budget));
    obj
}

fn to_anthropic_tool(tool: &ToolDefinition) -> (r: Json)
    ensures
        r@ == tool_model(*tool),
{
    let mut obj = Json::empty_object();
    obj.set("name", Json::text(tool.name.as_str()));
    obj.set("description", Json::text(tool.description.as_str()));
    obj.set("input_schema", tool.input_schema.clone());
    insert_cache_control(&mut obj, tool.cache_control.as_ref());
    obj
}

/// Encodes the tool definitions.
pub fn to_anthropic_tools(tools: &Vec<ToolDefinition>) -> (r: Json)
    ensures
        r@ == JsonModel::Array(tools@.map_values(|t: ToolDefinition| tool_model(t))),
{
    let mut out: Vec<Json> = Vec::new();
    let mut i: usize = 0;
    while i < tools.len()
        invariant
            i <= tools.len(),
            out.len() == i,
            forall|k: int| 0 <= k < i ==> (#[trigger] out@[k])@ == tool_model(tools@[k]),
        decreases tools.len() - i,
    {
        out.push(to_anthropic_tool(&tools[i]));
        i = i + 1;
    }
    assert(json::models(out@) =~= tools@.map_values(|t: ToolDefinition| tool_model(t)));
    Json::array(out)
}

/// The entries that the request sets itself.
pub open spec fn body_entries(model: Seq<char>, req: ChatRequest) -> Map<Seq<char>, JsonModel> {
    let m = Map::empty().insert("model"@, JsonModel::Text(model)).insert(
        "max_tokens"@,
        JsonModel::Number(json::json_number(req.max_tokens as u64)),
    ).insert("stream"@, JsonModel::Bool(true)).insert(
        "messages"@,
        JsonModel::Array(
            message::message_models(req.messages@).map_values(|m: MessageModel| message_model(m)),
        ),
    );
    let m = json::opt_insert(
        m,
        "system"@,
        match req.system_prompt {
            Some(prompt) => Some(system_model(prompt@)),
            None => None,
        },
    );
    let m = json::opt_insert(
        m,
        "tools"@,
        match req.tools {
            Some(tools) => if tools@.len() > 0 {
                Some(JsonModel::Array(tools@.map_values(|t: ToolDefinition| tool_model(t))))
            } else {
                None
            },
            None => None,
        },
    );
    let m = json::opt_insert(
        m,
        "temperature"@,
        match req.temperature {
            Some(t) => Some(JsonModel::Number(t)),
            None => None,
        },
    );
    let m = json::opt_insert(
        m,
        "top_p"@,
        match req.top_p {
            Some(p) => Some(JsonModel::Number(p)),
            None => None,
        },
    );
    let m = json::opt_insert(
        m,
        "top_k"@,
        match req.top_k {
            Some(k) => Some(JsonModel::Number(json::json_number(k as u64))),
            None => None,
        },
    );
    let m = json::opt_insert(
        m,
        "stop_sequences"@,
        if req.stop_sequences@.len() > 0 {
            Some(JsonModel::Array(req.stop_sequences@.map_values(|s: String| JsonModel::Text(s@))))
        } else {
            None
        },
    );
    let m = json::opt_insert(
        m,
        "tool_choice"@,
        if req.tool_choice is Some || req.disable_parallel_tool_use is Some {
            Some(tool_choice_model(req.tool_choice, req.disable_parallel_tool_use))
        } else {
            None
        },
    );
    json::opt_insert(
        m,
        "thinking"@,
        match req.reasoning_effort {
            Some(effort) => Some(thinking_model(effort)),
            None => None,
        },
    )
}

/// The body of a request: its own entries, and over them those of `additional_params` where that
/// is an object.
pub open spec fn body_model(model: Seq<char>, req: ChatRequest) -> JsonModel {
    JsonModel::Object(json::merged(body_entries(model, req), req.additional_params))
}

/// Builds the body of a Messages request.
pub fn build_body(model: &str, req: &ChatRequest) -> (r: Json)
    ensures
        r@ == body_model(model@, *req),
{
    let mut body = Json::empty_object();
    body.set("model", Json::text(model));
    body.set("max_tokens", Json::number(req.max_tokens as u64));
    body.set("stream", Json::flag(true));
    body.set("messages", to_anthropic_messages(&req.messages));
    if let Some(system) = &req.system_prompt {
        body.set("system", to_anthropic_system(system));
    }
    if let Some(tools) = &req.tools {
        if tools.len() > 0 {
            body.set("tools", to_anthropic_tools(tools));
        }
    }
    if let Some(t) = &req.temperature {
        body.set("temperature", Json::Number(t.clone()));
    }
    if let Some(p) = &req.top_p {
        body.set("top_p", Json::Number(p.clone()));
    }
    if let Some(k) = req.top_k {
        body.set("top_k", Json::number(k as u64));
    }
    if req.stop_sequences.len() > 0 {
        body.set("stop_sequences", Json::texts(&req.stop_sequences));
    }
    // The flag lives inside the tool choice, so it brings one along.
    if req.tool_choice.is_some() || req.disable_parallel_tool_use.is_some() {
        body.set(
            "tool_choice",
            to_anthropic_tool_choice(&req.tool_choice, req.disable_parallel_tool_use),
        );
    }
    if let Some(effort) = req.reasoning_effort {
        body.set("thinking", to_anthropic_thinking(effort));
    }
    assert(body@ == JsonModel::Object(body_entries(model@, *req)));
    body.merge(&req.additional_params);
    body
}

} // verus!
