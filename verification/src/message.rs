//! Conversation messages: [`Message`], its blocks, and the system prompt.

use vstd::prelude::*;

use crate::duration::Duration;
use crate::json::{Json, JsonModel};
use crate::text::{self, join};

verus! {

/// Cache breakpoint on a content block, system prompt block or tool definition. Providers
/// without explicit caching ignore it.
#[derive(Debug, Clone, Copy, PartialEq, Eq, Structural)]
pub enum CacheControl {
    /// Ephemeral cache with the provider's default time to live.
    Ephemeral,
    /// Ephemeral cache with an explicit time to live.
    EphemeralWithTtl(Duration),
}

/// One turn in the conversation history.
#[derive(Debug, PartialEq)]
pub enum Message {
    /// A user-authored turn: free text, tool results from the previous step, or a mix.
    User { blocks: Vec<UserBlock> },
    /// A turn produced by the model. Tool results are in the next `User` turn.
    Assistant { blocks: Vec<AssistantBlock> },
}

/// One block inside a [`Message::User`] turn.
#[derive(Debug, PartialEq)]
pub enum UserBlock {
    /// Free user text.
    Text { text: String, cache_control: Option<CacheControl> },
    /// Result of the tool call with the id `call_id`.
    ToolResult {
        call_id: String,
        content: ToolResultContent,
        cache_control: Option<CacheControl>,
    },
    /// Inline image.
    Image { source: Source, cache_control: Option<CacheControl> },
    /// Inline document.
    Document { source: Source, cache_control: Option<CacheControl> },
}

/// One block inside a [`Message::Assistant`] turn.
#[derive(Debug, PartialEq)]
pub enum AssistantBlock {
    /// Visible text.
    Text { text: String, cache_control: Option<CacheControl> },
    /// A tool invocation request.
    ToolCall { id: String, name: String, args: Json, cache_control: Option<CacheControl> },
    /// Visible reasoning with the provider's signature, replayed verbatim.
    Reasoning { text: String, signature: Option<String> },
    /// Reasoning that the provider hides, replayed verbatim.
    RedactedReasoning { data: String },
}

/// Source of an image or document.
#[derive(Debug, PartialEq, Eq)]
pub enum Source {
    /// Inline base64-encoded bytes.
    Base64 { media_type: String, data: String },
    /// External URL that the provider fetches.
    Url { url: String },
    /// Provider-side file id.
    FileId { id: String },
}

/// One block of a tool reply.
#[derive(Debug, PartialEq)]
pub enum ToolResultBlock {
    Text { text: String },
    Image { source: Source },
}

/// Body of a tool reply: blocks and the flag of a tool-reported failure.
#[derive(Debug, PartialEq)]
pub struct ToolResultContent {
    pub blocks: Vec<ToolResultBlock>,
    pub is_error: bool,
}

/// System prompt passed to the provider.
#[derive(Debug, Clone)]
pub enum SystemPrompt {
    /// A single text.
    Plain(String),
    /// Blocks with optional cache breakpoints.
    Blocks(Vec<SystemBlock>),
}

/// One block of a [`SystemPrompt`].
#[derive(Debug, Clone)]
pub struct SystemBlock {
    pub text: String,
    pub cache_control: Option<CacheControl>,
}

/// What a [`Source`] says.
pub enum SourceModel {
    Base64 { media_type: Seq<char>, data: Seq<char> },
    Url { url: Seq<char> },
    FileId { id: Seq<char> },
}

impl View for Source {
    type V = SourceModel;

    open spec fn view(&self) -> SourceModel {
        match *self {
            Source::Base64 { media_type, data } => SourceModel::Base64 {
                media_type: media_type@,
                data: data@,
            },
            Source::Url { url } => SourceModel::Url { url: url@ },
            Source::FileId { id } => SourceModel::FileId { id: id@ },
        }
    }
}

/// What a [`ToolResultBlock`] says.
pub enum ToolResultBlockModel {
    Text { text: Seq<char> },
    Image { source: SourceModel },
}

impl View for ToolResultBlock {
    type V = ToolResultBlockModel;

    open spec fn view(&self) -> ToolResultBlockModel {
        match *self {
            ToolResultBlock::Text { text } => ToolResultBlockModel::Text { text: text@ },
            ToolResultBlock::Image { source } => ToolResultBlockModel::Image { source: source@ },
        }
    }
}

/// What a [`ToolResultContent`] says.
#[verifier::ext_equal]
pub struct ToolResultModel {
    pub blocks: Seq<ToolResultBlockModel>,
    pub is_error: bool,
}

impl View for ToolResultContent {
    type V = ToolResultModel;

    open spec fn view(&self) -> ToolResultModel {
        ToolResultModel {
            blocks: self.blocks@.map_values(|b: ToolResultBlock| b@),
            is_error: self.is_error,
        }
    }
}

/// What a [`UserBlock`] says.
pub enum UserBlockModel {
    Text { text: Seq<char>, cache_control: Option<CacheControl> },
    ToolResult {
        call_id: Seq<char>,
        content: ToolResultModel,
        cache_control: Option<CacheControl>,
    },
    Image { source: SourceModel, cache_control: Option<CacheControl> },
    Document { source: SourceModel, cache_control: Option<CacheControl> },
}

impl View for UserBlock {
    type V = UserBlockModel;

    open spec fn view(&self) -> UserBlockModel {
        match *self {
            UserBlock::Text { text, cache_control } => UserBlockModel::Text {
                text: text@,
                cache_control,
            },
            UserBlock::ToolResult { call_id, content, cache_control } => UserBlockModel::ToolResult {
                call_id: call_id@,
                content: content@,
                cache_control,
            },
            UserBlock::Image { source, cache_control } => UserBlockModel::Image {
                source: source@,
                cache_control,
            },
            UserBlock::Document { source, cache_control } => UserBlockModel::Document {
                source: source@,
                cache_control,
            },
        }
    }
}

/// What an [`AssistantBlock`] says.
pub enum AssistantBlockModel {
    Text { text: Seq<char>, cache_control: Option<CacheControl> },
    ToolCall {
        id: Seq<char>,
        name: Seq<char>,
        args: JsonModel,
        cache_control: Option<CacheControl>,
    },
    Reasoning { text: Seq<char>, signature: Option<Seq<char>> },
    RedactedReasoning { data: Seq<char> },
}

impl View for AssistantBlock {
    type V = AssistantBlockModel;

    open spec fn view(&self) -> AssistantBlockModel {
        match *self {
            AssistantBlock::Text { text, cache_control } => AssistantBlockModel::Text {
                text: text@,
                cache_control,
            },
            AssistantBlock::ToolCall { id, name, args, cache_control } => AssistantBlockModel::ToolCall {
                id: id@,
                name: name@,
                args: args@,
                cache_control,
            },
            AssistantBlock::Reasoning { text, signature } => AssistantBlockModel::Reasoning {
                text: text@,
                signature: text::opt_text(signature),
            },
            AssistantBlock::RedactedReasoning { data } => AssistantBlockModel::RedactedReasoning {
                data: data@,
            },
        }
    }
}

/// What a [`Message`] says.
pub enum MessageModel {
    User { blocks: Seq<UserBlockModel> },
    Assistant { blocks: Seq<AssistantBlockModel> },
}

impl View for Message {
    type V = MessageModel;

    open spec fn view(&self) -> MessageModel {
        match *self {
            Message::User { blocks } => MessageModel::User {
                blocks: blocks@.map_values(|b: UserBlock| b@),
            },
            Message::Assistant { blocks } => MessageModel::Assistant {
                blocks: blocks@.map_values(|b: AssistantBlock| b@),
            },
        }
    }
}

/// What a list of messages says.
pub open spec fn message_models(messages: Seq<Message>) -> Seq<MessageModel> {
    messages.map_values(|m: Message| m@)
}

/// What a [`SystemBlock`] says.
pub struct SystemBlockModel {
    pub text: Seq<char>,
    pub cache_control: Option<CacheControl>,
}

impl View for SystemBlock {
    type V = SystemBlockModel;

    open spec fn view(&self) -> SystemBlockModel {
        SystemBlockModel { text: self.text@, cache_control: self.cache_control }
    }
}

/// What a [`SystemPrompt`] says.
pub enum SystemPromptModel {
    Plain(Seq<char>),
    Blocks(Seq<SystemBlockModel>),
}

impl View for SystemPrompt {
    type V = SystemPromptModel;

    open spec fn view(&self) -> SystemPromptModel {
        match *self {
            SystemPrompt::Plain(s) => SystemPromptModel::Plain(s@),
            SystemPrompt::Blocks(blocks) => SystemPromptModel::Blocks(
                blocks@.map_values(|b: SystemBlock| b@),
            ),
        }
    }
}

impl Clone for Source {
    fn clone(&self) -> (r: Self)
        ensures
            r@ == self@,
    {
        match self {
            Source::Base64 { media_type, data } => Source::Base64 {
                media_type: media_type.clone(),
                data: data.clone(),
            },
            Source::Url { url } => Source::Url { url: url.clone() },
            Source::FileId { id } => Source::FileId { id: id.clone() },
        }
    }
}

impl Clone for ToolResultBlock {
    fn clone(&self) -> (r: Self)
        ensures
            r@ == self@,
    {
        match self {
            ToolResultBlock::Text { text } => ToolResultBlock::Text { text: text.clone() },
            ToolResultBlock::Image { source } => ToolResultBlock::Image { source: source.clone() },
        }
    }
}

fn clone_result_blocks(items: &Vec<ToolResultBlock>) -> (r: Vec<ToolResultBlock>)
    ensures
        r@.map_values(|b: ToolResultBlock| b@) == items@.map_values(|b: ToolResultBlock| b@),
{
    let mut out: Vec<ToolResultBlock> = Vec::new();
    let mut i: usize = 0;
    while i < items.len()
        invariant
            i <= items.len(),
            out.len() == i,
            forall|k: int| 0 <= k < i ==> (#[trigger] out@[k])@ == items@[k]@,
        decreases items.len() - i,
    {
        out.push(items[i].clone());
        i = i + 1;
    }
    assert(out@.map_values(|b: ToolResultBlock| b@) =~= items@.map_values(|b: ToolResultBlock| b@));
    out
}

impl Clone for ToolResultContent {
    fn clone(&self) -> (r: Self)
        ensures
            r@ == self@,
    {
        ToolResultContent { blocks: clone_result_blocks(&self.blocks), is_error: self.is_error }
    }
}

impl Clone for UserBlock {
    fn clone(&self) -> (r: Self)
        ensures
            r@ == self@,
    {
        match self {
            UserBlock::Text { text, cache_control } => UserBlock::Text {
                text: text.clone(),
                cache_control: *cache_control,
            },
            UserBlock::ToolResult { call_id, content, cache_control } => UserBlock::ToolResult {
                call_id: call_id.clone(),
                content: content.clone(),
                cache_control: *cache_control,
            },
            UserBlock::Image { source, cache_control } => UserBlock::Image {
                source: source.clone(),
                cache_control: *cache_control,
            },
            UserBlock::Document { source, cache_control } => UserBlock::Document {
                source: source.clone(),
                cache_control: *cache_control,
            },
        }
    }
}

impl Clone for AssistantBlock {
    fn clone(&self) -> (r: Self)
        ensures
            r@ == self@,
    {
        match self {
            AssistantBlock::Text { text, cache_control } => AssistantBlock::Text {
                text: text.clone(),
                cache_control: *cache_control,
            },
            AssistantBlock::ToolCall { id, name, args, cache_control } => AssistantBlock::ToolCall {
                id: id.clone(),
                name: name.clone(),
                args: args.clone(),
                cache_control: *cache_control,
            },
            AssistantBlock::Reasoning { text, signature } => AssistantBlock::Reasoning {
                text: text.clone(),
                signature: match signature {
                    Some(s) => Some(s.clone()),
                    None => None,
                },
            },
            AssistantBlock::RedactedReasoning { data } => AssistantBlock::RedactedReasoning {
                data: data.clone(),
            },
        }
    }
}

fn clone_user_blocks(items: &Vec<UserBlock>) -> (r: Vec<UserBlock>)
    ensures
        r@.map_values(|b: UserBlock| b@) == items@.map_values(|b: UserBlock| b@),
{
    let mut out: Vec<UserBlock> = Vec::new();
    let mut i: usize = 0;
    while i < items.len()
        invariant
            i <= items.len(),
            out.len() == i,
            forall|k: int| 0 <= k < i ==> (#[trigger] out@[k])@ == items@[k]@,
        decreases items.len() - i,
    {
        out.push(items[i].clone());
        i = i + 1;
    }
    assert(out@.map_values(|b: UserBlock| b@) =~= items@.map_values(|b: UserBlock| b@));
    out
}

fn clone_assistant_blocks(items: &Vec<AssistantBlock>) -> (r: Vec<AssistantBlock>)
    ensures
        r@.map_values(|b: AssistantBlock| b@) == items@.map_values(|b: AssistantBlock| b@),
{
    let mut out: Vec<AssistantBlock> = Vec::new();
    let mut i: usize = 0;
    while i < items.len()
        invariant
            i <= items.len(),
            out.len() == i,
            forall|k: int| 0 <= k < i ==> (#[trigger] out@[k])@ == items@[k]@,
        decreases items.len() - i,
    {
        out.push(items[i].clone());
        i = i + 1;
    }
    assert(out@.map_values(|b: AssistantBlock| b@) =~= items@.map_values(|b: AssistantBlock| b@));
    out
}

impl Clone for Message {
    fn clone(&self) -> (r: Self)
        ensures
            r@ == self@,
    {
        match self {
            Message::User { blocks } => Message::User { blocks: clone_user_blocks(blocks) },
            Message::Assistant { blocks } => Message::Assistant {
                blocks: clone_assistant_blocks(blocks),
            },
        }
    }
}

/// Copies a list of messages.
pub fn clone_messages(messages: &Vec<Message>) -> (r: Vec<Message>)
    ensures
        message_models(r@) == message_models(messages@),
{
    let mut out: Vec<Message> = Vec::new();
    let mut i: usize = 0;
    while i < messages.len()
        invariant
            i <= messages.len(),
            out.len() == i,
            forall|k: int| 0 <= k < i ==> (#[trigger] out@[k])@ == messages@[k]@,
        decreases messages.len() - i,
    {
        out.push(messages[i].clone());
        i = i + 1;
    }
    assert(message_models(out@) =~= message_models(messages@));
    out
}

impl Message {
    /// A user turn with a single text block.
    pub fn user(text: &str) -> (r: Message)
        ensures
            r@ == (MessageModel::User {
                blocks: seq![UserBlockModel::Text { text: text@, cache_control: None }],
            }),
    {
        let mut blocks: Vec<UserBlock> = Vec::new();
        blocks.push(UserBlock::text(text));
        let r = Message::User { blocks };
        assert(r@->User_blocks =~= seq![UserBlockModel::Text { text: text@, cache_control: None }]);
        r
    }

    /// A user turn of arbitrary blocks.
    pub fn user_with_blocks(blocks: Vec<UserBlock>) -> (r: Message)
        ensures
            r == (Message::User { blocks }),
    {
        Message::User { blocks }
    }

    /// An assistant turn with a single text block.
    pub fn assistant_text(text: &str) -> (r: Message)
        ensures
            r@ == (MessageModel::Assistant {
                blocks: seq![AssistantBlockModel::Text { text: text@, cache_control: None }],
            }),
    {
        let mut blocks: Vec<AssistantBlock> = Vec::new();
        blocks.push(AssistantBlock::text(text));
        let r = Message::Assistant { blocks };
        assert(r@->Assistant_blocks =~= seq![
            AssistantBlockModel::Text { text: text@, cache_control: None },
        ]);
        r
    }
}

/// A user block with its cache breakpoint replaced.
pub open spec fn user_block_with_cache(
    block: UserBlockModel,
    cache_control: Option<CacheControl>,
) -> UserBlockModel {
    match block {
        UserBlockModel::Text { text, .. } => UserBlockModel::Text { text, cache_control },
        UserBlockModel::ToolResult { call_id, content, .. } => UserBlockModel::ToolResult {
            call_id,
            content,
            cache_control,
        },
        UserBlockModel::Image { source, .. } => UserBlockModel::Image { source, cache_control },
        UserBlockModel::Document { source, .. } => UserBlockModel::Document {
            source,
            cache_control,
        },
    }
}

/// The cache breakpoint of a user block.
pub open spec fn user_block_cache(block: UserBlockModel) -> Option<CacheControl> {
    match block {
        UserBlockModel::Text { cache_control, .. } => cache_control,
        UserBlockModel::ToolResult { cache_control, .. } => cache_control,
        UserBlockModel::Image { cache_control, .. } => cache_control,
        UserBlockModel::Document { cache_control, .. } => cache_control,
    }
}

impl UserBlock {
    /// A text block without a cache breakpoint.
    pub fn text(text: &str) -> (r: Self)
        ensures
            r@ == (UserBlockModel::Text { text: text@, cache_control: None }),
    {
        UserBlock::Text { text: text.to_owned(), cache_control: None }
    }

    /// A tool result block without a cache breakpoint.
    pub fn tool_result(call_id: &str, content: ToolResultContent) -> (r: Self)
        ensures
            r@ == (UserBlockModel::ToolResult {
                call_id: call_id@,
                content: content@,
                cache_control: None,
            }),
    {
        UserBlock::ToolResult { call_id: call_id.to_owned(), content, cache_control: None }
    }

    /// An image block without a cache breakpoint.
    pub fn image(source: Source) -> (r: Self)
        ensures
            r@ == (UserBlockModel::Image { source: source@, cache_control: None }),
    {
        UserBlock::Image { source, cache_control: None }
    }

    /// A document block without a cache breakpoint.
    pub fn document(source: Source) -> (r: Self)
        ensures
            r@ == (UserBlockModel::Document { source: source@, cache_control: None }),
    {
        UserBlock::Document { source, cache_control: None }
    }

    /// Sets, replaces or clears the cache breakpoint.
    pub fn with_cache_control(self, cache_control: Option<CacheControl>) -> (r: Self)
        ensures
            r@ == user_block_with_cache(self@, cache_control),
    {
        match self {
            UserBlock::Text { text, .. } => UserBlock::Text { text, cache_control },
            UserBlock::ToolResult { call_id, content, .. } => UserBlock::ToolResult {
                call_id,
                content,
                cache_control,
            },
            UserBlock::Image { source, .. } => UserBlock::Image { source, cache_control },
            UserBlock::Document { source, .. } => UserBlock::Document { source, cache_control },
        }
    }

    /// The current cache breakpoint.
    pub fn cache_control(&self) -> (r: Option<&CacheControl>)
        ensures
            r is Some <==> user_block_cache(self@) is Some,
            r matches Some(c) ==> user_block_cache(self@) == Some(*c),
    {
        match self {
            UserBlock::Text { cache_control, .. } => cache_control.as_ref(),
            UserBlock::ToolResult { cache_control, .. } => cache_control.as_ref(),
            UserBlock::Image { cache_control, .. } => cache_control.as_ref(),
            UserBlock::Document { cache_control, .. } => cache_control.as_ref(),
        }
    }
}

/// An assistant block with its cache breakpoint replaced; reasoning carries none.
pub open spec fn assistant_block_with_cache(
    block: AssistantBlockModel,
    cache_control: Option<CacheControl>,
) -> AssistantBlockModel {
    match block {
        AssistantBlockModel::Text { text, .. } => AssistantBlockModel::Text { text, cache_control },
        AssistantBlockModel::ToolCall { id, name, args, .. } => AssistantBlockModel::ToolCall {
            id,
            name,
            args,
            cache_control,
        },
        other => other,
    }
}

/// The cache breakpoint of an assistant block.
pub open spec fn assistant_block_cache(block: AssistantBlockModel) -> Option<CacheControl> {
    match block {
        AssistantBlockModel::Text { cache_control, .. } => cache_control,
        AssistantBlockModel::ToolCall { cache_control, .. } => cache_control,
        _ => None,
    }
}

impl AssistantBlock {
    /// A text block without a cache breakpoint.
    pub fn text(text: &str) -> (r: Self)
        ensures
            r@ == (AssistantBlockModel::Text { text: text@, cache_control: None }),
    {
        AssistantBlock::Text { text: text.to_owned(), cache_control: None }
    }

    /// A tool call block without a cache breakpoint.
    pub fn tool_call(id: &str, name: &str, args: Json) -> (r: Self)
        ensures
            r@ == (AssistantBlockModel::ToolCall {
                id: id@,
                name: name@,
                args: args@,
                cache_control: None,
            }),
    {
        AssistantBlock::ToolCall {
            id: id.to_owned(),
            name: name.to_owned(),
            args,
            cache_control: None,
        }
    }

    /// Sets, replaces or clears the cache breakpoint; reasoning blocks stay as they are.
    pub fn with_cache_control(self, cache_control: Option<CacheControl>) -> (r: Self)
        ensures
            r@ == assistant_block_with_cache(self@, cache_control),
    {
        match self {
            AssistantBlock::Text { text, .. } => AssistantBlock::Text { text, cache_control },
            AssistantBlock::ToolCall { id, name, args, .. } => AssistantBlock::ToolCall {
                id,
                name,
                args,
                cache_control,
            },
            other => other,
        }
    }

    /// The current cache breakpoint; `None` for reasoning.
    pub fn cache_control(&self) -> (r: Option<&CacheControl>)
        ensures
            r is Some <==> assistant_block_cache(self@) is Some,
            r matches Some(c) ==> assistant_block_cache(self@) == Some(*c),
    {
        match self {
            AssistantBlock::Text { cache_control, .. } => cache_control.as_ref(),
            AssistantBlock::ToolCall { cache_control, .. } => cache_control.as_ref(),
            _ => None,
        }
    }
}

impl ToolResultBlock {
    /// A text block.
    pub fn text(text: &str) -> (r: Self)
        ensures
            r@ == (ToolResultBlockModel::Text { text: text@ }),
    {
        ToolResultBlock::Text { text: text.to_owned() }
    }

    /// An image block.
    pub fn image(source: Source) -> (r: Self)
        ensures
            r@ == (ToolResultBlockModel::Image { source: source@ }),
    {
        ToolResultBlock::Image { source }
    }
}

/// The texts of a tool reply's text blocks, in order.
pub open spec fn block_texts(blocks: Seq<ToolResultBlockModel>) -> Seq<Seq<char>>
    decreases blocks.len(),
{
    if blocks.len() == 0 {
        Seq::empty()
    } else {
        let before = block_texts(blocks.drop_last());
        match blocks.last() {
            ToolResultBlockModel::Text { text } => before.push(text),
            ToolResultBlockModel::Image { .. } => before,
        }
    }
}

/// Whether the `is_error` flag is left out of a persisted reply.
pub fn is_false(b: &bool) -> (r: bool)
    ensures
        r == !*b,
{
    !*b
}

impl ToolResultContent {
    /// A successful reply of one text.
    pub fn text(text: &str) -> (r: Self)
        ensures
            r@ == (ToolResultModel {
                blocks: seq![ToolResultBlockModel::Text { text: text@ }],
                is_error: false,
            }),
    {
        let mut blocks: Vec<ToolResultBlock> = Vec::new();
        blocks.push(ToolResultBlock::text(text));
        ToolResultContent { blocks, is_error: false }
    }

    /// A failing reply of one text.
    pub fn error(text: &str) -> (r: Self)
        ensures
            r@ == (ToolResultModel {
                blocks: seq![ToolResultBlockModel::Text { text: text@ }],
                is_error: true,
            }),
    {
        let mut blocks: Vec<ToolResultBlock> = Vec::new();
        blocks.push(ToolResultBlock::text(text));
        ToolResultContent { blocks, is_error: true }
    }

    /// A successful reply of one image.
    pub fn image(source: Source) -> (r: Self)
        ensures
            r@ == (ToolResultModel {
                blocks: seq![ToolResultBlockModel::Image { source: source@ }],
                is_error: false,
            }),
    {
        let mut blocks: Vec<ToolResultBlock> = Vec::new();
        blocks.push(ToolResultBlock::image(source));
        ToolResultContent { blocks, is_error: false }
    }

    /// A successful reply of arbitrary blocks.
    pub fn from_blocks(blocks: Vec<ToolResultBlock>) -> (r: Self)
        ensures
            r == (ToolResultContent { blocks, is_error: false }),
    {
        ToolResultContent { blocks, is_error: false }
    }

    /// Sets the failure flag.
    pub fn with_is_error(self, is_error: bool) -> (r: Self)
        ensures
            r == (ToolResultContent { blocks: self.blocks, is_error }),
    {
        ToolResultContent { blocks: self.blocks, is_error }
    }

    /// The first text of the reply.
    pub fn as_text(&self) -> (r: Option<&str>)
        ensures
            r is Some <==> block_texts(self@.blocks).len() > 0,
            r matches Some(s) ==> s@ == block_texts(self@.blocks)[0],
    {
        let mut first: Option<&str> = None;
        let mut i: usize = 0;
        while i < self.blocks.len()
            invariant
                i <= self.blocks@.len(),
                first is Some <==> block_texts(self@.blocks.take(i as int)).len() > 0,
                first matches Some(s) ==> s@ == block_texts(self@.blocks.take(i as int))[0],
            decreases self.blocks.len() - i,
        {
            assert(self@.blocks.take(i as int + 1).drop_last() =~= self@.blocks.take(i as int));
            if let ToolResultBlock::Text { text } = &self.blocks[i] {
                if first.is_none() {
                    first = Some(text.as_str());
                }
            }
            i = i + 1;
        }
        assert(self@.blocks.take(i as int) =~= self@.blocks);
        first
    }

    /// All texts of the reply, one to a line; empty for a reply without text.
    pub fn collect_text(&self) -> (r: String)
        ensures
            r@ == text::join_text(block_texts(self@.blocks), "\n"@),
    {
        let mut parts: Vec<String> = Vec::new();
        let mut i: usize = 0;
        assert(text::texts(parts@) =~= block_texts(self@.blocks.take(0)));
        while i < self.blocks.len()
            invariant
                i <= self.blocks@.len(),
                text::texts(parts@) == block_texts(self@.blocks.take(i as int)),
            decreases self.blocks.len() - i,
        {
            let ghost before = parts@;
            assert(self@.blocks.take(i as int + 1).drop_last() =~= self@.blocks.take(i as int));
            if let ToolResultBlock::Text { text } = &self.blocks[i] {
                parts.push(text.clone());
                assert(text::texts(parts@) =~= text::texts(before).push(text@));
            }
            i = i + 1;
        }
        assert(self@.blocks.take(i as int) =~= self@.blocks);
        join(&parts, "\n")
    }
}

impl SystemBlock {
    /// A block without a cache breakpoint.
    pub fn new(text: &str) -> (r: Self)
        ensures
            r@ == (SystemBlockModel { text: text@, cache_control: None }),
    {
        SystemBlock { text: text.to_owned(), cache_control: None }
    }

    /// Attaches a cache breakpoint.
    pub fn with_cache_control(self, cache_control: CacheControl) -> (r: Self)
        ensures
            r@ == (SystemBlockModel { text: self@.text, cache_control: Some(cache_control) }),
    {
        SystemBlock { text: self.text, cache_control: Some(cache_control) }
    }
}

/// The prompt as one text: blocks are separated by an empty line.
pub open spec fn prompt_text(prompt: SystemPromptModel) -> Seq<char> {
    match prompt {
        SystemPromptModel::Plain(s) => s,
        SystemPromptModel::Blocks(blocks) => text::join_text(
            blocks.map_values(|b: SystemBlockModel| b.text),
            "\n\n"@,
        ),
    }
}

impl SystemPrompt {
    /// The whole prompt as one text.
    pub fn as_text(&self) -> (r: String)
        ensures
            r@ == prompt_text(self@),
    {
        match self {
            SystemPrompt::Plain(s) => s.clone(),
            SystemPrompt::Blocks(blocks) => {
                let mut parts: Vec<String> = Vec::new();
                let mut i: usize = 0;
                while i < blocks.len()
                    invariant
                        i <= blocks@.len(),
                        parts.len() == i,
                        forall|k: int| 0 <= k < i ==> (#[trigger] parts@[k])@ == blocks@[k].text@,
                    decreases blocks.len() - i,
                {
                    parts.push(blocks[i].text.clone());
                    i = i + 1;
                }
                assert(text::texts(parts@) =~= self@->Blocks_0.map_values(
                    |b: SystemBlockModel| b.text,
                ));
                join(&parts, "\n\n")
            },
        }
    }
}

impl From<String> for SystemPrompt {
    fn from(value: String) -> (r: Self) {
        SystemPrompt::Plain(value)
    }
}

impl vstd::std_specs::convert::FromSpecImpl<String> for SystemPrompt {
    open spec fn obeys_from_spec() -> bool {
        true
    }

    open spec fn from_spec(value: String) -> Self {
        SystemPrompt::Plain(value)
    }
}

impl From<&str> for SystemPrompt {
    fn from(value: &str) -> (r: Self)
        ensures
            r@ == SystemPromptModel::Plain(value@),
    {
        SystemPrompt::Plain(value.to_owned())
    }
}

impl vstd::std_specs::convert::FromSpecImpl<&str> for SystemPrompt {
    open spec fn obeys_from_spec() -> bool {
        false
    }

    open spec fn from_spec(value: &str) -> Self {
        arbitrary()
    }
}

impl From<String> for ToolResultContent {
    fn from(value: String) -> (r: Self)
        ensures
            r@ == (ToolResultModel {
                blocks: seq![ToolResultBlockModel::Text { text: value@ }],
                is_error: false,
            }),
    {
        ToolResultContent::text(value.as_str())
    }
}

impl vstd::std_specs::convert::FromSpecImpl<String> for ToolResultContent {
    open spec fn obeys_from_spec() -> bool {
        false
    }

    open spec fn from_spec(value: String) -> Self {
        arbitrary()
    }
}

impl From<&str> for ToolResultContent {
    fn from(value: &str) -> (r: Self)
        ensures
            r@ == (ToolResultModel {
                blocks: seq![ToolResultBlockModel::Text { text: value@ }],
                is_error: false,
            }),
    {
        ToolResultContent::text(value)
    }
}

impl vstd::std_specs::convert::FromSpecImpl<&str> for ToolResultContent {
    open spec fn obeys_from_spec() -> bool {
        false
    }

    open spec fn from_spec(value: &str) -> Self {
        arbitrary()
    }
}

impl From<&str> for Message {
    fn from(value: &str) -> (r: Self)
        ensures
            r@ == (MessageModel::User {
                blocks: seq![UserBlockModel::Text { text: value@, cache_control: None }],
            }),
    {
        Message::user(value)
    }
}

impl vstd::std_specs::convert::FromSpecImpl<&str> for Message {
    open spec fn obeys_from_spec() -> bool {
        false
    }

    open spec fn from_spec(value: &str) -> Self {
        arbitrary()
    }
}

impl From<String> for Message {
    fn from(value: String) -> (r: Self)
        ensures
            r@ == (MessageModel::User {
                blocks: seq![UserBlockModel::Text { text: value@, cache_control: None }],
            }),
    {
        Message::user(value.as_str())
    }
}

impl vstd::std_specs::convert::FromSpecImpl<String> for Message {
    open spec fn obeys_from_spec() -> bool {
        false
    }

    open spec fn from_spec(value: String) -> Self {
        arbitrary()
    }
}

impl From<UserBlock> for Message {
    fn from(value: UserBlock) -> (r: Self)
        ensures
            r@ == (MessageModel::User { blocks: seq![value@] }),
    {
        let mut blocks: Vec<UserBlock> = Vec::new();
        blocks.push(value);
        assert(blocks@.map_values(|b: UserBlock| b@) =~= seq![value@]);
        Message::User { blocks }
    }
}

impl vstd::std_specs::convert::FromSpecImpl<UserBlock> for Message {
    open spec fn obeys_from_spec() -> bool {
        false
    }

    open spec fn from_spec(value: UserBlock) -> Self {
        arbitrary()
    }
}

impl From<Vec<UserBlock>> for Message {
    fn from(value: Vec<UserBlock>) -> (r: Self) {
        Message::User { blocks: value }
    }
}

impl vstd::std_specs::convert::FromSpecImpl<Vec<UserBlock>> for Message {
    open spec fn obeys_from_spec() -> bool {
        true
    }

    open spec fn from_spec(value: Vec<UserBlock>) -> Self {
        Message::User { blocks: value }
    }
}

} // verus!
