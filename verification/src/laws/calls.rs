//! How calls of the library relate: what one is given, another finds.

use vstd::prelude::*;

use super::anthropic_request as messages_requests;
use super::wire;
use crate::anthropic::client::{AnthropicClient, AnthropicModel};
use crate::anthropic::errors::AnthropicError;
use crate::anthropic::events::AnthropicBlock;
use crate::anthropic::request as anthropic_requests;
use crate::azure_openai::client::{
    AzureOpenAIAuth, AzureOpenAIChatModel, AzureOpenAIClient, Credential,
};
use crate::azure_openai::errors::AzureOpenAIError;
use crate::compaction::CompactionStrategy;
use crate::context_manager::{ContextManager, ContextManagerBuilder, FromMessagesError};
use crate::duration::Duration;
use crate::http::{self, HttpPost};
use crate::json::{Json, JsonModel};
use crate::mcp::connection::{McpConnection, McpConnectionBuilder, McpError, ServerLaunch};
use crate::mcp::tool::{CallOutcome, CallRequest, McpTool};
use crate::message::{
    self, AssistantBlock, AssistantBlockModel, CacheControl, Message, ToolResultBlockModel,
    ToolResultContent, UserBlock, UserBlockModel,
};
use crate::prompt::{Prompt, PromptBuilder, PromptSection};
use crate::request::ChatRequest;
use crate::retry::{RetryClassification, Retryable};
use crate::text;
use crate::tokenizer::Tokenizer;

verus! {

/// A span of seconds is as long as one of a thousand times as many milliseconds, and that as one of
/// a million times as many nanoseconds. Whole seconds and nanoseconds are read back as they went in.
pub proof fn units_of_time_agree(
    secs: u64,
    millis: u64,
    nanos: u64,
    a: Duration,
    b: Duration,
    c: Duration,
    whole: u64,
    exact: u128,
)
    requires
        call_ensures(Duration::from_secs, (secs,), a),
        call_ensures(Duration::from_millis, (millis,), b),
        call_ensures(Duration::from_nanos, (nanos,), c),
        call_ensures(Duration::as_secs, (&a,), whole),
        call_ensures(Duration::as_nanos, (&c,), exact),
    ensures
        millis == 1000 * secs ==> a@ == b@,
        nanos == 1_000_000 * millis ==> b@ == c@,
        nanos == 1_000_000_000 * secs ==> a@ == c@,
        whole == secs,
        exact == nanos,
{
    assert(secs * 1_000_000_000 / 1_000_000_000 == secs) by (nonlinear_arith);
}

/// Decoding a tool call block gives its id, its name and its input, each as the document says it
/// under that name.
pub proof fn tool_use_blocks_are_read(
    document: Json,
    id: String,
    name: String,
    input: Json,
    block: Option<AnthropicBlock>,
)
    requires
        wire::lays_out(
            document@,
            seq![
                ("type"@, JsonModel::Text("tool_use"@)),
                ("id"@, JsonModel::Text(id@)),
                ("name"@, JsonModel::Text(name@)),
                ("input"@, input@),
            ],
        ),
        call_ensures(AnthropicBlock::from_json, (&document,), block),
    ensures
        block matches Some(AnthropicBlock::ToolUse { id: i, name: n, input: x }) && i@ == id@ && n@
            == name@ && x@ == input@,
{
    super::anthropic_decode::tool_use_blocks_decode(
        document@,
        id,
        name,
        input,
        crate::anthropic::stream::fresh_turn(),
        0,
    );
}

/// The wire object that a tool call is encoded as holds its id, its name and its arguments.
pub proof fn tool_calls_are_encoded(id: String, name: String, args: Json, block: AssistantBlock, r: Json)
    requires
        block matches AssistantBlock::ToolCall { id: i, name: n, args: x, .. } && i == id && n
            == name && x == args,
        call_ensures(anthropic_requests::to_anthropic_assistant_block, (&block,), r),
    ensures
        wire::word(r@, "id"@) == Some(id@),
        wire::word(r@, "name"@) == Some(name@),
        wire::entry(r@, "input"@) == Some(args@),
{
    messages_requests::assistant_blocks_read_back(block@);
}

/// A failure in transport is worth a repeat at any time, of either provider.
pub proof fn transport_failures_are_transient(
    reason: String,
    a: RetryClassification,
    b: RetryClassification,
)
    requires
        call_ensures(AnthropicError::retry_classification, (&AnthropicError::Http(reason),), a),
        call_ensures(AzureOpenAIError::retry_classification, (&AzureOpenAIError::Http(reason),), b),
    ensures
        a == (RetryClassification::Transient { retry_after: None }),
        b == (RetryClassification::Transient { retry_after: None }),
{
    assert(AnthropicError::Http(reason)@ == crate::anthropic::errors::ErrorModel::Http(reason@));
}

/// The breakpoint that is set on a block is the one found there, and the block says what it said.
pub proof fn breakpoints_are_found(
    user: UserBlock,
    assistant: AssistantBlock,
    cc: Option<CacheControl>,
    u: UserBlock,
    a: AssistantBlock,
    found: Option<&CacheControl>,
    seen: Option<&CacheControl>,
)
    requires
        call_ensures(UserBlock::with_cache_control, (user, cc), u),
        call_ensures(AssistantBlock::with_cache_control, (assistant, cc), a),
        call_ensures(UserBlock::cache_control, (&u,), found),
        call_ensures(AssistantBlock::cache_control, (&a,), seen),
    ensures
        found is Some <==> cc is Some,
        found matches Some(c) ==> cc == Some(*c),
        u@ == messages_requests::user_block_at(user@, cc),
        a@ == messages_requests::assistant_block_at(assistant@, cc),
        assistant is Text || assistant is ToolCall ==> (seen is Some <==> cc is Some),
        assistant is Text || assistant is ToolCall ==> (seen matches Some(c) ==> cc == Some(*c)),
        assistant is Reasoning || assistant is RedactedReasoning ==> seen is None,
{
}

/// A reply of one text has that text, as its first and as all of its text, and is a failure exactly
/// where it was made as one.
pub proof fn replies_hold_their_text(
    s: &str,
    good: ToolResultContent,
    bad: ToolResultContent,
    first: Option<&str>,
    all: String,
    flag: bool,
    flagged: ToolResultContent,
)
    requires
        call_ensures(ToolResultContent::text, (s,), good),
        call_ensures(ToolResultContent::error, (s,), bad),
        call_ensures(ToolResultContent::as_text, (&good,), first),
        call_ensures(ToolResultContent::collect_text, (&good,), all),
        call_ensures(ToolResultContent::with_is_error, (good, flag), flagged),
    ensures
        first matches Some(t) && t@ == s@,
        all@ == s@,
        !good.is_error,
        bad.is_error,
        bad@.blocks == good@.blocks,
        flagged.is_error == flag,
        flagged@.blocks == good@.blocks,
{
    reveal_with_fuel(message::block_texts, 2);
    let blocks = seq![ToolResultBlockModel::Text { text: s@ }];
    assert(blocks.drop_last() =~= Seq::empty());
    assert(good@.blocks == blocks);
    assert(message::block_texts(blocks) =~= seq![s@]);
}

/// A turn of one text is that text, of the user or of the assistant.
pub proof fn turns_hold_their_text(s: &str, user: Message, assistant: Message)
    requires
        call_ensures(Message::user, (s,), user),
        call_ensures(Message::assistant_text, (s,), assistant),
    ensures
        user matches Message::User { blocks } && blocks@.len() == 1 && blocks@[0]@ == (
        UserBlockModel::Text { text: s@, cache_control: None }),
        assistant matches Message::Assistant { blocks } && blocks@.len() == 1 && blocks@[0]@ == (
        AssistantBlockModel::Text { text: s@, cache_control: None }),
{
    if let Message::User { blocks } = user {
        let said = blocks@.map_values(|b: UserBlock| b@);
        assert(said == seq![UserBlockModel::Text { text: s@, cache_control: None }]);
        assert(blocks@.len() == said.len());
        assert(said[0] == blocks@[0]@);
    }
    if let Message::Assistant { blocks } = assistant {
        let said = blocks@.map_values(|b: AssistantBlock| b@);
        assert(said == seq![AssistantBlockModel::Text { text: s@, cache_control: None }]);
        assert(blocks@.len() == said.len());
        assert(said[0] == blocks@[0]@);
    }
}

/// A prompt that is assembled from sections has them in order and renders them so.
pub proof fn prompts_are_assembled(
    a: PromptSection,
    b: PromptSection,
    begun: PromptBuilder,
    one: PromptBuilder,
    two: PromptBuilder,
    prompt: Prompt,
    rendered: String,
)
    requires
        call_ensures(Prompt::builder, (), begun),
        call_ensures(PromptBuilder::section, (begun, a), one),
        call_ensures(PromptBuilder::section, (one, b), two),
        call_ensures(PromptBuilder::build, (two,), prompt),
        call_ensures(Prompt::render, (&prompt,), rendered),
    ensures
        prompt@ == seq![a@, b@],
        rendered@ == crate::prompt::rendered(seq![a@]) + crate::prompt::rendered(seq![b@]),
{
    assert(prompt@ =~= seq![a@, b@]);
    assert(seq![a@, b@] =~= seq![a@] + seq![b@]);
    crate::prompt::rendering_splits(seq![a@], seq![b@]);
}

/// A section has the name and the content that it was made with.
pub proof fn sections_hold_what_they_are_given(
    name: &str,
    content: &str,
    section: PromptSection,
    plain: PromptSection,
    n: Option<&str>,
    m: Option<&str>,
    c: &str,
)
    requires
        call_ensures(PromptSection::with_name, (name, content), section),
        call_ensures(PromptSection::new, (content,), plain),
        call_ensures(PromptSection::name, (&section,), n),
        call_ensures(PromptSection::name, (&plain,), m),
        call_ensures(PromptSection::content, (&section,), c),
    ensures
        n matches Some(s) && s@ == name@,
        m is None,
        c@ == content@,
        plain@.content == content@,
{
}

/// A manager that is restored has the messages and the pins that it was given, one pin each, and
/// what is beyond the end is not pinned. The budget is reached at its very number of tokens.
pub proof fn managers_hold_what_they_are_given<T: Tokenizer, S: CompactionStrategy>(
    builder: ContextManagerBuilder<T, S>,
    messages: Vec<Message>,
    pinned: Vec<bool>,
    restored: Result<ContextManager<T, S>, FromMessagesError>,
    idx: usize,
    pin: bool,
    estimated: usize,
    full: bool,
)
    requires
        call_ensures(
            ContextManager::<T, S>::from_messages,
            (builder, messages, pinned),
            restored,
        ),
        restored matches Ok(manager) ==> call_ensures(
            ContextManager::<T, S>::is_pinned,
            (&manager, idx),
            pin,
        ) && call_ensures(
            ContextManager::<T, S>::needs_compaction,
            (&manager, estimated),
            full,
        ),
    ensures
        restored is Ok <==> messages@.len() == pinned@.len(),
        restored matches Ok(manager) ==> {
            &&& manager@.messages == message::message_models(messages@)
            &&& manager@.pinned == pinned@
            &&& idx < pinned@.len() ==> pin == pinned@[idx as int]
            &&& idx >= pinned@.len() ==> !pin
            &&& full <==> estimated >= builder@.max_tokens
        },
{
}

/// A model's request goes to its account's address, under the name of the model, with the account's
/// headers, whatever beta features and version were asked for.
pub proof fn requests_go_to_the_account(
    api_key: &str,
    base_url: &str,
    version: &str,
    feature: &str,
    name: &str,
    fresh: AnthropicClient,
    dated: AnthropicClient,
    client: AnthropicClient,
    model: AnthropicModel,
    req: ChatRequest,
    post: HttpPost,
)
    requires
        call_ensures(AnthropicClient::with_base_url, (api_key, base_url), fresh),
        call_ensures(AnthropicClient::version, (fresh, version), dated),
        call_ensures(AnthropicClient::beta, (dated, feature), client),
        call_ensures(AnthropicClient::model, (client, name), model),
        call_ensures(AnthropicModel::post, (&model, &req), post),
    ensures
        post.url@ == base_url@,
        post.body@ == anthropic_requests::body_model(name@, req),
        super::accounts::has_header(http::header_texts(post.headers@), "x-api-key"@, api_key@),
        super::accounts::has_header(
            http::header_texts(post.headers@),
            "anthropic-version"@,
            version@,
        ),
        super::accounts::has_header(
            http::header_texts(post.headers@),
            "anthropic-beta"@,
            feature@,
        ),
{
    super::accounts::clients_send_their_headers(client@);
    assert(client@.beta_features =~= seq![feature@]);
}

/// A deployment's request goes to its account's endpoint, under the name of the deployment, with the
/// credential of the account.
pub proof fn requests_go_to_the_deployment<P>(
    endpoint: &str,
    key: &str,
    deployment: &str,
    client: AzureOpenAIClient<P>,
    model: AzureOpenAIChatModel<P>,
    credential: Credential,
    req: ChatRequest,
    sent: Result<HttpPost, AzureOpenAIError>,
)
    requires
        endpoint@.len() == 0 || endpoint@.last() != '/',
        call_ensures(AzureOpenAIClient::<P>::with_api_key, (endpoint, key), client),
        call_ensures(AzureOpenAIAuth::<P>::credential, (&client.auth,), Some(credential)),
        call_ensures(AzureOpenAIClient::<P>::model, (client, deployment), model),
        call_ensures(AzureOpenAIChatModel::<P>::post, (&model, &req, credential), sent),
    ensures
        sent matches Ok(post) ==> {
            &&& post.url@ == endpoint@ + "/openai/v1/chat/completions"@
            &&& super::accounts::has_header(
                http::header_texts(post.headers@),
                "api-key"@,
                key@,
            )
            &&& crate::azure_openai::request::body_model(deployment@, req) == Ok::<
                JsonModel,
                crate::azure_openai::errors::ErrorModel,
            >(post.body@)
        },
{
    super::accounts::endpoint_slashes_do_not_matter(endpoint@, 0);
    assert(endpoint@ + Seq::new(0, |i: int| '/') =~= endpoint@);
    if let Credential::ApiKey(k) = credential {
        super::accounts::credentials_are_sent(k, k);
    }
}

/// What a server is started with is what its builder was given: label, program, arguments and
/// variables in order. Without a program there is nothing to start.
pub proof fn servers_start_as_configured(
    label: &str,
    cmd: &str,
    args: Vec<String>,
    key: &str,
    val: &str,
    begun: McpConnectionBuilder,
    with_args: McpConnectionBuilder,
    with_env: McpConnectionBuilder,
    ready: McpConnectionBuilder,
    idle: Result<ServerLaunch, McpError>,
    started: Result<ServerLaunch, McpError>,
)
    requires
        call_ensures(McpConnection::builder, (label,), begun),
        call_ensures(McpConnectionBuilder::args, (begun, args), with_args),
        call_ensures(McpConnectionBuilder::env, (with_args, key, val), with_env),
        call_ensures(McpConnectionBuilder::command, (with_env, cmd), ready),
        call_ensures(McpConnectionBuilder::launch, (with_env,), idle),
        call_ensures(McpConnectionBuilder::launch, (ready,), started),
    ensures
        idle is Err,
        started matches Ok(launch) && launch.server_label@ == label@ && launch.command@ == cmd@
            && launch.args == args && launch.envs@.len() == 1 && launch.envs@[0].0@ == key@
            && launch.envs@[0].1@ == val@,
{
}

/// A call goes to the server under the server's own name for the tool, with the arguments as they
/// are where they are an object. The reply is a failure where the server says so or was not reached.
pub proof fn calls_go_through(
    tool: McpTool,
    args: Json,
    request: CallRequest,
    answer: CallOutcome,
    reason: String,
    reached: ToolResultContent,
    lost: ToolResultContent,
)
    requires
        call_ensures(McpTool::request, (&tool, args), request),
        call_ensures(McpTool::reply, (Ok::<CallOutcome, String>(answer),), reached),
        call_ensures(McpTool::reply, (Err::<CallOutcome, String>(reason),), lost),
    ensures
        request.name@ == tool.name_at_server@,
        args@ is Object ==> request.arguments == Some(args),
        !(args@ is Object) ==> request.arguments is None,
        reached.is_error <==> answer.is_error == Some(true),
        reached@.blocks == seq![
            ToolResultBlockModel::Text {
                text: crate::mcp::content::answer_text(answer.content@),
            },
        ],
        lost.is_error,
        lost@.blocks.len() == 1,
        lost@.blocks[0] matches ToolResultBlockModel::Text { text } && text::has_part(
            text,
            reason@,
        ),
{
    let said = "MCP transport error: "@ + reason@;
    super::texts::parts_are_found(said, reason@, "MCP transport error: "@, Seq::empty());
    assert(said + Seq::<char>::empty() =~= said);
}

/// A request that only has a history and a cap has just these.
pub proof fn requests_hold_what_they_are_given(messages: Vec<Message>, cap: u32, req: ChatRequest)
    requires
        call_ensures(ChatRequest::new, (messages, cap), req),
    ensures
        req.messages == messages,
        req.max_tokens == cap,
        req.system_prompt is None && req.tools is None && req.tool_choice is None,
        req.temperature is None && req.top_p is None && req.top_k is None,
        req.stop_sequences@.len() == 0 && req.disable_parallel_tool_use is None,
        req.reasoning_effort is None && req.additional_params is None,
{
}

} // verus!
