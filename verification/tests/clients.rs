use ailoop::anthropic::client::{AnthropicClient, AnthropicModel};
use ailoop::azure_openai::caching_provider::CachingTokenProvider;
use ailoop::azure_openai::client::{
    AzureOpenAIAuth, AzureOpenAIChatModel, AzureOpenAIClient, Credential,
};
use ailoop::azure_openai::errors::AzureOpenAIError;
use ailoop::duration::Duration;
use ailoop::json::Json;
use ailoop::message::{Message, Source, UserBlock};
use ailoop::request::ChatRequest;
use std::sync::Arc;

#[derive(Debug, Clone, PartialEq)]
struct StaticProvider(String);

fn pair(name: &str, value: &str) -> (String, String) {
    (name.to_string(), value.to_string())
}

#[test]
fn anthropic_requests_carry_key_version_and_features() {
    let client = AnthropicClient::new("k".to_string());
    let model: AnthropicModel = client.completion_model("m");
    assert_eq!(model.name(), "anthropic");
    assert_eq!(model.model(), "m");
    let post = model.post(&ChatRequest::new(vec![Message::user("hi")], 5));
    assert_eq!(post.url, "https://api.anthropic.com/v1/messages");
    assert_eq!(
        post.headers,
        vec![
            pair("x-api-key", "k"),
            pair("anthropic-version", "2023-06-01"),
            pair("content-type", "application/json"),
            pair("accept", "text/event-stream"),
        ]
    );
    assert_eq!(post.body.get("model"), Some(&Json::text("m")));
    let model = AnthropicClient::with_base_url("k", "https://proxy.example")
        .version("2024-01-01")
        .beta("a")
        .beta("b")
        .model("m");
    let post = model.post(&ChatRequest::new(vec![], 5));
    assert_eq!(post.url, "https://proxy.example");
    assert_eq!(post.headers[1], pair("anthropic-version", "2024-01-01"));
    assert_eq!(post.headers[4], pair("anthropic-beta", "a,b"));
}

#[test]
fn with_provider_wraps_concrete_type_in_arc() {
    let client = AzureOpenAIClient::with_provider(
        "https://x.openai.azure.com",
        StaticProvider("t".into()),
    );
    assert!(matches!(client.auth, AzureOpenAIAuth::Provider(_)));
    assert_eq!(client.auth.credential(), None);
}

#[test]
fn with_api_key_and_with_token_construct_correct_variants() {
    let by_key: AzureOpenAIClient<StaticProvider> =
        AzureOpenAIClient::with_api_key("https://x.openai.azure.com", "k");
    assert!(matches!(by_key.auth, AzureOpenAIAuth::ApiKey(_)));
    assert_eq!(
        by_key.auth.credential(),
        Some(Credential::ApiKey("k".into()))
    );

    let by_token: AzureOpenAIClient<StaticProvider> =
        AzureOpenAIClient::with_token("https://x.openai.azure.com", "t");
    assert!(matches!(by_token.auth, AzureOpenAIAuth::Token(_)));
    assert_eq!(
        by_token.auth.credential(),
        Some(Credential::Token("t".into()))
    );
}

#[test]
fn azure_requests_go_to_the_v1_address_with_their_credential() {
    let client: AzureOpenAIClient<StaticProvider> =
        AzureOpenAIClient::with_api_key("https://x.openai.azure.com//", "k");
    let model: AzureOpenAIChatModel<StaticProvider> = client.model("dep");
    assert_eq!(model.name(), "azure-openai");
    assert_eq!(model.model(), "dep");
    let credential = model.client().auth.credential().unwrap();
    let req = ChatRequest::new(vec![Message::user("hi")], 5);
    let post = model.post(&req, credential).unwrap();
    assert_eq!(
        post.url,
        "https://x.openai.azure.com/openai/v1/chat/completions"
    );
    assert_eq!(
        post.headers,
        vec![
            pair("content-type", "application/json"),
            pair("accept", "text/event-stream"),
            pair("api-key", "k"),
        ]
    );
    assert_eq!(post.body.get("model"), Some(&Json::text("dep")));
    let post = model.post(&req, Credential::Token("t".into())).unwrap();
    assert_eq!(post.headers[2], pair("Authorization", "Bearer t"));
    let req = ChatRequest::new(
        vec![Message::user_with_blocks(vec![UserBlock::document(
            Source::FileId { id: "f".into() },
        )])],
        5,
    );
    assert!(matches!(
        model.post(&req, Credential::Token("t".into())),
        Err(AzureOpenAIError::UnsupportedContent { kind: "document" })
    ));
}

fn from_env(
    endpoint: Option<&str>,
    key: Option<&str>,
    token: Option<&str>,
) -> Result<AzureOpenAIClient<StaticProvider>, String> {
    let own = |s: Option<&str>| s.map(|s| s.to_string());
    match AzureOpenAIClient::from_env_values(own(endpoint), own(key), own(token)) {
        Ok(client) => Ok(client),
        Err(AzureOpenAIError::Config(reason)) => Err(reason),
        Err(other) => panic!("expected Config error, got {other:?}"),
    }
}

#[test]
fn environment_needs_an_endpoint_and_one_secret() {
    let client = from_env(Some("e"), Some("k"), None).unwrap();
    assert_eq!(client.endpoint, "e");
    assert_eq!(client.auth, AzureOpenAIAuth::ApiKey("k".into()));
    let client = from_env(Some("e"), None, Some("t")).unwrap();
    assert_eq!(client.auth, AzureOpenAIAuth::Token("t".into()));
    assert_eq!(
        from_env(None, Some("k"), Some("t")).unwrap_err(),
        "AZURE_OPENAI_ENDPOINT is required"
    );
    assert_eq!(
        from_env(Some("e"), Some("k"), Some("t")).unwrap_err(),
        "AZURE_OPENAI_API_KEY and AZURE_OPENAI_TOKEN are mutually exclusive"
    );
    assert_eq!(
        from_env(Some("e"), None, None).unwrap_err(),
        "one of AZURE_OPENAI_API_KEY or AZURE_OPENAI_TOKEN is required"
    );
}

struct CountingProvider {
    calls: usize,
}

trait TokenSource {
    fn fetch(&self) -> Result<String, AzureOpenAIError>;
}

impl TokenSource for StaticProvider {
    fn fetch(&self) -> Result<String, AzureOpenAIError> {
        Ok(self.0.clone())
    }
}

struct FailingProvider;

impl TokenSource for FailingProvider {
    fn fetch(&self) -> Result<String, AzureOpenAIError> {
        Err(AzureOpenAIError::Config("fetch failed".into()))
    }
}

/// Asks for a token at a time, as a client does before every request.
fn token<P: TokenSource>(
    cache: &mut CachingTokenProvider<P>,
    counter: &mut CountingProvider,
    now: Duration,
) -> Result<String, AzureOpenAIError> {
    if let Some(token) = cache.cached_token(now) {
        return Ok(token);
    }
    counter.calls += 1;
    let fetched = cache.inner().fetch();
    cache.fetched(fetched, now)
}

#[test]
fn cache_hit_does_not_call_inner() {
    let mut cache = CachingTokenProvider::new(
        StaticProvider("tok-a".into()),
        Duration::from_secs(60),
        Duration::from_secs(0),
    );
    let mut counter = CountingProvider { calls: 0 };
    let first = token(&mut cache, &mut counter, Duration::from_secs(5)).unwrap();
    let second = token(&mut cache, &mut counter, Duration::from_secs(64)).unwrap();
    assert_eq!(first, "tok-a");
    assert_eq!(second, "tok-a");
    assert_eq!(counter.calls, 1);
}

#[test]
fn ttl_expiry_forces_refresh() {
    let mut cache = CachingTokenProvider::new(
        StaticProvider("tok-b".into()),
        Duration::from_millis(40),
        Duration::from_secs(0),
    );
    let mut counter = CountingProvider { calls: 0 };
    token(&mut cache, &mut counter, Duration::from_millis(0)).unwrap();
    assert_eq!(counter.calls, 1);
    token(&mut cache, &mut counter, Duration::from_millis(80)).unwrap();
    assert_eq!(counter.calls, 2);
    token(&mut cache, &mut counter, Duration::from_millis(119)).unwrap();
    assert_eq!(counter.calls, 2);
    token(&mut cache, &mut counter, Duration::from_millis(120)).unwrap();
    assert_eq!(counter.calls, 3);
}

#[test]
fn refresh_skew_advances_refresh() {
    let mut skewed = CachingTokenProvider::new(
        StaticProvider("tok-skew".into()),
        Duration::from_millis(200),
        Duration::from_millis(180),
    );
    let mut control = CachingTokenProvider::new(
        StaticProvider("tok-control".into()),
        Duration::from_millis(200),
        Duration::from_secs(0),
    );
    let mut skewed_calls = CountingProvider { calls: 0 };
    let mut control_calls = CountingProvider { calls: 0 };
    let start = Duration::from_millis(0);
    token(&mut skewed, &mut skewed_calls, start).unwrap();
    token(&mut control, &mut control_calls, start).unwrap();
    assert_eq!(skewed_calls.calls, 1);
    assert_eq!(control_calls.calls, 1);

    let later = Duration::from_millis(60);
    token(&mut skewed, &mut skewed_calls, later).unwrap();
    token(&mut control, &mut control_calls, later).unwrap();
    assert_eq!(
        skewed_calls.calls, 2,
        "skew should have shortened the window past the 60ms wait",
    );
    assert_eq!(
        control_calls.calls, 1,
        "control without skew should still be inside the 200ms window",
    );
}

#[test]
fn a_skew_beyond_the_life_of_a_token_serves_nothing() {
    let mut cache = CachingTokenProvider::new(
        StaticProvider("t".into()),
        Duration::from_secs(1),
        Duration::from_secs(2),
    );
    let now = Duration::from_secs(9);
    assert_eq!(cache.fetched(Ok("t".to_string()), now).unwrap(), "t");
    assert_eq!(cache.cached_token(now), None);
}

#[test]
fn inner_error_propagates_and_is_not_cached() {
    let mut cache = CachingTokenProvider::new(
        FailingProvider,
        Duration::from_secs(60),
        Duration::from_secs(0),
    );
    let mut counter = CountingProvider { calls: 0 };
    let now = Duration::from_secs(1);
    match token(&mut cache, &mut counter, now) {
        Err(AzureOpenAIError::Config(msg)) => assert!(msg.contains("fetch failed")),
        other => panic!("expected Config error, got {other:?}"),
    }
    assert_eq!(cache.cached_token(now), None);
    match token(&mut cache, &mut counter, now) {
        Err(AzureOpenAIError::Config(_)) => {}
        other => panic!("expected Config error, got {other:?}"),
    }
    assert_eq!(counter.calls, 2, "errors must not cache");
}

#[test]
fn caching_provider_plugs_into_with_provider() {
    let cached = CachingTokenProvider::new(
        StaticProvider("t".into()),
        Duration::from_secs(3600),
        Duration::from_secs(300),
    );
    let client = AzureOpenAIClient::with_provider("https://x.openai.azure.com", cached);
    assert!(matches!(client.auth, AzureOpenAIAuth::Provider(_)));

    let arc_cached: Arc<CachingTokenProvider<StaticProvider>> =
        Arc::new(CachingTokenProvider::new(
            StaticProvider("t".into()),
            Duration::from_secs(60),
            Duration::from_secs(5),
        ));
    let auth = AzureOpenAIAuth::Provider(arc_cached);
    assert!(matches!(auth, AzureOpenAIAuth::Provider(_)));
}
