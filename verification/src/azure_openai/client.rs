//! Where and how requests are sent.

use vstd::prelude::*;
use vstd::string::*;

use super::errors::{AzureOpenAIError, ErrorModel};
use super::request::{self, build_body};
use crate::http::{self, push_header, HttpPost};
use crate::json::JsonModel;
use crate::request::ChatRequest;
use crate::text::{chars_of, text_of};

verus! {

/// Environment variable that holds the endpoint.
pub const ENDPOINT_ENV: &'static str = "AZURE_OPENAI_ENDPOINT";

/// Environment variable that holds a key.
pub const API_KEY_ENV: &'static str = "AZURE_OPENAI_API_KEY";

/// Environment variable that holds a token.
pub const TOKEN_ENV: &'static str = "AZURE_OPENAI_TOKEN";

/// How requests are authenticated.
#[derive(Debug, Clone, PartialEq, Eq)]
pub enum AzureOpenAIAuth<P> {
    ApiKey(String),
    /// A fixed token.
    Token(String),
    /// A token that is fetched for every request.
    Provider(P),
}

/// What proves who sends a request.
#[derive(Debug, Clone, PartialEq, Eq)]
pub enum Credential {
    ApiKey(String),
    Token(String),
}

/// An account at an endpoint.
#[derive(Debug)]
pub struct AzureOpenAIClient<P> {
    pub endpoint: String,
    pub auth: AzureOpenAIAuth<P>,
}

/// A text without the slashes at its end.
pub open spec fn without_end_slashes(s: Seq<char>) -> Seq<char>
    decreases s.len(),
{
    if s.len() > 0 && s.last() == '/' {
        without_end_slashes(s.drop_last())
    } else {
        s
    }
}

/// The address of Chat Completions at an endpoint.
pub open spec fn chat_url(endpoint: Seq<char>) -> Seq<char> {
    without_end_slashes(endpoint) + "/openai/v1/chat/completions"@
}

/// The headers of a request.
pub open spec fn request_headers(credential: Credential) -> Seq<(Seq<char>, Seq<char>)> {
    seq![
        ("content-type"@, "application/json"@),
        ("accept"@, "text/event-stream"@),
        match credential {
            Credential::ApiKey(key) => ("api-key"@, key@),
            Credential::Token(token) => ("Authorization"@, "Bearer "@ + token@),
        },
    ]
}

/// The account that environment variables describe, or why they describe none: an endpoint is
/// needed, and one of a key and a token.
pub open spec fn is_from_env<P>(
    endpoint: Option<String>,
    api_key: Option<String>,
    token: Option<String>,
    result: Result<AzureOpenAIClient<P>, AzureOpenAIError>,
) -> bool {
    match (endpoint, api_key, token) {
        (None, _, _) => result matches Err(e) && e@ == ErrorModel::Config(
            "AZURE_OPENAI_ENDPOINT is required"@,
        ),
        (Some(_), Some(_), Some(_)) => result matches Err(e) && e@ == ErrorModel::Config(
            "AZURE_OPENAI_API_KEY and AZURE_OPENAI_TOKEN are mutually exclusive"@,
        ),
        (Some(_), None, None) => result matches Err(e) && e@ == ErrorModel::Config(
            "one of AZURE_OPENAI_API_KEY or AZURE_OPENAI_TOKEN is required"@,
        ),
        (Some(endpoint), Some(key), None) => result matches Ok(client) && client == (
        AzureOpenAIClient { endpoint, auth: AzureOpenAIAuth::<P>::ApiKey(key) }),
        (Some(endpoint), None, Some(token)) => result matches Ok(client) && client == (
        AzureOpenAIClient { endpoint, auth: AzureOpenAIAuth::<P>::Token(token) }),
    }
}

fn trim_end_slashes(s: &str) -> (r: String)
    ensures
        r@ == without_end_slashes(s@),
{
    let chars = chars_of(s);
    let mut n: usize = chars.len();
    assert(chars@.take(n as int) =~= chars@);
    while n > 0 && chars[n - 1] == '/'
        invariant
            n <= chars@.len(),
            chars@ == s@,
            without_end_slashes(s@) == without_end_slashes(chars@.take(n as int)),
        decreases n,
    {
        assert(chars@.take(n as int).drop_last() =~= chars@.take(n as int - 1));
        n = n - 1;
    }
    let r = text_of(&chars, 0, n);
    assert(r@ =~= chars@.take(n as int));
    r
}

impl<P> AzureOpenAIAuth<P> {
    /// What proves who sends a request, unless it has to be fetched.
    pub fn credential(&self) -> (r: Option<Credential>)
        ensures
            match *self {
                AzureOpenAIAuth::ApiKey(key) => r matches Some(Credential::ApiKey(k)) && k@ == key@,
                AzureOpenAIAuth::Token(token) => r matches Some(Credential::Token(t)) && t@
                    == token@,
                AzureOpenAIAuth::Provider(_) => r is None,
            },
    {
        match self {
            AzureOpenAIAuth::ApiKey(key) => Some(Credential::ApiKey(key.clone())),
            AzureOpenAIAuth::Token(token) => Some(Credential::Token(token.clone())),
            AzureOpenAIAuth::Provider(_) => None,
        }
    }
}

impl<P> AzureOpenAIClient<P> {
    pub fn new(endpoint: &str, auth: AzureOpenAIAuth<P>) -> (r: Self)
        ensures
            r.endpoint@ == endpoint@,
            r.auth == auth,
    {
        AzureOpenAIClient { endpoint: endpoint.to_owned(), auth }
    }

    /// An account with a key.
    pub fn with_api_key(endpoint: &str, key: &str) -> (r: Self)
        ensures
            r.endpoint@ == endpoint@,
            r.auth matches AzureOpenAIAuth::ApiKey(k) && k@ == key@,
    {
        Self::new(endpoint, AzureOpenAIAuth::ApiKey(key.to_owned()))
    }

    /// An account with a fixed token.
    pub fn with_token(endpoint: &str, token: &str) -> (r: Self)
        ensures
            r.endpoint@ == endpoint@,
            r.auth matches AzureOpenAIAuth::Token(t) && t@ == token@,
    {
        Self::new(endpoint, AzureOpenAIAuth::Token(token.to_owned()))
    }

    /// An account whose tokens are fetched.
    pub fn with_provider(endpoint: &str, provider: P) -> (r: Self)
        ensures
            r.endpoint@ == endpoint@,
            r.auth == AzureOpenAIAuth::Provider(provider),
    {
        Self::new(endpoint, AzureOpenAIAuth::Provider(provider))
    }

    /// The account that environment variables describe, each where it is set.
    pub fn from_env_values(
        endpoint: Option<String>,
        api_key: Option<String>,
        token: Option<String>,
    ) -> (r: Result<Self, AzureOpenAIError>)
        ensures
            is_from_env(endpoint, api_key, token, r),
    {
        let endpoint = match endpoint {
            Some(endpoint) => endpoint,
            None => {
                return Err(
                    AzureOpenAIError::Config("AZURE_OPENAI_ENDPOINT is required".to_owned()),
                );
            },
        };
        let auth = match (api_key, token) {
            (Some(_), Some(_)) => {
                return Err(
                    AzureOpenAIError::Config(
                        "AZURE_OPENAI_API_KEY and AZURE_OPENAI_TOKEN are mutually exclusive".to_owned(),
                    ),
                );
            },
            (Some(key), None) => AzureOpenAIAuth::ApiKey(key),
            (None, Some(token)) => AzureOpenAIAuth::Token(token),
            (None, None) => {
                return Err(
                    AzureOpenAIError::Config(
                        "one of AZURE_OPENAI_API_KEY or AZURE_OPENAI_TOKEN is required".to_owned(),
                    ),
                );
            },
        };
        Ok(AzureOpenAIClient { endpoint, auth })
    }

    /// A deployment of this account.
    pub fn model(self, deployment: &str) -> (r: AzureOpenAIChatModel<P>)
        ensures
            r.account() == self,
            r.id() == deployment@,
    {
        AzureOpenAIChatModel::new(self, deployment)
    }
}

/// A deployment of an account.
#[derive(Debug)]
pub struct AzureOpenAIChatModel<P> {
    client: AzureOpenAIClient<P>,
    deployment: String,
}

impl<P> AzureOpenAIChatModel<P> {
    /// The account.
    pub closed spec fn account(&self) -> AzureOpenAIClient<P> {
        self.client
    }

    /// The name of the deployment.
    pub closed spec fn id(&self) -> Seq<char> {
        self.deployment@
    }

    pub fn new(client: AzureOpenAIClient<P>, deployment: &str) -> (r: Self)
        ensures
            r.account() == client,
            r.id() == deployment@,
    {
        AzureOpenAIChatModel { client, deployment: deployment.to_owned() }
    }

    /// The account.
    pub fn client(&self) -> (r: &AzureOpenAIClient<P>)
        ensures
            *r == self.account(),
    {
        &self.client
    }

    /// The name of the provider.
    pub fn name(&self) -> (r: &str)
        ensures
            r@ == "azure-openai"@,
    {
        "azure-openai"
    }

    /// The name of the deployment.
    pub fn model(&self) -> (r: &str)
        ensures
            r@ == self.id(),
    {
        self.deployment.as_str()
    }

    /// What to send for a request, or why it cannot be sent.
    pub fn post(&self, req: &ChatRequest, credential: Credential) -> (r: Result<
        HttpPost,
        AzureOpenAIError,
    >)
        ensures
            match r {
                Ok(post) => request::body_model(self.id(), *req) == Ok::<JsonModel, ErrorModel>(
                    post.body@,
                ) && post.url@ == chat_url(self.account().endpoint@) && http::header_texts(
                    post.headers@,
                ) == request_headers(credential),
                Err(e) => request::body_model(self.id(), *req) == Err::<JsonModel, ErrorModel>(e@),
            },
    {
        let body = match build_body(self.deployment.as_str(), req) {
            Ok(body) => body,
            Err(e) => {
                return Err(e);
            },
        };
        let mut url = trim_end_slashes(self.client.endpoint.as_str());
        url.append("/openai/v1/chat/completions");
        let mut headers: Vec<(String, String)> = Vec::new();
        assert(http::header_texts(headers@) =~= Seq::empty());
        push_header(&mut headers, "content-type", "application/json");
        push_header(&mut headers, "accept", "text/event-stream");
        match &credential {
            Credential::ApiKey(key) => push_header(&mut headers, "api-key", key.as_str()),
            Credential::Token(token) => {
                let mut value = "Bearer ".to_owned();
                value.append(token.as_str());
                push_header(&mut headers, "Authorization", value.as_str());
            },
        }
        assert(http::header_texts(headers@) =~= request_headers(credential));
        Ok(HttpPost { url, headers, body })
    }
}

} // verus!
