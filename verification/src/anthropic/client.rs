//! Where and how requests are sent.

use vstd::prelude::*;

use super::request::{self, build_body};
use crate::http::{self, push_header, HttpPost};
use crate::request::ChatRequest;
use crate::text::{self, join};

verus! {

/// Environment variable that holds the key.
pub const API_KEY_ENV: &'static str = "ANTHROPIC_API_KEY";

/// An account at an endpoint.
#[derive(Debug)]
pub struct AnthropicClient {
    pub base_url: String,
    pub api_key: String,
    pub anthropic_version: String,
    /// Beta features to ask for.
    pub beta_features: Vec<String>,
}

/// What an [`AnthropicClient`] is configured with.
#[verifier::ext_equal]
pub struct ClientModel {
    pub base_url: Seq<char>,
    pub api_key: Seq<char>,
    pub anthropic_version: Seq<char>,
    pub beta_features: Seq<Seq<char>>,
}

impl View for AnthropicClient {
    type V = ClientModel;

    open spec fn view(&self) -> ClientModel {
        ClientModel {
            base_url: self.base_url@,
            api_key: self.api_key@,
            anthropic_version: self.anthropic_version@,
            beta_features: text::texts(self.beta_features@),
        }
    }
}

/// The headers of every request.
pub open spec fn client_headers(client: ClientModel) -> Seq<(Seq<char>, Seq<char>)> {
    let headers = seq![
        ("x-api-key"@, client.api_key),
        ("anthropic-version"@, client.anthropic_version),
        ("content-type"@, "application/json"@),
        ("accept"@, "text/event-stream"@),
    ];
    if client.beta_features.len() == 0 {
        headers
    } else {
        headers.push(("anthropic-beta"@, text::join_text(client.beta_features, ","@)))
    }
}

impl Clone for AnthropicClient {
    fn clone(&self) -> (r: Self)
        ensures
            r@ == self@,
    {
        let mut beta_features: Vec<String> = Vec::new();
        let mut i: usize = 0;
        while i < self.beta_features.len()
            invariant
                i <= self.beta_features.len(),
                beta_features@.len() == i,
                forall|k: int|
                    0 <= k < i ==> (#[trigger] beta_features@[k])@ == self.beta_features@[k]@,
            decreases self.beta_features.len() - i,
        {
            beta_features.push(self.beta_features[i].clone());
            i = i + 1;
        }
        assert(text::texts(beta_features@) =~= text::texts(self.beta_features@));
        AnthropicClient {
            base_url: self.base_url.clone(),
            api_key: self.api_key.clone(),
            anthropic_version: self.anthropic_version.clone(),
            beta_features,
        }
    }
}

impl AnthropicClient {
    /// A client of the public endpoint.
    pub fn new(api_key: String) -> (r: Self)
        ensures
            r@ == (ClientModel {
                base_url: "https://api.anthropic.com/v1/messages"@,
                api_key: api_key@,
                anthropic_version: "2023-06-01"@,
                beta_features: Seq::empty(),
            }),
    {
        Self::with_base_url(api_key.as_str(), "https://api.anthropic.com/v1/messages")
    }

    /// A client of another endpoint.
    pub fn with_base_url(api_key: &str, base_url: &str) -> (r: Self)
        ensures
            r@ == (ClientModel {
                base_url: base_url@,
                api_key: api_key@,
                anthropic_version: "2023-06-01"@,
                beta_features: Seq::empty(),
            }),
    {
        let r = AnthropicClient {
            base_url: base_url.to_owned(),
            api_key: api_key.to_owned(),
            anthropic_version: "2023-06-01".to_owned(),
            beta_features: Vec::new(),
        };
        assert(r@.beta_features =~= Seq::empty());
        r
    }

    /// Asks for another version of the interface.
    pub fn version(self, version: &str) -> (r: Self)
        ensures
            r@ == (ClientModel { anthropic_version: version@, ..self@ }),
    {
        AnthropicClient {
            base_url: self.base_url,
            api_key: self.api_key,
            anthropic_version: version.to_owned(),
            beta_features: self.beta_features,
        }
    }

    /// Asks for one more beta feature.
    pub fn beta(self, feature: &str) -> (r: Self)
        ensures
            r@ == (ClientModel { beta_features: self@.beta_features.push(feature@), ..self@ }),
    {
        let mut beta_features = self.beta_features;
        beta_features.push(feature.to_owned());
        assert(text::texts(beta_features@) =~= self@.beta_features.push(feature@));
        AnthropicClient {
            base_url: self.base_url,
            api_key: self.api_key,
            anthropic_version: self.anthropic_version,
            beta_features,
        }
    }

    /// The headers of every request.
    pub fn headers(&self) -> (r: Vec<(String, String)>)
        ensures
            http::header_texts(r@) == client_headers(self@),
    {
        let mut headers: Vec<(String, String)> = Vec::new();
        assert(http::header_texts(headers@) =~= Seq::empty());
        push_header(&mut headers, "x-api-key", self.api_key.as_str());
        push_header(&mut headers, "anthropic-version", self.anthropic_version.as_str());
        push_header(&mut headers, "content-type", "application/json");
        push_header(&mut headers, "accept", "text/event-stream");
        if self.beta_features.len() > 0 {
            let features = join(&self.beta_features, ",");
            push_header(&mut headers, "anthropic-beta", features.as_str());
        }
        assert(http::header_texts(headers@) =~= client_headers(self@));
        headers
    }

    /// A model of this account.
    pub fn model(self, model: &str) -> (r: AnthropicModel)
        ensures
            r.account() == self@,
            r.id() == model@,
    {
        AnthropicModel::new(self, model)
    }

    /// A model of this account, which can make others.
    pub fn completion_model(&self, model_name: &str) -> (r: AnthropicModel)
        ensures
            r.account() == self@,
            r.id() == model_name@,
    {
        AnthropicModel::new(self.clone(), model_name)
    }
}

/// A model of an account.
#[derive(Debug)]
pub struct AnthropicModel {
    client: AnthropicClient,
    model: String,
}

impl AnthropicModel {
    /// The account.
    pub closed spec fn account(&self) -> ClientModel {
        self.client@
    }

    /// The name of the model.
    pub closed spec fn id(&self) -> Seq<char> {
        self.model@
    }

    pub fn new(client: AnthropicClient, model: &str) -> (r: Self)
        ensures
            r.account() == client@,
            r.id() == model@,
    {
        AnthropicModel { client, model: model.to_owned() }
    }

    /// The name of the provider.
    pub fn name(&self) -> (r: &str)
        ensures
            r@ == "anthropic"@,
    {
        "anthropic"
    }

    /// The name of the model.
    pub fn model(&self) -> (r: &str)
        ensures
            r@ == self.id(),
    {
        self.model.as_str()
    }

    /// What to send for a request.
    pub fn post(&self, req: &ChatRequest) -> (r: HttpPost)
        ensures
            r.url@ == self.account().base_url,
            http::header_texts(r.headers@) == client_headers(self.account()),
            r.body@ == request::body_model(self.id(), *req),
    {
        HttpPost {
            url: self.client.base_url.clone(),
            headers: self.client.headers(),
            body: build_body(self.model.as_str(), req),
        }
    }
}

} // verus!
