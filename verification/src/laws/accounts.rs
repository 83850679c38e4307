//! Accounts: where requests go and what proves who sends them.

use vstd::prelude::*;

use crate::anthropic::client::{self as messages_api, ClientModel};
use crate::anthropic::error_body as messages_errors;
use crate::azure_openai::caching_provider::{self as tokens, CacheModel};
use crate::azure_openai::client::{
    self as azure, AzureOpenAIAuth, AzureOpenAIClient, Credential,
};
use crate::azure_openai::error_body as azure_errors;
use crate::azure_openai::errors::AzureOpenAIError;
use crate::text;

verus! {

/// Whether headers hold one of a name exactly once, with a value.
pub open spec fn has_header(
    headers: Seq<(Seq<char>, Seq<char>)>,
    name: Seq<char>,
    value: Seq<char>,
) -> bool {
    exists|i: int|
        0 <= i < headers.len() && #[trigger] headers[i] == (name, value) && forall|k: int|
            0 <= k < headers.len() && k != i ==> (#[trigger] headers[k]).0 != name
}

/// Whether headers hold none of a name.
pub open spec fn lacks_header(headers: Seq<(Seq<char>, Seq<char>)>, name: Seq<char>) -> bool {
    forall|k: int| 0 <= k < headers.len() ==> (#[trigger] headers[k]).0 != name
}

/// Slashes at the end of an endpoint do not matter, and one without them is followed by the path as
/// it stands.
pub proof fn endpoint_slashes_do_not_matter(endpoint: Seq<char>, slashes: nat)
    requires
        endpoint.len() == 0 || endpoint.last() != '/',
    ensures
        azure::chat_url(endpoint + Seq::new(slashes, |i: int| '/')) == endpoint
            + "/openai/v1/chat/completions"@,
    decreases slashes,
{
    let long = endpoint + Seq::new(slashes, |i: int| '/');
    if slashes == 0 {
        assert(long =~= endpoint);
    } else {
        endpoint_slashes_do_not_matter(endpoint, (slashes - 1) as nat);
        assert(long.drop_last() =~= endpoint + Seq::new((slashes - 1) as nat, |i: int| '/'));
    }
}

/// A key goes out as a key and a token as a bearer token, each as it is and never both.
pub proof fn credentials_are_sent(key: String, token: String)
    ensures
        ({
            let headers = azure::request_headers(Credential::ApiKey(key));
            &&& has_header(headers, "api-key"@, key@)
            &&& lacks_header(headers, "Authorization"@)
            &&& has_header(headers, "content-type"@, "application/json"@)
            &&& has_header(headers, "accept"@, "text/event-stream"@)
        }),
        ({
            let headers = azure::request_headers(Credential::Token(token));
            &&& has_header(headers, "Authorization"@, "Bearer "@ + token@)
            &&& lacks_header(headers, "api-key"@)
            &&& has_header(headers, "content-type"@, "application/json"@)
            &&& has_header(headers, "accept"@, "text/event-stream"@)
        }),
{
    reveal_strlit("content-type");
    reveal_strlit("accept");
    reveal_strlit("api-key");
    reveal_strlit("Authorization");
    assert("content-type"@.len() == 12);
    assert("accept"@.len() == 6);
    assert("api-key"@.len() == 7);
    assert("Authorization"@.len() == 13);
    let a = azure::request_headers(Credential::ApiKey(key));
    let b = azure::request_headers(Credential::Token(token));
    assert(a[0].0 == "content-type"@ && a[1].0 == "accept"@ && a[2] == ("api-key"@, key@));
    assert(b[0].0 == "content-type"@ && b[1].0 == "accept"@ && b[2] == (
        "Authorization"@,
        "Bearer "@ + token@,
    ));
}

/// An account comes out of the environment exactly where there is an endpoint and one of a key and a
/// token, and is that of these values; otherwise the configuration is at fault.
pub proof fn environments_describe_accounts<P>(
    endpoint: Option<String>,
    api_key: Option<String>,
    token: Option<String>,
    result: Result<AzureOpenAIClient<P>, AzureOpenAIError>,
)
    requires
        azure::is_from_env(endpoint, api_key, token, result),
    ensures
        result is Ok <==> endpoint is Some && (api_key is Some) != (token is Some),
        result matches Ok(client) ==> {
            &&& Some(client.endpoint) == endpoint
            &&& api_key matches Some(key) ==> client.auth == AzureOpenAIAuth::<P>::ApiKey(key)
            &&& token matches Some(t) ==> client.auth == AzureOpenAIAuth::<P>::Token(t)
        },
        result matches Err(e) ==> e@ is Config,
{
}

/// A client sends its own key and version, and its beta features in one header, in order with
/// commas between, where it has any.
pub proof fn clients_send_their_headers(client: ClientModel)
    ensures
        ({
            let headers = messages_api::client_headers(client);
            &&& has_header(headers, "x-api-key"@, client.api_key)
            &&& has_header(headers, "anthropic-version"@, client.anthropic_version)
            &&& has_header(headers, "content-type"@, "application/json"@)
            &&& has_header(headers, "accept"@, "text/event-stream"@)
            &&& client.beta_features.len() == 0 ==> lacks_header(headers, "anthropic-beta"@)
            &&& client.beta_features.len() > 0 ==> has_header(
                headers,
                "anthropic-beta"@,
                text::join_text(client.beta_features, ","@),
            )
        }),
{
    reveal_strlit("x-api-key");
    reveal_strlit("anthropic-version");
    reveal_strlit("content-type");
    reveal_strlit("accept");
    reveal_strlit("anthropic-beta");
    assert("x-api-key"@.len() == 9);
    assert("anthropic-version"@.len() == 17);
    assert("content-type"@.len() == 12);
    assert("accept"@.len() == 6);
    assert("anthropic-beta"@.len() == 14);
    let headers = messages_api::client_headers(client);
    assert(headers[0] == ("x-api-key"@, client.api_key));
    assert(headers[1] == ("anthropic-version"@, client.anthropic_version));
    assert(headers[2].0 == "content-type"@);
    assert(headers[3].0 == "accept"@);
    if client.beta_features.len() > 0 {
        assert(headers[4].0 == "anthropic-beta"@);
    }
}

/// A token is served for its life less the skew from when it was fetched, and no longer; without a
/// token nothing is served.
pub proof fn tokens_are_served_in_their_window<P>(
    cache: CacheModel<P>,
    token: Seq<char>,
    fetched_at: nat,
    now: nat,
)
    ensures
        cache.cached == Some((token, fetched_at)) ==> (tokens::served(cache, now) == Some(token)
            <==> now + cache.refresh_skew < fetched_at + cache.ttl || now < fetched_at),
        cache.cached == Some((token, fetched_at)) ==> tokens::served(cache, now) is None
            || tokens::served(cache, now) == Some(token),
        cache.cached is None ==> tokens::served(cache, now) is None,
{
}

/// A wait in seconds, written with white space around it or without, is that many seconds. What is
/// no whole number says nothing.
pub proof fn waits_are_read(
    before: Seq<char>,
    n: u64,
    after: Seq<char>,
    header: &str,
    other: &str,
)
    requires
        text::blank(before),
        text::blank(after),
        header@ == before + text::decimal(n as nat) + after,
        text::unsigned_value(text::trimmed(other@)) is None,
    ensures
        messages_errors::retry_seconds(Some(header)) == Some(n),
        messages_errors::retry_seconds(Some(other)) is None,
        messages_errors::retry_seconds(None) is None,
        azure_errors::retry_delay(None, Some(header)) == Some((n * 1_000_000_000) as nat),
        azure_errors::retry_delay(Some(other), Some(header)) == Some((n * 1_000_000_000) as nat),
        azure_errors::retry_delay(Some(header), Some(other)) == Some((n * 1_000_000) as nat),
        azure_errors::retry_delay(Some(header), None) == Some((n * 1_000_000) as nat),
        azure_errors::retry_delay(Some(header), Some(header)) == Some((n * 1_000_000) as nat),
        azure_errors::retry_delay(None, None) is None,
        azure_errors::retry_delay(Some(other), Some(other)) is None,
{
    let numeral = text::decimal(n as nat);
    super::texts::numerals_read_back(n as nat);
    assert(text::is_digit(numeral[0]));
    assert(text::is_digit(numeral[numeral.len() - 1]));
    super::texts::trimming_keeps_the_middle(before, numeral, after);
}

} // verus!
