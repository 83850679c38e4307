//! Errors of Chat Completions: what is worth a repeat, and what a response says.

use vstd::prelude::*;

use super::wire;
use crate::azure_openai::error_body as bodies;
use crate::azure_openai::errors::{self, AzureOpenAIApiErrorKind, AzureOpenAIError, ErrorModel, KindModel};
use crate::duration::Duration;
use crate::json::JsonModel;
use crate::retry::{self, RetryClassification, RetryConfig};

verus! {

/// Whether a repeat of the same call cannot mend an error of this category.
pub open spec fn beyond_repeat(kind: AzureOpenAIApiErrorKind) -> bool {
    match kind {
        AzureOpenAIApiErrorKind::InvalidRequest => true,
        AzureOpenAIApiErrorKind::ContextOverflow => true,
        AzureOpenAIApiErrorKind::ContentFilter => true,
        AzureOpenAIApiErrorKind::Authentication => true,
        AzureOpenAIApiErrorKind::Permission => true,
        AzureOpenAIApiErrorKind::NotFound => true,
        AzureOpenAIApiErrorKind::DeploymentNotFound => true,
        AzureOpenAIApiErrorKind::RateLimit => false,
        AzureOpenAIApiErrorKind::ServerError => false,
        AzureOpenAIApiErrorKind::Other(_) => false,
    }
}

/// A failure in transport is transient and asks for no wait of its own, so a model whose call fails
/// in transport is called again while calls are allowed.
pub proof fn transport_failures_are_retried(
    config: RetryConfig,
    made: nat,
    reasons: Seq<String>,
    later: Seq<RetryClassification>,
)
    requires
        made + reasons.len() < config.max_attempts,
    ensures
        forall|reason: String|
            errors::error_classification(#[trigger] AzureOpenAIError::Http(reason)@) == (
            RetryClassification::Transient { retry_after: None }),
        retry::calls_made(
            config,
            made,
            reasons.map_values(|r: String| errors::error_classification(AzureOpenAIError::Http(r)@))
                + later,
        ) == retry::calls_made(config, made + reasons.len(), later),
        retry::calls_made(config, made + reasons.len(), later) > made + reasons.len(),
    decreases reasons.len(),
{
    let classify = |r: String| errors::error_classification(AzureOpenAIError::Http(r)@);
    let failures = reasons.map_values(classify) + later;
    retry::calls_are_bounded(config, made + reasons.len(), later);
    if reasons.len() == 0 {
        assert(failures =~= later);
    } else {
        let rest = reasons.drop_first();
        assert(failures.drop_first() =~= rest.map_values(classify) + later);
        assert(failures[0] == classify(reasons[0]));
        transport_failures_are_retried(config, made + 1, rest, later);
    }
}

/// The permanent failures are exactly those of framing and decoding, of the configuration, of
/// content that cannot be sent, statuses outside 500 to 599 and the categories that a repeat cannot
/// mend.
pub proof fn permanent_failures(error: AzureOpenAIError)
    ensures
        errors::error_classification(error@) is Permanent <==> match error {
            AzureOpenAIError::Http(_) => false,
            AzureOpenAIError::Sse(_) => true,
            AzureOpenAIError::Json(_) => true,
            AzureOpenAIError::Status { status, .. } => status < 500 || status >= 600,
            AzureOpenAIError::Api { kind, .. } => beyond_repeat(kind),
            AzureOpenAIError::Provider { kind, .. } => beyond_repeat(kind),
            AzureOpenAIError::Config(_) => true,
            AzureOpenAIError::UnsupportedContent { .. } => true,
        },
{
}

/// A transient failure asks for exactly the wait that came with it; only a response carries one.
pub proof fn waits_are_passed_on(error: AzureOpenAIError)
    ensures
        errors::error_classification(error@) matches RetryClassification::Transient { retry_after }
            ==> retry_after == (match error {
            AzureOpenAIError::Api { retry_after, .. } => retry_after,
            _ => None,
        }),
{
}

/// Only a category says that the prompt did not fit.
pub proof fn overflow_is_a_category(error: AzureOpenAIError)
    ensures
        errors::error_is_overflow(error@) <==> match error {
            AzureOpenAIError::Api { kind, .. } => kind is ContextOverflow,
            AzureOpenAIError::Provider { kind, .. } => kind is ContextOverflow,
            _ => false,
        },
{
}

/// Each error code has its category, in snake case and in Pascal case, and a code that is not known
/// keeps its name.
pub proof fn error_codes_have_their_category(s: Seq<char>)
    ensures
        errors::kind_of_code(s) is RateLimit <==> s == "rate_limit_exceeded"@ || s == "429"@,
        errors::kind_of_code(s) is InvalidRequest <==> s == "invalid_request_error"@ || s
            == "BadRequest"@,
        errors::kind_of_code(s) is ContextOverflow <==> s == "context_length_exceeded"@,
        errors::kind_of_code(s) is ContentFilter <==> s == "content_filter"@,
        errors::kind_of_code(s) is Authentication <==> s == "invalid_api_key"@ || s
            == "Unauthorized"@,
        errors::kind_of_code(s) is Permission <==> s == "PermissionDenied"@,
        errors::kind_of_code(s) is NotFound <==> s == "NotFound"@,
        errors::kind_of_code(s) is DeploymentNotFound <==> s == "DeploymentNotFound"@,
        errors::kind_of_code(s) is ServerError <==> s == "server_error"@ || s
            == "InternalServerError"@,
        errors::kind_of_code(s) matches KindModel::Other(name) ==> name == s,
{
    reveal_strlit("rate_limit_exceeded");
    reveal_strlit("429");
    reveal_strlit("invalid_request_error");
    reveal_strlit("BadRequest");
    reveal_strlit("context_length_exceeded");
    reveal_strlit("content_filter");
    reveal_strlit("invalid_api_key");
    reveal_strlit("Unauthorized");
    reveal_strlit("PermissionDenied");
    reveal_strlit("NotFound");
    reveal_strlit("DeploymentNotFound");
    reveal_strlit("server_error");
    reveal_strlit("InternalServerError");
    assert("rate_limit_exceeded"@.len() == 19 && "rate_limit_exceeded"@[0] == 'r');
    assert("InternalServerError"@.len() == 19 && "InternalServerError"@[0] == 'I');
    assert("429"@.len() == 3);
    assert("invalid_request_error"@.len() == 21);
    assert("BadRequest"@.len() == 10);
    assert("context_length_exceeded"@.len() == 23);
    assert("content_filter"@.len() == 14);
    assert("invalid_api_key"@.len() == 15);
    assert("Unauthorized"@.len() == 12 && "Unauthorized"@[0] == 'U');
    assert("server_error"@.len() == 12 && "server_error"@[0] == 's');
    assert("PermissionDenied"@.len() == 16);
    assert("NotFound"@.len() == 8);
    assert("DeploymentNotFound"@.len() == 18);
}

/// A response whose body is an error object becomes an error with its status, its message as it
/// came, the category of its code, and the wait that came with it.
pub proof fn responses_are_read(
    status: u16,
    body: Seq<char>,
    document: JsonModel,
    error: JsonModel,
    code: Seq<char>,
    message: Seq<char>,
    retry_after: Option<Duration>,
)
    requires
        wire::lays_out(document, seq![("error"@, error)]),
        wire::lays_out(
            error,
            seq![
                ("code"@, JsonModel::Text(code)),
                ("message"@, JsonModel::Text(message)),
            ],
        ),
    ensures
        bodies::response_error(status, body, Ok(document), retry_after) == (ErrorModel::Api {
            status,
            kind: errors::kind_of_code(code),
            message,
            retry_after,
        }),
{
    let outer = seq![("error"@, error)];
    let inner = seq![
        ("code"@, JsonModel::Text(code)),
        ("message"@, JsonModel::Text(message)),
    ];
    assert(outer[0] == ("error"@, error));
    assert(inner[0] == ("code"@, JsonModel::Text(code)));
    assert(inner[1] == ("message"@, JsonModel::Text(message)));
}

/// An error object without a code, or with null for one, counts as one with an empty code.
pub proof fn codes_may_be_missing(
    status: u16,
    body: Seq<char>,
    document: JsonModel,
    error: JsonModel,
    message: Seq<char>,
    retry_after: Option<Duration>,
)
    requires
        wire::lays_out(document, seq![("error"@, error)]),
        error is Object,
        wire::entry(error, "code"@) is None || wire::entry(error, "code"@) == Some(JsonModel::Null),
        wire::word(error, "message"@) == Some(message),
    ensures
        bodies::response_error(status, body, Ok(document), retry_after) == (ErrorModel::Api {
            status,
            kind: errors::kind_of_code(Seq::empty()),
            message,
            retry_after,
        }),
{
    let outer = seq![("error"@, error)];
    assert(outer[0] == ("error"@, error));
}

/// Any other response keeps its status and its body as it came.
pub proof fn other_responses_are_kept(
    status: u16,
    body: Seq<char>,
    parsed: Result<JsonModel, Seq<char>>,
    retry_after: Option<Duration>,
)
    ensures
        parsed is Err ==> bodies::response_error(status, body, parsed, retry_after) == (
        ErrorModel::Status { status, body }),
        parsed matches Ok(document) && document is Object && wire::entry(document, "error"@) is None
            ==> bodies::response_error(status, body, parsed, retry_after) == (ErrorModel::Status {
            status,
            body,
        }),
        match bodies::response_error(status, body, parsed, retry_after) {
            ErrorModel::Api { status: s, retry_after: r, .. } => s == status && r == retry_after,
            ErrorModel::Status { status: s, body: b } => s == status && b == body,
            _ => false,
        },
{
}

} // verus!
