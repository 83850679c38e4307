//! Errors of the Messages API: what is worth a repeat, and what a response says.

use vstd::prelude::*;

use super::wire;
use crate::anthropic::error_body as bodies;
use crate::anthropic::errors::{self, AnthropicApiErrorKind, AnthropicError, ErrorModel, KindModel};
use crate::duration::Duration;
use crate::json::JsonModel;
use crate::retry::{self, RetryClassification, RetryConfig};
use crate::text;

verus! {

/// Whether a repeat of the same call cannot mend an error of this category.
pub open spec fn beyond_repeat(kind: AnthropicApiErrorKind) -> bool {
    match kind {
        AnthropicApiErrorKind::InvalidRequest => true,
        AnthropicApiErrorKind::ContextOverflow => true,
        AnthropicApiErrorKind::Authentication => true,
        AnthropicApiErrorKind::Permission => true,
        AnthropicApiErrorKind::NotFound => true,
        AnthropicApiErrorKind::RequestTooLarge => true,
        AnthropicApiErrorKind::Overloaded => false,
        AnthropicApiErrorKind::RateLimit => false,
        AnthropicApiErrorKind::Api => false,
        AnthropicApiErrorKind::Other(_) => false,
    }
}

/// A failure in transport is transient and asks for no wait of its own, so a model whose call fails
/// in transport is called again while calls are allowed.
pub proof fn transport_failures_are_retried(
    config: RetryConfig,
    made: nat,
    reasons: Seq<String>,
    later: Seq<RetryClassification>,
)
    requires
        made + reasons.len() < config.max_attempts,
    ensures
        forall|reason: String|
            errors::error_classification(#[trigger] AnthropicError::Http(reason)@) == (
            RetryClassification::Transient { retry_after: None }),
        retry::calls_made(
            config,
            made,
            reasons.map_values(|r: String| errors::error_classification(AnthropicError::Http(r)@))
                + later,
        ) == retry::calls_made(config, made + reasons.len(), later),
        retry::calls_made(config, made + reasons.len(), later) > made + reasons.len(),
    decreases reasons.len(),
{
    let classify = |r: String| errors::error_classification(AnthropicError::Http(r)@);
    let failures = reasons.map_values(classify) + later;
    retry::calls_are_bounded(config, made + reasons.len(), later);
    if reasons.len() == 0 {
        assert(failures =~= later);
    } else {
        let rest = reasons.drop_first();
        assert(failures.drop_first() =~= rest.map_values(classify) + later);
        assert(failures[0] == classify(reasons[0]));
        transport_failures_are_retried(config, made + 1, rest, later);
    }
}

/// The permanent failures are exactly those of framing and decoding, statuses outside 500 to 599
/// and the categories that a repeat cannot mend.
pub proof fn permanent_failures(error: AnthropicError)
    ensures
        errors::error_classification(error@) is Permanent <==> match error {
            AnthropicError::Http(_) => false,
            AnthropicError::Sse(_) => true,
            AnthropicError::Json(_) => true,
            AnthropicError::Status { status, .. } => status < 500 || status >= 600,
            AnthropicError::Api { kind, .. } => beyond_repeat(kind),
            AnthropicError::Provider { kind, .. } => beyond_repeat(kind),
        },
{
}

/// A transient failure asks for exactly the wait that came with it; only a response carries one.
pub proof fn waits_are_passed_on(error: AnthropicError)
    ensures
        errors::error_classification(error@) matches RetryClassification::Transient { retry_after }
            ==> retry_after == (match error {
            AnthropicError::Api { retry_after, .. } => retry_after,
            _ => None,
        }),
{
}

/// Only a category says that the prompt did not fit.
pub proof fn overflow_is_a_category(error: AnthropicError)
    ensures
        errors::error_is_overflow(error@) <==> match error {
            AnthropicError::Api { kind, .. } => kind is ContextOverflow,
            AnthropicError::Provider { kind, .. } => kind is ContextOverflow,
            _ => false,
        },
{
}

/// Each error type has a category of its own, and a type that is not known keeps its name.
pub proof fn error_types_have_their_category(s: Seq<char>)
    ensures
        errors::kind_of_type(s) is Overloaded <==> s == "overloaded_error"@,
        errors::kind_of_type(s) is RateLimit <==> s == "rate_limit_error"@,
        errors::kind_of_type(s) is InvalidRequest <==> s == "invalid_request_error"@,
        errors::kind_of_type(s) is Authentication <==> s == "authentication_error"@,
        errors::kind_of_type(s) is Permission <==> s == "permission_error"@,
        errors::kind_of_type(s) is NotFound <==> s == "not_found_error"@,
        errors::kind_of_type(s) is RequestTooLarge <==> s == "request_too_large"@,
        errors::kind_of_type(s) is Api <==> s == "api_error"@,
        errors::kind_of_type(s) matches KindModel::Other(name) ==> name == s,
        !(errors::kind_of_type(s) is ContextOverflow),
{
    reveal_strlit("overloaded_error");
    reveal_strlit("rate_limit_error");
    reveal_strlit("invalid_request_error");
    reveal_strlit("authentication_error");
    reveal_strlit("permission_error");
    reveal_strlit("not_found_error");
    reveal_strlit("request_too_large");
    reveal_strlit("api_error");
    assert("overloaded_error"@.len() == 16 && "overloaded_error"@[0] == 'o');
    assert("rate_limit_error"@.len() == 16 && "rate_limit_error"@[0] == 'r');
    assert("permission_error"@.len() == 16 && "permission_error"@[0] == 'p');
    assert("invalid_request_error"@.len() == 21);
    assert("authentication_error"@.len() == 20);
    assert("not_found_error"@.len() == 15);
    assert("request_too_large"@.len() == 17);
    assert("api_error"@.len() == 9);
}

/// A message says that the prompt is too long wherever those words stand in it and in whatever
/// letter case.
pub proof fn overflow_words_are_found(before: Seq<char>, words: Seq<char>, after: Seq<char>)
    requires
        text::ascii_lower(words) == "prompt is too long"@,
    ensures
        errors::prompt_too_long(before + words + after),
        errors::kind_of_error("invalid_request_error"@, before + words + after) is ContextOverflow,
{
    let whole = text::ascii_lower(before + words + after);
    let part = "prompt is too long"@;
    assert(part.len() == words.len());
    assert(whole.subrange(before.len() as int, before.len() as int + part.len()) =~= part) by {
        assert forall|i: int| 0 <= i < part.len() implies whole[before.len() + i] == part[i] by {
            assert((before + words + after)[before.len() + i] == words[i]);
            assert(part[i] == text::ascii_lower(words)[i]);
        }
    }
    assert(text::part_at(whole, part, before.len() as int));
    error_types_have_their_category("invalid_request_error"@);
}

/// A response whose body is an error object becomes an error with its status, its message as it
/// came, the category of its type and message, and the wait that came with it.
pub proof fn responses_are_read(
    status: u16,
    body: Seq<char>,
    document: JsonModel,
    error: JsonModel,
    error_type: Seq<char>,
    message: Seq<char>,
    retry_after: Option<Duration>,
)
    requires
        wire::lays_out(document, seq![("error"@, error)]),
        wire::lays_out(
            error,
            seq![
                ("type"@, JsonModel::Text(error_type)),
                ("message"@, JsonModel::Text(message)),
            ],
        ),
    ensures
        bodies::response_error(status, body, Ok(document), retry_after) == (ErrorModel::Api {
            status,
            kind: errors::kind_of_error(error_type, message),
            message,
            retry_after,
        }),
{
    let outer = seq![("error"@, error)];
    let inner = seq![
        ("type"@, JsonModel::Text(error_type)),
        ("message"@, JsonModel::Text(message)),
    ];
    assert(outer[0] == ("error"@, error));
    assert(inner[0] == ("type"@, JsonModel::Text(error_type)));
    assert(inner[1] == ("message"@, JsonModel::Text(message)));
}

/// Any other response keeps its status and its body as it came.
pub proof fn other_responses_are_kept(
    status: u16,
    body: Seq<char>,
    parsed: Result<JsonModel, Seq<char>>,
    retry_after: Option<Duration>,
)
    ensures
        parsed is Err ==> bodies::response_error(status, body, parsed, retry_after) == (
        ErrorModel::Status { status, body }),
        parsed matches Ok(document) && document is Object && wire::entry(document, "error"@) is None
            ==> bodies::response_error(status, body, parsed, retry_after) == (ErrorModel::Status {
            status,
            body,
        }),
        match bodies::response_error(status, body, parsed, retry_after) {
            ErrorModel::Api { status: s, retry_after: r, .. } => s == status && r == retry_after,
            ErrorModel::Status { status: s, body: b } => s == status && b == body,
            _ => false,
        },
{
}

} // verus!
