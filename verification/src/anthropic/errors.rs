//! Errors of the Anthropic adapter and what they mean for a retry.

use vstd::prelude::*;

use crate::duration::Duration;
use crate::provider_error::ProviderError;
use crate::retry::{RetryClassification, Retryable};
use crate::text::{self, same_text};

verus! {

/// Category of an API error, derived from `error.type`.
#[derive(Debug, Clone, PartialEq, Eq)]
pub enum AnthropicApiErrorKind {
    /// The service is at capacity.
    Overloaded,
    /// Quota exceeded.
    RateLimit,
    /// Malformed body or failed validation.
    InvalidRequest,
    /// The prompt does not fit the context window.
    ContextOverflow,
    /// Missing or invalid credentials.
    Authentication,
    /// Lack of access.
    Permission,
    NotFound,
    /// The request body is too large.
    RequestTooLarge,
    /// Failure of the service.
    Api,
    /// A type without a variant of its own, verbatim.
    Other(String),
}

/// The shorter name of [`AnthropicApiErrorKind`].
pub type ApiErrorKind = AnthropicApiErrorKind;

/// What an [`AnthropicApiErrorKind`] says.
pub enum KindModel {
    Overloaded,
    RateLimit,
    InvalidRequest,
    ContextOverflow,
    Authentication,
    Permission,
    NotFound,
    RequestTooLarge,
    Api,
    Other(Seq<char>),
}

impl View for AnthropicApiErrorKind {
    type V = KindModel;

    open spec fn view(&self) -> KindModel {
        match *self {
            AnthropicApiErrorKind::Overloaded => KindModel::Overloaded,
            AnthropicApiErrorKind::RateLimit => KindModel::RateLimit,
            AnthropicApiErrorKind::InvalidRequest => KindModel::InvalidRequest,
            AnthropicApiErrorKind::ContextOverflow => KindModel::ContextOverflow,
            AnthropicApiErrorKind::Authentication => KindModel::Authentication,
            AnthropicApiErrorKind::Permission => KindModel::Permission,
            AnthropicApiErrorKind::NotFound => KindModel::NotFound,
            AnthropicApiErrorKind::RequestTooLarge => KindModel::RequestTooLarge,
            AnthropicApiErrorKind::Api => KindModel::Api,
            AnthropicApiErrorKind::Other(s) => KindModel::Other(s@),
        }
    }
}

/// The category of an error type.
pub open spec fn kind_of_type(s: Seq<char>) -> KindModel {
    if s == "overloaded_error"@ {
        KindModel::Overloaded
    } else if s == "rate_limit_error"@ {
        KindModel::RateLimit
    } else if s == "invalid_request_error"@ {
        KindModel::InvalidRequest
    } else if s == "authentication_error"@ {
        KindModel::Authentication
    } else if s == "permission_error"@ {
        KindModel::Permission
    } else if s == "not_found_error"@ {
        KindModel::NotFound
    } else if s == "request_too_large"@ {
        KindModel::RequestTooLarge
    } else if s == "api_error"@ {
        KindModel::Api
    } else {
        KindModel::Other(s)
    }
}

/// Whether a message says, in whatever letter case, that the prompt is too long.
pub open spec fn prompt_too_long(message: Seq<char>) -> bool {
    text::has_part(text::ascii_lower(message), "prompt is too long"@)
}

/// The category of an error by its type and message.
pub open spec fn kind_of_error(error_type: Seq<char>, message: Seq<char>) -> KindModel {
    if kind_of_type(error_type) is InvalidRequest && prompt_too_long(message) {
        KindModel::ContextOverflow
    } else {
        kind_of_type(error_type)
    }
}

fn is_prompt_too_long(message: &str) -> (r: bool)
    ensures
        r == prompt_too_long(message@),
{
    let lower = text::to_ascii_lower(message);
    text::contains_text(lower.as_str(), "prompt is too long")
}

impl AnthropicApiErrorKind {
    /// Maps an error type to its category.
    pub fn from_error_type(s: &str) -> (r: Self)
        ensures
            r@ == kind_of_type(s@),
    {
        if same_text(s, "overloaded_error") {
            AnthropicApiErrorKind::Overloaded
        } else if same_text(s, "rate_limit_error") {
            AnthropicApiErrorKind::RateLimit
        } else if same_text(s, "invalid_request_error") {
            AnthropicApiErrorKind::InvalidRequest
        } else if same_text(s, "authentication_error") {
            AnthropicApiErrorKind::Authentication
        } else if same_text(s, "permission_error") {
            AnthropicApiErrorKind::Permission
        } else if same_text(s, "not_found_error") {
            AnthropicApiErrorKind::NotFound
        } else if same_text(s, "request_too_large") {
            AnthropicApiErrorKind::RequestTooLarge
        } else if same_text(s, "api_error") {
            AnthropicApiErrorKind::Api
        } else {
            AnthropicApiErrorKind::Other(s.to_owned())
        }
    }

    /// Maps an error to its category and tells a context overflow, which only its message shows,
    /// from other invalid requests.
    pub fn from_error(error_type: &str, message: &str) -> (r: Self)
        ensures
            r@ == kind_of_error(error_type@, message@),
    {
        match AnthropicApiErrorKind::from_error_type(error_type) {
            AnthropicApiErrorKind::InvalidRequest => {
                if is_prompt_too_long(message) {
                    AnthropicApiErrorKind::ContextOverflow
                } else {
                    AnthropicApiErrorKind::InvalidRequest
                }
            },
            kind => kind,
        }
    }
}

/// Failures of a chat call. Transport, framing and decoding failures carry the message of the
/// layer below; a status is the HTTP status code.
#[derive(Debug)]
pub enum AnthropicError {
    /// Transport failure.
    Http(String),
    /// Typed error response.
    Api {
        status: u16,
        kind: AnthropicApiErrorKind,
        message: String,
        retry_after: Option<Duration>,
    },
    /// Error response whose body is no error envelope.
    Status { status: u16, body: String },
    /// Framing failure in the event stream.
    Sse(String),
    /// An event whose payload does not decode.
    Json(String),
    /// Error event in the middle of the stream.
    Provider { kind: AnthropicApiErrorKind, message: String },
}

/// What an [`AnthropicError`] says.
pub enum ErrorModel {
    Http(Seq<char>),
    Api { status: u16, kind: KindModel, message: Seq<char>, retry_after: Option<Duration> },
    Status { status: u16, body: Seq<char> },
    Sse(Seq<char>),
    Json(Seq<char>),
    Provider { kind: KindModel, message: Seq<char> },
}

impl View for AnthropicError {
    type V = ErrorModel;

    open spec fn view(&self) -> ErrorModel {
        match *self {
            AnthropicError::Http(s) => ErrorModel::Http(s@),
            AnthropicError::Api { status, kind, message, retry_after } => ErrorModel::Api {
                status,
                kind: kind@,
                message: message@,
                retry_after,
            },
            AnthropicError::Status { status, body } => ErrorModel::Status { status, body: body@ },
            AnthropicError::Sse(s) => ErrorModel::Sse(s@),
            AnthropicError::Json(s) => ErrorModel::Json(s@),
            AnthropicError::Provider { kind, message } => ErrorModel::Provider {
                kind: kind@,
                message: message@,
            },
        }
    }
}

/// Whether errors of a category may go away by themselves; an unknown category may.
pub open spec fn kind_is_transient(kind: KindModel) -> bool {
    kind is Overloaded || kind is RateLimit || kind is Api || kind is Other
}

/// The retry decision for a category.
pub open spec fn kind_classification(
    kind: KindModel,
    retry_after: Option<Duration>,
) -> RetryClassification {
    if kind_is_transient(kind) {
        RetryClassification::Transient { retry_after }
    } else {
        RetryClassification::Permanent
    }
}

/// The retry decision for an error.
pub open spec fn error_classification(error: ErrorModel) -> RetryClassification {
    match error {
        ErrorModel::Api { kind, retry_after, .. } => kind_classification(kind, retry_after),
        ErrorModel::Provider { kind, .. } => kind_classification(kind, None),
        ErrorModel::Status { status, .. } => if 500 <= status < 600 {
            RetryClassification::Transient { retry_after: None }
        } else {
            RetryClassification::Permanent
        },
        ErrorModel::Http(_) => RetryClassification::Transient { retry_after: None },
        _ => RetryClassification::Permanent,
    }
}

/// Whether an error says that the prompt did not fit.
pub open spec fn error_is_overflow(error: ErrorModel) -> bool {
    match error {
        ErrorModel::Api { kind, .. } => kind is ContextOverflow,
        ErrorModel::Provider { kind, .. } => kind is ContextOverflow,
        _ => false,
    }
}

fn classify_kind(kind: &AnthropicApiErrorKind, retry_after: Option<Duration>) -> (r: RetryClassification)
    ensures
        r == kind_classification(kind@, retry_after),
{
    match kind {
        AnthropicApiErrorKind::Overloaded => RetryClassification::Transient { retry_after },
        AnthropicApiErrorKind::RateLimit => RetryClassification::Transient { retry_after },
        AnthropicApiErrorKind::Api => RetryClassification::Transient { retry_after },
        AnthropicApiErrorKind::Other(_) => RetryClassification::Transient { retry_after },
        _ => RetryClassification::Permanent,
    }
}

impl Retryable for AnthropicError {
    fn retry_classification(&self) -> (r: RetryClassification)
        ensures
            r == error_classification(self@),
    {
        match self {
            AnthropicError::Api { kind, retry_after, .. } => classify_kind(kind, *retry_after),
            AnthropicError::Provider { kind, .. } => classify_kind(kind, None),
            AnthropicError::Status { status, .. } => {
                if 500 <= *status && *status < 600 {
                    RetryClassification::Transient { retry_after: None }
                } else {
                    RetryClassification::Permanent
                }
            },
            AnthropicError::Http(_) => RetryClassification::Transient { retry_after: None },
            _ => RetryClassification::Permanent,
        }
    }
}

impl ProviderError for AnthropicError {
    fn is_context_overflow(&self) -> (r: bool)
        ensures
            r == error_is_overflow(self@),
    {
        match self {
            AnthropicError::Api { kind: AnthropicApiErrorKind::ContextOverflow, .. } => true,
            AnthropicError::Provider { kind: AnthropicApiErrorKind::ContextOverflow, .. } => true,
            _ => false,
        }
    }
}

/// A context overflow is never retried unchanged.
pub proof fn overflow_is_permanent(error: ErrorModel)
    requires
        error_is_overflow(error),
    ensures
        error_classification(error) == RetryClassification::Permanent,
{
}

/// The message changes the category in one case only: an invalid request may be an overflow. The
/// type alone never shows an overflow.
pub proof fn message_only_splits_invalid_requests(error_type: Seq<char>, message: Seq<char>)
    ensures
        kind_of_error(error_type, message) is ContextOverflow <==> kind_of_type(
            error_type,
        ) is InvalidRequest && prompt_too_long(message),
        !(kind_of_error(error_type, message) is ContextOverflow) ==> kind_of_error(
            error_type,
            message,
        ) == kind_of_type(error_type),
        !(kind_of_type(error_type) is ContextOverflow),
{
}

} // verus!
