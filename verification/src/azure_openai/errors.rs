//! Errors of the Azure OpenAI adapter and what they mean for a retry.

use vstd::prelude::*;

use crate::duration::Duration;
use crate::provider_error::ProviderError;
use crate::retry::{RetryClassification, Retryable};
use crate::text::same_text;

verus! {

/// Category of an API error, derived from `error.code`.
#[derive(Debug, Clone, PartialEq, Eq)]
pub enum AzureOpenAIApiErrorKind {
    /// Quota exceeded.
    RateLimit,
    /// Malformed body or failed validation.
    InvalidRequest,
    /// The prompt does not fit the context window.
    ContextOverflow,
    /// Blocked by the content-safety filter.
    ContentFilter,
    /// Missing or invalid credentials.
    Authentication,
    /// Lack of access.
    Permission,
    NotFound,
    /// The deployment was not found.
    DeploymentNotFound,
    /// Failure of the service.
    ServerError,
    /// A code without a variant of its own, verbatim.
    Other(String),
}

/// What an [`AzureOpenAIApiErrorKind`] says.
pub enum KindModel {
    RateLimit,
    InvalidRequest,
    ContextOverflow,
    ContentFilter,
    Authentication,
    Permission,
    NotFound,
    DeploymentNotFound,
    ServerError,
    Other(Seq<char>),
}

impl View for AzureOpenAIApiErrorKind {
    type V = KindModel;

    open spec fn view(&self) -> KindModel {
        match *self {
            AzureOpenAIApiErrorKind::RateLimit => KindModel::RateLimit,
            AzureOpenAIApiErrorKind::InvalidRequest => KindModel::InvalidRequest,
            AzureOpenAIApiErrorKind::ContextOverflow => KindModel::ContextOverflow,
            AzureOpenAIApiErrorKind::ContentFilter => KindModel::ContentFilter,
            AzureOpenAIApiErrorKind::Authentication => KindModel::Authentication,
            AzureOpenAIApiErrorKind::Permission => KindModel::Permission,
            AzureOpenAIApiErrorKind::NotFound => KindModel::NotFound,
            AzureOpenAIApiErrorKind::DeploymentNotFound => KindModel::DeploymentNotFound,
            AzureOpenAIApiErrorKind::ServerError => KindModel::ServerError,
            AzureOpenAIApiErrorKind::Other(s) => KindModel::Other(s@),
        }
    }
}

/// The category of an error code. Azure mixes snake case and Pascal case.
pub open spec fn kind_of_code(code: Seq<char>) -> KindModel {
    if code == "rate_limit_exceeded"@ || code == "429"@ {
        KindModel::RateLimit
    } else if code == "invalid_request_error"@ || code == "BadRequest"@ {
        KindModel::InvalidRequest
    } else if code == "context_length_exceeded"@ {
        KindModel::ContextOverflow
    } else if code == "content_filter"@ {
        KindModel::ContentFilter
    } else if code == "invalid_api_key"@ || code == "Unauthorized"@ {
        KindModel::Authentication
    } else if code == "PermissionDenied"@ {
        KindModel::Permission
    } else if code == "NotFound"@ {
        KindModel::NotFound
    } else if code == "DeploymentNotFound"@ {
        KindModel::DeploymentNotFound
    } else if code == "server_error"@ || code == "InternalServerError"@ {
        KindModel::ServerError
    } else {
        KindModel::Other(code)
    }
}

impl AzureOpenAIApiErrorKind {
    /// Maps an error code to its category.
    pub fn from_error_code(s: &str) -> (r: Self)
        ensures
            r@ == kind_of_code(s@),
    {
        if same_text(s, "rate_limit_exceeded") || same_text(s, "429") {
            AzureOpenAIApiErrorKind::RateLimit
        } else if same_text(s, "invalid_request_error") || same_text(s, "BadRequest") {
            AzureOpenAIApiErrorKind::InvalidRequest
        } else if same_text(s, "context_length_exceeded") {
            AzureOpenAIApiErrorKind::ContextOverflow
        } else if same_text(s, "content_filter") {
            AzureOpenAIApiErrorKind::ContentFilter
        } else if same_text(s, "invalid_api_key") || same_text(s, "Unauthorized") {
            AzureOpenAIApiErrorKind::Authentication
        } else if same_text(s, "PermissionDenied") {
            AzureOpenAIApiErrorKind::Permission
        } else if same_text(s, "NotFound") {
            AzureOpenAIApiErrorKind::NotFound
        } else if same_text(s, "DeploymentNotFound") {
            AzureOpenAIApiErrorKind::DeploymentNotFound
        } else if same_text(s, "server_error") || same_text(s, "InternalServerError") {
            AzureOpenAIApiErrorKind::ServerError
        } else {
            AzureOpenAIApiErrorKind::Other(s.to_owned())
        }
    }
}

/// Failures of a chat call. Transport, framing and decoding failures carry the message of the
/// layer below; a status is the HTTP status code.
#[derive(Debug)]
pub enum AzureOpenAIError {
    /// Transport failure.
    Http(String),
    /// Typed error response.
    Api {
        status: u16,
        kind: AzureOpenAIApiErrorKind,
        message: String,
        retry_after: Option<Duration>,
    },
    /// Error response whose body is no error envelope.
    Status { status: u16, body: String },
    /// Framing failure in the event stream.
    Sse(String),
    /// An event whose payload does not decode.
    Json(String),
    /// Error event in the middle of the stream.
    Provider { kind: AzureOpenAIApiErrorKind, message: String },
    /// Missing or contradictory configuration.
    Config(String),
    /// Content that Chat Completions cannot represent, by a stable label.
    UnsupportedContent { kind: &'static str },
}

/// What an [`AzureOpenAIError`] says.
pub enum ErrorModel {
    Http(Seq<char>),
    Api { status: u16, kind: KindModel, message: Seq<char>, retry_after: Option<Duration> },
    Status { status: u16, body: Seq<char> },
    Sse(Seq<char>),
    Json(Seq<char>),
    Provider { kind: KindModel, message: Seq<char> },
    Config(Seq<char>),
    UnsupportedContent { kind: Seq<char> },
}

impl View for AzureOpenAIError {
    type V = ErrorModel;

    open spec fn view(&self) -> ErrorModel {
        match *self {
            AzureOpenAIError::Http(s) => ErrorModel::Http(s@),
            AzureOpenAIError::Api { status, kind, message, retry_after } => ErrorModel::Api {
                status,
                kind: kind@,
                message: message@,
                retry_after,
            },
            AzureOpenAIError::Status { status, body } => ErrorModel::Status { status, body: body@ },
            AzureOpenAIError::Sse(s) => ErrorModel::Sse(s@),
            AzureOpenAIError::Json(s) => ErrorModel::Json(s@),
            AzureOpenAIError::Provider { kind, message } => ErrorModel::Provider {
                kind: kind@,
                message: message@,
            },
            AzureOpenAIError::Config(s) => ErrorModel::Config(s@),
            AzureOpenAIError::UnsupportedContent { kind } => ErrorModel::UnsupportedContent {
                kind: kind@,
            },
        }
    }
}

/// Whether errors of a category may go away by themselves; an unknown category may.
pub open spec fn kind_is_transient(kind: KindModel) -> bool {
    kind is RateLimit || kind is ServerError || kind is Other
}

/// The retry decision for a category.
pub open spec fn kind_classification(
    kind: KindModel,
    retry_after: Option<Duration>,
) -> RetryClassification {
    if kind_is_transient(kind) {
        RetryClassification::Transient { retry_after }
    } else {
        RetryClassification::Permanent
    }
}

/// The retry decision for an error.
pub open spec fn error_classification(error: ErrorModel) -> RetryClassification {
    match error {
        ErrorModel::Api { kind, retry_after, .. } => kind_classification(kind, retry_after),
        ErrorModel::Status { status, .. } => if 500 <= status < 600 {
            RetryClassification::Transient { retry_after: None }
        } else {
            RetryClassification::Permanent
        },
        ErrorModel::Provider { kind, .. } => kind_classification(kind, None),
        ErrorModel::Http(_) => RetryClassification::Transient { retry_after: None },
        _ => RetryClassification::Permanent,
    }
}

/// Whether an error says that the prompt did not fit.
pub open spec fn error_is_overflow(error: ErrorModel) -> bool {
    match error {
        ErrorModel::Api { kind, .. } => kind is ContextOverflow,
        ErrorModel::Provider { kind, .. } => kind is ContextOverflow,
        _ => false,
    }
}

fn classify_kind(kind: &AzureOpenAIApiErrorKind, retry_after: Option<Duration>) -> (r: RetryClassification)
    ensures
        r == kind_classification(kind@, retry_after),
{
    match kind {
        AzureOpenAIApiErrorKind::RateLimit => RetryClassification::Transient { retry_after },
        AzureOpenAIApiErrorKind::ServerError => RetryClassification::Transient { retry_after },
        AzureOpenAIApiErrorKind::Other(_) => RetryClassification::Transient { retry_after },
        _ => RetryClassification::Permanent,
    }
}

impl Retryable for AzureOpenAIError {
    fn retry_classification(&self) -> (r: RetryClassification)
        ensures
            r == error_classification(self@),
    {
        match self {
            AzureOpenAIError::Api { kind, retry_after, .. } => classify_kind(kind, *retry_after),
            AzureOpenAIError::Status { status, .. } => {
                if 500 <= *status && *status < 600 {
                    RetryClassification::Transient { retry_after: None }
                } else {
                    RetryClassification::Permanent
                }
            },
            AzureOpenAIError::Provider { kind, .. } => classify_kind(kind, None),
            AzureOpenAIError::Http(_) => RetryClassification::Transient { retry_after: None },
            _ => RetryClassification::Permanent,
        }
    }
}

impl ProviderError for AzureOpenAIError {
    fn is_context_overflow(&self) -> (r: bool)
        ensures
            r == error_is_overflow(self@),
    {
        match self {
            AzureOpenAIError::Api { kind: AzureOpenAIApiErrorKind::ContextOverflow, .. } => true,
            AzureOpenAIError::Provider { kind: AzureOpenAIApiErrorKind::ContextOverflow, .. } => true,
            _ => false,
        }
    }
}

/// A context overflow is never retried unchanged.
pub proof fn overflow_is_permanent(error: ErrorModel)
    requires
        error_is_overflow(error),
    ensures
        error_classification(error) == RetryClassification::Permanent,
{
}

} // verus!
