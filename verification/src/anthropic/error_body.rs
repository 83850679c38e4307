//! Reads error responses.

use vstd::prelude::*;

use super::errors::{self, AnthropicApiErrorKind, AnthropicError, ErrorModel};
use crate::duration::Duration;
use crate::json::{self, Json, JsonModel};
use crate::record::{self, field_of, is_record_of, text_field_of};
use crate::text::{self, parse_unsigned, trim};

verus! {

/// The seconds in a `retry-after` header, with white space around them allowed.
pub open spec fn retry_seconds(header: Option<&str>) -> Option<u64> {
    match header {
        Some(s) => text::unsigned_value(text::trimmed(s@)),
        None => None,
    }
}

/// Reads the `retry-after` header, given as text where it is there and readable. A date in it is
/// not understood.
pub fn parse_retry_after(header: Option<&str>) -> (r: Option<Duration>)
    ensures
        r is Some <==> retry_seconds(header) is Some,
        r matches Some(d) ==> d@ == retry_seconds(header)->0 * 1_000_000_000,
{
    match header {
        Some(s) => {
            let trimmed = trim(s);
            match parse_unsigned(trimmed.as_str()) {
                Some(secs) => Some(Duration::from_secs(secs)),
                None => None,
            }
        },
        None => None,
    }
}

/// Type and message of an error envelope; both must be texts.
pub open spec fn envelope(document: JsonModel) -> Option<(Seq<char>, Seq<char>)> {
    match (record::is_record(document, 1), record::field(document, "error"@, 0)) {
        (true, Some(error)) => match (
            record::is_record(error, 2),
            record::text_field(error, "type"@, 0),
            record::text_field(error, "message"@, 1),
        ) {
            (true, Some(error_type), Some(message)) => Some((error_type, message)),
            _ => None,
        },
        _ => None,
    }
}

/// The error for a response whose body parses to `parsed`.
pub open spec fn response_error(
    status: u16,
    body: Seq<char>,
    parsed: Result<JsonModel, Seq<char>>,
    retry_after: Option<Duration>,
) -> ErrorModel {
    match parsed {
        Ok(document) => match envelope(document) {
            Some((error_type, message)) => ErrorModel::Api {
                status,
                kind: errors::kind_of_error(error_type, message),
                message,
                retry_after,
            },
            None => ErrorModel::Status { status, body },
        },
        Err(_) => ErrorModel::Status { status, body },
    }
}

fn read_envelope(document: &Json) -> (r: Option<(String, String)>)
    ensures
        envelope(document@) == (match r {
            Some((error_type, message)) => Some((error_type@, message@)),
            None => None,
        }),
{
    match (is_record_of(document, 1), field_of(document, "error", 0)) {
        (true, Some(error)) => match (
            is_record_of(error, 2),
            text_field_of(error, "type", 0),
            text_field_of(error, "message", 1),
        ) {
            (true, Some(error_type), Some(message)) => Some((error_type.clone(), message.clone())),
            _ => None,
        },
        _ => None,
    }
}

/// Turns an error response into the most specific error, from its body and what parsing made of
/// that.
pub fn classify_parsed_error(
    status: u16,
    body: String,
    parsed: Result<Json, String>,
    retry_after: Option<Duration>,
) -> (r: AnthropicError)
    ensures
        r@ == response_error(
            status,
            body@,
            match parsed {
                Ok(j) => Ok(j@),
                Err(e) => Err(e@),
            },
            retry_after,
        ),
{
    if let Ok(document) = &parsed {
        if let Some((error_type, message)) = read_envelope(document) {
            return AnthropicError::Api {
                status,
                kind: AnthropicApiErrorKind::from_error(error_type.as_str(), message.as_str()),
                message,
                retry_after,
            };
        }
    }
    AnthropicError::Status { status, body }
}

/// Turns an error response into the most specific error.
pub fn classify_http_error(status: u16, body: String, retry_after: Option<Duration>) -> (r: AnthropicError)
    ensures
        r@ == response_error(status, body@, json::json_parse(body@), retry_after),
{
    let parsed = Json::parse(body.as_str());
    classify_parsed_error(status, body, parsed, retry_after)
}

} // verus!
