//! Reads error responses.

use vstd::prelude::*;

use super::errors::{self, AzureOpenAIApiErrorKind, AzureOpenAIError, ErrorModel};
use crate::duration::Duration;
use crate::json::{self, Json, JsonModel};
use crate::record::{self, field_of, is_record_of, optional_text_field_of, text_field_of};
use crate::text::{self, parse_unsigned, trim};

verus! {

/// The number in a header, with white space around it allowed.
pub open spec fn header_number(header: Option<&str>) -> Option<u64> {
    match header {
        Some(s) => text::unsigned_value(text::trimmed(s@)),
        None => None,
    }
}

/// How long to wait, in nanoseconds: `retry-after-ms` counts first, then `retry-after` in seconds.
pub open spec fn retry_delay(retry_after_ms: Option<&str>, retry_after: Option<&str>) -> Option<nat> {
    match header_number(retry_after_ms) {
        Some(ms) => Some((ms * 1_000_000) as nat),
        None => match header_number(retry_after) {
            Some(secs) => Some((secs * 1_000_000_000) as nat),
            None => None,
        },
    }
}

fn read_header(header: Option<&str>) -> (r: Option<u64>)
    ensures
        r == header_number(header),
{
    match header {
        Some(s) => {
            let trimmed = trim(s);
            parse_unsigned(trimmed.as_str())
        },
        None => None,
    }
}

/// Reads the retry headers, each given as text where it is there and readable.
pub fn parse_retry_after(retry_after_ms: Option<&str>, retry_after: Option<&str>) -> (r: Option<Duration>)
    ensures
        r is Some <==> retry_delay(retry_after_ms, retry_after) is Some,
        r matches Some(d) ==> retry_delay(retry_after_ms, retry_after) == Some(d@),
{
    match read_header(retry_after_ms) {
        Some(ms) => Some(Duration::from_millis(ms)),
        None => match read_header(retry_after) {
            Some(secs) => Some(Duration::from_secs(secs)),
            None => None,
        },
    }
}

/// Code and message of an error envelope. The code may be missing or null; the message may not.
pub open spec fn envelope(document: JsonModel) -> Option<(Seq<char>, Seq<char>)> {
    match (record::is_record(document, 1), record::field(document, "error"@, 0)) {
        (true, Some(error)) => match (
            record::is_record(error, 2),
            record::optional_text_field(error, "code"@, 0),
            record::text_field(error, "message"@, 1),
        ) {
            (true, Some(Some(code)), Some(message)) => Some((code, message)),
            (true, Some(None), Some(message)) => Some((Seq::empty(), message)),
            _ => None,
        },
        _ => None,
    }
}

/// The error for a response whose body parses to `parsed`.
pub open spec fn response_error(
    status: u16,
    body: Seq<char>,
    parsed: Result<JsonModel, Seq<char>>,
    retry_after: Option<Duration>,
) -> ErrorModel {
    match parsed {
        Ok(document) => match envelope(document) {
            Some((code, message)) => ErrorModel::Api {
                status,
                kind: errors::kind_of_code(code),
                message,
                retry_after,
            },
            None => ErrorModel::Status { status, body },
        },
        Err(_) => ErrorModel::Status { status, body },
    }
}

fn read_envelope(document: &Json) -> (r: Option<(String, String)>)
    ensures
        envelope(document@) == (match r {
            Some((code, message)) => Some((code@, message@)),
            None => None,
        }),
{
    match (is_record_of(document, 1), field_of(document, "error", 0)) {
        (true, Some(error)) => match (
            is_record_of(error, 2),
            optional_text_field_of(error, "code", 0),
            text_field_of(error, "message", 1),
        ) {
            (true, Some(Some(code)), Some(message)) => Some((code, message.clone())),
            (true, Some(None), Some(message)) => Some((String::new(), message.clone())),
            _ => None,
        },
        _ => None,
    }
}

/// Turns an error response into the most specific error, from its body and what parsing made of
/// that.
pub fn classify_parsed_error(
    status: u16,
    body: String,
    parsed: Result<Json, String>,
    retry_after: Option<Duration>,
) -> (r: AzureOpenAIError)
    ensures
        r@ == response_error(
            status,
            body@,
            match parsed {
                Ok(j) => Ok(j@),
                Err(e) => Err(e@),
            },
            retry_after,
        ),
{
    if let Ok(document) = &parsed {
        if let Some((code, message)) = read_envelope(document) {
            return AzureOpenAIError::Api {
                status,
                kind: AzureOpenAIApiErrorKind::from_error_code(code.as_str()),
                message,
                retry_after,
            };
        }
    }
    AzureOpenAIError::Status { status, body }
}

/// Turns an error response into the most specific error.
pub fn classify_http_error(status: u16, body: String, retry_after: Option<Duration>) -> (r: AzureOpenAIError)
    ensures
        r@ == response_error(status, body@, json::json_parse(body@), retry_after),
{
    let parsed = Json::parse(body.as_str());
    classify_parsed_error(status, body, parsed, retry_after)
}

} // verus!
