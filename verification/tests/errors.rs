use ailoop::anthropic::error_body as anthropic_body;
use ailoop::anthropic::errors::{AnthropicApiErrorKind, AnthropicError, ApiErrorKind};
use ailoop::azure_openai::error_body as azure_body;
use ailoop::azure_openai::errors::{AzureOpenAIApiErrorKind, AzureOpenAIError};
use ailoop::duration::Duration;
use ailoop::json::Json;
use ailoop::provider_error::ProviderError;
use ailoop::retry::{RetryClassification, RetryConfig, RetryState, RetryStep, Retryable};

fn anthropic_api(
    status: u16,
    kind: AnthropicApiErrorKind,
    message: &str,
    retry_after: Option<Duration>,
) -> AnthropicError {
    AnthropicError::Api {
        status,
        kind,
        message: message.to_string(),
        retry_after,
    }
}

fn azure_api(
    status: u16,
    kind: AzureOpenAIApiErrorKind,
    message: &str,
    retry_after: Option<Duration>,
) -> AzureOpenAIError {
    AzureOpenAIError::Api {
        status,
        kind,
        message: message.to_string(),
        retry_after,
    }
}

#[test]
fn errors_rate_limit_with_retry_after_is_transient() {
    let err = anthropic_api(
        429,
        AnthropicApiErrorKind::RateLimit,
        "slow down",
        Some(Duration::from_secs(2)),
    );
    assert_eq!(
        err.retry_classification(),
        RetryClassification::Transient {
            retry_after: Some(Duration::from_secs(2))
        },
    );
    let err = azure_api(
        429,
        AzureOpenAIApiErrorKind::RateLimit,
        "throttled",
        Some(Duration::from_millis(750)),
    );
    assert_eq!(
        err.retry_classification(),
        RetryClassification::Transient {
            retry_after: Some(Duration::from_millis(750))
        },
    );
}

#[test]
fn errors_overloaded_provider_event_is_transient_without_retry_after() {
    let err = AnthropicError::Provider {
        kind: ApiErrorKind::Overloaded,
        message: "overloaded".into(),
    };
    assert_eq!(
        err.retry_classification(),
        RetryClassification::Transient { retry_after: None },
    );
}

#[test]
fn errors_server_error_is_transient() {
    let err = azure_api(500, AzureOpenAIApiErrorKind::ServerError, "boom", None);
    assert_eq!(
        err.retry_classification(),
        RetryClassification::Transient { retry_after: None },
    );
}

#[test]
fn errors_authentication_is_permanent() {
    let err = anthropic_api(401, AnthropicApiErrorKind::Authentication, "bad key", None);
    assert_eq!(err.retry_classification(), RetryClassification::Permanent);
    let err = azure_api(401, AzureOpenAIApiErrorKind::Authentication, "bad key", None);
    assert_eq!(err.retry_classification(), RetryClassification::Permanent);
}

#[test]
fn errors_deployment_not_found_is_permanent() {
    let err = azure_api(
        404,
        AzureOpenAIApiErrorKind::DeploymentNotFound,
        "no such deployment",
        None,
    );
    assert_eq!(err.retry_classification(), RetryClassification::Permanent);
}

#[test]
fn errors_unknown_kind_is_conservatively_transient() {
    let err = anthropic_api(
        500,
        AnthropicApiErrorKind::Other("future_kind".into()),
        "?",
        None,
    );
    assert_eq!(
        err.retry_classification(),
        RetryClassification::Transient { retry_after: None },
    );
    let err = azure_api(
        502,
        AzureOpenAIApiErrorKind::Other("WeirdNewCode".into()),
        "?",
        None,
    );
    assert_eq!(
        err.retry_classification(),
        RetryClassification::Transient { retry_after: None },
    );
}

#[test]
fn errors_context_overflow_is_permanent() {
    let err = anthropic_api(
        400,
        AnthropicApiErrorKind::ContextOverflow,
        "prompt is too long: 1048577 tokens > 1000000 maximum",
        None,
    );
    assert_eq!(err.retry_classification(), RetryClassification::Permanent);
    let err = azure_api(
        400,
        AzureOpenAIApiErrorKind::ContextOverflow,
        "Your input exceeds the context window of this model.",
        None,
    );
    assert_eq!(err.retry_classification(), RetryClassification::Permanent);
}

#[test]
fn errors_provider_error_flags_only_context_overflow() {
    let http = anthropic_api(
        400,
        AnthropicApiErrorKind::ContextOverflow,
        "prompt is too long",
        None,
    );
    let event = AnthropicError::Provider {
        kind: AnthropicApiErrorKind::ContextOverflow,
        message: "prompt is too long".into(),
    };
    let other = anthropic_api(400, AnthropicApiErrorKind::InvalidRequest, "bad field", None);
    assert!(http.is_context_overflow());
    assert!(event.is_context_overflow());
    assert!(!other.is_context_overflow());

    let overflow = azure_api(400, AzureOpenAIApiErrorKind::ContextOverflow, "too long", None);
    let other = azure_api(400, AzureOpenAIApiErrorKind::InvalidRequest, "bad field", None);
    let event = AzureOpenAIError::Provider {
        kind: AzureOpenAIApiErrorKind::ContextOverflow,
        message: "too long".into(),
    };
    assert!(overflow.is_context_overflow());
    assert!(event.is_context_overflow());
    assert!(!other.is_context_overflow());
}

#[test]
fn from_error_splits_overflow_from_other_invalid_requests() {
    assert_eq!(
        AnthropicApiErrorKind::from_error("invalid_request_error", "prompt is too long"),
        AnthropicApiErrorKind::ContextOverflow,
    );
    assert_eq!(
        AnthropicApiErrorKind::from_error(
            "invalid_request_error",
            "Prompt is too long: 1048577 tokens > 1000000 maximum",
        ),
        AnthropicApiErrorKind::ContextOverflow,
    );
    assert_eq!(
        AnthropicApiErrorKind::from_error(
            "invalid_request_error",
            "adaptive thinking is not supported on this model",
        ),
        AnthropicApiErrorKind::InvalidRequest,
    );
    assert_eq!(
        AnthropicApiErrorKind::from_error("api_error", "prompt is too long"),
        AnthropicApiErrorKind::Api,
    );
}

#[test]
fn errors_status_fallback_splits_on_server_vs_client() {
    let server = AnthropicError::Status {
        status: 502,
        body: "<html/>".into(),
    };
    assert_eq!(
        server.retry_classification(),
        RetryClassification::Transient { retry_after: None },
    );
    let client = AnthropicError::Status {
        status: 400,
        body: "<html/>".into(),
    };
    assert_eq!(
        client.retry_classification(),
        RetryClassification::Permanent
    );
}

#[test]
fn provider_event_is_classified_by_kind() {
    let server = AzureOpenAIError::Provider {
        kind: AzureOpenAIApiErrorKind::ServerError,
        message: "boom".into(),
    };
    assert_eq!(
        server.retry_classification(),
        RetryClassification::Transient { retry_after: None },
    );
    let filtered = AzureOpenAIError::Provider {
        kind: AzureOpenAIApiErrorKind::ContentFilter,
        message: "blocked".into(),
    };
    assert_eq!(
        filtered.retry_classification(),
        RetryClassification::Permanent
    );
}

fn calls_until_given_up(classification: RetryClassification) -> u32 {
    let config = RetryConfig {
        base_delay: Duration::from_millis(1),
        max_delay: Duration::from_millis(1),
        jitter: false,
        ..RetryConfig::default()
    };
    let mut state = RetryState::new();
    let mut calls = 1;
    while let RetryStep::RetryAfter { .. } = state.failed(&config, classification) {
        calls += 1;
    }
    calls
}

#[test]
fn errors_retrying_model_does_not_retry_context_overflow() {
    let overflow = anthropic_api(
        400,
        AnthropicApiErrorKind::ContextOverflow,
        "prompt is too long",
        None,
    );
    assert_eq!(calls_until_given_up(overflow.retry_classification()), 1);
    let overloaded = anthropic_api(529, AnthropicApiErrorKind::Overloaded, "busy", None);
    assert_eq!(calls_until_given_up(overloaded.retry_classification()), 3);

    let overflow = azure_api(400, AzureOpenAIApiErrorKind::ContextOverflow, "too long", None);
    assert_eq!(calls_until_given_up(overflow.retry_classification()), 1);
    let server = azure_api(500, AzureOpenAIApiErrorKind::ServerError, "boom", None);
    assert_eq!(calls_until_given_up(server.retry_classification()), 3);
}

#[test]
fn parses_retry_after_ms_with_higher_priority() {
    assert_eq!(
        azure_body::parse_retry_after(Some("1500"), Some("3")),
        Some(Duration::from_millis(1500))
    );
}

#[test]
fn falls_back_to_retry_after_seconds() {
    assert_eq!(
        azure_body::parse_retry_after(None, Some("7")),
        Some(Duration::from_secs(7))
    );
    assert_eq!(
        azure_body::parse_retry_after(Some("soon"), Some(" 7 ")),
        Some(Duration::from_secs(7))
    );
}

#[test]
fn missing_retry_headers_returns_none() {
    assert_eq!(azure_body::parse_retry_after(None, None), None);
}

#[test]
fn classifies_rate_limit_with_retry_after_ms() {
    let body = r#"{"error":{"code":"rate_limit_exceeded","message":"slow down","type":"requests"}}"#
        .to_string();
    match azure_body::classify_http_error(429, body, Some(Duration::from_millis(2500))) {
        AzureOpenAIError::Api {
            status,
            kind,
            message,
            retry_after,
        } => {
            assert_eq!(status, 429);
            assert_eq!(kind, AzureOpenAIApiErrorKind::RateLimit);
            assert_eq!(message, "slow down");
            assert_eq!(retry_after, Some(Duration::from_millis(2500)));
        }
        other => panic!("expected Api variant, got {other:?}"),
    }
}

#[test]
fn classifies_deployment_not_found() {
    let body =
        r#"{"error":{"code":"DeploymentNotFound","message":"no such deployment"}}"#.to_string();
    let err = azure_body::classify_http_error(404, body, None);
    assert!(matches!(
        err,
        AzureOpenAIError::Api {
            kind: AzureOpenAIApiErrorKind::DeploymentNotFound,
            ..
        }
    ));
}

#[test]
fn classifies_content_filter() {
    let body = r#"{"error":{"code":"content_filter","message":"blocked"}}"#.to_string();
    let err = azure_body::classify_http_error(400, body, None);
    assert!(matches!(
        err,
        AzureOpenAIError::Api {
            kind: AzureOpenAIApiErrorKind::ContentFilter,
            ..
        }
    ));
}

#[test]
fn unknown_error_code_is_captured_as_other() {
    let body = r#"{"error":{"code":"FutureCode","message":"x"}}"#.to_string();
    match azure_body::classify_http_error(418, body, None) {
        AzureOpenAIError::Api { kind, .. } => {
            assert_eq!(kind, AzureOpenAIApiErrorKind::Other("FutureCode".into()));
        }
        other => panic!("expected Api variant, got {other:?}"),
    }
}

#[test]
fn missing_code_field_is_captured_as_empty_other() {
    for body in [
        r#"{"error":{"message":"some message"}}"#,
        r#"{"error":{"code":null,"message":"some message"}}"#,
    ] {
        match azure_body::classify_http_error(400, body.to_string(), None) {
            AzureOpenAIError::Api { kind, message, .. } => {
                assert_eq!(kind, AzureOpenAIApiErrorKind::Other(String::new()));
                assert_eq!(message, "some message");
            }
            other => panic!("expected Api variant, got {other:?}"),
        }
    }
}

#[test]
fn error_body_non_json_body_falls_back_to_status() {
    let body = "<html>Azure Front Door 502</html>".to_string();
    match azure_body::classify_http_error(502, body.clone(), None) {
        AzureOpenAIError::Status {
            status,
            body: given,
        } => {
            assert_eq!(status, 502);
            assert_eq!(given, body);
        }
        other => panic!("expected Status fallback, got {other:?}"),
    }
    let body = "<html>nginx 502 bad gateway</html>".to_string();
    match anthropic_body::classify_http_error(502, body.clone(), None) {
        AnthropicError::Status {
            status,
            body: given,
        } => {
            assert_eq!(status, 502);
            assert_eq!(given, body);
        }
        other => panic!("expected Status fallback, got {other:?}"),
    }
}

#[test]
fn envelopes_of_another_shape_fall_back_to_status() {
    for body in [
        r#"{"error":"oops"}"#,
        r#"{"error":{"code":7,"message":"x"}}"#,
        r#"{"error":{"code":"c"}}"#,
        r#"{}"#,
        r#"[]"#,
    ] {
        let err = azure_body::classify_http_error(400, body.to_string(), None);
        assert!(matches!(err, AzureOpenAIError::Status { .. }), "{body}");
        let err = anthropic_body::classify_http_error(400, body.to_string(), None);
        assert!(matches!(err, AnthropicError::Status { .. }), "{body}");
    }
}

#[test]
fn parsed_bodies_are_classified_like_raw_ones() {
    let body = r#"{"error":{"type":"api_error","message":"x"}}"#;
    let parsed = Ok(Json::parse(body).unwrap());
    let err = anthropic_body::classify_parsed_error(500, body.to_string(), parsed, None);
    assert!(matches!(
        err,
        AnthropicError::Api {
            kind: AnthropicApiErrorKind::Api,
            ..
        }
    ));
    let err =
        anthropic_body::classify_parsed_error(500, body.to_string(), Err("bad".to_string()), None);
    assert!(matches!(err, AnthropicError::Status { .. }));
}

#[test]
fn parses_retry_after_seconds() {
    assert_eq!(
        anthropic_body::parse_retry_after(Some("30")),
        Some(Duration::from_secs(30))
    );
}

#[test]
fn missing_retry_after_returns_none() {
    assert_eq!(anthropic_body::parse_retry_after(None), None);
}

#[test]
fn http_date_retry_after_is_not_yet_supported() {
    assert_eq!(
        anthropic_body::parse_retry_after(Some("Wed, 21 Oct 2015 07:28:00 GMT")),
        None
    );
}

#[test]
fn classifies_rate_limit_with_retry_after() {
    let body = r#"{"type":"error","error":{"type":"rate_limit_error","message":"slow down"}}"#
        .to_string();
    match anthropic_body::classify_http_error(429, body, Some(Duration::from_secs(15))) {
        AnthropicError::Api {
            status,
            kind,
            message,
            retry_after,
        } => {
            assert_eq!(status, 429);
            assert_eq!(kind, AnthropicApiErrorKind::RateLimit);
            assert_eq!(message, "slow down");
            assert_eq!(retry_after, Some(Duration::from_secs(15)));
        }
        other => panic!("expected Api variant, got {other:?}"),
    }
}

#[test]
fn classifies_overloaded() {
    let body =
        r#"{"type":"error","error":{"type":"overloaded_error","message":"busy"}}"#.to_string();
    let err = anthropic_body::classify_http_error(529, body, None);
    assert!(matches!(
        err,
        AnthropicError::Api {
            kind: AnthropicApiErrorKind::Overloaded,
            ..
        }
    ));
}

#[test]
fn unknown_error_type_is_captured_as_other() {
    let body = r#"{"type":"error","error":{"type":"future_error_kind","message":"x"}}"#.to_string();
    match anthropic_body::classify_http_error(418, body, None) {
        AnthropicError::Api { kind, .. } => {
            assert_eq!(
                kind,
                AnthropicApiErrorKind::Other("future_error_kind".into())
            );
        }
        other => panic!("expected Api variant, got {other:?}"),
    }
}

#[test]
fn every_documented_error_type_has_a_kind() {
    for (name, kind) in [
        ("overloaded_error", AnthropicApiErrorKind::Overloaded),
        ("rate_limit_error", AnthropicApiErrorKind::RateLimit),
        ("invalid_request_error", AnthropicApiErrorKind::InvalidRequest),
        ("authentication_error", AnthropicApiErrorKind::Authentication),
        ("permission_error", AnthropicApiErrorKind::Permission),
        ("not_found_error", AnthropicApiErrorKind::NotFound),
        ("request_too_large", AnthropicApiErrorKind::RequestTooLarge),
        ("api_error", AnthropicApiErrorKind::Api),
    ] {
        assert_eq!(AnthropicApiErrorKind::from_error_type(name), kind);
    }
    for (code, kind) in [
        ("429", AzureOpenAIApiErrorKind::RateLimit),
        ("BadRequest", AzureOpenAIApiErrorKind::InvalidRequest),
        ("context_length_exceeded", AzureOpenAIApiErrorKind::ContextOverflow),
        ("Unauthorized", AzureOpenAIApiErrorKind::Authentication),
        ("PermissionDenied", AzureOpenAIApiErrorKind::Permission),
        ("NotFound", AzureOpenAIApiErrorKind::NotFound),
        ("InternalServerError", AzureOpenAIApiErrorKind::ServerError),
    ] {
        assert_eq!(AzureOpenAIApiErrorKind::from_error_code(code), kind);
    }
}

struct UnknownFailure;

impl ProviderError for UnknownFailure {}

#[test]
fn an_adapter_that_cannot_tell_reports_no_overflow() {
    assert!(!UnknownFailure.is_context_overflow());
}
