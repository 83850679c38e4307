use ailoop::config::{RunConfig, DEFAULT_MAX_ITERATIONS};
use ailoop::duration::Duration;
use ailoop::ids::{RunId, StepId};
use ailoop::json::Json;
use ailoop::message::{Message, SystemBlock, SystemPrompt, UserBlock};
use ailoop::middleware::{ContinueDecision, HookAction, ToolCallInfo, ToolDecision};
use ailoop::request::{ChatRequest, DEFAULT_MAX_TOKENS};
use ailoop::retry::{
    apply_jitter, apply_jitter_at, clock_nanos, compute_delay, compute_delay_at, exponential,
    nanos_of_reading, RetryClassification, RetryConfig, RetryState, RetryStep, Retryable, RetryingModel,
};
use ailoop::stream::{AbortReason, FinishReason, StreamChunk, Usage};
use ailoop::testing::{ScriptedError, ScriptedModel, ScriptedTurn};

fn json(text: &str) -> Json {
    Json::parse(text).expect("valid JSON")
}

#[test]
fn run_config_default_max_iterations_is_25() {
    assert_eq!(RunConfig::default().max_iterations, 25);
}

#[test]
fn run_config_default_uses_the_named_consts() {
    let config = RunConfig::default();
    assert_eq!(config.max_iterations, DEFAULT_MAX_ITERATIONS);
    assert_eq!(config.max_tokens, DEFAULT_MAX_TOKENS);
    assert_eq!(DEFAULT_MAX_TOKENS, 4096);
    assert_eq!(ChatRequest::default().max_tokens, DEFAULT_MAX_TOKENS);
    let config = RunConfig::new(3);
    assert_eq!(config.max_iterations, 3);
    assert_eq!(config.max_tokens, 4096);
    assert!(config.system_prompt.is_none() && config.timeout.is_none());
}

#[test]
fn abort_reason_display_preserves_legacy_texts() {
    assert_eq!(
        AbortReason::Timeout(Duration::from_millis(50)).text(),
        "timeout exceeded after 50ms"
    );
    assert_eq!(AbortReason::Cancelled.text(), "cancelled by caller");
    assert_eq!(
        AbortReason::Terminated {
            reason: "policy".into()
        }
        .text(),
        "policy"
    );
    assert_eq!(
        AbortReason::tool_terminated("search", "toolu_1", "loop detected").text(),
        "loop detected"
    );
    assert_eq!(
        AbortReason::MaxIterations(5).text(),
        "agent loop exceeded max iterations (5)"
    );
}

fn close(raw: &str) -> StreamChunk {
    StreamChunk::tool_call_from_raw_args("call_1".into(), "write_file".into(), raw.into())
}

#[test]
fn empty_raw_args_are_an_empty_object() {
    for raw in ["", "  \n"] {
        match close(raw) {
            StreamChunk::ToolCallFinished { id, name, args } => {
                assert_eq!(id, "call_1");
                assert_eq!(name, "write_file");
                assert_eq!(args, json("{}"));
            }
            other => panic!("expected ToolCallFinished for {raw:?}, got {other:?}"),
        }
    }
}

#[test]
fn object_raw_args_finish_the_call() {
    match close(r#"{"path":"a.txt"}"#) {
        StreamChunk::ToolCallFinished { args, .. } => {
            assert_eq!(args, json(r#"{"path": "a.txt"}"#));
        }
        other => panic!("expected ToolCallFinished, got {other:?}"),
    }
}

#[test]
fn truncated_raw_args_are_malformed() {
    match close(r#"{"path":"a"#) {
        StreamChunk::ToolCallMalformed {
            id,
            name,
            raw,
            error,
        } => {
            assert_eq!(id, "call_1");
            assert_eq!(name, "write_file");
            assert_eq!(raw, r#"{"path":"a"#);
            assert!(error.contains("EOF"), "unexpected error: {error}");
        }
        other => panic!("expected ToolCallMalformed, got {other:?}"),
    }
}

#[test]
fn non_object_raw_args_are_malformed() {
    for raw in ["[1]", "null", r#""x""#] {
        match close(raw) {
            StreamChunk::ToolCallMalformed {
                raw: got, error, ..
            } => {
                assert_eq!(got, raw);
                assert_eq!(error, "tool arguments must be a JSON object");
            }
            other => panic!("expected ToolCallMalformed for {raw:?}, got {other:?}"),
        }
    }
}

#[test]
fn usage_adds_up_counter_by_counter() {
    let a = Usage {
        input_tokens: 1,
        output_tokens: 2,
        cached_input_tokens: 3,
        cache_creation_input_tokens: 4,
        cache_creation_5m_tokens: 5,
        cache_creation_1h_tokens: 6,
        reasoning_tokens: 7,
    };
    let mut sum = Usage::default();
    sum += a;
    sum += a;
    assert_eq!(sum, a + a);
    assert_eq!(sum.input_tokens, 2);
    assert_eq!(sum.reasoning_tokens, 14);
    assert_eq!(a + Usage::default(), a);
}

#[test]
fn ids_are_fresh_version_4_uuids() {
    let a = RunId::new();
    assert_ne!(a, RunId::new());
    assert_ne!(StepId::new(), StepId::default());
    let text = a.text();
    assert_eq!(text.len(), 36);
    assert_eq!(text.as_bytes()[14], b'4');
    assert_eq!(
        RunId(0x0123_4567_89ab_4def_8123_4567_89ab_cdef).text(),
        "01234567-89ab-4def-8123-456789abcdef"
    );
}

#[test]
fn spans_are_written_as_std_writes_them() {
    assert_eq!(Duration::from_millis(1500).debug_text(), "1.5s");
    assert_eq!(Duration::from_secs(2).debug_text(), "2s");
    assert_eq!(Duration::from_nanos(7).debug_text(), "7ns");
    assert_eq!(Duration::from_millis(1500).as_secs(), 1);
    assert_eq!(Duration::from_millis(1500).as_nanos(), 1_500_000_000);
}

#[test]
fn system_prompts_join_their_blocks() {
    let prompt = SystemPrompt::Blocks(vec![SystemBlock::new("a"), SystemBlock::new("b")]);
    assert_eq!(prompt.as_text(), "a\n\nb");
    assert_eq!(SystemPrompt::from("c").as_text(), "c");
}

#[test]
fn observers_decide_with_plain_values() {
    assert!(matches!(ContinueDecision::default(), ContinueDecision::Stop));
    match ContinueDecision::continue_with("go on") {
        ContinueDecision::Continue { blocks } => assert_eq!(blocks, vec![UserBlock::text("go on")]),
        other => panic!("expected Continue, got {other:?}"),
    }
    let info = ToolCallInfo::new(RunId(1), StepId(2), "c", "n");
    assert_eq!(info.call_id, "c");
    assert_eq!(info.name, "n");
    assert_ne!(
        HookAction::Continue,
        HookAction::Terminate {
            reason: "r".to_string()
        }
    );
    assert_ne!(
        ToolDecision::Skip {
            reason: "r".to_string()
        },
        ToolDecision::Terminate {
            reason: "r".to_string()
        }
    );
    assert_eq!(
        Message::user_with_blocks(vec![UserBlock::text("hi")]),
        Message::user("hi")
    );
}

fn fast_config(max_attempts: u32) -> RetryConfig {
    RetryConfig {
        max_attempts,
        base_delay: Duration::from_millis(1),
        max_delay: Duration::from_millis(5),
        jitter: false,
    }
}

fn ok_chunk() -> StreamChunk {
    StreamChunk::TurnFinished {
        reason: FinishReason::EndTurn,
        usage: Usage::default(),
        service_tier: None,
    }
}

/// Calls a scripted model as often as its failures are worth it.
fn run(turns: Vec<ScriptedTurn>, config: RetryConfig) -> (ScriptedTurn, usize, Vec<Duration>) {
    let mut model = ScriptedModel::with_turns(turns);
    let mut state = RetryState::new();
    let mut calls = 0;
    let mut waits = vec![];
    loop {
        calls += 1;
        match model.next_turn() {
            Ok(stream) => return (Ok(stream), calls, waits),
            Err(e) => match state.failed(&config, e.retry_classification()) {
                RetryStep::GiveUp => return (Err(e), calls, waits),
                RetryStep::RetryAfter { delay } => waits.push(delay),
            },
        }
    }
}

fn failure(text: &str) -> ScriptedTurn {
    Err(ScriptedError(text.to_string()))
}

#[test]
fn retries_until_success() {
    let (result, calls, _) = run(
        vec![failure("transient:1"), Ok(vec![Ok(ok_chunk())])],
        fast_config(3),
    );
    assert_eq!(result.expect("second attempt succeeds").len(), 1);
    assert_eq!(calls, 2);
}

#[test]
fn gives_up_after_max_attempts() {
    let (result, calls, _) = run(
        vec![
            failure("transient:1"),
            failure("transient:1"),
            failure("transient:1"),
            failure("transient:1"),
        ],
        fast_config(3),
    );
    assert!(matches!(result, Err(ScriptedError(_))));
    assert_eq!(calls, 3, "max_attempts is total calls including the first");
}

#[test]
fn zero_attempts_still_make_one_call() {
    let (result, calls, _) = run(vec![failure("transient:1")], fast_config(0));
    assert!(result.is_err());
    assert_eq!(calls, 1);
}

#[test]
fn respects_retry_after() {
    let (result, _, waits) = run(
        vec![failure("transient:50"), Ok(vec![Ok(ok_chunk())])],
        fast_config(3),
    );
    assert!(result.is_ok());
    assert_eq!(waits, vec![Duration::from_millis(50)]);
}

#[test]
fn permanent_errors_are_not_retried() {
    let (result, calls, waits) = run(
        vec![
            failure("permanent: bad auth"),
            Ok(vec![Ok(ok_chunk())]),
        ],
        fast_config(3),
    );
    assert!(matches!(result, Err(ScriptedError(_))));
    assert_eq!(calls, 1, "permanent errors must not trigger a retry");
    assert!(waits.is_empty());
}

#[test]
fn mid_stream_errors_are_not_retried() {
    let (result, calls, _) = run(
        vec![
            Ok(vec![
                Ok(StreamChunk::TextDelta {
                    delta: "hello".into(),
                }),
                Err(ScriptedError("transient:1".into())),
            ]),
            Ok(vec![Ok(ok_chunk())]),
        ],
        fast_config(3),
    );
    let chunks = result.expect("setup should succeed");
    assert_eq!(chunks.len(), 2);
    assert!(matches!(chunks[0], Ok(StreamChunk::TextDelta { .. })));
    assert!(matches!(chunks[1], Err(ScriptedError(_))));
    assert_eq!(calls, 1, "mid-stream errors must not trigger a setup-time retry");
}

#[test]
fn exponential_backoff_grows_then_caps() {
    let base = Duration::from_millis(10);
    let max = Duration::from_millis(40);
    assert_eq!(exponential(base, max, 1), Duration::from_millis(10));
    assert_eq!(exponential(base, max, 2), Duration::from_millis(20));
    assert_eq!(exponential(base, max, 3), Duration::from_millis(40));
    assert_eq!(exponential(base, max, 4), Duration::from_millis(40));
    assert_eq!(exponential(base, max, 0), Duration::from_millis(10));
    let year = Duration::from_secs(31_536_000);
    let long = Duration::from_secs(u64::MAX);
    assert_eq!(exponential(year, long, 21), Duration::from_nanos(u64::MAX));
    assert_eq!(
        exponential(Duration::from_nanos(1), long, 100),
        Duration::from_nanos(1 << 20)
    );
}

#[test]
fn jitter_adds_less_than_a_tenth() {
    let second = Duration::from_secs(1);
    assert_eq!(
        apply_jitter_at(second, 250_000_007),
        Duration::from_nanos(1_050_000_007)
    );
    assert_eq!(apply_jitter_at(Duration::from_nanos(9), 5), Duration::from_nanos(9));
    assert_eq!(apply_jitter_at(Duration::from_secs(0), 5), Duration::from_secs(0));
    assert!(clock_nanos() < 1_000_000_000);
    assert_eq!(nanos_of_reading(Some(7)), 7);
    assert_eq!(nanos_of_reading(None), 0);
    let ages = Duration::from_secs(u64::MAX - 1);
    assert_eq!(
        apply_jitter_at(ages, 999_999_999).as_nanos(),
        ages.as_nanos() + 999_999_999
    );
    let longest = Duration::from_total_nanos(u128::MAX);
    assert_eq!(longest.as_nanos(), (1u128 << 64) * 1_000_000_000 - 1);
    assert_eq!(apply_jitter_at(longest, 7), longest);
    assert_eq!(Duration::from_total_nanos(1_500_000_000), Duration::from_millis(1500));
    let jittered = apply_jitter(second).as_nanos();
    assert!((1_000_000_000..1_100_000_000).contains(&jittered));
}

#[test]
fn delays_follow_the_provider_or_the_backoff() {
    let mut config = fast_config(3);
    assert_eq!(compute_delay(&config, 2, None), Duration::from_millis(2));
    assert_eq!(
        compute_delay(&config, 2, Some(Duration::from_secs(9))),
        Duration::from_secs(9)
    );
    config.jitter = true;
    assert_eq!(
        compute_delay_at(&config, 1, None, 100_001),
        Duration::from_nanos(1_000_001)
    );
    let defaults = RetryConfig::default();
    assert_eq!(defaults.max_attempts, 3);
    assert_eq!(defaults.base_delay, Duration::from_secs(1));
    assert_eq!(defaults.max_delay, Duration::from_secs(30));
    assert!(defaults.jitter);
}

#[test]
fn retrying_models_keep_what_they_wrap() {
    let model = RetryingModel::new("inner");
    assert_eq!(*model.inner(), "inner");
    assert_eq!(model.config().max_attempts, 3);
    let model = RetryingModel::with_config("inner", fast_config(7));
    assert_eq!(model.config().max_attempts, 7);
    assert_eq!(model.into_inner(), "inner");
}

#[test]
fn replays_chunks_in_order() {
    let mut model = ScriptedModel::new(vec![vec![
        StreamChunk::TextDelta {
            delta: "hello".into(),
        },
        ok_chunk(),
    ]]);
    let chunks = model.next_turn().unwrap();
    assert_eq!(chunks.len(), 2);
    assert!(matches!(&chunks[0], Ok(StreamChunk::TextDelta { delta }) if delta == "hello"));
    assert!(model.next_turn().unwrap().is_empty());
}

#[test]
fn surfaces_setup_time_error_per_turn() {
    let mut model = ScriptedModel::with_turns(vec![failure("rate limited")]);
    match model.next_turn() {
        Err(e) => {
            assert_eq!(e.0, "rate limited");
            assert_eq!(e.text(), "scripted error: rate limited");
        }
        Ok(_) => panic!("expected error"),
    }
}

#[test]
fn scripted_models_can_play_any_provider() {
    let model = ScriptedModel::new(vec![]);
    assert_eq!(model.name(), "scripted");
    assert_eq!(model.model(), "scripted");
    let model = model.with_name("n").with_model("m");
    assert_eq!(model.name(), "n");
    assert_eq!(model.model(), "m");
}

#[test]
fn scripted_failures_say_what_they_are_worth() {
    let worth = |text: &str| ScriptedError(text.to_string()).retry_classification();
    assert_eq!(
        worth("transient:7"),
        RetryClassification::Transient {
            retry_after: Some(Duration::from_millis(7))
        }
    );
    assert_eq!(
        worth("transient:soon"),
        RetryClassification::Transient { retry_after: None }
    );
    assert_eq!(worth("transient"), RetryClassification::Permanent);
    assert_eq!(worth("permanent"), RetryClassification::Permanent);
}

#[test]
fn json_reads_back_what_it_wrote() {
    let value = json(r#"{"a":[1,-2,true,null,"\"x\n"],"b":{}}"#);
    assert!(value.reads_back());
    assert_eq!(json(&value.to_text()), value);
    assert_eq!(json(&value.to_pretty_text()), value);
    assert_eq!(json("{}").to_text(), "{}");
    assert!(!json("[0.5]").reads_back());
    for float in ["0.5", "-0.0", "1e300"] {
        let number = json(float);
        assert_eq!(json(&number.to_text()), number);
        let nested = Json::array(vec![number]);
        assert_eq!(json(&nested.to_text()), nested);
        assert_eq!(json(&nested.to_pretty_text()), nested);
    }
    let deep = format!("{}{}", "[".repeat(127), "]".repeat(127));
    assert!(json(&deep).reads_back());
    assert!(!Json::array(vec![json(&deep)]).reads_back());
    let too_deep = format!("{}{}", "[".repeat(128), "]".repeat(128));
    assert!(Json::parse(&too_deep).is_err());
}

#[test]
fn json_entries_are_looked_up_and_merged() {
    let mut value = json(r#"{"a":1}"#);
    value.set("b", Json::number(2));
    value.merge(&Some(json(r#"{"a":"x"}"#)));
    value.merge(&Some(Json::Null));
    value.merge(&None);
    assert_eq!(value, json(r#"{"a":"x","b":2}"#));
    assert_eq!(value.get_text("a").map(|s| s.as_str()), Some("x"));
    assert!(value.get_text("b").is_none());
    assert_eq!(value.get("b").unwrap().as_unsigned(), Some(2));
    assert_eq!(Json::flag(true).as_flag(), Some(true));
    assert_eq!(json("[-1]").as_array().unwrap()[0].as_unsigned(), None);
    assert_eq!(json("1.5").as_unsigned(), None);
    assert_eq!(json(r#"{"a":1}"#).only_entry("a"), Some(&Json::number(1)));
    assert_eq!(value.only_entry("a"), None);
    assert_eq!(json("{}").only_entry("a"), None);
}

#[test]
fn user_turns_are_made_from_text_and_blocks() {
    assert_eq!(Message::from("hi"), Message::user("hi"));
    assert_eq!(Message::from("hi".to_string()), Message::user("hi"));
    assert_eq!(Message::from(UserBlock::text("hi")), Message::user("hi"));
    assert_eq!(
        Message::from(vec![UserBlock::text("a"), UserBlock::text("b")]),
        Message::User {
            blocks: vec![UserBlock::text("a"), UserBlock::text("b")]
        }
    );
}
