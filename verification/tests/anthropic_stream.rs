use ailoop::anthropic::decode::{event_of_parsed, read_event};
use ailoop::anthropic::errors::{AnthropicApiErrorKind, AnthropicError};
use ailoop::anthropic::events::{
    AnthropicBlock, AnthropicDelta, AnthropicErrorPayload, AnthropicEvent, CacheCreationBreakdown,
    MessageDeltaPayload, MessageStartPayload, MessageStartUsage, UsageDelta,
};
use ailoop::anthropic::stream::{counters_fit, map_stop_reason, process_events};
use ailoop::json::Json;
use ailoop::stream::{FinishReason, StreamChunk};

type Event = Result<AnthropicEvent, AnthropicError>;

fn json(text: &str) -> Json {
    Json::parse(text).expect("valid JSON")
}

fn run(events: Vec<Event>) -> Vec<StreamChunk> {
    process_events(events)
        .into_iter()
        .map(|chunk| chunk.expect("state machine should not error on this fixture"))
        .collect()
}

fn start(usage: MessageStartUsage) -> Event {
    Ok(AnthropicEvent::MessageStart {
        message: MessageStartPayload { usage },
    })
}

fn delta(index: u32, delta: AnthropicDelta) -> Event {
    Ok(AnthropicEvent::ContentBlockDelta { index, delta })
}

fn stop(index: u32) -> Event {
    Ok(AnthropicEvent::ContentBlockStop { index })
}

fn finish(stop_reason: &str, output_tokens: u32) -> Event {
    Ok(AnthropicEvent::MessageDelta {
        delta: MessageDeltaPayload {
            stop_reason: Some(stop_reason.into()),
            stop_sequence: None,
        },
        usage: UsageDelta {
            output_tokens,
            ..Default::default()
        },
    })
}

#[test]
fn thinking_then_tool_use_round_trip() {
    let events = vec![
        start(MessageStartUsage {
            input_tokens: 12,
            ..Default::default()
        }),
        Ok(AnthropicEvent::ContentBlockStart {
            index: 0,
            content_block: AnthropicBlock::Thinking {
                thinking: String::new(),
                signature: String::new(),
            },
        }),
        delta(
            0,
            AnthropicDelta::ThinkingDelta {
                thinking: "Let me ".into(),
            },
        ),
        delta(
            0,
            AnthropicDelta::ThinkingDelta {
                thinking: "check the weather.".into(),
            },
        ),
        delta(
            0,
            AnthropicDelta::SignatureDelta {
                signature: "sig-xyz".into(),
            },
        ),
        stop(0),
        Ok(AnthropicEvent::ContentBlockStart {
            index: 1,
            content_block: AnthropicBlock::ToolUse {
                id: "toolu_1".into(),
                name: "get_weather".into(),
                input: json("{}"),
            },
        }),
        delta(
            1,
            AnthropicDelta::InputJsonDelta {
                partial_json: "{\"location\":".into(),
            },
        ),
        delta(
            1,
            AnthropicDelta::InputJsonDelta {
                partial_json: "\"SF\"}".into(),
            },
        ),
        stop(1),
        finish("tool_use", 50),
        Ok(AnthropicEvent::MessageStop),
    ];

    let mut iter = run(events).into_iter();
    match iter.next().expect("reasoning delta 1") {
        StreamChunk::ReasoningDelta { delta } => assert_eq!(delta, "Let me "),
        other => panic!("expected ReasoningDelta, got {other:?}"),
    }
    match iter.next().expect("reasoning delta 2") {
        StreamChunk::ReasoningDelta { delta } => assert_eq!(delta, "check the weather."),
        other => panic!("expected ReasoningDelta, got {other:?}"),
    }
    match iter.next().expect("reasoning end") {
        StreamChunk::ReasoningFinished { signature } => {
            assert_eq!(signature.as_deref(), Some("sig-xyz"));
        }
        other => panic!("expected the end of the reasoning, got {other:?}"),
    }
    match iter.next().expect("tool call start") {
        StreamChunk::ToolCallStarted { id, name } => {
            assert_eq!(id, "toolu_1");
            assert_eq!(name, "get_weather");
        }
        other => panic!("expected the start of a tool call, got {other:?}"),
    }
    match iter.next().expect("args delta 1") {
        StreamChunk::ToolCallArgsDelta { id, delta } => {
            assert_eq!(id, "toolu_1");
            assert_eq!(delta, "{\"location\":");
        }
        other => panic!("expected ToolCallArgsDelta, got {other:?}"),
    }
    match iter.next().expect("args delta 2") {
        StreamChunk::ToolCallArgsDelta { id, delta } => {
            assert_eq!(id, "toolu_1");
            assert_eq!(delta, "\"SF\"}");
        }
        other => panic!("expected ToolCallArgsDelta, got {other:?}"),
    }
    match iter.next().expect("tool call end") {
        StreamChunk::ToolCallFinished { id, name, args } => {
            assert_eq!(id, "toolu_1");
            assert_eq!(name, "get_weather");
            assert_eq!(args, json(r#"{"location": "SF"}"#));
        }
        other => panic!("expected ToolCallFinished, got {other:?}"),
    }
    match iter.next().expect("turn finished") {
        StreamChunk::TurnFinished {
            reason,
            usage,
            service_tier,
        } => {
            assert!(matches!(reason, FinishReason::ToolUse));
            assert_eq!(usage.input_tokens, 12);
            assert_eq!(usage.output_tokens, 50);
            assert!(service_tier.is_none());
        }
        other => panic!("expected TurnFinished, got {other:?}"),
    }
    assert!(
        iter.next().is_none(),
        "no chunks should follow TurnFinished"
    );
}

#[test]
fn mid_stream_error_event_is_classified() {
    let events = vec![
        start(MessageStartUsage {
            input_tokens: 1,
            ..Default::default()
        }),
        Ok(AnthropicEvent::Error {
            error: AnthropicErrorPayload {
                error_type: "overloaded_error".into(),
                message: "busy".into(),
            },
        }),
    ];
    match process_events(events).pop().expect("stream must yield the error") {
        Err(AnthropicError::Provider { kind, message }) => {
            assert_eq!(kind, AnthropicApiErrorKind::Overloaded);
            assert_eq!(message, "busy");
        }
        other => panic!("expected Provider{{Overloaded, ..}}, got {other:?}"),
    }
}

#[test]
fn message_start_breakdown_and_service_tier_reach_turn_finished() {
    let events = vec![
        start(MessageStartUsage {
            input_tokens: 100,
            cache_read_input_tokens: 25,
            cache_creation_input_tokens: 150,
            cache_creation: Some(CacheCreationBreakdown {
                ephemeral_5m_input_tokens: 100,
                ephemeral_1h_input_tokens: 50,
            }),
            service_tier: Some("priority".into()),
        }),
        finish("end_turn", 7),
        Ok(AnthropicEvent::MessageStop),
    ];
    match run(events).pop().expect("stream emits at least TurnFinished") {
        StreamChunk::TurnFinished {
            reason,
            usage,
            service_tier,
        } => {
            assert!(matches!(reason, FinishReason::EndTurn));
            assert_eq!(usage.input_tokens, 100);
            assert_eq!(usage.cached_input_tokens, 25);
            assert_eq!(usage.cache_creation_input_tokens, 150);
            assert_eq!(usage.cache_creation_5m_tokens, 100);
            assert_eq!(usage.cache_creation_1h_tokens, 50);
            assert_eq!(service_tier.as_deref(), Some("priority"));
        }
        other => panic!("expected TurnFinished, got {other:?}"),
    }
}

#[test]
fn message_start_legacy_flat_counter_propagates() {
    let events = vec![
        start(MessageStartUsage {
            input_tokens: 10,
            cache_creation_input_tokens: 42,
            ..Default::default()
        }),
        finish("end_turn", 1),
        Ok(AnthropicEvent::MessageStop),
    ];
    match run(events).pop().expect("stream emits at least TurnFinished") {
        StreamChunk::TurnFinished {
            usage,
            service_tier,
            ..
        } => {
            assert_eq!(usage.cache_creation_input_tokens, 42);
            assert_eq!(usage.cache_creation_5m_tokens, 0);
            assert_eq!(usage.cache_creation_1h_tokens, 0);
            assert!(service_tier.is_none());
        }
        other => panic!("expected TurnFinished, got {other:?}"),
    }
}

#[test]
fn every_turn_ends_once_and_errors_end_it_early() {
    let text = |s: &str| delta(0, AnthropicDelta::TextDelta { text: s.into() });
    let chunks = process_events(vec![text("a"), Ok(AnthropicEvent::MessageStop), text("b")]);
    assert_eq!(chunks.len(), 3);
    assert!(matches!(chunks[1], Ok(StreamChunk::TextDelta { .. })));
    assert!(matches!(chunks[2], Ok(StreamChunk::TurnFinished { .. })));
    let chunks = process_events(vec![
        text("a"),
        Err(AnthropicError::Sse("cut".into())),
        text("b"),
    ]);
    assert_eq!(chunks.len(), 2);
    assert!(matches!(&chunks[1], Err(AnthropicError::Sse(s)) if s == "cut"));
}

#[test]
fn stop_reasons_have_meanings() {
    let meaning = |reason: &str| map_stop_reason(&Some(reason.to_string()));
    assert!(matches!(map_stop_reason(&None), FinishReason::EndTurn));
    assert!(matches!(meaning("end_turn"), FinishReason::EndTurn));
    assert!(matches!(meaning("tool_use"), FinishReason::ToolUse));
    assert!(matches!(meaning("max_tokens"), FinishReason::MaxTokens));
    assert!(matches!(meaning("stop_sequence"), FinishReason::StopSequence));
    assert!(matches!(meaning("refusal"), FinishReason::Other(s) if s == "refusal"));
}

#[test]
fn parses_thinking_block_start() {
    let block =
        AnthropicBlock::from_json(&json(r#"{"type":"thinking","thinking":"","signature":""}"#));
    assert!(matches!(
        block,
        Some(AnthropicBlock::Thinking { thinking, signature })
            if thinking.is_empty() && signature.is_empty()
    ));
}

#[test]
fn parses_redacted_thinking_block() {
    let block =
        AnthropicBlock::from_json(&json(r#"{"type":"redacted_thinking","data":"opaque-payload"}"#));
    match block {
        Some(AnthropicBlock::RedactedThinking { data }) => assert_eq!(data, "opaque-payload"),
        other => panic!("expected RedactedThinking, got {other:?}"),
    }
}

#[test]
fn parses_signature_delta() {
    let delta =
        AnthropicDelta::from_json(&json(r#"{"type":"signature_delta","signature":"sig-abc"}"#));
    match delta {
        Some(AnthropicDelta::SignatureDelta { signature }) => assert_eq!(signature, "sig-abc"),
        other => panic!("expected SignatureDelta, got {other:?}"),
    }
}

#[test]
fn unknown_block_type_does_not_panic() {
    let block = AnthropicBlock::from_json(&json(
        r#"{"type":"server_tool_use","id":"x","name":"y","input":{}}"#,
    ));
    assert!(matches!(block, Some(AnthropicBlock::Unknown)));
}

#[test]
fn unknown_delta_type_does_not_panic() {
    let delta = AnthropicDelta::from_json(&json(r#"{"type":"citations_delta","citation":{}}"#));
    assert!(matches!(delta, Some(AnthropicDelta::Unknown)));
}

#[test]
fn parses_legacy_message_start_usage_without_new_fields() {
    let usage = MessageStartUsage::from_json(&json(
        r#"{"input_tokens": 100, "cache_read_input_tokens": 25, "cache_creation_input_tokens": 50}"#,
    ))
    .unwrap();
    assert_eq!(usage.input_tokens, 100);
    assert_eq!(usage.cache_read_input_tokens, 25);
    assert_eq!(usage.cache_creation_input_tokens, 50);
    assert!(usage.cache_creation.is_none());
    assert!(usage.service_tier.is_none());
}

#[test]
fn parses_message_start_usage_with_breakdown_and_tier() {
    let usage = MessageStartUsage::from_json(&json(
        r#"{
            "input_tokens": 100,
            "cache_read_input_tokens": 25,
            "cache_creation_input_tokens": 150,
            "cache_creation": {
                "ephemeral_5m_input_tokens": 100,
                "ephemeral_1h_input_tokens": 50
            },
            "service_tier": "priority"
        }"#,
    ))
    .unwrap();
    let breakdown = usage.cache_creation.expect("breakdown should parse");
    assert_eq!(breakdown.ephemeral_5m_input_tokens, 100);
    assert_eq!(breakdown.ephemeral_1h_input_tokens, 50);
    assert_eq!(usage.service_tier.as_deref(), Some("priority"));
}

#[test]
fn parses_usage_delta_with_cache_fields() {
    let delta = UsageDelta::from_json(&json(
        r#"{
            "output_tokens": 42,
            "cache_read_input_tokens": 7,
            "cache_creation_input_tokens": 3,
            "cache_creation": {
                "ephemeral_5m_input_tokens": 3,
                "ephemeral_1h_input_tokens": 0
            }
        }"#,
    ))
    .unwrap();
    assert_eq!(delta.output_tokens, 42);
    assert_eq!(delta.cache_read_input_tokens, 7);
    assert_eq!(delta.cache_creation_input_tokens, 3);
    let breakdown = delta.cache_creation.expect("breakdown should parse");
    assert_eq!(breakdown.ephemeral_5m_input_tokens, 3);
}

#[test]
fn payloads_become_chunks() {
    let chunks = run([
        r#"{"type":"message_start","message":{"id":"m","usage":{"input_tokens":3,"output_tokens":1}}}"#,
        "",
        r#"{"type":"content_block_start","index":0,"content_block":{"type":"text","text":""}}"#,
        r#"{"type":"ping"}"#,
        r#"{"type":"content_block_delta","index":0,"delta":{"type":"text_delta","text":"Hi"}}"#,
        r#"{"type":"content_block_stop","index":0}"#,
        r#"{"type":"message_delta","delta":{"stop_reason":"end_turn","stop_sequence":null},"usage":{"output_tokens":2}}"#,
        r#"{"type":"message_stop"}"#,
    ]
    .iter()
    .filter_map(|data| read_event(data))
    .collect());
    assert_eq!(chunks.len(), 2);
    assert!(matches!(&chunks[0], StreamChunk::TextDelta { delta } if delta == "Hi"));
    match &chunks[1] {
        StreamChunk::TurnFinished { reason, usage, .. } => {
            assert!(matches!(reason, FinishReason::EndTurn));
            assert_eq!(usage.input_tokens, 3);
            assert_eq!(usage.output_tokens, 2);
        }
        other => panic!("expected TurnFinished, got {other:?}"),
    }
}

#[test]
fn payloads_that_are_no_events_are_errors() {
    for data in [
        "{",
        r#"{"type":"future_event"}"#,
        r#"{"type":"content_block_stop","index":-1}"#,
        r#"{"type":"content_block_stop"}"#,
        r#"{"index":0}"#,
    ] {
        assert!(
            matches!(read_event(data), Some(Err(AnthropicError::Json(_)))),
            "{data}"
        );
    }
    assert!(matches!(
        event_of_parsed(Ok(json(r#"{"type":"error","error":{"type":"api_error","message":"x"}}"#))),
        Ok(AnthropicEvent::Error { error }) if error.error_type == "api_error" && error.message == "x"
    ));
    assert!(matches!(
        event_of_parsed(Err("bad".to_string())),
        Err(AnthropicError::Json(e)) if e == "bad"
    ));
}

#[test]
fn counters_beyond_their_range_are_told() {
    let event = |n: u32| AnthropicEvent::MessageDelta {
        delta: MessageDeltaPayload {
            stop_reason: None,
            stop_sequence: None,
        },
        usage: UsageDelta {
            cache_creation: Some(CacheCreationBreakdown {
                ephemeral_5m_input_tokens: u32::MAX,
                ephemeral_1h_input_tokens: n,
            }),
            ..Default::default()
        },
    };
    assert!(counters_fit(&event(0)));
    assert!(!counters_fit(&event(1)));
}

fn call(index: u32, id: &str) -> Event {
    Ok(AnthropicEvent::ContentBlockStart {
        index,
        content_block: AnthropicBlock::ToolUse {
            id: id.into(),
            name: "t".into(),
            input: json("{}"),
        },
    })
}

fn lifecycle(chunks: Vec<StreamChunk>) -> Vec<String> {
    chunks
        .into_iter()
        .map(|chunk| match chunk {
            StreamChunk::ToolCallStarted { id, .. } => format!("start {id}"),
            StreamChunk::ToolCallArgsDelta { id, delta } => format!("args {id} {delta}"),
            StreamChunk::ToolCallFinished { id, .. } => format!("finish {id}"),
            StreamChunk::ToolCallMalformed { id, .. } => format!("malformed {id}"),
            StreamChunk::TextDelta { delta } => format!("text {delta}"),
            StreamChunk::TurnFinished { .. } => "end".to_string(),
            other => panic!("unexpected chunk {other:?}"),
        })
        .collect()
}

#[test]
fn calls_one_after_the_other_nest() {
    let args = |index: u32, text: &str| {
        delta(
            index,
            AnthropicDelta::InputJsonDelta {
                partial_json: text.into(),
            },
        )
    };
    let chunks = run(vec![
        call(0, "a"),
        args(0, "{}"),
        stop(0),
        call(1, "b"),
        args(1, "["),
        delta(2, AnthropicDelta::TextDelta { text: "x".into() }),
        stop(1),
    ]);
    assert_eq!(
        lifecycle(chunks),
        vec![
            "start a", "args a {}", "finish a", "start b", "args b [", "text x", "malformed b",
            "end"
        ]
    );
    assert_eq!(
        lifecycle(run(vec![call(0, "a"), call(1, "b"), stop(1)])),
        vec!["start a", "start b", "finish b", "end"]
    );
}
