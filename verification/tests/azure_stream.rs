use ailoop::azure_openai::decode::{chunk_of_parsed, read_chunk};
use ailoop::azure_openai::errors::{AzureOpenAIApiErrorKind, AzureOpenAIError};
use ailoop::azure_openai::events::ChatCompletionsChunk;
use ailoop::azure_openai::stream::{map_finish_reason, process_events};
use ailoop::json::Json;
use ailoop::stream::{FinishReason, StreamChunk};

type Event = Result<ChatCompletionsChunk, AzureOpenAIError>;

fn json(text: &str) -> Json {
    Json::parse(text).expect("valid JSON")
}

fn decode(s: &str) -> ChatCompletionsChunk {
    ChatCompletionsChunk::from_json(&json(s)).expect("a chunk")
}

fn parse(s: &str) -> Event {
    Ok(decode(s))
}

fn run(events: Vec<Event>) -> Vec<StreamChunk> {
    process_events(events)
        .into_iter()
        .map(|chunk| chunk.expect("state machine should not error on this fixture"))
        .collect()
}

#[test]
fn text_turn_emits_deltas_and_endturn() {
    let events = vec![
        parse(r#"{"choices":[{"index":0,"delta":{"role":"assistant","content":""}}]}"#),
        parse(r#"{"choices":[{"index":0,"delta":{"content":"Hello"}}]}"#),
        parse(r#"{"choices":[{"index":0,"delta":{"content":", world"}}]}"#),
        parse(r#"{"choices":[{"index":0,"delta":{},"finish_reason":"stop"}]}"#),
        parse(r#"{"choices":[],"usage":{"prompt_tokens":5,"completion_tokens":3}}"#),
    ];
    let mut iter = run(events).into_iter();
    match iter.next().unwrap() {
        StreamChunk::TextDelta { delta } => assert_eq!(delta, "Hello"),
        other => panic!("expected TextDelta, got {other:?}"),
    }
    match iter.next().unwrap() {
        StreamChunk::TextDelta { delta } => assert_eq!(delta, ", world"),
        other => panic!("expected TextDelta, got {other:?}"),
    }
    match iter.next().unwrap() {
        StreamChunk::TurnFinished { reason, usage, .. } => {
            assert!(matches!(reason, FinishReason::EndTurn));
            assert_eq!(usage.input_tokens, 5);
            assert_eq!(usage.output_tokens, 3);
        }
        other => panic!("expected TurnFinished, got {other:?}"),
    }
    assert!(iter.next().is_none());
}

#[test]
fn tool_call_multiplexed_by_index() {
    let events = vec![
        parse(
            r#"{"choices":[{"index":0,"delta":{"role":"assistant","tool_calls":[{"index":0,"id":"call_1","type":"function","function":{"name":"get_weather","arguments":""}}]}}]}"#,
        ),
        parse(
            r#"{"choices":[{"index":0,"delta":{"tool_calls":[{"index":0,"function":{"arguments":"{\"loc\":"}}]}}]}"#,
        ),
        parse(
            r#"{"choices":[{"index":0,"delta":{"tool_calls":[{"index":0,"function":{"arguments":"\"SF\"}"}}]}}]}"#,
        ),
        parse(r#"{"choices":[{"index":0,"delta":{},"finish_reason":"tool_calls"}]}"#),
        parse(r#"{"choices":[],"usage":{"prompt_tokens":12,"completion_tokens":7}}"#),
    ];
    let mut iter = run(events).into_iter();
    match iter.next().unwrap() {
        StreamChunk::ToolCallStarted { id, name } => {
            assert_eq!(id, "call_1");
            assert_eq!(name, "get_weather");
        }
        other => panic!("expected the start of a tool call, got {other:?}"),
    }
    match iter.next().unwrap() {
        StreamChunk::ToolCallArgsDelta { id, delta } => {
            assert_eq!(id, "call_1");
            assert_eq!(delta, "{\"loc\":");
        }
        other => panic!("expected ToolCallArgsDelta, got {other:?}"),
    }
    match iter.next().unwrap() {
        StreamChunk::ToolCallArgsDelta { id, delta } => {
            assert_eq!(id, "call_1");
            assert_eq!(delta, "\"SF\"}");
        }
        other => panic!("expected ToolCallArgsDelta, got {other:?}"),
    }
    match iter.next().unwrap() {
        StreamChunk::ToolCallFinished { id, name, args } => {
            assert_eq!(id, "call_1");
            assert_eq!(name, "get_weather");
            assert_eq!(args, json(r#"{ "loc": "SF" }"#));
        }
        other => panic!("expected ToolCallFinished, got {other:?}"),
    }
    match iter.next().unwrap() {
        StreamChunk::TurnFinished { reason, usage, .. } => {
            assert!(matches!(reason, FinishReason::ToolUse));
            assert_eq!(usage.input_tokens, 12);
            assert_eq!(usage.output_tokens, 7);
        }
        other => panic!("expected TurnFinished, got {other:?}"),
    }
    assert!(iter.next().is_none());
}

#[test]
fn parallel_tool_calls_dont_mix_state() {
    let events = vec![
        parse(
            r#"{"choices":[{"index":0,"delta":{"role":"assistant","tool_calls":[{"index":0,"id":"a","type":"function","function":{"name":"f1","arguments":""}}]}}]}"#,
        ),
        parse(
            r#"{"choices":[{"index":0,"delta":{"tool_calls":[{"index":1,"id":"b","type":"function","function":{"name":"f2","arguments":""}}]}}]}"#,
        ),
        parse(
            r#"{"choices":[{"index":0,"delta":{"tool_calls":[{"index":0,"function":{"arguments":"{\"x\":1}"}}]}}]}"#,
        ),
        parse(
            r#"{"choices":[{"index":0,"delta":{"tool_calls":[{"index":1,"function":{"arguments":"{\"y\":2}"}}]}}]}"#,
        ),
        parse(r#"{"choices":[{"index":0,"delta":{},"finish_reason":"tool_calls"}]}"#),
    ];
    let mut starts: Vec<(String, String)> = Vec::new();
    let mut args: Vec<(String, String)> = Vec::new();
    let mut ends: Vec<(String, Json)> = Vec::new();
    let mut finished = 0;
    for chunk in run(events) {
        match chunk {
            StreamChunk::ToolCallStarted { id, name } => starts.push((id, name)),
            StreamChunk::ToolCallArgsDelta { id, delta } => args.push((id, delta)),
            StreamChunk::ToolCallFinished { id, args, .. } => ends.push((id, args)),
            StreamChunk::TurnFinished { .. } => finished += 1,
            other => panic!("unexpected chunk {other:?}"),
        }
    }
    assert_eq!(
        starts,
        vec![("a".into(), "f1".into()), ("b".into(), "f2".into())]
    );
    assert_eq!(
        args,
        vec![
            ("a".into(), "{\"x\":1}".into()),
            ("b".into(), "{\"y\":2}".into()),
        ]
    );
    assert_eq!(
        ends,
        vec![
            ("a".into(), json(r#"{ "x": 1 }"#)),
            ("b".into(), json(r#"{ "y": 2 }"#)),
        ]
    );
    assert_eq!(finished, 1);
}

#[test]
fn usage_in_final_chunk_populates_turn_finished() {
    let events = vec![
        parse(r#"{"choices":[{"index":0,"delta":{"content":"hi"},"usage":null}]}"#),
        parse(r#"{"choices":[{"index":0,"delta":{},"finish_reason":"stop"}]}"#),
        parse(
            r#"{"choices":[],"usage":{"prompt_tokens":100,"completion_tokens":50,"prompt_tokens_details":{"cached_tokens":80}}}"#,
        ),
    ];
    match run(events).last().unwrap() {
        StreamChunk::TurnFinished { usage, .. } => {
            assert_eq!(usage.input_tokens, 100);
            assert_eq!(usage.output_tokens, 50);
            assert_eq!(usage.cached_input_tokens, 80);
            assert_eq!(usage.cache_creation_input_tokens, 0);
        }
        other => panic!("expected TurnFinished, got {other:?}"),
    }
}

#[test]
fn length_finish_reason_maps_to_max_tokens() {
    let events = vec![
        parse(r#"{"choices":[{"index":0,"delta":{"content":"truncated"}}]}"#),
        parse(r#"{"choices":[{"index":0,"delta":{},"finish_reason":"length"}]}"#),
    ];
    assert!(matches!(
        run(events).last().unwrap(),
        StreamChunk::TurnFinished {
            reason: FinishReason::MaxTokens,
            ..
        }
    ));
}

#[test]
fn unknown_finish_reason_maps_to_other() {
    let events = vec![parse(
        r#"{"choices":[{"index":0,"delta":{},"finish_reason":"content_filter"}]}"#,
    )];
    match run(events).last().unwrap() {
        StreamChunk::TurnFinished { reason, .. } => match reason {
            FinishReason::Other(s) => assert_eq!(s, "content_filter"),
            other => panic!("expected Other, got {other:?}"),
        },
        other => panic!("expected TurnFinished, got {other:?}"),
    }
}

#[test]
fn emits_exactly_one_turn_finished() {
    let events = vec![
        parse(r#"{"choices":[{"index":0,"delta":{"content":"a"}}]}"#),
        parse(r#"{"choices":[{"index":0,"delta":{"content":"b"}}]}"#),
        parse(r#"{"choices":[{"index":0,"delta":{},"finish_reason":"stop"}]}"#),
        parse(r#"{"choices":[],"usage":{"prompt_tokens":1,"completion_tokens":2}}"#),
    ];
    let count = run(events)
        .iter()
        .filter(|c| matches!(c, StreamChunk::TurnFinished { .. }))
        .count();
    assert_eq!(count, 1);
}

#[test]
fn error_events_end_the_turn() {
    let chunks = process_events(vec![
        parse(r#"{"choices":[{"index":0,"delta":{"content":"a"}}]}"#),
        parse(r#"{"error":{"code":"content_filter","message":"blocked","type":"x"}}"#),
        parse(r#"{"choices":[{"index":0,"delta":{"content":"b"}}]}"#),
    ]);
    assert_eq!(chunks.len(), 2);
    match &chunks[1] {
        Err(AzureOpenAIError::Provider { kind, message }) => {
            assert_eq!(*kind, AzureOpenAIApiErrorKind::ContentFilter);
            assert_eq!(message, "blocked");
        }
        other => panic!("expected Provider, got {other:?}"),
    }
    let chunks = process_events(vec![parse(
        r#"{"error":{"message":"boom","type":"server_error"}}"#,
    )]);
    assert!(matches!(
        &chunks[0],
        Err(AzureOpenAIError::Provider {
            kind: AzureOpenAIApiErrorKind::ServerError,
            ..
        })
    ));
}

#[test]
fn map_finish_reason_covers_all_known_variants() {
    assert!(matches!(
        map_finish_reason(Some("stop")),
        FinishReason::EndTurn
    ));
    assert!(matches!(map_finish_reason(None), FinishReason::EndTurn));
    assert!(matches!(
        map_finish_reason(Some("length")),
        FinishReason::MaxTokens
    ));
    assert!(matches!(
        map_finish_reason(Some("tool_calls")),
        FinishReason::ToolUse
    ));
    assert!(matches!(
        map_finish_reason(Some("function_call")),
        FinishReason::ToolUse
    ));
    match map_finish_reason(Some("content_filter")) {
        FinishReason::Other(s) => assert_eq!(s, "content_filter"),
        other => panic!("expected Other, got {other:?}"),
    }
}

#[test]
fn parses_text_delta_chunk() {
    let chunk = decode(r#"{"id":"x","choices":[{"index":0,"delta":{"content":"Hi"}}]}"#);
    assert_eq!(chunk.choices.len(), 1);
    assert_eq!(chunk.choices[0].delta.content.as_deref(), Some("Hi"));
    assert!(chunk.choices[0].finish_reason.is_none());
    assert!(chunk.usage.is_none());
}

#[test]
fn parses_tool_call_first_chunk() {
    let chunk = decode(
        r#"{"id":"x","choices":[{"index":0,"delta":{"tool_calls":[{"index":0,"id":"call_1","type":"function","function":{"name":"get_weather","arguments":""}}]}}]}"#,
    );
    let tc = &chunk.choices[0].delta.tool_calls[0];
    assert_eq!(tc.index, 0);
    assert_eq!(tc.id.as_deref(), Some("call_1"));
    assert_eq!(tc.kind.as_deref(), Some("function"));
    let f = tc.function.as_ref().unwrap();
    assert_eq!(f.name.as_deref(), Some("get_weather"));
    assert_eq!(f.arguments.as_deref(), Some(""));
}

#[test]
fn parses_tool_call_continuation_chunk() {
    let chunk = decode(
        r#"{"choices":[{"index":0,"delta":{"tool_calls":[{"index":0,"function":{"arguments":"{\"x\":"}}]}}]}"#,
    );
    let tc = &chunk.choices[0].delta.tool_calls[0];
    assert_eq!(tc.index, 0);
    assert!(tc.id.is_none());
    assert!(tc.kind.is_none());
    let f = tc.function.as_ref().unwrap();
    assert!(f.name.is_none());
    assert_eq!(f.arguments.as_deref(), Some("{\"x\":"));
}

#[test]
fn parses_final_usage_chunk() {
    let chunk = decode(
        r#"{"choices":[],"usage":{"prompt_tokens":10,"completion_tokens":20,"prompt_tokens_details":{"cached_tokens":5}}}"#,
    );
    assert!(chunk.choices.is_empty());
    let usage = chunk.usage.unwrap();
    assert_eq!(usage.prompt_tokens, 10);
    assert_eq!(usage.completion_tokens, 20);
    assert_eq!(usage.prompt_tokens_details.unwrap().cached_tokens, 5);
}

#[test]
fn parses_finish_reason_tool_calls() {
    let chunk = decode(r#"{"choices":[{"index":0,"delta":{},"finish_reason":"tool_calls"}]}"#);
    assert_eq!(
        chunk.choices[0].finish_reason.as_deref(),
        Some("tool_calls")
    );
}

#[test]
fn parses_finish_reason_stop() {
    let chunk = decode(r#"{"choices":[{"index":0,"delta":{},"finish_reason":"stop"}]}"#);
    assert_eq!(chunk.choices[0].finish_reason.as_deref(), Some("stop"));
}

#[test]
fn tolerates_unknown_top_level_fields() {
    let chunk = decode(
        r#"{"id":"x","system_fingerprint":"fp_123","content_filter_results":{},"prompt_filter_results":[],"choices":[{"index":0,"delta":{"content":"Hi"},"content_filter_results":{}}]}"#,
    );
    assert_eq!(chunk.choices[0].delta.content.as_deref(), Some("Hi"));
}

#[test]
fn the_end_mark_and_empty_payloads_are_no_events() {
    assert!(read_chunk("[DONE]").is_none());
    assert!(read_chunk("").is_none());
    assert!(matches!(read_chunk("{}"), Some(Ok(_))));
    for data in [
        "[DONE",
        r#"{"choices":null}"#,
        r#"{"choices":[{}]}"#,
        r#"{"usage":{"prompt_tokens":1}}"#,
    ] {
        assert!(
            matches!(read_chunk(data), Some(Err(AzureOpenAIError::Json(_)))),
            "{data}"
        );
    }
    assert!(matches!(
        chunk_of_parsed(Err("bad".to_string())),
        Err(AzureOpenAIError::Json(e)) if e == "bad"
    ));
    assert!(chunk_of_parsed(Ok(json("{}"))).is_ok());
}

#[test]
fn only_a_proper_error_object_is_an_error() {
    for data in [
        r#"{"error":null}"#,
        r#"{"error":"down"}"#,
        r#"{"error":{"code":"x"}}"#,
        r#"{"error":["x","y"]}"#,
        r#"{"error":{"message":1}}"#,
    ] {
        assert!(decode(data).error.is_none(), "{data}");
    }
    let error = decode(r#"{"error":{"message":"m","type":"t"}}"#).error.unwrap();
    assert_eq!(error.message, "m");
    assert_eq!(error.error_type.as_deref(), Some("t"));
    assert!(error.code.is_none());
}

#[test]
fn a_call_is_closed_before_the_next_begins() {
    let part = |index: u32, id: &str, args: &str| {
        parse(&format!(
            r#"{{"choices":[{{"index":0,"delta":{{"content":"{id}","tool_calls":[{{"index":{index},"id":"{id}","function":{{"name":"t","arguments":"{args}"}}}}]}}}}]}}"#
        ))
    };
    let finish = || parse(r#"{"choices":[{"index":0,"delta":{},"finish_reason":"tool_calls"}]}"#);
    let mut seen: Vec<String> = Vec::new();
    let mut text = String::new();
    for chunk in run(vec![
        part(0, "a", "{}"),
        finish(),
        part(1, "b", "["),
        finish(),
    ]) {
        match chunk {
            StreamChunk::TextDelta { delta } => text.push_str(&delta),
            StreamChunk::ToolCallStarted { id, .. } => seen.push(format!("start {id}")),
            StreamChunk::ToolCallArgsDelta { id, delta } => seen.push(format!("args {id} {delta}")),
            StreamChunk::ToolCallFinished { id, .. } => seen.push(format!("finish {id}")),
            StreamChunk::ToolCallMalformed { id, .. } => seen.push(format!("malformed {id}")),
            StreamChunk::TurnFinished { .. } => seen.push("end".to_string()),
            other => panic!("unexpected chunk {other:?}"),
        }
    }
    assert_eq!(
        seen,
        vec!["start a", "args a {}", "finish a", "start b", "args b [", "malformed b", "end"]
    );
    assert_eq!(text, "ab");
}
