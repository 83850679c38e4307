use ailoop::compaction::{
    is_safe_start, CompactionError, CompactionOutput, CompactionStrategy, TruncateStrategy,
};
use ailoop::context_manager::{ContextManager, FromMessagesError};
use ailoop::history_store::{
    FileRead, InMemoryHistoryStore, JsonFileHistoryStore, JsonFileHistoryStoreError,
};
use ailoop::json::Json;
use ailoop::message::{
    AssistantBlock, CacheControl, Message, Source, ToolResultBlock, ToolResultContent, UserBlock,
};
use ailoop::snapshot::{ConversationSnapshot, SnapshotError};
use ailoop::tokenizer::{CharTokenizer, Tokenizer};

fn json(text: &str) -> Json {
    Json::parse(text).expect("valid JSON")
}

fn tool_call_msg(id: &str) -> Message {
    Message::Assistant {
        blocks: vec![AssistantBlock::tool_call(id, "t", json("{}"))],
    }
}

fn tool_result_msg(call_id: &str) -> Message {
    Message::User {
        blocks: vec![UserBlock::tool_result(
            call_id,
            ToolResultContent::text("ok"),
        )],
    }
}

fn unpinned(n: usize) -> Vec<bool> {
    vec![false; n]
}

#[test]
fn compact_if_needed_returns_none_when_under_budget() {
    let mut mgr = ContextManager::builder(10_000).build();
    mgr.add_message(Message::user("hi"));
    mgr.add_message(Message::assistant_text("hello"));

    let report = mgr.compact_if_needed().expect("compaction should succeed");
    assert!(report.is_none(), "no compaction expected when under budget");
    assert_eq!(mgr.messages().len(), 2);
}

#[test]
fn compact_if_needed_returns_report_when_over_budget() {
    let mut mgr = ContextManager::builder(10).preserve_n_last(2).build();
    mgr.add_message(Message::user("first turn"));
    mgr.add_message(Message::assistant_text("first reply"));
    mgr.add_message(Message::user("second turn"));
    mgr.add_message(Message::assistant_text("second reply"));
    mgr.add_message(Message::user("third turn"));

    let report = mgr
        .compact_if_needed()
        .expect("compaction should succeed")
        .expect("expected compaction to run");

    assert_eq!(report.strategy, "truncate");
    assert!(
        report.after < report.before,
        "compaction must drop messages"
    );
}

#[test]
fn pin_last_survives_compaction() {
    let mut mgr = ContextManager::builder(10).preserve_n_last(2).build();
    mgr.add_message(Message::user("pinned anchor"));
    mgr.pin_last();
    for i in 0..5 {
        mgr.add_message(Message::user(&format!("turn {i} q")));
        mgr.add_message(Message::assistant_text(&format!("turn {i} a")));
    }

    let report = mgr
        .compact_if_needed()
        .expect("compaction should succeed")
        .expect("expected compaction to run");
    assert!(report.after < report.before);

    match mgr.messages().first().expect("history should be non-empty") {
        Message::User { blocks } => match &blocks[0] {
            UserBlock::Text { text, .. } => assert_eq!(text, "pinned anchor"),
            other => panic!("expected pinned text block, got {other:?}"),
        },
        other => panic!("expected pinned user message, got {other:?}"),
    }
    assert!(
        mgr.is_pinned(0),
        "pinned mask must be preserved across compaction"
    );
}

#[test]
fn pin_with_tool_result_keeps_pair_intact() {
    let mut mgr = ContextManager::builder(10).preserve_n_last(2).build();
    mgr.add_message(Message::user("task"));
    mgr.add_message(tool_call_msg("c1"));
    mgr.add_message(tool_result_msg("c1"));
    mgr.add_message(Message::assistant_text("result"));
    mgr.pin_with_tool_result(1);
    assert!(mgr.is_pinned(1));
    assert!(mgr.is_pinned(2), "partner tool_result must be pinned too");

    for i in 0..6 {
        mgr.add_message(Message::user(&format!("filler {i}")));
        mgr.add_message(Message::assistant_text(&format!("ack {i}")));
    }

    mgr.compact_if_needed()
        .expect("compaction should succeed")
        .expect("expected compaction to run");

    let mut saw_call = false;
    let mut saw_result = false;
    for msg in mgr.messages() {
        match msg {
            Message::Assistant { blocks } => {
                if blocks
                    .iter()
                    .any(|b| matches!(b, AssistantBlock::ToolCall { id, .. } if id == "c1"))
                {
                    saw_call = true;
                }
            }
            Message::User { blocks } => {
                if blocks
                    .iter()
                    .any(|b| matches!(b, UserBlock::ToolResult { call_id, .. } if call_id == "c1"))
                {
                    assert!(saw_call, "tool_result must follow its tool_call");
                    saw_result = true;
                }
            }
        }
    }
    assert!(
        saw_call && saw_result,
        "pinned pair must survive compaction"
    );
}

#[test]
fn pin_with_tool_result_on_result_pins_the_call() {
    let mut mgr = ContextManager::builder(10).preserve_n_last(1).build();
    mgr.add_message(tool_call_msg("c1"));
    mgr.add_message(tool_result_msg("c1"));
    mgr.add_message(Message::user("later"));

    mgr.pin_with_tool_result(1);
    assert!(mgr.is_pinned(0), "tool_call partner must be pinned");
    assert!(mgr.is_pinned(1));
    assert!(!mgr.is_pinned(2));
}

#[test]
fn pin_with_tool_result_pins_plain_messages_alone() {
    let mut mgr = ContextManager::builder(10).build();
    mgr.extend(vec![
        Message::user("a"),
        tool_call_msg("c1"),
        tool_result_msg("c2"),
    ]);
    mgr.pin_with_tool_result(0);
    assert_eq!(mgr.pinned(), &vec![true, false, false]);
    mgr.pin_with_tool_result(1);
    assert_eq!(mgr.pinned(), &vec![true, true, false]);
    mgr.unpin_at(0);
    mgr.pin_at(2);
    assert_eq!(mgr.pinned(), &vec![false, true, true]);
    assert!(!mgr.is_pinned(3));
}

struct PerMessageTokenizer;

impl Tokenizer for PerMessageTokenizer {
    fn count_text(&self, _text: &str) -> usize {
        10
    }
}

#[test]
fn compact_uses_tokenizer_budget_not_character_count() {
    let mut mgr = ContextManager::builder(35)
        .tokenizer(PerMessageTokenizer)
        .preserve_n_last(2)
        .build();
    for i in 0..5 {
        mgr.add_message(Message::user(&format!("q{i}")));
    }
    assert_eq!(mgr.estimated_tokens(), 50);

    let report = mgr
        .compact_if_needed()
        .expect("compaction should succeed")
        .expect("over-budget history must compact");
    assert_eq!(report.before, 5);
    assert!(report.after < report.before);
    assert_eq!(report.after, 2);
}

#[test]
fn reaching_the_budget_exactly_compacts() {
    let mut mgr = ContextManager::builder(20)
        .tokenizer(PerMessageTokenizer)
        .preserve_n_last(1)
        .build();
    mgr.add_message(Message::user("a"));
    assert!(!mgr.needs_compaction(19));
    assert!(mgr.compact_if_needed().unwrap().is_none());
    mgr.add_message(Message::user("b"));
    assert!(mgr.needs_compaction(20));
    let report = mgr.compact_if_needed().unwrap().unwrap();
    assert_eq!((report.before, report.after), (2, 1));
}

#[test]
fn too_little_history_is_an_error_and_changes_nothing() {
    let mut mgr = ContextManager::builder(0).build();
    mgr.add_message(Message::user("a"));
    mgr.pin_last();
    assert!(matches!(
        mgr.compact_if_needed(),
        Err(CompactionError::NotEnoughHistory)
    ));
    assert_eq!(mgr.messages().len(), 1);
    assert_eq!(mgr.pinned(), &vec![true]);
}

struct KeepPinned;

impl CompactionStrategy for KeepPinned {
    fn name(&self) -> &'static str {
        "pinned"
    }

    fn compact(
        &self,
        messages: &Vec<Message>,
        pinned: &Vec<bool>,
        preserve_n_last: usize,
    ) -> Result<CompactionOutput, CompactionError> {
        assert_eq!(messages.len(), pinned.len());
        if preserve_n_last > messages.len() {
            return Err(CompactionError::SummarizationFailed("no".to_string()));
        }
        let mut kept: Vec<Message> = Vec::new();
        for (message, pin) in messages.iter().zip(pinned) {
            if *pin {
                kept.push(message.clone());
            }
        }
        Ok(CompactionOutput {
            pinned: vec![true; kept.len()],
            messages: kept,
        })
    }
}

#[test]
fn another_strategy_takes_the_place_of_truncation() {
    let mut mgr = ContextManager::builder(0).strategy(KeepPinned).build();
    mgr.pin_last();
    mgr.extend(vec![Message::user("a"), Message::user("b")]);
    assert!(matches!(
        mgr.compact_if_needed(),
        Err(CompactionError::SummarizationFailed(reason)) if reason == "no"
    ));
    mgr.extend(vec![Message::user("c"), Message::user("d")]);
    mgr.pin_at(1);
    mgr.pin_at(2);
    let report = mgr.compact_if_needed().unwrap().unwrap();
    assert_eq!(report.strategy, "pinned");
    assert_eq!((report.before, report.after), (4, 2));
    assert_eq!(
        mgr.messages(),
        &vec![Message::user("b"), Message::user("c")]
    );
    assert_eq!(mgr.pinned(), &vec![true, true]);
}

#[test]
fn pairs_outlive_truncation_together() {
    let mut mgr = ContextManager::builder(0).preserve_n_last(1).build();
    mgr.extend(vec![
        Message::user("task"),
        tool_call_msg("c1"),
        tool_result_msg("c1"),
        tool_call_msg("c2"),
        tool_result_msg("c2"),
        Message::user("next"),
    ]);
    mgr.pin_with_tool_result(4);
    assert_eq!(mgr.pinned(), &vec![false, false, false, true, true, false]);
    mgr.compact_if_needed().unwrap().unwrap();
    assert_eq!(
        mgr.messages(),
        &vec![
            tool_call_msg("c2"),
            tool_result_msg("c2"),
            Message::user("next")
        ]
    );
    mgr.extend(vec![Message::user("more")]);
    mgr.compact_if_needed().unwrap().unwrap();
    assert_eq!(
        mgr.messages(),
        &vec![
            tool_call_msg("c2"),
            tool_result_msg("c2"),
            Message::user("more")
        ]
    );
}

#[test]
fn from_messages_restores_history_and_pin_mask() {
    let messages = vec![
        Message::user("first"),
        Message::assistant_text("ack"),
        Message::user("second"),
    ];
    let pinned = vec![true, false, true];
    let mgr = ContextManager::from_messages(ContextManager::builder(10_000), messages, pinned)
        .expect("equal lengths");
    assert_eq!(mgr.messages().len(), 3);
    assert!(mgr.is_pinned(0));
    assert!(!mgr.is_pinned(1));
    assert!(mgr.is_pinned(2));
}

#[test]
fn from_messages_rejects_length_mismatch() {
    let result = ContextManager::from_messages(
        ContextManager::builder(10_000),
        vec![Message::user("solo")],
        vec![],
    );
    match result {
        Err(e) => {
            assert_eq!(
                e,
                FromMessagesError::LengthMismatch {
                    messages: 1,
                    pinned: 0,
                }
            );
            assert_eq!(
                e.text(),
                "messages and pinned must have the same length (messages: 1, pinned: 0)"
            );
        }
        Ok(_) => panic!("length mismatch must error, not panic"),
    }
}

#[test]
fn keeps_normal_history_intact_when_no_pairs() {
    let messages = vec![
        Message::user("hi"),
        Message::assistant_text("hello"),
        Message::user("again"),
        Message::assistant_text("yes"),
    ];

    let out = TruncateStrategy
        .compact(&messages, &unpinned(messages.len()), 2)
        .unwrap();
    assert_eq!(out.messages.len(), 2);
    assert!(matches!(out.messages[0], Message::User { .. }));
    assert_eq!(out.pinned, vec![false, false]);
}

#[test]
fn walks_back_when_cut_lands_on_tool_result() {
    let messages = vec![
        Message::user("solve this"),
        tool_call_msg("c1"),
        tool_result_msg("c1"),
        Message::assistant_text("done"),
    ];

    let out = TruncateStrategy
        .compact(&messages, &unpinned(messages.len()), 2)
        .unwrap();
    assert_eq!(out.messages.len(), 4);
}

#[test]
fn walks_back_when_cut_lands_on_assistant() {
    let messages = vec![
        Message::user("hi"),
        Message::assistant_text("hey"),
        Message::user("more"),
        Message::assistant_text("done"),
    ];

    let out = TruncateStrategy
        .compact(&messages, &unpinned(messages.len()), 1)
        .unwrap();
    assert_eq!(out.messages.len(), 2);
    assert!(matches!(out.messages[0], Message::User { .. }));
}

#[test]
fn pinned_prefix_message_survives_truncation() {
    let messages = vec![
        Message::user("system-ish pinned"),
        Message::user("turn 1 q"),
        Message::assistant_text("turn 1 a"),
        Message::user("turn 2 q"),
        Message::assistant_text("turn 2 a"),
    ];
    let mut pinned = unpinned(messages.len());
    pinned[0] = true;

    let out = TruncateStrategy.compact(&messages, &pinned, 2).unwrap();

    assert_eq!(out.messages.len(), 3, "pinned prefix + tail of 2");
    assert!(matches!(&out.messages[0], Message::User { blocks }
        if matches!(&blocks[0], UserBlock::Text { text, .. } if text == "system-ish pinned")));
    assert_eq!(out.pinned, vec![true, false, false]);
}

#[test]
fn only_plain_user_turns_begin_a_history() {
    assert!(is_safe_start(&Message::user("a")));
    assert!(!is_safe_start(&tool_result_msg("c")));
    assert!(!is_safe_start(&Message::assistant_text("a")));
}

fn sample_snapshot() -> ConversationSnapshot {
    ConversationSnapshot::new(
        vec![Message::user("hi"), Message::assistant_text("hello")],
        vec![true, false],
    )
    .expect("valid lengths")
}

#[test]
fn round_trip_through_json() {
    let snap = ConversationSnapshot::new(
        vec![
            Message::user("hi"),
            Message::Assistant {
                blocks: vec![AssistantBlock::tool_call("c1", "fetch", json(r#"{"x": 1}"#))],
            },
        ],
        vec![true, false],
    )
    .expect("valid lengths");

    let s = snap.to_text();
    let back = ConversationSnapshot::from_text(&s).unwrap();
    assert_eq!(back, snap);
    assert_eq!(ConversationSnapshot::from_json(&snap.to_json()).unwrap(), snap);
}

#[test]
fn deserialize_rejects_unsupported_version() {
    let bad = r#"{ "version": 999, "messages": [], "pinned": [] }"#;
    let err = ConversationSnapshot::from_text(bad).expect_err("expected version mismatch error");
    assert_eq!(err, SnapshotError::UnsupportedVersion(999));
    let msg = err.text();
    assert!(
        msg.contains("unsupported snapshot version 999"),
        "unexpected error message: {msg}"
    );
    assert_eq!(msg, "unsupported snapshot version 999 (expected 1)");
}

#[test]
fn deserialize_rejects_length_mismatch() {
    let bad = r#"{
        "version": 1,
        "messages": [{ "User": { "blocks": [{ "Text": { "text": "hi" } }] } }],
        "pinned": []
    }"#;
    let err = ConversationSnapshot::from_text(bad).expect_err("expected length mismatch error");
    assert!(
        err.text().contains("length mismatch"),
        "unexpected error: {err:?}"
    );
    assert_eq!(
        err.text(),
        "messages/pinned length mismatch: messages=1, pinned=0"
    );
}

#[test]
fn new_rejects_length_mismatch() {
    let err = ConversationSnapshot::new(vec![Message::user("hi")], vec![]).unwrap_err();
    assert!(matches!(
        err,
        FromMessagesError::LengthMismatch {
            messages: 1,
            pinned: 0
        }
    ));
}

#[test]
fn documents_of_another_shape_are_no_snapshots() {
    for bad in [
        r#"{ "version": 1, "messages": [] }"#,
        r#"{ "version": -1, "messages": [], "pinned": [] }"#,
        r#"{ "version": 1.0, "messages": [], "pinned": [] }"#,
        r#"{ "version": 4294967296, "messages": [], "pinned": [] }"#,
        r#"{ "version": 1, "messages": [{}], "pinned": [false] }"#,
        r#"{ "version": 1, "messages": [{ "System": {} }], "pinned": [false] }"#,
        r#"{ "version": 1, "messages": [], "pinned": [0] }"#,
        r#"7"#,
    ] {
        assert_eq!(
            ConversationSnapshot::from_text(bad).unwrap_err(),
            SnapshotError::Shape,
            "{bad}"
        );
    }
    assert!(matches!(
        ConversationSnapshot::from_text("{"),
        Err(SnapshotError::Syntax(_))
    ));
}

#[test]
fn unknown_entries_and_rows_in_order_are_read() {
    let snap = ConversationSnapshot::from_text(
        r#"{ "pinned": [true], "extra": 0, "version": 1,
             "messages": [{ "User": { "blocks": [{ "Text": ["hi"] }] } }] }"#,
    )
    .unwrap();
    assert_eq!(snap.messages, vec![Message::user("hi")]);
    assert_eq!(snap.pinned, vec![true]);
    let row = ConversationSnapshot::from_text("[1, [], []]").unwrap();
    assert!(row.messages.is_empty());
}

#[test]
fn history_store_in_memory_store_round_trip() {
    let mut store = InMemoryHistoryStore::new();
    assert!(store.load().is_none());

    let snap = sample_snapshot();
    store.save(&snap);
    let restored = store.load().expect("load after save");
    assert_eq!(restored, snap);
}

#[test]
fn history_store_json_file_store_returns_none_when_missing() {
    let restored = JsonFileHistoryStore::loaded(FileRead::Missing).unwrap();
    assert!(restored.is_none(), "missing file must yield Ok(None)");
}

#[test]
fn history_store_json_file_store_round_trip() {
    let store = JsonFileHistoryStore::new("snap.json");
    assert_eq!(store.path(), "snap.json");
    let snap = sample_snapshot();
    let restored = JsonFileHistoryStore::loaded(FileRead::Text(snap.to_text()))
        .unwrap()
        .expect("load after save");
    assert_eq!(restored, snap);
}

#[test]
fn unreadable_files_are_errors() {
    let err = JsonFileHistoryStore::loaded(FileRead::Failed("denied".to_string())).unwrap_err();
    assert_eq!(err, JsonFileHistoryStoreError::Io("denied".to_string()));
    assert_eq!(err.text(), "failed to read/write snapshot file: denied");
    let err = JsonFileHistoryStore::loaded(FileRead::Text("[]".to_string())).unwrap_err();
    assert_eq!(err, JsonFileHistoryStoreError::Json(SnapshotError::Shape));
    assert!(err
        .text()
        .starts_with("failed to encode/decode snapshot JSON: "));
}

#[test]
fn saved_text_is_indented() {
    let text = sample_snapshot().to_text();
    assert!(text.starts_with("{\n  \""), "{text}");
}

fn round_trip(msg: &Message) -> Message {
    let text = msg.to_json().to_text();
    Message::from_json(&json(&text)).expect("decodes")
}

fn assert_user_text_eq(msg: &Message, expected: &str) {
    match msg {
        Message::User { blocks } => match &blocks[0] {
            UserBlock::Text {
                text,
                cache_control,
            } => {
                assert_eq!(text, expected);
                assert!(cache_control.is_none(), "cache_control must not round-trip");
            }
            other => panic!("expected UserBlock::Text, got {other:?}"),
        },
        other => panic!("expected Message::User, got {other:?}"),
    }
}

#[test]
fn round_trip_user_text_drops_cache_control() {
    let msg = Message::User {
        blocks: vec![UserBlock::text("hello").with_cache_control(Some(CacheControl::Ephemeral))],
    };
    let restored = round_trip(&msg);
    assert_user_text_eq(&restored, "hello");
}

#[test]
fn round_trip_user_tool_result() {
    let msg = Message::User {
        blocks: vec![UserBlock::tool_result(
            "call-1",
            ToolResultContent::text("ok"),
        )],
    };
    match &round_trip(&msg) {
        Message::User { blocks } => match &blocks[0] {
            UserBlock::ToolResult {
                call_id,
                content,
                cache_control,
            } => {
                assert_eq!(call_id, "call-1");
                assert_eq!(content.as_text(), Some("ok"));
                assert!(!content.is_error);
                assert!(cache_control.is_none());
            }
            other => panic!("expected ToolResult, got {other:?}"),
        },
        other => panic!("expected User, got {other:?}"),
    }
}

#[test]
fn round_trip_assistant_text_and_tool_call() {
    let msg = Message::Assistant {
        blocks: vec![
            AssistantBlock::text("thinking out loud"),
            AssistantBlock::tool_call("c1", "fetch", json(r#"{"q": "x"}"#)),
        ],
    };
    match &round_trip(&msg) {
        Message::Assistant { blocks } => {
            assert_eq!(blocks.len(), 2);
            match &blocks[0] {
                AssistantBlock::Text { text, .. } => assert_eq!(text, "thinking out loud"),
                other => panic!("expected Text, got {other:?}"),
            }
            match &blocks[1] {
                AssistantBlock::ToolCall { id, name, args, .. } => {
                    assert_eq!(id, "c1");
                    assert_eq!(name, "fetch");
                    assert_eq!(args, &json(r#"{"q": "x"}"#));
                }
                other => panic!("expected ToolCall, got {other:?}"),
            }
        }
        other => panic!("expected Assistant, got {other:?}"),
    }
}

#[test]
fn round_trip_assistant_reasoning_variants() {
    let msg = Message::Assistant {
        blocks: vec![
            AssistantBlock::Reasoning {
                text: "consider X".into(),
                signature: Some("sig-1".into()),
            },
            AssistantBlock::RedactedReasoning {
                data: "opaque".into(),
            },
        ],
    };
    match &round_trip(&msg) {
        Message::Assistant { blocks } => match (&blocks[0], &blocks[1]) {
            (
                AssistantBlock::Reasoning { text, signature },
                AssistantBlock::RedactedReasoning { data },
            ) => {
                assert_eq!(text, "consider X");
                assert_eq!(signature.as_deref(), Some("sig-1"));
                assert_eq!(data, "opaque");
            }
            other => panic!("unexpected blocks: {other:?}"),
        },
        other => panic!("expected Assistant, got {other:?}"),
    }
}

#[test]
fn round_trip_tool_result_error_variant() {
    let content = ToolResultContent::error("boom");
    let text = content.to_json().to_text();
    let back = ToolResultContent::from_json(&json(&text)).unwrap();
    assert_eq!(back.as_text(), Some("boom"));
    assert!(back.is_error);
}

#[test]
fn tool_result_content_is_error_omitted_when_false() {
    let document = ToolResultContent::text("ok").to_json();
    assert!(
        document.get("is_error").is_none(),
        "is_error must be skipped when false, got {document:?}"
    );
}

#[test]
fn tool_result_content_multi_block_round_trip() {
    let content = ToolResultContent::from_blocks(vec![
        ToolResultBlock::text("see chart"),
        ToolResultBlock::image(Source::Url {
            url: "https://example.com/chart.png".into(),
        }),
    ]);
    let text = content.to_json().to_text();
    let back = ToolResultContent::from_json(&json(&text)).unwrap();
    assert_eq!(back.blocks.len(), 2);
    assert!(!back.is_error);
    assert_eq!(back, content);
}

#[test]
fn round_trip_user_image_block() {
    let msg = Message::User {
        blocks: vec![UserBlock::image(Source::Base64 {
            media_type: "image/png".into(),
            data: "AAAA".into(),
        })],
    };
    match &round_trip(&msg) {
        Message::User { blocks } => match &blocks[0] {
            UserBlock::Image {
                source,
                cache_control,
            } => {
                assert!(matches!(
                    source,
                    Source::Base64 { media_type, data }
                        if media_type == "image/png" && data == "AAAA"
                ));
                assert!(cache_control.is_none());
            }
            other => panic!("expected Image, got {other:?}"),
        },
        other => panic!("expected User, got {other:?}"),
    }
}

#[test]
fn documents_of_messages_have_their_persisted_shape() {
    let msg = Message::User {
        blocks: vec![
            UserBlock::text("t"),
            UserBlock::document(Source::FileId { id: "f".into() }),
            UserBlock::tool_result("c", ToolResultContent::error("e")),
        ],
    };
    assert_eq!(
        msg.to_json(),
        json(
            r#"{ "User": { "blocks": [
                { "Text": { "text": "t" } },
                { "Document": { "source": { "type": "file_id", "id": "f" } } },
                { "ToolResult": { "call_id": "c", "content": {
                    "blocks": [{ "type": "text", "text": "e" }], "is_error": true } } }
            ] } }"#
        )
    );
    let msg = Message::Assistant {
        blocks: vec![AssistantBlock::Reasoning {
            text: "r".into(),
            signature: None,
        }],
    };
    assert_eq!(
        msg.to_json(),
        json(r#"{ "Assistant": { "blocks": [{ "Reasoning": { "text": "r", "signature": null } }] } }"#)
    );
    let without = json(r#"{ "Assistant": { "blocks": [{ "Reasoning": { "text": "r" } }] } }"#);
    assert_eq!(Message::from_json(&without), Some(msg));
}

#[test]
fn char_tokenizer_measures_the_default_manager() {
    let mut mgr = ContextManager::builder(1).build();
    mgr.add_message(Message::user("hello world"));
    assert_eq!(mgr.estimated_tokens(), CharTokenizer.count_text("hello world"));
}

#[test]
fn a_tail_of_no_messages_still_keeps_what_is_pinned() {
    let messages = vec![
        Message::user("pinned"),
        Message::assistant_text("a"),
        Message::user("last turn"),
        tool_call_msg("c1"),
        tool_result_msg("c1"),
    ];
    let out = TruncateStrategy
        .compact(&messages, &vec![true, false, false, false, false], 0)
        .unwrap();
    assert_eq!(
        out.messages,
        vec![
            Message::user("pinned"),
            Message::user("last turn"),
            tool_call_msg("c1"),
            tool_result_msg("c1"),
        ]
    );
    assert_eq!(out.pinned, vec![true, false, false, false]);
    assert!(matches!(
        TruncateStrategy.compact(&vec![], &vec![], 0),
        Err(CompactionError::NotEnoughHistory)
    ));

    let mut mgr = ContextManager::builder(0).preserve_n_last(0).build();
    mgr.extend(vec![Message::user("a"), Message::user("b")]);
    let report = mgr.compact_if_needed().unwrap().unwrap();
    assert_eq!((report.before, report.after), (2, 1));
    assert_eq!(mgr.messages(), &vec![Message::user("b")]);
}

#[test]
fn compaction_errors_have_texts() {
    assert_eq!(
        CompactionError::NotEnoughHistory.text(),
        "Not enough history to compact"
    );
    assert_eq!(
        CompactionError::SummarizationFailed("busy".into()).text(),
        "Summarization failed: busy"
    );
}
