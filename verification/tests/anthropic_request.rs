use ailoop::anthropic::request::{
    build_body, to_anthropic_assistant_block, to_anthropic_user_block, ttl_string_for,
};
use ailoop::duration::Duration;
use ailoop::json::Json;
use ailoop::message::{
    AssistantBlock, CacheControl, Message, Source, SystemBlock, SystemPrompt, ToolResultBlock,
    ToolResultContent, UserBlock,
};
use ailoop::request::{ChatRequest, ReasoningEffort, ToolChoice, ToolDefinition};

fn json(text: &str) -> Json {
    Json::parse(text).expect("valid JSON")
}

fn entry<'a>(value: &'a Json, key: &str) -> &'a Json {
    value.get(key).expect("entry")
}

fn first(value: &Json) -> &Json {
    &value.as_array().expect("array")[0]
}

fn base_req() -> ChatRequest {
    ChatRequest::new(vec![], 1024)
}

#[test]
fn request_omits_tool_choice_when_unset() {
    let body = build_body("sonnet", &base_req());
    assert!(body.get("tool_choice").is_none());
}

#[test]
fn request_maps_tool_choice_auto() {
    let mut req = base_req();
    req.tool_choice = Some(ToolChoice::Auto);
    let body = build_body("sonnet", &req);
    assert_eq!(entry(&body, "tool_choice"), &json(r#"{ "type": "auto" }"#));
}

#[test]
fn request_maps_tool_choice_any() {
    let mut req = base_req();
    req.tool_choice = Some(ToolChoice::Any);
    let body = build_body("sonnet", &req);
    assert_eq!(entry(&body, "tool_choice"), &json(r#"{ "type": "any" }"#));
}

#[test]
fn request_maps_tool_choice_specific_tool() {
    let mut req = base_req();
    req.tool_choice = Some(ToolChoice::Tool {
        name: "get_weather".into(),
    });
    let body = build_body("sonnet", &req);
    assert_eq!(
        entry(&body, "tool_choice"),
        &json(r#"{ "type": "tool", "name": "get_weather" }"#)
    );
}

#[test]
fn request_maps_tool_choice_none() {
    let mut req = base_req();
    req.tool_choice = Some(ToolChoice::None_);
    let body = build_body("sonnet", &req);
    assert_eq!(entry(&body, "tool_choice"), &json(r#"{ "type": "none" }"#));
}

#[test]
fn request_disable_parallel_alone_emits_auto_tool_choice_with_flag() {
    let mut req = base_req();
    req.disable_parallel_tool_use = Some(true);
    let body = build_body("sonnet", &req);
    assert_eq!(
        entry(&body, "tool_choice"),
        &json(r#"{ "type": "auto", "disable_parallel_tool_use": true }"#)
    );
}

#[test]
fn request_disable_parallel_combines_with_explicit_tool_choice() {
    let mut req = base_req();
    req.tool_choice = Some(ToolChoice::Any);
    req.disable_parallel_tool_use = Some(true);
    let body = build_body("sonnet", &req);
    assert_eq!(
        entry(&body, "tool_choice"),
        &json(r#"{ "type": "any", "disable_parallel_tool_use": true }"#)
    );
}

#[test]
fn request_reasoning_block_serializes_with_signature() {
    let block = AssistantBlock::Reasoning {
        text: "step 1".into(),
        signature: Some("abc123".into()),
    };
    assert_eq!(
        to_anthropic_assistant_block(&block),
        json(r#"{ "type": "thinking", "thinking": "step 1", "signature": "abc123" }"#)
    );
}

#[test]
fn request_reasoning_block_without_signature_serializes_with_empty_string() {
    let block = AssistantBlock::Reasoning {
        text: "step 1".into(),
        signature: None,
    };
    let value = to_anthropic_assistant_block(&block);
    assert_eq!(entry(&value, "signature"), &json(r#""""#));
}

#[test]
fn request_redacted_reasoning_block_serializes_as_redacted_thinking() {
    let block = AssistantBlock::RedactedReasoning {
        data: "opaque-blob".into(),
    };
    assert_eq!(
        to_anthropic_assistant_block(&block),
        json(r#"{ "type": "redacted_thinking", "data": "opaque-blob" }"#)
    );
}

#[test]
fn plain_system_prompt_wires_as_string() {
    let mut req = base_req();
    req.system_prompt = Some(SystemPrompt::from("be helpful"));
    let body = build_body("sonnet", &req);
    assert_eq!(entry(&body, "system"), &json(r#""be helpful""#));
}

#[test]
fn block_system_prompt_emits_cache_control_per_block() {
    let mut req = base_req();
    req.system_prompt = Some(SystemPrompt::Blocks(vec![
        SystemBlock::new("static prelude").with_cache_control(CacheControl::Ephemeral),
        SystemBlock::new("dynamic suffix"),
    ]));
    let body = build_body("sonnet", &req);
    assert_eq!(
        entry(&body, "system"),
        &json(
            r#"[
                {
                    "type": "text",
                    "text": "static prelude",
                    "cache_control": { "type": "ephemeral" }
                },
                { "type": "text", "text": "dynamic suffix" }
            ]"#
        )
    );
}

#[test]
fn ephemeral_with_one_hour_ttl_emits_ttl_string() {
    let block = UserBlock::text("cached").with_cache_control(Some(CacheControl::EphemeralWithTtl(
        Duration::from_secs(60 * 60),
    )));
    assert_eq!(
        to_anthropic_user_block(&block),
        json(
            r#"{
                "type": "text",
                "text": "cached",
                "cache_control": { "type": "ephemeral", "ttl": "1h" }
            }"#
        )
    );
}

#[test]
fn ttl_is_rounded_to_what_the_provider_offers() {
    assert_eq!(ttl_string_for(Duration::from_secs(0)), "5m");
    assert_eq!(ttl_string_for(Duration::from_secs(5 * 60)), "5m");
    assert_eq!(ttl_string_for(Duration::from_secs(60 * 60)), "1h");
    assert_eq!(ttl_string_for(Duration::from_secs(1950)), "5m");
    assert_eq!(ttl_string_for(Duration::from_millis(1_950_500)), "1h");
    assert_eq!(ttl_string_for(Duration::from_nanos(1_950_000_000_001)), "1h");
    assert_eq!(ttl_string_for(Duration::from_secs(24 * 60 * 60)), "1h");
}

#[test]
fn user_text_without_cache_control_omits_field() {
    let value = to_anthropic_user_block(&UserBlock::text("plain"));
    assert!(value.get("cache_control").is_none());
}

#[test]
fn tool_result_carries_cache_control() {
    let block = UserBlock::tool_result("call_1", ToolResultContent::text("ok"))
        .with_cache_control(Some(CacheControl::Ephemeral));
    let value = to_anthropic_user_block(&block);
    assert_eq!(
        entry(&value, "cache_control"),
        &json(r#"{ "type": "ephemeral" }"#)
    );
}

#[test]
fn tool_result_text_wires_as_array_of_text_blocks() {
    let block = UserBlock::tool_result("call_1", ToolResultContent::text("70F"));
    let value = to_anthropic_user_block(&block);
    assert_eq!(entry(&value, "type"), &json(r#""tool_result""#));
    assert_eq!(entry(&value, "tool_use_id"), &json(r#""call_1""#));
    assert_eq!(
        entry(&value, "content"),
        &json(r#"[{ "type": "text", "text": "70F" }]"#)
    );
    assert!(value.get("is_error").is_none());
}

#[test]
fn tool_result_error_emits_is_error_true() {
    let block = UserBlock::tool_result("call_1", ToolResultContent::error("API down"));
    let value = to_anthropic_user_block(&block);
    assert_eq!(entry(&value, "is_error"), &json("true"));
    assert_eq!(
        entry(&value, "content"),
        &json(r#"[{ "type": "text", "text": "API down" }]"#)
    );
}

#[test]
fn tool_result_with_image_wires_mixed_blocks() {
    let content = ToolResultContent::from_blocks(vec![
        ToolResultBlock::text("see chart"),
        ToolResultBlock::image(Source::Base64 {
            media_type: "image/png".into(),
            data: "AAAA".into(),
        }),
    ]);
    let value = to_anthropic_user_block(&UserBlock::tool_result("call_1", content));
    assert_eq!(
        entry(&value, "content"),
        &json(
            r#"[
                { "type": "text", "text": "see chart" },
                {
                    "type": "image",
                    "source": { "type": "base64", "media_type": "image/png", "data": "AAAA" }
                }
            ]"#
        )
    );
}

#[test]
fn user_image_block_maps_to_image_with_base64_source() {
    let block = UserBlock::image(Source::Base64 {
        media_type: "image/png".into(),
        data: "iVBOR".into(),
    });
    assert_eq!(
        to_anthropic_user_block(&block),
        json(
            r#"{
                "type": "image",
                "source": { "type": "base64", "media_type": "image/png", "data": "iVBOR" }
            }"#
        )
    );
}

#[test]
fn user_image_block_maps_to_image_with_url_source() {
    let block = UserBlock::image(Source::Url {
        url: "https://example.com/img.png".into(),
    });
    assert_eq!(
        to_anthropic_user_block(&block),
        json(
            r#"{
                "type": "image",
                "source": { "type": "url", "url": "https://example.com/img.png" }
            }"#
        )
    );
}

#[test]
fn user_image_block_maps_to_image_with_file_id_source() {
    let block = UserBlock::image(Source::FileId {
        id: "file_abc".into(),
    });
    assert_eq!(
        to_anthropic_user_block(&block),
        json(r#"{ "type": "image", "source": { "type": "file", "file_id": "file_abc" } }"#)
    );
}

#[test]
fn user_document_block_maps_to_document_with_base64_source() {
    let block = UserBlock::document(Source::Base64 {
        media_type: "application/pdf".into(),
        data: "JVBERi0".into(),
    });
    let value = to_anthropic_user_block(&block);
    assert_eq!(entry(&value, "type"), &json(r#""document""#));
    assert_eq!(
        entry(&value, "source"),
        &json(r#"{ "type": "base64", "media_type": "application/pdf", "data": "JVBERi0" }"#)
    );
}

#[test]
fn image_block_carries_cache_control() {
    let block = UserBlock::image(Source::Url {
        url: "https://example.com/img.png".into(),
    })
    .with_cache_control(Some(CacheControl::Ephemeral));
    let value = to_anthropic_user_block(&block);
    assert_eq!(
        entry(&value, "cache_control"),
        &json(r#"{ "type": "ephemeral" }"#)
    );
}

#[test]
fn assistant_text_carries_cache_control() {
    let block = AssistantBlock::text("answer").with_cache_control(Some(CacheControl::Ephemeral));
    let value = to_anthropic_assistant_block(&block);
    assert_eq!(
        entry(&value, "cache_control"),
        &json(r#"{ "type": "ephemeral" }"#)
    );
}

#[test]
fn assistant_tool_call_carries_cache_control() {
    let block = AssistantBlock::tool_call("toolu_1", "search", json(r#"{"q": "x"}"#))
        .with_cache_control(Some(CacheControl::Ephemeral));
    let value = to_anthropic_assistant_block(&block);
    assert_eq!(
        entry(&value, "cache_control"),
        &json(r#"{ "type": "ephemeral" }"#)
    );
}

fn weather_tool() -> ToolDefinition {
    ToolDefinition::new(
        "get_weather",
        "Look up the weather",
        json(r#"{ "type": "object", "properties": {} }"#),
        vec![],
    )
}

#[test]
fn tool_definition_emits_cache_control_when_set() {
    let mut req = base_req();
    req.tools = Some(vec![
        weather_tool().with_cache_control(CacheControl::Ephemeral),
    ]);
    let body = build_body("sonnet", &req);
    let tool = first(entry(&body, "tools"));
    assert_eq!(
        entry(tool, "cache_control"),
        &json(r#"{ "type": "ephemeral" }"#)
    );
}

#[test]
fn reasoning_effort_low_medium_high_emit_documented_budgets() {
    for (variant, expected_budget) in [
        (ReasoningEffort::Low, 1024),
        (ReasoningEffort::Medium, 4096),
        (ReasoningEffort::High, 16384),
    ] {
        let mut req = base_req();
        req.reasoning_effort = Some(variant);
        let body = build_body("sonnet", &req);
        let expected = format!(r#"{{ "type": "enabled", "budget_tokens": {expected_budget} }}"#);
        assert_eq!(
            entry(&body, "thinking"),
            &json(&expected),
            "{variant:?} should map to budget {expected_budget}"
        );
    }
}

#[test]
fn reasoning_effort_minimal_emits_disabled() {
    let mut req = base_req();
    req.reasoning_effort = Some(ReasoningEffort::Minimal);
    let body = build_body("sonnet", &req);
    assert_eq!(entry(&body, "thinking"), &json(r#"{ "type": "disabled" }"#));
}

#[test]
fn reasoning_effort_budget_forwards_verbatim() {
    let mut req = base_req();
    req.reasoning_effort = Some(ReasoningEffort::Budget(7777));
    let body = build_body("sonnet", &req);
    assert_eq!(
        entry(&body, "thinking"),
        &json(r#"{ "type": "enabled", "budget_tokens": 7777 }"#)
    );
}

#[test]
fn reasoning_effort_none_omits_thinking_field() {
    let body = build_body("sonnet", &base_req());
    assert!(body.get("thinking").is_none());
}

#[test]
fn tool_definition_omits_cache_control_when_unset() {
    let mut req = base_req();
    req.tools = Some(vec![weather_tool()]);
    let body = build_body("sonnet", &req);
    let tool = first(entry(&body, "tools"));
    assert!(tool.get("cache_control").is_none());
}

#[test]
fn whole_body_of_a_full_request() {
    let mut req = ChatRequest::new(vec![Message::user("hi"), Message::assistant_text("yo")], 77);
    req.top_k = Some(5);
    req.stop_sequences = vec!["STOP".to_string()];
    req.additional_params = Some(json(r#"{ "max_tokens": 9, "metadata": { "user_id": "u" } }"#));
    let body = build_body("sonnet", &req);
    assert_eq!(
        body,
        json(
            r#"{
                "model": "sonnet",
                "max_tokens": 9,
                "stream": true,
                "messages": [
                    { "role": "user", "content": [{ "type": "text", "text": "hi" }] },
                    { "role": "assistant", "content": [{ "type": "text", "text": "yo" }] }
                ],
                "top_k": 5,
                "stop_sequences": ["STOP"],
                "metadata": { "user_id": "u" }
            }"#
        )
    );
}
