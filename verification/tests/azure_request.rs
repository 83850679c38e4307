use ailoop::azure_openai::errors::AzureOpenAIError;
use ailoop::azure_openai::request::build_body;
use ailoop::json::Json;
use ailoop::message::{
    AssistantBlock, Message, Source, ToolResultBlock, ToolResultContent, UserBlock,
};
use ailoop::request::{ChatRequest, ReasoningEffort, ToolChoice, ToolDefinition, ToolTag};

fn json(text: &str) -> Json {
    Json::parse(text).expect("valid JSON")
}

fn base_req() -> ChatRequest {
    ChatRequest::new(Vec::new(), 1024)
}

fn body_of(req: &ChatRequest) -> Json {
    build_body("dep", req).expect("a body")
}

fn entry<'a>(value: &'a Json, key: &str) -> &'a Json {
    value.get(key).expect("entry")
}

fn messages(body: &Json) -> &Vec<Json> {
    entry(body, "messages").as_array().expect("array")
}

fn with_user_blocks(blocks: Vec<UserBlock>) -> ChatRequest {
    let mut req = base_req();
    req.messages = vec![Message::User { blocks }];
    req
}

#[test]
fn reasoning_effort_categorical_variants_map_to_strings() {
    for (variant, expected) in [
        (ReasoningEffort::Minimal, "minimal"),
        (ReasoningEffort::Low, "low"),
        (ReasoningEffort::Medium, "medium"),
        (ReasoningEffort::High, "high"),
    ] {
        let mut req = base_req();
        req.reasoning_effort = Some(variant);
        assert_eq!(
            entry(&body_of(&req), "reasoning_effort"),
            &Json::text(expected),
            "{variant:?} should map to {expected:?}"
        );
    }
}

#[test]
fn reasoning_effort_budget_bucketises_into_strings() {
    for (budget, expected) in [
        (0u32, "low"),
        (2047, "low"),
        (2048, "medium"),
        (8191, "medium"),
        (8192, "high"),
        (50000, "high"),
    ] {
        let mut req = base_req();
        req.reasoning_effort = Some(ReasoningEffort::Budget(budget));
        assert_eq!(
            entry(&body_of(&req), "reasoning_effort"),
            &Json::text(expected),
            "Budget({budget}) should bucket as {expected:?}"
        );
    }
}

#[test]
fn reasoning_effort_none_omits_field() {
    assert!(body_of(&base_req()).get("reasoning_effort").is_none());
}

#[test]
fn serializes_simple_text_turn() {
    let mut req = base_req();
    req.messages = vec![Message::user("hi"), Message::assistant_text("hello")];
    let body = build_body("gpt-4o-mini-deployment", &req).unwrap();
    assert_eq!(entry(&body, "model"), &json(r#""gpt-4o-mini-deployment""#));
    assert_eq!(entry(&body, "stream"), &json("true"));
    assert_eq!(
        entry(&body, "stream_options"),
        &json(r#"{ "include_usage": true }"#)
    );
    let messages = messages(&body);
    assert_eq!(messages.len(), 2);
    assert_eq!(entry(&messages[0], "role"), &json(r#""user""#));
    assert_eq!(entry(&messages[0], "content"), &json(r#""hi""#));
    assert_eq!(entry(&messages[1], "role"), &json(r#""assistant""#));
    assert_eq!(entry(&messages[1], "content"), &json(r#""hello""#));
}

#[test]
fn serializes_assistant_tool_call_with_stringified_arguments() {
    let mut req = base_req();
    req.messages = vec![Message::Assistant {
        blocks: vec![AssistantBlock::tool_call(
            "call_1",
            "get_weather",
            json(r#"{ "location": "SF", "units": "C" }"#),
        )],
    }];
    let body = body_of(&req);
    let msg = &messages(&body)[0];
    assert_eq!(entry(msg, "role"), &json(r#""assistant""#));
    assert_eq!(entry(msg, "content"), &Json::Null);
    let tc = &entry(msg, "tool_calls").as_array().unwrap()[0];
    assert_eq!(entry(tc, "id"), &json(r#""call_1""#));
    assert_eq!(entry(tc, "type"), &json(r#""function""#));
    let function = entry(tc, "function");
    assert_eq!(entry(function, "name"), &json(r#""get_weather""#));
    let args = entry(function, "arguments").as_text().unwrap();
    assert_eq!(json(args), json(r#"{ "location": "SF", "units": "C" }"#));
}

#[test]
fn serializes_tool_result_as_role_tool() {
    let req = with_user_blocks(vec![UserBlock::tool_result(
        "call_1",
        ToolResultContent::text("70F"),
    )]);
    assert_eq!(
        messages(&body_of(&req))[0],
        json(r#"{ "role": "tool", "tool_call_id": "call_1", "content": "70F" }"#)
    );
}

#[test]
fn serializes_tool_result_error_as_role_tool_text() {
    let req = with_user_blocks(vec![UserBlock::tool_result(
        "call_1",
        ToolResultContent::error("API down"),
    )]);
    let body = body_of(&req);
    let msg = &messages(&body)[0];
    assert_eq!(entry(msg, "role"), &json(r#""tool""#));
    assert_eq!(entry(msg, "tool_call_id"), &json(r#""call_1""#));
    assert_eq!(entry(msg, "content"), &json(r#""API down""#));
}

#[test]
fn splits_user_blocks_with_mixed_text_and_tool_result() {
    let req = with_user_blocks(vec![
        UserBlock::text("before"),
        UserBlock::tool_result("c1", ToolResultContent::text("ok")),
        UserBlock::text("after"),
    ]);
    let body = body_of(&req);
    let messages = messages(&body);
    assert_eq!(messages.len(), 3);
    assert_eq!(entry(&messages[0], "role"), &json(r#""user""#));
    assert_eq!(entry(&messages[0], "content"), &json(r#""before""#));
    assert_eq!(entry(&messages[1], "role"), &json(r#""tool""#));
    assert_eq!(entry(&messages[1], "tool_call_id"), &json(r#""c1""#));
    assert_eq!(entry(&messages[2], "role"), &json(r#""user""#));
    assert_eq!(entry(&messages[2], "content"), &json(r#""after""#));
}

#[test]
fn serializes_tools_array_without_tags() {
    let mut req = base_req();
    req.tools = Some(vec![ToolDefinition::new(
        "get_weather",
        "Look up the weather",
        json(r#"{ "type": "object", "properties": {} }"#),
        vec![ToolTag::ReadOnly, ToolTag::Network],
    )]);
    let body = body_of(&req);
    let tool = &entry(&body, "tools").as_array().unwrap()[0];
    assert_eq!(entry(tool, "type"), &json(r#""function""#));
    let function = entry(tool, "function");
    assert_eq!(entry(function, "name"), &json(r#""get_weather""#));
    assert_eq!(
        entry(function, "description"),
        &json(r#""Look up the weather""#)
    );
    assert_eq!(
        entry(function, "parameters"),
        &json(r#"{ "type": "object", "properties": {} }"#)
    );
    assert!(tool.get("tags").is_none());
    assert!(function.get("tags").is_none());
}

#[test]
fn omits_top_k_silently() {
    let mut req = base_req();
    req.top_k = Some(50);
    assert!(body_of(&req).get("top_k").is_none());
}

#[test]
fn merges_additional_params_last() {
    let mut req = base_req();
    req.temperature = serde_json::Number::from_f64(0.2);
    assert_eq!(entry(&body_of(&req), "temperature"), &json("0.2"));
    req.additional_params = Some(json(
        r#"{ "temperature": 0.9, "logit_bias": { "100": -100 } }"#,
    ));
    let body = body_of(&req);
    assert_eq!(entry(&body, "temperature"), &json("0.9"));
    assert_eq!(entry(&body, "logit_bias"), &json(r#"{ "100": -100 }"#));
}

#[test]
fn system_prompt_becomes_first_message() {
    let mut req = base_req();
    req.system_prompt = Some("be helpful".into());
    req.messages = vec![Message::user("hi")];
    let body = body_of(&req);
    let messages = messages(&body);
    assert_eq!(entry(&messages[0], "role"), &json(r#""system""#));
    assert_eq!(entry(&messages[0], "content"), &json(r#""be helpful""#));
    assert_eq!(entry(&messages[1], "role"), &json(r#""user""#));
}

#[test]
fn omits_optional_sampling_when_none() {
    let mut req = base_req();
    req.messages = vec![Message::user("hi")];
    let body = body_of(&req);
    assert!(body.get("temperature").is_none());
    assert!(body.get("top_p").is_none());
    assert!(body.get("stop").is_none());
}

#[test]
fn omits_tool_choice_and_parallel_when_unset() {
    let body = body_of(&base_req());
    assert!(body.get("tool_choice").is_none());
    assert!(body.get("parallel_tool_calls").is_none());
}

fn tool_choice_of(choice: ToolChoice) -> Json {
    let mut req = base_req();
    req.tool_choice = Some(choice);
    entry(&body_of(&req), "tool_choice").clone()
}

#[test]
fn maps_tool_choice_auto_as_string() {
    assert_eq!(tool_choice_of(ToolChoice::Auto), json(r#""auto""#));
}

#[test]
fn maps_tool_choice_any_as_required() {
    assert_eq!(tool_choice_of(ToolChoice::Any), json(r#""required""#));
}

#[test]
fn maps_tool_choice_specific_tool_as_function_object() {
    assert_eq!(
        tool_choice_of(ToolChoice::Tool {
            name: "get_weather".into(),
        }),
        json(r#"{ "type": "function", "function": { "name": "get_weather" } }"#)
    );
}

#[test]
fn maps_tool_choice_none_as_string() {
    assert_eq!(tool_choice_of(ToolChoice::None_), json(r#""none""#));
}

#[test]
fn disable_parallel_emits_parallel_tool_calls_false() {
    let mut req = base_req();
    req.disable_parallel_tool_use = Some(true);
    let body = body_of(&req);
    assert_eq!(entry(&body, "parallel_tool_calls"), &json("false"));
    assert!(body.get("tool_choice").is_none());
}

#[test]
fn disable_parallel_false_emits_parallel_tool_calls_true() {
    let mut req = base_req();
    req.disable_parallel_tool_use = Some(false);
    assert_eq!(entry(&body_of(&req), "parallel_tool_calls"), &json("true"));
}

#[test]
fn ignores_assistant_reasoning_block_silently() {
    let mut req = base_req();
    req.messages = vec![Message::Assistant {
        blocks: vec![
            AssistantBlock::Reasoning {
                text: "thinking...".into(),
                signature: Some("sig".into()),
            },
            AssistantBlock::text("answer"),
        ],
    }];
    let body = body_of(&req);
    let msg = &messages(&body)[0];
    assert_eq!(entry(msg, "role"), &json(r#""assistant""#));
    assert_eq!(entry(msg, "content"), &json(r#""answer""#));
    assert!(msg.get("tool_calls").is_none());
    assert!(msg.get("thinking").is_none());
    assert!(msg.get("reasoning").is_none());
}

#[test]
fn user_image_url_wires_as_image_url_part_in_array_content() {
    let req = with_user_blocks(vec![
        UserBlock::text("look at this"),
        UserBlock::image(Source::Url {
            url: "https://example.com/img.png".into(),
        }),
    ]);
    let body = body_of(&req);
    let msg = &messages(&body)[0];
    assert_eq!(entry(msg, "role"), &json(r#""user""#));
    assert_eq!(
        entry(msg, "content"),
        &json(
            r#"[
                { "type": "text", "text": "look at this" },
                { "type": "image_url", "image_url": { "url": "https://example.com/img.png" } }
            ]"#
        )
    );
}

#[test]
fn user_image_base64_wires_as_data_uri() {
    let req = with_user_blocks(vec![UserBlock::image(Source::Base64 {
        media_type: "image/png".into(),
        data: "iVBOR".into(),
    })]);
    let body = body_of(&req);
    let parts = entry(&messages(&body)[0], "content").as_array().unwrap();
    assert_eq!(parts.len(), 1);
    assert_eq!(entry(&parts[0], "type"), &json(r#""image_url""#));
    assert_eq!(
        entry(entry(&parts[0], "image_url"), "url"),
        &json(r#""data:image/png;base64,iVBOR""#)
    );
}

#[test]
fn text_only_user_message_still_emits_string_content() {
    let mut req = base_req();
    req.messages = vec![Message::user("hi")];
    let body = body_of(&req);
    assert_eq!(entry(&messages(&body)[0], "content"), &json(r#""hi""#));
}

#[test]
fn document_block_returns_unsupported_content_error() {
    let req = with_user_blocks(vec![UserBlock::document(Source::Base64 {
        media_type: "application/pdf".into(),
        data: "JVBERi0".into(),
    })]);
    let err = build_body("dep", &req).expect_err("documents must be rejected");
    assert!(matches!(
        err,
        AzureOpenAIError::UnsupportedContent { kind: "document" }
    ));
}

#[test]
fn image_file_id_returns_unsupported_content_error() {
    let req = with_user_blocks(vec![UserBlock::image(Source::FileId {
        id: "file_abc".into(),
    })]);
    let err = build_body("dep", &req).expect_err("image file_id must be rejected");
    assert!(matches!(
        err,
        AzureOpenAIError::UnsupportedContent {
            kind: "image_file_id"
        }
    ));
}

#[test]
fn tool_result_image_returns_unsupported_content_error() {
    let req = with_user_blocks(vec![UserBlock::tool_result(
        "c1",
        ToolResultContent::from_blocks(vec![ToolResultBlock::image(Source::Url {
            url: "https://example.com/c.png".into(),
        })]),
    )]);
    let err = build_body("dep", &req).expect_err("image tool result must be rejected");
    assert!(matches!(
        err,
        AzureOpenAIError::UnsupportedContent {
            kind: "tool_result_image"
        }
    ));
}

#[test]
fn multi_text_tool_result_joins_with_newlines() {
    let req = with_user_blocks(vec![UserBlock::tool_result(
        "c1",
        ToolResultContent::from_blocks(vec![
            ToolResultBlock::text("line 1"),
            ToolResultBlock::text("line 2"),
        ]),
    )]);
    let body = body_of(&req);
    assert_eq!(
        entry(&messages(&body)[0], "content"),
        &json(r#""line 1\nline 2""#)
    );
}
