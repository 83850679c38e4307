use ailoop::json::Json;
use ailoop::mcp::connection::{McpConnection, McpError, ServerTool};
use ailoop::mcp::content::{stringify_content, Content};
use ailoop::mcp::naming::{compose, sanitize, short_hash, truncate_with_hash, MAX_TOOL_NAME_LEN};
use ailoop::mcp::tool::{CallOutcome, McpTool};
use ailoop::request::{ToolDefinition, ToolTag};

fn text(s: &str) -> Content {
    Content::Text(s.into())
}

fn image(data: &str, mime: &str) -> Content {
    Content::Image {
        data: data.into(),
        mime_type: mime.into(),
    }
}

#[test]
fn composes_with_default_pattern() {
    assert_eq!(
        compose("time", "get_current_time"),
        "mcp__time__get_current_time"
    );
}

#[test]
fn sanitizes_invalid_characters() {
    assert_eq!(compose("svc.x", "do:thing"), "mcp__svc_x__do_thing");
}

#[test]
fn truncates_with_hash_when_too_long() {
    let huge = "a".repeat(200);
    let composed = compose("time", &huge);
    assert_eq!(composed.len(), MAX_TOOL_NAME_LEN);
    let suffix = &composed[composed.len() - 5..];
    assert!(suffix.starts_with('_'));
    assert!(suffix[1..].chars().all(|c| c.is_ascii_hexdigit()));
}

#[test]
fn truncation_is_deterministic_per_input() {
    let huge = "x".repeat(300);
    let a = compose("s", &huge);
    let b = compose("s", &huge);
    assert_eq!(a, b);
}

#[test]
fn truncation_disambiguates_distinct_inputs() {
    let common = "z".repeat(100);
    let a = format!("{common}__alpha");
    let b = format!("{common}__beta");
    assert_ne!(compose("s", &a), compose("s", &b));
}

#[test]
fn output_always_within_anthropic_charset() {
    for input in [
        ("时间", "tool"),
        ("ok", "weird name with spaces"),
        ("ok", "with/slash"),
        ("ok", "with.dot"),
    ] {
        let out = compose(input.0, input.1);
        assert!(
            out.chars()
                .all(|c| c.is_ascii_alphanumeric() || c == '_' || c == '-'),
            "compose({input:?}) gave {out:?} which contains invalid chars",
        );
        assert!((1..=MAX_TOOL_NAME_LEN).contains(&out.len()));
    }
}

#[test]
fn names_of_64_characters_are_kept() {
    let tool = "t".repeat(64 - "mcp__s__".len());
    let composed = compose("s", &tool);
    assert_eq!(composed, format!("mcp__s__{tool}"));
    assert_eq!(compose("s", &format!("{tool}t")).len(), 64);
}

#[test]
fn hashes_are_fnv1a() {
    assert_eq!(short_hash(""), "9dc5");
    assert_eq!(short_hash("a"), "292c");
    assert_eq!(short_hash("foobar"), "f968");
    assert_eq!(truncate_with_hash("foobar", 8), "foo_f968");
    assert_eq!(truncate_with_hash("foobar", 64), "foobar_f968");
    assert_eq!(sanitize("a b-c_9é"), "a_b-c_9_");
}

#[test]
fn stringify_concatenates_text_blocks_with_newlines() {
    let blocks = vec![text("hello"), text("world")];
    assert_eq!(stringify_content(&blocks), "hello\nworld");
}

#[test]
fn stringify_replaces_non_text_with_placeholders() {
    let blocks = vec![text("here is an image:"), image("AAAA", "image/png")];
    let s = stringify_content(&blocks);
    assert!(s.starts_with("here is an image:\n["));
    assert!(s.contains("image/png"));
    assert_eq!(s, "here is an image:\n[image: 4 base64 chars, image/png]");
}

#[test]
fn stringify_handles_empty_content() {
    assert_eq!(stringify_content(&vec![]), "");
}

#[test]
fn stringify_names_every_kind_of_block() {
    let blocks = vec![
        Content::Audio {
            data: "ABCDEFGHIJKL".into(),
            mime_type: "audio/wav".into(),
        },
        Content::Resource,
        Content::ResourceLink {
            uri: "file:///x".into(),
        },
    ];
    assert_eq!(
        stringify_content(&blocks),
        "[audio: 12 base64 chars, audio/wav]\n[embedded resource]\n[resource: file:///x]"
    );
}

#[test]
fn connection_builder_stores_label() {
    let b = McpConnection::builder("time");
    assert_eq!(b.server_label, "time");
}

#[test]
fn connection_connect_without_command_returns_error() {
    match McpConnection::builder("x").launch() {
        Ok(_) => panic!("connect with no command should fail"),
        Err(McpError::TransportCreation(msg)) => assert!(msg.contains("missing command")),
        Err(other) => panic!("expected TransportCreation, got {other:?}"),
    }
}

#[test]
fn builder_replaces_arguments_and_collects_variables() {
    let launch = McpConnection::builder("time")
        .command("python")
        .command("uvx")
        .args(vec!["old".to_string()])
        .args(vec!["mcp-server-time".to_string()])
        .env("A", "1")
        .env("B", "2")
        .launch()
        .unwrap();
    assert_eq!(launch.server_label, "time");
    assert_eq!(launch.command, "uvx");
    assert_eq!(launch.args, vec!["mcp-server-time".to_string()]);
    assert_eq!(
        launch.envs,
        vec![
            ("A".to_string(), "1".to_string()),
            ("B".to_string(), "2".to_string())
        ]
    );
}

#[test]
fn list_tools_returns_prefixed_names_with_default_tags() {
    let conn = McpConnection::new("time".to_string(), Some("mcp-time".to_string()));
    assert_eq!(conn.server_label(), "time");
    assert_eq!(conn.server_name(), Some("mcp-time".to_string()));
    let schema = Json::parse(r#"{"type":"object"}"#).unwrap();
    let tools = conn.list_tools(vec![
        ServerTool {
            name: "get_current_time".to_string(),
            description: Some("tells the time".to_string()),
            input_schema: schema.clone(),
        },
        ServerTool {
            name: "convert.time".to_string(),
            description: None,
            input_schema: schema.clone(),
        },
    ]);
    assert_eq!(tools.len(), 2);
    assert_eq!(tools[0].name_for_engine, "mcp__time__get_current_time");
    assert_eq!(tools[0].definition.name, "mcp__time__get_current_time");
    assert_eq!(tools[0].definition.description, "tells the time");
    assert_eq!(tools[0].definition.input_schema, schema);
    assert_eq!(tools[1].name_for_engine, "mcp__time__convert_time");
    assert_eq!(tools[1].name_at_server, "convert.time");
    assert_eq!(tools[1].definition.description, "");
    for tool in &tools {
        assert!(tool.definition.cache_control.is_none());
        assert_eq!(
            tool.definition.tags,
            vec![ToolTag::Network, ToolTag::Custom("mcp".into())]
        );
    }
}

fn some_tool() -> McpTool {
    McpTool {
        name_for_engine: "mcp__s__t".to_string(),
        name_at_server: "t".to_string(),
        definition: ToolDefinition::new("mcp__s__t", "", Json::empty_object(), vec![]),
    }
}

#[test]
fn only_objects_are_sent_as_arguments() {
    let args = Json::parse(r#"{"a":1}"#).unwrap();
    let request = some_tool().request(args.clone());
    assert_eq!(request.name, "t");
    assert_eq!(request.arguments, Some(args));
    assert_eq!(some_tool().request(Json::Null).arguments, None);
    assert_eq!(some_tool().request(Json::text("x")).arguments, None);
}

#[test]
fn invalid_args_surface_as_tool_error_not_engine_error() {
    let reply = McpTool::reply(Ok(CallOutcome {
        content: vec![text("bad timezone")],
        is_error: Some(true),
    }));
    assert!(reply.is_error);
    assert_eq!(reply.as_text(), Some("bad timezone"));
    let reply = McpTool::reply(Err("closed".to_string()));
    assert!(reply.is_error);
    assert_eq!(reply.as_text(), Some("MCP transport error: closed"));
}

#[test]
fn answers_without_a_failure_flag_succeed() {
    for is_error in [None, Some(false)] {
        let reply = McpTool::reply(Ok(CallOutcome {
            content: vec![text("12:00")],
            is_error,
        }));
        assert!(!reply.is_error);
        assert_eq!(reply.as_text(), Some("12:00"));
    }
}

#[test]
fn mcp_errors_say_what_failed() {
    assert_eq!(
        McpError::TransportCreation("x".to_string()).text(),
        "MCP transport creation failed: x"
    );
    assert_eq!(
        McpError::Service("y".to_string()).text(),
        "MCP service error: y"
    );
}
