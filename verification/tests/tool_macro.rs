use ailoop::json::Json;
use ailoop::tool_macro::{
    ailoop_tool, ailoop_tool_context_path, ailoop_tool_definition_path,
    ailoop_tool_json_type_path, ailoop_tool_path, ailoop_tool_tag_path, analyze_return_type, derive_tool_json_type, extract_doc_comment,
    first_generic_type, first_two_generic_types, get_json_type, is_option_type, is_string_type,
    is_tool_context_ref, plan_tool, resolve_item_path, tool_input_schema, unwrap_option,
    validate_explicit_tool_name, Attribute, DeriveData, DeriveVariant, FnInput, FoundCrate,
    GenericArgument, MacroArgs, MetaItem, ParamMeta, PathArguments, PathSegment, RustType,
    SchemaExpr, ToolFn, TypeShape,
};

fn path(text: &str, ident: &str, arguments: PathArguments) -> RustType {
    RustType {
        text: text.into(),
        shape: TypeShape::Path(Some(PathSegment {
            ident: ident.into(),
            arguments,
        })),
    }
}

fn plain(name: &str) -> RustType {
    path(name, name, PathArguments::Absent)
}

fn generic(text: &str, ident: &str, types: Vec<RustType>) -> RustType {
    let mut args: Vec<GenericArgument> = Vec::new();
    for ty in types {
        args.push(GenericArgument::Type(ty));
    }
    path(text, ident, PathArguments::AngleBracketed(args))
}

fn reference(text: &str, elem: RustType) -> RustType {
    RustType {
        text: text.into(),
        shape: TypeShape::Reference(Box::new(elem)),
    }
}

/// The expression written out as JSON; a dispatch stands in angle brackets.
fn show(e: &SchemaExpr) -> String {
    match e {
        SchemaExpr::Text(s) => format!("\"{s}\""),
        SchemaExpr::List(items) => {
            let parts: Vec<String> = items.iter().map(show).collect();
            format!("[{}]", parts.join(","))
        }
        SchemaExpr::Object(entries) => {
            let parts: Vec<String> = entries
                .iter()
                .map(|(k, v)| format!("\"{k}\":{}", show(v)))
                .collect();
            format!("{{{}}}", parts.join(","))
        }
        SchemaExpr::Dispatch(ty) => format!("<{ty}>"),
    }
}

fn doc(line: &str) -> Attribute {
    Attribute {
        ident: Some("doc".into()),
        literal: Some(line.into()),
    }
}

fn schema(ty: RustType) -> String {
    show(&get_json_type(&ty))
}

#[test]
fn scalar_types_have_literal_schemas() {
    for name in [
        "i8", "i16", "i32", "i64", "i128", "isize", "u8", "u16", "u32", "u64", "u128", "usize",
        "f32", "f64",
    ] {
        assert_eq!(schema(plain(name)), r#"{"type":"number"}"#);
    }
    assert_eq!(schema(plain("String")), r#"{"type":"string"}"#);
    assert_eq!(schema(plain("str")), r#"{"type":"string"}"#);
    assert_eq!(schema(plain("bool")), r#"{"type":"boolean"}"#);
    assert_eq!(
        schema(path("std::string::String", "String", PathArguments::Absent)),
        r#"{"type":"string"}"#
    );
}

#[test]
fn containers_describe_what_they_hold() {
    assert_eq!(
        schema(generic("Vec<u8>", "Vec", vec![plain("u8")])),
        r#"{"type":"array","items":{"type":"number"}}"#
    );
    assert_eq!(schema(plain("Vec")), r#"{"type":"array"}"#);
    assert_eq!(
        schema(generic("Option<bool>", "Option", vec![plain("bool")])),
        r#"{"type":"boolean"}"#
    );
    assert_eq!(schema(plain("Option")), "<Option>");
    for map in ["HashMap", "BTreeMap"] {
        assert_eq!(
            schema(generic("M", map, vec![plain("String"), plain("i32")])),
            r#"{"type":"object","additionalProperties":{"type":"number"}}"#
        );
        assert_eq!(
            schema(generic("M", map, vec![plain("u64"), plain("i32")])),
            "<M>"
        );
        assert_eq!(schema(generic("M", map, vec![plain("String")])), "<M>");
    }
}

#[test]
fn tuples_use_prefix_items() {
    let tuple = RustType {
        text: "(u8, Vec<String>)".into(),
        shape: TypeShape::Tuple(vec![
            plain("u8"),
            generic("Vec<String>", "Vec", vec![plain("String")]),
        ]),
    };
    assert_eq!(
        schema(tuple),
        r#"{"type":"array","prefixItems":[{"type":"number"},{"type":"array","items":{"type":"string"}}]}"#
    );
    let unit = RustType {
        text: "()".into(),
        shape: TypeShape::Tuple(vec![]),
    };
    assert_eq!(schema(unit), r#"{"type":"array","prefixItems":[]}"#);
}

#[test]
fn unknown_types_ask_the_type_itself() {
    assert_eq!(schema(plain("Color")), "<Color>");
    assert_eq!(schema(reference("&str", plain("str"))), "<&str>");
    let empty = RustType {
        text: "x".into(),
        shape: TypeShape::Path(None),
    };
    assert_eq!(schema(empty), "<x>");
    let other = RustType {
        text: "[u8; 4]".into(),
        shape: TypeShape::Other,
    };
    assert_eq!(schema(other), "<[u8; 4]>");
    assert_eq!(
        schema(generic("Vec<Color>", "Vec", vec![plain("Color")])),
        r#"{"type":"array","items":<Color>}"#
    );
}

#[test]
fn generic_arguments_skip_what_is_no_type() {
    let args = PathArguments::AngleBracketed(vec![
        GenericArgument::Other("'a".into()),
        GenericArgument::Type(plain("u8")),
        GenericArgument::Other("N".into()),
        GenericArgument::Type(plain("bool")),
    ]);
    assert_eq!(first_generic_type(&args).unwrap().text, "u8");
    let (a, b) = first_two_generic_types(&args).unwrap();
    assert_eq!((a.text.as_str(), b.text.as_str()), ("u8", "bool"));
    assert!(first_generic_type(&PathArguments::Absent).is_none());
    assert!(first_generic_type(&PathArguments::Parenthesized).is_none());
    assert!(first_two_generic_types(&PathArguments::AngleBracketed(vec![
        GenericArgument::Type(plain("u8"))
    ]))
    .is_none());
}

#[test]
fn options_are_found_by_their_last_segment() {
    let option = generic("core::option::Option<u8>", "Option", vec![plain("u8")]);
    assert_eq!(unwrap_option(&option).unwrap().text, "u8");
    assert!(is_option_type(&option));
    assert!(!is_option_type(&plain("Option")));
    assert!(!is_option_type(&generic("Vec<u8>", "Vec", vec![plain("u8")])));
    assert!(is_string_type(&plain("String")));
    assert!(!is_string_type(&plain("str")));
    assert!(!is_string_type(&reference("&String", plain("String"))));
}

#[test]
fn context_parameters_are_references_to_tool_context() {
    let by_path = path("ailoop::ToolContext", "ToolContext", PathArguments::Absent);
    assert!(is_tool_context_ref(&reference("&ailoop::ToolContext", by_path)));
    assert!(!is_tool_context_ref(&plain("ToolContext")));
    assert!(!is_tool_context_ref(&reference("&Other", plain("Other"))));
}

#[test]
fn return_types_split_into_output_and_error() {
    let none = analyze_return_type(&None).unwrap();
    assert_eq!(none.output, "()");
    assert_eq!(none.error, "::core::convert::Infallible");
    assert!(!none.is_fallible);

    let plain_out = analyze_return_type(&Some(plain("String"))).unwrap();
    assert_eq!(plain_out.output, "String");
    assert!(!plain_out.is_fallible);

    let result = generic("Result<String, MyErr>", "Result", vec![plain("String"), plain("MyErr")]);
    let fallible = analyze_return_type(&Some(result)).unwrap();
    assert_eq!(fallible.output, "String");
    assert_eq!(fallible.error, "MyErr");
    assert!(fallible.is_fallible);

    for count in [0usize, 1, 3] {
        let mut types: Vec<RustType> = Vec::new();
        for _ in 0..count {
            types.push(plain("u8"));
        }
        assert_eq!(
            analyze_return_type(&Some(generic("Result", "Result", types))).err().unwrap(),
            "expected Result<T, E> with exactly two type parameters"
        );
    }
    assert_eq!(
        analyze_return_type(&Some(plain("Result"))).err().unwrap(),
        "expected angle-bracketed type parameters for Result<T, E>"
    );
}

#[test]
fn doc_comments_join_and_lose_one_space() {
    let attrs = vec![
        doc(" First line."),
        Attribute {
            ident: Some("allow".into()),
            literal: None,
        },
        doc("  indented"),
        doc(""),
        Attribute {
            ident: Some("doc".into()),
            literal: None,
        },
        doc("flush"),
    ];
    assert_eq!(
        extract_doc_comment(&attrs).unwrap(),
        "First line.\n indented\n\nflush"
    );
    assert!(extract_doc_comment(&vec![]).is_none());
    assert_eq!(extract_doc_comment(&vec![doc("")]).unwrap(), "");
}

#[test]
fn explicit_names_are_checked() {
    for good in ["a", "_x", "get-time_2", &"a".repeat(64)] {
        assert!(validate_explicit_tool_name(good).is_ok());
    }
    for bad in ["", &"a".repeat(65), &"é".repeat(33)] {
        assert_eq!(
            validate_explicit_tool_name(bad).unwrap_err(),
            "`name` must be between 1 and 64 characters long"
        );
    }
    for bad in ["1a", "-a", "é"] {
        assert_eq!(
            validate_explicit_tool_name(bad).unwrap_err(),
            "`name` must start with an ASCII letter or underscore"
        );
    }
    for bad in ["a b", "a.b", "aé"] {
        assert_eq!(
            validate_explicit_tool_name(bad).unwrap_err(),
            "`name` may only contain ASCII letters, digits, underscores, or hyphens"
        );
    }
}

fn name_value(ident: &str, literal: Option<&str>) -> MetaItem {
    MetaItem::NameValue {
        ident: Some(ident.into()),
        literal: literal.map(|s| s.to_string()),
    }
}

fn list(ident: &str, metas: Vec<ParamMeta>, idents: &[&str]) -> MetaItem {
    MetaItem::List {
        ident: Some(ident.into()),
        metas: Ok(metas),
        idents: Ok(idents.iter().map(|s| s.to_string()).collect()),
    }
}

fn described(ident: &str, literal: &str) -> ParamMeta {
    ParamMeta::NameValue {
        ident: Some(ident.into()),
        literal: Some(literal.into()),
    }
}

fn parse_error(item: MetaItem) -> String {
    MacroArgs::parse(vec![item]).err().unwrap()
}

#[test]
fn macro_arguments_are_read() {
    let args = MacroArgs::parse(vec![
        name_value("name", Some("custom")),
        name_value("description", Some("What it does.")),
        list(
            "params",
            vec![
                described("a", "first"),
                ParamMeta::Other,
                ParamMeta::NameValue {
                    ident: None,
                    literal: None,
                },
                described("b", "second"),
            ],
            &[],
        ),
        list("required", vec![], &["a"]),
        list("tags", vec![], &["Read"]),
        list("tags", vec![], &["Network", "Write"]),
    ])
    .ok()
    .unwrap();
    assert_eq!(args.name.unwrap(), "custom");
    assert_eq!(args.description.unwrap(), "What it does.");
    assert_eq!(
        args.param_descriptions,
        vec![
            ("a".to_string(), "first".to_string()),
            ("b".to_string(), "second".to_string())
        ]
    );
    assert_eq!(args.required.unwrap(), vec!["a".to_string()]);
    assert_eq!(args.tags, vec!["Read", "Network", "Write"]);

    let none = MacroArgs::parse(vec![]).ok().unwrap();
    assert!(none.name.is_none());
    assert!(none.required.is_none());
    assert!(none.tags.is_empty());
}

#[test]
fn macro_arguments_are_refused_with_their_reason() {
    assert_eq!(
        parse_error(name_value("name", None)),
        "`name` must be a string literal"
    );
    assert_eq!(
        parse_error(name_value("description", None)),
        "`description` must be a string literal"
    );
    assert_eq!(
        parse_error(name_value("name", Some("a b"))),
        "`name` may only contain ASCII letters, digits, underscores, or hyphens"
    );
    assert_eq!(
        parse_error(name_value("nme", Some("x"))),
        "unsupported top-level #[ailoop_tool] argument `nme`"
    );
    assert_eq!(
        parse_error(list("req", vec![], &[])),
        "unsupported top-level #[ailoop_tool] argument `req`"
    );
    assert_eq!(
        parse_error(MetaItem::Path {
            ident: Some("name".into())
        }),
        "unsupported top-level #[ailoop_tool] argument `name`"
    );
    assert_eq!(
        parse_error(MetaItem::Path { ident: None }),
        "unsupported top-level #[ailoop_tool] argument"
    );
    assert_eq!(
        parse_error(list(
            "params",
            vec![ParamMeta::NameValue {
                ident: None,
                literal: Some("x".into())
            }],
            &[]
        )),
        "parameter descriptions must use identifier keys"
    );
    assert_eq!(
        parse_error(MetaItem::List {
            ident: Some("tags".into()),
            metas: Ok(vec![]),
            idents: Err("expected identifier".into()),
        }),
        "expected identifier"
    );
}

fn typed(name: &str, ty: RustType, attrs: Vec<Attribute>) -> FnInput {
    FnInput::Typed {
        ident: Some(name.into()),
        ty,
        attrs,
    }
}

fn get_weather() -> ToolFn {
    ToolFn {
        name: "get_weather".into(),
        is_async: true,
        attrs: vec![doc(" Looks up the weather.")],
        inputs: vec![
            FnInput::Receiver,
            typed("city", plain("String"), vec![doc(" Where.")]),
            typed(
                "days",
                generic("Option<u8>", "Option", vec![plain("u8")]),
                vec![],
            ),
            FnInput::Typed {
                ident: None,
                ty: plain("u8"),
                attrs: vec![],
            },
            typed(
                "ctx",
                reference("&ToolContext", plain("ToolContext")),
                vec![],
            ),
        ],
        output: Some(generic(
            "Result<String, E>",
            "Result",
            vec![plain("String"), plain("E")],
        )),
    }
}

#[test]
fn tool_functions_are_planned() {
    let plan = ailoop_tool(MacroArgs::parse(vec![]).ok().unwrap(), &get_weather())
        .ok()
        .unwrap();
    assert_eq!(plan.tool_name, "get_weather");
    assert_eq!(plan.struct_name, "GetWeather");
    assert_eq!(plan.params_struct_name, "GetWeatherParameters");
    assert_eq!(plan.static_name, "GET_WEATHER");
    assert_eq!(plan.description, "Looks up the weather.");
    assert_eq!(plan.params.len(), 2);
    assert_eq!(plan.params[0].name, "city");
    assert_eq!(plan.params[0].ty, "String");
    assert_eq!(plan.params[0].description, "Where.");
    assert_eq!(show(&plan.params[0].schema), r#"{"type":"string"}"#);
    assert_eq!(plan.params[1].name, "days");
    assert_eq!(plan.params[1].description, "");
    assert_eq!(show(&plan.params[1].schema), r#"{"type":"number"}"#);
    assert_eq!(plan.required, vec!["city".to_string()]);
    assert!(plan.tags.is_empty());
    assert!(plan.takes_ctx);
    assert!(plan.is_async);
    assert_eq!(plan.return_shape.error, "E");
    assert!(plan.return_shape.is_fallible);
}

#[test]
fn attribute_arguments_win_over_what_is_inferred() {
    let args = MacroArgs::parse(vec![
        name_value("name", Some("weather")),
        name_value("description", Some("Given.")),
        list(
            "params",
            vec![described("city", "old"), described("city", "new")],
            &[],
        ),
        list("required", vec![], &[]),
        list("tags", vec![], &["Read"]),
    ])
    .ok()
    .unwrap();
    let plan = plan_tool(args, &get_weather(), "Name".into(), "STATIC".into())
        .ok()
        .unwrap();
    assert_eq!(plan.tool_name, "weather");
    assert_eq!(plan.struct_name, "Name");
    assert_eq!(plan.params_struct_name, "NameParameters");
    assert_eq!(plan.static_name, "STATIC");
    assert_eq!(plan.description, "Given.");
    assert_eq!(plan.params[0].description, "new");
    assert!(plan.required.is_empty());
    assert_eq!(plan.tags, vec!["Read".to_string()]);
}

#[test]
fn a_malformed_result_stops_the_plan() {
    let f = ToolFn {
        name: "f".into(),
        is_async: false,
        attrs: vec![],
        inputs: vec![],
        output: Some(plain("Result")),
    };
    assert_eq!(
        ailoop_tool(MacroArgs::parse(vec![]).ok().unwrap(), &f).err().unwrap(),
        "expected angle-bracketed type parameters for Result<T, E>"
    );
}

#[test]
fn enums_of_unit_variants_derive_a_schema() {
    let unit = |name: &str| DeriveVariant {
        ident: name.into(),
        is_unit: true,
    };
    let data = DeriveData::Enum(vec![unit("Red"), unit("Green")]);
    assert_eq!(
        show(&derive_tool_json_type(&data).ok().unwrap()),
        r#"{"type":"string","enum":["Red","Green"]}"#
    );
    let payload = DeriveData::Enum(vec![
        unit("Red"),
        DeriveVariant {
            ident: "Rgb".into(),
            is_unit: false,
        },
    ]);
    assert!(derive_tool_json_type(&payload)
        .err()
        .unwrap()
        .starts_with("#[derive(ToolJsonType)] only supports C-style enums"));
    for data in [DeriveData::Struct, DeriveData::Union] {
        assert!(derive_tool_json_type(&data)
            .err()
            .unwrap()
            .starts_with("#[derive(ToolJsonType)] is only supported on enums"));
    }
}

#[test]
fn input_schemas_carry_descriptions() {
    let mut string = Json::empty_object();
    string.set("type", Json::text("string"));
    let schema = tool_input_schema(
        vec![
            ("city".into(), "Where.".into(), string),
            ("any".into(), "dropped".into(), Json::flag(true)),
        ],
        &vec!["city".into()],
    );
    let expected = concat_text(&[
        r#"{"properties":{"any":true,"city":{"description":"Where.","type":"string"}},"#,
        r#""required":["city"],"type":"object"}"#,
    ]);
    assert_eq!(schema.to_text(), expected);
}

fn concat_text(parts: &[&str]) -> String {
    parts.join("")
}

#[test]
fn item_paths_go_through_the_first_crate_found() {
    let candidates = vec!["ailoop".to_string(), "ailoop-tools".to_string()];
    assert_eq!(
        resolve_item_path(&candidates, &vec![Some(FoundCrate::Itself), None], "Tool"),
        "crate::Tool"
    );
    assert_eq!(
        resolve_item_path(
            &candidates,
            &vec![None, Some(FoundCrate::Name("tools".into()))],
            "Tool"
        ),
        "::tools::Tool"
    );
    assert_eq!(
        resolve_item_path(&candidates, &vec![None, None], "Tool"),
        "::ailoop_tools::Tool"
    );
}

#[test]
fn expansion_paths_name_the_home_of_each_item() {
    let none = || vec![None, None];
    assert_eq!(ailoop_tool_path(&none()), "::ailoop_tools::Tool");
    assert_eq!(ailoop_tool_context_path(&none()), "::ailoop_tools::ToolContext");
    assert_eq!(ailoop_tool_definition_path(&none()), "::ailoop_core::ToolDefinition");
    assert_eq!(ailoop_tool_tag_path(&none()), "::ailoop_core::ToolTag");
    assert_eq!(ailoop_tool_json_type_path(&none()), "::ailoop_tools::ToolJsonType");
    let facade = vec![Some(FoundCrate::Name("ailoop".into())), None];
    assert_eq!(ailoop_tool_path(&facade), "::ailoop::Tool");
}
