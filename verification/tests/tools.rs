use rustwright_mcp::json::{JsonNumber, JsonValue};
use rustwright_mcp::tools::{
    find_tool, is_valid_ref, parse_op, schema, tool_spec, tool_specs, BrowserOp, ScrollDirection,
    ToolCall, ToolKind, DEFAULT_SCROLL_PIXELS_BITS, SIGN_BIT,
};

fn to_serde(value: &JsonValue) -> serde_json::Value {
    match value {
        JsonValue::Null => serde_json::Value::Null,
        JsonValue::Bool(b) => serde_json::Value::Bool(*b),
        JsonValue::Number(JsonNumber::PosInt(n)) => serde_json::Value::from(*n),
        JsonValue::Number(JsonNumber::NegInt(n)) => serde_json::Value::from(*n),
        JsonValue::Number(JsonNumber::FloatBits(bits)) => serde_json::Value::from(f64::from_bits(*bits)),
        JsonValue::Str(s) => serde_json::Value::String(s.clone()),
        JsonValue::Array(items) => serde_json::Value::Array(items.iter().map(to_serde).collect()),
        JsonValue::Object(members) => serde_json::Value::Object(
            members.iter().map(|(k, v)| (k.clone(), to_serde(v))).collect(),
        ),
    }
}

fn input_schema(kind: ToolKind) -> serde_json::Value {
    to_serde(&schema(kind))
}

fn parsed(text: &str) -> serde_json::Value {
    serde_json::from_str(text).unwrap()
}

fn scroll(target: Option<&str>, direction: Option<ScrollDirection>, pixels: Option<f64>) -> ToolCall {
    ToolCall::Scroll {
        target: target.map(str::to_owned),
        direction,
        pixels_bits: pixels.map(f64::to_bits),
    }
}

#[test]
fn ref_validation_matches_published_schema() {
    for valid in ["e1", "e9", "e10", "e999"] {
        assert!(is_valid_ref(valid), "expected {valid} to be valid");
    }
    for invalid in ["", "e", "e0", "e01", "E1", "e-1", "e1x"] {
        assert!(!is_valid_ref(invalid), "expected {invalid} to be invalid");
    }
}

#[test]
fn history_navigation_tools_resolve_parse_and_reject_arguments() {
    let back = find_tool("browser_navigate_back").expect("navigate back tool");
    assert_eq!(back.kind, ToolKind::NavigateBack);
    assert!(matches!(
        parse_op(ToolCall::NavigateBack).expect("parse navigate back"),
        BrowserOp::NavigateBack
    ));

    let forward = find_tool("browser_navigate_forward").expect("navigate forward tool");
    assert_eq!(forward.kind, ToolKind::NavigateForward);
    assert!(matches!(
        parse_op(ToolCall::NavigateForward).expect("parse navigate forward"),
        BrowserOp::NavigateForward
    ));

    for spec in [back, forward] {
        let tool = input_schema(spec.kind);
        assert_eq!(tool["properties"], parsed("{}"));
        assert_eq!(tool["additionalProperties"], false);
        assert!(tool.get("required").is_none());
    }
}

#[test]
fn scroll_tool_resolves_and_descriptor_publishes_argument_contract() {
    let scroll = find_tool("browser_scroll").expect("scroll tool");
    let tool = input_schema(scroll.kind);

    assert_eq!(tool["properties"]["target"]["pattern"], "^e[1-9][0-9]*$");
    assert_eq!(tool["properties"]["direction"]["enum"], parsed(r#"["up", "down"]"#));
    assert_eq!(tool["properties"]["pixels"]["type"], "number");
    assert_eq!(tool["properties"]["pixels"]["exclusiveMinimum"], 0);
    assert_eq!(
        tool["oneOf"],
        parsed(
            r#"[
                {
                    "required": ["target"],
                    "not": {
                        "anyOf": [
                            {"required": ["direction"]},
                            {"required": ["pixels"]}
                        ]
                    }
                },
                {
                    "required": ["direction"],
                    "not": {"required": ["target"]}
                }
            ]"#
        )
    );
    assert_eq!(tool["additionalProperties"], false);
}

#[test]
fn scroll_parse_accepts_target_or_direction() {
    assert!(parse_op(scroll(Some("e12"), None, None)).is_ok());
    assert!(parse_op(scroll(None, Some(ScrollDirection::Down), None)).is_ok());
    assert!(parse_op(scroll(None, Some(ScrollDirection::Up), Some(250.5))).is_ok());
}

#[test]
fn scroll_parse_rejects_invalid_argument_matrix() {
    for (case, call) in [
        ("target and direction", scroll(Some("e12"), Some(ScrollDirection::Down), None)),
        ("neither target nor direction", scroll(None, None, None)),
        ("pixels without direction", scroll(None, None, Some(100.0))),
        ("pixels with target", scroll(Some("e12"), None, Some(100.0))),
        ("zero pixels", scroll(None, Some(ScrollDirection::Down), Some(0.0))),
        ("negative zero pixels", scroll(None, Some(ScrollDirection::Down), Some(-0.0))),
        ("negative pixels", scroll(None, Some(ScrollDirection::Down), Some(-1.0))),
        ("NaN pixels", scroll(None, Some(ScrollDirection::Down), Some(f64::NAN))),
        ("infinite pixels", scroll(None, Some(ScrollDirection::Down), Some(f64::INFINITY))),
        (
            "negative infinite pixels",
            scroll(None, Some(ScrollDirection::Down), Some(f64::NEG_INFINITY)),
        ),
        ("malformed ref", scroll(Some("e0"), None, None)),
    ] {
        assert!(parse_op(call).is_err(), "accepted invalid case: {case}");
    }
}

#[test]
fn screenshot_tool_resolves_parses_empty_arguments_and_rejects_unknown_fields() {
    let screenshot = find_tool("browser_take_screenshot").expect("screenshot tool");
    let tool = input_schema(screenshot.kind);

    assert!(screenshot.description.contains("server process shuts down"));
    assert_eq!(tool["properties"], parsed("{}"));
    assert_eq!(tool["additionalProperties"], false);
    assert!(tool.get("required").is_none());

    assert!(matches!(parse_op(ToolCall::TakeScreenshot), Ok(BrowserOp::TakeScreenshot)));
}

#[test]
fn table_builds_all_seven_descriptors() {
    let tools = tool_specs();
    assert_eq!(tools.len(), 7);
    let names: Vec<&str> = tools.iter().map(|tool| tool.name).collect();
    assert_eq!(
        names,
        [
            "browser_navigate",
            "browser_navigate_back",
            "browser_navigate_forward",
            "browser_snapshot",
            "browser_click",
            "browser_scroll",
            "browser_take_screenshot",
        ]
    );
    assert!(tools.iter().all(|tool| input_schema(tool.kind)["type"] == "object"));
}

#[test]
fn scroll_errors_name_the_broken_rule() {
    assert_eq!(
        parse_op(scroll(Some("e1"), Some(ScrollDirection::Up), None)).err().unwrap(),
        "target and direction are mutually exclusive"
    );
    assert_eq!(
        parse_op(scroll(None, None, None)).err().unwrap(),
        "exactly one of target or direction is required"
    );
    assert_eq!(
        parse_op(scroll(Some("e1"), None, Some(3.0))).err().unwrap(),
        "pixels can only be used with direction"
    );
    assert_eq!(
        parse_op(scroll(Some("e01"), None, None)).err().unwrap(),
        "target must match ^e[1-9][0-9]*$"
    );
    assert_eq!(
        parse_op(scroll(None, Some(ScrollDirection::Down), Some(-5.0))).err().unwrap(),
        "pixels must be a finite number greater than 0"
    );
}

#[test]
fn viewport_scrolls_carry_a_signed_distance() {
    match parse_op(scroll(None, Some(ScrollDirection::Down), None)) {
        Ok(BrowserOp::ScrollViewport(bits)) => {
            assert_eq!(bits, DEFAULT_SCROLL_PIXELS_BITS);
            assert_eq!(f64::from_bits(bits), 500.0);
        }
        _ => panic!("expected a viewport scroll"),
    }
    match parse_op(scroll(None, Some(ScrollDirection::Up), Some(250.5))) {
        Ok(BrowserOp::ScrollViewport(bits)) => assert_eq!(f64::from_bits(bits), -250.5),
        _ => panic!("expected a viewport scroll"),
    }
    match parse_op(scroll(None, Some(ScrollDirection::Up), None)) {
        Ok(BrowserOp::ScrollViewport(bits)) => {
            assert_eq!(bits, DEFAULT_SCROLL_PIXELS_BITS | SIGN_BIT);
            assert_eq!(f64::from_bits(bits), -500.0);
        }
        _ => panic!("expected a viewport scroll"),
    }
    match parse_op(scroll(Some("e12"), None, None)) {
        Ok(BrowserOp::ScrollTarget(t)) => assert_eq!(t, "e12"),
        _ => panic!("expected a target scroll"),
    }
}

#[test]
fn navigate_and_click_check_their_arguments() {
    assert_eq!(
        parse_op(ToolCall::Navigate { url: String::new() }).err().unwrap(),
        "url must be a non-empty string"
    );
    match parse_op(ToolCall::Navigate { url: "https://example.com/".to_owned() }) {
        Ok(BrowserOp::Navigate(url)) => assert_eq!(url, "https://example.com/"),
        _ => panic!("expected navigation"),
    }
    assert_eq!(
        parse_op(ToolCall::Click { target: "x1".to_owned() }).err().unwrap(),
        "target must match ^e[1-9][0-9]*$"
    );
    match parse_op(ToolCall::Click { target: "e3".to_owned() }) {
        Ok(BrowserOp::Click(t)) => assert_eq!(t, "e3"),
        _ => panic!("expected a click"),
    }
    assert!(matches!(parse_op(ToolCall::Snapshot), Ok(BrowserOp::Snapshot)));
}

#[test]
fn unknown_tools_are_not_found_and_required_arguments_are_published() {
    assert!(find_tool("browser_type").is_none());
    assert!(find_tool("").is_none());
    assert!(find_tool("BROWSER_SNAPSHOT").is_none());
    let click = find_tool("browser_click").unwrap();
    assert_eq!(click.kind, ToolKind::Click);
    assert_eq!(click.name, tool_spec(ToolKind::Click).name);
    assert_eq!(input_schema(ToolKind::Click)["required"], parsed(r#"["target"]"#));
    assert_eq!(input_schema(ToolKind::Navigate)["required"], parsed(r#"["url"]"#));
    assert_eq!(input_schema(ToolKind::Navigate)["properties"]["url"]["type"], "string");
}

#[test]
fn every_listed_tool_is_found_by_its_own_name() {
    for spec in tool_specs() {
        let found = find_tool(spec.name).expect("listed tool");
        assert_eq!(found.kind, spec.kind);
        assert_eq!(found.description, spec.description);
    }
}
