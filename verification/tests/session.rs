use rustwright_mcp::evaluation::decode_runtime_value;
use rustwright_mcp::json::{parse_json_document, JsonNumber, JsonValue};
use rustwright_mcp::session::{
    action_response, decode_evaluation, decode_evaluation_document, render_snapshot, selector_for_target, snapshot_limit,
    snapshot_script, text_not_found, text_selector, url_from_evaluation, ActionOutcome,
    BrowserAction, LaunchConfig, SessionState, SnapshotPayload, DEFAULT_SNAPSHOT_ITEMS,
    MAX_SNAPSHOT_ITEMS, SESSION_TIMEOUT_MS_BITS,
};

const REF_ATTRIBUTE: &str = "data-rustwright-agent-ref";

fn decode_evaluation_text(raw: &str) -> JsonValue {
    decode_evaluation(raw)
}

fn text(s: &str) -> JsonValue {
    JsonValue::Str(s.to_owned())
}

fn num(n: u64) -> JsonValue {
    JsonValue::Number(JsonNumber::PosInt(n))
}

#[test]
fn snapshot_references_become_scoped_css_selectors() {
    assert_eq!(
        selector_for_target("@e42").unwrap(),
        r#"[data-rustwright-agent-ref="e42"]"#
    );
}

#[test]
fn css_and_text_targets_pass_through() {
    assert_eq!(selector_for_target("#submit").unwrap(), "#submit");
    assert_eq!(
        selector_for_target("text=Continue").unwrap(),
        "text=Continue"
    );
}

#[test]
fn malformed_references_are_rejected() {
    assert!(selector_for_target("@e").is_err());
    assert!(selector_for_target("@x1").is_err());
    assert!(selector_for_target("@e1]").is_err());
}

#[test]
fn evaluation_objects_and_arrays_become_plain_json() {
    let raw = r#"{"__rustwright_cdp_object__":1,"entries":{"name":"Ada","values":{"__rustwright_cdp_array__":2,"items":[1,2]}}}"#;
    assert_eq!(
        decode_evaluation_text(raw),
        JsonValue::Object(vec![
            ("name".to_owned(), text("Ada")),
            ("values".to_owned(), JsonValue::Array(vec![num(1), num(2)])),
        ])
    );
}

#[test]
fn snapshot_script_embeds_limits_and_reference_attribute() {
    let script = snapshot_script(17);
    assert!(script.contains("const maxItems = 17"));
    assert!(script.contains(REF_ATTRIBUTE));
}

#[test]
fn snapshot_script_quotes_the_attribute_as_json() {
    let script = snapshot_script(5000);
    assert!(script.starts_with("() => {\n  const refAttr = \"data-rustwright-agent-ref\";\n"));
    assert!(script.contains("const maxItems = 5000;"));
    assert!(script.ends_with("}"));
}

#[test]
fn selector_error_messages_quote_the_target() {
    assert_eq!(
        selector_for_target("@x1").unwrap_err(),
        r#"invalid snapshot reference "@x1"; expected @e followed by digits"#
    );
    assert_eq!(selector_for_target("").unwrap_err(), "target must not be empty");
    assert_eq!(selector_for_target(" \t\n").unwrap_err(), "target must not be empty");
    assert!(selector_for_target("@").is_err());
    assert!(selector_for_target("@e٣").is_err());
    assert_eq!(
        selector_for_target("@e007").unwrap(),
        r#"[data-rustwright-agent-ref="e007"]"#
    );
}

#[test]
fn text_targets_default_to_the_body() {
    assert_eq!(text_selector(None).unwrap(), "body");
    assert_eq!(text_selector(Some("@e3")).unwrap(), r#"[data-rustwright-agent-ref="e3"]"#);
    assert_eq!(text_not_found("#x"), r##"target "#x" was not found"##);
}

#[test]
fn snapshot_limits_reject_zero_and_cap_large_requests() {
    assert_eq!(snapshot_limit(0).unwrap_err(), "max_items must be greater than zero");
    assert_eq!(snapshot_limit(1).unwrap(), 1);
    assert_eq!(snapshot_limit(DEFAULT_SNAPSHOT_ITEMS).unwrap(), 200);
    assert_eq!(snapshot_limit(5000).unwrap(), MAX_SNAPSHOT_ITEMS);
}

#[test]
fn snapshot_outline_lists_lines_and_notes_truncation() {
    let payload = SnapshotPayload {
        url: "https://example.com/".to_owned(),
        title: "Say \"hi\"".to_owned(),
        lines: vec!["- link \"More\" [ref=@e1]".to_owned(), "- heading \"Example\"".to_owned()],
        truncated: true,
    };
    assert_eq!(
        render_snapshot(&payload),
        "- page \"Say \\\"hi\\\"\"\n  - url: https://example.com/\n  - link \"More\" [ref=@e1]\n  - heading \"Example\"\n  - note: snapshot truncated"
    );
    let empty = SnapshotPayload {
        url: "about:blank".to_owned(),
        title: String::new(),
        lines: Vec::new(),
        truncated: false,
    };
    assert_eq!(render_snapshot(&empty), "- page \"\"\n  - url: about:blank");
}

#[test]
fn evaluated_urls_are_unquoted_json_strings() {
    assert_eq!(url_from_evaluation("\"https://a.test/\"".to_owned()), "https://a.test/");
    assert_eq!(url_from_evaluation("about:blank".to_owned()), "about:blank");
}

#[test]
fn unmarked_values_and_failed_envelopes_decode_as_plain_objects() {
    assert_eq!(decode_evaluation_text("not json"), text("not json"));
    assert_eq!(decode_evaluation_text("[1,{\"a\":true}]"), JsonValue::Array(vec![
        num(1),
        JsonValue::Object(vec![("a".to_owned(), JsonValue::Bool(true))]),
    ]));
    // An array marker whose items are not an array loses its items member.
    assert_eq!(
        decode_runtime_value(parse_json_document(
            r#"{"__rustwright_cdp_array__":1,"items":5,"other":null}"#
        ).unwrap()),
        JsonValue::Object(vec![
            ("__rustwright_cdp_array__".to_owned(), num(1)),
            ("other".to_owned(), JsonValue::Null),
        ])
    );
}

#[test]
fn closed_sessions_refuse_browser_commands_until_reopened() {
    let mut state = SessionState::new();
    assert!(state.accept(&BrowserAction::Title).is_ok());
    state.record_close();
    assert_eq!(
        state.accept(&BrowserAction::Click { target: "@e1".to_owned() }).unwrap_err(),
        "browser session is closed; call open before another browser command"
    );
    assert!(state.accept(&BrowserAction::Ping).is_ok());
    assert!(state.accept(&BrowserAction::Status).is_ok());
    assert!(state.accept_screenshot().is_err());
    assert!(state.accept(&BrowserAction::Open { url: None }).is_ok());
    assert!(state.accept(&BrowserAction::Title).is_ok());
    assert!(state.accept_screenshot().is_ok());
}

#[test]
fn failed_launches_are_recorded_and_retried() {
    let mut state = SessionState::new();
    assert!(state.needs_launch());
    state.record_launch(false);
    assert!(state.launch_failed && state.needs_launch());
    state.record_launch(true);
    assert!(!state.launch_failed && !state.needs_launch());
    state.record_close();
    assert!(state.closed && !state.running && !state.launch_failed);
}

#[test]
fn only_close_shuts_down_the_daemon() {
    assert!(BrowserAction::Close.shuts_down_daemon());
    assert!(!BrowserAction::Status.shuts_down_daemon());
    assert!(!BrowserAction::Wait { milliseconds: 5 }.shuts_down_daemon());
    let config = LaunchConfig::new();
    assert!(!config.headed && config.executable_path.is_none());
}

#[test]
fn responses_name_their_fields() {
    assert_eq!(
        action_response(ActionOutcome::Ready),
        JsonValue::Object(vec![("status".to_owned(), text("ready"))])
    );
    assert_eq!(
        action_response(ActionOutcome::Status { running: true, launch_failed: false, url: None }),
        JsonValue::Object(vec![
            ("launch_failed".to_owned(), JsonValue::Bool(false)),
            ("running".to_owned(), JsonValue::Bool(true)),
            ("url".to_owned(), JsonValue::Null),
        ])
    );
    assert_eq!(
        action_response(ActionOutcome::Screenshot { path: "p.png".to_owned(), bytes: 42 }),
        JsonValue::Object(vec![
            ("bytes".to_owned(), num(42)),
            ("path".to_owned(), text("p.png")),
        ])
    );
    assert_eq!(
        action_response(ActionOutcome::Waited { milliseconds: 7 }),
        JsonValue::Object(vec![("waited_ms".to_owned(), num(7))])
    );
}

#[test]
fn evaluation_documents_are_decoded_once_parsed() {
    assert_eq!(
        decode_evaluation_document(None, "raw text"),
        text("raw text")
    );
    assert_eq!(
        decode_evaluation_document(Some(JsonValue::Array(vec![num(3)])), "[3]"),
        JsonValue::Array(vec![num(3)])
    );
    assert_eq!(parse_json_document("-2"), Some(JsonValue::Number(JsonNumber::NegInt(-2))));
    assert_eq!(
        parse_json_document("1.5"),
        Some(JsonValue::Number(JsonNumber::FloatBits(1.5f64.to_bits())))
    );
    assert_eq!(parse_json_document("{\"a\": [true, null]} x"), None);
}

#[test]
fn launch_options_name_the_browser_when_given() {
    let mut config = LaunchConfig::new();
    assert_eq!(
        config.launch_options(),
        JsonValue::Object(vec![
            ("headless".to_owned(), JsonValue::Bool(true)),
            ("timeout".to_owned(), JsonValue::Number(JsonNumber::FloatBits(30_000.0f64.to_bits()))),
        ])
    );
    assert_eq!(SESSION_TIMEOUT_MS_BITS, 30_000.0f64.to_bits());
    config.headed = true;
    config.executable_path = Some("/usr/bin/chromium".to_owned());
    assert_eq!(
        config.launch_options(),
        JsonValue::Object(vec![
            ("executable_path".to_owned(), text("/usr/bin/chromium")),
            ("headless".to_owned(), JsonValue::Bool(false)),
            ("timeout".to_owned(), JsonValue::Number(JsonNumber::FloatBits(SESSION_TIMEOUT_MS_BITS))),
        ])
    );
}

#[test]
fn status_reports_the_session_history() {
    let mut state = SessionState::new();
    let status = |state: &SessionState| action_response(state.status(None));
    assert_eq!(
        status(&state),
        JsonValue::Object(vec![
            ("launch_failed".to_owned(), JsonValue::Bool(false)),
            ("running".to_owned(), JsonValue::Bool(false)),
            ("url".to_owned(), JsonValue::Null),
        ])
    );
    state.record_launch(false);
    assert!(state.launch_failed && !state.running);
    state.record_launch(true);
    state.record_release();
    assert!(!state.running && !state.launch_failed && !state.closed);
    state.record_launch(false);
    state.record_release();
    assert!(state.launch_failed && !state.running);
    state.record_launch(true);
    assert_eq!(
        action_response(state.status(Some("about:blank".to_owned()))),
        JsonValue::Object(vec![
            ("launch_failed".to_owned(), JsonValue::Bool(false)),
            ("running".to_owned(), JsonValue::Bool(true)),
            ("url".to_owned(), text("about:blank")),
        ])
    );
}
