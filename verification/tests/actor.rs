use std::time::Duration;

use rustwright_mcp::actor::cancel::{CancellationReason, CommandCancellation};
use rustwright_mcp::actor::error::{BrowserError, COMMAND_QUEUE_CAPACITY};
use rustwright_mcp::actor::page::{
    call_context, decode_headers, headers_from_json, EngineCall, history_result, operation_error, remote_attach_error, startup_from_settings,
    BrowserHold, BrowserStartup, EngineFailure, EngineFailureKind, EnvSetting, PageStep,
    DEFAULT_CDP_TIMEOUT_MS,
};
use rustwright_mcp::actor::queue::{ActorQueue, CancelOutcome, NextStep, RequestKey};
use rustwright_mcp::actor::refs::{mcp_ref_selector, RefTracker};
use rustwright_mcp::actor::timeout::{
    duration_millis, tool_timeout_from_value, DEFAULT_TOOL_TIMEOUT_MS, MAX_TOOL_TIMEOUT_MS, MIN_TOOL_TIMEOUT_MS,
};
use rustwright_mcp::json::{JsonNumber, JsonValue};
use rustwright_mcp::tools::BrowserOp;

fn text(s: &str) -> JsonValue {
    JsonValue::Str(s.to_owned())
}

fn key(n: i64) -> RequestKey {
    RequestKey::Number(n)
}

fn snapshot_result(outline: &str, next_ref: u64) -> JsonValue {
    JsonValue::Object(vec![
        ("nextRef".to_owned(), JsonValue::Number(JsonNumber::PosInt(next_ref))),
        ("outline".to_owned(), text(outline)),
    ])
}

fn local_hold_with_page() -> BrowserHold {
    let mut hold = BrowserHold::new(BrowserStartup::Local);
    hold.finish_launch();
    hold.finish_open_page();
    hold
}

#[test]
fn tool_timeout_defaults_and_clamps() {
    assert_eq!(
        Duration::from_millis(tool_timeout_from_value(None)),
        Duration::from_millis(DEFAULT_TOOL_TIMEOUT_MS)
    );
    assert_eq!(
        Duration::from_millis(tool_timeout_from_value(Some("invalid"))),
        Duration::from_millis(DEFAULT_TOOL_TIMEOUT_MS)
    );
    assert_eq!(
        Duration::from_millis(tool_timeout_from_value(Some("100"))),
        Duration::from_millis(MIN_TOOL_TIMEOUT_MS)
    );
    assert_eq!(
        Duration::from_millis(tool_timeout_from_value(Some("900000"))),
        Duration::from_millis(MAX_TOOL_TIMEOUT_MS)
    );
    assert_eq!(
        Duration::from_millis(tool_timeout_from_value(Some("42000"))),
        Duration::from_millis(42_000)
    );
}

#[test]
fn failed_post_click_snapshot_leaves_old_ref_stale() {
    let mut hold = local_hold_with_page();
    hold.read_snapshot(&snapshot_result("- button [ref=e7]", 8), "{}").unwrap();
    let mut dispatches = 0;

    let result: Result<String, BrowserError> = hold
        .begin_ref_action("e7")
        .map(|()| dispatches += 1)
        .and_then(|()| Err(BrowserError::Message("post-click snapshot failed".to_owned())));
    assert_eq!(
        result,
        Err(BrowserError::Message("post-click snapshot failed".to_owned()))
    );
    for n in 1..=7 {
        assert!(hold.begin_ref_action(&format!("e{n}")).is_err());
    }

    let retry: Result<String, BrowserError> = hold
        .begin_ref_action("e7")
        .map(|()| dispatches += 1)
        .map(|()| "unexpected snapshot".to_owned());
    assert!(matches!(
        retry,
        Err(BrowserError::Message(message)) if message.contains("unknown or stale ref e7")
    ));
    assert_eq!(dispatches, 1, "stale retry must not re-dispatch click");
}

#[test]
fn snapshots_hand_out_fresh_refs_and_refuse_regressions() {
    let mut refs = RefTracker::new();
    assert_eq!(refs.start_ref(), 1);
    assert!(!refs.contains("e1"));
    refs.accept_snapshot(4).unwrap();
    assert!(refs.contains("e1") && refs.contains("e3"));
    assert!(!refs.contains("e4") && !refs.contains("e0") && !refs.contains("e01"));
    assert_eq!(refs.start_ref(), 4);
    refs.accept_snapshot(6).unwrap();
    assert!(!refs.contains("e1") && !refs.contains("e3"));
    assert!(refs.contains("e4") && refs.contains("e5"));
    assert_eq!(
        refs.accept_snapshot(2),
        Err(BrowserError::Message("snapshot ref counter regressed from 6 to 2".to_owned()))
    );
    assert!(refs.contains("e4"));
    refs.clear();
    assert!(!refs.contains("e4"));
    assert_eq!(refs.start_ref(), 6);
    assert_eq!(
        refs.begin_ref_action("e5"),
        Err(BrowserError::Message(
            "unknown or stale ref e5; call browser_snapshot and use its latest refs".to_owned()
        ))
    );
    assert_eq!(mcp_ref_selector("e5"), r#"[data-mcp-ref="e5"]"#);
}

#[test]
fn snapshot_results_without_outline_or_counter_are_errors() {
    let mut refs = RefTracker::new();
    assert_eq!(
        refs.read_snapshot(&JsonValue::Object(vec![]), "{}"),
        Err(BrowserError::Message("snapshot returned no outline: {}".to_owned()))
    );
    let no_counter = JsonValue::Object(vec![("outline".to_owned(), text("- page"))]);
    assert_eq!(
        refs.read_snapshot(&no_counter, "{\"outline\":\"- page\"}"),
        Err(BrowserError::Message(
            "snapshot returned no nextRef: {\"outline\":\"- page\"}".to_owned()
        ))
    );
    assert_eq!(refs.read_snapshot(&snapshot_result("- page", 3), "x"), Ok("- page".to_owned()));
    assert!(refs.contains("e2"));
}

#[test]
fn queue_overflow_returns_busy_without_waiting() {
    let mut queue: ActorQueue<u32> = ActorQueue::new();
    for n in 0..COMMAND_QUEUE_CAPACITY {
        queue.submit(key(n as i64), 30_000, n as u32).expect("queue should fill to capacity");
    }
    assert_eq!(queue.queued_len(), 64);
    assert_eq!(queue.submit(key(999), 100, 999), Err(BrowserError::Busy));
    assert_eq!(BrowserError::Busy.message(), "browser actor is busy (queue capacity 64)");
    match queue.next() {
        NextStep::Run { key: k, timeout_ms, payload } => {
            assert!(k.same(&key(0)));
            assert_eq!((timeout_ms, payload), (30_000, 0));
        }
        _ => panic!("expected the oldest command"),
    }
    assert!(queue.submit(key(1000), 100, 1000).is_ok());
}

#[test]
fn commands_run_in_submission_order() {
    let mut queue: ActorQueue<&str> = ActorQueue::new();
    assert!(matches!(queue.next(), NextStep::Wait));
    queue.submit(RequestKey::Text("a".to_owned()), 10, "first").unwrap();
    queue.submit(key(2), 20, "second").unwrap();
    for expected in ["first", "second"] {
        match queue.next() {
            NextStep::Run { payload, .. } => assert_eq!(payload, expected),
            _ => panic!("expected {expected}"),
        }
    }
    assert!(matches!(queue.next(), NextStep::Wait));
}

#[test]
fn queued_cancel_removes_the_command_with_its_error() {
    let mut queue: ActorQueue<&str> = ActorQueue::new();
    queue.submit(key(1), 30_000, "navigate").unwrap();
    queue.submit(key(2), 250, "snapshot").unwrap();
    queue.submit(key(3), 400, "click").unwrap();
    assert!(matches!(queue.next(), NextStep::Run { payload: "navigate", .. }));
    let mut stopped = false;
    match queue.cancel(&key(2), CancellationReason::Cancelled, false, || {
        stopped = true;
        true
    }) {
        CancelOutcome::Removed { payload, error } => {
            assert_eq!(payload, "snapshot");
            assert_eq!(error, BrowserError::Cancelled);
        }
        _ => panic!("queued cancellation should resolve immediately"),
    }
    assert!(!stopped, "a queued cancellation must not touch the running command");
    match queue.cancel(&key(3), CancellationReason::Deadline, false, || true) {
        CancelOutcome::Removed { error, .. } => assert_eq!(error, BrowserError::Timeout(400)),
        _ => panic!("queued deadline should resolve immediately"),
    }
    assert_eq!(queue.queued_len(), 0);
    assert_eq!(queue.running_reason(), CancellationReason::Active);
    assert_eq!(queue.complete(&key(1), false, Ok::<u8, BrowserError>(7)), Ok(7));
}

#[test]
fn in_flight_cancel_and_deadline_replace_the_result() {
    let mut queue: ActorQueue<()> = ActorQueue::new();
    queue.submit(key(10), 250, ()).unwrap();
    assert!(matches!(queue.next(), NextStep::Run { .. }));
    let outcome = queue.cancel(&key(10), CancellationReason::Cancelled, false, || true);
    assert!(matches!(outcome, CancelOutcome::Running(true)));
    assert!(outcome.accepted());
    assert_eq!(queue.running_reason(), CancellationReason::Cancelled);
    // A second cancellation is refused; the first reason stands.
    assert!(matches!(
        queue.cancel(&key(10), CancellationReason::Deadline, false, || true),
        CancelOutcome::Running(false)
    ));
    assert_eq!(
        queue.complete(&key(10), false, Ok::<&str, BrowserError>("late result")),
        Err(BrowserError::Cancelled)
    );

    queue.submit(key(20), 100, ()).unwrap();
    assert!(matches!(queue.next(), NextStep::Run { .. }));
    queue.cancel(&key(20), CancellationReason::Deadline, false, || true);
    let result = queue.complete(&key(20), false, Ok::<&str, BrowserError>("late"));
    assert_eq!(result, Err(BrowserError::Timeout(100)));
    assert_eq!(
        result.unwrap_err().message(),
        "browser command timed out after 100 ms"
    );
}

#[test]
fn committed_results_stand_and_refused_stops_change_nothing() {
    let mut queue: ActorQueue<()> = ActorQueue::new();
    queue.submit(key(60_000), 10, ()).unwrap();
    assert!(matches!(queue.next(), NextStep::Run { .. }));
    let outcome = queue.cancel(&key(60_000), CancellationReason::Cancelled, true, || true);
    assert!(matches!(outcome, CancelOutcome::Running(false)));
    assert_eq!(queue.running_reason(), CancellationReason::Active);
    assert_eq!(
        queue.complete(&key(60_000), true, Ok::<&str, BrowserError>("Clicked successfully")),
        Ok("Clicked successfully")
    );

    queue.submit(key(5), 10, ()).unwrap();
    assert!(matches!(queue.next(), NextStep::Run { .. }));
    let refused = queue.cancel(&key(5), CancellationReason::Cancelled, false, || false);
    assert!(matches!(refused, CancelOutcome::Running(false)));
    assert_eq!(queue.running_reason(), CancellationReason::Active);
    assert_eq!(queue.complete(&key(5), false, Ok::<u8, BrowserError>(1)), Ok(1));
}

#[test]
fn cancel_after_complete_is_a_no_op() {
    let mut queue: ActorQueue<()> = ActorQueue::new();
    queue.submit(key(40), 1000, ()).unwrap();
    assert!(matches!(queue.next(), NextStep::Run { .. }));
    assert_eq!(
        queue.complete(&key(40), false, Ok::<&str, BrowserError>("completed snapshot")),
        Ok("completed snapshot")
    );
    assert!(matches!(
        queue.cancel(&key(40), CancellationReason::Cancelled, false, || true),
        CancelOutcome::Nothing
    ));
    queue.submit(key(41), 1000, ()).unwrap();
    assert!(matches!(queue.next(), NextStep::Run { .. }), "actor should remain healthy");
}

#[test]
fn shutdown_drains_waiting_commands_and_stops() {
    let mut queue: ActorQueue<u8> = ActorQueue::new();
    queue.submit(key(1), 10, 1).unwrap();
    queue.submit(key(2), 10, 2).unwrap();
    queue.submit(key(3), 10, 3).unwrap();
    assert!(matches!(queue.next(), NextStep::Run { payload: 1, .. }));
    let mut engine_stopped = false;
    let drained = queue.shutdown(false, || {
        engine_stopped = true;
        true
    });
    assert_eq!(drained, vec![2, 3]);
    assert!(engine_stopped);
    assert!(queue.is_closed());
    assert_eq!(queue.running_reason(), CancellationReason::Cancelled);
    assert_eq!(queue.submit(key(4), 10, 4), Err(BrowserError::Stopped));
    assert_eq!(BrowserError::Stopped.message(), "browser actor stopped");
    assert_eq!(
        queue.complete(&key(1), false, Ok::<u8, BrowserError>(0)),
        Err(BrowserError::Cancelled)
    );
    assert!(matches!(queue.next(), NextStep::Stop));
}

#[test]
fn command_cancellation_is_decided_once() {
    let cancellation = CommandCancellation::new();
    assert_eq!(cancellation.reason(), CancellationReason::Active);
    let mut c = CommandCancellation::new();
    assert!(c.cancel(CancellationReason::Deadline, false, || true));
    assert_eq!(c.reason(), CancellationReason::Deadline);
    assert!(!c.cancel(CancellationReason::Cancelled, false, || true));
    assert_eq!(c.reason(), CancellationReason::Deadline);
    for reason in [CancellationReason::Active, CancellationReason::Cancelled, CancellationReason::Deadline] {
        assert_eq!(CancellationReason::from_u8(reason.code()), reason);
    }
    assert_eq!(CancellationReason::from_u8(9), CancellationReason::Active);
    assert_eq!(CancellationReason::Deadline.error(5), Some(BrowserError::Timeout(5)));
    assert_eq!(CancellationReason::Active.error(5), None);
    assert_eq!(BrowserError::Cancelled.message(), "browser command cancelled");
}

#[test]
fn engine_failures_become_command_errors() {
    let failure = |kind, text: &str| EngineFailure { kind, text: text.to_owned() };
    assert_eq!(
        operation_error(
            "click failed for e1",
            &failure(EngineFailureKind::Other, "covered"),
            CancellationReason::Active,
            100,
            false,
            false
        ),
        BrowserError::Message("click failed for e1: covered".to_owned())
    );
    assert_eq!(
        operation_error(
            "navigation failed",
            &failure(EngineFailureKind::Timeout, "slow"),
            CancellationReason::Active,
            250,
            false,
            false
        ),
        BrowserError::Timeout(250)
    );
    assert_eq!(
        operation_error(
            "navigation failed",
            &failure(EngineFailureKind::Cancelled, ""),
            CancellationReason::Deadline,
            300,
            false,
            false
        ),
        BrowserError::Timeout(300)
    );
    assert_eq!(
        operation_error(
            "navigation failed",
            &failure(EngineFailureKind::Cancelled, ""),
            CancellationReason::Active,
            300,
            false,
            false
        ),
        BrowserError::Cancelled
    );
    let unreachable = BrowserError::Message(
        "remote CDP session unreachable — restart or reconfigure".to_owned(),
    );
    assert_eq!(
        operation_error(
            "snapshot failed",
            &failure(EngineFailureKind::Closed, "gone"),
            CancellationReason::Active,
            1,
            true,
            false
        ),
        unreachable
    );
    assert_eq!(
        operation_error(
            "snapshot failed",
            &failure(EngineFailureKind::Other, "gone"),
            CancellationReason::Active,
            1,
            true,
            true
        ),
        unreachable
    );
    assert_eq!(
        remote_attach_error(
            &failure(EngineFailureKind::Other, "ws://secret"),
            CancellationReason::Active,
            1
        ),
        unreachable
    );
    assert_eq!(history_result(true, true), Ok(()));
    assert_eq!(
        history_result(false, true),
        Err(BrowserError::Message("no back history".to_owned()))
    );
    assert_eq!(
        history_result(false, false),
        Err(BrowserError::Message("no forward history".to_owned()))
    );
}

#[test]
fn startup_settings_choose_local_remote_or_invalid() {
    let present = |s: &str| EnvSetting::Present(s.to_owned());
    let headers = r#"{"x-test": "value"}"#.to_owned();
    assert!(matches!(
        startup_from_settings(EnvSetting::Unset, present("5"), EnvSetting::Unset),
        BrowserStartup::Local
    ));
    assert!(matches!(
        startup_from_settings(present("  \n"), EnvSetting::Unset, EnvSetting::Unset),
        BrowserStartup::Local
    ));
    match startup_from_settings(present("ws://127.0.0.1:9/x"), EnvSetting::Unset, EnvSetting::Unset) {
        BrowserStartup::Remote(config) => {
            assert_eq!(config.endpoint, "ws://127.0.0.1:9/x");
            assert_eq!(config.timeout_ms, DEFAULT_CDP_TIMEOUT_MS);
            assert!(config.headers.is_empty());
        }
        _ => panic!("expected a remote startup"),
    }
    match startup_from_settings(
        present("ws://h/x"),
        present("1500"),
        EnvSetting::Present(headers),
    ) {
        BrowserStartup::Remote(config) => {
            assert_eq!(config.timeout_ms, 1500);
            assert_eq!(config.headers, vec![("x-test".to_owned(), "value".to_owned())]);
        }
        _ => panic!("expected a remote startup"),
    }
    for (timeout, headers) in [
        (present("0"), EnvSetting::Unset),
        (present("soon"), EnvSetting::Unset),
        (EnvSetting::NotUnicode, EnvSetting::Unset),
        (EnvSetting::Unset, present("not json")),
        (EnvSetting::Unset, present("[]")),
        (EnvSetting::Unset, present(r#"{"x": 1}"#)),
        (EnvSetting::Unset, EnvSetting::NotUnicode),
    ] {
        assert!(matches!(
            startup_from_settings(present("ws://h/x"), timeout, headers),
            BrowserStartup::InvalidRemote
        ));
    }
}

#[test]
fn header_documents_must_be_objects_of_strings() {
    assert_eq!(decode_headers("not json"), None);
    assert_eq!(decode_headers("null"), None);
    assert_eq!(decode_headers(r#"{"a": true}"#), None);
    assert_eq!(decode_headers("{}"), Some(vec![]));
    assert_eq!(
        decode_headers(r#"{"b": "2", "a": "1"}"#),
        Some(vec![("a".to_owned(), "1".to_owned()), ("b".to_owned(), "2".to_owned())])
    );
    assert_eq!(headers_from_json(None), None);
    assert_eq!(headers_from_json(Some(JsonValue::Null)), None);
    assert_eq!(
        headers_from_json(Some(JsonValue::Object(vec![
            ("a".to_owned(), text("1")),
            ("b".to_owned(), text("2")),
        ]))),
        Some(vec![("a".to_owned(), "1".to_owned()), ("b".to_owned(), "2".to_owned())])
    );
}

#[test]
fn local_holds_launch_then_open_a_page() {
    let mut hold = BrowserHold::new(BrowserStartup::Local);
    assert!(!hold.is_remote());
    assert!(matches!(hold.page_step(CancellationReason::Active, false, 10), PageStep::Launch));
    hold.finish_launch();
    assert!(matches!(hold.page_step(CancellationReason::Active, false, 10), PageStep::OpenPage));
    hold.finish_open_page();
    assert!(matches!(hold.page_step(CancellationReason::Active, false, 10), PageStep::Ready));
    assert!(matches!(
        hold.page_step(CancellationReason::Deadline, false, 26),
        PageStep::Fail(BrowserError::Timeout(26))
    ));
    assert!(matches!(hold.page_step(CancellationReason::Deadline, true, 26), PageStep::Ready));
    assert!(hold.closes_page_on_shutdown());
    hold.release();
    assert!(!hold.closes_page_on_shutdown());
    assert!(matches!(hold.page_step(CancellationReason::Active, false, 10), PageStep::Launch));
}

#[test]
fn remote_holds_attach_once_and_never_launch() {
    let config = match startup_from_settings(
        EnvSetting::Present("ws://h/x".to_owned()),
        EnvSetting::Unset,
        EnvSetting::Unset,
    ) {
        BrowserStartup::Remote(c) => c,
        _ => panic!("expected a remote startup"),
    };
    let mut hold = BrowserHold::new(BrowserStartup::Remote(config));
    assert!(hold.is_remote());
    match hold.page_step(CancellationReason::Active, false, 10) {
        PageStep::Attach(c) => assert_eq!(c.endpoint, "ws://h/x"),
        _ => panic!("expected an attach"),
    }
    // A timed-out attach may be retried.
    assert_eq!(hold.finish_attach(Err(BrowserError::Timeout(10))), Err(BrowserError::Timeout(10)));
    assert!(matches!(hold.page_step(CancellationReason::Active, false, 10), PageStep::Attach(_)));
    hold.finish_attach(Ok(())).unwrap();
    assert!(matches!(hold.page_step(CancellationReason::Active, false, 10), PageStep::Ready));
    assert!(!hold.closes_page_on_shutdown());

    let mut broken = BrowserHold::new(BrowserStartup::Remote(match startup_from_settings(
        EnvSetting::Present("ws://h/y".to_owned()),
        EnvSetting::Unset,
        EnvSetting::Unset,
    ) {
        BrowserStartup::Remote(c) => c,
        _ => panic!("expected a remote startup"),
    }));
    let unreachable = BrowserError::Message(
        "remote CDP session unreachable — restart or reconfigure".to_owned(),
    );
    assert!(broken.finish_attach(Err(unreachable.duplicate())).is_err());
    match broken.page_step(CancellationReason::Active, false, 10) {
        PageStep::Fail(e) => assert_eq!(e, unreachable),
        _ => panic!("an unreachable remote must fail"),
    }

    let invalid = BrowserHold::new(BrowserStartup::InvalidRemote);
    match invalid.page_step(CancellationReason::Active, false, 10) {
        PageStep::Fail(e) => assert_eq!(e, unreachable),
        _ => panic!("an invalid remote must fail without launching"),
    }
}

#[test]
fn operations_spend_or_keep_refs() {
    let mut hold = local_hold_with_page();
    hold.read_snapshot(&snapshot_result("- link [ref=e1]", 4), "{}").unwrap();
    assert_eq!(hold.begin_op(&BrowserOp::Snapshot), Ok(()));
    assert_eq!(hold.begin_op(&BrowserOp::TakeScreenshot), Ok(()));
    assert_eq!(hold.begin_op(&BrowserOp::ScrollTarget("e3".to_owned())), Ok(()));
    assert_eq!(
        hold.begin_op(&BrowserOp::Click("e1".to_owned())),
        Err(BrowserError::Message(
            "unknown or stale ref e1; call browser_snapshot and use its latest refs".to_owned()
        ))
    );

    hold.read_snapshot(&snapshot_result("- link [ref=e4]", 6), "{}").unwrap();
    assert_eq!(hold.start_ref(), 6);
    assert_eq!(hold.begin_op(&BrowserOp::Navigate("https://example.com/".to_owned())), Ok(()));
    assert!(hold.begin_op(&BrowserOp::Click("e4".to_owned())).is_err());

    hold.read_snapshot(&snapshot_result("- link [ref=e6]", 7), "{}").unwrap();
    assert_eq!(hold.begin_op(&BrowserOp::ScrollViewport(0x407F_4000_0000_0000)), Ok(()));
    assert!(hold.begin_op(&BrowserOp::ScrollTarget("e6".to_owned())).is_err());
    assert_eq!(hold.begin_op(&BrowserOp::NavigateBack), Ok(()));
}

#[test]
fn cancelling_a_waiting_command_frees_its_place() {
    let mut queue: ActorQueue<u32> = ActorQueue::new();
    for n in 0..COMMAND_QUEUE_CAPACITY {
        queue.submit(key(n as i64), 100, n as u32).unwrap();
    }
    assert_eq!(queue.submit(key(500), 100, 500), Err(BrowserError::Busy));
    assert!(matches!(
        queue.cancel(&key(10), CancellationReason::Cancelled, false, || true),
        CancelOutcome::Removed { payload: 10, .. }
    ));
    assert_eq!(queue.queued_len(), 63);
    assert!(queue.submit(key(500), 100, 500).is_ok());
    assert_eq!(queue.submit(key(501), 100, 501), Err(BrowserError::Busy));
}

#[test]
fn engine_calls_name_their_failures() {
    assert_eq!(call_context(EngineCall::Click, "e7"), "click failed for e7");
    assert_eq!(call_context(EngineCall::ScrollIntoView, "e2"), "scroll failed for e2");
    assert_eq!(call_context(EngineCall::Launch, ""), "browser launch failed");
    assert_eq!(call_context(EngineCall::NavigateBack, ""), "back navigation failed");
    assert_eq!(call_context(EngineCall::Snapshot, ""), "snapshot evaluation failed");
    let failure = EngineFailure { kind: EngineFailureKind::Other, text: "not visible".to_owned() };
    assert_eq!(
        operation_error(
            &call_context(EngineCall::Click, "e7"),
            &failure,
            CancellationReason::Active,
            10,
            false,
            false
        ),
        BrowserError::Message("click failed for e7: not visible".to_owned())
    );
}

#[test]
fn durations_saturate_at_u64() {
    assert_eq!(duration_millis(42_000), 42_000);
    assert_eq!(duration_millis(u128::from(u64::MAX) + 1), u64::MAX);
    assert_eq!(duration_millis(Duration::from_secs(3).as_millis()), 3_000);
}

#[test]
fn dead_remote_attach_is_sanitized_without_local_fallback() {
    let endpoint = "ws://127.0.0.1:1/test-cdp-path?marker=endpoint-value";
    let headers = r#"{"x-rustwright-test": "header-marker-value"}"#;
    let config = match startup_from_settings(
        EnvSetting::Present(endpoint.to_owned()),
        EnvSetting::Present("500".to_owned()),
        EnvSetting::Present(headers.to_owned()),
    ) {
        BrowserStartup::Remote(config) => config,
        _ => panic!("expected a remote startup"),
    };
    assert_eq!(config.timeout_ms, 500);
    let mut hold = BrowserHold::new(BrowserStartup::Remote(config));
    assert!(matches!(hold.page_step(CancellationReason::Active, false, 80), PageStep::Attach(_)));
    let failure = EngineFailure {
        kind: EngineFailureKind::ConnectFailed,
        text: format!("connect to {endpoint} with header-marker-value refused"),
    };
    let error = remote_attach_error(&failure, CancellationReason::Active, 80);
    let message = error.message();
    assert!(!message.contains("endpoint-value") && !message.contains("header-marker-value"));
    assert!(hold.finish_attach(Err(error)).is_err());
    for timeout_ms in [80, 81] {
        match hold.page_step(CancellationReason::Active, false, timeout_ms) {
            PageStep::Fail(e) => assert_eq!(
                e.message(),
                "remote CDP session unreachable — restart or reconfigure"
            ),
            _ => panic!("a dead remote must fail without a local launch"),
        }
    }
}

#[test]
fn real_stdio_history_navigation_returns_snapshots_and_errors_at_forward_boundary() {
    assert_eq!(history_result(true, false), Ok(()));
    assert_eq!(
        history_result(false, false).unwrap_err().message(),
        "no forward history"
    );
}

#[test]
fn shutdown_cancels_the_running_command_unless_it_committed_or_the_engine_refuses() {
    for (committed, engine_agrees, expected) in [
        (false, true, CancellationReason::Cancelled),
        (false, false, CancellationReason::Active),
        (true, true, CancellationReason::Active),
    ] {
        let mut queue: ActorQueue<u8> = ActorQueue::new();
        queue.submit(key(1), 10, 1).unwrap();
        assert!(matches!(queue.next(), NextStep::Run { .. }));
        let mut asked = false;
        let drained = queue.shutdown(committed, || {
            asked = true;
            engine_agrees
        });
        assert!(drained.is_empty());
        assert_eq!(asked, !committed);
        assert_eq!(queue.running_reason(), expected);
    }
}
