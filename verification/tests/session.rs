use codex_tray::json::{JsonNumber, JsonValue};
use codex_tray::limits::CodexError;
use codex_tray::wire::LineRead;
use codex_tray::session::{
    account_read_request, failure_update, initialize_request, initialized_notification,
    limits_read_request, reader_step, reconnects_after, ReconnectWait, Session,
    SessionEnd, SessionEvent, WorkerUpdate,
};

fn s(text: &str) -> JsonValue {
    JsonValue::String(text.to_string())
}

fn n(value: u64) -> JsonValue {
    JsonValue::Number(JsonNumber::PosInt(value))
}

fn obj(entries: Vec<(&str, JsonValue)>) -> JsonValue {
    JsonValue::Object(entries.into_iter().map(|(k, v)| (k.to_string(), v)).collect())
}

fn method_of(value: &JsonValue) -> Option<String> {
    value.get("method").and_then(|m| m.as_str()).map(|m| m.to_string())
}

fn limits_response(used: u64) -> JsonValue {
    obj(vec![
        ("id", n(3)),
        (
            "result",
            obj(vec![(
                "rateLimitsByLimitId",
                obj(vec![(
                    "codex",
                    obj(vec![("primary", obj(vec![("usedPercent", n(used))])), ("planType", s("pro"))]),
                )]),
            )]),
        ),
    ])
}

fn subscribed() -> Session {
    let (session, _) = Session::start("1.0");
    let (session, _) = session.step(SessionEvent::Message(obj(vec![("id", n(1)), ("result", obj(vec![]))])), 0);
    let (session, _) = session.step(SessionEvent::Message(obj(vec![("id", n(2)), ("result", obj(vec![]))])), 0);
    let (session, step) = session.step(SessionEvent::Message(limits_response(20)), 7);
    assert_eq!(step.snapshot.expect("snapshot").used_percent, 20);
    assert!(session.polls_commands());
    session
}

#[test]
fn handshake_sends_requests_in_order() {
    let (session, first) = Session::start("0.4.0");
    assert_eq!(method_of(&first).as_deref(), Some("initialize"));
    assert_eq!(
        first.get("params").and_then(|p| p.get("clientInfo")).and_then(|c| c.get("version")).and_then(|v| v.as_str()),
        Some("0.4.0")
    );
    assert!(!session.polls_commands());

    // A notification that arrives first is passed over.
    let (session, step) = session.step(SessionEvent::Message(obj(vec![("method", s("other"))])), 0);
    assert!(step.send.is_empty() && step.snapshot.is_none() && step.end.is_none());

    let (session, step) = session.step(SessionEvent::Message(obj(vec![("id", n(1)), ("result", obj(vec![]))])), 0);
    let methods: Vec<Option<String>> = step.send.iter().map(method_of).collect();
    assert_eq!(methods, vec![Some("initialized".to_string()), Some("account/read".to_string())]);

    let (session, step) = session.step(SessionEvent::Message(obj(vec![("id", n(2)), ("result", obj(vec![]))])), 0);
    assert_eq!(step.send.len(), 1);
    assert_eq!(method_of(&step.send[0]).as_deref(), Some("account/rateLimits/read"));

    let (session, step) = session.step(SessionEvent::Message(limits_response(25)), 99);
    let snapshot = step.snapshot.expect("snapshot");
    assert_eq!(snapshot.used_percent, 25);
    assert_eq!(snapshot.updated_at, 99);
    assert!(session.polls_commands());
}

#[test]
fn requests_have_their_ids() {
    assert_eq!(initialize_request("x").get("id").and_then(|v| v.as_i64()), Some(1));
    assert!(initialized_notification().get("id").is_none());
    assert_eq!(account_read_request().get("id").and_then(|v| v.as_i64()), Some(2));
    assert_eq!(
        account_read_request().get("params").and_then(|p| p.get("refreshToken")).and_then(|v| v.as_bool()),
        Some(false)
    );
    assert_eq!(limits_read_request().get("id").and_then(|v| v.as_i64()), Some(3));
}

#[test]
fn refused_request_ends_the_session_with_its_error() {
    let (session, _) = Session::start("1.0");
    let (session, step) = session.step(
        SessionEvent::Message(obj(vec![("id", n(1)), ("error", obj(vec![("message", s("not logged in"))]))])),
        0,
    );
    assert!(session.is_finished());
    match step.end {
        Some(SessionEnd::Failed(CodexError::Protocol(text))) => {
            assert_eq!(text, r#"{"message":"not logged in"}"#)
        }
        _ => panic!("expected a protocol error"),
    }
}

#[test]
fn notifications_refresh_the_snapshot() {
    let session = subscribed();
    let update = obj(vec![
        ("method", s("account/rateLimits/updated")),
        ("params", obj(vec![("rateLimits", obj(vec![("primary", obj(vec![("usedPercent", n(55))]))]))])),
    ]);
    let (session, step) = session.step(SessionEvent::Message(update), 8);
    let snapshot = step.snapshot.expect("snapshot");
    assert_eq!(snapshot.used_percent, 55);
    assert_eq!(snapshot.plan_type.as_deref(), Some("pro"));

    // Other messages, and idle polls, change nothing.
    let (session, step) = session.step(SessionEvent::Message(obj(vec![("method", s("x"))])), 9);
    assert!(step.snapshot.is_none() && step.end.is_none());
    let (session, step) = session.step(SessionEvent::Idle, 9);
    assert!(step.snapshot.is_none() && step.end.is_none());

    let (session, step) = session.step(SessionEvent::StopRequested, 10);
    assert!(matches!(step.end, Some(SessionEnd::Stopped)));
    assert!(session.is_finished());

    // A finished session ignores everything.
    let (session, step) = session.step(SessionEvent::ReaderClosed, 11);
    assert!(session.is_finished() && step.end.is_none());
}

#[test]
fn notification_without_params_fails() {
    let session = subscribed();
    let (_, step) = session.step(SessionEvent::Message(obj(vec![("method", s("account/rateLimits/updated"))])), 0);
    match step.end {
        Some(SessionEnd::Failed(CodexError::Protocol(text))) => assert_eq!(text, "в уведомлении лимитов нет params"),
        _ => panic!("expected a protocol error"),
    }
}

#[test]
fn reader_and_panel_failures_end_the_session() {
    let (session, _) = Session::start("1.0");
    let (session, step) = session.step(SessionEvent::StopRequested, 0);
    assert!(!session.is_finished() && step.end.is_none());
    let (_, step) = session.step(SessionEvent::ReaderClosed, 0);
    match step.end {
        Some(SessionEnd::Failed(CodexError::Protocol(text))) => {
            assert_eq!(text, "канал чтения app-server неожиданно закрылся")
        }
        _ => panic!("expected a protocol error"),
    }
    let (_, step) = subscribed().step(SessionEvent::UiClosed, 0);
    match step.end {
        Some(SessionEnd::Failed(CodexError::Protocol(text))) => assert_eq!(text, "канал интерфейса закрыт"),
        _ => panic!("expected a protocol error"),
    }
    let (_, step) = subscribed().step(SessionEvent::ReaderFailed(CodexError::Io("pipe".to_string())), 0);
    assert!(matches!(step.end, Some(SessionEnd::Failed(CodexError::Io(_)))));
}

#[test]
fn reader_passes_documents_and_stops_on_errors() {
    let (message, more) = reader_step(LineRead::Parsed(n(1)));
    assert!(more && message.is_ok());
    let (message, more) = reader_step(LineRead::End);
    assert!(!more);
    assert_eq!(message.expect_err("end").message(), "ошибка протокола codex: app-server завершил поток событий");
    let (message, more) = reader_step(LineRead::Malformed("expected value".to_string()));
    assert!(!more);
    assert_eq!(message.expect_err("json").message(), "codex вернул некорректный JSON: expected value");
    let (message, more) = reader_step(LineRead::Failed("broken".to_string()));
    assert!(!more);
    assert!(matches!(message, Err(CodexError::Io(_))));
}

#[test]
fn worker_reports_failures_and_reconnects_only_after_the_delay() {
    match failure_update(&CodexError::Spawn("program not found".to_string()), 42) {
        WorkerUpdate::Error { message, at } => {
            assert_eq!(message, "не удалось запустить codex: program not found");
            assert_eq!(at, 42);
        }
        _ => panic!("expected an error update"),
    }
    assert!(reconnects_after(ReconnectWait::TimedOut));
    assert!(!reconnects_after(ReconnectWait::Stop));
    assert!(!reconnects_after(ReconnectWait::Disconnected));
    assert!(reconnects_after(ReconnectWait::Refresh));
}

#[test]
fn steps_and_reports_taken_now_carry_the_current_time() {
    let (session, _) = Session::start("1.0");
    let (session, _) = session.step_now(SessionEvent::Message(obj(vec![("id", n(1))])));
    let (session, _) = session.step_now(SessionEvent::Message(obj(vec![("id", n(2))])));
    let (_, step) = session.step_now(SessionEvent::Message(limits_response(1)));
    assert!(step.snapshot.expect("snapshot").updated_at > 1_600_000_000);
    match codex_tray::session::report_failure(&CodexError::Io("x".to_string())) {
        WorkerUpdate::Error { message, at } => {
            assert_eq!(message, "ошибка обмена с codex app-server: x");
            assert!(at > 1_600_000_000);
        }
        _ => panic!("expected an error update"),
    }
}

#[test]
fn refresh_repeats_both_reads_over_the_open_session() {
    let session = subscribed();
    let (session, step) = session.step(SessionEvent::RefreshRequested, 8);
    assert!(!session.polls_commands() && !session.is_finished());
    assert_eq!(step.send.len(), 1);
    assert_eq!(step.send[0].get("method").and_then(|m| m.as_str()), Some("account/read"));
    assert_eq!(step.send[0].get("id").and_then(|m| m.as_i64()), Some(2));
    assert!(step.snapshot.is_none() && step.end.is_none());

    // A notification that arrives meanwhile is passed over.
    let (session, step) = session.step(SessionEvent::Message(obj(vec![("method", s("account/rateLimits/updated"))])), 8);
    assert!(step.send.is_empty() && step.snapshot.is_none() && step.end.is_none());

    let (session, step) = session.step(SessionEvent::Message(obj(vec![("id", n(2)), ("result", obj(vec![]))])), 8);
    assert_eq!(step.send.len(), 1);
    assert_eq!(step.send[0].get("method").and_then(|m| m.as_str()), Some("account/rateLimits/read"));
    let (session, step) = session.step(SessionEvent::Message(limits_response(64)), 9);
    let snapshot = step.snapshot.expect("snapshot");
    assert_eq!((snapshot.used_percent, snapshot.updated_at), (64, 9));
    assert!(session.polls_commands());

    // Before the session is subscribed a refresh changes nothing.
    let (session, _) = Session::start("1.0");
    let (session, step) = session.step(SessionEvent::RefreshRequested, 0);
    assert!(step.send.is_empty() && step.end.is_none());
    assert!(!session.polls_commands() && !session.is_finished());
}
