use codex_tray::json::{JsonNumber, JsonValue};
use codex_tray::wire::json_string;
use codex_tray::limits::{
    merge_rate_limit_bucket, merge_rate_limits_notification, parse_snapshot, parse_snapshot_at,
    CodexError,
};

fn s(text: &str) -> JsonValue {
    JsonValue::String(text.to_string())
}

fn n(value: u64) -> JsonValue {
    JsonValue::Number(JsonNumber::PosInt(value))
}

fn b(value: bool) -> JsonValue {
    JsonValue::Bool(value)
}

fn null() -> JsonValue {
    JsonValue::Null
}

fn obj(entries: Vec<(&str, JsonValue)>) -> JsonValue {
    JsonValue::Object(entries.into_iter().map(|(k, v)| (k.to_string(), v)).collect())
}

fn protocol_text(error: CodexError) -> String {
    match error {
        CodexError::Protocol(text) => text,
        other => panic!("not a protocol error: {:?}", other),
    }
}

#[test]
fn parses_current_codex_bucket() {
    let account = obj(vec![
        ("id", n(2)),
        ("result", obj(vec![("account", obj(vec![("type", s("chatgpt")), ("planType", s("pro"))]))])),
    ]);
    let limits = obj(vec![
        ("id", n(3)),
        (
            "result",
            obj(vec![
                ("rateLimits", obj(vec![])),
                (
                    "rateLimitsByLimitId",
                    obj(vec![(
                        "codex",
                        obj(vec![
                            (
                                "primary",
                                obj(vec![
                                    ("usedPercent", n(17)),
                                    ("windowDurationMins", n(300)),
                                    ("resetsAt", n(1787903956)),
                                ]),
                            ),
                            (
                                "credits",
                                obj(vec![
                                    ("hasCredits", b(true)),
                                    ("unlimited", b(false)),
                                    ("balance", s("12.5")),
                                ]),
                            ),
                            ("planType", s("pro")),
                            ("rateLimitReachedType", null()),
                        ]),
                    )]),
                ),
                ("rateLimitResetCredits", obj(vec![("availableCount", n(2))])),
            ]),
        ),
    ]);

    let snapshot = parse_snapshot(&account, &limits).expect("snapshot");
    assert_eq!(snapshot.used_percent, 17);
    assert_eq!(snapshot.window_duration_mins, Some(300));
    assert_eq!(snapshot.plan_type.as_deref(), Some("pro"));
    assert_eq!(snapshot.credit_balance.as_deref(), Some("12.5"));
    assert_eq!(snapshot.reset_credits, 2);
}

#[test]
fn merges_sparse_rate_limit_notification_without_losing_account_metadata() {
    let account = obj(vec![("result", obj(vec![("account", obj(vec![("planType", s("pro"))]))]))]);
    let mut limits = obj(vec![(
        "result",
        obj(vec![
            ("rateLimits", obj(vec![("primary", obj(vec![("usedPercent", n(17))]))])),
            (
                "rateLimitsByLimitId",
                obj(vec![(
                    "codex",
                    obj(vec![
                        ("limitId", s("codex")),
                        ("primary", obj(vec![("usedPercent", n(17)), ("windowDurationMins", n(300))])),
                        (
                            "credits",
                            obj(vec![
                                ("hasCredits", b(true)),
                                ("unlimited", b(false)),
                                ("balance", s("12.5")),
                            ]),
                        ),
                        ("planType", s("pro")),
                        ("rateLimitReachedType", s("rate_limit_reached")),
                    ]),
                )]),
            ),
        ]),
    )]);
    let notification = obj(vec![(
        "rateLimits",
        obj(vec![
            ("limitId", s("codex")),
            ("primary", obj(vec![("usedPercent", n(31)), ("windowDurationMins", n(300))])),
            ("credits", null()),
            ("planType", null()),
            ("rateLimitReachedType", null()),
        ]),
    )]);

    merge_rate_limits_notification(&mut limits, &notification).expect("merge");
    let snapshot = parse_snapshot(&account, &limits).expect("snapshot");
    assert_eq!(snapshot.used_percent, 31);
    assert_eq!(snapshot.plan_type.as_deref(), Some("pro"));
    assert_eq!(snapshot.credit_balance.as_deref(), Some("12.5"));
    assert_eq!(snapshot.limit_reached_type, None);
}

#[test]
fn falls_back_to_legacy_bucket_and_account_plan() {
    let account = obj(vec![("result", obj(vec![("account", obj(vec![("planType", s("plus"))]))]))]);
    let limits = obj(vec![(
        "result",
        obj(vec![(
            "rateLimits",
            obj(vec![
                ("primary", obj(vec![("usedPercent", n(101)), ("windowDurationMins", n(10080))])),
                ("credits", null()),
            ]),
        )]),
    )]);

    let snapshot = parse_snapshot(&account, &limits).expect("snapshot");
    assert_eq!(snapshot.used_percent, 100);
    assert_eq!(snapshot.plan_type.as_deref(), Some("plus"));
    assert!(!snapshot.has_credits);
}

#[test]
fn snapshot_is_stamped_with_the_given_time() {
    let account = obj(vec![]);
    let limits = obj(vec![(
        "result",
        obj(vec![("rateLimits", obj(vec![("primary", obj(vec![("usedPercent", n(5))]))]))]),
    )]);
    let snapshot = parse_snapshot_at(&account, &limits, 1234).expect("snapshot");
    assert_eq!(snapshot.updated_at, 1234);
    assert_eq!(snapshot.used_percent, 5);
    assert_eq!(snapshot.window_duration_mins, None);
    assert_eq!(snapshot.plan_type, None);
    assert!(!snapshot.unlimited_credits);
    assert_eq!(snapshot.reset_credits, 0);
}

#[test]
fn snapshot_reads_negative_and_large_integers() {
    let limits = obj(vec![(
        "result",
        obj(vec![
            (
                "rateLimits",
                obj(vec![(
                    "primary",
                    obj(vec![
                        ("usedPercent", n(u64::MAX)),
                        ("windowDurationMins", JsonValue::Number(JsonNumber::NegInt(-60))),
                        ("resetsAt", n(u64::MAX)),
                    ]),
                )]),
            ),
            ("rateLimitResetCredits", obj(vec![("availableCount", parsed("1.5"))])),
        ]),
    )]);
    let snapshot = parse_snapshot_at(&obj(vec![]), &limits, 0).expect("snapshot");
    assert_eq!(snapshot.used_percent, 100);
    assert_eq!(snapshot.window_duration_mins, Some(-60));
    // A u64 beyond i64::MAX is no i64.
    assert_eq!(snapshot.resets_at, None);
    // A float is no integer.
    assert_eq!(snapshot.reset_credits, 0);
}

#[test]
fn snapshot_errors_name_what_is_missing() {
    let account = obj(vec![]);
    let cases: Vec<(JsonValue, &str)> = vec![
        (obj(vec![]), "в ответе нет result"),
        (obj(vec![("result", obj(vec![]))]), "в ответе нет лимита codex"),
        (
            obj(vec![("result", obj(vec![("rateLimits", obj(vec![("primary", null())]))]))]),
            "у лимита codex нет активного окна",
        ),
        (
            obj(vec![("result", obj(vec![("rateLimits", obj(vec![("primary", obj(vec![("usedPercent", s("17"))]))]))]))]),
            "в окне нет usedPercent",
        ),
    ];
    for (limits, expected) in cases {
        let error = parse_snapshot_at(&account, &limits, 0).expect_err("error");
        assert_eq!(protocol_text(error), expected);
    }
}

#[test]
fn merge_errors_leave_the_response_as_it_was_before_the_failing_bucket() {
    let mut limits = obj(vec![("result", obj(vec![("rateLimits", n(1))]))]);
    let notification = obj(vec![("rateLimits", obj(vec![("primary", obj(vec![]))]))]);
    let error = merge_rate_limits_notification(&mut limits, &notification).expect_err("error");
    assert_eq!(protocol_text(error), "снимок лимита не является объектом");

    let mut limits = obj(vec![("other", n(1))]);
    let error = merge_rate_limits_notification(&mut limits, &notification).expect_err("error");
    assert_eq!(protocol_text(error), "в снимке лимитов нет result");

    let mut limits = obj(vec![("result", obj(vec![]))]);
    let error = merge_rate_limits_notification(&mut limits, &obj(vec![("rateLimits", n(3))])).expect_err("error");
    assert_eq!(protocol_text(error), "в уведомлении нет rateLimits");
}

#[test]
fn merge_creates_missing_buckets_and_targets_the_named_limit() {
    let account = obj(vec![]);
    let mut limits = obj(vec![("result", obj(vec![("rateLimitsByLimitId", obj(vec![]))]))]);
    let notification = obj(vec![(
        "rateLimits",
        obj(vec![("limitId", s("codex")), ("primary", obj(vec![("usedPercent", n(40))]))]),
    )]);
    merge_rate_limits_notification(&mut limits, &notification).expect("merge");
    let snapshot = parse_snapshot_at(&account, &limits, 0).expect("snapshot");
    assert_eq!(snapshot.used_percent, 40);

    // An update for another limit leaves the codex bucket alone.
    let other = obj(vec![(
        "rateLimits",
        obj(vec![("limitId", s("other")), ("primary", obj(vec![("usedPercent", n(90))]))]),
    )]);
    merge_rate_limits_notification(&mut limits, &other).expect("merge");
    let snapshot = parse_snapshot_at(&account, &limits, 0).expect("snapshot");
    assert_eq!(snapshot.used_percent, 40);
}

#[test]
fn bucket_merge_copies_nulls_only_for_window_fields() {
    let mut bucket = obj(vec![
        ("secondary", n(1)),
        ("limitName", s("Codex")),
    ]);
    let update = vec![
        ("secondary".to_string(), null()),
        ("limitName".to_string(), null()),
        ("individualLimit".to_string(), n(7)),
    ];
    merge_rate_limit_bucket(&mut bucket, &update).expect("merge");
    assert!(bucket.get("secondary").expect("secondary").is_null());
    assert_eq!(bucket.get("limitName").and_then(|v| v.as_str()), Some("Codex"));
    assert_eq!(bucket.get("individualLimit").and_then(|v| v.as_u64()), Some(7));

    let mut not_object = s("x");
    let error = merge_rate_limit_bucket(&mut not_object, &update).expect_err("error");
    assert_eq!(protocol_text(error), "снимок лимита не является объектом");
}

#[test]
fn error_messages_carry_their_prefix() {
    assert_eq!(CodexError::Spawn("нет файла".to_string()).message(), "не удалось запустить codex: нет файла");
    assert_eq!(CodexError::Io("broken pipe".to_string()).message(), "ошибка обмена с codex app-server: broken pipe");
    assert_eq!(CodexError::Json("eof".to_string()).message(), "codex вернул некорректный JSON: eof");
    assert_eq!(CodexError::Protocol("x".to_string()).message(), "ошибка протокола codex: x");
}

#[test]
fn snapshot_without_a_time_is_stamped_now() {
    let limits = obj(vec![(
        "result",
        obj(vec![("rateLimits", obj(vec![("primary", obj(vec![("usedPercent", n(5))]))]))]),
    )]);
    let snapshot = parse_snapshot(&obj(vec![]), &limits).expect("snapshot");
    assert!(snapshot.updated_at > 1_600_000_000);
}

#[test]
fn applying_a_notification_twice_equals_applying_it_once() {
    let mut limits = obj(vec![(
        "result",
        obj(vec![
            ("rateLimits", obj(vec![("primary", obj(vec![("usedPercent", n(10))])), ("planType", s("plus"))])),
            (
                "rateLimitsByLimitId",
                obj(vec![("codex", obj(vec![("primary", obj(vec![("usedPercent", n(10))]))]))]),
            ),
        ]),
    )]);
    let notification = obj(vec![(
        "rateLimits",
        obj(vec![
            ("limitId", s("codex")),
            ("primary", obj(vec![("usedPercent", n(31))])),
            ("secondary", null()),
            ("credits", null()),
        ]),
    )]);
    merge_rate_limits_notification(&mut limits, &notification).expect("first merge");
    let once = json_string(&limits);
    merge_rate_limits_notification(&mut limits, &notification).expect("second merge");
    assert_eq!(json_string(&limits), once);
    assert_eq!(
        once,
        r#"{"result":{"rateLimits":{"limitId":"codex","planType":"plus","primary":{"usedPercent":31},"secondary":null},"rateLimitsByLimitId":{"codex":{"limitId":"codex","primary":{"usedPercent":31},"secondary":null}}}}"#
    );
}

fn parsed(text: &str) -> JsonValue {
    match codex_tray::wire::read_line_event(Some(Ok(text.to_string()))) {
        codex_tray::wire::LineRead::Parsed(v) => v,
        _ => panic!("not a document"),
    }
}
