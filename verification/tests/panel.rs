use codex_tray::clock::format_datetime;
use codex_tray::layout::quote_executable;
use codex_tray::limits::UsageSnapshot;
use codex_tray::panel::{
    classify_error, classify_lowercase, contrast_color, credits_text, format_window, loading_rows,
    remaining_color, rgb, snapshot_rows, snapshot_rows_with, status_color, status_icon_resource,
    status_title, system_palette, tray_resource_for_state, ui_status, accent_color, AppState, ColorRef,
    UiStatus,
};
use codex_tray::session::WorkerUpdate;

fn snapshot(used: u32) -> UsageSnapshot {
    UsageSnapshot {
        used_percent: used,
        window_duration_mins: Some(300),
        resets_at: None,
        plan_type: Some("pro".to_string()),
        credit_balance: Some("12.5".to_string()),
        has_credits: true,
        unlimited_credits: false,
        reset_credits: 0,
        limit_reached_type: None,
        updated_at: 0,
    }
}

#[test]
fn formats_common_windows() {
    assert_eq!(format_window(Some(300)), "5 ч");
    assert_eq!(format_window(Some(10_080)), "1 нед.");
}

#[test]
fn chooses_nearest_remaining_quota_icon() {
    assert_eq!(status_icon_resource(0), 100);
    assert_eq!(status_icon_resource(3), 101);
    assert_eq!(status_icon_resource(24), 102);
    assert_eq!(status_icon_resource(97), 105);
    assert_eq!(status_icon_resource(100), 106);
}

#[test]
fn classifies_account_and_subscription_failures() {
    assert_eq!(
        classify_error("Unauthorized: login required"),
        UiStatus::AccountRequired
    );
    assert_eq!(
        classify_error("Subscription payment required"),
        UiStatus::SubscriptionRequired
    );
    assert_eq!(
        classify_error("не удалось запустить codex: файл не найден"),
        UiStatus::CodexMissing
    );
    assert_eq!(classify_error("app-server crashed"), UiStatus::Error);
}

#[test]
fn quotes_autostart_executable_path() {
    assert_eq!(
        quote_executable(r"C:\Portable Apps\Codex Tray\codex-tray.exe"),
        r#""C:\Portable Apps\Codex Tray\codex-tray.exe""#
    );
}

#[test]
fn formats_every_window_unit() {
    assert_eq!(format_window(Some(2_880)), "2 дн.");
    assert_eq!(format_window(Some(45)), "45 мин");
    assert_eq!(format_window(Some(0)), "0 нед.");
    assert_eq!(format_window(Some(-120)), "-2 ч");
    assert_eq!(format_window(Some(-7)), "-7 мин");
    assert_eq!(format_window(Some(i64::MIN)), "-9223372036854775808 мин");
    assert_eq!(format_window(None), "окно неизвестно");
}

#[test]
fn ties_between_icon_levels_go_to_the_lower_level() {
    assert_eq!(status_icon_resource(15), 101);
    assert_eq!(status_icon_resource(60), 103);
    assert_eq!(status_icon_resource(4_000_000_000), 106);
}

#[test]
fn classification_ignores_case() {
    assert_eq!(classify_error("SUBSCRIPTION EXPIRED"), UiStatus::SubscriptionRequired);
    assert_eq!(classify_error("HTTP 401"), UiStatus::AccountRequired);
    assert_eq!(classify_error("Требуется ВХОД"), UiStatus::AccountRequired);
    assert_eq!(classify_error("codex: program not found"), UiStatus::CodexMissing);
    assert_eq!(classify_lowercase("SUBSCRIPTION EXPIRED"), UiStatus::Error);
    assert_eq!(classify_lowercase("403 forbidden"), UiStatus::SubscriptionRequired);
}

#[test]
fn status_follows_error_query_and_snapshot() {
    let error = ("Unauthorized".to_string(), 10);
    assert_eq!(ui_status(None, Some(&error), true), UiStatus::AccountRequired);
    assert_eq!(ui_status(None, None, true), UiStatus::Loading);
    assert_eq!(ui_status(Some(&snapshot(10)), None, true), UiStatus::Refreshing);
    assert_eq!(ui_status(Some(&snapshot(10)), None, false), UiStatus::Ready);
    assert_eq!(ui_status(Some(&snapshot(100)), None, false), UiStatus::Exhausted);
    let mut reached = snapshot(10);
    reached.limit_reached_type = Some("rate_limit_reached".to_string());
    assert_eq!(ui_status(Some(&reached), None, false), UiStatus::Exhausted);
    assert_eq!(ui_status(None, None, false), UiStatus::Loading);
}

#[test]
fn updates_drive_the_panel_state() {
    let mut state = AppState::new();
    assert_eq!(state.status(), UiStatus::Loading);
    assert_eq!(tray_resource_for_state(&state), 107);
    state.apply_update(WorkerUpdate::Snapshot(snapshot(30)));
    assert_eq!(state.status(), UiStatus::Ready);
    assert_eq!(tray_resource_for_state(&state), 104);
    state.apply_update(WorkerUpdate::Error { message: "billing problem".to_string(), at: 5 });
    assert_eq!(state.status(), UiStatus::SubscriptionRequired);
    assert_eq!(tray_resource_for_state(&state), 109);
    state.apply_update(WorkerUpdate::Querying);
    // The recorded error still decides until a snapshot arrives.
    assert_eq!(state.status(), UiStatus::SubscriptionRequired);
    state.apply_update(WorkerUpdate::Snapshot(snapshot(100)));
    assert_eq!(state.status(), UiStatus::Exhausted);
    assert_eq!(tray_resource_for_state(&state), 100);
    state.apply_update(WorkerUpdate::Error { message: "crash".to_string(), at: 6 });
    assert_eq!(tray_resource_for_state(&state), 108);
    state.apply_update(WorkerUpdate::Error { message: "не удалось запустить codex: x".to_string(), at: 7 });
    assert_eq!(tray_resource_for_state(&state), 110);
}

#[test]
fn titles_and_colors() {
    assert_eq!(status_title(UiStatus::Exhausted), "Лимит исчерпан");
    assert_eq!(status_title(UiStatus::SubscriptionRequired), "Нет активного доступа");
    assert_eq!(rgb(1, 2, 3), ColorRef(0x030201));
    assert_eq!(status_color(UiStatus::Ready), ColorRef(52 | (211 << 8) | (153 << 16)));
    assert_eq!(contrast_color(rgb(255, 255, 255)), rgb(18, 18, 18));
    assert_eq!(contrast_color(rgb(0, 0, 0)), rgb(250, 250, 250));
    assert_eq!(contrast_color(rgb(0, 120, 212)), rgb(250, 250, 250));
    assert_eq!(remaining_color(10, None), rgb(255, 91, 110));
    assert_eq!(remaining_color(30, None), rgb(255, 181, 71));
    assert_eq!(remaining_color(31, None), rgb(0, 120, 212));
    assert_eq!(remaining_color(31, Some(rgb(1, 1, 1))), rgb(1, 1, 1));
    assert_eq!(accent_color(0xC40078D4), rgb(0, 120, 212));
    assert_eq!(system_palette(Some(1)).background, rgb(243, 243, 243));
    assert_eq!(system_palette(Some(0)).background, rgb(32, 32, 32));
    assert_eq!(system_palette(None).value, rgb(245, 245, 245));
}

#[test]
fn panel_rows_for_a_snapshot() {
    let rows = snapshot_rows_with(&snapshot(17), UiStatus::Ready, "неизвестно".to_string(), "01.02 03:04".to_string());
    let expected = vec![
        ("Статус", "Готово"),
        ("Осталось", "83%"),
        ("Использовано", "17%"),
        ("Тариф", "pro"),
        ("Окно", "5 ч"),
        ("Сброс", "неизвестно"),
        ("Кредиты", "12.5"),
        ("Обновлено", "01.02 03:04"),
    ];
    let actual: Vec<(&str, &str)> = rows.iter().map(|(k, v)| (*k, v.as_str())).collect();
    assert_eq!(actual, expected);

    let mut unlimited = snapshot(120);
    unlimited.unlimited_credits = true;
    unlimited.plan_type = None;
    let rows = snapshot_rows(&unlimited, UiStatus::Exhausted);
    assert_eq!(rows[1].1, "0%");
    assert_eq!(rows[3].1, "неизвестно");
    assert_eq!(rows[5].1, "неизвестно");
    assert_eq!(rows[6].1, "∞");
    assert_eq!(rows[7].1.chars().count(), 11);
    let mut no_balance = snapshot(0);
    no_balance.credit_balance = None;
    assert_eq!(credits_text(&no_balance), "0");
}

#[test]
fn panel_rows_while_loading() {
    let rows = loading_rows(UiStatus::Loading, None);
    assert_eq!(rows.len(), 8);
    assert_eq!(rows[0], ("Статус", "Загрузка".to_string()));
    assert!(rows[1..].iter().all(|(_, v)| v == "—"));
    let error = ("crash".to_string(), i64::MAX);
    let rows = loading_rows(UiStatus::Error, Some(&error));
    assert_eq!(rows[7].1, "неизвестно");
}

#[test]
fn datetimes_render_as_day_month_time() {
    let text = format_datetime(1_787_903_956);
    let chars: Vec<char> = text.chars().collect();
    assert_eq!(chars.len(), 11);
    assert_eq!(chars[2], '.');
    assert_eq!(chars[5], ' ');
    assert_eq!(chars[8], ':');
    assert_eq!(format_datetime(i64::MAX), "неизвестно");
}

#[test]
fn classification_ignores_ascii_case() {
    for message in ["Unauthorized: login required", "subscription payment required", "HTTP 403", "app-server crashed"] {
        assert_eq!(classify_error(message), classify_error(&message.to_uppercase()));
        assert_eq!(classify_error(message), classify_error(&message.to_lowercase()));
    }
    assert_eq!(classify_error("NOT LOGGED IN"), UiStatus::AccountRequired);
}

#[test]
fn datetimes_outside_chronos_range_are_unknown() {
    assert_ne!(format_datetime(-8_334_601_228_800), "неизвестно");
    assert_eq!(format_datetime(-8_334_601_228_801), "неизвестно");
    assert_ne!(format_datetime(8_210_266_876_799), "неизвестно");
    assert_eq!(format_datetime(8_210_266_876_800), "неизвестно");
    assert_eq!(format_datetime(i64::MIN), "неизвестно");
    let text = format_datetime(0);
    assert_eq!(text.chars().count(), 11);
    assert!(["31.12", "01.01"].contains(&&text[0..5]));
}
