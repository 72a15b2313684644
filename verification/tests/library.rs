use codex_tray::json::{JsonNumber, JsonValue};
use codex_tray::layout::{
    autostart_error_message, centered_text_origin, clamped_corner_radius, command_id,
    executable_path_error_message, menu_action, panel_alpha, panel_placement, point_in_rect,
    resource_name, scale_for_dpi, startup_error_message, track_fill_width, tray_data, tray_event,
    HoverState, MenuAction, Point, Rect, TrayEvent, TRAY_ID,
};
use codex_tray::text::{contains, copy_wide, decimal_text, wide};

#[test]
fn lookups_find_the_first_entry_and_inserts_replace_it() {
    let mut entries = vec![("a".to_string(), JsonValue::Null), ("b".to_string(), JsonValue::Bool(true))];
    codex_tray::json::insert_entry_exec(&mut entries, "a".to_string(), JsonValue::Bool(false));
    codex_tray::json::insert_entry_exec(&mut entries, "c".to_string(), JsonValue::Null);
    assert_eq!(entries.len(), 3);
    assert_eq!(entries[0].0, "a");
    let value = JsonValue::Object(entries);
    assert_eq!(value.get("a").and_then(|v| v.as_bool()), Some(false));
    assert_eq!(value.get("b").and_then(|v| v.as_bool()), Some(true));
    assert!(value.get("c").expect("c").is_null());
    assert!(value.get("d").is_none());
    assert!(JsonValue::Null.get("a").is_none());
    let copy = value.deep_clone();
    assert_eq!(copy.get("b").and_then(|v| v.as_bool()), Some(true));
}

#[test]
fn numbers_read_as_serde_json_reads_them() {
    assert_eq!(JsonValue::Number(JsonNumber::PosInt(5)).as_u64(), Some(5));
    assert_eq!(JsonValue::Number(JsonNumber::NegInt(-5)).as_u64(), None);
    assert_eq!(JsonValue::Number(JsonNumber::NegInt(-5)).as_i64(), Some(-5));
    assert_eq!(JsonValue::Number(JsonNumber::PosInt(u64::MAX)).as_i64(), None);
    assert_eq!(parsed("2.5").as_i64(), None);
    assert_eq!(JsonValue::String("x".to_string()).as_str(), Some("x"));
    assert!(JsonValue::Array(vec![]).as_object().is_none());
}

#[test]
fn decimal_text_matches_display() {
    for n in [0i64, 7, 10, 99, 100, -1, -10, 1_787_903_956, i64::MAX, i64::MIN] {
        assert_eq!(decimal_text(n), n.to_string());
    }
}

#[test]
fn contains_matches_str_contains() {
    assert!(contains("app-server crashed", "server"));
    assert!(contains("abc", ""));
    assert!(!contains("ab", "abc"));
    assert!(contains("не удалось запустить codex: x", "запустить codex"));
    assert!(!contains("Login", "login"));
}

#[test]
fn wide_strings_are_utf16_with_a_terminator() {
    assert_eq!(wide("Ok"), vec![79, 107, 0]);
    assert_eq!(wide("Я😀"), vec![0x042F, 0xD83D, 0xDE00, 0]);
    let expected: Vec<u16> = "Segoe UI".encode_utf16().chain(Some(0)).collect();
    assert_eq!(wide("Segoe UI"), expected);

    let mut buffer = [7u16; 4];
    copy_wide("Segoe UI", &mut buffer);
    assert_eq!(buffer, [83, 101, 103, 0]);
    let mut buffer = [7u16; 4];
    copy_wide("ab", &mut buffer);
    assert_eq!(buffer, [97, 98, 0, 0]);
    let mut empty: [u16; 0] = [];
    copy_wide("ab", &mut empty);
}

#[test]
fn geometry() {
    let rect = Rect { left: 10, top: 20, right: 30, bottom: 40 };
    assert!(point_in_rect(Point { x: 10, y: 20 }, rect));
    assert!(!point_in_rect(Point { x: 30, y: 25 }, rect));
    assert!(!point_in_rect(Point { x: 15, y: 40 }, rect));
    assert_eq!(scale_for_dpi(10, 96), 10);
    assert_eq!(scale_for_dpi(10, 0), 10);
    assert_eq!(scale_for_dpi(10, 144), 15);
    assert_eq!(scale_for_dpi(3, 120), 4);
    assert_eq!(scale_for_dpi(-100, 96), -99);
    let (origin, width, height) = panel_placement(None, 96);
    assert_eq!((origin.x, origin.y, width, height), (1920 - 320 - 16, 1080 - 195 - 16, 320, 195));
    let (origin, _, _) = panel_placement(Some(Rect { left: 0, top: 0, right: 2560, bottom: 1400 }), 192);
    assert_eq!((origin.x, origin.y), (2560 - 640 - 32, 1400 - 390 - 32));
    assert_eq!(centered_text_origin(rect, 10, 4), Point { x: 15, y: 28 });
    assert_eq!(centered_text_origin(rect, 25, 4), Point { x: 8, y: 28 });
    assert_eq!(track_fill_width(Rect { left: 10, top: 0, right: 310, bottom: 20 }, 83), 249);
    assert_eq!(track_fill_width(Rect { left: 10, top: 0, right: 0, bottom: 20 }, 83), -8);
    assert_eq!(track_fill_width(Rect { left: 10, top: 0, right: 10, bottom: 20 }, 100), 0);
    assert_eq!(clamped_corner_radius(rect, 3), 3);
    assert_eq!(clamped_corner_radius(rect, 0), 1);
    assert_eq!(clamped_corner_radius(Rect { left: 0, top: 0, right: 4, bottom: 20 }, 9), 2);
}

#[test]
fn input_decoding_and_messages() {
    assert_eq!(tray_event(0x0200), TrayEvent::Hover);
    assert_eq!(tray_event(0x7_0205), TrayEvent::ContextMenu);
    assert_eq!(tray_event(0x0201), TrayEvent::Other);
    assert_eq!(command_id(0x1_03E9), 1001);
    assert_eq!(menu_action(1001), MenuAction::ToggleAutostart);
    assert_eq!(menu_action(1002), MenuAction::Exit);
    assert_eq!(menu_action(1003), MenuAction::Refresh);
    assert_eq!(menu_action(1004), MenuAction::OpenFolder);
    assert_eq!(menu_action(7), MenuAction::Ignore);
    assert_eq!(tray_data(42).id, TRAY_ID);
    assert_eq!(tray_data(42).window, 42);
    assert_eq!(resource_name(107), 107);
    assert_eq!(autostart_error_message(5), "Не удалось изменить автозапуск Windows (код 5).");
    assert_eq!(executable_path_error_message("x"), "Не удалось определить путь приложения: x");
    assert_eq!(startup_error_message("boom"), "Codex Tray не удалось запустить:\n\nboom");
    assert_eq!(panel_alpha(Some(0)), 255);
    assert_eq!(panel_alpha(Some(1)), 238);
    assert_eq!(panel_alpha(None), 238);
}

#[test]
fn hover_shows_and_hides_the_panel() {
    let mut hover = HoverState::new();
    assert!(!hover.on_tray_hover(false, 0));
    assert!(hover.on_tray_hover(true, 1000));
    assert!(!hover.on_tray_hover(true, 1010));
    assert!(!hover.on_timer(true, 1100));
    assert!(!hover.on_timer(false, 1200));
    assert!(hover.on_timer(false, 1250));
    assert!(!hover.visible);
    hover.on_context_menu();
    assert!(!hover.on_tray_hover(true, 2000));
    assert!(!hover.on_timer(true, 2100));
    assert_eq!(hover.last_tray_hover, None);
    assert!(!hover.on_timer(false, 2200));
    assert!(hover.on_tray_hover(true, 2300));
}

#[test]
fn right_click_suppresses_hover_until_the_pointer_leaves() {
    let mut hover = HoverState::new();
    assert!(hover.on_tray_hover(true, 0));
    hover.on_context_menu();
    for step in 1..50u64 {
        assert!(!hover.on_tray_hover(true, step * 100));
        assert!(!hover.on_timer(true, step * 100 + 50));
        assert!(!hover.visible && hover.suppress_hover_until_leave);
        assert_eq!(hover.last_tray_hover, None);
    }
    assert!(!hover.on_timer(false, 6000));
    assert!(!hover.suppress_hover_until_leave);
    assert!(hover.on_tray_hover(true, 6100));
    assert_eq!(hover.last_tray_hover, Some(6100));
}


fn parsed(text: &str) -> JsonValue {
    match codex_tray::wire::read_line_event(Some(Ok(text.to_string()))) {
        codex_tray::wire::LineRead::Parsed(v) => v,
        _ => panic!("not a document"),
    }
}
