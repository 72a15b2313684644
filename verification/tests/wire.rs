use codex_tray::json::{JsonNumber, JsonValue};
use codex_tray::session::initialize_request;
use codex_tray::wire::{json_string, read_line_event, LineRead};

#[test]
fn requests_are_written_as_compact_json() {
    assert_eq!(
        json_string(&initialize_request("1.2.3")),
        r#"{"id":1,"method":"initialize","params":{"capabilities":{},"clientInfo":{"name":"codex-tray","version":"1.2.3"}}}"#
    );
    assert_eq!(json_string(&JsonValue::Array(vec![JsonValue::Null, JsonValue::Bool(true)])), "[null,true]");
    assert_eq!(json_string(&JsonValue::String("a\"b".to_string())), r#""a\"b""#);
}

#[test]
fn lines_are_parsed_into_documents() {
    match read_line_event(Some(Ok(r#"{"id":3,"result":{"x":-4,"y":1.5,"z":[1,null]}}"#.to_string()))) {
        LineRead::Parsed(v) => {
            assert_eq!(v.get("id").and_then(|id| id.as_i64()), Some(3));
            let result = v.get("result").expect("result");
            assert!(matches!(result.get("x"), Some(JsonValue::Number(JsonNumber::NegInt(-4)))));
            assert!(matches!(result.get("y"), Some(JsonValue::Number(JsonNumber::Float(t))) if t.as_str() == "1.5"));
            assert_eq!(json_string(&v), r#"{"id":3,"result":{"x":-4,"y":1.5,"z":[1,null]}}"#);
        }
        _ => panic!("expected a document"),
    }
}

#[test]
fn malformed_lines_failed_reads_and_the_end_are_told_apart() {
    match read_line_event(Some(Ok("not json".to_string()))) {
        LineRead::Malformed(text) => assert!(text.contains("line 1")),
        _ => panic!("expected a malformed line"),
    }
    match read_line_event(Some(Err("pipe closed".to_string()))) {
        LineRead::Failed(text) => assert_eq!(text, "pipe closed"),
        _ => panic!("expected a failed read"),
    }
    assert!(matches!(read_line_event(None), LineRead::End));
}

#[test]
fn a_repeated_key_keeps_its_last_value() {
    match read_line_event(Some(Ok(r#"{"a":1,"b":true,"a":2}"#.to_string()))) {
        LineRead::Parsed(v) => assert_eq!(json_string(&v), r#"{"a":2,"b":true}"#),
        _ => panic!("expected a document"),
    }
}
