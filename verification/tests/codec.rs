use fsrpc::codec::{parse_frame, render_frame};
use fsrpc::connection::{frame_step, handle_text, Incoming};
use fsrpc::handlers::{FsAction, Step};
use fsrpc::json::JsonValue;

#[test]
fn parse_frame_decodes_the_structure() {
    let v = parse_frame("{\"a\":1,\"b\":[true,null,\"x\"],\"c\":-2}").expect("well-formed text");
    match v {
        JsonValue::Obj(fields) => {
            assert_eq!(fields.len(), 3);
            assert_eq!(fields[0].0, "a");
            assert!(matches!(fields[0].1, JsonValue::Int(1)));
            match &fields[1].1 {
                JsonValue::Arr(items) => {
                    assert!(matches!(items[0], JsonValue::Bool(true)));
                    assert!(matches!(items[1], JsonValue::Null));
                    assert!(matches!(&items[2], JsonValue::Str(s) if s == "x"));
                }
                other => panic!("expected an array, got {:?}", other),
            }
            assert!(matches!(fields[2].1, JsonValue::Int(-2)));
        }
        other => panic!("expected an object, got {:?}", other),
    }
}

#[test]
fn parse_frame_rejects_malformed_text() {
    assert!(parse_frame("").is_none());
    assert!(parse_frame("{\"a\":").is_none());
    assert!(parse_frame("not json").is_none());
}

#[test]
fn render_frame_produces_parseable_text() {
    let v = JsonValue::Arr(vec![
        JsonValue::Int(1),
        JsonValue::Str("x".to_string()),
        JsonValue::Bool(false),
        JsonValue::Null,
        JsonValue::UInt(18446744073709551615),
    ]);
    let text = render_frame(&v).expect("rendering a plain value succeeds");
    let back: serde_json::Value = serde_json::from_str(&text).expect("rendered text is well formed");
    assert_eq!(back[0], serde_json::Value::from(1i64));
    assert_eq!(back[1], serde_json::Value::from("x"));
    assert_eq!(back[2], serde_json::Value::from(false));
    assert!(back[3].is_null());
    assert_eq!(back[4], serde_json::Value::from(u64::MAX));
}

#[test]
fn handle_text_runs_the_parsed_request() {
    let step = handle_text(
        "{\"jsonrpc\":\"2.0\",\"method\":\"writeFile\",\"params\":{\"path\":\"/p\",\"content\":\"c\"},\"id\":1}",
    );
    match step {
        Step::Fs(FsAction::WriteFile { path, content }, _) => {
            assert_eq!(path, "/p");
            assert_eq!(content, "c");
        }
        other => panic!("expected a write action, got {:?}", other),
    }
}

#[test]
fn handle_text_turns_parse_failure_into_parse_error() {
    match handle_text("{{{") {
        Step::Done(r) => {
            let e = r.error.expect("error object");
            assert_eq!(e.code, -32700);
            assert!(matches!(r.id, JsonValue::Null));
        }
        other => panic!("expected a response, got {:?}", other),
    }
}

#[test]
fn non_text_frames_produce_no_step() {
    assert!(frame_step(Incoming::NonText).is_none());
    assert!(frame_step(Incoming::Text("null".to_string())).is_some());
}
