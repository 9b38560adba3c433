use fsrpc::connection::Incoming;
use fsrpc::json::JsonValue;
use fsrpc::connection::{connection_transition, ConnEvent, ConnState};
use fsrpc::session::{run_request, run_session, FileStore};

fn write_req(id: i64, path: &str, content: &str) -> String {
    format!(
        "{{\"jsonrpc\":\"2.0\",\"method\":\"writeFile\",\"params\":{{\"path\":\"{}\",\"content\":\"{}\"}},\"id\":{}}}",
        path, content, id
    )
}

fn read_req(id: i64, path: &str) -> String {
    format!(
        "{{\"jsonrpc\":\"2.0\",\"method\":\"readFile\",\"params\":{{\"path\":\"{}\"}},\"id\":{}}}",
        path, id
    )
}

#[test]
fn write_then_read_round_trips_the_content() {
    let mut store = FileStore::new();
    let w = run_request(&mut store, &write_req(1, "/notes/a.txt", "hello world"));
    assert!(matches!(w.result, Some(JsonValue::Bool(true))));
    assert!(w.error.is_none());

    let r = run_request(&mut store, &read_req(2, "/notes/a.txt"));
    assert!(r.error.is_none());
    assert!(matches!(&r.result, Some(JsonValue::Str(c)) if c == "hello world"));
    assert!(matches!(r.id, JsonValue::Int(2)));
}

#[test]
fn read_before_any_write_is_file_not_found() {
    let mut store = FileStore::new();
    let r = run_request(&mut store, &read_req(1, "/absent"));
    let e = r.error.expect("error object");
    assert_eq!(e.code, -32001);
    assert_eq!(e.message, "File not found");
}

#[test]
fn a_second_write_replaces_the_content() {
    let mut store = FileStore::new();
    run_request(&mut store, &write_req(1, "/f", "first"));
    run_request(&mut store, &write_req(2, "/f", "second"));
    let r = run_request(&mut store, &read_req(3, "/f"));
    assert!(matches!(&r.result, Some(JsonValue::Str(c)) if c == "second"));
}

#[test]
fn invalid_frame_yields_parse_error_and_connection_goes_on() {
    let mut store = FileStore::new();
    let frames = vec![
        Incoming::Text("{\"jsonrpc\": oops".to_string()),
        Incoming::Text(write_req(1, "/x", "y")),
        Incoming::Text(read_req(2, "/x")),
    ];
    let outs = run_session(&mut store, frames);
    assert_eq!(outs.len(), 3);
    let e = outs[0].error.as_ref().expect("error object");
    assert_eq!(e.code, -32700);
    assert_eq!(e.message, "Parse error");
    assert!(matches!(outs[0].id, JsonValue::Null));
    assert!(matches!(outs[1].result, Some(JsonValue::Bool(true))));
    assert!(matches!(&outs[2].result, Some(JsonValue::Str(c)) if c == "y"));
}

#[test]
fn structurally_invalid_request_yields_parse_error() {
    let mut store = FileStore::new();
    // Well-formed value, but no method field: decoding rejects it.
    let r = run_request(&mut store, "{\"jsonrpc\":\"2.0\",\"params\":{}}");
    let e = r.error.expect("error object");
    assert_eq!(e.code, -32700);
    assert!(matches!(r.id, JsonValue::Null));
}

#[test]
fn non_text_frames_are_ignored_without_a_response() {
    let mut store = FileStore::new();
    let frames = vec![
        Incoming::NonText,
        Incoming::Text(write_req(1, "/a", "b")),
        Incoming::NonText,
        Incoming::Text(read_req(2, "/a")),
        Incoming::NonText,
    ];
    let outs = run_session(&mut store, frames);
    assert_eq!(outs.len(), 2);
    assert!(matches!(outs[0].id, JsonValue::Int(1)));
    assert!(matches!(outs[1].id, JsonValue::Int(2)));
}

#[test]
fn sequential_requests_are_answered_in_order() {
    let mut store = FileStore::new();
    let frames = vec![
        Incoming::Text(write_req(10, "/one", "1")),
        Incoming::Text(write_req(11, "/two", "2")),
        Incoming::Text(read_req(12, "/one")),
        Incoming::Text(read_req(13, "/two")),
    ];
    let outs = run_session(&mut store, frames);
    assert_eq!(outs.len(), 4);
    assert!(matches!(outs[0].id, JsonValue::Int(10)));
    assert!(matches!(outs[1].id, JsonValue::Int(11)));
    assert!(matches!(outs[2].id, JsonValue::Int(12)));
    assert!(matches!(outs[3].id, JsonValue::Int(13)));
    assert!(matches!(&outs[2].result, Some(JsonValue::Str(c)) if c == "1"));
    assert!(matches!(&outs[3].result, Some(JsonValue::Str(c)) if c == "2"));
}

#[test]
fn list_files_on_the_flat_store_reports_directory_errors() {
    let mut store = FileStore::new();
    run_request(&mut store, &write_req(1, "/plain", "text"));
    let list = "{\"jsonrpc\":\"2.0\",\"method\":\"listFiles\",\"params\":{\"path\":\"/plain\"},\"id\":5}";
    let r = run_request(&mut store, list);
    let e = r.error.expect("error object");
    assert_eq!(e.code, -32003);
    assert_eq!(e.message, "Path is not a directory");

    let gone = "{\"jsonrpc\":\"2.0\",\"method\":\"listFiles\",\"params\":{\"path\":\"/gone\"},\"id\":6}";
    let r = run_request(&mut store, gone);
    let e = r.error.expect("error object");
    assert_eq!(e.code, -32003);
    assert_eq!(e.message, "Directory does not exist");
}

#[test]
fn notification_without_id_is_answered_with_null_id() {
    let mut store = FileStore::new();
    let r = run_request(
        &mut store,
        "{\"jsonrpc\":\"2.0\",\"method\":\"writeFile\",\"params\":{\"path\":\"/n\",\"content\":\"c\"}}",
    );
    assert!(matches!(r.id, JsonValue::Null));
    assert!(matches!(r.result, Some(JsonValue::Bool(true))));
}

#[test]
fn only_transport_failures_close_the_connection() {
    assert_eq!(connection_transition(ConnState::Open, ConnEvent::ResponseSent), ConnState::Open);
    assert_eq!(connection_transition(ConnState::Open, ConnEvent::FrameIgnored), ConnState::Open);
    assert_eq!(connection_transition(ConnState::Open, ConnEvent::EncodeFailed), ConnState::Open);
    assert_eq!(connection_transition(ConnState::Open, ConnEvent::ReceiveFailed), ConnState::Closed);
    assert_eq!(connection_transition(ConnState::Open, ConnEvent::SendFailed), ConnState::Closed);
    assert_eq!(connection_transition(ConnState::Open, ConnEvent::PeerClosed), ConnState::Closed);
    assert_eq!(connection_transition(ConnState::Closed, ConnEvent::ResponseSent), ConnState::Closed);
}
