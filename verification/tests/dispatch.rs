use fsrpc::handlers::{continue_request, process_request, FsAction, FsEvent, Pending, Step};
use fsrpc::json::JsonValue;
use fsrpc::protocol::JsonRpcRequest;

fn obj(fields: Vec<(&str, JsonValue)>) -> JsonValue {
    JsonValue::Obj(fields.into_iter().map(|(k, v)| (k.to_string(), v)).collect())
}

fn req(method: &str, params: JsonValue, id: Option<JsonValue>) -> JsonRpcRequest {
    JsonRpcRequest { jsonrpc: "2.0".to_string(), method: method.to_string(), params, id }
}

#[test]
fn unknown_method_yields_method_not_found_regardless_of_params() {
    let cases = vec![
        JsonValue::Null,
        JsonValue::Int(5),
        obj(vec![("path", JsonValue::Str("/tmp/x".to_string()))]),
        JsonValue::Arr(vec![JsonValue::Bool(false)]),
    ];
    for params in cases {
        match process_request(req("deleteFile", params, Some(JsonValue::Int(9)))) {
            Step::Done(r) => {
                let e = r.error.expect("error object");
                assert_eq!(e.code, -32601);
                assert_eq!(e.message, "Method not Found");
                assert!(r.result.is_none());
                assert!(matches!(r.id, JsonValue::Int(9)));
            }
            Step::Fs(_, _) => panic!("an unknown method must not reach the file system"),
        }
    }
}

#[test]
fn read_file_missing_path_yields_invalid_params() {
    let params = obj(vec![("file", JsonValue::Str("/tmp/x".to_string()))]);
    match process_request(req("readFile", params, Some(JsonValue::Int(1)))) {
        Step::Done(r) => {
            let e = r.error.expect("error object");
            assert_eq!(e.code, -32602);
            assert_eq!(e.message, "Invalid params: missing field path");
        }
        Step::Fs(_, _) => panic!("invalid params must not reach the file system"),
    }
}

#[test]
fn read_file_path_of_wrong_type_yields_invalid_params() {
    let params = obj(vec![("path", JsonValue::Int(3))]);
    match process_request(req("readFile", params, None)) {
        Step::Done(r) => {
            let e = r.error.expect("error object");
            assert_eq!(e.code, -32602);
            assert_eq!(e.message, "Invalid params: field path must be a string");
            assert!(matches!(r.id, JsonValue::Null));
        }
        Step::Fs(_, _) => panic!("invalid params must not reach the file system"),
    }
}

#[test]
fn write_file_missing_content_yields_invalid_params() {
    let params = obj(vec![("path", JsonValue::Str("/tmp/x".to_string()))]);
    match process_request(req("writeFile", params, None)) {
        Step::Done(r) => {
            let e = r.error.expect("error object");
            assert_eq!(e.code, -32602);
            assert_eq!(e.message, "Invalid params: missing field content");
        }
        Step::Fs(_, _) => panic!("invalid params must not reach the file system"),
    }
}

#[test]
fn non_object_params_yield_invalid_params() {
    match process_request(req("listFiles", JsonValue::Int(4), None)) {
        Step::Done(r) => {
            let e = r.error.expect("error object");
            assert_eq!(e.code, -32602);
            assert_eq!(e.message, "Invalid params: expected an object");
        }
        Step::Fs(_, _) => panic!("invalid params must not reach the file system"),
    }
}

#[test]
fn read_file_of_absent_path_yields_file_not_found() {
    let params = obj(vec![("path", JsonValue::Str("/no/such/file".to_string()))]);
    let step = process_request(req("readFile", params, Some(JsonValue::Int(2))));
    let pending = match step {
        Step::Fs(FsAction::Stat { path }, pending) => {
            assert_eq!(path, "/no/such/file");
            pending
        }
        other => panic!("expected a stat action, got {:?}", other),
    };
    match continue_request(pending, FsEvent::Stat { exists: false, is_dir: false }) {
        Step::Done(r) => {
            let e = r.error.expect("error object");
            assert_eq!(e.code, -32001);
            assert_eq!(e.message, "File not found");
            assert!(matches!(r.id, JsonValue::Int(2)));
        }
        other => panic!("expected a response, got {:?}", other),
    }
}

#[test]
fn read_file_hands_back_the_content() {
    let params = obj(vec![("path", JsonValue::Str("/tmp/a.txt".to_string()))]);
    let step = process_request(req("readFile", params, Some(JsonValue::Str("k1".to_string()))));
    let pending = match step {
        Step::Fs(FsAction::Stat { .. }, pending) => pending,
        other => panic!("expected a stat action, got {:?}", other),
    };
    let pending = match continue_request(pending, FsEvent::Stat { exists: true, is_dir: false }) {
        Step::Fs(FsAction::ReadFile { path }, pending) => {
            assert_eq!(path, "/tmp/a.txt");
            pending
        }
        other => panic!("expected a read action, got {:?}", other),
    };
    match continue_request(pending, FsEvent::ReadDone(Ok("hello".to_string()))) {
        Step::Done(r) => {
            assert!(r.error.is_none());
            assert!(matches!(&r.result, Some(JsonValue::Str(c)) if c == "hello"));
            assert!(matches!(&r.id, JsonValue::Str(k) if k == "k1"));
        }
        other => panic!("expected a response, got {:?}", other),
    }
}

#[test]
fn read_failure_yields_io_error() {
    let pending = Pending::ReadContent { id: JsonValue::Int(5) };
    match continue_request(pending, FsEvent::ReadDone(Err("permission denied".to_string()))) {
        Step::Done(r) => {
            let e = r.error.expect("error object");
            assert_eq!(e.code, -32002);
            assert_eq!(e.message, "permission denied");
        }
        other => panic!("expected a response, got {:?}", other),
    }
}

#[test]
fn list_files_on_regular_file_yields_directory_error() {
    let params = obj(vec![("path", JsonValue::Str("/tmp/a.txt".to_string()))]);
    let step = process_request(req("listFiles", params, Some(JsonValue::Int(3))));
    let pending = match step {
        Step::Fs(FsAction::Stat { .. }, pending) => pending,
        other => panic!("expected a stat action, got {:?}", other),
    };
    match continue_request(pending, FsEvent::Stat { exists: true, is_dir: false }) {
        Step::Done(r) => {
            let e = r.error.expect("error object");
            assert_eq!(e.code, -32003);
            assert_ne!(e.code, -32001);
            assert_eq!(e.message, "Path is not a directory");
        }
        other => panic!("expected a response, got {:?}", other),
    }
}

#[test]
fn list_files_on_absent_path_yields_directory_error() {
    let params = obj(vec![("path", JsonValue::Str("/gone".to_string()))]);
    let step = process_request(req("listFiles", params, None));
    let pending = match step {
        Step::Fs(FsAction::Stat { .. }, pending) => pending,
        other => panic!("expected a stat action, got {:?}", other),
    };
    match continue_request(pending, FsEvent::Stat { exists: false, is_dir: false }) {
        Step::Done(r) => {
            let e = r.error.expect("error object");
            assert_eq!(e.code, -32003);
            assert_eq!(e.message, "Directory does not exist");
        }
        other => panic!("expected a response, got {:?}", other),
    }
}

#[test]
fn write_file_stores_and_acknowledges() {
    let params = obj(vec![
        ("path", JsonValue::Str("/tmp/out".to_string())),
        ("content", JsonValue::Str("data".to_string())),
    ]);
    let step = process_request(req("writeFile", params, Some(JsonValue::Int(8))));
    let pending = match step {
        Step::Fs(FsAction::WriteFile { path, content }, pending) => {
            assert_eq!(path, "/tmp/out");
            assert_eq!(content, "data");
            pending
        }
        other => panic!("expected a write action, got {:?}", other),
    };
    match continue_request(pending, FsEvent::WriteDone(Ok(true))) {
        Step::Done(r) => {
            assert!(matches!(r.result, Some(JsonValue::Bool(true))));
            assert!(r.error.is_none());
            assert!(matches!(r.id, JsonValue::Int(8)));
        }
        other => panic!("expected a response, got {:?}", other),
    }
}
