use fsrpc::json::JsonValue;
use fsrpc::protocol::{
    create_error_response, create_result_response, response_to_json, HandlerError,
    DIRECTORY_ERROR_CODE, FILE_NOT_FOUND_CODE, INVALID_PARAMS_CODE, IO_ERROR_CODE,
    METHOD_NOT_FOUND_CODE, PARSE_ERROR_CODE,
};

#[test]
fn error_response_carries_code_message_and_id() {
    let r = create_error_response(PARSE_ERROR_CODE, "Parse error", JsonValue::Null);
    assert_eq!(r.jsonrpc, "2.0");
    assert!(r.result.is_none());
    let e = r.error.expect("error object");
    assert_eq!(e.code, -32700);
    assert_eq!(e.message, "Parse error");
    assert!(matches!(r.id, JsonValue::Null));
}

#[test]
fn result_response_carries_value_and_id() {
    let r = create_result_response(JsonValue::Bool(true), JsonValue::Int(7));
    assert_eq!(r.jsonrpc, "2.0");
    assert!(r.error.is_none());
    assert!(matches!(r.result, Some(JsonValue::Bool(true))));
    assert!(matches!(r.id, JsonValue::Int(7)));
}

#[test]
fn error_mapper_uses_the_fixed_registry() {
    let id = JsonValue::Int(1);
    let inv = HandlerError::InvalidParams("bad shape".to_string()).to_jsonrpc_error(id);
    let e = inv.error.unwrap();
    assert_eq!(e.code, INVALID_PARAMS_CODE);
    assert_eq!(e.code, -32602);
    assert_eq!(e.message, "bad shape");

    let nf = HandlerError::FileNotFound.to_jsonrpc_error(JsonValue::Null);
    let e = nf.error.unwrap();
    assert_eq!(e.code, FILE_NOT_FOUND_CODE);
    assert_eq!(e.code, -32001);
    assert_eq!(e.message, "File not found");

    let de = HandlerError::DirectoryError("Path is not a directory".to_string())
        .to_jsonrpc_error(JsonValue::Null);
    let e = de.error.unwrap();
    assert_eq!(e.code, DIRECTORY_ERROR_CODE);
    assert_eq!(e.code, -32003);
    assert_ne!(DIRECTORY_ERROR_CODE, FILE_NOT_FOUND_CODE);

    let io = HandlerError::IoError("permission denied".to_string())
        .to_jsonrpc_error(JsonValue::Null);
    let e = io.error.unwrap();
    assert_eq!(e.code, IO_ERROR_CODE);
    assert_eq!(e.code, -32002);
    assert_eq!(e.message, "permission denied");

    assert_eq!(METHOD_NOT_FOUND_CODE, -32601);
}

#[test]
fn response_json_has_exactly_one_of_result_and_error() {
    let ok = create_result_response(JsonValue::Bool(true), JsonValue::Int(3));
    match response_to_json(ok) {
        JsonValue::Obj(fs) => {
            assert_eq!(fs.len(), 3);
            assert_eq!(fs[0].0, "jsonrpc");
            assert!(matches!(&fs[0].1, JsonValue::Str(t) if t == "2.0"));
            assert_eq!(fs[1].0, "result");
            assert!(matches!(fs[1].1, JsonValue::Bool(true)));
            assert_eq!(fs[2].0, "id");
            assert!(matches!(fs[2].1, JsonValue::Int(3)));
        }
        other => panic!("expected an object, got {:?}", other),
    }

    let err = create_error_response(METHOD_NOT_FOUND_CODE, "Method not Found", JsonValue::Null);
    match response_to_json(err) {
        JsonValue::Obj(fs) => {
            assert_eq!(fs.len(), 3);
            assert_eq!(fs[1].0, "error");
            match &fs[1].1 {
                JsonValue::Obj(efs) => {
                    assert_eq!(efs[0].0, "code");
                    assert!(matches!(efs[0].1, JsonValue::Int(-32601)));
                    assert_eq!(efs[1].0, "message");
                    assert!(matches!(&efs[1].1, JsonValue::Str(m) if m == "Method not Found"));
                }
                other => panic!("expected an error object, got {:?}", other),
            }
        }
        other => panic!("expected an object, got {:?}", other),
    }
}
