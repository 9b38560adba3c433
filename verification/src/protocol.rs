use vstd::prelude::*;

use crate::json::JsonValue;

verus! {

// Protocol-level error codes.
pub const PARSE_ERROR_CODE: i32 = -32700;

pub const INVALID_REQUEST_CODE: i32 = -32600;

pub const METHOD_NOT_FOUND_CODE: i32 = -32601;

pub const INVALID_PARAMS_CODE: i32 = -32602;

pub const INTERNAL_ERROR_CODE: i32 = -32603;

// Application-specific error codes, disjoint from the protocol-level ones.
pub const FILE_NOT_FOUND_CODE: i32 = -32001;

pub const IO_ERROR_CODE: i32 = -32002;

pub const DIRECTORY_ERROR_CODE: i32 = -32003;

/// The error object of a response: a stable integer code and a readable message.
#[derive(Debug, Clone)]
pub struct JsonRpcError {
    pub code: i32,
    pub message: String,
}

/// One decoded request: version tag, method name, untyped parameters and an
/// optional correlation id.
#[derive(Debug)]
pub struct JsonRpcRequest {
    pub jsonrpc: String,
    pub method: String,
    pub params: JsonValue,
    pub id: Option<JsonValue>,
}

/// One response envelope. A well-formed response carries exactly one of
/// `result` and `error`, and echoes the request id (null when none was known).
#[derive(Debug)]
pub struct JsonRpcResponse {
    pub jsonrpc: String,
    pub result: Option<JsonValue>,
    pub error: Option<JsonRpcError>,
    pub id: JsonValue,
}

/// Exactly one of result and error is present, under the fixed version tag.
pub open spec fn resp_wf(r: JsonRpcResponse) -> bool {
    &&& r.jsonrpc@ == "2.0"@
    &&& (r.result is Some <==> r.error is None)
}

/// The response `r` reports the error `code` with message `msg` for request id `id`.
pub open spec fn is_error_response(r: JsonRpcResponse, id: JsonValue, code: int, msg: Seq<char>) -> bool {
    &&& resp_wf(r)
    &&& r.result is None
    &&& r.error matches Some(e) && e.code as int == code && e.message@ == msg
    &&& r.id == id
}

/// The response `r` reports success with result `v` for request id `id`.
pub open spec fn is_result_response(r: JsonRpcResponse, id: JsonValue, v: JsonValue) -> bool {
    &&& resp_wf(r)
    &&& r.result == Some(v)
    &&& r.error is None
    &&& r.id == id
}

/// Builds the error response for `code` and `message`, echoing `id`.
pub fn create_error_response(code: i32, message: &str, id: JsonValue) -> (r: JsonRpcResponse)
    ensures
        is_error_response(r, id, code as int, message@),
{
    JsonRpcResponse {
        jsonrpc: "2.0".to_owned(),
        result: None,
        error: Some(JsonRpcError { code, message: message.to_owned() }),
        id,
    }
}

/// Builds the success response for `value`, echoing `id`.
pub fn create_result_response(value: JsonValue, id: JsonValue) -> (r: JsonRpcResponse)
    ensures
        is_result_response(r, id, value),
{
    JsonRpcResponse { jsonrpc: "2.0".to_owned(), result: Some(value), error: None, id }
}

/// The JSON object an error object renders to: its code and its message.
pub open spec fn error_json_rel(e: JsonRpcError, v: JsonValue) -> bool {
    v matches JsonValue::Obj(fs) && fs@.len() == 2 && fs@[0].0@ == "code"@ && fs@[0].1
        == JsonValue::Int(e.code as i64) && fs@[1].0@ == "message"@ && (fs@[1].1
        matches JsonValue::Str(m) && m@ == e.message@)
}

/// The JSON object a response envelope renders to: the version tag, then the
/// result or the error — whichever the envelope carries — then the id.
pub open spec fn response_json_rel(r: JsonRpcResponse, v: JsonValue) -> bool {
    v matches JsonValue::Obj(fs) && fs@.len() == 3 && fs@[0].0@ == "jsonrpc"@ && (fs@[0].1
        matches JsonValue::Str(t) && t@ == r.jsonrpc@) && fs@[2].0@ == "id"@ && fs@[2].1 == r.id
        && (match (r.result, r.error) {
        (Some(res), _) => fs@[1].0@ == "result"@ && fs@[1].1 == res,
        (None, Some(e)) => fs@[1].0@ == "error"@ && error_json_rel(e, fs@[1].1),
        (None, None) => fs@[1].0@ == "result"@ && fs@[1].1 is Null,
    })
}

/// Renders a response envelope as the JSON object the peer receives.
pub fn response_to_json(r: JsonRpcResponse) -> (v: JsonValue)
    ensures
        response_json_rel(r, v),
{
    let JsonRpcResponse { jsonrpc, result, error, id } = r;
    let mut fields: Vec<(String, JsonValue)> = Vec::new();
    fields.push(("jsonrpc".to_owned(), JsonValue::Str(jsonrpc)));
    match (result, error) {
        (Some(res), _) => fields.push(("result".to_owned(), res)),
        (None, Some(e)) => {
            let mut err_fields: Vec<(String, JsonValue)> = Vec::new();
            err_fields.push(("code".to_owned(), JsonValue::Int(e.code as i64)));
            err_fields.push(("message".to_owned(), JsonValue::Str(e.message)));
            fields.push(("error".to_owned(), JsonValue::Obj(err_fields)));
        },
        (None, None) => fields.push(("result".to_owned(), JsonValue::Null)),
    }
    fields.push(("id".to_owned(), id));
    JsonValue::Obj(fields)
}

/// A handler's typed failure: the closed set of ways one operation can fail.
#[derive(Debug)]
pub enum HandlerError {
    InvalidParams(String),
    FileNotFound,
    DirectoryError(String),
    IoError(String),
}

/// The fixed registry: the code each failure kind maps to.
pub open spec fn error_code_of(e: HandlerError) -> int {
    match e {
        HandlerError::InvalidParams(_) => INVALID_PARAMS_CODE as int,
        HandlerError::FileNotFound => FILE_NOT_FOUND_CODE as int,
        HandlerError::DirectoryError(_) => DIRECTORY_ERROR_CODE as int,
        HandlerError::IoError(_) => IO_ERROR_CODE as int,
    }
}

/// The message each failure kind carries: a fixed string for a missing file,
/// the diagnostic or underlying message otherwise.
pub open spec fn error_message_of(e: HandlerError) -> Seq<char> {
    match e {
        HandlerError::InvalidParams(m) => m@,
        HandlerError::FileNotFound => "File not found"@,
        HandlerError::DirectoryError(m) => m@,
        HandlerError::IoError(m) => m@,
    }
}

impl HandlerError {
    /// Maps this failure to its response envelope for request id `id`.
    pub fn to_jsonrpc_error(&self, id: JsonValue) -> (r: JsonRpcResponse)
        ensures
            is_error_response(r, id, error_code_of(*self), error_message_of(*self)),
    {
        match self {
            HandlerError::InvalidParams(msg) => create_error_response(
                INVALID_PARAMS_CODE,
                msg.as_str(),
                id,
            ),
            HandlerError::FileNotFound => create_error_response(
                FILE_NOT_FOUND_CODE,
                "File not found",
                id,
            ),
            HandlerError::DirectoryError(msg) => create_error_response(
                DIRECTORY_ERROR_CODE,
                msg.as_str(),
                id,
            ),
            HandlerError::IoError(msg) => create_error_response(IO_ERROR_CODE, msg.as_str(), id),
        }
    }
}

} // verus!
