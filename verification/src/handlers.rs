use vstd::prelude::*;

use crate::json::{obj_lookup, get_field, str_eq, JsonValue};
use crate::listing::{entries_to_json, entry_json_rel, sort_entries_spec, RawEntry};
use crate::protocol::{
    create_error_response, create_result_response, is_error_response, is_result_response,
    HandlerError, JsonRpcRequest, JsonRpcResponse, FILE_NOT_FOUND_CODE, METHOD_NOT_FOUND_CODE,
};

verus! {

/// One file-system primitive that a request needs next. The caller performs
/// it and reports the outcome as an `FsEvent`.
#[derive(Debug, Clone)]
pub enum FsAction {
    Stat { path: String },
    ReadFile { path: String },
    WriteFile { path: String, content: String },
    ListDir { path: String },
}

/// The outcome of one file-system primitive. An `Err` carries the underlying
/// I/O message.
#[derive(Debug)]
pub enum FsEvent {
    Stat { exists: bool, is_dir: bool },
    ReadDone(Result<String, String>),
    WriteDone(Result<bool, String>),
    ListDone(Result<Vec<RawEntry>, String>),
}

/// Where a request stands while it waits for a file-system outcome. The
/// correlation id travels with it.
#[derive(Debug)]
pub enum Pending {
    ReadStat { path: String, id: JsonValue },
    ReadContent { id: JsonValue },
    WriteAck { id: JsonValue },
    ListStat { path: String, id: JsonValue },
    ListEntries { id: JsonValue },
}

/// What the dispatcher asks of its caller next: either the response is ready,
/// or a file-system action must be performed and its event fed back in.
#[derive(Debug)]
pub enum Step {
    Done(JsonRpcResponse),
    Fs(FsAction, Pending),
}

/// The event kinds a pending request can accept.
pub open spec fn pending_accepts(p: Pending, ev: FsEvent) -> bool {
    match p {
        Pending::ReadStat { .. } => ev is Stat,
        Pending::ReadContent { .. } => ev is ReadDone,
        Pending::WriteAck { .. } => ev is WriteDone,
        Pending::ListStat { .. } => ev is Stat,
        Pending::ListEntries { .. } => ev is ListDone,
    }
}

/// The `path` field of a parameter object, when the parameters have the
/// expected shape for the single-path operations.
pub open spec fn path_param_of(params: JsonValue) -> Option<Seq<char>> {
    match params {
        JsonValue::Obj(fields) => match obj_lookup(fields@, "path"@) {
            Some(JsonValue::Str(s)) => Some(s@),
            _ => None,
        },
        _ => None,
    }
}

/// The `path` and `content` fields of a parameter object, when the parameters
/// have the expected shape for `writeFile`.
pub open spec fn write_params_of(params: JsonValue) -> Option<(Seq<char>, Seq<char>)> {
    match params {
        JsonValue::Obj(fields) => match (
            obj_lookup(fields@, "path"@),
            obj_lookup(fields@, "content"@),
        ) {
            (Some(JsonValue::Str(p)), Some(JsonValue::Str(c))) => Some((p@, c@)),
            _ => None,
        },
        _ => None,
    }
}

/// The diagnostic a parameter object earns for the field `name`: not an
/// object at all, the field absent, or the field not a string.
pub open spec fn field_diag(
    params: JsonValue,
    name: Seq<char>,
    missing: Seq<char>,
    wrong: Seq<char>,
) -> Seq<char> {
    match params {
        JsonValue::Obj(fields) => match obj_lookup(fields@, name) {
            Some(_) => wrong,
            None => missing,
        },
        _ => "Invalid params: expected an object"@,
    }
}

/// Reads one mandatory string field out of a parameter object.
fn get_string_param(params: &JsonValue, name: &str, diag_missing: &str, diag_type: &str) -> (r:
    Result<String, HandlerError>)
    ensures
        match r {
            Ok(s) => params matches JsonValue::Obj(fields) && obj_lookup(fields@, name@)
                matches Some(v) && v matches JsonValue::Str(t) && s@ == t@,
            Err(e) => {
                &&& e matches HandlerError::InvalidParams(m) && m@ == field_diag(
                    *params,
                    name@,
                    diag_missing@,
                    diag_type@,
                )
                &&& match *params {
                    JsonValue::Obj(fields) => !(obj_lookup(fields@, name@) matches Some(
                        JsonValue::Str(_),
                    )),
                    _ => true,
                }
            },
        },
{
    match params {
        JsonValue::Obj(fields) => match get_field(fields, name) {
            Some(v) => match v {
                JsonValue::Str(s) => Ok(s.clone()),
                _ => Err(HandlerError::InvalidParams(diag_type.to_owned())),
            },
            None => Err(HandlerError::InvalidParams(diag_missing.to_owned())),
        },
        _ => Err(HandlerError::InvalidParams("Invalid params: expected an object".to_owned())),
    }
}

/// Validates the parameters of `readFile` and `listFiles`: an object with a
/// string field `path`.
pub fn validate_path_params(params: &JsonValue) -> (r: Result<String, HandlerError>)
    ensures
        match r {
            Ok(p) => path_param_of(*params) == Some(p@),
            Err(e) => {
                &&& path_param_of(*params) is None
                &&& e matches HandlerError::InvalidParams(m) && m@ == invalid_path_diag(*params)
            },
        },
{
    get_string_param(
        params,
        "path",
        "Invalid params: missing field path",
        "Invalid params: field path must be a string",
    )
}

/// Validates the parameters of `writeFile`: an object with string fields
/// `path` and `content`.
pub fn validate_write_params(params: &JsonValue) -> (r: Result<(String, String), HandlerError>)
    ensures
        match r {
            Ok(pc) => write_params_of(*params) == Some((pc.0@, pc.1@)),
            Err(e) => {
                &&& write_params_of(*params) is None
                &&& e matches HandlerError::InvalidParams(m) && m@ == invalid_write_diag(*params)
            },
        },
{
    let path = get_string_param(
        params,
        "path",
        "Invalid params: missing field path",
        "Invalid params: field path must be a string",
    )?;
    let content = get_string_param(
        params,
        "content",
        "Invalid params: missing field content",
        "Invalid params: field content must be a string",
    )?;
    Ok((path, content))
}

/// The correlation id a response to `req` must echo: the request's own id, or
/// null when it sent none.
pub open spec fn request_id_of(req: JsonRpcRequest) -> JsonValue {
    match req.id {
        Some(v) => v,
        None => JsonValue::Null,
    }
}

/// What `process_request` promises: the method name alone picks the handler;
/// an unknown name is answered with the fixed method-not-found error; a known
/// one validates its parameters and either reports invalid parameters or asks
/// for its first file-system action, the id travelling along.
pub open spec fn dispatch_post(req: JsonRpcRequest, s: Step) -> bool {
    let id = request_id_of(req);
    if req.method@ == "readFile"@ {
        match path_param_of(req.params) {
            Some(p) => {
                &&& s matches Step::Fs(a, pd)
                &&& a matches FsAction::Stat { path } && path@ == p
                &&& pd matches Pending::ReadStat { path: p2, id: i2 } && p2@ == p && i2 == id
            },
            None => s matches Step::Done(r) && is_error_response(
                r,
                id,
                crate::protocol::INVALID_PARAMS_CODE as int,
                invalid_path_diag(req.params),
            ),
        }
    } else if req.method@ == "writeFile"@ {
        match write_params_of(req.params) {
            Some(pc) => {
                &&& s matches Step::Fs(a, pd)
                &&& a matches FsAction::WriteFile { path, content } && path@ == pc.0 && content@
                    == pc.1
                &&& pd matches Pending::WriteAck { id: i2 } && i2 == id
            },
            None => s matches Step::Done(r) && is_error_response(
                r,
                id,
                crate::protocol::INVALID_PARAMS_CODE as int,
                invalid_write_diag(req.params),
            ),
        }
    } else if req.method@ == "listFiles"@ {
        match path_param_of(req.params) {
            Some(p) => {
                &&& s matches Step::Fs(a, pd)
                &&& a matches FsAction::Stat { path } && path@ == p
                &&& pd matches Pending::ListStat { path: p2, id: i2 } && p2@ == p && i2 == id
            },
            None => s matches Step::Done(r) && is_error_response(
                r,
                id,
                crate::protocol::INVALID_PARAMS_CODE as int,
                invalid_path_diag(req.params),
            ),
        }
    } else {
        s matches Step::Done(r) && is_error_response(
            r,
            id,
            METHOD_NOT_FOUND_CODE as int,
            "Method not Found"@,
        )
    }
}

/// The diagnostic malformed single-path parameters earn.
pub open spec fn invalid_path_diag(params: JsonValue) -> Seq<char> {
    field_diag(
        params,
        "path"@,
        "Invalid params: missing field path"@,
        "Invalid params: field path must be a string"@,
    )
}

/// The diagnostic malformed `writeFile` parameters earn: the path is checked
/// first, the content after it.
pub open spec fn invalid_write_diag(params: JsonValue) -> Seq<char> {
    match params {
        JsonValue::Obj(fields) => match obj_lookup(fields@, "path"@) {
            Some(JsonValue::Str(_)) => field_diag(
                params,
                "content"@,
                "Invalid params: missing field content"@,
                "Invalid params: field content must be a string"@,
            ),
            _ => invalid_path_diag(params),
        },
        _ => "Invalid params: expected an object"@,
    }
}

/// The three registered method names differ pairwise.
pub proof fn lemma_method_names_distinct()
    ensures
        "readFile"@ != "writeFile"@,
        "readFile"@ != "listFiles"@,
        "writeFile"@ != "listFiles"@,
{
    reveal_strlit("readFile");
    reveal_strlit("writeFile");
    reveal_strlit("listFiles");
    assert("readFile"@.len() == 8);
    assert("writeFile"@.len() == 9);
    assert("listFiles"@.len() == 9);
    assert("writeFile"@[0] == 'w');
    assert("listFiles"@[0] == 'l');
}

/// Routes a request to its operation by method name. The returned step either
/// carries the finished response or the first file-system action the
/// operation needs.
pub fn process_request(request: JsonRpcRequest) -> (s: Step)
    ensures
        dispatch_post(request, s),
{
    let JsonRpcRequest { jsonrpc: _, method, params, id } = request;
    let id = match id {
        Some(v) => v,
        None => JsonValue::Null,
    };
    if str_eq(method.as_str(), "readFile") {
        match validate_path_params(&params) {
            Ok(path) => Step::Fs(
                FsAction::Stat { path: path.clone() },
                Pending::ReadStat { path, id },
            ),
            Err(e) => Step::Done(e.to_jsonrpc_error(id)),
        }
    } else if str_eq(method.as_str(), "writeFile") {
        match validate_write_params(&params) {
            Ok((path, content)) => Step::Fs(
                FsAction::WriteFile { path, content },
                Pending::WriteAck { id },
            ),
            Err(e) => Step::Done(e.to_jsonrpc_error(id)),
        }
    } else if str_eq(method.as_str(), "listFiles") {
        match validate_path_params(&params) {
            Ok(path) => Step::Fs(
                FsAction::Stat { path: path.clone() },
                Pending::ListStat { path, id },
            ),
            Err(e) => Step::Done(e.to_jsonrpc_error(id)),
        }
    } else {
        Step::Done(create_error_response(METHOD_NOT_FOUND_CODE, "Method not Found", id))
    }
}

/// What `continue_request` promises for each pending state and event: the
/// stat outcome decides between the typed failure and the next action, and a
/// final outcome becomes exactly one response.
pub open spec fn continue_post(p: Pending, ev: FsEvent, s: Step) -> bool {
    match (p, ev) {
        (Pending::ReadStat { path, id }, FsEvent::Stat { exists, is_dir }) => if !exists {
            s matches Step::Done(r) && is_error_response(
                r,
                id,
                FILE_NOT_FOUND_CODE as int,
                "File not found"@,
            )
        } else {
            &&& s matches Step::Fs(a, pd)
            &&& a matches FsAction::ReadFile { path: p2 } && p2@ == path@
            &&& pd matches Pending::ReadContent { id: i2 } && i2 == id
        },
        (Pending::ReadContent { id }, FsEvent::ReadDone(res)) => match res {
            Ok(content) => s matches Step::Done(r) && resp_result_is_str(r, id, content@),
            Err(m) => s matches Step::Done(r) && is_error_response(
                r,
                id,
                crate::protocol::IO_ERROR_CODE as int,
                m@,
            ),
        },
        (Pending::WriteAck { id }, FsEvent::WriteDone(res)) => match res {
            Ok(_) => s matches Step::Done(r) && is_result_response(r, id, JsonValue::Bool(true)),
            Err(m) => s matches Step::Done(r) && is_error_response(
                r,
                id,
                crate::protocol::IO_ERROR_CODE as int,
                m@,
            ),
        },
        (Pending::ListStat { path, id }, FsEvent::Stat { exists, is_dir }) => if !exists {
            s matches Step::Done(r) && is_error_response(
                r,
                id,
                crate::protocol::DIRECTORY_ERROR_CODE as int,
                "Directory does not exist"@,
            )
        } else if !is_dir {
            s matches Step::Done(r) && is_error_response(
                r,
                id,
                crate::protocol::DIRECTORY_ERROR_CODE as int,
                "Path is not a directory"@,
            )
        } else {
            &&& s matches Step::Fs(a, pd)
            &&& a matches FsAction::ListDir { path: p2 } && p2@ == path@
            &&& pd matches Pending::ListEntries { id: i2 } && i2 == id
        },
        (Pending::ListEntries { id }, FsEvent::ListDone(res)) => match res {
            Ok(entries) => s matches Step::Done(r) && resp_result_is_listing(r, id, entries@),
            Err(m) => s matches Step::Done(r) && is_error_response(
                r,
                id,
                crate::protocol::IO_ERROR_CODE as int,
                m@,
            ),
        },
        _ => true,
    }
}

/// The response's result is the string `content`.
pub open spec fn resp_result_is_str(r: JsonRpcResponse, id: JsonValue, content: Seq<char>) -> bool {
    &&& crate::protocol::resp_wf(r)
    &&& r.error is None
    &&& r.id == id
    &&& r.result matches Some(v) && v matches JsonValue::Str(s) && s@ == content
}

/// The response's result is the listing of `entries`: directories first, then
/// files, each group ordered by name, one object per entry.
pub open spec fn resp_result_is_listing(
    r: JsonRpcResponse,
    id: JsonValue,
    entries: Seq<RawEntry>,
) -> bool {
    &&& crate::protocol::resp_wf(r)
    &&& r.error is None
    &&& r.id == id
    &&& r.result matches Some(v) && v matches JsonValue::Arr(items) && {
        let sorted = sort_entries_spec(entries);
        &&& items@.len() == sorted.len()
        &&& forall|i: int| 0 <= i < sorted.len() ==> entry_json_rel(sorted[i], #[trigger] items@[i])
    }
}

/// Feeds the outcome of a file-system action back into a pending request and
/// produces either the finished response or the next action.
pub fn continue_request(p: Pending, ev: FsEvent) -> (s: Step)
    requires
        pending_accepts(p, ev),
    ensures
        continue_post(p, ev, s),
{
    match (p, ev) {
        (Pending::ReadStat { path, id }, FsEvent::Stat { exists, is_dir: _ }) => if !exists {
            Step::Done(HandlerError::FileNotFound.to_jsonrpc_error(id))
        } else {
            Step::Fs(FsAction::ReadFile { path }, Pending::ReadContent { id })
        },
        (Pending::ReadContent { id }, FsEvent::ReadDone(res)) => match res {
            Ok(content) => Step::Done(create_result_response(JsonValue::Str(content), id)),
            Err(m) => Step::Done(HandlerError::IoError(m).to_jsonrpc_error(id)),
        },
        (Pending::WriteAck { id }, FsEvent::WriteDone(res)) => match res {
            Ok(_) => Step::Done(create_result_response(JsonValue::Bool(true), id)),
            Err(m) => Step::Done(HandlerError::IoError(m).to_jsonrpc_error(id)),
        },
        (Pending::ListStat { path, id }, FsEvent::Stat { exists, is_dir }) => if !exists {
            Step::Done(
                HandlerError::DirectoryError("Directory does not exist".to_owned())
                    .to_jsonrpc_error(id),
            )
        } else if !is_dir {
            Step::Done(
                HandlerError::DirectoryError("Path is not a directory".to_owned())
                    .to_jsonrpc_error(id),
            )
        } else {
            Step::Fs(FsAction::ListDir { path }, Pending::ListEntries { id })
        },
        (Pending::ListEntries { id }, FsEvent::ListDone(res)) => match res {
            Ok(entries) => Step::Done(
                create_result_response(JsonValue::Arr(entries_to_json(entries)), id),
            ),
            Err(m) => Step::Done(HandlerError::IoError(m).to_jsonrpc_error(id)),
        },
        _ => Step::Done(create_error_response(crate::protocol::INTERNAL_ERROR_CODE, "", JsonValue::Null)),
    }
}

} // verus!
