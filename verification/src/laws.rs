use vstd::prelude::*;

use crate::codec::parsed_frame;
use crate::connection::Incoming;
use crate::handlers::{
    dispatch_post, path_param_of, request_id_of, resp_result_is_str, write_params_of, Step,
};
use crate::json::JsonValue;
use crate::protocol::{
    is_error_response, is_result_response, JsonRpcRequest, JsonRpcResponse,
    DIRECTORY_ERROR_CODE, FILE_NOT_FOUND_CODE, INVALID_PARAMS_CODE, METHOD_NOT_FOUND_CODE,
    PARSE_ERROR_CODE,
};
use crate::session::{
    frame_request, next_store, request_semantics, session_post, text_count,
};

verus! {

/// Round-trip law: a writeFile of `content` at `path` is answered with result
/// true, and a readFile of the same path, answered against the store the
/// write left behind, carries exactly `content` as its result.
pub proof fn lemma_write_read_round_trip(
    store: Map<Seq<char>, Seq<char>>,
    wt: Seq<char>,
    rt: Seq<char>,
    path: Seq<char>,
    content: Seq<char>,
    wreq: JsonRpcRequest,
    rreq: JsonRpcRequest,
    wr: JsonRpcResponse,
    rr: JsonRpcResponse,
)
    requires
        frame_request(wt) == Some(wreq),
        wreq.method@ == "writeFile"@,
        write_params_of(wreq.params) == Some((path, content)),
        frame_request(rt) == Some(rreq),
        rreq.method@ == "readFile"@,
        path_param_of(rreq.params) == Some(path),
        request_semantics(store, wt, wr),
        request_semantics(next_store(store, wt), rt, rr),
    ensures
        is_result_response(wr, request_id_of(wreq), JsonValue::Bool(true)),
        resp_result_is_str(rr, request_id_of(rreq), content),
{
    crate::handlers::lemma_method_names_distinct();
    assert(next_store(store, wt) == store.insert(path, content));
    assert(next_store(store, wt).contains_key(path));
    assert(next_store(store, wt)[path] == content);
}

/// Any request whose method name is not registered is answered with the fixed
/// method-not-found error, whatever its parameters hold.
pub proof fn lemma_unknown_method(req: JsonRpcRequest, s: Step)
    requires
        dispatch_post(req, s),
        req.method@ != "readFile"@,
        req.method@ != "writeFile"@,
        req.method@ != "listFiles"@,
    ensures
        s matches Step::Done(r) && is_error_response(
            r,
            request_id_of(req),
            METHOD_NOT_FOUND_CODE as int,
            "Method not Found"@,
        ),
{
}

/// A readFile whose parameters lack a string `path` is answered with the
/// invalid-params code; a readFile of a path the store does not hold is
/// answered with the file-not-found code.
pub proof fn lemma_read_file_errors(
    store: Map<Seq<char>, Seq<char>>,
    t: Seq<char>,
    req: JsonRpcRequest,
    r: JsonRpcResponse,
)
    requires
        frame_request(t) == Some(req),
        req.method@ == "readFile"@,
        request_semantics(store, t, r),
    ensures
        path_param_of(req.params) is None ==> is_error_response(
            r,
            request_id_of(req),
            INVALID_PARAMS_CODE as int,
            crate::handlers::invalid_path_diag(req.params),
        ),
        (path_param_of(req.params) matches Some(p) && !store.contains_key(p))
            ==> is_error_response(
            r,
            request_id_of(req),
            FILE_NOT_FOUND_CODE as int,
            "File not found"@,
        ),
{
}

/// A listFiles of a path the store holds as a regular file is answered with
/// the directory-error code, which differs from the file-not-found code.
pub proof fn lemma_list_on_file_distinct_code(
    store: Map<Seq<char>, Seq<char>>,
    t: Seq<char>,
    req: JsonRpcRequest,
    r: JsonRpcResponse,
    p: Seq<char>,
)
    requires
        frame_request(t) == Some(req),
        req.method@ == "listFiles"@,
        path_param_of(req.params) == Some(p),
        store.contains_key(p),
        request_semantics(store, t, r),
    ensures
        is_error_response(
            r,
            request_id_of(req),
            DIRECTORY_ERROR_CODE as int,
            "Path is not a directory"@,
        ),
        DIRECTORY_ERROR_CODE != FILE_NOT_FOUND_CODE,
{
    crate::handlers::lemma_method_names_distinct();
}

/// A frame that does not parse is answered with the parse-error code under a
/// null id, and it leaves the store — and so the connection's behaviour for
/// every later request — exactly as it was.
pub proof fn lemma_parse_error(
    store: Map<Seq<char>, Seq<char>>,
    t: Seq<char>,
    r: JsonRpcResponse,
)
    requires
        parsed_frame(t) is None,
        request_semantics(store, t, r),
    ensures
        is_error_response(r, JsonValue::Null, PARSE_ERROR_CODE as int, "Parse error"@),
        next_store(store, t) == store,
{
}

/// Ordering law: a session answers exactly one response per text frame, in
/// the order the frames came; non-text frames contribute nothing.
pub proof fn lemma_session_one_response_per_text(
    store: Map<Seq<char>, Seq<char>>,
    frames: Seq<Incoming>,
    outs: Seq<JsonRpcResponse>,
)
    requires
        session_post(store, frames, outs),
    ensures
        outs.len() == text_count(frames),
    decreases frames.len(),
{
    if frames.len() > 0 {
        match frames[0] {
            Incoming::NonText => {
                lemma_session_one_response_per_text(store, frames.skip(1), outs);
            },
            Incoming::Text(t) => {
                lemma_session_one_response_per_text(
                    next_store(store, t@),
                    frames.skip(1),
                    outs.skip(1),
                );
            },
        }
    }
}

} // verus!
