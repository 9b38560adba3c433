use vstd::prelude::*;

use crate::codec::{parse_frame, parsed_frame};
use crate::handlers::{dispatch_post, process_request, Step};
use crate::json::{obj_lookup, JsonValue};
use crate::protocol::{create_error_response, is_error_response, JsonRpcRequest, PARSE_ERROR_CODE};

verus! {

/// One received frame, as the loop sees it: either text, or something the
/// protocol ignores.
#[derive(Debug, Clone)]
pub enum Incoming {
    Text(String),
    NonText,
}

/// The request a structured value denotes: an object whose `jsonrpc` and
/// `method` fields are strings and whose `params` field is present, the
/// optional `id` taken as found. Anything else is not a request.
pub open spec fn request_of(v: JsonValue) -> Option<JsonRpcRequest> {
    match v {
        JsonValue::Obj(fields) => match (
            obj_lookup(fields@, "jsonrpc"@),
            obj_lookup(fields@, "method"@),
            obj_lookup(fields@, "params"@),
        ) {
            (Some(JsonValue::Str(j)), Some(JsonValue::Str(m)), Some(p)) => Some(
                JsonRpcRequest { jsonrpc: j, method: m, params: p, id: obj_lookup(fields@, "id"@) },
            ),
            _ => None,
        },
        _ => None,
    }
}

/// The four request field names differ pairwise.
proof fn lemma_req_names_distinct()
    ensures
        "jsonrpc"@ != "method"@,
        "jsonrpc"@ != "params"@,
        "jsonrpc"@ != "id"@,
        "method"@ != "params"@,
        "method"@ != "id"@,
        "params"@ != "id"@,
{
    reveal_strlit("jsonrpc");
    reveal_strlit("method");
    reveal_strlit("params");
    reveal_strlit("id");
    assert("jsonrpc"@.len() == 7);
    assert("method"@.len() == 6);
    assert("params"@.len() == 6);
    assert("id"@.len() == 2);
    assert("method"@[0] == 'm');
    assert("params"@[0] == 'p');
}

/// Appending a field leaves every earlier first occurrence in place.
proof fn lemma_obj_lookup_push(s: Seq<(String, JsonValue)>, e: (String, JsonValue), n: Seq<char>)
    ensures
        obj_lookup(s.push(e), n) == (match obj_lookup(s, n) {
            Some(v) => Some(v),
            None => if e.0@ == n {
                Some(e.1)
            } else {
                None
            },
        }),
    decreases s.len(),
{
    if s.len() == 0 {
        assert(s.push(e).len() == 1);
        assert(s.push(e)[0] == e);
        assert(s.push(e).skip(1) =~= Seq::<(String, JsonValue)>::empty());
        assert(obj_lookup(s, n) is None);
        if e.0@ == n {
            assert(obj_lookup(s.push(e), n) == Some(e.1));
        } else {
            assert(obj_lookup(s.push(e), n) == obj_lookup(s.push(e).skip(1), n));
            assert(obj_lookup(s.push(e), n) is None);
        }
    } else {
        assert(s.push(e)[0] == s[0]);
        assert(s.push(e).skip(1) =~= s.skip(1).push(e));
        lemma_obj_lookup_push(s.skip(1), e, n);
        if s[0].0@ == n {
            assert(obj_lookup(s.push(e), n) == Some(s[0].1));
            assert(obj_lookup(s, n) == Some(s[0].1));
        } else {
            assert(obj_lookup(s.push(e), n) == obj_lookup(s.skip(1).push(e), n));
            assert(obj_lookup(s, n) == obj_lookup(s.skip(1), n));
        }
    }
}

/// Pulls the four request fields out of an object's field list in one pass,
/// each slot taking the first occurrence of its name.
fn split_request_fields(fields: Vec<(String, JsonValue)>) -> (r: (
    Option<JsonValue>,
    Option<JsonValue>,
    Option<JsonValue>,
    Option<JsonValue>,
))
    ensures
        r.0 == obj_lookup(fields@, "jsonrpc"@),
        r.1 == obj_lookup(fields@, "method"@),
        r.2 == obj_lookup(fields@, "params"@),
        r.3 == obj_lookup(fields@, "id"@),
{
    let ghost s = fields@;
    let mut fields = fields;
    let n = fields.len();
    let mut jsonrpc: Option<JsonValue> = None;
    let mut method: Option<JsonValue> = None;
    let mut params: Option<JsonValue> = None;
    let mut id: Option<JsonValue> = None;
    let mut i: usize = 0;
    proof {
        assert(s.take(0) =~= Seq::<(String, JsonValue)>::empty());
    }
    while fields.len() > 0
        invariant
            s.len() == n,
            i + fields@.len() == s.len(),
            fields@ == s.skip(i as int),
            jsonrpc == obj_lookup(s.take(i as int), "jsonrpc"@),
            method == obj_lookup(s.take(i as int), "method"@),
            params == obj_lookup(s.take(i as int), "params"@),
            id == obj_lookup(s.take(i as int), "id"@),
        decreases fields@.len(),
    {
        let (name, value) = fields.remove(0);
        proof {
            lemma_req_names_distinct();
            assert(s.skip(i as int)[0] == s[i as int]);
            assert(s.skip(i as int).remove(0) =~= s.skip(i + 1));
            assert(s.take(i + 1) =~= s.take(i as int).push(s[i as int]));
            lemma_obj_lookup_push(s.take(i as int), s[i as int], "jsonrpc"@);
            lemma_obj_lookup_push(s.take(i as int), s[i as int], "method"@);
            lemma_obj_lookup_push(s.take(i as int), s[i as int], "params"@);
            lemma_obj_lookup_push(s.take(i as int), s[i as int], "id"@);
        }
        let is_jsonrpc = crate::json::str_eq(name.as_str(), "jsonrpc");
        let is_method = crate::json::str_eq(name.as_str(), "method");
        let is_params = crate::json::str_eq(name.as_str(), "params");
        let is_id = crate::json::str_eq(name.as_str(), "id");
        if jsonrpc.is_none() && is_jsonrpc {
            jsonrpc = Some(value);
        } else if method.is_none() && is_method {
            method = Some(value);
        } else if params.is_none() && is_params {
            params = Some(value);
        } else if id.is_none() && is_id {
            id = Some(value);
        }
        i = i + 1;
    }
    proof {
        assert(s.take(i as int) =~= s);
    }
    (jsonrpc, method, params, id)
}

/// Decodes a structured value into a request, or rejects it.
pub fn decode_request(v: JsonValue) -> (r: Option<JsonRpcRequest>)
    ensures
        r == request_of(v),
{
    match v {
        JsonValue::Obj(fields) => {
            let (jsonrpc, method, params, id) = split_request_fields(fields);
            match (jsonrpc, method, params) {
                (Some(JsonValue::Str(j)), Some(JsonValue::Str(m)), Some(p)) => Some(
                    JsonRpcRequest { jsonrpc: j, method: m, params: p, id },
                ),
                _ => None,
            }
        },
        _ => None,
    }
}

/// What a text frame must be answered with: a parse error with a null id when
/// the text is not a request, otherwise whatever dispatching the request
/// promises.
pub open spec fn text_step_post(t: Seq<char>, s: Step) -> bool {
    match parsed_frame(t) {
        None => s matches Step::Done(r) && is_error_response(
            r,
            JsonValue::Null,
            PARSE_ERROR_CODE as int,
            "Parse error"@,
        ),
        Some(v) => match request_of(v) {
            None => s matches Step::Done(r) && is_error_response(
                r,
                JsonValue::Null,
                PARSE_ERROR_CODE as int,
                "Parse error"@,
            ),
            Some(req) => dispatch_post(req, s),
        },
    }
}

/// Decodes one text frame and dispatches it. Every failure to decode becomes
/// the parse-error response; it never escapes.
pub fn handle_text(t: &str) -> (s: Step)
    ensures
        text_step_post(t@, s),
{
    match parse_frame(t) {
        None => Step::Done(create_error_response(PARSE_ERROR_CODE, "Parse error", JsonValue::Null)),
        Some(v) => match decode_request(v) {
            None => Step::Done(
                create_error_response(PARSE_ERROR_CODE, "Parse error", JsonValue::Null),
            ),
            Some(req) => process_request(req),
        },
    }
}

/// Classifies one frame: a non-text frame is ignored without a response, a
/// text frame is processed.
pub fn frame_step(f: Incoming) -> (r: Option<Step>)
    ensures
        match f {
            Incoming::NonText => r is None,
            Incoming::Text(t) => r matches Some(s) && text_step_post(t@, s),
        },
{
    match f {
        Incoming::NonText => None,
        Incoming::Text(t) => Some(handle_text(t.as_str())),
    }
}

/// A connection is open or closed; there is no separate error state.
#[derive(Debug, Clone, Copy, PartialEq, Eq, Structural)]
pub enum ConnState {
    Open,
    Closed,
}

/// What one turn of the loop observed about the transport and the request.
#[derive(Debug, Clone, Copy, PartialEq, Eq, Structural)]
pub enum ConnEvent {
    ReceiveFailed,
    PeerClosed,
    SendFailed,
    FrameIgnored,
    ResponseSent,
    EncodeFailed,
}

/// The connection lifecycle: only transport failures and the peer's close end
/// the connection; every per-request failure leaves it open.
pub fn connection_transition(s: ConnState, e: ConnEvent) -> (t: ConnState)
    ensures
        t is Closed <==> (s is Closed || e is ReceiveFailed || e is PeerClosed
            || e is SendFailed),
{
    match s {
        ConnState::Closed => ConnState::Closed,
        ConnState::Open => match e {
            ConnEvent::ReceiveFailed => ConnState::Closed,
            ConnEvent::PeerClosed => ConnState::Closed,
            ConnEvent::SendFailed => ConnState::Closed,
            ConnEvent::FrameIgnored => ConnState::Open,
            ConnEvent::ResponseSent => ConnState::Open,
            ConnEvent::EncodeFailed => ConnState::Open,
        },
    }
}

} // verus!
