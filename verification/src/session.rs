use vstd::prelude::*;

use crate::codec::parsed_frame;
use crate::connection::{handle_text, request_of, Incoming};
use crate::handlers::{
    continue_request, invalid_path_diag, invalid_write_diag, path_param_of, request_id_of,
    resp_result_is_str, write_params_of, FsAction, FsEvent, Step,
};
use crate::json::JsonValue;
use crate::protocol::{
    is_error_response, is_result_response, JsonRpcRequest, JsonRpcResponse,
    DIRECTORY_ERROR_CODE, FILE_NOT_FOUND_CODE, INTERNAL_ERROR_CODE, INVALID_PARAMS_CODE,
    METHOD_NOT_FOUND_CODE, PARSE_ERROR_CODE,
};

verus! {

/// An in-memory store of file contents by path: the reference model of the
/// file-system capability, used to state and exercise the connection
/// semantics without a real file system. It is flat: every entry is a file,
/// and no path is a directory.
pub struct FileStore {
    files: Vec<(String, String)>,
}

/// The mapping a journal of writes denotes: later writes win.
pub open spec fn store_map(s: Seq<(String, String)>) -> Map<Seq<char>, Seq<char>>
    decreases s.len(),
{
    if s.len() == 0 {
        Map::<Seq<char>, Seq<char>>::empty()
    } else {
        store_map(s.drop_last()).insert(s.last().0@, s.last().1@)
    }
}

/// The content the journal holds for `p`, scanning from the newest write.
pub open spec fn store_get(s: Seq<(String, String)>, p: Seq<char>) -> Option<Seq<char>>
    decreases s.len(),
{
    if s.len() == 0 {
        None
    } else if s.last().0@ == p {
        Some(s.last().1@)
    } else {
        store_get(s.drop_last(), p)
    }
}

/// `store_get` agrees with the mapping the journal denotes.
proof fn lemma_store_get(s: Seq<(String, String)>, p: Seq<char>)
    ensures
        match store_get(s, p) {
            Some(c) => store_map(s).contains_key(p) && store_map(s)[p] == c,
            None => !store_map(s).contains_key(p),
        },
    decreases s.len(),
{
    if s.len() > 0 {
        lemma_store_get(s.drop_last(), p);
    }
}

impl View for FileStore {
    type V = Map<Seq<char>, Seq<char>>;

    closed spec fn view(&self) -> Map<Seq<char>, Seq<char>> {
        store_map(self.files@)
    }
}

impl FileStore {
    /// An empty store.
    pub fn new() -> (r: FileStore)
        ensures
            r@ == Map::<Seq<char>, Seq<char>>::empty(),
    {
        FileStore { files: Vec::new() }
    }

    /// The content stored at `path`, if any.
    pub fn read(&self, path: &str) -> (r: Option<String>)
        ensures
            match r {
                Some(c) => self@.contains_key(path@) && c@ == self@[path@],
                None => !self@.contains_key(path@),
            },
    {
        let mut i: usize = self.files.len();
        proof {
            assert(self.files@.take(i as int) =~= self.files@);
            lemma_store_get(self.files@, path@);
        }
        while i > 0
            invariant
                i <= self.files@.len(),
                store_get(self.files@, path@) == store_get(self.files@.take(i as int), path@),
            decreases i,
        {
            proof {
                lemma_store_get(self.files@, path@);
                assert(self.files@.take(i as int).last() == self.files@[i - 1]);
                assert(self.files@.take(i as int).drop_last() =~= self.files@.take(i - 1));
            }
            if crate::json::str_eq(self.files[i - 1].0.as_str(), path) {
                return Some(self.files[i - 1].1.clone());
            }
            i = i - 1;
        }
        proof {
            lemma_store_get(self.files@, path@);
            assert(self.files@.take(0) =~= Seq::<(String, String)>::empty());
        }
        None
    }

    /// Stores `content` at `path`, replacing what was there.
    pub fn write(&mut self, path: String, content: String)
        ensures
            final(self)@ == old(self)@.insert(path@, content@),
    {
        let ghost s0 = self.files@;
        let ghost p = path@;
        let ghost c = content@;
        self.files.push((path, content));
        proof {
            assert(self.files@.drop_last() =~= s0);
            assert(self.files@.last().0@ == p);
            assert(self.files@.last().1@ == c);
        }
    }
}

/// What event the model store reports for each action: a stat sees a file or
/// nothing (never a directory), a read hands back the stored content, a write
/// always succeeds, and listing fails since no path of the model is a
/// directory.
pub open spec fn event_for(store: Map<Seq<char>, Seq<char>>, a: FsAction, ev: FsEvent) -> bool {
    match a {
        FsAction::Stat { path } => ev matches FsEvent::Stat { exists, is_dir } && exists
            == store.contains_key(path@) && is_dir == false,
        FsAction::ReadFile { path } => ev matches FsEvent::ReadDone(res) && (match res {
            Ok(c) => store.contains_key(path@) && c@ == store[path@],
            Err(_) => !store.contains_key(path@),
        }),
        FsAction::WriteFile { .. } => ev matches FsEvent::WriteDone(res) && res is Ok,
        FsAction::ListDir { .. } => ev matches FsEvent::ListDone(res) && res is Err,
    }
}

/// How each action changes the store: only a write does.
pub open spec fn store_after(store: Map<Seq<char>, Seq<char>>, a: FsAction) -> Map<
    Seq<char>,
    Seq<char>,
> {
    match a {
        FsAction::WriteFile { path, content } => store.insert(path@, content@),
        _ => store,
    }
}

/// Performs one file-system action against the model store.
pub fn fs_perform(store: &mut FileStore, a: FsAction) -> (ev: FsEvent)
    ensures
        final(store)@ == store_after(old(store)@, a),
        event_for(old(store)@, a, ev),
{
    match a {
        FsAction::Stat { path } => {
            let exists = store.read(path.as_str()).is_some();
            FsEvent::Stat { exists, is_dir: false }
        },
        FsAction::ReadFile { path } => match store.read(path.as_str()) {
            Some(c) => FsEvent::ReadDone(Ok(c)),
            None => FsEvent::ReadDone(Err("No such file".to_owned())),
        },
        FsAction::WriteFile { path, content } => {
            store.write(path, content);
            FsEvent::WriteDone(Ok(true))
        },
        FsAction::ListDir { path: _ } => FsEvent::ListDone(Err("Not a directory".to_owned())),
    }
}

/// The request a text frame carries, if it parses and has the request shape.
pub open spec fn frame_request(t: Seq<char>) -> Option<JsonRpcRequest> {
    match parsed_frame(t) {
        Some(v) => request_of(v),
        None => None,
    }
}

/// How one text frame changes the store: only a valid write changes it.
pub open spec fn next_store(store: Map<Seq<char>, Seq<char>>, t: Seq<char>) -> Map<
    Seq<char>,
    Seq<char>,
> {
    match frame_request(t) {
        Some(req) => if req.method@ == "writeFile"@ {
            match write_params_of(req.params) {
                Some(pc) => store.insert(pc.0, pc.1),
                None => store,
            }
        } else {
            store
        },
        None => store,
    }
}

/// The response one text frame earns against a given store: the full
/// request/response semantics of the service over the model file system.
pub open spec fn request_semantics(
    store: Map<Seq<char>, Seq<char>>,
    t: Seq<char>,
    r: JsonRpcResponse,
) -> bool {
    match frame_request(t) {
        None => is_error_response(r, JsonValue::Null, PARSE_ERROR_CODE as int, "Parse error"@),
        Some(req) => {
            let id = request_id_of(req);
            if req.method@ == "readFile"@ {
                match path_param_of(req.params) {
                    Some(p) => if store.contains_key(p) {
                        resp_result_is_str(r, id, store[p])
                    } else {
                        is_error_response(r, id, FILE_NOT_FOUND_CODE as int, "File not found"@)
                    },
                    None => is_error_response(
                        r,
                        id,
                        INVALID_PARAMS_CODE as int,
                        invalid_path_diag(req.params),
                    ),
                }
            } else if req.method@ == "writeFile"@ {
                match write_params_of(req.params) {
                    Some(_) => is_result_response(r, id, JsonValue::Bool(true)),
                    None => is_error_response(
                        r,
                        id,
                        INVALID_PARAMS_CODE as int,
                        invalid_write_diag(req.params),
                    ),
                }
            } else if req.method@ == "listFiles"@ {
                match path_param_of(req.params) {
                    Some(p) => if store.contains_key(p) {
                        is_error_response(
                            r,
                            id,
                            DIRECTORY_ERROR_CODE as int,
                            "Path is not a directory"@,
                        )
                    } else {
                        is_error_response(
                            r,
                            id,
                            DIRECTORY_ERROR_CODE as int,
                            "Directory does not exist"@,
                        )
                    },
                    None => is_error_response(
                        r,
                        id,
                        INVALID_PARAMS_CODE as int,
                        invalid_path_diag(req.params),
                    ),
                }
            } else {
                is_error_response(r, id, METHOD_NOT_FOUND_CODE as int, "Method not Found"@)
            }
        },
    }
}

/// Processes one text frame to completion against the model store: decode,
/// dispatch, perform the file-system actions, and build the response.
pub fn run_request(store: &mut FileStore, text: &str) -> (r: JsonRpcResponse)
    ensures
        request_semantics(old(store)@, text@, r),
        final(store)@ == next_store(old(store)@, text@),
{
    let first = handle_text(text);
    proof {
        crate::handlers::lemma_method_names_distinct();
    }
    match first {
        Step::Done(r) => r,
        Step::Fs(a, p) => {
            let ev = fs_perform(store, a);
            match continue_request(p, ev) {
                Step::Done(r) => r,
                Step::Fs(a2, p2) => {
                    let ev2 = fs_perform(store, a2);
                    match continue_request(p2, ev2) {
                        Step::Done(r) => r,
                        Step::Fs(_, _) => {
                            proof {
                                assert(false);
                            }
                            crate::protocol::create_error_response(
                                INTERNAL_ERROR_CODE,
                                "",
                                JsonValue::Null,
                            )
                        },
                    }
                },
            }
        },
    }
}

/// How many frames of a sequence are text frames.
pub open spec fn text_count(frames: Seq<Incoming>) -> nat
    decreases frames.len(),
{
    if frames.len() == 0 {
        0
    } else {
        (match frames[0] {
            Incoming::Text(_) => 1nat,
            Incoming::NonText => 0nat,
        }) + text_count(frames.skip(1))
    }
}

/// A whole connection's transcript: each text frame is answered, in order,
/// against the store as the frames before it left it; non-text frames are
/// ignored and answer nothing.
pub open spec fn session_post(
    store: Map<Seq<char>, Seq<char>>,
    frames: Seq<Incoming>,
    outs: Seq<JsonRpcResponse>,
) -> bool
    decreases frames.len(),
{
    if frames.len() == 0 {
        outs.len() == 0
    } else {
        match frames[0] {
            Incoming::NonText => session_post(store, frames.skip(1), outs),
            Incoming::Text(t) => outs.len() > 0 && request_semantics(store, t@, outs[0])
                && session_post(next_store(store, t@), frames.skip(1), outs.skip(1)),
        }
    }
}

/// Runs one connection's frames in order against the model store and returns
/// the responses, one per text frame, in the order the frames came.
pub fn run_session(store: &mut FileStore, frames: Vec<Incoming>) -> (outs: Vec<JsonRpcResponse>)
    ensures
        session_post(old(store)@, frames@, outs@),
    decreases frames@.len(),
{
    let ghost fs0 = frames@;
    let mut frames = frames;
    if frames.len() == 0 {
        Vec::new()
    } else {
        let f = frames.remove(0);
        proof {
            assert(fs0.remove(0) =~= fs0.skip(1));
        }
        match f {
            Incoming::NonText => run_session(store, frames),
            Incoming::Text(t) => {
                let r = run_request(store, t.as_str());
                let rest = run_session(store, frames);
                let ghost rest0 = rest@;
                let mut outs = rest;
                outs.insert(0, r);
                proof {
                    assert(outs@[0] == r);
                    assert(outs@.skip(1) =~= rest0);
                }
                outs
            },
        }
    }
}

} // verus!
