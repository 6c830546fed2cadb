//! The dispatcher: what to do with each message that the transport delivers,
//! and how the worker's reply becomes a response.
use vstd::prelude::*;
use vstd::string::StringSliceAdditionalSpecFns;
use crate::address::{Address, AddressView};
use crate::json::{json_member_text, json_quoted, json_str_member, json_string_literal};
use crate::response::{headers_view, Header, OutboundResponse};
use crate::routes::{RouteAction, RouteTable, ROOT_PATH, TEXT_HTML};
use crate::upload::{decode_upload, upload_audio};

verus! {

pub const CONTENT_TYPE: &'static str = "Content-Type";
pub const EMBEDDER_POLICY: &'static str = "Cross-Origin-Embedder-Policy";
pub const REQUIRE_CORP: &'static str = "require-corp";
pub const OPENER_POLICY: &'static str = "Cross-Origin-Opener-Policy";
pub const SAME_ORIGIN: &'static str = "same-origin";

pub const STATUS_OK: u16 = 200;
pub const STATUS_NOT_FOUND: u16 = 404;

/// How long, in seconds, the worker has to reply.
pub const WORKER_TIMEOUT_SECS: u64 = 30;

/// The body that stands for a failed worker call.
pub const ERROR_BODY: &'static str = "error";

/// The envelope members that a request is read from.
pub const PATH_KEY: &'static str = "path";
pub const METHOD_KEY: &'static str = "method";

/// An HTTP request as the front-end delivered it.
#[derive(Debug, Clone)]
pub struct InboundRequest {
    pub source: Address,
    pub path: String,
    pub method: String,
    /// The attached payload, if any.
    pub body: Option<Vec<u8>>,
}

/// What one receive from the transport gave.
#[derive(Debug, Clone)]
pub enum Incoming {
    /// The receive itself failed.
    ReceiveFailed,
    /// A response arrived where only requests are handled.
    Response,
    /// A request: its source, its JSON envelope and its attached payload.
    Request { source: Address, envelope: Vec<u8>, payload: Option<Vec<u8>> },
}

/// How the call to the worker ended.
#[derive(Debug, Clone)]
pub enum ForwardResult {
    /// The worker replied with these bytes.
    Success(Vec<u8>),
    Timeout,
    TransportError,
}

/// What the gateway asks the transport to do.
#[derive(Debug, Clone)]
pub enum Action {
    /// Send nothing.
    Ignore,
    /// Send this response to the request's sender.
    Respond(OutboundResponse),
    /// Call the worker at `target` with `payload`, wait at most
    /// `timeout_secs` for its reply, and hand the outcome to
    /// `Gateway::finish_forward`.
    Forward { target: Address, payload: Vec<u8>, timeout_secs: u64 },
}

/// An action as values.
pub enum ActionView {
    Ignore,
    Respond { status: u16, headers: Seq<(Seq<char>, Seq<char>)>, body: Seq<u8> },
    Forward { target: AddressView, payload: Seq<u8>, timeout_secs: u64 },
}

impl View for Action {
    type V = ActionView;

    open spec fn view(&self) -> ActionView {
        match self {
            Action::Ignore => ActionView::Ignore,
            Action::Respond(r) => ActionView::Respond {
                status: r.status,
                headers: headers_view(r.headers@),
                body: r.body@,
            },
            Action::Forward { target, payload, timeout_secs } => ActionView::Forward {
                target: target@,
                payload: payload@,
                timeout_secs: *timeout_secs,
            },
        }
    }
}

pub open spec fn opt_bytes(b: Option<Vec<u8>>) -> Option<Seq<u8>> {
    match b {
        Some(v) => Some(v@),
        None => None,
    }
}

/// A member of the envelope as text: `None` where the envelope is not JSON,
/// the empty text where the member is missing or not a string.
pub open spec fn envelope_text(envelope: Seq<u8>, key: Seq<char>) -> Option<Seq<char>> {
    match json_member_text(envelope, key) {
        None => None,
        Some(None) => Some(Seq::empty()),
        Some(Some(t)) => Some(t),
    }
}

/// The headers of a plain response.
pub open spec fn default_headers() -> Seq<(Seq<char>, Seq<char>)> {
    seq![(CONTENT_TYPE@, TEXT_HTML@)]
}

/// The headers of an asset at `path`: its content type, and at the root the
/// two headers that enable cross-origin isolation.
pub open spec fn asset_headers(path: Seq<char>, content_type: Seq<char>) -> Seq<(Seq<char>, Seq<char>)> {
    if path == ROOT_PATH@ {
        seq![(CONTENT_TYPE@, content_type), (EMBEDDER_POLICY@, REQUIRE_CORP@), (OPENER_POLICY@, SAME_ORIGIN@)]
    } else {
        seq![(CONTENT_TYPE@, content_type)]
    }
}

/// The response to the worker call's outcome: always a 200, with the
/// worker's bytes or the error body.
pub open spec fn forward_response(result: ForwardResult) -> ActionView {
    ActionView::Respond {
        status: STATUS_OK,
        headers: default_headers(),
        body: match result {
            ForwardResult::Success(b) => b@,
            _ => ERROR_BODY.spec_bytes(),
        },
    }
}

impl InboundRequest {
    /// Reads a request from its JSON envelope: `path` and `method` default to
    /// the empty text where missing or not strings. `None` where the envelope
    /// is not JSON.
    pub fn from_envelope(source: Address, envelope: &[u8], body: Option<Vec<u8>>) -> (r: Option<
        InboundRequest,
    >)
        ensures
            match r {
                Some(q) => {
                    &&& envelope_text(envelope@, PATH_KEY@) == Some(q.path@)
                    &&& envelope_text(envelope@, METHOD_KEY@) == Some(q.method@)
                    &&& q.source == source
                    &&& q.body == body
                },
                None => envelope_text(envelope@, PATH_KEY@) is None
                    || envelope_text(envelope@, METHOD_KEY@) is None,
            },
    {
        let path = match json_str_member(envelope, PATH_KEY) {
            None => return None,
            Some(Some(p)) => p,
            Some(None) => String::new(),
        };
        let method = match json_str_member(envelope, METHOD_KEY) {
            None => return None,
            Some(Some(m)) => m,
            Some(None) => String::new(),
        };
        Some(InboundRequest { source, path, method, body })
    }
}

/// The gateway: who may send requests, where audio goes, and the routes.
#[derive(Debug)]
pub struct Gateway {
    pub front_end: Address,
    pub worker: Address,
    pub routes: RouteTable,
}

impl Gateway {
    pub open spec fn wf(&self) -> bool {
        self.routes.wf()
    }

    pub fn new(front_end: Address, worker: Address, routes: RouteTable) -> (r: Gateway)
        ensures
            r.wf(),
            r.front_end == front_end,
            r.worker == worker,
            r.routes == routes,
    {
        proof {
            use_type_invariant(&routes);
        }
        Gateway { front_end, worker, routes }
    }

    /// What a request for `path` with this body gets: the route's asset, a
    /// call to the worker with the uploaded audio, nothing where the upload
    /// does not decode, and a 404 where no route has the path.
    pub open spec fn serve_spec(&self, path: Seq<char>, body: Option<Seq<u8>>) -> ActionView {
        match self.routes.route(path) {
            None => ActionView::Respond {
                status: STATUS_NOT_FOUND,
                headers: default_headers(),
                body: Seq::empty(),
            },
            Some(RouteAction::ServeAsset { content, content_type }) => ActionView::Respond {
                status: STATUS_OK,
                headers: asset_headers(path, content_type@),
                body: content@,
            },
            Some(RouteAction::ForwardAudio) => match body {
                None => ActionView::Ignore,
                Some(b) => match upload_audio(b) {
                    Err(_) => ActionView::Ignore,
                    Ok(audio) => ActionView::Forward {
                        target: self.worker@,
                        payload: audio,
                        timeout_secs: WORKER_TIMEOUT_SECS,
                    },
                },
            },
        }
    }

    /// What a delivered message gets: only requests from the front-end whose
    /// envelope reads are served.
    pub open spec fn handle_spec(&self, msg: Incoming) -> ActionView {
        match msg {
            Incoming::Request { source, envelope, payload } => {
                if source@ != self.front_end@ {
                    ActionView::Ignore
                } else {
                    match (envelope_text(envelope@, PATH_KEY@), envelope_text(envelope@, METHOD_KEY@)) {
                        (Some(path), Some(_)) => self.serve_spec(path, opt_bytes(payload)),
                        _ => ActionView::Ignore,
                    }
                }
            },
            _ => ActionView::Ignore,
        }
    }

    /// Serves one request that the front-end sent.
    pub fn serve(&self, req: InboundRequest) -> (r: Action)
        requires
            self.wf(),
        ensures
            r@ == self.serve_spec(req.path@, opt_bytes(req.body)),
    {
        match self.routes.lookup(req.path.as_str()) {
            None => {
                let r = plain_response(STATUS_NOT_FOUND, Vec::new());
                proof {
                    assert(r.body@ =~= Seq::<u8>::empty());
                }
                Action::Respond(r)
            },
            Some(RouteAction::ServeAsset { content, content_type }) => {
                let mut headers: Vec<Header> = Vec::new();
                headers.push(Header::new(CONTENT_TYPE, content_type.as_str()));
                let root = ROOT_PATH.to_string();
                if req.path == root {
                    headers.push(Header::new(EMBEDDER_POLICY, REQUIRE_CORP));
                    headers.push(Header::new(OPENER_POLICY, SAME_ORIGIN));
                }
                let body = content.clone();
                proof {
                    assert(body@ =~= content@);
                    assert(headers_view(headers@) =~= asset_headers(req.path@, content_type@));
                }
                Action::Respond(OutboundResponse { status: STATUS_OK, headers, body })
            },
            Some(RouteAction::ForwardAudio) => match req.body {
                None => Action::Ignore,
                Some(b) => match decode_upload(b.as_slice()) {
                    Err(_) => Action::Ignore,
                    Ok(audio) => Action::Forward {
                        target: self.worker.duplicate(),
                        payload: audio,
                        timeout_secs: WORKER_TIMEOUT_SECS,
                    },
                },
            },
        }
    }

    /// Decides what to do with one delivered message.
    pub fn handle(&self, msg: Incoming) -> (r: Action)
        requires
            self.wf(),
        ensures
            r@ == self.handle_spec(msg),
    {
        match msg {
            Incoming::Request { source, envelope, payload } => {
                if !source.same_as(&self.front_end) {
                    return Action::Ignore;
                }
                match InboundRequest::from_envelope(source, envelope.as_slice(), payload) {
                    None => Action::Ignore,
                    Some(req) => self.serve(req),
                }
            },
            _ => Action::Ignore,
        }
    }

    /// The response to the worker call: a 200 whose body is the worker's
    /// reply, or the error body where the call failed or timed out.
    pub fn finish_forward(result: ForwardResult) -> (r: OutboundResponse)
        ensures
            Action::Respond(r)@ == forward_response(result),
    {
        let body = match result {
            ForwardResult::Success(b) => b,
            _ => vstd::slice::slice_to_vec(ERROR_BODY.as_bytes()),
        };
        plain_response(STATUS_OK, body)
    }
}

/// The envelope that asks the front-end to bind `path`, open to everyone:
/// `{"BindPath":{"path":<path>,"authenticated":false,"local_only":false}}`.
pub open spec fn bind_path_json(path: Seq<char>) -> Seq<char> {
    "{\"BindPath\":{\"path\":"@ + json_string_literal(path) + ",\"authenticated\":false,\"local_only\":false}}"@
}

/// Encodes the request that binds `path` at the front-end.
pub fn bind_path_envelope(path: &str) -> (r: String)
    ensures
        r@ == bind_path_json(path@),
{
    let mut out = "{\"BindPath\":{\"path\":".to_string();
    let quoted = json_quoted(path);
    out.append(quoted.as_str());
    out.append(",\"authenticated\":false,\"local_only\":false}}");
    out
}

/// A response with the default headers.
fn plain_response(status: u16, body: Vec<u8>) -> (r: OutboundResponse)
    ensures
        r.status == status,
        headers_view(r.headers@) == default_headers(),
        r.body == body,
{
    let mut headers: Vec<Header> = Vec::new();
    headers.push(Header::new(CONTENT_TYPE, TEXT_HTML));
    proof {
        assert(headers_view(headers@) =~= default_headers());
    }
    OutboundResponse { status, headers, body }
}

} // verus!
