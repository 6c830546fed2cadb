use audio_gateway::address::{Address, ProcessId};
use audio_gateway::gateway::{Action, ForwardResult, Gateway, InboundRequest, Incoming};
use audio_gateway::response::OutboundResponse;
use audio_gateway::routes::{Route, RouteAction, RouteError, RouteTable, StaticAssets};

fn address(node: &str, id: &str) -> Address {
    Address { node: node.to_string(), process: ProcessId::parse(id).unwrap() }
}

fn front_end() -> Address {
    address("our", "http_server:sys:uqbar")
}

fn worker() -> Address {
    address("our", "nn:whisper:drew.uq")
}

fn assets() -> StaticAssets {
    StaticAssets {
        page: b"<html>page</html>".to_vec(),
        index_js: b"index js".to_vec(),
        index2_js: b"index2 js".to_vec(),
        viz_js: b"viz js".to_vec(),
        index_css: b"body {}".to_vec(),
    }
}

fn gateway() -> Gateway {
    Gateway::new(front_end(), worker(), RouteTable::standard(assets()))
}

fn envelope(path: &str) -> Vec<u8> {
    format!(r#"{{"path":"{}","method":"GET"}}"#, path).into_bytes()
}

fn request(path: &str, payload: Option<Vec<u8>>) -> Incoming {
    Incoming::Request { source: front_end(), envelope: envelope(path), payload }
}

fn respond(a: Action) -> OutboundResponse {
    match a {
        Action::Respond(r) => r,
        other => panic!("expected a response, got {:?}", other),
    }
}

fn header(r: &OutboundResponse, name: &str) -> Option<String> {
    r.headers.iter().find(|h| h.name == name).map(|h| h.value.clone())
}

fn assert_ignored(a: Action) {
    assert!(matches!(a, Action::Ignore), "expected no action, got {:?}", a);
}

#[test]
fn serves_each_static_path() {
    let gw = gateway();
    let cases: [(&str, &[u8], &str); 5] = [
        ("/", b"<html>page</html>", "text/html"),
        ("/index.js", b"index js", "application/javascript"),
        ("/index2.js", b"index2 js", "application/javascript"),
        ("/viz.js", b"viz js", "application/javascript"),
        ("/index.css", b"body {}", "text/css"),
    ];
    for (path, body, content_type) in cases {
        let r = respond(gw.handle(request(path, None)));
        assert_eq!(r.status, 200, "{}", path);
        assert_eq!(r.body, body.to_vec(), "{}", path);
        assert_eq!(header(&r, "Content-Type").as_deref(), Some(content_type), "{}", path);
    }
}

#[test]
fn audio_without_payload_gets_nothing() {
    assert_ignored(gateway().handle(request("/audio", None)));
}

#[test]
fn root_has_isolation_headers_only() {
    let gw = gateway();
    let root = respond(gw.handle(request("/", None)));
    assert_eq!(root.headers.len(), 3);
    assert_eq!(header(&root, "Cross-Origin-Embedder-Policy").as_deref(), Some("require-corp"));
    assert_eq!(header(&root, "Cross-Origin-Opener-Policy").as_deref(), Some("same-origin"));
    for path in ["/index.js", "/index2.js", "/viz.js", "/index.css", "/nowhere", "//", ""] {
        let r = respond(gw.handle(request(path, None)));
        assert_eq!(r.headers.len(), 1, "{}", path);
        assert_eq!(header(&r, "Cross-Origin-Embedder-Policy"), None, "{}", path);
        assert_eq!(header(&r, "Cross-Origin-Opener-Policy"), None, "{}", path);
    }
    let forwarded = Gateway::finish_forward(ForwardResult::Success(b"text".to_vec()));
    assert_eq!(header(&forwarded, "Cross-Origin-Embedder-Policy"), None);
}

#[test]
fn unknown_path_gets_not_found() {
    let gw = gateway();
    for path in ["/audio/", "/index", "/INDEX.JS", "/missing", ""] {
        let r = respond(gw.handle(request(path, None)));
        assert_eq!(r.status, 404, "{}", path);
        assert!(r.body.is_empty());
        assert_eq!(header(&r, "Content-Type").as_deref(), Some("text/html"));
    }
}

#[test]
fn audio_upload_is_forwarded_and_reply_returned() {
    let gw = gateway();
    let action = gw.handle(request("/audio", Some(b"audio=aGVsbG8=".to_vec())));
    match action {
        Action::Forward { target, payload, timeout_secs } => {
            assert!(target.same_as(&worker()));
            assert_eq!(payload, b"hello".to_vec());
            assert_eq!(timeout_secs, 30);
        }
        other => panic!("expected a forward, got {:?}", other),
    }
    let r = Gateway::finish_forward(ForwardResult::Success(b"transcribed words".to_vec()));
    assert_eq!(r.status, 200);
    assert_eq!(r.body, b"transcribed words".to_vec());
    assert_eq!(header(&r, "Content-Type").as_deref(), Some("text/html"));
}

#[test]
fn worker_timeout_reads_error() {
    let r = Gateway::finish_forward(ForwardResult::Timeout);
    assert_eq!(r.status, 200);
    assert_eq!(r.body, b"error".to_vec());
    assert_eq!(header(&r, "Content-Type").as_deref(), Some("text/html"));
}

#[test]
fn worker_transport_error_reads_error() {
    let r = Gateway::finish_forward(ForwardResult::TransportError);
    assert_eq!(r.status, 200);
    assert_eq!(r.body, b"error".to_vec());
}

#[test]
fn raw_bytes_upload_gets_nothing() {
    assert_ignored(gateway().handle(request("/audio", Some(b"\x00\x01".to_vec()))));
}

#[test]
fn invalid_base64_upload_gets_nothing() {
    assert_ignored(gateway().handle(request("/audio", Some(b"audio=not-valid-base64!!".to_vec()))));
}

#[test]
fn foreign_source_is_ignored() {
    let gw = gateway();
    for source in [address("other", "http_server:sys:uqbar"), address("our", "terminal:terminal:uqbar")] {
        let msg = Incoming::Request { source, envelope: envelope("/"), payload: None };
        assert_ignored(gw.handle(msg));
    }
    let upload = Incoming::Request {
        source: address("our", "nn:whisper:drew.uq"),
        envelope: envelope("/audio"),
        payload: Some(b"audio=aGVsbG8=".to_vec()),
    };
    assert_ignored(gw.handle(upload));
}

#[test]
fn receive_failures_and_responses_are_ignored() {
    let gw = gateway();
    assert_ignored(gw.handle(Incoming::ReceiveFailed));
    assert_ignored(gw.handle(Incoming::Response));
}

#[test]
fn malformed_envelope_is_ignored() {
    let gw = gateway();
    let msg = Incoming::Request { source: front_end(), envelope: b"{not json".to_vec(), payload: None };
    assert_ignored(gw.handle(msg));
}

#[test]
fn missing_path_reads_as_empty() {
    let req = InboundRequest::from_envelope(front_end(), br#"{"method":"POST","path":7}"#, None).unwrap();
    assert_eq!(req.path, "");
    assert_eq!(req.method, "POST");
    let req = InboundRequest::from_envelope(front_end(), b"[1,2]", Some(vec![9])).unwrap();
    assert_eq!(req.path, "");
    assert_eq!(req.method, "");
    assert_eq!(req.body, Some(vec![9]));
    assert!(InboundRequest::from_envelope(front_end(), b"", None).is_none());
}

#[test]
fn envelope_fields_are_read() {
    let req = InboundRequest::from_envelope(front_end(), br#"{"path":"/viz.js","method":"GET","x":1}"#, None)
        .unwrap();
    assert_eq!(req.path, "/viz.js");
    assert_eq!(req.method, "GET");
    assert!(req.source.same_as(&front_end()));
}

#[test]
fn repeated_requests_get_the_same_response() {
    let gw = gateway();
    for path in ["/", "/index.js", "/index.css", "/nowhere"] {
        let a = respond(gw.handle(request(path, None)));
        let b = respond(gw.handle(request(path, Some(b"ignored".to_vec()))));
        assert_eq!(a.status, b.status);
        assert_eq!(a.body, b.body);
        assert_eq!(a.encode().control, b.encode().control);
    }
}

#[test]
fn route_table_rejects_duplicate_paths() {
    let routes = vec![
        Route { path: "/a".to_string(), action: RouteAction::ForwardAudio },
        Route { path: "/b".to_string(), action: RouteAction::ForwardAudio },
        Route { path: "/a".to_string(), action: RouteAction::ForwardAudio },
    ];
    assert_eq!(RouteTable::new(routes).unwrap_err(), RouteError::DuplicatePath);
}

#[test]
fn route_lookup_is_exact() {
    let routes = vec![
        Route {
            path: "/a".to_string(),
            action: RouteAction::ServeAsset { content: vec![1], content_type: "text/plain".to_string() },
        },
        Route { path: "/b".to_string(), action: RouteAction::ForwardAudio },
    ];
    let t = RouteTable::new(routes).unwrap();
    assert!(matches!(t.lookup("/a"), Some(RouteAction::ServeAsset { .. })));
    assert!(matches!(t.lookup("/b"), Some(RouteAction::ForwardAudio)));
    assert!(t.lookup("/a/").is_none());
    assert!(t.lookup("/").is_none());
    assert!(t.lookup("").is_none());
}

#[test]
fn empty_table_routes_nothing() {
    let t = RouteTable::new(vec![]).unwrap();
    assert!(t.lookup("/").is_none());
    let gw = Gateway::new(front_end(), worker(), t);
    assert_eq!(respond(gw.handle(request("/", None))).status, 404);
}
