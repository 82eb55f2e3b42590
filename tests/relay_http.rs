use relay_http::builder::{ServerBuilder, SpawnError};
use relay_http::connection::{ConnAction, ConnEvent, Connection, Ending, Failure, LogLevel, TlsMode};
use relay_http::headers::HeaderList;
use relay_http::protocol::Protocol;
use relay_http::response::HttpResponse;
use relay_http::router::{Dispatch, RelayService, RequestHead};
use relay_http::rpc_protocol::{blobs, tags};
use relay_http::supervisor::{Phase, Supervisor, SupervisorAction, SupervisorEvent};
use relay_http::upgrade::{check_handoff, upgrade_reply_with_accept, HandoffError};

type Handler = fn(HttpResponse) -> HttpResponse;

fn health(mut res: HttpResponse) -> HttpResponse {
    res.body = b"ok".to_vec();
    res
}

fn fields(pairs: &[(&str, &str)]) -> HeaderList {
    let mut h = HeaderList::new();
    for (n, v) in pairs {
        h.push(n.as_bytes().to_vec(), v.as_bytes().to_vec());
    }
    h
}

fn request(method: &str, path: &str, pairs: &[(&str, &str)]) -> RequestHead {
    RequestHead {
        method: method.as_bytes().to_vec(),
        path: path.as_bytes().to_vec(),
        headers: fields(pairs),
    }
}

fn header<'a>(r: &'a HttpResponse, name: &str) -> Option<&'a [u8]> {
    r.headers
        .fields
        .iter()
        .find(|f| f.name == name.as_bytes())
        .map(|f| f.value.as_slice())
}

fn relay_service(defaults: &[(&str, &str)]) -> RelayService<u8, Handler> {
    let parts = ServerBuilder::<(), u8, Handler, ()>::new(())
        .secret_key(Some(7))
        .headers(fields(defaults))
        .request_handler("GET", "/health", health as Handler)
        .build()
        .ok()
        .expect("a relay backend is configured");
    parts.service
}

fn reply(d: Dispatch) -> (HttpResponse, Option<Protocol>) {
    match d {
        Dispatch::Reply(r, p) => (r, p),
        _ => panic!("expected a response of the server itself"),
    }
}

const WS_KEY: &str = "dGhlIHNhbXBsZSBub25jZQ==";

#[test]
fn relay_token_upgrade_switches() {
    let svc = relay_service(&[]);
    let req = request(
        "GET",
        "/relay",
        &[("host", "x"), ("upgrade", "iroh derp http"), ("connection", "upgrade")],
    );
    let (r, p) = reply(svc.dispatch(&req));
    assert_eq!(r.status, 101);
    assert_eq!(header(&r, "upgrade"), Some(&b"iroh derp http"[..]));
    assert_eq!(p, Some(Protocol::Relay));
    assert!(r.body.is_empty());
}

#[test]
fn legacy_path_upgrade_switches() {
    let svc = relay_service(&[]);
    let req = request("GET", "/derp", &[("upgrade", "iroh derp http")]);
    let (r, p) = reply(svc.dispatch(&req));
    assert_eq!(r.status, 101);
    assert_eq!(p, Some(Protocol::Relay));
}

#[test]
fn websocket_upgrade_switches_with_accept_key() {
    let svc = relay_service(&[]);
    let req = request(
        "GET",
        "/relay",
        &[
            ("host", "x"),
            ("upgrade", "websocket"),
            ("connection", "upgrade"),
            ("sec-websocket-version", "13"),
            ("sec-websocket-key", WS_KEY),
        ],
    );
    let (r, p) = reply(svc.dispatch(&req));
    assert_eq!(r.status, 101);
    assert_eq!(header(&r, "sec-websocket-accept"), Some(&b"s3pPLMBiTxaQ9kYGzzhZRbK+xOo="[..]));
    assert_eq!(header(&r, "connection"), Some(&b"upgrade"[..]));
    assert_eq!(header(&r, "upgrade"), Some(&b"websocket"[..]));
    assert_eq!(r.body, b"switching to websocket protocol".to_vec());
    assert_eq!(p, Some(Protocol::Websocket));
}

#[test]
fn missing_upgrade_is_bad_request() {
    let svc = relay_service(&[]);
    let req = request("GET", "/relay", &[("host", "x")]);
    let (r, p) = reply(svc.dispatch(&req));
    assert_eq!(r.status, 400);
    assert!(r.body.is_empty());
    assert_eq!(p, None);
}

#[test]
fn unknown_upgrade_token_is_bad_request() {
    let svc = relay_service(&[]);
    let req = request("GET", "/relay", &[("upgrade", "h2c")]);
    let (r, p) = reply(svc.dispatch(&req));
    assert_eq!(r.status, 400);
    assert_eq!(p, None);
}

#[test]
fn wrong_websocket_version_names_supported_one() {
    let svc = relay_service(&[]);
    let req = request(
        "GET",
        "/relay",
        &[
            ("upgrade", "websocket"),
            ("sec-websocket-version", "12"),
            ("sec-websocket-key", WS_KEY),
        ],
    );
    let (r, p) = reply(svc.dispatch(&req));
    assert_eq!(r.status, 400);
    assert_eq!(header(&r, "sec-websocket-version"), Some(&b"13"[..]));
    assert!(r.body.is_empty());
    assert_eq!(p, None);
}

#[test]
fn websocket_without_key_is_bad_request() {
    let svc = relay_service(&[]);
    let req = request("GET", "/relay", &[("upgrade", "websocket"), ("sec-websocket-version", "13")]);
    let (r, p) = reply(svc.dispatch(&req));
    assert_eq!(r.status, 400);
    assert_eq!(header(&r, "sec-websocket-version"), None);
    assert_eq!(p, None);
}

#[test]
fn websocket_without_version_is_bad_request() {
    let svc = relay_service(&[]);
    let req = request("GET", "/relay", &[("upgrade", "websocket"), ("sec-websocket-key", WS_KEY)]);
    let (r, p) = reply(svc.dispatch(&req));
    assert_eq!(r.status, 400);
    assert_eq!(p, None);
}

#[test]
fn custom_route_and_not_found() {
    let svc = relay_service(&[]);
    let req = request("GET", "/health", &[]);
    let i = match svc.dispatch(&req) {
        Dispatch::Handler(i) => i,
        _ => panic!("expected the user route"),
    };
    let r = (svc.handlers.handler(i))(svc.default_response());
    assert_eq!(r.status, 200);
    assert_eq!(r.body, b"ok".to_vec());

    let (r, p) = reply(svc.dispatch(&request("GET", "/nope", &[])));
    assert_eq!(r.status, 404);
    assert_eq!(r.body, b"Not Found".to_vec());
    assert_eq!(p, None);
}

#[test]
fn other_method_on_relay_path_is_not_found() {
    let svc = relay_service(&[]);
    let (r, p) = reply(svc.dispatch(&request("POST", "/relay", &[("upgrade", "iroh derp http")])));
    assert_eq!(r.status, 404);
    assert_eq!(p, None);
}

#[test]
fn custom_not_found_handler_is_used() {
    let parts = ServerBuilder::<(), u8, Handler, ()>::new(())
        .secret_key(Some(1))
        .not_found_handler(health as Handler)
        .build()
        .ok()
        .unwrap();
    assert!(matches!(parts.service.dispatch(&request("GET", "/nope", &[])), Dispatch::NotFoundHandler));
}

#[test]
fn default_headers_on_every_core_response() {
    let defaults = [("server", "relay"), ("x-a", "1")];
    let svc = relay_service(&defaults);
    let requests = [
        request("GET", "/relay", &[("upgrade", "iroh derp http")]),
        request("GET", "/relay", &[]),
        request("GET", "/relay", &[("upgrade", "websocket"), ("sec-websocket-key", WS_KEY), ("sec-websocket-version", "12")]),
        request("GET", "/relay", &[("upgrade", "websocket"), ("sec-websocket-key", WS_KEY), ("sec-websocket-version", "13")]),
        request("GET", "/missing", &[]),
    ];
    for req in &requests {
        let (r, _) = reply(svc.dispatch(req));
        assert_eq!(header(&r, "server"), Some(&b"relay"[..]));
        assert_eq!(header(&r, "x-a"), Some(&b"1"[..]));
    }
    let r = svc.default_response();
    assert_eq!(r.status, 200);
    assert_eq!(header(&r, "server"), Some(&b"relay"[..]));
}

#[test]
fn later_header_replaces_earlier() {
    let b = ServerBuilder::<(), u8, Handler, ()>::new(())
        .headers(fields(&[("server", "a"), ("x-b", "2")]))
        .headers(fields(&[("server", "b")]));
    assert_eq!(b.headers.len(), 2);
    assert_eq!(b.headers.get(b"server").map(|v| v.as_slice()), Some(&b"b"[..]));
    assert_eq!(b.headers.get(b"x-b").map(|v| v.as_slice()), Some(&b"2"[..]));
}

#[test]
fn repeated_header_in_one_call_is_kept() {
    let b = ServerBuilder::<(), u8, Handler, ()>::new(())
        .headers(fields(&[("x-a", "0"), ("server", "s")]))
        .headers(fields(&[("x-a", "1"), ("x-a", "2")]));
    let got: Vec<(Vec<u8>, Vec<u8>)> =
        b.headers.fields.iter().map(|f| (f.name.clone(), f.value.clone())).collect();
    assert_eq!(
        got,
        vec![
            (b"server".to_vec(), b"s".to_vec()),
            (b"x-a".to_vec(), b"1".to_vec()),
            (b"x-a".to_vec(), b"2".to_vec()),
        ]
    );
    let parts = b.secret_key(Some(1)).build().ok().unwrap();
    let (r, _) = reply(parts.service.dispatch(&request("GET", "/nope", &[])));
    let values: Vec<&[u8]> = r
        .headers
        .fields
        .iter()
        .filter(|f| f.name == b"x-a")
        .map(|f| f.value.as_slice())
        .collect();
    assert_eq!(values, vec![&b"1"[..], &b"2"[..]]);
}

#[test]
fn header_names_ignore_case() {
    let b = ServerBuilder::<(), u8, Handler, ()>::new(())
        .headers(fields(&[("Server", "a")]))
        .headers(fields(&[("server", "b")]));
    assert_eq!(b.headers.len(), 1);
    assert_eq!(b.headers.get(b"SERVER").map(|v| v.as_slice()), Some(&b"b"[..]));
    assert!(b.headers.has_name(b"sErVeR"));
    assert!(!b.headers.has_name(b"serve"));

    let svc = relay_service(&[]);
    let req = request("GET", "/relay", &[("Upgrade", "iroh derp http")]);
    let (r, p) = reply(svc.dispatch(&req));
    assert_eq!(r.status, 101);
    assert_eq!(p, Some(Protocol::Relay));
}

#[test]
fn wrong_version_reply_has_no_accept_value() {
    let svc = relay_service(&[("server", "relay")]);
    let req = request(
        "GET",
        "/relay",
        &[("upgrade", "websocket"), ("sec-websocket-version", "8"), ("sec-websocket-key", WS_KEY)],
    );
    let (r, p) = reply(svc.dispatch(&req));
    assert_eq!(r.status, 400);
    assert_eq!(header(&r, "sec-websocket-accept"), None);
    assert!(r.body.is_empty());
    assert_eq!(p, None);
}

#[test]
fn relay_override_answers_on_relay_path() {
    let parts = ServerBuilder::<(), u8, Handler, ()>::new(())
        .relay_override(health as Handler)
        .build()
        .ok()
        .unwrap();
    assert!(matches!(
        parts.service.dispatch(&request("GET", "/relay", &[("upgrade", "iroh derp http")])),
        Dispatch::RelayOverride
    ));
}

#[test]
fn build_without_relay_handler_fails() {
    let r = ServerBuilder::<(), u8, Handler, ()>::new(()).build();
    assert!(matches!(r, Err(SpawnError::NoRelayHandler)));
}

#[test]
fn route_on_relay_endpoint_is_not_stored() {
    let b = ServerBuilder::<(), u8, Handler, ()>::new(())
        .request_handler("GET", "/relay", health as Handler)
        .request_handler("GET", "/derp", health as Handler)
        .request_handler("POST", "/relay", health as Handler)
        .request_handler("POST", "/relay", health as Handler);
    assert_eq!(b.handlers.len(), 1);
    assert_eq!(b.handlers.find(b"POST", b"/relay"), Some(0));
}

#[test]
fn accept_value_is_passed_through() {
    let defaults = HeaderList::new();
    let h = fields(&[("upgrade", "websocket"), ("sec-websocket-key", "k"), ("sec-websocket-version", "13")]);
    let r = upgrade_reply_with_accept(&h, &defaults, b"given");
    assert_eq!(header(&r.response, "sec-websocket-accept"), Some(&b"given"[..]));
}

#[test]
fn parse_header_tokens() {
    assert_eq!(Protocol::parse_header(b"iroh derp http"), Some(Protocol::Relay));
    assert_eq!(Protocol::parse_header(b"websocket"), Some(Protocol::Websocket));
    assert_eq!(Protocol::parse_header(b"WebSocket"), None);
    assert_eq!(Protocol::parse_header(b""), None);
    assert_eq!(Protocol::Relay.upgrade_header(), "iroh derp http");
    assert_eq!(Protocol::Websocket.upgrade_header(), "websocket");
}

#[test]
fn handoff_requires_empty_buffer() {
    assert_eq!(check_handoff(b""), Ok(()));
    assert_eq!(check_handoff(b"abc"), Err(HandoffError::BufferedData(3)));
}

#[test]
fn graceful_shutdown_order() {
    let mut s = Supervisor::new(true);
    for _ in 0..3 {
        assert_eq!(s.step(SupervisorEvent::Accepted), SupervisorAction::SpawnConnection);
    }
    assert_eq!(s.step(SupervisorEvent::Cancelled), SupervisorAction::CloseRelay);
    assert_eq!(s.step(SupervisorEvent::Accepted), SupervisorAction::DropConnection);
    assert_eq!(s.step(SupervisorEvent::Cancelled), SupervisorAction::Nothing);
    assert_eq!(s.step(SupervisorEvent::RelayClosed), SupervisorAction::ShutdownTasks);
    assert_eq!(s.step(SupervisorEvent::TasksDrained), SupervisorAction::Finish);
    assert_eq!(s.phase, Phase::Finished);
}

#[test]
fn shutdown_without_relay_drains_directly() {
    let mut s = Supervisor::new(false);
    assert_eq!(s.step(SupervisorEvent::AcceptFailed), SupervisorAction::LogAcceptError);
    assert_eq!(s.step(SupervisorEvent::Cancelled), SupervisorAction::ShutdownTasks);
    assert_eq!(s.step(SupervisorEvent::TasksDrained), SupervisorAction::Finish);
    assert_eq!(s.step(SupervisorEvent::Accepted), SupervisorAction::DropConnection);
}

#[test]
fn acme_validation_probe_is_closed() {
    let mut c = Connection::new(Some(TlsMode::Managed));
    assert_eq!(c.step(ConnEvent::Start), ConnAction::AcceptAcme);
    assert_eq!(
        c.step(ConnEvent::AcmeValidation),
        ConnAction::Close(Ending::ValidationProbe, LogLevel::Info)
    );
    assert_eq!(c.step(ConnEvent::ServeDone), ConnAction::Nothing);
}

#[test]
fn acme_handshake_then_serve() {
    let mut c = Connection::new(Some(TlsMode::Managed));
    assert_eq!(c.step(ConnEvent::Start), ConnAction::AcceptAcme);
    assert_eq!(c.step(ConnEvent::AcmeHandshake), ConnAction::CompleteHandshake);
    assert_eq!(c.step(ConnEvent::HandshakeDone), ConnAction::ServeTls);
    assert_eq!(c.step(ConnEvent::ServeDone), ConnAction::Close(Ending::Completed, LogLevel::Debug));
}

#[test]
fn peer_disconnect_logged_at_debug() {
    let mut c = Connection::new(None);
    assert_eq!(c.step(ConnEvent::Start), ConnAction::ServePlain);
    assert_eq!(
        c.step(ConnEvent::Failed(Failure::PeerDisconnected)),
        ConnAction::Close(Ending::Failed(Failure::PeerDisconnected), LogLevel::Debug)
    );
    let mut c = Connection::new(Some(TlsMode::Static));
    assert_eq!(c.step(ConnEvent::Start), ConnAction::AcceptTls);
    assert_eq!(
        c.step(ConnEvent::Failed(Failure::Other)),
        ConnAction::Close(Ending::Failed(Failure::Other), LogLevel::Error)
    );
}

#[test]
fn tag_list_requests() {
    assert_eq!(tags::ListRequest::all(), tags::ListRequest { raw: true, hash_seq: true });
    assert_eq!(tags::ListRequest::raw(), tags::ListRequest { raw: true, hash_seq: false });
    assert_eq!(tags::ListRequest::hash_seq(), tags::ListRequest { raw: false, hash_seq: true });
    assert_eq!(blobs::ValidateRequest { repair: true }.repair, true);
    assert_eq!(blobs::ConsistencyCheckRequest { repair: false }.repair, false);
    let _ = (blobs::ListRequest, blobs::ListIncompleteRequest);
}
