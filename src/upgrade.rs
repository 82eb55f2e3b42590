//! Negotiation of the upgrade on the relay path, and the handoff that follows it.

use vstd::prelude::*;
use vstd::string::StringSliceAdditionalSpecFns;

use crate::headers::{first_value, has_name, same_name, Fields, HeaderList};
use crate::octets::{bytes_eq, copy_bytes, str_bytes};
use crate::protocol::{parse_upgrade, upgrade_token_bytes, Protocol, SUPPORTED_WEBSOCKET_VERSION};
use crate::response::{
    carries_defaults, core_response, HttpResponse, ResponseSpec, STATUS_BAD_REQUEST, STATUS_SWITCHING_PROTOCOLS,
    build_response,
};

verus! {

/// The `Upgrade` header.
pub const UPGRADE: &'static str = "upgrade";

/// The `Connection` header.
pub const CONNECTION: &'static str = "connection";

/// The `Sec-WebSocket-Key` header.
pub const SEC_WEBSOCKET_KEY: &'static str = "sec-websocket-key";

/// The `Sec-WebSocket-Version` header.
pub const SEC_WEBSOCKET_VERSION: &'static str = "sec-websocket-version";

/// The `Sec-WebSocket-Accept` header.
pub const SEC_WEBSOCKET_ACCEPT: &'static str = "sec-websocket-accept";

/// The body of a switch to WebSocket.
pub const WEBSOCKET_SWITCH_BODY: &'static str = "switching to websocket protocol";

/// What becomes of a request on the relay path.
#[derive(Debug, Copy, Clone, PartialEq, Eq, Structural)]
pub enum UpgradeDecision {
    /// `400`: no known `Upgrade` token, or a WebSocket request without key or version.
    Reject,
    /// `400` that names the supported WebSocket version.
    RejectVersion,
    /// `101`, then the connection goes to the relay backend under this protocol.
    Switch(Protocol),
}

/// The decision the headers `h` of a relay-path request lead to.
pub open spec fn upgrade_decision(h: Fields) -> UpgradeDecision {
    match first_value(h, UPGRADE.spec_bytes()) {
        None => UpgradeDecision::Reject,
        Some(v) => match parse_upgrade(v) {
            None => UpgradeDecision::Reject,
            Some(Protocol::Relay) => UpgradeDecision::Switch(Protocol::Relay),
            Some(Protocol::Websocket) => {
                if first_value(h, SEC_WEBSOCKET_KEY.spec_bytes()).is_none() {
                    UpgradeDecision::Reject
                } else {
                    match first_value(h, SEC_WEBSOCKET_VERSION.spec_bytes()) {
                        None => UpgradeDecision::Reject,
                        Some(ver) => if ver == SUPPORTED_WEBSOCKET_VERSION.spec_bytes() {
                            UpgradeDecision::Switch(Protocol::Websocket)
                        } else {
                            UpgradeDecision::RejectVersion
                        },
                    }
                }
            },
        },
    }
}

/// The protocol a decision hands the connection off under, if any.
pub open spec fn handoff_of(d: UpgradeDecision) -> Option<Protocol> {
    match d {
        UpgradeDecision::Switch(p) => Some(p),
        _ => None,
    }
}

/// The WebSocket key of a request; empty where it has none.
pub open spec fn websocket_key(h: Fields) -> Seq<u8> {
    match first_value(h, SEC_WEBSOCKET_KEY.spec_bytes()) {
        Some(k) => k,
        None => Seq::empty(),
    }
}

/// The response to a relay-path request with headers `h`, where `accept` is the
/// `Sec-WebSocket-Accept` value derived from its key.
pub open spec fn upgrade_response(h: Fields, defaults: Fields, accept: Seq<u8>) -> ResponseSpec {
    match upgrade_decision(h) {
        UpgradeDecision::Reject => core_response(STATUS_BAD_REQUEST, defaults, Seq::empty(), Seq::empty()),
        UpgradeDecision::RejectVersion => core_response(
            STATUS_BAD_REQUEST,
            defaults,
            seq![(SEC_WEBSOCKET_VERSION.spec_bytes(), SUPPORTED_WEBSOCKET_VERSION.spec_bytes())],
            Seq::empty(),
        ),
        UpgradeDecision::Switch(Protocol::Relay) => core_response(
            STATUS_SWITCHING_PROTOCOLS,
            defaults,
            seq![(UPGRADE.spec_bytes(), upgrade_token_bytes(Protocol::Relay))],
            Seq::empty(),
        ),
        UpgradeDecision::Switch(Protocol::Websocket) => core_response(
            STATUS_SWITCHING_PROTOCOLS,
            defaults,
            seq![
                (UPGRADE.spec_bytes(), upgrade_token_bytes(Protocol::Websocket)),
                (SEC_WEBSOCKET_ACCEPT.spec_bytes(), accept),
                (CONNECTION.spec_bytes(), UPGRADE.spec_bytes()),
            ],
            WEBSOCKET_SWITCH_BODY.spec_bytes(),
        ),
    }
}

/// The `Sec-WebSocket-Accept` value that tungstenite derives from a key.
pub uninterp spec fn accept_key_of(key: Seq<u8>) -> Seq<u8>;

/// Relies on `tungstenite::handshake::derive_accept_key`: the base64 form of the
/// SHA-1 digest of the key followed by the RFC 6455 GUID, a function of the key alone.
#[verifier::external_body]
fn derive_accept_key(key: &[u8]) -> (r: Vec<u8>)
    ensures
        r@ == accept_key_of(key@),
{
    tungstenite::handshake::derive_accept_key(key).into_bytes()
}

/// The answer to a relay-path request: the response, and the protocol under
/// which the connection goes to the relay backend once it has been sent.
pub struct UpgradeReply {
    pub response: HttpResponse,
    pub handoff: Option<Protocol>,
}

/// Decides what a relay-path request with headers `h` gets.
pub fn decide_upgrade(h: &HeaderList) -> (r: UpgradeDecision)
    ensures
        r == upgrade_decision(h@),
{
    let upgrade = str_bytes(UPGRADE);
    let value = match h.get(upgrade.as_slice()) {
        None => return UpgradeDecision::Reject,
        Some(v) => v,
    };
    match Protocol::parse_header(value.as_slice()) {
        None => UpgradeDecision::Reject,
        Some(Protocol::Relay) => UpgradeDecision::Switch(Protocol::Relay),
        Some(Protocol::Websocket) => {
            let key_name = str_bytes(SEC_WEBSOCKET_KEY);
            if h.get(key_name.as_slice()).is_none() {
                return UpgradeDecision::Reject;
            }
            let version_name = str_bytes(SEC_WEBSOCKET_VERSION);
            match h.get(version_name.as_slice()) {
                None => UpgradeDecision::Reject,
                Some(ver) => if bytes_eq(ver.as_slice(), SUPPORTED_WEBSOCKET_VERSION.as_bytes()) {
                    UpgradeDecision::Switch(Protocol::Websocket)
                } else {
                    UpgradeDecision::RejectVersion
                },
            }
        },
    }
}

/// Answers a relay-path request with headers `h`, given the accept value
/// `accept` derived from its WebSocket key.
pub fn upgrade_reply_with_accept(h: &HeaderList, defaults: &HeaderList, accept: &[u8]) -> (r: UpgradeReply)
    ensures
        r.response@ == upgrade_response(h@, defaults@, accept@),
        r.handoff == handoff_of(upgrade_decision(h@)),
{
    let decision = decide_upgrade(h);
    let mut extra = HeaderList::new();
    match decision {
        UpgradeDecision::Reject => {
            UpgradeReply {
                response: build_response(STATUS_BAD_REQUEST, defaults, extra, Vec::new()),
                handoff: None,
            }
        },
        UpgradeDecision::RejectVersion => {
            extra.push(str_bytes(SEC_WEBSOCKET_VERSION), str_bytes(SUPPORTED_WEBSOCKET_VERSION));
            assert(extra@ =~= seq![(SEC_WEBSOCKET_VERSION.spec_bytes(), SUPPORTED_WEBSOCKET_VERSION.spec_bytes())]);
            UpgradeReply {
                response: build_response(STATUS_BAD_REQUEST, defaults, extra, Vec::new()),
                handoff: None,
            }
        },
        UpgradeDecision::Switch(p) => {
            extra.push(str_bytes(UPGRADE), str_bytes(p.upgrade_header()));
            let body = match p {
                Protocol::Relay => Vec::new(),
                Protocol::Websocket => {
                    extra.push(str_bytes(SEC_WEBSOCKET_ACCEPT), copy_bytes(accept));
                    extra.push(str_bytes(CONNECTION), str_bytes(UPGRADE));
                    str_bytes(WEBSOCKET_SWITCH_BODY)
                },
            };
            assert(extra@ =~= upgrade_response(h@, defaults@, accept@).headers.subrange(
                defaults@.len() as int, upgrade_response(h@, defaults@, accept@).headers.len() as int));
            let response = build_response(STATUS_SWITCHING_PROTOCOLS, defaults, extra, body);
            assert(response@.headers =~= upgrade_response(h@, defaults@, accept@).headers);
            UpgradeReply { response, handoff: Some(p) }
        },
    }
}

/// Answers a relay-path request with headers `h`: a `400` for a request that
/// cannot be upgraded, else a `101` for the requested protocol, with the
/// WebSocket accept value derived from the request's key.
pub fn upgrade_reply(h: &HeaderList, defaults: &HeaderList) -> (r: UpgradeReply)
    ensures
        r.response@ == upgrade_response(h@, defaults@, accept_key_of(websocket_key(h@))),
        r.handoff == handoff_of(upgrade_decision(h@)),
{
    let key_name = str_bytes(SEC_WEBSOCKET_KEY);
    let accept = match h.get(key_name.as_slice()) {
        Some(key) => derive_accept_key(key.as_slice()),
        None => Vec::new(),
    };
    let ghost expected = accept_key_of(websocket_key(h@));
    assert(upgrade_decision(h@) == UpgradeDecision::Switch(Protocol::Websocket) ==> accept@ == expected);
    let r = upgrade_reply_with_accept(h, defaults, accept.as_slice());
    assert(r.response@ == upgrade_response(h@, defaults@, expected));
    r
}

/// A relay-path request without an `Upgrade` header gets a `400` and is not
/// handed off.
pub proof fn lemma_missing_upgrade_rejected(h: Fields, defaults: Fields, accept: Seq<u8>)
    requires
        first_value(h, UPGRADE.spec_bytes()).is_none(),
    ensures
        upgrade_response(h, defaults, accept).status == STATUS_BAD_REQUEST,
        upgrade_response(h, defaults, accept).body.len() == 0,
        handoff_of(upgrade_decision(h)) == None::<Protocol>,
{
}

/// A WebSocket upgrade with a key and the supported version is switched, and
/// its response carries the accept value derived from that key, together with
/// `Connection: upgrade`.
pub proof fn lemma_websocket_switch_accept(h: Fields, defaults: Fields, key: Seq<u8>)
    requires
        first_value(h, UPGRADE.spec_bytes()) == Some(upgrade_token_bytes(Protocol::Websocket)),
        first_value(h, SEC_WEBSOCKET_KEY.spec_bytes()) == Some(key),
        first_value(h, SEC_WEBSOCKET_VERSION.spec_bytes()) == Some(SUPPORTED_WEBSOCKET_VERSION.spec_bytes()),
    ensures
        ({
            let r = upgrade_response(h, defaults, accept_key_of(websocket_key(h)));
            &&& r.status == STATUS_SWITCHING_PROTOCOLS
            &&& r.headers.contains((SEC_WEBSOCKET_ACCEPT.spec_bytes(), accept_key_of(key)))
            &&& r.headers.contains((CONNECTION.spec_bytes(), UPGRADE.spec_bytes()))
            &&& r.headers.contains((UPGRADE.spec_bytes(), upgrade_token_bytes(Protocol::Websocket)))
        }),
        handoff_of(upgrade_decision(h)) == Some(Protocol::Websocket),
{
    crate::protocol::lemma_parse_upgrade_token(Protocol::Websocket);
    let r = upgrade_response(h, defaults, accept_key_of(websocket_key(h)));
    let n = defaults.len() as int;
    assert(r.headers[n] == (UPGRADE.spec_bytes(), upgrade_token_bytes(Protocol::Websocket)));
    assert(r.headers[n + 1] == (SEC_WEBSOCKET_ACCEPT.spec_bytes(), accept_key_of(key)));
    assert(r.headers[n + 2] == (CONNECTION.spec_bytes(), UPGRADE.spec_bytes()));
}

proof fn lemma_version_and_accept_names_differ()
    ensures
        !same_name(SEC_WEBSOCKET_VERSION.spec_bytes(), SEC_WEBSOCKET_ACCEPT.spec_bytes()),
{
    reveal_strlit("sec-websocket-version");
    reveal_strlit("sec-websocket-accept");
    assert(vstd::string::is_ascii(SEC_WEBSOCKET_VERSION));
    assert(vstd::string::is_ascii(SEC_WEBSOCKET_ACCEPT));
    vstd::string::is_ascii_spec_bytes(SEC_WEBSOCKET_VERSION);
    vstd::string::is_ascii_spec_bytes(SEC_WEBSOCKET_ACCEPT);
}

/// A WebSocket upgrade with a key and a version other than the supported one
/// gets a `400` with an empty body that names the supported version, carries no
/// accept value of its own, and is not handed off.
pub proof fn lemma_websocket_version_rejected(h: Fields, defaults: Fields, accept: Seq<u8>, version: Seq<u8>)
    requires
        first_value(h, UPGRADE.spec_bytes()) == Some(upgrade_token_bytes(Protocol::Websocket)),
        first_value(h, SEC_WEBSOCKET_KEY.spec_bytes()).is_some(),
        first_value(h, SEC_WEBSOCKET_VERSION.spec_bytes()) == Some(version),
        version != SUPPORTED_WEBSOCKET_VERSION.spec_bytes(),
    ensures
        upgrade_response(h, defaults, accept).status == STATUS_BAD_REQUEST,
        upgrade_response(h, defaults, accept).headers.contains(
            (SEC_WEBSOCKET_VERSION.spec_bytes(), SUPPORTED_WEBSOCKET_VERSION.spec_bytes()),
        ),
        upgrade_response(h, defaults, accept).body.len() == 0,
        !has_name(defaults, SEC_WEBSOCKET_ACCEPT.spec_bytes()) ==> !has_name(
            upgrade_response(h, defaults, accept).headers,
            SEC_WEBSOCKET_ACCEPT.spec_bytes(),
        ),
        handoff_of(upgrade_decision(h)) == None::<Protocol>,
{
    crate::protocol::lemma_parse_upgrade_token(Protocol::Websocket);
    lemma_version_and_accept_names_differ();
    let r = upgrade_response(h, defaults, accept);
    if !has_name(defaults, SEC_WEBSOCKET_ACCEPT.spec_bytes()) {
        assert forall|i: int| 0 <= i < r.headers.len() implies !same_name(
            #[trigger] r.headers[i].0,
            SEC_WEBSOCKET_ACCEPT.spec_bytes(),
        ) by {
            if i < defaults.len() {
                assert(r.headers[i] == defaults[i]);
            }
        }
    }
    assert(r.headers[defaults.len() as int] == (SEC_WEBSOCKET_VERSION.spec_bytes(), SUPPORTED_WEBSOCKET_VERSION.spec_bytes()));
}

/// Every response to a relay-path request carries the default headers.
pub proof fn lemma_upgrade_response_carries_defaults(h: Fields, defaults: Fields, accept: Seq<u8>)
    ensures
        carries_defaults(upgrade_response(h, defaults, accept), defaults),
{
    let r = upgrade_response(h, defaults, accept);
    assert(r.headers.subrange(0, defaults.len() as int) =~= defaults);
}

/// Why a connection that was switched cannot be handed to the relay backend.
#[derive(Debug, Copy, Clone, PartialEq, Eq, Structural)]
pub enum HandoffError {
    /// The HTTP engine surrendered this many bytes that it had read past the
    /// request; the relay backend would never see them.
    BufferedData(usize),
}

/// Checks the bytes the HTTP engine surrendered with the switched transport:
/// the relay backend gets the transport only where there are none, so that the
/// first bytes it reads are the first the peer sent after the switch. Where the
/// engine kept some, the connection is refused and the backend never invoked.
pub fn check_handoff(buffered: &[u8]) -> (r: Result<(), HandoffError>)
    ensures
        r is Ok <==> buffered@.len() == 0,
        r matches Err(HandoffError::BufferedData(n)) ==> n == buffered@.len(),
{
    if buffered.len() == 0 {
        Ok(())
    } else {
        Err(HandoffError::BufferedData(buffered.len()))
    }
}

} // verus!
