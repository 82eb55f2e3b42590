//! The two upgrade dialects a client may ask for on the relay path.

use vstd::prelude::*;
use vstd::string::StringSliceAdditionalSpecFns;

use crate::octets::bytes_eq;

verus! {

/// The `Upgrade` token of the relay's own protocol.
pub const HTTP_UPGRADE_PROTOCOL: &'static str = "iroh derp http";

/// The `Upgrade` token of WebSocket.
pub const WEBSOCKET_UPGRADE_PROTOCOL: &'static str = "websocket";

/// The one WebSocket version this server speaks.
pub const SUPPORTED_WEBSOCKET_VERSION: &'static str = "13";

/// The HTTP upgrade protocol used for relaying.
#[derive(Debug, Copy, Clone, PartialEq, Eq, Structural)]
pub enum Protocol {
    /// Relays over the custom relaying protocol with a custom HTTP upgrade header.
    Relay,
    /// Relays over websockets.
    ///
    /// Introduced to support browser connections.
    Websocket,
}

/// The token of a protocol, as characters.
pub open spec fn upgrade_token(p: Protocol) -> Seq<char> {
    match p {
        Protocol::Relay => HTTP_UPGRADE_PROTOCOL@,
        Protocol::Websocket => WEBSOCKET_UPGRADE_PROTOCOL@,
    }
}

/// The token of a protocol, as the bytes that stand in the header.
pub open spec fn upgrade_token_bytes(p: Protocol) -> Seq<u8> {
    match p {
        Protocol::Relay => HTTP_UPGRADE_PROTOCOL.spec_bytes(),
        Protocol::Websocket => WEBSOCKET_UPGRADE_PROTOCOL.spec_bytes(),
    }
}

/// The protocol whose token is exactly `value`, if any.
pub open spec fn parse_upgrade(value: Seq<u8>) -> Option<Protocol> {
    if value == upgrade_token_bytes(Protocol::Relay) {
        Some(Protocol::Relay)
    } else if value == upgrade_token_bytes(Protocol::Websocket) {
        Some(Protocol::Websocket)
    } else {
        None
    }
}

/// The two tokens differ, so each token names exactly one protocol.
pub proof fn lemma_upgrade_tokens_distinct()
    ensures
        upgrade_token_bytes(Protocol::Relay) != upgrade_token_bytes(Protocol::Websocket),
{
    reveal_strlit("iroh derp http");
    reveal_strlit("websocket");
    assert(vstd::string::is_ascii(HTTP_UPGRADE_PROTOCOL));
    assert(vstd::string::is_ascii(WEBSOCKET_UPGRADE_PROTOCOL));
    vstd::string::is_ascii_spec_bytes(HTTP_UPGRADE_PROTOCOL);
    vstd::string::is_ascii_spec_bytes(WEBSOCKET_UPGRADE_PROTOCOL);
}

/// Reading back the token of a protocol gives that protocol: the mapping from
/// tokens to protocols is total on the known tokens and injective.
pub proof fn lemma_parse_upgrade_token(p: Protocol)
    ensures
        parse_upgrade(upgrade_token_bytes(p)) == Some(p),
{
    lemma_upgrade_tokens_distinct();
}

impl Protocol {
    /// The HTTP upgrade header used or expected
    pub fn upgrade_header(&self) -> (r: &'static str)
        ensures
            r@ == upgrade_token(*self),
            r.spec_bytes() == upgrade_token_bytes(*self),
    {
        match self {
            Protocol::Relay => HTTP_UPGRADE_PROTOCOL,
            Protocol::Websocket => WEBSOCKET_UPGRADE_PROTOCOL,
        }
    }

    /// Tries to match the value of an HTTP upgrade header to figure out which protocol should be initiated.
    pub fn parse_header(header: &[u8]) -> (r: Option<Self>)
        ensures
            r == parse_upgrade(header@),
    {
        if bytes_eq(header, Protocol::Relay.upgrade_header().as_bytes()) {
            Some(Protocol::Relay)
        } else if bytes_eq(header, Protocol::Websocket.upgrade_header().as_bytes()) {
            Some(Protocol::Websocket)
        } else {
            None
        }
    }
}

} // verus!
