//! Responses that the server itself originates.

use vstd::prelude::*;
use vstd::string::StringSliceAdditionalSpecFns;

use crate::headers::{Fields, HeaderList};
use crate::octets::str_bytes;

verus! {

/// `101 Switching Protocols`.
pub const STATUS_SWITCHING_PROTOCOLS: u16 = 101;

/// `200 OK`, the status a fresh response builder starts with.
pub const STATUS_OK: u16 = 200;

/// `400 Bad Request`.
pub const STATUS_BAD_REQUEST: u16 = 400;

/// `404 Not Found`.
pub const STATUS_NOT_FOUND: u16 = 404;

/// The body of the default not-found response.
pub const NOT_FOUND_BODY: &'static str = "Not Found";

/// A response: status, header fields in order, and a short body.
pub struct HttpResponse {
    pub status: u16,
    pub headers: HeaderList,
    pub body: Vec<u8>,
}

/// What a response is.
pub struct ResponseSpec {
    pub status: u16,
    pub headers: Fields,
    pub body: Seq<u8>,
}

impl View for HttpResponse {
    type V = ResponseSpec;

    open spec fn view(&self) -> ResponseSpec {
        ResponseSpec { status: self.status, headers: self.headers@, body: self.body@ }
    }
}

/// A response that starts with the default headers, followed by `extra`.
pub open spec fn core_response(status: u16, defaults: Fields, extra: Fields, body: Seq<u8>) -> ResponseSpec {
    ResponseSpec { status, headers: defaults + extra, body }
}

/// `r` carries every default header, in order, ahead of any field of its own.
pub open spec fn carries_defaults(r: ResponseSpec, defaults: Fields) -> bool {
    &&& defaults.len() <= r.headers.len()
    &&& r.headers.subrange(0, defaults.len() as int) == defaults
}

/// The default not-found response.
pub open spec fn not_found_spec(defaults: Fields) -> ResponseSpec {
    core_response(STATUS_NOT_FOUND, defaults, Seq::empty(), NOT_FOUND_BODY.spec_bytes())
}

/// A response built on the defaults carries them.
pub proof fn lemma_core_response_carries_defaults(status: u16, defaults: Fields, extra: Fields, body: Seq<u8>)
    ensures
        carries_defaults(core_response(status, defaults, extra, body), defaults),
{
    assert((defaults + extra).subrange(0, defaults.len() as int) =~= defaults);
}

/// A response with the given status and body whose headers are the defaults
/// followed by `extra`.
pub fn build_response(status: u16, defaults: &HeaderList, extra: HeaderList, body: Vec<u8>) -> (r: HttpResponse)
    ensures
        r@ == core_response(status, defaults@, extra@, body@),
{
    let mut headers = defaults.duplicate();
    headers.append_all(&extra);
    HttpResponse { status, headers, body }
}

/// The response a handler starts from: status 200, the default headers, no body.
pub fn default_response(defaults: &HeaderList) -> (r: HttpResponse)
    ensures
        r@ == core_response(STATUS_OK, defaults@, Seq::empty(), Seq::empty()),
{
    build_response(STATUS_OK, defaults, HeaderList::new(), Vec::new())
}

/// The default not-found response: status 404, the default headers, body `Not Found`.
pub fn not_found_response(defaults: &HeaderList) -> (r: HttpResponse)
    ensures
        r@ == not_found_spec(defaults@),
{
    build_response(STATUS_NOT_FOUND, defaults, HeaderList::new(), str_bytes(NOT_FOUND_BODY))
}

} // verus!
