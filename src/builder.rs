//! Configuration of a server, checked before anything is bound.
//!
//! The builder carries what the server will need without looking into it: the
//! listening address `A`, the relay backend's secret key `K`, the request
//! handlers `H` and the TLS configuration `T`.

use vstd::prelude::*;

use crate::headers::{set_fields, HeaderList};
use crate::octets::str_bytes;
use crate::router::{is_relay_route, Handlers, RelayHandler, RelayService};
use vstd::string::StringSliceAdditionalSpecFns;

verus! {

/// Why a server cannot be built.
#[derive(Debug, Copy, Clone, PartialEq, Eq, Structural)]
pub enum SpawnError {
    /// Neither a secret key for the relay backend nor an override for the relay endpoint was given.
    NoRelayHandler,
}

impl SpawnError {
    /// A message for the error.
    pub fn message(&self) -> (r: &'static str)
        ensures
            r@ == SPAWN_ERROR_MESSAGE@,
    {
        SPAWN_ERROR_MESSAGE
    }
}

/// The message of [`SpawnError::NoRelayHandler`].
pub const SPAWN_ERROR_MESSAGE: &'static str =
    "Must provide a `SecretKey` for the relay server OR pass in an override function for the 'relay' endpoint";

/// Builder for the Relay HTTP Server.
///
/// Defaults to handling relay requests on the relay endpoint. Other HTTP
/// endpoints can be added using [`ServerBuilder::request_handler`].
///
/// Without a secret key, a [`ServerBuilder::relay_override`] must answer on the
/// relay endpoint; building fails if neither is given.
pub struct ServerBuilder<A, K, H, T> {
    pub secret_key: Option<K>,
    pub addr: A,
    pub tls_config: Option<T>,
    pub handlers: Handlers<H>,
    pub relay_override: Option<H>,
    pub headers: HeaderList,
    pub not_found_fn: Option<H>,
}

/// A checked configuration: where to listen, how to accept TLS, and the
/// service every connection gets, with the relay backend to start from `K`
/// where the relay endpoint is not overridden.
pub struct ServerParts<A, K, H, T> {
    pub addr: A,
    pub tls_config: Option<T>,
    pub service: RelayService<K, H>,
}

impl<A, K, H, T> ServerBuilder<A, K, H, T> {
    /// The builder is well formed.
    pub open spec fn wf(&self) -> bool {
        self.handlers.wf()
    }

    /// Creates a new builder: no key, no TLS, no routes, no default headers.
    pub fn new(addr: A) -> (r: Self)
        ensures
            r.wf(),
            r.addr == addr,
            r.secret_key is None,
            r.tls_config is None,
            r.handlers.keys().len() == 0,
            r.relay_override is None,
            r.headers@.len() == 0,
            r.not_found_fn is None,
    {
        ServerBuilder {
            secret_key: None,
            addr,
            tls_config: None,
            handlers: Handlers::new(),
            relay_override: None,
            headers: HeaderList::new(),
            not_found_fn: None,
        }
    }

    /// The secret key of the relay backend. Without one, the builder assumes
    /// no relay backend is wanted.
    pub fn secret_key(self, secret_key: Option<K>) -> (r: Self)
        ensures
            r == (ServerBuilder { secret_key, ..self }),
    {
        ServerBuilder { secret_key, ..self }
    }

    /// Serves all requests content using TLS.
    pub fn tls_config(self, config: Option<T>) -> (r: Self)
        ensures
            r == (ServerBuilder { tls_config: config, ..self }),
    {
        ServerBuilder { tls_config: config, ..self }
    }

    /// Adds a custom handler for a method and a path; a later handler for the
    /// same pair replaces the earlier one.
    pub fn request_handler(self, method: &str, uri_path: &str, handler: H) -> (r: Self)
        requires
            self.wf(),
        ensures
            r.wf(),
            r.secret_key == self.secret_key,
            r.addr == self.addr,
            r.tls_config == self.tls_config,
            r.relay_override == self.relay_override,
            r.headers == self.headers,
            r.not_found_fn == self.not_found_fn,
            is_relay_route(method.spec_bytes(), uri_path.spec_bytes()) ==> r.handlers == self.handlers,
            !is_relay_route(method.spec_bytes(), uri_path.spec_bytes()) ==> r.handlers.serves(
                (method.spec_bytes(), uri_path.spec_bytes()),
                handler,
            ),
            !is_relay_route(method.spec_bytes(), uri_path.spec_bytes()) && self.handlers.keys().contains(
                (method.spec_bytes(), uri_path.spec_bytes()),
            ) ==> r.handlers.keys() == self.handlers.keys(),
            !is_relay_route(method.spec_bytes(), uri_path.spec_bytes()) && !self.handlers.keys().contains(
                (method.spec_bytes(), uri_path.spec_bytes()),
            ) ==> r.handlers.keys() == self.handlers.keys().push((method.spec_bytes(), uri_path.spec_bytes())),
    {
        let mut b = self;
        b.handlers.insert(str_bytes(method), str_bytes(uri_path), handler);
        b
    }

    /// Sets a custom "404" handler.
    pub fn not_found_handler(self, handler: H) -> (r: Self)
        ensures
            r == (ServerBuilder { not_found_fn: Some(handler), ..self }),
    {
        ServerBuilder { not_found_fn: Some(handler), ..self }
    }

    /// Handles the relay endpoint in a custom way.
    ///
    /// This is required if no secret key was provided to the builder.
    pub fn relay_override(self, handler: H) -> (r: Self)
        ensures
            r == (ServerBuilder { relay_override: Some(handler), ..self }),
    {
        ServerBuilder { relay_override: Some(handler), ..self }
    }

    /// Adds HTTP headers to responses. Every field given is kept, repeated
    /// names included; the values set before for a name that `headers` sets
    /// are replaced.
    pub fn headers(self, headers: HeaderList) -> (r: Self)
        ensures
            r.headers@ == set_fields(self.headers@, headers@),
            forall|i: int| 0 <= i < headers@.len() ==> r.headers@.contains(#[trigger] headers@[i]),
            r.secret_key == self.secret_key,
            r.addr == self.addr,
            r.tls_config == self.tls_config,
            r.handlers == self.handlers,
            r.relay_override == self.relay_override,
            r.not_found_fn == self.not_found_fn,
    {
        let mut b = self;
        b.headers.insert_all(&headers);
        proof {
            crate::headers::lemma_set_fields_keeps(self.headers@, headers@);
        }
        b
    }

    /// Checks the configuration and assembles the service: the relay backend
    /// answers on the relay endpoint where a secret key was given, else the
    /// override does; with neither, building fails.
    pub fn build(self) -> (r: Result<ServerParts<A, K, H, T>, SpawnError>)
        requires
            self.wf(),
        ensures
            r is Err <==> self.secret_key is None && self.relay_override is None,
            r matches Err(e) ==> e == SpawnError::NoRelayHandler,
            r matches Ok(p) ==> {
                &&& p.addr == self.addr
                &&& p.tls_config == self.tls_config
                &&& p.service.wf()
                &&& p.service.handlers == self.handlers
                &&& p.service.not_found_fn == self.not_found_fn
                &&& p.service.headers == self.headers
                &&& (self.secret_key matches Some(k) ==> p.service.relay_handler == RelayHandler::<K, H>::ConnHandler(k))
                &&& (self.secret_key is None ==> p.service.relay_handler == RelayHandler::<K, H>::Override(
                    self.relay_override->Some_0,
                ))
            },
    {
        let ServerBuilder { secret_key, addr, tls_config, handlers, relay_override, headers, not_found_fn } = self;
        let relay_handler = match secret_key {
            Some(k) => RelayHandler::ConnHandler(k),
            None => match relay_override {
                Some(f) => RelayHandler::Override(f),
                None => return Err(SpawnError::NoRelayHandler),
            },
        };
        let service = RelayService::new(handlers, relay_handler, not_found_fn, headers);
        Ok(ServerParts { addr, tls_config, service })
    }
}

} // verus!
