//! The frontend of a relay server: the decisions that sit between an accepted
//! connection and the relay backend, stated and proved over plain values.
//!
//! The HTTP engine, the sockets and the TLS handshakes are driven by the caller;
//! this crate decides what each request gets, when a connection is handed off,
//! and in which order the server shuts down.

mod octets;

pub mod builder;
pub mod connection;
pub mod headers;
pub mod protocol;
pub mod response;
pub mod router;
pub mod rpc_protocol;
pub mod supervisor;
pub mod upgrade;
