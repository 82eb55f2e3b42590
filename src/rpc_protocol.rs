//! Requests of the node's RPC interface that carry only flags.

pub mod blobs;
pub mod tags;
