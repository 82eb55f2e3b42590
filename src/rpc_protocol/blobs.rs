//! Requests about blobs.

use vstd::prelude::*;

verus! {

/// A request to the node to validate the integrity of all provided data
#[derive(Debug, Clone, Copy, PartialEq, Eq, Structural)]
pub struct ConsistencyCheckRequest {
    /// repair the store by dropping inconsistent blobs
    pub repair: bool,
}

/// A request to the node to validate the integrity of all provided data
#[derive(Debug, Clone, Copy, PartialEq, Eq, Structural)]
pub struct ValidateRequest {
    /// repair the store by downgrading blobs from complete to partial
    pub repair: bool,
}

/// List all blobs, including collections
#[derive(Debug, Clone, Copy, PartialEq, Eq, Structural)]
pub struct ListRequest;

/// List all blobs, including collections
#[derive(Debug, Clone, Copy, PartialEq, Eq, Structural)]
pub struct ListIncompleteRequest;

} // verus!
