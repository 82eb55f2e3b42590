//! Requests about tags.

use vstd::prelude::*;

verus! {

/// List all collections
///
/// Lists all collections that have been explicitly added to the database.
#[derive(Debug, Clone, Copy, PartialEq, Eq, Structural)]
pub struct ListRequest {
    /// List raw tags
    pub raw: bool,
    /// List hash seq tags
    pub hash_seq: bool,
}

impl ListRequest {
    /// List all tags
    pub fn all() -> (r: Self)
        ensures
            r.raw,
            r.hash_seq,
    {
        Self { raw: true, hash_seq: true }
    }

    /// List raw tags
    pub fn raw() -> (r: Self)
        ensures
            r.raw,
            !r.hash_seq,
    {
        Self { raw: true, hash_seq: false }
    }

    /// List hash seq tags
    pub fn hash_seq() -> (r: Self)
        ensures
            !r.raw,
            r.hash_seq,
    {
        Self { raw: false, hash_seq: true }
    }
}

} // verus!
