//! A preimage handler for runtimes without preimage storage.
use vstd::prelude::*;
use crate::types::{CallHash, DispatchError};

verus! {

/// A preimage handler that stores nothing: every fetch finds nothing and every note is
/// refused, while requests and releases are accepted and do nothing. With it only
/// `dispatch_whitelisted_call_with_preimage`, which gets the call inline, can dispatch; a
/// dispatch through `dispatch_whitelisted_call` always fails with `UnavailablePreImage`.
pub struct NoopPreimages;

impl NoopPreimages {
    /// No preimage can ever be stored.
    pub const MAX_LENGTH: usize = 0;

    /// The length of a stored preimage: there is none.
    pub fn len(_hash: &CallHash) -> (r: Option<u32>)
        ensures
            r is None,
    {
        None
    }

    /// Fetches a preimage: it is never available.
    pub fn fetch(_hash: &CallHash, _len: Option<u32>) -> (r: Result<Vec<u8>, DispatchError>)
        ensures
            r matches Err(e) && e == DispatchError::Unavailable,
    {
        Err(DispatchError::Unavailable)
    }

    /// Whether a preimage is requested: never.
    pub fn is_requested(_hash: &CallHash) -> (r: bool)
        ensures
            !r,
    {
        false
    }

    /// Requests a preimage: does nothing.
    pub fn request(_hash: &CallHash) {
    }

    /// Releases a request for a preimage: does nothing.
    pub fn unrequest(_hash: &CallHash) {
    }

    /// Stores a preimage: always refused, as nothing can be stored.
    pub fn note(_bytes: &[u8]) -> (r: Result<CallHash, DispatchError>)
        ensures
            r matches Err(e) && e == DispatchError::Exhausted,
    {
        Err(DispatchError::Exhausted)
    }
}

} // verus!
