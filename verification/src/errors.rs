//! The single, opaque failure kind of the protocol.

use vstd::prelude::*;

verus! {

/// Returned by every operation that checks a proof or a received
/// credential. It deliberately carries no diagnostic detail: a verifier
/// must not reveal *why* a check failed.
#[derive(Clone, Copy, Debug, PartialEq, Eq, Structural)]
pub struct ZkGroupVerificationFailure;

impl ZkGroupVerificationFailure {
    /// A printable description of the failure.
    pub fn message(&self) -> (r: &'static str)
        ensures
            true,
    {
        "verification failure"
    }
}

} // verus!
