//! Mapping attribute byte strings into field scalars.
//!
//! A user identifier, a profile key or a receipt serial enters the
//! credential algebra as a field scalar derived deterministically from its
//! bytes under a fixed domain label. The commitment nonce for a profile
//! key is likewise a deterministic scalar of (profile key, user
//! identifier), so a commitment can be recomputed and published without
//! extra state.

use vstd::prelude::*;

use crate::field::Q;
use crate::sho::{
    absorb_bytes_into, spec_absorb_bytes, spec_absorb_u64, SHO_INIT,
};

verus! {

/// Domain label for attribute encoding.
pub const LABEL_ATTRIBUTE: u64 = 0x0101;

/// Domain label for the deterministic commitment nonce.
pub const LABEL_COMMITMENT_NONCE: u64 = 0x0102;

/// The scalar encoding of an attribute byte string.
pub open spec fn spec_attr_scalar(b: Seq<u8>) -> u64 {
    (spec_absorb_bytes(spec_absorb_u64(SHO_INIT, LABEL_ATTRIBUTE), b) as int % Q as int) as u64
}

/// The deterministic commitment nonce for a profile key bound to a user
/// identifier.
pub open spec fn spec_commitment_nonce(pk: Seq<u8>, uid: Seq<u8>) -> u64 {
    (spec_absorb_bytes(
        spec_absorb_bytes(spec_absorb_u64(SHO_INIT, LABEL_COMMITMENT_NONCE), pk),
        uid,
    ) as int % Q as int) as u64
}

/// Encode an attribute byte string as a field scalar.
pub fn attr_scalar(b: &[u8]) -> (r: u64)
    ensures
        r == spec_attr_scalar(b@),
        r < Q,
{
    let st = crate::sho::Sho::new_transcript(LABEL_ATTRIBUTE);
    let s2 = absorb_bytes_into(st.state, b);
    s2 % Q
}

/// Compute the deterministic commitment nonce.
pub fn commitment_nonce(pk: &[u8], uid: &[u8]) -> (r: u64)
    ensures
        r == spec_commitment_nonce(pk@, uid@),
        r < Q,
{
    let st = crate::sho::Sho::new_transcript(LABEL_COMMITMENT_NONCE);
    let s2 = absorb_bytes_into(st.state, pk);
    let s3 = absorb_bytes_into(s2, uid);
    s3 % Q
}

} // verus!
