//! An anonymous-credential protocol library.
//!
//! An issuing server blindly issues algebraic credentials over private
//! attributes (a user identifier, a profile key, a pseudonymous network
//! identifier, a payment receipt) and later verifies zero-knowledge
//! presentations of those credentials without learning the holder's
//! identity beyond what the protocol intentionally discloses.
//!
//! All protocol randomness is derived deterministically from caller-supplied
//! 32-byte seeds through a domain-separated stream ([`sho::Sho`]), so every
//! operation is a pure function of its inputs.

pub mod api;
pub mod credentials;
pub mod elgamal;
pub mod encoding;
pub mod errors;
pub mod field;
pub mod issuance_proofs;
pub mod laws;
pub mod presentation_proofs;
pub mod request_proof;
pub mod server_params;
pub mod sho;
pub mod sigma;
pub mod signature;

use vstd::prelude::*;

verus! {

} // verus!
