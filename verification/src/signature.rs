//! The notary signature sub-API: a Schnorr-style signature over the
//! field group, orthogonal to the credential algebra.

use vstd::prelude::*;

use crate::field::{fadd, fmul, lemma_add_cong, lemma_mod_noop_small, lemma_mul_cong, sc_add, sc_mul, Q, GEN_G};
use crate::sho::{
    spec_absorb_bytes, spec_absorb_u64, spec_absorb_u64s, spec_sho_scalar, spec_sho_step, Sho,
    SHO_INIT,
};
use crate::errors::ZkGroupVerificationFailure;

verus! {

/// Domain label of the signature transcript.
pub const LABEL_SIGNATURE: u64 = 0x0401;

/// A notary signature: the commitment element and the response scalar.
#[derive(Clone, Copy, PartialEq, Eq, Structural, Debug)]
pub struct NotarySignature {
    pub r_point: u64,
    pub z: u64,
}

/// A signing key pair: `public == secret * G`.
#[derive(Clone, Copy, PartialEq, Eq, Structural, Debug)]
pub struct SignatureKeyPair {
    pub secret: u64,
    pub public: u64,
}

/// Well-formedness of a signing key pair.
pub open spec fn sig_keypair_wf(kp: SignatureKeyPair) -> bool {
    &&& kp.secret < Q
    &&& kp.public == fmul(kp.secret, GEN_G)
}

/// The deterministic signature challenge over (commitment, key, message).
pub open spec fn spec_sig_challenge(r_point: u64, public: u64, message: Seq<u8>) -> u64 {
    spec_sho_scalar(
        spec_absorb_bytes(
            spec_absorb_u64s(spec_absorb_u64(SHO_INIT, LABEL_SIGNATURE), seq![r_point, public]),
            message,
        ),
    )
}

/// The exact key pair drawn from stream state `s`.
pub open spec fn spec_sig_keypair_generate(s: u64) -> SignatureKeyPair {
    let k = crate::sho::spec_sho_nonzero_scalar(s);
    SignatureKeyPair { secret: k, public: fmul(k, GEN_G) }
}

/// The exact signature produced from stream state `s`.
pub open spec fn spec_sign(kp: SignatureKeyPair, message: Seq<u8>, s: u64) -> NotarySignature {
    let k = spec_sho_scalar(s);
    let r_point = fmul(k, GEN_G);
    let c = spec_sig_challenge(r_point, kp.public, message);
    NotarySignature { r_point, z: fadd(k, fmul(c, kp.secret)) }
}

/// Exactly when a signature checks out against a public key and message.
pub open spec fn spec_sig_verifies(public: u64, message: Seq<u8>, sig: NotarySignature) -> bool {
    &&& sig.r_point < Q
    &&& sig.z < Q
    &&& fmul(sig.z, GEN_G) == fadd(
        sig.r_point,
        fmul(spec_sig_challenge(sig.r_point, public, message), public),
    )
}

fn sig_challenge(r_point: u64, public: u64, message: &[u8]) -> (c: u64)
    ensures
        c == spec_sig_challenge(r_point, public, message@),
        c < Q,
{
    let mut sho = Sho::new_transcript(LABEL_SIGNATURE);
    let mut pre: Vec<u64> = Vec::new();
    pre.push(r_point);
    pre.push(public);
    proof {
        assert(pre@ =~= seq![r_point, public]);
    }
    sho.absorb_slice(&pre);
    let mut tail = Sho { state: crate::sho::absorb_bytes_into(sho.state, message) };
    tail.next_scalar()
}

impl SignatureKeyPair {
    /// Derive a signing key pair from the stream.
    pub fn generate(sho: &mut Sho) -> (r: SignatureKeyPair)
        ensures
            sig_keypair_wf(r),
            r == spec_sig_keypair_generate(old(sho).state),
            final(sho).state == spec_sho_step(old(sho).state),
    {
        let s = sho.next_nonzero_scalar();
        SignatureKeyPair { secret: s, public: sc_mul(s, GEN_G) }
    }

    /// The public half.
    pub fn get_public_key(&self) -> (r: u64)
        ensures
            r == self.public,
    {
        self.public
    }

    /// Sign a message; the nonce comes from the caller's stream.
    pub fn sign(&self, message: &[u8], sho: &mut Sho) -> (r: NotarySignature)
        requires
            sig_keypair_wf(*self),
        ensures
            spec_sig_verifies(self.public, message@, r),
            r == spec_sign(*self, message@, old(sho).state),
            final(sho).state == spec_sho_step(old(sho).state),
    {
        let k = sho.next_scalar();
        let r_point = sc_mul(k, GEN_G);
        let c = sig_challenge(r_point, self.public, message);
        let z = sc_add(k, sc_mul(c, self.secret));
        proof {
            lemma_sig_complete(self.secret, self.public, k, c, r_point, z);
        }
        NotarySignature { r_point, z }
    }
}

/// Check a signature against a public key.
pub fn verify_notary_signature(
    public: u64,
    message: &[u8],
    sig: NotarySignature,
) -> (r: Result<(), ZkGroupVerificationFailure>)
    requires
        public < Q,
    ensures
        r is Ok <==> spec_sig_verifies(public, message@, sig),
{
    if sig.r_point >= Q || sig.z >= Q {
        return Err(ZkGroupVerificationFailure);
    }
    let c = sig_challenge(sig.r_point, public, message);
    let lhs = sc_mul(sig.z, GEN_G);
    let rhs = sc_add(sig.r_point, sc_mul(c, public));
    if lhs == rhs {
        Ok(())
    } else {
        Err(ZkGroupVerificationFailure)
    }
}

/// Completeness of the signature equation: `z*G == R + c*P` for an
/// honest signer.
proof fn lemma_sig_complete(s: u64, p: u64, k: u64, c: u64, r_point: u64, z: u64)
    requires
        s < Q,
        p == fmul(s, GEN_G),
        k < Q,
        c < Q,
        r_point == fmul(k, GEN_G),
        z == fadd(k, fmul(c, s)),
    ensures
        fmul(z, GEN_G) == fadd(r_point, fmul(c, p)),
{
    let qq = Q as int;
    let g = GEN_G as int;
    let ki = k as int;
    let ci = c as int;
    let si = s as int;

    vstd::arithmetic::div_mod::lemma_mod_twice(ci * si, qq);
    lemma_add_cong(ki, ki, fmul(c, s) as int, ci * si);
    lemma_mod_noop_small(z);
    vstd::arithmetic::div_mod::lemma_mod_twice(ki + ci * si, qq);
    lemma_mul_cong(z as int, ki + ci * si, g, g);
    assert((ki + ci * si) * g == ki * g + ci * (si * g)) by (nonlinear_arith);
    vstd::arithmetic::div_mod::lemma_mod_twice(si * g, qq);
    lemma_mul_cong(ci, ci, p as int, si * g);
    vstd::arithmetic::div_mod::lemma_mod_twice(ki * g, qq);
    lemma_add_cong(r_point as int, ki * g, fmul(c, p) as int, ci * (si * g));
    crate::field::lemma_reduced_eq(fmul(z, GEN_G), fadd(r_point, fmul(c, p)));
}

} // verus!
