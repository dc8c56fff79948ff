//! ElGamal-style encryption over the field group.
//!
//! Used in two places: a holder's one-time key pair blinds the attribute it
//! sends inside an issuance request, and a group's encryption key pairs
//! carry the encrypted attributes inside presentations. A plaintext is a
//! group element (an attribute scalar times the base generator); a
//! ciphertext is the pair `(r*G, r*P + M)` for a fresh nonzero nonce `r`.

use vstd::prelude::*;

use crate::field::{
    fadd, fmul, fsub, lemma_add_cong, lemma_mod_noop_small, lemma_mul_cong, lemma_sub_cong,
    sc_add, sc_mul, sc_sub, Q, GEN_G,
};
use crate::sho::{spec_sho_nonzero_scalar, spec_sho_state_after, spec_sho_step, Sho};

verus! {

/// An encryption key pair: `public == secret * G`, with a nonzero secret.
pub struct EncryptionKeyPair {
    pub secret: u64,
    pub public: u64,
}

/// Well-formedness of an encryption key pair.
pub open spec fn keypair_wf(kp: EncryptionKeyPair) -> bool {
    &&& 0 < kp.secret < Q
    &&& kp.public == fmul(kp.secret, GEN_G)
}

/// The key pair derived from one stream state.
pub open spec fn spec_keypair_generate(state: u64) -> EncryptionKeyPair {
    let s = spec_sho_nonzero_scalar(state);
    EncryptionKeyPair { secret: s, public: fmul(s, GEN_G) }
}

/// A transmissible ciphertext.
#[derive(Clone, Copy, PartialEq, Eq, Structural, Debug)]
pub struct Ciphertext {
    pub e1: u64,
    pub e2: u64,
}

/// A ciphertext together with the nonce that produced it; the nonce is
/// the secret a request proof speaks about and is never transmitted.
pub struct CiphertextWithSecretNonce {
    pub e1: u64,
    pub e2: u64,
    pub r: u64,
}

/// Well-formedness of a ciphertext: both components reduced.
pub open spec fn ciphertext_wf(c: Ciphertext) -> bool {
    c.e1 < Q && c.e2 < Q
}

/// The ciphertext of plaintext `m` under key `public` with nonce `r`.
pub open spec fn spec_encrypt(public: u64, m: u64, r: u64) -> CiphertextWithSecretNonce {
    CiphertextWithSecretNonce { e1: fmul(r, GEN_G), e2: fadd(fmul(r, public), m), r: r }
}

/// The plaintext recovered from `c` by the holder of `secret`.
pub open spec fn spec_decrypt(secret: u64, e1: u64, e2: u64) -> u64 {
    fsub(e2, fmul(secret, e1))
}

impl EncryptionKeyPair {
    /// Draw a fresh key pair from the stream.
    pub fn generate(sho: &mut Sho) -> (r: EncryptionKeyPair)
        ensures
            r == spec_keypair_generate(old(sho).state),
            final(sho).state == spec_sho_step(old(sho).state),
            keypair_wf(r),
    {
        let s = sho.next_nonzero_scalar();
        let p = sc_mul(s, GEN_G);
        EncryptionKeyPair { secret: s, public: p }
    }

    /// Encrypt a group element under this key pair's public half with a
    /// fresh nonce from the stream.
    pub fn encrypt(&self, m: u64, sho: &mut Sho) -> (r: CiphertextWithSecretNonce)
        requires
            m < Q,
            self.public < Q,
        ensures
            r == spec_encrypt(
                self.public,
                m,
                spec_sho_nonzero_scalar(old(sho).state),
            ),
            final(sho).state == spec_sho_step(old(sho).state),
            0 < r.r < Q,
            r.e1 < Q,
            r.e2 < Q,
    {
        let nonce = sho.next_nonzero_scalar();
        let e1 = sc_mul(nonce, GEN_G);
        let e2 = sc_add(sc_mul(nonce, self.public), m);
        CiphertextWithSecretNonce { e1, e2, r: nonce }
    }
}

impl CiphertextWithSecretNonce {
    /// Strip the nonce, leaving the transmissible ciphertext.
    pub fn get_ciphertext(&self) -> (r: Ciphertext)
        ensures
            r.e1 == self.e1,
            r.e2 == self.e2,
    {
        Ciphertext { e1: self.e1, e2: self.e2 }
    }
}

/// Decrypting an honest encryption returns the plaintext.
pub proof fn lemma_encrypt_decrypt(kp: EncryptionKeyPair, m: u64, r: u64)
    requires
        keypair_wf(kp),
        m < Q,
        r < Q,
    ensures
        ({
            let c = spec_encrypt(kp.public, m, r);
            spec_decrypt(kp.secret, c.e1, c.e2) == m
        }),
{
    let qq = Q as int;
    let c = spec_encrypt(kp.public, m, r);
    let d = kp.secret as int;
    let ri = r as int;
    let gg = GEN_G as int;
    let mi = m as int;

    vstd::arithmetic::div_mod::lemma_mod_bound(ri * gg, qq);
    vstd::arithmetic::div_mod::lemma_mod_bound(d * gg, qq);
    vstd::arithmetic::div_mod::lemma_mod_twice(ri * gg, qq);
    vstd::arithmetic::div_mod::lemma_mod_twice(d * gg, qq);
    vstd::arithmetic::div_mod::lemma_mod_twice(ri * (kp.public as int), qq);
    lemma_add_cong((ri * (kp.public as int)) % qq, ri * (kp.public as int), mi, mi);

    // d * e1 is congruent to r * public: both are d*r*G.
    lemma_mul_cong(d, d, c.e1 as int, ri * gg);
    assert(d * (ri * gg) == ri * (d * gg)) by (nonlinear_arith);
    lemma_mul_cong(ri, ri, kp.public as int, d * gg);
    assert((d * (c.e1 as int)) % qq == (ri * (kp.public as int)) % qq);

    // e2 - d*e1 is congruent to m.
    lemma_sub_cong(
        c.e2 as int,
        ri * (kp.public as int) + mi,
        (fmul(kp.secret, c.e1)) as int,
        ri * (kp.public as int),
    );
    lemma_mod_noop_small(m);
}

} // verus!
