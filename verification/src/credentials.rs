//! The algebraic credential scheme.
//!
//! A credential on an attribute triple `(a1, a2, a3)` is a MAC
//! `(U, V)` with `V = (x0 + x1*a1 + x2*a2 + x3*a3) * U`, where the issuer
//! secret key is the scalar tuple `(x0, x1, x2, x3)`. A kind that carries
//! fewer than three attributes leaves the unused slot at zero. The public
//! key publishes `x_i * G` together with the combination element `I` that
//! presentation proofs are stated against.
//!
//! Blind issuance operates on the holder's ElGamal ciphertext of the first
//! attribute: the issuer never sees `a1`, yet the homomorphically built
//! pair `(S1, S2)` decrypts, under the holder's one-time secret key, to a
//! valid MAC over the hidden attribute — [`lemma_blind_unblind`] proves
//! exactly that.

use vstd::prelude::*;

use crate::elgamal;
use crate::field::{
    fadd, fmul, fsub, lemma_add_cong, lemma_double_nonzero, lemma_mod_noop_small, lemma_mul_cong,
    lemma_sub_cong, sc_add, sc_mul, sc_sub, Q, GEN_A1, GEN_A2, GEN_A3, GEN_G, GEN_V,
};
use crate::sho::{
    spec_sho_nonzero_scalar, spec_sho_scalar, spec_sho_state_after, spec_sho_step, Sho,
};

verus! {

/// The public half of an issuer key pair.
#[derive(Clone, Copy, PartialEq, Eq, Structural, Debug)]
pub struct CredentialPublicKey {
    pub x0_g: u64,
    pub x1_g: u64,
    pub x2_g: u64,
    pub x3_g: u64,
    pub attr_combo: u64,
    pub i_point: u64,
}

/// An issuer key pair for one credential kind.
#[derive(Clone, Copy, PartialEq, Eq, Structural, Debug)]
pub struct CredentialKeyPair {
    pub x0: u64,
    pub x1: u64,
    pub x2: u64,
    pub x3: u64,
    pub public_key: CredentialPublicKey,
}

/// The issuer key pair is internally consistent: the published elements
/// are the stated functions of the secret scalars.
pub open spec fn keypair_wf(kp: CredentialKeyPair) -> bool {
    &&& kp.x0 < Q
    &&& kp.x1 < Q
    &&& kp.x2 < Q
    &&& kp.x3 < Q
    &&& kp.public_key.x0_g == fmul(kp.x0, GEN_G)
    &&& kp.public_key.x1_g == fmul(kp.x1, GEN_G)
    &&& kp.public_key.x2_g == fmul(kp.x2, GEN_G)
    &&& kp.public_key.x3_g == fmul(kp.x3, GEN_G)
    &&& kp.public_key.attr_combo < Q
    &&& kp.public_key.attr_combo as int == ((kp.x1 as int) * (GEN_A1 as int) + (kp.x2 as int) * (
    GEN_A2 as int) + (kp.x3 as int) * (GEN_A3 as int)) % (Q as int)
    &&& kp.public_key.i_point == fsub(GEN_V, kp.public_key.attr_combo)
    &&& kp.public_key.i_point < Q
}

/// A credential: the MAC pair `(U, V)`.
#[derive(Clone, Copy, PartialEq, Eq, Structural, Debug)]
pub struct Credential {
    pub u_point: u64,
    pub v_point: u64,
}

/// The reduced MAC value on a base point and attribute triple.
pub open spec fn spec_mac(kp: CredentialKeyPair, u: u64, a1: u64, a2: u64, a3: u64) -> u64 {
    fadd(
        fadd(fadd(fmul(kp.x0, u), fmul(kp.x1, fmul(a1, u))), fmul(kp.x2, fmul(a2, u))),
        fmul(kp.x3, fmul(a3, u)),
    )
}

/// The MAC value over the integers, before reduction.
pub open spec fn mac_int(kp: CredentialKeyPair, u: u64, a1: u64, a2: u64, a3: u64) -> int {
    (kp.x0 as int) * (u as int) + (kp.x1 as int) * ((a1 as int) * (u as int)) + (kp.x2 as int) * (
    (a2 as int) * (u as int)) + (kp.x3 as int) * ((a3 as int) * (u as int))
}

/// A valid credential over an attribute triple: a nonzero base point
/// whose companion is the key's MAC on the attributes.
pub open spec fn credential_valid(
    kp: CredentialKeyPair,
    cred: Credential,
    a1: u64,
    a2: u64,
    a3: u64,
) -> bool {
    &&& 0 < cred.u_point < Q
    &&& cred.v_point < Q
    &&& cred.v_point as int == mac_int(kp, cred.u_point, a1, a2, a3) % (Q as int)
}

/// The exact key pair drawn from stream state `s`: four secret
/// scalars and the published elements computed from them.
pub open spec fn spec_credential_keypair_generate(s: u64) -> CredentialKeyPair {
    let x0 = spec_sho_scalar(s);
    let x1 = spec_sho_scalar(spec_sho_state_after(s, 1));
    let x2 = spec_sho_scalar(spec_sho_state_after(s, 2));
    let x3 = spec_sho_scalar(spec_sho_state_after(s, 3));
    let combo = fadd(fadd(fmul(x1, GEN_A1), fmul(x2, GEN_A2)), fmul(x3, GEN_A3));
    CredentialKeyPair {
        x0,
        x1,
        x2,
        x3,
        public_key: CredentialPublicKey {
            x0_g: fmul(x0, GEN_G),
            x1_g: fmul(x1, GEN_G),
            x2_g: fmul(x2, GEN_G),
            x3_g: fmul(x3, GEN_G),
            attr_combo: combo,
            i_point: fsub(GEN_V, combo),
        },
    }
}

impl CredentialKeyPair {
    /// Derive an issuer key pair from the stream.
    pub fn generate(sho: &mut Sho) -> (r: CredentialKeyPair)
        ensures
            keypair_wf(r),
            r == spec_credential_keypair_generate(old(sho).state),
            final(sho).state == spec_sho_state_after(old(sho).state, 4),
    {
        proof {
            crate::sho::lemma_sho_state_unroll(old(sho).state);
        }
        let x0 = sho.next_scalar();
        let x1 = sho.next_scalar();
        let x2 = sho.next_scalar();
        let x3 = sho.next_scalar();

        let t1 = sc_mul(x1, GEN_A1);
        let t2 = sc_mul(x2, GEN_A2);
        let t3 = sc_mul(x3, GEN_A3);
        proof {
            lemma_add_cong(
                t1 as int,
                (x1 as int) * (GEN_A1 as int),
                t2 as int,
                (x2 as int) * (GEN_A2 as int),
            );
            lemma_add_cong(
                (t1 + t2) as int,
                (x1 as int) * (GEN_A1 as int) + (x2 as int) * (GEN_A2 as int),
                t3 as int,
                (x3 as int) * (GEN_A3 as int),
            );
            lemma_mod_noop_small(t1);
            lemma_mod_noop_small(t2);
            lemma_mod_noop_small(t3);
        }
        let s12 = sc_add(t1, t2);
        proof {
            lemma_add_cong(
                s12 as int,
                (x1 as int) * (GEN_A1 as int) + (x2 as int) * (GEN_A2 as int),
                t3 as int,
                (x3 as int) * (GEN_A3 as int),
            );
        }
        let combo = sc_add(s12, t3);
        let i_point = sc_sub(GEN_V, combo);

        CredentialKeyPair {
            x0,
            x1,
            x2,
            x3,
            public_key: CredentialPublicKey {
                x0_g: sc_mul(x0, GEN_G),
                x1_g: sc_mul(x1, GEN_G),
                x2_g: sc_mul(x2, GEN_G),
                x3_g: sc_mul(x3, GEN_G),
                attr_combo: combo,
                i_point,
            },
        }
    }

    /// The public half, safe to publish.
    pub fn get_public_key(&self) -> (r: CredentialPublicKey)
        ensures
            r == self.public_key,
    {
        self.public_key
    }

    /// Issue a credential over plaintext attributes (issuer-side, for the
    /// kinds whose attributes the issuer knows).
    pub fn create_credential(&self, a1: u64, a2: u64, a3: u64, sho: &mut Sho) -> (r: Credential)
        requires
            keypair_wf(*self),
            a1 < Q,
            a2 < Q,
            a3 < Q,
        ensures
            credential_valid(*self, r, a1, a2, a3),
            r == spec_create_credential(*self, a1, a2, a3, old(sho).state),
            final(sho).state == spec_sho_step(old(sho).state),
    {
        let t = sho.next_nonzero_scalar();
        proof {
            lemma_double_nonzero(t);
        }
        let u = sc_mul(t, GEN_G);
        let v = self.mac_on(u, a1, a2, a3);
        Credential { u_point: u, v_point: v }
    }

    /// The MAC value on a base point and attribute triple.
    fn mac_on(&self, u: u64, a1: u64, a2: u64, a3: u64) -> (r: u64)
        requires
            keypair_wf(*self),
            u < Q,
            a1 < Q,
            a2 < Q,
            a3 < Q,
        ensures
            r < Q,
            r as int == mac_int(*self, u, a1, a2, a3) % (Q as int),
            r == spec_mac(*self, u, a1, a2, a3),
    {
        let qq: Ghost<int> = Ghost(Q as int);
        let m0 = sc_mul(self.x0, u);
        let m1 = sc_mul(self.x1, sc_mul(a1, u));
        let m2 = sc_mul(self.x2, sc_mul(a2, u));
        let m3 = sc_mul(self.x3, sc_mul(a3, u));
        proof {
            let r0 = (self.x0 as int) * (u as int);
            let r1 = (self.x1 as int) * ((a1 as int) * (u as int));
            let r2 = (self.x2 as int) * ((a2 as int) * (u as int));
            let r3 = (self.x3 as int) * ((a3 as int) * (u as int));
            vstd::arithmetic::div_mod::lemma_mod_twice((a1 as int) * (u as int), qq@);
            vstd::arithmetic::div_mod::lemma_mod_twice((a2 as int) * (u as int), qq@);
            vstd::arithmetic::div_mod::lemma_mod_twice((a3 as int) * (u as int), qq@);
            lemma_mod_noop_small(self.x1);
            lemma_mod_noop_small(self.x2);
            lemma_mod_noop_small(self.x3);
            lemma_mul_cong(self.x1 as int, self.x1 as int, fmul(a1, u) as int, (a1 as int) * (u as int));
            lemma_mul_cong(self.x2 as int, self.x2 as int, fmul(a2, u) as int, (a2 as int) * (u as int));
            lemma_mul_cong(self.x3 as int, self.x3 as int, fmul(a3, u) as int, (a3 as int) * (u as int));
            // m_i is congruent to r_i; fold the sums left to right.
            lemma_add_cong(m0 as int, r0, m1 as int, r1);
            lemma_mod_noop_small(m0);
            lemma_mod_noop_small(m1);
            lemma_mod_noop_small(m2);
            lemma_mod_noop_small(m3);
            lemma_add_cong(fadd(m0, m1) as int, r0 + r1, m2 as int, r2);
            vstd::arithmetic::div_mod::lemma_mod_twice(r0 + r1, qq@);
            lemma_add_cong(fadd(fadd(m0, m1), m2) as int, r0 + r1 + r2, m3 as int, r3);
            vstd::arithmetic::div_mod::lemma_mod_twice(r0 + r1 + r2, qq@);
        }
        sc_add(sc_add(sc_add(m0, m1), m2), m3)
    }
}

/// The exact credential issued from stream state `s`.
pub open spec fn spec_create_credential(
    kp: CredentialKeyPair,
    a1: u64,
    a2: u64,
    a3: u64,
    s: u64,
) -> Credential {
    let u = fmul(spec_sho_nonzero_scalar(s), GEN_G);
    Credential { u_point: u, v_point: spec_mac(kp, u, a1, a2, a3) }
}

/// A blinded credential together with the issuance nonces the issuer
/// retains to build the paired issuance proof.
pub struct BlindedCredentialWithSecretNonce {
    pub u_point: u64,
    pub s1: u64,
    pub s2: u64,
    pub b: u64,
    pub y: u64,
    pub rprime: u64,
}

/// The transmissible part of a blinded credential.
#[derive(Clone, Copy, PartialEq, Eq, Structural, Debug)]
pub struct BlindedCredential {
    pub u_point: u64,
    pub s1: u64,
    pub s2: u64,
}

/// The blinded pair was honestly built over the holder's ciphertext
/// `(e1, e2)` and public key, with public attributes `(a2, a3)`.
pub open spec fn blinded_wf(
    kp: CredentialKeyPair,
    a2: u64,
    a3: u64,
    holder_public: u64,
    e1: u64,
    e2: u64,
    bl: BlindedCredentialWithSecretNonce,
) -> bool {
    &&& 0 < bl.b < Q
    &&& bl.y == fmul(kp.x1, bl.b)
    &&& bl.rprime < Q
    &&& bl.u_point == fmul(bl.b, GEN_G)
    &&& bl.u_point != 0
    &&& bl.u_point < Q
    &&& bl.s1 < Q
    &&& bl.s2 < Q
    &&& bl.s1 as int == ((bl.y as int) * (e1 as int) + (bl.rprime as int) * (GEN_G as int)) % (
    Q as int)
    &&& bl.s2 as int == ((bl.y as int) * (e2 as int) + (bl.rprime as int) * (holder_public as int)
        + mac_int(kp, bl.u_point, 0, a2, a3)) % (Q as int)
}

/// The exact blinded pair issued from stream state `s` over the
/// holder's ciphertext.
pub open spec fn spec_create_blinded_credential(
    kp: CredentialKeyPair,
    a2: u64,
    a3: u64,
    holder_public: u64,
    e1: u64,
    e2: u64,
    s: u64,
) -> BlindedCredentialWithSecretNonce {
    let b = spec_sho_nonzero_scalar(s);
    let rp = spec_sho_scalar(spec_sho_state_after(s, 1));
    let u = fmul(b, GEN_G);
    let y = fmul(kp.x1, b);
    BlindedCredentialWithSecretNonce {
        u_point: u,
        s1: fadd(fmul(y, e1), fmul(rp, GEN_G)),
        s2: fadd(fadd(fmul(y, e2), fmul(rp, holder_public)), spec_mac(kp, u, 0, a2, a3)),
        b,
        y,
        rprime: rp,
    }
}

impl CredentialKeyPair {
    /// Blind issuance: operate on the holder's ciphertext of the hidden
    /// first attribute, producing a credential encrypted to the holder's
    /// one-time key.
    #[verifier::rlimit(100)]
    #[verifier::spinoff_prover]
    pub fn create_blinded_credential(
        &self,
        a2: u64,
        a3: u64,
        holder_public: u64,
        ct: elgamal::Ciphertext,
        sho: &mut Sho,
    ) -> (r: BlindedCredentialWithSecretNonce)
        requires
            keypair_wf(*self),
            a2 < Q,
            a3 < Q,
            holder_public < Q,
            elgamal::ciphertext_wf(ct),
        ensures
            blinded_wf(*self, a2, a3, holder_public, ct.e1, ct.e2, r),
            r == spec_create_blinded_credential(
                *self,
                a2,
                a3,
                holder_public,
                ct.e1,
                ct.e2,
                old(sho).state,
            ),
            final(sho).state == spec_sho_state_after(old(sho).state, 2),
    {
        proof {
            crate::sho::lemma_sho_state_unroll(old(sho).state);
        }
        let b = sho.next_nonzero_scalar();
        let rp = sho.next_scalar();
        proof {
            lemma_double_nonzero(b);
        }
        let u = sc_mul(b, GEN_G);
        let y = sc_mul(self.x1, b);

        let p1 = sc_mul(y, ct.e1);
        let p2 = sc_mul(rp, GEN_G);
        proof {
            lemma_mod_noop_small(p1);
            lemma_mod_noop_small(p2);
            lemma_add_cong(
                p1 as int,
                (y as int) * (ct.e1 as int),
                p2 as int,
                (rp as int) * (GEN_G as int),
            );
        }
        let s1 = sc_add(p1, p2);

        let q1 = sc_mul(y, ct.e2);
        let q2 = sc_mul(rp, holder_public);
        let q3 = self.mac_on(u, 0, a2, a3);
        proof {
            lemma_mod_noop_small(q1);
            lemma_mod_noop_small(q2);
            lemma_mod_noop_small(q3);
            lemma_add_cong(
                q1 as int,
                (y as int) * (ct.e2 as int),
                q2 as int,
                (rp as int) * (holder_public as int),
            );
            lemma_add_cong(
                fadd(q1, q2) as int,
                (y as int) * (ct.e2 as int) + (rp as int) * (holder_public as int),
                q3 as int,
                mac_int(*self, u, 0, a2, a3),
            );
            vstd::arithmetic::div_mod::lemma_mod_twice(
                (y as int) * (ct.e2 as int) + (rp as int) * (holder_public as int),
                Q as int,
            );
        }
        let s2 = sc_add(sc_add(q1, q2), q3);

        BlindedCredentialWithSecretNonce { u_point: u, s1, s2, b, y, rprime: rp }
    }
}

impl BlindedCredentialWithSecretNonce {
    /// Strip the nonces, leaving the transmissible blinded credential.
    pub fn get_blinded_credential(&self) -> (r: BlindedCredential)
        ensures
            r.u_point == self.u_point,
            r.s1 == self.s1,
            r.s2 == self.s2,
    {
        BlindedCredential { u_point: self.u_point, s1: self.s1, s2: self.s2 }
    }
}

/// Holder-side unblinding with the one-time secret key from the request
/// context.
pub fn decrypt_blinded_credential(
    holder: &elgamal::EncryptionKeyPair,
    bl: &BlindedCredential,
) -> (r: Credential)
    requires
        holder.secret < Q,
        bl.s1 < Q,
        bl.s2 < Q,
    ensures
        r.u_point == bl.u_point,
        r.v_point == elgamal::spec_decrypt(holder.secret, bl.s1, bl.s2),
        r.v_point < Q,
{
    Credential {
        u_point: bl.u_point,
        v_point: sc_sub(bl.s2, sc_mul(holder.secret, bl.s1)),
    }
}

/// The integer-level cancellation at the heart of blind issuance.
proof fn lemma_unblind_identity(d: int, rr: int, mm: int, bb: int, x1: int, rp: int, g: int, tail: int)
    ensures
        ((x1 * bb) * (rr * (d * g) + mm * g) + rp * (d * g) + tail) - d * ((x1 * bb) * (rr * g)
            + rp * g) == x1 * bb * (mm * g) + tail,
{
    let yraw = x1 * bb;
    let praw = d * g;
    let mraw = mm * g;
    let e1raw = rr * g;
    let e2pure = rr * praw + mraw;
    let s1pure = yraw * e1raw + rp * g;
    assert(d * s1pure == d * (yraw * e1raw) + d * (rp * g)) by (nonlinear_arith)
        requires
            s1pure == yraw * e1raw + rp * g,
    ;
    assert(yraw * e2pure == yraw * (rr * praw) + yraw * mraw) by (nonlinear_arith)
        requires
            e2pure == rr * praw + mraw,
    ;
    assert(yraw * (rr * praw) == d * (yraw * e1raw)) by (nonlinear_arith)
        requires
            praw == d * g,
            e1raw == rr * g,
    ;
    assert(rp * praw == d * (rp * g)) by (nonlinear_arith)
        requires
            praw == d * g,
    ;
    assert(yraw * mraw == x1 * bb * (mm * g)) by (nonlinear_arith)
        requires
            yraw == x1 * bb,
            mraw == mm * g,
    ;
}

/// Pure congruence core of unblinding, over integers alone: given the
/// residue relations of an honest blinded transcript, the decrypted
/// value is congruent to the hidden term plus the carried tail.
#[verifier::spinoff_prover]
proof fn lemma_unblind_core(
    d: int,
    p: int,
    y: int,
    e1: int,
    e2: int,
    s1: int,
    s2: int,
    v: int,
    rr: int,
    mm: int,
    bb: int,
    x1: int,
    rp: int,
    tail: int,
)
    requires
        p % (Q as int) == (d * (GEN_G as int)) % (Q as int),
        y % (Q as int) == (x1 * bb) % (Q as int),
        e1 % (Q as int) == (rr * (GEN_G as int)) % (Q as int),
        e2 % (Q as int) == (rr * p + mm * (GEN_G as int)) % (Q as int),
        s1 % (Q as int) == (y * e1 + rp * (GEN_G as int)) % (Q as int),
        s2 % (Q as int) == (y * e2 + rp * p + tail) % (Q as int),
        v % (Q as int) == (s2 - d * s1) % (Q as int),
    ensures
        v % (Q as int) == (x1 * bb * (mm * (GEN_G as int)) + tail) % (Q as int),
{
    let qq = Q as int;
    let g = GEN_G as int;
    let praw = d * g;
    let mraw = mm * g;
    let e1raw = rr * g;
    let yraw = x1 * bb;

    // e2 is congruent to rr*(d*g) + mm*g.
    lemma_mul_cong(rr, rr, p, praw);
    lemma_add_cong(rr * p, rr * praw, mraw, mraw);
    let e2pure = rr * praw + mraw;
    assert(e2 % qq == e2pure % qq);

    // s1 is congruent to yraw*e1raw + rp*g.
    lemma_mul_cong(y, yraw, e1, e1raw);
    lemma_add_cong(y * e1, yraw * e1raw, rp * g, rp * g);
    let s1pure = yraw * e1raw + rp * g;
    assert(s1 % qq == s1pure % qq);

    // s2 is congruent to yraw*e2pure + rp*(d*g) + tail.
    lemma_mul_cong(y, yraw, e2, e2pure);
    lemma_mul_cong(rp, rp, p, praw);
    lemma_add_cong(y * e2, yraw * e2pure, rp * p, rp * praw);
    lemma_add_cong(y * e2 + rp * p, yraw * e2pure + rp * praw, tail, tail);
    let s2pure = yraw * e2pure + rp * praw + tail;
    assert(s2 % qq == s2pure % qq);

    // Lift through the subtraction.
    lemma_mul_cong(d, d, s1, s1pure);
    lemma_sub_cong(s2, s2pure, d * s1, d * s1pure);
    assert(v % qq == (s2pure - d * s1pure) % qq);

    // The pure integer identity: blinding and unblinding cancel.
    lemma_unblind_identity(d, rr, mm, bb, x1, rp, g, tail);
    assert(s2pure - d * s1pure == x1 * bb * (mm * g) + tail);
}

/// The decryption of an honestly blinded pair is congruent to the
/// hidden attribute's term plus the carried tail.
#[verifier::rlimit(100)]
#[verifier::spinoff_prover]
proof fn lemma_unblind_decrypt_congruent(
    holder: elgamal::EncryptionKeyPair,
    x1: u64,
    b: u64,
    rp: u64,
    y: u64,
    m: u64,
    rnonce: u64,
    e1: u64,
    e2: u64,
    s1: u64,
    s2: u64,
    tail: int,
)
    requires
        elgamal::keypair_wf(holder),
        x1 < Q,
        b < Q,
        rp < Q,
        y == fmul(x1, b),
        m < Q,
        rnonce < Q,
        e1 == elgamal::spec_encrypt(holder.public, fmul(m, GEN_G), rnonce).e1,
        e2 == elgamal::spec_encrypt(holder.public, fmul(m, GEN_G), rnonce).e2,
        s1 < Q,
        s2 < Q,
        s1 as int == ((y as int) * (e1 as int) + (rp as int) * (GEN_G as int)) % (Q as int),
        s2 as int == ((y as int) * (e2 as int) + (rp as int) * (holder.public as int) + tail) % (
        Q as int),
    ensures
        (elgamal::spec_decrypt(holder.secret, s1, s2) as int) % (Q as int) == ((x1 as int) * (
        b as int) * ((m as int) * (GEN_G as int)) + tail) % (Q as int),
{
    let qq = Q as int;
    let g = GEN_G as int;
    let d = holder.secret as int;
    let p = holder.public as int;
    let rr = rnonce as int;
    let mm = m as int;
    let v = elgamal::spec_decrypt(holder.secret, s1, s2);

    // Bridge the stored values to their residue relations.
    vstd::arithmetic::div_mod::lemma_mod_twice(d * g, qq);
    lemma_mod_noop_small(holder.public);
    assert(p % qq == (d * g) % qq);

    vstd::arithmetic::div_mod::lemma_mod_twice((x1 as int) * (b as int), qq);
    lemma_mod_noop_small(y);
    assert((y as int) % qq == ((x1 as int) * (b as int)) % qq);

    vstd::arithmetic::div_mod::lemma_mod_twice(rr * g, qq);
    lemma_mod_noop_small(e1);
    assert((e1 as int) % qq == (rr * g) % qq);

    // e2 stores (rr*p + m*g) reduced.
    vstd::arithmetic::div_mod::lemma_mod_twice(rr * p, qq);
    vstd::arithmetic::div_mod::lemma_mod_twice(mm * g, qq);
    lemma_add_cong(fmul(rnonce, holder.public) as int, rr * p, fmul(m, GEN_G) as int, mm * g);
    vstd::arithmetic::div_mod::lemma_mod_twice(rr * p + mm * g, qq);
    lemma_mod_noop_small(e2);
    assert((e2 as int) % qq == (rr * p + mm * g) % qq);

    // s1, s2 residues, straight from their defining clauses.
    vstd::arithmetic::div_mod::lemma_mod_twice(
        (y as int) * (e1 as int) + (rp as int) * g,
        qq,
    );
    lemma_mod_noop_small(s1);
    vstd::arithmetic::div_mod::lemma_mod_twice(
        (y as int) * (e2 as int) + (rp as int) * p + tail,
        qq,
    );
    lemma_mod_noop_small(s2);

    // The decryption residue.
    lemma_mod_noop_small(holder.secret);
    lemma_mod_noop_small(s1);
    lemma_mul_cong(d, d, fmul(holder.secret, s1) as int, d * (s1 as int));
    vstd::arithmetic::div_mod::lemma_mod_twice(d * (s1 as int), qq);
    lemma_sub_cong(s2 as int, s2 as int, fmul(holder.secret, s1) as int, d * (s1 as int));
    vstd::arithmetic::div_mod::lemma_mod_twice(
        (s2 as int) - (fmul(holder.secret, s1) as int),
        qq,
    );
    assert((v as int) % qq == ((s2 as int) - d * (s1 as int)) % qq);

    lemma_unblind_core(
        d,
        p,
        y as int,
        e1 as int,
        e2 as int,
        s1 as int,
        s2 as int,
        v as int,
        rr,
        mm,
        b as int,
        x1 as int,
        rp as int,
        tail,
    );
}

/// Unblinding an honestly blinded credential yields a valid MAC over the
/// hidden attribute: the issuer operated only on the ciphertext, yet the
/// holder recovers a credential over the plaintext.
#[verifier::rlimit(100)]
#[verifier::spinoff_prover]
pub proof fn lemma_blind_unblind(
    kp: CredentialKeyPair,
    holder: elgamal::EncryptionKeyPair,
    m: u64,
    a2: u64,
    a3: u64,
    rnonce: u64,
    e1: u64,
    e2: u64,
    bl: BlindedCredentialWithSecretNonce,
)
    requires
        keypair_wf(kp),
        elgamal::keypair_wf(holder),
        m < Q,
        a2 < Q,
        a3 < Q,
        rnonce < Q,
        e1 == elgamal::spec_encrypt(holder.public, fmul(m, GEN_G), rnonce).e1,
        e2 == elgamal::spec_encrypt(holder.public, fmul(m, GEN_G), rnonce).e2,
        blinded_wf(kp, a2, a3, holder.public, e1, e2, bl),
    ensures
        credential_valid(
            kp,
            Credential {
                u_point: bl.u_point,
                v_point: elgamal::spec_decrypt(holder.secret, bl.s1, bl.s2),
            },
            m,
            a2,
            a3,
        ),
{
    let qq = Q as int;
    let x0 = kp.x0 as int;
    let x1 = kp.x1 as int;
    let x2 = kp.x2 as int;
    let x3 = kp.x3 as int;
    let bb = bl.b as int;
    let mm = m as int;
    let a2i = a2 as int;
    let a3i = a3 as int;
    let u = bl.u_point as int;
    let g = GEN_G as int;
    let mac0 = mac_int(kp, bl.u_point, 0, a2, a3);

    lemma_unblind_decrypt_congruent(
        holder,
        kp.x1,
        bl.b,
        bl.rprime,
        bl.y,
        m,
        rnonce,
        e1,
        e2,
        bl.s1,
        bl.s2,
        mac0,
    );
    let v = elgamal::spec_decrypt(holder.secret, bl.s1, bl.s2);
    assert((v as int) % qq == (x1 * bb * (mm * g) + mac0) % qq);

    // x1*b*(m*g) is congruent to x1*(m*u) since u is congruent to b*g.
    assert(x1 * bb * (mm * g) == x1 * (mm * (bb * g))) by (nonlinear_arith);
    vstd::arithmetic::div_mod::lemma_mod_twice(bb * g, qq);
    lemma_mod_noop_small(bl.u_point);
    lemma_mul_cong(mm, mm, bb * g, u);
    lemma_mul_cong(x1, x1, mm * (bb * g), mm * u);
    lemma_add_cong(x1 * (mm * (bb * g)), x1 * (mm * u), mac0, mac0);

    // The mac over (0, a2, a3) plus the x1 term is the mac over (m, a2, a3).
    assert(x1 * (mm * u) + mac0 == mac_int(kp, bl.u_point, m, a2, a3)) by (nonlinear_arith)
        requires
            mac0 == x0 * u + x1 * (0 * u) + x2 * (a2i * u) + x3 * (a3i * u),
            mac_int(kp, bl.u_point, m, a2, a3) == x0 * u + x1 * (mm * u) + x2 * (a2i * u) + x3 * (
            a3i * u),
    ;

    // The decrypted value is reduced, so the congruence is an equality
    // of residues.
    vstd::arithmetic::div_mod::lemma_mod_bound(
        (bl.s2 as int) - (fmul(holder.secret, bl.s1) as int),
        qq,
    );
    lemma_mod_noop_small(v);
}

} // verus!
