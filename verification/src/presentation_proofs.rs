//! Presentation proofs.
//!
//! A holder presents a credential by sending fresh commitments to the
//! credential and its attributes, ElGamal encryptions of the hidden
//! attributes under the group's keys, and a proof tying everything
//! together. The verifier holds the issuer secret key: it recombines the
//! commitments into a target element `Z` and checks the proof, which
//! shows `Z = z*I` — possible only when the hidden credential is a valid
//! MAC over the very attributes inside the ciphertexts. Attributes that a
//! presentation discloses (a redemption time, a receipt's expiration and
//! level) enter the checked equations directly, so altering them breaks
//! verification.
//!
//! Every kind and version carries its own domain label; a proof made for
//! one relation never verifies under another.

use vstd::prelude::*;

use crate::credentials::{
    credential_valid, keypair_wf, mac_int, Credential, CredentialKeyPair,
};
use crate::elgamal;
use crate::errors::ZkGroupVerificationFailure;
use crate::field::{
    fadd, fmul, fsub, lemma_add_cong, lemma_mod_noop_small, lemma_mul_cong, lemma_sub_cong,
    sc_add, sc_mul, sc_sub, Q, GEN_A1, GEN_A2, GEN_A3, GEN_G, GEN_V,
};
use crate::sho::{spec_sho_scalar, spec_sho_state_after, Sho};
use crate::sigma;
use crate::sigma::{dot, lemma_dot7, spec_verify, PokProof};

verus! {

/// The transmitted part every presentation proof shares: the credential
/// base, the blinded credential commitment and one commitment per
/// attribute slot.
#[derive(Clone, Copy, PartialEq, Eq, Structural, Debug)]
pub struct PresentationCommitments {
    pub u_point: u64,
    pub c_v: u64,
    pub c_1: u64,
    pub c_2: u64,
    pub c_3: u64,
}

/// All commitment components are reduced.
pub open spec fn commitments_reduced(pc: PresentationCommitments) -> bool {
    &&& pc.u_point < Q
    &&& pc.c_v < Q
    &&& pc.c_1 < Q
    &&& pc.c_2 < Q
    &&& pc.c_3 < Q
}

/// The commitments an honest holder sends for blinding scalar `z`.
pub open spec fn honest_commitments(z: u64, cred: Credential, a1: u64, a2: u64, a3: u64) -> PresentationCommitments {
    PresentationCommitments {
        u_point: cred.u_point,
        c_v: fadd(fmul(z, GEN_V), cred.v_point),
        c_1: fadd(fmul(z, GEN_A1), fmul(a1, cred.u_point)),
        c_2: fadd(fmul(z, GEN_A2), fmul(a2, cred.u_point)),
        c_3: fadd(fmul(z, GEN_A3), fmul(a3, cred.u_point)),
    }
}

/// The verifier's recombination target: `C_V - x0*U - x1*C_1 - x2*C_2
/// - x3*C_3`, computed with the issuer secret key.
pub open spec fn z_target(kp: CredentialKeyPair, pc: PresentationCommitments) -> u64 {
    fsub(
        fsub(
            fsub(fsub(pc.c_v, fmul(kp.x0, pc.u_point)), fmul(kp.x1, pc.c_1)),
            fmul(kp.x2, pc.c_2),
        ),
        fmul(kp.x3, pc.c_3),
    )
}

/// Compute the recombination target.
pub fn z_target_exec(kp: &CredentialKeyPair, pc: &PresentationCommitments) -> (r: u64)
    requires
        keypair_wf(*kp),
        commitments_reduced(*pc),
    ensures
        r == z_target(*kp, *pc),
        r < Q,
{
    sc_sub(
        sc_sub(
            sc_sub(sc_sub(pc.c_v, sc_mul(kp.x0, pc.u_point)), sc_mul(kp.x1, pc.c_1)),
            sc_mul(kp.x2, pc.c_2),
        ),
        sc_mul(kp.x3, pc.c_3),
    )
}

/// Unfold the verifier's nested subtraction into one congruence over
/// the stored commitment values.
#[verifier::rlimit(100)]
proof fn lemma_target_unfold(kp: CredentialKeyPair, pc: PresentationCommitments)
    requires
        keypair_wf(kp),
        commitments_reduced(pc),
    ensures
        (z_target(kp, pc) as int) % (Q as int) == ((pc.c_v as int) - (kp.x0 as int) * (
        pc.u_point as int) - (kp.x1 as int) * (pc.c_1 as int) - (kp.x2 as int) * (pc.c_2 as int)
            - (kp.x3 as int) * (pc.c_3 as int)) % (Q as int),
{
    let qq = Q as int;
    let x0 = kp.x0 as int;
    let x1 = kp.x1 as int;
    let x2 = kp.x2 as int;
    let x3 = kp.x3 as int;
    let u = pc.u_point as int;
    let cv = pc.c_v as int;
    let c1 = pc.c_1 as int;
    let c2 = pc.c_2 as int;
    let c3 = pc.c_3 as int;

    let s0 = fsub(pc.c_v, fmul(kp.x0, pc.u_point));
    let s1 = fsub(s0, fmul(kp.x1, pc.c_1));
    let s2 = fsub(s1, fmul(kp.x2, pc.c_2));

    lemma_mod_noop_small(pc.c_v);
    lemma_mod_noop_small(s0);
    lemma_mod_noop_small(s1);
    lemma_mod_noop_small(s2);
    lemma_sub_cong(cv, cv, fmul(kp.x0, pc.u_point) as int, x0 * u);
    lemma_sub_cong(s0 as int, cv - x0 * u, fmul(kp.x1, pc.c_1) as int, x1 * c1);
    lemma_sub_cong(s1 as int, cv - x0 * u - x1 * c1, fmul(kp.x2, pc.c_2) as int, x2 * c2);
    lemma_sub_cong(
        s2 as int,
        cv - x0 * u - x1 * c1 - x2 * c2,
        fmul(kp.x3, pc.c_3) as int,
        x3 * c3,
    );
}

/// The honest commitments are congruent to their unreduced forms.
proof fn lemma_honest_commitments_raw(z: u64, cred: Credential, a1: u64, a2: u64, a3: u64, v_raw: int)
    requires
        z < Q,
        cred.u_point < Q,
        cred.v_point < Q,
        a1 < Q,
        a2 < Q,
        a3 < Q,
        (cred.v_point as int) % (Q as int) == v_raw % (Q as int),
    ensures
        ({
            let pc = honest_commitments(z, cred, a1, a2, a3);
            let zz = z as int;
            let u = cred.u_point as int;
            &&& (pc.c_v as int) % (Q as int) == (zz * (GEN_V as int) + v_raw) % (Q as int)
            &&& (pc.c_1 as int) % (Q as int) == (zz * (GEN_A1 as int) + (a1 as int) * u) % (
            Q as int)
            &&& (pc.c_2 as int) % (Q as int) == (zz * (GEN_A2 as int) + (a2 as int) * u) % (
            Q as int)
            &&& (pc.c_3 as int) % (Q as int) == (zz * (GEN_A3 as int) + (a3 as int) * u) % (
            Q as int)
        }),
{
    let qq = Q as int;
    let pc = honest_commitments(z, cred, a1, a2, a3);
    let zz = z as int;
    let u = cred.u_point as int;
    vstd::arithmetic::div_mod::lemma_mod_twice(zz * (GEN_V as int), qq);
    vstd::arithmetic::div_mod::lemma_mod_twice(zz * (GEN_A1 as int), qq);
    vstd::arithmetic::div_mod::lemma_mod_twice(zz * (GEN_A2 as int), qq);
    vstd::arithmetic::div_mod::lemma_mod_twice(zz * (GEN_A3 as int), qq);
    vstd::arithmetic::div_mod::lemma_mod_twice((a1 as int) * u, qq);
    vstd::arithmetic::div_mod::lemma_mod_twice((a2 as int) * u, qq);
    vstd::arithmetic::div_mod::lemma_mod_twice((a3 as int) * u, qq);
    lemma_add_cong(fmul(z, GEN_V) as int, zz * (GEN_V as int), cred.v_point as int, v_raw);
    lemma_add_cong(
        fmul(z, GEN_A1) as int,
        zz * (GEN_A1 as int),
        fmul(a1, cred.u_point) as int,
        (a1 as int) * u,
    );
    lemma_add_cong(
        fmul(z, GEN_A2) as int,
        zz * (GEN_A2 as int),
        fmul(a2, cred.u_point) as int,
        (a2 as int) * u,
    );
    lemma_add_cong(
        fmul(z, GEN_A3) as int,
        zz * (GEN_A3 as int),
        fmul(a3, cred.u_point) as int,
        (a3 as int) * u,
    );
    lemma_mod_noop_small(pc.c_v);
    lemma_mod_noop_small(pc.c_1);
    lemma_mod_noop_small(pc.c_2);
    lemma_mod_noop_small(pc.c_3);
}

/// The integer-level cancellation at the heart of the presentation
/// relations.
proof fn lemma_target_identity(
    tgt: int,
    cv: int,
    c1: int,
    c2: int,
    c3: int,
    x0: int,
    x1: int,
    x2: int,
    x3: int,
    zz: int,
    u: int,
    a1: int,
    a2: int,
    a3: int,
    mac: int,
)
    requires
        tgt % (Q as int) == (cv - x0 * u - x1 * c1 - x2 * c2 - x3 * c3) % (Q as int),
        cv % (Q as int) == (zz * (GEN_V as int) + mac) % (Q as int),
        c1 % (Q as int) == (zz * (GEN_A1 as int) + a1 * u) % (Q as int),
        c2 % (Q as int) == (zz * (GEN_A2 as int) + a2 * u) % (Q as int),
        c3 % (Q as int) == (zz * (GEN_A3 as int) + a3 * u) % (Q as int),
        mac == x0 * u + x1 * (a1 * u) + x2 * (a2 * u) + x3 * (a3 * u),
    ensures
        tgt % (Q as int) == (zz * ((GEN_V as int) - (x1 * (GEN_A1 as int) + x2 * (
        GEN_A2 as int) + x3 * (GEN_A3 as int)))) % (Q as int),
{
    let qq = Q as int;
    let gv = GEN_V as int;
    let g1 = GEN_A1 as int;
    let g2 = GEN_A2 as int;
    let g3 = GEN_A3 as int;
    let c1raw = zz * g1 + a1 * u;
    let c2raw = zz * g2 + a2 * u;
    let c3raw = zz * g3 + a3 * u;
    let cvraw = zz * gv + mac;

    lemma_mul_cong(x1, x1, c1, c1raw);
    lemma_mul_cong(x2, x2, c2, c2raw);
    lemma_mul_cong(x3, x3, c3, c3raw);
    lemma_sub_cong(cv, cvraw, x0 * u, x0 * u);
    lemma_sub_cong(cv - x0 * u, cvraw - x0 * u, x1 * c1, x1 * c1raw);
    lemma_sub_cong(cv - x0 * u - x1 * c1, cvraw - x0 * u - x1 * c1raw, x2 * c2, x2 * c2raw);
    lemma_sub_cong(
        cv - x0 * u - x1 * c1 - x2 * c2,
        cvraw - x0 * u - x1 * c1raw - x2 * c2raw,
        x3 * c3,
        x3 * c3raw,
    );

    assert(x1 * c1raw == zz * (x1 * g1) + x1 * (a1 * u)) by (nonlinear_arith)
        requires
            c1raw == zz * g1 + a1 * u,
    ;
    assert(x2 * c2raw == zz * (x2 * g2) + x2 * (a2 * u)) by (nonlinear_arith)
        requires
            c2raw == zz * g2 + a2 * u,
    ;
    assert(x3 * c3raw == zz * (x3 * g3) + x3 * (a3 * u)) by (nonlinear_arith)
        requires
            c3raw == zz * g3 + a3 * u,
    ;
    let sum = x1 * g1 + x2 * g2 + x3 * g3;
    assert(zz * gv - zz * (x1 * g1) - zz * (x2 * g2) - zz * (x3 * g3) == zz * (gv - sum))
        by (nonlinear_arith)
        requires
            sum == x1 * g1 + x2 * g2 + x3 * g3,
    ;
    assert(cvraw - x0 * u - x1 * c1raw - x2 * c2raw - x3 * c3raw == zz * (gv - sum));
}

/// The holder's side of the target equation, in raw form.
proof fn lemma_zi_raw(z: u64, combo: u64, ip: u64, sum: int)
    requires
        z < Q,
        combo < Q,
        ip == fsub(GEN_V, combo),
        (combo as int) % (Q as int) == sum % (Q as int),
    ensures
        (fmul(z, ip) as int) % (Q as int) == ((z as int) * ((GEN_V as int) - sum)) % (Q as int),
{
    let qq = Q as int;
    let gv = GEN_V as int;
    let zz = z as int;
    lemma_mod_noop_small(combo);
    vstd::arithmetic::div_mod::lemma_mod_twice(sum, qq);
    lemma_sub_cong(gv, gv, combo as int, sum);
    lemma_mod_noop_small(ip);
    vstd::arithmetic::div_mod::lemma_mod_twice(gv - sum, qq);
    lemma_mul_cong(zz, zz, ip as int, gv - sum);
    vstd::arithmetic::div_mod::lemma_mod_twice((zz * (ip as int)), qq);
}

/// For a valid credential the verifier's target equals the holder's
/// `z*I`: completeness of the presentation relations rests on this.
#[verifier::rlimit(100)]
pub proof fn lemma_presentation_target(
    kp: CredentialKeyPair,
    cred: Credential,
    z: u64,
    a1: u64,
    a2: u64,
    a3: u64,
)
    requires
        keypair_wf(kp),
        credential_valid(kp, cred, a1, a2, a3),
        z < Q,
        a1 < Q,
        a2 < Q,
        a3 < Q,
    ensures
        z_target(kp, honest_commitments(z, cred, a1, a2, a3)) == fmul(
            z,
            kp.public_key.i_point,
        ),
{
    let qq = Q as int;
    let pc = honest_commitments(z, cred, a1, a2, a3);
    let mac = mac_int(kp, cred.u_point, a1, a2, a3);
    let sum = (kp.x1 as int) * (GEN_A1 as int) + (kp.x2 as int) * (GEN_A2 as int) + (
    kp.x3 as int) * (GEN_A3 as int);

    vstd::arithmetic::div_mod::lemma_mod_twice(mac, qq);
    vstd::arithmetic::div_mod::lemma_mod_twice(sum, qq);
    lemma_mod_noop_small(cred.v_point);
    lemma_mod_noop_small(kp.public_key.attr_combo);
    lemma_honest_commitments_raw(z, cred, a1, a2, a3, mac);
    lemma_target_unfold(kp, pc);
    lemma_target_identity(
        z_target(kp, pc) as int,
        pc.c_v as int,
        pc.c_1 as int,
        pc.c_2 as int,
        pc.c_3 as int,
        kp.x0 as int,
        kp.x1 as int,
        kp.x2 as int,
        kp.x3 as int,
        z as int,
        cred.u_point as int,
        a1 as int,
        a2 as int,
        a3 as int,
        mac,
    );
    lemma_zi_raw(z, kp.public_key.attr_combo, kp.public_key.i_point, sum);
    crate::field::lemma_reduced_eq(z_target(kp, pc), fmul(z, kp.public_key.i_point));
}

/// Domain labels, one per (kind, version) presentation relation.
pub const LABEL_PRESENTATION_AUTH_V1: u64 = 0x0221;

/// Domain label of the second auth presentation version.
pub const LABEL_PRESENTATION_AUTH_V2: u64 = 0x0222;

/// Domain label of the first profile-key presentation version.
pub const LABEL_PRESENTATION_PROFILE_KEY_V1: u64 = 0x0223;

/// Domain label of the second profile-key presentation version.
pub const LABEL_PRESENTATION_PROFILE_KEY_V2: u64 = 0x0224;

/// Domain label of the third-family profile-key presentation.
pub const LABEL_PRESENTATION_PROFILE_KEY_V3: u64 = 0x0225;

/// Domain label of the first PNI presentation version.
pub const LABEL_PRESENTATION_PNI_V1: u64 = 0x0226;

/// Domain label of the second PNI presentation version.
pub const LABEL_PRESENTATION_PNI_V2: u64 = 0x0227;

/// Domain label of the receipt presentation.
pub const LABEL_PRESENTATION_RECEIPT: u64 = 0x0228;

// ---------------------------------------------------------------------
// Shape with one encrypted attribute (slot 1) and two disclosed
// attributes: the auth presentations.
// ---------------------------------------------------------------------

/// Rows of the one-encryption presentation relation, witness
/// `[z, a1, a2, a3, r1, r2, r3]`.
pub open spec fn pres1_rows(ip: u64, u: u64, p1: u64) -> Seq<Seq<u64>> {
    seq![
        seq![ip, 0u64, 0u64, 0u64, 0u64, 0u64, 0u64],
        seq![GEN_A1, u, 0u64, 0u64, 0u64, 0u64, 0u64],
        seq![GEN_A2, 0u64, 0u64, 0u64, 0u64, 0u64, 0u64],
        seq![GEN_A3, 0u64, 0u64, 0u64, 0u64, 0u64, 0u64],
        seq![0u64, 0u64, 0u64, 0u64, GEN_G, 0u64, 0u64],
        seq![0u64, GEN_G, 0u64, 0u64, p1, 0u64, 0u64],
    ]
}

/// Public values of the one-encryption presentation relation.
pub open spec fn pres1_publics(
    zt: u64,
    pc: PresentationCommitments,
    a2: u64,
    a3: u64,
    e1: u64,
    e2: u64,
) -> Seq<u64> {
    seq![
        zt,
        pc.c_1,
        fsub(pc.c_2, fmul(a2, pc.u_point)),
        fsub(pc.c_3, fmul(a3, pc.u_point)),
        e1,
        e2,
    ]
}

/// Exactly when the verifier accepts a one-encryption presentation.
pub open spec fn spec_pres1_accepts(
    label: u64,
    kp: CredentialKeyPair,
    p1: u64,
    a2: u64,
    a3: u64,
    ct: elgamal::Ciphertext,
    pc: PresentationCommitments,
    c: u64,
    zs: Seq<u64>,
) -> bool {
    &&& pc.u_point != 0
    &&& commitments_reduced(pc)
    &&& ct.e1 < Q
    &&& ct.e2 < Q
    &&& spec_verify(
        label,
        pres1_rows(kp.public_key.i_point, pc.u_point, p1),
        pres1_publics(z_target(kp, pc), pc, a2, a3, ct.e1, ct.e2),
        7,
        c,
        zs,
    )
}

fn pres1_rows_exec(ip: u64, u: u64, p1: u64) -> (r: Vec<Vec<u64>>)
    requires
        ip < Q,
        u < Q,
        p1 < Q,
    ensures
        r.deep_view() == pres1_rows(ip, u, p1),
        sigma::rows_ok(r.deep_view(), 7),
        r@.len() == 6,
{
    let mut rows: Vec<Vec<u64>> = Vec::new();
    rows.push(sigma::row7(ip, 0, 0, 0, 0, 0, 0));
    rows.push(sigma::row7(GEN_A1, u, 0, 0, 0, 0, 0));
    rows.push(sigma::row7(GEN_A2, 0, 0, 0, 0, 0, 0));
    rows.push(sigma::row7(GEN_A3, 0, 0, 0, 0, 0, 0));
    rows.push(sigma::row7(0, 0, 0, 0, GEN_G, 0, 0));
    rows.push(sigma::row7(0, GEN_G, 0, 0, p1, 0, 0));
    proof {
        assert(rows.deep_view() =~~= pres1_rows(ip, u, p1));
    }
    rows
}

/// Build the commitments an honest holder transmits.
fn honest_commitments_exec(z: u64, cred: Credential, a1: u64, a2: u64, a3: u64) -> (r: PresentationCommitments)
    requires
        z < Q,
        cred.u_point < Q,
        cred.v_point < Q,
        a1 < Q,
        a2 < Q,
        a3 < Q,
    ensures
        r == honest_commitments(z, cred, a1, a2, a3),
        commitments_reduced(r),
{
    PresentationCommitments {
        u_point: cred.u_point,
        c_v: sc_add(sc_mul(z, GEN_V), cred.v_point),
        c_1: sc_add(sc_mul(z, GEN_A1), sc_mul(a1, cred.u_point)),
        c_2: sc_add(sc_mul(z, GEN_A2), sc_mul(a2, cred.u_point)),
        c_3: sc_add(sc_mul(z, GEN_A3), sc_mul(a3, cred.u_point)),
    }
}

/// A disclosed slot's public value cancels its attribute term.
proof fn lemma_public_slot(z: u64, gen: u64, a: u64, u: u64, c: u64)
    requires
        z < Q,
        a < Q,
        u < Q,
        c == fadd(fmul(z, gen), fmul(a, u)),
    ensures
        (fsub(c, fmul(a, u)) as int) % (Q as int) == ((z as int) * (gen as int)) % (Q as int),
{
    let qq = Q as int;
    lemma_mod_noop_small(c);
    lemma_mod_noop_small(fsub(c, fmul(a, u)));
    lemma_sub_cong(
        c as int,
        (fmul(z, gen) as int) + (fmul(a, u) as int),
        fmul(a, u) as int,
        fmul(a, u) as int,
    );
    vstd::arithmetic::div_mod::lemma_mod_twice((z as int) * (gen as int), qq);
}

/// The honest one-encryption transcript satisfies its relation.
#[verifier::rlimit(100)]
#[verifier::spinoff_prover]
proof fn lemma_pres1_statement(
    ip: u64,
    p1: u64,
    cred: Credential,
    z: u64,
    a1: u64,
    a2: u64,
    a3: u64,
    e1: u64,
    e2: u64,
    rnonce: u64,
)
    requires
        ip < Q,
        p1 < Q,
        cred.u_point < Q,
        cred.v_point < Q,
        z < Q,
        a1 < Q,
        a2 < Q,
        a3 < Q,
        rnonce < Q,
        e1 == elgamal::spec_encrypt(p1, fmul(a1, GEN_G), rnonce).e1,
        e2 == elgamal::spec_encrypt(p1, fmul(a1, GEN_G), rnonce).e2,
    ensures
        sigma::statement_holds(
            pres1_rows(ip, cred.u_point, p1),
            pres1_publics(
                fmul(z, ip),
                honest_commitments(z, cred, a1, a2, a3),
                a2,
                a3,
                e1,
                e2,
            ),
            seq![z, a1, a2, a3, rnonce, 0, 0],
        ),
{
    let u = cred.u_point;
    let pc = honest_commitments(z, cred, a1, a2, a3);
    let w = seq![z, a1, a2, a3, rnonce, 0u64, 0u64];
    let rows = pres1_rows(ip, u, p1);
    let publics = pres1_publics(fmul(z, ip), pc, a2, a3, e1, e2);

    lemma_row_z(w, ip);
    lemma_row_hidden(w, GEN_A1, u, pc.c_1, 1, rows[1]);
    lemma_row_public(w, GEN_A2, a2, u, pc.c_2);
    lemma_row_public(w, GEN_A3, a3, u, pc.c_3);
    lemma_row_e1(w, e1, 4, rows[4]);
    lemma_row_e2(w, p1, e2, 1, 4, rows[5]);
    assert forall|i: int| 0 <= i < rows.len() implies publics[i] as int == dot(
        w,
        #[trigger] rows[i],
    ) % (Q as int) by {
        assert(0 <= i < 6);
    }
}

/// An honest one-encryption prover's output verifies against the
/// prover-side target `z*I`.
proof fn lemma_pres1_prove_ok(
    label: u64,
    ip: u64,
    p1: u64,
    cred: Credential,
    z: u64,
    a1: u64,
    a2: u64,
    a3: u64,
    e1: u64,
    e2: u64,
    rnonce: u64,
    state: u64,
)
    requires
        ip < Q,
        p1 < Q,
        cred.u_point < Q,
        cred.v_point < Q,
        z < Q,
        a1 < Q,
        a2 < Q,
        a3 < Q,
        rnonce < Q,
        e1 == elgamal::spec_encrypt(p1, fmul(a1, GEN_G), rnonce).e1,
        e2 == elgamal::spec_encrypt(p1, fmul(a1, GEN_G), rnonce).e2,
    ensures
        ({
            let rows = pres1_rows(ip, cred.u_point, p1);
            let publics = pres1_publics(
                fmul(z, ip),
                honest_commitments(z, cred, a1, a2, a3),
                a2,
                a3,
                e1,
                e2,
            );
            let w = seq![z, a1, a2, a3, rnonce, 0u64, 0u64];
            spec_verify(
                label,
                rows,
                publics,
                7,
                sigma::spec_prove(label, rows, publics, w, state).0,
                sigma::spec_prove(label, rows, publics, w, state).1,
            )
        }),
{
    let rows = pres1_rows(ip, cred.u_point, p1);
    let publics = pres1_publics(
        fmul(z, ip),
        honest_commitments(z, cred, a1, a2, a3),
        a2,
        a3,
        e1,
        e2,
    );
    let w = seq![z, a1, a2, a3, rnonce, 0u64, 0u64];
    lemma_pres1_statement(ip, p1, cred, z, a1, a2, a3, e1, e2, rnonce);
    assert(sigma::rows_ok(rows, 7)) by {
        assert forall|i: int| 0 <= i < rows.len() implies (#[trigger] rows[i]).len() == 7
            && sigma::scalars_ok(rows[i]) by {
            assert(rows[i].len() == 7);
        }
    }
    sigma::lemma_pok_completeness(label, rows, publics, w, state);
}

/// What an honest prover produced is exactly what the verifier accepts,
/// for any issuer key pair behind the public key.
proof fn lemma_pres1_accepts_honest(
    label: u64,
    kp: CredentialKeyPair,
    p1: u64,
    cred: Credential,
    z: u64,
    a1: u64,
    a2: u64,
    a3: u64,
    e1: u64,
    e2: u64,
    c: u64,
    zs: Seq<u64>,
)
    requires
        keypair_wf(kp),
        credential_valid(kp, cred, a1, a2, a3),
        p1 < Q,
        z < Q,
        a1 < Q,
        a2 < Q,
        a3 < Q,
        e1 < Q,
        e2 < Q,
        spec_verify(
            label,
            pres1_rows(kp.public_key.i_point, cred.u_point, p1),
            pres1_publics(
                fmul(z, kp.public_key.i_point),
                honest_commitments(z, cred, a1, a2, a3),
                a2,
                a3,
                e1,
                e2,
            ),
            7,
            c,
            zs,
        ),
    ensures
        spec_pres1_accepts(
            label,
            kp,
            p1,
            a2,
            a3,
            elgamal::Ciphertext { e1: e1, e2: e2 },
            honest_commitments(z, cred, a1, a2, a3),
            c,
            zs,
        ),
{
    let pc = honest_commitments(z, cred, a1, a2, a3);
    lemma_presentation_target(kp, cred, z, a1, a2, a3);
    assert(pres1_publics(z_target(kp, pc), pc, a2, a3, e1, e2) =~= pres1_publics(
        fmul(z, kp.public_key.i_point),
        pc,
        a2,
        a3,
        e1,
        e2,
    ));
    assert(pc.u_point != 0);
    assert(commitments_reduced(pc)) by {
        vstd::arithmetic::div_mod::lemma_mod_bound(
            (fmul(z, GEN_V) as int) + (cred.v_point as int),
            Q as int,
        );
        vstd::arithmetic::div_mod::lemma_mod_bound(
            (fmul(z, GEN_A1) as int) + (fmul(a1, cred.u_point) as int),
            Q as int,
        );
        vstd::arithmetic::div_mod::lemma_mod_bound(
            (fmul(z, GEN_A2) as int) + (fmul(a2, cred.u_point) as int),
            Q as int,
        );
        vstd::arithmetic::div_mod::lemma_mod_bound(
            (fmul(z, GEN_A3) as int) + (fmul(a3, cred.u_point) as int),
            Q as int,
        );
    }
}

/// Presentation proof for the one-encryption shape.
pub struct AuthCredentialPresentationProof {
    pub pok: PokProof,
    pub commitments: PresentationCommitments,
}

impl AuthCredentialPresentationProof {
    /// Holder side: blind the credential, commit to the attributes and
    /// prove consistency with the transmitted ciphertext.
    #[verifier::rlimit(100)]
    #[verifier::spinoff_prover]
    pub fn new(
        label: u64,
        public_key: &crate::credentials::CredentialPublicKey,
        enc_public: u64,
        credential: Credential,
        a1: u64,
        a2: u64,
        a3: u64,
        ciphertext: &elgamal::CiphertextWithSecretNonce,
        sho: &mut Sho,
    ) -> (r: AuthCredentialPresentationProof)
        requires
            crate::issuance_proofs::public_key_reduced(*public_key),
            enc_public < Q,
            credential.u_point < Q,
            credential.v_point < Q,
            credential.u_point != 0,
            a1 < Q,
            a2 < Q,
            a3 < Q,
            ciphertext.r < Q,
            ciphertext.e1 == elgamal::spec_encrypt(
                enc_public,
                fmul(a1, GEN_G),
                ciphertext.r,
            ).e1,
            ciphertext.e2 == elgamal::spec_encrypt(
                enc_public,
                fmul(a1, GEN_G),
                ciphertext.r,
            ).e2,
        ensures
            r.commitments == honest_commitments(
                spec_sho_scalar(old(sho).state),
                credential,
                a1,
                a2,
                a3,
            ),
            r.pok.challenge == sigma::spec_prove(
                label,
                pres1_rows(public_key.i_point, credential.u_point, enc_public),
                pres1_publics(
                    fmul(spec_sho_scalar(old(sho).state), public_key.i_point),
                    honest_commitments(spec_sho_scalar(old(sho).state), credential, a1, a2, a3),
                    a2,
                    a3,
                    ciphertext.e1,
                    ciphertext.e2,
                ),
                seq![spec_sho_scalar(old(sho).state), a1, a2, a3, ciphertext.r, 0u64, 0u64],
                spec_sho_state_after(old(sho).state, 1),
            ).0,
            r.pok.responses@ == sigma::spec_prove(
                label,
                pres1_rows(public_key.i_point, credential.u_point, enc_public),
                pres1_publics(
                    fmul(spec_sho_scalar(old(sho).state), public_key.i_point),
                    honest_commitments(spec_sho_scalar(old(sho).state), credential, a1, a2, a3),
                    a2,
                    a3,
                    ciphertext.e1,
                    ciphertext.e2,
                ),
                seq![spec_sho_scalar(old(sho).state), a1, a2, a3, ciphertext.r, 0u64, 0u64],
                spec_sho_state_after(old(sho).state, 1),
            ).1,
            final(sho).state == spec_sho_state_after(old(sho).state, 8),
            forall|kp: CredentialKeyPair|
                keypair_wf(kp) && kp.public_key == *public_key && credential_valid(
                    kp,
                    credential,
                    a1,
                    a2,
                    a3,
                ) ==> spec_pres1_accepts(
                    label,
                    kp,
                    enc_public,
                    a2,
                    a3,
                    elgamal::Ciphertext { e1: ciphertext.e1, e2: ciphertext.e2 },
                    r.commitments,
                    r.pok.challenge,
                    r.pok.responses@,
                ),
    {
        proof {
            crate::sho::lemma_sho_state_unroll(old(sho).state);
            crate::sho::lemma_sho_state_compose(old(sho).state, 1, 7);
        }
        let ghost state0 = sho.state;
        let z = sho.next_scalar();
        let pc = honest_commitments_exec(z, credential, a1, a2, a3);
        let zt = sc_mul(z, public_key.i_point);
        let rows = pres1_rows_exec(public_key.i_point, credential.u_point, enc_public);
        let mut publics: Vec<u64> = Vec::new();
        publics.push(zt);
        publics.push(pc.c_1);
        publics.push(sc_sub(pc.c_2, sc_mul(a2, pc.u_point)));
        publics.push(sc_sub(pc.c_3, sc_mul(a3, pc.u_point)));
        publics.push(ciphertext.e1);
        publics.push(ciphertext.e2);
        let witness = sigma::row7(z, a1, a2, a3, ciphertext.r, 0, 0);
        proof {
            assert(publics@ =~= pres1_publics(zt, pc, a2, a3, ciphertext.e1, ciphertext.e2));
            lemma_pres1_prove_ok(
                label,
                public_key.i_point,
                enc_public,
                credential,
                z,
                a1,
                a2,
                a3,
                ciphertext.e1,
                ciphertext.e2,
                ciphertext.r,
                spec_sho_state_after(state0, 1),
            );
        }
        let pok = sigma::prove(label, &rows, &publics, &witness, sho);
        proof {
            assert forall|kp: CredentialKeyPair|
                keypair_wf(kp) && kp.public_key == *public_key && credential_valid(
                    kp,
                    credential,
                    a1,
                    a2,
                    a3,
                ) implies spec_pres1_accepts(
                label,
                kp,
                enc_public,
                a2,
                a3,
                elgamal::Ciphertext { e1: ciphertext.e1, e2: ciphertext.e2 },
                pc,
                pok.challenge,
                pok.responses@,
            ) by {
                lemma_pres1_accepts_honest(
                    label,
                    kp,
                    enc_public,
                    credential,
                    z,
                    a1,
                    a2,
                    a3,
                    ciphertext.e1,
                    ciphertext.e2,
                    pok.challenge,
                    pok.responses@,
                );
            }
        }
        AuthCredentialPresentationProof { pok, commitments: pc }
    }

    /// Verifier side: recombine with the issuer secret key and check.
    pub fn verify(
        &self,
        label: u64,
        key_pair: &CredentialKeyPair,
        enc_public: u64,
        a2: u64,
        a3: u64,
        ciphertext: elgamal::Ciphertext,
    ) -> (r: Result<(), ZkGroupVerificationFailure>)
        requires
            keypair_wf(*key_pair),
            enc_public < Q,
            a2 < Q,
            a3 < Q,
        ensures
            r is Ok <==> spec_pres1_accepts(
                label,
                *key_pair,
                enc_public,
                a2,
                a3,
                ciphertext,
                self.commitments,
                self.pok.challenge,
                self.pok.responses@,
            ),
    {
        let pc = &self.commitments;
        if pc.u_point == 0 || pc.u_point >= Q || pc.c_v >= Q || pc.c_1 >= Q || pc.c_2 >= Q
            || pc.c_3 >= Q || ciphertext.e1 >= Q || ciphertext.e2 >= Q {
            return Err(ZkGroupVerificationFailure);
        }
        let zt = z_target_exec(key_pair, pc);
        let rows = pres1_rows_exec(key_pair.public_key.i_point, pc.u_point, enc_public);
        let mut publics: Vec<u64> = Vec::new();
        publics.push(zt);
        publics.push(pc.c_1);
        publics.push(sc_sub(pc.c_2, sc_mul(a2, pc.u_point)));
        publics.push(sc_sub(pc.c_3, sc_mul(a3, pc.u_point)));
        publics.push(ciphertext.e1);
        publics.push(ciphertext.e2);
        proof {
            assert(publics@ =~= pres1_publics(
                z_target(*key_pair, *pc),
                *pc,
                a2,
                a3,
                ciphertext.e1,
                ciphertext.e2,
            ));
        }
        sigma::verify(label, &rows, &publics, 7, &self.pok)
    }
}


// ---------------------------------------------------------------------
// Shape with two encrypted attributes (slots 1 and 2): the profile-key
// presentations, in every version and key family.
// ---------------------------------------------------------------------

/// Rows of the two-encryption presentation relation.
pub open spec fn pres2_rows(ip: u64, u: u64, p1: u64, p2: u64) -> Seq<Seq<u64>> {
    seq![
        seq![ip, 0u64, 0u64, 0u64, 0u64, 0u64, 0u64],
        seq![GEN_A1, u, 0u64, 0u64, 0u64, 0u64, 0u64],
        seq![GEN_A2, 0u64, u, 0u64, 0u64, 0u64, 0u64],
        seq![GEN_A3, 0u64, 0u64, 0u64, 0u64, 0u64, 0u64],
        seq![0u64, 0u64, 0u64, 0u64, GEN_G, 0u64, 0u64],
        seq![0u64, GEN_G, 0u64, 0u64, p1, 0u64, 0u64],
        seq![0u64, 0u64, 0u64, 0u64, 0u64, GEN_G, 0u64],
        seq![0u64, 0u64, GEN_G, 0u64, 0u64, p2, 0u64],
    ]
}

/// Public values of the two-encryption presentation relation.
pub open spec fn pres2_publics(
    zt: u64,
    pc: PresentationCommitments,
    a3: u64,
    e11: u64,
    e12: u64,
    e21: u64,
    e22: u64,
) -> Seq<u64> {
    seq![
        zt,
        pc.c_1,
        pc.c_2,
        fsub(pc.c_3, fmul(a3, pc.u_point)),
        e11,
        e12,
        e21,
        e22,
    ]
}

/// Exactly when the verifier accepts a two-encryption presentation.
pub open spec fn spec_pres2_accepts(
    label: u64,
    kp: CredentialKeyPair,
    p1: u64,
    p2: u64,
    a3: u64,
    ct1: elgamal::Ciphertext,
    ct2: elgamal::Ciphertext,
    pc: PresentationCommitments,
    c: u64,
    zs: Seq<u64>,
) -> bool {
    &&& pc.u_point != 0
    &&& commitments_reduced(pc)
    &&& ct1.e1 < Q
    &&& ct1.e2 < Q
    &&& ct2.e1 < Q
    &&& ct2.e2 < Q
    &&& spec_verify(
        label,
        pres2_rows(kp.public_key.i_point, pc.u_point, p1, p2),
        pres2_publics(z_target(kp, pc), pc, a3, ct1.e1, ct1.e2, ct2.e1, ct2.e2),
        7,
        c,
        zs,
    )
}

fn pres2_rows_exec(ip: u64, u: u64, p1: u64, p2: u64) -> (r: Vec<Vec<u64>>)
    requires
        ip < Q,
        u < Q,
        p1 < Q,
        p2 < Q,
    ensures
        r.deep_view() == pres2_rows(ip, u, p1, p2),
        sigma::rows_ok(r.deep_view(), 7),
        r@.len() == 8,
{
    let mut rows: Vec<Vec<u64>> = Vec::new();
    rows.push(sigma::row7(ip, 0, 0, 0, 0, 0, 0));
    rows.push(sigma::row7(GEN_A1, u, 0, 0, 0, 0, 0));
    rows.push(sigma::row7(GEN_A2, 0, u, 0, 0, 0, 0));
    rows.push(sigma::row7(GEN_A3, 0, 0, 0, 0, 0, 0));
    rows.push(sigma::row7(0, 0, 0, 0, GEN_G, 0, 0));
    rows.push(sigma::row7(0, GEN_G, 0, 0, p1, 0, 0));
    rows.push(sigma::row7(0, 0, 0, 0, 0, GEN_G, 0));
    rows.push(sigma::row7(0, 0, GEN_G, 0, 0, p2, 0));
    proof {
        assert(rows.deep_view() =~~= pres2_rows(ip, u, p1, p2));
    }
    rows
}

/// A hidden slot's commitment row evaluates to its public value.
proof fn lemma_hidden_slot(z: u64, gen: u64, a: u64, u: u64, c: u64)
    requires
        z < Q,
        a < Q,
        u < Q,
        c == fadd(fmul(z, gen), fmul(a, u)),
    ensures
        (c as int) % (Q as int) == ((z as int) * (gen as int) + (a as int) * (u as int)) % (
        Q as int),
{
    let qq = Q as int;
    lemma_mod_noop_small(c);
    vstd::arithmetic::div_mod::lemma_mod_twice((z as int) * (gen as int), qq);
    vstd::arithmetic::div_mod::lemma_mod_twice((a as int) * (u as int), qq);
    lemma_add_cong(
        fmul(z, gen) as int,
        (z as int) * (gen as int),
        fmul(a, u) as int,
        (a as int) * (u as int),
    );
}

/// An honest encryption's second component matches its row.
proof fn lemma_enc_slot(p: u64, a: u64, rnonce: u64, e2: u64)
    requires
        p < Q,
        a < Q,
        rnonce < Q,
        e2 == elgamal::spec_encrypt(p, fmul(a, GEN_G), rnonce).e2,
    ensures
        (e2 as int) % (Q as int) == ((a as int) * (GEN_G as int) + (rnonce as int) * (p as int))
            % (Q as int),
{
    let qq = Q as int;
    lemma_mod_noop_small(e2);
    vstd::arithmetic::div_mod::lemma_mod_twice((rnonce as int) * (p as int), qq);
    vstd::arithmetic::div_mod::lemma_mod_twice((a as int) * (GEN_G as int), qq);
    lemma_add_cong(
        fmul(rnonce, p) as int,
        (rnonce as int) * (p as int),
        fmul(a, GEN_G) as int,
        (a as int) * (GEN_G as int),
    );
}

/// Commitment rows of the two-encryption relation.
#[verifier::rlimit(100)]
#[verifier::spinoff_prover]
proof fn lemma_pres2_statement_comm(
    ip: u64,
    p1: u64,
    p2: u64,
    cred: Credential,
    z: u64,
    a1: u64,
    a2: u64,
    a3: u64,
    e11: u64,
    e12: u64,
    e21: u64,
    e22: u64,
    r1: u64,
    r2: u64,
)
    requires
        ip < Q,
        p1 < Q,
        p2 < Q,
        cred.u_point < Q,
        cred.v_point < Q,
        z < Q,
        a1 < Q,
        a2 < Q,
        a3 < Q,
        r1 < Q,
        r2 < Q,
    ensures
        ({
            let pc = honest_commitments(z, cred, a1, a2, a3);
            let rows = pres2_rows(ip, cred.u_point, p1, p2);
            let publics = pres2_publics(fmul(z, ip), pc, a3, e11, e12, e21, e22);
            let w = seq![z, a1, a2, a3, r1, r2, 0u64];
            let qq = Q as int;
            &&& publics[0] as int == dot(w, rows[0]) % qq
            &&& publics[1] as int == dot(w, rows[1]) % qq
        }),
{
    let u = cred.u_point;
    let pc = honest_commitments(z, cred, a1, a2, a3);
    let rows = pres2_rows(ip, u, p1, p2);
    let w = seq![z, a1, a2, a3, r1, r2, 0u64];
    lemma_dot7(w, rows[0]);
    lemma_dot7(w, rows[1]);
    lemma_hidden_slot(z, GEN_A1, a1, u, pc.c_1);
}

/// Second half of the commitment rows.
#[verifier::rlimit(100)]
#[verifier::spinoff_prover]
proof fn lemma_pres2_statement_comm2(
    ip: u64,
    p1: u64,
    p2: u64,
    cred: Credential,
    z: u64,
    a1: u64,
    a2: u64,
    a3: u64,
    e11: u64,
    e12: u64,
    e21: u64,
    e22: u64,
    r1: u64,
    r2: u64,
)
    requires
        ip < Q,
        p1 < Q,
        p2 < Q,
        cred.u_point < Q,
        cred.v_point < Q,
        z < Q,
        a1 < Q,
        a2 < Q,
        a3 < Q,
        r1 < Q,
        r2 < Q,
    ensures
        ({
            let pc = honest_commitments(z, cred, a1, a2, a3);
            let rows = pres2_rows(ip, cred.u_point, p1, p2);
            let publics = pres2_publics(fmul(z, ip), pc, a3, e11, e12, e21, e22);
            let w = seq![z, a1, a2, a3, r1, r2, 0u64];
            let qq = Q as int;
            &&& publics[2] as int == dot(w, rows[2]) % qq
        }),
{
    let u = cred.u_point;
    let pc = honest_commitments(z, cred, a1, a2, a3);
    let rows = pres2_rows(ip, u, p1, p2);
    let w = seq![z, a1, a2, a3, r1, r2, 0u64];
    lemma_dot7(w, rows[2]);
    lemma_hidden_slot(z, GEN_A2, a2, u, pc.c_2);
}

/// The disclosed slot's row.
#[verifier::rlimit(100)]
#[verifier::spinoff_prover]
proof fn lemma_pres2_statement_comm3(
    ip: u64,
    p1: u64,
    p2: u64,
    cred: Credential,
    z: u64,
    a1: u64,
    a2: u64,
    a3: u64,
    e11: u64,
    e12: u64,
    e21: u64,
    e22: u64,
    r1: u64,
    r2: u64,
)
    requires
        ip < Q,
        p1 < Q,
        p2 < Q,
        cred.u_point < Q,
        cred.v_point < Q,
        z < Q,
        a1 < Q,
        a2 < Q,
        a3 < Q,
        r1 < Q,
        r2 < Q,
    ensures
        ({
            let pc = honest_commitments(z, cred, a1, a2, a3);
            let rows = pres2_rows(ip, cred.u_point, p1, p2);
            let publics = pres2_publics(fmul(z, ip), pc, a3, e11, e12, e21, e22);
            let w = seq![z, a1, a2, a3, r1, r2, 0u64];
            let qq = Q as int;
            publics[3] as int == dot(w, rows[3]) % qq
        }),
{
    let u = cred.u_point;
    let pc = honest_commitments(z, cred, a1, a2, a3);
    let rows = pres2_rows(ip, u, p1, p2);
    let w = seq![z, a1, a2, a3, r1, r2, 0u64];
    lemma_dot7(w, rows[3]);
    lemma_public_slot(z, GEN_A3, a3, u, pc.c_3);
}

/// Encryption rows of the two-encryption relation.
#[verifier::rlimit(100)]
#[verifier::spinoff_prover]
proof fn lemma_pres2_statement_enc(
    ip: u64,
    p1: u64,
    p2: u64,
    cred: Credential,
    z: u64,
    a1: u64,
    a2: u64,
    a3: u64,
    e11: u64,
    e12: u64,
    e21: u64,
    e22: u64,
    r1: u64,
    r2: u64,
)
    requires
        ip < Q,
        p1 < Q,
        p2 < Q,
        cred.u_point < Q,
        cred.v_point < Q,
        z < Q,
        a1 < Q,
        a2 < Q,
        a3 < Q,
        r1 < Q,
        r2 < Q,
        e11 == elgamal::spec_encrypt(p1, fmul(a1, GEN_G), r1).e1,
        e12 == elgamal::spec_encrypt(p1, fmul(a1, GEN_G), r1).e2,
    ensures
        ({
            let pc = honest_commitments(z, cred, a1, a2, a3);
            let rows = pres2_rows(ip, cred.u_point, p1, p2);
            let publics = pres2_publics(fmul(z, ip), pc, a3, e11, e12, e21, e22);
            let w = seq![z, a1, a2, a3, r1, r2, 0u64];
            let qq = Q as int;
            &&& publics[4] as int == dot(w, rows[4]) % qq
            &&& publics[5] as int == dot(w, rows[5]) % qq
        }),
{
    let u = cred.u_point;
    let rows = pres2_rows(ip, u, p1, p2);
    let w = seq![z, a1, a2, a3, r1, r2, 0u64];
    lemma_dot7(w, rows[4]);
    lemma_dot7(w, rows[5]);
    lemma_enc_slot(p1, a1, r1, e12);
}

/// Second encryption's rows.
#[verifier::rlimit(100)]
#[verifier::spinoff_prover]
proof fn lemma_pres2_statement_enc2(
    ip: u64,
    p1: u64,
    p2: u64,
    cred: Credential,
    z: u64,
    a1: u64,
    a2: u64,
    a3: u64,
    e11: u64,
    e12: u64,
    e21: u64,
    e22: u64,
    r1: u64,
    r2: u64,
)
    requires
        ip < Q,
        p1 < Q,
        p2 < Q,
        cred.u_point < Q,
        cred.v_point < Q,
        z < Q,
        a1 < Q,
        a2 < Q,
        a3 < Q,
        r1 < Q,
        r2 < Q,
        e21 == elgamal::spec_encrypt(p2, fmul(a2, GEN_G), r2).e1,
        e22 == elgamal::spec_encrypt(p2, fmul(a2, GEN_G), r2).e2,
    ensures
        ({
            let pc = honest_commitments(z, cred, a1, a2, a3);
            let rows = pres2_rows(ip, cred.u_point, p1, p2);
            let publics = pres2_publics(fmul(z, ip), pc, a3, e11, e12, e21, e22);
            let w = seq![z, a1, a2, a3, r1, r2, 0u64];
            let qq = Q as int;
            &&& publics[6] as int == dot(w, rows[6]) % qq
            &&& publics[7] as int == dot(w, rows[7]) % qq
        }),
{
    let u = cred.u_point;
    let rows = pres2_rows(ip, u, p1, p2);
    let w = seq![z, a1, a2, a3, r1, r2, 0u64];
    lemma_dot7(w, rows[6]);
    lemma_dot7(w, rows[7]);
    lemma_enc_slot(p2, a2, r2, e22);
}

/// The honest two-encryption transcript satisfies its relation.
#[verifier::rlimit(100)]
#[verifier::spinoff_prover]
proof fn lemma_pres2_statement(
    ip: u64,
    p1: u64,
    p2: u64,
    cred: Credential,
    z: u64,
    a1: u64,
    a2: u64,
    a3: u64,
    e11: u64,
    e12: u64,
    e21: u64,
    e22: u64,
    r1: u64,
    r2: u64,
)
    requires
        ip < Q,
        p1 < Q,
        p2 < Q,
        cred.u_point < Q,
        cred.v_point < Q,
        z < Q,
        a1 < Q,
        a2 < Q,
        a3 < Q,
        r1 < Q,
        r2 < Q,
        e11 == elgamal::spec_encrypt(p1, fmul(a1, GEN_G), r1).e1,
        e12 == elgamal::spec_encrypt(p1, fmul(a1, GEN_G), r1).e2,
        e21 == elgamal::spec_encrypt(p2, fmul(a2, GEN_G), r2).e1,
        e22 == elgamal::spec_encrypt(p2, fmul(a2, GEN_G), r2).e2,
    ensures
        sigma::statement_holds(
            pres2_rows(ip, cred.u_point, p1, p2),
            pres2_publics(
                fmul(z, ip),
                honest_commitments(z, cred, a1, a2, a3),
                a3,
                e11,
                e12,
                e21,
                e22,
            ),
            seq![z, a1, a2, a3, r1, r2, 0u64],
        ),
{
    let rows = pres2_rows(ip, cred.u_point, p1, p2);
    let publics = pres2_publics(
        fmul(z, ip),
        honest_commitments(z, cred, a1, a2, a3),
        a3,
        e11,
        e12,
        e21,
        e22,
    );
    let w = seq![z, a1, a2, a3, r1, r2, 0u64];
    lemma_pres2_statement_comm(ip, p1, p2, cred, z, a1, a2, a3, e11, e12, e21, e22, r1, r2);
    lemma_pres2_statement_comm2(ip, p1, p2, cred, z, a1, a2, a3, e11, e12, e21, e22, r1, r2);
    lemma_pres2_statement_comm3(ip, p1, p2, cred, z, a1, a2, a3, e11, e12, e21, e22, r1, r2);
    lemma_pres2_statement_enc(ip, p1, p2, cred, z, a1, a2, a3, e11, e12, e21, e22, r1, r2);
    lemma_pres2_statement_enc2(ip, p1, p2, cred, z, a1, a2, a3, e11, e12, e21, e22, r1, r2);
    assert forall|i: int| 0 <= i < rows.len() implies publics[i] as int == dot(
        w,
        #[trigger] rows[i],
    ) % (Q as int) by {
        assert(0 <= i < 8);
    }
}

/// An honest two-encryption prover's output verifies against the
/// prover-side target.
#[verifier::rlimit(100)]
#[verifier::spinoff_prover]
proof fn lemma_pres2_prove_ok(
    label: u64,
    ip: u64,
    p1: u64,
    p2: u64,
    cred: Credential,
    z: u64,
    a1: u64,
    a2: u64,
    a3: u64,
    e11: u64,
    e12: u64,
    e21: u64,
    e22: u64,
    r1: u64,
    r2: u64,
    state: u64,
)
    requires
        ip < Q,
        p1 < Q,
        p2 < Q,
        cred.u_point < Q,
        cred.v_point < Q,
        z < Q,
        a1 < Q,
        a2 < Q,
        a3 < Q,
        r1 < Q,
        r2 < Q,
        e11 == elgamal::spec_encrypt(p1, fmul(a1, GEN_G), r1).e1,
        e12 == elgamal::spec_encrypt(p1, fmul(a1, GEN_G), r1).e2,
        e21 == elgamal::spec_encrypt(p2, fmul(a2, GEN_G), r2).e1,
        e22 == elgamal::spec_encrypt(p2, fmul(a2, GEN_G), r2).e2,
    ensures
        ({
            let rows = pres2_rows(ip, cred.u_point, p1, p2);
            let publics = pres2_publics(
                fmul(z, ip),
                honest_commitments(z, cred, a1, a2, a3),
                a3,
                e11,
                e12,
                e21,
                e22,
            );
            let w = seq![z, a1, a2, a3, r1, r2, 0u64];
            spec_verify(
                label,
                rows,
                publics,
                7,
                sigma::spec_prove(label, rows, publics, w, state).0,
                sigma::spec_prove(label, rows, publics, w, state).1,
            )
        }),
{
    let rows = pres2_rows(ip, cred.u_point, p1, p2);
    let publics = pres2_publics(
        fmul(z, ip),
        honest_commitments(z, cred, a1, a2, a3),
        a3,
        e11,
        e12,
        e21,
        e22,
    );
    let w = seq![z, a1, a2, a3, r1, r2, 0u64];
    lemma_pres2_statement(ip, p1, p2, cred, z, a1, a2, a3, e11, e12, e21, e22, r1, r2);
    assert(sigma::rows_ok(rows, 7)) by {
        assert forall|i: int| 0 <= i < rows.len() implies (#[trigger] rows[i]).len() == 7
            && sigma::scalars_ok(rows[i]) by {
            assert(rows[i].len() == 7);
        }
    }
    sigma::lemma_pok_completeness(label, rows, publics, w, state);
}

/// Presentation proof for the two-encryption shape.
pub struct ProfileKeyCredentialPresentationProof {
    pub pok: PokProof,
    pub commitments: PresentationCommitments,
}

impl ProfileKeyCredentialPresentationProof {
    /// Holder side.
    #[verifier::rlimit(100)]
    #[verifier::spinoff_prover]
    pub fn new(
        label: u64,
        public_key: &crate::credentials::CredentialPublicKey,
        enc_public1: u64,
        enc_public2: u64,
        credential: Credential,
        a1: u64,
        a2: u64,
        a3: u64,
        ciphertext1: &elgamal::CiphertextWithSecretNonce,
        ciphertext2: &elgamal::CiphertextWithSecretNonce,
        sho: &mut Sho,
    ) -> (r: ProfileKeyCredentialPresentationProof)
        requires
            crate::issuance_proofs::public_key_reduced(*public_key),
            enc_public1 < Q,
            enc_public2 < Q,
            credential.u_point < Q,
            credential.v_point < Q,
            credential.u_point != 0,
            a1 < Q,
            a2 < Q,
            a3 < Q,
            ciphertext1.r < Q,
            ciphertext2.r < Q,
            ciphertext1.e1 == elgamal::spec_encrypt(
                enc_public1,
                fmul(a1, GEN_G),
                ciphertext1.r,
            ).e1,
            ciphertext1.e2 == elgamal::spec_encrypt(
                enc_public1,
                fmul(a1, GEN_G),
                ciphertext1.r,
            ).e2,
            ciphertext2.e1 == elgamal::spec_encrypt(
                enc_public2,
                fmul(a2, GEN_G),
                ciphertext2.r,
            ).e1,
            ciphertext2.e2 == elgamal::spec_encrypt(
                enc_public2,
                fmul(a2, GEN_G),
                ciphertext2.r,
            ).e2,
        ensures
            r.commitments == honest_commitments(
                spec_sho_scalar(old(sho).state),
                credential,
                a1,
                a2,
                a3,
            ),
            r.pok.challenge == sigma::spec_prove(
                label,
                pres2_rows(
                    public_key.i_point,
                    credential.u_point,
                    enc_public1,
                    enc_public2,
                ),
                pres2_publics(
                    fmul(spec_sho_scalar(old(sho).state), public_key.i_point),
                    honest_commitments(spec_sho_scalar(old(sho).state), credential, a1, a2, a3),
                    a3,
                    ciphertext1.e1,
                    ciphertext1.e2,
                    ciphertext2.e1,
                    ciphertext2.e2,
                ),
                seq![spec_sho_scalar(old(sho).state), a1, a2, a3, ciphertext1.r, ciphertext2.r, 0u64],
                spec_sho_state_after(old(sho).state, 1),
            ).0,
            r.pok.responses@ == sigma::spec_prove(
                label,
                pres2_rows(
                    public_key.i_point,
                    credential.u_point,
                    enc_public1,
                    enc_public2,
                ),
                pres2_publics(
                    fmul(spec_sho_scalar(old(sho).state), public_key.i_point),
                    honest_commitments(spec_sho_scalar(old(sho).state), credential, a1, a2, a3),
                    a3,
                    ciphertext1.e1,
                    ciphertext1.e2,
                    ciphertext2.e1,
                    ciphertext2.e2,
                ),
                seq![spec_sho_scalar(old(sho).state), a1, a2, a3, ciphertext1.r, ciphertext2.r, 0u64],
                spec_sho_state_after(old(sho).state, 1),
            ).1,
            final(sho).state == spec_sho_state_after(old(sho).state, 8),
            forall|kp: CredentialKeyPair|
                keypair_wf(kp) && kp.public_key == *public_key && credential_valid(
                    kp,
                    credential,
                    a1,
                    a2,
                    a3,
                ) ==> spec_pres2_accepts(
                    label,
                    kp,
                    enc_public1,
                    enc_public2,
                    a3,
                    elgamal::Ciphertext { e1: ciphertext1.e1, e2: ciphertext1.e2 },
                    elgamal::Ciphertext { e1: ciphertext2.e1, e2: ciphertext2.e2 },
                    r.commitments,
                    r.pok.challenge,
                    r.pok.responses@,
                ),
    {
        proof {
            crate::sho::lemma_sho_state_unroll(old(sho).state);
            crate::sho::lemma_sho_state_compose(old(sho).state, 1, 7);
        }
        let ghost state0 = sho.state;
        let z = sho.next_scalar();
        let pc = honest_commitments_exec(z, credential, a1, a2, a3);
        let zt = sc_mul(z, public_key.i_point);
        let rows = pres2_rows_exec(
            public_key.i_point,
            credential.u_point,
            enc_public1,
            enc_public2,
        );
        let mut publics: Vec<u64> = Vec::new();
        publics.push(zt);
        publics.push(pc.c_1);
        publics.push(pc.c_2);
        publics.push(sc_sub(pc.c_3, sc_mul(a3, pc.u_point)));
        publics.push(ciphertext1.e1);
        publics.push(ciphertext1.e2);
        publics.push(ciphertext2.e1);
        publics.push(ciphertext2.e2);
        let witness = sigma::row7(z, a1, a2, a3, ciphertext1.r, ciphertext2.r, 0);
        proof {
            assert(publics@ =~= pres2_publics(
                zt,
                pc,
                a3,
                ciphertext1.e1,
                ciphertext1.e2,
                ciphertext2.e1,
                ciphertext2.e2,
            ));
            lemma_pres2_prove_ok(
                label,
                public_key.i_point,
                enc_public1,
                enc_public2,
                credential,
                z,
                a1,
                a2,
                a3,
                ciphertext1.e1,
                ciphertext1.e2,
                ciphertext2.e1,
                ciphertext2.e2,
                ciphertext1.r,
                ciphertext2.r,
                spec_sho_state_after(state0, 1),
            );
        }
        let pok = sigma::prove(label, &rows, &publics, &witness, sho);
        proof {
            assert forall|kp: CredentialKeyPair|
                keypair_wf(kp) && kp.public_key == *public_key && credential_valid(
                    kp,
                    credential,
                    a1,
                    a2,
                    a3,
                ) implies spec_pres2_accepts(
                label,
                kp,
                enc_public1,
                enc_public2,
                a3,
                elgamal::Ciphertext { e1: ciphertext1.e1, e2: ciphertext1.e2 },
                elgamal::Ciphertext { e1: ciphertext2.e1, e2: ciphertext2.e2 },
                pc,
                pok.challenge,
                pok.responses@,
            ) by {
                lemma_presentation_target(kp, credential, z, a1, a2, a3);
                assert(pres2_publics(
                    z_target(kp, pc),
                    pc,
                    a3,
                    ciphertext1.e1,
                    ciphertext1.e2,
                    ciphertext2.e1,
                    ciphertext2.e2,
                ) =~= publics@);
            }
        }
        ProfileKeyCredentialPresentationProof { pok, commitments: pc }
    }

    /// Verifier side.
    pub fn verify(
        &self,
        label: u64,
        key_pair: &CredentialKeyPair,
        enc_public1: u64,
        enc_public2: u64,
        a3: u64,
        ciphertext1: elgamal::Ciphertext,
        ciphertext2: elgamal::Ciphertext,
    ) -> (r: Result<(), ZkGroupVerificationFailure>)
        requires
            keypair_wf(*key_pair),
            enc_public1 < Q,
            enc_public2 < Q,
            a3 < Q,
        ensures
            r is Ok <==> spec_pres2_accepts(
                label,
                *key_pair,
                enc_public1,
                enc_public2,
                a3,
                ciphertext1,
                ciphertext2,
                self.commitments,
                self.pok.challenge,
                self.pok.responses@,
            ),
    {
        let pc = &self.commitments;
        if pc.u_point == 0 || pc.u_point >= Q || pc.c_v >= Q || pc.c_1 >= Q || pc.c_2 >= Q
            || pc.c_3 >= Q || ciphertext1.e1 >= Q || ciphertext1.e2 >= Q || ciphertext2.e1 >= Q
            || ciphertext2.e2 >= Q {
            return Err(ZkGroupVerificationFailure);
        }
        let zt = z_target_exec(key_pair, pc);
        let rows = pres2_rows_exec(
            key_pair.public_key.i_point,
            pc.u_point,
            enc_public1,
            enc_public2,
        );
        let mut publics: Vec<u64> = Vec::new();
        publics.push(zt);
        publics.push(pc.c_1);
        publics.push(pc.c_2);
        publics.push(sc_sub(pc.c_3, sc_mul(a3, pc.u_point)));
        publics.push(ciphertext1.e1);
        publics.push(ciphertext1.e2);
        publics.push(ciphertext2.e1);
        publics.push(ciphertext2.e2);
        proof {
            assert(publics@ =~= pres2_publics(
                z_target(*key_pair, *pc),
                *pc,
                a3,
                ciphertext1.e1,
                ciphertext1.e2,
                ciphertext2.e1,
                ciphertext2.e2,
            ));
        }
        sigma::verify(label, &rows, &publics, 7, &self.pok)
    }
}


// ---------------------------------------------------------------------
// Generic single-row facts, each proved in a small context.
// ---------------------------------------------------------------------

/// The target row.
#[verifier::spinoff_prover]
proof fn lemma_row_z(w: Seq<u64>, ip: u64)
    requires
        w.len() == 7,
    ensures
        fmul(w[0], ip) as int == dot(w, seq![ip, 0u64, 0u64, 0u64, 0u64, 0u64, 0u64]) % (Q as int),
{
    let b = seq![ip, 0u64, 0u64, 0u64, 0u64, 0u64, 0u64];
    lemma_dot7(w, b);
    assert(b[0] == ip && b[1] == 0u64 && b[2] == 0u64 && b[3] == 0u64 && b[4] == 0u64 && b[5]
        == 0u64 && b[6] == 0u64);
    assert(dot(w, b) == (w[0] as int) * (ip as int) + (w[1] as int) * 0 + (w[2] as int) * 0 + (
    w[3] as int) * 0 + (w[4] as int) * 0 + (w[5] as int) * 0 + (w[6] as int) * 0);
    assert(dot(w, b) == (w[0] as int) * (ip as int));
    vstd::arithmetic::div_mod::lemma_mod_twice((w[0] as int) * (ip as int), Q as int);
}

/// A hidden slot's commitment row, attribute at the given index.
#[verifier::spinoff_prover]
proof fn lemma_row_hidden(w: Seq<u64>, gen: u64, u: u64, c: u64, idx: int, b: Seq<u64>)
    requires
        w.len() == 7,
        b.len() == 7,
        1 <= idx <= 3,
        b[0] == gen,
        forall|j: int| 1 <= j < 7 && j != idx ==> b[j] == 0u64,
        b[idx] == u,
        c == fadd(fmul(w[0], gen), fmul(w[idx], u)),
    ensures
        c as int == dot(w, b) % (Q as int),
{
    let qq = Q as int;
    lemma_dot7(w, b);
    vstd::arithmetic::div_mod::lemma_mod_twice((w[0] as int) * (gen as int), qq);
    vstd::arithmetic::div_mod::lemma_mod_twice((w[idx] as int) * (u as int), qq);
    lemma_add_cong(
        fmul(w[0], gen) as int,
        (w[0] as int) * (gen as int),
        fmul(w[idx], u) as int,
        (w[idx] as int) * (u as int),
    );
    vstd::arithmetic::div_mod::lemma_mod_bound(
        (fmul(w[0], gen) as int) + (fmul(w[idx], u) as int),
        qq,
    );
    lemma_mod_noop_small(c);
}

/// A disclosed slot's row: the attribute term cancels.
#[verifier::spinoff_prover]
proof fn lemma_row_public(w: Seq<u64>, gen: u64, a: u64, u: u64, c: u64)
    requires
        w.len() == 7,
        a < Q,
        u < Q,
        c == fadd(fmul(w[0], gen), fmul(a, u)),
    ensures
        fsub(c, fmul(a, u)) as int == dot(
            w,
            seq![gen, 0u64, 0u64, 0u64, 0u64, 0u64, 0u64],
        ) % (Q as int),
{
    let qq = Q as int;
    lemma_dot7(w, seq![gen, 0u64, 0u64, 0u64, 0u64, 0u64, 0u64]);
    vstd::arithmetic::div_mod::lemma_mod_bound(
        (fmul(w[0], gen) as int) + (fmul(a, u) as int),
        qq,
    );
    lemma_mod_noop_small(c);
    lemma_sub_cong(
        c as int,
        (fmul(w[0], gen) as int) + (fmul(a, u) as int),
        fmul(a, u) as int,
        fmul(a, u) as int,
    );
    vstd::arithmetic::div_mod::lemma_mod_twice((w[0] as int) * (gen as int), qq);
}

/// A first ciphertext component's row, nonce at the given index.
#[verifier::spinoff_prover]
proof fn lemma_row_e1(w: Seq<u64>, e1: u64, idx: int, b: Seq<u64>)
    requires
        w.len() == 7,
        b.len() == 7,
        4 <= idx <= 6,
        forall|j: int| 0 <= j < 7 && j != idx ==> b[j] == 0u64,
        b[idx] == GEN_G,
        e1 == fmul(w[idx], GEN_G),
    ensures
        e1 as int == dot(w, b) % (Q as int),
{
    lemma_dot7(w, b);
    vstd::arithmetic::div_mod::lemma_mod_twice((w[idx] as int) * (GEN_G as int), Q as int);
}

/// A second ciphertext component's row: attribute at `aidx`, nonce at
/// `ridx`, encryption key as the nonce's base.
#[verifier::spinoff_prover]
proof fn lemma_row_e2(w: Seq<u64>, p: u64, e2: u64, aidx: int, ridx: int, b: Seq<u64>)
    requires
        w.len() == 7,
        b.len() == 7,
        1 <= aidx <= 3,
        4 <= ridx <= 6,
        forall|j: int| 0 <= j < 7 && j != aidx && j != ridx ==> b[j] == 0u64,
        b[aidx] == GEN_G,
        b[ridx] == p,
        e2 == fadd(fmul(w[ridx], p), fmul(w[aidx], GEN_G)),
    ensures
        e2 as int == dot(w, b) % (Q as int),
{
    let qq = Q as int;
    lemma_dot7(w, b);
    vstd::arithmetic::div_mod::lemma_mod_twice((w[ridx] as int) * (p as int), qq);
    vstd::arithmetic::div_mod::lemma_mod_twice((w[aidx] as int) * (GEN_G as int), qq);
    lemma_add_cong(
        fmul(w[ridx], p) as int,
        (w[ridx] as int) * (p as int),
        fmul(w[aidx], GEN_G) as int,
        (w[aidx] as int) * (GEN_G as int),
    );
    vstd::arithmetic::div_mod::lemma_mod_bound(
        (fmul(w[ridx], p) as int) + (fmul(w[aidx], GEN_G) as int),
        qq,
    );
    lemma_mod_noop_small(e2);
}

// ---------------------------------------------------------------------
// Shape with three encrypted attributes: the PNI presentations.
// ---------------------------------------------------------------------

/// Rows of the three-encryption presentation relation.
pub open spec fn pres3_rows(ip: u64, u: u64, p1: u64, p2: u64, p3: u64) -> Seq<Seq<u64>> {
    seq![
        seq![ip, 0u64, 0u64, 0u64, 0u64, 0u64, 0u64],
        seq![GEN_A1, u, 0u64, 0u64, 0u64, 0u64, 0u64],
        seq![GEN_A2, 0u64, u, 0u64, 0u64, 0u64, 0u64],
        seq![GEN_A3, 0u64, 0u64, u, 0u64, 0u64, 0u64],
        seq![0u64, 0u64, 0u64, 0u64, GEN_G, 0u64, 0u64],
        seq![0u64, GEN_G, 0u64, 0u64, p1, 0u64, 0u64],
        seq![0u64, 0u64, 0u64, 0u64, 0u64, GEN_G, 0u64],
        seq![0u64, 0u64, GEN_G, 0u64, 0u64, p2, 0u64],
        seq![0u64, 0u64, 0u64, 0u64, 0u64, 0u64, GEN_G],
        seq![0u64, 0u64, 0u64, GEN_G, 0u64, 0u64, p3],
    ]
}

/// Public values of the three-encryption presentation relation.
pub open spec fn pres3_publics(
    zt: u64,
    pc: PresentationCommitments,
    e11: u64,
    e12: u64,
    e21: u64,
    e22: u64,
    e31: u64,
    e32: u64,
) -> Seq<u64> {
    seq![zt, pc.c_1, pc.c_2, pc.c_3, e11, e12, e21, e22, e31, e32]
}

/// Exactly when the verifier accepts a three-encryption presentation.
pub open spec fn spec_pres3_accepts(
    label: u64,
    kp: CredentialKeyPair,
    p1: u64,
    p2: u64,
    p3: u64,
    ct1: elgamal::Ciphertext,
    ct2: elgamal::Ciphertext,
    ct3: elgamal::Ciphertext,
    pc: PresentationCommitments,
    c: u64,
    zs: Seq<u64>,
) -> bool {
    &&& pc.u_point != 0
    &&& commitments_reduced(pc)
    &&& ct1.e1 < Q
    &&& ct1.e2 < Q
    &&& ct2.e1 < Q
    &&& ct2.e2 < Q
    &&& ct3.e1 < Q
    &&& ct3.e2 < Q
    &&& spec_verify(
        label,
        pres3_rows(kp.public_key.i_point, pc.u_point, p1, p2, p3),
        pres3_publics(z_target(kp, pc), pc, ct1.e1, ct1.e2, ct2.e1, ct2.e2, ct3.e1, ct3.e2),
        7,
        c,
        zs,
    )
}

fn pres3_rows_exec(ip: u64, u: u64, p1: u64, p2: u64, p3: u64) -> (r: Vec<Vec<u64>>)
    requires
        ip < Q,
        u < Q,
        p1 < Q,
        p2 < Q,
        p3 < Q,
    ensures
        r.deep_view() == pres3_rows(ip, u, p1, p2, p3),
        sigma::rows_ok(r.deep_view(), 7),
        r@.len() == 10,
{
    let mut rows: Vec<Vec<u64>> = Vec::new();
    rows.push(sigma::row7(ip, 0, 0, 0, 0, 0, 0));
    rows.push(sigma::row7(GEN_A1, u, 0, 0, 0, 0, 0));
    rows.push(sigma::row7(GEN_A2, 0, u, 0, 0, 0, 0));
    rows.push(sigma::row7(GEN_A3, 0, 0, u, 0, 0, 0));
    rows.push(sigma::row7(0, 0, 0, 0, GEN_G, 0, 0));
    rows.push(sigma::row7(0, GEN_G, 0, 0, p1, 0, 0));
    rows.push(sigma::row7(0, 0, 0, 0, 0, GEN_G, 0));
    rows.push(sigma::row7(0, 0, GEN_G, 0, 0, p2, 0));
    rows.push(sigma::row7(0, 0, 0, 0, 0, 0, GEN_G));
    rows.push(sigma::row7(0, 0, 0, GEN_G, 0, 0, p3));
    proof {
        assert(rows.deep_view() =~~= pres3_rows(ip, u, p1, p2, p3));
    }
    rows
}

/// The honest three-encryption transcript satisfies its relation.
#[verifier::rlimit(100)]
#[verifier::spinoff_prover]
proof fn lemma_pres3_statement(
    ip: u64,
    p1: u64,
    p2: u64,
    p3: u64,
    cred: Credential,
    z: u64,
    a1: u64,
    a2: u64,
    a3: u64,
    e11: u64,
    e12: u64,
    e21: u64,
    e22: u64,
    e31: u64,
    e32: u64,
    r1: u64,
    r2: u64,
    r3: u64,
)
    requires
        ip < Q,
        p1 < Q,
        p2 < Q,
        p3 < Q,
        cred.u_point < Q,
        cred.v_point < Q,
        z < Q,
        a1 < Q,
        a2 < Q,
        a3 < Q,
        r1 < Q,
        r2 < Q,
        r3 < Q,
        e11 == elgamal::spec_encrypt(p1, fmul(a1, GEN_G), r1).e1,
        e12 == elgamal::spec_encrypt(p1, fmul(a1, GEN_G), r1).e2,
        e21 == elgamal::spec_encrypt(p2, fmul(a2, GEN_G), r2).e1,
        e22 == elgamal::spec_encrypt(p2, fmul(a2, GEN_G), r2).e2,
        e31 == elgamal::spec_encrypt(p3, fmul(a3, GEN_G), r3).e1,
        e32 == elgamal::spec_encrypt(p3, fmul(a3, GEN_G), r3).e2,
    ensures
        sigma::statement_holds(
            pres3_rows(ip, cred.u_point, p1, p2, p3),
            pres3_publics(
                fmul(z, ip),
                honest_commitments(z, cred, a1, a2, a3),
                e11,
                e12,
                e21,
                e22,
                e31,
                e32,
            ),
            seq![z, a1, a2, a3, r1, r2, r3],
        ),
{
    let u = cred.u_point;
    let pc = honest_commitments(z, cred, a1, a2, a3);
    let rows = pres3_rows(ip, u, p1, p2, p3);
    let publics = pres3_publics(fmul(z, ip), pc, e11, e12, e21, e22, e31, e32);
    let w = seq![z, a1, a2, a3, r1, r2, r3];

    lemma_row_z(w, ip);
    lemma_row_hidden(w, GEN_A1, u, pc.c_1, 1, rows[1]);
    lemma_row_hidden(w, GEN_A2, u, pc.c_2, 2, rows[2]);
    lemma_row_hidden(w, GEN_A3, u, pc.c_3, 3, rows[3]);
    lemma_row_e1(w, e11, 4, rows[4]);
    lemma_row_e2(w, p1, e12, 1, 4, rows[5]);
    lemma_row_e1(w, e21, 5, rows[6]);
    lemma_row_e2(w, p2, e22, 2, 5, rows[7]);
    lemma_row_e1(w, e31, 6, rows[8]);
    lemma_row_e2(w, p3, e32, 3, 6, rows[9]);
    assert forall|i: int| 0 <= i < rows.len() implies publics[i] as int == dot(
        w,
        #[trigger] rows[i],
    ) % (Q as int) by {
        assert(0 <= i < 10);
    }
}

/// An honest three-encryption prover's output verifies against the
/// prover-side target.
#[verifier::rlimit(100)]
#[verifier::spinoff_prover]
proof fn lemma_pres3_prove_ok(
    label: u64,
    ip: u64,
    p1: u64,
    p2: u64,
    p3: u64,
    cred: Credential,
    z: u64,
    a1: u64,
    a2: u64,
    a3: u64,
    e11: u64,
    e12: u64,
    e21: u64,
    e22: u64,
    e31: u64,
    e32: u64,
    r1: u64,
    r2: u64,
    r3: u64,
    state: u64,
)
    requires
        ip < Q,
        p1 < Q,
        p2 < Q,
        p3 < Q,
        cred.u_point < Q,
        cred.v_point < Q,
        z < Q,
        a1 < Q,
        a2 < Q,
        a3 < Q,
        r1 < Q,
        r2 < Q,
        r3 < Q,
        e11 == elgamal::spec_encrypt(p1, fmul(a1, GEN_G), r1).e1,
        e12 == elgamal::spec_encrypt(p1, fmul(a1, GEN_G), r1).e2,
        e21 == elgamal::spec_encrypt(p2, fmul(a2, GEN_G), r2).e1,
        e22 == elgamal::spec_encrypt(p2, fmul(a2, GEN_G), r2).e2,
        e31 == elgamal::spec_encrypt(p3, fmul(a3, GEN_G), r3).e1,
        e32 == elgamal::spec_encrypt(p3, fmul(a3, GEN_G), r3).e2,
    ensures
        ({
            let rows = pres3_rows(ip, cred.u_point, p1, p2, p3);
            let publics = pres3_publics(
                fmul(z, ip),
                honest_commitments(z, cred, a1, a2, a3),
                e11,
                e12,
                e21,
                e22,
                e31,
                e32,
            );
            let w = seq![z, a1, a2, a3, r1, r2, r3];
            spec_verify(
                label,
                rows,
                publics,
                7,
                sigma::spec_prove(label, rows, publics, w, state).0,
                sigma::spec_prove(label, rows, publics, w, state).1,
            )
        }),
{
    let rows = pres3_rows(ip, cred.u_point, p1, p2, p3);
    let publics = pres3_publics(
        fmul(z, ip),
        honest_commitments(z, cred, a1, a2, a3),
        e11,
        e12,
        e21,
        e22,
        e31,
        e32,
    );
    let w = seq![z, a1, a2, a3, r1, r2, r3];
    lemma_pres3_statement(
        ip, p1, p2, p3, cred, z, a1, a2, a3, e11, e12, e21, e22, e31, e32, r1, r2, r3,
    );
    assert(sigma::rows_ok(rows, 7)) by {
        assert forall|i: int| 0 <= i < rows.len() implies (#[trigger] rows[i]).len() == 7
            && sigma::scalars_ok(rows[i]) by {
            assert(rows[i].len() == 7);
        }
    }
    sigma::lemma_pok_completeness(label, rows, publics, w, state);
}

/// What an honest three-encryption prover produced is exactly what the
/// verifier accepts, for any issuer key pair behind the public key.
#[verifier::rlimit(100)]
#[verifier::spinoff_prover]
proof fn lemma_pres3_accepts_honest(
    label: u64,
    kp: CredentialKeyPair,
    p1: u64,
    p2: u64,
    p3: u64,
    cred: Credential,
    z: u64,
    a1: u64,
    a2: u64,
    a3: u64,
    e11: u64,
    e12: u64,
    e21: u64,
    e22: u64,
    e31: u64,
    e32: u64,
    c: u64,
    zs: Seq<u64>,
)
    requires
        keypair_wf(kp),
        credential_valid(kp, cred, a1, a2, a3),
        p1 < Q,
        p2 < Q,
        p3 < Q,
        z < Q,
        a1 < Q,
        a2 < Q,
        a3 < Q,
        e11 < Q,
        e12 < Q,
        e21 < Q,
        e22 < Q,
        e31 < Q,
        e32 < Q,
        spec_verify(
            label,
            pres3_rows(kp.public_key.i_point, cred.u_point, p1, p2, p3),
            pres3_publics(
                fmul(z, kp.public_key.i_point),
                honest_commitments(z, cred, a1, a2, a3),
                e11,
                e12,
                e21,
                e22,
                e31,
                e32,
            ),
            7,
            c,
            zs,
        ),
    ensures
        spec_pres3_accepts(
            label,
            kp,
            p1,
            p2,
            p3,
            elgamal::Ciphertext { e1: e11, e2: e12 },
            elgamal::Ciphertext { e1: e21, e2: e22 },
            elgamal::Ciphertext { e1: e31, e2: e32 },
            honest_commitments(z, cred, a1, a2, a3),
            c,
            zs,
        ),
{
    let pc = honest_commitments(z, cred, a1, a2, a3);
    lemma_presentation_target(kp, cred, z, a1, a2, a3);
    assert(pres3_publics(z_target(kp, pc), pc, e11, e12, e21, e22, e31, e32) =~= pres3_publics(
        fmul(z, kp.public_key.i_point),
        pc,
        e11,
        e12,
        e21,
        e22,
        e31,
        e32,
    ));
    assert(commitments_reduced(pc)) by {
        vstd::arithmetic::div_mod::lemma_mod_bound(
            (fmul(z, GEN_V) as int) + (cred.v_point as int),
            Q as int,
        );
        vstd::arithmetic::div_mod::lemma_mod_bound(
            (fmul(z, GEN_A1) as int) + (fmul(a1, cred.u_point) as int),
            Q as int,
        );
        vstd::arithmetic::div_mod::lemma_mod_bound(
            (fmul(z, GEN_A2) as int) + (fmul(a2, cred.u_point) as int),
            Q as int,
        );
        vstd::arithmetic::div_mod::lemma_mod_bound(
            (fmul(z, GEN_A3) as int) + (fmul(a3, cred.u_point) as int),
            Q as int,
        );
    }
}

/// Build the three-encryption proof for already-drawn blinding scalar
/// and commitments.
#[verifier::rlimit(100)]
#[verifier::spinoff_prover]
fn pres3_prove_exec(
    label: u64,
    ip: u64,
    p1: u64,
    p2: u64,
    p3: u64,
    credential: Credential,
    a1: u64,
    a2: u64,
    a3: u64,
    ciphertext1: &elgamal::CiphertextWithSecretNonce,
    ciphertext2: &elgamal::CiphertextWithSecretNonce,
    ciphertext3: &elgamal::CiphertextWithSecretNonce,
    z: u64,
    pc: PresentationCommitments,
    sho: &mut Sho,
) -> (pok: PokProof)
    requires
        ip < Q,
        p1 < Q,
        p2 < Q,
        p3 < Q,
        credential.u_point < Q,
        credential.v_point < Q,
        z < Q,
        a1 < Q,
        a2 < Q,
        a3 < Q,
        ciphertext1.r < Q,
        ciphertext2.r < Q,
        ciphertext3.r < Q,
        ciphertext1.e1 == elgamal::spec_encrypt(p1, fmul(a1, GEN_G), ciphertext1.r).e1,
        ciphertext1.e2 == elgamal::spec_encrypt(p1, fmul(a1, GEN_G), ciphertext1.r).e2,
        ciphertext2.e1 == elgamal::spec_encrypt(p2, fmul(a2, GEN_G), ciphertext2.r).e1,
        ciphertext2.e2 == elgamal::spec_encrypt(p2, fmul(a2, GEN_G), ciphertext2.r).e2,
        ciphertext3.e1 == elgamal::spec_encrypt(p3, fmul(a3, GEN_G), ciphertext3.r).e1,
        ciphertext3.e2 == elgamal::spec_encrypt(p3, fmul(a3, GEN_G), ciphertext3.r).e2,
        pc == honest_commitments(z, credential, a1, a2, a3),
    ensures
        pok.challenge == sigma::spec_prove(
            label,
            pres3_rows(ip, credential.u_point, p1, p2, p3),
            pres3_publics(
                fmul(z, ip),
                pc,
                ciphertext1.e1,
                ciphertext1.e2,
                ciphertext2.e1,
                ciphertext2.e2,
                ciphertext3.e1,
                ciphertext3.e2,
            ),
            seq![z, a1, a2, a3, ciphertext1.r, ciphertext2.r, ciphertext3.r],
            old(sho).state,
        ).0,
        pok.responses@ == sigma::spec_prove(
            label,
            pres3_rows(ip, credential.u_point, p1, p2, p3),
            pres3_publics(
                fmul(z, ip),
                pc,
                ciphertext1.e1,
                ciphertext1.e2,
                ciphertext2.e1,
                ciphertext2.e2,
                ciphertext3.e1,
                ciphertext3.e2,
            ),
            seq![z, a1, a2, a3, ciphertext1.r, ciphertext2.r, ciphertext3.r],
            old(sho).state,
        ).1,
        spec_verify(
            label,
            pres3_rows(ip, credential.u_point, p1, p2, p3),
            pres3_publics(
                fmul(z, ip),
                pc,
                ciphertext1.e1,
                ciphertext1.e2,
                ciphertext2.e1,
                ciphertext2.e2,
                ciphertext3.e1,
                ciphertext3.e2,
            ),
            7,
            pok.challenge,
            pok.responses@,
        ),
        final(sho).state == spec_sho_state_after(old(sho).state, 7),
{
    let zt = sc_mul(z, ip);
    let rows = pres3_rows_exec(ip, credential.u_point, p1, p2, p3);
    let mut publics: Vec<u64> = Vec::new();
    publics.push(zt);
    publics.push(pc.c_1);
    publics.push(pc.c_2);
    publics.push(pc.c_3);
    publics.push(ciphertext1.e1);
    publics.push(ciphertext1.e2);
    publics.push(ciphertext2.e1);
    publics.push(ciphertext2.e2);
    publics.push(ciphertext3.e1);
    publics.push(ciphertext3.e2);
    let witness = sigma::row7(
        z,
        a1,
        a2,
        a3,
        ciphertext1.r,
        ciphertext2.r,
        ciphertext3.r,
    );
    proof {
        assert(publics@ =~= pres3_publics(
            zt,
            pc,
            ciphertext1.e1,
            ciphertext1.e2,
            ciphertext2.e1,
            ciphertext2.e2,
            ciphertext3.e1,
            ciphertext3.e2,
        ));
        lemma_pres3_prove_ok(
            label,
            ip,
            p1,
            p2,
            p3,
            credential,
            z,
            a1,
            a2,
            a3,
            ciphertext1.e1,
            ciphertext1.e2,
            ciphertext2.e1,
            ciphertext2.e2,
            ciphertext3.e1,
            ciphertext3.e2,
            ciphertext1.r,
            ciphertext2.r,
            ciphertext3.r,
            old(sho).state,
        );
    }
    sigma::prove(label, &rows, &publics, &witness, sho)
}

/// Presentation proof for the three-encryption shape.
pub struct PniCredentialPresentationProof {
    pub pok: PokProof,
    pub commitments: PresentationCommitments,
}

impl PniCredentialPresentationProof {
    /// Holder side.
    #[verifier::rlimit(100)]
    #[verifier::spinoff_prover]
    pub fn new(
        label: u64,
        public_key: &crate::credentials::CredentialPublicKey,
        enc_public1: u64,
        enc_public2: u64,
        enc_public3: u64,
        credential: Credential,
        a1: u64,
        a2: u64,
        a3: u64,
        ciphertext1: &elgamal::CiphertextWithSecretNonce,
        ciphertext2: &elgamal::CiphertextWithSecretNonce,
        ciphertext3: &elgamal::CiphertextWithSecretNonce,
        sho: &mut Sho,
    ) -> (r: PniCredentialPresentationProof)
        requires
            crate::issuance_proofs::public_key_reduced(*public_key),
            enc_public1 < Q,
            enc_public2 < Q,
            enc_public3 < Q,
            credential.u_point < Q,
            credential.v_point < Q,
            credential.u_point != 0,
            a1 < Q,
            a2 < Q,
            a3 < Q,
            ciphertext1.r < Q,
            ciphertext2.r < Q,
            ciphertext3.r < Q,
            ciphertext1.e1 == elgamal::spec_encrypt(
                enc_public1,
                fmul(a1, GEN_G),
                ciphertext1.r,
            ).e1,
            ciphertext1.e2 == elgamal::spec_encrypt(
                enc_public1,
                fmul(a1, GEN_G),
                ciphertext1.r,
            ).e2,
            ciphertext2.e1 == elgamal::spec_encrypt(
                enc_public2,
                fmul(a2, GEN_G),
                ciphertext2.r,
            ).e1,
            ciphertext2.e2 == elgamal::spec_encrypt(
                enc_public2,
                fmul(a2, GEN_G),
                ciphertext2.r,
            ).e2,
            ciphertext3.e1 == elgamal::spec_encrypt(
                enc_public3,
                fmul(a3, GEN_G),
                ciphertext3.r,
            ).e1,
            ciphertext3.e2 == elgamal::spec_encrypt(
                enc_public3,
                fmul(a3, GEN_G),
                ciphertext3.r,
            ).e2,
        ensures
            r.commitments == honest_commitments(
                spec_sho_scalar(old(sho).state),
                credential,
                a1,
                a2,
                a3,
            ),
            r.pok.challenge == sigma::spec_prove(
                label,
                pres3_rows(
                    public_key.i_point,
                    credential.u_point,
                    enc_public1,
                    enc_public2,
                    enc_public3,
                ),
                pres3_publics(
                    fmul(spec_sho_scalar(old(sho).state), public_key.i_point),
                    honest_commitments(spec_sho_scalar(old(sho).state), credential, a1, a2, a3),
                    ciphertext1.e1,
                    ciphertext1.e2,
                    ciphertext2.e1,
                    ciphertext2.e2,
                    ciphertext3.e1,
                    ciphertext3.e2,
                ),
                seq![spec_sho_scalar(old(sho).state), a1, a2, a3, ciphertext1.r, ciphertext2.r, ciphertext3.r],
                spec_sho_state_after(old(sho).state, 1),
            ).0,
            r.pok.responses@ == sigma::spec_prove(
                label,
                pres3_rows(
                    public_key.i_point,
                    credential.u_point,
                    enc_public1,
                    enc_public2,
                    enc_public3,
                ),
                pres3_publics(
                    fmul(spec_sho_scalar(old(sho).state), public_key.i_point),
                    honest_commitments(spec_sho_scalar(old(sho).state), credential, a1, a2, a3),
                    ciphertext1.e1,
                    ciphertext1.e2,
                    ciphertext2.e1,
                    ciphertext2.e2,
                    ciphertext3.e1,
                    ciphertext3.e2,
                ),
                seq![spec_sho_scalar(old(sho).state), a1, a2, a3, ciphertext1.r, ciphertext2.r, ciphertext3.r],
                spec_sho_state_after(old(sho).state, 1),
            ).1,
            final(sho).state == spec_sho_state_after(old(sho).state, 8),
            forall|kp: CredentialKeyPair|
                keypair_wf(kp) && kp.public_key == *public_key && credential_valid(
                    kp,
                    credential,
                    a1,
                    a2,
                    a3,
                ) ==> spec_pres3_accepts(
                    label,
                    kp,
                    enc_public1,
                    enc_public2,
                    enc_public3,
                    elgamal::Ciphertext { e1: ciphertext1.e1, e2: ciphertext1.e2 },
                    elgamal::Ciphertext { e1: ciphertext2.e1, e2: ciphertext2.e2 },
                    elgamal::Ciphertext { e1: ciphertext3.e1, e2: ciphertext3.e2 },
                    r.commitments,
                    r.pok.challenge,
                    r.pok.responses@,
                ),
    {
        proof {
            crate::sho::lemma_sho_state_unroll(old(sho).state);
            crate::sho::lemma_sho_state_compose(old(sho).state, 1, 7);
        }
        let ghost state0 = sho.state;
        let z = sho.next_scalar();
        let pc = honest_commitments_exec(z, credential, a1, a2, a3);
        let pok = pres3_prove_exec(
            label,
            public_key.i_point,
            enc_public1,
            enc_public2,
            enc_public3,
            credential,
            a1,
            a2,
            a3,
            ciphertext1,
            ciphertext2,
            ciphertext3,
            z,
            pc,
            sho,
        );
        proof {
            assert forall|kp: CredentialKeyPair|
                keypair_wf(kp) && kp.public_key == *public_key && credential_valid(
                    kp,
                    credential,
                    a1,
                    a2,
                    a3,
                ) implies spec_pres3_accepts(
                label,
                kp,
                enc_public1,
                enc_public2,
                enc_public3,
                elgamal::Ciphertext { e1: ciphertext1.e1, e2: ciphertext1.e2 },
                elgamal::Ciphertext { e1: ciphertext2.e1, e2: ciphertext2.e2 },
                elgamal::Ciphertext { e1: ciphertext3.e1, e2: ciphertext3.e2 },
                pc,
                pok.challenge,
                pok.responses@,
            ) by {
                lemma_pres3_accepts_honest(
                    label,
                    kp,
                    enc_public1,
                    enc_public2,
                    enc_public3,
                    credential,
                    z,
                    a1,
                    a2,
                    a3,
                    ciphertext1.e1,
                    ciphertext1.e2,
                    ciphertext2.e1,
                    ciphertext2.e2,
                    ciphertext3.e1,
                    ciphertext3.e2,
                    pok.challenge,
                    pok.responses@,
                );
            }
        }
        PniCredentialPresentationProof { pok, commitments: pc }
    }

    /// Verifier side.
    pub fn verify(
        &self,
        label: u64,
        key_pair: &CredentialKeyPair,
        enc_public1: u64,
        enc_public2: u64,
        enc_public3: u64,
        ciphertext1: elgamal::Ciphertext,
        ciphertext2: elgamal::Ciphertext,
        ciphertext3: elgamal::Ciphertext,
    ) -> (r: Result<(), ZkGroupVerificationFailure>)
        requires
            keypair_wf(*key_pair),
            enc_public1 < Q,
            enc_public2 < Q,
            enc_public3 < Q,
        ensures
            r is Ok <==> spec_pres3_accepts(
                label,
                *key_pair,
                enc_public1,
                enc_public2,
                enc_public3,
                ciphertext1,
                ciphertext2,
                ciphertext3,
                self.commitments,
                self.pok.challenge,
                self.pok.responses@,
            ),
    {
        let pc = &self.commitments;
        if pc.u_point == 0 || pc.u_point >= Q || pc.c_v >= Q || pc.c_1 >= Q || pc.c_2 >= Q
            || pc.c_3 >= Q || ciphertext1.e1 >= Q || ciphertext1.e2 >= Q || ciphertext2.e1 >= Q
            || ciphertext2.e2 >= Q || ciphertext3.e1 >= Q || ciphertext3.e2 >= Q {
            return Err(ZkGroupVerificationFailure);
        }
        let zt = z_target_exec(key_pair, pc);
        let rows = pres3_rows_exec(
            key_pair.public_key.i_point,
            pc.u_point,
            enc_public1,
            enc_public2,
            enc_public3,
        );
        let mut publics: Vec<u64> = Vec::new();
        publics.push(zt);
        publics.push(pc.c_1);
        publics.push(pc.c_2);
        publics.push(pc.c_3);
        publics.push(ciphertext1.e1);
        publics.push(ciphertext1.e2);
        publics.push(ciphertext2.e1);
        publics.push(ciphertext2.e2);
        publics.push(ciphertext3.e1);
        publics.push(ciphertext3.e2);
        proof {
            assert(publics@ =~= pres3_publics(
                z_target(*key_pair, *pc),
                *pc,
                ciphertext1.e1,
                ciphertext1.e2,
                ciphertext2.e1,
                ciphertext2.e2,
                ciphertext3.e1,
                ciphertext3.e2,
            ));
        }
        sigma::verify(label, &rows, &publics, 7, &self.pok)
    }
}

// ---------------------------------------------------------------------
// Shape with no encrypted attribute: the receipt presentation, whose
// serial, expiration time and level are all disclosed.
// ---------------------------------------------------------------------

/// Rows of the no-encryption presentation relation.
pub open spec fn pres0_rows(ip: u64) -> Seq<Seq<u64>> {
    seq![
        seq![ip, 0u64, 0u64, 0u64, 0u64, 0u64, 0u64],
        seq![GEN_A1, 0u64, 0u64, 0u64, 0u64, 0u64, 0u64],
        seq![GEN_A2, 0u64, 0u64, 0u64, 0u64, 0u64, 0u64],
        seq![GEN_A3, 0u64, 0u64, 0u64, 0u64, 0u64, 0u64],
    ]
}

/// Public values of the no-encryption presentation relation.
pub open spec fn pres0_publics(
    zt: u64,
    pc: PresentationCommitments,
    a1: u64,
    a2: u64,
    a3: u64,
) -> Seq<u64> {
    seq![
        zt,
        fsub(pc.c_1, fmul(a1, pc.u_point)),
        fsub(pc.c_2, fmul(a2, pc.u_point)),
        fsub(pc.c_3, fmul(a3, pc.u_point)),
    ]
}

/// Exactly when the verifier accepts a no-encryption presentation.
pub open spec fn spec_pres0_accepts(
    label: u64,
    kp: CredentialKeyPair,
    a1: u64,
    a2: u64,
    a3: u64,
    pc: PresentationCommitments,
    c: u64,
    zs: Seq<u64>,
) -> bool {
    &&& pc.u_point != 0
    &&& commitments_reduced(pc)
    &&& spec_verify(
        label,
        pres0_rows(kp.public_key.i_point),
        pres0_publics(z_target(kp, pc), pc, a1, a2, a3),
        7,
        c,
        zs,
    )
}

fn pres0_rows_exec(ip: u64) -> (r: Vec<Vec<u64>>)
    requires
        ip < Q,
    ensures
        r.deep_view() == pres0_rows(ip),
        sigma::rows_ok(r.deep_view(), 7),
        r@.len() == 4,
{
    let mut rows: Vec<Vec<u64>> = Vec::new();
    rows.push(sigma::row7(ip, 0, 0, 0, 0, 0, 0));
    rows.push(sigma::row7(GEN_A1, 0, 0, 0, 0, 0, 0));
    rows.push(sigma::row7(GEN_A2, 0, 0, 0, 0, 0, 0));
    rows.push(sigma::row7(GEN_A3, 0, 0, 0, 0, 0, 0));
    proof {
        assert(rows.deep_view() =~~= pres0_rows(ip));
    }
    rows
}

/// An honest no-encryption prover's output verifies against the
/// prover-side target.
#[verifier::rlimit(100)]
#[verifier::spinoff_prover]
proof fn lemma_pres0_prove_ok(
    label: u64,
    ip: u64,
    cred: Credential,
    z: u64,
    a1: u64,
    a2: u64,
    a3: u64,
    state: u64,
)
    requires
        ip < Q,
        cred.u_point < Q,
        cred.v_point < Q,
        z < Q,
        a1 < Q,
        a2 < Q,
        a3 < Q,
    ensures
        ({
            let rows = pres0_rows(ip);
            let publics = pres0_publics(
                fmul(z, ip),
                honest_commitments(z, cred, a1, a2, a3),
                a1,
                a2,
                a3,
            );
            let w = seq![z, 0u64, 0u64, 0u64, 0u64, 0u64, 0u64];
            spec_verify(
                label,
                rows,
                publics,
                7,
                sigma::spec_prove(label, rows, publics, w, state).0,
                sigma::spec_prove(label, rows, publics, w, state).1,
            )
        }),
{
    let u = cred.u_point;
    let pc = honest_commitments(z, cred, a1, a2, a3);
    let rows = pres0_rows(ip);
    let publics = pres0_publics(fmul(z, ip), pc, a1, a2, a3);
    let w = seq![z, 0u64, 0u64, 0u64, 0u64, 0u64, 0u64];

    lemma_row_z(w, ip);
    lemma_row_public(w, GEN_A1, a1, u, pc.c_1);
    lemma_row_public(w, GEN_A2, a2, u, pc.c_2);
    lemma_row_public(w, GEN_A3, a3, u, pc.c_3);
    assert(sigma::statement_holds(rows, publics, w));
    assert(sigma::rows_ok(rows, 7)) by {
        assert forall|i: int| 0 <= i < rows.len() implies (#[trigger] rows[i]).len() == 7
            && sigma::scalars_ok(rows[i]) by {
            assert(rows[i].len() == 7);
        }
    }
    sigma::lemma_pok_completeness(label, rows, publics, w, state);
}

/// Presentation proof for the no-encryption shape.
pub struct ReceiptCredentialPresentationProof {
    pub pok: PokProof,
    pub commitments: PresentationCommitments,
}

impl ReceiptCredentialPresentationProof {
    /// Holder side.
    #[verifier::rlimit(100)]
    #[verifier::spinoff_prover]
    pub fn new(
        label: u64,
        public_key: &crate::credentials::CredentialPublicKey,
        credential: Credential,
        a1: u64,
        a2: u64,
        a3: u64,
        sho: &mut Sho,
    ) -> (r: ReceiptCredentialPresentationProof)
        requires
            crate::issuance_proofs::public_key_reduced(*public_key),
            credential.u_point < Q,
            credential.v_point < Q,
            credential.u_point != 0,
            a1 < Q,
            a2 < Q,
            a3 < Q,
        ensures
            r.commitments == honest_commitments(
                spec_sho_scalar(old(sho).state),
                credential,
                a1,
                a2,
                a3,
            ),
            r.pok.challenge == sigma::spec_prove(
                label,
                pres0_rows(public_key.i_point),
                pres0_publics(
                    fmul(spec_sho_scalar(old(sho).state), public_key.i_point),
                    honest_commitments(spec_sho_scalar(old(sho).state), credential, a1, a2, a3),
                    a1,
                    a2,
                    a3,
                ),
                seq![spec_sho_scalar(old(sho).state), 0u64, 0u64, 0u64, 0u64, 0u64, 0u64],
                spec_sho_state_after(old(sho).state, 1),
            ).0,
            r.pok.responses@ == sigma::spec_prove(
                label,
                pres0_rows(public_key.i_point),
                pres0_publics(
                    fmul(spec_sho_scalar(old(sho).state), public_key.i_point),
                    honest_commitments(spec_sho_scalar(old(sho).state), credential, a1, a2, a3),
                    a1,
                    a2,
                    a3,
                ),
                seq![spec_sho_scalar(old(sho).state), 0u64, 0u64, 0u64, 0u64, 0u64, 0u64],
                spec_sho_state_after(old(sho).state, 1),
            ).1,
            final(sho).state == spec_sho_state_after(old(sho).state, 8),
            forall|kp: CredentialKeyPair|
                keypair_wf(kp) && kp.public_key == *public_key && credential_valid(
                    kp,
                    credential,
                    a1,
                    a2,
                    a3,
                ) ==> spec_pres0_accepts(
                    label,
                    kp,
                    a1,
                    a2,
                    a3,
                    r.commitments,
                    r.pok.challenge,
                    r.pok.responses@,
                ),
    {
        proof {
            crate::sho::lemma_sho_state_unroll(old(sho).state);
            crate::sho::lemma_sho_state_compose(old(sho).state, 1, 7);
        }
        let ghost state0 = sho.state;
        let z = sho.next_scalar();
        let pc = honest_commitments_exec(z, credential, a1, a2, a3);
        let zt = sc_mul(z, public_key.i_point);
        let rows = pres0_rows_exec(public_key.i_point);
        let mut publics: Vec<u64> = Vec::new();
        publics.push(zt);
        publics.push(sc_sub(pc.c_1, sc_mul(a1, pc.u_point)));
        publics.push(sc_sub(pc.c_2, sc_mul(a2, pc.u_point)));
        publics.push(sc_sub(pc.c_3, sc_mul(a3, pc.u_point)));
        let witness = sigma::row7(z, 0, 0, 0, 0, 0, 0);
        proof {
            assert(publics@ =~= pres0_publics(zt, pc, a1, a2, a3));
            lemma_pres0_prove_ok(
                label,
                public_key.i_point,
                credential,
                z,
                a1,
                a2,
                a3,
                spec_sho_state_after(state0, 1),
            );
        }
        let pok = sigma::prove(label, &rows, &publics, &witness, sho);
        proof {
            assert forall|kp: CredentialKeyPair|
                keypair_wf(kp) && kp.public_key == *public_key && credential_valid(
                    kp,
                    credential,
                    a1,
                    a2,
                    a3,
                ) implies spec_pres0_accepts(
                label,
                kp,
                a1,
                a2,
                a3,
                pc,
                pok.challenge,
                pok.responses@,
            ) by {
                lemma_presentation_target(kp, credential, z, a1, a2, a3);
                assert(pres0_publics(z_target(kp, pc), pc, a1, a2, a3) =~= publics@);
            }
        }
        ReceiptCredentialPresentationProof { pok, commitments: pc }
    }

    /// Verifier side.
    pub fn verify(
        &self,
        label: u64,
        key_pair: &CredentialKeyPair,
        a1: u64,
        a2: u64,
        a3: u64,
    ) -> (r: Result<(), ZkGroupVerificationFailure>)
        requires
            keypair_wf(*key_pair),
            a1 < Q,
            a2 < Q,
            a3 < Q,
        ensures
            r is Ok <==> spec_pres0_accepts(
                label,
                *key_pair,
                a1,
                a2,
                a3,
                self.commitments,
                self.pok.challenge,
                self.pok.responses@,
            ),
    {
        let pc = &self.commitments;
        if pc.u_point == 0 || pc.u_point >= Q || pc.c_v >= Q || pc.c_1 >= Q || pc.c_2 >= Q
            || pc.c_3 >= Q {
            return Err(ZkGroupVerificationFailure);
        }
        let zt = z_target_exec(key_pair, pc);
        let rows = pres0_rows_exec(key_pair.public_key.i_point);
        let mut publics: Vec<u64> = Vec::new();
        publics.push(zt);
        publics.push(sc_sub(pc.c_1, sc_mul(a1, pc.u_point)));
        publics.push(sc_sub(pc.c_2, sc_mul(a2, pc.u_point)));
        publics.push(sc_sub(pc.c_3, sc_mul(a3, pc.u_point)));
        proof {
            assert(publics@ =~= pres0_publics(z_target(*key_pair, *pc), *pc, a1, a2, a3));
        }
        sigma::verify(label, &rows, &publics, 7, &self.pok)
    }
}

} // verus!
