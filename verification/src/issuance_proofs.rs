//! Issuance proofs.
//!
//! The issuer accompanies every response with a proof that the (possibly
//! blinded) credential was computed from the secret key its published
//! parameters commit to. Each credential kind has its own domain label,
//! so a proof for one kind never verifies as another. There are two
//! relation shapes: a plain one for credentials issued over attributes the
//! holder also knows, and a blinded one for credentials built
//! homomorphically over the holder's ciphertext.

use vstd::prelude::*;

use crate::credentials::{
    blinded_wf, credential_valid, keypair_wf, mac_int, BlindedCredential,
    BlindedCredentialWithSecretNonce, Credential, CredentialKeyPair, CredentialPublicKey,
};
use crate::elgamal;
use crate::errors::ZkGroupVerificationFailure;
use crate::field::{
    fmul, lemma_add_cong, lemma_mod_noop_small, lemma_mul_cong, sc_mul, Q, GEN_A1, GEN_A2, GEN_A3,
    GEN_G,
};
use crate::sho::{spec_sho_state_after, Sho};
use crate::sigma;
use crate::sigma::{dot, lemma_dot4, lemma_dot7, spec_prove, spec_verify, PokProof};

verus! {

/// Domain label of the auth-credential issuance relation.
pub const LABEL_ISSUANCE_AUTH: u64 = 0x0211;

/// Domain label of the profile-key-credential issuance relation.
pub const LABEL_ISSUANCE_PROFILE_KEY: u64 = 0x0212;

/// Domain label of the profile-key-credential issuance relation, third
/// key family.
pub const LABEL_ISSUANCE_PROFILE_KEY_V3: u64 = 0x0213;

/// Domain label of the PNI-credential issuance relation.
pub const LABEL_ISSUANCE_PNI: u64 = 0x0214;

/// Domain label of the receipt-credential issuance relation.
pub const LABEL_ISSUANCE_RECEIPT: u64 = 0x0215;

/// Every published element of a public key is reduced.
pub open spec fn public_key_reduced(pk: CredentialPublicKey) -> bool {
    &&& pk.x0_g < Q
    &&& pk.x1_g < Q
    &&& pk.x2_g < Q
    &&& pk.x3_g < Q
    &&& pk.attr_combo < Q
    &&& pk.i_point < Q
}

// ---------------------------------------------------------------------
// Plain issuance: attributes known to both sides.
// ---------------------------------------------------------------------

/// Rows of the plain issuance relation over the witness
/// `[x0, x1, x2, x3]`.
pub open spec fn plain_issuance_rows(u: u64, a1: u64, a2: u64, a3: u64) -> Seq<Seq<u64>> {
    seq![
        seq![GEN_G, 0u64, 0u64, 0u64],
        seq![0u64, GEN_G, 0u64, 0u64],
        seq![0u64, 0u64, GEN_G, 0u64],
        seq![0u64, 0u64, 0u64, GEN_G],
        seq![0u64, GEN_A1, GEN_A2, GEN_A3],
        seq![u, fmul(a1, u), fmul(a2, u), fmul(a3, u)],
    ]
}

/// Public values of the plain issuance relation.
pub open spec fn plain_issuance_publics(pk: CredentialPublicKey, v: u64) -> Seq<u64> {
    seq![pk.x0_g, pk.x1_g, pk.x2_g, pk.x3_g, pk.attr_combo, v]
}

/// Exactly when a plain issuance proof passes verification.
pub open spec fn spec_plain_issuance_verifies(
    label: u64,
    pk: CredentialPublicKey,
    cred: Credential,
    a1: u64,
    a2: u64,
    a3: u64,
    c: u64,
    zs: Seq<u64>,
) -> bool {
    &&& cred.u_point < Q
    &&& cred.v_point < Q
    &&& spec_verify(
        label,
        plain_issuance_rows(cred.u_point, a1, a2, a3),
        plain_issuance_publics(pk, cred.v_point),
        4,
        c,
        zs,
    )
}

fn plain_issuance_rows_exec(u: u64, a1: u64, a2: u64, a3: u64) -> (r: Vec<Vec<u64>>)
    requires
        u < Q,
        a1 < Q,
        a2 < Q,
        a3 < Q,
    ensures
        r.deep_view() == plain_issuance_rows(u, a1, a2, a3),
        sigma::rows_ok(r.deep_view(), 4),
        r@.len() == 6,
{
    let mut rows: Vec<Vec<u64>> = Vec::new();
    rows.push(sigma::row4(GEN_G, 0, 0, 0));
    rows.push(sigma::row4(0, GEN_G, 0, 0));
    rows.push(sigma::row4(0, 0, GEN_G, 0));
    rows.push(sigma::row4(0, 0, 0, GEN_G));
    rows.push(sigma::row4(0, GEN_A1, GEN_A2, GEN_A3));
    rows.push(sigma::row4(u, sc_mul(a1, u), sc_mul(a2, u), sc_mul(a3, u)));
    proof {
        assert(rows.deep_view() =~~= plain_issuance_rows(u, a1, a2, a3));
    }
    rows
}

fn plain_issuance_publics_exec(pk: &CredentialPublicKey, v: u64) -> (r: Vec<u64>)
    ensures
        r@ == plain_issuance_publics(*pk, v),
{
    let mut publics: Vec<u64> = Vec::new();
    publics.push(pk.x0_g);
    publics.push(pk.x1_g);
    publics.push(pk.x2_g);
    publics.push(pk.x3_g);
    publics.push(pk.attr_combo);
    publics.push(v);
    proof {
        assert(publics@ =~= plain_issuance_publics(*pk, v));
    }
    publics
}

/// The MAC row of the relation evaluates to the MAC value.
proof fn lemma_mac_row(kp: CredentialKeyPair, u: u64, a1: u64, a2: u64, a3: u64)
    requires
        keypair_wf(kp),
        u < Q,
        a1 < Q,
        a2 < Q,
        a3 < Q,
    ensures
        ((kp.x0 as int) * (u as int) + (kp.x1 as int) * (fmul(a1, u) as int) + (kp.x2 as int) * (
        fmul(a2, u) as int) + (kp.x3 as int) * (fmul(a3, u) as int)) % (Q as int) == mac_int(
            kp,
            u,
            a1,
            a2,
            a3,
        ) % (Q as int),
{
    let qq = Q as int;
    vstd::arithmetic::div_mod::lemma_mod_twice((a1 as int) * (u as int), qq);
    vstd::arithmetic::div_mod::lemma_mod_twice((a2 as int) * (u as int), qq);
    vstd::arithmetic::div_mod::lemma_mod_twice((a3 as int) * (u as int), qq);
    lemma_mul_cong(kp.x1 as int, kp.x1 as int, fmul(a1, u) as int, (a1 as int) * (u as int));
    lemma_mul_cong(kp.x2 as int, kp.x2 as int, fmul(a2, u) as int, (a2 as int) * (u as int));
    lemma_mul_cong(kp.x3 as int, kp.x3 as int, fmul(a3, u) as int, (a3 as int) * (u as int));
    lemma_add_cong(
        (kp.x0 as int) * (u as int),
        (kp.x0 as int) * (u as int),
        (kp.x1 as int) * (fmul(a1, u) as int),
        (kp.x1 as int) * ((a1 as int) * (u as int)),
    );
    lemma_add_cong(
        (kp.x0 as int) * (u as int) + (kp.x1 as int) * (fmul(a1, u) as int),
        (kp.x0 as int) * (u as int) + (kp.x1 as int) * ((a1 as int) * (u as int)),
        (kp.x2 as int) * (fmul(a2, u) as int),
        (kp.x2 as int) * ((a2 as int) * (u as int)),
    );
    lemma_add_cong(
        (kp.x0 as int) * (u as int) + (kp.x1 as int) * (fmul(a1, u) as int) + (kp.x2 as int) * (
        fmul(a2, u) as int),
        (kp.x0 as int) * (u as int) + (kp.x1 as int) * ((a1 as int) * (u as int)) + (
        kp.x2 as int) * ((a2 as int) * (u as int)),
        (kp.x3 as int) * (fmul(a3, u) as int),
        (kp.x3 as int) * ((a3 as int) * (u as int)),
    );
}

/// The honest plain issuance transcript satisfies its relation.
proof fn lemma_plain_issuance_statement(
    kp: CredentialKeyPair,
    cred: Credential,
    a1: u64,
    a2: u64,
    a3: u64,
)
    requires
        keypair_wf(kp),
        credential_valid(kp, cred, a1, a2, a3),
        a1 < Q,
        a2 < Q,
        a3 < Q,
    ensures
        sigma::statement_holds(
            plain_issuance_rows(cred.u_point, a1, a2, a3),
            plain_issuance_publics(kp.public_key, cred.v_point),
            seq![kp.x0, kp.x1, kp.x2, kp.x3],
        ),
{
    let qq = Q as int;
    let w = seq![kp.x0, kp.x1, kp.x2, kp.x3];
    let rows = plain_issuance_rows(cred.u_point, a1, a2, a3);
    let publics = plain_issuance_publics(kp.public_key, cred.v_point);

    lemma_dot4(w, rows[0]);
    lemma_dot4(w, rows[1]);
    lemma_dot4(w, rows[2]);
    lemma_dot4(w, rows[3]);
    lemma_dot4(w, rows[4]);
    lemma_dot4(w, rows[5]);

    lemma_mac_row(kp, cred.u_point, a1, a2, a3);
    assert(publics[5] as int == dot(w, rows[5]) % qq);
}

// ---------------------------------------------------------------------
// Blinded issuance: the first attribute arrives only as a ciphertext.
// ---------------------------------------------------------------------

/// Rows of the blinded issuance relation over the witness
/// `[x0, x1, x2, x3, b, y, r']` with `y = x1*b`.
pub open spec fn blinded_issuance_rows(
    x1_g: u64,
    u: u64,
    e1: u64,
    e2: u64,
    holder_public: u64,
    a2: u64,
    a3: u64,
) -> Seq<Seq<u64>> {
    seq![
        seq![GEN_G, 0u64, 0u64, 0u64, 0u64, 0u64, 0u64],
        seq![0u64, GEN_G, 0u64, 0u64, 0u64, 0u64, 0u64],
        seq![0u64, 0u64, GEN_G, 0u64, 0u64, 0u64, 0u64],
        seq![0u64, 0u64, 0u64, GEN_G, 0u64, 0u64, 0u64],
        seq![0u64, GEN_A1, GEN_A2, GEN_A3, 0u64, 0u64, 0u64],
        seq![0u64, 0u64, 0u64, 0u64, GEN_G, 0u64, 0u64],
        seq![0u64, 0u64, 0u64, 0u64, 0u64, GEN_G, 0u64],
        seq![0u64, 0u64, 0u64, 0u64, x1_g, 0u64, 0u64],
        seq![0u64, 0u64, 0u64, 0u64, 0u64, e1, GEN_G],
        seq![u, 0u64, fmul(a2, u), fmul(a3, u), 0u64, e2, holder_public],
    ]
}

/// Public values of the blinded issuance relation.
pub open spec fn blinded_issuance_publics(
    pk: CredentialPublicKey,
    u: u64,
    y_point: u64,
    s1: u64,
    s2: u64,
) -> Seq<u64> {
    seq![pk.x0_g, pk.x1_g, pk.x2_g, pk.x3_g, pk.attr_combo, u, y_point, y_point, s1, s2]
}

/// Exactly when a blinded issuance proof passes verification.
pub open spec fn spec_blinded_issuance_verifies(
    label: u64,
    pk: CredentialPublicKey,
    holder_public: u64,
    e1: u64,
    e2: u64,
    a2: u64,
    a3: u64,
    blc: BlindedCredential,
    y_point: u64,
    c: u64,
    zs: Seq<u64>,
) -> bool {
    &&& blc.u_point < Q
    &&& blc.s1 < Q
    &&& blc.s2 < Q
    &&& y_point < Q
    &&& spec_verify(
        label,
        blinded_issuance_rows(pk.x1_g, blc.u_point, e1, e2, holder_public, a2, a3),
        blinded_issuance_publics(pk, blc.u_point, y_point, blc.s1, blc.s2),
        7,
        c,
        zs,
    )
}

fn blinded_issuance_rows_exec(
    x1_g: u64,
    u: u64,
    e1: u64,
    e2: u64,
    holder_public: u64,
    a2: u64,
    a3: u64,
) -> (r: Vec<Vec<u64>>)
    requires
        x1_g < Q,
        u < Q,
        e1 < Q,
        e2 < Q,
        holder_public < Q,
        a2 < Q,
        a3 < Q,
    ensures
        r.deep_view() == blinded_issuance_rows(x1_g, u, e1, e2, holder_public, a2, a3),
        sigma::rows_ok(r.deep_view(), 7),
        r@.len() == 10,
{
    let mut rows: Vec<Vec<u64>> = Vec::new();
    rows.push(sigma::row7(GEN_G, 0, 0, 0, 0, 0, 0));
    rows.push(sigma::row7(0, GEN_G, 0, 0, 0, 0, 0));
    rows.push(sigma::row7(0, 0, GEN_G, 0, 0, 0, 0));
    rows.push(sigma::row7(0, 0, 0, GEN_G, 0, 0, 0));
    rows.push(sigma::row7(0, GEN_A1, GEN_A2, GEN_A3, 0, 0, 0));
    rows.push(sigma::row7(0, 0, 0, 0, GEN_G, 0, 0));
    rows.push(sigma::row7(0, 0, 0, 0, 0, GEN_G, 0));
    rows.push(sigma::row7(0, 0, 0, 0, x1_g, 0, 0));
    rows.push(sigma::row7(0, 0, 0, 0, 0, e1, GEN_G));
    rows.push(sigma::row7(u, 0, sc_mul(a2, u), sc_mul(a3, u), 0, e2, holder_public));
    proof {
        assert(rows.deep_view() =~~= blinded_issuance_rows(x1_g, u, e1, e2, holder_public, a2, a3));
    }
    rows
}

fn blinded_issuance_publics_exec(pk: &CredentialPublicKey, u: u64, y_point: u64, s1: u64, s2: u64) -> (r: Vec<u64>)
    ensures
        r@ == blinded_issuance_publics(*pk, u, y_point, s1, s2),
{
    let mut publics: Vec<u64> = Vec::new();
    publics.push(pk.x0_g);
    publics.push(pk.x1_g);
    publics.push(pk.x2_g);
    publics.push(pk.x3_g);
    publics.push(pk.attr_combo);
    publics.push(u);
    publics.push(y_point);
    publics.push(y_point);
    publics.push(s1);
    publics.push(s2);
    proof {
        assert(publics@ =~= blinded_issuance_publics(*pk, u, y_point, s1, s2));
    }
    publics
}

/// The honest blinded issuance transcript satisfies its relation.
proof fn lemma_blinded_issuance_statement(
    kp: CredentialKeyPair,
    a2: u64,
    a3: u64,
    holder_public: u64,
    e1: u64,
    e2: u64,
    bl: BlindedCredentialWithSecretNonce,
    y_point: u64,
)
    requires
        keypair_wf(kp),
        blinded_wf(kp, a2, a3, holder_public, e1, e2, bl),
        a2 < Q,
        a3 < Q,
        holder_public < Q,
        e1 < Q,
        e2 < Q,
        y_point == fmul(bl.y, GEN_G),
    ensures
        sigma::statement_holds(
            blinded_issuance_rows(kp.public_key.x1_g, bl.u_point, e1, e2, holder_public, a2, a3),
            blinded_issuance_publics(kp.public_key, bl.u_point, y_point, bl.s1, bl.s2),
            seq![kp.x0, kp.x1, kp.x2, kp.x3, bl.b, bl.y, bl.rprime],
        ),
{
    let qq = Q as int;
    let w = seq![kp.x0, kp.x1, kp.x2, kp.x3, bl.b, bl.y, bl.rprime];
    let rows = blinded_issuance_rows(
        kp.public_key.x1_g,
        bl.u_point,
        e1,
        e2,
        holder_public,
        a2,
        a3,
    );
    let publics = blinded_issuance_publics(kp.public_key, bl.u_point, y_point, bl.s1, bl.s2);

    lemma_dot7(w, rows[0]);
    lemma_dot7(w, rows[1]);
    lemma_dot7(w, rows[2]);
    lemma_dot7(w, rows[3]);
    lemma_dot7(w, rows[4]);
    lemma_dot7(w, rows[5]);
    lemma_dot7(w, rows[6]);
    lemma_dot7(w, rows[7]);
    lemma_dot7(w, rows[8]);
    lemma_dot7(w, rows[9]);

    // Row 7: y*G equals b*X1 because y = x1*b and X1 = x1*G.
    let x1 = kp.x1 as int;
    let bb = bl.b as int;
    let g = GEN_G as int;
    vstd::arithmetic::div_mod::lemma_mod_twice(x1 * bb, qq);
    lemma_mul_cong(bl.y as int, x1 * bb, g, g);
    assert((x1 * bb) * g == bb * (x1 * g)) by (nonlinear_arith);
    vstd::arithmetic::div_mod::lemma_mod_twice(x1 * g, qq);
    lemma_mul_cong(bb, bb, kp.public_key.x1_g as int, x1 * g);
    assert(publics[7] as int == dot(w, rows[7]) % qq);

    // Row 8: the first blinded component.
    assert(publics[8] as int == dot(w, rows[8]) % qq);

    // Row 9: the second blinded component carries the MAC terms over the
    // public attributes.
    lemma_mac_row(kp, bl.u_point, 0, a2, a3);
    assert(fmul(0, bl.u_point) == 0) by {
        assert((0int * (bl.u_point as int)) % qq == 0);
    }
    lemma_add_cong(
        (bl.y as int) * (e2 as int) + (bl.rprime as int) * (holder_public as int),
        (bl.y as int) * (e2 as int) + (bl.rprime as int) * (holder_public as int),
        (kp.x0 as int) * (bl.u_point as int) + (kp.x1 as int) * (fmul(0, bl.u_point) as int) + (
        kp.x2 as int) * (fmul(a2, bl.u_point) as int) + (kp.x3 as int) * (fmul(
            a3,
            bl.u_point,
        ) as int),
        mac_int(kp, bl.u_point, 0, a2, a3),
    );
    assert(publics[9] as int == dot(w, rows[9]) % qq);
}

/// Prove a blinded issuance under the given domain label.
fn blinded_issuance_prove(
    label: u64,
    kp: &CredentialKeyPair,
    a2: u64,
    a3: u64,
    holder_public: u64,
    ct: elgamal::Ciphertext,
    bl: &BlindedCredentialWithSecretNonce,
    sho: &mut Sho,
) -> (r: (PokProof, u64))
    requires
        keypair_wf(*kp),
        blinded_wf(*kp, a2, a3, holder_public, ct.e1, ct.e2, *bl),
        a2 < Q,
        a3 < Q,
        holder_public < Q,
        elgamal::ciphertext_wf(ct),
    ensures
        r.1 == fmul(bl.y, GEN_G),
        spec_blinded_issuance_verifies(
            label,
            kp.public_key,
            holder_public,
            ct.e1,
            ct.e2,
            a2,
            a3,
            BlindedCredential { u_point: bl.u_point, s1: bl.s1, s2: bl.s2 },
            r.1,
            r.0.challenge,
            r.0.responses@,
        ),
        r.0.challenge == spec_prove(
            label,
            blinded_issuance_rows(
                kp.public_key.x1_g,
                bl.u_point,
                ct.e1,
                ct.e2,
                holder_public,
                a2,
                a3,
            ),
            blinded_issuance_publics(kp.public_key, bl.u_point, fmul(bl.y, GEN_G), bl.s1, bl.s2),
            seq![kp.x0, kp.x1, kp.x2, kp.x3, bl.b, bl.y, bl.rprime],
            old(sho).state,
        ).0,
        r.0.responses@ == spec_prove(
            label,
            blinded_issuance_rows(
                kp.public_key.x1_g,
                bl.u_point,
                ct.e1,
                ct.e2,
                holder_public,
                a2,
                a3,
            ),
            blinded_issuance_publics(kp.public_key, bl.u_point, fmul(bl.y, GEN_G), bl.s1, bl.s2),
            seq![kp.x0, kp.x1, kp.x2, kp.x3, bl.b, bl.y, bl.rprime],
            old(sho).state,
        ).1,
        final(sho).state == spec_sho_state_after(old(sho).state, 7),
{
    let y_point = sc_mul(bl.y, GEN_G);
    let rows = blinded_issuance_rows_exec(
        kp.public_key.x1_g,
        bl.u_point,
        ct.e1,
        ct.e2,
        holder_public,
        a2,
        a3,
    );
    let publics = blinded_issuance_publics_exec(&kp.public_key, bl.u_point, y_point, bl.s1, bl.s2);
    let witness = sigma::row7(kp.x0, kp.x1, kp.x2, kp.x3, bl.b, bl.y, bl.rprime);
    proof {
        lemma_blinded_issuance_statement(
            *kp,
            a2,
            a3,
            holder_public,
            ct.e1,
            ct.e2,
            *bl,
            y_point,
        );
        sigma::lemma_pok_completeness(label, rows.deep_view(), publics@, witness@, old(sho).state);
    }
    let pok = sigma::prove(label, &rows, &publics, &witness, sho);
    (pok, y_point)
}

/// Check a blinded issuance proof under the given domain label.
fn blinded_issuance_verify(
    label: u64,
    pk: &CredentialPublicKey,
    holder_public: u64,
    ct: elgamal::Ciphertext,
    a2: u64,
    a3: u64,
    blc: BlindedCredential,
    y_point: u64,
    pok: &PokProof,
) -> (r: Result<(), ZkGroupVerificationFailure>)
    requires
        public_key_reduced(*pk),
        holder_public < Q,
        elgamal::ciphertext_wf(ct),
        a2 < Q,
        a3 < Q,
    ensures
        r is Ok <==> spec_blinded_issuance_verifies(
            label,
            *pk,
            holder_public,
            ct.e1,
            ct.e2,
            a2,
            a3,
            blc,
            y_point,
            pok.challenge,
            pok.responses@,
        ),
{
    if blc.u_point >= Q || blc.s1 >= Q || blc.s2 >= Q || y_point >= Q {
        return Err(ZkGroupVerificationFailure);
    }
    let rows = blinded_issuance_rows_exec(
        pk.x1_g,
        blc.u_point,
        ct.e1,
        ct.e2,
        holder_public,
        a2,
        a3,
    );
    let publics = blinded_issuance_publics_exec(pk, blc.u_point, y_point, blc.s1, blc.s2);
    sigma::verify(label, &rows, &publics, 7, pok)
}

/// Prove a plain issuance under the given domain label.
fn plain_issuance_prove(
    label: u64,
    kp: &CredentialKeyPair,
    cred: Credential,
    a1: u64,
    a2: u64,
    a3: u64,
    sho: &mut Sho,
) -> (r: PokProof)
    requires
        keypair_wf(*kp),
        credential_valid(*kp, cred, a1, a2, a3),
        a1 < Q,
        a2 < Q,
        a3 < Q,
    ensures
        spec_plain_issuance_verifies(
            label,
            kp.public_key,
            cred,
            a1,
            a2,
            a3,
            r.challenge,
            r.responses@,
        ),
        r.challenge == spec_prove(
            label,
            plain_issuance_rows(cred.u_point, a1, a2, a3),
            plain_issuance_publics(kp.public_key, cred.v_point),
            seq![kp.x0, kp.x1, kp.x2, kp.x3],
            old(sho).state,
        ).0,
        r.responses@ == spec_prove(
            label,
            plain_issuance_rows(cred.u_point, a1, a2, a3),
            plain_issuance_publics(kp.public_key, cred.v_point),
            seq![kp.x0, kp.x1, kp.x2, kp.x3],
            old(sho).state,
        ).1,
        final(sho).state == spec_sho_state_after(old(sho).state, 4),
{
    let rows = plain_issuance_rows_exec(cred.u_point, a1, a2, a3);
    let publics = plain_issuance_publics_exec(&kp.public_key, cred.v_point);
    let witness = sigma::row4(kp.x0, kp.x1, kp.x2, kp.x3);
    proof {
        lemma_plain_issuance_statement(*kp, cred, a1, a2, a3);
        sigma::lemma_pok_completeness(label, rows.deep_view(), publics@, witness@, old(sho).state);
    }
    sigma::prove(label, &rows, &publics, &witness, sho)
}

/// Check a plain issuance proof under the given domain label.
fn plain_issuance_verify(
    label: u64,
    pk: &CredentialPublicKey,
    cred: Credential,
    a1: u64,
    a2: u64,
    a3: u64,
    pok: &PokProof,
) -> (r: Result<(), ZkGroupVerificationFailure>)
    requires
        public_key_reduced(*pk),
        a1 < Q,
        a2 < Q,
        a3 < Q,
    ensures
        r is Ok <==> spec_plain_issuance_verifies(
            label,
            *pk,
            cred,
            a1,
            a2,
            a3,
            pok.challenge,
            pok.responses@,
        ),
{
    if cred.u_point >= Q || cred.v_point >= Q {
        return Err(ZkGroupVerificationFailure);
    }
    let rows = plain_issuance_rows_exec(cred.u_point, a1, a2, a3);
    let publics = plain_issuance_publics_exec(pk, cred.v_point);
    sigma::verify(label, &rows, &publics, 4, pok)
}

// ---------------------------------------------------------------------
// The per-kind issuance proof types.
// ---------------------------------------------------------------------

/// Issuance proof for auth credentials (plain: the holder knows the user
/// identifier and redemption time it was issued over).
pub struct AuthCredentialIssuanceProof {
    pub pok: PokProof,
}

impl AuthCredentialIssuanceProof {
    /// Issuer side: prove the credential against the published key.
    pub fn new(
        key_pair: &CredentialKeyPair,
        credential: Credential,
        uid_attr: u64,
        redemption_time_attr: u64,
        sho: &mut Sho,
    ) -> (r: AuthCredentialIssuanceProof)
        requires
            keypair_wf(*key_pair),
            credential_valid(*key_pair, credential, uid_attr, redemption_time_attr, 0),
            uid_attr < Q,
            redemption_time_attr < Q,
        ensures
            spec_plain_issuance_verifies(
                LABEL_ISSUANCE_AUTH,
                key_pair.public_key,
                credential,
                uid_attr,
                redemption_time_attr,
                0,
                r.pok.challenge,
                r.pok.responses@,
            ),
            r.pok.challenge == spec_prove(
                LABEL_ISSUANCE_AUTH,
                plain_issuance_rows(credential.u_point, uid_attr, redemption_time_attr, 0),
                plain_issuance_publics(key_pair.public_key, credential.v_point),
                seq![key_pair.x0, key_pair.x1, key_pair.x2, key_pair.x3],
                old(sho).state,
            ).0,
            r.pok.responses@ == spec_prove(
                LABEL_ISSUANCE_AUTH,
                plain_issuance_rows(credential.u_point, uid_attr, redemption_time_attr, 0),
                plain_issuance_publics(key_pair.public_key, credential.v_point),
                seq![key_pair.x0, key_pair.x1, key_pair.x2, key_pair.x3],
                old(sho).state,
            ).1,
            final(sho).state == spec_sho_state_after(old(sho).state, 4),
    {
        AuthCredentialIssuanceProof {
            pok: plain_issuance_prove(
                LABEL_ISSUANCE_AUTH,
                key_pair,
                credential,
                uid_attr,
                redemption_time_attr,
                0,
                sho,
            ),
        }
    }

    /// Holder side: check the response against the published key before
    /// accepting the credential.
    pub fn verify(
        &self,
        public_key: &CredentialPublicKey,
        credential: Credential,
        uid_attr: u64,
        redemption_time_attr: u64,
    ) -> (r: Result<(), ZkGroupVerificationFailure>)
        requires
            public_key_reduced(*public_key),
            uid_attr < Q,
            redemption_time_attr < Q,
        ensures
            r is Ok <==> spec_plain_issuance_verifies(
                LABEL_ISSUANCE_AUTH,
                *public_key,
                credential,
                uid_attr,
                redemption_time_attr,
                0,
                self.pok.challenge,
                self.pok.responses@,
            ),
    {
        plain_issuance_verify(
            LABEL_ISSUANCE_AUTH,
            public_key,
            credential,
            uid_attr,
            redemption_time_attr,
            0,
            &self.pok,
        )
    }
}

/// Issuance proof for blind-issued profile key credentials.
pub struct ProfileKeyCredentialIssuanceProof {
    pub pok: PokProof,
    pub y_point: u64,
}

impl ProfileKeyCredentialIssuanceProof {
    /// Issuer side: prove the blinded credential was built correctly
    /// over the holder's ciphertext.
    pub fn new(
        key_pair: &CredentialKeyPair,
        holder_public: u64,
        ciphertext: elgamal::Ciphertext,
        blinded: &BlindedCredentialWithSecretNonce,
        uid_attr: u64,
        sho: &mut Sho,
    ) -> (r: ProfileKeyCredentialIssuanceProof)
        requires
            keypair_wf(*key_pair),
            blinded_wf(
                *key_pair,
                uid_attr,
                0,
                holder_public,
                ciphertext.e1,
                ciphertext.e2,
                *blinded,
            ),
            uid_attr < Q,
            holder_public < Q,
            elgamal::ciphertext_wf(ciphertext),
        ensures
            spec_blinded_issuance_verifies(
                LABEL_ISSUANCE_PROFILE_KEY,
                key_pair.public_key,
                holder_public,
                ciphertext.e1,
                ciphertext.e2,
                uid_attr,
                0,
                BlindedCredential { u_point: blinded.u_point, s1: blinded.s1, s2: blinded.s2 },
                r.y_point,
                r.pok.challenge,
                r.pok.responses@,
            ),
            r.y_point == fmul(blinded.y, GEN_G),
            r.pok.challenge == spec_prove(
                LABEL_ISSUANCE_PROFILE_KEY,
                blinded_issuance_rows(
                    key_pair.public_key.x1_g,
                    blinded.u_point,
                    ciphertext.e1,
                    ciphertext.e2,
                    holder_public,
                    uid_attr,
                    0,
                ),
                blinded_issuance_publics(
                    key_pair.public_key,
                    blinded.u_point,
                    fmul(blinded.y, GEN_G),
                    blinded.s1,
                    blinded.s2,
                ),
                seq![
                    key_pair.x0,
                    key_pair.x1,
                    key_pair.x2,
                    key_pair.x3,
                    blinded.b,
                    blinded.y,
                    blinded.rprime,
                ],
                old(sho).state,
            ).0,
            r.pok.responses@ == spec_prove(
                LABEL_ISSUANCE_PROFILE_KEY,
                blinded_issuance_rows(
                    key_pair.public_key.x1_g,
                    blinded.u_point,
                    ciphertext.e1,
                    ciphertext.e2,
                    holder_public,
                    uid_attr,
                    0,
                ),
                blinded_issuance_publics(
                    key_pair.public_key,
                    blinded.u_point,
                    fmul(blinded.y, GEN_G),
                    blinded.s1,
                    blinded.s2,
                ),
                seq![
                    key_pair.x0,
                    key_pair.x1,
                    key_pair.x2,
                    key_pair.x3,
                    blinded.b,
                    blinded.y,
                    blinded.rprime,
                ],
                old(sho).state,
            ).1,
            final(sho).state == spec_sho_state_after(old(sho).state, 7),
    {
        let (pok, y_point) = blinded_issuance_prove(
            LABEL_ISSUANCE_PROFILE_KEY,
            key_pair,
            uid_attr,
            0,
            holder_public,
            ciphertext,
            blinded,
            sho,
        );
        ProfileKeyCredentialIssuanceProof { pok, y_point }
    }

    /// Holder side: check the response before unblinding.
    pub fn verify(
        &self,
        public_key: &CredentialPublicKey,
        holder_public: u64,
        ciphertext: elgamal::Ciphertext,
        uid_attr: u64,
        blinded: BlindedCredential,
    ) -> (r: Result<(), ZkGroupVerificationFailure>)
        requires
            public_key_reduced(*public_key),
            holder_public < Q,
            elgamal::ciphertext_wf(ciphertext),
            uid_attr < Q,
        ensures
            r is Ok <==> spec_blinded_issuance_verifies(
                LABEL_ISSUANCE_PROFILE_KEY,
                *public_key,
                holder_public,
                ciphertext.e1,
                ciphertext.e2,
                uid_attr,
                0,
                blinded,
                self.y_point,
                self.pok.challenge,
                self.pok.responses@,
            ),
    {
        blinded_issuance_verify(
            LABEL_ISSUANCE_PROFILE_KEY,
            public_key,
            holder_public,
            ciphertext,
            uid_attr,
            0,
            blinded,
            self.y_point,
            &self.pok,
        )
    }
}

/// Issuance proof for the third profile-key key family; a separate
/// relation under its own label and key pair.
pub struct ProfileKeyCredentialV3IssuanceProof {
    pub pok: PokProof,
    pub y_point: u64,
}

impl ProfileKeyCredentialV3IssuanceProof {
    /// Issuer side.
    pub fn new(
        key_pair: &CredentialKeyPair,
        holder_public: u64,
        ciphertext: elgamal::Ciphertext,
        blinded: &BlindedCredentialWithSecretNonce,
        uid_attr: u64,
        sho: &mut Sho,
    ) -> (r: ProfileKeyCredentialV3IssuanceProof)
        requires
            keypair_wf(*key_pair),
            blinded_wf(
                *key_pair,
                uid_attr,
                0,
                holder_public,
                ciphertext.e1,
                ciphertext.e2,
                *blinded,
            ),
            uid_attr < Q,
            holder_public < Q,
            elgamal::ciphertext_wf(ciphertext),
        ensures
            spec_blinded_issuance_verifies(
                LABEL_ISSUANCE_PROFILE_KEY_V3,
                key_pair.public_key,
                holder_public,
                ciphertext.e1,
                ciphertext.e2,
                uid_attr,
                0,
                BlindedCredential { u_point: blinded.u_point, s1: blinded.s1, s2: blinded.s2 },
                r.y_point,
                r.pok.challenge,
                r.pok.responses@,
            ),
            r.y_point == fmul(blinded.y, GEN_G),
            r.pok.challenge == spec_prove(
                LABEL_ISSUANCE_PROFILE_KEY_V3,
                blinded_issuance_rows(
                    key_pair.public_key.x1_g,
                    blinded.u_point,
                    ciphertext.e1,
                    ciphertext.e2,
                    holder_public,
                    uid_attr,
                    0,
                ),
                blinded_issuance_publics(
                    key_pair.public_key,
                    blinded.u_point,
                    fmul(blinded.y, GEN_G),
                    blinded.s1,
                    blinded.s2,
                ),
                seq![
                    key_pair.x0,
                    key_pair.x1,
                    key_pair.x2,
                    key_pair.x3,
                    blinded.b,
                    blinded.y,
                    blinded.rprime,
                ],
                old(sho).state,
            ).0,
            r.pok.responses@ == spec_prove(
                LABEL_ISSUANCE_PROFILE_KEY_V3,
                blinded_issuance_rows(
                    key_pair.public_key.x1_g,
                    blinded.u_point,
                    ciphertext.e1,
                    ciphertext.e2,
                    holder_public,
                    uid_attr,
                    0,
                ),
                blinded_issuance_publics(
                    key_pair.public_key,
                    blinded.u_point,
                    fmul(blinded.y, GEN_G),
                    blinded.s1,
                    blinded.s2,
                ),
                seq![
                    key_pair.x0,
                    key_pair.x1,
                    key_pair.x2,
                    key_pair.x3,
                    blinded.b,
                    blinded.y,
                    blinded.rprime,
                ],
                old(sho).state,
            ).1,
            final(sho).state == spec_sho_state_after(old(sho).state, 7),
    {
        let (pok, y_point) = blinded_issuance_prove(
            LABEL_ISSUANCE_PROFILE_KEY_V3,
            key_pair,
            uid_attr,
            0,
            holder_public,
            ciphertext,
            blinded,
            sho,
        );
        ProfileKeyCredentialV3IssuanceProof { pok, y_point }
    }

    /// Holder side.
    pub fn verify(
        &self,
        public_key: &CredentialPublicKey,
        holder_public: u64,
        ciphertext: elgamal::Ciphertext,
        uid_attr: u64,
        blinded: BlindedCredential,
    ) -> (r: Result<(), ZkGroupVerificationFailure>)
        requires
            public_key_reduced(*public_key),
            holder_public < Q,
            elgamal::ciphertext_wf(ciphertext),
            uid_attr < Q,
        ensures
            r is Ok <==> spec_blinded_issuance_verifies(
                LABEL_ISSUANCE_PROFILE_KEY_V3,
                *public_key,
                holder_public,
                ciphertext.e1,
                ciphertext.e2,
                uid_attr,
                0,
                blinded,
                self.y_point,
                self.pok.challenge,
                self.pok.responses@,
            ),
    {
        blinded_issuance_verify(
            LABEL_ISSUANCE_PROFILE_KEY_V3,
            public_key,
            holder_public,
            ciphertext,
            uid_attr,
            0,
            blinded,
            self.y_point,
            &self.pok,
        )
    }
}

/// Issuance proof for PNI credentials: blind over the profile key, with
/// both identifiers public to issuer and holder.
pub struct PniCredentialIssuanceProof {
    pub pok: PokProof,
    pub y_point: u64,
}

impl PniCredentialIssuanceProof {
    /// Issuer side.
    pub fn new(
        key_pair: &CredentialKeyPair,
        holder_public: u64,
        ciphertext: elgamal::Ciphertext,
        blinded: &BlindedCredentialWithSecretNonce,
        aci_attr: u64,
        pni_attr: u64,
        sho: &mut Sho,
    ) -> (r: PniCredentialIssuanceProof)
        requires
            keypair_wf(*key_pair),
            blinded_wf(
                *key_pair,
                aci_attr,
                pni_attr,
                holder_public,
                ciphertext.e1,
                ciphertext.e2,
                *blinded,
            ),
            aci_attr < Q,
            pni_attr < Q,
            holder_public < Q,
            elgamal::ciphertext_wf(ciphertext),
        ensures
            spec_blinded_issuance_verifies(
                LABEL_ISSUANCE_PNI,
                key_pair.public_key,
                holder_public,
                ciphertext.e1,
                ciphertext.e2,
                aci_attr,
                pni_attr,
                BlindedCredential { u_point: blinded.u_point, s1: blinded.s1, s2: blinded.s2 },
                r.y_point,
                r.pok.challenge,
                r.pok.responses@,
            ),
            r.y_point == fmul(blinded.y, GEN_G),
            r.pok.challenge == spec_prove(
                LABEL_ISSUANCE_PNI,
                blinded_issuance_rows(
                    key_pair.public_key.x1_g,
                    blinded.u_point,
                    ciphertext.e1,
                    ciphertext.e2,
                    holder_public,
                    aci_attr,
                    pni_attr,
                ),
                blinded_issuance_publics(
                    key_pair.public_key,
                    blinded.u_point,
                    fmul(blinded.y, GEN_G),
                    blinded.s1,
                    blinded.s2,
                ),
                seq![
                    key_pair.x0,
                    key_pair.x1,
                    key_pair.x2,
                    key_pair.x3,
                    blinded.b,
                    blinded.y,
                    blinded.rprime,
                ],
                old(sho).state,
            ).0,
            r.pok.responses@ == spec_prove(
                LABEL_ISSUANCE_PNI,
                blinded_issuance_rows(
                    key_pair.public_key.x1_g,
                    blinded.u_point,
                    ciphertext.e1,
                    ciphertext.e2,
                    holder_public,
                    aci_attr,
                    pni_attr,
                ),
                blinded_issuance_publics(
                    key_pair.public_key,
                    blinded.u_point,
                    fmul(blinded.y, GEN_G),
                    blinded.s1,
                    blinded.s2,
                ),
                seq![
                    key_pair.x0,
                    key_pair.x1,
                    key_pair.x2,
                    key_pair.x3,
                    blinded.b,
                    blinded.y,
                    blinded.rprime,
                ],
                old(sho).state,
            ).1,
            final(sho).state == spec_sho_state_after(old(sho).state, 7),
    {
        let (pok, y_point) = blinded_issuance_prove(
            LABEL_ISSUANCE_PNI,
            key_pair,
            aci_attr,
            pni_attr,
            holder_public,
            ciphertext,
            blinded,
            sho,
        );
        PniCredentialIssuanceProof { pok, y_point }
    }

    /// Holder side.
    pub fn verify(
        &self,
        public_key: &CredentialPublicKey,
        holder_public: u64,
        ciphertext: elgamal::Ciphertext,
        aci_attr: u64,
        pni_attr: u64,
        blinded: BlindedCredential,
    ) -> (r: Result<(), ZkGroupVerificationFailure>)
        requires
            public_key_reduced(*public_key),
            holder_public < Q,
            elgamal::ciphertext_wf(ciphertext),
            aci_attr < Q,
            pni_attr < Q,
        ensures
            r is Ok <==> spec_blinded_issuance_verifies(
                LABEL_ISSUANCE_PNI,
                *public_key,
                holder_public,
                ciphertext.e1,
                ciphertext.e2,
                aci_attr,
                pni_attr,
                blinded,
                self.y_point,
                self.pok.challenge,
                self.pok.responses@,
            ),
    {
        blinded_issuance_verify(
            LABEL_ISSUANCE_PNI,
            public_key,
            holder_public,
            ciphertext,
            aci_attr,
            pni_attr,
            blinded,
            self.y_point,
            &self.pok,
        )
    }
}

/// Issuance proof for receipt credentials: blind over the receipt
/// serial, with expiration time and level public.
pub struct ReceiptCredentialIssuanceProof {
    pub pok: PokProof,
    pub y_point: u64,
}

impl ReceiptCredentialIssuanceProof {
    /// Issuer side.
    pub fn new(
        key_pair: &CredentialKeyPair,
        holder_public: u64,
        ciphertext: elgamal::Ciphertext,
        blinded: &BlindedCredentialWithSecretNonce,
        expiration_attr: u64,
        level_attr: u64,
        sho: &mut Sho,
    ) -> (r: ReceiptCredentialIssuanceProof)
        requires
            keypair_wf(*key_pair),
            blinded_wf(
                *key_pair,
                expiration_attr,
                level_attr,
                holder_public,
                ciphertext.e1,
                ciphertext.e2,
                *blinded,
            ),
            expiration_attr < Q,
            level_attr < Q,
            holder_public < Q,
            elgamal::ciphertext_wf(ciphertext),
        ensures
            spec_blinded_issuance_verifies(
                LABEL_ISSUANCE_RECEIPT,
                key_pair.public_key,
                holder_public,
                ciphertext.e1,
                ciphertext.e2,
                expiration_attr,
                level_attr,
                BlindedCredential { u_point: blinded.u_point, s1: blinded.s1, s2: blinded.s2 },
                r.y_point,
                r.pok.challenge,
                r.pok.responses@,
            ),
            r.y_point == fmul(blinded.y, GEN_G),
            r.pok.challenge == spec_prove(
                LABEL_ISSUANCE_RECEIPT,
                blinded_issuance_rows(
                    key_pair.public_key.x1_g,
                    blinded.u_point,
                    ciphertext.e1,
                    ciphertext.e2,
                    holder_public,
                    expiration_attr,
                    level_attr,
                ),
                blinded_issuance_publics(
                    key_pair.public_key,
                    blinded.u_point,
                    fmul(blinded.y, GEN_G),
                    blinded.s1,
                    blinded.s2,
                ),
                seq![
                    key_pair.x0,
                    key_pair.x1,
                    key_pair.x2,
                    key_pair.x3,
                    blinded.b,
                    blinded.y,
                    blinded.rprime,
                ],
                old(sho).state,
            ).0,
            r.pok.responses@ == spec_prove(
                LABEL_ISSUANCE_RECEIPT,
                blinded_issuance_rows(
                    key_pair.public_key.x1_g,
                    blinded.u_point,
                    ciphertext.e1,
                    ciphertext.e2,
                    holder_public,
                    expiration_attr,
                    level_attr,
                ),
                blinded_issuance_publics(
                    key_pair.public_key,
                    blinded.u_point,
                    fmul(blinded.y, GEN_G),
                    blinded.s1,
                    blinded.s2,
                ),
                seq![
                    key_pair.x0,
                    key_pair.x1,
                    key_pair.x2,
                    key_pair.x3,
                    blinded.b,
                    blinded.y,
                    blinded.rprime,
                ],
                old(sho).state,
            ).1,
            final(sho).state == spec_sho_state_after(old(sho).state, 7),
    {
        let (pok, y_point) = blinded_issuance_prove(
            LABEL_ISSUANCE_RECEIPT,
            key_pair,
            expiration_attr,
            level_attr,
            holder_public,
            ciphertext,
            blinded,
            sho,
        );
        ReceiptCredentialIssuanceProof { pok, y_point }
    }

    /// Holder side.
    pub fn verify(
        &self,
        public_key: &CredentialPublicKey,
        holder_public: u64,
        ciphertext: elgamal::Ciphertext,
        expiration_attr: u64,
        level_attr: u64,
        blinded: BlindedCredential,
    ) -> (r: Result<(), ZkGroupVerificationFailure>)
        requires
            public_key_reduced(*public_key),
            holder_public < Q,
            elgamal::ciphertext_wf(ciphertext),
            expiration_attr < Q,
            level_attr < Q,
        ensures
            r is Ok <==> spec_blinded_issuance_verifies(
                LABEL_ISSUANCE_RECEIPT,
                *public_key,
                holder_public,
                ciphertext.e1,
                ciphertext.e2,
                expiration_attr,
                level_attr,
                blinded,
                self.y_point,
                self.pok.challenge,
                self.pok.responses@,
            ),
    {
        blinded_issuance_verify(
            LABEL_ISSUANCE_RECEIPT,
            public_key,
            holder_public,
            ciphertext,
            expiration_attr,
            level_attr,
            blinded,
            self.y_point,
            &self.pok,
        )
    }
}

} // verus!

