//! The issuance request proof.
//!
//! A holder asks for a blind issuance by sending a one-time public key, an
//! ElGamal ciphertext of the hidden attribute, and this proof: "the
//! ciphertext under my one-time key encrypts the same attribute that the
//! published commitment commits to". The issuer checks the proof against
//! the commitment before issuing anything.

use vstd::prelude::*;

use crate::elgamal;
use crate::errors::ZkGroupVerificationFailure;
use crate::field::{
    fadd, fmul, lemma_add_cong, lemma_mod_noop_small, sc_add, sc_mul, Q, GEN_G, GEN_H,
};
use crate::sho::{spec_sho_state_after, Sho};
use crate::sigma;
use crate::sigma::{dot, lemma_dot4, spec_prove, spec_verify, PokProof};

verus! {

/// Domain label of the request relation.
pub const LABEL_REQUEST_PROOF: u64 = 0x0201;

/// The commitment element for attribute `m` under nonce `j`.
pub open spec fn commitment_point(m: u64, j: u64) -> u64 {
    fadd(fmul(m, GEN_G), fmul(j, GEN_H))
}

/// A Pedersen-style commitment together with its secret nonce.
pub struct CommitmentWithSecretNonce {
    pub j_point: u64,
    pub j: u64,
}

impl CommitmentWithSecretNonce {
    /// Commit to attribute `m` with nonce `j`.
    pub fn new(m: u64, j: u64) -> (r: CommitmentWithSecretNonce)
        requires
            m < Q,
            j < Q,
        ensures
            r.j == j,
            r.j_point == commitment_point(m, j),
            r.j_point < Q,
    {
        CommitmentWithSecretNonce { j_point: sc_add(sc_mul(m, GEN_G), sc_mul(j, GEN_H)), j }
    }
}

/// Coefficient rows of the request relation, over the witness
/// `[d, r, m, j]`: the one-time secret key, the encryption nonce, the
/// attribute and the commitment nonce.
pub open spec fn request_rows(holder_public: u64) -> Seq<Seq<u64>> {
    seq![
        seq![GEN_G, 0u64, 0u64, 0u64],
        seq![0u64, GEN_G, 0u64, 0u64],
        seq![0u64, holder_public, GEN_G, 0u64],
        seq![0u64, 0u64, GEN_G, GEN_H],
    ]
}

/// Public values of the request relation.
pub open spec fn request_publics(holder_public: u64, e1: u64, e2: u64, j_point: u64) -> Seq<u64> {
    seq![holder_public, e1, e2, j_point]
}

/// Exactly when a request proof passes verification.
pub open spec fn spec_request_verifies(
    holder_public: u64,
    e1: u64,
    e2: u64,
    j_point: u64,
    c: u64,
    zs: Seq<u64>,
) -> bool {
    &&& holder_public < Q
    &&& e1 < Q
    &&& e2 < Q
    &&& j_point < Q
    &&& spec_verify(
        LABEL_REQUEST_PROOF,
        request_rows(holder_public),
        request_publics(holder_public, e1, e2, j_point),
        4,
        c,
        zs,
    )
}

fn request_rows_exec(holder_public: u64) -> (r: Vec<Vec<u64>>)
    requires
        holder_public < Q,
    ensures
        r.deep_view() == request_rows(holder_public),
        sigma::rows_ok(r.deep_view(), 4),
        r@.len() == 4,
{
    let mut rows: Vec<Vec<u64>> = Vec::new();
    rows.push(sigma::row4(GEN_G, 0, 0, 0));
    rows.push(sigma::row4(0, GEN_G, 0, 0));
    rows.push(sigma::row4(0, holder_public, GEN_G, 0));
    rows.push(sigma::row4(0, 0, GEN_G, GEN_H));
    proof {
        assert(rows.deep_view() =~~= request_rows(holder_public));
    }
    rows
}

/// The request proof itself.
pub struct ProfileKeyCredentialRequestProof {
    pub pok: PokProof,
}

impl ProfileKeyCredentialRequestProof {
    /// Prove that the ciphertext made with `key_pair` encrypts the
    /// committed attribute.
    pub fn new(
        key_pair: &elgamal::EncryptionKeyPair,
        ciphertext: &elgamal::CiphertextWithSecretNonce,
        m: u64,
        commitment: &CommitmentWithSecretNonce,
        sho: &mut Sho,
    ) -> (r: ProfileKeyCredentialRequestProof)
        requires
            elgamal::keypair_wf(*key_pair),
            m < Q,
            commitment.j < Q,
            commitment.j_point == commitment_point(m, commitment.j),
            ciphertext.r < Q,
            ciphertext.e1 == elgamal::spec_encrypt(key_pair.public, fmul(m, GEN_G), ciphertext.r).e1,
            ciphertext.e2 == elgamal::spec_encrypt(key_pair.public, fmul(m, GEN_G), ciphertext.r).e2,
        ensures
            spec_request_verifies(
                key_pair.public,
                ciphertext.e1,
                ciphertext.e2,
                commitment.j_point,
                r.pok.challenge,
                r.pok.responses@,
            ),
            r.pok.challenge == spec_prove(
                LABEL_REQUEST_PROOF,
                request_rows(key_pair.public),
                request_publics(key_pair.public, ciphertext.e1, ciphertext.e2, commitment.j_point),
                seq![key_pair.secret, ciphertext.r, m, commitment.j],
                old(sho).state,
            ).0,
            r.pok.responses@ == spec_prove(
                LABEL_REQUEST_PROOF,
                request_rows(key_pair.public),
                request_publics(key_pair.public, ciphertext.e1, ciphertext.e2, commitment.j_point),
                seq![key_pair.secret, ciphertext.r, m, commitment.j],
                old(sho).state,
            ).1,
            final(sho).state == spec_sho_state_after(old(sho).state, 4),
    {
        let rows = request_rows_exec(key_pair.public);
        let mut publics: Vec<u64> = Vec::new();
        publics.push(key_pair.public);
        publics.push(ciphertext.e1);
        publics.push(ciphertext.e2);
        publics.push(commitment.j_point);
        let witness = sigma::row4(key_pair.secret, ciphertext.r, m, commitment.j);
        proof {
            assert(publics@ =~= request_publics(
                key_pair.public,
                ciphertext.e1,
                ciphertext.e2,
                commitment.j_point,
            ));
            lemma_request_statement(
                *key_pair,
                ciphertext.e1,
                ciphertext.e2,
                ciphertext.r,
                m,
                commitment.j,
                commitment.j_point,
            );
            sigma::lemma_pok_completeness(
                LABEL_REQUEST_PROOF,
                rows.deep_view(),
                publics@,
                witness@,
                old(sho).state,
            );
        }
        let pok = sigma::prove(LABEL_REQUEST_PROOF, &rows, &publics, &witness, sho);
        ProfileKeyCredentialRequestProof { pok }
    }

    /// Issuer-side check of a request against a published commitment.
    pub fn verify(
        &self,
        holder_public: u64,
        ciphertext: elgamal::Ciphertext,
        commitment_j_point: u64,
    ) -> (r: Result<(), ZkGroupVerificationFailure>)
        ensures
            r is Ok <==> spec_request_verifies(
                holder_public,
                ciphertext.e1,
                ciphertext.e2,
                commitment_j_point,
                self.pok.challenge,
                self.pok.responses@,
            ),
    {
        if holder_public >= Q || ciphertext.e1 >= Q || ciphertext.e2 >= Q || commitment_j_point
            >= Q {
            return Err(ZkGroupVerificationFailure);
        }
        let rows = request_rows_exec(holder_public);
        let mut publics: Vec<u64> = Vec::new();
        publics.push(holder_public);
        publics.push(ciphertext.e1);
        publics.push(ciphertext.e2);
        publics.push(commitment_j_point);
        proof {
            assert(publics@ =~= request_publics(
                holder_public,
                ciphertext.e1,
                ciphertext.e2,
                commitment_j_point,
            ));
        }
        sigma::verify(LABEL_REQUEST_PROOF, &rows, &publics, 4, &self.pok)
    }
}

/// The honest request transcript satisfies the request relation.
proof fn lemma_request_statement(
    kp: elgamal::EncryptionKeyPair,
    e1: u64,
    e2: u64,
    rnonce: u64,
    m: u64,
    j: u64,
    j_point: u64,
)
    requires
        elgamal::keypair_wf(kp),
        m < Q,
        j < Q,
        rnonce < Q,
        j_point == commitment_point(m, j),
        e1 == elgamal::spec_encrypt(kp.public, fmul(m, GEN_G), rnonce).e1,
        e2 == elgamal::spec_encrypt(kp.public, fmul(m, GEN_G), rnonce).e2,
    ensures
        sigma::statement_holds(
            request_rows(kp.public),
            request_publics(kp.public, e1, e2, j_point),
            seq![kp.secret, rnonce, m, j],
        ),
{
    let qq = Q as int;
    let w = seq![kp.secret, rnonce, m, j];
    let rows = request_rows(kp.public);
    let publics = request_publics(kp.public, e1, e2, j_point);

    lemma_dot4(w, rows[0]);
    lemma_dot4(w, rows[1]);
    lemma_dot4(w, rows[2]);
    lemma_dot4(w, rows[3]);

    // Row 0: the one-time public key.
    assert(publics[0] as int == dot(w, rows[0]) % qq);

    // Row 1: the first ciphertext component.
    assert(publics[1] as int == dot(w, rows[1]) % qq);

    // Row 2: the second ciphertext component, a sum of two products.
    lemma_mod_noop_small(fmul(rnonce, kp.public));
    lemma_mod_noop_small(fmul(m, GEN_G));
    vstd::arithmetic::div_mod::lemma_mod_twice((rnonce as int) * (kp.public as int), qq);
    vstd::arithmetic::div_mod::lemma_mod_twice((m as int) * (GEN_G as int), qq);
    lemma_add_cong(
        fmul(rnonce, kp.public) as int,
        (rnonce as int) * (kp.public as int),
        fmul(m, GEN_G) as int,
        (m as int) * (GEN_G as int),
    );
    assert(publics[2] as int == dot(w, rows[2]) % qq);

    // Row 3: the commitment element.
    lemma_add_cong(
        fmul(m, GEN_G) as int,
        (m as int) * (GEN_G as int),
        fmul(j, GEN_H) as int,
        (j as int) * (GEN_H as int),
    );
    vstd::arithmetic::div_mod::lemma_mod_twice((j as int) * (GEN_H as int), qq);
    assert(publics[3] as int == dot(w, rows[3]) % qq);
}

} // verus!
