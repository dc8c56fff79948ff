//! Non-interactive zero-knowledge proofs for linear relations.
//!
//! Every proof in the protocol shows knowledge of a witness vector `w`
//! satisfying a system of linear equations `P_i = <w, B_i>` over the field,
//! where the rows `B_i` and the public values `P_i` are known to prover and
//! verifier alike. The proof is a sigma protocol made non-interactive by
//! deriving the challenge from the transcript through a domain-separated
//! [`Sho`] stream (Fiat–Shamir): commit to nonces `k`, derive the challenge
//! `c`, respond with `z = k + c*w`. The verifier recomputes the commitments
//! as `<z, B_i> - c*P_i` and accepts exactly when the recomputed transcript
//! reproduces the challenge.
//!
//! [`lemma_pok_completeness`] proves completeness once and for all: an
//! honestly produced proof of a true statement always verifies.

use vstd::arithmetic::div_mod::{
    lemma_add_mod_noop, lemma_mul_mod_noop_left, lemma_mul_mod_noop_right, lemma_sub_mod_noop,
};
use vstd::prelude::*;

use crate::errors::ZkGroupVerificationFailure;
use crate::field::{sc_add, sc_mul, sc_sub, Q};
use crate::sho::{
    spec_absorb_u64, spec_absorb_u64s, spec_sho_scalar, spec_sho_state_after, spec_sho_step, Sho,
    SHO_INIT,
};

verus! {

/// A non-interactive proof: the Fiat–Shamir challenge plus one response
/// per witness entry.
pub struct PokProof {
    pub challenge: u64,
    pub responses: Vec<u64>,
}

impl PokProof {
    /// A field-for-field copy.
    pub fn duplicate(&self) -> (r: PokProof)
        ensures
            r.challenge == self.challenge,
            r.responses@ == self.responses@,
    {
        let mut zs: Vec<u64> = Vec::new();
        let mut i: usize = 0;
        while i < self.responses.len()
            invariant
                i <= self.responses@.len(),
                zs@ == self.responses@.take(i as int),
            decreases self.responses@.len() - i,
        {
            zs.push(self.responses[i]);
            proof {
                assert(zs@ =~= self.responses@.take(i + 1));
            }
            i = i + 1;
        }
        proof {
            assert(self.responses@.take(self.responses@.len() as int) =~= self.responses@);
        }
        PokProof { challenge: self.challenge, responses: zs }
    }
}

/// Every entry is a reduced field element.
pub open spec fn scalars_ok(s: Seq<u64>) -> bool {
    forall|i: int| 0 <= i < s.len() ==> s[i] < Q
}

/// A well-formed coefficient matrix: every row has the witness arity and
/// reduced entries.
pub open spec fn rows_ok(rows: Seq<Seq<u64>>, arity: nat) -> bool {
    forall|i: int|
        0 <= i < rows.len() ==> (#[trigger] rows[i]).len() == arity && scalars_ok(rows[i])
}

/// Inner product of two equally long vectors, over the integers.
pub open spec fn dot(w: Seq<u64>, b: Seq<u64>) -> int
    decreases w.len(),
{
    if w.len() == 0 {
        0
    } else {
        dot(w.drop_last(), b.drop_last()) + (w.last() as int) * (b.last() as int)
    }
}

/// The statement being proved: each public value is the inner product of
/// the witness with the matching row, reduced into the field.
pub open spec fn statement_holds(rows: Seq<Seq<u64>>, publics: Seq<u64>, w: Seq<u64>) -> bool {
    &&& publics.len() == rows.len()
    &&& forall|i: int|
        0 <= i < rows.len() ==> publics[i] as int == dot(w, #[trigger] rows[i]) % (Q as int)
}

/// The nonce vector a prover draws from its stream.
pub open spec fn spec_nonces(state: u64, n: nat) -> Seq<u64> {
    Seq::new(n, |i: int| spec_sho_scalar(spec_sho_state_after(state, i as nat)))
}

/// The prover's commitments: inner products of the nonces with the rows.
pub open spec fn spec_commits(ks: Seq<u64>, rows: Seq<Seq<u64>>) -> Seq<u64> {
    Seq::new(rows.len(), |i: int| (dot(ks, rows[i]) % (Q as int)) as u64)
}

/// The prover's responses `z = k + c*w`.
pub open spec fn spec_responses(ks: Seq<u64>, w: Seq<u64>, c: u64) -> Seq<u64> {
    Seq::new(w.len(), |j: int| ((ks[j] + (c as int) * (w[j] as int)) % (Q as int)) as u64)
}

/// Absorb a row of the coefficient matrix per transcript step.
pub open spec fn spec_absorb_rows(s: u64, rows: Seq<Seq<u64>>) -> u64
    decreases rows.len(),
{
    if rows.len() == 0 {
        s
    } else {
        spec_absorb_u64s(spec_absorb_rows(s, rows.drop_last()), rows.last())
    }
}

/// The Fiat–Shamir challenge: a scalar squeezed from a transcript stream
/// that absorbed the label, the full coefficient matrix, the public values
/// and the commitments.
pub open spec fn spec_challenge(
    label: u64,
    rows: Seq<Seq<u64>>,
    publics: Seq<u64>,
    commits: Seq<u64>,
) -> u64 {
    spec_sho_scalar(
        spec_absorb_u64s(
            spec_absorb_u64s(
                spec_absorb_rows(spec_absorb_u64(SHO_INIT, label), rows),
                publics,
            ),
            commits,
        ),
    )
}

/// The challenge and responses of an honest prover.
pub open spec fn spec_prove(
    label: u64,
    rows: Seq<Seq<u64>>,
    publics: Seq<u64>,
    w: Seq<u64>,
    state: u64,
) -> (u64, Seq<u64>) {
    let ks = spec_nonces(state, w.len());
    let rs = spec_commits(ks, rows);
    let c = spec_challenge(label, rows, publics, rs);
    (c, spec_responses(ks, w, c))
}

/// The verifier's recomputed commitments `<z, B_i> - c*P_i`.
pub open spec fn spec_recommits(
    rows: Seq<Seq<u64>>,
    publics: Seq<u64>,
    c: u64,
    zs: Seq<u64>,
) -> Seq<u64> {
    Seq::new(
        rows.len(),
        |i: int| ((dot(zs, rows[i]) - (c as int) * (publics[i] as int)) % (Q as int)) as u64,
    )
}

/// Exactly when a proof passes verification against a statement.
pub open spec fn spec_verify(
    label: u64,
    rows: Seq<Seq<u64>>,
    publics: Seq<u64>,
    arity: nat,
    c: u64,
    zs: Seq<u64>,
) -> bool {
    &&& zs.len() == arity
    &&& c < Q
    &&& scalars_ok(zs)
    &&& c == spec_challenge(label, rows, publics, spec_recommits(rows, publics, c, zs))
}

/// Inner product reduced into the field.
pub fn dot_mod(w: &Vec<u64>, b: &Vec<u64>) -> (r: u64)
    requires
        w@.len() == b@.len(),
        scalars_ok(w@),
        scalars_ok(b@),
    ensures
        r < Q,
        r as int == dot(w@, b@) % (Q as int),
{
    let mut acc: u64 = 0;
    let mut i: usize = 0;
    while i < w.len()
        invariant
            i <= w@.len(),
            w@.len() == b@.len(),
            scalars_ok(w@),
            scalars_ok(b@),
            acc < Q,
            acc as int == dot(w@.take(i as int), b@.take(i as int)) % (Q as int),
        decreases w@.len() - i,
    {
        proof {
            assert(w@.take(i + 1).drop_last() =~= w@.take(i as int));
            assert(b@.take(i + 1).drop_last() =~= b@.take(i as int));
            lemma_add_mod_noop(
                dot(w@.take(i as int), b@.take(i as int)),
                (w@[i as int] as int) * (b@[i as int] as int),
                Q as int,
            );
        }
        let t = sc_mul(w[i], b[i]);
        acc = sc_add(acc, t);
        i = i + 1;
    }
    proof {
        assert(w@.take(w@.len() as int) =~= w@);
        assert(b@.take(b@.len() as int) =~= b@);
    }
    acc
}

fn transcript_challenge(
    label: u64,
    bases: &Vec<Vec<u64>>,
    publics: &Vec<u64>,
    commits: &Vec<u64>,
) -> (c: u64)
    ensures
        c == spec_challenge(label, bases.deep_view(), publics@, commits@),
        c < Q,
{
    let ghost rows = bases.deep_view();
    let mut sho = Sho::new_transcript(label);
    let mut i: usize = 0;
    while i < bases.len()
        invariant
            i <= bases@.len(),
            rows == bases.deep_view(),
            rows.len() == bases@.len(),
            forall|j: int| 0 <= j < bases@.len() ==> rows[j] == bases@[j]@,
            sho.state == spec_absorb_rows(spec_absorb_u64(SHO_INIT, label), rows.take(i as int)),
        decreases bases@.len() - i,
    {
        proof {
            assert(rows.take(i + 1).drop_last() =~= rows.take(i as int));
            assert(rows.take(i + 1).last() == rows[i as int]);
        }
        sho.absorb_slice(&bases[i]);
        i = i + 1;
    }
    proof {
        assert(rows.take(rows.len() as int) =~= rows);
    }
    sho.absorb_slice(publics);
    sho.absorb_slice(commits);
    sho.next_scalar()
}

/// Produce a proof for a true linear statement; the nonces come from the
/// caller's stream, the challenge from a fresh transcript stream under
/// `label`.
pub fn prove(
    label: u64,
    bases: &Vec<Vec<u64>>,
    publics: &Vec<u64>,
    witness: &Vec<u64>,
    sho: &mut Sho,
) -> (r: PokProof)
    requires
        rows_ok(bases.deep_view(), witness@.len() as nat),
        scalars_ok(witness@),
        scalars_ok(publics@),
        publics@.len() == bases@.len(),
    ensures
        r.challenge == spec_prove(label, bases.deep_view(), publics@, witness@, old(sho).state).0,
        r.responses@ == spec_prove(label, bases.deep_view(), publics@, witness@, old(sho).state).1,
        final(sho).state == spec_sho_state_after(old(sho).state, witness@.len() as nat),
{
    let ghost rows = bases.deep_view();
    let ghost state0 = sho.state;
    let n = witness.len();

    let mut ks: Vec<u64> = Vec::new();
    let mut i: usize = 0;
    while i < n
        invariant
            i <= n,
            n == witness@.len(),
            ks@.len() == i,
            sho.state == spec_sho_state_after(state0, i as nat),
            forall|j: int| 0 <= j < i ==> ks@[j] == spec_nonces(state0, n as nat)[j],
            scalars_ok(ks@),
        decreases n - i,
    {
        proof {
            assert(spec_sho_state_after(state0, (i + 1) as nat) == spec_sho_step(
                spec_sho_state_after(state0, i as nat),
            ));
        }
        let k = sho.next_scalar();
        ks.push(k);
        i = i + 1;
    }
    proof {
        assert(ks@ =~= spec_nonces(state0, n as nat));
    }

    let mut rs: Vec<u64> = Vec::new();
    let mut i2: usize = 0;
    while i2 < bases.len()
        invariant
            i2 <= bases@.len(),
            rows == bases.deep_view(),
            rows.len() == bases@.len(),
            forall|j: int| 0 <= j < bases@.len() ==> rows[j] == bases@[j]@,
            rows_ok(rows, n as nat),
            ks@.len() == n,
            scalars_ok(ks@),
            rs@.len() == i2,
            forall|j: int| 0 <= j < i2 ==> rs@[j] == spec_commits(ks@, rows)[j],
        decreases bases@.len() - i2,
    {
        proof {
            assert(bases@[i2 as int]@ == rows[i2 as int]);
            assert(rows[i2 as int].len() == n as nat && scalars_ok(rows[i2 as int]));
        }
        let t = dot_mod(&ks, &bases[i2]);
        rs.push(t);
        i2 = i2 + 1;
    }
    proof {
        assert(rs@ =~= spec_commits(ks@, rows));
    }

    let c = transcript_challenge(label, bases, publics, &rs);

    let mut zs: Vec<u64> = Vec::new();
    let mut i3: usize = 0;
    while i3 < n
        invariant
            i3 <= n,
            n == witness@.len(),
            ks@.len() == n,
            scalars_ok(ks@),
            scalars_ok(witness@),
            c < Q,
            zs@.len() == i3,
            forall|j: int| 0 <= j < i3 ==> zs@[j] == spec_responses(ks@, witness@, c)[j],
        decreases n - i3,
    {
        proof {
            lemma_add_mod_noop_right_wrap(
                ks@[i3 as int] as int,
                (c as int) * (witness@[i3 as int] as int),
            );
        }
        let t = sc_mul(c, witness[i3]);
        let z = sc_add(ks[i3], t);
        zs.push(z);
        i3 = i3 + 1;
    }
    proof {
        assert(zs@ =~= spec_responses(ks@, witness@, c));
    }

    PokProof { challenge: c, responses: zs }
}

/// Check a proof against a statement. Returns the opaque failure on any
/// mismatch, without distinguishing why.
pub fn verify(
    label: u64,
    bases: &Vec<Vec<u64>>,
    publics: &Vec<u64>,
    arity: usize,
    pok: &PokProof,
) -> (r: Result<(), ZkGroupVerificationFailure>)
    requires
        rows_ok(bases.deep_view(), arity as nat),
        scalars_ok(publics@),
        publics@.len() == bases@.len(),
    ensures
        r is Ok <==> spec_verify(
            label,
            bases.deep_view(),
            publics@,
            arity as nat,
            pok.challenge,
            pok.responses@,
        ),
{
    let ghost rows = bases.deep_view();
    if pok.responses.len() != arity {
        return Err(ZkGroupVerificationFailure);
    }
    if pok.challenge >= Q {
        return Err(ZkGroupVerificationFailure);
    }
    let mut i: usize = 0;
    while i < pok.responses.len()
        invariant
            i <= pok.responses@.len(),
            forall|j: int| 0 <= j < i ==> pok.responses@[j] < Q,
        decreases pok.responses@.len() - i,
    {
        if pok.responses[i] >= Q {
            return Err(ZkGroupVerificationFailure);
        }
        i = i + 1;
    }

    let mut rcs: Vec<u64> = Vec::new();
    let mut i2: usize = 0;
    while i2 < bases.len()
        invariant
            i2 <= bases@.len(),
            rows == bases.deep_view(),
            rows.len() == bases@.len(),
            forall|j: int| 0 <= j < bases@.len() ==> rows[j] == bases@[j]@,
            rows_ok(rows, arity as nat),
            publics@.len() == bases@.len(),
            scalars_ok(publics@),
            pok.responses@.len() == arity,
            scalars_ok(pok.responses@),
            pok.challenge < Q,
            rcs@.len() == i2,
            forall|j: int|
                0 <= j < i2 ==> rcs@[j] == spec_recommits(
                    rows,
                    publics@,
                    pok.challenge,
                    pok.responses@,
                )[j],
        decreases bases@.len() - i2,
    {
        proof {
            lemma_sub_mod_noop(
                dot(pok.responses@, rows[i2 as int]),
                (pok.challenge as int) * (publics@[i2 as int] as int),
                Q as int,
            );
        }
        let t = dot_mod(&pok.responses, &bases[i2]);
        let u = sc_mul(pok.challenge, publics[i2]);
        let rc = sc_sub(t, u);
        rcs.push(rc);
        i2 = i2 + 1;
    }
    proof {
        assert(rcs@ =~= spec_recommits(rows, publics@, pok.challenge, pok.responses@));
    }

    let c2 = transcript_challenge(label, bases, publics, &rcs);
    if c2 == pok.challenge {
        Ok(())
    } else {
        Err(ZkGroupVerificationFailure)
    }
}

proof fn lemma_add_mod_noop_right_wrap(x: int, y: int)
    ensures
        (x + (y % (Q as int))) % (Q as int) == (x + y) % (Q as int),
{
    vstd::arithmetic::div_mod::lemma_add_mod_noop_right(x, y, Q as int);
}

/// Unfolded inner product for arity-4 witnesses.
pub proof fn lemma_dot4(w: Seq<u64>, b: Seq<u64>)
    requires
        w.len() == 4,
        b.len() == 4,
    ensures
        dot(w, b) == (w[0] as int) * (b[0] as int) + (w[1] as int) * (b[1] as int) + (
        w[2] as int) * (b[2] as int) + (w[3] as int) * (b[3] as int),
{
    reveal_with_fuel(dot, 6);
}

/// Unfolded inner product for arity-7 witnesses.
pub proof fn lemma_dot7(w: Seq<u64>, b: Seq<u64>)
    requires
        w.len() == 7,
        b.len() == 7,
    ensures
        dot(w, b) == (w[0] as int) * (b[0] as int) + (w[1] as int) * (b[1] as int) + (
        w[2] as int) * (b[2] as int) + (w[3] as int) * (b[3] as int) + (w[4] as int) * (
        b[4] as int) + (w[5] as int) * (b[5] as int) + (w[6] as int) * (b[6] as int),
{
    reveal_with_fuel(dot, 9);
}

/// Build an arity-4 row.
pub fn row4(a0: u64, a1: u64, a2: u64, a3: u64) -> (r: Vec<u64>)
    ensures
        r@ == seq![a0, a1, a2, a3],
{
    let mut v: Vec<u64> = Vec::new();
    v.push(a0);
    v.push(a1);
    v.push(a2);
    v.push(a3);
    proof {
        assert(v@ =~= seq![a0, a1, a2, a3]);
    }
    v
}

/// Build an arity-7 row.
pub fn row7(a0: u64, a1: u64, a2: u64, a3: u64, a4: u64, a5: u64, a6: u64) -> (r: Vec<u64>)
    ensures
        r@ == seq![a0, a1, a2, a3, a4, a5, a6],
{
    let mut v: Vec<u64> = Vec::new();
    v.push(a0);
    v.push(a1);
    v.push(a2);
    v.push(a3);
    v.push(a4);
    v.push(a5);
    v.push(a6);
    proof {
        assert(v@ =~= seq![a0, a1, a2, a3, a4, a5, a6]);
    }
    v
}

/// Congruent summands give congruent sums.
proof fn lemma_add_congruent(x1: int, y1: int, x2: int, y2: int)
    requires
        x1 % (Q as int) == y1 % (Q as int),
        x2 % (Q as int) == y2 % (Q as int),
    ensures
        (x1 + x2) % (Q as int) == (y1 + y2) % (Q as int),
{
    lemma_add_mod_noop(x1, x2, Q as int);
    lemma_add_mod_noop(y1, y2, Q as int);
}

/// The responses of an honest prover recombine linearly: the inner product
/// of `z = k + c*w` with any row is congruent to `<k, B> + c*<w, B>`.
proof fn lemma_dot_response(ks: Seq<u64>, w: Seq<u64>, b: Seq<u64>, c: u64)
    requires
        ks.len() == w.len(),
        b.len() == w.len(),
    ensures
        dot(spec_responses(ks, w, c), b) % (Q as int) == (dot(ks, b) + (c as int) * dot(w, b)) % (
        Q as int),
    decreases w.len(),
{
    let zs = spec_responses(ks, w, c);
    if w.len() == 0 {
        assert(zs.len() == 0);
        assert((c as int) * dot(w, b) == 0) by (nonlinear_arith)
            requires
                dot(w, b) == 0,
        ;
    } else {
        let ks2 = ks.drop_last();
        let w2 = w.drop_last();
        let b2 = b.drop_last();
        assert(spec_responses(ks2, w2, c) =~= zs.drop_last());
        lemma_dot_response(ks2, w2, b2, c);

        let kl = ks.last() as int;
        let wl = w.last() as int;
        let bl = b.last() as int;
        let cc = c as int;
        let qq = Q as int;

        // last entry of zs, before reduction
        assert(zs.last() as int == (kl + cc * wl) % qq);
        lemma_mul_mod_noop_left(kl + cc * wl, bl, qq);
        assert(((kl + cc * wl) % qq) * bl % qq == ((kl + cc * wl) * bl) % qq);
        assert((kl + cc * wl) * bl == kl * bl + cc * (wl * bl)) by (nonlinear_arith);

        lemma_add_congruent(
            dot(zs.drop_last(), b2),
            dot(ks2, b2) + cc * dot(w2, b2),
            (zs.last() as int) * bl,
            kl * bl + cc * (wl * bl),
        );
        assert(dot(zs, b) % qq == (dot(ks2, b2) + cc * dot(w2, b2) + (kl * bl + cc * (wl * bl)))
            % qq);
        assert(dot(ks2, b2) + cc * dot(w2, b2) + (kl * bl + cc * (wl * bl)) == dot(ks, b) + cc
            * dot(w, b)) by (nonlinear_arith)
            requires
                dot(ks, b) == dot(ks2, b2) + kl * bl,
                dot(w, b) == dot(w2, b2) + wl * bl,
        ;
    }
}

/// Completeness: an honest proof of a true statement verifies.
pub proof fn lemma_pok_completeness(
    label: u64,
    rows: Seq<Seq<u64>>,
    publics: Seq<u64>,
    w: Seq<u64>,
    state: u64,
)
    requires
        rows_ok(rows, w.len() as nat),
        scalars_ok(w),
        scalars_ok(publics),
        statement_holds(rows, publics, w),
    ensures
        spec_verify(
            label,
            rows,
            publics,
            w.len() as nat,
            spec_prove(label, rows, publics, w, state).0,
            spec_prove(label, rows, publics, w, state).1,
        ),
{
    let qq = Q as int;
    let ks = spec_nonces(state, w.len());
    let rs = spec_commits(ks, rows);
    let c = spec_challenge(label, rows, publics, rs);
    let zs = spec_responses(ks, w, c);

    assert forall|i: int| 0 <= i < rows.len() implies spec_recommits(rows, publics, c, zs)[i]
        == rs[i] by {
        lemma_dot_response(ks, w, rows[i], c);
        // c * publics[i] is congruent to c * dot(w, rows[i])
        lemma_mul_mod_noop_right(c as int, dot(w, rows[i]), qq);
        lemma_sub_mod_noop(dot(zs, rows[i]), (c as int) * (publics[i] as int), qq);
        lemma_sub_mod_noop(
            dot(ks, rows[i]) + (c as int) * dot(w, rows[i]),
            (c as int) * dot(w, rows[i]),
            qq,
        );
        assert((c as int) * (publics[i] as int) % qq == (c as int) * dot(w, rows[i]) % qq) by {
            lemma_mul_mod_noop_right(c as int, dot(w, rows[i]), qq);
            assert(publics[i] as int == dot(w, rows[i]) % qq);
        }
        assert((dot(zs, rows[i]) - (c as int) * (publics[i] as int)) % qq == (dot(ks, rows[i])
            + (c as int) * dot(w, rows[i]) - (c as int) * dot(w, rows[i])) % qq) by {
            lemma_sub_congruent(
                dot(zs, rows[i]),
                dot(ks, rows[i]) + (c as int) * dot(w, rows[i]),
                (c as int) * (publics[i] as int),
                (c as int) * dot(w, rows[i]),
            );
        }
        vstd::arithmetic::div_mod::lemma_mod_bound(dot(ks, rows[i]), qq);
    }
    assert(spec_recommits(rows, publics, c, zs) =~= rs);
}

/// Congruent operands give congruent differences.
proof fn lemma_sub_congruent(x1: int, y1: int, x2: int, y2: int)
    requires
        x1 % (Q as int) == y1 % (Q as int),
        x2 % (Q as int) == y2 % (Q as int),
    ensures
        (x1 - x2) % (Q as int) == (y1 - y2) % (Q as int),
{
    lemma_sub_mod_noop(x1, x2, Q as int);
    lemma_sub_mod_noop(y1, y2, Q as int);
}

} // verus!
