//! Deterministic domain-separated randomness stream.
//!
//! A [`Sho`] is a keyed extendable-output stream: it is initialised from a
//! domain-separation label and a 32-byte seed and then hands out machine
//! words, field scalars and bytes. Every output is a pure function of
//! (label, seed, position in the stream), which is what makes the whole
//! protocol reproducible from its seeds. Each call site uses its own label
//! so that streams of unrelated operations never coincide.

use vstd::prelude::*;

use crate::field::Q;

verus! {

/// Initial sponge state before the label is absorbed.
pub const SHO_INIT: u64 = 0x243F6A8885A308D3;

/// Stream-advance increment.
pub const SHO_STEP: u64 = 0x9E3779B97F4A7C15;

/// Product of two words, truncated to 64 bits.
pub open spec fn spec_mul_wrap(a: u64, b: u64) -> u64 {
    (((a as int) * (b as int)) % 0x10000000000000000int) as u64
}

/// Sum of two words, truncated to 64 bits.
pub open spec fn spec_add_wrap(a: u64, b: u64) -> u64 {
    (((a as int) + (b as int)) % 0x10000000000000000int) as u64
}

/// 64-bit finalizer: a bijective avalanche permutation.
pub open spec fn spec_mix(x: u64) -> u64 {
    let z1 = spec_mul_wrap(x ^ (x >> 30u64), 0xBF58476D1CE4E5B9);
    let z2 = spec_mul_wrap(z1 ^ (z1 >> 27u64), 0x94D049BB133111EB);
    z2 ^ (z2 >> 31u64)
}

/// Absorb one word into the sponge state.
pub open spec fn spec_absorb_u64(s: u64, v: u64) -> u64 {
    spec_mix(s ^ spec_mix(v))
}

/// Absorb a byte sequence, front to back.
pub open spec fn spec_absorb_bytes(s: u64, b: Seq<u8>) -> u64
    decreases b.len(),
{
    if b.len() == 0 {
        s
    } else {
        spec_absorb_u64(spec_absorb_bytes(s, b.drop_last()), b.last() as u64)
    }
}

/// Absorb a word sequence, front to back.
pub open spec fn spec_absorb_u64s(s: u64, b: Seq<u64>) -> u64
    decreases b.len(),
{
    if b.len() == 0 {
        s
    } else {
        spec_absorb_u64(spec_absorb_u64s(s, b.drop_last()), b.last())
    }
}

/// The stream state after initialisation from a label and a seed.
pub open spec fn spec_sho_init(label: u64, seed: Seq<u8>) -> u64 {
    spec_absorb_bytes(spec_absorb_u64(SHO_INIT, label), seed)
}

/// The state that follows `s` in the stream.
pub open spec fn spec_sho_step(s: u64) -> u64 {
    spec_add_wrap(s, SHO_STEP)
}

/// The word squeezed when stepping out of state `s`.
pub open spec fn spec_sho_out(s: u64) -> u64 {
    spec_mix(spec_sho_step(s))
}

/// The scalar squeezed when stepping out of state `s`.
pub open spec fn spec_sho_scalar(s: u64) -> u64 {
    (spec_sho_out(s) as int % Q as int) as u64
}

/// The nonzero scalar squeezed when stepping out of state `s`.
pub open spec fn spec_sho_nonzero_scalar(s: u64) -> u64 {
    (spec_sho_out(s) as int % (Q - 1) as int + 1) as u64
}

/// The state reached from `s` after `n` squeezes.
pub open spec fn spec_sho_state_after(s: u64, n: nat) -> u64
    decreases n,
{
    if n == 0 {
        s
    } else {
        spec_sho_step(spec_sho_state_after(s, (n - 1) as nat))
    }
}

/// The `n` bytes squeezed out of state `s`.
pub open spec fn spec_sho_bytes(s: u64, n: nat) -> Seq<u8> {
    Seq::new(n, |i: int| (spec_sho_out(spec_sho_state_after(s, i as nat)) % 256) as u8)
}

fn mul_wrap(a: u64, b: u64) -> (r: u64)
    ensures
        r == spec_mul_wrap(a, b),
{
    proof {
        assert((a as int) * (b as int) < 0x100000000000000000000000000000000int) by (nonlinear_arith)
            requires
                a <= 0xFFFFFFFFFFFFFFFFu64,
                b <= 0xFFFFFFFFFFFFFFFFu64,
        ;
    }
    let p: u128 = (a as u128) * (b as u128);
    (p % 0x10000000000000000u128) as u64
}

fn add_wrap(a: u64, b: u64) -> (r: u64)
    ensures
        r == spec_add_wrap(a, b),
{
    let p: u128 = (a as u128) + (b as u128);
    (p % 0x10000000000000000u128) as u64
}

fn mix(x: u64) -> (r: u64)
    ensures
        r == spec_mix(x),
{
    let z1 = mul_wrap(x ^ (x >> 30u64), 0xBF58476D1CE4E5B9);
    let z2 = mul_wrap(z1 ^ (z1 >> 27u64), 0x94D049BB133111EB);
    z2 ^ (z2 >> 31u64)
}

fn absorb_u64(s: u64, v: u64) -> (r: u64)
    ensures
        r == spec_absorb_u64(s, v),
{
    let m = mix(v);
    mix(s ^ m)
}

/// Absorb a byte slice into a bare sponge state.
pub fn absorb_bytes_into(s: u64, b: &[u8]) -> (r: u64)
    ensures
        r == spec_absorb_bytes(s, b@),
{
    let mut st = s;
    let mut i: usize = 0;
    while i < b.len()
        invariant
            i <= b@.len(),
            st == spec_absorb_bytes(s, b@.take(i as int)),
        decreases b@.len() - i,
    {
        proof {
            assert(b@.take(i + 1).drop_last() =~= b@.take(i as int));
            assert(b@.take(i + 1).last() == b@[i as int]);
        }
        st = absorb_u64(st, b[i] as u64);
        i = i + 1;
    }
    proof {
        assert(b@.take(b@.len() as int) =~= b@);
    }
    st
}

/// A deterministic, domain-separated stream of pseudorandom outputs.
pub struct Sho {
    pub state: u64,
}

impl Sho {
    /// Initialise the stream from a domain-separation label and a seed.
    ///
    /// Identical (label, seed) pairs always reproduce the identical stream.
    pub fn new(label: u64, seed: &[u8; 32]) -> (r: Sho)
        ensures
            r.state == spec_sho_init(label, seed@),
    {
        let mut st = absorb_u64(SHO_INIT, label);
        let mut i: usize = 0;
        while i < 32
            invariant
                i <= 32,
                st == spec_absorb_bytes(spec_absorb_u64(SHO_INIT, label), seed@.take(i as int)),
            decreases 32 - i,
        {
            proof {
                assert(seed@.take(i + 1).drop_last() =~= seed@.take(i as int));
                assert(seed@.take(i + 1).last() == seed@[i as int]);
            }
            st = absorb_u64(st, seed[i] as u64);
            i = i + 1;
        }
        proof {
            assert(seed@.take(32) =~= seed@);
        }
        Sho { state: st }
    }

    /// Start a transcript stream from a label alone; the data to be
    /// hashed is absorbed afterwards.
    pub fn new_transcript(label: u64) -> (r: Sho)
        ensures
            r.state == spec_absorb_u64(SHO_INIT, label),
    {
        Sho { state: absorb_u64(SHO_INIT, label) }
    }

    /// Absorb one more word into the stream.
    pub fn absorb(&mut self, v: u64)
        ensures
            final(self).state == spec_absorb_u64(old(self).state, v),
    {
        self.state = absorb_u64(self.state, v);
    }

    /// Absorb a sequence of words into the stream.
    pub fn absorb_slice(&mut self, vs: &Vec<u64>)
        ensures
            final(self).state == spec_absorb_u64s(old(self).state, vs@),
    {
        let mut i: usize = 0;
        while i < vs.len()
            invariant
                i <= vs.len(),
                self.state == spec_absorb_u64s(old(self).state, vs@.take(i as int)),
            decreases vs.len() - i,
        {
            proof {
                assert(vs@.take(i + 1).drop_last() =~= vs@.take(i as int));
                assert(vs@.take(i + 1).last() == vs@[i as int]);
            }
            self.absorb(vs[i]);
            i = i + 1;
        }
        proof {
            assert(vs@.take(vs@.len() as int) =~= vs@);
        }
    }

    /// Squeeze the next machine word.
    pub fn next_u64(&mut self) -> (r: u64)
        ensures
            final(self).state == spec_sho_step(old(self).state),
            r == spec_sho_out(old(self).state),
    {
        self.state = add_wrap(self.state, SHO_STEP);
        mix(self.state)
    }

    /// Squeeze the next field scalar.
    pub fn next_scalar(&mut self) -> (r: u64)
        ensures
            final(self).state == spec_sho_step(old(self).state),
            r == spec_sho_scalar(old(self).state),
            r < Q,
    {
        let w = self.next_u64();
        w % Q
    }

    /// Squeeze the next nonzero field scalar.
    ///
    /// Credential bases must not be the group identity, so the draw is
    /// mapped onto `1..Q` rather than resampled.
    pub fn next_nonzero_scalar(&mut self) -> (r: u64)
        ensures
            final(self).state == spec_sho_step(old(self).state),
            r == spec_sho_nonzero_scalar(old(self).state),
            0 < r < Q,
    {
        let w = self.next_u64();
        w % (Q - 1) + 1
    }

    /// Squeeze the next `n` bytes.
    pub fn next_bytes(&mut self, n: usize) -> (r: Vec<u8>)
        ensures
            r@ == spec_sho_bytes(old(self).state, n as nat),
            final(self).state == spec_sho_state_after(old(self).state, n as nat),
    {
        let mut v: Vec<u8> = Vec::new();
        let mut i: usize = 0;
        while i < n
            invariant
                i <= n,
                v@ == spec_sho_bytes(old(self).state, i as nat),
                self.state == spec_sho_state_after(old(self).state, i as nat),
            decreases n - i,
        {
            let ghost prev = self.state;
            let w = self.next_u64();
            v.push((w % 256) as u8);
            i = i + 1;
            proof {
                assert(spec_sho_state_after(old(self).state, i as nat) == spec_sho_step(prev));
                assert(v@ =~= spec_sho_bytes(old(self).state, i as nat));
            }
        }
        v
    }
}

/// Unrolled forms of the first few stream states, for callers that draw
/// a handful of values in sequence.
pub proof fn lemma_sho_state_unroll(s: u64)
    ensures
        spec_sho_state_after(s, 0) == s,
        spec_sho_state_after(s, 1) == spec_sho_step(s),
        spec_sho_state_after(s, 2) == spec_sho_step(spec_sho_state_after(s, 1)),
        spec_sho_state_after(s, 3) == spec_sho_step(spec_sho_state_after(s, 2)),
        spec_sho_state_after(s, 4) == spec_sho_step(spec_sho_state_after(s, 3)),
        spec_sho_state_after(s, 5) == spec_sho_step(spec_sho_state_after(s, 4)),
        spec_sho_state_after(s, 6) == spec_sho_step(spec_sho_state_after(s, 5)),
        spec_sho_state_after(s, 7) == spec_sho_step(spec_sho_state_after(s, 6)),
{
    reveal_with_fuel(spec_sho_state_after, 9);
}

/// Drawing `a` values and then `b` more lands where drawing `a + b`
/// does.
pub proof fn lemma_sho_state_compose(s: u64, a: nat, b: nat)
    ensures
        spec_sho_state_after(spec_sho_state_after(s, a), b) == spec_sho_state_after(s, a + b),
    decreases b,
{
    if b > 0 {
        lemma_sho_state_compose(s, a, (b - 1) as nat);
    }
}

/// The stream is a pure function of its label and seed: equal
/// (label, seed) pairs initialise equal streams, and every squeeze is a
/// function of the state alone, so the full output sequences coincide.
pub proof fn lemma_sho_deterministic(label1: u64, seed1: Seq<u8>, label2: u64, seed2: Seq<u8>)
    requires
        label1 == label2,
        seed1 == seed2,
    ensures
        spec_sho_init(label1, seed1) == spec_sho_init(label2, seed2),
        forall|n: nat|
            spec_sho_state_after(spec_sho_init(label1, seed1), n) == spec_sho_state_after(
                spec_sho_init(label2, seed2),
                n,
            ),
{
}

} // verus!
