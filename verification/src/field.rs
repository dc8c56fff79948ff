//! Scalar arithmetic modulo the prime `Q`.
//!
//! The whole credential algebra runs over the prime field of order
//! `Q = 2^61 - 1` (a Mersenne prime). Group elements and scalars are both
//! field elements; the group operation is field addition and "scalar
//! multiplication of a point" is field multiplication. Fixed, pairwise
//! distinct generators give the independent bases the commitments and
//! proof relations are stated over.

use vstd::prelude::*;

verus! {

/// The field order: the Mersenne prime `2^61 - 1`.
pub const Q: u64 = 2305843009213693951;

/// Base generator; every key pair publishes multiples of this element.
pub const GEN_G: u64 = 2;

/// Blinding generator for commitments.
pub const GEN_H: u64 = 3;

/// Generator for the credential-commitment term of presentation proofs.
pub const GEN_V: u64 = 5;

/// Per-attribute generator for the first attribute slot.
pub const GEN_A1: u64 = 6;

/// Per-attribute generator for the second attribute slot.
pub const GEN_A2: u64 = 7;

/// Per-attribute generator for the third attribute slot.
pub const GEN_A3: u64 = 11;

/// Field addition, at the specification level.
pub open spec fn fadd(a: u64, b: u64) -> u64 {
    (((a as int) + (b as int)) % (Q as int)) as u64
}

/// Field subtraction, at the specification level.
pub open spec fn fsub(a: u64, b: u64) -> u64 {
    (((a as int) - (b as int)) % (Q as int)) as u64
}

/// Field multiplication, at the specification level.
pub open spec fn fmul(a: u64, b: u64) -> u64 {
    (((a as int) * (b as int)) % (Q as int)) as u64
}

/// Field addition.
pub fn sc_add(a: u64, b: u64) -> (r: u64)
    requires
        a < Q,
        b < Q,
    ensures
        r < Q,
        r as int == (a + b) % (Q as int),
        r == fadd(a, b),
{
    let s: u64 = a + b;
    if s >= Q {
        proof {
            vstd::arithmetic::div_mod::lemma_mod_multiples_vanish(1, s - Q, Q as int);
            vstd::arithmetic::div_mod::lemma_small_mod((s - Q) as nat, Q as nat);
        }
        s - Q
    } else {
        proof {
            vstd::arithmetic::div_mod::lemma_small_mod(s as nat, Q as nat);
        }
        s
    }
}

/// Field subtraction.
pub fn sc_sub(a: u64, b: u64) -> (r: u64)
    requires
        a < Q,
        b < Q,
    ensures
        r < Q,
        r as int == (a - b) % (Q as int),
        r == fsub(a, b),
{
    let s: u64 = a + Q - b;
    proof {
        vstd::arithmetic::div_mod::lemma_mod_multiples_vanish(1, a - b, Q as int);
    }
    if s >= Q {
        proof {
            vstd::arithmetic::div_mod::lemma_mod_multiples_vanish(1, s - Q, Q as int);
            vstd::arithmetic::div_mod::lemma_small_mod((s - Q) as nat, Q as nat);
        }
        s - Q
    } else {
        proof {
            vstd::arithmetic::div_mod::lemma_small_mod(s as nat, Q as nat);
        }
        s
    }
}

/// Field multiplication.
pub fn sc_mul(a: u64, b: u64) -> (r: u64)
    requires
        a < Q,
        b < Q,
    ensures
        r < Q,
        r as int == (a * b) % (Q as int),
        r == fmul(a, b),
{
    proof {
        assert((a as int) * (b as int) < 5316911983139663487003542222693990401int) by (nonlinear_arith)
            requires
                a < Q,
                b < Q,
        ;
    }
    let p: u128 = (a as u128) * (b as u128);
    let r: u128 = p % (Q as u128);
    r as u64
}

/// Reduce an arbitrary machine word into the field.
pub fn sc_reduce(x: u64) -> (r: u64)
    requires
        true,
    ensures
        r < Q,
        r as int == (x as int) % (Q as int),
{
    x % Q
}

/// Congruent summands give congruent sums modulo `Q`.
pub proof fn lemma_add_cong(x1: int, y1: int, x2: int, y2: int)
    requires
        x1 % (Q as int) == y1 % (Q as int),
        x2 % (Q as int) == y2 % (Q as int),
    ensures
        (x1 + x2) % (Q as int) == (y1 + y2) % (Q as int),
{
    vstd::arithmetic::div_mod::lemma_add_mod_noop(x1, x2, Q as int);
    vstd::arithmetic::div_mod::lemma_add_mod_noop(y1, y2, Q as int);
}

/// Congruent operands give congruent differences modulo `Q`.
pub proof fn lemma_sub_cong(x1: int, y1: int, x2: int, y2: int)
    requires
        x1 % (Q as int) == y1 % (Q as int),
        x2 % (Q as int) == y2 % (Q as int),
    ensures
        (x1 - x2) % (Q as int) == (y1 - y2) % (Q as int),
{
    vstd::arithmetic::div_mod::lemma_sub_mod_noop(x1, x2, Q as int);
    vstd::arithmetic::div_mod::lemma_sub_mod_noop(y1, y2, Q as int);
}

/// Congruent factors give congruent products modulo `Q`.
pub proof fn lemma_mul_cong(x1: int, y1: int, x2: int, y2: int)
    requires
        x1 % (Q as int) == y1 % (Q as int),
        x2 % (Q as int) == y2 % (Q as int),
    ensures
        (x1 * x2) % (Q as int) == (y1 * y2) % (Q as int),
{
    vstd::arithmetic::div_mod::lemma_mul_mod_noop_general(x1, x2, Q as int);
    vstd::arithmetic::div_mod::lemma_mul_mod_noop_general(y1, y2, Q as int);
}

/// A reduced value is its own remainder.
pub proof fn lemma_mod_noop_small(x: u64)
    requires
        x < Q,
    ensures
        (x as int) % (Q as int) == x as int,
{
    vstd::arithmetic::div_mod::lemma_small_mod(x as nat, Q as nat);
}

/// Two reduced values with equal residues are equal.
pub proof fn lemma_reduced_eq(x: u64, y: u64)
    requires
        x < Q,
        y < Q,
        (x as int) % (Q as int) == (y as int) % (Q as int),
    ensures
        x == y,
{
    lemma_mod_noop_small(x);
    lemma_mod_noop_small(y);
}

/// Doubling a nonzero reduced value never lands on zero: `Q` is odd, so
/// the only multiple of `Q` that `2*t` could reach in range is excluded.
pub proof fn lemma_double_nonzero(t: u64)
    requires
        0 < t < Q,
    ensures
        fmul(t, GEN_G) != 0,
{
    let qq = Q as int;
    let d = 2 * (t as int);
    assert(fmul(t, GEN_G) as int == d % qq) by {
        assert((t as int) * (GEN_G as int) == d);
    }
    if d < qq {
        vstd::arithmetic::div_mod::lemma_small_mod(d as nat, Q as nat);
    } else {
        vstd::arithmetic::div_mod::lemma_mod_multiples_vanish(1, d - qq, qq);
        vstd::arithmetic::div_mod::lemma_small_mod((d - qq) as nat, Q as nat);
        assert(d % qq == d - qq);
        assert(d - qq != 0);
    }
}

/// Multiplication by the base generator is injective on reduced values:
/// two distinct nonces always give two distinct first ciphertext
/// components.
pub proof fn lemma_gen_mul_injective(r1: u64, r2: u64)
    requires
        r1 < Q,
        r2 < Q,
        fmul(r1, GEN_G) == fmul(r2, GEN_G),
    ensures
        r1 == r2,
{
    let qq = Q as int;
    let d1 = 2 * (r1 as int);
    let d2 = 2 * (r2 as int);
    assert((r1 as int) * (GEN_G as int) == d1) by (nonlinear_arith)
        requires
            d1 == 2 * (r1 as int),
            GEN_G == 2u64,
    ;
    assert((r2 as int) * (GEN_G as int) == d2) by (nonlinear_arith)
        requires
            d2 == 2 * (r2 as int),
            GEN_G == 2u64,
    ;
    if d1 < qq {
        vstd::arithmetic::div_mod::lemma_small_mod(d1 as nat, Q as nat);
    } else {
        vstd::arithmetic::div_mod::lemma_mod_multiples_vanish(1, d1 - qq, qq);
        vstd::arithmetic::div_mod::lemma_small_mod((d1 - qq) as nat, Q as nat);
    }
    if d2 < qq {
        vstd::arithmetic::div_mod::lemma_small_mod(d2 as nat, Q as nat);
    } else {
        vstd::arithmetic::div_mod::lemma_mod_multiples_vanish(1, d2 - qq, qq);
        vstd::arithmetic::div_mod::lemma_small_mod((d2 - qq) as nat, Q as nat);
    }
}

} // verus!
