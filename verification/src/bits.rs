//! Bit mixing on 64-bit words.

use vstd::prelude::*;
use vstd::arithmetic::div_mod::{
    lemma_mod_multiples_vanish, lemma_mul_mod_noop_left, lemma_small_mod,
};

verus! {

/// `x` with its bits rotated left by `k` places.
pub open spec fn rotated(x: u64, k: u64) -> u64 {
    (x << k) | (x >> ((64 - k) as u64))
}

/// `x` combined with itself shifted right by `k` places.
pub open spec fn folded(x: u64, k: u64) -> u64 {
    x ^ (x >> k)
}

/// Rotate the bits of `x` left by `k` places.
pub fn rotate_left(x: u64, k: u64) -> (out: u64)
    requires
        0 < k < 64,
    ensures
        out == rotated(x, k),
{
    (x << k) | (x >> (64 - k))
}

/// Combine `x` with itself shifted right by `k` places.
pub fn fold(x: u64, k: u64) -> (out: u64)
    requires
        0 < k < 64,
    ensures
        out == folded(x, k),
{
    x ^ (x >> k)
}

/// Rotation loses nothing.
pub proof fn rotation_is_injective(a: u64, b: u64, k: u64)
    requires
        0 < k < 64,
    ensures
        rotated(a, k) == rotated(b, k) <==> a == b,
{
    assert(rotated(a, k) == rotated(b, k) ==> a == b) by (bit_vector)
        requires
            0 < k < 64,
    ;
}

/// Folding by at least 22 places loses nothing.
pub proof fn folding_is_injective(a: u64, b: u64, k: u64)
    requires
        22 <= k < 64,
    ensures
        folded(a, k) == folded(b, k) <==> a == b,
{
    assert(folded(a, k) == folded(b, k) ==> a == b) by (bit_vector)
        requires
            22 <= k < 64,
    ;
}

/// Multiplication by a factor that has an inverse modulo 2^64 loses nothing.
pub proof fn scaling_is_injective(a: u64, b: u64, factor: u64, inverse: u64)
    requires
        factor * inverse % 0x1_0000_0000_0000_0000 == 1,
    ensures
        a.wrapping_mul(factor) == b.wrapping_mul(factor) <==> a == b,
{
    lemma_inverse_undoes(a, factor, inverse);
    lemma_inverse_undoes(b, factor, inverse);
}

proof fn lemma_inverse_undoes(a: u64, factor: u64, inverse: u64)
    requires
        factor * inverse % 0x1_0000_0000_0000_0000 == 1,
    ensures
        a.wrapping_mul(factor) * inverse % 0x1_0000_0000_0000_0000 == a,
{
    let m: int = 0x1_0000_0000_0000_0000;
    let product = a * factor;
    assert(a.wrapping_mul(factor) == product % m);
    lemma_mul_mod_noop_left(product, inverse as int, m);
    let k = factor * inverse / m;
    assert(product * inverse == a * (factor * inverse)) by (nonlinear_arith)
        requires
            product == a * factor,
    ;
    assert(factor * inverse == k * m + 1);
    assert(a * (k * m + 1) == m * (a * k) + a) by (nonlinear_arith);
    lemma_mod_multiples_vanish(a * k, a as int, m);
    lemma_small_mod(a as nat, m as nat);
}

} // verus!
