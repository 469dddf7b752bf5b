//! Binary floating-point values, held as their bit patterns.
//!
//! Configuration values such as fault rates are IEEE 754 `binary64` numbers.
//! The decisions that the simulator takes on them (is it finite, is it
//! negative, does a uniform draw fall below it) are exact comparisons, and are
//! made here on the bits.

use vstd::prelude::*;
use vstd::arithmetic::power2::{
    lemma_pow2_adds, lemma_pow2_pos, lemma_pow2_strictly_increases, pow2,
};

verus! {

/// The sign bit.
pub const SIGN: u64 = 0x8000_0000_0000_0000;

/// One past the largest fraction field: the implicit leading bit.
pub const FRACTION: u64 = 0x0010_0000_0000_0000;

/// The magnitude bits of infinity; larger magnitude bits mean "not a number".
pub const INFINITY: u64 = 0x7ff0_0000_0000_0000;

/// The magnitude bits of 1.
pub const ONE: u64 = 0x3ff0_0000_0000_0000;

/// How many values a uniform draw can take: draws are multiples of 2^-53.
pub const DRAWS: u64 = 0x0020_0000_0000_0000;

/// A `binary64` value, by its bit pattern.
#[derive(Copy, Clone, Debug, PartialEq, Eq, Structural)]
pub struct Binary64 {
    /// The 64 bits: sign, 11 bits of exponent, 52 bits of fraction.
    pub bits: u64,
}

/// The number 1, counted in units of 2^-1074.
pub open spec fn one_scaled() -> int {
    pow2(1074) as int
}

/// The uniform draw `k` / 2^53, counted in units of 2^-1074.
pub open spec fn draw_scaled(k: int) -> int {
    k * pow2(1021)
}

impl Binary64 {
    /// The value with the given bit pattern.
    pub fn from_bits(bits: u64) -> (value: Self)
        ensures
            value.bits == bits,
    {
        Binary64 { bits }
    }

    /// Whether the sign bit is set.
    pub open spec fn signed(self) -> bool {
        self.bits >= SIGN
    }

    /// The bits without the sign bit.
    pub open spec fn magnitude_bits(self) -> int {
        (self.bits % SIGN) as int
    }

    /// Whether this is no number at all.
    pub open spec fn not_a_number(self) -> bool {
        self.magnitude_bits() > INFINITY
    }

    /// Whether this is a number other than plus or minus infinity.
    pub open spec fn finite(self) -> bool {
        self.magnitude_bits() < INFINITY
    }

    /// The absolute value of a finite number, counted in units of 2^-1074, of
    /// which every finite number is a whole multiple.
    pub open spec fn scaled_magnitude(self) -> int {
        let exponent = self.magnitude_bits() / FRACTION as int;
        let fraction = self.magnitude_bits() % FRACTION as int;
        if exponent == 0 {
            fraction
        } else {
            (FRACTION + fraction) * pow2((exponent - 1) as nat)
        }
    }

    /// A finite number, counted in units of 2^-1074.
    pub open spec fn scaled(self) -> int {
        if self.signed() {
            -self.scaled_magnitude()
        } else {
            self.scaled_magnitude()
        }
    }

    /// Whether this is a number below `bound` (counted in units of 2^-1074).
    pub open spec fn below(self, bound: int) -> bool {
        &&& !self.not_a_number()
        &&& if self.finite() {
            self.scaled() < bound
        } else {
            self.signed()
        }
    }

    /// Whether this is a number above `bound` (counted in units of 2^-1074).
    pub open spec fn above(self, bound: int) -> bool {
        &&& !self.not_a_number()
        &&& if self.finite() {
            self.scaled() > bound
        } else {
            !self.signed()
        }
    }

    /// Whether this is the finite number `numerator` / `denominator`.
    pub open spec fn is_ratio(self, numerator: int, denominator: int) -> bool {
        &&& self.finite()
        &&& self.scaled() * denominator == numerator * one_scaled()
    }

    /// Whether this is a finite number.
    pub fn is_finite(self) -> (yes: bool)
        ensures
            yes == self.finite(),
    {
        self.bits % SIGN < INFINITY
    }

    /// Whether this is a number less than zero.
    pub fn lt_zero(self) -> (yes: bool)
        ensures
            yes == self.below(0),
    {
        proof {
            lemma_scaled_sign(self);
        }
        let magnitude: u64 = self.bits % SIGN;
        self.bits >= SIGN && 0 < magnitude && magnitude <= INFINITY
    }

    /// Whether this is a number greater than zero.
    pub fn gt_zero(self) -> (yes: bool)
        ensures
            yes == self.above(0),
    {
        proof {
            lemma_scaled_sign(self);
        }
        let magnitude: u64 = self.bits % SIGN;
        self.bits < SIGN && 0 < magnitude && magnitude <= INFINITY
    }

    /// Whether this is a number less than or equal to zero.
    pub fn le_zero(self) -> (yes: bool)
        ensures
            yes == (!self.not_a_number() && !self.above(0)),
    {
        let magnitude: u64 = self.bits % SIGN;
        magnitude <= INFINITY && !self.gt_zero()
    }

    /// Whether this is a number greater than or equal to zero.
    pub fn ge_zero(self) -> (yes: bool)
        ensures
            yes == (!self.not_a_number() && !self.below(0)),
    {
        let magnitude: u64 = self.bits % SIGN;
        magnitude <= INFINITY && !self.lt_zero()
    }

    /// Whether this is a number greater than one.
    pub fn gt_one(self) -> (yes: bool)
        ensures
            yes == self.above(one_scaled()),
    {
        proof {
            lemma_scaled_sign(self);
            lemma_one();
            lemma_pow2_pos(1074);
            if self.finite() && !self.signed() {
                lemma_magnitudes_are_ordered(self, Binary64 { bits: ONE });
                lemma_magnitudes_are_ordered(Binary64 { bits: ONE }, self);
            }
        }
        let magnitude: u64 = self.bits % SIGN;
        self.bits < SIGN && ONE < magnitude && magnitude <= INFINITY
    }

    /// Whether this is a number greater than the uniform draw `k` / 2^53.
    pub fn exceeds_draw(self, k: u64) -> (yes: bool)
        requires
            k < DRAWS,
        ensures
            yes == self.above(draw_scaled(k as int)),
    {
        proof {
            lemma_scaled_sign(self);
            lemma_pow2_pos(1021);
            assert(draw_scaled(k as int) >= 0) by (nonlinear_arith)
                requires
                    draw_scaled(k as int) == k * pow2(1021),
                    k >= 0,
                    pow2(1021) > 0,
            ;
        }
        let magnitude: u64 = self.bits % SIGN;
        if self.bits >= SIGN || magnitude == 0 || magnitude > INFINITY {
            return false;
        }
        if magnitude >= ONE {
            proof {
                lemma_draws_are_below_one(k as int);
                lemma_one();
                lemma_magnitudes_are_ordered(Binary64 { bits: ONE }, self);
            }
            return true;
        }
        let exponent: u64 = magnitude / FRACTION;
        if exponent == 0 {
            proof {
                lemma_subnormal_against_draw(self, k as int);
            }
            return k == 0;
        }
        let significand: u64 = FRACTION + magnitude % FRACTION;
        // The number is significand * 2^(exponent - 1) units and the draw is
        // k * 2^1021 of them.
        let shift: u64 = 1022 - exponent;
        if shift >= 53 {
            proof {
                lemma_draw_against_significand(significand as int, k as int, exponent as int);
                lemma_tiny_against_draw(significand as int, k as int, shift as nat);
            }
            return k == 0;
        }
        proof {
            lemma_draw_against_significand(significand as int, k as int, exponent as int);
            lemma_shift_is_pow2(k, shift);
        }
        let unit: u64 = 1u64 << shift;
        (k as u128) * (unit as u128) < significand as u128
    }
}

/// Uniform draws lie below one.
pub proof fn lemma_draws_are_below_one(k: int)
    requires
        0 <= k < DRAWS,
    ensures
        0 <= draw_scaled(k) < one_scaled(),
{
    lemma_fraction_is_a_power();
    lemma_pow2_adds(53, 1021);
    lemma_pow2_pos(1021);
    let p = pow2(1021) as int;
    assert(0 <= k * p < DRAWS * p) by (nonlinear_arith)
        requires
            0 <= k < DRAWS,
            p > 0,
    ;
}

/// A number below 2^-1022 lies below every draw but zero.
proof fn lemma_subnormal_against_draw(value: Binary64, k: int)
    requires
        0 < value.magnitude_bits() < FRACTION,
        0 <= k < DRAWS,
    ensures
        value.scaled_magnitude() > draw_scaled(k) <==> k == 0,
{
    lemma_fraction_is_a_power();
    lemma_pow2_strictly_increases(52, 1021);
    let p = pow2(1021) as int;
    if k > 0 {
        assert(k * p >= p) by (nonlinear_arith)
            requires
                k >= 1,
                p > 0,
        ;
    }
}

/// Both sides of the comparison with a draw share the factor 2^(exponent - 1).
proof fn lemma_draw_against_significand(significand: int, k: int, exponent: int)
    requires
        1 <= exponent <= 1022,
    ensures
        significand * pow2((exponent - 1) as nat) > draw_scaled(k) <==> significand > k * pow2(
            (1022 - exponent) as nat,
        ),
{
    let low = pow2((exponent - 1) as nat) as int;
    let high = pow2((1022 - exponent) as nat) as int;
    lemma_pow2_pos((exponent - 1) as nat);
    lemma_pow2_adds((1022 - exponent) as nat, (exponent - 1) as nat);
    assert(k * (high * low) == (k * high) * low) by (nonlinear_arith);
    let scaled = k * high;
    assert(significand * low > scaled * low <==> significand > scaled) by (nonlinear_arith)
        requires
            low > 0,
    ;
}

/// A significand of 53 bits lies below every draw but zero that is shifted by 53 or more.
proof fn lemma_tiny_against_draw(significand: int, k: int, shift: nat)
    requires
        0 < significand < DRAWS,
        0 <= k,
        shift >= 53,
    ensures
        significand > k * pow2(shift) <==> k == 0,
{
    lemma_fraction_is_a_power();
    if shift > 53 {
        lemma_pow2_strictly_increases(53, shift);
    }
    let p = pow2(shift) as int;
    if k > 0 {
        assert(k * p >= p) by (nonlinear_arith)
            requires
                k >= 1,
                p > 0,
        ;
    }
}

/// One shifted left by fewer than 53 places is a power of two, and products with draws fit.
proof fn lemma_shift_is_pow2(k: u64, shift: u64)
    requires
        k < DRAWS,
        shift < 53,
    ensures
        (1u64 << shift) == pow2(shift as nat),
        k * pow2(shift as nat) <= u128::MAX,
{
    lemma_fraction_is_a_power();
    lemma_pow2_strictly_increases(shift as nat, 53);
    let p = pow2(shift as nat) as int;
    assert(k * p <= u128::MAX) by (nonlinear_arith)
        requires
            0 <= k < 0x20_0000_0000_0000,
            0 <= p < 0x20_0000_0000_0000,
    ;
    vstd::bits::lemma_u64_shl_is_mul(1, shift);
}

/// A finite number is zero exactly if its magnitude bits are.
proof fn lemma_scaled_sign(value: Binary64)
    ensures
        value.scaled_magnitude() >= 0,
        value.scaled_magnitude() == 0 <==> value.magnitude_bits() == 0,
{
    let exponent = value.magnitude_bits() / FRACTION as int;
    let fraction = value.magnitude_bits() % FRACTION as int;
    if exponent > 0 {
        lemma_pow2_pos((exponent - 1) as nat);
        let p = pow2((exponent - 1) as nat) as int;
        assert((FRACTION + fraction) * p > 0) by (nonlinear_arith)
            requires
                p > 0,
                fraction >= 0,
        ;
    }
}

/// The bit pattern [`ONE`] stands for the number 1.
proof fn lemma_one()
    ensures
        (Binary64 { bits: ONE }).finite(),
        (Binary64 { bits: ONE }).scaled_magnitude() == one_scaled(),
{
    let one = Binary64 { bits: ONE };
    assert(one.magnitude_bits() / FRACTION as int == 1023);
    assert(one.magnitude_bits() % FRACTION as int == 0);
    lemma_fraction_is_a_power();
    lemma_pow2_adds(52, 1022);
}

/// The implicit leading bit counts 2^52 units of the fraction field.
proof fn lemma_fraction_is_a_power()
    ensures
        FRACTION as int == pow2(52),
        DRAWS as int == pow2(53),
{
    vstd::arithmetic::power2::lemma2_to64();
    vstd::arithmetic::power2::lemma2_to64_rest();
}

/// The order of the magnitude bits is that of the magnitudes.
proof fn lemma_magnitudes_are_ordered(a: Binary64, b: Binary64)
    ensures
        a.magnitude_bits() < b.magnitude_bits() ==> a.scaled_magnitude() < b.scaled_magnitude(),
{
    if a.magnitude_bits() < b.magnitude_bits() {
        lemma_smaller_bits_smaller_magnitude(a, b);
    }
}

proof fn lemma_smaller_bits_smaller_magnitude(a: Binary64, b: Binary64)
    requires
        a.magnitude_bits() < b.magnitude_bits(),
    ensures
        a.scaled_magnitude() < b.scaled_magnitude(),
{
    let ea = a.magnitude_bits() / FRACTION as int;
    let eb = b.magnitude_bits() / FRACTION as int;
    let fa = a.magnitude_bits() % FRACTION as int;
    let fb = b.magnitude_bits() % FRACTION as int;
    assert(ea <= eb);
    if eb > 0 {
        let pb = pow2((eb - 1) as nat) as int;
        lemma_pow2_pos((eb - 1) as nat);
        assert((FRACTION + fb) * pb >= FRACTION * pb) by (nonlinear_arith)
            requires
                pb > 0,
                fb >= 0,
        ;
        assert(FRACTION * pb >= FRACTION) by (nonlinear_arith)
            requires
                pb > 0,
        ;
        if ea == eb {
            assert(fa < fb);
            assert((FRACTION + fa) * pb < (FRACTION + fb) * pb) by (nonlinear_arith)
                requires
                    pb > 0,
                    fa < fb,
            ;
        } else if ea > 0 {
            let pa = pow2((ea - 1) as nat) as int;
            lemma_pow2_pos((ea - 1) as nat);
            lemma_pow2_adds(1, (ea - 1) as nat);
            vstd::arithmetic::power2::lemma2_to64();
            assert(pow2(ea as nat) == 2 * pa);
            if ea < eb - 1 {
                lemma_pow2_strictly_increases(ea as nat, (eb - 1) as nat);
            }
            assert(2 * pa <= pb);
            assert((FRACTION + fa) * pa < FRACTION * pb) by (nonlinear_arith)
                requires
                    pa > 0,
                    2 * pa <= pb,
                    0 <= fa < FRACTION,
            ;
        }
    }
}

/// A positive number of at least one half equals `numerator` / `denominator`
/// if its significand does after scaling.
pub proof fn lemma_ratio(value: Binary64, shift: nat, numerator: int, denominator: int)
    requires
        !value.signed(),
        value.finite(),
        value.magnitude_bits() / FRACTION as int == 1022 + shift,
        (FRACTION + value.magnitude_bits() % FRACTION as int) * pow2(shift) * denominator
            == numerator * DRAWS,
    ensures
        value.is_ratio(numerator, denominator),
{
    let significand = FRACTION + value.magnitude_bits() % FRACTION as int;
    let low = pow2(1021) as int;
    let high = pow2(shift) as int;
    lemma_pow2_adds(1021, shift);
    lemma_pow2_adds(53, 1021);
    lemma_fraction_is_a_power();
    assert(significand * (low * high) * denominator == (significand * high * denominator) * low)
        by (nonlinear_arith);
    assert((numerator * DRAWS) * low == numerator * (DRAWS * low)) by (nonlinear_arith);
}

// --- Laws ---

/// The number one is the number one.
pub proof fn one_is_one()
    ensures
        (Binary64 { bits: 0x3ff0_0000_0000_0000 }).is_ratio(1, 1),
        (Binary64 { bits: 0 }).is_ratio(0, 1),
{
    lemma_one();
    assert((Binary64 { bits: 0 }).scaled() == 0);
}

/// Setting the sign bit negates a number, and keeps it finite or not.
pub proof fn the_sign_bit_negates(value: Binary64, other: Binary64)
    requires
        value.bits < 0x8000_0000_0000_0000,
        other.bits == value.bits + 0x8000_0000_0000_0000,
    ensures
        value.finite() <==> value.bits < 0x7ff0_0000_0000_0000,
        value.not_a_number() <==> value.bits > 0x7ff0_0000_0000_0000,
        other.finite() <==> value.finite(),
        other.not_a_number() <==> value.not_a_number(),
        other.scaled() == -value.scaled(),
        0 <= value.scaled(),
{
    lemma_scaled_sign(value);
}

/// One more in the exponent doubles a normal number.
pub proof fn values_double_with_the_exponent(value: Binary64, other: Binary64)
    requires
        0x0010_0000_0000_0000 <= value.bits < 0x7fe0_0000_0000_0000,
        other.bits == value.bits + 0x0010_0000_0000_0000,
    ensures
        other.finite(),
        other.scaled() == 2 * value.scaled(),
{
    let exponent = value.magnitude_bits() / FRACTION as int;
    let significand = FRACTION + value.magnitude_bits() % FRACTION as int;
    assert(other.magnitude_bits() / FRACTION as int == exponent + 1);
    assert(other.magnitude_bits() % FRACTION as int == value.magnitude_bits() % FRACTION as int);
    lemma_pow2_adds(1, (exponent - 1) as nat);
    vstd::arithmetic::power2::lemma2_to64();
    let low = pow2((exponent - 1) as nat) as int;
    assert(significand * (2 * low) == 2 * (significand * low)) by (nonlinear_arith);
}

/// Between two powers of two, one more in the fraction adds always the same: one
/// part in 2^52 of the lower power.
pub proof fn fractions_count_evenly(value: Binary64, power: Binary64, fraction: u64)
    requires
        0x0010_0000_0000_0000 <= power.bits < 0x7ff0_0000_0000_0000,
        power.bits % 0x0010_0000_0000_0000 == 0,
        fraction < 0x0010_0000_0000_0000,
        value.bits == power.bits + fraction,
    ensures
        value.finite(),
        value.scaled() * 0x0010_0000_0000_0000 == power.scaled() * (0x0010_0000_0000_0000
            + fraction),
{
    let exponent = power.magnitude_bits() / FRACTION as int;
    assert(value.magnitude_bits() / FRACTION as int == exponent);
    assert(value.magnitude_bits() % FRACTION as int == fraction);
    assert(power.magnitude_bits() % FRACTION as int == 0);
    let low = pow2((exponent - 1) as nat) as int;
    assert(((FRACTION + fraction) * low) * FRACTION == ((FRACTION + 0) * low) * (FRACTION
        + fraction)) by (nonlinear_arith);
}

/// Below the least normal number, numbers are counted by their bits.
pub proof fn small_numbers_count_by_their_bits(value: Binary64)
    requires
        value.bits <= 0x0010_0000_0000_0000,
    ensures
        value.finite(),
        value.scaled() == value.bits,
{
    vstd::arithmetic::power2::lemma2_to64();
    if value.bits == FRACTION {
        assert(value.magnitude_bits() / FRACTION as int == 1);
        assert(value.magnitude_bits() % FRACTION as int == 0);
        assert((FRACTION + 0) * pow2(0) == FRACTION);
    } else {
        assert(value.magnitude_bits() / FRACTION as int == 0);
        assert(value.magnitude_bits() % FRACTION as int == value.bits);
    }
}

/// Numbers are compared by their values, with infinity beyond all of them.
pub proof fn comparisons_go_by_value(value: Binary64, bound: int)
    ensures
        value.finite() ==> {
            &&& value.above(bound) <==> value.scaled() > bound
            &&& value.below(bound) <==> value.scaled() < bound
        },
        value.bits == 0x7ff0_0000_0000_0000 ==> value.above(bound) && !value.below(bound),
        value.bits == 0xfff0_0000_0000_0000 ==> value.below(bound) && !value.above(bound),
        value.not_a_number() ==> !value.above(bound) && !value.below(bound),
{
}

} // verus!
