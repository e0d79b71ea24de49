//! How numbers are represented: the unit a temperature is shown in, and
//! single-precision floating-point values as their IEEE-754 bit patterns.
//!
//! A bit pattern has a sign in bit 31, an exponent field in the eight bits below
//! it and a fraction in the remaining 23. Sign and the rest, the magnitude, are
//! enough to order two numbers; what number a pattern stands for is stated here as
//! well, and the order is proved against it.

use vstd::prelude::*;

verus! {

/// The unit a temperature is shown in.
#[derive(Clone, Copy, Debug, PartialEq, Eq, Structural)]
pub enum Unit {
    Fahrenheit,
    Celsius,
    Kelvin,
}

impl Unit {
    /// The unit that follows in the display cycle: Fahrenheit, Kelvin, Celsius,
    /// and round again.
    pub open spec fn next_spec(self) -> Unit {
        match self {
            Unit::Fahrenheit => Unit::Kelvin,
            Unit::Kelvin => Unit::Celsius,
            Unit::Celsius => Unit::Fahrenheit,
        }
    }

    /// Gives the unit that follows in the display cycle.
    pub fn next(&self) -> (r: Unit)
        ensures
            r == self.next_spec(),
    {
        match self {
            Unit::Fahrenheit => Unit::Kelvin,
            Unit::Kelvin => Unit::Celsius,
            Unit::Celsius => Unit::Fahrenheit,
        }
    }
}

/// Three steps through the display cycle lead back to the unit they started from.
pub proof fn unit_cycle_closes(unit: Unit)
    ensures
        unit.next_spec().next_spec().next_spec() == unit,
        unit.next_spec() != unit,
{
}

/// Magnitude of positive and negative infinity.
pub const INFINITY_MAGNITUDE: u32 = 0x7f80_0000;

/// The magnitude of a bit pattern: the pattern without its sign bit.
pub open spec fn magnitude(bits: u32) -> int {
    bits as int % 0x8000_0000
}

/// Whether the sign bit of a pattern is set.
pub open spec fn is_negative(bits: u32) -> bool {
    bits >= 0x8000_0000
}

/// Whether a pattern is not a number.
pub open spec fn is_nan(bits: u32) -> bool {
    magnitude(bits) > INFINITY_MAGNITUDE
}

/// The size of the number with the given magnitude, as a multiple of 2^-149, the
/// smallest step between two numbers. With an exponent field of zero the size is
/// the fraction; otherwise it is the fraction with a leading one, doubled once for
/// each step of the exponent field above one. Infinity, which is no real number,
/// gets the size that a number with its exponent field would have, and so stands
/// above every finite size.
pub open spec fn scaled_size(magnitude: int) -> int {
    let exponent = magnitude / 0x80_0000;
    let fraction = magnitude % 0x80_0000;
    if exponent == 0 {
        fraction
    } else {
        (0x80_0000 + fraction) * vstd::arithmetic::power2::pow2((exponent - 1) as nat)
    }
}

/// The number that a pattern stands for, as a multiple of 2^-149. Both zeros
/// stand for 0.
pub open spec fn scaled_value(bits: u32) -> int {
    if is_negative(bits) {
        -scaled_size(magnitude(bits))
    } else {
        scaled_size(magnitude(bits))
    }
}

/// Whether the number with pattern `a` is greater than the number with pattern
/// `b`. Nothing is greater than, or less than, a pattern that is not a number.
pub open spec fn greater_than_spec(a: u32, b: u32) -> bool {
    !is_nan(a) && !is_nan(b) && scaled_value(a) > scaled_value(b)
}

/// The place of a pattern in the order of numbers, as a small integer: the
/// magnitude, negated under a sign bit.
pub open spec fn rank(bits: u32) -> int {
    if is_negative(bits) {
        -magnitude(bits)
    } else {
        magnitude(bits)
    }
}

/// Of two magnitudes, the greater one has the greater size.
pub proof fn scaled_size_is_increasing(low: int, high: int)
    requires
        0 <= low < high < 0x8000_0000,
    ensures
        0 <= scaled_size(low) < scaled_size(high),
{
    let low_exponent = low / 0x80_0000;
    let low_fraction = low % 0x80_0000;
    let high_exponent = high / 0x80_0000;
    let high_fraction = high % 0x80_0000;
    if low_exponent == 0 {
        if high_exponent > 0 {
            let doubling = vstd::arithmetic::power2::pow2((high_exponent - 1) as nat) as int;
            vstd::arithmetic::power2::lemma_pow2_pos((high_exponent - 1) as nat);
            vstd::arithmetic::mul::lemma_mul_inequality(1, doubling, 0x80_0000 + high_fraction);
            assert(1 * (0x80_0000 + high_fraction) <= (0x80_0000 + high_fraction) * doubling)
                by (nonlinear_arith)
                requires
                    1 * (0x80_0000 + high_fraction) <= doubling * (0x80_0000 + high_fraction),
            ;
        }
    } else {
        let low_doubling = vstd::arithmetic::power2::pow2((low_exponent - 1) as nat) as int;
        let high_doubling = vstd::arithmetic::power2::pow2((high_exponent - 1) as nat) as int;
        vstd::arithmetic::power2::lemma_pow2_pos((low_exponent - 1) as nat);
        vstd::arithmetic::power2::lemma_pow2_pos((high_exponent - 1) as nat);
        assert(0 < (0x80_0000 + low_fraction) * low_doubling) by (nonlinear_arith)
            requires
                0 < 0x80_0000 + low_fraction,
                0 < low_doubling,
        ;
        if low_exponent == high_exponent {
            vstd::arithmetic::mul::lemma_mul_strict_inequality(
                0x80_0000 + low_fraction,
                0x80_0000 + high_fraction,
                low_doubling,
            );
        } else {
            // One more doubling outweighs any fraction.
            vstd::arithmetic::power2::lemma_pow2_unfold(low_exponent as nat);
            if low_exponent < high_exponent - 1 {
                vstd::arithmetic::power2::lemma_pow2_strictly_increases(low_exponent as nat, (high_exponent - 1) as nat);
            }
            assert(2 * low_doubling <= high_doubling);
            assert((0x80_0000 + low_fraction) * low_doubling < (0x80_0000 + high_fraction)
                * high_doubling) by (nonlinear_arith)
                requires
                    0 <= low_fraction < 0x80_0000,
                    0 <= high_fraction,
                    0 < low_doubling,
                    2 * low_doubling <= high_doubling,
            ;
        }
    }
}

/// The rank orders patterns as the numbers they stand for are ordered.
pub proof fn rank_orders_as_value(a: u32, b: u32)
    ensures
        (rank(a) > rank(b)) == (scaled_value(a) > scaled_value(b)),
        (rank(a) == rank(b)) == (scaled_value(a) == scaled_value(b)),
{
    let size_a = magnitude(a);
    let size_b = magnitude(b);
    if size_a < size_b {
        scaled_size_is_increasing(size_a, size_b);
    } else if size_b < size_a {
        scaled_size_is_increasing(size_b, size_a);
    }
    if size_a > 0 {
        scaled_size_is_increasing(0, size_a);
    }
    if size_b > 0 {
        scaled_size_is_increasing(0, size_b);
    }
}

/// Tells whether a pattern is not a number.
pub fn bits_are_nan(bits: u32) -> (r: bool)
    ensures
        r == is_nan(bits),
{
    assert(bits & 0x7fff_ffff == bits % 0x8000_0000) by (bit_vector);
    (bits & 0x7fff_ffff) > INFINITY_MAGNITUDE
}

/// Compares two numbers given by their bit patterns, as `>` compares the numbers.
pub fn greater_than(a: u32, b: u32) -> (r: bool)
    ensures
        r == greater_than_spec(a, b),
{
    if bits_are_nan(a) || bits_are_nan(b) {
        return false;
    }
    proof {
        rank_orders_as_value(a, b);
    }
    assert(a & 0x7fff_ffff == a % 0x8000_0000) by (bit_vector);
    assert(b & 0x7fff_ffff == b % 0x8000_0000) by (bit_vector);
    let magnitude_a = a & 0x7fff_ffff;
    let magnitude_b = b & 0x7fff_ffff;
    let negative_a = a >= 0x8000_0000;
    let negative_b = b >= 0x8000_0000;
    if negative_a {
        if negative_b {
            magnitude_a < magnitude_b
        } else {
            false
        }
    } else {
        if negative_b {
            magnitude_a > 0 || magnitude_b > 0
        } else {
            magnitude_a > magnitude_b
        }
    }
}

/// The order on numbers is strict: no number is greater than itself, and of two
/// numbers at most one is greater than the other.
pub proof fn greater_than_is_strict(a: u32, b: u32)
    ensures
        !greater_than_spec(a, a),
        greater_than_spec(a, b) ==> !greater_than_spec(b, a),
{
}

/// The order on numbers is transitive.
pub proof fn greater_than_is_transitive(a: u32, b: u32, c: u32)
    requires
        greater_than_spec(a, b),
        greater_than_spec(b, c),
    ensures
        greater_than_spec(a, c),
{
}

} // verus!
