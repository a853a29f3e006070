//! Equality of IEEE 754 binary64 numbers held as their bit patterns.
//!
//! The model holds floating-point numbers as `u64` bit patterns
//! (`f64::to_bits`). Two such numbers are equal as numbers exactly when
//! neither is a NaN and either the patterns agree or both are zeros
//! (`+0.0 == -0.0`): the equality that `f64`'s `==` computes.

use vstd::prelude::*;

verus! {

/// The pattern with the sign bit cleared: the magnitude of the number.
pub open spec fn magnitude_bits(bits: u64) -> u64 {
    bits & 0x7fff_ffff_ffff_ffffu64
}

/// The pattern is a NaN: all exponent bits set and a nonzero fraction.
pub open spec fn is_nan_bits(bits: u64) -> bool {
    magnitude_bits(bits) > 0x7ff0_0000_0000_0000u64
}

/// The pattern is `+0.0` or `-0.0`.
pub open spec fn is_zero_bits(bits: u64) -> bool {
    magnitude_bits(bits) == 0
}

/// The two patterns denote numbers that compare equal under IEEE 754.
pub open spec fn binary64_equal(a: u64, b: u64) -> bool {
    &&& !is_nan_bits(a)
    &&& !is_nan_bits(b)
    &&& (a == b || (is_zero_bits(a) && is_zero_bits(b)))
}

/// IEEE 754 equality of two binary64 numbers given by their bit patterns.
pub(crate) fn binary64_eq(a: u64, b: u64) -> (r: bool)
    ensures
        r == binary64_equal(a, b),
{
    let ma = a & 0x7fff_ffff_ffff_ffffu64;
    let mb = b & 0x7fff_ffff_ffff_ffffu64;
    if ma > 0x7ff0_0000_0000_0000u64 || mb > 0x7ff0_0000_0000_0000u64 {
        false
    } else {
        a == b || (ma == 0 && mb == 0)
    }
}

/// IEEE 754 equality on bit patterns (sign bit `1 << 63`, the rest the
/// magnitude; magnitudes above `0x7ff0_0000_0000_0000` are NaNs):
/// - it is symmetric;
/// - a NaN equals nothing, not even itself;
/// - every other number equals itself;
/// - two different patterns are equal only when both are zeros (`+0.0` and
///   `-0.0`), so numbers that differ in sign or magnitude are unequal;
/// - the two zeros are equal.
pub proof fn lemma_binary64_equal_laws(a: u64, b: u64)
    ensures
        binary64_equal(a, b) == binary64_equal(b, a),
        (a & 0x7fff_ffff_ffff_ffffu64) > 0x7ff0_0000_0000_0000u64 ==> !binary64_equal(a, b),
        (b & 0x7fff_ffff_ffff_ffffu64) > 0x7ff0_0000_0000_0000u64 ==> !binary64_equal(a, b),
        (a & 0x7fff_ffff_ffff_ffffu64) <= 0x7ff0_0000_0000_0000u64 ==> binary64_equal(a, a),
        a != b && ((a & 0x7fff_ffff_ffff_ffffu64) != 0 || (b & 0x7fff_ffff_ffff_ffffu64) != 0)
            ==> !binary64_equal(a, b),
        (a & 0x7fff_ffff_ffff_ffffu64) == 0 && (b & 0x7fff_ffff_ffff_ffffu64) == 0
            ==> binary64_equal(a, b),
{
}

/// Two numbers that differ only in their sign bit are unequal unless they are
/// the zeros: negating a nonzero number changes its value.
pub proof fn lemma_binary64_sign_matters(a: u64)
    requires
        (a & 0x7fff_ffff_ffff_ffffu64) != 0,
    ensures
        !binary64_equal(a, a ^ 0x8000_0000_0000_0000u64),
{
    assert(a != a ^ 0x8000_0000_0000_0000u64) by (bit_vector);
}

} // verus!
