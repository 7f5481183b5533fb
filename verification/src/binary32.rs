//! The IEEE 754 binary32 interchange format, as far as a waveform needs it:
//! the three fields of a bit pattern and the number a finite pattern denotes.
//!
//! Every finite binary32 number is a whole multiple of 2^-149, the smallest
//! positive subnormal. Counting in that unit keeps the model inside the
//! integers while staying exact.

use vstd::prelude::*;
use vstd::arithmetic::mul::*;
use vstd::arithmetic::power2::*;

verus! {

/// The sign field, bit 31: one for a negative number.
pub open spec fn sign_field(bits: u32) -> int {
    bits as int / 0x8000_0000
}

/// The biased exponent field, bits 23 to 30.
pub open spec fn exponent_field(bits: u32) -> int {
    (bits as int / 0x80_0000) % 0x100
}

/// The trailing significand field, bits 0 to 22.
pub open spec fn fraction_field(bits: u32) -> int {
    bits as int % 0x80_0000
}

/// A pattern is finite when it is neither an infinity nor a NaN.
pub open spec fn is_finite(bits: u32) -> bool {
    exponent_field(bits) < 0xff
}

/// The absolute value that a finite pattern denotes, in units of 2^-149.
///
/// A zero exponent field marks a subnormal number, `fraction * 2^-149`.
/// Any other field `e` marks a normal number,
/// `(2^23 + fraction) * 2^(e - 150)`.
pub open spec fn magnitude_units(bits: u32) -> nat {
    if exponent_field(bits) == 0 {
        fraction_field(bits) as nat
    } else {
        (0x80_0000 + fraction_field(bits)) as nat * pow2((exponent_field(bits) - 1) as nat)
    }
}

/// The number that a finite pattern denotes, in units of 2^-149.
pub open spec fn units(bits: u32) -> int {
    if sign_field(bits) == 1 {
        -(magnitude_units(bits) as int)
    } else {
        magnitude_units(bits) as int
    }
}

/// The number one, in units of 2^-149.
pub open spec fn one_units() -> int {
    pow2(149) as int
}

/// A pattern is the sum of its three fields, each in its place.
pub proof fn lemma_fields_compose(bits: u32)
    ensures
        0 <= sign_field(bits) <= 1,
        0 <= exponent_field(bits) < 0x100,
        0 <= fraction_field(bits) < 0x80_0000,
        bits == sign_field(bits) * 0x8000_0000 + exponent_field(bits) * 0x80_0000
            + fraction_field(bits),
{
}

/// The fields of a pattern assembled from a sign, an exponent and a fraction.
pub proof fn lemma_fields_of_sum(sign: int, exponent: int, fraction: int)
    requires
        0 <= sign <= 1,
        0 <= exponent < 0x100,
        0 <= fraction < 0x80_0000,
    ensures
        ({
            let bits = (sign * 0x8000_0000 + exponent * 0x80_0000 + fraction) as u32;
            &&& bits == sign * 0x8000_0000 + exponent * 0x80_0000 + fraction
            &&& sign_field(bits) == sign
            &&& exponent_field(bits) == exponent
            &&& fraction_field(bits) == fraction
        }),
{
}

/// A normal number with exponent field `e` lies in `[2^(e - 127), 2^(e - 126))`.
pub proof fn lemma_normal_magnitude_bounds(bits: u32)
    requires
        exponent_field(bits) >= 1,
    ensures
        pow2((22 + exponent_field(bits)) as nat) <= magnitude_units(bits),
        magnitude_units(bits) < pow2((23 + exponent_field(bits)) as nat),
{
    let scale = pow2((exponent_field(bits) - 1) as nat);
    let significand = 0x80_0000 + fraction_field(bits);
    lemma2_to64();
    lemma_pow2_adds(23, (exponent_field(bits) - 1) as nat);
    lemma_pow2_adds(24, (exponent_field(bits) - 1) as nat);
    lemma_pow2_pos((exponent_field(bits) - 1) as nat);
    lemma_mul_inequality(0x80_0000, significand, scale as int);
    lemma_mul_strict_inequality(significand, 0x100_0000, scale as int);
}

/// A larger exponent field means a larger magnitude, whatever the fractions.
pub proof fn lemma_magnitude_grows_with_exponent(a: u32, b: u32)
    requires
        exponent_field(a) < exponent_field(b),
    ensures
        magnitude_units(a) < magnitude_units(b),
{
    lemma2_to64();
    lemma_normal_magnitude_bounds(b);
    if exponent_field(a) == 0 {
        if exponent_field(b) > 1 {
            lemma_pow2_strictly_increases(23, (22 + exponent_field(b)) as nat);
        }
    } else {
        lemma_normal_magnitude_bounds(a);
        if 23 + exponent_field(a) < 22 + exponent_field(b) {
            lemma_pow2_strictly_increases(
                (23 + exponent_field(a)) as nat,
                (22 + exponent_field(b)) as nat,
            );
        }
    }
}

/// Two patterns of equal magnitude agree in exponent and fraction.
pub proof fn lemma_magnitude_injective(a: u32, b: u32)
    requires
        magnitude_units(a) == magnitude_units(b),
    ensures
        exponent_field(a) == exponent_field(b),
        fraction_field(a) == fraction_field(b),
{
    if exponent_field(a) < exponent_field(b) {
        lemma_magnitude_grows_with_exponent(a, b);
    } else if exponent_field(b) < exponent_field(a) {
        lemma_magnitude_grows_with_exponent(b, a);
    } else if exponent_field(a) != 0 {
        let scale = pow2((exponent_field(a) - 1) as nat);
        lemma_pow2_pos((exponent_field(a) - 1) as nat);
        lemma_mul_is_commutative(scale as int, 0x80_0000 + fraction_field(a));
        lemma_mul_is_commutative(scale as int, 0x80_0000 + fraction_field(b));
        lemma_mul_equality_converse(
            scale as int,
            0x80_0000 + fraction_field(a),
            0x80_0000 + fraction_field(b),
        );
    }
}

/// Only the two zeros denote zero.
pub proof fn lemma_zero_patterns(bits: u32)
    requires
        units(bits) == 0,
    ensures
        bits == 0 || bits == 0x8000_0000,
{
    if exponent_field(bits) != 0 {
        lemma_normal_magnitude_bounds(bits);
        lemma_pow2_pos((22 + exponent_field(bits)) as nat);
    }
    lemma_fields_compose(bits);
}

/// Apart from the two zeros, a number has one pattern only: patterns that
/// denote the same nonzero number are the same bit for bit.
pub proof fn lemma_units_injective(a: u32, b: u32)
    requires
        units(a) == units(b),
        units(a) != 0,
    ensures
        a == b,
{
    lemma_fields_compose(a);
    lemma_fields_compose(b);
    lemma_magnitude_injective(a, b);
}

} // verus!
