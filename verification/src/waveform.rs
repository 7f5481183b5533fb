//! The stop-time format conversion: each signed 16-bit sample `s` becomes the
//! binary32 number `s / 32768`.

use vstd::prelude::*;
use vstd::arithmetic::power2::*;
use crate::binary32::{is_finite, lemma_fields_of_sum, lemma_units_injective, one_units, units};

verus! {

/// `bits` is the binary32 pattern of `sample / 32768`: it is finite, the
/// number it denotes times 32768 is exactly `sample`, and zero is the
/// positive zero.
pub open spec fn normalized(bits: u32, sample: i16) -> bool {
    &&& is_finite(bits)
    &&& units(bits) * 32768 == sample as int * one_units()
    &&& sample == 0 ==> bits == 0
}

/// One is 32768 sample steps of 2^-15 each.
proof fn lemma_one_is_32768_steps()
    ensures
        one_units() == 32768 * pow2(134),
        pow2(134) > 0,
{
    lemma2_to64();
    lemma_pow2_adds(15, 134);
    lemma_pow2_pos(134);
}

/// Converts one raw sample to the binary32 pattern of `sample / 32768`.
///
/// The division is by a power of two and a sample has at most sixteen
/// significant bits, so the quotient is representable and nothing is rounded.
pub fn normalize(sample: i16) -> (bits: u32)
    ensures
        normalized(bits, sample),
{
    if sample == 0 {
        return 0;
    }
    let negative = sample < 0;
    let magnitude: u32 = if negative {
        (-(sample as i32)) as u32
    } else {
        sample as u32
    };
    // `significand * 2^(exponent - 150)` stays equal to `magnitude * 2^-15`
    // while the significand is shifted up to its normal position.
    let mut significand: u32 = magnitude;
    let mut exponent: u32 = 135;
    proof {
        lemma2_to64();
        assert(magnitude * pow2(0) == magnitude);
    }
    while significand < 0x80_0000
        invariant
            1 <= magnitude <= 0x8000,
            112 <= exponent <= 135,
            significand == magnitude * pow2((135 - exponent) as nat),
            1 <= significand < 0x100_0000,
        decreases 0x100_0000 - significand,
    {
        proof {
            let shifts = (135 - exponent) as nat;
            lemma_pow2_unfold(shifts + 1);
            if exponent == 112 {
                lemma2_to64();
                assert(magnitude * pow2(23) >= pow2(23)) by (nonlinear_arith)
                    requires
                        magnitude >= 1,
                ;
            }
            assert(magnitude * (2 * pow2(shifts)) == 2 * (magnitude * pow2(shifts)))
                by (nonlinear_arith);
        }
        significand = significand * 2;
        exponent = exponent - 1;
    }
    let sign: u32 = if negative {
        0x8000_0000
    } else {
        0
    };
    let bits: u32 = sign + exponent * 0x80_0000 + (significand - 0x80_0000);
    proof {
        let shifts = (135 - exponent) as nat;
        lemma_fields_of_sum(
            if negative { 1 } else { 0 },
            exponent as int,
            significand - 0x80_0000,
        );
        lemma_pow2_adds(shifts, (exponent - 1) as nat);
        assert(significand * pow2((exponent - 1) as nat) == magnitude * pow2(134))
            by (nonlinear_arith)
            requires
                significand == magnitude * pow2(shifts),
                pow2(134) == pow2(shifts) * pow2((exponent - 1) as nat),
        ;
        assert(-(magnitude * pow2(134)) == (-magnitude) * pow2(134)) by (nonlinear_arith);
        lemma_one_is_32768_steps();
        assert(sample * pow2(134) * 32768 == sample * (32768 * pow2(134))) by (nonlinear_arith);
    }
    bits
}

/// `wave` is `raw` converted sample by sample, in the same order.
pub open spec fn encodes(wave: Seq<u32>, raw: Seq<i16>) -> bool {
    &&& wave.len() == raw.len()
    &&& forall|i: int| 0 <= i < raw.len() ==> normalized(#[trigger] wave[i], raw[i])
}

/// Whether some raw recording converts to `wave`.
pub open spec fn has_source(wave: Seq<u32>) -> bool {
    exists|raw: Seq<i16>| #[trigger] encodes(wave, raw)
}

/// The finalized output of one recording: normalized samples in capture
/// order, each held as its binary32 bit pattern. It cannot be changed once
/// made.
pub struct Waveform {
    bits: Vec<u32>,
}

impl View for Waveform {
    type V = Seq<u32>;

    /// The bit patterns, first sample first.
    closed spec fn view(&self) -> Seq<u32> {
        self.bits@
    }
}

impl Waveform {
    /// Every waveform is the conversion of some raw recording.
    #[verifier::type_invariant]
    spec fn converted(self) -> bool {
        has_source(self.bits@)
    }

    /// The waveform of a recording that captured nothing.
    pub fn empty() -> (wave: Waveform)
        ensures
            wave@.len() == 0,
    {
        let bits: Vec<u32> = Vec::new();
        assert(encodes(bits@, Seq::<i16>::empty()));
        assert(has_source(bits@));
        Waveform { bits }
    }

    /// Converts a whole raw buffer: one output sample for each input sample,
    /// in the same order, each the exact quotient by 32768.
    pub fn from_samples(raw: &Vec<i16>) -> (wave: Waveform)
        ensures
            encodes(wave@, raw@),
    {
        let mut bits: Vec<u32> = Vec::new();
        let mut i: usize = 0;
        while i < raw.len()
            invariant
                i <= raw.len(),
                bits@.len() == i,
                forall|j: int| 0 <= j < i ==> normalized(#[trigger] bits@[j], raw@[j]),
            decreases raw.len() - i,
        {
            bits.push(normalize(raw[i]));
            i = i + 1;
        }
        assert(encodes(bits@, raw@));
        assert(has_source(bits@));
        Waveform { bits }
    }

    /// The number of samples.
    pub fn len(&self) -> (n: usize)
        ensures
            n == self@.len(),
    {
        self.bits.len()
    }

    /// Whether the waveform holds no sample at all.
    pub fn is_empty(&self) -> (empty: bool)
        ensures
            empty <==> self@.len() == 0,
    {
        self.bits.len() == 0
    }

    /// The bit pattern of sample `i`: a finite number, at least -1 and below 1.
    pub fn bits_at(&self, i: usize) -> (bits: u32)
        requires
            i < self@.len(),
        ensures
            bits == self@[i as int],
            is_finite(bits),
            -one_units() <= units(bits) < one_units(),
    {
        proof {
            use_type_invariant(self);
            let raw = choose|raw: Seq<i16>| #[trigger] encodes(self.bits@, raw);
            lemma_normalized_range(self.bits@[i as int], raw[i as int]);
        }
        self.bits[i]
    }

    /// Hands the bit patterns over to the caller, first sample first.
    pub fn into_bits(self) -> (bits: Vec<u32>)
        ensures
            bits@ == self@,
    {
        self.bits
    }
}

/// A normalized sample lies in the half-open range from -1 to 1.
pub proof fn lemma_normalized_range(bits: u32, sample: i16)
    requires
        normalized(bits, sample),
    ensures
        -one_units() <= units(bits) < one_units(),
{
    lemma_pow2_pos(149);
    assert(-32768 * one_units() <= sample * one_units() < 32768 * one_units())
        by (nonlinear_arith)
        requires
            -32768 <= sample < 32768,
            one_units() > 0,
    ;
}

/// The conversion keeps sign and order: a larger sample becomes a larger
/// number, and a sample and its number lie on the same side of zero.
pub proof fn lemma_normalized_keeps_order(a: u32, b: u32, lower: i16, upper: i16)
    requires
        normalized(a, lower),
        normalized(b, upper),
        lower < upper,
    ensures
        units(a) < units(b),
        lower < 0 <==> units(a) < 0,
        lower > 0 <==> units(a) > 0,
{
    lemma_pow2_pos(149);
    assert(lower * one_units() < upper * one_units()) by (nonlinear_arith)
        requires
            lower < upper,
            one_units() > 0,
    ;
    assert((lower < 0 <==> lower * one_units() < 0) && (lower > 0 <==> lower * one_units() > 0))
        by (nonlinear_arith)
        requires
            one_units() > 0,
    ;
}

/// The conversion leaves no choice: a sample has exactly one normalized
/// pattern, so two conversions of one sample agree bit for bit.
pub proof fn lemma_normalized_unique(a: u32, b: u32, sample: i16)
    requires
        normalized(a, sample),
        normalized(b, sample),
    ensures
        a == b,
{
    if sample != 0 {
        lemma_pow2_pos(149);
        assert(sample * one_units() != 0) by (nonlinear_arith)
            requires
                sample != 0,
                one_units() > 0,
        ;
        lemma_units_injective(a, b);
    }
}

/// Two waveforms that encode the same raw samples are the same waveform.
pub proof fn lemma_encoding_unique(a: Seq<u32>, b: Seq<u32>, raw: Seq<i16>)
    requires
        encodes(a, raw),
        encodes(b, raw),
    ensures
        a == b,
{
    assert forall|i: int| 0 <= i < raw.len() implies a[i] == b[i] by {
        lemma_normalized_unique(a[i], b[i], raw[i]);
    }
    assert(a =~= b);
}

/// The number that `bits` denotes, scaled back by 32768 and rounded down
/// to a whole number.
pub open spec fn rescaled(bits: u32) -> int {
    units(bits) * 32768 / one_units()
}

/// Converting and then scaling back returns the sample it started from:
/// nothing is left over to round.
pub proof fn lemma_rescaled_is_sample(bits: u32, sample: i16)
    requires
        normalized(bits, sample),
    ensures
        rescaled(bits) == sample,
        units(bits) * 32768 % one_units() == 0,
{
    lemma_pow2_pos(149);
    vstd::arithmetic::div_mod::lemma_fundamental_div_mod_converse(
        units(bits) * 32768,
        one_units(),
        sample as int,
        0,
    );
}

/// Scaling a whole waveform back returns the raw recording it encodes.
pub proof fn lemma_round_trip(wave: Seq<u32>, raw: Seq<i16>)
    requires
        encodes(wave, raw),
    ensures
        wave.map_values(|bits: u32| rescaled(bits)) == raw.map_values(|sample: i16| sample as int),
{
    assert forall|i: int| 0 <= i < raw.len() implies rescaled(wave[i]) == raw[i] by {
        lemma_rescaled_is_sample(wave[i], raw[i]);
    }
    assert(wave.map_values(|bits: u32| rescaled(bits)) =~= raw.map_values(
        |sample: i16| sample as int,
    ));
}

} // verus!
