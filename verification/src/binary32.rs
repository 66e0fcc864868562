//! Single-precision numbers by their IEEE-754 bit patterns.
//!
//! A pattern has one sign bit, eight exponent bits and twenty-three fraction
//! bits. An exponent of all ones marks an infinity (fraction zero) or a NaN
//! (any other fraction). The classifications below read the pattern; they
//! never compute with the number it stands for.

use vstd::prelude::*;

verus! {

/// The sign bit of a pattern.
pub const SIGN_BIT: u32 = 0x8000_0000;

/// The exponent bits of a pattern.
pub const EXPONENT_BITS: u32 = 0x7f80_0000;

/// The fraction bits of a pattern.
pub const FRACTION_BITS: u32 = 0x007f_ffff;

/// The pattern is no number at all.
pub open spec fn is_nan(bits: u32) -> bool {
    bits & EXPONENT_BITS == EXPONENT_BITS && bits & FRACTION_BITS != 0
}

/// The pattern is a number other than the two infinities.
pub open spec fn is_finite(bits: u32) -> bool {
    bits & EXPONENT_BITS != EXPONENT_BITS
}

/// The pattern is a number greater than zero, positive infinity included.
pub open spec fn is_positive(bits: u32) -> bool {
    bits & SIGN_BIT == 0 && bits != 0 && !is_nan(bits)
}

/// Every pattern of `values` is finite.
pub open spec fn all_finite(values: Seq<u32>) -> bool {
    forall|i: int| 0 <= i < values.len() ==> is_finite(#[trigger] values[i])
}

/// Read as unsigned integers, the positive patterns are those from 1 up to
/// positive infinity, and the finite ones among them lie below it.
pub proof fn lemma_positive_range(bits: u32)
    ensures
        is_positive(bits) <==> 0 < bits <= EXPONENT_BITS,
        is_positive(bits) && is_finite(bits) <==> 0 < bits < EXPONENT_BITS,
{
    assert((bits & 0x8000_0000 == 0 && bits != 0 && !(bits & 0x7f80_0000 == 0x7f80_0000 && bits
        & 0x007f_ffff != 0)) <==> (0 < bits && bits <= 0x7f80_0000)) by (bit_vector);
    assert(bits & 0x7f80_0000 != 0x7f80_0000 ==> bits != 0x7f80_0000) by (bit_vector);
    assert(bits < 0x7f80_0000 ==> bits & 0x7f80_0000 != 0x7f80_0000) by (bit_vector);
}

/// Whether `bits` is a finite number.
pub fn finite(bits: u32) -> (answer: bool)
    ensures
        answer == is_finite(bits),
{
    bits & EXPONENT_BITS != EXPONENT_BITS
}

/// Whether `bits` is a number greater than zero.
pub fn positive(bits: u32) -> (answer: bool)
    ensures
        answer == is_positive(bits),
{
    bits & SIGN_BIT == 0 && bits != 0 && !(bits & EXPONENT_BITS == EXPONENT_BITS && bits
        & FRACTION_BITS != 0)
}

/// Whether every pattern of `values` is a finite number.
pub fn every_finite(values: &[u32]) -> (answer: bool)
    ensures
        answer == all_finite(values@),
{
    let mut i: usize = 0;
    while i < values.len()
        invariant
            i <= values.len(),
            all_finite(values@.subrange(0, i as int)),
        decreases values.len() - i,
    {
        if !finite(values[i]) {
            return false;
        }
        assert(values@.subrange(0, i + 1) == values@.subrange(0, i as int).push(values@[i as int]));
        i += 1;
    }
    assert(values@.subrange(0, i as int) == values@);
    true
}

} // verus!
