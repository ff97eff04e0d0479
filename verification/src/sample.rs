//! Price samples, and the way from a feed's reading to a price in ticks.
//!
//! Feeds quote prices as IEEE 754 double-precision numbers. A reading comes
//! in as the 64 bits of such a number and is turned into a whole number of
//! ticks here, by integer arithmetic alone: the sign, exponent and fraction
//! fields are taken apart, and the value they stand for is multiplied by
//! the number of ticks in a unit and rounded to the nearest tick.

use vstd::prelude::*;
use vstd::arithmetic::power2::{
    lemma2_to64,
    lemma2_to64_rest,
    lemma_pow2_adds,
    lemma_pow2_pos,
    lemma_pow2_strictly_increases,
    lemma_pow2_unfold,
    pow2,
};

verus! {

/// One observation of the price: when it was made, as the feed words it,
/// and the price, as the bits of a double-precision number.
#[derive(Clone, Debug, PartialEq, Eq)]
pub struct PriceSample {
    pub timestamp: String,
    pub reading: u64,
}

/// Why a sample was turned away.
#[derive(Clone, Copy, Debug, PartialEq, Eq, Structural)]
pub enum InvalidSample {
    /// The reading is an infinity or not a number.
    NotFinite,
    /// The price is below zero.
    Negative,
    /// The price is finite but has more ticks than a price can hold.
    OutOfRange,
}

/// The sign bit, `2^63`.
pub const SIGN_BIT: u64 = 0x8000_0000_0000_0000;

/// Number of values of the 52-bit fraction field, `2^52`.
pub const FRACTION_SPAN: u64 = 0x10_0000_0000_0000;

/// Number of values of the 11-bit exponent field.
pub const EXPONENT_SPAN: u64 = 2048;

/// The exponent field of infinities and of values that are not a number.
pub const EXPONENT_SPECIAL: u64 = 2047;

/// The exponent field at which the significand counts units: the bias of
/// 1023 and the 52 fraction bits.
pub const EXPONENT_OF_ONE: u64 = 1075;

/// The sign bit of the reading is set.
pub open spec fn sign_set(bits: u64) -> bool {
    bits >= SIGN_BIT
}

/// The 11-bit exponent field.
pub open spec fn exponent_field(bits: u64) -> int {
    ((bits / FRACTION_SPAN) % EXPONENT_SPAN) as int
}

/// The 52-bit fraction field.
pub open spec fn fraction_field(bits: u64) -> int {
    (bits % FRACTION_SPAN) as int
}

/// The reading is a number, not an infinity and not "not a number".
pub open spec fn is_finite(bits: u64) -> bool {
    exponent_field(bits) != EXPONENT_SPECIAL
}

/// The significand of a finite reading as a whole number: the fraction
/// field, with the implicit leading bit unless the exponent field is zero.
pub open spec fn significand(bits: u64) -> int {
    if exponent_field(bits) == 0 {
        fraction_field(bits)
    } else {
        fraction_field(bits) + FRACTION_SPAN
    }
}

/// The power of two by which the significand is multiplied: the size of a
/// finite reading is `significand * 2^binary_exponent`.
pub open spec fn binary_exponent(bits: u64) -> int {
    if exponent_field(bits) == 0 {
        1 - EXPONENT_OF_ONE
    } else {
        exponent_field(bits) - EXPONENT_OF_ONE
    }
}

/// The size of a finite reading in ticks, rounded to the nearest tick, a
/// half rounded up.
pub open spec fn ticks_of(bits: u64, ticks_per_unit: u32) -> int {
    let product = significand(bits) * ticks_per_unit;
    let exponent = binary_exponent(bits);
    if exponent >= 0 {
        product * pow2(exponent as nat)
    } else {
        (product + pow2((-exponent - 1) as nat)) / (pow2((-exponent) as nat) as int)
    }
}

/// The price that a reading stands for, or why it stands for none. A
/// reading that is not finite is turned away first, then one below zero
/// (minus zero is zero), then one with too many ticks.
pub open spec fn quantized(bits: u64, ticks_per_unit: u32) -> Result<i64, InvalidSample> {
    if !is_finite(bits) {
        Err(InvalidSample::NotFinite)
    } else if sign_set(bits) && significand(bits) != 0 {
        Err(InvalidSample::Negative)
    } else if ticks_of(bits, ticks_per_unit) > i64::MAX {
        Err(InvalidSample::OutOfRange)
    } else {
        Ok(ticks_of(bits, ticks_per_unit) as i64)
    }
}

/// One shifted left by `k` places is two to the `k`.
proof fn lemma_one_shifted(k: u128)
    requires
        k < 127,
    ensures
        (1u128 << k) == pow2(k as nat),
    decreases k,
{
    if k == 0 {
        assert(1u128 << 0u128 == 1u128) by (bit_vector);
        lemma2_to64();
    } else {
        let j: u128 = (k - 1) as u128;
        lemma_one_shifted(j);
        assert((1u128 << k) == 2 * (1u128 << j)) by (bit_vector)
            requires
                0 < k < 127,
                j == k - 1,
        ;
        lemma_pow2_unfold(k as nat);
    }
}

/// Two to the `k` is at least two to the `floor` from `floor` on.
proof fn lemma_pow2_at_least(floor: nat, k: nat)
    requires
        floor <= k,
    ensures
        pow2(floor) <= pow2(k),
{
    if floor < k {
        lemma_pow2_strictly_increases(floor, k);
    }
}

/// Turns a reading, given as the bits of a double-precision number, into a
/// price in ticks.
pub fn quantize(bits: u64, ticks_per_unit: u32) -> (ticks: Result<i64, InvalidSample>)
    ensures
        ticks == quantized(bits, ticks_per_unit),
        ticks matches Ok(price) ==> price >= 0,
{
    let exponent: u64 = (bits / FRACTION_SPAN) % EXPONENT_SPAN;
    let fraction: u64 = bits % FRACTION_SPAN;
    if exponent == EXPONENT_SPECIAL {
        return Err(InvalidSample::NotFinite);
    }
    let significand: u64 = if exponent == 0 {
        fraction
    } else {
        fraction + FRACTION_SPAN
    };
    if bits >= SIGN_BIT && significand != 0 {
        return Err(InvalidSample::Negative);
    }
    assert(significand * ticks_per_unit < 0x20_0000_0000_0000 * 0x1_0000_0000) by (nonlinear_arith)
        requires
            0 <= significand < 0x20_0000_0000_0000,
            0 <= ticks_per_unit < 0x1_0000_0000,
    ;
    let product: u128 = (significand as u128) * (ticks_per_unit as u128);
    let biased: u64 = if exponent == 0 {
        1
    } else {
        exponent
    };
    if biased >= EXPONENT_OF_ONE {
        // The value is the significand times two to the `shift`.
        let shift: u64 = biased - EXPONENT_OF_ONE;
        if product == 0 {
            assert(product * pow2(shift as nat) == 0) by (nonlinear_arith)
                requires
                    product == 0,
            ;
            return Ok(0);
        }
        if shift >= 63 {
            proof {
                lemma2_to64_rest();
                lemma_pow2_at_least(63, shift as nat);
                assert(product * pow2(shift as nat) >= 0x8000_0000_0000_0000) by (nonlinear_arith)
                    requires
                        product >= 1,
                        pow2(shift as nat) >= 0x8000_0000_0000_0000,
                ;
            }
            return Err(InvalidSample::OutOfRange);
        }
        proof {
            lemma_one_shifted(shift as u128);
            lemma_pow2_pos(shift as nat);
        }
        let factor: u128 = 1u128 << (shift as u128);
        let limit: u128 = 0x7fff_ffff_ffff_ffff / factor;
        assert(product <= limit <==> product * factor <= 0x7fff_ffff_ffff_ffff) by (nonlinear_arith)
            requires
                factor >= 1,
                limit == 0x7fff_ffff_ffff_ffffu128 / factor,
                product >= 0,
        ;
        if product > limit {
            Err(InvalidSample::OutOfRange)
        } else {
            let scaled: u128 = product * factor;
            Ok(scaled as i64)
        }
    } else {
        // The value is the significand divided by two to the `shift`. The
        // product is below two to the 85, so from a shift of 87 on it is
        // less than half a tick.
        let shift: u64 = EXPONENT_OF_ONE - biased;
        if shift >= 87 {
            proof {
                lemma2_to64();
                lemma_pow2_adds(64, 22);
                lemma_pow2_at_least(86, (shift - 1) as nat);
                lemma_pow2_unfold(shift as nat);
                let half = pow2((shift - 1) as nat);
                let whole = pow2(shift as nat);
                assert((product + half) / (whole as int) == 0) by (nonlinear_arith)
                    requires
                        0 <= product < half,
                        whole == 2 * half,
                ;
            }
            return Ok(0);
        }
        proof {
            lemma_one_shifted((shift - 1) as u128);
            lemma_one_shifted(shift as u128);
            lemma_pow2_pos(shift as nat);
            lemma_pow2_unfold(shift as nat);
        }
        let half: u128 = 1u128 << ((shift - 1) as u128);
        let whole: u128 = 1u128 << (shift as u128);
        let rounded: u128 = (product + half) / whole;
        if rounded > 0x7fff_ffff_ffff_ffff {
            Err(InvalidSample::OutOfRange)
        } else {
            Ok(rounded as i64)
        }
    }
}

} // verus!
