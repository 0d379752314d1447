//! Rounding a binary floating-point number, given by its 64 bits, to the
//! nearest integer, halves away from zero.
//!
//! The bits are those of the IEEE 754 binary64 format: one sign bit, eleven
//! bits of exponent, fifty-two bits of fraction.

use vstd::arithmetic::div_mod::lemma_basic_div;
use vstd::arithmetic::power2::{
    lemma2_to64, lemma2_to64_rest, lemma_pow2_pos, lemma_pow2_strictly_increases, pow2,
};
use vstd::bits::lemma_u64_shl_is_mul;
use vstd::prelude::*;

verus! {

/// Two to the power 52: the weight of the hidden bit of the significand.
pub const HIDDEN_BIT: u64 = 0x10_0000_0000_0000;

/// The exponent of a number whose significand counts units.
pub const UNIT_EXPONENT: u64 = 1075;

/// True when the sign bit is set.
pub open spec fn sign_of(bits: u64) -> bool {
    bits >= 0x8000_0000_0000_0000
}

/// The eleven exponent bits.
pub open spec fn exponent_of(bits: u64) -> nat {
    ((bits / HIDDEN_BIT) % 0x800) as nat
}

/// The fifty-two fraction bits.
pub open spec fn fraction_of(bits: u64) -> nat {
    (bits % HIDDEN_BIT) as nat
}

/// True when the bits hold no number.
pub open spec fn is_nan(bits: u64) -> bool {
    exponent_of(bits) == 0x7ff && fraction_of(bits) != 0
}

/// The absolute value rounded to the nearest integer, halves upward.
///
/// A number with exponent bits `e > 0` and fraction `f` has the absolute
/// value `(2^52 + f) * 2^(e - 1075)`. With `e = 0` it lies below one half.
/// An infinity counts as the number its bits would spell.
pub open spec fn rounded_magnitude(bits: u64) -> nat {
    let e = exponent_of(bits);
    let m = HIDDEN_BIT as nat + fraction_of(bits);
    if e == 0 {
        0
    } else if e >= UNIT_EXPONENT {
        m * pow2((e - UNIT_EXPONENT) as nat)
    } else {
        (m + pow2((UNIT_EXPONENT - 1 - e) as nat)) / pow2((UNIT_EXPONENT - e) as nat)
    }
}

/// The nearest integer, halves away from zero, kept within 64 signed bits;
/// 0 where the bits hold no number.
pub open spec fn nearest_integer(bits: u64) -> int {
    if is_nan(bits) {
        0
    } else {
        let magnitude = rounded_magnitude(bits) as int;
        let value = if sign_of(bits) {
            -magnitude
        } else {
            magnitude
        };
        if value < i64::MIN {
            i64::MIN as int
        } else if value > i64::MAX {
            i64::MAX as int
        } else {
            value
        }
    }
}

/// Two to the power `e`, for an `e` that leaves the result within 64 bits.
fn power_of_two(e: u64) -> (p: u64)
    requires
        e < 64,
    ensures
        p == pow2(e as nat),
{
    proof {
        lemma2_to64();
        lemma2_to64_rest();
        if e < 63 {
            lemma_pow2_strictly_increases(e as nat, 63);
        }
        lemma_u64_shl_is_mul(1, e);
    }
    1u64 << e
}

/// Rounds the number that `bits` holds to the nearest integer, halves away
/// from zero. What lies beyond 64 signed bits becomes the nearest bound.
pub fn round_half_away(bits: u64) -> (r: i64)
    ensures
        r == nearest_integer(bits),
{
    let negative = bits >= 0x8000_0000_0000_0000;
    let e: u64 = (bits / HIDDEN_BIT) % 0x800;
    let f: u64 = bits % HIDDEN_BIT;
    if e == 0x7ff && f != 0 {
        return 0;
    }
    if e == 0 {
        return 0;
    }
    let m: u64 = HIDDEN_BIT + f;
    proof {
        lemma2_to64();
        lemma2_to64_rest();
    }
    let magnitude: u64 = if e >= UNIT_EXPONENT {
        let shift: u64 = e - UNIT_EXPONENT;
        if shift >= 11 {
            proof {
                if shift > 11 {
                    lemma_pow2_strictly_increases(11, shift as nat);
                }
                assert(m * pow2(shift as nat) >= 0x8000_0000_0000_0000) by (nonlinear_arith)
                    requires
                        m >= 0x10_0000_0000_0000,
                        pow2(shift as nat) >= 0x800,
                ;
            }
            return if negative {
                i64::MIN
            } else {
                i64::MAX
            };
        }
        let scale = power_of_two(shift);
        proof {
            if shift < 10 {
                lemma_pow2_strictly_increases(shift as nat, 10);
            }
            assert(m * scale < 0x8000_0000_0000_0000) by (nonlinear_arith)
                requires
                    m < 0x20_0000_0000_0000,
                    0 <= scale <= 0x400,
            ;
        }
        m * scale
    } else {
        let k: u64 = UNIT_EXPONENT - e;
        if k >= 54 {
            proof {
                if k > 54 {
                    lemma_pow2_strictly_increases(53, (k - 1) as nat);
                }
                vstd::arithmetic::power2::lemma_pow2_unfold(k as nat);
                lemma_basic_div((m + pow2((k - 1) as nat)) as int, pow2(k as nat) as int);
            }
            return 0;
        }
        let half = power_of_two(k - 1);
        let unit = power_of_two(k);
        proof {
            lemma_pow2_pos(k as nat);
            if k < 53 {
                lemma_pow2_strictly_increases((k - 1) as nat, 52);
            }
        }
        (m + half) / unit
    };
    proof {
        assert(magnitude == rounded_magnitude(bits));
    }
    if negative {
        if magnitude >= 0x8000_0000_0000_0000 {
            i64::MIN
        } else {
            -(magnitude as i64)
        }
    } else {
        if magnitude > 0x7fff_ffff_ffff_ffff {
            i64::MAX
        } else {
            magnitude as i64
        }
    }
}

} // verus!
