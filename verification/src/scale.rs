//! Q16 scale factors.
//!
//! Each layer's blob stores its learned scale as a 32-bit little-endian
//! IEEE-754 float; the engine uses `trunc(scale * 2^16)` as a signed 32-bit
//! fixed-point multiplier. Multiplying a binary float by `2^16` only moves
//! its exponent, so the multiplier can be computed exactly from the bit
//! pattern with integer arithmetic alone: take the significand and shift it
//! by the (rebased) exponent, rounding toward zero. The cast semantics are
//! those of Rust's float-to-int conversion: saturation at the 32-bit bounds,
//! NaN to 0.

use vstd::prelude::*;
use vstd::arithmetic::power2::{pow2, lemma_pow2_pos, lemma_pow2_strictly_increases, lemma2_to64};
use vstd::arithmetic::div_mod::lemma_basic_div;
use crate::arith::pow2_u64;

verus! {

/// A 32-bit word assembled from four little-endian bytes.
pub open spec fn le32_bits(b0: u8, b1: u8, b2: u8, b3: u8) -> int {
    b0 + b1 * 0x100 + b2 * 0x1_0000 + b3 * 0x100_0000
}

/// `floor(|f| * 2^16)` for the finite float with biased exponent `e` and
/// mantissa `m`: the significand shifted by `e - (127 + 23 - 16)`.
pub open spec fn q16_magnitude(e: int, m: int) -> int {
    if e == 0 {
        m / pow2(133) as int
    } else if e >= 134 {
        (0x80_0000 + m) * pow2((e - 134) as nat)
    } else {
        (0x80_0000 + m) / pow2((134 - e) as nat) as int
    }
}

/// `trunc(f * 2^16)` as a signed 32-bit value, for the float with the given
/// bit pattern: rounded toward zero, saturated at the i32 bounds, NaN to 0.
pub open spec fn q16_from_bits(bits: int) -> int {
    let sign = bits / 0x8000_0000;
    let e = (bits / 0x80_0000) % 0x100;
    let m = bits % 0x80_0000;
    if e == 255 {
        if m != 0 {
            0
        } else if sign == 1 {
            -0x8000_0000
        } else {
            0x7fff_ffff
        }
    } else {
        let mag = q16_magnitude(e, m);
        if sign == 0 {
            if mag > 0x7fff_ffff {
                0x7fff_ffff
            } else {
                mag
            }
        } else {
            if mag > 0x8000_0000 {
                -0x8000_0000
            } else {
                -mag
            }
        }
    }
}

/// Decode a float's bit pattern into the Q16 multiplier `trunc(f * 2^16)`.
pub fn q16_from_f32_bits(bits: u32) -> (r: i32)
    ensures
        r as int == q16_from_bits(bits as int),
{
    let sign: u32 = bits / 0x8000_0000;
    let e: u32 = (bits / 0x80_0000) % 0x100;
    let m: u32 = bits % 0x80_0000;
    if e == 255 {
        if m != 0 {
            0
        } else if sign == 1 {
            i32::MIN
        } else {
            i32::MAX
        }
    } else if e == 0 {
        // Subnormal: the magnitude is below 2^-110, so it truncates to 0.
        proof {
            lemma_pow2_strictly_increases(23, 133);
            lemma2_to64();
            lemma_basic_div(m as int, pow2(133) as int);
        }
        0
    } else if e >= 142 {
        // The significand is at least 2^23 and the shift at least 8, so the
        // magnitude is at least 2^31: saturate.
        proof {
            let sh = (e - 134) as nat;
            if sh > 8 {
                lemma_pow2_strictly_increases(8, sh);
            }
            lemma2_to64();
            assert((0x80_0000 + m as int) * (pow2(sh) as int) >= 0x8000_0000) by (nonlinear_arith)
                requires
                    pow2(sh) >= 256,
                    m >= 0;
        }
        if sign == 1 {
            i32::MIN
        } else {
            i32::MAX
        }
    } else if e >= 134 {
        // Shift left by at most 7: the magnitude stays below 2^31.
        let d = pow2_u64(e - 134);
        proof {
            let sh = (e - 134) as nat;
            lemma_pow2_pos(sh);
            if sh < 7 {
                lemma_pow2_strictly_increases(sh, 7);
            }
            lemma2_to64();
            assert((0x80_0000 + m as int) * (pow2(sh) as int) < 0x8000_0000) by (nonlinear_arith)
                requires
                    0 < pow2(sh) <= 128,
                    m < 0x80_0000;
        }
        let mag: u64 = (0x80_0000u64 + m as u64) * d;
        if sign == 1 {
            (-(mag as i64)) as i32
        } else {
            mag as i32
        }
    } else {
        // 1 <= e <= 133: shift right by `134 - e`.
        let ds = 134 - e;
        if ds >= 24 {
            // The significand is below 2^24: everything shifts out.
            proof {
                let dsn = ds as nat;
                if dsn > 24 {
                    lemma_pow2_strictly_increases(24, dsn);
                }
                lemma2_to64();
                lemma_basic_div(0x80_0000 + m as int, pow2(dsn) as int);
            }
            0
        } else {
            let d = pow2_u64(ds);
            proof {
                lemma_pow2_pos(ds as nat);
                vstd::arithmetic::div_mod::lemma_div_is_ordered_by_denominator(
                    0x80_0000 + m as int,
                    1,
                    pow2(ds as nat) as int,
                );
                vstd::arithmetic::div_mod::lemma_div_basics_2(0x80_0000 + m as int);
            }
            let mag: u64 = (0x80_0000u64 + m as u64) / d;
            if sign == 1 {
                (-(mag as i64)) as i32
            } else {
                mag as i32
            }
        }
    }
}

/// Decode the four little-endian bytes of a float into the Q16 multiplier.
pub fn q16_from_le_bytes(b0: u8, b1: u8, b2: u8, b3: u8) -> (r: i32)
    ensures
        r as int == q16_from_bits(le32_bits(b0, b1, b2, b3)),
{
    let bits: u32 = b0 as u32 + b1 as u32 * 0x100 + b2 as u32 * 0x1_0000 + b3 as u32 * 0x100_0000;
    q16_from_f32_bits(bits)
}

} // verus!
