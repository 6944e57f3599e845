//! Integer helpers shared by the fixed-point pipeline: flooring division by a
//! power of two (the arithmetic right shift), powers of two as executable
//! values, and two's-complement wrapping into the signed 32-bit range.

use vstd::prelude::*;
use vstd::arithmetic::power2::{pow2, lemma_pow2_pos, lemma_pow2_strictly_increases, lemma2_to64};
use vstd::arithmetic::div_mod::{
    lemma_fundamental_div_mod, lemma_fundamental_div_mod_converse, lemma_small_mod,
    lemma_mod_add_multiples_vanish,
};

verus! {

/// The value an `i64 -> i32` truncation produces: the two's-complement
/// interpretation of the low 32 bits.
pub open spec fn wrap_i32(x: int) -> int {
    let r = x % 0x1_0000_0000;
    if r >= 0x8000_0000 {
        r - 0x1_0000_0000
    } else {
        r
    }
}

/// Wrapping is the identity on values that already fit in 32 signed bits.
pub proof fn lemma_wrap_i32_identity(x: int)
    requires
        -0x8000_0000 <= x < 0x8000_0000,
    ensures
        wrap_i32(x) == x,
{
    if x >= 0 {
        lemma_small_mod(x as nat, 0x1_0000_0000);
    } else {
        lemma_mod_add_multiples_vanish(x, 0x1_0000_0000);
        lemma_small_mod((x + 0x1_0000_0000) as nat, 0x1_0000_0000);
    }
}

/// `2^e` as a machine word.
pub fn pow2_u64(e: u32) -> (r: u64)
    requires
        e <= 63,
    ensures
        r as nat == pow2(e as nat),
{
    let mut r: u64 = 1;
    let mut i: u32 = 0;
    proof {
        vstd::arithmetic::power2::lemma_pow2(0);
        vstd::arithmetic::power::lemma_pow0(2);
    }
    while i < e
        invariant
            i <= e <= 63,
            r as nat == pow2(i as nat),
        decreases e - i,
    {
        proof {
            if (i as nat) < 63 {
                lemma_pow2_strictly_increases(i as nat, 63);
            }
            lemma2_to64();
            vstd::arithmetic::power2::lemma2_to64_rest();
            vstd::arithmetic::power2::lemma_pow2_unfold((i + 1) as nat);
        }
        r = r * 2;
        i = i + 1;
    }
    r
}

/// Flooring division of `x` by the positive divisor `d`: exactly the
/// (Euclidean) `/` of specifications, unlike Rust's `/`, which rounds
/// toward zero.
pub fn floor_div_i64(x: i64, d: u64) -> (r: i64)
    requires
        x > i64::MIN,
        1 <= d,
    ensures
        r as int == x as int / d as int,
{
    if x >= 0 {
        let q = (x as u64) / d;
        proof {
            vstd::arithmetic::div_mod::lemma_div_is_ordered(q as int, x as int, 1);
        }
        q as i64
    } else {
        let mag: u64 = (-x) as u64;
        let q0 = mag / d;
        let r0 = mag % d;
        proof {
            lemma_fundamental_div_mod(mag as int, d as int);
            if r0 == 0 {
                // -mag == d * (-q0) + 0
                assert(x as int == d as int * (-(q0 as int)) + 0) by (nonlinear_arith)
                    requires
                        mag as int == d as int * (q0 as int),
                        x as int == -(mag as int);
                lemma_fundamental_div_mod_converse(x as int, d as int, -(q0 as int), 0);
            } else {
                // -mag == d * (-q0 - 1) + (d - r0), with 0 <= d - r0 < d
                assert(x as int == d as int * (-(q0 as int) - 1) + (d as int - r0 as int))
                    by (nonlinear_arith)
                    requires
                        mag as int == d as int * (q0 as int) + r0 as int,
                        x as int == -(mag as int);
                lemma_fundamental_div_mod_converse(
                    x as int,
                    d as int,
                    -(q0 as int) - 1,
                    d as int - r0 as int,
                );
            }
        }
        if r0 == 0 {
            -(q0 as i64)
        } else {
            -(q0 as i64) - 1
        }
    }
}

/// Wrap a 64-bit value into the signed 32-bit range, as truncation to the
/// low 32 bits would.
pub fn wrap_to_i32(x: i64) -> (r: i32)
    requires
        x > i64::MIN,
    ensures
        r as int == wrap_i32(x as int),
{
    let rem: u64 = if x >= 0 {
        (x as u64) % 0x1_0000_0000
    } else {
        let mag: u64 = (-x) as u64;
        let rm = mag % 0x1_0000_0000;
        if rm == 0 {
            0
        } else {
            0x1_0000_0000 - rm
        }
    };
    proof {
        if x >= 0 {
            assert(rem as int == x as int % 0x1_0000_0000) by {
                lemma_fundamental_div_mod(x as int, 0x1_0000_0000);
                lemma_fundamental_div_mod_converse(
                    x as int,
                    0x1_0000_0000,
                    x as int / 0x1_0000_0000,
                    x as int % 0x1_0000_0000,
                );
            }
        } else {
            let mag = -(x as int);
            let q0 = mag / 0x1_0000_0000;
            let rm = mag % 0x1_0000_0000;
            lemma_fundamental_div_mod(mag, 0x1_0000_0000);
            if rm == 0 {
                assert(x as int == 0x1_0000_0000 * (-q0) + 0) by (nonlinear_arith)
                    requires
                        mag == 0x1_0000_0000 * q0,
                        x as int == -mag;
                lemma_fundamental_div_mod_converse(x as int, 0x1_0000_0000, -q0, 0);
            } else {
                assert(x as int == 0x1_0000_0000 * (-q0 - 1) + (0x1_0000_0000 - rm))
                    by (nonlinear_arith)
                    requires
                        mag == 0x1_0000_0000 * q0 + rm,
                        x as int == -mag;
                lemma_fundamental_div_mod_converse(
                    x as int,
                    0x1_0000_0000,
                    -q0 - 1,
                    0x1_0000_0000 - rm,
                );
            }
        }
    }
    if rem >= 0x8000_0000 {
        ((rem as i64) - 0x1_0000_0000) as i32
    } else {
        rem as i32
    }
}

} // verus!
