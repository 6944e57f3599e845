//! Dynamic re-quantization: compresses a vector of signed 32-bit
//! accumulators back into the signed 8-bit range.
//!
//! The shift is the smallest `s >= 0` with `max(|x|) >> s <= 127` (the search
//! is capped at 31, a cap the 32-bit input range never reaches); each element
//! is then arithmetically shifted right by `s` and clamped. Two clamp bounds
//! are in use ([-128, 127] and [-127, 127]); the bound is an explicit
//! configuration choice.

use vstd::prelude::*;
use vstd::arithmetic::power2::{pow2, lemma_pow2_pos, lemma2_to64, lemma2_to64_rest};
use vstd::arithmetic::div_mod::{lemma_div_denominator, lemma_div_is_ordered};
use crate::arith::{floor_div_i64, pow2_u64};

verus! {

/// The magnitude of a 32-bit value, as a mathematical integer.
pub open spec fn abs_i32(x: int) -> int {
    if x >= 0 {
        x
    } else {
        -x
    }
}

/// The largest magnitude in the vector (0 when it is empty).
pub open spec fn max_abs_seq(s: Seq<i32>) -> int
    decreases s.len(),
{
    if s.len() == 0 {
        0
    } else {
        vstd::math::max(max_abs_seq(s.drop_last()), abs_i32(s.last() as int))
    }
}

/// The maximum magnitude bounds every element and never exceeds `2^31`.
pub proof fn lemma_max_abs_bounds(s: Seq<i32>)
    ensures
        0 <= max_abs_seq(s) <= 0x8000_0000,
        forall|k: int| 0 <= k < s.len() ==> abs_i32(s[k] as int) <= max_abs_seq(s),
    decreases s.len(),
{
    if s.len() > 0 {
        lemma_max_abs_bounds(s.drop_last());
        assert(forall|k: int|
            0 <= k < s.len() - 1 ==> s[k] == s.drop_last()[k]);
    }
}

/// An all-zero vector has maximum magnitude 0, and conversely.
pub proof fn lemma_max_abs_zero(s: Seq<i32>)
    ensures
        max_abs_seq(s) == 0 <==> (forall|k: int| 0 <= k < s.len() ==> s[k] == 0),
    decreases s.len(),
{
    if s.len() > 0 {
        lemma_max_abs_zero(s.drop_last());
        lemma_max_abs_bounds(s.drop_last());
        if max_abs_seq(s) == 0 {
            assert forall|k: int| 0 <= k < s.len() implies s[k] == 0 by {
                if k < s.len() - 1 {
                    assert(s[k] == s.drop_last()[k]);
                }
            }
        }
        if forall|k: int| 0 <= k < s.len() ==> s[k] == 0 {
            assert forall|k: int| 0 <= k < s.drop_last().len() implies s.drop_last()[k] == 0 by {
                assert(s.drop_last()[k] == s[k]);
            }
        }
    }
}

/// The smallest non-negative shift that brings a magnitude down to 127.
pub open spec fn requant_shift(m: int) -> nat
    decreases m,
{
    if m <= 127 {
        0
    } else {
        1 + requant_shift(m / 2)
    }
}

/// A magnitude of at most `127 * 2^b` needs a shift of at most `b`.
pub proof fn lemma_requant_shift_bound(m: int, b: nat)
    requires
        m <= 127 * pow2(b),
    ensures
        requant_shift(m) <= b,
    decreases m,
{
    if m > 127 {
        lemma_pow2_pos(b);
        if b == 0 {
            assert(pow2(0) == 1) by {
                lemma2_to64();
            }
        } else {
            assert(m / 2 <= 127 * pow2((b - 1) as nat)) by {
                vstd::arithmetic::power2::lemma_pow2_unfold(b);
                lemma_div_is_ordered(m, 127 * pow2(b) as int, 2);
                assert((127 * (pow2((b - 1) as nat) * 2) as int) / 2 == 127 * pow2(
                    (b - 1) as nat,
                ) as int) by (nonlinear_arith);
            }
            lemma_requant_shift_bound(m / 2, (b - 1) as nat);
        }
    }
}

/// `x` clamped to `[lo, hi]`.
pub open spec fn clamp_spec(x: int, lo: int, hi: int) -> int {
    if x < lo {
        lo
    } else if x > hi {
        hi
    } else {
        x
    }
}

/// One re-quantized element: the element shifted right by `shift`
/// (flooring), clamped to `[lo, 127]`.
pub open spec fn requant_val(x: int, shift: nat, lo: int) -> int {
    clamp_spec(x / pow2(shift) as int, lo, 127)
}

/// The whole vector, re-quantized with the shift its own maximum magnitude
/// selects.
pub open spec fn requantize_seq(s: Seq<i32>, lo: int) -> Seq<i8> {
    Seq::new(s.len(), |k: int| requant_val(s[k] as int, requant_shift(max_abs_seq(s)), lo) as i8)
}

/// The clamp bound used when packing accumulators into 8 bits: the full
/// signed range, or the symmetric one that mirrors the positive side.
#[derive(Clone, Copy, Debug, PartialEq, Eq, Structural)]
pub enum RequantMode {
    /// Clamp to `[-128, 127]`.
    FullRange,
    /// Clamp to `[-127, 127]`.
    SymmetricRange,
}

impl RequantMode {
    /// The lower clamp bound this mode applies.
    pub open spec fn low_spec(self) -> int {
        match self {
            RequantMode::FullRange => -128,
            RequantMode::SymmetricRange => -127,
        }
    }

    /// The lower clamp bound, as a machine value.
    pub fn low_bound(self) -> (r: i8)
        ensures
            r as int == self.low_spec(),
    {
        match self {
            RequantMode::FullRange => -128,
            RequantMode::SymmetricRange => -127,
        }
    }
}

/// The magnitude of a 32-bit value, as a machine word.
fn abs_exec_i32(x: i32) -> (r: u32)
    ensures
        r as int == abs_i32(x as int),
{
    if x >= 0 {
        x as u32
    } else {
        (-(x as i64)) as u32
    }
}

/// Re-quantize a vector of 32-bit accumulators into 8-bit values, with the
/// given clamp bound.
pub fn requantize_with_mode(input: &[i32], mode: RequantMode) -> (r: Vec<i8>)
    ensures
        r@ == requantize_seq(input@, mode.low_spec()),
        r@.len() == input@.len(),
        forall|k: int|
            0 <= k < input@.len() ==> r@[k] as int == requant_val(
                input@[k] as int,
                requant_shift(max_abs_seq(input@)),
                mode.low_spec(),
            ),
{
    let ghost whole = input@;

    // Largest magnitude in the vector.
    let mut max_abs: u32 = 0;
    let mut k: usize = 0;
    while k < input.len()
        invariant
            k <= whole.len(),
            input@ == whole,
            max_abs as int == max_abs_seq(whole.take(k as int)),
        decreases whole.len() - k,
    {
        let a = abs_exec_i32(input[k]);
        if a > max_abs {
            max_abs = a;
        }
        proof {
            assert(whole.take(k as int + 1).drop_last() =~= whole.take(k as int));
        }
        k += 1;
    }
    proof {
        assert(whole.take(whole.len() as int) =~= whole);
    }

    // Smallest shift that brings it down to 127 (capped at 31; the cap is
    // unreachable for 32-bit inputs, whose shift never exceeds 26).
    let mut shift: u32 = 0;
    let mut max_val: u32 = max_abs;
    proof {
        assert(pow2(0) == 1) by {
            lemma2_to64();
        }
        vstd::arithmetic::div_mod::lemma_div_basics_2(max_abs as int);
        assert(127 * pow2(26) == 8522825728) by {
            lemma2_to64();
            lemma2_to64_rest();
        }
        lemma_requant_shift_bound(max_abs as int, 26);
    }
    while max_val > 127 && shift < 31
        invariant
            max_abs <= 0x1_0000_0000u64,
            shift <= 31,
            max_val as int == max_abs as int / pow2(shift as nat) as int,
            requant_shift(max_abs as int) == shift as nat + requant_shift(max_val as int),
            requant_shift(max_abs as int) <= 26,
        decreases max_val,
    {
        proof {
            lemma_pow2_pos(shift as nat);
            assert((max_abs as int / pow2(shift as nat) as int) / 2 == max_abs as int / pow2(
                (shift + 1) as nat,
            ) as int) by {
                lemma_div_denominator(max_abs as int, pow2(shift as nat) as int, 2);
                vstd::arithmetic::power2::lemma_pow2_unfold((shift + 1) as nat);
                assert(pow2(shift as nat) as int * 2 == 2 * pow2(shift as nat) as int);
            }
            lemma_div_is_ordered(0, max_val as int, 2);
            assert(max_val as int / 2 < max_val as int);
        }
        max_val = max_val / 2;
        shift = shift + 1;
    }
    proof {
        // The cap cannot be what ended the loop.
        assert(max_val <= 127);
        assert(requant_shift(max_abs as int) == shift as nat);
    }

    // Shift and clamp every element.
    let low = mode.low_bound();
    let d = pow2_u64(shift);
    proof {
        lemma_pow2_pos(shift as nat);
        if (shift as nat) < 32 {
            vstd::arithmetic::power2::lemma_pow2_strictly_increases(shift as nat, 32);
        }
        assert(pow2(32) == 0x1_0000_0000) by {
            lemma2_to64();
            lemma2_to64_rest();
        }
    }
    let mut r: Vec<i8> = Vec::new();
    let mut k: usize = 0;
    while k < input.len()
        invariant
            k <= whole.len(),
            input@ == whole,
            1 <= d <= 0x1_0000_0000u64,
            d as nat == pow2(requant_shift(max_abs_seq(whole))),
            low as int == mode.low_spec(),
            r@.len() == k,
            forall|j: int|
                0 <= j < k ==> r@[j] as int == requant_val(
                    whole[j] as int,
                    requant_shift(max_abs_seq(whole)),
                    mode.low_spec(),
                ),
        decreases whole.len() - k,
    {
        let x = input[k];
        let q = floor_div_i64(x as i64, d);
        let v: i8 = if q < low as i64 {
            low
        } else if q > 127 {
            127
        } else {
            q as i8
        };
        r.push(v);
        k += 1;
    }
    proof {
        assert(r@ =~= requantize_seq(whole, mode.low_spec()));
    }
    r
}

/// Re-quantize with the full `[-128, 127]` clamp bound.
pub fn int32_to_int8_with_scaling(input: &[i32]) -> (r: Vec<i8>)
    ensures
        r@ == requantize_seq(input@, -128),
{
    requantize_with_mode(input, RequantMode::FullRange)
}

/// When every magnitude is at most 127, the shift is 0 and re-quantization
/// is exactly the elementwise clamp.
pub proof fn lemma_requantize_small(s: Seq<i32>, lo: int)
    requires
        max_abs_seq(s) <= 127,
        lo == -128 || lo == -127,
    ensures
        requantize_seq(s, lo).len() == s.len(),
        forall|k: int|
            0 <= k < s.len() ==> requantize_seq(s, lo)[k] as int == clamp_spec(s[k] as int, lo, 127),
{
    lemma_max_abs_bounds(s);
    assert(requant_shift(max_abs_seq(s)) == 0);
    assert(pow2(0) == 1) by {
        lemma2_to64();
    }
    assert forall|k: int| 0 <= k < s.len() implies requantize_seq(s, lo)[k] as int == clamp_spec(
        s[k] as int,
        lo,
        127,
    ) by {
        vstd::arithmetic::div_mod::lemma_div_basics_2(s[k] as int);
    }
}

/// An all-zero vector re-quantizes to an all-zero vector of the same length.
pub proof fn lemma_requantize_zero(s: Seq<i32>, lo: int)
    requires
        forall|k: int| 0 <= k < s.len() ==> s[k] == 0,
        lo == -128 || lo == -127,
    ensures
        requantize_seq(s, lo).len() == s.len(),
        forall|k: int| 0 <= k < s.len() ==> requantize_seq(s, lo)[k] == 0i8,
{
    lemma_max_abs_zero(s);
    lemma_requantize_small(s, lo);
    assert forall|k: int| 0 <= k < s.len() implies requantize_seq(s, lo)[k] == 0i8 by {
        assert(clamp_spec(s[k] as int, lo, 127) == 0);
    }
}

} // verus!
