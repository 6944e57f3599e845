//! Input quantization: maps unsigned 8-bit pixels onto the symmetric signed
//! 8-bit range in pure integer arithmetic.
//!
//! For a pixel `p` the quantized value is `(p * 257 - 32768) >> 8`, clamped
//! to `[-128, 127]`; this is the fixed-point approximation of the affine
//! transform `(p/255)*2 - 1` scaled into the signed 8-bit range. Since
//! `32768 == 128 * 256`, the same value is `(p * 257) / 256 - 128`, which is
//! how it is computed here (the dividend stays non-negative).

use vstd::prelude::*;

verus! {

/// The quantized value of one pixel: `floor((p*257 - 32768) / 256)`,
/// clamped to `[-128, 127]`.
pub open spec fn spec_quantize(p: int) -> int {
    let t = (p * 257 - 32768) / 256;
    if t < -128 {
        -128
    } else if t > 127 {
        127
    } else {
        t
    }
}

/// The whole image, pixel by pixel.
pub open spec fn quantize_seq(s: Seq<u8>) -> Seq<i8> {
    Seq::new(s.len(), |k: int| spec_quantize(s[k] as int) as i8)
}

/// Monotonicity: a brighter pixel never quantizes below a darker one.
pub proof fn lemma_quantize_monotonic(p1: int, p2: int)
    requires
        0 <= p1 < p2 <= 255,
    ensures
        spec_quantize(p1) <= spec_quantize(p2),
{
    assert(p1 * 257 < p2 * 257) by (nonlinear_arith)
        requires p1 < p2;
    vstd::arithmetic::div_mod::lemma_div_is_ordered(p1 * 257 - 32768, p2 * 257 - 32768, 256);
}

/// Quantize a single pixel.
pub fn quantize_pixel(p: u8) -> (r: i8)
    ensures
        r as int == spec_quantize(p as int),
{
    let t: u32 = (p as u32 * 257) / 256;
    proof {
        assert(t <= 255) by (nonlinear_arith)
            requires t == (p as u32 * 257) / 256 && p <= 255;
        assert((p as int * 257 - 32768) / 256 == (p as int * 257) / 256 - 128) by {
            vstd::arithmetic::div_mod::lemma_hoist_over_denominator(p as int * 257, -128, 256);
        }
    }
    (t as i32 - 128) as i8
}

/// Quantize an image buffer, element by element.
pub fn normalize_and_quantize_input(input: &[u8]) -> (r: Vec<i8>)
    ensures
        r@ == quantize_seq(input@),
{
    let mut r: Vec<i8> = Vec::new();
    let mut k: usize = 0;
    while k < input.len()
        invariant
            k <= input@.len(),
            r@ == quantize_seq(input@.take(k as int)),
        decreases input@.len() - k,
    {
        let q = quantize_pixel(input[k]);
        r.push(q);
        proof {
            assert(r@ =~= quantize_seq(input@.take(k as int + 1)));
        }
        k += 1;
    }
    proof {
        assert(input@.take(input@.len() as int) =~= input@);
    }
    r
}

} // verus!
