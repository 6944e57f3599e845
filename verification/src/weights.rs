//! Weight store: parses one layer's binary blob into a weight matrix and a
//! Q16 scale factor.
//!
//! Blob layout (little-endian): bytes 0..4 and 4..8 hold the row and column
//! counts (redundant with the statically known shape and skipped), bytes
//! 8..12 an IEEE-754 32-bit float scale, and bytes 12..12+rows*cols the
//! row-major signed 8-bit weights. A blob shorter than that is rejected as
//! `MalformedWeights`.

use vstd::prelude::*;
use crate::matmul::WeightMatrix;
use crate::scale::{q16_from_bits, le32_bits, q16_from_le_bytes};
use crate::InferenceError;

verus! {

/// The blob holds enough bytes for a `rows x cols` layer.
pub open spec fn blob_ok(data: Seq<u8>, rows: int, cols: int) -> bool {
    data.len() >= 12 + rows * cols
}

/// A stored byte reinterpreted as a signed 8-bit value (two's complement).
pub open spec fn i8_of_byte(b: u8) -> int {
    if b < 128 {
        b as int
    } else {
        b - 256
    }
}

/// The weight entries a blob holds, in row-major order.
pub open spec fn blob_weights(data: Seq<u8>, rows: int, cols: int) -> Seq<i8> {
    Seq::new((rows * cols) as nat, |k: int| i8_of_byte(data[12 + k]) as i8)
}

/// The Q16 scale factor a blob holds in bytes 8..12.
pub open spec fn blob_scale(data: Seq<u8>) -> int {
    q16_from_bits(le32_bits(data[8], data[9], data[10], data[11]))
}

/// Reinterpret a byte as a signed 8-bit value.
fn byte_to_i8(b: u8) -> (r: i8)
    ensures
        r as int == i8_of_byte(b),
{
    if b < 128 {
        b as i8
    } else {
        ((b as i16) - 256) as i8
    }
}

/// Parse one layer's blob into its weight matrix and Q16 scale factor.
/// Fails with `MalformedWeights` exactly when the blob is shorter than
/// `12 + rows * cols` bytes.
pub fn parse_weight_binary(data: &[u8], rows: usize, cols: usize) -> (r: Result<
    (WeightMatrix, i32),
    InferenceError,
>)
    requires
        rows * cols <= usize::MAX - 12,
    ensures
        r is Err <==> !blob_ok(data@, rows as int, cols as int),
        r is Err ==> r == Err::<(WeightMatrix, i32), InferenceError>(
            InferenceError::MalformedWeights,
        ),
        r matches Ok((m, s)) ==> m.wf() && m.spec_rows() == rows && m.spec_cols() == cols
            && m.entries() == blob_weights(data@, rows as int, cols as int) && s as int
            == blob_scale(data@),
{
    proof {
        assert(rows as int * cols as int == (rows * cols) as int) by (nonlinear_arith)
            requires
                rows * cols <= usize::MAX - 12,
                0 <= rows,
                0 <= cols;
    }
    let count: usize = rows * cols;
    let need: usize = 12 + count;
    if data.len() < need {
        return Err(InferenceError::MalformedWeights);
    }
    let s = q16_from_le_bytes(data[8], data[9], data[10], data[11]);
    let mut w: Vec<i8> = Vec::new();
    let mut k: usize = 0;
    while k < count
        invariant
            k <= count,
            count <= usize::MAX - 12,
            count == rows * cols,
            data@.len() >= 12 + count,
            w@.len() == k,
            forall|j: int|
                0 <= j < k ==> w@[j] as int == i8_of_byte(data@[12 + j]),
        decreases count - k,
    {
        let v = byte_to_i8(data[12 + k]);
        w.push(v);
        k += 1;
    }
    proof {
        assert(w@ =~= blob_weights(data@, rows as int, cols as int));
    }
    let m = WeightMatrix::new(rows, cols, w);
    Ok((m, s))
}

} // verus!
