//! Scaled integer matrix multiplication: one fully-connected layer's raw
//! accumulation, rescaled by a Q16 fixed-point factor.
//!
//! For each output row the signed 8-bit weights are multiplied with the
//! signed 8-bit input and summed in a 32-bit accumulator (safe while the
//! column count stays at or below 131071, since each term is bounded by
//! `128 * 128`); the sum is then multiplied by the Q16 scale in 64 bits,
//! shifted right by 16, and truncated back to 32 bits.

use vstd::prelude::*;
use vstd::arithmetic::div_mod::lemma_div_basics_1;
use crate::arith::{wrap_i32, wrap_to_i32, floor_div_i64};

verus! {

/// The largest column count for which a 32-bit accumulator cannot overflow:
/// `131071 * 128 * 128 < 2^31`.
pub const MAX_MATMUL_COLS: usize = 131071;

/// A row-major matrix of signed 8-bit weights with fixed dimensions.
pub struct WeightMatrix {
    rows: usize,
    cols: usize,
    data: Vec<i8>,
}

impl WeightMatrix {
    /// Well-formedness: the store holds exactly `rows * cols` entries.
    pub closed spec fn wf(&self) -> bool {
        self.data@.len() == self.rows * self.cols
    }

    /// Number of rows.
    pub closed spec fn spec_rows(&self) -> int {
        self.rows as int
    }

    /// Number of columns.
    pub closed spec fn spec_cols(&self) -> int {
        self.cols as int
    }

    /// The row-major entries.
    pub closed spec fn entries(&self) -> Seq<i8> {
        self.data@
    }

    /// The entry at row `i`, column `j`.
    pub open spec fn entry(&self, i: int, j: int) -> i8 {
        self.entries()[i * self.spec_cols() + j]
    }

    /// Wrap a row-major entry vector as a matrix.
    pub fn new(rows: usize, cols: usize, data: Vec<i8>) -> (m: Self)
        requires
            data@.len() == rows * cols,
        ensures
            m.wf(),
            m.spec_rows() == rows,
            m.spec_cols() == cols,
            m.entries() == data@,
    {
        WeightMatrix { rows, cols, data }
    }

    /// Number of rows, as a machine value.
    pub fn rows(&self) -> (r: usize)
        ensures
            r == self.spec_rows(),
    {
        self.rows
    }

    /// Number of columns, as a machine value.
    pub fn cols(&self) -> (r: usize)
        ensures
            r == self.spec_cols(),
    {
        self.cols
    }
}

/// The dot product of the first `j` columns of row `i` with the input.
pub open spec fn row_dot(w: Seq<i8>, x: Seq<i8>, i: int, cols: int, j: int) -> int
    decreases j,
{
    if j <= 0 {
        0
    } else {
        row_dot(w, x, i, cols, j - 1) + w[i * cols + (j - 1)] * x[j - 1]
    }
}

/// One scaled output element before it is stored: the row sum times the Q16
/// scale, shifted right 16 bits (flooring) and truncated to 32 bits.
pub open spec fn scaled_entry(sum: int, scale: int) -> int {
    wrap_i32((sum * scale) / 65536)
}

/// The whole layer: `rows` scaled row sums.
pub open spec fn matmul_seq(w: Seq<i8>, rows: int, cols: int, x: Seq<i8>, scale: int) -> Seq<i32> {
    Seq::new(rows as nat, |i: int| scaled_entry(row_dot(w, x, i, cols, cols), scale) as i32)
}

/// Multiply a weight matrix with an input vector and apply the Q16 scale.
pub fn int8_matmul_symmetric(weights: &WeightMatrix, input: &[i8], scale_q16: i32) -> (r: Vec<i32>)
    requires
        weights.wf(),
        input@.len() == weights.spec_cols(),
        weights.spec_cols() <= MAX_MATMUL_COLS,
    ensures
        r@ == matmul_seq(
            weights.entries(),
            weights.spec_rows(),
            weights.spec_cols(),
            input@,
            scale_q16 as int,
        ),
        r@.len() == weights.spec_rows(),
        forall|i: int|
            0 <= i < weights.spec_rows() ==> r@[i] as int == scaled_entry(
                row_dot(weights.entries(), input@, i, weights.spec_cols(), weights.spec_cols()),
                scale_q16 as int,
            ),
{
    let rows = weights.rows();
    let cols = weights.cols();
    let n = weights.data.len();
    let ghost w = weights.entries();
    let ghost x = input@;
    let mut r: Vec<i32> = Vec::new();
    let mut i: usize = 0;
    while i < rows
        invariant
            i <= rows,
            rows == weights.spec_rows(),
            cols == weights.spec_cols(),
            cols <= MAX_MATMUL_COLS,
            weights.wf(),
            n == rows * cols,
            w == weights.entries(),
            x == input@,
            x.len() == cols,
            r@.len() == i,
            forall|p: int|
                0 <= p < i ==> r@[p] as int == scaled_entry(
                    row_dot(w, x, p, cols as int, cols as int),
                    scale_q16 as int,
                ),
        decreases rows - i,
    {
        let mut sum: i32 = 0;
        let mut j: usize = 0;
        while j < cols
            invariant
                i < rows,
                j <= cols,
                rows == weights.spec_rows(),
                cols == weights.spec_cols(),
                cols <= MAX_MATMUL_COLS,
                weights.wf(),
                n == rows * cols,
                w == weights.entries(),
                x == input@,
                x.len() == cols,
                sum as int == row_dot(w, x, i as int, cols as int, j as int),
                -(j * 16384) <= sum as int <= j * 16384,
            decreases cols - j,
        {
            proof {
                assert(i * cols + j < rows * cols) by (nonlinear_arith)
                    requires
                        0 <= i < rows,
                        0 <= j < cols;
                assert(i * cols + j < n);
            }
            let idx: usize = i * cols + j;
            let wv = weights.data[idx];
            let xv = input[j];
            proof {
                assert(-16384 <= wv as int * xv as int <= 16384) by (nonlinear_arith)
                    requires
                        -128 <= wv as int <= 127,
                        -128 <= xv as int <= 127;
                assert((j + 1) * 16384 == j * 16384 + 16384) by (nonlinear_arith);
                assert(j * 16384 + 16384 <= 131071 * 16384) by (nonlinear_arith)
                    requires
                        j + 1 <= 131071;
            }
            let term: i32 = (wv as i32) * (xv as i32);
            sum = sum + term;
            j += 1;
        }
        proof {
            assert(-0x4000_0000_0000_0000 <= sum as int * scale_q16 as int
                <= 0x4000_0000_0000_0000) by (nonlinear_arith)
                requires
                    -0x8000_0000 <= sum as int <= 0x8000_0000,
                    -0x8000_0000 <= scale_q16 as int <= 0x8000_0000;
        }
        let prod: i64 = (sum as i64) * (scale_q16 as i64);
        let shifted = floor_div_i64(prod, 65536);
        let out = wrap_to_i32(shifted);
        r.push(out);
        i += 1;
    }
    proof {
        assert(r@ =~= matmul_seq(w, rows as int, cols as int, x, scale_q16 as int));
    }
    r
}

/// The first `j` terms of a row dot against an all-zero input vanish.
pub proof fn lemma_row_dot_zero(w: Seq<i8>, x: Seq<i8>, i: int, cols: int, j: int)
    requires
        forall|k: int| 0 <= k < x.len() ==> x[k] == 0,
        j <= x.len(),
    ensures
        row_dot(w, x, i, cols, j) == 0,
    decreases j,
{
    if j > 0 {
        lemma_row_dot_zero(w, x, i, cols, j - 1);
        assert(w[i * cols + (j - 1)] as int * 0 == 0) by (nonlinear_arith);
    }
}

/// For any weight matrix and scale, an all-zero input yields an all-zero
/// output.
pub proof fn lemma_matmul_zero_input(w: Seq<i8>, rows: int, cols: int, x: Seq<i8>, scale: int)
    requires
        forall|k: int| 0 <= k < x.len() ==> x[k] == 0,
        0 <= cols <= x.len(),
        0 <= rows,
    ensures
        matmul_seq(w, rows, cols, x, scale).len() == rows,
        forall|i: int| 0 <= i < rows ==> matmul_seq(w, rows, cols, x, scale)[i] == 0i32,
{
    assert forall|i: int| 0 <= i < rows implies matmul_seq(w, rows, cols, x, scale)[i] == 0i32 by {
        lemma_row_dot_zero(w, x, i, cols, cols);
        assert(0 * scale == 0) by (nonlinear_arith);
        lemma_div_basics_1(65536);
        crate::arith::lemma_wrap_i32_identity(0);
        assert(scaled_entry(0, scale) == 0);
    }
}

} // verus!
