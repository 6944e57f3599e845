//! Small unsigned vector and matrix kernels: elementwise addition, dot
//! product, and square matrix multiplication over row-major buffers.

use vstd::prelude::*;

verus! {

/// The dot product of the first `j` elements.
pub open spec fn vec_dot(a: Seq<u32>, b: Seq<u32>, j: int) -> int
    decreases j,
{
    if j <= 0 {
        0
    } else {
        vec_dot(a, b, j - 1) + a[j - 1] * b[j - 1]
    }
}

/// Dot products of unsigned vectors never go negative and never decrease as
/// terms are added.
pub proof fn lemma_vec_dot_nonneg(a: Seq<u32>, b: Seq<u32>, j: int)
    ensures
        0 <= vec_dot(a, b, j),
        forall|p: int| 0 <= p <= j ==> #[trigger] vec_dot(a, b, p) <= vec_dot(a, b, j),
    decreases j,
{
    if j > 0 {
        lemma_vec_dot_nonneg(a, b, j - 1);
        assert(0 <= a[j - 1] as int * b[j - 1] as int) by (nonlinear_arith)
            requires
                0 <= a[j - 1] as int,
                0 <= b[j - 1] as int;
    }
}

/// Elementwise sum: `c[i] = a[i] + b[i]` for every index of `a`; the tail of
/// `c` beyond `a` is untouched.
pub fn vector_add(a: &[u32], b: &[u32], c: &mut Vec<u32>)
    requires
        a@.len() <= b@.len(),
        a@.len() <= old(c)@.len(),
        forall|i: int| 0 <= i < a@.len() ==> a@[i] + b@[i] <= u32::MAX,
    ensures
        final(c)@.len() == old(c)@.len(),
        forall|i: int| 0 <= i < a@.len() ==> final(c)@[i] == a@[i] + b@[i],
        forall|i: int| a@.len() <= i < old(c)@.len() ==> final(c)@[i] == old(c)@[i],
{
    let ghost orig = c@;
    let mut i: usize = 0;
    while i < a.len()
        invariant
            i <= a@.len(),
            a@.len() <= b@.len(),
            a@.len() <= orig.len(),
            c@.len() == orig.len(),
            forall|p: int| 0 <= p < a@.len() ==> a@[p] + b@[p] <= u32::MAX,
            forall|p: int| 0 <= p < i ==> c@[p] == a@[p] + b@[p],
            forall|p: int| i <= p < orig.len() ==> c@[p] == orig[p],
        decreases a@.len() - i,
    {
        c[i] = a[i] + b[i];
        i += 1;
    }
}

/// Dot product with a 32-bit accumulator; the caller guarantees that no
/// partial sum overflows.
pub fn vector_dot(a: &[u32], b: &[u32]) -> (r: u32)
    requires
        a@.len() <= b@.len(),
        forall|j: int| 0 <= j <= a@.len() ==> #[trigger] vec_dot(a@, b@, j) <= u32::MAX,
    ensures
        r == vec_dot(a@, b@, a@.len() as int),
{
    let mut sum: u32 = 0;
    let mut i: usize = 0;
    while i < a.len()
        invariant
            i <= a@.len(),
            a@.len() <= b@.len(),
            forall|j: int| 0 <= j <= a@.len() ==> #[trigger] vec_dot(a@, b@, j) <= u32::MAX,
            sum == vec_dot(a@, b@, i as int),
        decreases a@.len() - i,
    {
        proof {
            lemma_vec_dot_nonneg(a@, b@, i as int);
            assert(vec_dot(a@, b@, i as int + 1) == vec_dot(a@, b@, i as int) + a@[i as int]
                * b@[i as int]);
            assert(vec_dot(a@, b@, i as int + 1) <= u32::MAX);
            assert(0 <= a@[i as int] * b@[i as int]) by (nonlinear_arith)
                requires
                    0 <= a@[i as int],
                    0 <= b@[i as int];
        }
        sum = sum + a[i] * b[i];
        i += 1;
    }
    sum
}

/// One cell of the product of two row-major `n x n` matrices: the first `k`
/// terms of row `i` against column `j`.
pub open spec fn mat_cell(a: Seq<u32>, b: Seq<u32>, n: int, i: int, j: int, k: int) -> int
    decreases k,
{
    if k <= 0 {
        0
    } else {
        mat_cell(a, b, n, i, j, k - 1) + a[i * n + (k - 1)] * b[(k - 1) * n + j]
    }
}

/// Cell sums of unsigned matrices never go negative and never decrease.
pub proof fn lemma_mat_cell_nonneg(a: Seq<u32>, b: Seq<u32>, n: int, i: int, j: int, k: int)
    ensures
        0 <= mat_cell(a, b, n, i, j, k),
        forall|p: int| 0 <= p <= k ==> #[trigger] mat_cell(a, b, n, i, j, p) <= mat_cell(
            a,
            b,
            n,
            i,
            j,
            k,
        ),
    decreases k,
{
    if k > 0 {
        lemma_mat_cell_nonneg(a, b, n, i, j, k - 1);
        assert(0 <= a[i * n + (k - 1)] as int * b[(k - 1) * n + j] as int) by (nonlinear_arith)
            requires
                0 <= a[i * n + (k - 1)] as int,
                0 <= b[(k - 1) * n + j] as int;
    }
}

/// Row-major multiplication of two `n x n` matrices into `c`; the caller
/// guarantees that no cell's partial sum overflows.
pub fn matrix_mult(a: &[u32], b: &[u32], c: &mut Vec<u32>, n: usize)
    requires
        n * n <= a@.len(),
        n * n <= b@.len(),
        n * n <= old(c)@.len(),
        forall|i: int, j: int, k: int|
            0 <= i < n && 0 <= j < n && 0 <= k <= n ==> #[trigger] mat_cell(
                a@,
                b@,
                n as int,
                i,
                j,
                k,
            ) <= u32::MAX,
    ensures
        final(c)@.len() == old(c)@.len(),
        forall|i: int, j: int|
            0 <= i < n && 0 <= j < n ==> final(c)@[i * (n as int) + j] == mat_cell(
                a@,
                b@,
                n as int,
                i,
                j,
                n as int,
            ),
{
    let ghost orig = c@;
    let alen = a.len();
    let mut i: usize = 0;
    while i < n
        invariant
            i <= n,
            n * n <= usize::MAX,
            n * n <= a@.len(),
            n * n <= b@.len(),
            n * n <= orig.len(),
            c@.len() == orig.len(),
            forall|p: int, q: int, k: int|
                0 <= p < n && 0 <= q < n && 0 <= k <= n ==> #[trigger] mat_cell(
                    a@,
                    b@,
                    n as int,
                    p,
                    q,
                    k,
                ) <= u32::MAX,
            forall|p: int, q: int|
                0 <= p < i && 0 <= q < n ==> c@[p * (n as int) + q] == mat_cell(
                    a@,
                    b@,
                    n as int,
                    p,
                    q,
                    n as int,
                ),
            forall|t: int| i * (n as int) <= t < orig.len() ==> c@[t] == orig[t],
        decreases n - i,
    {
        let mut j: usize = 0;
        while j < n
            invariant
                i < n,
                j <= n,
                n * n <= usize::MAX,
                n * n <= a@.len(),
                n * n <= b@.len(),
                n * n <= orig.len(),
                c@.len() == orig.len(),
                forall|p: int, q: int, k: int|
                    0 <= p < n && 0 <= q < n && 0 <= k <= n ==> #[trigger] mat_cell(
                        a@,
                        b@,
                        n as int,
                        p,
                        q,
                        k,
                    ) <= u32::MAX,
                forall|p: int, q: int|
                    0 <= p < i && 0 <= q < n ==> c@[p * (n as int) + q] == mat_cell(
                        a@,
                        b@,
                        n as int,
                        p,
                        q,
                        n as int,
                    ),
                forall|q: int|
                    0 <= q < j ==> c@[i * (n as int) + q] == mat_cell(
                        a@,
                        b@,
                        n as int,
                        i as int,
                        q,
                        n as int,
                    ),
                forall|t: int| i * (n as int) + j <= t < orig.len() ==> c@[t] == orig[t],
            decreases n - j,
        {
            let mut sum: u32 = 0;
            let mut k: usize = 0;
            while k < n
                invariant
                    i < n,
                    j < n,
                    k <= n,
                    n * n <= usize::MAX,
                    n * n <= a@.len(),
                    n * n <= b@.len(),
                    forall|p: int, q: int, t: int|
                        0 <= p < n && 0 <= q < n && 0 <= t <= n ==> #[trigger] mat_cell(
                            a@,
                            b@,
                            n as int,
                            p,
                            q,
                            t,
                        ) <= u32::MAX,
                    sum == mat_cell(a@, b@, n as int, i as int, j as int, k as int),
                decreases n - k,
            {
                proof {
                    assert(i * n + k < n * n && k * n + j < n * n) by (nonlinear_arith)
                        requires
                            0 <= i < n,
                            0 <= j < n,
                            0 <= k < n;
                    lemma_mat_cell_nonneg(a@, b@, n as int, i as int, j as int, k as int);
                    let ni = n as int;
                    assert(mat_cell(a@, b@, ni, i as int, j as int, k as int + 1) == mat_cell(
                        a@,
                        b@,
                        ni,
                        i as int,
                        j as int,
                        k as int,
                    ) + a@[i as int * ni + k as int] * b@[k as int * ni + j as int]);
                    assert(mat_cell(a@, b@, ni, i as int, j as int, k as int + 1) <= u32::MAX);
                    assert(0 <= a@[i as int * ni + k as int] * b@[k as int * ni + j as int])
                        by (nonlinear_arith)
                        requires
                            0 <= a@[i as int * ni + k as int],
                            0 <= b@[k as int * ni + j as int];
                }
                sum = sum + a[i * n + k] * b[k * n + j];
                k += 1;
            }
            proof {
                assert(i * n + j < n * n) by (nonlinear_arith)
                    requires
                        0 <= i < n,
                        0 <= j < n;
            }
            c[i * n + j] = sum;
            proof {
                let ni = n as int;
                assert forall|p: int, q: int| 0 <= p < i && 0 <= q < n implies #[trigger] (p * ni
                    + q) < i * ni + j by {
                    assert(p * ni + q < i * ni) by (nonlinear_arith)
                        requires
                            ni == n as int,
                            0 <= p < i,
                            0 <= q < n;
                }
            }
            j += 1;
        }
        proof {
            assert((i + 1) * (n as int) == i * (n as int) + (n as int)) by (nonlinear_arith);
        }
        i += 1;
    }
}

} // verus!
