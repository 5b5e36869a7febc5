//! Row-major index arithmetic shared by the tensor-shaping code.

use vstd::prelude::*;

verus! {

/// An element (i, k) of a matrix whose rows have length `width` sits inside
/// the flattened buffer of `rows` such rows.
pub proof fn lemma_flat_index_in_bounds(i: int, k: int, rows: int, width: int)
    by (nonlinear_arith)
    requires
        0 <= i < rows,
        0 <= k < width,
    ensures
        0 <= i * width + k < rows * width,
{
}

/// Row-major flattening is strictly increasing in lexicographic (i, k)
/// order, so earlier elements keep their positions as later ones are
/// appended.
pub proof fn lemma_flat_index_increases(i1: int, k1: int, i2: int, k2: int, width: int)
    by (nonlinear_arith)
    requires
        0 <= i1,
        0 <= k1 < width,
        0 <= k2,
        i1 < i2 || (i1 == i2 && k1 < k2),
    ensures
        i1 * width + k1 < i2 * width + k2,
{
}

/// Every position in a flattened buffer of `rows` rows of length `width`
/// decomposes uniquely into a (row, offset) pair.
pub proof fn lemma_flat_index_decompose(idx: int, rows: int, width: int)
    by (nonlinear_arith)
    requires
        width >= 1,
        0 <= idx,
        idx < rows * width,
    ensures
        0 <= idx / width < rows,
        0 <= idx % width < width,
        idx == (idx / width) * width + idx % width,
{
}

} // verus!
