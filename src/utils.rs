//! Numeric helpers outside the differentiation engine.
use vstd::prelude::*;

verus! {

/// A `dim` by `dim` matrix, as rows, with `value` on the diagonal and zero
/// elsewhere.
pub fn diag(dim: usize, value: i64) -> (r: Vec<Vec<i64>>)
    ensures
        r@.len() == dim,
        forall|i: int| 0 <= i < dim ==> (#[trigger] r@[i])@.len() == dim,
        forall|i: int, j: int|
            0 <= i < dim && 0 <= j < dim ==> #[trigger] r@[i]@[j] == if i == j {
                value
            } else {
                0i64
            },
{
    let mut out: Vec<Vec<i64>> = Vec::with_capacity(dim);
    let mut i: usize = 0;
    while i < dim
        invariant
            i <= dim,
            out@.len() == i,
            forall|k: int| 0 <= k < i ==> (#[trigger] out@[k])@.len() == dim,
            forall|k: int, j: int|
                0 <= k < i && 0 <= j < dim ==> #[trigger] out@[k]@[j] == if k == j {
                    value
                } else {
                    0i64
                },
        decreases dim - i,
    {
        let mut row: Vec<i64> = vec![0i64; dim];
        row.set(i, value);
        out.push(row);
        i += 1;
    }
    out
}

} // verus!
