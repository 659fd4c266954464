use vstd::prelude::*;

verus! {

/// `row` is the monomial feature row of `x` up to `degree`: it starts at `one`
/// and each later entry is a product that `times` may return for the entry before
/// it times `x`.
pub open spec fn is_power_row<T, F: Fn(T, T) -> T>(row: Seq<T>, x: T, degree: nat, one: T, times: F) -> bool {
    &&& row.len() == degree + 1
    &&& row[0] == one
    &&& forall|k: int| 1 <= k <= degree ==> #[trigger] times.ensures((row[k - 1], x), row[k])
}

/// `rows` is the design matrix of `x` up to `degree`: one power row per sample.
pub open spec fn is_design_matrix<T, F: Fn(T, T) -> T>(rows: Seq<Vec<T>>, x: Seq<T>, degree: nat, one: T, times: F) -> bool {
    &&& rows.len() == x.len()
    &&& forall|j: int| 0 <= j < x.len() ==> is_power_row(#[trigger] rows[j]@, x[j], degree, one, times)
}

/// Builds the design matrix of `x`, one row per sample and `degree + 1` columns:
/// column 0 holds `one` and column `k` holds column `k - 1` times `x`, with the
/// product taken by `times`.
pub fn build_polynomial_features<T: Copy, F: Fn(T, T) -> T>(
    x: &[T],
    degree: usize,
    one: T,
    times: F,
) -> (r: Vec<Vec<T>>)
    requires
        degree < usize::MAX,
        forall|a: T, b: T| #[trigger] times.requires((a, b)),
    ensures
        is_design_matrix(r@, x@, degree as nat, one, times),
{
    let n = x.len();
    let mut rows: Vec<Vec<T>> = Vec::new();
    let mut j: usize = 0;
    while j < n
        invariant
            n == x@.len(),
            j <= n,
            degree < usize::MAX,
            forall|a: T, b: T| #[trigger] times.requires((a, b)),
            rows@.len() == j,
            forall|i: int| 0 <= i < j ==> is_power_row(#[trigger] rows@[i]@, x@[i], degree as nat, one, times),
        decreases n - j,
    {
        let xj = x[j];
        let mut row: Vec<T> = Vec::new();
        row.push(one);
        let mut k: usize = 1;
        while k <= degree
            invariant
                1 <= k <= degree + 1,
                degree < usize::MAX,
                forall|a: T, b: T| #[trigger] times.requires((a, b)),
                row@.len() == k,
                row@[0] == one,
                forall|i: int| 1 <= i < k ==> #[trigger] times.ensures((row@[i - 1], xj), row@[i]),
            decreases degree + 1 - k,
        {
            let prev = row[k - 1];
            let next = times(prev, xj);
            row.push(next);
            k = k + 1;
        }
        rows.push(row);
        j = j + 1;
    }
    rows
}

} // verus!
