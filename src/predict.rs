use vstd::prelude::*;

verus! {

/// `trace` is a run of Horner's rule on `coefficients` at `x`: it ends in `zero`,
/// and each earlier entry is a value that `step` may return for the entry after
/// it, `x` and the coefficient at the same position (`step(acc, x, c)` stands for
/// `acc * x + c`). Its first entry is then the value of the polynomial.
pub open spec fn is_horner_trace<T, F: Fn(T, T, T) -> T>(
    coefficients: Seq<T>,
    x: T,
    zero: T,
    step: F,
    trace: Seq<T>,
) -> bool {
    &&& trace.len() == coefficients.len() + 1
    &&& trace[coefficients.len() as int] == zero
    &&& forall|k: int|
        0 <= k < coefficients.len() ==> #[trigger] step.ensures((trace[k + 1], x, coefficients[k]), trace[k])
}

/// Evaluates `sum of coefficients[k] * x^k` by Horner's rule, from the highest
/// coefficient down, with `step(acc, x, c)` computing `acc * x + c`.
pub fn predict<T: Copy, F: Fn(T, T, T) -> T>(coefficients: &[T], x: T, zero: T, step: F) -> (r: T)
    requires
        forall|a: T, b: T, c: T| #[trigger] step.requires((a, b, c)),
    ensures
        exists|trace: Seq<T>| #[trigger] is_horner_trace(coefficients@, x, zero, step, trace) && trace[0] == r,
{
    let n = coefficients.len();
    let mut acc = zero;
    let ghost mut trace: Seq<T> = seq![zero];
    let mut i: usize = n;
    while i > 0
        invariant
            n == coefficients@.len(),
            i <= n,
            forall|a: T, b: T, c: T| #[trigger] step.requires((a, b, c)),
            trace.len() == n - i + 1,
            trace[0] == acc,
            trace[n - i] == zero,
            forall|m: int|
                0 <= m < n - i ==> #[trigger] step.ensures((trace[m + 1], x, coefficients@[i + m]), trace[m]),
        decreases i,
    {
        let c = coefficients[i - 1];
        let next = step(acc, x, c);
        proof {
            let old_trace = trace;
            trace = seq![next] + old_trace;
            assert forall|m: int| 0 <= m < n - (i - 1) implies #[trigger] step.ensures(
                (trace[m + 1], x, coefficients@[(i - 1) + m]),
                trace[m],
            ) by {
                if m > 0 {
                    assert(trace[m] == old_trace[m - 1]);
                    assert(trace[m + 1] == old_trace[m]);
                    assert(step.ensures((old_trace[(m - 1) + 1], x, coefficients@[i + (m - 1)]), old_trace[m - 1]));
                }
            }
        }
        acc = next;
        i = i - 1;
    }
    proof {
        assert forall|k: int| 0 <= k < coefficients@.len() implies #[trigger] step.ensures(
            (trace[k + 1], x, coefficients@[k]),
            trace[k],
        ) by {
            assert(step.ensures((trace[k + 1], x, coefficients@[0 + k]), trace[k]));
        }
        assert(is_horner_trace(coefficients@, x, zero, step, trace));
    }
    acc
}

} // verus!
