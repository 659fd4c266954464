use vstd::prelude::*;
use crate::error::FitError;

verus! {

/// `trace` is a run of the squared-error sum over `predictions` and `targets`:
/// it starts at `zero`, and each later entry is a value that `accumulate` may
/// return for the entry before it and the pair at that position
/// (`accumulate(acc, p, t)` stands for `acc + (p - t)^2`).
pub open spec fn is_error_trace<T, A: Fn(T, T, T) -> T>(
    predictions: Seq<T>,
    targets: Seq<T>,
    zero: T,
    accumulate: A,
    trace: Seq<T>,
) -> bool {
    &&& trace.len() == predictions.len() + 1
    &&& trace[0] == zero
    &&& forall|k: int|
        0 <= k < predictions.len() ==> #[trigger] accumulate.ensures(
            (trace[k], predictions[k], targets[k]),
            trace[k + 1],
        )
}

/// The error that comparing `n_predictions` predictions with `n_targets` targets
/// gives, if any.
pub open spec fn pairing_error(n_predictions: nat, n_targets: nat) -> Option<FitError> {
    if n_predictions != n_targets {
        Some(FitError::LengthMismatch)
    } else if n_predictions == 0 {
        Some(FitError::EmptyDataset)
    } else {
        None
    }
}

/// The mean of the squared differences between `predictions` and `targets`:
/// the squares are summed with `accumulate(acc, p, t) = acc + (p - t)^2` from
/// `zero`, and the sum is divided by the number of pairs with `mean(sum, n)`.
/// Sequences of different lengths give `LengthMismatch`, empty ones
/// `EmptyDataset`.
pub fn mean_squared_error<T: Copy, A: Fn(T, T, T) -> T, M: Fn(T, usize) -> T>(
    predictions: &[T],
    targets: &[T],
    zero: T,
    accumulate: A,
    mean: M,
) -> (r: Result<T, FitError>)
    requires
        forall|a: T, p: T, t: T| #[trigger] accumulate.requires((a, p, t)),
        forall|s: T, n: usize| #[trigger] mean.requires((s, n)),
    ensures
        match r {
            Ok(v) => {
                &&& pairing_error(predictions@.len(), targets@.len()) is None
                &&& exists|trace: Seq<T>|
                    #[trigger] is_error_trace(predictions@, targets@, zero, accumulate, trace)
                        && mean.ensures((trace[predictions@.len() as int], predictions.len()), v)
            },
            Err(e) => pairing_error(predictions@.len(), targets@.len()) == Some(e),
        },
{
    let n = predictions.len();
    if n != targets.len() {
        return Err(FitError::LengthMismatch);
    }
    if n == 0 {
        return Err(FitError::EmptyDataset);
    }
    let mut total = zero;
    let ghost mut trace: Seq<T> = seq![zero];
    let mut i: usize = 0;
    while i < n
        invariant
            n == predictions@.len(),
            n == targets@.len(),
            i <= n,
            forall|a: T, p: T, t: T| #[trigger] accumulate.requires((a, p, t)),
            trace.len() == i + 1,
            trace[0] == zero,
            trace[i as int] == total,
            forall|k: int|
                0 <= k < i ==> #[trigger] accumulate.ensures(
                    (trace[k], predictions@[k], targets@[k]),
                    trace[k + 1],
                ),
        decreases n - i,
    {
        let next = accumulate(total, predictions[i], targets[i]);
        proof {
            trace = trace.push(next);
        }
        total = next;
        i = i + 1;
    }
    let v = mean(total, n);
    assert(is_error_trace(predictions@, targets@, zero, accumulate, trace));
    Ok(v)
}

} // verus!
