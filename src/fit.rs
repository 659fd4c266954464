use vstd::prelude::*;
use crate::error::FitError;
use crate::features::{build_polynomial_features, is_design_matrix};

verus! {

/// The error that fitting a polynomial of `degree` to `n_x` inputs and `n_y`
/// targets gives before any arithmetic, if any: unpaired samples, or fewer
/// samples than coefficients.
pub open spec fn fit_input_error(n_x: nat, n_y: nat, degree: nat) -> Option<FitError> {
    if n_x != n_y {
        Some(FitError::LengthMismatch)
    } else if n_x < degree + 1 {
        Some(FitError::InsufficientSamples)
    } else {
        None
    }
}

/// Checks that `x` and `y` can be fitted with a polynomial of `degree`: they
/// must be paired, and hold at least `degree + 1` samples, else the Gram matrix
/// is rank-deficient by construction.
pub fn validate_training<T>(x: &[T], y: &[T], degree: usize) -> (r: Result<(), FitError>)
    ensures
        match r {
            Ok(()) => fit_input_error(x@.len(), y@.len(), degree as nat) is None,
            Err(e) => fit_input_error(x@.len(), y@.len(), degree as nat) == Some(e),
        },
{
    if x.len() != y.len() {
        return Err(FitError::LengthMismatch);
    }
    if x.len() <= degree {
        return Err(FitError::InsufficientSamples);
    }
    Ok(())
}

/// `d` is the design matrix of `x` up to `degree`, and `solve` may return `out`
/// for it and the targets `y`.
pub open spec fn solves_design<T, F: Fn(T, T) -> T, S: Fn(&Vec<Vec<T>>, &[T]) -> Option<Vec<T>>>(
    d: Vec<Vec<T>>,
    x: Seq<T>,
    y: &[T],
    degree: nat,
    one: T,
    times: F,
    solve: S,
    out: Option<Vec<T>>,
) -> bool {
    &&& is_design_matrix(d@, x, degree, one, times)
    &&& solve.ensures((&d, y), out)
}

/// The coefficients in `r`, if it holds any.
pub open spec fn solution<T>(r: Result<Vec<T>, FitError>) -> Option<Vec<T>> {
    match r {
        Ok(c) => Some(c),
        Err(_) => None,
    }
}

/// Fits a polynomial of `degree` to the samples `(x, y)` by least squares.
///
/// The inputs are checked first (`LengthMismatch`, `InsufficientSamples`).
/// Then the design matrix is built with `one` and `times` as in
/// `build_polynomial_features`, and handed with `y` to `solve`, which forms and
/// solves the normal equations; it returns `None` when the factorization meets
/// a pivot that is not positive enough, and this fit then fails with
/// `SingularSystem`. The coefficients run from the constant term upward.
pub fn polynomial_regression<T: Copy, F: Fn(T, T) -> T, S: Fn(&Vec<Vec<T>>, &[T]) -> Option<Vec<T>>>(
    x: &[T],
    y: &[T],
    degree: usize,
    one: T,
    times: F,
    solve: S,
) -> (r: Result<Vec<T>, FitError>)
    requires
        forall|a: T, b: T| #[trigger] times.requires((a, b)),
        forall|d: &Vec<Vec<T>>, t: &[T]| #[trigger] solve.requires((d, t)),
    ensures
        match fit_input_error(x@.len(), y@.len(), degree as nat) {
            Some(e) => r == Err::<Vec<T>, FitError>(e),
            None => {
                &&& r is Ok || r == Err::<Vec<T>, FitError>(FitError::SingularSystem)
                &&& exists|d: Vec<Vec<T>>| #[trigger] solves_design(d, x@, y, degree as nat, one, times, solve, solution(r))
            },
        },
{
    match validate_training(x, y, degree) {
        Err(e) => return Err(e),
        Ok(()) => {},
    }
    let n = x.len();
    assert(degree < n);
    let design = build_polynomial_features(x, degree, one, times);
    let solved = solve(&design, y);
    match solved {
        Some(c) => {
            assert(solves_design(design, x@, y, degree as nat, one, times, solve, Some(c)));
            Ok(c)
        },
        None => {
            assert(solves_design(design, x@, y, degree as nat, one, times, solve, None));
            Err(FitError::SingularSystem)
        },
    }
}

} // verus!
