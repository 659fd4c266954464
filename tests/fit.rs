use nalgebra::linalg::Cholesky;
use nalgebra::{DMatrix, DVector};
use polyfit::error::FitError;
use polyfit::fit::{polynomial_regression, validate_training};
use polyfit::metrics::mean_squared_error;
use polyfit::predict::predict;

/// Forms X^T X and X^T y from the design matrix and solves them by Cholesky;
/// a pivot below 1e-12 times the largest diagonal entry counts as singular.
fn solve_normal_equations(design: &Vec<Vec<f64>>, y: &[f64]) -> Option<Vec<f64>> {
    let rows = design.len();
    let cols = design.first().map_or(0, |r| r.len());
    let x = DMatrix::from_fn(rows, cols, |i, j| design[i][j]);
    let xt = x.transpose();
    let gram = &xt * &x;
    let rhs = &xt * DVector::from_column_slice(y);
    let max_diag = gram.diagonal().iter().fold(0.0f64, |m, v| m.max(*v));
    let chol = Cholesky::new(gram)?;
    let l = chol.l_dirty();
    for k in 0..cols {
        if l[(k, k)] * l[(k, k)] <= 1e-12 * max_diag {
            return None;
        }
    }
    Some(chol.solve(&rhs).iter().cloned().collect())
}

fn fit(x: &[f64], y: &[f64], degree: usize) -> Result<Vec<f64>, FitError> {
    polynomial_regression(x, y, degree, 1.0, |a: f64, b: f64| a * b, solve_normal_equations)
}

fn eval(c: &[f64], x: f64) -> f64 {
    predict(c, x, 0.0, |acc: f64, x: f64, k: f64| acc * x + k)
}

fn mse(p: &[f64], t: &[f64]) -> f64 {
    mean_squared_error(
        p,
        t,
        0.0,
        |acc: f64, a: f64, b: f64| acc + (a - b) * (a - b),
        |s: f64, n: usize| s / n as f64,
    )
    .unwrap()
}

fn close(a: f64, b: f64, tol: f64) -> bool {
    (a - b).abs() <= tol * (1.0 + a.abs().max(b.abs()))
}

#[test]
fn fit_line_end_to_end() {
    let x = vec![0.0, 1.0, 2.0, 3.0, 4.0];
    let y = vec![1.0, 3.0, 5.0, 7.0, 9.0];
    let c = fit(&x, &y, 1).unwrap();
    assert_eq!(c.len(), 2);
    assert!(close(c[0], 1.0, 1e-9));
    assert!(close(c[1], 2.0, 1e-9));
    assert!(close(eval(&c, 10.0), 21.0, 1e-9));
    let preds: Vec<f64> = x.iter().map(|v| eval(&c, *v)).collect();
    assert!(mse(&preds, &y) < 1e-18);
}

#[test]
fn fit_degree_one_matches_closed_form() {
    let x = vec![1.0, 2.0, 4.0, 5.0, 7.5, 9.0];
    let y = vec![2.3, 2.9, 5.1, 5.8, 9.4, 10.2];
    let n = x.len() as f64;
    let x_mean = x.iter().sum::<f64>() / n;
    let y_mean = y.iter().sum::<f64>() / n;
    let num: f64 = x.iter().zip(&y).map(|(a, b)| (a - x_mean) * (b - y_mean)).sum();
    let den: f64 = x.iter().map(|a| (a - x_mean) * (a - x_mean)).sum();
    let slope = num / den;
    let intercept = y_mean - slope * x_mean;
    let c = fit(&x, &y, 1).unwrap();
    assert!(close(c[0], intercept, 1e-9));
    assert!(close(c[1], slope, 1e-9));
}

#[test]
fn fit_degree_zero_is_mean() {
    let x = vec![1.0, 2.0, 3.0, 10.0];
    let y = vec![4.0, -2.0, 7.0, 3.0];
    let c = fit(&x, &y, 0).unwrap();
    assert_eq!(c.len(), 1);
    assert!(close(c[0], 3.0, 1e-12));
}

#[test]
fn fit_interpolates_when_exactly_determined() {
    let x = vec![-1.0, 0.0, 1.5, 2.0];
    let y = vec![3.0, -1.0, 2.0, 5.0];
    let c = fit(&x, &y, 3).unwrap();
    assert_eq!(c.len(), 4);
    for (xi, yi) in x.iter().zip(&y) {
        assert!(close(eval(&c, *xi), *yi, 1e-8));
    }
}

#[test]
fn fit_with_too_few_samples_fails() {
    let x = vec![1.0, 2.0];
    let y = vec![1.0, 2.0];
    assert_eq!(fit(&x, &y, 5), Err(FitError::InsufficientSamples));
    assert_eq!(validate_training(&x, &y, 5), Err(FitError::InsufficientSamples));
    assert_eq!(validate_training(&x, &y, 2), Err(FitError::InsufficientSamples));
    assert_eq!(validate_training(&x, &y, 1), Ok(()));
}

#[test]
fn fit_with_no_training_samples_fails() {
    let x: Vec<f64> = Vec::new();
    let y: Vec<f64> = Vec::new();
    assert_eq!(fit(&x, &y, 0), Err(FitError::InsufficientSamples));
}

#[test]
fn fit_on_identical_inputs_is_singular() {
    let x = vec![2.0, 2.0, 2.0, 2.0];
    let y = vec![1.0, 2.0, 3.0, 4.0];
    assert_eq!(fit(&x, &y, 1), Err(FitError::SingularSystem));
}

#[test]
fn fit_of_unpaired_samples_fails() {
    let x = vec![1.0, 2.0, 3.0];
    let y = vec![1.0, 2.0];
    assert_eq!(fit(&x, &y, 1), Err(FitError::LengthMismatch));
}

#[test]
fn fit_hands_the_solver_the_design_matrix() {
    let x = vec![1.0, 2.0, 3.0];
    let y = vec![7.0, 8.0, 9.0];
    let seen = polynomial_regression(&x, &y, 2, 1.0, |a: f64, b: f64| a * b, |d: &Vec<Vec<f64>>, t: &[f64]| {
        let mut flat: Vec<f64> = d.iter().flatten().cloned().collect();
        flat.extend_from_slice(t);
        Some(flat)
    });
    assert_eq!(
        seen,
        Ok(vec![1.0, 1.0, 1.0, 1.0, 2.0, 4.0, 1.0, 3.0, 9.0, 7.0, 8.0, 9.0])
    );
}
