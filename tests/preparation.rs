use kneedle::extremes::{column_max, column_min};
use kneedle::shape::{check_shape, CurveError};
use kneedle::smoothing::kernel_span;

fn bits(values: &[f64]) -> Vec<u64> {
    values.iter().map(|v| v.to_bits()).collect()
}

#[test]
fn column_extremes() {
    let v = bits(&[3.0, -1.5, 7.25, 0.0]);
    assert_eq!(f64::from_bits(column_min(&v)), -1.5);
    assert_eq!(f64::from_bits(column_max(&v)), 7.25);
}

#[test]
fn column_extremes_pass_over_nan() {
    let v = bits(&[f64::NAN, 2.0, f64::NAN, -4.0]);
    assert_eq!(f64::from_bits(column_min(&v)), -4.0);
    assert_eq!(f64::from_bits(column_max(&v)), 2.0);
}

#[test]
fn column_extremes_of_empty_column_are_infinite() {
    assert_eq!(f64::from_bits(column_min(&Vec::new())), f64::INFINITY);
    assert_eq!(f64::from_bits(column_max(&Vec::new())), f64::NEG_INFINITY);
    let all_nan = bits(&[f64::NAN]);
    assert_eq!(f64::from_bits(column_min(&all_nan)), f64::INFINITY);
}

#[test]
fn kernel_span_inside_curve() {
    let s = kernel_span(5, 2, 10);
    assert_eq!((s.first, s.last, s.width), (3, 7, 2));
}

#[test]
fn kernel_span_clipped_at_edges() {
    let s = kernel_span(0, 1, 10);
    assert_eq!((s.first, s.last, s.width), (0, 1, 1));
    let s = kernel_span(9, 3, 10);
    assert_eq!((s.first, s.last, s.width), (6, 9, 3));
    let s = kernel_span(1, 5, 3);
    assert_eq!((s.first, s.last, s.width), (0, 2, 5));
}

#[test]
fn kernel_span_of_zero_window() {
    let s = kernel_span(4, 0, 10);
    assert_eq!((s.first, s.last, s.width), (4, 4, 1));
}

#[test]
fn kernel_span_with_huge_window() {
    let s = kernel_span(3, usize::MAX, 5);
    assert_eq!((s.first, s.last), (0, 4));
}

#[test]
fn shape_accepted() {
    assert_eq!(check_shape(&vec![2, 2, 2], Some(2)), Ok(2));
    assert_eq!(check_shape(&vec![3, 3], None), Ok(3));
}

#[test]
fn shape_empty() {
    assert_eq!(check_shape(&vec![], Some(2)), Err(CurveError::EmptyInput));
    assert_eq!(check_shape(&vec![], None), Err(CurveError::EmptyInput));
}

#[test]
fn shape_invalid_dimension() {
    assert_eq!(check_shape(&vec![0, 0], None), Err(CurveError::InvalidDimension));
    assert_eq!(check_shape(&vec![3, 3], Some(2)), Err(CurveError::InvalidDimension));
}

#[test]
fn shape_mismatch() {
    assert_eq!(check_shape(&vec![2, 2, 3], Some(2)), Err(CurveError::DimensionMismatch));
    assert_eq!(check_shape(&vec![1, 2], None), Err(CurveError::DimensionMismatch));
}
