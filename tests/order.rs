use kneedle::order::{equal, less_than, nan, NEGATIVE_INFINITY, POSITIVE_INFINITY};

fn b(v: f64) -> u64 {
    v.to_bits()
}

#[test]
fn positive_values_order_by_size() {
    assert!(less_than(b(1.0), b(2.0)));
    assert!(!less_than(b(2.0), b(1.0)));
    assert!(less_than(b(0.25), b(0.5)));
}

#[test]
fn negative_values_order_by_size() {
    assert!(less_than(b(-2.0), b(-1.0)));
    assert!(!less_than(b(-1.0), b(-2.0)));
    assert!(less_than(b(-1.0), b(0.5)));
    assert!(!less_than(b(0.5), b(-1.0)));
}

#[test]
fn zeros_are_equal() {
    assert!(equal(b(0.0), b(-0.0)));
    assert!(!less_than(b(-0.0), b(0.0)));
    assert!(!less_than(b(0.0), b(-0.0)));
    assert!(!equal(b(0.0), b(1e-300)));
}

#[test]
fn infinities_bound_the_line() {
    assert_eq!(POSITIVE_INFINITY, f64::INFINITY.to_bits());
    assert_eq!(NEGATIVE_INFINITY, f64::NEG_INFINITY.to_bits());
    assert!(less_than(b(f64::MAX), POSITIVE_INFINITY));
    assert!(less_than(NEGATIVE_INFINITY, b(f64::MIN)));
}

#[test]
fn nan_compares_false() {
    let q = b(f64::NAN);
    assert!(nan(q));
    assert!(!nan(b(f64::INFINITY)));
    assert!(!less_than(q, b(1.0)));
    assert!(!less_than(b(1.0), q));
    assert!(!equal(q, q));
}
