//! Construction and validation of dimensions and stacks.

use tol_stack::{Dimension, Float, Hole, Linear, Pin, PushDim, StackError, TolStack};

fn bits(x: f64) -> u64 {
    x.to_bits()
}

#[test]
fn linear_new_accepts_valid_parameters() {
    let l = Linear::new(bits(5.58), bits(0.03), bits(0.03), bits(3.0)).unwrap();
    assert_eq!(l.dim, bits(5.58));
    assert_eq!(l.plus, bits(0.03));
    assert_eq!(l.minus, bits(0.03));
    assert_eq!(l.sigma, bits(3.0));
}

#[test]
fn linear_new_rejects_zero_sigma() {
    let r = Linear::new(bits(5.58), bits(0.03), bits(0.03), bits(0.0));
    assert_eq!(r.unwrap_err(), StackError::InvalidParameter);
}

#[test]
fn linear_new_rejects_negative_sigma() {
    let r = Linear::new(bits(1.0), bits(0.1), bits(0.1), bits(-3.0));
    assert_eq!(r.unwrap_err(), StackError::InvalidParameter);
}

#[test]
fn linear_new_rejects_nan_sigma() {
    let r = Linear::new(bits(1.0), bits(0.1), bits(0.1), bits(f64::NAN));
    assert_eq!(r.unwrap_err(), StackError::InvalidParameter);
}

#[test]
fn linear_new_rejects_negative_zero_sigma() {
    let r = Linear::new(bits(1.0), bits(0.1), bits(0.1), bits(-0.0));
    assert_eq!(r.unwrap_err(), StackError::InvalidParameter);
}

#[test]
fn linear_new_rejects_negative_tolerances() {
    let p = Linear::new(bits(1.0), bits(-0.1), bits(0.1), bits(3.0));
    assert_eq!(p.unwrap_err(), StackError::InvalidParameter);
    let m = Linear::new(bits(1.0), bits(0.1), bits(-0.1), bits(3.0));
    assert_eq!(m.unwrap_err(), StackError::InvalidParameter);
}

#[test]
fn linear_new_accepts_zero_tolerances() {
    let l = Linear::new(bits(1.0), bits(0.0), bits(0.0), bits(3.0)).unwrap();
    assert_eq!(l.plus, bits(0.0));
    let nz = Linear::new(bits(1.0), bits(-0.0), bits(0.0), bits(3.0)).unwrap();
    assert_eq!(nz.plus, bits(-0.0));
}

#[test]
fn hole_and_pin_validate_like_linear() {
    let h = Hole::new(bits(2.18), bits(0.03), bits(0.03), bits(3.0)).unwrap();
    assert_eq!(h.inner.dim, bits(2.18));
    let bad_hole = Hole::new(bits(2.18), bits(0.03), bits(0.03), bits(0.0));
    assert_eq!(bad_hole.unwrap_err(), StackError::InvalidParameter);
    let p = Pin::new(bits(2.13), bits(0.05), bits(0.05), bits(3.0)).unwrap();
    assert_eq!(p.inner.dim, bits(2.13));
    let bad_pin = Pin::new(bits(2.13), bits(-0.05), bits(0.05), bits(3.0));
    assert_eq!(bad_pin.unwrap_err(), StackError::InvalidParameter);
}

#[test]
fn float_new_keeps_both_sides() {
    let h = Hole::new(bits(1.2), bits(0.03), bits(0.03), bits(3.0)).unwrap();
    let p = Pin::new(bits(1.0), bits(0.0), bits(0.0), bits(3.0)).unwrap();
    let f = Float::new(h, p);
    assert_eq!(f.hole.dim, bits(1.2));
    assert_eq!(f.pin.dim, bits(1.0));
}

#[test]
fn with_dim_appends_in_order() {
    let l1 = Linear::new(bits(5.58), bits(0.03), bits(0.03), bits(3.0)).unwrap();
    let l2 = Linear::new(bits(-25.78), bits(0.07), bits(0.07), bits(3.0)).unwrap();
    let h = Hole::new(bits(2.18), bits(0.03), bits(0.03), bits(3.0)).unwrap();
    let p = Pin::new(bits(2.13), bits(0.05), bits(0.05), bits(3.0)).unwrap();
    let f = Float::new(h, p);
    let stack = TolStack::new(bits(4.0)).with_dim(l1).with_dim(f).with_dim(l2);
    assert_eq!(stack.assy_sigma, bits(4.0));
    assert_eq!(stack.dimensions.len(), 3);
    match &stack.dimensions[0] {
        Dimension::Linear { inner } => assert_eq!(inner.dim, bits(5.58)),
        Dimension::Float { .. } => panic!("first dimension should be linear"),
    }
    match &stack.dimensions[1] {
        Dimension::Float { inner } => assert_eq!(inner.hole.dim, bits(2.18)),
        Dimension::Linear { .. } => panic!("second dimension should be a float pair"),
    }
    match &stack.dimensions[2] {
        Dimension::Linear { inner } => assert_eq!(inner.dim, bits(-25.78)),
        Dimension::Float { .. } => panic!("third dimension should be linear"),
    }
}

#[test]
fn linear_lengths_skips_float_pairs() {
    let l1 = Linear::new(bits(5.58), bits(0.03), bits(0.03), bits(3.0)).unwrap();
    let l2 = Linear::new(bits(14.58), bits(0.05), bits(0.05), bits(3.0)).unwrap();
    let h = Hole::new(bits(2.18), bits(0.03), bits(0.03), bits(3.0)).unwrap();
    let p = Pin::new(bits(2.13), bits(0.05), bits(0.05), bits(3.0)).unwrap();
    let f = Float::new(h, p);
    let stack = TolStack::new(bits(3.0)).with_dim(l1).with_dim(f).with_dim(l2);
    let lengths = stack.linear_lengths();
    assert_eq!(lengths, vec![bits(5.58), bits(14.58)]);
}

#[test]
fn empty_stack_has_no_lengths() {
    let stack = TolStack::new(bits(3.0));
    assert_eq!(stack.dimensions.len(), 0);
    assert_eq!(stack.linear_lengths(), Vec::<u64>::new());
}

#[test]
fn infinite_and_subnormal_sigma_compare_greater_than_zero() {
    let inf = Linear::new(bits(1.0), bits(0.1), bits(0.1), bits(f64::INFINITY));
    assert!(inf.is_ok());
    let sub = Linear::new(bits(1.0), bits(0.1), bits(0.1), bits(5e-324));
    assert!(sub.is_ok());
    let neg_inf = Linear::new(bits(1.0), bits(0.1), bits(0.1), bits(f64::NEG_INFINITY));
    assert_eq!(neg_inf.unwrap_err(), StackError::InvalidParameter);
}

#[test]
fn nan_tolerance_is_not_less_than_zero() {
    // A comparison with a NaN is false, so a NaN magnitude does not trip
    // the less-than-zero rejection; only the sigma ratio insists on a
    // positive comparison.
    let r = Linear::new(bits(1.0), bits(f64::NAN), bits(0.1), bits(3.0));
    assert!(r.is_ok());
}
