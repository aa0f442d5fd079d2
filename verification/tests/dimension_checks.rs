//! Checks of the SI dimensional exponent algebra.

use thermo_core::units::Dimension;

#[test]
fn new_stores_the_exponents() {
    let d = Dimension::new(1, -2, 3, 0, 4, 0, -1);
    assert_eq!(d.basis, [1, -2, 3, 0, 4, 0, -1]);
}

#[test]
fn dimensionless_is_the_zero_vector() {
    let d = Dimension::dimensionless();
    assert_eq!(d.basis, [0; 7]);
    assert!(d.is_dimensionless());
    assert!(!Dimension::new(0, 0, 1, 0, 0, 0, 0).is_dimensionless());
}

#[test]
fn product_adds_exponents() {
    // Electrical conductance times temperature, as the figure-of-merit
    // formula multiplies them.
    let a = Dimension::new(-3, -1, 3, 2, 0, 0, 0);
    let b = Dimension::new(0, 0, 0, 0, 1, 0, 0);
    let c = a.mul(&b);
    assert_eq!(c.basis, [-3, -1, 3, 2, 1, 0, 0]);
}

#[test]
fn quotient_subtracts_exponents() {
    let a = Dimension::new(1, 1, -3, 0, -1, 0, 0);
    let b = Dimension::new(1, 0, 0, 0, 0, 0, 0);
    let c = a.div(&b);
    assert_eq!(c.basis, [0, 1, -3, 0, -1, 0, 0]);
}

#[test]
fn multiplying_then_dividing_recovers_the_dimension() {
    let a = Dimension::new(2, 0, -1, 1, 0, 0, 0);
    let b = Dimension::new(-1, 1, 0, 0, 2, 0, 1);
    assert_eq!(a.mul(&b).div(&b), a);
}

#[test]
fn integer_power_scales_exponents() {
    let v_per_k = Dimension::new(2, 1, -3, -1, -1, 0, 0);
    let squared = v_per_k.powi(2);
    assert_eq!(squared.basis, [4, 2, -6, -2, -2, 0, 0]);
    assert_eq!(v_per_k.powi(0), Dimension::dimensionless());
    assert_eq!(v_per_k.powi(1), v_per_k);
}
