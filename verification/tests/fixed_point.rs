//! The fixed-point primitives: truncation toward zero, the checked
//! forms, the integer square root, and the wind-angle trigonometry.

use ballistic_calculator::arith::{mul_div, mul_div_checked, add_checked, sub_checked, isqrt};
use ballistic_calculator::trig::{sin_deg, cos_deg};

#[test]
fn mul_div_truncates_toward_zero() {
    assert_eq!(mul_div(7, 1, 2), 3);
    assert_eq!(mul_div(-7, 1, 2), -3);
    assert_eq!(mul_div(7, -1, 2), -3);
    assert_eq!(mul_div(-7, -1, 2), 3);
    assert_eq!(mul_div(7, 1, -2), -3);
    assert_eq!(mul_div(1_000_000, 1_000_000, 1_000_000), 1_000_000);
}

#[test]
fn checked_forms_report_overflow() {
    assert_eq!(mul_div_checked(i64::MAX, 2, 1), None);
    assert_eq!(mul_div_checked(i64::MAX, 1, 1), Some(i64::MAX));
    assert_eq!(add_checked(i64::MAX, 1), None);
    assert_eq!(add_checked(2, 3), Some(5));
    assert_eq!(sub_checked(-5, 7), Some(-12));
    assert_eq!(sub_checked(i64::MIN + 1, 1), None);
}

#[test]
fn integer_square_root() {
    assert_eq!(isqrt(0), 0);
    assert_eq!(isqrt(1), 1);
    assert_eq!(isqrt(10), 3);
    assert_eq!(isqrt(144), 12);
    assert_eq!(isqrt(7_562_500_000_000_000_000), 2_750_000_000);
    assert_eq!(isqrt(u128::MAX), u64::MAX);
}

#[test]
fn sine_exact_points() {
    assert_eq!(sin_deg(0), 0);
    assert_eq!(sin_deg(30_000_000), 500_000);
    assert_eq!(sin_deg(90_000_000), 1_000_000);
    assert_eq!(sin_deg(180_000_000), 0);
    assert_eq!(sin_deg(270_000_000), -1_000_000);
    assert_eq!(sin_deg(360_000_000), 0);
    assert_eq!(sin_deg(45_000_000), 705_882);
}

#[test]
fn cosine_exact_points() {
    assert_eq!(cos_deg(0), 1_000_000);
    assert_eq!(cos_deg(90_000_000), 0);
    assert_eq!(cos_deg(180_000_000), -1_000_000);
    assert_eq!(cos_deg(270_000_000), 0);
    assert_eq!(cos_deg(360_000_000), 1_000_000);
    assert_eq!(cos_deg(60_000_000), 500_000);
}
