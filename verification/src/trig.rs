//! Sine and cosine for wind-angle resolution.
//!
//! Angles arrive in micro-degrees within [0°, 360°]. The half-turn sine
//! uses Bhaskara's rational approximation
//! `sin x° ~= 4x(180 - x) / (40500 - x(180 - x))`, evaluated in
//! fixed point over milli-degrees; its worst error is below 0.002 and it
//! is exact at 0°, 90° and 180°, so a crosswind at a right angle and a
//! calm wind resolve without error. The second half-turn is the negated
//! first; cosine is the sine a quarter turn ahead.

use vstd::prelude::*;
use crate::arith::{iabs, in64, tmd, mul_div, lemma_tmd_mag};

verus! {

/// Bhaskara's sine over milli-degrees `x` in [0, 180000], in micro-units.
pub open spec fn spec_sin_half(x: int) -> int {
    let p = x * (180000 - x);
    tmd(4_000_000, p, 40_500_000_000 - p)
}

/// Sine of an angle in micro-degrees within [0, 360000000], in micro-units.
pub open spec fn spec_sin_deg(a: int) -> int {
    let x = a / 1000;
    if x <= 180000 {
        spec_sin_half(x)
    } else {
        -spec_sin_half(x - 180000)
    }
}

/// Cosine of an angle in micro-degrees within [0, 360000000], in micro-units.
pub open spec fn spec_cos_deg(a: int) -> int {
    if a + 90_000_000 <= 360_000_000 {
        spec_sin_deg(a + 90_000_000)
    } else {
        spec_sin_deg(a - 270_000_000)
    }
}

/// The half-turn sine stays within one unit of magnitude.
proof fn lemma_sin_half_bounded(x: int)
    requires
        0 <= x <= 180000,
    ensures
        iabs(spec_sin_half(x)) <= 1_000_000,
        in64(spec_sin_half(x)),
{
    let p = x * (180000 - x);
    assert(0 <= p <= 8_100_000_000) by (nonlinear_arith)
        requires
            0 <= x <= 180000,
            p == x * (180000 - x),
    ;
    lemma_tmd_mag(4_000_000, p, 40_500_000_000 - p, 4_000_000, 8_100_000_000);
    vstd::arithmetic::div_mod::lemma_div_is_ordered_by_denominator(
        32_400_000_000_000_000,
        32_400_000_000,
        iabs(40_500_000_000 - p),
    );
}

/// Bhaskara's half-turn sine, executable form.
fn sin_half(x: i64) -> (r: i64)
    requires
        0 <= x <= 180000,
    ensures
        r as int == spec_sin_half(x as int),
        iabs(r as int) <= 1_000_000,
{
    proof {
        lemma_sin_half_bounded(x as int);
        assert(0 <= (x as int) * (180000 - x as int) <= 8_100_000_000) by (nonlinear_arith)
            requires
                0 <= x as int <= 180000,
        ;
    }
    let p: i64 = x * (180000 - x);
    mul_div(4_000_000, p, 40_500_000_000 - p)
}

/// Sine of an angle given in micro-degrees, result in micro-units.
pub fn sin_deg(angle: i64) -> (r: i64)
    requires
        0 <= angle <= 360_000_000,
    ensures
        r as int == spec_sin_deg(angle as int),
        iabs(r as int) <= 1_000_000,
{
    let x: i64 = ((angle as u64) / 1000) as i64;
    proof {
        assert(x as int == (angle as int) / 1000);
        vstd::arithmetic::div_mod::lemma_div_is_ordered(angle as int, 360_000_000, 1000);
        vstd::arithmetic::div_mod::lemma_div_pos_is_pos(angle as int, 1000);
    }
    if x <= 180000 {
        sin_half(x)
    } else {
        -sin_half(x - 180000)
    }
}

/// Cosine of an angle given in micro-degrees, result in micro-units.
pub fn cos_deg(angle: i64) -> (r: i64)
    requires
        0 <= angle <= 360_000_000,
    ensures
        r as int == spec_cos_deg(angle as int),
        iabs(r as int) <= 1_000_000,
{
    if angle + 90_000_000 <= 360_000_000 {
        sin_deg(angle + 90_000_000)
    } else {
        sin_deg(angle - 270_000_000)
    }
}

} // verus!
