//! Unit conversions.
//!
//! Pure linear scalings between imperial and metric units, over micro-unit
//! fixed-point values, using the exact published scale factors:
//! 1 gr = 0.0000647989 kg, 1 ft = 0.3048 m, 1 in = 0.0254 m,
//! 1 yd = 0.9144 m. Each conversion is a single truncating
//! multiply-divide, so a round trip loses at most a few micro-units;
//! the round-trip lemmas at the end bound that loss exactly.

use vstd::prelude::*;
use crate::arith::{iabs, tmd, mul_div, lemma_tmd_mag};

verus! {

/// Largest metre magnitude `meters_to_yards` accepts (the result grows
/// by 10000/9144 and must stay in the symmetric `i64` range).
pub const METERS_TO_YARDS_MAX: i64 = 8_400_000_000_000_000_000;

/// Largest metre magnitude `meters_to_inches` accepts.
pub const METERS_TO_INCHES_MAX: i64 = 230_000_000_000_000_000;

/// Largest m/s magnitude `mps_to_fps` accepts.
pub const MPS_TO_FPS_MAX: i64 = 2_800_000_000_000_000_000;

pub open spec fn spec_grains_to_kg(x: int) -> int {
    tmd(x, 647989, 10_000_000_000)
}

pub open spec fn spec_fps_to_mps(x: int) -> int {
    tmd(x, 3048, 10000)
}

pub open spec fn spec_mps_to_fps(x: int) -> int {
    tmd(x, 10000, 3048)
}

pub open spec fn spec_inches_to_meters(x: int) -> int {
    tmd(x, 254, 10000)
}

pub open spec fn spec_meters_to_inches(x: int) -> int {
    tmd(x, 10000, 254)
}

pub open spec fn spec_yards_to_meters(x: int) -> int {
    tmd(x, 9144, 10000)
}

pub open spec fn spec_meters_to_yards(x: int) -> int {
    tmd(x, 10000, 9144)
}

/// Micro-grains to micro-kilograms: 1 gr = 0.0000647989 kg.
pub fn grains_to_kg(grains: i64) -> (r: i64)
    ensures
        r as int == spec_grains_to_kg(grains as int),
{
    proof {
        lemma_tmd_mag(grains as int, 647989, 10_000_000_000, 0x8000_0000_0000_0000, 647989);
    }
    mul_div(grains, 647989, 10_000_000_000)
}

/// Micro-ft/s to micro-m/s: 1 ft = 0.3048 m.
pub fn fps_to_mps(fps: i64) -> (r: i64)
    ensures
        r as int == spec_fps_to_mps(fps as int),
{
    proof {
        lemma_tmd_mag(fps as int, 3048, 10000, 0x8000_0000_0000_0000, 3048);
    }
    mul_div(fps, 3048, 10000)
}

/// Micro-m/s to micro-ft/s, the inverse scaling of `fps_to_mps`.
pub fn mps_to_fps(mps: i64) -> (r: i64)
    requires
        iabs(mps as int) <= MPS_TO_FPS_MAX as int,
    ensures
        r as int == spec_mps_to_fps(mps as int),
{
    proof {
        lemma_tmd_mag(mps as int, 10000, 3048, MPS_TO_FPS_MAX as int, 10000);
    }
    mul_div(mps, 10000, 3048)
}

/// Micro-inches to micro-metres: 1 in = 0.0254 m.
pub fn inches_to_meters(inches: i64) -> (r: i64)
    ensures
        r as int == spec_inches_to_meters(inches as int),
{
    proof {
        lemma_tmd_mag(inches as int, 254, 10000, 0x8000_0000_0000_0000, 254);
    }
    mul_div(inches, 254, 10000)
}

/// Micro-metres to micro-inches, the inverse scaling of `inches_to_meters`.
pub fn meters_to_inches(meters: i64) -> (r: i64)
    requires
        iabs(meters as int) <= METERS_TO_INCHES_MAX as int,
    ensures
        r as int == spec_meters_to_inches(meters as int),
{
    proof {
        lemma_tmd_mag(meters as int, 10000, 254, METERS_TO_INCHES_MAX as int, 10000);
    }
    mul_div(meters, 10000, 254)
}

/// Micro-yards to micro-metres: 1 yd = 0.9144 m.
pub fn yards_to_meters(yards: i64) -> (r: i64)
    ensures
        r as int == spec_yards_to_meters(yards as int),
{
    proof {
        lemma_tmd_mag(yards as int, 9144, 10000, 0x8000_0000_0000_0000, 9144);
    }
    mul_div(yards, 9144, 10000)
}

/// Micro-metres to micro-yards, the inverse scaling of `yards_to_meters`.
pub fn meters_to_yards(meters: i64) -> (r: i64)
    requires
        iabs(meters as int) <= METERS_TO_YARDS_MAX as int,
    ensures
        r as int == spec_meters_to_yards(meters as int),
{
    proof {
        lemma_tmd_mag(meters as int, 10000, 9144, METERS_TO_YARDS_MAX as int, 10000);
    }
    mul_div(meters, 10000, 9144)
}

/// Law: converting yards to metres and back returns the starting value
/// up to truncation — the result differs from `x` by at most two
/// micro-yards, and never exceeds it.
pub proof fn lemma_yards_meters_roundtrip(x: int)
    requires
        0 <= x,
    ensures
        x - 2 <= spec_meters_to_yards(spec_yards_to_meters(x)) <= x,
{
    let m = spec_yards_to_meters(x);
    vstd::arithmetic::div_mod::lemma_div_pos_is_pos(9144 * x, 10000);
    assert(m == (x * 9144) / 10000);
    let rem1 = (x * 9144) % 10000;
    vstd::arithmetic::div_mod::lemma_fundamental_div_mod(x * 9144, 10000);
    vstd::arithmetic::div_mod::lemma_mod_bound(x * 9144, 10000);
    let r = spec_meters_to_yards(m);
    vstd::arithmetic::div_mod::lemma_div_pos_is_pos(m * 10000, 9144);
    assert(r == (m * 10000) / 9144);
    let rem2 = (m * 10000) % 9144;
    vstd::arithmetic::div_mod::lemma_fundamental_div_mod(m * 10000, 9144);
    vstd::arithmetic::div_mod::lemma_mod_bound(m * 10000, 9144);
    assert(9144 * (x - r) == rem1 + rem2) by (nonlinear_arith)
        requires
            x * 9144 == 10000 * m + rem1,
            m * 10000 == 9144 * r + rem2,
    ;
    assert(0 <= rem1 + rem2 < 19144);
}

/// Law: converting ft/s to m/s and back returns the starting value up
/// to truncation — the result differs from `x` by at most four
/// micro-ft/s, and never exceeds it.
pub proof fn lemma_fps_mps_roundtrip(x: int)
    requires
        0 <= x,
    ensures
        x - 4 <= spec_mps_to_fps(spec_fps_to_mps(x)) <= x,
{
    let m = spec_fps_to_mps(x);
    vstd::arithmetic::div_mod::lemma_div_pos_is_pos(3048 * x, 10000);
    assert(m == (x * 3048) / 10000);
    let rem1 = (x * 3048) % 10000;
    vstd::arithmetic::div_mod::lemma_fundamental_div_mod(x * 3048, 10000);
    vstd::arithmetic::div_mod::lemma_mod_bound(x * 3048, 10000);
    let r = spec_mps_to_fps(m);
    vstd::arithmetic::div_mod::lemma_div_pos_is_pos(m * 10000, 3048);
    assert(r == (m * 10000) / 3048);
    let rem2 = (m * 10000) % 3048;
    vstd::arithmetic::div_mod::lemma_fundamental_div_mod(m * 10000, 3048);
    vstd::arithmetic::div_mod::lemma_mod_bound(m * 10000, 3048);
    assert(3048 * (x - r) == rem1 + rem2) by (nonlinear_arith)
        requires
            x * 3048 == 10000 * m + rem1,
            m * 10000 == 3048 * r + rem2,
    ;
    assert(0 <= rem1 + rem2 < 13048);
}

} // verus!
