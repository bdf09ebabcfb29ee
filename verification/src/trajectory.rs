//! Trajectory samples and angular aiming corrections.
//!
//! A trajectory point is one immutable sample of the flight path:
//! distance traveled (micro-yards), vertical drop and lateral windage
//! (micro-inches, negative drop is below the line of departure),
//! instantaneous speed (micro-ft/s), kinetic energy (micro-ft-lbs) and
//! elapsed time (micro-seconds). The integrator produces one per time
//! step. Angular corrections are derived views:
//! minutes of angle as `value / (distance * 1.047) * 100` and
//! milliradians as `value / (distance * 36) * 1000`.

use vstd::prelude::*;
use crate::arith::{iabs, in64, tmd, mul_div, lemma_tmd_mag, lemma_tmd_monotone};

verus! {

/// Smallest distance (micro-yards) the angular corrections accept:
/// they are undefined at zero range, and the fixed-point quotient
/// needs this floor.
pub const ADJUSTMENT_DISTANCE_MIN: i64 = 1000;

/// Largest distance (micro-yards) the angular corrections accept.
pub const ADJUSTMENT_DISTANCE_MAX: i64 = 1_000_000_000_000_000;

/// Largest drop or windage magnitude (micro-inches) the angular
/// corrections accept.
pub const ADJUSTMENT_VALUE_MAX: i64 = 10_000_000_000_000;

/// Minutes of angle for a drop or windage `value` at `distance`:
/// `value / (distance * 1.047) * 100`, in micro-MOA.
pub open spec fn spec_moa(value: int, distance: int) -> int {
    tmd(value, 100_000_000, tmd(distance, 1047, 1000))
}

/// Milliradians for a drop or windage `value` at `distance`:
/// `value / (distance * 36) * 1000`, in micro-mils.
pub open spec fn spec_mil(value: int, distance: int) -> int {
    tmd(value, 1_000_000_000, distance * 36)
}

/// One sample of the flight path, in micro-units.
#[derive(Debug, Clone, Copy, PartialEq, Eq, Structural)]
pub struct TrajectoryPoint {
    /// Distance traveled, micro-yards.
    pub distance: i64,
    /// Vertical drop, micro-inches; negative is below the bore line.
    pub drop: i64,
    /// Lateral windage, micro-inches.
    pub windage: i64,
    /// Instantaneous speed, micro-ft/s.
    pub velocity: i64,
    /// Kinetic energy, micro-ft-lbs.
    pub energy: i64,
    /// Elapsed time, micro-seconds.
    pub time: i64,
}

impl TrajectoryPoint {
    /// Plain constructor: records the six sample values.
    pub fn new(distance: i64, drop: i64, windage: i64, velocity: i64, energy: i64, time: i64) -> (r:
        TrajectoryPoint)
        ensures
            r == (TrajectoryPoint { distance, drop, windage, velocity, energy, time }),
    {
        TrajectoryPoint { distance, drop, windage, velocity, energy, time }
    }

    /// The admissible band for the angular corrections: a positive,
    /// bounded distance and bounded drop and windage. These are machine
    /// limits of the fixed-point quotient — the corrections are
    /// undefined at zero distance.
    pub open spec fn adjustable(self) -> bool {
        &&& ADJUSTMENT_DISTANCE_MIN <= self.distance <= ADJUSTMENT_DISTANCE_MAX
        &&& iabs(self.drop as int) <= ADJUSTMENT_VALUE_MAX as int
        &&& iabs(self.windage as int) <= ADJUSTMENT_VALUE_MAX as int
    }

    /// Aiming correction in minutes of angle: `(drop_moa, windage_moa)`.
    pub fn moa_adjustment(&self) -> (r: (i64, i64))
        requires
            self.adjustable(),
        ensures
            r.0 as int == spec_moa(self.drop as int, self.distance as int),
            r.1 as int == spec_moa(self.windage as int, self.distance as int),
    {
        proof {
            lemma_tmd_mag(self.distance as int, 1047, 1000, ADJUSTMENT_DISTANCE_MAX as int, 1047);
            lemma_tmd_monotone(1000, self.distance as int, 1047, 1000);
            assert(tmd(1000, 1047, 1000) == 1047);
        }
        let d1: i64 = mul_div(self.distance, 1047, 1000);
        proof {
            lemma_adjust_quotient_fits(self.drop as int, d1 as int);
            lemma_adjust_quotient_fits(self.windage as int, d1 as int);
        }
        let drop_moa: i64 = mul_div(self.drop, 100_000_000, d1);
        let windage_moa: i64 = mul_div(self.windage, 100_000_000, d1);
        (drop_moa, windage_moa)
    }

    /// Aiming correction in milliradians: `(drop_mil, windage_mil)`.
    pub fn mil_adjustment(&self) -> (r: (i64, i64))
        requires
            self.adjustable(),
        ensures
            r.0 as int == spec_mil(self.drop as int, self.distance as int),
            r.1 as int == spec_mil(self.windage as int, self.distance as int),
    {
        let d36: i64 = self.distance * 36;
        proof {
            lemma_mil_quotient_fits(self.drop as int, d36 as int);
            lemma_mil_quotient_fits(self.windage as int, d36 as int);
        }
        let drop_mil: i64 = mul_div(self.drop, 1_000_000_000, d36);
        let windage_mil: i64 = mul_div(self.windage, 1_000_000_000, d36);
        (drop_mil, windage_mil)
    }
}

/// The MOA quotient fits the representable range for admissible inputs.
proof fn lemma_adjust_quotient_fits(value: int, d1: int)
    requires
        iabs(value) <= ADJUSTMENT_VALUE_MAX as int,
        d1 >= 1047,
    ensures
        in64(tmd(value, 100_000_000, d1)),
{
    lemma_tmd_mag(value, 100_000_000, d1, ADJUSTMENT_VALUE_MAX as int, 100_000_000);
    vstd::arithmetic::div_mod::lemma_div_is_ordered_by_denominator(
        1_000_000_000_000_000_000_000,
        1047,
        d1,
    );
    vstd::arithmetic::div_mod::lemma_fundamental_div_mod_converse(
        1_000_000_000_000_000_000_000,
        1047,
        955_109_837_631_327_602,
        706,
    );
}

/// The milliradian quotient fits the representable range for
/// admissible inputs.
proof fn lemma_mil_quotient_fits(value: int, d36: int)
    requires
        iabs(value) <= ADJUSTMENT_VALUE_MAX as int,
        d36 >= 36000,
    ensures
        in64(tmd(value, 1_000_000_000, d36)),
{
    lemma_tmd_mag(value, 1_000_000_000, d36, ADJUSTMENT_VALUE_MAX as int, 1_000_000_000);
    vstd::arithmetic::div_mod::lemma_div_is_ordered_by_denominator(
        10_000_000_000_000_000_000_000,
        36000,
        d36,
    );
    vstd::arithmetic::div_mod::lemma_fundamental_div_mod_converse(
        10_000_000_000_000_000_000_000,
        36000,
        277_777_777_777_777_777,
        28000,
    );
}

} // verus!
