//! The projectile: an immutable physical description of the fired object.
//!
//! All five fields are micro-unit fixed point (micro-grains,
//! micro-units of ballistic coefficient, micro-ft/s, micro-inches).
//! A validating factory is the only intended way to obtain one: every
//! field must be strictly positive, and bounded so that the fixed-point
//! engine stays representable.

use vstd::prelude::*;
use crate::arith::tmd;
use crate::conversions;

verus! {

/// Largest value any projectile field may take: one million units
/// (10^6 grains, ft/s, inches, ...), in micro-units.
pub const PROJECTILE_FIELD_MAX: i64 = 1_000_000_000_000;

/// Failure of the projectile factory.
#[derive(Debug, Clone, Copy, PartialEq, Eq, Structural)]
pub enum ProjectileError {
    /// Some field was zero or negative.
    InvalidParameters,
}

impl ProjectileError {
    /// A user-facing description of the failure.
    pub fn message(&self) -> &'static str {
        "Invalid parameters provided"
    }
}

/// An immutable projectile description, in micro-units.
#[derive(Debug, Clone, Copy, PartialEq, Eq, Structural)]
pub struct Projectile {
    /// Mass, micro-grains.
    pub weight_grains: i64,
    /// Ballistic coefficient, micro-units (dimensionless).
    pub ballistic_coefficient: i64,
    /// Muzzle velocity, micro-ft/s.
    pub muzzle_velocity: i64,
    /// Caliber, micro-inches.
    pub caliber: i64,
    /// Length, micro-inches.
    pub length: i64,
}

impl Projectile {
    /// Well-formedness: every field strictly positive and within the
    /// representable band.
    pub open spec fn wf(self) -> bool {
        &&& 0 < self.weight_grains <= PROJECTILE_FIELD_MAX
        &&& 0 < self.ballistic_coefficient <= PROJECTILE_FIELD_MAX
        &&& 0 < self.muzzle_velocity <= PROJECTILE_FIELD_MAX
        &&& 0 < self.caliber <= PROJECTILE_FIELD_MAX
        &&& 0 < self.length <= PROJECTILE_FIELD_MAX
    }

    /// Validating factory. Fails with `InvalidParameters` exactly when
    /// some input is zero or negative; otherwise returns the projectile
    /// with the given fields.
    ///
    /// The upper bounds are a machine limit of the fixed-point
    /// representation, not a validation rule.
    pub fn new(weight_grains: i64, bc: i64, mv: i64, caliber: i64, length: i64) -> (r: Result<
        Projectile,
        ProjectileError,
    >)
        requires
            weight_grains <= PROJECTILE_FIELD_MAX,
            bc <= PROJECTILE_FIELD_MAX,
            mv <= PROJECTILE_FIELD_MAX,
            caliber <= PROJECTILE_FIELD_MAX,
            length <= PROJECTILE_FIELD_MAX,
        ensures
            r is Ok <==> (weight_grains > 0 && bc > 0 && mv > 0 && caliber > 0 && length > 0),
            r matches Ok(p) ==> p == (Projectile {
                weight_grains,
                ballistic_coefficient: bc,
                muzzle_velocity: mv,
                caliber,
                length,
            }),
            r matches Ok(p) ==> p.wf(),
            r is Err ==> r == Result::<Projectile, ProjectileError>::Err(
                ProjectileError::InvalidParameters,
            ),
    {
        if weight_grains <= 0 || bc <= 0 || mv <= 0 || caliber <= 0 || length <= 0 {
            return Err(ProjectileError::InvalidParameters);
        }
        Ok(
            Projectile {
                weight_grains,
                ballistic_coefficient: bc,
                muzzle_velocity: mv,
                caliber,
                length,
            },
        )
    }

    /// The projectile's mass in micro-kilograms.
    pub fn weight_kg(&self) -> (r: i64)
        ensures
            r as int == conversions::spec_grains_to_kg(self.weight_grains as int),
    {
        conversions::grains_to_kg(self.weight_grains)
    }

    /// Sectional density `weight / (7000 * caliber^2)`, in micro-units
    /// (weight in grains, caliber in inches).
    ///
    /// The caliber floor is a machine limit: below a thousandth of an
    /// inch the quotient would leave the representable range.
    pub fn sectional_density(&self) -> (r: i64)
        requires
            self.wf(),
            self.caliber >= 1000,
        ensures
            r as int == tmd(
                self.weight_grains as int,
                1_000_000_000_000,
                7000 * (self.caliber as int) * (self.caliber as int),
            ),
    {
        proof {
            let c = self.caliber as int;
            let w = self.weight_grains as int;
            assert(7_000_000_000 <= 7000 * c * c <= 7_000_000_000_000_000_000_000_000_000)
                by (nonlinear_arith)
                requires
                    1000 <= c <= 1_000_000_000_000,
            ;
            assert(0 <= w * 1_000_000_000_000 <= 1_000_000_000_000_000_000_000_000)
                by (nonlinear_arith)
                requires
                    0 < w <= 1_000_000_000_000,
            ;
        }
        let denom: u128 = 7000u128 * (self.caliber as u128) * (self.caliber as u128);
        let sd: u128 = (self.weight_grains as u128) * 1_000_000_000_000 / denom;
        proof {
            let c = self.caliber as int;
            let w = self.weight_grains as int;
            let den = 7000 * c * c;
            assert(denom == den);
            assert(sd as int == (w * 1_000_000_000_000) / den);
            vstd::arithmetic::div_mod::lemma_div_is_ordered(
                w * 1_000_000_000_000,
                1_000_000_000_000_000_000_000_000,
                den,
            );
            vstd::arithmetic::div_mod::lemma_div_is_ordered_by_denominator(
                1_000_000_000_000_000_000_000_000,
                7_000_000_000,
                den,
            );
            vstd::arithmetic::div_mod::lemma_div_pos_is_pos(w * 1_000_000_000_000, den);
            crate::arith::lemma_iabs_mul(w, 1_000_000_000_000);
            assert(tmd(w, 1_000_000_000_000, den) == (w * 1_000_000_000_000) / den);
        }
        sd as i64
    }

    /// Muzzle velocity converted to micro-m/s.
    pub fn initial_velocity_mps(&self) -> (r: i64)
        ensures
            r as int == conversions::spec_fps_to_mps(self.muzzle_velocity as int),
    {
        conversions::fps_to_mps(self.muzzle_velocity)
    }
}

} // verus!
