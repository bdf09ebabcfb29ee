//! Drag models.
//!
//! Two standardized drag-coefficient families, G1 (flat-base, high drag)
//! and G7 (boat-tail, streamlined), behind one strategy trait. Each maps
//! a Mach number to a drag coefficient by piecewise-linear interpolation
//! over six breakpoints, then turns speed, air density and ballistic
//! coefficient into a drag deceleration
//! `0.5 * density * speed^2 * cd * form_factor`, with
//! `form_factor = 1 / (0.0001 + bc)` guarding a degenerate zero
//! ballistic coefficient.
//!
//! All quantities are micro-unit fixed point; Mach numbers are in
//! micro-Machs (`1_000_000` is Mach 1).

use vstd::prelude::*;
use crate::arith::{iabs, in64, tdiv, tmd, mul_div, mul_div_checked, lemma_tmd_mag,
    lemma_tmd_nonneg, lemma_tmd_monotone, lemma_tmd_zero};

verus! {

/// Speed of sound at standard sea-level conditions, micro-ft/s.
pub const SPEED_OF_SOUND: i64 = 1_116_400_000;

/// Mach number (micro-Machs) of a speed in micro-ft/s: `v / 1116.4`.
pub open spec fn spec_mach(v: int) -> int {
    tmd(v, 10, 11164)
}

/// Form factor `1 / (0.0001 + bc)`, in micro-units.
pub open spec fn spec_form_factor(bc: int) -> int {
    tdiv(1_000_000_000_000, bc + 100)
}

/// The drag deceleration computed from an already-looked-up drag
/// coefficient: `0.5 * density * v^2 * cd * form_factor`.
pub open spec fn spec_drag_from_cd(v: int, density: int, bc: int, cd: int) -> int {
    let q1 = tmd(v, v, 1_000_000);
    let q2 = tmd(q1, density, 1_000_000);
    let q3 = tmd(q2, cd, 1_000_000);
    let q4 = tmd(q3, spec_form_factor(bc), 1_000_000);
    tdiv(q4, 2)
}

/// Every intermediate of the drag product chain stays representable.
pub open spec fn spec_drag_defined(v: int, density: int, bc: int, cd: int) -> bool {
    let q1 = tmd(v, v, 1_000_000);
    let q2 = tmd(q1, density, 1_000_000);
    let q3 = tmd(q2, cd, 1_000_000);
    let q4 = tmd(q3, spec_form_factor(bc), 1_000_000);
    in64(q1) && in64(q2) && in64(q3) && in64(q4)
}

/// A drag-coefficient strategy: one of the standardized reference
/// projectile families.
pub trait DragModel: Sized {
    /// The family's coefficient table, as a function of micro-Machs.
    spec fn spec_cd(mach: int) -> int;

    /// Looks up the drag coefficient for a Mach number.
    fn get_cd(&self, mach: i64) -> (r: i64)
        ensures
            r as int == Self::spec_cd(mach as int),
            0 <= r <= 500_000,
    ;

    /// Drag deceleration for a speed (micro-ft/s), air density and
    /// ballistic coefficient.
    ///
    /// The caller guarantees the fixed-point chain stays representable;
    /// `drag_from_cd_checked` is the self-guarding form.
    fn calculate_drag(&self, velocity: i64, air_density: i64, ballistic_coefficient: i64) -> (r:
        i64)
        requires
            0 <= ballistic_coefficient,
            spec_drag_defined(
                velocity as int,
                air_density as int,
                ballistic_coefficient as int,
                Self::spec_cd(spec_mach(velocity as int)),
            ),
        ensures
            r as int == spec_drag_from_cd(
                velocity as int,
                air_density as int,
                ballistic_coefficient as int,
                Self::spec_cd(spec_mach(velocity as int)),
            ),
    ;
}

/// The G1 reference family (flat-base bullets).
pub struct G1DragModel;

/// The G7 reference family (boat-tail bullets).
pub struct G7DragModel;

impl DragModel for G1DragModel {
    open spec fn spec_cd(mach: int) -> int {
        if mach <= 700_000 {
            225_000
        } else if mach <= 890_000 {
            225_000 + tmd(mach - 700_000, 5, 19)
        } else if mach <= 1_000_000 {
            275_000 + tmd(mach - 890_000, 15, 11)
        } else if mach <= 1_100_000 {
            425_000 - tmd(mach - 1_000_000, 13, 10)
        } else if mach <= 1_200_000 {
            295_000 - tmd(mach - 1_100_000, 3, 20)
        } else {
            280_000
        }
    }

    fn get_cd(&self, mach: i64) -> (r: i64) {
        if mach <= 700_000 {
            225_000
        } else if mach <= 890_000 {
            proof {
                lemma_tmd_mag(mach as int - 700_000, 5, 19, 190_000, 5);
                lemma_tmd_nonneg(mach as int - 700_000, 5, 19);
            }
            225_000 + mul_div(mach - 700_000, 5, 19)
        } else if mach <= 1_000_000 {
            proof {
                lemma_tmd_mag(mach as int - 890_000, 15, 11, 110_000, 15);
                lemma_tmd_nonneg(mach as int - 890_000, 15, 11);
            }
            275_000 + mul_div(mach - 890_000, 15, 11)
        } else if mach <= 1_100_000 {
            proof {
                lemma_tmd_mag(mach as int - 1_000_000, 13, 10, 100_000, 13);
                lemma_tmd_nonneg(mach as int - 1_000_000, 13, 10);
            }
            425_000 - mul_div(mach - 1_000_000, 13, 10)
        } else if mach <= 1_200_000 {
            proof {
                lemma_tmd_mag(mach as int - 1_100_000, 3, 20, 100_000, 3);
                lemma_tmd_nonneg(mach as int - 1_100_000, 3, 20);
            }
            295_000 - mul_div(mach - 1_100_000, 3, 20)
        } else {
            280_000
        }
    }

    fn calculate_drag(&self, velocity: i64, air_density: i64, ballistic_coefficient: i64) -> (r:
        i64) {
        proof {
            lemma_tmd_mag(velocity as int, 10, 11164, 0x8000_0000_0000_0000, 10);
        }
        let mach: i64 = mul_div(velocity, 10, 11164);
        let cd: i64 = self.get_cd(mach);
        match drag_from_cd_checked(velocity, air_density, ballistic_coefficient, cd) {
            Some(v) => v,
            None => {
                proof {
                    assert(false);
                }
                0
            },
        }
    }
}

impl DragModel for G7DragModel {
    open spec fn spec_cd(mach: int) -> int {
        if mach <= 700_000 {
            119_800
        } else if mach <= 890_000 {
            119_800 + tmd(mach - 700_000, 377, 1900)
        } else if mach <= 1_000_000 {
            157_500 + tmd(mach - 890_000, 34, 55)
        } else if mach <= 1_100_000 {
            225_500 - tmd(mach - 1_000_000, 3, 10)
        } else if mach <= 1_200_000 {
            195_500 - tmd(mach - 1_100_000, 3, 40)
        } else {
            188_000
        }
    }

    fn get_cd(&self, mach: i64) -> (r: i64) {
        if mach <= 700_000 {
            119_800
        } else if mach <= 890_000 {
            proof {
                lemma_tmd_mag(mach as int - 700_000, 377, 1900, 190_000, 377);
                lemma_tmd_nonneg(mach as int - 700_000, 377, 1900);
            }
            119_800 + mul_div(mach - 700_000, 377, 1900)
        } else if mach <= 1_000_000 {
            proof {
                lemma_tmd_mag(mach as int - 890_000, 34, 55, 110_000, 34);
                lemma_tmd_nonneg(mach as int - 890_000, 34, 55);
            }
            157_500 + mul_div(mach - 890_000, 34, 55)
        } else if mach <= 1_100_000 {
            proof {
                lemma_tmd_mag(mach as int - 1_000_000, 3, 10, 100_000, 3);
                lemma_tmd_nonneg(mach as int - 1_000_000, 3, 10);
            }
            225_500 - mul_div(mach - 1_000_000, 3, 10)
        } else if mach <= 1_200_000 {
            proof {
                lemma_tmd_mag(mach as int - 1_100_000, 3, 40, 100_000, 3);
                lemma_tmd_nonneg(mach as int - 1_100_000, 3, 40);
            }
            195_500 - mul_div(mach - 1_100_000, 3, 40)
        } else {
            188_000
        }
    }

    fn calculate_drag(&self, velocity: i64, air_density: i64, ballistic_coefficient: i64) -> (r:
        i64) {
        proof {
            lemma_tmd_mag(velocity as int, 10, 11164, 0x8000_0000_0000_0000, 10);
        }
        let mach: i64 = mul_div(velocity, 10, 11164);
        let cd: i64 = self.get_cd(mach);
        match drag_from_cd_checked(velocity, air_density, ballistic_coefficient, cd) {
            Some(v) => v,
            None => {
                proof {
                    assert(false);
                }
                0
            },
        }
    }
}

/// The shared drag product chain, self-guarding: `None` exactly when an
/// intermediate would leave the representable range.
pub fn drag_from_cd_checked(velocity: i64, air_density: i64, ballistic_coefficient: i64, cd: i64)
    -> (r: Option<i64>)
    requires
        0 <= ballistic_coefficient,
    ensures
        r is Some <==> spec_drag_defined(
            velocity as int,
            air_density as int,
            ballistic_coefficient as int,
            cd as int,
        ),
        r matches Some(v) ==> v as int == spec_drag_from_cd(
            velocity as int,
            air_density as int,
            ballistic_coefficient as int,
            cd as int,
        ),
{
    let ff: i64 = (1_000_000_000_000u64 / ((ballistic_coefficient as u64) + 100)) as i64;
    proof {
        vstd::arithmetic::div_mod::lemma_div_is_ordered_by_denominator(
            1_000_000_000_000,
            100,
            ballistic_coefficient as int + 100,
        );
        assert(ff as int == spec_form_factor(ballistic_coefficient as int));
    }
    let q1 = match mul_div_checked(velocity, velocity, 1_000_000) {
        Some(v) => v,
        None => {
            return None;
        },
    };
    let q2 = match mul_div_checked(q1, air_density, 1_000_000) {
        Some(v) => v,
        None => {
            return None;
        },
    };
    let q3 = match mul_div_checked(q2, cd, 1_000_000) {
        Some(v) => v,
        None => {
            return None;
        },
    };
    let q4 = match mul_div_checked(q3, ff, 1_000_000) {
        Some(v) => v,
        None => {
            return None;
        },
    };
    proof {
        crate::arith::lemma_tdiv_bound(q4 as int * 1, 2, iabs(q4 as int));
        assert(q4 as int * 1 == q4 as int);
    }
    Some(mul_div(q4, 1, 2))
}

/// Law: the G1 coefficient table is continuous at each interpolation
/// breakpoint — at every boundary Mach number the segments on both
/// sides give the same coefficient.
pub proof fn lemma_g1_cd_continuous()
    ensures
        G1DragModel::spec_cd(700_000) == 225_000,
        225_000 + tmd(0, 5, 19) == 225_000,
        G1DragModel::spec_cd(890_000) == 275_000,
        275_000 + tmd(0, 15, 11) == 275_000,
        G1DragModel::spec_cd(1_000_000) == 425_000,
        425_000 - tmd(0, 13, 10) == 425_000,
        G1DragModel::spec_cd(1_100_000) == 295_000,
        295_000 - tmd(0, 3, 20) == 295_000,
        G1DragModel::spec_cd(1_200_000) == 280_000,
{
    lemma_tmd_zero(5, 19);
    lemma_tmd_zero(15, 11);
    lemma_tmd_zero(13, 10);
    lemma_tmd_zero(3, 20);
    assert(tmd(190_000, 5, 19) == 50_000);
    assert(tmd(110_000, 15, 11) == 150_000);
    assert(tmd(100_000, 13, 10) == 130_000);
    assert(tmd(100_000, 3, 20) == 15_000);
}

/// Law: the G7 coefficient table is continuous at each interpolation
/// breakpoint.
pub proof fn lemma_g7_cd_continuous()
    ensures
        G7DragModel::spec_cd(700_000) == 119_800,
        119_800 + tmd(0, 377, 1900) == 119_800,
        G7DragModel::spec_cd(890_000) == 157_500,
        157_500 + tmd(0, 34, 55) == 157_500,
        G7DragModel::spec_cd(1_000_000) == 225_500,
        225_500 - tmd(0, 3, 10) == 225_500,
        G7DragModel::spec_cd(1_100_000) == 195_500,
        195_500 - tmd(0, 3, 40) == 195_500,
        G7DragModel::spec_cd(1_200_000) == 188_000,
{
    lemma_tmd_zero(377, 1900);
    lemma_tmd_zero(34, 55);
    lemma_tmd_zero(3, 10);
    lemma_tmd_zero(3, 40);
    assert(tmd(190_000, 377, 1900) == 37_700);
    assert(tmd(110_000, 34, 55) == 68_000);
    assert(tmd(100_000, 3, 10) == 30_000);
    assert(tmd(100_000, 3, 40) == 7_500);
}

/// Law: for a fixed speed, air density and drag coefficient, a larger
/// ballistic coefficient never increases the drag deceleration (the
/// form factor shrinks with the coefficient).
pub proof fn lemma_drag_antitone_in_bc(v: int, density: int, bc1: int, bc2: int, cd: int)
    requires
        0 <= v,
        0 <= density,
        0 <= cd,
        0 <= bc1 <= bc2,
    ensures
        spec_drag_from_cd(v, density, bc2, cd) <= spec_drag_from_cd(v, density, bc1, cd),
{
    let q1 = tmd(v, v, 1_000_000);
    let q2 = tmd(q1, density, 1_000_000);
    let q3 = tmd(q2, cd, 1_000_000);
    lemma_tmd_nonneg(v, v, 1_000_000);
    lemma_tmd_nonneg(q1, density, 1_000_000);
    lemma_tmd_nonneg(q2, cd, 1_000_000);
    let ff1 = spec_form_factor(bc1);
    let ff2 = spec_form_factor(bc2);
    vstd::arithmetic::div_mod::lemma_div_pos_is_pos(1_000_000_000_000, bc2 + 100);
    vstd::arithmetic::div_mod::lemma_div_is_ordered_by_denominator(
        1_000_000_000_000,
        bc1 + 100,
        bc2 + 100,
    );
    assert(0 <= ff2 <= ff1);
    assert(0 <= q3 * ff2 <= q3 * ff1) by (nonlinear_arith)
        requires
            0 <= q3,
            0 <= ff2 <= ff1,
    ;
    vstd::arithmetic::div_mod::lemma_div_is_ordered(q3 * ff2, q3 * ff1, 1_000_000);
    let q4a = tmd(q3, ff2, 1_000_000);
    let q4b = tmd(q3, ff1, 1_000_000);
    vstd::arithmetic::div_mod::lemma_div_pos_is_pos(q3 * ff2, 1_000_000);
    vstd::arithmetic::div_mod::lemma_div_is_ordered(q4a, q4b, 2);
}

/// Law: up to Mach 1 the G1 coefficient table is monotonically
/// non-decreasing.
pub proof fn lemma_g1_cd_monotone(m1: int, m2: int)
    requires
        m1 <= m2 <= 1_000_000,
    ensures
        G1DragModel::spec_cd(m1) <= G1DragModel::spec_cd(m2),
{
    if 700_000 < m1 && m1 <= 890_000 {
        lemma_tmd_nonneg(m1 - 700_000, 5, 19);
        lemma_tmd_mag(m1 - 700_000, 5, 19, 190_000, 5);
        assert(tmd(190_000, 5, 19) == 50_000);
    }
    if 890_000 < m1 {
        lemma_tmd_nonneg(m1 - 890_000, 15, 11);
    }
    if 700_000 < m2 && m2 <= 890_000 {
        lemma_tmd_nonneg(m2 - 700_000, 5, 19);
        if 700_000 < m1 {
            lemma_tmd_monotone(m1 - 700_000, m2 - 700_000, 5, 19);
        }
    }
    if 890_000 < m2 {
        lemma_tmd_nonneg(m2 - 890_000, 15, 11);
        if 700_000 < m1 && m1 <= 890_000 {
            lemma_tmd_mag(m1 - 700_000, 5, 19, 190_000, 5);
            assert(tmd(190_000, 5, 19) == 50_000);
        }
        if 890_000 < m1 {
            lemma_tmd_monotone(m1 - 890_000, m2 - 890_000, 15, 11);
        }
    }
}

} // verus!
