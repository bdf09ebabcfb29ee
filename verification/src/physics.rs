//! The trajectory integrator.
//!
//! A fixed-step explicit Euler march over the projectile's equations of
//! motion: each step resolves the velocity relative to the wind,
//! evaluates the drag deceleration through the chosen drag model,
//! applies it opposing the relative velocity together with gravity,
//! advances velocity then position by the step, and emits one
//! trajectory sample. The march ends once the downrange distance
//! reaches the requested range, once the drop passes the 1000 ft
//! safety floor, or — a guard against runaway divergence of the
//! explicit method on pathological inputs — once a fixed-point
//! intermediate or a state component would leave the representable
//! band.
//!
//! The whole march is pinned down by `spec_run`: the returned samples
//! are exactly the images of the first `n` verified machine steps, and
//! the run stops only for one of the three reasons above.

use vstd::prelude::*;
use crate::arith::{iabs, in64, tdiv, tmd, mul_div, mul_div_checked, add_checked,
    sub_checked, isqrt, sqrt_floor, lemma_sqrt_floor_bounds, lemma_tmd_mag, lemma_tmd_nonneg,
    lemma_tmd_zero};
use crate::drag::{DragModel, spec_mach, spec_drag_from_cd, spec_drag_defined,
    drag_from_cd_checked};
use crate::environment::{Environment, spec_air_density};
use crate::projectile::Projectile;
use crate::trajectory::TrajectoryPoint;
use crate::trig::{spec_sin_deg, spec_cos_deg, sin_deg, cos_deg};

verus! {

/// Standard gravitational acceleration, micro-ft/s^2.
pub const GRAVITY: i64 = 32_174_000;

/// Largest accepted time step: ten seconds, in micro-seconds.
pub const STEP_MAX: i64 = 10_000_000;

/// Largest accepted range, micro-yards.
pub const RANGE_MAX: i64 = 30_000_000_000_000;

/// Divergence guard on each velocity component, micro-ft/s.
pub const SPEED_CAP: i64 = 1_000_000_000_000;

/// Divergence guard on each position component, micro-feet.
pub const POSITION_CAP: i64 = 100_000_000_000_000;

/// Divergence guard on elapsed time, micro-seconds.
pub const TIME_CAP: i64 = 1_000_000_000_000;

/// Safety floor for the vertical drop: minus 1000 feet, micro-feet.
pub const DROP_FLOOR: i64 = -1_000_000_000;

/// Largest magnitude of a resolved wind component, micro-ft/s.
pub const WIND_COMPONENT_MAX: i64 = 100_000_000_000;

/// The integrator's state between steps: position (micro-feet),
/// velocity (micro-ft/s) and elapsed time (micro-seconds).
#[derive(Debug, Clone, Copy, PartialEq, Eq, Structural)]
pub struct SimState {
    /// Downrange position, micro-feet.
    pub x: i64,
    /// Height above the bore line, micro-feet.
    pub y: i64,
    /// Downrange velocity, micro-ft/s.
    pub vx: i64,
    /// Vertical velocity, micro-ft/s.
    pub vy: i64,
    /// Elapsed time, micro-seconds.
    pub time: i64,
}

/// The wind's downrange component `wind_speed * cos(angle)`.
pub open spec fn spec_wind_vx(e: Environment) -> int {
    tmd(e.wind_speed as int, spec_cos_deg(e.wind_angle as int), 1_000_000)
}

/// The wind's lateral component `wind_speed * sin(angle)`.
pub open spec fn spec_wind_vy(e: Environment) -> int {
    tmd(e.wind_speed as int, spec_sin_deg(e.wind_angle as int), 1_000_000)
}

/// Every state component within the divergence guards.
pub open spec fn state_capped(s: SimState) -> bool {
    &&& iabs(s.vx as int) <= SPEED_CAP as int
    &&& iabs(s.vy as int) <= SPEED_CAP as int
    &&& iabs(s.x as int) <= POSITION_CAP as int
    &&& iabs(s.y as int) <= POSITION_CAP as int
    &&& 0 <= s.time <= TIME_CAP
}

/// The march continues while the projectile is short of the requested
/// range and above the drop safety floor.
pub open spec fn spec_in_flight(s: SimState, range_feet: int) -> bool {
    s.x as int <= range_feet && s.y as int >= DROP_FLOOR as int
}

/// The launch state: at the origin, moving at muzzle velocity along
/// the line of departure.
pub open spec fn spec_init(p: Projectile) -> SimState {
    SimState { x: 0, y: 0, vx: p.muzzle_velocity, vy: 0, time: 0 }
}

/// Speed relative to the air, before a step: the rounded-down norm of
/// the wind-relative velocity.
pub open spec fn spec_vt(wvx: int, wvy: int, s: SimState) -> int {
    let vrx = s.vx - wvx;
    let vry = s.vy - wvy;
    sqrt_floor(vrx * vrx + vry * vry)
}

/// The drag-plus-gravity acceleration, for a nonzero relative speed:
/// `ax = -drag * vrx / (vt * weight)`, `ay = -g - drag * vry / (vt * weight)`.
/// `None` when an intermediate leaves the representable band.
pub open spec fn spec_accel<D: DragModel>(p: Projectile, density: int, vrx: int, vry: int,
    vt: int) -> Option<(int, int)> {
    let cd = D::spec_cd(spec_mach(vt));
    if !spec_drag_defined(vt, density, p.ballistic_coefficient as int, cd) {
        None
    } else {
        let drag = spec_drag_from_cd(vt, density, p.ballistic_coefficient as int, cd);
        if !in64(tmd(drag, 1_000_000, p.weight_grains as int)) {
            None
        } else {
            let t1 = tmd(drag, 1_000_000, p.weight_grains as int);
            let rx = tmd(vrx, 1_000_000, vt);
            let ry = tmd(vry, 1_000_000, vt);
            let ax = -tmd(t1, rx, 1_000_000);
            if !in64(-(GRAVITY as int) - tmd(t1, ry, 1_000_000)) {
                None
            } else {
                Some((ax, -(GRAVITY as int) - tmd(t1, ry, 1_000_000)))
            }
        }
    }
}

/// One machine step of the march: acceleration, velocity update,
/// position update, divergence guards. `None` is the divergence stop.
pub open spec fn spec_step<D: DragModel>(p: Projectile, density: int, wvx: int, wvy: int,
    dt: int, s: SimState) -> Option<SimState> {
    let vrx = s.vx - wvx;
    let vry = s.vy - wvy;
    let vt = spec_vt(wvx, wvy, s);
    let acc = if vt == 0 {
        Some((0int, -(GRAVITY as int)))
    } else {
        spec_accel::<D>(p, density, vrx, vry, vt)
    };
    match acc {
        None => None,
        Some((ax, ay)) => {
            let dvx = tmd(ax, dt, 1_000_000);
            let dvy = tmd(ay, dt, 1_000_000);
            if !in64(dvx) || !in64(dvy) || !in64(s.vx + dvx) || !in64(s.vy + dvy) {
                None
            } else {
                let vx2 = s.vx + dvx;
                let vy2 = s.vy + dvy;
                let dx = tmd(vx2, dt, 1_000_000);
                let dy = tmd(vy2, dt, 1_000_000);
                if !in64(dx) || !in64(dy) || !in64(s.x + dx) || !in64(s.y + dy) {
                    None
                } else {
                    let s2 = SimState {
                        x: (s.x + dx) as i64,
                        y: (s.y + dy) as i64,
                        vx: vx2 as i64,
                        vy: vy2 as i64,
                        time: (s.time + dt) as i64,
                    };
                    if state_capped(s2) {
                        Some(s2)
                    } else {
                        None
                    }
                }
            }
        },
    }
}

/// The state after `k` machine steps from launch, or `None` once a
/// divergence stop occurred.
pub open spec fn spec_run<D: DragModel>(p: Projectile, density: int, wvx: int, wvy: int,
    dt: int, k: nat) -> Option<SimState>
    decreases k,
{
    if k == 0 {
        Some(spec_init(p))
    } else {
        match spec_run::<D>(p, density, wvx, wvy, dt, (k - 1) as nat) {
            None => None,
            Some(s) => spec_step::<D>(p, density, wvx, wvy, dt, s),
        }
    }
}

/// Law: every state the march reaches stays within the divergence
/// guards, and its clock reads exactly one step per machine step
/// taken.
pub proof fn lemma_run_state<D: DragModel>(p: Projectile, density: int, wvx: int, wvy: int,
    dt: int, k: nat)
    requires
        p.wf(),
        0 < dt <= STEP_MAX as int,
        spec_run::<D>(p, density, wvx, wvy, dt, k) is Some,
    ensures
        state_capped(spec_run::<D>(p, density, wvx, wvy, dt, k)->Some_0),
        spec_run::<D>(p, density, wvx, wvy, dt, k)->Some_0.time == k * dt,
    decreases k,
{
    if k == 0 {
        assert(0 * dt == 0) by (nonlinear_arith);
    } else {
        lemma_run_state::<D>(p, density, wvx, wvy, dt, (k - 1) as nat);
        let s = spec_run::<D>(p, density, wvx, wvy, dt, (k - 1) as nat)->Some_0;
        let s2 = spec_run::<D>(p, density, wvx, wvy, dt, k)->Some_0;
        assert(s2.time == s.time + dt);
        assert((k - 1) * dt + dt == k * dt) by (nonlinear_arith);
    }
}

/// The sample the integrator emits after a step: distance, drop and
/// windage converted to yards and inches, the pre-step relative speed,
/// the kinetic energy `weight * vt^2 / 450436` (ft-lbs), and the time.
pub open spec fn spec_point(p: Projectile, wvy: int, vt: int, s2: SimState) -> TrajectoryPoint {
    TrajectoryPoint {
        distance: tdiv(s2.x as int, 3) as i64,
        drop: (s2.y * 12) as i64,
        windage: (tmd(wvy, s2.time as int, 1_000_000) * 12) as i64,
        velocity: vt as i64,
        energy: tmd(p.weight_grains as int, tmd(vt, vt, 1_000_000_000_000), 450_436) as i64,
        time: s2.time,
    }
}

/// The sample at index `i` of a run: built from the states before and
/// after step `i + 1`.
pub open spec fn spec_point_at<D: DragModel>(p: Projectile, density: int, wvx: int, wvy: int,
    dt: int, i: int) -> TrajectoryPoint {
    let si = spec_run::<D>(p, density, wvx, wvy, dt, i as nat)->Some_0;
    let si1 = spec_run::<D>(p, density, wvx, wvy, dt, (i + 1) as nat)->Some_0;
    spec_point(p, wvy, spec_vt(wvx, wvy, si), si1)
}

/// Index `i` of the sample sequence is the image of one verified,
/// in-flight, non-diverging step of the run.
pub open spec fn spec_points_ok_at<D: DragModel>(p: Projectile, density: int, wvx: int, wvy: int,
    dt: int, range_feet: int, pts: Seq<TrajectoryPoint>, i: int) -> bool {
    &&& spec_run::<D>(p, density, wvx, wvy, dt, i as nat) is Some
    &&& spec_in_flight(spec_run::<D>(p, density, wvx, wvy, dt, i as nat)->Some_0, range_feet)
    &&& spec_run::<D>(p, density, wvx, wvy, dt, (i + 1) as nat) is Some
    &&& pts[i] == spec_point_at::<D>(p, density, wvx, wvy, dt, i)
}

/// The samples are exactly the images of the run's verified steps:
/// each index took one in-flight, non-diverging step.
pub open spec fn spec_points_ok<D: DragModel>(p: Projectile, density: int, wvx: int, wvy: int,
    dt: int, range_feet: int, pts: Seq<TrajectoryPoint>) -> bool {
    forall|i: int|
        0 <= i < pts.len() ==> #[trigger] spec_points_ok_at::<D>(
            p,
            density,
            wvx,
            wvy,
            dt,
            range_feet,
            pts,
            i,
        )
}

/// The trajectory integrator: a projectile, ambient conditions and a
/// drag model, marched by `calculate_trajectory`.
pub struct TrajectoryCalculator<D: DragModel> {
    /// The fired projectile.
    pub projectile: Projectile,
    /// The ambient conditions.
    pub environment: Environment,
    /// The drag-coefficient strategy.
    pub drag_model: D,
}

/// One executable machine step. Returns the new state and the pre-step
/// relative speed, or `None` on a divergence stop.
fn advance<D: DragModel>(model: &D, p: &Projectile, density: i64, wvx: i64, wvy: i64, dt: i64,
    s: SimState) -> (r: Option<(SimState, i64)>)
    requires
        p.wf(),
        state_capped(s),
        iabs(wvx as int) <= WIND_COMPONENT_MAX as int,
        iabs(wvy as int) <= WIND_COMPONENT_MAX as int,
        0 < dt <= STEP_MAX,
    ensures
        r is Some <==> spec_step::<D>(*p, density as int, wvx as int, wvy as int, dt as int, s)
            is Some,
        r matches Some(t) ==> Some(t.0) == spec_step::<D>(
            *p,
            density as int,
            wvx as int,
            wvy as int,
            dt as int,
            s,
        ),
        r matches Some(t) ==> t.1 as int == spec_vt(wvx as int, wvy as int, s),
        r matches Some(t) ==> state_capped(t.0),
        r matches Some(t) ==> 0 <= t.1 <= 1_600_000_000_000,
{
    let vrx: i64 = s.vx - wvx;
    let vry: i64 = s.vy - wvy;
    proof {
        assert(0 <= (vrx as int) * (vrx as int) <= 1_210_000_000_000_000_000_000_000)
            by (nonlinear_arith)
            requires
                -1_100_000_000_000 <= vrx as int <= 1_100_000_000_000,
        ;
        assert(0 <= (vry as int) * (vry as int) <= 1_210_000_000_000_000_000_000_000)
            by (nonlinear_arith)
            requires
                -1_100_000_000_000 <= vry as int <= 1_100_000_000_000,
        ;
    }
    let sq: u128 = ((vrx as i128) * (vrx as i128) + (vry as i128) * (vry as i128)) as u128;
    let vt64: u64 = isqrt(sq);
    proof {
        lemma_sqrt_floor_bounds(sq as int);
        assert(vt64 as int <= 1_600_000_000_000) by (nonlinear_arith)
            requires
                (vt64 as int) * (vt64 as int) <= sq as int,
                sq as int <= 2_420_000_000_000_000_000_000_000,
                vt64 as int >= 0,
        ;
        assert(vt64 as int == spec_vt(wvx as int, wvy as int, s));
    }
    let vt: i64 = vt64 as i64;
    let acc: Option<(i64, i64)> = if vt == 0 {
        Some((0i64, -GRAVITY))
    } else {
        accel::<D>(model, p, density, vrx, vry, vt)
    };
    let (ax, ay) = match acc {
        None => {
            return None;
        },
        Some(t) => t,
    };
    let dvx = match mul_div_checked(ax, dt, 1_000_000) {
        None => {
            return None;
        },
        Some(v) => v,
    };
    let dvy = match mul_div_checked(ay, dt, 1_000_000) {
        None => {
            return None;
        },
        Some(v) => v,
    };
    let vx2 = match add_checked(s.vx, dvx) {
        None => {
            return None;
        },
        Some(v) => v,
    };
    let vy2 = match add_checked(s.vy, dvy) {
        None => {
            return None;
        },
        Some(v) => v,
    };
    let dx = match mul_div_checked(vx2, dt, 1_000_000) {
        None => {
            return None;
        },
        Some(v) => v,
    };
    let dy = match mul_div_checked(vy2, dt, 1_000_000) {
        None => {
            return None;
        },
        Some(v) => v,
    };
    let x2 = match add_checked(s.x, dx) {
        None => {
            return None;
        },
        Some(v) => v,
    };
    let y2 = match add_checked(s.y, dy) {
        None => {
            return None;
        },
        Some(v) => v,
    };
    let t2: i64 = s.time + dt;
    let s2 = SimState { x: x2, y: y2, vx: vx2, vy: vy2, time: t2 };
    if vx2 > SPEED_CAP || vx2 < -SPEED_CAP || vy2 > SPEED_CAP || vy2 < -SPEED_CAP || x2
        > POSITION_CAP || x2 < -POSITION_CAP || y2 > POSITION_CAP || y2 < -POSITION_CAP || t2
        > TIME_CAP {
        return None;
    }
    Some((s2, vt))
}

/// The executable drag-plus-gravity acceleration for a nonzero
/// relative speed.
fn accel<D: DragModel>(model: &D, p: &Projectile, density: i64, vrx: i64, vry: i64, vt: i64) -> (r:
    Option<(i64, i64)>)
    requires
        p.wf(),
        0 < vt,
        (vrx as int) * (vrx as int) + (vry as int) * (vry as int) >= (vt as int) * (vt as int),
        iabs(vrx as int) <= 1_100_000_000_000,
        iabs(vry as int) <= 1_100_000_000_000,
        (vt as int + 1) * (vt as int + 1) > (vrx as int) * (vrx as int) + (vry as int) * (vry
            as int),
    ensures
        r is Some <==> spec_accel::<D>(*p, density as int, vrx as int, vry as int, vt as int)
            is Some,
        r matches Some(t) ==> Some((t.0 as int, t.1 as int)) == spec_accel::<D>(
            *p,
            density as int,
            vrx as int,
            vry as int,
            vt as int,
        ),
{
    proof {
        assert(vt as int <= 1_600_000_000_000) by (nonlinear_arith)
            requires
                (vt as int) * (vt as int) <= (vrx as int) * (vrx as int) + (vry as int) * (vry
                    as int),
                -1_100_000_000_000 <= vrx as int <= 1_100_000_000_000,
                -1_100_000_000_000 <= vry as int <= 1_100_000_000_000,
                0 < vt as int,
        ;
        lemma_tmd_mag(vt as int, 10, 11164, 1_600_000_000_000, 10);
    }
    let mach: i64 = mul_div(vt, 10, 11164);
    let cd: i64 = model.get_cd(mach);
    let drag = match drag_from_cd_checked(vt, density, p.ballistic_coefficient, cd) {
        None => {
            return None;
        },
        Some(v) => v,
    };
    let t1 = match mul_div_checked(drag, 1_000_000, p.weight_grains) {
        None => {
            return None;
        },
        Some(v) => v,
    };
    proof {
        lemma_ratio_bounded(vrx as int, vry as int, vt as int);
        lemma_ratio_bounded(vry as int, vrx as int, vt as int);
        lemma_tmd_mag(t1 as int, tmd(vrx as int, 1_000_000, vt as int), 1_000_000,
            iabs(t1 as int), 1_000_000);
        lemma_tmd_mag(t1 as int, tmd(vry as int, 1_000_000, vt as int), 1_000_000,
            iabs(t1 as int), 1_000_000);
        vstd::arithmetic::div_mod::lemma_div_multiples_vanish(iabs(t1 as int), 1_000_000);
    }
    let rx: i64 = mul_div(vrx, 1_000_000, vt);
    let ry: i64 = mul_div(vry, 1_000_000, vt);
    let axm: i64 = mul_div(t1, rx, 1_000_000);
    let aym: i64 = mul_div(t1, ry, 1_000_000);
    let ay = match sub_checked(-GRAVITY, aym) {
        None => {
            return None;
        },
        Some(v) => v,
    };
    Some((-axm, ay))
}

/// The wind-relative component ratios stay within one unit: with
/// `a^2 + b^2 >= vt^2 > a^2 + b^2 - (2 vt + 1)`, the magnitude of `a`
/// is at most `vt`, so `a * 10^6 / vt` is at most `10^6`.
proof fn lemma_ratio_bounded(a: int, b: int, vt: int)
    requires
        0 < vt,
        a * a + b * b >= vt * vt,
        (vt + 1) * (vt + 1) > a * a + b * b,
    ensures
        iabs(tmd(a, 1_000_000, vt)) <= 1_000_000,
        in64(tmd(a, 1_000_000, vt)),
{
    assert(-vt <= a <= vt) by (nonlinear_arith)
        requires
            0 < vt,
            (vt + 1) * (vt + 1) > a * a + b * b,
    ;
    lemma_tmd_mag(a, 1_000_000, vt, vt, 1_000_000);
    vstd::arithmetic::div_mod::lemma_div_multiples_vanish(1_000_000, vt);
}

/// The sample built from a post-step state, executable form.
fn make_point(p: &Projectile, wvy: i64, vt: i64, s2: SimState) -> (r: TrajectoryPoint)
    requires
        p.wf(),
        state_capped(s2),
        iabs(wvy as int) <= WIND_COMPONENT_MAX as int,
        0 <= vt <= 1_600_000_000_000,
    ensures
        r == spec_point(*p, wvy as int, vt as int, s2),
{
    proof {
        crate::arith::lemma_tdiv_bound(s2.x as int * 1, 3, iabs(s2.x as int));
        assert(s2.x as int * 1 == s2.x as int);
        lemma_tmd_mag(wvy as int, s2.time as int, 1_000_000, WIND_COMPONENT_MAX as int,
            TIME_CAP as int);
        vstd::arithmetic::div_mod::lemma_div_multiples_vanish(
            100_000_000_000_000_000,
            1_000_000,
        );
        lemma_tmd_mag(vt as int, vt as int, 1_000_000_000_000, 1_600_000_000_000,
            1_600_000_000_000);
        vstd::arithmetic::div_mod::lemma_div_multiples_vanish(
            2_560_000_000_000,
            1_000_000_000_000,
        );
        lemma_tmd_nonneg(vt as int, vt as int, 1_000_000_000_000);
    }
    let distance: i64 = mul_div(s2.x, 1, 3);
    let drop: i64 = s2.y * 12;
    let w1: i64 = mul_div(wvy, s2.time, 1_000_000);
    let windage: i64 = w1 * 12;
    let q: i64 = mul_div(vt, vt, 1_000_000_000_000);
    proof {
        lemma_tmd_mag(p.weight_grains as int, q as int, 450_436, 1_000_000_000_000,
            2_560_000_000_000);
        vstd::arithmetic::div_mod::lemma_fundamental_div_mod_converse(
            2_560_000_000_000_000_000_000_000,
            450_436,
            5_683_382_322_904_918_789,
            357_996,
        );
    }
    let energy: i64 = mul_div(p.weight_grains, q, 450_436);
    TrajectoryPoint { distance, drop, windage, velocity: vt, energy, time: s2.time }
}

impl<D: DragModel> TrajectoryCalculator<D> {
    /// Bundles a projectile, an environment and a drag model.
    pub fn new(projectile: Projectile, environment: Environment, drag_model: D) -> (r:
        TrajectoryCalculator<D>)
        ensures
            r.projectile == projectile,
            r.environment == environment,
            r.drag_model == drag_model,
    {
        TrajectoryCalculator { projectile, environment, drag_model }
    }

    /// Marches the trajectory out to `range_yards` (micro-yards) with
    /// the fixed step `step_size` (micro-seconds) and returns every
    /// sample, one per step.
    ///
    /// The contract pins the result to the machine-step relation
    /// `spec_run`: sample `i` is the image of the `i + 1`-th step, every
    /// taken step started in flight, and the march stopped only by
    /// leaving flight (range reached or drop floor passed) or by the
    /// divergence guard. A calm wind provably leaves every sample's
    /// windage at zero. An environment whose air density is not
    /// representable yields no samples.
    pub fn calculate_trajectory(&self, range_yards: i64, step_size: i64) -> (r: Vec<
        TrajectoryPoint,
    >)
        requires
            self.projectile.wf(),
            self.environment.wf(),
            0 < step_size <= STEP_MAX,
            0 <= range_yards <= RANGE_MAX,
        ensures
            spec_air_density(
                self.environment.temperature as int,
                self.environment.pressure as int,
                self.environment.humidity as int,
            ) is None ==> r@.len() == 0,
            (spec_air_density(
                self.environment.temperature as int,
                self.environment.pressure as int,
                self.environment.humidity as int,
            ) matches Some(den) ==> {
                let wvx = spec_wind_vx(self.environment);
                let wvy = spec_wind_vy(self.environment);
                let rf = (range_yards as int) * 3;
                let n = r@.len() as nat;
                &&& spec_points_ok::<D>(self.projectile, den, wvx, wvy, step_size as int, rf, r@)
                &&& spec_run::<D>(self.projectile, den, wvx, wvy, step_size as int, n) is Some
                &&& (!spec_in_flight(
                    spec_run::<D>(self.projectile, den, wvx, wvy, step_size as int, n)->Some_0,
                    rf,
                ) || spec_step::<D>(
                    self.projectile,
                    den,
                    wvx,
                    wvy,
                    step_size as int,
                    spec_run::<D>(self.projectile, den, wvx, wvy, step_size as int, n)->Some_0,
                ) is None)
            }),
            self.environment.wind_speed == 0 ==> forall|i: int|
                0 <= i < r@.len() ==> #[trigger] r@[i].windage == 0,
    {
        let density: i64 = match self.environment.air_density_checked() {
            None => {
                return Vec::new();
            },
            Some(v) => v,
        };
        let cosv: i64 = cos_deg(self.environment.wind_angle);
        let sinv: i64 = sin_deg(self.environment.wind_angle);
        proof {
            lemma_tmd_mag(
                self.environment.wind_speed as int,
                cosv as int,
                1_000_000,
                WIND_COMPONENT_MAX as int,
                1_000_000,
            );
            lemma_tmd_mag(
                self.environment.wind_speed as int,
                sinv as int,
                1_000_000,
                WIND_COMPONENT_MAX as int,
                1_000_000,
            );
            vstd::arithmetic::div_mod::lemma_div_multiples_vanish(
                WIND_COMPONENT_MAX as int,
                1_000_000,
            );
        }
        let wvx: i64 = mul_div(self.environment.wind_speed, cosv, 1_000_000);
        let wvy: i64 = mul_div(self.environment.wind_speed, sinv, 1_000_000);
        let range_feet: i64 = range_yards * 3;
        let mut st = SimState {
            x: 0,
            y: 0,
            vx: self.projectile.muzzle_velocity,
            vy: 0,
            time: 0,
        };
        let mut points: Vec<TrajectoryPoint> = Vec::new();
        let mut done: bool = false;
        proof {
            assert(spec_run::<D>(
                self.projectile,
                density as int,
                wvx as int,
                wvy as int,
                step_size as int,
                0,
            ) == Some(st));
        }
        while !done && st.x <= range_feet && st.y >= DROP_FLOOR
            invariant
                self.projectile.wf(),
                self.environment.wf(),
                0 < step_size <= STEP_MAX,
                0 <= range_yards <= RANGE_MAX,
                range_feet as int == (range_yards as int) * 3,
                wvx as int == spec_wind_vx(self.environment),
                wvy as int == spec_wind_vy(self.environment),
                iabs(wvx as int) <= WIND_COMPONENT_MAX as int,
                iabs(wvy as int) <= WIND_COMPONENT_MAX as int,
                Some(density as int) == spec_air_density(
                    self.environment.temperature as int,
                    self.environment.pressure as int,
                    self.environment.humidity as int,
                ),
                state_capped(st),
                spec_run::<D>(
                    self.projectile,
                    density as int,
                    wvx as int,
                    wvy as int,
                    step_size as int,
                    points@.len() as nat,
                ) == Some(st),
                spec_points_ok::<D>(
                    self.projectile,
                    density as int,
                    wvx as int,
                    wvy as int,
                    step_size as int,
                    range_feet as int,
                    points@,
                ),
                done ==> spec_step::<D>(
                    self.projectile,
                    density as int,
                    wvx as int,
                    wvy as int,
                    step_size as int,
                    st,
                ) is None,
            decreases TIME_CAP - st.time, (if done {
                0int
            } else {
                1int
            }),
        {
            match advance::<D>(&self.drag_model, &self.projectile, density, wvx, wvy, step_size,
                st) {
                None => {
                    done = true;
                },
                Some((s2, vt)) => {
                    let ghost st0 = st;
                    let ghost oldpts = points@;
                    let ghost k: int = points@.len() as int;
                    let pt = make_point(&self.projectile, wvy, vt, s2);
                    proof {
                        assert(spec_run::<D>(
                            self.projectile,
                            density as int,
                            wvx as int,
                            wvy as int,
                            step_size as int,
                            (k + 1) as nat,
                        ) == Some(s2));
                        assert(pt == spec_point_at::<D>(
                            self.projectile,
                            density as int,
                            wvx as int,
                            wvy as int,
                            step_size as int,
                            k,
                        ));
                    }
                    points.push(pt);
                    st = s2;
                    proof {
                        assert(points@ == oldpts.push(pt));
                        assert forall|i: int| 0 <= i < points@.len() implies
                            #[trigger] spec_points_ok_at::<D>(
                            self.projectile,
                            density as int,
                            wvx as int,
                            wvy as int,
                            step_size as int,
                            range_feet as int,
                            points@,
                            i,
                        ) by {
                            if i < k {
                                assert(oldpts[i] == points@[i]);
                                assert(spec_points_ok_at::<D>(
                                    self.projectile,
                                    density as int,
                                    wvx as int,
                                    wvy as int,
                                    step_size as int,
                                    range_feet as int,
                                    oldpts,
                                    i,
                                ));
                            } else {
                                assert(i == k);
                                assert(points@[i] == pt);
                                assert(spec_in_flight(st0, range_feet as int));
                            }
                        }
                    }
                },
            }
        }
        proof {
            if self.environment.wind_speed == 0 {
                lemma_tmd_zero(spec_sin_deg(self.environment.wind_angle as int), 1_000_000);
                assert forall|i: int| 0 <= i < points@.len() implies #[trigger] points@[i].windage
                    == 0 by {
                    assert(spec_points_ok_at::<D>(
                        self.projectile,
                        density as int,
                        wvx as int,
                        wvy as int,
                        step_size as int,
                        range_feet as int,
                        points@,
                        i,
                    ));
                    assert(points@[i] == spec_point_at::<D>(
                        self.projectile,
                        density as int,
                        wvx as int,
                        wvy as int,
                        step_size as int,
                        i,
                    ));
                    let si1 = spec_run::<D>(
                        self.projectile,
                        density as int,
                        wvx as int,
                        wvy as int,
                        step_size as int,
                        (i + 1) as nat,
                    )->Some_0;
                    lemma_tmd_zero(si1.time as int, 1_000_000);
                }
            }
        }
        points
    }
}

} // verus!
