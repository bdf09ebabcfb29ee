//! End-to-end trajectory runs: the published scenario, calm-wind
//! windage, and the effect of the ballistic coefficient.

use ballistic_calculator::{Environment, G1DragModel, G7DragModel, Projectile,
    TrajectoryCalculator, TrajectoryPoint};

fn standard_projectile(bc: i64) -> Projectile {
    // 168 gr, 2750 ft/s, .308, 1.2 in
    Projectile::new(168_000_000, bc, 2_750_000_000, 308_000, 1_200_000).unwrap()
}

fn standard_environment(wind_speed: i64, wind_angle: i64) -> Environment {
    // 59 F, 29.92 inHg, 78 %, 1000 ft altitude, 45 deg latitude
    Environment::new(59_000_000, 29_920_000, 78_000_000, wind_speed, wind_angle, 1_000_000_000,
        45_000_000)
        .unwrap()
}

fn run_g1(bc: i64, wind_speed: i64, wind_angle: i64, range_yards: i64) -> Vec<TrajectoryPoint> {
    let calc = TrajectoryCalculator::new(
        standard_projectile(bc),
        standard_environment(wind_speed, wind_angle),
        G1DragModel,
    );
    calc.calculate_trajectory(range_yards, 10_000)
}

#[test]
fn end_to_end_scenario() {
    // 168 gr / 0.223 G1 / 2750 ft/s out to 1000 yd with a 10 mph
    // crosswind, stepped at 0.01 s
    let points = run_g1(223_000, 10_000_000, 90_000_000, 1_000_000_000);
    assert!(points.len() > 50);
    // distance grows strictly
    for w in points.windows(2) {
        assert!(w[0].distance < w[1].distance);
    }
    // drop is negative and sinks monotonically with distance
    for w in points.windows(2) {
        assert!(w[0].drop < 0);
        assert!(w[0].drop > w[1].drop);
    }
    // the final sample lands within one step's travel past the range
    let last = points[points.len() - 1];
    assert!(last.distance >= 1_000_000_000);
    assert!(last.distance <= 1_010_000_000);
    // time advances by exactly one step per sample
    for (i, p) in points.iter().enumerate() {
        assert_eq!(p.time, (i as i64 + 1) * 10_000);
    }
    // the first sample's relative speed and kinetic energy, exactly
    assert_eq!(points[0].velocity, 2_750_018_181);
    assert_eq!(points[0].energy, 2_820_637_409);
    // a 90-degree crosswind at 10 mph: the first sample's windage is
    // 10 * 0.01 * 12 thousandths of an inch
    assert_eq!(points[0].windage, 1_200_000);
}

#[test]
fn calm_wind_means_zero_windage() {
    let points = run_g1(223_000, 0, 0, 1_000_000_000);
    assert!(points.len() > 50);
    for p in &points {
        assert_eq!(p.windage, 0);
    }
}

#[test]
fn higher_bc_drops_less() {
    let low = run_g1(223_000, 0, 0, 500_000_000);
    let high = run_g1(323_000, 0, 0, 500_000_000);
    let low_last = low[low.len() - 1];
    let high_last = high[high.len() - 1];
    // both reached the range; the slicker projectile dropped strictly
    // less at it
    assert!(low_last.distance >= 500_000_000 && high_last.distance >= 500_000_000);
    assert!(high_last.drop.abs() < low_last.drop.abs());
}

#[test]
fn g7_model_runs() {
    let calc = TrajectoryCalculator::new(
        standard_projectile(400_000),
        standard_environment(0, 0),
        G7DragModel,
    );
    let points = calc.calculate_trajectory(500_000_000, 10_000);
    assert!(points.len() > 20);
    for w in points.windows(2) {
        assert!(w[0].distance < w[1].distance);
    }
    let last = points[points.len() - 1];
    assert!(last.distance >= 500_000_000);
}

#[test]
fn zero_range_yields_one_sample() {
    // the march checks the range after each step, so a zero range
    // still records the first step
    let points = run_g1(223_000, 0, 0, 0);
    assert_eq!(points.len(), 1);
    assert_eq!(points[0].distance, 9_115_504);
}

#[test]
fn zero_relative_velocity_freefalls() {
    // a tailwind exactly matching the muzzle velocity leaves no
    // relative airflow on the first step: no drag, gravity only
    let calc = TrajectoryCalculator::new(
        standard_projectile(223_000),
        Environment::new(59_000_000, 29_920_000, 0, 2_750_000_000, 0, 0, 0).unwrap(),
        G1DragModel,
    );
    let points = calc.calculate_trajectory(50_000_000, 10_000);
    assert!(points.len() >= 2);
    assert_eq!(points[0].velocity, 0);
    assert_eq!(points[0].energy, 0);
    assert_eq!(points[0].windage, 0);
    assert_eq!(points[0].drop, -38_604);
    assert_eq!(points[0].distance, 9_166_666);
    // from the second step on there is relative airflow again
    assert!(points[1].velocity > 0);
}

#[test]
fn velocity_decays_under_drag() {
    let points = run_g1(223_000, 0, 0, 1_000_000_000);
    for w in points.windows(2) {
        assert!(w[1].velocity < w[0].velocity);
    }
}
