//! Trajectory points and their angular aiming corrections.

use ballistic_calculator::TrajectoryPoint;

#[test]
fn point_records_fields() {
    let p = TrajectoryPoint::new(100_000_000, -10_000_000, 5_000_000, 2_000_000_000,
        1_500_000_000, 250_000);
    assert_eq!(p.distance, 100_000_000);
    assert_eq!(p.drop, -10_000_000);
    assert_eq!(p.windage, 5_000_000);
    assert_eq!(p.velocity, 2_000_000_000);
    assert_eq!(p.energy, 1_500_000_000);
    assert_eq!(p.time, 250_000);
}

#[test]
fn moa_adjustment_exact() {
    // 10 inches of drop and 5 of windage at 100 yards
    let p = TrajectoryPoint::new(100_000_000, -10_000_000, 5_000_000, 0, 0, 0);
    let (drop_moa, windage_moa) = p.moa_adjustment();
    assert_eq!(drop_moa, -9_551_098);
    assert_eq!(windage_moa, 4_775_549);
}

#[test]
fn mil_adjustment_exact() {
    let p = TrajectoryPoint::new(100_000_000, -10_000_000, 5_000_000, 0, 0, 0);
    let (drop_mil, windage_mil) = p.mil_adjustment();
    assert_eq!(drop_mil, -2_777_777);
    assert_eq!(windage_mil, 1_388_888);
}

#[test]
fn moa_at_long_range() {
    // 300 inches of drop at 1000 yards is about 28.65 MOA
    let p = TrajectoryPoint::new(1_000_000_000, -300_000_000, 0, 0, 0, 0);
    let (drop_moa, windage_moa) = p.moa_adjustment();
    assert_eq!(drop_moa, -28_653_295);
    assert_eq!(windage_moa, 0);
}
