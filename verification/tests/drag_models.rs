//! Drag models: breakpoint continuity, G1 monotonicity below Mach 1,
//! and exact drag decelerations.

use ballistic_calculator::{DragModel, G1DragModel, G7DragModel};

#[test]
fn g1_cd_breakpoints() {
    let m = G1DragModel;
    assert_eq!(m.get_cd(700_000), 225_000);
    assert_eq!(m.get_cd(890_000), 275_000);
    assert_eq!(m.get_cd(1_000_000), 425_000);
    assert_eq!(m.get_cd(1_100_000), 295_000);
    assert_eq!(m.get_cd(1_200_000), 280_000);
    // approaching a breakpoint from either side moves by at most the
    // segment slope times one micro-Mach: no jump discontinuity
    assert_eq!(m.get_cd(889_999), 274_999);
    assert_eq!(m.get_cd(890_001), 275_001);
    assert_eq!(m.get_cd(0), 225_000);
    assert_eq!(m.get_cd(5_000_000), 280_000);
}

#[test]
fn g7_cd_breakpoints() {
    let m = G7DragModel;
    assert_eq!(m.get_cd(700_000), 119_800);
    assert_eq!(m.get_cd(890_000), 157_500);
    assert_eq!(m.get_cd(1_000_000), 225_500);
    assert_eq!(m.get_cd(1_100_000), 195_500);
    assert_eq!(m.get_cd(1_200_000), 188_000);
    assert_eq!(m.get_cd(800_000), 139_642);
}

#[test]
fn g1_cd_monotone_below_mach_one() {
    let m = G1DragModel;
    let samples: Vec<i64> = vec![
        0, 100_000, 650_000, 700_000, 700_001, 750_000, 850_000, 889_999, 890_000, 900_000,
        950_000, 999_999, 1_000_000,
    ];
    let mut prev: i64 = -1;
    for s in samples {
        let cd = m.get_cd(s);
        assert!(cd >= prev, "cd decreased at mach {}", s);
        prev = cd;
    }
}

#[test]
fn g1_cd_midpoint_interpolation() {
    assert_eq!(G1DragModel.get_cd(800_000), 251_315);
}

#[test]
fn drag_deceleration_exact() {
    let m = G1DragModel;
    // 2750 ft/s (above Mach 1.2: cd = 0.280), standard dry density,
    // bc = 0.223
    assert_eq!(m.calculate_drag(2_750_000_000, 75_100, 223_000), 356_396_720_814);
}

#[test]
fn drag_zero_bc_guarded() {
    // the 0.0001 epsilon in the form factor keeps a zero ballistic
    // coefficient finite
    let m = G1DragModel;
    assert_eq!(m.calculate_drag(2_750_000_000, 75_100, 0), 795_121_250_000_000);
}

#[test]
fn drag_zero_speed_is_zero() {
    assert_eq!(G1DragModel.calculate_drag(0, 75_100, 223_000), 0);
    assert_eq!(G7DragModel.calculate_drag(0, 75_100, 223_000), 0);
}
