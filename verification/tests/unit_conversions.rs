//! Unit conversions: exact scalings and round-trip loss bounds.

use ballistic_calculator::conversions::{grains_to_kg, fps_to_mps, mps_to_fps, inches_to_meters,
    meters_to_inches, yards_to_meters, meters_to_yards};

#[test]
fn conversion_exact_values() {
    assert_eq!(grains_to_kg(168_000_000), 10_886);
    assert_eq!(grains_to_kg(1_000_000), 64);
    assert_eq!(fps_to_mps(2_750_000_000), 838_200_000);
    assert_eq!(mps_to_fps(838_200_000), 2_750_000_000);
    assert_eq!(inches_to_meters(308_000), 7_823);
    assert_eq!(inches_to_meters(1_000_000), 25_400);
    assert_eq!(meters_to_inches(25_400), 1_000_000);
    assert_eq!(yards_to_meters(1_000_000), 914_400);
    assert_eq!(meters_to_yards(914_400), 1_000_000);
}

#[test]
fn yards_meters_round_trip() {
    let samples: Vec<i64> = vec![0, 1, 3, 999_983, 1_000_000, 123_456_789, 1_000_000_000_000];
    for x in samples {
        let r = meters_to_yards(yards_to_meters(x));
        assert!(x - 2 <= r && r <= x, "round trip of {} gave {}", x, r);
    }
}

#[test]
fn fps_mps_round_trip() {
    let samples: Vec<i64> = vec![0, 1, 7, 2_750_000_000, 987_654_321, 1_000_000_000_000];
    for x in samples {
        let r = mps_to_fps(fps_to_mps(x));
        assert!(x - 4 <= r && r <= x, "round trip of {} gave {}", x, r);
    }
}

#[test]
fn conversions_are_odd_functions() {
    assert_eq!(yards_to_meters(-1_000_000), -914_400);
    assert_eq!(fps_to_mps(-1_000_000), -304_800);
    assert_eq!(grains_to_kg(-1_000_000), -64);
}
