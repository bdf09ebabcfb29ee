//! The atmospheric model: standard-atmosphere air density and the
//! humidity correction, plus the fixed-point power of ten behind it.

use ballistic_calculator::Environment;
use ballistic_calculator::environment::pow10;

fn env_at(temperature: i64, pressure: i64, humidity: i64) -> Environment {
    Environment::new(temperature, pressure, humidity, 0, 0, 0, 0).unwrap()
}

#[test]
fn standard_atmosphere_density() {
    // 59 F, 29.92 inHg, 0 % humidity: exactly the dry-air constant,
    // within 2 % of the 0.0765 lb/ft^3 reference value
    let d = env_at(59_000_000, 29_920_000, 0).air_density();
    assert_eq!(d, 75_100);
    let reference: i64 = 76_500;
    assert!((d - reference).abs() * 100 <= 2 * reference);
}

#[test]
fn humid_air_is_less_dense() {
    let dry = env_at(59_000_000, 29_920_000, 0).air_density();
    let half = env_at(59_000_000, 29_920_000, 50_000_000).air_density();
    let wet = env_at(59_000_000, 29_920_000, 78_000_000).air_density();
    assert!(dry > half && half > wet);
    assert_eq!(wet, 54_336);
}

#[test]
fn density_scales_with_pressure_and_temperature() {
    let base = env_at(59_000_000, 29_920_000, 0).air_density();
    let low_pressure = env_at(59_000_000, 14_960_000, 0).air_density();
    let hot = env_at(95_000_000, 29_920_000, 0).air_density();
    assert_eq!(low_pressure, 37_550);
    assert!(hot < base);
}

#[test]
fn pow10_exact_points() {
    assert_eq!(pow10(0), Some(1_000_000));
    assert_eq!(pow10(1_000_000), Some(10_000_000));
    assert_eq!(pow10(6_000_000), Some(1_000_000_000_000));
    assert_eq!(pow10(-6_000_000), Some(1));
    assert_eq!(pow10(500_000), Some(3_162_278));
    assert_eq!(pow10(13_000_000), None);
    assert_eq!(pow10(-13_000_000), Some(0));
}
