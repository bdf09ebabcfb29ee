//! Construction validation: each factory accepts exactly its documented
//! range and names the one offending field, first failing check first.

use ballistic_calculator::{Environment, EnvironmentError, Projectile, ProjectileError};

fn env(h: i64, w: i64, l: i64) -> Result<Environment, EnvironmentError> {
    Environment::new(59_000_000, 29_920_000, h, 10_000_000, w, 1_000_000_000, l)
}

#[test]
fn env_create_valid_ranges() {
    assert!(env(0, 0, -90_000_000).is_ok());
    assert!(env(100_000_000, 360_000_000, 90_000_000).is_ok());
    assert!(env(50_000_000, 180_000_000, 0).is_ok());
    let e = env(78_000_000, 90_000_000, 45_000_000).unwrap();
    assert_eq!(e.temperature, 59_000_000);
    assert_eq!(e.pressure, 29_920_000);
    assert_eq!(e.humidity, 78_000_000);
    assert_eq!(e.wind_speed, 10_000_000);
    assert_eq!(e.wind_angle, 90_000_000);
    assert_eq!(e.altitude, 1_000_000_000);
    assert_eq!(e.latitude, 45_000_000);
}

#[test]
fn env_invalid_humidity() {
    assert!(matches!(env(-1_000_000, 0, 0), Err(EnvironmentError::InvalidHumidity)));
    assert!(matches!(env(100_000_001, 0, 0), Err(EnvironmentError::InvalidHumidity)));
}

#[test]
fn env_invalid_wind_angle() {
    assert!(matches!(env(50_000_000, 361_000_000, 0), Err(EnvironmentError::InvalidWindAngle)));
    assert!(matches!(env(50_000_000, -1, 0), Err(EnvironmentError::InvalidWindAngle)));
}

#[test]
fn env_invalid_latitude() {
    assert!(matches!(env(50_000_000, 0, 91_000_000), Err(EnvironmentError::InvalidLatitude)));
    assert!(matches!(env(50_000_000, 0, -91_000_000), Err(EnvironmentError::InvalidLatitude)));
}

#[test]
fn env_validation_order() {
    // several fields wrong at once: the first check in order wins
    assert!(matches!(
        env(-1_000_000, 400_000_000, 95_000_000),
        Err(EnvironmentError::InvalidHumidity)
    ));
    assert!(matches!(
        env(50_000_000, 400_000_000, 95_000_000),
        Err(EnvironmentError::InvalidWindAngle)
    ));
}

#[test]
fn env_error_messages() {
    assert_eq!(
        EnvironmentError::InvalidHumidity.message(),
        "Humidity must be between 0 and 100"
    );
    assert_eq!(
        EnvironmentError::InvalidWindAngle.message(),
        "Wind angle must be between 0 and 360"
    );
    assert_eq!(
        EnvironmentError::InvalidLatitude.message(),
        "Latitude must be between -90 and 90"
    );
}

#[test]
fn projectile_create_ok() {
    let p = Projectile::new(168_000_000, 223_000, 2_750_000_000, 308_000, 1_200_000).unwrap();
    assert_eq!(p.weight_grains, 168_000_000);
    assert_eq!(p.ballistic_coefficient, 223_000);
    assert_eq!(p.muzzle_velocity, 2_750_000_000);
    assert_eq!(p.caliber, 308_000);
    assert_eq!(p.length, 1_200_000);
}

#[test]
fn projectile_each_zero_field_fails() {
    let cases: Vec<(i64, i64, i64, i64, i64)> = vec![
        (0, 223_000, 2_750_000_000, 308_000, 1_200_000),
        (168_000_000, 0, 2_750_000_000, 308_000, 1_200_000),
        (168_000_000, 223_000, 0, 308_000, 1_200_000),
        (168_000_000, 223_000, 2_750_000_000, 0, 1_200_000),
        (168_000_000, 223_000, 2_750_000_000, 308_000, 0),
    ];
    for (w, bc, mv, c, l) in cases {
        assert!(matches!(
            Projectile::new(w, bc, mv, c, l),
            Err(ProjectileError::InvalidParameters)
        ));
    }
    assert!(matches!(
        Projectile::new(-1, 223_000, 2_750_000_000, 308_000, 1_200_000),
        Err(ProjectileError::InvalidParameters)
    ));
    assert_eq!(ProjectileError::InvalidParameters.message(), "Invalid parameters provided");
}

#[test]
fn projectile_derived_quantities() {
    let p = Projectile::new(168_000_000, 223_000, 2_750_000_000, 308_000, 1_200_000).unwrap();
    assert_eq!(p.weight_kg(), 10_886);
    assert_eq!(p.initial_velocity_mps(), 838_200_000);
    assert_eq!(p.sectional_density(), 252_993);
}
