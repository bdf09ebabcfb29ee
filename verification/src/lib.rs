//! Ballistic trajectory engine.
//!
//! Simulates the flight of a fired projectile under gravity, aerodynamic
//! drag and wind, producing a discretized trajectory (position, velocity,
//! energy over time) usable for aiming corrections.
//!
//! Every physical quantity is carried as a 64-bit signed integer holding
//! millionths of the stated unit ("micro-units"): a weight of 168 grains is
//! `168_000_000`, a muzzle velocity of 2750 ft/s is `2_750_000_000`. All
//! arithmetic is fixed-point over that scale, with truncating division, and
//! is proved free of overflow.

pub mod arith;
pub mod conversions;
pub mod drag;
pub mod environment;
pub mod physics;
pub mod projectile;
pub mod trajectory;
pub mod trig;

pub use drag::DragModel;
pub use drag::G1DragModel;
pub use drag::G7DragModel;
pub use environment::Environment;
pub use environment::EnvironmentError;
pub use physics::TrajectoryCalculator;
pub use projectile::Projectile;
pub use projectile::ProjectileError;
pub use trajectory::TrajectoryPoint;
