//! Combat simulation core: a tick-driven model of weapons, bot decisions,
//! projectile ballistics and transform synchronization.
//!
//! All quantities are fixed-point integers: simulated time is counted in
//! milliseconds, world coordinates in millimeters, angles in milliradians
//! and normalized fractions in thousandths (per-mille).

pub mod actor;
pub mod ballistics;
pub mod bot;
pub mod drive;
pub mod math;
pub mod operate;
pub mod rng;
pub mod sync;
pub mod timer;
pub mod vec2;
pub mod weapon;
