//! Fixed-point arcade simulations: a brick-breaker and an asteroid shooter.
//!
//! All geometry is carried in milli-pixels (one pixel = 1000 units), so the
//! per-frame movement, collision and entity-lifecycle rules are exact integer
//! arithmetic and can be stated and proved as contracts.

pub mod arkanoid;
pub mod asteroids;
pub mod geom;
pub mod meteor;
pub mod ship;
pub mod input;
pub mod rng;
pub mod trig;
