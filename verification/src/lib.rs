//! Verified core of a small real-time tank simulation: noise-driven agent
//! motion, projectile ballistics with ground bounce and despawn, and a chase
//! camera. All world quantities are fixed-point integers (micro-units, see
//! [`fixed::SCALE`]); the platform-dependent pieces (procedural noise,
//! trigonometry, rendering) live outside the library and hand plain values in.

pub mod camera;
pub mod color;
pub mod fixed;
pub mod motion;
pub mod pose;
pub mod projectile;
pub mod vec3;
pub mod world;
