//! A small 2D physics core: point-mass entities under accumulated forces,
//! advanced by semi-implicit Euler integration and bounced off the edges of
//! a fixed rectangular world.
//!
//! All kinematic quantities are fixed-point numbers: an `i64` counts
//! thousandths of a world unit, so every computation here is exact integer
//! arithmetic with truncating division, and every contract pins the result
//! down to the bit.

pub mod body;
pub mod config;
pub mod fixed;
pub mod forces;
pub mod particle;
pub mod rng;
pub mod shape;
pub mod vec2;
pub mod world;
