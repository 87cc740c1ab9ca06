//! Fixed-point motion for small tick-driven scenes: a mover that integrates
//! forces and bounces inside a rectangle, and a camera that follows a subject
//! with a dead zone.
//!
//! Lengths are integers in micro-units: one world unit is [`vector::UNIT`].

pub mod vector;
pub mod mover;
pub mod camera;
pub mod world;
pub mod steering;
