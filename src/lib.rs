//! Simulation kernel of a small asteroids-style arcade game: convex polygon
//! outlines, a separating-axis collision detector, a body integrator with
//! drag and screen wrap, and the per-frame lifecycle of ship, asteroids,
//! bullets and smoke.
//!
//! All arithmetic is on integers. Lengths are in subpixels (`SUBPIXELS` to a
//! pixel), angles in thousandths of a degree (`TURN` to a full turn), time
//! steps in milliseconds, and rates per second.
pub mod body;
pub mod collisions;
pub mod entities;
pub mod geometry;
pub mod levels;
pub mod shapes;
pub mod world;
