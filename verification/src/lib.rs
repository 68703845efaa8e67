//! Two-body elastic-collision counter.
//!
//! A small box of mass 1 rests between a wall and a larger box of mass
//! `mass_big`, which slides toward the wall with velocity 1. The boxes
//! collide elastically with each other and the small box reflects off the
//! wall until the system separates forever. This crate holds the verified
//! core of that simulation: the per-step decision logic (wall bounce and
//! termination), the collision-sequence bookkeeping and its invariant, the
//! event count, and the construction of the trajectory diagram.
//!
//! Velocities cross the crate boundary as raw IEEE 754 binary64 bit
//! patterns, so every decision the core makes is bit-exact; the numeric
//! front end performs only the elastic-collision arithmetic and feeds the
//! results back in.

pub mod sim;
pub mod svg;
pub mod velocity;

pub use sim::CollisionPair;
pub use sim::Collisions;
pub use svg::PairCoords;
