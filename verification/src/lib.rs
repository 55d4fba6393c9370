//! Safe, ownership-checked handles over a 2D rigid-body simulation core.
//!
//! The crate models the object graph of a rigid-body engine — bodies,
//! collision shapes, constraints, and the space that owns them — together
//! with the ownership and finalization protocol that keeps every native-style
//! handle released exactly once. The solver itself is modelled by an
//! instrumented [`engine::Engine`] that allocates handles, counts every
//! create and destroy call, and integrates gravity and velocities on
//! stepping; coordinates are exact 64-bit integers.

pub mod body;
pub mod constraint;
pub mod engine;
pub mod shape;
pub mod space;
pub mod vect;
