//! Logic for an animated on-screen companion ("Manzar", a pixel cat) that
//! chases the pointer and idles, tires, sleeps, or scratches a screen edge
//! when the pointer stays put.
//!
//! The crate holds the behavior state machine, the animation-playback engine,
//! and the direction/proximity resolver; a host binds it to a rendering
//! surface, a pointer-event source, and a fixed-period tick timer.
//!
//! All geometry is exact integer arithmetic. Closeness compares squared
//! distances, the compass thresholds on the normalized delta are rewritten
//! free of the square root (`dx / sqrt(s) > 1/2` as `dx > 0 && 4*dx*dx > s`),
//! and the chase step is the exactly rounded quotient of `dx * speed` by
//! the real distance `sqrt(s)` — ties away from zero, obtained from the
//! integer square root of `4 * p * p / s` — so every contract here is an
//! equality, not an approximation.

use vstd::prelude::*;

pub mod arith;
pub mod behavior;
pub mod engine;
pub mod geometry;
pub mod sprite;
