//! A lazily advanced falling-body simulation.
//!
//! Each body carries a 4x4 transform, a vertical velocity, a grounded flag and
//! a last-update timestamp. A body is never stepped by a background loop:
//! every query advances it by the real time elapsed since it was last queried,
//! applying gravity, a damped ground bounce, and a rest ("grounded") state.
//!
//! All physical quantities are fixed-point integers: the value `1.0` is
//! represented by [`model::SCALE`] units, so the arithmetic is exact and every
//! step is a deterministic function of the previous state and the elapsed time.

use vstd::prelude::*;

pub mod model;
pub mod routes;
pub mod simulation;

verus! {

/// Highest valid body index; the population holds `MAX_ID + 1` bodies.
pub const MAX_ID: u32 = 50;

} // verus!
