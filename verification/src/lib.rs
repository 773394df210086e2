//! Core of a two-robot pushing-match simulator.
//!
//! Two square robots with differential-drive motors move inside a circular
//! arena and try to shove each other out.  This crate holds the verified
//! heart of that simulator: the exact integer model of the arena geometry,
//! the round templates, the differential-drive command algebra, and every
//! decision the tick loop takes (collision selection, push assignment,
//! sensor gating, boundary outcomes, round sequencing).
//!
//! Lengths are measured in quarter-units: four model units make one world
//! unit, which makes every arena constant (robot side 2.5, start offset 10,
//! arena radius 20) an exact integer.  Headings that the round templates
//! fix are quarter-turns (multiples of a right angle).  The surrounding
//! binary performs the real-valued integration and the terminal rendering,
//! and routes every branch of the tick loop through the verified decision
//! functions here.

pub mod geometry;
pub mod motor;
pub mod robot;
pub mod rounds;
pub mod step;

use vstd::prelude::*;

verus! {

/// Side of a robot's square body, in quarter-units (2.5 world units).
pub const SUMO_SIZE: i64 = 10;

/// Half of a robot's side, in quarter-units: the offset from a robot's
/// center to each of its corners along either axis.
pub const HALF_SUMO: i64 = 5;

/// Magnitude of the x coordinate both robots start a round at, in
/// quarter-units (10 world units).
pub const X_INIT_POS: i64 = 40;

/// Radius of the circular arena, in quarter-units (20 world units).  A
/// robot whose center reaches this distance from the origin has fallen out.
pub const TATAMI_SIZE: i64 = 80;

} // verus!
