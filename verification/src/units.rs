//! The units in which the simulation counts.
//!
//! Lengths and positions are whole numbers of micro-units, a millionth of an
//! arena unit. Time is counted in microseconds and velocity in whole arena
//! units per second, so that a velocity times an elapsed time is a whole
//! number of micro-units: one unit per second is one micro-unit per
//! microsecond. An input axis reading is counted in thousandths of full
//! deflection.

use vstd::prelude::*;

verus! {

/// Micro-units in one arena unit.
pub const MICROS_PER_UNIT: i64 = 1_000_000;

/// Microseconds in one second.
pub const MICROS_PER_SECOND: u32 = 1_000_000;

/// The reading of an input axis at full positive deflection.
pub const AXIS_FULL: i32 = 1_000;

} // verus!
