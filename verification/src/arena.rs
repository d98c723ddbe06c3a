//! The play field: a fixed rectangle with one corner at the origin.

use vstd::prelude::*;
use crate::units::MICROS_PER_UNIT;

verus! {

/// Width of the arena, 100 units, in micro-units.
pub const ARENA_WIDTH: i64 = 100 * MICROS_PER_UNIT;

/// Height of the arena, 100 units, in micro-units.
pub const ARENA_HEIGHT: i64 = 100 * MICROS_PER_UNIT;

} // verus!
