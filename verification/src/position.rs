//! The position component of an entity.

use vstd::prelude::*;

verus! {

/// Where an entity is, in micro-units from the arena's origin.
#[derive(Clone, Copy, Debug, PartialEq, Eq, Structural)]
pub struct Position {
    pub x: i64,
    pub y: i64,
}

} // verus!
