//! The state of the input axes during one frame.

use vstd::prelude::*;
use crate::paddle::Side;

verus! {

/// What the two paddle axes read in one frame, in thousandths of full
/// deflection. An axis that is not bound to any control reads `None`.
#[derive(Clone, Copy, Debug, PartialEq, Eq, Structural)]
pub struct AxisInput {
    pub left_paddle: Option<i32>,
    pub right_paddle: Option<i32>,
}

impl AxisInput {
    /// The reading of the axis that steers the paddle on `side`.
    pub open spec fn reading(self, side: Side) -> Option<i32> {
        match side {
            Side::Left => self.left_paddle,
            Side::Right => self.right_paddle,
        }
    }

    /// Reads the axis that steers the paddle on `side`.
    pub fn axis_value(&self, side: Side) -> (value: Option<i32>)
        ensures
            value == self.reading(side),
    {
        match side {
            Side::Left => self.left_paddle,
            Side::Right => self.right_paddle,
        }
    }
}

} // verus!
