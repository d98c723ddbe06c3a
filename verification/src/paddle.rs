//! Paddles and paddle control.

use vstd::prelude::*;
use crate::input::AxisInput;
use crate::position::Position;
use crate::storage::joined;
use crate::units::MICROS_PER_UNIT;

verus! {

/// Width of a paddle, 16 units, in micro-units.
pub const PADDLE_WIDTH: i64 = 16 * MICROS_PER_UNIT;

/// Height of a paddle, 4 units, in micro-units.
pub const PADDLE_HEIGHT: i64 = 4 * MICROS_PER_UNIT;

/// How far a paddle moves in one frame for each thousandth of axis
/// deflection, in micro-units: 1.2 units at full deflection.
pub const PADDLE_STEP: i64 = 1_200;

/// The side of the arena that a paddle defends.
#[derive(Clone, Copy, Debug, PartialEq, Eq, Structural)]
pub enum Side {
    Left,
    Right,
}

impl Side {
    /// The name of the input axis that steers the paddle on this side.
    pub open spec fn axis_name_spec(self) -> Seq<char> {
        match self {
            Side::Left => "left_paddle"@,
            Side::Right => "right_paddle"@,
        }
    }

    /// The name under which the input axis for this side is bound.
    pub fn axis_name(&self) -> (name: &'static str)
        ensures
            name@ == self.axis_name_spec(),
    {
        match self {
            Side::Left => "left_paddle",
            Side::Right => "right_paddle",
        }
    }
}

/// The paddle component.
#[derive(Clone, Copy, Debug, PartialEq, Eq, Structural)]
pub struct Paddle {
    pub side: Side,
    pub width: i64,
    pub height: i64,
}

impl Paddle {
    /// A paddle of the standard size on `side`.
    pub fn new(side: Side) -> (paddle: Paddle)
        ensures
            paddle == (Paddle { side, width: PADDLE_WIDTH, height: PADDLE_HEIGHT }),
    {
        Paddle { side, width: PADDLE_WIDTH, height: PADDLE_HEIGHT }
    }

    /// The vertical displacement, in micro-units, that an axis reading asks
    /// for in one frame. An unbound axis asks for none. The displacement does
    /// not depend on how long the frame lasted.
    pub open spec fn shift(reading: Option<i32>) -> int {
        match reading {
            Some(value) => PADDLE_STEP * value,
            None => 0,
        }
    }

    /// Whether the position that `input` steers this paddle to, starting at
    /// `from`, can be represented.
    pub open spec fn steer_fits(self, from: Position, input: AxisInput) -> bool {
        i64::MIN <= from.y + Self::shift(input.reading(self.side)) <= i64::MAX
    }

    /// Where `input` steers this paddle to, starting at `from`. Nothing keeps
    /// a paddle inside the arena.
    pub open spec fn steered(self, from: Position, input: AxisInput) -> Position
        recommends
            self.steer_fits(from, input),
    {
        Position { x: from.x, y: (from.y + Self::shift(input.reading(self.side))) as i64 }
    }

    /// Tests whether `steer` may be called on these arguments.
    pub fn can_steer(&self, position: &Position, input: &AxisInput) -> (ok: bool)
        ensures
            ok == self.steer_fits(*position, *input),
    {
        match input.axis_value(self.side) {
            Some(value) => {
                let shift: i64 = PADDLE_STEP * (value as i64);
                position.y.checked_add(shift).is_some()
            },
            None => true,
        }
    }

    /// Paddle control for one paddle and one frame: moves the paddle
    /// vertically by 1.2 units times the reading of its side's axis.
    pub fn steer(&self, position: &mut Position, input: &AxisInput)
        requires
            self.steer_fits(*old(position), *input),
        ensures
            *final(position) == self.steered(*old(position), *input),
            final(position).x == old(position).x,
            final(position).y == old(position).y + Self::shift(input.reading(self.side)),
    {
        let movement: Option<i32> = input.axis_value(self.side);
        if let Some(value) = movement {
            if value != 0 {
                let shift: i64 = PADDLE_STEP * (value as i64);
                position.y = position.y + shift;
            }
        }
    }
}

/// The system that applies paddle control to every paddle.
pub struct PaddleSystem;

impl PaddleSystem {
    /// Whether every paddle that has a position can be steered by `input`.
    pub open spec fn in_range(
        positions: Seq<Option<Position>>,
        paddles: Seq<Option<Paddle>>,
        input: AxisInput,
    ) -> bool {
        forall|entity: int| #[trigger]
            joined(positions, paddles, entity) ==> paddles[entity]->0.steer_fits(
                positions[entity]->0,
                input,
            )
    }

    /// The positions after one pass of paddle control: each entity that has
    /// both a position and a paddle is steered, every other slot is kept.
    pub open spec fn pass(
        positions: Seq<Option<Position>>,
        paddles: Seq<Option<Paddle>>,
        input: AxisInput,
    ) -> Seq<Option<Position>> {
        Seq::new(
            positions.len(),
            |entity: int|
                if joined(positions, paddles, entity) {
                    Some(paddles[entity]->0.steered(positions[entity]->0, input))
                } else {
                    positions[entity]
                },
        )
    }

    /// Tests whether `run` may be called on these arguments.
    pub fn can_run(
        &self,
        positions: &Vec<Option<Position>>,
        paddles: &Vec<Option<Paddle>>,
        input: &AxisInput,
    ) -> (ok: bool)
        ensures
            ok == Self::in_range(positions@, paddles@, *input),
    {
        let mut entity: usize = 0;
        while entity < positions.len() && entity < paddles.len()
            invariant
                forall|e: int| #[trigger]
                    joined(positions@, paddles@, e) && e < entity ==> paddles@[e]->0.steer_fits(
                        positions@[e]->0,
                        *input,
                    ),
            decreases positions.len() - entity,
        {
            let position: Option<Position> = positions[entity];
            let paddle: Option<Paddle> = paddles[entity];
            if let Some(at) = position {
                if let Some(paddle) = paddle {
                    if !paddle.can_steer(&at, input) {
                        assert(joined(positions@, paddles@, entity as int));
                        return false;
                    }
                }
            }
            entity = entity + 1;
        }
        true
    }

    /// Paddle control for one frame.
    pub fn run(
        &mut self,
        positions: &mut Vec<Option<Position>>,
        paddles: &Vec<Option<Paddle>>,
        input: &AxisInput,
    )
        requires
            Self::in_range(old(positions)@, paddles@, *input),
        ensures
            final(positions)@ == Self::pass(old(positions)@, paddles@, *input),
    {
        let ghost before: Seq<Option<Position>> = positions@;
        let mut entity: usize = 0;
        while entity < positions.len() && entity < paddles.len()
            invariant
                positions@.len() == before.len(),
                Self::in_range(before, paddles@, *input),
                forall|e: int|
                    0 <= e < entity ==> positions@[e] == #[trigger] Self::pass(
                        before,
                        paddles@,
                        *input,
                    )[e],
                forall|e: int| entity <= e < before.len() ==> positions@[e] == #[trigger] before[e],
            decreases positions.len() - entity,
        {
            let position: Option<Position> = positions[entity];
            let paddle: Option<Paddle> = paddles[entity];
            if let Some(at) = position {
                if let Some(paddle) = paddle {
                    assert(joined(before, paddles@, entity as int));
                    let mut moved: Position = at;
                    paddle.steer(&mut moved, input);
                    positions[entity] = Some(moved);
                }
            }
            entity = entity + 1;
        }
        assert(positions@ =~= Self::pass(before, paddles@, *input));
    }
}

} // verus!
