//! The ball and ball motion.

use vstd::prelude::*;
use crate::position::Position;
use crate::storage::joined;
use crate::units::MICROS_PER_UNIT;

verus! {

/// Horizontal velocity of the ball at the start, in units per second.
pub const BALL_VELOCITY_X: i32 = 75;

/// Vertical velocity of the ball at the start, in units per second.
pub const BALL_VELOCITY_Y: i32 = 50;

/// Radius of the ball, 2 units, in micro-units.
pub const BALL_RADIUS: i64 = 2 * MICROS_PER_UNIT;

/// The ball component: a velocity, horizontal then vertical, in units per
/// second, and a radius in micro-units.
#[derive(Clone, Copy, Debug, PartialEq, Eq)]
pub struct Ball {
    pub velocity: [i32; 2],
    pub radius: i64,
}

/// The distance covered at `velocity` units per second in `dt_micros`
/// microseconds, in micro-units.
pub open spec fn displacement(velocity: i32, dt_micros: u32) -> int {
    velocity * dt_micros
}

/// A displacement always fits in 64 bits.
proof fn lemma_displacement_fits(velocity: i32, dt_micros: u32)
    ensures
        i64::MIN <= displacement(velocity, dt_micros) <= i64::MAX,
{
    let v: int = velocity as int;
    let t: int = dt_micros as int;
    assert(-0x8000_0000 * 0xffff_ffff <= v * t <= 0x8000_0000 * 0xffff_ffff) by (nonlinear_arith)
        requires
            -0x8000_0000 <= v <= 0x8000_0000,
            0 <= t <= 0xffff_ffff,
    ;
}

/// Computes a displacement.
fn displace(velocity: i32, dt_micros: u32) -> (delta: i64)
    ensures
        delta == displacement(velocity, dt_micros),
{
    proof {
        lemma_displacement_fits(velocity, dt_micros);
    }
    (velocity as i64) * (dt_micros as i64)
}

impl Ball {
    /// Whether the position that this ball reaches from `from` in
    /// `dt_micros` microseconds can be represented.
    pub open spec fn advance_fits(self, from: Position, dt_micros: u32) -> bool {
        &&& i64::MIN <= from.x + displacement(self.velocity[0], dt_micros) <= i64::MAX
        &&& i64::MIN <= from.y + displacement(self.velocity[1], dt_micros) <= i64::MAX
    }

    /// Where this ball is `dt_micros` microseconds after it was at `from`:
    /// each coordinate has grown by the velocity along it times the time.
    pub open spec fn advanced(self, from: Position, dt_micros: u32) -> Position
        recommends
            self.advance_fits(from, dt_micros),
    {
        Position {
            x: (from.x + displacement(self.velocity[0], dt_micros)) as i64,
            y: (from.y + displacement(self.velocity[1], dt_micros)) as i64,
        }
    }

    /// Tests whether `advance` may be called on these arguments.
    pub fn can_advance(&self, position: &Position, dt_micros: u32) -> (ok: bool)
        ensures
            ok == self.advance_fits(*position, dt_micros),
    {
        let dx: i64 = displace(self.velocity[0], dt_micros);
        let dy: i64 = displace(self.velocity[1], dt_micros);
        position.x.checked_add(dx).is_some() && position.y.checked_add(dy).is_some()
    }

    /// Ball motion for one ball and one frame of `dt_micros` microseconds:
    /// moves the position by the velocity times the elapsed time, exactly.
    pub fn advance(&self, position: &mut Position, dt_micros: u32)
        requires
            self.advance_fits(*old(position), dt_micros),
        ensures
            *final(position) == self.advanced(*old(position), dt_micros),
            final(position).x == old(position).x + self.velocity[0] * dt_micros,
            final(position).y == old(position).y + self.velocity[1] * dt_micros,
    {
        let dx: i64 = displace(self.velocity[0], dt_micros);
        let dy: i64 = displace(self.velocity[1], dt_micros);
        position.x = position.x + dx;
        position.y = position.y + dy;
    }
}

/// The system that applies ball motion to every ball.
pub struct BallSystem;

impl BallSystem {
    /// Whether every ball that has a position can be advanced by
    /// `dt_micros` microseconds.
    pub open spec fn in_range(
        positions: Seq<Option<Position>>,
        balls: Seq<Option<Ball>>,
        dt_micros: u32,
    ) -> bool {
        forall|entity: int| #[trigger]
            joined(positions, balls, entity) ==> balls[entity]->0.advance_fits(
                positions[entity]->0,
                dt_micros,
            )
    }

    /// The positions after one pass of ball motion: each entity that has both
    /// a position and a ball is advanced, every other slot is kept.
    pub open spec fn pass(
        positions: Seq<Option<Position>>,
        balls: Seq<Option<Ball>>,
        dt_micros: u32,
    ) -> Seq<Option<Position>> {
        Seq::new(
            positions.len(),
            |entity: int|
                if joined(positions, balls, entity) {
                    Some(balls[entity]->0.advanced(positions[entity]->0, dt_micros))
                } else {
                    positions[entity]
                },
        )
    }

    /// Tests whether `run` may be called on these arguments.
    pub fn can_run(
        &self,
        positions: &Vec<Option<Position>>,
        balls: &Vec<Option<Ball>>,
        dt_micros: u32,
    ) -> (ok: bool)
        ensures
            ok == Self::in_range(positions@, balls@, dt_micros),
    {
        let mut entity: usize = 0;
        while entity < positions.len() && entity < balls.len()
            invariant
                forall|e: int| #[trigger]
                    joined(positions@, balls@, e) && e < entity ==> balls@[e]->0.advance_fits(
                        positions@[e]->0,
                        dt_micros,
                    ),
            decreases positions.len() - entity,
        {
            let position: Option<Position> = positions[entity];
            let ball: Option<Ball> = balls[entity];
            if let Some(at) = position {
                if let Some(ball) = ball {
                    if !ball.can_advance(&at, dt_micros) {
                        assert(joined(positions@, balls@, entity as int));
                        return false;
                    }
                }
            }
            entity = entity + 1;
        }
        true
    }

    /// Ball motion for one frame that lasted `dt_micros` microseconds.
    pub fn run(
        &mut self,
        positions: &mut Vec<Option<Position>>,
        balls: &Vec<Option<Ball>>,
        dt_micros: u32,
    )
        requires
            Self::in_range(old(positions)@, balls@, dt_micros),
        ensures
            final(positions)@ == Self::pass(old(positions)@, balls@, dt_micros),
    {
        let ghost before: Seq<Option<Position>> = positions@;
        let mut entity: usize = 0;
        while entity < positions.len() && entity < balls.len()
            invariant
                positions@.len() == before.len(),
                Self::in_range(before, balls@, dt_micros),
                forall|e: int|
                    0 <= e < entity ==> positions@[e] == #[trigger] Self::pass(
                        before,
                        balls@,
                        dt_micros,
                    )[e],
                forall|e: int| entity <= e < before.len() ==> positions@[e] == #[trigger] before[e],
            decreases positions.len() - entity,
        {
            let position: Option<Position> = positions[entity];
            let ball: Option<Ball> = balls[entity];
            if let Some(at) = position {
                if let Some(ball) = ball {
                    assert(joined(before, balls@, entity as int));
                    let mut moved: Position = at;
                    ball.advance(&mut moved, dt_micros);
                    positions[entity] = Some(moved);
                }
            }
            entity = entity + 1;
        }
        assert(positions@ =~= Self::pass(before, balls@, dt_micros));
    }
}

} // verus!
