//! Bounce reflection against the arena's bounds.

use vstd::prelude::*;
use crate::arena::{ARENA_HEIGHT, ARENA_WIDTH};
use crate::ball::Ball;
use crate::position::Position;
use crate::storage::joined;

verus! {

/// Whether a ball is leaving the arena along one axis: it is past the lower
/// bound, at zero, with a negative velocity, or its far edge is past the
/// upper bound, at `extent`, with a positive velocity. Both bounds are
/// exclusive: a ball exactly on one is not past it.
pub open spec fn leaving(coordinate: i64, radius: i64, extent: i64, velocity: i32) -> bool {
    ||| coordinate < 0 && velocity < 0
    ||| coordinate + radius > extent && velocity > 0
}

/// The velocity along one axis after reflection: reversed where the ball is
/// leaving, kept where it is not.
pub open spec fn reflected_velocity(
    coordinate: i64,
    radius: i64,
    extent: i64,
    velocity: i32,
) -> int {
    if leaving(coordinate, radius, extent, velocity) {
        -velocity
    } else {
        velocity as int
    }
}

/// Decides whether a ball is leaving the arena along one axis.
fn is_leaving(coordinate: i64, radius: i64, extent: i64, velocity: i32) -> (out: bool)
    ensures
        out == leaving(coordinate, radius, extent, velocity),
{
    (coordinate < 0 && velocity < 0) || ((coordinate as i128) + (radius as i128) > (extent as i128)
        && velocity > 0)
}

/// The square of a number is the square of its negation.
proof fn lemma_square_of_negation(v: int)
    ensures
        (-v) * (-v) == v * v,
{
    assert((-v) * (-v) == v * v) by (nonlinear_arith);
}

impl Ball {
    /// Whether each velocity component that reflection at `at` reverses can
    /// be reversed: the negation of the least 32-bit number cannot be
    /// represented.
    pub open spec fn reflect_fits(self, at: Position) -> bool {
        &&& leaving(at.x, self.radius, ARENA_WIDTH, self.velocity[0]) ==> self.velocity[0]
            > i32::MIN
        &&& leaving(at.y, self.radius, ARENA_HEIGHT, self.velocity[1]) ==> self.velocity[1]
            > i32::MIN
    }

    /// The square of the ball's speed, in squared units per second.
    pub open spec fn speed_squared(self) -> int {
        self.velocity[0] * self.velocity[0] + self.velocity[1] * self.velocity[1]
    }

    /// This ball after bounce reflection at the position `at`: each velocity
    /// component is reflected on its own axis, and nothing else changes.
    pub open spec fn reflected(self, at: Position) -> Ball
        recommends
            self.reflect_fits(at),
    {
        Ball {
            velocity: [
                reflected_velocity(at.x, self.radius, ARENA_WIDTH, self.velocity[0]) as i32,
                reflected_velocity(at.y, self.radius, ARENA_HEIGHT, self.velocity[1]) as i32,
            ],
            radius: self.radius,
        }
    }

    /// Tests whether `reflect` may be called on these arguments.
    pub fn can_reflect(&self, position: &Position) -> (ok: bool)
        ensures
            ok == self.reflect_fits(*position),
    {
        let vx: i32 = self.velocity[0];
        let vy: i32 = self.velocity[1];
        (vx > i32::MIN || !is_leaving(position.x, self.radius, ARENA_WIDTH, vx)) && (vy > i32::MIN
            || !is_leaving(position.y, self.radius, ARENA_HEIGHT, vy))
    }

    /// Bounce reflection for one ball at `position`: reverses each velocity
    /// component along which the ball is leaving the arena. The position is
    /// not corrected, and the speed is conserved.
    pub fn reflect(&mut self, position: &Position)
        requires
            old(self).reflect_fits(*position),
        ensures
            *final(self) == old(self).reflected(*position),
            final(self).velocity[0] == reflected_velocity(
                position.x,
                old(self).radius,
                ARENA_WIDTH,
                old(self).velocity[0],
            ),
            final(self).velocity[1] == reflected_velocity(
                position.y,
                old(self).radius,
                ARENA_HEIGHT,
                old(self).velocity[1],
            ),
            final(self).radius == old(self).radius,
            final(self).speed_squared() == old(self).speed_squared(),
    {
        let mut vx: i32 = self.velocity[0];
        let mut vy: i32 = self.velocity[1];
        proof {
            lemma_square_of_negation(vx as int);
            lemma_square_of_negation(vy as int);
        }
        if is_leaving(position.x, self.radius, ARENA_WIDTH, vx) {
            vx = -vx;
        }
        if is_leaving(position.y, self.radius, ARENA_HEIGHT, vy) {
            vy = -vy;
        }
        self.velocity = [vx, vy];
    }
}

/// The system that applies bounce reflection to every ball.
pub struct BounceSystem;

impl BounceSystem {
    /// Whether every ball that has a position can be reflected there.
    pub open spec fn in_range(balls: Seq<Option<Ball>>, positions: Seq<Option<Position>>) -> bool {
        forall|entity: int| #[trigger]
            joined(balls, positions, entity) ==> balls[entity]->0.reflect_fits(
                positions[entity]->0,
            )
    }

    /// The balls after one pass of bounce reflection: each entity that has
    /// both a ball and a position is reflected at that position, every other
    /// slot is kept.
    pub open spec fn pass(balls: Seq<Option<Ball>>, positions: Seq<Option<Position>>) -> Seq<
        Option<Ball>,
    > {
        Seq::new(
            balls.len(),
            |entity: int|
                if joined(balls, positions, entity) {
                    Some(balls[entity]->0.reflected(positions[entity]->0))
                } else {
                    balls[entity]
                },
        )
    }

    /// Tests whether `run` may be called on these arguments.
    pub fn can_run(&self, balls: &Vec<Option<Ball>>, positions: &Vec<Option<Position>>) -> (ok:
        bool)
        ensures
            ok == Self::in_range(balls@, positions@),
    {
        let mut entity: usize = 0;
        while entity < balls.len() && entity < positions.len()
            invariant
                forall|e: int| #[trigger]
                    joined(balls@, positions@, e) && e < entity ==> balls@[e]->0.reflect_fits(
                        positions@[e]->0,
                    ),
            decreases balls.len() - entity,
        {
            let ball: Option<Ball> = balls[entity];
            let position: Option<Position> = positions[entity];
            if let Some(ball) = ball {
                if let Some(at) = position {
                    if !ball.can_reflect(&at) {
                        assert(joined(balls@, positions@, entity as int));
                        return false;
                    }
                }
            }
            entity = entity + 1;
        }
        true
    }

    /// Bounce reflection for one frame. It reads the positions that ball
    /// motion has left, so it runs after ball motion.
    pub fn run(&mut self, balls: &mut Vec<Option<Ball>>, positions: &Vec<Option<Position>>)
        requires
            Self::in_range(old(balls)@, positions@),
        ensures
            final(balls)@ == Self::pass(old(balls)@, positions@),
    {
        let ghost before: Seq<Option<Ball>> = balls@;
        let mut entity: usize = 0;
        while entity < balls.len() && entity < positions.len()
            invariant
                balls@.len() == before.len(),
                Self::in_range(before, positions@),
                forall|e: int|
                    0 <= e < entity ==> balls@[e] == #[trigger] Self::pass(before, positions@)[e],
                forall|e: int| entity <= e < before.len() ==> balls@[e] == #[trigger] before[e],
            decreases balls.len() - entity,
        {
            let ball: Option<Ball> = balls[entity];
            let position: Option<Position> = positions[entity];
            if let Some(ball) = ball {
                if let Some(at) = position {
                    assert(joined(before, positions@, entity as int));
                    let mut bounced: Ball = ball;
                    bounced.reflect(&at);
                    balls[entity] = Some(bounced);
                }
            }
            entity = entity + 1;
        }
        assert(balls@ =~= Self::pass(before, positions@));
    }
}

} // verus!
