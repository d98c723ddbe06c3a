//! The whole state of a game and its per-frame update.

use vstd::prelude::*;
use crate::arena::{ARENA_HEIGHT, ARENA_WIDTH};
use crate::ball::{Ball, BallSystem, BALL_RADIUS, BALL_VELOCITY_X, BALL_VELOCITY_Y};
use crate::bounce::BounceSystem;
use crate::input::AxisInput;
use crate::paddle::{Paddle, PaddleSystem, Side, PADDLE_HEIGHT, PADDLE_WIDTH};
use crate::position::Position;

verus! {

/// The components of every entity, one storage for each kind.
#[derive(Debug)]
pub struct Simulation {
    pub positions: Vec<Option<Position>>,
    pub paddles: Vec<Option<Paddle>>,
    pub balls: Vec<Option<Ball>>,
}

/// Where the left paddle starts: against the left bound, halfway up.
pub open spec fn left_paddle_start() -> Position {
    Position { x: (PADDLE_WIDTH / 2) as i64, y: (ARENA_HEIGHT / 2) as i64 }
}

/// Where the right paddle starts: against the right bound, halfway up.
pub open spec fn right_paddle_start() -> Position {
    Position { x: (ARENA_WIDTH - PADDLE_WIDTH / 2) as i64, y: (ARENA_HEIGHT / 2) as i64 }
}

/// Where the ball starts: at the centre of the arena.
pub open spec fn ball_start() -> Position {
    Position { x: (ARENA_WIDTH / 2) as i64, y: (ARENA_HEIGHT / 2) as i64 }
}

/// The ball as it is at the start.
pub open spec fn starting_ball() -> Ball {
    Ball { velocity: [BALL_VELOCITY_X, BALL_VELOCITY_Y], radius: BALL_RADIUS }
}

/// Copies a storage of positions.
fn snapshot(positions: &Vec<Option<Position>>) -> (copy: Vec<Option<Position>>)
    ensures
        copy@ == positions@,
{
    let mut copy: Vec<Option<Position>> = Vec::new();
    let mut entity: usize = 0;
    while entity < positions.len()
        invariant
            entity <= positions.len(),
            copy@ == positions@.take(entity as int),
        decreases positions.len() - entity,
    {
        copy.push(positions[entity]);
        assert(copy@ =~= positions@.take(entity + 1));
        entity = entity + 1;
    }
    assert(positions@.take(positions@.len() as int) =~= positions@);
    copy
}

impl Simulation {
    /// Every storage has one slot for each entity.
    pub open spec fn wf(self) -> bool {
        &&& self.paddles@.len() == self.positions@.len()
        &&& self.balls@.len() == self.positions@.len()
    }

    /// The positions after one frame: paddle control, then ball motion. The
    /// two do not read what the other writes.
    pub open spec fn positions_after(self, input: AxisInput, dt_micros: u32) -> Seq<
        Option<Position>,
    > {
        BallSystem::pass(
            PaddleSystem::pass(self.positions@, self.paddles@, input),
            self.balls@,
            dt_micros,
        )
    }

    /// The balls after one frame: bounce reflection at the positions that
    /// ball motion has left.
    pub open spec fn balls_after(self, input: AxisInput, dt_micros: u32) -> Seq<Option<Ball>> {
        BounceSystem::pass(self.balls@, self.positions_after(input, dt_micros))
    }

    /// Whether each system can run in its turn in a frame with this input and
    /// this length.
    pub open spec fn step_fits(self, input: AxisInput, dt_micros: u32) -> bool {
        &&& PaddleSystem::in_range(self.positions@, self.paddles@, input)
        &&& BallSystem::in_range(
            PaddleSystem::pass(self.positions@, self.paddles@, input),
            self.balls@,
            dt_micros,
        )
        &&& BounceSystem::in_range(self.balls@, self.positions_after(input, dt_micros))
    }

    /// A simulation without entities.
    pub fn new() -> (simulation: Simulation)
        ensures
            simulation.wf(),
            simulation.positions@.len() == 0,
    {
        Simulation { positions: Vec::new(), paddles: Vec::new(), balls: Vec::new() }
    }

    /// Tests whether the simulation is well formed.
    pub fn is_wf(&self) -> (ok: bool)
        ensures
            ok == self.wf(),
    {
        self.paddles.len() == self.positions.len() && self.balls.len() == self.positions.len()
    }

    /// Adds an entity with the given components and returns its number, the
    /// next one free.
    pub fn create_entity(
        &mut self,
        position: Option<Position>,
        paddle: Option<Paddle>,
        ball: Option<Ball>,
    ) -> (entity: usize)
        requires
            old(self).wf(),
        ensures
            final(self).wf(),
            entity == old(self).positions@.len(),
            final(self).positions@ == old(self).positions@.push(position),
            final(self).paddles@ == old(self).paddles@.push(paddle),
            final(self).balls@ == old(self).balls@.push(ball),
    {
        let entity: usize = self.positions.len();
        self.positions.push(position);
        self.paddles.push(paddle);
        self.balls.push(ball);
        entity
    }

    /// Tests whether `step` may be called on these arguments.
    pub fn can_step(&self, input: &AxisInput, dt_micros: u32) -> (ok: bool)
        ensures
            ok == self.step_fits(*input, dt_micros),
    {
        let mut paddle_system = PaddleSystem;
        let mut ball_system = BallSystem;
        let bounce_system = BounceSystem;
        if !paddle_system.can_run(&self.positions, &self.paddles, input) {
            return false;
        }
        let mut scratch: Vec<Option<Position>> = snapshot(&self.positions);
        paddle_system.run(&mut scratch, &self.paddles, input);
        if !ball_system.can_run(&scratch, &self.balls, dt_micros) {
            return false;
        }
        ball_system.run(&mut scratch, &self.balls, dt_micros);
        bounce_system.can_run(&self.balls, &scratch)
    }

    /// One frame that lasted `dt_micros` microseconds: paddle control and
    /// ball motion, then bounce reflection.
    pub fn step(&mut self, input: &AxisInput, dt_micros: u32)
        requires
            old(self).step_fits(*input, dt_micros),
        ensures
            final(self).positions@ == old(self).positions_after(*input, dt_micros),
            final(self).balls@ == old(self).balls_after(*input, dt_micros),
            final(self).paddles@ == old(self).paddles@,
            old(self).wf() ==> final(self).wf(),
    {
        let mut paddle_system = PaddleSystem;
        let mut ball_system = BallSystem;
        let mut bounce_system = BounceSystem;
        paddle_system.run(&mut self.positions, &self.paddles, input);
        ball_system.run(&mut self.positions, &self.balls, dt_micros);
        bounce_system.run(&mut self.balls, &self.positions);
    }
}

/// Puts the two paddles into the simulation, each halfway up its own side.
pub fn initialise_paddles(simulation: &mut Simulation)
    requires
        old(simulation).wf(),
    ensures
        final(simulation).wf(),
        final(simulation).positions@ == old(simulation).positions@.push(
            Some(left_paddle_start()),
        ).push(Some(right_paddle_start())),
        final(simulation).paddles@ == old(simulation).paddles@.push(
            Some(Paddle { side: Side::Left, width: PADDLE_WIDTH, height: PADDLE_HEIGHT }),
        ).push(
            Some(Paddle { side: Side::Right, width: PADDLE_WIDTH, height: PADDLE_HEIGHT }),
        ),
        final(simulation).balls@ == old(simulation).balls@.push(None).push(None),
{
    let y: i64 = ARENA_HEIGHT / 2;
    let left = Position { x: PADDLE_WIDTH / 2, y };
    let right = Position { x: ARENA_WIDTH - PADDLE_WIDTH / 2, y };
    simulation.create_entity(Some(left), Some(Paddle::new(Side::Left)), None);
    simulation.create_entity(Some(right), Some(Paddle::new(Side::Right)), None);
}

/// Puts the ball into the simulation, at the centre of the arena and with
/// its starting velocity.
pub fn initialise_ball(simulation: &mut Simulation)
    requires
        old(simulation).wf(),
    ensures
        final(simulation).wf(),
        final(simulation).positions@ == old(simulation).positions@.push(Some(ball_start())),
        final(simulation).paddles@ == old(simulation).paddles@.push(None),
        final(simulation).balls@ == old(simulation).balls@.push(Some(starting_ball())),
{
    let at = Position { x: ARENA_WIDTH / 2, y: ARENA_HEIGHT / 2 };
    let ball = Ball { velocity: [BALL_VELOCITY_X, BALL_VELOCITY_Y], radius: BALL_RADIUS };
    simulation.create_entity(Some(at), None, Some(ball));
}

} // verus!
