//! What holds of the three routines on every input.

use vstd::prelude::*;
use crate::arena::{ARENA_HEIGHT, ARENA_WIDTH};
use crate::ball::{displacement, Ball, BallSystem};
use crate::input::AxisInput;
use crate::paddle::{Paddle, PaddleSystem};
use crate::position::Position;
use crate::simulation::Simulation;
use crate::storage::joined;

verus! {

/// Whether a ball is past both bounds of one axis at once, which only a ball
/// wider than the arena can be.
pub open spec fn straddles(coordinate: i64, radius: i64, extent: i64) -> bool {
    coordinate < 0 && coordinate + radius > extent
}

/// Whether a ball is past one bound of an axis and moves back towards the
/// inside.
pub open spec fn returning(coordinate: i64, radius: i64, extent: i64, velocity: i32) -> bool {
    ||| coordinate < 0 && velocity > 0
    ||| coordinate + radius > extent && velocity < 0
}

/// Ball motion is linear: in any frame the ball moves by its velocity times
/// the elapsed time, exactly, along each axis.
pub proof fn ball_motion_is_linear(ball: Ball, from: Position, dt_micros: u32)
    requires
        ball.advance_fits(from, dt_micros),
    ensures
        ball.advanced(from, dt_micros).x - from.x == ball.velocity[0] * dt_micros,
        ball.advanced(from, dt_micros).y - from.y == ball.velocity[1] * dt_micros,
{
}

/// Two frames of ball motion move the ball as far as one frame that lasts as
/// long as both.
pub proof fn ball_motion_adds_up(ball: Ball, from: Position, first: u32, second: u32)
    requires
        first + second <= u32::MAX,
        ball.advance_fits(from, first),
        ball.advance_fits(ball.advanced(from, first), second),
    ensures
        ball.advance_fits(from, (first + second) as u32),
        ball.advanced(ball.advanced(from, first), second) == ball.advanced(
            from,
            (first + second) as u32,
        ),
{
    let vx: int = ball.velocity[0] as int;
    let vy: int = ball.velocity[1] as int;
    let a: int = first as int;
    let b: int = second as int;
    assert(vx * (a + b) == vx * a + vx * b) by (nonlinear_arith);
    assert(vy * (a + b) == vy * a + vy * b) by (nonlinear_arith);
    assert(displacement(ball.velocity[0], (first + second) as u32) == vx * (a + b));
    assert(displacement(ball.velocity[1], (first + second) as u32) == vy * (a + b));
}

/// A bounce conserves the speed: reflection reverses velocity components and
/// never rescales one, so the magnitude of the velocity is the same before
/// and after, and so is the radius.
pub proof fn bounce_conserves_speed(ball: Ball, at: Position)
    requires
        ball.reflect_fits(at),
    ensures
        ball.reflected(at).speed_squared() == ball.speed_squared(),
        ball.reflected(at).velocity[0] == ball.velocity[0] || ball.reflected(at).velocity[0]
            == -ball.velocity[0],
        ball.reflected(at).velocity[1] == ball.velocity[1] || ball.reflected(at).velocity[1]
            == -ball.velocity[1],
        ball.reflected(at).radius == ball.radius,
{
    let vx: int = ball.velocity[0] as int;
    let vy: int = ball.velocity[1] as int;
    assert((-vx) * (-vx) == vx * vx) by (nonlinear_arith);
    assert((-vy) * (-vy) == vy * vy) by (nonlinear_arith);
}

/// No spurious second bounce: where the ball is past a bound of an axis but
/// already moves back towards the inside, reflection keeps its velocity along
/// that axis. A ball that straddles the axis is past both bounds and leaves
/// through one of them whichever way it moves, so it is left out.
pub proof fn returning_ball_keeps_velocity(ball: Ball, at: Position)
    ensures
        returning(at.x, ball.radius, ARENA_WIDTH, ball.velocity[0]) && !straddles(
            at.x,
            ball.radius,
            ARENA_WIDTH,
        ) ==> ball.reflected(at).velocity[0] == ball.velocity[0],
        returning(at.y, ball.radius, ARENA_HEIGHT, ball.velocity[1]) && !straddles(
            at.y,
            ball.radius,
            ARENA_HEIGHT,
        ) ==> ball.reflected(at).velocity[1] == ball.velocity[1],
{
}

/// No spurious second bounce: a ball that stays where it is bounces at most
/// once. Reflecting it again at the same position changes nothing, though
/// the ball may still be past the bound.
pub proof fn second_reflection_changes_nothing(ball: Ball, at: Position)
    requires
        ball.reflect_fits(at),
        !straddles(at.x, ball.radius, ARENA_WIDTH),
        !straddles(at.y, ball.radius, ARENA_HEIGHT),
    ensures
        ball.reflected(at).reflect_fits(at),
        ball.reflected(at).reflected(at) == ball.reflected(at),
{
    let once = ball.reflected(at);
    let twice = once.reflected(at);
    assert(twice.velocity[0] == once.velocity[0]);
    assert(twice.velocity[1] == once.velocity[1]);
    assert(twice.velocity =~= once.velocity);
}

/// Paddle movement is additive and not scaled by time: in a frame of any
/// length, a paddle that is no ball moves vertically by its axis reading
/// times the paddle step, and not at all horizontally.
pub proof fn paddle_movement_ignores_elapsed_time(
    simulation: Simulation,
    input: AxisInput,
    dt_micros: u32,
    entity: int,
)
    requires
        joined(simulation.positions@, simulation.paddles@, entity),
        !joined(simulation.positions@, simulation.balls@, entity),
        simulation.step_fits(input, dt_micros),
    ensures
        simulation.positions_after(input, dt_micros)[entity] matches Some(to)
            && simulation.positions@[entity] matches Some(from)
            && simulation.paddles@[entity] matches Some(paddle)
            && to.x == from.x
            && to.y == from.y + Paddle::shift(input.reading(paddle.side)),
{
    let steered = PaddleSystem::pass(simulation.positions@, simulation.paddles@, input);
    assert(!joined(steered, simulation.balls@, entity));
}

/// A frame conserves the speed of every ball, whatever else it does.
pub proof fn frame_conserves_speed(
    simulation: Simulation,
    input: AxisInput,
    dt_micros: u32,
    entity: int,
)
    requires
        simulation.step_fits(input, dt_micros),
        0 <= entity < simulation.balls@.len(),
        simulation.balls@[entity] is Some,
    ensures
        simulation.balls_after(input, dt_micros)[entity] matches Some(after)
            && simulation.balls@[entity] matches Some(before)
            && after.speed_squared() == before.speed_squared()
            && after.radius == before.radius,
{
    let positions = simulation.positions_after(input, dt_micros);
    if joined(simulation.balls@, positions, entity) {
        bounce_conserves_speed(simulation.balls@[entity]->0, positions[entity]->0);
    }
}

/// Paddle control and ball motion do not depend on one another: where both
/// orders stay in range, they leave the same positions.
pub proof fn paddle_control_and_ball_motion_commute(
    positions: Seq<Option<Position>>,
    paddles: Seq<Option<Paddle>>,
    balls: Seq<Option<Ball>>,
    input: AxisInput,
    dt_micros: u32,
)
    requires
        PaddleSystem::in_range(positions, paddles, input),
        BallSystem::in_range(PaddleSystem::pass(positions, paddles, input), balls, dt_micros),
        BallSystem::in_range(positions, balls, dt_micros),
        PaddleSystem::in_range(BallSystem::pass(positions, balls, dt_micros), paddles, input),
    ensures
        BallSystem::pass(PaddleSystem::pass(positions, paddles, input), balls, dt_micros)
            == PaddleSystem::pass(BallSystem::pass(positions, balls, dt_micros), paddles, input),
{
    let steered = PaddleSystem::pass(positions, paddles, input);
    let advanced = BallSystem::pass(positions, balls, dt_micros);
    let one = BallSystem::pass(steered, balls, dt_micros);
    let other = PaddleSystem::pass(advanced, paddles, input);
    assert forall|e: int| 0 <= e < positions.len() implies one[e] == other[e] by {
        if joined(positions, paddles, e) {
            assert(joined(advanced, paddles, e));
        } else {
            assert(!joined(advanced, paddles, e));
        }
        if joined(positions, balls, e) {
            assert(joined(steered, balls, e));
        } else {
            assert(!joined(steered, balls, e));
        }
    }
    assert(one =~= other);
}

} // verus!
