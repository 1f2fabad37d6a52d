//! The flight of the ball.

use vstd::prelude::*;
use crate::fixed::{diff_fx, prod_fx, sum_fx, Fixed};
use crate::pong::{
    Ball, BallModel, BallState, PausedOrRunning, Placement, Transform, World, WorldState,
    SPEED_ROT_FACTOR,
};
use crate::vector::{vector_turned, Rotation, Turn};

verus! {

/// The angle by which the spin of `ball` bends its flight in a tick of
/// `dt`.
pub open spec fn spin_angle(ball: BallModel, dt: int) -> int {
    prod_fx(prod_fx(SPEED_ROT_FACTOR as int, ball.rot_velocity), dt)
}

/// What is left of the time `timer` in hiding after a tick of `dt`: the
/// time counted down by `dt`, and nothing once that is zero or less.
pub open spec fn hidden_after(timer: int, dt: int) -> Option<int> {
    if diff_fx(timer, dt) <= 0 {
        None
    } else {
        Some(diff_fx(timer, dt))
    }
}

/// What is left of a time in hiding after `n` ticks of `dt`.
pub open spec fn hidden_after_ticks(hidden: Option<int>, dt: int, n: nat) -> Option<int>
    decreases n,
{
    if n == 0 {
        hidden
    } else {
        match hidden_after_ticks(hidden, dt, (n - 1) as nat) {
            Some(timer) => hidden_after(timer, dt),
            None => None,
        }
    }
}

/// A time in hiding goes down by `dt` with every tick, as long as more than
/// nothing is left of it, and the ball is out of hiding with the first tick
/// at which the ticks together are no shorter than the time; from then on
/// it stays out of hiding.
pub proof fn lemma_hiding_ends(timer: int, dt: int, n: nat)
    requires
        0 < timer <= i64::MAX,
        0 < dt <= i64::MAX,
    ensures
        hidden_after_ticks(Some(timer), dt, n) == if timer - n * dt > 0 {
            Some(timer - n * dt)
        } else {
            None
        },
        n * dt >= timer ==> hidden_after_ticks(Some(timer), dt, n) is None,
    decreases n,
{
    if n == 0 {
        assert(n * dt == 0) by (nonlinear_arith)
            requires
                n == 0,
        ;
    } else {
        let m = (n - 1) as nat;
        lemma_hiding_ends(timer, dt, m);
        assert(n * dt == m * dt + dt) by (nonlinear_arith)
            requires
                n == m + 1,
        ;
        assert(m * dt >= 0) by (nonlinear_arith)
            requires
                m >= 0,
                dt > 0,
        ;
    }
}

/// The ball after a tick of `dt`. A hidden ball does not move: its time in
/// hiding is counted down by `dt`, and it comes out of hiding once that
/// time is zero or less. A ball in sight has its velocity turned by `turn`,
/// moves for `dt` at the velocity that comes of it, and turns about itself
/// for `dt` at its spin.
pub open spec fn ball_moved(ball: BallState, dt: int, turn: Turn) -> BallState {
    match ball.ball.hidden {
        Some(timer) => BallState {
            ball: BallModel { hidden: hidden_after(timer, dt), ..ball.ball },
            ..ball
        },
        None => {
            let velocity = vector_turned(turn, ball.ball.velocity);
            BallState {
                ball: BallModel { velocity, ..ball.ball },
                transform: Placement {
                    x: sum_fx(ball.transform.x, prod_fx(velocity.x, dt)),
                    y: sum_fx(ball.transform.y, prod_fx(velocity.y, dt)),
                    angle: sum_fx(ball.transform.angle, prod_fx(ball.ball.rot_velocity, dt)),
                },
            }
        },
    }
}

/// The world after the ball has moved for one tick. A frozen world, and one
/// without a ball, stay as they are.
pub open spec fn move_step(world: WorldState, dt: int, turn: Turn) -> WorldState {
    match world.ball {
        Some(ball) if world.running == PausedOrRunning::Running => WorldState {
            ball: Some(ball_moved(ball, dt, turn)),
            ..world
        },
        _ => world,
    }
}

/// The system that moves the ball.
#[derive(Clone, Copy, PartialEq, Eq, Debug, Default)]
pub struct MoveBallsSystem;

impl MoveBallsSystem {
    /// The angle of the rotation that [`MoveBallsSystem::run`] is to be
    /// given for a tick of `dt`: the angle by which the spin of `ball` bends
    /// its flight.
    pub fn turn_angle(ball: &Ball, dt: Fixed) -> (angle: Fixed)
        ensures
            angle@ == spin_angle(ball@, dt@),
    {
        Fixed { micro: SPEED_ROT_FACTOR }.times(ball.rot_velocity).times(dt)
    }

    /// Moves one ball for a tick of `dt`, with no regard to walls or
    /// paddles.
    pub fn advance(ball: &mut Ball, transform: &mut Transform, dt: Fixed, turn: &Rotation)
        requires
            turn.wf(),
        ensures
            (BallState { ball: final(ball)@, transform: final(transform)@ }) == ball_moved(
                BallState { ball: old(ball)@, transform: old(transform)@ },
                dt@,
                turn@,
            ),
            final(ball).wf() == old(ball).wf(),
    {
        match ball.hidden {
            Some(timer) => {
                let left = timer.minus(dt);
                if left.micro <= 0 {
                    ball.hidden = None;
                } else {
                    ball.hidden = Some(left);
                }
            },
            None => {
                ball.velocity = turn.apply(ball.velocity);
                transform.x = transform.x.plus(ball.velocity.x.times(dt));
                transform.y = transform.y.plus(ball.velocity.y.times(dt));
                transform.angle = transform.angle.plus(ball.rot_velocity.times(dt));
            },
        }
    }

    /// One tick of `dt` for the ball. `turn` is the rotation by the ball's
    /// [`MoveBallsSystem::turn_angle`]. Nothing happens while the world is
    /// frozen, or has no ball.
    pub fn run(&mut self, world: &mut World, dt: Fixed, turn: &Rotation)
        requires
            old(world).wf(),
            turn.wf(),
        ensures
            final(world)@ == move_step(old(world)@, dt@, turn@),
            final(world).wf(),
    {
        if world.running == PausedOrRunning::Paused {
            return ;
        }
        match world.ball {
            Some(mut entity) => {
                Self::advance(&mut entity.ball, &mut entity.transform, dt, turn);
                world.ball = Some(entity);
                proof {
                    assert(final(world)@.paddles =~= old(world)@.paddles);
                }
            },
            None => {},
        }
    }
}

} // verus!
