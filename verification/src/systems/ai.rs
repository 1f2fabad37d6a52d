//! The paddles that the machine plays.

use vstd::prelude::*;
use crate::fixed::{clamp_fx, diff_fx, prod_fx, Fixed};
use crate::pong::{PaddleState, PausedOrRunning, World, WorldState};
use crate::systems::paddle::{carried, carry, drive, driven, with_velocity};

verus! {

/// How much acceleration the machine asks for per unit of height between
/// the ball and its paddle.
pub const AI_GAIN: i64 = 100_000_000;

/// The greatest acceleration that the machine asks for.
pub const AI_MAX_ACCELERATION: i64 = 300_000_000;

/// The acceleration that the machine asks for with the ball at `ball_y` and
/// its paddle at `paddle_y`: in proportion to the height between them, and
/// held within [`AI_MAX_ACCELERATION`].
pub open spec fn ai_acceleration(ball_y: int, paddle_y: int) -> int {
    clamp_fx(
        prod_fx(AI_GAIN as int, diff_fx(ball_y, paddle_y)),
        -AI_MAX_ACCELERATION,
        AI_MAX_ACCELERATION as int,
    )
}

/// `paddle` after a tick of `dt` in which the machine steered it toward the
/// height `ball_y`.
pub open spec fn followed(paddle: PaddleState, ball_y: int, dt: int) -> PaddleState {
    carried(
        with_velocity(
            paddle,
            driven(paddle.paddle.velocity, ai_acceleration(ball_y, paddle.transform.y), dt),
        ),
        dt,
    )
}

/// The world after the machine's paddles have moved for one tick. The
/// players' paddles stay as they are, and so does all of a frozen world and
/// of one without a ball.
pub open spec fn ai_step(world: WorldState, dt: int) -> WorldState {
    match world.ball {
        Some(ball) if world.running == PausedOrRunning::Running => WorldState {
            paddles: Seq::new(
                world.paddles.len(),
                |i: int|
                    if world.paddles[i].ai {
                        followed(world.paddles[i], ball.transform.y, dt)
                    } else {
                        world.paddles[i]
                    },
            ),
            ..world
        },
        _ => world,
    }
}

/// The system that steers the paddles that the machine plays.
#[derive(Clone, Copy, PartialEq, Eq, Debug, Default)]
pub struct AiSystem;

impl AiSystem {
    /// One tick of `dt` for every paddle that the machine plays: the paddle
    /// accelerates toward the height of the ball, in proportion to how far
    /// off it is, and then moves as any paddle does. The machine looks at
    /// where the ball is, never at where it will be. Nothing happens while
    /// the world is frozen, or has no ball.
    pub fn run(&mut self, world: &mut World, dt: Fixed)
        requires
            old(world).wf(),
        ensures
            final(world)@ == ai_step(old(world)@, dt@),
            final(world).wf(),
    {
        if world.running == PausedOrRunning::Paused {
            return ;
        }
        let ball_y = match world.ball {
            Some(ball) => ball.transform.y,
            None => {
                return ;
            },
        };
        let ghost before = world@;
        let mut i: usize = 0;
        while i < world.paddles.len()
            invariant
                i <= world.paddles.len(),
                world.wf(),
                world.paddles.len() == before.paddles.len(),
                world.ball == old(world).ball,
                world.scores == old(world).scores,
                world.running == old(world).running,
                before == old(world)@,
                before.running == PausedOrRunning::Running,
                before.ball matches Some(ball) && ball.transform.y == ball_y@,
                forall|j: int|
                    0 <= j < i ==> (#[trigger] world.paddles@[j])@ == ai_step(before, dt@).paddles[j],
                forall|j: int|
                    i <= j < world.paddles.len() ==> (#[trigger] world.paddles@[j])@
                        == before.paddles[j],
            decreases world.paddles.len() - i,
        {
            let mut entity = world.paddles[i];
            if entity.ai.is_some() {
                let paddle_y = entity.transform.y;
                let scaled_acc = Fixed { micro: AI_GAIN }.times(ball_y.minus(paddle_y)).clamped(
                    Fixed { micro: -AI_MAX_ACCELERATION },
                    Fixed { micro: AI_MAX_ACCELERATION },
                );
                drive(&mut entity.paddle, scaled_acc, dt);
                carry(&mut entity.paddle, &mut entity.transform, dt);
                world.paddles[i] = entity;
            }
            i = i + 1;
        }
        proof {
            assert(final(world)@.paddles =~= ai_step(before, dt@).paddles);
        }
    }
}

} // verus!
