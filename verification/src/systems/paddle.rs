//! The paddles that the players steer, and how any paddle moves.

use vstd::prelude::*;
use crate::event::InputState;
use crate::fixed::{clamp_fx, diff_fx, prod_fx, sum_fx, Fixed, ONE};
use crate::pong::{
    Paddle, PaddleModel, PaddleState, PausedOrRunning, Placement, Transform, World, WorldState,
    BOTTOM_OF_SCREEN, MAX_PADDLE_SPEED, TOP_OF_SCREEN,
};

verus! {

/// The acceleration of a paddle whose axis is pushed all the way.
pub const FULL_ACCELERATION: i64 = 2_000_000_000;

/// The share of its speed that a paddle loses in a second.
pub const DRAG: i64 = 5_000_000;

/// By how much the top and the bottom of the arena multiply the speed of a
/// paddle that runs into them.
pub const REBOUND: i64 = -300_000;

/// The speed of a paddle after `dt` of `acceleration`: the speed gained is
/// added, the sum held within [`MAX_PADDLE_SPEED`], and the drag of `dt`
/// taken off.
pub open spec fn driven(velocity: int, acceleration: int, dt: int) -> int {
    prod_fx(
        clamp_fx(
            sum_fx(velocity, prod_fx(acceleration, dt)),
            -MAX_PADDLE_SPEED,
            MAX_PADDLE_SPEED as int,
        ),
        diff_fx(ONE as int, prod_fx(DRAG as int, dt)),
    )
}

/// `paddle` with the speed `velocity`.
pub open spec fn with_velocity(paddle: PaddleState, velocity: int) -> PaddleState {
    PaddleState { paddle: PaddleModel { velocity, ..paddle.paddle }, ..paddle }
}

/// `paddle` at the height `y`.
pub open spec fn at_height(paddle: PaddleState, y: int) -> PaddleState {
    PaddleState { transform: Placement { y, ..paddle.transform }, ..paddle }
}

/// `paddle` after it has moved for `dt` at its speed. Where that leads past
/// the top or the bottom of the arena, it stops there and its speed is
/// multiplied by [`REBOUND`].
pub open spec fn carried(paddle: PaddleState, dt: int) -> PaddleState {
    let y = sum_fx(paddle.transform.y, prod_fx(paddle.paddle.velocity, dt));
    if y < TOP_OF_SCREEN {
        at_height(
            with_velocity(paddle, prod_fx(paddle.paddle.velocity, REBOUND as int)),
            TOP_OF_SCREEN as int,
        )
    } else if y > BOTTOM_OF_SCREEN {
        at_height(
            with_velocity(paddle, prod_fx(paddle.paddle.velocity, REBOUND as int)),
            BOTTOM_OF_SCREEN as int,
        )
    } else {
        at_height(paddle, y)
    }
}

/// `paddle` after a tick of `dt` in which its axis read `axis`. An axis that
/// reads nothing leaves the speed as it is.
pub open spec fn steered(paddle: PaddleState, axis: Option<int>, dt: int) -> PaddleState {
    match axis {
        Some(a) => carried(
            with_velocity(
                paddle,
                driven(paddle.paddle.velocity, prod_fx(FULL_ACCELERATION as int, a), dt),
            ),
            dt,
        ),
        None => carried(paddle, dt),
    }
}

/// The world after the players' paddles have moved for one tick. The
/// paddles that the machine plays, and a frozen world, stay as they are.
pub open spec fn paddle_step(world: WorldState, input: InputState, dt: int) -> WorldState {
    if world.running == PausedOrRunning::Running {
        WorldState {
            paddles: Seq::new(
                world.paddles.len(),
                |i: int|
                    if world.paddles[i].ai {
                        world.paddles[i]
                    } else {
                        steered(world.paddles[i], input.axis_of(world.paddles[i].paddle.side), dt)
                    },
            ),
            ..world
        }
    } else {
        world
    }
}

/// Whether `velocity` is a speed that [`MAX_PADDLE_SPEED`] allows.
pub open spec fn within_speed_limit(velocity: int) -> bool {
    -MAX_PADDLE_SPEED <= velocity <= MAX_PADDLE_SPEED
}

/// Whether `y` is a height between the top and the bottom of the arena at
/// which a paddle fits.
pub open spec fn on_screen(y: int) -> bool {
    TOP_OF_SCREEN <= y <= BOTTOM_OF_SCREEN
}

/// Whether a tick of `dt` gives a paddle no more speed than it had: `dt` is
/// not negative and at most two fifths of a second.
pub open spec fn drag_bounds(dt: int) -> bool {
    0 <= dt <= 400_000
}

/// A product with a factor between minus one and one is no further from
/// zero than the other factor.
pub proof fn lemma_product_shrinks(a: int, b: int, limit: int)
    requires
        -limit <= a <= limit,
        -ONE <= b <= ONE,
        0 <= limit <= i64::MAX,
    ensures
        -limit <= prod_fx(a, b) <= limit,
{
    let one = ONE as int;
    assert(-limit * one <= a * b <= limit * one) by (nonlinear_arith)
        requires
            -limit <= a <= limit,
            -one <= b <= one,
            0 <= limit,
            one > 0,
    ;
    if a * b >= 0 {
        assert((a * b) / one <= limit) by (nonlinear_arith)
            requires
                0 <= a * b <= limit * one,
                one > 0,
        ;
        assert((a * b) / one >= 0) by (nonlinear_arith)
            requires
                0 <= a * b,
                one > 0,
        ;
    } else {
        assert((-(a * b)) / one <= limit) by (nonlinear_arith)
            requires
                0 <= -(a * b) <= limit * one,
                one > 0,
        ;
        assert((-(a * b)) / one >= 0) by (nonlinear_arith)
            requires
                0 <= -(a * b),
                one > 0,
        ;
    }
}

/// After a paddle has been driven for a tick of at most two fifths of a
/// second, its speed is within [`MAX_PADDLE_SPEED`], whatever it was and
/// however it was accelerated.
pub proof fn lemma_driven_within_limit(velocity: int, acceleration: int, dt: int)
    requires
        drag_bounds(dt),
    ensures
        within_speed_limit(driven(velocity, acceleration, dt)),
{
    let held = clamp_fx(
        sum_fx(velocity, prod_fx(acceleration, dt)),
        -MAX_PADDLE_SPEED,
        MAX_PADDLE_SPEED as int,
    );
    let rest = diff_fx(ONE as int, prod_fx(DRAG as int, dt));
    assert(DRAG * dt == 5_000_000 * dt);
    assert(-ONE <= rest <= ONE);
    lemma_product_shrinks(held, rest, MAX_PADDLE_SPEED as int);
}

/// A paddle that has been carried stands between the top and the bottom of
/// the arena, and is no faster than it was.
pub proof fn lemma_carried_contained(paddle: PaddleState, dt: int)
    ensures
        on_screen(carried(paddle, dt).transform.y),
        within_speed_limit(paddle.paddle.velocity) ==> within_speed_limit(
            carried(paddle, dt).paddle.velocity,
        ),
{
    if within_speed_limit(paddle.paddle.velocity) {
        lemma_product_shrinks(paddle.paddle.velocity, REBOUND as int, MAX_PADDLE_SPEED as int);
    }
}

/// After one tick of at most two fifths of a second, a paddle whose axis
/// reads a value, or whose speed was within [`MAX_PADDLE_SPEED`] before,
/// has a speed within [`MAX_PADDLE_SPEED`]; and after any tick it stands
/// between the top and the bottom of the arena.
pub proof fn lemma_steered_bounds(paddle: PaddleState, axis: Option<int>, dt: int)
    ensures
        on_screen(steered(paddle, axis, dt).transform.y),
        drag_bounds(dt) && (axis is Some || within_speed_limit(paddle.paddle.velocity))
            ==> within_speed_limit(steered(paddle, axis, dt).paddle.velocity),
{
    match axis {
        Some(a) => {
            let fast = with_velocity(
                paddle,
                driven(paddle.paddle.velocity, prod_fx(FULL_ACCELERATION as int, a), dt),
            );
            if drag_bounds(dt) {
                lemma_driven_within_limit(
                    paddle.paddle.velocity,
                    prod_fx(FULL_ACCELERATION as int, a),
                    dt,
                );
            }
            lemma_carried_contained(fast, dt);
        },
        None => {
            lemma_carried_contained(paddle, dt);
        },
    }
}

/// Gives `paddle` the speed that `dt` of `acceleration` leads to.
pub fn drive(paddle: &mut Paddle, acceleration: Fixed, dt: Fixed)
    ensures
        final(paddle)@ == (PaddleModel {
            velocity: driven(old(paddle)@.velocity, acceleration@, dt@),
            ..old(paddle)@
        }),
        final(paddle).wf() == old(paddle).wf(),
        drag_bounds(dt@) ==> within_speed_limit(final(paddle)@.velocity),
{
    let new_speed = paddle.velocity.plus(acceleration.times(dt));
    let held = new_speed.clamped(
        Fixed { micro: -MAX_PADDLE_SPEED },
        Fixed { micro: MAX_PADDLE_SPEED },
    );
    proof {
        if drag_bounds(dt@) {
            lemma_driven_within_limit(paddle@.velocity, acceleration@, dt@);
        }
    }
    paddle.velocity = held.times(Fixed { micro: ONE }.minus(Fixed { micro: DRAG }.times(dt)));
}

/// Moves `paddle` for `dt` at its speed, and keeps it between the top and
/// the bottom of the arena: where it would pass either, it stops there and
/// its speed is multiplied by [`REBOUND`].
pub fn carry(paddle: &mut Paddle, transform: &mut Transform, dt: Fixed)
    ensures
        (PaddleState { paddle: final(paddle)@, transform: final(transform)@, ai: false })
            == carried(
            PaddleState { paddle: old(paddle)@, transform: old(transform)@, ai: false },
            dt@,
        ),
        final(paddle).wf() == old(paddle).wf(),
        on_screen(final(transform)@.y),
        within_speed_limit(old(paddle)@.velocity) ==> within_speed_limit(final(paddle)@.velocity),
{
    proof {
        lemma_carried_contained(
            PaddleState { paddle: paddle@, transform: transform@, ai: false },
            dt@,
        );
    }
    let mut paddle_y = transform.y.plus(paddle.velocity.times(dt));
    if paddle_y.micro < TOP_OF_SCREEN {
        paddle_y = Fixed { micro: TOP_OF_SCREEN };
        paddle.velocity = paddle.velocity.times(Fixed { micro: REBOUND });
    } else if paddle_y.micro > BOTTOM_OF_SCREEN {
        paddle_y = Fixed { micro: BOTTOM_OF_SCREEN };
        paddle.velocity = paddle.velocity.times(Fixed { micro: REBOUND });
    }
    transform.y = paddle_y;
}

/// The system that moves the paddles that the players steer.
#[derive(Clone, Copy, PartialEq, Eq, Debug, Default)]
pub struct PaddleSystem;

impl PaddleSystem {
    /// One tick of `dt` for every paddle that the machine does not play:
    /// the paddle gains the speed that its axis asks for, is held within
    /// [`MAX_PADDLE_SPEED`], loses the drag of `dt`, moves, and is kept
    /// between the top and the bottom of the arena. Nothing happens while
    /// the world is frozen.
    pub fn run(&mut self, world: &mut World, input: &InputState, dt: Fixed)
        requires
            old(world).wf(),
        ensures
            final(world)@ == paddle_step(old(world)@, *input, dt@),
            final(world).wf(),
    {
        if world.running == PausedOrRunning::Paused {
            return ;
        }
        let ghost before = world@;
        let mut i: usize = 0;
        while i < world.paddles.len()
            invariant
                i <= world.paddles.len(),
                world.wf(),
                world.paddles.len() == before.paddles.len(),
                world.ball == old(world).ball,
                world.scores == old(world).scores,
                world.running == old(world).running,
                before == old(world)@,
                before.running == PausedOrRunning::Running,
                forall|j: int|
                    0 <= j < i ==> (#[trigger] world.paddles@[j])@ == paddle_step(
                        before,
                        *input,
                        dt@,
                    ).paddles[j],
                forall|j: int|
                    i <= j < world.paddles.len() ==> (#[trigger] world.paddles@[j])@
                        == before.paddles[j],
            decreases world.paddles.len() - i,
        {
            let mut entity = world.paddles[i];
            if entity.ai.is_none() {
                match input.axis(entity.paddle.side) {
                    Some(axis) => {
                        drive(
                            &mut entity.paddle,
                            Fixed { micro: FULL_ACCELERATION }.times(axis),
                            dt,
                        );
                    },
                    None => {},
                }
                carry(&mut entity.paddle, &mut entity.transform, dt);
                world.paddles[i] = entity;
            }
            i = i + 1;
        }
        proof {
            assert(final(world)@.paddles =~= paddle_step(before, *input, dt@).paddles);
        }
    }
}

} // verus!
