//! Collisions of the ball with the walls and the paddles.

use vstd::prelude::*;
use crate::audio::SoundCue;
use crate::fixed::{diff_fx, neg_fx, prod_fx, quot_fx, sum_fx, Fixed, ONE};
use crate::pong::{
    Ball, BallModel, BallState, Paddle, PaddleModel, PaddleState, PausedOrRunning, Placement,
    Side, Transform, World, WorldState, ARENA_HEIGHT, GRIP_WALL, HALF, MAX_ROTATION_ON_COLLISION,
    ROT_FACTOR,
};
use crate::speed::{eleven_tenths, lemma_paddle_bounce_speed, SPEED_CEILING};
use crate::vector::{vector_norm, vector_scaled, vector_turned, Rotation, Turn, Vec2, Vector};

verus! {

/// By how much a strike on a paddle multiplies the ball's speed.
pub const SPEED_UP: i64 = 1_100_000;

/// Whether the ball is within its radius of the top or the bottom wall and
/// moves toward that wall.
pub open spec fn hits_wall(ball: BallModel, at: Placement) -> bool {
    ||| at.y <= ball.radius && ball.velocity.y < 0
    ||| at.y >= diff_fx(ARENA_HEIGHT as int, ball.radius) && ball.velocity.y > 0
}

/// One in the lower half of the arena, minus one in the upper half.
pub open spec fn wall_sign(y: int) -> int {
    if y < ARENA_HEIGHT / 2 {
        ONE as int
    } else {
        -(ONE as int)
    }
}

/// The ball after a bounce off the wall, at height `y`: its vertical speed
/// turned round, [`GRIP_WALL`] of the speed of its rim added to its
/// horizontal speed, and the same share of its spin gone.
pub open spec fn wall_bounced(ball: BallModel, y: int) -> BallModel {
    BallModel {
        velocity: Vector {
            x: sum_fx(
                ball.velocity.x,
                prod_fx(
                    prod_fx(wall_sign(y), GRIP_WALL as int),
                    prod_fx(ball.rot_velocity, ball.radius),
                ),
            ),
            y: neg_fx(ball.velocity.y),
        },
        rot_velocity: prod_fx(ball.rot_velocity, ONE - GRIP_WALL),
        ..ball
    }
}

/// Whether the ball has reached the face of the paddle and moves into it.
pub open spec fn faces(ball: BallModel, at: Placement, paddle: PaddleModel, paddle_at: Placement) -> bool {
    let half_width = prod_fx(paddle.width, HALF as int);
    match paddle.side {
        Side::Left => diff_fx(at.x, ball.radius) <= sum_fx(paddle_at.x, half_width)
            && ball.velocity.x < 0,
        Side::Right => sum_fx(at.x, ball.radius) >= diff_fx(paddle_at.x, half_width)
            && ball.velocity.x > 0,
    }
}

/// Whether the heights that the ball covers and those that the paddle
/// covers meet.
pub open spec fn overlaps(ball: BallModel, at: Placement, paddle: PaddleModel, paddle_at: Placement) -> bool {
    let half_height = prod_fx(paddle.height, HALF as int);
    !(diff_fx(at.y, ball.radius) > sum_fx(paddle_at.y, half_height) || sum_fx(at.y, ball.radius)
        < diff_fx(paddle_at.y, half_height))
}

/// Where on the paddle the ball strikes, if it does: the height of the ball
/// above the paddle's centre, as a share of half the paddle's height.
pub open spec fn collision_fraction(
    ball: BallModel,
    at: Placement,
    paddle: PaddleModel,
    paddle_at: Placement,
) -> Option<int> {
    if overlaps(ball, at, paddle, paddle_at) && faces(ball, at, paddle, paddle_at) {
        Some(quot_fx(diff_fx(at.y, paddle_at.y), prod_fx(paddle.height, HALF as int)))
    } else {
        None
    }
}

/// The angle by which a strike at `fraction` of a paddle on `side` turns the
/// ball away from straight out.
pub open spec fn deflection(side: Side, fraction: int) -> int {
    prod_fx(prod_fx(side.sign(), fraction), MAX_ROTATION_ON_COLLISION as int)
}

/// The velocity of speed `speed` that leads straight away from a paddle on
/// `side`.
pub open spec fn straight_out(side: Side, speed: int) -> Vector {
    Vector { x: prod_fx(speed, side.sign()), y: 0 }
}

/// The spin that a paddle gives to a ball of radius `radius`.
pub open spec fn spin_from(paddle: PaddleModel, radius: int) -> int {
    quot_fx(prod_fx(prod_fx(ROT_FACTOR as int, paddle.side.sign()), paddle.velocity), radius)
}

/// The ball after a strike on the paddle: it has the paddle's spin added,
/// and leaves straight out turned by `turn`, at [`SPEED_UP`] times the
/// speed at which it came.
pub open spec fn paddle_bounced(ball: BallModel, paddle: PaddleModel, turn: Turn) -> BallModel {
    BallModel {
        velocity: vector_scaled(
            vector_turned(turn, straight_out(paddle.side, vector_norm(ball.velocity))),
            SPEED_UP as int,
        ),
        rot_velocity: sum_fx(ball.rot_velocity, spin_from(paddle, ball.radius)),
        ..ball
    }
}

/// The ball after it has met `paddle`: struck, if a collision fraction
/// exists, and as it was if none does.
pub open spec fn met_paddle(
    ball: BallModel,
    at: Placement,
    paddle: PaddleModel,
    paddle_at: Placement,
    turn: Turn,
) -> BallModel {
    if collision_fraction(ball, at, paddle, paddle_at) is Some {
        paddle_bounced(ball, paddle, turn)
    } else {
        ball
    }
}

/// The ball after it has met each of `paddles` in turn, the strike on the
/// `i`-th turned by the `i`-th of `turns`.
pub open spec fn met_paddles(ball: BallModel, at: Placement, paddles: Seq<PaddleState>, turns: Seq<Turn>) -> BallModel
    decreases paddles.len(),
{
    if paddles.len() == 0 {
        ball
    } else {
        met_paddle(
            met_paddles(ball, at, paddles.drop_last(), turns),
            at,
            paddles.last().paddle,
            paddles.last().transform,
            turns[paddles.len() - 1],
        )
    }
}

/// How many of `paddles` the ball strikes as it meets each in turn.
pub open spec fn paddle_strikes(ball: BallModel, at: Placement, paddles: Seq<PaddleState>, turns: Seq<Turn>) -> nat
    decreases paddles.len(),
{
    if paddles.len() == 0 {
        0
    } else {
        let before = met_paddles(ball, at, paddles.drop_last(), turns);
        let earlier = paddle_strikes(ball, at, paddles.drop_last(), turns);
        if collision_fraction(before, at, paddles.last().paddle, paddles.last().transform) is Some {
            earlier + 1
        } else {
            earlier
        }
    }
}

/// The ball after the wall, if it hits one.
pub open spec fn met_wall(ball: BallModel, at: Placement) -> BallModel {
    if hits_wall(ball, at) {
        wall_bounced(ball, at.y)
    } else {
        ball
    }
}

/// The ball after one round of collisions: first the wall, then each paddle
/// in turn.
pub open spec fn ball_after_bounces(ball: BallState, paddles: Seq<PaddleState>, turns: Seq<Turn>) -> BallState {
    BallState {
        ball: met_paddles(met_wall(ball.ball, ball.transform), ball.transform, paddles, turns),
        transform: ball.transform,
    }
}

/// The world after one round of collisions. A frozen world, and one without
/// a ball, stay as they are.
pub open spec fn bounce_step(world: WorldState, turns: Seq<Turn>) -> WorldState {
    match world.ball {
        Some(ball) if world.running == PausedOrRunning::Running => WorldState {
            ball: Some(ball_after_bounces(ball, world.paddles, turns)),
            ..world
        },
        _ => world,
    }
}

/// The sounds of one round of collisions, in the order in which they come:
/// that of the wall, if the ball hits it, then one for each paddle struck.
pub open spec fn bounce_cues(world: WorldState, turns: Seq<Turn>) -> Seq<SoundCue> {
    match world.ball {
        Some(ball) if world.running == PausedOrRunning::Running => {
            let wall = if hits_wall(ball.ball, ball.transform) {
                seq![SoundCue::BounceWall]
            } else {
                Seq::<SoundCue>::empty()
            };
            let strikes = paddle_strikes(
                met_wall(ball.ball, ball.transform),
                ball.transform,
                world.paddles,
                turns,
            );
            wall + Seq::new(strikes, |i: int| SoundCue::BouncePaddle)
        },
        _ => Seq::<SoundCue>::empty(),
    }
}

/// Whether each of `deflections` has length one, up to rounding.
pub open spec fn all_unit(deflections: Seq<Rotation>) -> bool {
    forall|i: int| 0 <= i < deflections.len() ==> (#[trigger] deflections[i]).wf()
}

/// The rotations of `deflections`, as cosines and sines.
pub open spec fn turns_of(deflections: Seq<Rotation>) -> Seq<Turn> {
    Seq::new(deflections.len(), |i: int| deflections[i]@)
}

/// Where on the paddle the ball strikes: the height of the ball above the
/// paddle's centre as a share of half the paddle's height, if the heights
/// of the two meet, the ball has reached the paddle's face and moves into
/// it; nothing otherwise.
pub fn collision_degree(
    ball: &Ball,
    ball_transform: &Transform,
    paddle: &Paddle,
    paddle_transform: &Transform,
) -> (degree: Option<Fixed>)
    requires
        paddle.wf(),
    ensures
        degree is Some <==> collision_fraction(ball@, ball_transform@, paddle@, paddle_transform@)
            is Some,
        degree matches Some(d) ==> Some(d@) == collision_fraction(
            ball@,
            ball_transform@,
            paddle@,
            paddle_transform@,
        ),
{
    let half = Fixed { micro: HALF };
    let ball_x = ball_transform.x;
    let ball_y = ball_transform.y;
    let paddle_x = paddle_transform.x;
    let paddle_y = paddle_transform.y;
    let paddle_w = paddle.width.times(half);
    let paddle_h = paddle.height.times(half);
    let vel = ball.velocity.x;
    if ball_y.minus(ball.radius).micro > paddle_y.plus(paddle_h).micro || ball_y.plus(
        ball.radius,
    ).micro < paddle_y.minus(paddle_h).micro {
        return None;
    }
    match paddle.side {
        Side::Left => {
            if ball_x.minus(ball.radius).micro <= paddle_x.plus(paddle_w).micro && vel.micro < 0 {
                Some(ball_y.minus(paddle_y).over(paddle_h))
            } else {
                None
            }
        },
        Side::Right => {
            if ball_x.plus(ball.radius).micro >= paddle_x.minus(paddle_w).micro && vel.micro > 0 {
                Some(ball_y.minus(paddle_y).over(paddle_h))
            } else {
                None
            }
        },
    }
}

/// The system that bounces the ball off walls and paddles.
#[derive(Clone, Copy, PartialEq, Eq, Debug, Default)]
pub struct BounceSystem;

impl BounceSystem {
    /// The angle of the rotation that [`BounceSystem::run`] is to be given
    /// for `paddle`: the angle by which a strike at the ball's present
    /// height turns the ball away from straight out.
    pub fn deflection_angle(
        ball_transform: &Transform,
        paddle: &Paddle,
        paddle_transform: &Transform,
    ) -> (angle: Fixed)
        requires
            paddle.wf(),
        ensures
            angle@ == deflection(
                paddle.side,
                quot_fx(
                    diff_fx(ball_transform@.y, paddle_transform@.y),
                    prod_fx(paddle@.height, HALF as int),
                ),
            ),
    {
        let paddle_h = paddle.height.times(Fixed { micro: HALF });
        let fraction = ball_transform.y.minus(paddle_transform.y).over(paddle_h);
        paddle.side.signum().times(fraction).times(Fixed { micro: MAX_ROTATION_ON_COLLISION })
    }

    /// Bounces the ball off the wall, if it is within its radius of the top
    /// or the bottom of the arena and moves toward it.
    pub fn bounce_off_wall(ball: &mut Ball, transform: &Transform) -> (bounced: bool)
        ensures
            bounced == hits_wall(old(ball)@, transform@),
            final(ball)@ == met_wall(old(ball)@, transform@),
            final(ball).wf() == old(ball).wf(),
    {
        let ball_y = transform.y;
        let arena_height = Fixed { micro: ARENA_HEIGHT };
        if (ball_y.micro <= ball.radius.micro && ball.velocity.y.micro < 0) || (ball_y.micro
            >= arena_height.minus(ball.radius).micro && ball.velocity.y.micro > 0) {
            let sign = if ball_y.micro < ARENA_HEIGHT / 2 {
                Fixed { micro: ONE }
            } else {
                Fixed { micro: -ONE }
            };
            let push = sign.times(Fixed { micro: GRIP_WALL }).times(
                ball.rot_velocity.times(ball.radius),
            );
            ball.velocity = Vec2 { x: ball.velocity.x.plus(push), y: ball.velocity.y.negated() };
            ball.rot_velocity = ball.rot_velocity.times(Fixed { micro: ONE - GRIP_WALL });
            true
        } else {
            false
        }
    }

    /// Bounces the ball off the paddle, if a collision fraction exists: the
    /// ball takes spin from the paddle and leaves straight out turned by
    /// `deflection`, a tenth faster than it came.
    pub fn bounce_off_paddle(
        ball: &mut Ball,
        ball_transform: &Transform,
        paddle: &Paddle,
        paddle_transform: &Transform,
        deflection: &Rotation,
    ) -> (bounced: bool)
        requires
            old(ball).wf(),
            paddle.wf(),
            deflection.wf(),
        ensures
            bounced && vector_norm(old(ball)@.velocity) <= SPEED_CEILING ==> eleven_tenths(
                vector_norm(old(ball)@.velocity),
                vector_norm(final(ball)@.velocity),
            ),
            bounced == (collision_fraction(
                old(ball)@,
                ball_transform@,
                paddle@,
                paddle_transform@,
            ) is Some),
            final(ball)@ == met_paddle(
                old(ball)@,
                ball_transform@,
                paddle@,
                paddle_transform@,
                deflection@,
            ),
            final(ball).wf(),
    {
        proof {
            if vector_norm(ball@.velocity) <= SPEED_CEILING {
                lemma_paddle_bounce_speed(ball@, paddle@, deflection@);
            }
        }
        match collision_degree(ball, ball_transform, paddle, paddle_transform) {
            Some(_) => {
                let sign = paddle.side.signum();
                let spin = Fixed { micro: ROT_FACTOR }.times(sign).times(paddle.velocity).over(
                    ball.radius,
                );
                let straight = Vec2 { x: ball.velocity.norm().times(sign), y: Fixed { micro: 0 } };
                ball.rot_velocity = ball.rot_velocity.plus(spin);
                ball.velocity = deflection.apply(straight).scaled(Fixed { micro: SPEED_UP });
                true
            },
            None => false,
        }
    }

    /// One round of collisions: the ball bounces off the wall, if it hits
    /// it, and then off each paddle that it strikes, in the order of the
    /// paddles. `deflections` holds, for each paddle, the rotation by that
    /// paddle's [`BounceSystem::deflection_angle`]. The sounds of the
    /// bounces come back in their order. Nothing happens while the world is
    /// frozen, or has no ball.
    pub fn run(&mut self, world: &mut World, deflections: &Vec<Rotation>) -> (cues: Vec<SoundCue>)
        requires
            old(world).wf(),
            deflections.len() == old(world).paddles.len(),
            all_unit(deflections@),
        ensures
            final(world)@ == bounce_step(old(world)@, turns_of(deflections@)),
            cues@ == bounce_cues(old(world)@, turns_of(deflections@)),
            final(world).wf(),
    {
        let mut cues: Vec<SoundCue> = Vec::new();
        if world.running == PausedOrRunning::Paused {
            return cues;
        }
        let mut entity = match world.ball {
            Some(entity) => entity,
            None => {
                return cues;
            },
        };
        let ghost start = entity@;
        let ghost turns = turns_of(deflections@);
        let ghost paddles = world@.paddles;
        let at = entity.transform;
        let mut ball = entity.ball;
        if Self::bounce_off_wall(&mut ball, &at) {
            cues.push(SoundCue::BounceWall);
        }
        let ghost after_wall = ball@;
        let ghost wall_cues = cues@;
        let mut i: usize = 0;
        while i < world.paddles.len()
            invariant
                i <= world.paddles.len(),
                deflections.len() == world.paddles.len(),
                all_unit(deflections@),
                world.wf(),
                ball.wf(),
                turns == turns_of(deflections@),
                paddles == world@.paddles,
                ball@ == met_paddles(after_wall, at@, paddles.take(i as int), turns),
                cues@ == wall_cues + Seq::new(
                    paddle_strikes(after_wall, at@, paddles.take(i as int), turns),
                    |k: int| SoundCue::BouncePaddle,
                ),
            decreases world.paddles.len() - i,
        {
            let ghost before = ball@;
            let ghost strikes = paddle_strikes(after_wall, at@, paddles.take(i as int), turns);
            let paddle = world.paddles[i];
            let struck = Self::bounce_off_paddle(
                &mut ball,
                &at,
                &paddle.paddle,
                &paddle.transform,
                &deflections[i],
            );
            if struck {
                cues.push(SoundCue::BouncePaddle);
            }
            proof {
                let next = paddles.take(i + 1);
                assert(next.drop_last() =~= paddles.take(i as int));
                assert(next.last() == paddles[i as int]);
                assert(paddles[i as int] == world.paddles@[i as int]@);
                assert(turns[i as int] == deflections@[i as int]@);
                assert(cues@ =~= wall_cues + Seq::new(
                    paddle_strikes(after_wall, at@, next, turns),
                    |k: int| SoundCue::BouncePaddle,
                ));
            }
            i = i + 1;
        }
        proof {
            assert(paddles.take(i as int) =~= paddles);
        }
        entity.ball = ball;
        world.ball = Some(entity);
        proof {
            assert(final(world)@.paddles =~= old(world)@.paddles);
        }
        cues
    }
}

} // verus!
