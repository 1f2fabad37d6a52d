//! What holds of the game, whatever is played.

use vstd::prelude::*;
use crate::event::InputState;
use crate::fixed::{div_toward_zero, lemma_floor_sqrt_exists, prod_fx, saturate, ONE};
use crate::pong::{
    next_score, BallModel, PaddleModel, Side, WorldState, GRIP_WALL, MAX_ROTATION_ON_COLLISION,
    MAX_SCORE,
};
use crate::speed::SPEED_CEILING;
use crate::states::machine::Application;
use crate::systems::ai::{ai_step, followed};
use crate::systems::bounce::{
    bounce_cues, bounce_step, deflection, paddle_bounced, straight_out, wall_bounced, SPEED_UP,
};
use crate::systems::move_balls::move_step;
use crate::systems::paddle::{
    drag_bounds, lemma_carried_contained, lemma_driven_within_limit, lemma_steered_bounds,
    on_screen, paddle_step, within_speed_limit, with_velocity, driven,
};
use crate::systems::winner::winner_step;
use crate::pong::{serve_velocity, BallState, INITIAL_BALL_SPEED};
use crate::states::game::first_ball;
use crate::systems::winner::{serve_base, served};
use crate::vector::{
    at_most_eighth, near_unit, no_turn, vector_norm, vector_turned, Turn, Vector,
};

verus! {

/// Whether `x` is a number that a fixed-point value can hold.
pub open spec fn representable(x: int) -> bool {
    i64::MIN <= x <= i64::MAX
}

/// After one tick of the players' paddles, every paddle that a player
/// steers stands between the top and the bottom of the arena; and after a
/// tick of at most two fifths of a second, its speed is within the limit if
/// its axis read a value or its speed was within the limit before.
pub proof fn lemma_players_paddles_bounded(world: WorldState, input: InputState, dt: int, i: int)
    requires
        world.running == crate::pong::PausedOrRunning::Running,
        0 <= i < world.paddles.len(),
        !world.paddles[i].ai,
    ensures
        on_screen(paddle_step(world, input, dt).paddles[i].transform.y),
        drag_bounds(dt) && (input.axis_of(world.paddles[i].paddle.side) is Some
            || within_speed_limit(world.paddles[i].paddle.velocity)) ==> within_speed_limit(
            paddle_step(world, input, dt).paddles[i].paddle.velocity,
        ),
{
    lemma_steered_bounds(world.paddles[i], input.axis_of(world.paddles[i].paddle.side), dt);
}

/// After one tick of the machine's paddles in a world with a ball, every
/// paddle that the machine plays stands between the top and the bottom of
/// the arena; and after a tick of at most two fifths of a second, its speed
/// is within the limit.
pub proof fn lemma_machines_paddles_bounded(world: WorldState, dt: int, i: int)
    requires
        world.running == crate::pong::PausedOrRunning::Running,
        world.ball is Some,
        0 <= i < world.paddles.len(),
        world.paddles[i].ai,
    ensures
        on_screen(ai_step(world, dt).paddles[i].transform.y),
        drag_bounds(dt) ==> within_speed_limit(ai_step(world, dt).paddles[i].paddle.velocity),
{
    let paddle = world.paddles[i];
    let ball_y = world.ball->0.transform.y;
    let velocity = driven(
        paddle.paddle.velocity,
        crate::systems::ai::ai_acceleration(ball_y, paddle.transform.y),
        dt,
    );
    if drag_bounds(dt) {
        lemma_driven_within_limit(
            paddle.paddle.velocity,
            crate::systems::ai::ai_acceleration(ball_y, paddle.transform.y),
            dt,
        );
    }
    lemma_carried_contained(with_velocity(paddle, velocity), dt);
    assert(ai_step(world, dt).paddles[i] == followed(paddle, ball_y, dt));
}

/// A bounce off the wall leaves the ball the spin it had times one less the
/// wall's grip: half of it, rounded toward zero to a whole number of
/// millionths, and exactly half where that number is even.
pub proof fn lemma_wall_bounce_spin(ball: BallModel, y: int)
    requires
        representable(ball.rot_velocity),
    ensures
        wall_bounced(ball, y).rot_velocity == div_toward_zero(
            ball.rot_velocity * (ONE - GRIP_WALL),
            ONE as int,
        ),
        wall_bounced(ball, y).rot_velocity == div_toward_zero(ball.rot_velocity, 2),
        ball.rot_velocity % 2 == 0 ==> 2 * wall_bounced(ball, y).rot_velocity
            == ball.rot_velocity,
{
    let r = ball.rot_velocity;
    assert(ONE - GRIP_WALL == 500_000);
    assert(ONE == 1_000_000);
    if r >= 0 {
        assert((r * 500_000) / 1_000_000 == r / 2);
    } else {
        assert(((-r) * 500_000) / 1_000_000 == (-r) / 2);
        assert(-(r * 500_000) == (-r) * 500_000);
    }
}

/// A strike at the upper edge of a paddle turns the ball away from straight
/// out by [`MAX_ROTATION_ON_COLLISION`], one at the lower edge by as much
/// the other way, and one at the centre not at all; the side of the paddle
/// decides which way is which.
pub proof fn lemma_deflection_at_edges(side: Side)
    ensures
        deflection(side, ONE as int) == match side {
            Side::Left => MAX_ROTATION_ON_COLLISION as int,
            Side::Right => -(MAX_ROTATION_ON_COLLISION as int),
        },
        deflection(side, -(ONE as int)) == match side {
            Side::Left => -(MAX_ROTATION_ON_COLLISION as int),
            Side::Right => MAX_ROTATION_ON_COLLISION as int,
        },
        deflection(side, 0) == 0,
{
    assert(ONE == 1_000_000);
    assert(ONE * ONE == 1_000_000_000_000int);
    assert(ONE * (-ONE) == -1_000_000_000_000int);
    assert((-ONE) * (-ONE) == 1_000_000_000_000int);
    assert((-ONE) * ONE == -1_000_000_000_000int);
    assert(ONE * MAX_ROTATION_ON_COLLISION == 698_132_000_000int);
}

/// Multiplying by one changes nothing.
pub proof fn lemma_product_with_one(a: int)
    requires
        representable(a),
    ensures
        prod_fx(ONE as int, a) == a,
        prod_fx(a, ONE as int) == a,
        prod_fx(a, 0) == 0,
        prod_fx(0, a) == 0,
{
    assert(ONE == 1_000_000);
    assert(a * 0 == 0);
    assert(0 * a == 0);
    assert(ONE * a == a * ONE);
    if a >= 0 {
        assert((a * 1_000_000) / 1_000_000 == a);
    } else {
        assert(-(a * 1_000_000) == (-a) * 1_000_000);
        assert(((-a) * 1_000_000) / 1_000_000 == -a);
    }
}

/// Multiplying by minus one changes the sign.
pub proof fn lemma_product_with_minus_one(a: int)
    requires
        representable(a),
        representable(-a),
    ensures
        prod_fx(a, -(ONE as int)) == -a,
{
    assert(ONE == 1_000_000);
    assert(a * (-1_000_000) == -(a * 1_000_000));
    if a > 0 {
        assert((a * 1_000_000) / 1_000_000 == a);
    } else {
        assert((-a) * 1_000_000 == -(a * 1_000_000));
        assert(((-a) * 1_000_000) / 1_000_000 == -a);
    }
}

/// The length of a vector is a natural number that a fixed-point value can
/// hold.
pub proof fn lemma_norm_is_natural(v: Vector)
    ensures
        0 <= vector_norm(v) <= i64::MAX,
{
    assert(v.x * v.x >= 0 && v.y * v.y >= 0) by (nonlinear_arith);
    lemma_floor_sqrt_exists(v.x * v.x + v.y * v.y);
}

/// A ball that strikes a paddle and is turned by no angle leaves straight
/// out: level, away from the paddle, at [`SPEED_UP`] times the speed at
/// which it came.
pub proof fn lemma_undeflected_bounce_is_straight(ball: BallModel, paddle: PaddleModel)
    ensures
        paddle_bounced(ball, paddle, no_turn()).velocity == (Vector {
            x: prod_fx(straight_out(paddle.side, vector_norm(ball.velocity)).x, SPEED_UP as int),
            y: 0,
        }),
        straight_out(paddle.side, vector_norm(ball.velocity)).x == match paddle.side {
            Side::Left => vector_norm(ball.velocity),
            Side::Right => -vector_norm(ball.velocity),
        },
{
    let speed = vector_norm(ball.velocity);
    let out = straight_out(paddle.side, speed);
    lemma_norm_is_natural(ball.velocity);
    lemma_product_with_one(speed);
    lemma_product_with_minus_one(speed);
    lemma_product_with_one(out.x);
    lemma_product_with_one(0);
}

/// A score of [`MAX_SCORE`] stays where it is, a lower one rises by one,
/// and no score rises above [`MAX_SCORE`].
pub proof fn lemma_score_saturates(score: int)
    ensures
        next_score(MAX_SCORE as int) == MAX_SCORE,
        score < MAX_SCORE ==> next_score(score) == score + 1,
        next_score(score) <= MAX_SCORE,
{
}

/// The systems of the game change the world only while the application is
/// in the game and the simulation is not frozen: in every other state, each
/// of them leaves the world as it is and makes no sound.
pub proof fn lemma_systems_gated(
    app: Application,
    input: InputState,
    dt: int,
    turn: Turn,
    turns: Seq<Turn>,
)
    requires
        app.wf(),
        !app.simulates(),
    ensures
        paddle_step(app.world@, input, dt) == app.world@,
        ai_step(app.world@, dt) == app.world@,
        move_step(app.world@, dt, turn) == app.world@,
        bounce_step(app.world@, turns) == app.world@,
        bounce_cues(app.world@, turns).len() == 0,
        winner_step(app.world@, turn) == app.world@,
{
    let world = app.world@;
    assert(paddle_step(world, input, dt).paddles =~= world.paddles);
}

/// The direction along the first axis: forward or backward, one long.
pub open spec fn axis(forward: bool) -> Vector {
    if forward {
        Vector { x: ONE as int, y: 0 }
    } else {
        Vector { x: -(ONE as int), y: 0 }
    }
}

/// Whether `v` leads the way of [`axis`] and away from it by an eighth of a
/// turn at most: it is no longer across than along.
pub open spec fn leads_within_eighth(v: Vector, forward: bool) -> bool {
    if forward {
        0 <= v.x && -v.x <= v.y <= v.x
    } else {
        v.x <= 0 && v.x <= v.y <= -v.x
    }
}

/// A serve along the first axis, turned by a rotation that has unit length
/// and turns by an eighth of a turn at most, leads the way it was meant to
/// and away from the axis by an eighth of a turn at most, however fast it
/// is; and it does lead somewhere, where the speed is two millionths or
/// more. The law speaks of speeds up to [`SPEED_CEILING`].
pub proof fn lemma_serve_within_eighth(forward: bool, norm: int, turn: Turn)
    requires
        at_most_eighth(turn),
        near_unit(turn),
        0 <= norm <= SPEED_CEILING,
    ensures
        leads_within_eighth(serve_velocity(axis(forward), norm, turn), forward),
        norm >= 2 ==> serve_velocity(axis(forward), norm, turn).x != 0,
{
    assert(ONE * ONE == 1_000_000_000_000int) by (nonlinear_arith)
        requires
            ONE == 1_000_000,
    ;
    assert(turn.cos <= 1_000_002) by (nonlinear_arith)
        requires
            turn.cos > 0,
            turn.cos * turn.cos + turn.sin * turn.sin <= 1_000_003_000_000,
    ;
    let c = turn.cos;
    let s = turn.sin;
    assert(ONE == 1_000_000);
    lemma_product_with_one(c);
    lemma_product_with_one(s);
    lemma_product_with_minus_one(c);
    lemma_product_with_minus_one(s);
    let turned = vector_turned(turn, axis(forward));
    assert(turned == if forward {
        Vector { x: c, y: s }
    } else {
        Vector { x: -c, y: -s }
    });
    let along = c * norm;
    let across = s * norm;
    assert(along >= 0 && -along <= across <= along) by (nonlinear_arith)
        requires
            along == c * norm,
            across == s * norm,
            c > 0,
            -c <= s <= c,
            norm >= 0,
    ;
    assert((-c) * norm == -along && (-s) * norm == -across) by (nonlinear_arith)
        requires
            along == c * norm,
            across == s * norm,
    ;
    assert(div_toward_zero(along, 1_000_000) >= 0);
    assert(-div_toward_zero(along, 1_000_000) <= div_toward_zero(across, 1_000_000)
        <= div_toward_zero(along, 1_000_000));
    assert(div_toward_zero(-along, 1_000_000) == -div_toward_zero(along, 1_000_000));
    assert(div_toward_zero(-across, 1_000_000) == -div_toward_zero(across, 1_000_000));
    let served = serve_velocity(axis(forward), norm, turn);
    assert(served == Vector { x: prod_fx(turned.x, norm), y: prod_fx(turned.y, norm) });
    let x = div_toward_zero(along, 1_000_000);
    let y = div_toward_zero(across, 1_000_000);
    if forward {
        assert(turned.x * norm == along);
        assert(turned.y * norm == across);
        assert(served.x == saturate(x));
        assert(served.y == saturate(y));
    } else {
        assert(turned.x * norm == -along);
        assert(turned.y * norm == -across);
        assert(served.x == saturate(-x));
        assert(served.y == saturate(-y));
    }
    assert(along <= 1_000_002 * norm) by (nonlinear_arith)
        requires
            along == c * norm,
            0 < c <= 1_000_002,
            norm >= 0,
    ;
    if norm >= 2 {
        assert(s * s <= c * c) by (nonlinear_arith)
            requires
                c > 0,
                -c <= s <= c,
        ;
        assert(c >= 707_106) by (nonlinear_arith)
            requires
                c > 0,
                2 * (c * c) >= 999_997_000_000,
        ;
        assert(along >= 1_000_000) by (nonlinear_arith)
            requires
                along == c * norm,
                c >= 707_106,
                norm >= 2,
        ;
    }
}

/// The ball that is served after a goal, and the ball that a game begins
/// with, leave into the half that the serve is meant for, and away from
/// level by an eighth of a turn at most, whatever rotation fit for a serve
/// turns them.
pub proof fn lemma_served_within_eighth(ball: BallState, turn: Turn)
    requires
        at_most_eighth(turn),
        near_unit(turn),
    ensures
        leads_within_eighth(served(ball, turn).ball.velocity, serve_base(ball.transform.x).x > 0),
        served(ball, turn).ball.velocity.x != 0,
        leads_within_eighth(first_ball(turn).ball.velocity, true),
        first_ball(turn).ball.velocity.x != 0,
{
    lemma_serve_within_eighth(true, INITIAL_BALL_SPEED as int, turn);
    lemma_serve_within_eighth(false, INITIAL_BALL_SPEED as int, turn);
    assert(ONE == 1_000_000);
}

} // verus!
