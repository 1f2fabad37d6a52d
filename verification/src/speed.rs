//! How fast the ball leaves a paddle.

use vstd::prelude::*;
use crate::fixed::{
    div_toward_zero, floor_sqrt, is_floor_sqrt, lemma_floor_sqrt_exists, prod_fx, ONE,
};
use crate::laws::{lemma_norm_is_natural, lemma_product_with_minus_one, lemma_product_with_one};
use crate::pong::{BallModel, PaddleModel};
use crate::pong::{PaddleState, PausedOrRunning, Placement, WorldState};
use crate::systems::bounce::{
    bounce_step, collision_fraction, hits_wall, met_paddles, paddle_bounced, paddle_strikes,
    straight_out, SPEED_UP,
};
use crate::vector::{near_unit, vector_norm, Turn, Vector};

verus! {

/// The greatest speed of which the law of this file speaks: beyond it the
/// speed after a strike may be more than a fixed-point value can hold.
pub const SPEED_CEILING: i64 = 4_000_000_000_000_000_000;

/// Whether the speed `after` is eleven tenths of the speed `before`, up to
/// seventy-one tenths of a millionth and twenty-two ten-millionths of
/// `before`.
pub open spec fn eleven_tenths(before: int, after: int) -> bool {
    -(22 * before + 71 * ONE) < ONE * (10 * after - 11 * before) <= 22 * before + 30 * ONE
}

/// A quotient rounded toward zero, multiplied back, is less than the
/// divisor away from what was divided, and no further from zero.
pub proof fn lemma_rounding_error(n: int)
    ensures
        -999_999 <= n - 1_000_000 * div_toward_zero(n, 1_000_000) <= 999_999,
        n >= 0 ==> 0 <= div_toward_zero(n, 1_000_000) <= n,
        n <= 0 ==> n <= div_toward_zero(n, 1_000_000) <= 0,
{
}

/// The square of a sum of two products is at most the product of the sums
/// of the squares.
pub proof fn lemma_products_bounded(p: int, q: int, r: int, t: int)
    ensures
        (p * q + r * t) * (p * q + r * t) <= (p * p + r * r) * (q * q + t * t),
{
    let a = p * q;
    let b = r * t;
    let c = p * t;
    let d = r * q;
    let pp = p * p;
    let qq = q * q;
    let rr = r * r;
    let tt = t * t;
    assert(a * b == c * d) by (nonlinear_arith)
        requires
            a == p * q,
            b == r * t,
            c == p * t,
            d == r * q,
    ;
    assert(pp * qq == a * a) by (nonlinear_arith)
        requires
            a == p * q,
            pp == p * p,
            qq == q * q,
    ;
    assert(rr * tt == b * b) by (nonlinear_arith)
        requires
            b == r * t,
            rr == r * r,
            tt == t * t,
    ;
    assert(pp * tt == c * c) by (nonlinear_arith)
        requires
            c == p * t,
            pp == p * p,
            tt == t * t,
    ;
    assert(rr * qq == d * d) by (nonlinear_arith)
        requires
            d == r * q,
            rr == r * r,
            qq == q * q,
    ;
    assert((pp + rr) * (qq + tt) == pp * qq + pp * tt + rr * qq + rr * tt) by (nonlinear_arith);
    assert((a + b) * (a + b) == a * a + 2 * (a * b) + b * b) by (nonlinear_arith);
    assert((c - d) * (c - d) == c * c - 2 * (c * d) + d * d) by (nonlinear_arith);
    assert((c - d) * (c - d) >= 0) by (nonlinear_arith);
}

/// A number whose square is at most that of a natural number is at most
/// that number.
pub proof fn lemma_root_monotonic(u: int, v: int)
    requires
        0 <= v,
        u * u <= v * v,
    ensures
        u <= v,
{
    if u > v {
        assert(u * u > v * v) by (nonlinear_arith)
            requires
                u > v,
                v >= 0,
        ;
    }
}

/// What the proof below knows of the two vectors that it compares: the
/// exact one, `(ax, ay)`, whose squared length lies between the squares of
/// `lo` and `hi`, and the rounded one, which is `(ex, ey)` away from it.
pub open spec fn close_vectors(ax: int, ay: int, ex: int, ey: int, lo: int, hi: int, k: int) -> bool {
    &&& 0 <= lo <= hi
    &&& 0 <= k
    &&& lo * lo <= ax * ax + ay * ay <= hi * hi
    &&& ex * ex + ey * ey <= k * k
}

/// The squared length of the rounded vector is at most the square of `hi`
/// and `k` together, and at least the square of `lo` less twice the product
/// of `hi` and `k`.
pub proof fn lemma_close_vectors(ax: int, ay: int, ex: int, ey: int, lo: int, hi: int, k: int)
    requires
        close_vectors(ax, ay, ex, ey, lo, hi, k),
    ensures
        (ax - ex) * (ax - ex) + (ay - ey) * (ay - ey) <= (hi + k) * (hi + k),
        (ax - ex) * (ax - ex) + (ay - ey) * (ay - ey) >= lo * lo - 2 * (hi * k),
{
    let aa = ax * ax + ay * ay;
    let ee = ex * ex + ey * ey;
    let d = ax * ex + ay * ey;
    lemma_products_bounded(ax, ex, ay, ey);
    assert(d * d <= aa * ee);
    assert(aa >= 0 && ee >= 0) by (nonlinear_arith)
        requires
            aa == ax * ax + ay * ay,
            ee == ex * ex + ey * ey,
    ;
    assert(aa * ee <= (hi * hi) * (k * k)) by (nonlinear_arith)
        requires
            0 <= aa <= hi * hi,
            0 <= ee <= k * k,
    ;
    assert((hi * hi) * (k * k) == (hi * k) * (hi * k)) by (nonlinear_arith);
    assert(hi * k >= 0) by (nonlinear_arith)
        requires
            hi >= 0,
            k >= 0,
    ;
    lemma_root_monotonic(d, hi * k);
    assert((-d) * (-d) == d * d) by (nonlinear_arith);
    lemma_root_monotonic(-d, hi * k);
    assert((ax - ex) * (ax - ex) + (ay - ey) * (ay - ey) == aa - 2 * d + ee) by (nonlinear_arith)
        requires
            aa == ax * ax + ay * ay,
            ee == ex * ex + ey * ey,
            d == ax * ex + ay * ey,
    ;
    assert((hi + k) * (hi + k) == hi * hi + 2 * (hi * k) + k * k) by (nonlinear_arith);
}

/// The law of the strike, on whole numbers: a vector of length `speed`
/// along the first axis, turned by a rotation of length about one, rounded,
/// made a tenth longer and rounded again, is eleven tenths of `speed` long,
/// up to seventy-one tenths of a millionth and twenty-two ten-millionths of
/// `speed`.
pub proof fn lemma_turned_speed(c: int, s: int, w: int, speed: int)
    requires
        near_unit(Turn { cos: c, sin: s }),
        0 <= speed <= SPEED_CEILING,
        w == speed || w == -speed,
    ensures
        ({
            let x1 = div_toward_zero(c * w, 1_000_000);
            let y1 = div_toward_zero(s * w, 1_000_000);
            let x2 = div_toward_zero(x1 * 1_100_000, 1_000_000);
            let y2 = div_toward_zero(y1 * 1_100_000, 1_000_000);
            let n = floor_sqrt(x2 * x2 + y2 * y2);
            &&& -5_000_000_000_000_000_000 <= x1 <= 5_000_000_000_000_000_000
            &&& -5_000_000_000_000_000_000 <= y1 <= 5_000_000_000_000_000_000
            &&& -5_000_000_000_000_000_000 <= x2 <= 5_000_000_000_000_000_000
            &&& -5_000_000_000_000_000_000 <= y2 <= 5_000_000_000_000_000_000
            &&& 0 <= n <= 5_000_000_000_000_000_000
            &&& -(22 * speed + 71_000_000) < 1_000_000 * (10 * n - 11 * speed) <= 22 * speed
                + 30_000_000
        }),
{
    let one: int = 1_000_000;
    assert(ONE == 1_000_000);
    let a = c * w;
    let b = s * w;
    let x1 = div_toward_zero(a, 1_000_000);
    let y1 = div_toward_zero(b, 1_000_000);
    let x2 = div_toward_zero(x1 * 1_100_000, 1_000_000);
    let y2 = div_toward_zero(y1 * 1_100_000, 1_000_000);
    let q = x2 * x2 + y2 * y2;
    let n = floor_sqrt(q);
    let unit = c * c + s * s;
    assert(1_000_000 * 1_000_000 == 1_000_000_000_000int);
    assert(ONE * ONE == 1_000_000_000_000int) by (nonlinear_arith)
        requires
            ONE == 1_000_000,
    ;
    assert(999_997_000_000 <= unit <= 1_000_003_000_000);
    // The exact vector, a million million times as long as the turned one.
    let ax = 1_100_000 * a;
    let ay = 1_100_000 * b;
    let hi = 1_100_000 * speed * 1_000_002;
    let lo = 1_100_000 * speed * 999_998;
    assert(a * a + b * b == (w * w) * unit) by (nonlinear_arith)
        requires
            a == c * w,
            b == s * w,
            unit == c * c + s * s,
    ;
    assert(w * w == speed * speed) by (nonlinear_arith)
        requires
            w == speed || w == -speed,
    ;
    let ss = speed * speed;
    assert(ss >= 0) by (nonlinear_arith)
        requires
            ss == speed * speed,
    ;
    assert(ss * 999_997_000_000 <= ss * unit <= ss * 1_000_003_000_000) by (nonlinear_arith)
        requires
            ss >= 0,
            999_997_000_000 <= unit <= 1_000_003_000_000,
    ;
    assert(ax * ax + ay * ay == 1_210_000_000_000 * (a * a + b * b)) by (nonlinear_arith)
        requires
            ax == 1_100_000 * a,
            ay == 1_100_000 * b,
    ;
    assert(hi * hi == 1_210_000_000_000 * (ss * 1_000_004_000_004)) by (nonlinear_arith)
        requires
            hi == 1_100_000 * speed * 1_000_002,
            ss == speed * speed,
    ;
    assert(lo * lo == 1_210_000_000_000 * (ss * 999_996_000_004)) by (nonlinear_arith)
        requires
            lo == 1_100_000 * speed * 999_998,
            ss == speed * speed,
    ;
    assert(lo * lo <= ax * ax + ay * ay <= hi * hi);
    // What rounding took away.
    lemma_rounding_error(a);
    lemma_rounding_error(b);
    lemma_rounding_error(x1 * 1_100_000);
    lemma_rounding_error(y1 * 1_100_000);
    let ex = 1_100_000 * (a - 1_000_000 * x1) + 1_000_000 * (x1 * 1_100_000 - 1_000_000 * x2);
    let ey = 1_100_000 * (b - 1_000_000 * y1) + 1_000_000 * (y1 * 1_100_000 - 1_000_000 * y2);
    let k = 3_000_000_000_000int;
    assert(-2_100_000_000_000 < ex < 2_100_000_000_000);
    assert(-2_100_000_000_000 < ey < 2_100_000_000_000);
    assert(ex * ex <= 2_100_000_000_000 * 2_100_000_000_000) by (nonlinear_arith)
        requires
            -2_100_000_000_000 < ex < 2_100_000_000_000,
    ;
    assert(ey * ey <= 2_100_000_000_000 * 2_100_000_000_000) by (nonlinear_arith)
        requires
            -2_100_000_000_000 < ey < 2_100_000_000_000,
    ;
    assert(2_100_000_000_000 * 2_100_000_000_000 == 4_410_000_000_000_000_000_000_000int);
    assert(k * k == 9_000_000_000_000_000_000_000_000int);
    assert(close_vectors(ax, ay, ex, ey, lo, hi, k));
    lemma_close_vectors(ax, ay, ex, ey, lo, hi, k);
    // The rounded vector, a million million times as long.
    let big = 1_000_000_000_000int;
    assert(ax - ex == big * x2);
    assert(ay - ey == big * y2);
    assert((big * x2) * (big * x2) + (big * y2) * (big * y2) == (big * big) * q) by (nonlinear_arith)
        requires
            q == x2 * x2 + y2 * y2,
    ;
    // Its length, rounded down.
    assert(q >= 0) by (nonlinear_arith)
        requires
            q == x2 * x2 + y2 * y2,
    ;
    lemma_floor_sqrt_exists(q);
    assert(is_floor_sqrt(n, q));
    assert((big * n) * (big * n) == (big * big) * (n * n)) by (nonlinear_arith);
    assert((big * (n + 1)) * (big * (n + 1)) == (big * big) * ((n + 1) * (n + 1))) by (nonlinear_arith);
    assert((big * big) * (n * n) <= (big * big) * q) by (nonlinear_arith)
        requires
            n * n <= q,
            big * big >= 0,
    ;
    assert((big * big) * q < (big * big) * ((n + 1) * (n + 1))) by (nonlinear_arith)
        requires
            q < (n + 1) * (n + 1),
            big * big > 0,
    ;
    // From above.
    lemma_root_monotonic(big * n, hi + k);
    // From below.
    let slack = 6_100_000_000_000int;
    if lo > slack {
        assert((lo - slack) * (lo - slack) == lo * lo - 2 * (lo * slack) + slack * slack) by (nonlinear_arith);
        assert(lo * slack == 6_100_000_000_000 * lo);
        assert(slack * slack == 37_210_000_000_000_000_000_000_000int);
        assert(hi * k == 3_000_000_000_000 * hi);
        assert((lo - slack) * (lo - slack) <= lo * lo - 2 * (hi * k));
        if big * (n + 1) <= lo - slack {
            assert((big * (n + 1)) * (big * (n + 1)) <= (lo - slack) * (lo - slack)) by (nonlinear_arith)
                requires
                    0 <= big * (n + 1) <= lo - slack,
            ;
        }
    }
    assert(big * (n + 1) > lo - slack);
    // The sizes of all that was rounded.
    assert(-1_000_002 <= c <= 1_000_002 && -1_000_002 <= s <= 1_000_002) by (nonlinear_arith)
        requires
            c * c + s * s <= 1_000_003_000_000,
    ;
    assert(-1_000_002 * speed <= a <= 1_000_002 * speed) by (nonlinear_arith)
        requires
            a == c * w,
            -1_000_002 <= c <= 1_000_002,
            w == speed || w == -speed,
            speed >= 0,
    ;
    assert(-1_000_002 * speed <= b <= 1_000_002 * speed) by (nonlinear_arith)
        requires
            b == s * w,
            -1_000_002 <= s <= 1_000_002,
            w == speed || w == -speed,
            speed >= 0,
    ;
    assert(-5_000_000_000_000_000_000 <= x1 <= 5_000_000_000_000_000_000);
    assert(-5_000_000_000_000_000_000 <= y1 <= 5_000_000_000_000_000_000);
    assert(-5_000_000_000_000_000_000 <= x2 <= 5_000_000_000_000_000_000);
    assert(-5_000_000_000_000_000_000 <= y2 <= 5_000_000_000_000_000_000);
    assert(big * n <= hi + k);
    assert(0 <= n <= 5_000_000_000_000_000_000);
    assert(1_000_000 * (10 * n - 11 * speed) <= 22 * speed + 30_000_000);
    assert(-(22 * speed + 71_000_000) < 1_000_000 * (10 * n - 11 * speed));
}

/// A ball that strikes a paddle leaves at eleven tenths of the speed at
/// which it came, whatever the rotation that turns it, as long as that
/// rotation has length one up to rounding: the speed after the strike
/// differs from eleven tenths of the speed before by at most seventy-one
/// tenths of a millionth and twenty-two ten-millionths of the speed before. The law speaks
/// of speeds up to [`SPEED_CEILING`].
pub proof fn lemma_paddle_bounce_speed(ball: BallModel, paddle: PaddleModel, turn: Turn)
    requires
        near_unit(turn),
        vector_norm(ball.velocity) <= SPEED_CEILING,
    ensures
        eleven_tenths(
            vector_norm(ball.velocity),
            vector_norm(paddle_bounced(ball, paddle, turn).velocity),
        ),
{
    let speed = vector_norm(ball.velocity);
    lemma_norm_is_natural(ball.velocity);
    lemma_product_with_one(speed);
    lemma_product_with_minus_one(speed);
    let out = straight_out(paddle.side, speed);
    let w = out.x;
    assert(w == speed || w == -speed);
    lemma_turned_speed(turn.cos, turn.sin, w, speed);
    assert(ONE == 1_000_000);
    assert(SPEED_UP == 1_100_000);
    assert(turn.sin * 0 == 0);
    assert(turn.cos * 0 == 0);
    let x1 = div_toward_zero(turn.cos * w, 1_000_000);
    let y1 = div_toward_zero(turn.sin * w, 1_000_000);
    assert(prod_fx(turn.cos, w) == x1);
    assert(prod_fx(turn.sin, w) == y1);
    assert(prod_fx(turn.sin, 0) == 0);
    assert(prod_fx(turn.cos, 0) == 0);
    let x2 = div_toward_zero(x1 * 1_100_000, 1_000_000);
    let y2 = div_toward_zero(y1 * 1_100_000, 1_000_000);
    assert(prod_fx(x1, SPEED_UP as int) == x2);
    assert(prod_fx(y1, SPEED_UP as int) == y2);
    assert(paddle_bounced(ball, paddle, turn).velocity == Vector { x: x2, y: y2 });
    assert(ONE * (10 * floor_sqrt(x2 * x2 + y2 * y2) - 11 * speed) == 1_000_000 * (10
        * floor_sqrt(x2 * x2 + y2 * y2) - 11 * speed));
}

/// A ball that strikes none of the paddles is as it was.
pub proof fn lemma_no_strike_no_change(
    ball: BallModel,
    at: Placement,
    paddles: Seq<PaddleState>,
    turns: Seq<Turn>,
)
    requires
        paddle_strikes(ball, at, paddles, turns) == 0,
    ensures
        met_paddles(ball, at, paddles, turns) == ball,
    decreases paddles.len(),
{
    if paddles.len() > 0 {
        lemma_no_strike_no_change(ball, at, paddles.drop_last(), turns);
    }
}

/// A ball that strikes exactly one of the paddles leaves the round at
/// eleven tenths of the speed at which it came, wherever it struck and
/// however fast that paddle was, as long as the rotations have length one
/// up to rounding. The law speaks of speeds up to [`SPEED_CEILING`].
pub proof fn lemma_single_strike_speed(
    ball: BallModel,
    at: Placement,
    paddles: Seq<PaddleState>,
    turns: Seq<Turn>,
)
    requires
        paddles.len() <= turns.len(),
        forall|i: int| 0 <= i < paddles.len() ==> near_unit(#[trigger] turns[i]),
        paddle_strikes(ball, at, paddles, turns) == 1,
        vector_norm(ball.velocity) <= SPEED_CEILING,
    ensures
        eleven_tenths(
            vector_norm(ball.velocity),
            vector_norm(met_paddles(ball, at, paddles, turns).velocity),
        ),
    decreases paddles.len(),
{
    if paddles.len() > 0 {
        let rest = paddles.drop_last();
        let before = met_paddles(ball, at, rest, turns);
        if collision_fraction(before, at, paddles.last().paddle, paddles.last().transform)
            is Some {
            lemma_no_strike_no_change(ball, at, rest, turns);
            lemma_paddle_bounce_speed(ball, paddles.last().paddle, turns[paddles.len() - 1]);
        } else {
            lemma_single_strike_speed(ball, at, rest, turns);
        }
    }
}

/// In a round of collisions in which the ball hits no wall and strikes
/// exactly one paddle, its speed grows to eleven tenths of what it was.
pub proof fn lemma_round_speed(world: WorldState, turns: Seq<Turn>)
    requires
        world.running == PausedOrRunning::Running,
        world.ball is Some,
        world.paddles.len() <= turns.len(),
        forall|i: int| 0 <= i < world.paddles.len() ==> near_unit(#[trigger] turns[i]),
        !hits_wall(world.ball->0.ball, world.ball->0.transform),
        paddle_strikes(world.ball->0.ball, world.ball->0.transform, world.paddles, turns) == 1,
        vector_norm(world.ball->0.ball.velocity) <= SPEED_CEILING,
    ensures
        bounce_step(world, turns).ball is Some,
        eleven_tenths(
            vector_norm(world.ball->0.ball.velocity),
            vector_norm(bounce_step(world, turns).ball->0.ball.velocity),
        ),
{
    let ball = world.ball->0;
    lemma_single_strike_speed(ball.ball, ball.transform, world.paddles, turns);
}

} // verus!
