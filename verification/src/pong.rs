//! The arena, the things on it and the numbers that rule them.

use vstd::prelude::*;
use crate::chance::gen_range;
use crate::fixed::{prod_fx, Fixed, ONE};
use crate::vector::{vector_scaled, vector_turned, Rotation, Vec2, Vector};

verus! {

/// The height of the arena.
pub const ARENA_HEIGHT: i64 = 100_000_000;

/// The width of the arena.
pub const ARENA_WIDTH: i64 = 100_000_000;

/// The speed of a ball that is served.
pub const INITIAL_BALL_SPEED: i64 = 65_000_000;

/// The width of a paddle, as collisions see it.
pub const PADDLE_WIDTH_COLLISION: i64 = 800_000;

/// The height of a paddle, as collisions see it.
pub const PADDLE_HEIGHT_COLLISION: i64 = 14_130_000;

/// The highest place of a paddle's centre: the arena's height less half a
/// paddle.
pub const BOTTOM_OF_SCREEN: i64 = 92_935_000;

/// The lowest place of a paddle's centre: half a paddle.
pub const TOP_OF_SCREEN: i64 = 7_065_000;

/// The radius of the ball, as collisions see it.
pub const BALL_RADIUS_COLLISION: i64 = 1_200_000;

/// The gap between a paddle and the wall behind it.
pub const PADDLE_WALL_OFFSET: i64 = 2_000_000;

/// The share of the spin that a wall turns into motion, and takes away.
pub const GRIP_WALL: i64 = 500_000;

/// The angle, in radians, by which a strike at a paddle's edge turns the
/// ball away from straight out: forty degrees.
pub const MAX_ROTATION_ON_COLLISION: i64 = 698_132;

/// How much of a paddle's speed becomes spin of the ball.
pub const ROT_FACTOR: i64 = 300_000;

/// How much of the ball's spin bends its flight.
pub const SPEED_ROT_FACTOR: i64 = 10_000;

/// A quarter of pi, rounded down: the bound of a serve's angle.
pub const FRAC_PI_4: i64 = 785_398;

/// The greatest speed of a paddle.
pub const MAX_PADDLE_SPEED: i64 = 150_000_000;

/// One half.
pub const HALF: i64 = 500_000;

/// The greatest score.
pub const MAX_SCORE: i32 = 999;

/// A side of the arena.
#[derive(Clone, Copy, PartialEq, Eq, Debug, Structural)]
pub enum Side {
    Left,
    Right,
}

impl Side {
    /// One for the left side, minus one for the right: the sign of the
    /// direction that leads from the side into the arena.
    pub open spec fn sign(self) -> int {
        match self {
            Side::Left => ONE as int,
            Side::Right => -(ONE as int),
        }
    }

    /// One for the left side, minus one for the right.
    pub fn signum(self) -> (r: Fixed)
        ensures
            r@ == self.sign(),
    {
        match self {
            Side::Left => Fixed { micro: ONE },
            Side::Right => Fixed { micro: -ONE },
        }
    }
}

/// The mark of a paddle that the machine plays.
#[derive(Clone, Copy, PartialEq, Eq, Debug)]
pub struct Ai;

/// Whether the simulation is frozen.
#[derive(Clone, Copy, PartialEq, Eq, Debug, Structural)]
pub enum PausedOrRunning {
    Running,
    Paused,
}

impl Default for PausedOrRunning {
    fn default() -> (r: Self)
        ensures
            r == PausedOrRunning::Running,
    {
        PausedOrRunning::Running
    }
}

/// A paddle: its side, the size that collisions see and its speed upward.
#[derive(Clone, Copy, PartialEq, Eq, Debug)]
pub struct Paddle {
    pub side: Side,
    pub width: Fixed,
    pub height: Fixed,
    pub velocity: Fixed,
}

/// What a [`Paddle`] is, in millionths.
pub struct PaddleModel {
    pub side: Side,
    pub width: int,
    pub height: int,
    pub velocity: int,
}

impl View for Paddle {
    type V = PaddleModel;

    open spec fn view(&self) -> PaddleModel {
        PaddleModel {
            side: self.side,
            width: self.width@,
            height: self.height@,
            velocity: self.velocity@,
        }
    }
}

impl Paddle {
    /// Whether half the paddle's height is more than nothing.
    pub open spec fn wf(&self) -> bool {
        prod_fx(self.height@, HALF as int) > 0
    }

    /// Whether half the paddle's height is more than nothing.
    pub fn is_valid(&self) -> (r: bool)
        ensures
            r == self.wf(),
    {
        self.height.times(Fixed { micro: HALF }).micro > 0
    }

    /// A paddle at rest on `side`.
    pub fn new(side: Side) -> (r: Paddle)
        ensures
            r@ == (PaddleModel {
                side,
                width: PADDLE_WIDTH_COLLISION as int,
                height: PADDLE_HEIGHT_COLLISION as int,
                velocity: 0,
            }),
            r.wf(),
    {
        Paddle {
            side,
            width: Fixed { micro: PADDLE_WIDTH_COLLISION },
            height: Fixed { micro: PADDLE_HEIGHT_COLLISION },
            velocity: Fixed { micro: 0 },
        }
    }
}

/// The ball: its velocity, radius and spin, and for how long it stays
/// hidden after a goal.
#[derive(Clone, Copy, PartialEq, Eq, Debug)]
pub struct Ball {
    pub velocity: Vec2,
    pub radius: Fixed,
    pub hidden: Option<Fixed>,
    pub rot_velocity: Fixed,
}

/// What a [`Ball`] is, in millionths.
pub struct BallModel {
    pub velocity: Vector,
    pub radius: int,
    pub hidden: Option<int>,
    pub rot_velocity: int,
}

impl View for Ball {
    type V = BallModel;

    open spec fn view(&self) -> BallModel {
        BallModel {
            velocity: self.velocity@,
            radius: self.radius@,
            hidden: match self.hidden {
                Some(t) => Some(t@),
                None => None,
            },
            rot_velocity: self.rot_velocity@,
        }
    }
}

impl Ball {
    /// Whether the radius is more than nothing.
    pub open spec fn wf(&self) -> bool {
        self.radius@ > 0
    }

    /// Whether the radius is more than nothing.
    pub fn is_valid(&self) -> (r: bool)
        ensures
            r == self.wf(),
    {
        self.radius.micro > 0
    }
}

/// Where a thing is and how far it has turned.
#[derive(Clone, Copy, PartialEq, Eq, Debug)]
pub struct Transform {
    pub x: Fixed,
    pub y: Fixed,
    pub angle: Fixed,
}

/// What a [`Transform`] is, in millionths.
pub struct Placement {
    pub x: int,
    pub y: int,
    pub angle: int,
}

impl View for Transform {
    type V = Placement;

    open spec fn view(&self) -> Placement {
        Placement { x: self.x@, y: self.y@, angle: self.angle@ }
    }
}

impl Transform {
    /// The placement at `x` and `y`, not turned.
    pub fn at(x: Fixed, y: Fixed) -> (r: Transform)
        ensures
            r@ == (Placement { x: x@, y: y@, angle: 0 }),
    {
        Transform { x, y, angle: Fixed { micro: 0 } }
    }
}

/// The two scores.
#[derive(Clone, Copy, PartialEq, Eq, Debug)]
pub struct ScoreBoard {
    pub score_left: i32,
    pub score_right: i32,
}

impl Default for ScoreBoard {
    fn default() -> (r: Self)
        ensures
            r.score_left == 0,
            r.score_right == 0,
    {
        ScoreBoard { score_left: 0, score_right: 0 }
    }
}

/// The score that follows `score`: one more, and never more than
/// [`MAX_SCORE`].
pub open spec fn next_score(score: int) -> int {
    if score + 1 < MAX_SCORE {
        score + 1
    } else {
        MAX_SCORE as int
    }
}

/// `scores` after a goal of `side`.
pub open spec fn scores_after_goal(scores: ScoreBoard, side: Side) -> ScoreBoard {
    match side {
        Side::Left => ScoreBoard {
            score_left: next_score(scores.score_left as int) as i32,
            score_right: scores.score_right,
        },
        Side::Right => ScoreBoard {
            score_left: scores.score_left,
            score_right: next_score(scores.score_right as int) as i32,
        },
    }
}

impl ScoreBoard {
    /// The score of `side`.
    pub fn of(&self, side: Side) -> (r: i32)
        ensures
            r == match side {
                Side::Left => self.score_left,
                Side::Right => self.score_right,
            },
    {
        match side {
            Side::Left => self.score_left,
            Side::Right => self.score_right,
        }
    }

    /// Counts a goal of `side`; a score of [`MAX_SCORE`] or more becomes
    /// [`MAX_SCORE`].
    pub fn record_goal(&mut self, side: Side)
        ensures
            *final(self) == scores_after_goal(*old(self), side),
    {
        match side {
            Side::Left => {
                self.score_left = if self.score_left >= MAX_SCORE - 1 {
                    MAX_SCORE
                } else {
                    self.score_left + 1
                };
            },
            Side::Right => {
                self.score_right = if self.score_right >= MAX_SCORE - 1 {
                    MAX_SCORE
                } else {
                    self.score_right + 1
                };
            },
        }
    }
}

/// The two labels that show the scores, by the handles that the display
/// gave them.
#[derive(Clone, Copy, PartialEq, Eq, Debug)]
pub struct ScoreText {
    pub p1_score: u32,
    pub p2_score: u32,
}

impl ScoreText {
    /// The label that shows the score of `side`.
    pub fn label(&self, side: Side) -> (r: u32)
        ensures
            r == match side {
                Side::Left => self.p1_score,
                Side::Right => self.p2_score,
            },
    {
        match side {
            Side::Left => self.p1_score,
            Side::Right => self.p2_score,
        }
    }
}

/// A paddle on the arena.
#[derive(Clone, Copy, PartialEq, Eq, Debug)]
pub struct PaddleEntity {
    pub paddle: Paddle,
    pub transform: Transform,
    pub ai: Option<Ai>,
}

/// What a [`PaddleEntity`] is, in millionths.
pub struct PaddleState {
    pub paddle: PaddleModel,
    pub transform: Placement,
    pub ai: bool,
}

impl View for PaddleEntity {
    type V = PaddleState;

    open spec fn view(&self) -> PaddleState {
        PaddleState { paddle: self.paddle@, transform: self.transform@, ai: self.ai is Some }
    }
}

/// The ball on the arena.
#[derive(Clone, Copy, PartialEq, Eq, Debug)]
pub struct BallEntity {
    pub ball: Ball,
    pub transform: Transform,
}

/// What a [`BallEntity`] is, in millionths.
pub struct BallState {
    pub ball: BallModel,
    pub transform: Placement,
}

impl View for BallEntity {
    type V = BallState;

    open spec fn view(&self) -> BallState {
        BallState { ball: self.ball@, transform: self.transform@ }
    }
}

/// All that a game holds: the paddles, the ball if there is one, the scores
/// and whether the simulation is frozen.
#[derive(Clone, PartialEq, Eq, Debug)]
pub struct World {
    pub paddles: Vec<PaddleEntity>,
    pub ball: Option<BallEntity>,
    pub scores: ScoreBoard,
    pub running: PausedOrRunning,
}

/// What a [`World`] is, in millionths.
pub struct WorldState {
    pub paddles: Seq<PaddleState>,
    pub ball: Option<BallState>,
    pub scores: ScoreBoard,
    pub running: PausedOrRunning,
}

impl View for World {
    type V = WorldState;

    open spec fn view(&self) -> WorldState {
        WorldState {
            paddles: Seq::new(self.paddles@.len(), |i: int| self.paddles@[i]@),
            ball: match self.ball {
                Some(b) => Some(b@),
                None => None,
            },
            scores: self.scores,
            running: self.running,
        }
    }
}

impl World {
    /// Whether every paddle and the ball have a size.
    pub open spec fn wf(&self) -> bool {
        &&& forall|i: int| 0 <= i < self.paddles@.len() ==> (#[trigger] self.paddles@[i]).paddle.wf()
        &&& self.ball matches Some(b) ==> b.ball.wf()
    }

    /// Whether every paddle and the ball have a size: what the systems ask
    /// of a world before they work on it.
    pub fn is_valid(&self) -> (r: bool)
        ensures
            r == self.wf(),
    {
        let mut i: usize = 0;
        while i < self.paddles.len()
            invariant
                i <= self.paddles.len(),
                forall|j: int| 0 <= j < i ==> (#[trigger] self.paddles@[j]).paddle.wf(),
            decreases self.paddles.len() - i,
        {
            if !self.paddles[i].paddle.is_valid() {
                return false;
            }
            i = i + 1;
        }
        match self.ball {
            Some(ball) => ball.ball.is_valid(),
            None => true,
        }
    }

    /// A world with nothing on it, no goal scored and the simulation
    /// running.
    pub fn new() -> (r: World)
        ensures
            r@.paddles.len() == 0,
            r@.ball is None,
            r@.scores.score_left == 0,
            r@.scores.score_right == 0,
            r@.running == PausedOrRunning::Running,
            r.wf(),
    {
        World {
            paddles: Vec::new(),
            ball: None,
            scores: ScoreBoard::default(),
            running: PausedOrRunning::Running,
        }
    }
}

/// An angle for a serve, in radians, drawn from minus an eighth of a turn up
/// to an eighth of a turn. Every angle that can come lies strictly between
/// the two: [`FRAC_PI_4`] is a quarter of pi rounded down.
pub fn random_45_angle() -> (angle: Fixed)
    ensures
        -FRAC_PI_4 <= angle@ < FRAC_PI_4,
{
    let mut rng = rand::thread_rng();
    Fixed { micro: gen_range(&mut rng, -FRAC_PI_4, FRAC_PI_4) }
}

/// The velocity of a serve: `base` turned by `turn` and made `norm` long.
pub open spec fn serve_velocity(base: Vector, norm: int, turn: crate::vector::Turn) -> Vector {
    vector_scaled(vector_turned(turn, base), norm)
}

/// The vector `base`, turned by `turn` and multiplied by `norm`. With a
/// `base` of length one and the rotation of an angle drawn by
/// [`random_45_angle`], this is a velocity of speed `norm` within an eighth
/// of a turn of `base`.
pub fn random_45_vec(base: &Vec2, norm: Fixed, turn: &Rotation) -> (r: Vec2)
    requires
        turn.serves(),
    ensures
        r@ == serve_velocity(base@, norm@, turn@),
{
    turn.apply(*base).scaled(norm)
}

} // verus!
