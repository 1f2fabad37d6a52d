//! Goals, and the serve that follows each.

use vstd::prelude::*;
use crate::audio::{pick_score_sound, score_sound_for, SoundCue};
use crate::fixed::{diff_fx, Fixed, ONE};
use crate::pong::{
    random_45_vec, scores_after_goal, serve_velocity, Ball, BallModel, BallState,
    PausedOrRunning, Placement, ScoreText, Side, Transform, World, WorldState,
    ARENA_HEIGHT, ARENA_WIDTH, INITIAL_BALL_SPEED,
};
use crate::vector::{Rotation, Turn, Vec2, Vector};

verus! {

/// For how long the ball stays hidden after a goal.
pub const HIDDEN_AFTER_GOAL: i64 = 1_000_000;

/// The side that scores with the ball at `x`, if one does: the right side
/// where the ball is within `radius` of the left edge of the arena, the left
/// side where it is within `radius` of the right edge.
pub open spec fn goal_at(x: int, radius: int) -> Option<Side> {
    if x <= radius {
        Some(Side::Right)
    } else if x >= diff_fx(ARENA_WIDTH as int, radius) {
        Some(Side::Left)
    } else {
        None
    }
}

/// The direction that a serve starts from, before it is turned, for a ball
/// that ended at `x`: to the right from the left half of the arena, to the
/// left from the right half.
pub open spec fn serve_base(x: int) -> Vector {
    if x < ARENA_WIDTH / 2 {
        Vector { x: ONE as int, y: 0 }
    } else {
        Vector { x: -(ONE as int), y: 0 }
    }
}

/// The ball as it is served after a goal: in the middle of the arena,
/// hidden for [`HIDDEN_AFTER_GOAL`], without spin, and with the velocity of
/// a serve turned by `turn`.
pub open spec fn served(ball: BallState, turn: Turn) -> BallState {
    BallState {
        ball: BallModel {
            velocity: serve_velocity(
                serve_base(ball.transform.x),
                INITIAL_BALL_SPEED as int,
                turn,
            ),
            rot_velocity: 0,
            hidden: Some(HIDDEN_AFTER_GOAL as int),
            ..ball.ball
        },
        transform: Placement { x: ARENA_WIDTH / 2, y: ARENA_HEIGHT / 2, ..ball.transform },
    }
}

/// The world after goals have been looked for. Where there is one, the side
/// that scored has its score raised and the ball is served. A frozen world,
/// one without a ball and one without a goal stay as they are.
pub open spec fn winner_step(world: WorldState, turn: Turn) -> WorldState {
    match world.ball {
        Some(ball) if world.running == PausedOrRunning::Running => match goal_at(
            ball.transform.x,
            ball.ball.radius,
        ) {
            Some(side) => WorldState {
                ball: Some(served(ball, turn)),
                scores: scores_after_goal(world.scores, side),
                ..world
            },
            None => world,
        },
        _ => world,
    }
}

/// A goal: who scored, the label that shows the score of that side, and the
/// score to show on it.
#[derive(Clone, Copy, PartialEq, Eq, Debug)]
pub struct Goal {
    pub scorer: Side,
    pub label: u32,
    pub score: i32,
}

/// The goal that [`WinnerSystem::run`] reports on `world`, if any.
pub open spec fn goal_seen(world: WorldState, score_text: ScoreText) -> Option<Goal> {
    match world.ball {
        Some(ball) if world.running == PausedOrRunning::Running => match goal_at(
            ball.transform.x,
            ball.ball.radius,
        ) {
            Some(side) => Some(
                Goal {
                    scorer: side,
                    label: match side {
                        Side::Left => score_text.p1_score,
                        Side::Right => score_text.p2_score,
                    },
                    score: match side {
                        Side::Left => scores_after_goal(world.scores, side).score_left,
                        Side::Right => scores_after_goal(world.scores, side).score_right,
                    },
                },
            ),
            None => None,
        },
        _ => None,
    }
}

/// The sound that is due after one look for goals: after a goal, where
/// there is an `output` to play it, the one score sound that the draw
/// `lucky` picks; no sound without a goal, and none without an output.
pub fn score_cue(goal: &Option<Goal>, lucky: Fixed, output: bool) -> (cue: Option<SoundCue>)
    ensures
        cue == if goal is Some && output {
            Some(score_sound_for(lucky@))
        } else {
            None
        },
{
    match goal {
        Some(_) => {
            if output {
                Some(pick_score_sound(lucky))
            } else {
                None
            }
        },
        None => None,
    }
}

/// The system that counts goals and serves the ball.
#[derive(Clone, Copy, PartialEq, Eq, Debug, Default)]
pub struct WinnerSystem;

impl WinnerSystem {
    /// The side that scores with the ball where it is, if one does.
    pub fn goal(ball: &Ball, transform: &Transform) -> (side: Option<Side>)
        ensures
            side == goal_at(transform@.x, ball@.radius),
    {
        let ball_x = transform.x;
        let right_edge = Fixed { micro: ARENA_WIDTH }.minus(ball.radius);
        if ball_x.micro <= ball.radius.micro {
            Some(Side::Right)
        } else if ball_x.micro >= right_edge.micro {
            Some(Side::Left)
        } else {
            None
        }
    }

    /// Puts the ball back into play after a goal: in the middle of the
    /// arena, hidden for a second, without spin, and with a velocity of
    /// [`INITIAL_BALL_SPEED`] that leads into the half where the ball ended,
    /// turned by `turn`.
    pub fn serve(ball: &mut Ball, transform: &mut Transform, turn: &Rotation)
        requires
            turn.serves(),
        ensures
            (BallState { ball: final(ball)@, transform: final(transform)@ }) == served(
                BallState { ball: old(ball)@, transform: old(transform)@ },
                turn@,
            ),
            final(ball).wf() == old(ball).wf(),
    {
        let base = if transform.x.micro < ARENA_WIDTH / 2 {
            Vec2 { x: Fixed { micro: ONE }, y: Fixed { micro: 0 } }
        } else {
            Vec2 { x: Fixed { micro: -ONE }, y: Fixed { micro: 0 } }
        };
        ball.velocity = random_45_vec(&base, Fixed { micro: INITIAL_BALL_SPEED }, turn);
        ball.rot_velocity = Fixed { micro: 0 };
        ball.hidden = Some(Fixed { micro: HIDDEN_AFTER_GOAL });
        transform.x = Fixed { micro: ARENA_WIDTH / 2 };
        transform.y = Fixed { micro: ARENA_HEIGHT / 2 };
    }

    /// Looks for a goal. Where the ball has reached the left or the right
    /// edge of the arena, the other side's score rises by one, and stays at
    /// 999 once it is there; the ball is served with the rotation `serve`,
    /// which is to be that of an angle drawn by
    /// [`crate::pong::random_45_angle`]; and the goal comes back, with the
    /// label of `score_text` to update. Nothing happens while the world is
    /// frozen, or has no ball.
    pub fn run(&mut self, world: &mut World, score_text: &ScoreText, serve: &Rotation) -> (goal:
        Option<Goal>)
        requires
            old(world).wf(),
            serve.serves(),
        ensures
            final(world)@ == winner_step(old(world)@, serve@),
            goal == goal_seen(old(world)@, *score_text),
            final(world).wf(),
    {
        if world.running == PausedOrRunning::Paused {
            return None;
        }
        match world.ball {
            Some(mut entity) => {
                match Self::goal(&entity.ball, &entity.transform) {
                    Some(side) => {
                        world.scores.record_goal(side);
                        Self::serve(&mut entity.ball, &mut entity.transform, serve);
                        world.ball = Some(entity);
                        proof {
                            assert(final(world)@.paddles =~= old(world)@.paddles);
                        }
                        Some(
                            Goal {
                                scorer: side,
                                label: score_text.label(side),
                                score: world.scores.of(side),
                            },
                        )
                    },
                    None => None,
                }
            },
            None => None,
        }
    }
}

} // verus!
