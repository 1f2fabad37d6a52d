//! The game.

use vstd::prelude::*;
use crate::event::{asks_for_pause, pause_requested, StateEvent};
use crate::fixed::{Fixed, ONE};
use crate::pong::{
    random_45_vec, serve_velocity, Ai, Ball, BallEntity, BallModel, BallState, Paddle,
    PaddleEntity, PaddleModel, PaddleState, PausedOrRunning, Placement, ScoreBoard, Side,
    Transform, World, WorldState, ARENA_HEIGHT, ARENA_WIDTH, BALL_RADIUS_COLLISION,
    INITIAL_BALL_SPEED, PADDLE_HEIGHT_COLLISION, PADDLE_WALL_OFFSET, PADDLE_WIDTH_COLLISION,
};
use crate::states::machine::Trans;
use crate::vector::{Rotation, Turn, Vec2, Vector};

verus! {

/// For how long the ball stays hidden as a game begins.
pub const HIDDEN_AT_START: i64 = 2_000_000;

/// Where the centre of the left paddle is: the offset from the wall and
/// half the paddle's width into the arena.
pub const LEFT_PADDLE_X: i64 = 2_400_000;

/// Where the centre of the right paddle is: as far from the right wall as
/// the left paddle is from the left.
pub const RIGHT_PADDLE_X: i64 = 97_600_000;

/// What the game asks for when it has seen `event`: a pause, where the
/// event asks for one, and nothing else.
pub open spec fn game_choice(event: StateEvent) -> Trans {
    if asks_for_pause(event) {
        Trans::Push
    } else {
        Trans::Stay
    }
}

/// The paddle that a game begins with on `side`, played by the machine or
/// not: at rest, half way up the arena.
pub open spec fn first_paddle(side: Side, x: int, ai: bool) -> PaddleState {
    PaddleState {
        paddle: PaddleModel {
            side,
            width: PADDLE_WIDTH_COLLISION as int,
            height: PADDLE_HEIGHT_COLLISION as int,
            velocity: 0,
        },
        transform: Placement { x, y: ARENA_HEIGHT / 2, angle: 0 },
        ai,
    }
}

/// The paddles that a game begins with: one on the left for a player, and
/// one on the right, which the machine plays unless there are two players.
pub open spec fn first_paddles(two_players: bool) -> Seq<PaddleState> {
    seq![
        first_paddle(Side::Left, LEFT_PADDLE_X as int, false),
        first_paddle(Side::Right, RIGHT_PADDLE_X as int, !two_players),
    ]
}

/// The ball that a game begins with: in the middle of the arena, hidden for
/// [`HIDDEN_AT_START`], without spin, served to the right turned by `turn`.
pub open spec fn first_ball(turn: Turn) -> BallState {
    BallState {
        ball: BallModel {
            velocity: serve_velocity(
                Vector { x: ONE as int, y: 0 },
                INITIAL_BALL_SPEED as int,
                turn,
            ),
            radius: BALL_RADIUS_COLLISION as int,
            hidden: Some(HIDDEN_AT_START as int),
            rot_velocity: 0,
        },
        transform: Placement { x: ARENA_WIDTH / 2, y: ARENA_HEIGHT / 2, angle: 0 },
    }
}

/// The world as the game `game` begins.
pub open spec fn started(game: GameState, turn: Turn) -> WorldState {
    WorldState {
        paddles: first_paddles(game.two_players),
        ball: Some(first_ball(turn)),
        scores: ScoreBoard { score_left: 0, score_right: 0 },
        running: PausedOrRunning::Running,
    }
}

/// The game: whether the paddle on the right has a player too.
#[derive(Clone, Copy, PartialEq, Eq, Debug, Structural)]
pub struct GameState {
    pub two_players: bool,
}

/// Puts one paddle on the left of the arena and one on the right, both half
/// way up and at rest. The one on the right is played by the machine unless
/// there are `two_players`.
pub fn initialize_paddles(world: &mut World, two_players: bool)
    requires
        old(world).wf(),
    ensures
        final(world)@ == (WorldState { paddles: first_paddles(two_players), ..old(world)@ }),
        final(world).wf(),
{
    let y = Fixed { micro: ARENA_HEIGHT / 2 };
    let left = PaddleEntity {
        paddle: Paddle::new(Side::Left),
        transform: Transform::at(
            Fixed { micro: PADDLE_WALL_OFFSET + PADDLE_WIDTH_COLLISION / 2 },
            y,
        ),
        ai: None,
    };
    let right = PaddleEntity {
        paddle: Paddle::new(Side::Right),
        transform: Transform::at(
            Fixed { micro: ARENA_WIDTH - PADDLE_WALL_OFFSET - PADDLE_WIDTH_COLLISION / 2 },
            y,
        ),
        ai: if two_players {
            None
        } else {
            Some(Ai)
        },
    };
    let mut paddles: Vec<PaddleEntity> = Vec::new();
    paddles.push(left);
    paddles.push(right);
    world.paddles = paddles;
    proof {
        assert(final(world)@.paddles =~= first_paddles(two_players));
    }
}

/// Puts the ball in the middle of the arena: hidden for two seconds, without
/// spin, and served to the right with the rotation `serve`, which is to be
/// that of an angle drawn by [`crate::pong::random_45_angle`].
pub fn initialize_ball(world: &mut World, serve: &Rotation)
    requires
        old(world).wf(),
        serve.serves(),
    ensures
        final(world)@ == (WorldState { ball: Some(first_ball(serve@)), ..old(world)@ }),
        final(world).wf(),
{
    let base = Vec2 { x: Fixed { micro: ONE }, y: Fixed { micro: 0 } };
    let ball = Ball {
        radius: Fixed { micro: BALL_RADIUS_COLLISION },
        velocity: random_45_vec(&base, Fixed { micro: INITIAL_BALL_SPEED }, serve),
        hidden: Some(Fixed { micro: HIDDEN_AT_START }),
        rot_velocity: Fixed { micro: 0 },
    };
    let transform = Transform::at(
        Fixed { micro: ARENA_WIDTH / 2 },
        Fixed { micro: ARENA_HEIGHT / 2 },
    );
    world.ball = Some(BallEntity { ball, transform });
    proof {
        assert(final(world)@.paddles =~= old(world)@.paddles);
    }
}

impl GameState {
    /// A game of one player against the machine.
    pub fn with_single_player() -> (game: GameState)
        ensures
            game == (GameState { two_players: false }),
    {
        GameState { two_players: false }
    }

    /// A game of two players.
    pub fn with_two_players() -> (game: GameState)
        ensures
            game == (GameState { two_players: true }),
    {
        GameState { two_players: true }
    }

    /// Begins the game: no goal is counted, the simulation runs, and the
    /// paddles and the ball are put on the arena.
    pub fn on_start(&mut self, world: &mut World, serve: &Rotation)
        requires
            old(world).wf(),
            serve.serves(),
        ensures
            *final(self) == *old(self),
            final(world)@ == started(*old(self), serve@),
            final(world).wf(),
    {
        world.scores = ScoreBoard::default();
        world.running = PausedOrRunning::Running;
        initialize_ball(world, serve);
        initialize_paddles(world, self.two_players);
    }

    /// Ends the game: everything leaves the arena and the scores are
    /// forgotten.
    pub fn on_stop(&mut self, world: &mut World)
        ensures
            *final(self) == *old(self),
            final(world)@.paddles.len() == 0,
            final(world)@.ball is None,
            final(world)@.scores.score_left == 0,
            final(world)@.scores.score_right == 0,
            final(world).running == old(world).running,
            final(world).wf(),
    {
        world.paddles = Vec::new();
        world.ball = None;
        world.scores = ScoreBoard::default();
    }

    /// What the game asks for when it has seen `event`.
    pub fn handle_event(&self, event: &StateEvent) -> (trans: Trans)
        ensures
            trans == game_choice(*event),
    {
        if pause_requested(event) {
            Trans::Push
        } else {
            Trans::Stay
        }
    }
}

} // verus!
