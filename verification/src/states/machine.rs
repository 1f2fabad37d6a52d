//! The state that the application is in, and how it changes.

use vstd::prelude::*;
use crate::audio::SoundCue;
use crate::event::{InputState, StateEvent};
use crate::fixed::{diff_fx, prod_fx, quot_fx, Fixed};
use crate::pong::{PausedOrRunning, ScoreText, World, WorldState, HALF};
use crate::systems::ai::{ai_step, AiSystem};
use crate::systems::bounce::{
    all_unit, bounce_cues, bounce_step, deflection, turns_of, BounceSystem,
};
use crate::systems::move_balls::{move_step, MoveBallsSystem};
use crate::systems::paddle::{paddle_step, PaddleSystem};
use crate::systems::winner::{goal_seen, winner_step, Goal, WinnerSystem};
use crate::vector::Turn;
use crate::states::game::GameState;
use crate::states::main_menu::MainMenuState;
use crate::states::pause::PauseState;
use crate::vector::Rotation;

verus! {

/// A state of the application.
#[derive(Clone, Copy, PartialEq, Eq, Debug, Structural)]
pub enum State {
    MainMenu,
    Game,
    Pause,
}

/// What a state asks for when it has seen an event.
#[derive(Clone, Copy, PartialEq, Eq, Debug, Structural)]
pub enum Trans {
    /// Nothing changes.
    Stay,
    /// The application ends.
    Quit,
    /// The main menu gives way to this game.
    Switch(GameState),
    /// The game is paused.
    Push,
    /// The pause ends and the game goes on.
    Pop,
    /// The pause ends, and the game with it: back to the main menu.
    MainMenu,
}

/// The application: the state it is in, unless it has ended; the game that
/// is played or paused; and the world of that game.
#[derive(Clone, PartialEq, Eq, Debug)]
pub struct Application {
    pub state: Option<State>,
    pub game: GameState,
    pub world: World,
}

/// What the state `state` asks for when it has seen `event`; nothing, once
/// the application has ended.
pub open spec fn wanted(state: Option<State>, event: StateEvent) -> Trans {
    match state {
        Some(State::MainMenu) => crate::states::main_menu::menu_choice(event),
        Some(State::Game) => crate::states::game::game_choice(event),
        Some(State::Pause) => crate::states::pause::pause_choice(event),
        None => Trans::Stay,
    }
}

/// The state that follows `state` when `trans` is asked for. A transition
/// that the state cannot make leaves it as it is.
pub open spec fn next_state(state: Option<State>, trans: Trans) -> Option<State> {
    match (state, trans) {
        (None, _) => None,
        (Some(_), Trans::Quit) => None,
        (Some(State::MainMenu), Trans::Switch(_)) => Some(State::Game),
        (Some(State::Game), Trans::Push) => Some(State::Pause),
        (Some(State::Pause), Trans::Pop) => Some(State::Game),
        (Some(State::Pause), Trans::MainMenu) => Some(State::MainMenu),
        (Some(s), _) => Some(s),
    }
}

/// The world after the first half of a tick of `dt`: the players' paddles
/// have moved, then the ball, its flight bent by `turn`, then the machine's
/// paddles.
pub open spec fn moved(world: WorldState, input: InputState, dt: int, turn: Turn) -> WorldState {
    ai_step(move_step(paddle_step(world, input, dt), dt, turn), dt)
}

/// The world after the second half of a tick: the ball has bounced off
/// walls and paddles, the strike on the `i`-th paddle turned by the `i`-th
/// of `turns`, and then goals have been counted, the ball served with
/// `serve` after one.
pub open spec fn resolved(world: WorldState, turns: Seq<Turn>, serve: Turn) -> WorldState {
    winner_step(bounce_step(world, turns), serve)
}

/// The angle by which a strike on the `i`-th paddle of `world` would turn
/// the ball away from straight out, with the ball where it is; nothing
/// where there is no ball.
pub open spec fn deflection_at(world: WorldState, i: int) -> int {
    match world.ball {
        Some(ball) => deflection(
            world.paddles[i].paddle.side,
            quot_fx(
                diff_fx(ball.transform.y, world.paddles[i].transform.y),
                prod_fx(world.paddles[i].paddle.height, HALF as int),
            ),
        ),
        None => 0,
    }
}

impl Application {
    /// Whether the world fits the state: outside a game nothing is on the
    /// arena and no goal is counted, and the simulation is frozen exactly
    /// while the game is paused.
    pub open spec fn wf(&self) -> bool {
        &&& self.world.wf()
        &&& (self.world.running == PausedOrRunning::Paused) == (self.state == Some(State::Pause))
        &&& !(self.state == Some(State::Game) || self.state == Some(State::Pause)) ==> {
            &&& self.world@.paddles.len() == 0
            &&& self.world@.ball is None
            &&& self.world@.scores.score_left == 0
            &&& self.world@.scores.score_right == 0
        }
    }

    /// Whether the systems of the game are to run: the application is in
    /// the game and the simulation is not frozen.
    pub open spec fn simulates(&self) -> bool {
        self.state == Some(State::Game) && self.world.running == PausedOrRunning::Running
    }

    /// The application as it starts: in the main menu, with an empty world.
    pub fn new() -> (app: Application)
        ensures
            app.state == Some(State::MainMenu),
            app.wf(),
    {
        Application {
            state: Some(State::MainMenu),
            game: GameState::with_single_player(),
            world: World::new(),
        }
    }

    /// Whether the systems of the game are to run.
    pub fn simulating(&self) -> (r: bool)
        ensures
            r == self.simulates(),
    {
        match self.state {
            Some(State::Game) => self.world.running == PausedOrRunning::Running,
            _ => false,
        }
    }

    /// The first half of a tick of `dt`, where the systems of the game are
    /// to run: the players' paddles move, then the ball, then the machine's
    /// paddles. `turn` is the rotation by the ball's
    /// [`MoveBallsSystem::turn_angle`]. In every other state nothing
    /// changes.
    pub fn advance(&mut self, input: &InputState, dt: Fixed, turn: &Rotation)
        requires
            old(self).wf(),
            turn.wf(),
        ensures
            final(self).wf(),
            final(self).state == old(self).state,
            final(self).game == old(self).game,
            final(self).world@ == if old(self).simulates() {
                moved(old(self).world@, *input, dt@, turn@)
            } else {
                old(self).world@
            },
    {
        if self.simulating() {
            PaddleSystem.run(&mut self.world, input, dt);
            MoveBallsSystem.run(&mut self.world, dt, turn);
            AiSystem.run(&mut self.world, dt);
        }
    }

    /// The angles of the rotations that [`Application::resolve`] is to be
    /// given: for each paddle, the angle by which a strike on it would turn
    /// the ball away from straight out, with the ball where it is.
    pub fn deflection_angles(&self) -> (angles: Vec<Fixed>)
        requires
            self.wf(),
        ensures
            angles.len() == self.world.paddles.len(),
            forall|i: int|
                0 <= i < angles.len() ==> (#[trigger] angles[i])@ == deflection_at(self.world@, i),
    {
        let mut angles: Vec<Fixed> = Vec::new();
        let mut i: usize = 0;
        while i < self.world.paddles.len()
            invariant
                self.wf(),
                i <= self.world.paddles.len(),
                angles.len() == i,
                forall|j: int|
                    0 <= j < i ==> (#[trigger] angles[j])@ == deflection_at(self.world@, j),
            decreases self.world.paddles.len() - i,
        {
            let paddle = self.world.paddles[i];
            let angle = match self.world.ball {
                Some(ball) => BounceSystem::deflection_angle(
                    &ball.transform,
                    &paddle.paddle,
                    &paddle.transform,
                ),
                None => Fixed { micro: 0 },
            };
            angles.push(angle);
            i = i + 1;
        }
        angles
    }

    /// The second half of a tick, where the systems of the game are to run:
    /// the ball bounces off walls and paddles, and then goals are counted.
    /// `deflections` holds the rotations by the
    /// [`Application::deflection_angles`], and `serve` that by an angle
    /// drawn by [`crate::pong::random_45_angle`]. The sounds of the bounces
    /// come back, and the goal if there was one. In every other state
    /// nothing changes, and nothing comes back.
    pub fn resolve(
        &mut self,
        deflections: &Vec<Rotation>,
        score_text: &ScoreText,
        serve: &Rotation,
    ) -> (report: (Vec<SoundCue>, Option<Goal>))
        requires
            old(self).wf(),
            deflections.len() == old(self).world.paddles.len(),
            all_unit(deflections@),
            serve.serves(),
        ensures
            final(self).wf(),
            final(self).state == old(self).state,
            final(self).game == old(self).game,
            final(self).world@ == if old(self).simulates() {
                resolved(old(self).world@, turns_of(deflections@), serve@)
            } else {
                old(self).world@
            },
            report.0@ == if old(self).simulates() {
                bounce_cues(old(self).world@, turns_of(deflections@))
            } else {
                Seq::<SoundCue>::empty()
            },
            report.1 == if old(self).simulates() {
                goal_seen(
                    bounce_step(old(self).world@, turns_of(deflections@)),
                    *score_text,
                )
            } else {
                None
            },
    {
        if self.simulating() {
            let cues = BounceSystem.run(&mut self.world, deflections);
            let goal = WinnerSystem.run(&mut self.world, score_text, serve);
            (cues, goal)
        } else {
            (Vec::new(), None)
        }
    }

    /// What the state that the application is in asks for when it has seen
    /// `event`.
    pub fn handle_event(&self, event: &StateEvent) -> (trans: Trans)
        ensures
            trans == wanted(self.state, *event),
    {
        match self.state {
            Some(State::MainMenu) => MainMenuState.handle_event(event),
            Some(State::Game) => self.game.handle_event(event),
            Some(State::Pause) => PauseState.handle_event(event),
            None => Trans::Stay,
        }
    }

    /// Makes the transition `trans`. Entering the game puts the paddles and
    /// the ball on the arena and sets the scores to nothing, the ball served
    /// with the rotation `serve`; the pause freezes the world and leaves all
    /// that is on it; leaving the pause for the game thaws it; leaving for
    /// the main menu, or quitting, takes everything off the arena. A
    /// transition that the state cannot make changes nothing.
    pub fn transition(&mut self, trans: Trans, serve: &Rotation)
        requires
            old(self).wf(),
            serve.serves(),
        ensures
            final(self).wf(),
            final(self).state == next_state(old(self).state, trans),
            final(self).state == old(self).state ==> *final(self) == *old(self),
            !(old(self).state == Some(State::MainMenu) && trans is Switch) ==> final(self).game
                == old(self).game,
            old(self).state == Some(State::MainMenu) ==> (trans matches Trans::Switch(game)
                ==> final(self).game == game && final(self).world@
                == crate::states::game::started(game, serve@)),
            old(self).state == Some(State::Game) && trans == Trans::Push ==> final(self).world@
                == crate::states::pause::frozen(old(self).world@),
            old(self).state == Some(State::Pause) && trans == Trans::Pop ==> final(self).world@
                == crate::states::pause::thawed(old(self).world@),
    {
        match (self.state, trans) {
            (None, _) => {},
            (Some(state), Trans::Quit) => {
                match state {
                    State::Pause => {
                        PauseState.on_stop(&mut self.world);
                        self.game.on_stop(&mut self.world);
                    },
                    State::Game => {
                        self.game.on_stop(&mut self.world);
                    },
                    State::MainMenu => {},
                }
                self.state = None;
            },
            (Some(State::MainMenu), Trans::Switch(game)) => {
                self.game = game;
                self.game.on_start(&mut self.world, serve);
                self.state = Some(State::Game);
            },
            (Some(State::Game), Trans::Push) => {
                PauseState.on_start(&mut self.world);
                self.state = Some(State::Pause);
            },
            (Some(State::Pause), Trans::Pop) => {
                PauseState.on_stop(&mut self.world);
                self.state = Some(State::Game);
            },
            (Some(State::Pause), Trans::MainMenu) => {
                PauseState.on_stop(&mut self.world);
                self.game.on_stop(&mut self.world);
                self.state = Some(State::MainMenu);
            },
            (Some(_), _) => {},
        }
    }
}

} // verus!
