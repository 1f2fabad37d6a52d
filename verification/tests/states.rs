use pong::event::{pause_requested, InputState, StateEvent};
use pong::fixed::Fixed;
use pong::pong::{PausedOrRunning, ScoreBoard, Side, World};
use pong::states::game::{initialize_ball, initialize_paddles};
use pong::states::{Application, GameState, MainMenuState, PauseState, State, Trans};
use pong::systems::{
    AiSystem, BounceSystem, MoveBallsSystem, PaddleSystem, PauseSystem, WinnerSystem,
};
use pong::vector::{Rotation, Vec2};
use pong::pong::ScoreText;

fn fx(v: f64) -> Fixed {
    Fixed::from_micro((v * 1e6).round() as i64)
}

fn click(name: &str) -> StateEvent {
    StateEvent::Click(name.to_string())
}

fn pressed(name: &str) -> StateEvent {
    StateEvent::ActionPressed(name.to_string())
}

fn send(app: &mut Application, event: StateEvent) -> Trans {
    let trans = app.handle_event(&event);
    app.transition(trans, &Rotation::identity());
    trans
}

#[test]
fn pause_is_requested_by_action_or_lost_focus() {
    assert!(pause_requested(&pressed("pause")));
    assert!(pause_requested(&StateEvent::Focused(false)));
    assert!(!pause_requested(&StateEvent::Focused(true)));
    assert!(!pause_requested(&pressed("Pause")));
    assert!(!pause_requested(&pressed("pause ")));
    assert!(!pause_requested(&pressed("")));
    assert!(!pause_requested(&click("pause")));
    assert!(!pause_requested(&StateEvent::Other));
}

#[test]
fn main_menu_buttons() {
    let menu = MainMenuState;
    assert_eq!(menu.handle_event(&click("btn_quit")), Trans::Quit);
    assert_eq!(
        menu.handle_event(&click("btn_single_player")),
        Trans::Switch(GameState::with_single_player())
    );
    assert_eq!(
        menu.handle_event(&click("btn_two_player")),
        Trans::Switch(GameState::with_two_players())
    );
    assert_eq!(menu.handle_event(&click("btn_resume")), Trans::Stay);
    assert_eq!(menu.handle_event(&pressed("pause")), Trans::Stay);
    assert_eq!(menu.handle_event(&StateEvent::Focused(false)), Trans::Stay);
    assert_eq!(menu.handle_event(&StateEvent::Other), Trans::Stay);
}

#[test]
fn game_asks_for_pause() {
    let game = GameState::with_single_player();
    assert!(!game.two_players);
    assert!(GameState::with_two_players().two_players);
    assert_eq!(game.handle_event(&pressed("pause")), Trans::Push);
    assert_eq!(game.handle_event(&StateEvent::Focused(false)), Trans::Push);
    assert_eq!(game.handle_event(&StateEvent::Focused(true)), Trans::Stay);
    assert_eq!(game.handle_event(&click("btn_quit")), Trans::Stay);
}

#[test]
fn pause_buttons() {
    let pause = PauseState;
    assert_eq!(pause.handle_event(&pressed("pause")), Trans::Pop);
    assert_eq!(pause.handle_event(&pressed("jump")), Trans::Stay);
    assert_eq!(pause.handle_event(&click("btn_resume")), Trans::Pop);
    assert_eq!(pause.handle_event(&click("btn_quit")), Trans::Quit);
    assert_eq!(pause.handle_event(&click("btn_main_menu")), Trans::MainMenu);
    assert_eq!(pause.handle_event(&click("btn_two_player")), Trans::Stay);
    assert_eq!(pause.handle_event(&StateEvent::Focused(false)), Trans::Stay);
}

#[test]
fn application_starts_in_the_main_menu() {
    let app = Application::new();
    assert_eq!(app.state, Some(State::MainMenu));
    assert_eq!(app.world, World::new());
    assert!(!app.simulating());
}

#[test]
fn two_player_game_pause_and_back_to_the_menu() {
    let mut app = Application::new();
    assert_eq!(send(&mut app, click("btn_two_player")), Trans::Switch(GameState::with_two_players()));
    assert_eq!(app.state, Some(State::Game));
    assert!(app.simulating());
    assert_eq!(app.world.paddles.len(), 2);
    assert_eq!(app.world.paddles[0].paddle.side, Side::Left);
    assert_eq!(app.world.paddles[1].paddle.side, Side::Right);
    assert!(app.world.paddles.iter().all(|p| p.ai.is_none()));
    assert!(app.world.ball.is_some());
    let ball = app.world.ball;

    assert_eq!(send(&mut app, pressed("pause")), Trans::Push);
    assert_eq!(app.state, Some(State::Pause));
    assert_eq!(app.world.running, PausedOrRunning::Paused);
    assert!(!app.simulating());
    assert_eq!(app.world.ball, ball);
    assert_eq!(app.world.paddles.len(), 2);

    assert_eq!(send(&mut app, click("btn_main_menu")), Trans::MainMenu);
    assert_eq!(app.state, Some(State::MainMenu));
    assert_eq!(app.world, World::new());
    assert!(!app.simulating());
}

#[test]
fn single_player_game_has_a_machine_on_the_right() {
    let mut app = Application::new();
    send(&mut app, click("btn_single_player"));
    assert_eq!(app.state, Some(State::Game));
    assert!(app.world.paddles[0].ai.is_none());
    assert!(app.world.paddles[1].ai.is_some());
    assert_eq!(app.world.paddles[0].transform.x, fx(2.4));
    assert_eq!(app.world.paddles[1].transform.x, fx(97.6));
    assert_eq!(app.world.paddles[0].transform.y, fx(50.0));
    assert_eq!(app.world.paddles[1].transform.y, fx(50.0));
    let e = app.world.ball.unwrap();
    assert_eq!(e.transform.x, fx(50.0));
    assert_eq!(e.transform.y, fx(50.0));
    assert_eq!(e.ball.hidden, Some(fx(2.0)));
    assert_eq!(e.ball.radius, fx(1.2));
    assert_eq!(e.ball.rot_velocity, fx(0.0));
    assert_eq!(e.ball.velocity, Vec2::new(fx(65.0), fx(0.0)));
    assert_eq!(app.world.scores, ScoreBoard::default());
}

#[test]
fn pause_ends_by_action_or_resume_button() {
    for event in [pressed("pause"), click("btn_resume")] {
        let mut app = Application::new();
        send(&mut app, click("btn_single_player"));
        app.world.scores = ScoreBoard { score_left: 2, score_right: 1 };
        send(&mut app, StateEvent::Focused(false));
        assert_eq!(app.state, Some(State::Pause));
        let frozen = app.world.clone();
        assert_eq!(send(&mut app, event), Trans::Pop);
        assert_eq!(app.state, Some(State::Game));
        assert_eq!(app.world.running, PausedOrRunning::Running);
        assert!(app.simulating());
        assert_eq!(app.world.paddles, frozen.paddles);
        assert_eq!(app.world.ball, frozen.ball);
        assert_eq!(app.world.scores, frozen.scores);
    }
}

#[test]
fn quit_ends_the_application_from_every_state() {
    let mut menu = Application::new();
    assert_eq!(send(&mut menu, click("btn_quit")), Trans::Quit);
    assert_eq!(menu.state, None);
    let mut paused = Application::new();
    send(&mut paused, click("btn_two_player"));
    send(&mut paused, pressed("pause"));
    assert_eq!(send(&mut paused, click("btn_quit")), Trans::Quit);
    assert_eq!(paused.state, None);
    assert_eq!(paused.world, World::new());
    assert!(!paused.simulating());
    // Nothing follows the end.
    assert_eq!(send(&mut paused, click("btn_two_player")), Trans::Stay);
    assert_eq!(paused.state, None);
    let mut game = Application::new();
    send(&mut game, click("btn_two_player"));
    game.transition(Trans::Quit, &Rotation::identity());
    assert_eq!(game.state, None);
    assert_eq!(game.world, World::new());
}

#[test]
fn transitions_that_a_state_cannot_make_change_nothing() {
    let mut app = Application::new();
    let before = app.clone();
    for trans in [Trans::Stay, Trans::Push, Trans::Pop, Trans::MainMenu] {
        app.transition(trans, &Rotation::identity());
        assert_eq!(app, before);
    }
    send(&mut app, click("btn_two_player"));
    let playing = app.clone();
    for trans in [
        Trans::Stay,
        Trans::Pop,
        Trans::MainMenu,
        Trans::Switch(GameState::with_single_player()),
    ] {
        app.transition(trans, &Rotation::identity());
        assert_eq!(app, playing);
    }
    send(&mut app, pressed("pause"));
    let paused = app.clone();
    for trans in [Trans::Stay, Trans::Push, Trans::Switch(GameState::with_single_player())] {
        app.transition(trans, &Rotation::identity());
        assert_eq!(app, paused);
    }
}

#[test]
fn systems_run_only_in_the_game() {
    let input = InputState { left_paddle: Some(fx(1.0)), right_paddle: Some(fx(1.0)), pause: Some(false) };
    let labels = ScoreText { p1_score: 1, p2_score: 2 };
    let tick = |world: &mut World| {
        PaddleSystem.run(world, &input, fx(0.016));
        AiSystem.run(world, fx(0.016));
        MoveBallsSystem.run(world, fx(0.016), &Rotation::identity());
        let turns = vec![Rotation::identity(); world.paddles.len()];
        let cues = BounceSystem.run(world, &turns);
        let goal = WinnerSystem.run(world, &labels, &Rotation::identity());
        (cues, goal)
    };
    let mut app = Application::new();
    let menu = app.world.clone();
    assert_eq!(tick(&mut app.world), (Vec::new(), None));
    assert_eq!(app.world, menu);

    send(&mut app, click("btn_single_player"));
    let start = app.world.clone();
    tick(&mut app.world);
    assert_ne!(app.world, start);

    send(&mut app, pressed("pause"));
    let frozen = app.world.clone();
    assert_eq!(tick(&mut app.world), (Vec::new(), None));
    assert_eq!(app.world, frozen);

    send(&mut app, click("btn_main_menu"));
    assert_eq!(tick(&mut app.world), (Vec::new(), None));
    assert_eq!(app.world, World::new());
}

#[test]
fn game_setup_functions() {
    let mut world = World::new();
    initialize_paddles(&mut world, true);
    assert_eq!(world.paddles.len(), 2);
    assert!(world.paddles[1].ai.is_none());
    assert!(world.ball.is_none());
    initialize_paddles(&mut world, false);
    assert_eq!(world.paddles.len(), 2);
    assert!(world.paddles[1].ai.is_some());
    let eighth = Rotation::new(fx(0.707107), fx(-0.707107)).unwrap();
    initialize_ball(&mut world, &eighth);
    let e = world.ball.unwrap();
    assert_eq!(e.ball.velocity.x.to_micro(), 45_961_955);
    assert_eq!(e.ball.velocity.y.to_micro(), -45_961_955);
    assert_eq!(e.ball.hidden, Some(fx(2.0)));
    let mut game = GameState::with_two_players();
    game.on_stop(&mut world);
    assert_eq!(world, World::new());
    let mut pause = PauseState;
    pause.on_start(&mut world);
    assert_eq!(world.running, PausedOrRunning::Paused);
    pause.on_stop(&mut world);
    assert_eq!(world.running, PausedOrRunning::Running);
}

#[test]
fn pause_key_toggles_once_per_press() {
    let down = InputState { left_paddle: None, right_paddle: None, pause: Some(true) };
    let up = InputState { left_paddle: None, right_paddle: None, pause: Some(false) };
    let mut system = PauseSystem::default();
    let mut state = PausedOrRunning::Running;
    assert!(!system.key_up);
    // A key that is down before it was ever seen up does not count.
    system.run(&down, &mut state);
    assert_eq!(state, PausedOrRunning::Running);
    system.run(&up, &mut state);
    assert!(system.key_up);
    system.run(&down, &mut state);
    assert_eq!(state, PausedOrRunning::Paused);
    assert!(!system.key_up);
    // Held down: no second toggle.
    system.run(&down, &mut state);
    assert_eq!(state, PausedOrRunning::Paused);
    system.run(&up, &mut state);
    system.run(&up, &mut state);
    assert_eq!(state, PausedOrRunning::Paused);
    system.run(&down, &mut state);
    assert_eq!(state, PausedOrRunning::Running);
}

#[test]
fn input_axes_by_side() {
    let input = InputState { left_paddle: Some(fx(0.25)), right_paddle: None, pause: None };
    assert_eq!(input.axis(Side::Left), Some(fx(0.25)));
    assert_eq!(input.axis(Side::Right), None);
}

#[test]
fn tick_runs_paddles_ball_machine_then_bounces_and_goals() {
    let input = InputState { left_paddle: Some(fx(1.0)), right_paddle: None, pause: Some(false) };
    let labels = ScoreText { p1_score: 1, p2_score: 2 };
    let mut app = Application::new();
    send(&mut app, click("btn_single_player"));
    {
        let ball = app.world.ball.as_mut().unwrap();
        ball.ball.hidden = None;
        ball.ball.velocity = Vec2::new(fx(-100.0), fx(50.0));
        ball.transform.x = fx(2.0);
    }
    app.advance(&input, fx(0.016), &Rotation::identity());
    // The player's paddle was driven, the ball moved, and the machine
    // followed the ball to where it then was.
    assert_eq!(app.world.paddles[0].paddle.velocity.to_micro(), 29_440_000);
    let ball = app.world.ball.unwrap();
    assert_eq!(ball.transform.x, fx(0.4));
    assert_eq!(ball.transform.y, fx(50.8));
    // error 0.8 gives acceleration 80; 80 * 0.016 * 0.92
    assert_eq!(app.world.paddles[1].paddle.velocity.to_micro(), 1_177_600);

    let angles = app.deflection_angles();
    assert_eq!(angles.len(), 2);
    // The ball is 0.8 - 0.47104 above the centre of the left paddle.
    assert_eq!(angles[0].to_micro(), 32_505);
    let turns = vec![Rotation::identity(); 2];
    let (cues, goal) = app.resolve(&turns, &labels, &Rotation::identity());
    // The ball struck the left paddle and then counted as a goal.
    assert_eq!(cues.len(), 1);
    assert_eq!(goal.map(|g| (g.scorer, g.label, g.score)), Some((Side::Right, 2, 1)));
    assert_eq!(app.world.scores.score_right, 1);
    assert_eq!(app.world.ball.unwrap().transform.x, fx(50.0));
    assert_eq!(app.state, Some(State::Game));
}

#[test]
fn tick_changes_nothing_outside_the_game() {
    let input = InputState { left_paddle: Some(fx(1.0)), right_paddle: None, pause: Some(false) };
    let labels = ScoreText { p1_score: 1, p2_score: 2 };
    let mut app = Application::new();
    let menu = app.clone();
    app.advance(&input, fx(0.016), &Rotation::identity());
    assert!(app.deflection_angles().is_empty());
    assert_eq!(app.resolve(&Vec::new(), &labels, &Rotation::identity()), (Vec::new(), None));
    assert_eq!(app, menu);

    send(&mut app, click("btn_two_player"));
    send(&mut app, pressed("pause"));
    let paused = app.clone();
    app.advance(&input, fx(0.016), &Rotation::identity());
    let turns = vec![Rotation::identity(); 2];
    assert_eq!(app.resolve(&turns, &labels, &Rotation::identity()), (Vec::new(), None));
    assert_eq!(app, paused);

    send(&mut app, click("btn_quit"));
    let ended = app.clone();
    app.advance(&input, fx(0.016), &Rotation::identity());
    assert_eq!(app.resolve(&Vec::new(), &labels, &Rotation::identity()), (Vec::new(), None));
    assert_eq!(app, ended);
}
