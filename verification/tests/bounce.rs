use pong::audio::SoundCue;
use pong::fixed::Fixed;
use pong::pong::{
    Ai, Ball, BallEntity, Paddle, PaddleEntity, PausedOrRunning, ScoreBoard, Side, Transform,
    World, MAX_ROTATION_ON_COLLISION,
};
use pong::systems::bounce::collision_degree;
use pong::systems::BounceSystem;
use pong::vector::{Rotation, Vec2};

fn fx(v: f64) -> Fixed {
    Fixed::from_micro((v * 1e6).round() as i64)
}

fn as_units(v: Fixed) -> f64 {
    (v.to_micro() as f64) / 1e6
}

fn rot(angle: Fixed) -> Rotation {
    let a = as_units(angle);
    Rotation::new(fx(a.cos()), fx(a.sin())).unwrap()
}

fn ball(vx: f64, vy: f64, spin: f64) -> Ball {
    Ball { velocity: Vec2::new(fx(vx), fx(vy)), radius: fx(1.2), hidden: None, rot_velocity: fx(spin) }
}

fn left_paddle(y: f64, velocity: f64) -> PaddleEntity {
    let mut paddle = Paddle::new(Side::Left);
    paddle.velocity = fx(velocity);
    PaddleEntity { paddle, transform: Transform::at(fx(2.4), fx(y)), ai: None }
}

fn right_paddle(y: f64, velocity: f64) -> PaddleEntity {
    let mut paddle = Paddle::new(Side::Right);
    paddle.velocity = fx(velocity);
    PaddleEntity { paddle, transform: Transform::at(fx(97.6), fx(y)), ai: Some(Ai) }
}

fn world_with(paddles: Vec<PaddleEntity>, b: Ball, x: f64, y: f64) -> World {
    World {
        paddles,
        ball: Some(BallEntity { ball: b, transform: Transform::at(fx(x), fx(y)) }),
        scores: ScoreBoard::default(),
        running: PausedOrRunning::Running,
    }
}

fn deflections(world: &World) -> Vec<Rotation> {
    let at = world.ball.unwrap().transform;
    world
        .paddles
        .iter()
        .map(|p| rot(BounceSystem::deflection_angle(&at, &p.paddle, &p.transform)))
        .collect()
}

fn speed(b: &Ball) -> f64 {
    (as_units(b.velocity.x).powi(2) + as_units(b.velocity.y).powi(2)).sqrt()
}

#[test]
fn wall_bounce_at_the_low_wall() {
    let mut b = ball(10.0, -20.0, 8.0);
    let bounced = BounceSystem::bounce_off_wall(&mut b, &Transform::at(fx(40.0), fx(1.0)));
    assert!(bounced);
    // 0.5 * (8 * 1.2) = 4.8 is added to the horizontal speed
    assert_eq!(b.velocity, Vec2::new(fx(14.8), fx(20.0)));
    assert_eq!(b.rot_velocity, fx(4.0));
    assert_eq!(b.radius, fx(1.2));
    assert_eq!(b.hidden, None);
}

#[test]
fn wall_bounce_at_the_high_wall() {
    let mut b = ball(10.0, 20.0, 8.0);
    let bounced = BounceSystem::bounce_off_wall(&mut b, &Transform::at(fx(40.0), fx(99.0)));
    assert!(bounced);
    assert_eq!(b.velocity, Vec2::new(fx(5.2), fx(-20.0)));
    assert_eq!(b.rot_velocity, fx(4.0));
}

#[test]
fn wall_bounce_needs_motion_toward_the_wall() {
    let mut away = ball(10.0, 20.0, 8.0);
    assert!(!BounceSystem::bounce_off_wall(&mut away, &Transform::at(fx(40.0), fx(1.0))));
    assert_eq!(away, ball(10.0, 20.0, 8.0));
    let mut level = ball(10.0, 0.0, 8.0);
    assert!(!BounceSystem::bounce_off_wall(&mut level, &Transform::at(fx(40.0), fx(1.0))));
    let mut far = ball(10.0, -20.0, 8.0);
    assert!(!BounceSystem::bounce_off_wall(&mut far, &Transform::at(fx(40.0), fx(1.200001))));
    let mut touching = ball(10.0, -20.0, 8.0);
    assert!(BounceSystem::bounce_off_wall(&mut touching, &Transform::at(fx(40.0), fx(1.2))));
    let mut high = ball(10.0, 20.0, 8.0);
    assert!(BounceSystem::bounce_off_wall(&mut high, &Transform::at(fx(40.0), fx(98.8))));
    let mut below = ball(10.0, 20.0, 8.0);
    assert!(!BounceSystem::bounce_off_wall(&mut below, &Transform::at(fx(40.0), fx(98.799999))));
}

#[test]
fn spin_decays_by_grip_on_wall_bounce() {
    for r0 in [0i64, 2, 1_000_000, -7_400_000, 123_456_788] {
        let mut b = ball(0.0, -1.0, 0.0);
        b.rot_velocity = Fixed::from_micro(r0);
        assert!(BounceSystem::bounce_off_wall(&mut b, &Transform::at(fx(40.0), fx(1.0))));
        assert_eq!(b.rot_velocity.to_micro() * 2, r0);
    }
    let mut odd = ball(0.0, -1.0, 0.0);
    odd.rot_velocity = Fixed::from_micro(3);
    assert!(BounceSystem::bounce_off_wall(&mut odd, &Transform::at(fx(40.0), fx(1.0))));
    assert_eq!(odd.rot_velocity.to_micro(), 1);
    let mut neg = ball(0.0, -1.0, 0.0);
    neg.rot_velocity = Fixed::from_micro(-3);
    assert!(BounceSystem::bounce_off_wall(&mut neg, &Transform::at(fx(40.0), fx(1.0))));
    assert_eq!(neg.rot_velocity.to_micro(), -1);
}

#[test]
fn collision_degree_is_the_share_of_half_the_height() {
    let p = left_paddle(50.0, 0.0);
    let b = ball(-30.0, 40.0, 0.0);
    let at = |x: f64, y: f64| Transform::at(fx(x), fx(y));
    assert_eq!(collision_degree(&b, &at(3.0, 53.5325), &p.paddle, &p.transform), Some(fx(0.5)));
    assert_eq!(collision_degree(&b, &at(3.0, 50.0), &p.paddle, &p.transform), Some(fx(0.0)));
    assert_eq!(collision_degree(&b, &at(3.0, 57.065), &p.paddle, &p.transform), Some(fx(1.0)));
    assert_eq!(collision_degree(&b, &at(3.0, 42.935), &p.paddle, &p.transform), Some(fx(-1.0)));
    // The ball still touches the paddle with its rim.
    assert_eq!(
        collision_degree(&b, &at(3.0, 58.265), &p.paddle, &p.transform),
        Some(Fixed::from_micro(1_169_851))
    );
    assert_eq!(collision_degree(&b, &at(3.0, 58.265001), &p.paddle, &p.transform), None);
    assert_eq!(collision_degree(&b, &at(3.0, 41.734999), &p.paddle, &p.transform), None);
}

#[test]
fn collision_needs_the_ball_at_the_face_and_moving_in() {
    let p = left_paddle(50.0, 0.0);
    let at = |x: f64| Transform::at(fx(x), fx(50.0));
    let toward = ball(-30.0, 0.0, 0.0);
    let away = ball(30.0, 0.0, 0.0);
    let level = ball(0.0, 10.0, 0.0);
    // The rim of the ball is exactly at the face of the paddle.
    assert!(collision_degree(&toward, &at(4.0), &p.paddle, &p.transform).is_some());
    assert!(collision_degree(&toward, &at(4.000001), &p.paddle, &p.transform).is_none());
    assert!(collision_degree(&away, &at(3.0), &p.paddle, &p.transform).is_none());
    assert!(collision_degree(&level, &at(3.0), &p.paddle, &p.transform).is_none());
    let r = right_paddle(50.0, 0.0);
    assert!(collision_degree(&away, &at(96.0), &r.paddle, &r.transform).is_some());
    assert!(collision_degree(&away, &at(95.999999), &r.paddle, &r.transform).is_none());
    assert!(collision_degree(&toward, &at(97.0), &r.paddle, &r.transform).is_none());
}

#[test]
fn deflection_angle_follows_the_strike() {
    let p = left_paddle(50.0, 0.0);
    let r = right_paddle(50.0, 0.0);
    let at = |y: f64| Transform::at(fx(50.0), fx(y));
    let angle = |t: &Transform, e: &PaddleEntity| {
        BounceSystem::deflection_angle(t, &e.paddle, &e.transform).to_micro()
    };
    assert_eq!(angle(&at(57.065), &p), MAX_ROTATION_ON_COLLISION);
    assert_eq!(angle(&at(42.935), &p), -MAX_ROTATION_ON_COLLISION);
    assert_eq!(angle(&at(50.0), &p), 0);
    assert_eq!(angle(&at(53.5325), &p), 349_066);
    assert_eq!(angle(&at(57.065), &r), -MAX_ROTATION_ON_COLLISION);
    assert_eq!(angle(&at(42.935), &r), MAX_ROTATION_ON_COLLISION);
    assert_eq!(angle(&at(50.0), &r), 0);
    assert_eq!(MAX_ROTATION_ON_COLLISION, 698_132);
}

#[test]
fn paddle_strike_at_half_height_on_the_left() {
    let p = left_paddle(50.0, 50.0);
    let mut b = ball(-30.0, 40.0, 1.0);
    let at = Transform::at(fx(3.0), fx(53.5325));
    let turn = rot(BounceSystem::deflection_angle(&at, &p.paddle, &p.transform));
    assert!(BounceSystem::bounce_off_paddle(&mut b, &at, &p.paddle, &p.transform, &turn));
    // 0.3 * 1 * 50 / 1.2 = 12.5 is added to the spin
    assert_eq!(b.rot_velocity, fx(13.5));
    // (50, 0) turned by twenty degrees, then a tenth faster
    assert_eq!(b.velocity.x.to_micro(), 51_683_115);
    assert_eq!(b.velocity.y.to_micro(), 18_811_100);
    assert!((speed(&b) - 55.0).abs() < 1e-4);
}

#[test]
fn paddle_strike_on_the_right_is_mirrored() {
    let p = right_paddle(50.0, 50.0);
    let mut b = ball(30.0, 40.0, 1.0);
    let at = Transform::at(fx(97.0), fx(53.5325));
    let turn = rot(BounceSystem::deflection_angle(&at, &p.paddle, &p.transform));
    assert!(BounceSystem::bounce_off_paddle(&mut b, &at, &p.paddle, &p.transform, &turn));
    assert_eq!(b.rot_velocity, fx(-11.5));
    assert_eq!(b.velocity.x.to_micro(), -51_683_115);
    assert_eq!(b.velocity.y.to_micro(), 18_811_100);
}

#[test]
fn strike_at_the_centre_leaves_straight_out() {
    let p = left_paddle(50.0, 0.0);
    let mut b = ball(-30.0, 40.0, 0.0);
    let at = Transform::at(fx(3.0), fx(50.0));
    let angle = BounceSystem::deflection_angle(&at, &p.paddle, &p.transform);
    assert_eq!(angle, fx(0.0));
    assert_eq!(rot(angle), Rotation::identity());
    assert!(BounceSystem::bounce_off_paddle(&mut b, &at, &p.paddle, &p.transform, &rot(angle)));
    assert_eq!(b.velocity, Vec2::new(fx(55.0), fx(0.0)));
    assert_eq!(b.rot_velocity, fx(0.0));
}

#[test]
fn strike_at_the_edges_turns_by_the_greatest_angle() {
    let p = left_paddle(50.0, 0.0);
    for (y, sign) in [(57.065, 1.0), (42.935, -1.0)] {
        let mut b = ball(-60.0, 25.0, 0.0);
        let at = Transform::at(fx(3.0), fx(y));
        let turn = rot(BounceSystem::deflection_angle(&at, &p.paddle, &p.transform));
        assert!(BounceSystem::bounce_off_paddle(&mut b, &at, &p.paddle, &p.transform, &turn));
        let out = as_units(b.velocity.y).atan2(as_units(b.velocity.x));
        assert!((out - sign * 40.0f64.to_radians()).abs() < 1e-5);
        assert!((speed(&b) - 1.1 * 65.0).abs() < 1e-4);
    }
}

#[test]
fn speed_grows_by_a_tenth_whatever_the_strike() {
    let p = left_paddle(50.0, -120.0);
    let mut i = 0;
    while i <= 80 {
        let y = 42.0 + 0.2 * (i as f64);
        let mut b = ball(-48.0, -20.0, 3.0);
        let at = Transform::at(fx(3.0), fx(y));
        let turn = rot(BounceSystem::deflection_angle(&at, &p.paddle, &p.transform));
        assert!(BounceSystem::bounce_off_paddle(&mut b, &at, &p.paddle, &p.transform, &turn));
        assert!((speed(&b) - 1.1 * 52.0).abs() < 1e-4);
        assert_eq!(b.rot_velocity, fx(3.0 - 30.0));
        i += 1;
    }
}

#[test]
fn no_strike_leaves_the_ball_alone() {
    let p = left_paddle(50.0, 50.0);
    let mut b = ball(30.0, 40.0, 1.0);
    let at = Transform::at(fx(3.0), fx(50.0));
    assert!(!BounceSystem::bounce_off_paddle(
        &mut b,
        &at,
        &p.paddle,
        &p.transform,
        &Rotation::identity()
    ));
    assert_eq!(b, ball(30.0, 40.0, 1.0));
}

#[test]
fn run_bounces_off_wall_then_paddle() {
    let mut world = world_with(
        vec![left_paddle(7.065, 0.0), right_paddle(50.0, 0.0)],
        ball(-30.0, -40.0, 0.0),
        3.0,
        1.0,
    );
    let turns = deflections(&world);
    let cues = BounceSystem.run(&mut world, &turns);
    assert_eq!(cues, vec![SoundCue::BounceWall, SoundCue::BouncePaddle]);
    let b = world.ball.unwrap();
    assert!((speed(&b.ball) - 55.0).abs() < 1e-4);
    assert!(as_units(b.ball.velocity.x) > 0.0);
    assert_eq!(b.transform, Transform::at(fx(3.0), fx(1.0)));
    assert_eq!(world.paddles[0], left_paddle(7.065, 0.0));
}

#[test]
fn wall_grip_can_turn_the_ball_from_the_paddle() {
    // The wall adds 0.5 * (100 * 1.2) = 60 to the horizontal speed, so the
    // ball no longer moves into the left paddle.
    let mut world =
        world_with(vec![left_paddle(7.065, 0.0)], ball(-30.0, -40.0, 100.0), 3.0, 1.0);
    let turns = deflections(&world);
    let cues = BounceSystem.run(&mut world, &turns);
    assert_eq!(cues, vec![SoundCue::BounceWall]);
    let b = world.ball.unwrap().ball;
    assert_eq!(b.velocity, Vec2::new(fx(30.0), fx(40.0)));
    assert_eq!(b.rot_velocity, fx(50.0));
}

#[test]
fn run_without_collision_changes_nothing() {
    let mut world = world_with(
        vec![left_paddle(50.0, 0.0), right_paddle(50.0, 0.0)],
        ball(-30.0, 40.0, 2.0),
        50.0,
        50.0,
    );
    let before = world.clone();
    let turns = deflections(&world);
    let cues = BounceSystem.run(&mut world, &turns);
    assert!(cues.is_empty());
    assert_eq!(world, before);
}

#[test]
fn run_does_nothing_when_frozen_or_without_ball() {
    let mut world =
        world_with(vec![left_paddle(7.065, 0.0)], ball(-30.0, -40.0, 0.0), 3.0, 1.0);
    world.running = PausedOrRunning::Paused;
    let before = world.clone();
    let turns = deflections(&world);
    assert!(BounceSystem.run(&mut world, &turns).is_empty());
    assert_eq!(world, before);
    let mut empty = World::new();
    empty.paddles.push(left_paddle(50.0, 0.0));
    let snapshot = empty.clone();
    assert!(BounceSystem.run(&mut empty, &vec![Rotation::identity()]).is_empty());
    assert_eq!(empty, snapshot);
}

#[test]
fn sound_volumes() {
    assert_eq!(SoundCue::BounceWall.volume(), fx(1.0));
    assert_eq!(SoundCue::BouncePaddle.volume(), fx(1.0));
    assert_eq!(SoundCue::Score.volume(), fx(0.3));
    assert_eq!(SoundCue::RobloxDeath.volume(), fx(0.5));
    assert_eq!(SoundCue::Wilhelm.volume(), fx(0.3));
}
