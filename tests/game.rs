use bovido::ball::Target;
use bovido::ballistics::ArcError;
use bovido::character::{create_characters, MoveInput, CHARACTER_SPEED};
use bovido::game::{default_throw, Controls, Game, Phase, ThrowConfig};
use bovido::geometry::{cartesian_to_iso, CartesianTransform, ScreenPosition};

const TICK: u32 = 16_667;

fn idle() -> Controls {
    Controls { movement: no_keys(), throw_held: false, throw_released: false }
}

fn no_keys() -> MoveInput {
    MoveInput { left: false, right: false, down: false, up: false }
}

fn walking_right() -> MoveInput {
    MoveInput { left: false, right: true, down: false, up: false }
}

fn new_game() -> Game {
    Game::new(&default_throw()).unwrap()
}

#[test]
fn match_starts_idle_with_both_characters() {
    let g = new_game();
    let (player, opponent) = create_characters();
    assert_eq!(g.player, player);
    assert_eq!(g.opponent, opponent);
    assert_eq!(g.player.position, CartesianTransform::new(110_000, -205_000, 5_000));
    assert_eq!(g.opponent.position, CartesianTransform::new(40_000, 0, 5_000));
    assert_eq!(g.player.speed, CHARACTER_SPEED);
    assert_eq!(g.phase, Phase::Idle);
    assert!(!g.events.throw_pending());
    assert_eq!(g.events.returns_sent(), 0);
}

#[test]
fn match_rejects_a_degenerate_throw() {
    let config = ThrowConfig { half_distance: 0, arc_height: 20_000, forward_speed: 200_000 };
    assert!(matches!(Game::new(&config), Err(ArcError::NotPositive)));
}

#[test]
fn player_walks_without_the_throw_key() {
    let mut g = new_game();
    let c = Controls { movement: walking_right(), throw_held: false, throw_released: false };
    g.tick(&c, 100_000);
    assert_eq!(g.player.position, CartesianTransform::new(125_000, -205_000, 5_000));
    let c = Controls {
        movement: MoveInput { left: true, right: false, down: true, up: false },
        throw_held: false,
        throw_released: false,
    };
    g.tick(&c, 100_000);
    assert_eq!(g.player.position, CartesianTransform::new(110_000, -220_000, 5_000));
}

#[test]
fn holding_the_throw_key_suppresses_movement_until_after_release() {
    let mut g = new_game();
    let start = g.player.position;
    for _ in 0..10 {
        let c = Controls { movement: walking_right(), throw_held: true, throw_released: false };
        g.tick(&c, TICK);
        assert!(g.events.throw_pending());
        assert_eq!(g.player.position, start);
        assert_eq!(g.phase, Phase::Idle);
    }
    // tick N: the key goes up; the gesture still claims this tick
    let c = Controls { movement: walking_right(), throw_held: false, throw_released: true };
    g.tick(&c, TICK);
    assert!(g.events.throw_pending());
    assert_eq!(g.player.position, start);
    assert!(matches!(g.phase, Phase::Flying(_)));
    // tick N + 1: the player walks again and the signal is gone
    let c = Controls { movement: walking_right(), throw_held: false, throw_released: false };
    g.tick(&c, TICK);
    assert!(!g.events.throw_pending());
    assert_eq!(g.player.position.x, start.x + 2_500);
}

#[test]
fn default_throw_lands_near_twice_the_half_distance() {
    let mut g = new_game();
    let release = Controls { movement: no_keys(), throw_held: false, throw_released: true };
    g.tick(&release, TICK);
    let mut ticks = 1;
    let mut last_y = -205_000;
    while let Phase::Flying(ball) = g.phase {
        assert!(ball.position.y > last_y);
        assert!(ball.position.y < -65_000);
        last_y = ball.position.y;
        g.tick(&idle(), TICK);
        ticks += 1;
        assert!(ticks < 1_000);
    }
    assert_eq!(ticks, 76);
    assert!((last_y as f64 / 1000.0 - (-65.0)).abs() < 2.0);
    assert_eq!(
        g.phase,
        Phase::Pursuing(Target { position: CartesianTransform::new(114_000, -67_000, 0) })
    );
}

#[test]
fn a_second_throw_is_ignored_while_one_is_in_the_air() {
    let mut g = new_game();
    let release = Controls { movement: no_keys(), throw_held: false, throw_released: true };
    g.tick(&release, TICK);
    let first = g.phase;
    g.tick(&release, TICK);
    match (first, g.phase) {
        (Phase::Flying(a), Phase::Flying(b)) => {
            assert_eq!(a.projectile.landing_y, b.projectile.landing_y);
            assert!(b.position.y > a.position.y);
        }
        _ => panic!("the ball should still be flying"),
    }
}

#[test]
fn opponent_catches_a_far_target_with_one_return_signal() {
    let mut g = new_game();
    assert_eq!(g.opponent.position, CartesianTransform::new(40_000, 0, 5_000));
    g.phase = Phase::Pursuing(Target { position: CartesianTransform::new(114_000, -135_000, 0) });
    let mut returns = 0;
    let mut ticks = 0;
    while g.phase != Phase::Idle {
        g.tick(&idle(), TICK);
        returns += g.events.returns_sent();
        ticks += 1;
        assert!(ticks < 10_000);
    }
    assert_eq!(ticks, 59);
    assert_eq!(returns, 1);
    assert_eq!(g.opponent.position, CartesianTransform::new(109_666, -127_104, 291));
    for _ in 0..5 {
        g.tick(&idle(), TICK);
        assert_eq!(g.events.returns_sent(), 0);
    }
}

#[test]
fn opponent_on_the_target_resolves_in_the_same_tick() {
    let mut g = new_game();
    g.phase = Phase::Pursuing(Target { position: g.opponent.position });
    let before = g.opponent;
    g.tick(&idle(), TICK);
    assert_eq!(g.phase, Phase::Idle);
    assert_eq!(g.events.returns_sent(), 1);
    assert_eq!(g.opponent, before);
}

#[test]
fn full_cycle_returns_to_idle_and_allows_another_throw() {
    let mut g = new_game();
    let release = Controls { movement: no_keys(), throw_held: false, throw_released: true };
    g.tick(&release, TICK);
    let mut ticks = 0;
    let mut returns = 0;
    while g.phase != Phase::Idle {
        g.tick(&idle(), TICK);
        returns += g.events.returns_sent();
        ticks += 1;
        assert!(ticks < 10_000);
    }
    assert_eq!(returns, 1);
    g.tick(&release, TICK);
    assert!(matches!(g.phase, Phase::Flying(_)));
}

#[test]
fn only_the_ball_in_flight_is_drawn_with_height() {
    let mut g = new_game();
    let s = g.screen_positions();
    assert_eq!(s.player, ScreenPosition { x: -95_000, y: -157_500, z: 5_000 });
    assert_eq!(s.opponent, cartesian_to_iso(&g.opponent.position));
    assert_eq!(s.ball, None);
    assert_eq!(s.target, None);

    let release = Controls { movement: no_keys(), throw_held: false, throw_released: true };
    for _ in 0..20 {
        g.tick(&release, TICK);
    }
    let s = g.screen_positions();
    assert_eq!(s.player, cartesian_to_iso(&g.player.position));
    assert_eq!(s.opponent, cartesian_to_iso(&g.opponent.position));
    match g.phase {
        Phase::Flying(ball) => {
            assert!(ball.projectile.height > 0);
            let base = cartesian_to_iso(&ball.position);
            let drawn = s.ball.unwrap();
            assert_eq!(drawn.x, base.x);
            assert_eq!(drawn.y, base.y + ball.projectile.height / 2 + 5_000);
        }
        _ => panic!("the ball should be flying"),
    }

    g.phase = Phase::Pursuing(Target { position: CartesianTransform::new(114_000, -67_000, 0) });
    let s = g.screen_positions();
    assert_eq!(s.ball, None);
    assert_eq!(s.target, Some(ScreenPosition { x: 47_000, y: -90_500, z: 0 }));
}
