use bovido::ball::Target;
use bovido::character::{MoveInput, Opponent, Player, CHARACTER_SPEED};
use bovido::events::Events;
use bovido::geometry::CartesianTransform;

fn all_keys() -> MoveInput {
    MoveInput { left: true, right: true, down: true, up: true }
}

#[test]
fn player_moves_by_speed_times_elapsed_time() {
    let mut p = Player { position: CartesianTransform::new(0, 0, 5_000), speed: CHARACTER_SPEED };
    let events = Events::new();
    let up_right = MoveInput { left: false, right: true, down: false, up: true };
    p.move_player(&up_right, &events, 200_000);
    assert_eq!(p.position, CartesianTransform::new(30_000, 30_000, 5_000));
    p.move_player(&all_keys(), &events, 200_000);
    assert_eq!(p.position, CartesianTransform::new(30_000, 30_000, 5_000));
}

#[test]
fn player_step_rounds_down() {
    let mut p = Player { position: CartesianTransform::new(0, 0, 0), speed: 3 };
    let events = Events::new();
    let left = MoveInput { left: true, right: false, down: false, up: false };
    p.move_player(&left, &events, 500_000);
    assert_eq!(p.position.x, -1);
}

#[test]
fn a_pending_throw_signal_freezes_the_player() {
    let mut p = Player { position: CartesianTransform::new(1, 2, 3), speed: CHARACTER_SPEED };
    let mut events = Events::new();
    events.send_throw();
    p.move_player(&all_keys(), &events, 1_000_000);
    assert_eq!(p.position, CartesianTransform::new(1, 2, 3));
}

#[test]
fn events_are_counted_and_cleared() {
    let mut events = Events::new();
    assert!(!events.throw_pending());
    events.send_throw();
    events.send_throw();
    events.send_return();
    assert!(events.throw_pending());
    assert_eq!(events.returns_sent(), 1);
    events.clear();
    assert!(!events.throw_pending());
    assert_eq!(events.returns_sent(), 0);
}

#[test]
fn opponent_runs_straight_at_the_target() {
    let mut o = Opponent { position: CartesianTransform::new(0, 0, 0), speed: 100_000 };
    let t = Target { position: CartesianTransform::new(30_000, -40_000, 0) };
    // offset (30, -40, 0) has length 50: one second at speed 100 covers 100
    // along it, (60, -80); half a second covers (30, -40)
    assert!(!o.move_opponent(&t, 100_000));
    assert_eq!(o.position, CartesianTransform::new(6_000, -8_000, 0));
}

#[test]
fn opponent_on_the_target_is_caught_at_once() {
    let mut o = Opponent { position: CartesianTransform::new(114_000, -135_000, 0), speed: 150_000 };
    let t = Target { position: CartesianTransform::new(114_000, -135_000, 0) };
    assert!(o.move_opponent(&t, 16_667));
    assert_eq!(o.position, CartesianTransform::new(114_000, -135_000, 0));
}

#[test]
fn opponent_within_the_margin_on_one_axis_is_caught() {
    let mut o = Opponent { position: CartesianTransform::new(0, -131_000, 0), speed: 150_000 };
    let t = Target { position: CartesianTransform::new(114_000, -135_000, 0) };
    assert!(o.move_opponent(&t, 16_667));
    let mut o = Opponent { position: CartesianTransform::new(0, -129_000, 0), speed: 150_000 };
    assert!(!o.move_opponent(&t, 16_667));
}
