use bovido::court::{create_court, tile_position, COURT_HEIGHT, COURT_WIDTH};
use bovido::geometry::{add_ball_height, cartesian_to_iso, iso_to_cartesian, CartesianTransform, ScreenPosition};
use bovido::units::{floor_div, isqrt};

#[test]
fn projects_player_start_to_screen() {
    let s = cartesian_to_iso(&CartesianTransform::new(110_000, -205_000, 0));
    assert_eq!(s, ScreenPosition { x: -95_000, y: -157_500, z: 0 });
    assert_eq!(s.x as f64 / 1000.0, -95.0);
    assert_eq!(s.y as f64 / 1000.0, -157.5);
}

#[test]
fn projection_keeps_depth() {
    let s = cartesian_to_iso(&CartesianTransform::new(40_000, 0, 5_000));
    assert_eq!(s, ScreenPosition { x: 40_000, y: -20_000, z: 5_000 });
}

#[test]
fn projection_rounds_odd_differences_down() {
    let s = cartesian_to_iso(&CartesianTransform::new(0, -3, 0));
    assert_eq!((s.x, s.y), (-3, -2));
    let s = cartesian_to_iso(&CartesianTransform::new(0, 3, 0));
    assert_eq!((s.x, s.y), (3, 1));
}

#[test]
fn projection_round_trips_on_the_ground_plane() {
    let points = [
        (0, 0),
        (110_000, -205_000),
        (40_000, 0),
        (1, 0),
        (0, 1),
        (-1, 0),
        (-7, 4),
        (3, -8),
        (-999_999_999_999, 1_000_000_000_000),
        (1_000_000_000_000, 1_000_000_000_000),
        (-1_000_000_000_000, -999_999_999_999),
    ];
    for (x, y) in points {
        let s = cartesian_to_iso(&CartesianTransform::new(x, y, 0));
        assert_eq!(iso_to_cartesian(&s), (x, y), "point ({}, {})", x, y);
    }
}

#[test]
fn ball_height_raises_half_the_height_plus_lift() {
    let mut s = ScreenPosition { x: 10, y: -1_000, z: 0 };
    add_ball_height(&mut s, 36_735);
    assert_eq!(s, ScreenPosition { x: 10, y: -1_000 + 18_367 + 5_000, z: 0 });
    let mut s = ScreenPosition { x: 0, y: 0, z: 0 };
    add_ball_height(&mut s, -3);
    assert_eq!(s.y, -2 + 5_000);
}

#[test]
fn floor_division_rounds_toward_negative_infinity() {
    assert_eq!(floor_div(7, 2), 3);
    assert_eq!(floor_div(-7, 2), -4);
    assert_eq!(floor_div(-8, 2), -4);
    assert_eq!(floor_div(0, 5), 0);
    assert_eq!(floor_div(-1, 1_000_000), -1);
}

#[test]
fn integer_square_root() {
    assert_eq!(isqrt(0), 0);
    assert_eq!(isqrt(1), 1);
    assert_eq!(isqrt(15), 3);
    assert_eq!(isqrt(16), 4);
    assert_eq!(isqrt(74 * 74 + 135 * 135 + 5 * 5), 154);
    assert_eq!(isqrt(12_000_000_000_000_000_000_000_000), 3_464_101_615_137);
}

#[test]
fn court_has_one_tile_per_cell() {
    let tiles = create_court();
    assert_eq!(tiles.len(), (COURT_WIDTH * COURT_HEIGHT) as usize);
    assert_eq!(tiles.len(), 192);
    assert_eq!(tiles[0], ScreenPosition { x: 0, y: 0, z: 0 });
    assert_eq!(tiles[1], ScreenPosition { x: -16_000, y: -8_000, z: 0 });
    assert_eq!(tiles[16], ScreenPosition { x: 16_000, y: -8_000, z: 0 });
    assert_eq!(tiles[17], ScreenPosition { x: 0, y: -16_000, z: 0 });
    assert_eq!(tiles[191], tile_position(11, 15));
    assert_eq!(tile_position(11, 15), ScreenPosition { x: -64_000, y: -208_000, z: 0 });
    assert_eq!(tile_position(-2, 3), ScreenPosition { x: -80_000, y: -8_000, z: 0 });
}
