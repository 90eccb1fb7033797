//! Layout of the ground tiles of the court, in screen coordinates.

use vstd::prelude::*;
use crate::geometry::ScreenPosition;
use crate::units::UNIT;

verus! {

/// Width of a tile on screen, in world units.
pub const TILE_SIZE: i64 = 32;

/// Tiles along the court's first axis.
pub const COURT_WIDTH: i64 = 12;

/// Tiles along the court's second axis.
pub const COURT_HEIGHT: i64 = 16;

/// Screen position of tile `(i, j)`: each step along `i` moves half a tile
/// right and a quarter tile down, each step along `j` half a tile left and a
/// quarter tile down.
pub open spec fn tile_spec(i: int, j: int) -> ScreenPosition {
    ScreenPosition {
        x: ((i * (TILE_SIZE / 2) - j * (TILE_SIZE / 2)) * UNIT) as i64,
        y: ((-i * (TILE_SIZE / 4) - j * (TILE_SIZE / 4)) * UNIT) as i64,
        z: 0,
    }
}

/// Largest tile index, in magnitude, whose position fits the screen frame.
pub const MAX_TILE_INDEX: i64 = 1_000_000_000;

/// Screen position of tile `(i, j)`.
pub fn tile_position(i: i64, j: i64) -> (s: ScreenPosition)
    requires
        -MAX_TILE_INDEX <= i <= MAX_TILE_INDEX,
        -MAX_TILE_INDEX <= j <= MAX_TILE_INDEX,
    ensures
        s == tile_spec(i as int, j as int),
{
    ScreenPosition {
        x: (i * (TILE_SIZE / 2) - j * (TILE_SIZE / 2)) * UNIT,
        y: (-i * (TILE_SIZE / 4) - j * (TILE_SIZE / 4)) * UNIT,
        z: 0,
    }
}

/// Every tile of the court, row by row: tile `(i, j)` stands at index
/// `i * COURT_HEIGHT + j`.
pub fn create_court() -> (tiles: Vec<ScreenPosition>)
    ensures
        tiles@.len() == COURT_WIDTH * COURT_HEIGHT,
        forall|k: int|
            0 <= k < tiles@.len() ==> #[trigger] tiles@[k] == tile_spec(
                k / COURT_HEIGHT as int,
                k % COURT_HEIGHT as int,
            ),
{
    let mut tiles: Vec<ScreenPosition> = Vec::new();
    let mut i: i64 = 0;
    while i < COURT_WIDTH
        invariant
            0 <= i <= COURT_WIDTH,
            tiles@.len() == i * COURT_HEIGHT,
            forall|k: int|
                0 <= k < tiles@.len() ==> #[trigger] tiles@[k] == tile_spec(
                    k / COURT_HEIGHT as int,
                    k % COURT_HEIGHT as int,
                ),
        decreases COURT_WIDTH - i,
    {
        let mut j: i64 = 0;
        while j < COURT_HEIGHT
            invariant
                0 <= i < COURT_WIDTH,
                0 <= j <= COURT_HEIGHT,
                tiles@.len() == i * COURT_HEIGHT + j,
                forall|k: int|
                    0 <= k < tiles@.len() ==> #[trigger] tiles@[k] == tile_spec(
                        k / COURT_HEIGHT as int,
                        k % COURT_HEIGHT as int,
                    ),
            decreases COURT_HEIGHT - j,
        {
            proof {
                let k: int = i * COURT_HEIGHT + j;
                vstd::arithmetic::div_mod::lemma_fundamental_div_mod_converse(
                    k,
                    COURT_HEIGHT as int,
                    i as int,
                    j as int,
                );
            }
            tiles.push(tile_position(i, j));
            j = j + 1;
        }
        i = i + 1;
    }
    tiles
}

} // verus!
