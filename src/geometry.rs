//! The two coordinate frames: the orthogonal cartesian frame that gameplay
//! works in, and the isometric screen frame derived from it.

use vstd::prelude::*;
use crate::units::{floor_div, in_range, MAGNITUDE_LIMIT};

verus! {

/// An entity's logical position in the cartesian frame, in milli-units.
#[derive(Clone, Copy, Debug, PartialEq, Eq, Structural)]
pub struct CartesianTransform {
    pub x: i64,
    pub y: i64,
    pub z: i64,
}

/// An entity's position on screen, derived from its cartesian position.
#[derive(Clone, Copy, Debug, PartialEq, Eq, Structural)]
pub struct ScreenPosition {
    pub x: i64,
    pub y: i64,
    pub z: i64,
}

impl CartesianTransform {
    /// Every component lies within the simulation's range.
    pub open spec fn wf(&self) -> bool {
        in_range(self.x as int) && in_range(self.y as int) && in_range(self.z as int)
    }

    pub fn new(x: i64, y: i64, z: i64) -> (r: CartesianTransform)
        ensures
            r == (CartesianTransform { x, y, z }),
    {
        CartesianTransform { x, y, z }
    }
}

/// Horizontal screen coordinate of the cartesian point `(x, y)`.
pub open spec fn iso_x(x: int, y: int) -> int {
    x + y
}

/// Vertical screen coordinate of the cartesian point `(x, y)`, rounded down.
pub open spec fn iso_y(x: int, y: int) -> int {
    (y - x) / 2
}

/// The difference `y - x` recovered from a screen point: twice the vertical
/// coordinate plus the bit that halving dropped, which shares the parity of
/// the horizontal coordinate.
pub open spec fn unrounded_diff(sx: int, sy: int) -> int {
    2 * sy + sx % 2
}

/// Cartesian `x` of the screen point `(sx, sy)`.
pub open spec fn cart_x(sx: int, sy: int) -> int {
    (sx - unrounded_diff(sx, sy)) / 2
}

/// Cartesian `y` of the screen point `(sx, sy)`.
pub open spec fn cart_y(sx: int, sy: int) -> int {
    (sx + unrounded_diff(sx, sy)) / 2
}

/// The base isometric projection of a cartesian position.
pub open spec fn project(c: CartesianTransform) -> ScreenPosition {
    ScreenPosition {
        x: iso_x(c.x as int, c.y as int) as i64,
        y: iso_y(c.x as int, c.y as int) as i64,
        z: c.z,
    }
}

/// Projects a cartesian position onto the screen: `x' = x + y`,
/// `y' = (y - x) / 2` rounded down; depth is carried over unchanged.
pub fn cartesian_to_iso(c: &CartesianTransform) -> (s: ScreenPosition)
    requires
        c.wf(),
    ensures
        s == project(*c),
        s.x == iso_x(c.x as int, c.y as int),
        s.y == iso_y(c.x as int, c.y as int),
{
    let sy = floor_div(c.y as i128 - c.x as i128, 2);
    ScreenPosition { x: c.x + c.y, y: sy as i64, z: c.z }
}

/// Recovers the cartesian `(x, y)` that projects to the screen point `s`.
pub fn iso_to_cartesian(s: &ScreenPosition) -> (r: (i64, i64))
    requires
        -2 * MAGNITUDE_LIMIT <= s.x <= 2 * MAGNITUDE_LIMIT,
        -2 * MAGNITUDE_LIMIT <= s.y <= 2 * MAGNITUDE_LIMIT,
    ensures
        r.0 == cart_x(s.x as int, s.y as int),
        r.1 == cart_y(s.x as int, s.y as int),
{
    let parity: i128 = if s.x % 2 == 0 { 0 } else { 1 };
    proof {
        assert(parity == (s.x as int) % 2);
    }
    let diff: i128 = 2 * (s.y as i128) + parity;
    let x = floor_div(s.x as i128 - diff, 2);
    let y = floor_div(s.x as i128 + diff, 2);
    (x as i64, y as i64)
}

/// The projection loses nothing on the ground plane: mapping any cartesian
/// `(x, y)` to the screen and back gives `(x, y)` again, exactly.
pub proof fn lemma_projection_invertible(x: int, y: int)
    ensures
        cart_x(iso_x(x, y), iso_y(x, y)) == x,
        cart_y(iso_x(x, y), iso_y(x, y)) == y,
{
    let sx = iso_x(x, y);
    let sy = iso_y(x, y);
    vstd::arithmetic::div_mod::lemma_fundamental_div_mod(y - x, 2);
    vstd::arithmetic::div_mod::lemma_fundamental_div_mod(sx, 2);
    assert(sx % 2 == (y - x) % 2) by {
        vstd::arithmetic::div_mod::lemma_mod_bound(sx, 2);
        vstd::arithmetic::div_mod::lemma_mod_bound(y - x, 2);
    }
    assert(unrounded_diff(sx, sy) == y - x);
    vstd::arithmetic::div_mod::lemma_fundamental_div_mod_converse(2 * x, 2, x, 0);
    vstd::arithmetic::div_mod::lemma_fundamental_div_mod_converse(2 * y, 2, y, 0);
}

/// How far above its projected spot a ball in flight is drawn when its
/// height is zero.
pub const BALL_LIFT: i64 = 5 * crate::units::UNIT;

/// A screen position raised by the height of a ball in flight: half the
/// height, rounded down, plus `BALL_LIFT`.
pub open spec fn lifted(s: ScreenPosition, height: int) -> ScreenPosition {
    ScreenPosition { y: (s.y + height / 2 + BALL_LIFT) as i64, ..s }
}

/// Raises the projected position of a ball in flight by its height. Runs
/// after the base projection of every entity of the tick.
pub fn add_ball_height(s: &mut ScreenPosition, height: i64)
    requires
        in_range(old(s).y as int),
        in_range(height as int),
    ensures
        *final(s) == lifted(*old(s), height as int),
{
    let half = floor_div(height as i128, 2);
    s.y = (s.y as i128 + half + BALL_LIFT as i128) as i64;
}

} // verus!
