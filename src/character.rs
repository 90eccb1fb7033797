//! The two characters: the player, walked by the keyboard, and the
//! opponent, which runs to the target of a throw.

use vstd::prelude::*;
use crate::ball::Target;
use crate::events::Events;
use crate::geometry::CartesianTransform;
use crate::units::{
    clamp, clamp_wide, floor_div, floor_sqrt, in_range, isqrt, MAGNITUDE_LIMIT, MICROS_PER_SECOND,
    UNIT,
};

verus! {

/// Running speed of both characters, in milli-units per second.
pub const CHARACTER_SPEED: i64 = 150 * UNIT;

/// How close to the target, along each axis, the opponent must come to catch it.
pub const CATCH_MARGIN: i64 = 5 * UNIT;

/// The character the keyboard moves and that throws the ball.
#[derive(Clone, Copy, Debug, PartialEq, Eq, Structural)]
pub struct Player {
    pub position: CartesianTransform,
    /// Milli-units per second.
    pub speed: i64,
}

/// The character that runs to intercept each throw.
#[derive(Clone, Copy, Debug, PartialEq, Eq, Structural)]
pub struct Opponent {
    pub position: CartesianTransform,
    /// Milli-units per second.
    pub speed: i64,
}

/// Directions held on the keyboard during a tick.
#[derive(Clone, Copy, Debug, PartialEq, Eq, Structural)]
pub struct MoveInput {
    pub left: bool,
    pub right: bool,
    pub down: bool,
    pub up: bool,
}

/// Distance covered at `speed` in `dt` microseconds, rounded down.
pub open spec fn stride(speed: int, dt: int) -> int {
    (speed * dt) / (MICROS_PER_SECOND as int)
}

pub open spec fn abs(v: int) -> int {
    if v < 0 {
        -v
    } else {
        v
    }
}

/// The opponent at `o` is still outside the catch margin of the target at
/// `t` along both axes, and keeps running.
pub open spec fn pursuing(o: CartesianTransform, t: CartesianTransform) -> bool {
    abs(o.x as int) < abs(t.x as int) - CATCH_MARGIN && abs(o.y as int) < abs(t.y as int)
        - CATCH_MARGIN
}

/// Length of the offset `(dx, dy, dz)`, rounded down.
pub open spec fn offset_length(dx: int, dy: int, dz: int) -> int {
    floor_sqrt(dx * dx + dy * dy + dz * dz)
}

/// One coordinate after a step of `dist` milli-units along the offset whose
/// component is `d` and whose length is `len`.
pub open spec fn step_toward(p: int, d: int, dist_num: int, len: int) -> int {
    clamp(p + (d * dist_num) / (len * MICROS_PER_SECOND))
}

/// Where a runner at `o` with `speed` stands after running `dt` microseconds
/// straight at `t`.
pub open spec fn ran_toward(o: CartesianTransform, t: CartesianTransform, speed: int, dt: int) -> CartesianTransform {
    let dx = t.x - o.x;
    let dy = t.y - o.y;
    let dz = t.z - o.z;
    let len = offset_length(dx, dy, dz);
    CartesianTransform {
        x: step_toward(o.x as int, dx, speed * dt, len) as i64,
        y: step_toward(o.y as int, dy, speed * dt, len) as i64,
        z: step_toward(o.z as int, dz, speed * dt, len) as i64,
    }
}

/// Where the player stands after walking `dt` microseconds with the
/// directions of `input` held.
pub open spec fn walked(p: CartesianTransform, speed: int, input: MoveInput, dt: int) -> CartesianTransform {
    let s = stride(speed, dt);
    let x1 = if input.left { clamp(p.x - s) } else { p.x as int };
    let x2 = if input.right { clamp(x1 + s) } else { x1 };
    let y1 = if input.down { clamp(p.y - s) } else { p.y as int };
    let y2 = if input.up { clamp(y1 + s) } else { y1 };
    CartesianTransform { x: x2 as i64, y: y2 as i64, ..p }
}

/// The player where a match starts: at `(110, -205, 5)`, running at `CHARACTER_SPEED`.
pub open spec fn starting_player() -> Player {
    Player {
        position: CartesianTransform { x: 110_000, y: -205_000i64, z: 5_000 },
        speed: CHARACTER_SPEED,
    }
}

/// The opponent where a match starts: at `(40, 0, 5)`, running at `CHARACTER_SPEED`.
pub open spec fn starting_opponent() -> Opponent {
    Opponent { position: CartesianTransform { x: 40_000, y: 0, z: 5_000 }, speed: CHARACTER_SPEED }
}

/// Both characters where a match starts.
pub fn create_characters() -> (r: (Player, Opponent))
    ensures
        r.0 == starting_player(),
        r.1 == starting_opponent(),
        r.0.wf(),
        r.1.wf(),
{
    let player = Player {
        position: CartesianTransform::new(110 * UNIT, -205 * UNIT, 5 * UNIT),
        speed: CHARACTER_SPEED,
    };
    let opponent = Opponent {
        position: CartesianTransform::new(40 * UNIT, 0, 5 * UNIT),
        speed: CHARACTER_SPEED,
    };
    (player, opponent)
}

fn stride_of(speed: i64, dt: u32) -> (s: i128)
    requires
        0 <= speed <= MAGNITUDE_LIMIT,
    ensures
        s == stride(speed as int, dt as int),
        0 <= s <= 0x1_0000_0000_0000_0000,
{
    proof {
        assert(0 <= speed * dt <= MAGNITUDE_LIMIT * u32::MAX) by (nonlinear_arith)
            requires
                0 <= speed <= MAGNITUDE_LIMIT,
                0 <= dt <= u32::MAX,
        ;
    }
    floor_div(speed as i128 * dt as i128, MICROS_PER_SECOND as i128)
}

impl Player {
    pub open spec fn wf(&self) -> bool {
        self.position.wf() && 0 <= self.speed <= MAGNITUDE_LIMIT
    }

    /// Walks the player for one tick of `dt` microseconds, unless a throw
    /// signal is pending: the throw gesture then claims the tick and the
    /// player stays where it is.
    pub fn move_player(&mut self, input: &MoveInput, events: &Events, dt: u32)
        requires
            old(self).wf(),
        ensures
            final(self).wf(),
            final(self).speed == old(self).speed,
            events.throw_count() > 0 ==> *final(self) == *old(self),
            events.throw_count() == 0 ==> final(self).position == walked(
                old(self).position,
                old(self).speed as int,
                *input,
                dt as int,
            ),
    {
        if events.throw_pending() {
            return;
        }
        let s = stride_of(self.speed, dt);
        if input.left {
            self.position.x = clamp_wide(self.position.x as i128 - s);
        }
        if input.right {
            self.position.x = clamp_wide(self.position.x as i128 + s);
        }
        if input.down {
            self.position.y = clamp_wide(self.position.y as i128 - s);
        }
        if input.up {
            self.position.y = clamp_wide(self.position.y as i128 + s);
        }
    }
}

fn abs_of(v: i64) -> (r: i128)
    ensures
        r == abs(v as int),
{
    if v < 0 {
        -(v as i128)
    } else {
        v as i128
    }
}

/// One coordinate's step toward the target.
fn step_coordinate(p: i64, d: i128, dist_num: i128, len: u128) -> (r: i64)
    requires
        in_range(p as int),
        -2 * MAGNITUDE_LIMIT <= d <= 2 * MAGNITUDE_LIMIT,
        0 <= dist_num <= MAGNITUDE_LIMIT * u32::MAX,
        1 <= len <= 0x4_0000_0000_0000,
    ensures
        r == step_toward(p as int, d as int, dist_num as int, len as int),
        in_range(r as int),
{
    proof {
        assert(-0x100_0000_0000_0000_0000_0000_0000_0000 <= d * dist_num
            <= 0x100_0000_0000_0000_0000_0000_0000_0000) by (nonlinear_arith)
            requires
                -2 * MAGNITUDE_LIMIT <= d <= 2 * MAGNITUDE_LIMIT,
                0 <= dist_num <= MAGNITUDE_LIMIT * u32::MAX,
        ;
        assert(1 <= len * MICROS_PER_SECOND <= 0x4_0000_0000_0000 * MICROS_PER_SECOND)
            by (nonlinear_arith)
            requires
                1 <= len <= 0x4_0000_0000_0000,
        ;
    }
    let q = floor_div(d * dist_num, len as i128 * MICROS_PER_SECOND as i128);
    clamp_wide(p as i128 + q)
}

impl Opponent {
    pub open spec fn wf(&self) -> bool {
        self.position.wf() && 0 <= self.speed <= MAGNITUDE_LIMIT
    }

    /// Runs the opponent toward `target` for one tick of `dt` microseconds.
    /// While it is outside the catch margin along both axes it moves
    /// `speed * dt` along the straight line to the target; otherwise it has
    /// caught the target, stays put, and `true` is returned.
    pub fn move_opponent(&mut self, target: &Target, dt: u32) -> (caught: bool)
        requires
            old(self).wf(),
            target.wf(),
        ensures
            final(self).wf(),
            caught == !pursuing(old(self).position, target.position),
            caught ==> *final(self) == *old(self),
            !caught ==> *final(self) == (Opponent {
                position: ran_toward(
                    old(self).position,
                    target.position,
                    old(self).speed as int,
                    dt as int,
                ),
                speed: old(self).speed,
            }),
            old(self).position == target.position ==> caught,
    {
        let o = self.position;
        let t = target.position;
        if !(abs_of(o.x) < abs_of(t.x) - CATCH_MARGIN as i128 && abs_of(o.y) < abs_of(t.y)
            - CATCH_MARGIN as i128) {
            return true;
        }
        let dx = t.x as i128 - o.x as i128;
        let dy = t.y as i128 - o.y as i128;
        let dz = t.z as i128 - o.z as i128;
        proof {
            assert(0 <= dx * dx <= 4 * MAGNITUDE_LIMIT * MAGNITUDE_LIMIT) by (nonlinear_arith)
                requires
                    -2 * MAGNITUDE_LIMIT <= dx <= 2 * MAGNITUDE_LIMIT,
            ;
            assert(0 <= dy * dy <= 4 * MAGNITUDE_LIMIT * MAGNITUDE_LIMIT) by (nonlinear_arith)
                requires
                    -2 * MAGNITUDE_LIMIT <= dy <= 2 * MAGNITUDE_LIMIT,
            ;
            assert(0 <= dz * dz <= 4 * MAGNITUDE_LIMIT * MAGNITUDE_LIMIT) by (nonlinear_arith)
                requires
                    -2 * MAGNITUDE_LIMIT <= dz <= 2 * MAGNITUDE_LIMIT,
            ;
            assert(dx * dx >= 1) by (nonlinear_arith)
                requires
                    dx != 0,
            ;
        }
        let n = (dx * dx + dy * dy + dz * dz) as u128;
        let len = isqrt(n);
        proof {
            assert(n >= 1);
            assert(len >= 1) by (nonlinear_arith)
                requires
                    n >= 1,
                    n < (len + 1) * (len + 1),
            ;
            assert(len <= 0x4_0000_0000_0000) by (nonlinear_arith)
                requires
                    len * len <= n,
                    n <= 12 * MAGNITUDE_LIMIT * MAGNITUDE_LIMIT,
            ;
            assert(0 <= self.speed * dt <= MAGNITUDE_LIMIT * u32::MAX) by (nonlinear_arith)
                requires
                    0 <= self.speed <= MAGNITUDE_LIMIT,
                    0 <= dt <= u32::MAX,
            ;
        }
        let dist_num = self.speed as i128 * dt as i128;
        self.position.x = step_coordinate(o.x, dx, dist_num, len);
        self.position.y = step_coordinate(o.y, dy, dist_num, len);
        self.position.z = step_coordinate(o.z, dz, dist_num, len);
        false
    }
}

} // verus!
