//! The thrown ball: launching it, integrating its flight tick by tick, and
//! the target it marks when it lands.

use vstd::prelude::*;
use crate::ballistics::ArcSolution;
use crate::geometry::CartesianTransform;
use crate::units::{clamp, clamp_wide, floor_div, in_range, MAGNITUDE_LIMIT, MICROS_PER_SECOND, UNIT};

verus! {

/// Offset of the target from the exact landing point along `x`.
pub const TARGET_OFFSET_X: i64 = 4 * UNIT;

/// Offset of the target from the exact landing point along `y`.
pub const TARGET_OFFSET_Y: i64 = -2 * UNIT;

/// Launch velocity of a ball, in milli-units per second.
#[derive(Clone, Copy, Debug, PartialEq, Eq, Structural)]
pub struct Velocity {
    /// The forward speed, carried as height; it decays under gravity.
    pub x: i64,
    /// The vertical speed of the arc, carried along the cartesian `y` axis.
    pub y: i64,
}

/// A ball in flight.
#[derive(Clone, Copy, Debug, PartialEq, Eq, Structural)]
pub struct Projectile {
    pub velocity: Velocity,
    /// Milli-units per second squared.
    pub gravity: i64,
    /// Height above the ground, in milli-units.
    pub height: i64,
    /// Cartesian `x` of the landing point.
    pub landing_x: i64,
    /// Cartesian `y` at which the ball lands.
    pub landing_y: i64,
}

/// The point a ball marks when it lands; the opponent runs to it.
#[derive(Clone, Copy, Debug, PartialEq, Eq, Structural)]
pub struct Target {
    pub position: CartesianTransform,
}

impl Target {
    pub open spec fn wf(&self) -> bool {
        self.position.wf()
    }
}

/// Displacement over `dt` microseconds from speed `v` under acceleration `g`:
/// `v dt + g dt^2 / 2`, in milli-units, rounded down.
pub open spec fn travel(v: int, g: int, dt: int) -> int {
    (2 * MICROS_PER_SECOND * v * dt + g * dt * dt) / (2 * MICROS_PER_SECOND * MICROS_PER_SECOND as int)
}

/// Change of speed over `dt` microseconds under acceleration `g`, rounded down.
pub open spec fn speed_change(g: int, dt: int) -> int {
    (g * dt) / (MICROS_PER_SECOND as int)
}

impl Projectile {
    /// Speeds, gravity and height lie within the simulation's range.
    pub open spec fn wf(&self) -> bool {
        &&& in_range(self.velocity.x as int)
        &&& in_range(self.velocity.y as int)
        &&& in_range(self.gravity as int)
        &&& in_range(self.height as int)
        &&& in_range(self.landing_x as int)
    }

    /// The ball has reached or passed its landing point.
    pub open spec fn landed_at(&self, position: CartesianTransform) -> bool {
        position.y >= self.landing_y
    }

    /// The projectile after `dt` more microseconds of flight.
    pub open spec fn advanced(self, dt: int) -> Projectile {
        Projectile {
            velocity: Velocity {
                x: clamp(self.velocity.x + speed_change(self.gravity as int, dt)) as i64,
                ..self.velocity
            },
            height: clamp(
                self.height + travel(self.velocity.x as int, self.gravity as int, dt),
            ) as i64,
            ..self
        }
    }

    /// The ball's position after `dt` more microseconds of flight.
    pub open spec fn moved(self, position: CartesianTransform, dt: int) -> CartesianTransform {
        CartesianTransform {
            y: clamp(
                position.y + travel(self.velocity.y as int, self.gravity as int, dt),
            ) as i64,
            ..position
        }
    }

    /// Where the target of this throw stands: the landing point moved by the
    /// target offsets, on the ground.
    pub open spec fn target_spec(self) -> Target {
        Target {
            position: CartesianTransform {
                x: clamp(self.landing_x + TARGET_OFFSET_X) as i64,
                y: clamp(self.landing_y + TARGET_OFFSET_Y) as i64,
                z: 0,
            },
        }
    }

    /// Throws a ball from `from`: it moves forward at `forward_speed`, rises
    /// at the solved vertical speed and lands `2 * half_distance` further
    /// along `y`.
    pub fn launch(
        from: &CartesianTransform,
        half_distance: i64,
        forward_speed: i64,
        arc: &ArcSolution,
    ) -> (p: Projectile)
        requires
            from.wf(),
            0 < half_distance <= MAGNITUDE_LIMIT,
            in_range(forward_speed as int),
            in_range(arc.vertical_speed as int),
            in_range(arc.gravity as int),
        ensures
            p.wf(),
            p == (Projectile {
                velocity: Velocity { x: forward_speed, y: arc.vertical_speed },
                gravity: arc.gravity,
                height: 0,
                landing_x: from.x,
                landing_y: (from.y + 2 * half_distance) as i64,
            }),
    {
        Projectile {
            velocity: Velocity { x: forward_speed, y: arc.vertical_speed },
            gravity: arc.gravity,
            height: 0,
            landing_x: from.x,
            landing_y: from.y + 2 * half_distance,
        }
    }

    /// Whether the ball at `position` has reached its landing point.
    pub fn has_landed(&self, position: &CartesianTransform) -> (r: bool)
        ensures
            r == self.landed_at(*position),
    {
        position.y >= self.landing_y
    }

    /// Integrates one tick of `dt` microseconds: the ball's `y` moves by
    /// `velocity.y dt + gravity dt^2 / 2`, the height by
    /// `velocity.x dt + gravity dt^2 / 2`, and `velocity.x` changes by
    /// `gravity dt`.
    pub fn advance(&mut self, position: &mut CartesianTransform, dt: u32)
        requires
            old(self).wf(),
            old(position).wf(),
        ensures
            *final(self) == old(self).advanced(dt as int),
            *final(position) == old(self).moved(*old(position), dt as int),
            final(self).wf(),
            final(position).wf(),
    {
        let g = self.gravity as i128;
        let t = dt as i128;
        proof {
            lemma_travel_bounds(self.velocity.y as int, g as int, t as int);
            lemma_travel_bounds(self.velocity.x as int, g as int, t as int);
        }
        let forward = floor_div(
            2 * (MICROS_PER_SECOND as i128) * (self.velocity.y as i128) * t + g * t * t,
            2 * (MICROS_PER_SECOND as i128) * (MICROS_PER_SECOND as i128),
        );
        let rise = floor_div(
            2 * (MICROS_PER_SECOND as i128) * (self.velocity.x as i128) * t + g * t * t,
            2 * (MICROS_PER_SECOND as i128) * (MICROS_PER_SECOND as i128),
        );
        let slowdown = floor_div(g * t, MICROS_PER_SECOND as i128);
        position.y = clamp_wide(position.y as i128 + forward);
        self.height = clamp_wide(self.height as i128 + rise);
        self.velocity.x = clamp_wide(self.velocity.x as i128 + slowdown);
    }

    /// The target that marks where this ball lands.
    pub fn target(&self) -> (t: Target)
        requires
            self.wf(),
        ensures
            t == self.target_spec(),
            t.wf(),
    {
        let x = clamp_wide(self.landing_x as i128 + TARGET_OFFSET_X as i128);
        let y = clamp_wide(self.landing_y as i128 + TARGET_OFFSET_Y as i128);
        Target { position: CartesianTransform { x, y, z: 0 } }
    }
}

/// The ball and its position after at most `n` ticks of `dt` microseconds
/// each, integrating until it has landed.
pub open spec fn flight_after(p: Projectile, pos: CartesianTransform, dt: int, n: nat) -> (Projectile, CartesianTransform)
    decreases n,
{
    if n == 0 || p.landed_at(pos) {
        (p, pos)
    } else {
        flight_after(p.advanced(dt), p.moved(pos, dt), dt, (n - 1) as nat)
    }
}

/// A ball whose `y` gains `c > 0` per tick lands within `n` ticks once
/// `n * c` covers the distance left to its landing `y`, and it stops less
/// than one tick's gain past that `y`.
pub proof fn lemma_flight_lands(p: Projectile, pos: CartesianTransform, dt: int, n: nat)
    requires
        p.wf(),
        pos.wf(),
        travel(p.velocity.y as int, p.gravity as int, dt) > 0,
        p.landing_y <= MAGNITUDE_LIMIT,
        n * travel(p.velocity.y as int, p.gravity as int, dt) >= p.landing_y - pos.y,
    ensures
        flight_after(p, pos, dt, n).0.landed_at(flight_after(p, pos, dt, n).1),
        pos.y < p.landing_y ==> flight_after(p, pos, dt, n).1.y < p.landing_y + travel(
            p.velocity.y as int,
            p.gravity as int,
            dt,
        ),
    decreases n,
{
    let c = travel(p.velocity.y as int, p.gravity as int, dt);
    if n > 0 && !p.landed_at(pos) {
        let q = p.advanced(dt);
        let next = p.moved(pos, dt);
        assert(q.velocity.y == p.velocity.y && q.gravity == p.gravity && q.landing_y == p.landing_y);
        if pos.y + c > MAGNITUDE_LIMIT {
            assert(next.y == MAGNITUDE_LIMIT);
            assert(q.landed_at(next));
            assert(n - 1 >= 0);
            if n - 1 > 0 {
                assert(flight_after(q, next, dt, (n - 1) as nat) == (q, next));
            } else {
                assert(flight_after(q, next, dt, 0) == (q, next));
            }
        } else {
            assert(next.y == pos.y + c);
            assert((n - 1) * c >= p.landing_y - next.y) by (nonlinear_arith)
                requires
                    n * c >= p.landing_y - pos.y,
                    next.y == pos.y + c,
            ;
            lemma_flight_lands(q, next, dt, (n - 1) as nat);
        }
        assert(flight_after(p, pos, dt, n) == flight_after(q, next, dt, (n - 1) as nat));
    } else if n == 0 {
        assert(0 * c == 0);
    }
}

/// The products in one tick's integration fit comfortably in 128 bits.
proof fn lemma_travel_bounds(v: int, g: int, dt: int)
    requires
        in_range(v),
        in_range(g),
        0 <= dt <= u32::MAX,
    ensures
        -0x1_0000_0000_0000_0000_0000_0000 <= 2 * MICROS_PER_SECOND * v * dt <= 0x1_0000_0000_0000_0000_0000_0000,
        -0x1_0000_0000_0000_0000_0000_0000_0000 <= g * dt * dt <= 0x1_0000_0000_0000_0000_0000_0000_0000,
        -0x1_0000_0000_0000_0000_0000 <= g * dt <= 0x1_0000_0000_0000_0000_0000,
{
    assert(0 <= dt * dt <= 0x1_0000_0000_0000_0000) by (nonlinear_arith)
        requires
            0 <= dt <= u32::MAX,
    ;
    assert(-0x1_0000_0000_0000_0000_0000_0000 <= 2 * MICROS_PER_SECOND * v * dt
        <= 0x1_0000_0000_0000_0000_0000_0000) by (nonlinear_arith)
        requires
            in_range(v),
            0 <= dt <= u32::MAX,
    ;
    assert(-0x1_0000_0000_0000_0000_0000_0000_0000 <= g * (dt * dt)
        <= 0x1_0000_0000_0000_0000_0000_0000_0000) by (nonlinear_arith)
        requires
            in_range(g),
            0 <= dt * dt <= 0x1_0000_0000_0000_0000,
    ;
    assert(g * dt * dt == g * (dt * dt)) by (nonlinear_arith);
    assert(-0x1_0000_0000_0000_0000_0000 <= g * dt <= 0x1_0000_0000_0000_0000_0000)
        by (nonlinear_arith)
        requires
            in_range(g),
            0 <= dt <= u32::MAX,
    ;
}

} // verus!
