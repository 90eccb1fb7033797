//! The ballistic solver: the launch speeds and gravity that give a throw the
//! arc shape asked for.

use vstd::prelude::*;
use crate::units::MAGNITUDE_LIMIT;

verus! {

/// Vertical launch speed and gravity of a throw.
#[derive(Clone, Copy, Debug, PartialEq, Eq, Structural)]
pub struct ArcSolution {
    /// Milli-units per second.
    pub vertical_speed: i64,
    /// Milli-units per second squared; negative, so that the ball comes back down.
    pub gravity: i64,
}

/// Why an arc shape was rejected.
#[derive(Clone, Copy, Debug, PartialEq, Eq, Structural)]
pub enum ArcError {
    /// The half distance, the height or the forward speed is zero or negative.
    NotPositive,
    /// An input or a result lies beyond `MAGNITUDE_LIMIT`.
    OutOfRange,
    /// The vertical speed or the gravity is smaller than one milli-unit per
    /// second (squared), so the ball would never come back down to land.
    BelowResolution,
}

/// `2 * h * v / d`, rounded down.
pub open spec fn vertical_speed_of(d: int, h: int, v: int) -> int {
    (2 * h * v) / d
}

/// `-2 * h * v^2 / d^2`, its magnitude rounded down.
pub open spec fn gravity_of(d: int, h: int, v: int) -> int {
    -((2 * h * v * v) / (d * d))
}

pub open spec fn arc_inputs_positive(d: int, h: int, v: int) -> bool {
    d > 0 && h > 0 && v > 0
}

/// The inputs and the results lie within the simulation's range.
pub open spec fn arc_in_range(d: int, h: int, v: int) -> bool {
    &&& d <= MAGNITUDE_LIMIT && h <= MAGNITUDE_LIMIT && v <= MAGNITUDE_LIMIT
    &&& vertical_speed_of(d, h, v) <= MAGNITUDE_LIMIT
    &&& -gravity_of(d, h, v) <= MAGNITUDE_LIMIT
}

/// Neither result rounds down to zero: the ball rises and comes back down.
pub open spec fn arc_resolvable(d: int, h: int, v: int) -> bool {
    vertical_speed_of(d, h, v) > 0 && gravity_of(d, h, v) < 0
}

/// The solver accepts the shape: positive inputs, inputs and results within
/// the simulation's range, and results that do not round down to zero.
pub open spec fn arc_solvable(d: int, h: int, v: int) -> bool {
    &&& arc_inputs_positive(d, h, v)
    &&& arc_in_range(d, h, v)
    &&& arc_resolvable(d, h, v)
}

/// What the solver gives for the shape `(d, h, v)`.
pub open spec fn arc_result(d: int, h: int, v: int) -> Result<ArcSolution, ArcError> {
    if !arc_inputs_positive(d, h, v) {
        Err(ArcError::NotPositive)
    } else if !arc_in_range(d, h, v) {
        Err(ArcError::OutOfRange)
    } else if !arc_resolvable(d, h, v) {
        Err(ArcError::BelowResolution)
    } else {
        Ok(
            ArcSolution {
                vertical_speed: vertical_speed_of(d, h, v) as i64,
                gravity: gravity_of(d, h, v) as i64,
            },
        )
    }
}

/// Derives the vertical launch speed and the gravity of a throw that travels
/// `half_distance` to its apex, rises `arc_height`, and moves forward at
/// `forward_speed`:
/// `vertical_speed = 2 h v / d` and `gravity = -2 h v^2 / d^2`.
pub fn solve_arc(half_distance: i64, arc_height: i64, forward_speed: i64) -> (r: Result<
    ArcSolution,
    ArcError,
>)
    ensures
        r == arc_result(half_distance as int, arc_height as int, forward_speed as int),
        r matches Ok(a) ==> 0 < a.vertical_speed <= MAGNITUDE_LIMIT && -MAGNITUDE_LIMIT
            <= a.gravity < 0,
{
    if half_distance <= 0 || arc_height <= 0 || forward_speed <= 0 {
        return Err(ArcError::NotPositive);
    }
    if half_distance > MAGNITUDE_LIMIT || arc_height > MAGNITUDE_LIMIT || forward_speed
        > MAGNITUDE_LIMIT {
        return Err(ArcError::OutOfRange);
    }
    let d = half_distance as i128;
    let h = arc_height as i128;
    let v = forward_speed as i128;
    proof {
        assert(0 < 2 * h * v <= 2 * MAGNITUDE_LIMIT * MAGNITUDE_LIMIT) by (nonlinear_arith)
            requires
                0 < h <= MAGNITUDE_LIMIT,
                0 < v <= MAGNITUDE_LIMIT,
        ;
        assert(0 < 2 * h * v * v <= 2 * MAGNITUDE_LIMIT * MAGNITUDE_LIMIT * MAGNITUDE_LIMIT)
            by (nonlinear_arith)
            requires
                0 < h <= MAGNITUDE_LIMIT,
                0 < v <= MAGNITUDE_LIMIT,
        ;
        assert(0 < d * d <= MAGNITUDE_LIMIT * MAGNITUDE_LIMIT) by (nonlinear_arith)
            requires
                0 < d <= MAGNITUDE_LIMIT,
        ;
    }
    let rise = 2 * h * v;
    let vertical_speed = rise / d;
    let drop = 2 * h * v * v;
    let fall = drop / (d * d);
    if vertical_speed > MAGNITUDE_LIMIT as i128 || fall > MAGNITUDE_LIMIT as i128 {
        return Err(ArcError::OutOfRange);
    }
    if vertical_speed == 0 || fall == 0 {
        return Err(ArcError::BelowResolution);
    }
    Ok(ArcSolution { vertical_speed: vertical_speed as i64, gravity: -(fall as i64) })
}

/// Height after the time `tn / td` of a ball launched upward at the exact
/// speed `2 h v / d` under the exact gravity `-2 h v^2 / d^2`, that is
/// `(2 h v / d) t - (h v^2 / d^2) t^2`, scaled by `d^2 * td^2`. The ball
/// moves forward at `v`, so its forward travel at that time is `v tn / td`.
pub open spec fn solved_height_scaled(d: int, h: int, v: int, tn: int, td: int) -> int {
    2 * h * v * d * tn * td - h * v * v * tn * tn
}

/// In exact arithmetic, the solver's closed form gives the arc asked for: a
/// ball moving forward at `v` and rising under the solved vertical speed and
/// gravity is at height `h`, its highest, after forward travel `d` (time
/// `d / v`); it is above its launch height until forward travel `2 d`, and
/// back at launch height there.
pub proof fn lemma_solved_arc_shape(d: int, h: int, v: int, tn: int, td: int)
    requires
        arc_inputs_positive(d, h, v),
        td > 0,
        tn >= 0,
    ensures
        solved_height_scaled(d, h, v, tn, td) <= h * (d * d * td * td),
        v * tn == d * td ==> solved_height_scaled(d, h, v, tn, td) == h * (d * d * td * td),
        v * tn == 2 * d * td ==> solved_height_scaled(d, h, v, tn, td) == 0,
        0 < v * tn < 2 * d * td ==> solved_height_scaled(d, h, v, tn, td) > 0,
{
    let w = v * tn;
    let b = d * td;
    let z = solved_height_scaled(d, h, v, tn, td);
    assert(2 * h * v * d * tn * td == 2 * h * (w * b)) by (nonlinear_arith)
        requires
            w == v * tn,
            b == d * td,
    ;
    assert(h * v * v * tn * tn == h * (w * w)) by (nonlinear_arith)
        requires
            w == v * tn,
    ;
    assert(z == h * w * (2 * b - w)) by (nonlinear_arith)
        requires
            z == 2 * h * (w * b) - h * (w * w),
    ;
    assert(2 * d * td == 2 * b) by (nonlinear_arith)
        requires
            b == d * td,
    ;
    assert(h * (d * d * td * td) == h * (b * b)) by (nonlinear_arith)
        requires
            b == d * td,
    ;
    assert(h * (b * b) - z == h * ((b - w) * (b - w))) by (nonlinear_arith)
        requires
            z == h * w * (2 * b - w),
    ;
    assert(h * ((b - w) * (b - w)) >= 0) by (nonlinear_arith)
        requires
            h > 0,
    ;
    if w == b {
        assert(z == h * (b * b)) by (nonlinear_arith)
            requires
                z == h * w * (2 * b - w),
                w == b,
        ;
    }
    if w == 2 * b {
        assert(z == 0) by (nonlinear_arith)
            requires
                z == h * w * (2 * b - w),
                w == 2 * b,
        ;
    }
    if 0 < w < 2 * b {
        assert(z > 0) by (nonlinear_arith)
            requires
                z == h * w * (2 * b - w),
                0 < w < 2 * b,
                h > 0,
        ;
    }
}

/// Forward travel after the time `tn / td` of a flight whose forward component
/// moves at the exact vertical speed `2 h v / d`, scaled by `d * td`.
pub open spec fn ideal_forward_scaled(d: int, h: int, v: int, tn: int, td: int) -> int {
    2 * h * v * tn
}

/// Height after the time `tn / td` of a flight whose height component starts
/// at speed `v` and changes under the exact gravity `-2 h v^2 / d^2`, that is
/// `v t - (h v^2 / d^2) t^2`, scaled by `d^2 * td^2`.
pub open spec fn ideal_height_scaled(d: int, h: int, v: int, tn: int, td: int) -> int {
    v * tn * (d * d * td) - h * v * v * tn * tn
}

/// In exact arithmetic, the flight rule driven by the solver's speeds (the
/// vertical speed carried forward, the forward speed carried as height)
/// brings the height back to the launch height when the forward travel is
/// `2 d`, peaks when the forward travel is `d`, and the peak height is
/// `d^2 / (4 h)`.
pub proof fn lemma_ideal_flight_shape(d: int, h: int, v: int, tn: int, td: int)
    requires
        arc_inputs_positive(d, h, v),
        td > 0,
    ensures
        ideal_forward_scaled(d, h, v, tn, td) == 2 * d * (d * td) ==> ideal_height_scaled(
            d,
            h,
            v,
            tn,
            td,
        ) == 0,
        ideal_forward_scaled(d, h, v, tn, td) == d * (d * td) ==> 4 * h * ideal_height_scaled(
            d,
            h,
            v,
            tn,
            td,
        ) == (d * d) * (d * d * td * td),
        4 * h * ideal_height_scaled(d, h, v, tn, td) <= (d * d) * (d * d * td * td),
{
    let w = v * tn;
    let b = d * d * td;
    let y = ideal_height_scaled(d, h, v, tn, td);
    assert(y == w * (b - h * w)) by (nonlinear_arith)
        requires
            w == v * tn,
            b == d * d * td,
            y == v * tn * (d * d * td) - h * v * v * tn * tn,
    ;
    assert(ideal_forward_scaled(d, h, v, tn, td) == 2 * (h * w)) by (nonlinear_arith)
        requires
            w == v * tn,
    ;
    assert((d * d) * (d * d * td * td) == b * b) by (nonlinear_arith)
        requires
            b == d * d * td,
    ;
    assert(2 * d * (d * td) == 2 * b) by (nonlinear_arith)
        requires
            b == d * d * td,
    ;
    assert(d * (d * td) == b) by (nonlinear_arith)
        requires
            b == d * d * td,
    ;
    assert(b * b - 4 * h * y == (b - 2 * h * w) * (b - 2 * h * w)) by (nonlinear_arith)
        requires
            y == w * (b - h * w),
    ;
    assert((b - 2 * h * w) * (b - 2 * h * w) >= 0) by (nonlinear_arith);
    if h * w == b {
        assert(y == 0) by (nonlinear_arith)
            requires
                y == w * (b - h * w),
                h * w == b,
        ;
    }
    if 2 * (h * w) == b {
        assert(4 * h * y == b * b) by (nonlinear_arith)
            requires
                y == w * (b - h * w),
                2 * (h * w) == b,
        ;
    }
}

/// When the half distance is twice the arc height, the peak of the exact
/// flight (reached at forward travel `d`) is exactly `arc_height`.
pub proof fn lemma_ideal_flight_peak_is_arc_height(d: int, h: int, v: int, tn: int, td: int)
    requires
        arc_inputs_positive(d, h, v),
        td > 0,
        d == 2 * h,
        ideal_forward_scaled(d, h, v, tn, td) == d * (d * td),
    ensures
        ideal_height_scaled(d, h, v, tn, td) == h * (d * d * td * td),
{
    lemma_ideal_flight_shape(d, h, v, tn, td);
    let y = ideal_height_scaled(d, h, v, tn, td);
    assert(4 * h * y == 4 * h * (h * (d * d * td * td))) by (nonlinear_arith)
        requires
            4 * h * y == (d * d) * (d * d * td * td),
            d == 2 * h,
    ;
    assert(y == h * (d * d * td * td)) by (nonlinear_arith)
        requires
            4 * h * y == 4 * h * (h * (d * d * td * td)),
            h > 0,
    ;
}

} // verus!
