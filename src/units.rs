//! Fixed-point units and the saturating helpers shared by every module.

use vstd::prelude::*;

verus! {

/// Milli-units in one world unit.
pub const UNIT: i64 = 1000;

/// Microseconds in one second.
pub const MICROS_PER_SECOND: i64 = 1_000_000;

/// Bound on the magnitude of every stored coordinate, speed and acceleration.
pub const MAGNITUDE_LIMIT: i64 = 1_000_000_000_000;

/// `v` lies within the representable range of the simulation.
pub open spec fn in_range(v: int) -> bool {
    -MAGNITUDE_LIMIT <= v <= MAGNITUDE_LIMIT
}

/// `v` pulled back into the representable range.
pub open spec fn clamp(v: int) -> int {
    if v > MAGNITUDE_LIMIT {
        MAGNITUDE_LIMIT as int
    } else if v < -MAGNITUDE_LIMIT {
        -MAGNITUDE_LIMIT
    } else {
        v
    }
}

pub fn clamp_wide(v: i128) -> (r: i64)
    ensures
        r == clamp(v as int),
        in_range(r as int),
{
    if v > MAGNITUDE_LIMIT as i128 {
        MAGNITUDE_LIMIT
    } else if v < -(MAGNITUDE_LIMIT as i128) {
        -MAGNITUDE_LIMIT
    } else {
        v as i64
    }
}

/// Floor division (rounding toward negative infinity) by a positive divisor.
pub fn floor_div(n: i128, d: i128) -> (q: i128)
    requires
        d > 0,
        n > i128::MIN,
    ensures
        q == n / d,
        n >= 0 ==> 0 <= q <= n,
        n < 0 ==> n <= q < 0,
{
    if n >= 0 {
        proof {
            vstd::arithmetic::div_mod::lemma_div_pos_is_pos(n as int, d as int);
            vstd::arithmetic::div_mod::lemma_div_is_ordered_by_denominator(n as int, 1, d as int);
        }
        n / d
    } else {
        let m: i128 = -n - 1;
        let t: i128 = m / d;
        proof {
            lemma_floor_of_negative(n as int, d as int, t as int);
            vstd::arithmetic::div_mod::lemma_div_pos_is_pos(m as int, d as int);
            vstd::arithmetic::div_mod::lemma_div_is_ordered_by_denominator(m as int, 1, d as int);
        }
        -t - 1
    }
}

proof fn lemma_floor_of_negative(n: int, d: int, t: int)
    requires
        d > 0,
        n < 0,
        t == (-n - 1) / d,
    ensures
        -t - 1 == n / d,
{
    let m = -n - 1;
    let r = m % d;
    vstd::arithmetic::div_mod::lemma_fundamental_div_mod(m, d);
    vstd::arithmetic::div_mod::lemma_mod_bound(m, d);
    // n == d * (-t - 1) + (d - 1 - r), with 0 <= d - 1 - r < d
    assert(n == (-t - 1) * d + (d - 1 - r)) by (nonlinear_arith)
        requires
            m == d * t + r,
            m == -n - 1,
    ;
    vstd::arithmetic::div_mod::lemma_fundamental_div_mod_converse(n, d, -t - 1, d - 1 - r);
}

/// `r` is the square root of `n`, rounded down.
pub open spec fn is_floor_sqrt(n: int, r: int) -> bool {
    0 <= r && r * r <= n < (r + 1) * (r + 1)
}

/// The square root of `n`, rounded down.
pub open spec fn floor_sqrt(n: int) -> int {
    choose|r: int| is_floor_sqrt(n, r)
}

/// A number has one rounded-down square root.
pub proof fn lemma_floor_sqrt_unique(n: int, a: int, b: int)
    requires
        is_floor_sqrt(n, a),
        is_floor_sqrt(n, b),
    ensures
        a == b,
{
    if a < b {
        assert((a + 1) * (a + 1) <= b * b) by (nonlinear_arith)
            requires
                0 <= a < b,
        ;
    } else if b < a {
        assert((b + 1) * (b + 1) <= a * a) by (nonlinear_arith)
            requires
                0 <= b < a,
        ;
    }
}

/// The square root of `n`, rounded down, by bisection.
pub fn isqrt(n: u128) -> (r: u128)
    requires
        n < 0x10_0000_0000_0000_0000_0000_0000,
    ensures
        r == floor_sqrt(n as int),
        is_floor_sqrt(n as int, r as int),
{
    let mut lo: u128 = 0;
    let mut hi: u128 = 0x4_0000_0000_0000;
    assert(hi * hi == 0x10_0000_0000_0000_0000_0000_0000) by (nonlinear_arith)
        requires
            hi == 0x4_0000_0000_0000,
    ;
    while hi - lo > 1
        invariant
            lo < hi <= 0x4_0000_0000_0000,
            lo * lo <= n < hi * hi,
        decreases hi - lo,
    {
        let mid = lo + (hi - lo) / 2;
        assert(mid * mid <= 0x10_0000_0000_0000_0000_0000_0000) by (nonlinear_arith)
            requires
                mid <= 0x4_0000_0000_0000,
        ;
        if mid * mid <= n {
            lo = mid;
        } else {
            hi = mid;
        }
    }
    proof {
        assert(is_floor_sqrt(n as int, lo as int));
        let c = floor_sqrt(n as int);
        lemma_floor_sqrt_unique(n as int, c, lo as int);
    }
    lo
}

} // verus!
