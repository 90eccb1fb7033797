//! Simulation core of a two-actor throwing prototype: a player throws a ball
//! along a parabolic arc toward a landing target, and an opponent runs to
//! intercept it.
//!
//! All lengths are fixed-point integers in thousandths of a world unit
//! ("milli-units"), speeds are milli-units per second, accelerations are
//! milli-units per second squared, and elapsed time is given in microseconds.
//! Every stored magnitude stays within `MAGNITUDE_LIMIT`.

pub mod units;
pub mod geometry;
pub mod ballistics;
pub mod ball;
pub mod events;
pub mod character;
pub mod game;
pub mod court;
