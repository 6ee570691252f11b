//! Saturating fixed-point arithmetic shared by the simulation.
//!
//! Positions are kept inside `[-POS_LIMIT, POS_LIMIT]` and countdown
//! timers inside `[-TIME_LIMIT, TIME_LIMIT]`, so that every integration
//! and countdown step stays far away from `i64` overflow.

use vstd::prelude::*;

verus! {

/// Largest magnitude a world coordinate (thousandths of a unit) may take.
pub const POS_LIMIT: i64 = 0x4_0000_0000_0000;

/// Largest magnitude a countdown timer (milliseconds) may take.
pub const TIME_LIMIT: i64 = 0x4_0000_0000_0000;

/// Largest speed, in world units per second, an actor may be given.
pub const MAX_SPEED: i64 = 0x10_0000;

/// Largest time delta, in milliseconds, a single simulation tick may carry.
pub const MAX_DT: i64 = 0x10_0000;

/// What `clamp` returns: `min` wins over `max` when the bounds cross.
pub open spec fn spec_clamp(x: int, min: int, max: int) -> int {
    if x < min {
        min
    } else if x > max {
        max
    } else {
        x
    }
}

/// Clamp `x` into `[min, max]`, `min` taking precedence.
pub fn clamp(x: i64, min: i64, max: i64) -> (r: i64)
    ensures
        r == spec_clamp(x as int, min as int, max as int),
{
    if x < min {
        min
    } else if x > max {
        max
    } else {
        x
    }
}

/// One step of linear motion: the new coordinate after moving at
/// `v` units per second for `dt` milliseconds, clamped into the world's
/// coordinate range.
pub open spec fn spec_integrate(p: int, v: int, dt: int) -> int {
    spec_clamp(p + v * dt, -POS_LIMIT as int, POS_LIMIT as int)
}

/// Advance coordinate `p` by `v * dt`, clamped into the coordinate range.
pub fn integrate(p: i64, v: i64, dt: i64) -> (r: i64)
    requires
        -POS_LIMIT <= p <= POS_LIMIT,
        -MAX_SPEED <= v <= MAX_SPEED,
        0 <= dt <= MAX_DT,
    ensures
        r == spec_integrate(p as int, v as int, dt as int),
{
    proof {
        assert(-0x100_0000_0000_0000 <= (v as int) * (dt as int) <= 0x100_0000_0000_0000)
            by (nonlinear_arith)
            requires
                -MAX_SPEED <= v <= MAX_SPEED,
                0 <= dt <= MAX_DT,
        ;
    }
    clamp(p + v * dt, -POS_LIMIT, POS_LIMIT)
}

/// A countdown step: subtract the elapsed time, clamped into the timer range.
pub open spec fn spec_count_down(t: int, dt: int) -> int {
    spec_clamp(t - dt, -TIME_LIMIT as int, TIME_LIMIT as int)
}

/// Subtract `dt` from timer `t`, clamped into the timer range.
pub fn count_down(t: i64, dt: i64) -> (r: i64)
    requires
        -TIME_LIMIT <= t <= TIME_LIMIT,
        0 <= dt <= MAX_DT,
    ensures
        r == spec_count_down(t as int, dt as int),
{
    clamp(t - dt, -TIME_LIMIT, TIME_LIMIT)
}

/// A timer reload: add a frame duration, clamped into the timer range.
pub open spec fn spec_reload(t: int, d: int) -> int {
    spec_clamp(t + d, -TIME_LIMIT as int, TIME_LIMIT as int)
}

/// Add duration `d` to timer `t`, clamped into the timer range.
pub fn reload(t: i64, d: i64) -> (r: i64)
    requires
        -TIME_LIMIT <= t <= TIME_LIMIT,
        0 <= d <= TIME_LIMIT,
    ensures
        r == spec_reload(t as int, d as int),
{
    clamp(t + d, -TIME_LIMIT, TIME_LIMIT)
}

} // verus!
