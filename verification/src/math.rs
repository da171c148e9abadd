//! Fixed-point scalar arithmetic for the simulation.
//!
//! The simulation works on `i64` quantities.  Velocity accumulates without
//! bound while an entity rests on the terrain, so additions saturate at the
//! representable range instead of overflowing; `sat64` is the mathematical
//! statement of that clamping.

use vstd::prelude::*;

verus! {

/// A mathematical value clamped to the `i64` range.
pub open spec fn sat64(x: int) -> int {
    if x > i64::MAX as int {
        i64::MAX as int
    } else if x < i64::MIN as int {
        i64::MIN as int
    } else {
        x
    }
}

/// `a + b`, saturating at the `i64` range.
pub fn sat_add(a: i64, b: i64) -> (r: i64)
    ensures
        r as int == sat64(a + b),
{
    let wide: i128 = a as i128 + b as i128;
    if wide > i64::MAX as i128 {
        i64::MAX
    } else if wide < i64::MIN as i128 {
        i64::MIN
    } else {
        wide as i64
    }
}

/// `a - b`, saturating at the `i64` range.
pub fn sat_sub(a: i64, b: i64) -> (r: i64)
    ensures
        r as int == sat64(a - b),
{
    let wide: i128 = a as i128 - b as i128;
    if wide > i64::MAX as i128 {
        i64::MAX
    } else if wide < i64::MIN as i128 {
        i64::MIN
    } else {
        wide as i64
    }
}

/// One axis of position integration: the position in micro-units plus the
/// velocity in milli-units per second times the frame delta in
/// milliseconds, saturating at the representable range.
pub fn advance_position(pos: i64, vel: i64, dt: u64) -> (r: i64)
    requires
        dt <= crate::timer::DT_MAX,
    ensures
        r as int == sat64(pos + vel * dt),
{
    proof {
        assert((vel as i128) * (dt as i128) <= (i64::MAX as i128) * (crate::timer::DT_MAX as i128)
            && (vel as i128) * (dt as i128) >= (i64::MIN as i128) * (
        crate::timer::DT_MAX as i128)) by (nonlinear_arith)
            requires
                i64::MIN <= vel <= i64::MAX,
                0 <= dt <= crate::timer::DT_MAX,
        ;
    }
    let wide: i128 = pos as i128 + (vel as i128) * (dt as i128);
    if wide > i64::MAX as i128 {
        i64::MAX
    } else if wide < i64::MIN as i128 {
        i64::MIN
    } else {
        wide as i64
    }
}

/// A 2D vector of fixed-point scalars.
#[derive(Clone, Copy, PartialEq, Eq, Structural, Debug)]
pub struct Vec2 {
    pub x: i64,
    pub y: i64,
}

/// An entity's placement: position in micro-units, scale in milli
/// (1000 = 1.0).
#[derive(Clone, Copy, PartialEq, Eq, Structural, Debug)]
pub struct Transform {
    pub translation: Vec2,
    pub scale: Vec2,
}

} // verus!
