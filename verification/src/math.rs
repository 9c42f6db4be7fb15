//! Fixed-point arithmetic for the simulation core.
//!
//! Every length-like quantity in this crate is an integer number of
//! micro-units: one world unit is [`SCALE`] micro-units, one second of
//! frame time is [`SCALE`] micro-seconds. Working on scaled integers keeps
//! the whole movement pipeline inside exact machine arithmetic.

use vstd::prelude::*;

verus! {

/// Micro-units in one world unit (and micro-seconds in one second).
pub const SCALE: i64 = 1_000_000;

/// `1 / sqrt(2)` in micro-units, rounded to the nearest micro-unit.
pub const INV_SQRT2: i64 = 707_107;

/// Largest frame time, in micro-seconds, that the movement system accepts.
pub const DT_LIMIT: i64 = 1_000_000_000;

/// Largest speed, in micro-units per second, that the movement system accepts.
pub const SPEED_LIMIT: i64 = 1_000_000_000;

/// Largest magnitude of a single-axis displacement one frame can produce
/// under [`DT_LIMIT`] and [`SPEED_LIMIT`].
pub const DISP_LIMIT: i64 = 1_000_000_000_000;

/// Positions fed to the movement system stay within this magnitude, so that
/// adding one frame's displacement cannot overflow an `i64`.
pub const POS_LIMIT: i64 = 1_000_000_000_000_000;

/// A three-component vector of micro-unit coordinates.
#[derive(Clone, Copy, Debug, PartialEq, Eq, Structural)]
pub struct Vec3 {
    pub x: i64,
    pub y: i64,
    pub z: i64,
}

impl Vec3 {
    /// The zero vector.
    pub open spec fn spec_zero() -> Vec3 {
        Vec3 { x: 0, y: 0, z: 0 }
    }

    /// Builds the zero vector.
    pub fn zero() -> (v: Vec3)
        ensures
            v == Vec3::spec_zero(),
    {
        Vec3 { x: 0, y: 0, z: 0 }
    }
}

/// One axis of the per-frame displacement: a normalized direction component
/// `n` is scaled by the entity's speed and by the elapsed frame time, with a
/// fixed-point rescaling division after each product. The divisions act on
/// the magnitude, so the result carries exactly the sign of `n`.
pub open spec fn disp(n: int, speed: int, dt: int) -> int {
    if n >= 0 {
        ((n * speed) / (SCALE as int)) * dt / (SCALE as int)
    } else {
        -((((-n) * speed) / (SCALE as int)) * dt / (SCALE as int))
    }
}

/// Computes [`disp`] on machine integers, free of overflow within the
/// documented limits.
pub fn disp_exec(n: i64, speed: i64, dt: i64) -> (d: i64)
    requires
        -SCALE <= n <= SCALE,
        0 <= speed <= SPEED_LIMIT,
        0 <= dt <= DT_LIMIT,
    ensures
        d == disp(n as int, speed as int, dt as int),
        -DISP_LIMIT <= d <= DISP_LIMIT,
{
    let m: i64 = if n >= 0 { n } else { -n };
    assert(0 <= m * speed <= 1_000_000_000_000_000i64) by (nonlinear_arith)
        requires
            0 <= m <= 1_000_000i64,
            0 <= speed <= 1_000_000_000i64,
    ;
    let a: i64 = m * speed;
    let b: i64 = a / SCALE;
    assert(0 <= b <= 1_000_000_000i64) by (nonlinear_arith)
        requires
            0 <= a <= 1_000_000_000_000_000i64,
            b == a / 1_000_000i64,
    ;
    assert(0 <= b * dt <= 1_000_000_000_000_000_000i64) by (nonlinear_arith)
        requires
            0 <= b <= 1_000_000_000i64,
            0 <= dt <= 1_000_000_000i64,
    ;
    let c: i64 = b * dt;
    let d0: i64 = c / SCALE;
    assert(0 <= d0 <= DISP_LIMIT) by (nonlinear_arith)
        requires
            0 <= c <= 1_000_000_000_000_000_000i64,
            d0 == c / 1_000_000i64,
    ;
    if n >= 0 {
        d0
    } else {
        -d0
    }
}

/// A zero direction component produces zero displacement, whatever the
/// speed and elapsed time.
pub proof fn lemma_disp_zero(speed: int, dt: int)
    ensures
        disp(0, speed, dt) == 0,
{
    assert(0 * speed == 0);
    assert((0int) / (SCALE as int) == 0);
    assert(0 * dt == 0);
}

} // verus!
