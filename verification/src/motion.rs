//! Integer motion arithmetic shared by every entity kind.
//!
//! Velocities are stated in millipixels per millisecond; the displacement for
//! a tick is the velocity times the elapsed milliseconds, rounded
//! half-away-from-zero to whole pixels. The same rule is applied uniformly to
//! every entity kind. Screen coordinates are clamped to a fixed band so that
//! position arithmetic never overflows the coordinate type.

use vstd::prelude::*;

verus! {

/// Smallest coordinate a moving entity can reach.
pub const COORD_MIN: i16 = -20000;

/// Largest coordinate a moving entity can reach.
pub const COORD_MAX: i16 = 20000;

/// A coordinate clamped into the band `[COORD_MIN, COORD_MAX]`.
pub open spec fn spec_clamp_coord(c: int) -> int {
    if c < COORD_MIN as int {
        COORD_MIN as int
    } else if c > COORD_MAX as int {
        COORD_MAX as int
    } else {
        c
    }
}

/// Displacement in whole pixels of an entity moving at `v` millipixels per
/// millisecond for `delta` milliseconds: round half away from zero.
pub open spec fn spec_displacement(v: int, delta: int) -> int {
    let n = v * delta;
    if n >= 0 {
        (n + 500) / 1000
    } else {
        -(((-n) + 500) / 1000)
    }
}

/// Exact integer displacement for one tick.
pub fn displacement(v_mpx: i32, delta_ms: u32) -> (d: i64)
    requires
        -1000 <= v_mpx <= 1000,
    ensures
        d == spec_displacement(v_mpx as int, delta_ms as int),
        -10000000000000 <= d <= 10000000000000,
{
    let vi: i64 = v_mpx as i64;
    let di: i64 = delta_ms as i64;
    proof {
        assert(-4294967295000 <= vi * di <= 4294967295000) by (nonlinear_arith)
            requires
                -1000 <= vi <= 1000,
                0 <= di <= 4294967295,
        ;
    }
    let n: i64 = vi * di;
    if n >= 0 {
        (((n as u64) + 500) / 1000) as i64
    } else {
        -(((((-n) as u64) + 500) / 1000) as i64)
    }
}

/// Move a coordinate by a displacement, clamping into the coordinate band.
pub fn translate(c: i16, d: i64) -> (r: i16)
    requires
        -10000000000000 <= d <= 10000000000000,
    ensures
        r as int == spec_clamp_coord(c + d),
{
    let s: i64 = (c as i64) + d;
    if s < COORD_MIN as i64 {
        COORD_MIN
    } else if s > COORD_MAX as i64 {
        COORD_MAX
    } else {
        s as i16
    }
}

/// Clamp a wide intermediate coordinate into the coordinate band.
pub fn clamp_coord(c: i32) -> (r: i16)
    ensures
        r as int == spec_clamp_coord(c as int),
{
    if c < COORD_MIN as i32 {
        COORD_MIN
    } else if c > COORD_MAX as i32 {
        COORD_MAX
    } else {
        c as i16
    }
}

} // verus!
