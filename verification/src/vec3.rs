//! Three-component positions in fixed-point milli-units.

use vstd::prelude::*;
use crate::math::{isqrt, sqrt_floor, ISQRT_MAX};

verus! {

/// Largest coordinate magnitude `distance_between` accepts; three squares of
/// it still fit under `ISQRT_MAX`.
pub const COORD_MAX: i64 = 1_000_000;

/// A point or displacement, each component in thousandths of a world unit.
#[derive(PartialEq, Eq, Structural, Clone, Copy, Debug)]
pub struct Vec3Milli {
    pub x: i64,
    pub y: i64,
    pub z: i64,
}

/// Squared Euclidean norm of the displacement from `a` to `b`.
pub open spec fn dist_sq(a: Vec3Milli, b: Vec3Milli) -> int {
    (b.x - a.x) * (b.x - a.x) + (b.y - a.y) * (b.y - a.y) + (b.z - a.z) * (b.z - a.z)
}

/// Floor of the Euclidean distance between `a` and `b`, in milli-units.
pub open spec fn spec_distance(a: Vec3Milli, b: Vec3Milli) -> int {
    sqrt_floor(dist_sq(a, b) as nat) as int
}

/// All components within `bound` in magnitude.
pub open spec fn within(v: Vec3Milli, bound: int) -> bool {
    -bound <= v.x <= bound && -bound <= v.y <= bound && -bound <= v.z <= bound
}

impl Vec3Milli {
    pub fn new(x: i64, y: i64, z: i64) -> (r: Vec3Milli)
        ensures
            r == (Vec3Milli { x, y, z }),
    {
        Vec3Milli { x, y, z }
    }
}

/// Euclidean distance between two points, rounded down to whole milli-units.
pub fn distance_between(a: Vec3Milli, b: Vec3Milli) -> (r: i64)
    requires
        within(a, COORD_MAX as int),
        within(b, COORD_MAX as int),
    ensures
        r == spec_distance(a, b),
        0 <= r <= 4_472_135,
{
    let dx = b.x - a.x;
    let dy = b.y - a.y;
    let dz = b.z - a.z;
    proof {
        assert(dx * dx + dy * dy + dz * dz <= ISQRT_MAX && dx * dx >= 0 && dy * dy >= 0
            && dz * dz >= 0) by (nonlinear_arith)
            requires
                -2_000_000 <= dx <= 2_000_000,
                -2_000_000 <= dy <= 2_000_000,
                -2_000_000 <= dz <= 2_000_000,
                ISQRT_MAX == 20_000_000_000_000;
    }
    let n = dx * dx + dy * dy + dz * dz;
    isqrt(n)
}

} // verus!
