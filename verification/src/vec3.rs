//! Fixed-point 3D vectors.
//!
//! A coordinate is an `i64` count of micro-units: one world unit is
//! `MICRO` micro-units. The scale is fine enough to hold every constant
//! of the scene exactly (half a unit, two and a half units).

use vstd::prelude::*;

verus! {

/// Micro-units per world unit.
pub const MICRO: i64 = 1_000_000;

/// A point or displacement in 3D space, each coordinate in micro-units.
#[derive(Clone, Copy, Debug, PartialEq, Eq, Structural)]
pub struct Vec3Fx {
    pub x: i64,
    pub y: i64,
    pub z: i64,
}

impl Vec3Fx {
    /// The zero vector.
    pub fn zero() -> (r: Vec3Fx)
        ensures
            r == (Vec3Fx { x: 0, y: 0, z: 0 }),
    {
        Vec3Fx { x: 0, y: 0, z: 0 }
    }

    /// True when the componentwise sum of `a` and `b` fits in `i64`.
    pub open spec fn sum_fits(a: Vec3Fx, b: Vec3Fx) -> bool {
        &&& i64::MIN <= a.x + b.x <= i64::MAX
        &&& i64::MIN <= a.y + b.y <= i64::MAX
        &&& i64::MIN <= a.z + b.z <= i64::MAX
    }

    /// Componentwise sum.
    pub fn add(self, other: Vec3Fx) -> (r: Vec3Fx)
        requires
            Vec3Fx::sum_fits(self, other),
        ensures
            r.x == self.x + other.x,
            r.y == self.y + other.y,
            r.z == self.z + other.z,
    {
        Vec3Fx { x: self.x + other.x, y: self.y + other.y, z: self.z + other.z }
    }
}

} // verus!
