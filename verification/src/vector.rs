//! Three-component integer vectors: the mathematical model, and the machine
//! type that holds directions and velocities.

use vstd::prelude::*;

verus! {

/// A vector of three unbounded integers. Contracts are stated over this type.
pub struct Vector {
    pub x: int,
    pub y: int,
    pub z: int,
}

impl Vector {
    pub open spec fn zero() -> Vector {
        Vector { x: 0, y: 0, z: 0 }
    }

    /// Component-wise sum.
    pub open spec fn plus(self, other: Vector) -> Vector {
        Vector { x: self.x + other.x, y: self.y + other.y, z: self.z + other.z }
    }

    /// Every component multiplied by `k`.
    pub open spec fn times(self, k: int) -> Vector {
        Vector { x: self.x * k, y: self.y * k, z: self.z * k }
    }

    /// Whether every component can be held in an `i64`.
    pub open spec fn fits(self) -> bool {
        &&& i64::MIN <= self.x <= i64::MAX
        &&& i64::MIN <= self.y <= i64::MAX
        &&& i64::MIN <= self.z <= i64::MAX
    }
}

/// A vector of three machine integers.
#[derive(Clone, Copy, Debug, PartialEq, Eq, Structural)]
pub struct Vec3 {
    pub x: i64,
    pub y: i64,
    pub z: i64,
}

impl View for Vec3 {
    type V = Vector;

    open spec fn view(&self) -> Vector {
        Vector { x: self.x as int, y: self.y as int, z: self.z as int }
    }
}

impl Vec3 {
    pub fn new(x: i64, y: i64, z: i64) -> (v: Vec3)
        ensures
            v == (Vec3 { x, y, z }),
    {
        Vec3 { x, y, z }
    }
}

} // verus!
