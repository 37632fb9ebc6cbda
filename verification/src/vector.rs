//! Three-component vectors and quaternions of fixed-point numbers.

use vstd::prelude::*;
use crate::fixed::{diff, diff_spec, product, product_spec, sum, sum_spec};

verus! {

/// A point or direction in world space; `y` points up.
#[derive(Clone, Copy, Debug, PartialEq, Eq, Structural)]
pub struct Vec3 {
    pub x: i64,
    pub y: i64,
    pub z: i64,
}

/// An orientation, kept as the four raw components of a unit quaternion.
#[derive(Clone, Copy, Debug, PartialEq, Eq, Structural)]
pub struct Quat {
    pub x: i64,
    pub y: i64,
    pub z: i64,
    pub w: i64,
}

impl Vec3 {
    /// The vector whose components are all zero.
    pub open spec fn zero() -> Vec3 {
        Vec3 { x: 0, y: 0, z: 0 }
    }

    /// The component-wise fixed-point sum.
    pub open spec fn plus_spec(self, other: Vec3) -> Vec3 {
        Vec3 {
            x: sum_spec(self.x as int, other.x as int) as i64,
            y: sum_spec(self.y as int, other.y as int) as i64,
            z: sum_spec(self.z as int, other.z as int) as i64,
        }
    }

    /// The component-wise fixed-point difference.
    pub open spec fn minus_spec(self, other: Vec3) -> Vec3 {
        Vec3 {
            x: diff_spec(self.x as int, other.x as int) as i64,
            y: diff_spec(self.y as int, other.y as int) as i64,
            z: diff_spec(self.z as int, other.z as int) as i64,
        }
    }

    /// Every component multiplied by the fixed-point number `k`.
    pub open spec fn scaled_spec(self, k: i64) -> Vec3 {
        Vec3 {
            x: product_spec(self.x as int, k as int) as i64,
            y: product_spec(self.y as int, k as int) as i64,
            z: product_spec(self.z as int, k as int) as i64,
        }
    }

    /// Builds a vector from its components.
    pub fn new(x: i64, y: i64, z: i64) -> (r: Vec3)
        ensures
            r == (Vec3 { x, y, z }),
    {
        Vec3 { x, y, z }
    }

    /// Adds `other` component by component.
    pub fn plus(self, other: Vec3) -> (r: Vec3)
        ensures
            r == self.plus_spec(other),
    {
        Vec3 { x: sum(self.x, other.x), y: sum(self.y, other.y), z: sum(self.z, other.z) }
    }

    /// Subtracts `other` component by component.
    pub fn minus(self, other: Vec3) -> (r: Vec3)
        ensures
            r == self.minus_spec(other),
    {
        Vec3 { x: diff(self.x, other.x), y: diff(self.y, other.y), z: diff(self.z, other.z) }
    }

    /// Multiplies every component by `k`.
    pub fn scaled(self, k: i64) -> (r: Vec3)
        ensures
            r == self.scaled_spec(k),
    {
        Vec3 { x: product(self.x, k), y: product(self.y, k), z: product(self.z, k) }
    }
}

} // verus!
