//! Integer vectors in object space.
//!
//! Every coordinate of the mesh is a small integer, so the geometry of the box
//! can be stated exactly over `int`, without rounding.

use vstd::prelude::*;

verus! {

/// A point or a direction in object space.
pub struct Vec3 {
    pub x: int,
    pub y: int,
    pub z: int,
}

impl Vec3 {
    /// The componentwise difference `self - other`.
    pub open spec fn minus(self, other: Vec3) -> Vec3 {
        Vec3 { x: self.x - other.x, y: self.y - other.y, z: self.z - other.z }
    }

    /// The vector `k * self`.
    pub open spec fn scaled(self, k: int) -> Vec3 {
        Vec3 { x: k * self.x, y: k * self.y, z: k * self.z }
    }

    /// The inner product of two vectors.
    pub open spec fn dot(self, other: Vec3) -> int {
        self.x * other.x + self.y * other.y + self.z * other.z
    }

    /// The right-handed cross product `self x other`.
    pub open spec fn cross(self, other: Vec3) -> Vec3 {
        Vec3 {
            x: self.y * other.z - self.z * other.y,
            y: self.z * other.x - self.x * other.z,
            z: self.x * other.y - self.y * other.x,
        }
    }
}

/// The normal of the triangle `a`, `b`, `c` by the right-hand rule on the order
/// in which its corners are listed: seen from the side the normal points to,
/// the corners run counter-clockwise. Its length is twice the triangle's area.
pub open spec fn triangle_normal(a: Vec3, b: Vec3, c: Vec3) -> Vec3 {
    b.minus(a).cross(c.minus(a))
}

} // verus!
