//! Three-dimensional vectors of integers.
use vstd::prelude::*;

verus! {

/// A vector of three mathematical integers: the value that a [`Vector3`]
/// stands for in contracts.
pub struct Vec3 {
    pub x: int,
    pub y: int,
    pub z: int,
}

impl Vec3 {
    /// The origin.
    pub open spec fn zero() -> Vec3 {
        Vec3 { x: 0, y: 0, z: 0 }
    }

    /// The coordinate with index `i`: 0 for `x`, 1 for `y`, 2 for `z`.
    pub open spec fn at(self, i: int) -> int {
        if i == 0 {
            self.x
        } else if i == 1 {
            self.y
        } else {
            self.z
        }
    }

    /// The sum of two vectors.
    pub open spec fn plus(self, other: Vec3) -> Vec3 {
        Vec3 { x: self.x + other.x, y: self.y + other.y, z: self.z + other.z }
    }

    /// The difference of two vectors.
    pub open spec fn minus(self, other: Vec3) -> Vec3 {
        Vec3 { x: self.x - other.x, y: self.y - other.y, z: self.z - other.z }
    }

    /// The vector multiplied by `k`.
    pub open spec fn scaled(self, k: int) -> Vec3 {
        Vec3 { x: k * self.x, y: k * self.y, z: k * self.z }
    }

    /// The same vector in real numbers.
    pub open spec fn to_real(self) -> RealVec3 {
        RealVec3 { x: self.x as real, y: self.y as real, z: self.z as real }
    }

    /// The scalar product of two vectors.
    pub open spec fn dot(self, other: Vec3) -> int {
        self.x * other.x + self.y * other.y + self.z * other.z
    }

    /// The squared length of the vector.
    pub open spec fn norm_sq(self) -> int {
        self.dot(self)
    }

    /// Whether every coordinate has magnitude at most `bound`.
    pub open spec fn within(self, bound: int) -> bool {
        &&& -bound <= self.x <= bound
        &&& -bound <= self.y <= bound
        &&& -bound <= self.z <= bound
    }
}

/// A vector of three real numbers: what a center of mass is.
pub struct RealVec3 {
    pub x: real,
    pub y: real,
    pub z: real,
}

impl RealVec3 {
    /// The sum of two vectors.
    pub open spec fn plus(self, other: RealVec3) -> RealVec3 {
        RealVec3 { x: self.x + other.x, y: self.y + other.y, z: self.z + other.z }
    }

    /// The difference of two vectors.
    pub open spec fn minus(self, other: RealVec3) -> RealVec3 {
        RealVec3 { x: self.x - other.x, y: self.y - other.y, z: self.z - other.z }
    }

    /// The vector multiplied by `k`.
    pub open spec fn scaled(self, k: real) -> RealVec3 {
        RealVec3 { x: k * self.x, y: k * self.y, z: k * self.z }
    }

    /// The vector divided by `k`.
    pub open spec fn divided(self, k: real) -> RealVec3 {
        RealVec3 { x: self.x / k, y: self.y / k, z: self.z / k }
    }
}

/// A vector of three 64-bit integers.
#[derive(Clone, Copy, Debug, PartialEq, Eq, Structural)]
pub struct Vector3 {
    pub x: i64,
    pub y: i64,
    pub z: i64,
}

impl View for Vector3 {
    type V = Vec3;

    open spec fn view(&self) -> Vec3 {
        Vec3 { x: self.x as int, y: self.y as int, z: self.z as int }
    }
}

/// The vector that a sequence of three coordinates spells out.
pub open spec fn vec3_of(components: Seq<i64>) -> Vec3
    recommends
        components.len() == 3,
{
    Vec3 { x: components[0] as int, y: components[1] as int, z: components[2] as int }
}

impl Vector3 {
    /// The vector with the given coordinates.
    pub fn new(x: i64, y: i64, z: i64) -> (v: Vector3)
        ensures
            v == (Vector3 { x, y, z }),
    {
        Vector3 { x, y, z }
    }

    /// The vector whose coordinates are the three elements of `components`,
    /// in order. A list of any other length spells no vector.
    pub fn from_vec(components: &Vec<i64>) -> (r: Option<Vector3>)
        ensures
            match r {
                Some(v) => components@.len() == 3 && v@ == vec3_of(components@),
                None => components@.len() != 3,
            },
    {
        if components.len() != 3 {
            return None;
        }
        Some(Vector3 { x: components[0], y: components[1], z: components[2] })
    }

    /// Whether every coordinate has magnitude at most `bound`.
    pub fn within(&self, bound: i64) -> (b: bool)
        ensures
            b == self@.within(bound as int),
    {
        if bound < 0 {
            return false;
        }
        let lo: i64 = -bound;
        lo <= self.x && self.x <= bound && lo <= self.y && self.y <= bound && lo <= self.z
            && self.z <= bound
    }
}

/// A vector of three 128-bit integers, for sums of products.
#[derive(Clone, Copy, Debug, PartialEq, Eq, Structural)]
pub struct WideVector {
    pub x: i128,
    pub y: i128,
    pub z: i128,
}

impl View for WideVector {
    type V = Vec3;

    open spec fn view(&self) -> Vec3 {
        Vec3 { x: self.x as int, y: self.y as int, z: self.z as int }
    }
}

} // verus!
