//! Three-component vectors of fixed-point values.

use vstd::prelude::*;

verus! {

/// A vector of three fixed-point components: `x` and `z` span the horizontal
/// plane, `y` is the vertical axis. Equality is component-wise.
#[derive(Clone, Copy, PartialEq, Eq, Debug)]
pub struct Vec3 {
    pub x: i64,
    pub y: i64,
    pub z: i64,
}

impl Vec3 {
    /// The zero vector.
    pub fn zero() -> (v: Vec3)
        ensures
            v.is_zero(),
    {
        Vec3 { x: 0, y: 0, z: 0 }
    }

    /// All components are zero.
    pub open spec fn is_zero(self) -> bool {
        self.x == 0 && self.y == 0 && self.z == 0
    }

    /// Every component is within `limit` in magnitude.
    pub open spec fn within(self, limit: int) -> bool {
        &&& -limit <= self.x <= limit
        &&& -limit <= self.y <= limit
        &&& -limit <= self.z <= limit
    }

    /// Square of the Euclidean norm.
    pub open spec fn norm_sq(self) -> int {
        self.x * self.x + self.y * self.y + self.z * self.z
    }
}

} // verus!
