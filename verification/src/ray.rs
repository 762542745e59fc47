//! Rays.
use vstd::prelude::*;
use crate::scalar::Scalar;
use crate::vec3::Vec3;

verus! {

/// A half-line: the points `origin + t · direction`. The direction need not
/// have unit length. A ray is not changed once it is made.
#[derive(Clone, Copy, Debug)]
pub struct Ray {
    origin: Vec3,
    direction: Vec3,
}

impl View for Ray {
    type V = (Vec3, Vec3);

    /// Origin, then direction.
    closed spec fn view(&self) -> (Vec3, Vec3) {
        (self.origin, self.direction)
    }
}

impl Ray {
    pub fn new(origin: Vec3, direction: Vec3) -> (r: Ray)
        ensures
            r@ == (origin, direction),
    {
        Ray { origin, direction }
    }

    pub fn origin(&self) -> (r: Vec3)
        ensures
            r == self@.0,
    {
        self.origin
    }

    pub fn direction(&self) -> (r: Vec3)
        ensures
            r == self@.1,
    {
        self.direction
    }
}

impl Default for Ray {
    /// The ray from the zero vector along the zero vector.
    fn default() -> (r: Ray)
        ensures
            r@ == (Vec3::splat(Scalar::zero()), Vec3::splat(Scalar::zero())),
    {
        Ray { origin: Vec3::default(), direction: Vec3::default() }
    }
}

} // verus!
