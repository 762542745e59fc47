//! Three-component vectors of single-precision numbers.
use vstd::prelude::*;
use vstd::std_specs::cmp::PartialEqSpecImpl;
use crate::scalar::Scalar;

verus! {

/// A point, a direction or a colour: three numbers, each by its pattern.
#[derive(Clone, Copy, Debug)]
pub struct Vec3 {
    pub x: Scalar,
    pub y: Scalar,
    pub z: Scalar,
}

impl Vec3 {
    /// The vector whose three components are `s`.
    pub open spec fn spec_splat(s: Scalar) -> Vec3 {
        Vec3 { x: s, y: s, z: s }
    }

    /// Whether the two vectors are equal in every component, as numbers.
    pub open spec fn same(self, other: Vec3) -> bool {
        self.x.same(other.x) && self.y.same(other.y) && self.z.same(other.z)
    }

    /// The vector with the sign of every component flipped.
    pub open spec fn negated(self) -> Vec3 {
        Vec3 { x: self.x.negated(), y: self.y.negated(), z: self.z.negated() }
    }

    pub fn new(x: Scalar, y: Scalar, z: Scalar) -> (r: Vec3)
        ensures
            r == (Vec3 { x, y, z }),
    {
        Vec3 { x, y, z }
    }

    /// The vector whose three components are `s`.
    #[verifier::when_used_as_spec(spec_splat)]
    pub fn splat(s: Scalar) -> (r: Vec3)
        ensures
            r == (Vec3 { x: s, y: s, z: s }),
    {
        Vec3 { x: s, y: s, z: s }
    }

    /// `-self`
    pub fn neg(self) -> (r: Vec3)
        ensures
            r == self.negated(),
    {
        Vec3 { x: self.x.neg(), y: self.y.neg(), z: self.z.neg() }
    }
}

impl Default for Vec3 {
    /// The zero vector.
    fn default() -> (r: Vec3)
        ensures
            r == Vec3::splat(Scalar::zero()),
    {
        Vec3::splat(Scalar::zero())
    }
}

/// `==` compares the components as numbers.
impl PartialEq for Vec3 {
    fn eq(&self, other: &Vec3) -> (r: bool) {
        self.x == other.x && self.y == other.y && self.z == other.z
    }
}

impl PartialEqSpecImpl for Vec3 {
    open spec fn obeys_eq_spec() -> bool {
        true
    }

    open spec fn eq_spec(&self, other: &Vec3) -> bool {
        self.same(*other)
    }
}

} // verus!
