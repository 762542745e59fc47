//! Hit records, and what a shape must offer to be hit.
use vstd::prelude::*;
use crate::material::Material;
use crate::scalar::Scalar;
use crate::vec3::Vec3;

verus! {

/// Where and how a ray meets a surface.
#[derive(Clone, Copy, Debug)]
pub struct HitRecord {
    /// The point of the surface that was hit.
    pub point: Vec3,
    /// The surface normal there, turned against the ray.
    pub normal: Vec3,
    /// The ray parameter of the hit.
    pub t: Scalar,
    /// Surface coordinates; always 0.
    pub u: Scalar,
    pub v: Scalar,
    /// Whether the ray came from outside the surface.
    pub front_face: bool,
    /// The material of the shape that was hit.
    pub material: Material,
}

/// The normal that a record keeps for an outward normal whose dot product
/// with the ray's direction is `facing`: the outward normal where that
/// product is below zero, its opposite otherwise.
pub open spec fn oriented(facing: Scalar, outward_normal: Vec3) -> Vec3 {
    if facing.less(Scalar::zero()) {
        outward_normal
    } else {
        outward_normal.negated()
    }
}

/// The dot product of a ray's direction with the normal that a record keeps,
/// given `facing`, the product with the outward normal. Flipping the normal
/// flips the sign of the product and nothing else.
pub open spec fn oriented_facing(facing: Scalar) -> Scalar {
    if facing.less(Scalar::zero()) {
        facing
    } else {
        facing.negated()
    }
}

impl HitRecord {
    /// Sets `front_face` and turns the normal against the ray. `facing` is
    /// the dot product of the ray's direction and `outward_normal`.
    pub fn set_face_normal(&mut self, facing: Scalar, outward_normal: Vec3)
        ensures
            final(self).front_face == facing.less(Scalar::zero()),
            final(self).normal == oriented(facing, outward_normal),
            final(self).point == old(self).point,
            final(self).t == old(self).t,
            final(self).u == old(self).u,
            final(self).v == old(self).v,
            final(self).material == old(self).material,
    {
        self.front_face = facing.lt(Scalar::zero());
        self.normal = if self.front_face {
            outward_normal
        } else {
            outward_normal.neg()
        };
    }
}

impl Default for HitRecord {
    /// A record of zeros that faces backward and carries the default
    /// material.
    fn default() -> (r: HitRecord)
        ensures
            r == (HitRecord {
                point: Vec3::splat(Scalar::zero()),
                normal: Vec3::splat(Scalar::zero()),
                t: Scalar::zero(),
                u: Scalar::zero(),
                v: Scalar::zero(),
                front_face: false,
                material: Material::Matte { albedo: Vec3::splat(Scalar::zero()) },
            }),
    {
        HitRecord {
            point: Vec3::default(),
            normal: Vec3::default(),
            t: Scalar::zero(),
            u: Scalar::zero(),
            v: Scalar::zero(),
            front_face: false,
            material: Material::default(),
        }
    }
}

/// After orientation the kept normal never points along the ray: where the
/// product with the outward normal is a number, the product with the kept
/// normal is at most zero.
pub proof fn lemma_oriented_normal_opposes_ray(facing: Scalar)
    requires
        !facing.nan(),
    ensures
        oriented_facing(facing).at_most(Scalar::zero()),
{
}

/// A shape that a ray can hit.
///
/// The arithmetic of an intersection is the caller's; `Probe` is what it
/// hands over for one ray. The shape decides from it whether the ray hits
/// within the interval from `t_min` to `t_max`, and builds the record.
pub trait Hittable {
    type Probe;

    /// The hit that `hit` reports.
    spec fn hit_spec(&self, probe: &Self::Probe, t_min: Scalar, t_max: Scalar) -> Option<HitRecord>;

    fn hit(&self, probe: &Self::Probe, t_min: Scalar, t_max: Scalar) -> (r: Option<HitRecord>)
        ensures
            r == self.hit_spec(probe, t_min, t_max),
    ;
}

} // verus!
