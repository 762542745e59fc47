//! Spheres, and the choice of the root at which a ray hits one.
use vstd::prelude::*;
use crate::hittable::{oriented, HitRecord, Hittable};
use crate::material::Material;
use crate::scalar::Scalar;
use crate::vec3::Vec3;

verus! {

/// A sphere with its material.
#[derive(Clone, Copy, Debug)]
pub struct Sphere {
    pub center: Vec3,
    pub radius: Scalar,
    pub material: Material,
}

/// One root of a sphere's quadratic for a ray, with the geometry there. For
/// the ray `o + t·d` and the sphere of centre `c` and radius `r`:
#[derive(Clone, Copy, Debug)]
pub struct Touch {
    /// The root.
    pub t: Scalar,
    /// `o + t·d`
    pub point: Vec3,
    /// `(point − c) / r`
    pub outward_normal: Vec3,
    /// The dot product of `d` and `outward_normal`.
    pub facing: Scalar,
}

/// The quadratic `t²(d·d) + 2t(d·(o−c)) + (o−c)·(o−c) − r² = 0` of a ray and
/// a sphere, solved by the caller. With `a = d·d` and `h = d·(o−c)`:
#[derive(Clone, Copy, Debug)]
pub struct Crossing {
    /// `h² − a((o−c)·(o−c) − r²)`
    pub discriminant: Scalar,
    /// At the root `(−h − √discriminant) / a`.
    pub near: Touch,
    /// At the root `(−h + √discriminant) / a`.
    pub far: Touch,
}

/// Whether `t` lies in the interval from `t_min` to `t_max`, ends included:
/// it is neither below `t_min` nor above `t_max`.
pub open spec fn within(t: Scalar, t_min: Scalar, t_max: Scalar) -> bool {
    !t.less(t_min) && !t_max.less(t)
}

impl Touch {
    /// The record of a hit at this root on a surface of the given material.
    pub open spec fn record(self, material: Material) -> HitRecord {
        HitRecord {
            point: self.point,
            normal: oriented(self.facing, self.outward_normal),
            t: self.t,
            u: Scalar::zero(),
            v: Scalar::zero(),
            front_face: self.facing.less(Scalar::zero()),
            material,
        }
    }
}

impl Crossing {
    /// The root at which the ray hits within the interval: none where the
    /// discriminant is below zero; else the near root if it lies in the
    /// interval; else the far root if that does; else none.
    pub open spec fn chosen(self, t_min: Scalar, t_max: Scalar) -> Option<Touch> {
        if self.discriminant.less(Scalar::zero()) {
            None
        } else if within(self.near.t, t_min, t_max) {
            Some(self.near)
        } else if within(self.far.t, t_min, t_max) {
            Some(self.far)
        } else {
            None
        }
    }

    /// Both roots are numbers, and the near one is not above the far one.
    pub open spec fn ordered(self) -> bool {
        self.near.t.at_most(self.far.t)
    }
}

impl Sphere {
    pub fn new(center: Vec3, radius: Scalar, material: Material) -> (r: Sphere)
        ensures
            r == (Sphere { center, radius, material }),
    {
        Sphere { center, radius, material }
    }
}

fn in_interval(t: Scalar, t_min: Scalar, t_max: Scalar) -> (r: bool)
    ensures
        r == within(t, t_min, t_max),
{
    !(t.lt(t_min) || t.gt(t_max))
}

impl Hittable for Sphere {
    type Probe = Crossing;

    open spec fn hit_spec(&self, probe: &Crossing, t_min: Scalar, t_max: Scalar) -> Option<
        HitRecord,
    > {
        match probe.chosen(t_min, t_max) {
            Some(touch) => Some(touch.record(self.material)),
            None => None,
        }
    }

    /// The hit of a ray on this sphere within the interval from `t_min` to
    /// `t_max`, if there is one. A reported hit lies in the interval and
    /// carries the sphere's material.
    fn hit(&self, probe: &Crossing, t_min: Scalar, t_max: Scalar) -> (r: Option<HitRecord>)
        ensures
            r == self.hit_spec(probe, t_min, t_max),
            r matches Some(h) ==> within(h.t, t_min, t_max) && h.material == self.material,
    {
        if probe.discriminant.lt(Scalar::zero()) {
            return None;
        }
        let mut touch = probe.near;
        if !in_interval(touch.t, t_min, t_max) {
            touch = probe.far;
            if !in_interval(touch.t, t_min, t_max) {
                return None;
            }
        }
        let mut new_hit_record = HitRecord {
            point: touch.point,
            t: touch.t,
            u: Scalar::zero(),
            v: Scalar::zero(),
            normal: touch.outward_normal,
            front_face: true,
            material: self.material,
        };
        new_hit_record.set_face_normal(touch.facing, touch.outward_normal);
        Some(new_hit_record)
    }
}

} // verus!
