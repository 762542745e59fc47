//! Surface materials and how each scatters a ray.
use vstd::prelude::*;
use vstd::std_specs::cmp::PartialEqSpecImpl;
use crate::hittable::HitRecord;
use crate::ray::Ray;
use crate::scalar::Scalar;
use crate::util::{near_zero, vec_near_zero};
use crate::vec3::Vec3;

verus! {

/// How a surface answers a ray.
#[derive(Clone, Copy, Debug)]
pub enum Material {
    /// A mirror of colour `albedo`, blurred by `fuzz`.
    Metal { albedo: Vec3, fuzz: Scalar },
    /// A diffuse surface of colour `albedo`.
    Matte { albedo: Vec3 },
    /// A clear surface that bends every ray.
    Glass { refractive_index: Scalar },
    /// An emitter of `color`; it scatters nothing.
    Light { color: Vec3 },
}

impl Default for Material {
    /// Matte black.
    fn default() -> (r: Material)
        ensures
            r == (Material::Matte { albedo: Vec3::splat(Scalar::zero()) }),
    {
        Material::Matte { albedo: Vec3::default() }
    }
}

/// `==` compares kind and parameters, the parameters as numbers.
impl PartialEq for Material {
    fn eq(&self, other: &Material) -> (r: bool) {
        match (*self, *other) {
            (Material::Metal { albedo: a, fuzz: f }, Material::Metal { albedo: b, fuzz: g }) => {
                a == b && f == g
            },
            (Material::Matte { albedo: a }, Material::Matte { albedo: b }) => a == b,
            (
                Material::Glass { refractive_index: a },
                Material::Glass { refractive_index: b },
            ) => a == b,
            (Material::Light { color: a }, Material::Light { color: b }) => a == b,
            _ => false,
        }
    }
}

impl PartialEqSpecImpl for Material {
    open spec fn obeys_eq_spec() -> bool {
        true
    }

    open spec fn eq_spec(&self, other: &Material) -> bool {
        self.same(*other)
    }
}

/// The directions among which `scatter` chooses, computed by the caller for
/// one hit. With `d` the direction of the incoming ray, `u` that direction
/// at unit length and `n` the normal of the hit record:
#[derive(Clone, Copy, Debug)]
pub struct Sample {
    /// `n` plus a random unit vector. Read for `Matte`.
    pub diffuse: Vec3,
    /// `u − 2(u·n)n`, plus `fuzz` times a random point of the unit sphere.
    /// Read for `Metal`.
    pub mirror: Vec3,
    /// The dot product of `mirror` and `n`. Read for `Metal`.
    pub mirror_facing: Scalar,
    /// The dot product of `d` and `n`. Read for `Glass`.
    pub incidence: Scalar,
    /// `u` refracted at `n` with ratio `1 / refractive_index`. Read for
    /// `Glass`.
    pub refracted_entering: Vec3,
    /// `u` refracted at `n` with ratio `refractive_index`. Read for `Glass`.
    pub refracted_leaving: Vec3,
}

impl Material {
    /// Whether the two materials are of one kind and equal in every
    /// parameter, as numbers.
    pub open spec fn same(self, other: Material) -> bool {
        match (self, other) {
            (Material::Metal { albedo: a, fuzz: f }, Material::Metal { albedo: b, fuzz: g }) => {
                a.same(b) && f.same(g)
            },
            (Material::Matte { albedo: a }, Material::Matte { albedo: b }) => a.same(b),
            (
                Material::Glass { refractive_index: a },
                Material::Glass { refractive_index: b },
            ) => a.same(b),
            (Material::Light { color: a }, Material::Light { color: b }) => a.same(b),
            _ => false,
        }
    }

    /// Whether a ray leaves the surface again.
    pub open spec fn scatters(self, sample: Sample) -> bool {
        match self {
            Material::Matte { .. } => true,
            Material::Metal { .. } => Scalar::zero().less(sample.mirror_facing),
            Material::Glass { .. } => true,
            Material::Light { .. } => false,
        }
    }

    /// What `scatter` writes for a hit with the given normal: the
    /// attenuation, then the direction of the scattered ray. `None` for a
    /// `Light`, which writes nothing.
    pub open spec fn scattering(self, normal: Vec3, sample: Sample) -> Option<(Vec3, Vec3)> {
        match self {
            Material::Matte { albedo } => Some(
                (
                    albedo,
                    if near_zero(sample.diffuse) {
                        normal
                    } else {
                        sample.diffuse
                    },
                ),
            ),
            Material::Metal { albedo, .. } => Some((albedo, sample.mirror)),
            Material::Glass { .. } => Some(
                (
                    Vec3::splat(Scalar::one()),
                    if sample.incidence.at_most(Scalar::zero()) {
                        sample.refracted_entering
                    } else {
                        sample.refracted_leaving
                    },
                ),
            ),
            Material::Light { .. } => None,
        }
    }
}

/// Scatters a ray at a hit.
///
/// Returns whether the ray goes on. For every material but `Light` the
/// attenuation and the scattered ray are written, even where a `Metal`
/// surface then swallows the ray; the scattered ray starts at the point of
/// the hit. A `Light` leaves both untouched.
pub fn scatter(
    material: &Material,
    hit_rec: &HitRecord,
    sample: &Sample,
    attenuation: &mut Vec3,
    scattered_ray: &mut Ray,
) -> (did_scatter: bool)
    ensures
        did_scatter == material.scatters(*sample),
        material matches Material::Matte { albedo } ==> did_scatter && *final(attenuation)
            == albedo && final(scattered_ray)@.0 == hit_rec.point,
        material is Light ==> !did_scatter,
        match material.scattering(hit_rec.normal, *sample) {
            Some((color, direction)) => *final(attenuation) == color && final(scattered_ray)@ == (
                hit_rec.point,
                direction,
            ),
            None => *final(attenuation) == *old(attenuation) && *final(scattered_ray) == *old(
                scattered_ray
            ),
        },
{
    match *material {
        Material::Matte { albedo } => {
            let mut scatter_direction = sample.diffuse;
            if vec_near_zero(scatter_direction) {
                scatter_direction = hit_rec.normal;
            }
            *scattered_ray = Ray::new(hit_rec.point, scatter_direction);
            *attenuation = albedo;
            true
        },
        Material::Metal { albedo, fuzz: _ } => {
            *scattered_ray = Ray::new(hit_rec.point, sample.mirror);
            *attenuation = albedo;
            sample.mirror_facing.gt(Scalar::zero())
        },
        Material::Glass { refractive_index: _ } => {
            *attenuation = Vec3::splat(Scalar::one());
            let refracted_direction = if sample.incidence.le(Scalar::zero()) {
                sample.refracted_entering
            } else {
                sample.refracted_leaving
            };
            *scattered_ray = Ray::new(hit_rec.point, refracted_direction);
            true
        },
        Material::Light { color: _ } => false,
    }
}

/// What a surface emits: its colour for a `Light`, nothing for the others.
/// The surface coordinates and the point are not read.
pub fn emitt(material: &Material, u: Scalar, v: Scalar, point: Vec3) -> (r: Vec3)
    ensures
        r == match *material {
            Material::Light { color } => color,
            _ => Vec3::splat(Scalar::zero()),
        },
{
    match *material {
        Material::Light { color } => color,
        _ => Vec3::splat(Scalar::zero()),
    }
}

} // verus!
