//! How a path ends: the decisions of the radiance estimate.
//!
//! The radiance along a ray with `depth` bounces left is
//!
//! 1. black where `depth` is 0;
//! 2. else, where the ray hits the scene and the material scatters it, the
//!    attenuation times the radiance along the scattered ray with one bounce
//!    fewer, channel by channel;
//! 3. black where the material swallows it;
//! 4. where nothing is hit: the background gradient for a ray that has all
//!    its bounces left, and white for one that has bounced before.
//!
//! `ray_color` decides between 1, 4 and a hit, `shade` between 2 and 3, and
//! `trace` follows a ray from bounce to bounce. The arithmetic in between is
//! the caller's, and so is the product on the way back.
use vstd::prelude::*;
use crate::hittable::{HitRecord, Hittable};
use crate::hittable_list::{lemma_hit_carries_a_sphere_material, visited, HittableList};
use crate::material::{scatter, Sample};
use crate::ray::Ray;
use crate::scalar::Scalar;
use crate::sphere::Crossing;
use crate::vec3::Vec3;

verus! {

/// Pattern of 0.001. Hits nearer than this are ignored, so that a scattered
/// ray does not hit the surface it starts on.
pub const T_MIN_BITS: u32 = 0x3a83_126f;

/// Pattern of 0.294, the red of the background's upper colour.
pub const SKY_RED_BITS: u32 = 0x3e96_872b;

/// Pattern of 0.039, the blue of the background's upper colour.
pub const SKY_BLUE_BITS: u32 = 0x3d1f_be77;

/// The colour rule with which a path ends.
#[derive(Clone, Copy, Debug, PartialEq, Eq, Structural)]
pub enum Terminal {
    /// (0, 0, 0)
    Black,
    /// (1, 1, 1)
    White,
    /// The gradient along the ray's direction `d`: with
    /// `t = 0.5 · (y of d at unit length + 1)`, the blend
    /// `(1 − t) · lower + t · upper` of the two colours of `background`.
    Background,
}

/// What `ray_color` decides for a ray.
#[derive(Clone, Copy, Debug)]
pub enum Step {
    /// The path ends here.
    Done(Terminal),
    /// The ray hit the scene. The caller draws a `Sample` for the record and
    /// calls `shade` with it and with `next_depth`.
    Shade { hit: HitRecord, next_depth: u8 },
}

/// What `shade` decides for a hit.
#[derive(Clone, Copy, Debug)]
pub enum Bounce {
    /// The material swallowed the ray: black.
    Absorbed,
    /// The radiance is `attenuation` times, channel by channel, the radiance
    /// along `ray` with `depth` bounces left.
    Scattered { attenuation: Vec3, ray: Ray, depth: u8 },
}

/// What `ray_color` returns.
pub open spec fn ray_color_spec(
    world: HittableList,
    probe: Vec<Crossing>,
    depth: u8,
    max_depth: u8,
) -> Step {
    if depth == 0 {
        Step::Done(Terminal::Black)
    } else {
        match world.hit_spec(&probe, Scalar { bits: T_MIN_BITS }, Scalar::infinity()) {
            Some(hit) => Step::Shade { hit, next_depth: (depth - 1) as u8 },
            None => if depth == max_depth {
                Step::Done(Terminal::Background)
            } else {
                Step::Done(Terminal::White)
            },
        }
    }
}

/// Decides how the path of a ray goes on at the scene.
///
/// `probe` holds the ray's crossing with each sphere of `world`, `depth` the
/// bounces that are left and `max_depth` those that a ray from the camera
/// starts with. The scene is searched from 0.001 on, without an upper end.
pub fn ray_color(world: &HittableList, probe: &Vec<Crossing>, depth: u8, max_depth: u8) -> (r:
    Step)
    ensures
        r == ray_color_spec(*world, *probe, depth, max_depth),
{
    if depth == 0 {
        return Step::Done(Terminal::Black);
    }
    if let Some(hit) = world.hit(probe, Scalar::from_bits(T_MIN_BITS), Scalar::infinity()) {
        return Step::Shade { hit, next_depth: depth - 1 };
    }
    if depth == max_depth {
        return Step::Done(Terminal::Background);
    }
    Step::Done(Terminal::White)
}

/// Decides how the path goes on at a hit: the material of the record
/// scatters the ray or swallows it.
pub fn shade(hit: &HitRecord, sample: &Sample, next_depth: u8) -> (r: Bounce)
    ensures
        r is Scattered <==> hit.material.scatters(*sample),
        hit.material is Light ==> r is Absorbed,
        r matches Bounce::Scattered { attenuation, ray, depth } ==> {
            &&& hit.material.scattering(hit.normal, *sample) == Some((attenuation, ray@.1))
            &&& ray@.0 == hit.point
            &&& depth == next_depth
        },
{
    let mut scattered_ray = Ray::default();
    let mut attenuation = Vec3::default();
    if scatter(&hit.material, hit, sample, &mut attenuation, &mut scattered_ray) {
        Bounce::Scattered { attenuation, ray: scattered_ray, depth: next_depth }
    } else {
        Bounce::Absorbed
    }
}

impl Terminal {
    /// The colour of a path that ends black or white; `None` for the
    /// background, whose colour depends on the ray.
    pub fn color(self) -> (r: Option<Vec3>)
        ensures
            r == match self {
                Terminal::Black => Some(Vec3::splat(Scalar::zero())),
                Terminal::White => Some(Vec3::splat(Scalar::one())),
                Terminal::Background => None::<Vec3>,
            },
    {
        match self {
            Terminal::Black => Some(Vec3::splat(Scalar::zero())),
            Terminal::White => Some(Vec3::splat(Scalar::one())),
            Terminal::Background => None,
        }
    }
}

/// The two colours of the background gradient: the lower one, (1, 1, 1),
/// then the upper one, (0.294, 0, 0.039).
pub fn background() -> (r: (Vec3, Vec3))
    ensures
        r.0 == Vec3::splat(Scalar::one()),
        r.1 == (Vec3 {
            x: Scalar { bits: SKY_RED_BITS },
            y: Scalar::zero(),
            z: Scalar { bits: SKY_BLUE_BITS },
        }),
{
    (
        Vec3::splat(Scalar::one()),
        Vec3::new(
            Scalar::from_bits(SKY_RED_BITS),
            Scalar::zero(),
            Scalar::from_bits(SKY_BLUE_BITS),
        ),
    )
}

/// With no bounce left the radiance is black, whatever the scene holds.
pub proof fn lemma_depth_zero_is_black(world: HittableList, probe: Vec<Crossing>, max_depth: u8)
    ensures
        ray_color_spec(world, probe, 0, max_depth) == Step::Done(Terminal::Black),
{
}

/// In an empty scene a ray from the camera, which has all its bounces left,
/// shows the background gradient.
pub proof fn lemma_empty_scene_shows_background(
    world: HittableList,
    probe: Vec<Crossing>,
    max_depth: u8,
)
    requires
        world@.len() == 0,
        max_depth > 0,
    ensures
        ray_color_spec(world, probe, max_depth, max_depth) == Step::Done(Terminal::Background),
{
}

/// In an empty scene a ray that has bounced before shows white.
pub proof fn lemma_empty_scene_after_bounce_is_white(
    world: HittableList,
    probe: Vec<Crossing>,
    depth: u8,
    max_depth: u8,
)
    requires
        world@.len() == 0,
        0 < depth,
        depth != max_depth,
    ensures
        ray_color_spec(world, probe, depth, max_depth) == Step::Done(Terminal::White),
{
}

/// A light scatters nothing: a ray that hits one ends black, with any
/// number of bounces left.
pub proof fn lemma_light_is_black(hit: HitRecord, sample: Sample)
    requires
        hit.material is Light,
    ensures
        !hit.material.scatters(sample),
        hit.material.scattering(hit.normal, sample) is None,
{
}

/// A traced path: the bounces of a ray through the scene and how they end.
///
/// The radiance that the path carries is the product, channel by channel, of
/// the attenuations and the terminal colour, taken from the last
/// attenuation back to the first.
pub struct Path {
    /// The attenuation of each bounce, the first bounce first.
    pub attenuations: Vec<Vec3>,
    /// How the path ends.
    pub terminal: Terminal,
    /// The ray with which the path ends; a background is seen along it.
    pub last: Ray,
}

/// Whether a path from `ray` with `depth` bounces left can come out as
/// `attenuations`, `terminal` and `last`, given what `cross` and `draw` can
/// return.
pub open spec fn is_path<C: Fn(&Ray) -> Vec<Crossing>, D: Fn(&Ray, &HitRecord) -> Sample>(
    world: HittableList,
    ray: Ray,
    depth: u8,
    max_depth: u8,
    cross: C,
    draw: D,
    attenuations: Seq<Vec3>,
    terminal: Terminal,
    last: Ray,
) -> bool
    decreases depth,
{
    if depth == 0 {
        attenuations.len() == 0 && terminal == Terminal::Black && last == ray
    } else {
        exists|probe: Vec<Crossing>| #[trigger]
            call_ensures(cross, (&ray,), probe) && match ray_color_spec(
                world,
                probe,
                depth,
                max_depth,
            ) {
                Step::Done(end) => attenuations.len() == 0 && terminal == end && last == ray,
                Step::Shade { hit, next_depth } => exists|sample: Sample| #[trigger]
                    call_ensures(draw, (&ray, &hit), sample) && match hit.material.scattering(
                        hit.normal,
                        sample,
                    ) {
                        Some((color, direction)) if hit.material.scatters(sample) => {
                            &&& attenuations.len() > 0
                            &&& attenuations[0] == color
                            &&& exists|next: Ray| #[trigger]
                                next@ == (hit.point, direction) && is_path(
                                    world,
                                    next,
                                    next_depth,
                                    max_depth,
                                    cross,
                                    draw,
                                    attenuations.skip(1),
                                    terminal,
                                    last,
                                )
                        },
                        _ => attenuations.len() == 0 && terminal == Terminal::Black && last == ray,
                    },
            }
    }
}

/// Traces the path of a ray through the scene.
///
/// `cross` solves the crossing of a ray with each sphere of `world`, in the
/// order of its list; `draw` draws the sample for a hit. Both must accept
/// every ray and record. With no bounce left the scene is not looked at.
pub fn trace<C: Fn(&Ray) -> Vec<Crossing>, D: Fn(&Ray, &HitRecord) -> Sample>(
    world: &HittableList,
    ray: &Ray,
    depth: u8,
    max_depth: u8,
    cross: &C,
    draw: &D,
) -> (r: Path)
    requires
        forall|any: Ray| call_requires(*cross, (&any,)),
        forall|any: Ray, hit: HitRecord| call_requires(*draw, (&any, &hit)),
    ensures
        is_path(
            *world,
            *ray,
            depth,
            max_depth,
            *cross,
            *draw,
            r.attenuations@,
            r.terminal,
            r.last,
        ),
        r.attenuations@.len() <= depth,
    decreases depth,
{
    if depth == 0 {
        return Path { attenuations: Vec::new(), terminal: Terminal::Black, last: *ray };
    }
    let probe = cross(ray);
    match ray_color(world, &probe, depth, max_depth) {
        Step::Done(end) => Path { attenuations: Vec::new(), terminal: end, last: *ray },
        Step::Shade { hit, next_depth } => {
            let sample = draw(ray, &hit);
            match shade(&hit, &sample, next_depth) {
                Bounce::Absorbed => {
                    Path { attenuations: Vec::new(), terminal: Terminal::Black, last: *ray }
                },
                Bounce::Scattered { attenuation, ray: next, depth: left } => {
                    let mut path = trace(world, &next, left, max_depth, cross, draw);
                    let ghost rest = path.attenuations@;
                    path.attenuations.insert(0, attenuation);
                    proof {
                        assert(path.attenuations@.skip(1) =~= rest);
                        assert(call_ensures(*cross, (ray,), probe));
                        assert(call_ensures(*draw, (ray, &hit), sample));
                    }
                    path
                },
            }
        },
    }
}

/// With no bounce left a path is black and has no bounces, whatever the
/// scene holds.
pub proof fn lemma_path_without_depth<
    C: Fn(&Ray) -> Vec<Crossing>,
    D: Fn(&Ray, &HitRecord) -> Sample,
>(
    world: HittableList,
    ray: Ray,
    max_depth: u8,
    cross: C,
    draw: D,
    attenuations: Seq<Vec3>,
    terminal: Terminal,
    last: Ray,
)
    requires
        is_path(world, ray, 0, max_depth, cross, draw, attenuations, terminal, last),
    ensures
        attenuations.len() == 0,
        terminal == Terminal::Black,
{
}

/// In an empty scene a path has no bounces and ends along its first ray:
/// with the background for a ray from the camera, which has all its bounces
/// left, and white for a ray that has fewer.
pub proof fn lemma_path_in_empty_scene<
    C: Fn(&Ray) -> Vec<Crossing>,
    D: Fn(&Ray, &HitRecord) -> Sample,
>(
    world: HittableList,
    ray: Ray,
    depth: u8,
    max_depth: u8,
    cross: C,
    draw: D,
    attenuations: Seq<Vec3>,
    terminal: Terminal,
    last: Ray,
)
    requires
        world@.len() == 0,
        depth > 0,
        is_path(world, ray, depth, max_depth, cross, draw, attenuations, terminal, last),
    ensures
        attenuations.len() == 0,
        last == ray,
        terminal == if depth == max_depth {
            Terminal::Background
        } else {
            Terminal::White
        },
{
}

/// Lights scatter nothing. In a scene of lights a path has no bounces, and
/// a ray that cannot miss the scene ends black.
pub proof fn lemma_path_among_lights<
    C: Fn(&Ray) -> Vec<Crossing>,
    D: Fn(&Ray, &HitRecord) -> Sample,
>(
    world: HittableList,
    ray: Ray,
    depth: u8,
    max_depth: u8,
    cross: C,
    draw: D,
    attenuations: Seq<Vec3>,
    terminal: Terminal,
    last: Ray,
)
    requires
        forall|i: int| 0 <= i < world@.len() ==> (#[trigger] world@[i]).material is Light,
        is_path(world, ray, depth, max_depth, cross, draw, attenuations, terminal, last),
    ensures
        attenuations.len() == 0,
        last == ray,
        (forall|probe: Vec<Crossing>| #[trigger]
            call_ensures(cross, (&ray,), probe) ==> world.hit_spec(
                &probe,
                Scalar { bits: T_MIN_BITS },
                Scalar::infinity(),
            ) is Some) ==> terminal == Terminal::Black,
{
    assert forall|probe: Vec<Crossing>|
        (#[trigger] world.hit_spec(&probe, Scalar { bits: T_MIN_BITS }, Scalar::infinity()))
            is Some implies world.hit_spec(
            &probe,
            Scalar { bits: T_MIN_BITS },
            Scalar::infinity(),
        )->0.material is Light by {
        lemma_hit_carries_a_sphere_material(
            world@,
            probe@,
            Scalar { bits: T_MIN_BITS },
            Scalar::infinity(),
            visited(world@, probe@),
        );
    }
}

} // verus!
