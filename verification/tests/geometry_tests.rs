use path_tracer::hittable::{HitRecord, Hittable};
use path_tracer::hittable_list::HittableList;
use path_tracer::material::Material;
use path_tracer::ray::Ray;
use path_tracer::scalar::Scalar;
use path_tracer::sphere::{Crossing, Sphere, Touch};
use path_tracer::vec3::Vec3;

type Triple = (f32, f32, f32);

fn n(x: f32) -> Scalar {
    Scalar::from_bits(x.to_bits())
}

fn f(s: Scalar) -> f32 {
    f32::from_bits(s.to_bits())
}

fn v(t: Triple) -> Vec3 {
    Vec3::new(n(t.0), n(t.1), n(t.2))
}

fn triple(a: Vec3) -> Triple {
    (f(a.x), f(a.y), f(a.z))
}

fn dot(a: Triple, b: Triple) -> f32 {
    a.0 * b.0 + a.1 * b.1 + a.2 * b.2
}

fn sub(a: Triple, b: Triple) -> Triple {
    (a.0 - b.0, a.1 - b.1, a.2 - b.2)
}

fn along(origin: Triple, direction: Triple, t: f32) -> Triple {
    (origin.0 + t * direction.0, origin.1 + t * direction.1, origin.2 + t * direction.2)
}

fn touch(center: Triple, radius: f32, origin: Triple, direction: Triple, t: f32) -> Touch {
    let point = along(origin, direction, t);
    let d = sub(point, center);
    let outward = (d.0 / radius, d.1 / radius, d.2 / radius);
    Touch { t: n(t), point: v(point), outward_normal: v(outward), facing: n(dot(direction, outward)) }
}

fn crossing(center: Triple, radius: f32, origin: Triple, direction: Triple) -> Crossing {
    let oc = sub(origin, center);
    let a = dot(direction, direction);
    let half_b = dot(oc, direction);
    let c = dot(oc, oc) - radius * radius;
    let discriminant = half_b * half_b - a * c;
    let root = discriminant.sqrt();
    Crossing {
        discriminant: n(discriminant),
        near: touch(center, radius, origin, direction, (-half_b - root) / a),
        far: touch(center, radius, origin, direction, (-half_b + root) / a),
    }
}

fn matte(r: f32, g: f32, b: f32) -> Material {
    Material::Matte { albedo: v((r, g, b)) }
}

fn ball(center: Triple, radius: f32, material: Material) -> Sphere {
    Sphere::new(v(center), n(radius), material)
}

fn plain_touch(t: f32) -> Touch {
    Touch { t: n(t), point: v((t, 0.0, 0.0)), outward_normal: v((1.0, 0.0, 0.0)), facing: n(-1.0) }
}

fn plain_crossing(discriminant: f32, near: f32, far: f32) -> Crossing {
    Crossing { discriminant: n(discriminant), near: plain_touch(near), far: plain_touch(far) }
}

fn is_matte(h: &HitRecord, r: f32) -> bool {
    match h.material {
        Material::Matte { albedo } => f(albedo.x) == r,
        _ => false,
    }
}

#[test]
fn ray_keeps_origin_and_direction() {
    let ray = Ray::new(v((1.0, 2.0, 3.0)), v((0.0, -1.0, 0.5)));
    assert_eq!(triple(ray.origin()), (1.0, 2.0, 3.0));
    assert_eq!(triple(ray.direction()), (0.0, -1.0, 0.5));
    let zero = Ray::default();
    assert_eq!(triple(zero.origin()), (0.0, 0.0, 0.0));
    assert_eq!(triple(zero.direction()), (0.0, 0.0, 0.0));
}

#[test]
fn vec3_neg_flips_each_sign() {
    let a = v((1.0, -2.0, 0.0)).neg();
    assert_eq!(a.x.to_bits(), (-1.0_f32).to_bits());
    assert_eq!(a.y.to_bits(), 2.0_f32.to_bits());
    assert_eq!(a.z.to_bits(), (-0.0_f32).to_bits());
    assert_eq!(triple(Vec3::splat(n(0.5))), (0.5, 0.5, 0.5));
    assert_eq!(triple(Vec3::default()), (0.0, 0.0, 0.0));
}

#[test]
fn ray_at_center_from_outside_has_two_roots() {
    let center = (0.0, 0.0, -3.0);
    let origin = (0.0, 0.0, 0.0);
    let direction = (0.0, 0.0, -1.0);
    let sphere = ball(center, 1.0, matte(0.5, 0.5, 0.5));
    let c = crossing(center, 1.0, origin, direction);
    assert_eq!(f(c.near.t), 2.0);
    assert_eq!(f(c.far.t), 4.0);

    let first = sphere.hit(&c, n(0.001), n(f32::INFINITY)).unwrap();
    assert_eq!(f(first.t), 2.0);
    assert_eq!(triple(first.point), (0.0, 0.0, -2.0));
    assert_eq!(triple(first.normal), (0.0, 0.0, 1.0));
    assert!(first.front_face);

    let second = sphere.hit(&c, n(2.5), n(f32::INFINITY)).unwrap();
    assert_eq!(f(second.t), 4.0);
    assert_eq!(triple(second.point), (0.0, 0.0, -4.0));
    assert_eq!(triple(second.normal), (0.0, 0.0, 1.0));
    assert!(!second.front_face);
}

#[test]
fn hit_normal_is_unit_and_opposes_the_ray() {
    let center = (0.5, -0.25, -4.0);
    let origin = (0.0, 0.0, 0.0);
    let sphere = ball(center, 1.5, matte(0.1, 0.2, 0.3));
    for &direction in &[(0.0, 0.0, -1.0), (0.2, 0.0, -1.0), (0.1, -0.2, -2.0), (0.3, 0.1, -1.0)] {
        let c = crossing(center, 1.5, origin, direction);
        for &t_min in &[0.001_f32, 3.5] {
            if let Some(h) = sphere.hit(&c, n(t_min), n(f32::INFINITY)) {
                let normal = triple(h.normal);
                assert!((dot(normal, normal).sqrt() - 1.0).abs() < 1e-5);
                assert!(dot(direction, normal) <= 0.0);
                assert!(f(h.t) >= t_min);
            }
        }
    }
}

#[test]
fn sphere_hit_takes_near_root_in_range() {
    let sphere = ball((0.0, 0.0, 0.0), 1.0, matte(0.25, 0.0, 0.0));
    let h = sphere.hit(&plain_crossing(1.0, 2.0, 4.0), n(0.001), n(100.0)).unwrap();
    assert_eq!(f(h.t), 2.0);
    assert_eq!(triple(h.point), (2.0, 0.0, 0.0));
    assert_eq!(f(h.u), 0.0);
    assert_eq!(f(h.v), 0.0);
    assert!(is_matte(&h, 0.25));
}

#[test]
fn sphere_hit_takes_far_root_when_near_is_out() {
    let sphere = ball((0.0, 0.0, 0.0), 1.0, matte(0.25, 0.0, 0.0));
    let h = sphere.hit(&plain_crossing(1.0, -1.0, 1.0), n(0.001), n(100.0)).unwrap();
    assert_eq!(f(h.t), 1.0);
    assert_eq!(triple(h.point), (1.0, 0.0, 0.0));
}

#[test]
fn sphere_hit_includes_interval_ends() {
    let sphere = ball((0.0, 0.0, 0.0), 1.0, matte(0.25, 0.0, 0.0));
    let c = plain_crossing(1.0, 2.0, 4.0);
    assert_eq!(f(sphere.hit(&c, n(2.0), n(3.0)).unwrap().t), 2.0);
    assert_eq!(f(sphere.hit(&c, n(1.0), n(2.0)).unwrap().t), 2.0);
    assert_eq!(f(sphere.hit(&c, n(3.0), n(4.0)).unwrap().t), 4.0);
}

#[test]
fn sphere_hit_misses() {
    let sphere = ball((0.0, 0.0, 0.0), 1.0, matte(0.25, 0.0, 0.0));
    assert!(sphere.hit(&plain_crossing(-0.5, 2.0, 4.0), n(0.001), n(100.0)).is_none());
    assert!(sphere.hit(&plain_crossing(1.0, -4.0, -2.0), n(0.001), n(100.0)).is_none());
    assert!(sphere.hit(&plain_crossing(1.0, 2.0, 4.0), n(0.001), n(1.5)).is_none());
    assert!(sphere.hit(&plain_crossing(1.0, 2.0, 4.0), n(2.5), n(3.5)).is_none());
    assert!(sphere.hit(&plain_crossing(1.0, 2.0, 4.0), n(5.0), n(100.0)).is_none());
    assert!(sphere.hit(&plain_crossing(0.0, 2.0, 2.0), n(0.001), n(100.0)).is_some());
    assert!(sphere.hit(&plain_crossing(-0.0, 2.0, 2.0), n(0.001), n(100.0)).is_some());
}

#[test]
fn sphere_hit_of_a_tangent_ray_misses_by_discriminant() {
    let center = (0.0, 2.0, -3.0);
    let sphere = ball(center, 1.0, matte(0.5, 0.5, 0.5));
    let c = crossing(center, 1.0, (0.0, 0.0, 0.0), (0.0, 0.0, -1.0));
    assert!(f(c.discriminant) < 0.0);
    assert!(sphere.hit(&c, n(0.001), n(f32::INFINITY)).is_none());
}

#[test]
fn set_face_normal_front_and_back() {
    let mut h = HitRecord::default();
    h.t = n(3.0);
    h.set_face_normal(n(-0.5), v((0.0, 1.0, 0.0)));
    assert!(h.front_face);
    assert_eq!(triple(h.normal), (0.0, 1.0, 0.0));
    h.set_face_normal(n(0.5), v((0.0, 1.0, 0.0)));
    assert!(!h.front_face);
    assert_eq!(triple(h.normal), (0.0, -1.0, 0.0));
    h.set_face_normal(n(0.0), v((0.0, 1.0, 0.0)));
    assert!(!h.front_face);
    assert_eq!(triple(h.normal), (0.0, -1.0, 0.0));
    h.set_face_normal(n(f32::NAN), v((0.0, 1.0, 0.0)));
    assert!(!h.front_face);
    assert_eq!(f(h.t), 3.0);
}

#[test]
fn hit_record_default_is_zeroed() {
    let h = HitRecord::default();
    assert_eq!(triple(h.point), (0.0, 0.0, 0.0));
    assert_eq!(triple(h.normal), (0.0, 0.0, 0.0));
    assert_eq!(h.t.to_bits(), 0);
    assert_eq!(h.u.to_bits(), 0);
    assert_eq!(h.v.to_bits(), 0);
    assert!(!h.front_face);
    assert!(is_matte(&h, 0.0));
}

#[test]
fn empty_scene_is_never_hit() {
    let world = HittableList::new();
    assert!(world.list.is_empty());
    assert!(world.hit(&Vec::new(), n(0.001), n(f32::INFINITY)).is_none());
    assert!(world.hit(&vec![plain_crossing(1.0, 2.0, 4.0)], n(0.001), n(f32::INFINITY)).is_none());
}

#[test]
fn scene_reports_the_nearest_whatever_the_order() {
    let crossings = [
        (plain_crossing(1.0, 5.0, 6.0), 0.5_f32),
        (plain_crossing(1.0, 2.0, 9.0), 0.25),
        (plain_crossing(-1.0, 1.0, 1.5), 0.75),
        (plain_crossing(1.0, 3.0, 4.0), 1.0),
    ];
    let orders: [[usize; 4]; 4] = [[0, 1, 2, 3], [3, 2, 1, 0], [1, 0, 3, 2], [2, 3, 0, 1]];
    for order in orders.iter() {
        let mut world = HittableList::new();
        let mut probe = Vec::new();
        for &i in order.iter() {
            world.list.push(ball((0.0, 0.0, 0.0), 1.0, matte(crossings[i].1, 0.0, 0.0)));
            probe.push(crossings[i].0);
        }
        let h = world.hit(&probe, n(0.001), n(f32::INFINITY)).unwrap();
        assert_eq!(f(h.t), 2.0);
        assert!(is_matte(&h, 0.25));
    }
}

#[test]
fn scene_with_equal_hits_reports_the_later_sphere() {
    let mut world = HittableList::new();
    world.list.push(ball((0.0, 0.0, 0.0), 1.0, matte(0.25, 0.0, 0.0)));
    world.list.push(ball((0.0, 0.0, 0.0), 1.0, matte(0.5, 0.0, 0.0)));
    let probe = vec![plain_crossing(1.0, 2.0, 4.0), plain_crossing(1.0, 2.0, 3.0)];
    let h = world.hit(&probe, n(0.001), n(f32::INFINITY)).unwrap();
    assert_eq!(f(h.t), 2.0);
    assert!(is_matte(&h, 0.5));
}

#[test]
fn scene_respects_the_interval() {
    let mut world = HittableList::new();
    world.list.push(ball((0.0, 0.0, 0.0), 1.0, matte(0.25, 0.0, 0.0)));
    world.list.push(ball((0.0, 0.0, 0.0), 1.0, matte(0.5, 0.0, 0.0)));
    let probe = vec![plain_crossing(1.0, 2.0, 4.0), plain_crossing(1.0, 6.0, 8.0)];
    assert!(world.hit(&probe, n(0.001), n(1.0)).is_none());
    assert!(world.hit(&probe, n(9.0), n(20.0)).is_none());
    let far_only = world.hit(&probe, n(5.0), n(20.0)).unwrap();
    assert_eq!(f(far_only.t), 6.0);
    let inner = world.hit(&probe, n(3.0), n(5.0)).unwrap();
    assert_eq!(f(inner.t), 4.0);
    assert!(is_matte(&inner, 0.25));
}

#[test]
fn scene_visits_only_spheres_with_a_crossing() {
    let mut world = HittableList::new();
    world.list.push(ball((0.0, 0.0, 0.0), 1.0, matte(0.25, 0.0, 0.0)));
    world.list.push(ball((0.0, 0.0, 0.0), 1.0, matte(0.5, 0.0, 0.0)));
    let short = vec![plain_crossing(1.0, 5.0, 6.0)];
    let h = world.hit(&short, n(0.001), n(f32::INFINITY)).unwrap();
    assert_eq!(f(h.t), 5.0);
    assert!(is_matte(&h, 0.25));
    let long = vec![
        plain_crossing(1.0, 5.0, 6.0),
        plain_crossing(1.0, 7.0, 8.0),
        plain_crossing(1.0, 1.0, 2.0),
    ];
    let h = world.hit(&long, n(0.001), n(f32::INFINITY)).unwrap();
    assert_eq!(f(h.t), 5.0);
}

#[test]
fn scene_of_real_spheres_finds_the_front_one() {
    let origin = (0.0, 0.0, 0.0);
    let direction = (0.0, 0.0, -1.0);
    let balls = [((0.0, 0.0, -10.0), 1.0_f32, 0.1_f32), ((0.0, 0.0, -5.0), 1.0, 0.2), ((0.0, 5.0, -2.0), 1.0, 0.3)];
    let mut world = HittableList::new();
    let mut probe = Vec::new();
    for &(center, radius, shade) in balls.iter() {
        world.list.push(ball(center, radius, matte(shade, 0.0, 0.0)));
        probe.push(crossing(center, radius, origin, direction));
    }
    let h = world.hit(&probe, n(0.001), n(f32::INFINITY)).unwrap();
    assert_eq!(f(h.t), 4.0);
    assert!(is_matte(&h, 0.2));
    assert!(h.front_face);
    assert_eq!(triple(h.normal), (0.0, 0.0, 1.0));
}

#[test]
fn point_along_a_ray_starts_at_the_origin_and_moves_evenly() {
    let ray = Ray::new(v((1.0, 2.0, 3.0)), v((0.5, -1.0, 2.0)));
    let origin = triple(ray.origin());
    let direction = triple(ray.direction());
    assert_eq!(along(origin, direction, 0.0), (1.0, 2.0, 3.0));
    assert_eq!(along(origin, direction, 1.0), (1.5, 1.0, 5.0));
    assert_eq!(along(origin, direction, 2.0), (2.0, 0.0, 7.0));
    assert_eq!(along(origin, direction, -2.0), (0.0, 4.0, -1.0));
    let step = sub(along(origin, direction, 3.0), along(origin, direction, 2.0));
    assert_eq!(step, direction);
}
