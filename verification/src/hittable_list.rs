//! Scenes: a list of spheres, and the search for the nearest hit.
use vstd::prelude::*;
use crate::hittable::{HitRecord, Hittable};
use crate::scalar::Scalar;
use crate::sphere::{within, Crossing, Sphere};

verus! {

/// A scene. The order of the spheres does not matter to what a ray hits
/// first, except where two spheres are hit at the same parameter: then the
/// later one is reported.
pub struct HittableList {
    pub list: Vec<Sphere>,
}

impl View for HittableList {
    type V = Seq<Sphere>;

    open spec fn view(&self) -> Seq<Sphere> {
        self.list@
    }
}

/// The upper end of the interval that remains after a scan: the parameter of
/// the hit found so far, or `t_max` while there is none.
pub open spec fn closest_yet(found: Option<HitRecord>, t_max: Scalar) -> Scalar {
    match found {
        Some(h) => h.t,
        None => t_max,
    }
}

/// The hit that a scan of the first `n` spheres ends with. Sphere `i` is
/// tried with crossing `i`, in the interval from `t_min` to the hit found
/// before it, so that a later sphere replaces an earlier one only where it
/// is hit no farther away.
pub open spec fn nearest(
    spheres: Seq<Sphere>,
    crossings: Seq<Crossing>,
    t_min: Scalar,
    t_max: Scalar,
    n: nat,
) -> Option<HitRecord>
    decreases n,
{
    if n == 0 {
        None
    } else {
        let before = nearest(spheres, crossings, t_min, t_max, (n - 1) as nat);
        match spheres[n - 1].hit_spec(&crossings[n - 1], t_min, closest_yet(before, t_max)) {
            Some(h) => Some(h),
            None => before,
        }
    }
}

/// How many spheres a scan visits: those that have a crossing.
pub open spec fn visited(spheres: Seq<Sphere>, crossings: Seq<Crossing>) -> nat {
    if spheres.len() <= crossings.len() {
        spheres.len()
    } else {
        crossings.len()
    }
}

impl HittableList {
    /// The empty scene.
    pub fn new() -> (r: HittableList)
        ensures
            r@ == Seq::<Sphere>::empty(),
    {
        HittableList { list: Vec::new() }
    }
}

impl Hittable for HittableList {
    type Probe = Vec<Crossing>;

    open spec fn hit_spec(&self, probe: &Vec<Crossing>, t_min: Scalar, t_max: Scalar) -> Option<
        HitRecord,
    > {
        nearest(self@, probe@, t_min, t_max, visited(self@, probe@))
    }

    /// The nearest hit of a ray on the scene within the interval from
    /// `t_min` to `t_max`, if there is one. `probe` holds one crossing for
    /// each sphere, in the order of the list; a sphere without a crossing is
    /// not hit. An empty scene is never hit.
    fn hit(&self, probe: &Vec<Crossing>, t_min: Scalar, t_max: Scalar) -> (r: Option<HitRecord>)
        ensures
            r == self.hit_spec(probe, t_min, t_max),
            self@.len() == 0 ==> r is None,
    {
        let mut hit_record: Option<HitRecord> = None;
        let mut closest: Scalar = t_max;
        let n: usize = if self.list.len() <= probe.len() {
            self.list.len()
        } else {
            probe.len()
        };
        let mut i: usize = 0;
        while i < n
            invariant
                i <= n,
                n == visited(self@, probe@),
                hit_record == nearest(self@, probe@, t_min, t_max, i as nat),
                closest == closest_yet(hit_record, t_max),
            decreases n - i,
        {
            if let Some(hit_rec) = self.list[i].hit(&probe[i], t_min, closest) {
                closest = hit_rec.t;
                hit_record = Some(hit_rec);
            }
            i += 1;
        }
        hit_record
    }
}

/// The hit of sphere `i` taken alone, within the whole interval.
pub open spec fn alone(
    spheres: Seq<Sphere>,
    crossings: Seq<Crossing>,
    t_min: Scalar,
    t_max: Scalar,
    i: int,
) -> Option<HitRecord> {
    spheres[i].hit_spec(&crossings[i], t_min, t_max)
}

/// Narrowing the interval from above changes nothing about a sphere's hit
/// but whether it is still inside.
proof fn lemma_narrowed(sphere: Sphere, crossing: Crossing, t_min: Scalar, bound: Scalar, t_max: Scalar)
    requires
        crossing.ordered(),
        bound.at_most(t_max),
    ensures
        sphere.hit_spec(&crossing, t_min, bound) == match sphere.hit_spec(&crossing, t_min, t_max) {
            Some(h) => if bound.less(h.t) {
                None
            } else {
                Some(h)
            },
            None => None,
        },
{
}

proof fn lemma_scan(
    spheres: Seq<Sphere>,
    crossings: Seq<Crossing>,
    t_min: Scalar,
    t_max: Scalar,
    n: nat,
)
    requires
        n <= spheres.len(),
        n <= crossings.len(),
        !t_max.nan(),
        forall|i: int| 0 <= i < n ==> (#[trigger] crossings[i]).ordered(),
    ensures
        closest_yet(nearest(spheres, crossings, t_min, t_max, n), t_max).at_most(t_max),
        match nearest(spheres, crossings, t_min, t_max, n) {
            None => forall|i: int|
                0 <= i < n ==> #[trigger] alone(spheres, crossings, t_min, t_max, i) is None,
            Some(h) => {
                &&& within(h.t, t_min, t_max)
                &&& exists|i: int|
                    0 <= i < n && #[trigger] alone(spheres, crossings, t_min, t_max, i) == Some(h)
                &&& forall|j: int|
                    0 <= j < n ==> (#[trigger] alone(spheres, crossings, t_min, t_max, j) matches Some(
                        other,
                    ) ==> h.t.at_most(other.t))
            },
        },
    decreases n,
{
    if n > 0 {
        let m = (n - 1) as nat;
        lemma_scan(spheres, crossings, t_min, t_max, m);
        let before = nearest(spheres, crossings, t_min, t_max, m);
        let bound = closest_yet(before, t_max);
        assert(crossings[m as int].ordered());
        lemma_narrowed(spheres[m as int], crossings[m as int], t_min, bound, t_max);
        let own = alone(spheres, crossings, t_min, t_max, m as int);
        let after = nearest(spheres, crossings, t_min, t_max, n);
        match after {
            None => {
                assert forall|i: int| 0 <= i < n implies #[trigger] alone(
                    spheres,
                    crossings,
                    t_min,
                    t_max,
                    i,
                ) is None by {
                    if i < m {
                    } else {
                        assert(i == m);
                    }
                }
            },
            Some(h) => {
                if spheres[m as int].hit_spec(&crossings[m as int], t_min, bound) is Some {
                    assert(own == Some(h));
                    assert(alone(spheres, crossings, t_min, t_max, m as int) == Some(h));
                } else {
                    assert(before == Some(h));
                    let k = choose|i: int|
                        0 <= i < m && #[trigger] alone(spheres, crossings, t_min, t_max, i) == Some(
                            h,
                        );
                    assert(0 <= k < n && alone(spheres, crossings, t_min, t_max, k) == Some(h));
                }
                assert forall|j: int| 0 <= j < n implies (#[trigger] alone(
                    spheres,
                    crossings,
                    t_min,
                    t_max,
                    j,
                ) matches Some(other) ==> h.t.at_most(other.t)) by {
                    if j < m {
                    } else {
                        assert(j == m);
                    }
                }
            },
        }
    }
}

/// A scan reports the nearest hit of the scene.
///
/// Where every crossing has its roots in order and `t_max` is a number: the
/// scan reports nothing exactly when no sphere, taken alone, is hit within
/// the interval; and what it reports lies in the interval and is the hit of
/// one of the spheres taken alone, at a parameter that is at most that of
/// every sphere's own hit.
pub proof fn lemma_hit_is_nearest(
    scene: HittableList,
    probe: Vec<Crossing>,
    t_min: Scalar,
    t_max: Scalar,
)
    requires
        !t_max.nan(),
        forall|i: int| 0 <= i < probe@.len() ==> (#[trigger] probe@[i]).ordered(),
    ensures
        match scene.hit_spec(&probe, t_min, t_max) {
            None => forall|i: int|
                0 <= i < visited(scene@, probe@) ==> #[trigger] alone(
                    scene@,
                    probe@,
                    t_min,
                    t_max,
                    i,
                ) is None,
            Some(h) => {
                &&& within(h.t, t_min, t_max)
                &&& exists|i: int|
                    0 <= i < visited(scene@, probe@) && #[trigger] alone(
                        scene@,
                        probe@,
                        t_min,
                        t_max,
                        i,
                    ) == Some(h)
                &&& forall|j: int|
                    0 <= j < visited(scene@, probe@) ==> (#[trigger] alone(
                        scene@,
                        probe@,
                        t_min,
                        t_max,
                        j,
                    ) matches Some(other) ==> h.t.at_most(other.t))
            },
        },
{
    lemma_scan(scene@, probe@, t_min, t_max, visited(scene@, probe@));
}

/// A reported hit carries the material of one of the spheres.
pub proof fn lemma_hit_carries_a_sphere_material(
    spheres: Seq<Sphere>,
    crossings: Seq<Crossing>,
    t_min: Scalar,
    t_max: Scalar,
    n: nat,
)
    requires
        n <= spheres.len(),
        n <= crossings.len(),
    ensures
        nearest(spheres, crossings, t_min, t_max, n) matches Some(h) ==> exists|i: int|
            0 <= i < n && h.material == (#[trigger] spheres[i]).material,
    decreases n,
{
    if n > 0 {
        let m = (n - 1) as nat;
        lemma_hit_carries_a_sphere_material(spheres, crossings, t_min, t_max, m);
        let before = nearest(spheres, crossings, t_min, t_max, m);
        let own = spheres[m as int].hit_spec(
            &crossings[m as int],
            t_min,
            closest_yet(before, t_max),
        );
        if let Some(h) = own {
            assert(h.material == spheres[m as int].material);
        } else if let Some(h) = before {
            let i = choose|i: int| 0 <= i < m && h.material == (#[trigger] spheres[i]).material;
            assert(0 <= i < n && h.material == spheres[i].material);
        }
    }
}

/// Whether a sphere with its crossing is among the first `n` of a scene.
pub open spec fn occurs(
    spheres: Seq<Sphere>,
    crossings: Seq<Crossing>,
    n: nat,
    sphere: Sphere,
    crossing: Crossing,
) -> bool {
    exists|j: int| 0 <= j < n && #[trigger] spheres[j] == sphere && crossings[j] == crossing
}

/// The order of the spheres does not matter to how far away the nearest hit
/// is.
///
/// Take two scenes that hold the same spheres, each with the same crossing,
/// in any order and any number of times. Where the roots of every crossing
/// are in order and `t_max` is a number, either both scans report nothing,
/// or both report a hit, at parameters that are equal as numbers.
pub proof fn lemma_order_is_irrelevant(
    a: HittableList,
    probe_a: Vec<Crossing>,
    b: HittableList,
    probe_b: Vec<Crossing>,
    t_min: Scalar,
    t_max: Scalar,
)
    requires
        !t_max.nan(),
        forall|i: int| 0 <= i < probe_a@.len() ==> (#[trigger] probe_a@[i]).ordered(),
        forall|i: int| 0 <= i < probe_b@.len() ==> (#[trigger] probe_b@[i]).ordered(),
        forall|i: int|
            0 <= i < visited(a@, probe_a@) ==> occurs(
                b@,
                probe_b@,
                visited(b@, probe_b@),
                #[trigger] a@[i],
                probe_a@[i],
            ),
        forall|i: int|
            0 <= i < visited(b@, probe_b@) ==> occurs(
                a@,
                probe_a@,
                visited(a@, probe_a@),
                #[trigger] b@[i],
                probe_b@[i],
            ),
    ensures
        match (a.hit_spec(&probe_a, t_min, t_max), b.hit_spec(&probe_b, t_min, t_max)) {
            (None, None) => true,
            (Some(h), Some(k)) => h.t.same(k.t),
            _ => false,
        },
{
    let na = visited(a@, probe_a@);
    let nb = visited(b@, probe_b@);
    lemma_scan(a@, probe_a@, t_min, t_max, na);
    lemma_scan(b@, probe_b@, t_min, t_max, nb);
    let ra = a.hit_spec(&probe_a, t_min, t_max);
    let rb = b.hit_spec(&probe_b, t_min, t_max);
    if let Some(h) = ra {
        let i = choose|i: int|
            0 <= i < na && #[trigger] alone(a@, probe_a@, t_min, t_max, i) == Some(h);
        assert(occurs(b@, probe_b@, nb, a@[i], probe_a@[i]));
        let j = choose|j: int|
            0 <= j < nb && #[trigger] b@[j] == a@[i] && probe_b@[j] == probe_a@[i];
        assert(alone(b@, probe_b@, t_min, t_max, j) == Some(h));
    }
    if let Some(k) = rb {
        let j = choose|j: int|
            0 <= j < nb && #[trigger] alone(b@, probe_b@, t_min, t_max, j) == Some(k);
        assert(occurs(a@, probe_a@, na, b@[j], probe_b@[j]));
        let i = choose|i: int|
            0 <= i < na && #[trigger] a@[i] == b@[j] && probe_a@[i] == probe_b@[j];
        assert(alone(a@, probe_a@, t_min, t_max, i) == Some(k));
    }
}

} // verus!
