use vstd::prelude::*;
use vstd::seq_lib::{to_multiset_build, to_multiset_insert};
use crate::color::Color;
use crate::light::{lighting, lighting_spec, Light};
use crate::material::Material;
use crate::matrix::{identity_rows, scaling_rows, Matrix};
use crate::ray::{ray_position, sphere_hits, sphere_normal, Computation, Intersection, Ray, Sphere};
use crate::tuple::{point, tuple_negate, Tuple};

verus! {

/// A scene: the objects in it and the single light that shines on them.
#[derive(Debug)]
pub struct World {
    pub objects: Vec<Sphere>,
    pub light: Light,
}

/// Hits of `r` on the first `n` objects, object by object, each tagged with its index.
pub open spec fn all_hits(objects: Seq<Sphere>, r: Ray, n: nat) -> Seq<Intersection>
    decreases n,
{
    if n == 0 {
        seq![]
    } else {
        all_hits(objects, r, (n - 1) as nat) + sphere_hits(&objects[n - 1], r, (n - 1) as usize)
    }
}

pub open spec fn sorted_by_t(s: Seq<Intersection>) -> bool {
    forall|a: int, b: int| 0 <= a < b < s.len() ==> s[a].t <= s[b].t
}

/// The light of a new scene: white, at (-10, 10, -10).
pub open spec fn default_light() -> Light {
    Light {
        position: Tuple { x: -10_000_000i64, y: 10_000_000, z: -10_000_000i64, w: 1_000_000 },
        intensity: Color { red: 1_000_000, green: 1_000_000, blue: 1_000_000 },
    }
}

/// The material of the outer sphere of the default scene.
pub open spec fn outer_material() -> Material {
    Material {
        ambient: 100_000,
        diffuse: 700_000,
        specular: 200_000,
        shininess: 200,
        color: Color { red: 800_000, green: 1_000_000, blue: 600_000 },
    }
}

impl World {
    pub open spec fn wf(&self) -> bool {
        forall|i: int| 0 <= i < self.objects@.len() ==> #[trigger] self.objects@[i].wf()
    }

    /// An empty scene lit by the default light.
    pub fn new() -> (r: World)
        ensures
            r.wf(),
            r.objects@.len() == 0,
            r.light == default_light(),
    {
        let light = Light {
            position: point(-10_000_000, 10_000_000, -10_000_000),
            intensity: Color::new(1_000_000, 1_000_000, 1_000_000),
        };
        World { objects: Vec::new(), light }
    }

    /// The default light and two spheres at the origin: a unit one with a green-ish
    /// material, and one of radius one half with the default material.
    pub fn default() -> (r: World)
        ensures
            r.wf(),
            r.light == default_light(),
            r.objects@.len() == 2,
            r.objects@[0].material == outer_material(),
            r.objects@[0].transform.rows() == identity_rows(4),
            r.objects@[0].inverse.rows() == identity_rows(4),
            r.objects@[1].material == Material::init_spec(),
            r.objects@[1].transform.rows() == scaling_rows(500_000, 500_000, 500_000),
            r.objects@[1].inverse.rows() == scaling_rows(2_000_000, 2_000_000, 2_000_000),
    {
        let mut world = World::new();
        let material = Material {
            ambient: 100_000,
            diffuse: 700_000,
            specular: 200_000,
            shininess: 200,
            color: Color::new(800_000, 1_000_000, 600_000),
        };
        let s1 = Sphere::init().with_material(material);
        let s2 = Sphere::init().with_transform(
            Matrix::scaling(500_000, 500_000, 500_000),
            Matrix::scaling(2_000_000, 2_000_000, 2_000_000),
        );
        world.objects.push(s1);
        world.objects.push(s2);
        world
    }

    /// Every hit of `ray` on every object, tagged with the object's index, in ascending
    /// order of `t`.
    pub fn intersect(&self, ray: &Ray) -> (r: Vec<Intersection>)
        requires
            self.wf(),
        ensures
            sorted_by_t(r@),
            r@.to_multiset() == all_hits(self.objects@, *ray, self.objects@.len()).to_multiset(),
    {
        let mut collected: Vec<Intersection> = Vec::new();
        let mut i: usize = 0;
        while i < self.objects.len()
            invariant
                self.wf(),
                i <= self.objects@.len(),
                collected@ == all_hits(self.objects@, *ray, i as nat),
            decreases self.objects@.len() - i,
        {
            let mut hits = ray.intersect(&self.objects[i], i);
            collected.append(&mut hits);
            i += 1;
        }
        let mut sorted: Vec<Intersection> = Vec::new();
        let mut k: usize = 0;
        assert(sorted@ =~= collected@.subrange(0, 0));
        while k < collected.len()
            invariant
                k <= collected@.len(),
                sorted_by_t(sorted@),
                sorted@.to_multiset() == collected@.subrange(0, k as int).to_multiset(),
            decreases collected@.len() - k,
        {
            let item = collected[k];
            let mut p: usize = 0;
            while p < sorted.len() && sorted[p].t <= item.t
                invariant
                    p <= sorted@.len(),
                    forall|q: int| 0 <= q < p ==> #[trigger] sorted@[q].t <= item.t,
                decreases sorted@.len() - p,
            {
                p += 1;
            }
            let ghost before = sorted@;
            sorted.insert(p, item);
            proof {
                before.insert_ensures(p as int, item);
                let after = sorted@;
                assert forall|a: int, b: int| 0 <= a < b < after.len() implies after[a].t
                    <= after[b].t by {
                    if b < p {
                    } else if b == p {
                    } else if a < p {
                        assert(after[b] == before[b - 1]);
                    } else if a == p {
                        assert(after[b] == before[b - 1]);
                        assert(before[p as int].t > item.t);
                    } else {
                        assert(after[a] == before[a - 1]);
                        assert(after[b] == before[b - 1]);
                    }
                }
                to_multiset_insert(before, p as int, item);
                assert(collected@.subrange(0, k + 1) =~= collected@.subrange(0, k as int).push(
                    item,
                ));
                to_multiset_build(collected@.subrange(0, k as int), item);
            }
            k += 1;
        }
        assert(collected@.subrange(0, collected@.len() as int) =~= collected@);
        sorted
    }

    /// The shading context of `hit` on `ray`: where it lies, the way back to the eye and
    /// the surface normal of the object hit.
    pub fn prepare_computations(&self, hit: Intersection, ray: &Ray) -> (r: Computation)
        requires
            self.wf(),
            hit.object < self.objects@.len(),
        ensures
            r.t == hit.t,
            r.object == hit.object,
            r.point == ray_position(*ray, hit.t as int),
            r.eyev == tuple_negate(ray.direction),
            r.normalv == sphere_normal(&self.objects@[hit.object as int], r.point),
    {
        let p = ray.position(hit.t);
        let normalv = self.objects[hit.object].normal_at(p);
        Computation { t: hit.t, object: hit.object, point: p, eyev: ray.direction.negate(), normalv }
    }

    /// The color at a prepared hit under the scene's light, by the Phong model.
    pub fn shade_hit(&self, comps: &Computation) -> (r: Color)
        requires
            comps.object < self.objects@.len(),
        ensures
            r == lighting_spec(
                self.objects@[comps.object as int].material,
                self.light,
                comps.point,
                comps.eyev,
                comps.normalv,
            ),
    {
        lighting(&self.objects[comps.object].material, &self.light, comps.point, comps.eyev, comps.normalv)
    }
}

} // verus!
