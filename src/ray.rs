use vstd::prelude::*;
use crate::fixed::{
    fx_add, fx_div, fx_mul, fx_sqrt, fx_sub, spec_add, spec_div, spec_mul, spec_sqrt, spec_sub,
    SCALE,
};
use crate::material::Material;
use crate::matrix::{apply_rows, transpose_rows, Matrix};
use crate::tuple::{point, tuple_add, tuple_dot, tuple_normalize, tuple_scale, tuple_sub, Tuple};

verus! {

/// A half-line: the points `origin + t * direction`.
#[derive(Clone, Copy, Debug, PartialEq, Eq, Structural)]
pub struct Ray {
    pub origin: Tuple,
    pub direction: Tuple,
}

/// A hit at parameter `t` on the object whose handle is `object`.
#[derive(Clone, Copy, Debug, PartialEq, Eq, Structural)]
pub struct Intersection {
    pub t: i64,
    pub object: usize,
}

/// The unit sphere at the origin, placed in the scene by `transform`; `inverse` undoes it.
#[derive(Debug)]
pub struct Sphere {
    pub transform: Matrix,
    pub inverse: Matrix,
    pub material: Material,
}

/// What shading needs at a hit: the point, the unit vector toward the eye and the unit
/// surface normal, with the handle of the object hit.
#[derive(Clone, Copy, Debug, PartialEq, Eq, Structural)]
pub struct Computation {
    pub t: i64,
    pub object: usize,
    pub point: Tuple,
    pub eyev: Tuple,
    pub normalv: Tuple,
}

pub open spec fn origin_point() -> Tuple {
    Tuple { x: 0, y: 0, z: 0, w: SCALE }
}

pub open spec fn ray_position(r: Ray, t: int) -> Tuple {
    tuple_add(r.origin, tuple_scale(r.direction, t))
}

pub open spec fn ray_transform(r: Ray, m: Seq<Seq<i64>>) -> Ray {
    Ray { origin: apply_rows(m, r.origin), direction: apply_rows(m, r.direction) }
}

/// The discriminant `b * b - 4 * a * c` of the ray's quadratic against the unit sphere.
pub open spec fn discriminant(r: Ray) -> int {
    let sr = tuple_sub(r.origin, origin_point());
    let a = tuple_dot(r.direction, r.direction);
    let d = tuple_dot(r.direction, sr);
    let b = spec_add(d, d);
    let c = spec_sub(tuple_dot(sr, sr), SCALE as int);
    spec_sub(spec_mul(b, b), spec_mul(spec_mul(4 * SCALE, a), c))
}

/// The parameters at which a ray meets the unit sphere at the origin: none when the
/// discriminant is negative, else the two roots of the quadratic, smaller first.
pub open spec fn unit_sphere_times(r: Ray) -> Seq<int> {
    let sr = tuple_sub(r.origin, origin_point());
    let a = tuple_dot(r.direction, r.direction);
    let d = tuple_dot(r.direction, sr);
    let b = spec_add(d, d);
    let disc = discriminant(r);
    if disc < 0 {
        seq![]
    } else {
        let root = spec_sqrt(disc);
        let two_a = spec_add(a, a);
        let neg_b = spec_sub(0, b);
        let t1 = spec_div(spec_sub(neg_b, root), two_a);
        let t2 = spec_div(spec_add(neg_b, root), two_a);
        if t1 <= t2 {
            seq![t1, t2]
        } else {
            seq![t2, t1]
        }
    }
}

/// The hits of `r` on sphere `s`, tagged with the handle `id`.
pub open spec fn sphere_hits(s: &Sphere, r: Ray, id: usize) -> Seq<Intersection> {
    unit_sphere_times(ray_transform(r, s.inverse.rows())).map_values(
        |t: int| Intersection { t: t as i64, object: id },
    )
}

/// The unit normal of sphere `s` at a point of its surface, in scene space.
pub open spec fn sphere_normal(s: &Sphere, p: Tuple) -> Tuple {
    let object_point = apply_rows(s.inverse.rows(), p);
    let object_normal = tuple_sub(object_point, origin_point());
    let n = apply_rows(transpose_rows(s.inverse.rows()), object_normal);
    tuple_normalize(Tuple { w: 0, ..n })
}

impl Sphere {
    pub open spec fn wf(&self) -> bool {
        self.transform.wf() && self.transform.size() == 4 && self.inverse.wf()
            && self.inverse.size() == 4
    }

    /// The unit sphere at the origin, with the default material.
    pub fn init() -> (r: Sphere)
        ensures
            r.wf(),
            r.transform.rows() == crate::matrix::identity_rows(4),
            r.inverse.rows() == crate::matrix::identity_rows(4),
            r.material == Material::init_spec(),
    {
        Sphere {
            transform: Matrix::identity(4),
            inverse: Matrix::identity(4),
            material: Material::init(),
        }
    }

    /// The same sphere placed by `transform`, whose inverse the caller gives as `inverse`.
    pub fn with_transform(self, transform: Matrix, inverse: Matrix) -> (r: Sphere)
        requires
            transform.wf(),
            transform.size() == 4,
            inverse.wf(),
            inverse.size() == 4,
        ensures
            r.wf(),
            r.transform.rows() == transform.rows(),
            r.inverse.rows() == inverse.rows(),
            r.material == self.material,
    {
        Sphere { transform, inverse, material: self.material }
    }

    /// The same sphere with another material.
    pub fn with_material(self, material: Material) -> (r: Sphere)
        ensures
            r.transform.rows() == self.transform.rows(),
            r.inverse.rows() == self.inverse.rows(),
            r.material == material,
            self.wf() ==> r.wf(),
    {
        Sphere { transform: self.transform, inverse: self.inverse, material }
    }

    /// The unit surface normal at `p`: the object-space normal carried back by the
    /// transpose of the inverse transform.
    pub fn normal_at(&self, p: Tuple) -> (r: Tuple)
        requires
            self.wf(),
        ensures
            r == sphere_normal(self, p),
    {
        let object_point = self.inverse.apply(p);
        let object_normal = object_point.sub(point(0, 0, 0));
        let n = self.inverse.transpose().apply(object_normal);
        Tuple { w: 0, ..n }.normalize()
    }
}

impl Ray {
    pub fn new(origin: Tuple, direction: Tuple) -> (r: Ray)
        ensures
            r == (Ray { origin, direction }),
    {
        Ray { origin, direction }
    }

    /// The point at parameter `t`.
    pub fn position(&self, t: i64) -> (r: Tuple)
        ensures
            r == ray_position(*self, t as int),
    {
        self.origin.add(self.direction.scale(t))
    }

    /// The ray with origin and direction both moved by `m`.
    pub fn transform(&self, m: &Matrix) -> (r: Ray)
        requires
            m.wf(),
            m.size() == 4,
        ensures
            r == ray_transform(*self, m.rows()),
    {
        Ray { origin: m.apply(self.origin), direction: m.apply(self.direction) }
    }

    /// Where this ray meets `sphere`, in ascending order of `t`, each hit tagged `id`.
    /// Hits behind the origin (negative `t`) are kept.
    pub fn intersect(&self, sphere: &Sphere, id: usize) -> (r: Vec<Intersection>)
        requires
            sphere.wf(),
        ensures
            r@ == sphere_hits(sphere, *self, id),
    {
        let local = self.transform(&sphere.inverse);
        let sr = local.origin.sub(point(0, 0, 0));
        let a = local.direction.dot(local.direction);
        let d = local.direction.dot(sr);
        let b = fx_add(d, d);
        let c = fx_sub(sr.dot(sr), SCALE);
        let disc = fx_sub(fx_mul(b, b), fx_mul(fx_mul(4 * SCALE, a), c));
        proof {
            assert(disc == discriminant(local));
        }
        let ghost times = unit_sphere_times(local);
        let mut hits: Vec<Intersection> = Vec::new();
        if disc < 0 {
            assert(hits@ =~= times.map_values(|t: int| Intersection { t: t as i64, object: id }));
            return hits;
        }
        let root = fx_sqrt(disc);
        let two_a = fx_add(a, a);
        let neg_b = fx_sub(0, b);
        let t1 = fx_div(fx_sub(neg_b, root), two_a);
        let t2 = fx_div(fx_add(neg_b, root), two_a);
        if t1 <= t2 {
            hits.push(Intersection { t: t1, object: id });
            hits.push(Intersection { t: t2, object: id });
        } else {
            hits.push(Intersection { t: t2, object: id });
            hits.push(Intersection { t: t1, object: id });
        }
        assert(hits@ =~= times.map_values(|t: int| Intersection { t: t as i64, object: id }));
        hits
    }
}

} // verus!
