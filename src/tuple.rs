use vstd::prelude::*;
use crate::fixed::{
    fx_add, fx_div, fx_mul, fx_sqrt, fx_sub, spec_add, spec_div, spec_mul, spec_sqrt, spec_sub,
    SCALE,
};

verus! {

/// A point (`w` is one whole unit) or a vector (`w` is zero) in fixed-point coordinates.
#[derive(Clone, Copy, Debug, PartialEq, Eq, Structural)]
pub struct Tuple {
    pub x: i64,
    pub y: i64,
    pub z: i64,
    pub w: i64,
}

pub open spec fn tuple_add(a: Tuple, b: Tuple) -> Tuple {
    Tuple {
        x: spec_add(a.x as int, b.x as int) as i64,
        y: spec_add(a.y as int, b.y as int) as i64,
        z: spec_add(a.z as int, b.z as int) as i64,
        w: spec_add(a.w as int, b.w as int) as i64,
    }
}

pub open spec fn tuple_sub(a: Tuple, b: Tuple) -> Tuple {
    Tuple {
        x: spec_sub(a.x as int, b.x as int) as i64,
        y: spec_sub(a.y as int, b.y as int) as i64,
        z: spec_sub(a.z as int, b.z as int) as i64,
        w: spec_sub(a.w as int, b.w as int) as i64,
    }
}

/// Every component multiplied by the scalar `k`.
pub open spec fn tuple_scale(a: Tuple, k: int) -> Tuple {
    Tuple {
        x: spec_mul(a.x as int, k) as i64,
        y: spec_mul(a.y as int, k) as i64,
        z: spec_mul(a.z as int, k) as i64,
        w: spec_mul(a.w as int, k) as i64,
    }
}

pub open spec fn tuple_dot(a: Tuple, b: Tuple) -> int {
    spec_add(
        spec_add(
            spec_add(spec_mul(a.x as int, b.x as int), spec_mul(a.y as int, b.y as int)),
            spec_mul(a.z as int, b.z as int),
        ),
        spec_mul(a.w as int, b.w as int),
    )
}

pub open spec fn tuple_magnitude(a: Tuple) -> int {
    spec_sqrt(tuple_dot(a, a))
}

/// Every component divided by the length; the zero tuple for a zero length.
pub open spec fn tuple_normalize(a: Tuple) -> Tuple {
    let m = tuple_magnitude(a);
    Tuple {
        x: spec_div(a.x as int, m) as i64,
        y: spec_div(a.y as int, m) as i64,
        z: spec_div(a.z as int, m) as i64,
        w: spec_div(a.w as int, m) as i64,
    }
}

pub open spec fn tuple_negate(a: Tuple) -> Tuple {
    tuple_sub(Tuple { x: 0, y: 0, z: 0, w: 0 }, a)
}

/// `v` mirrored about `n`: `v - n * 2 * (v . n)`.
pub open spec fn tuple_reflect(v: Tuple, n: Tuple) -> Tuple {
    let d = tuple_dot(v, n);
    tuple_sub(v, tuple_scale(n, spec_add(d, d)))
}

/// A point at `(x, y, z)`.
pub fn point(x: i64, y: i64, z: i64) -> (r: Tuple)
    ensures
        r == (Tuple { x, y, z, w: SCALE }),
{
    Tuple { x, y, z, w: SCALE }
}

/// A vector along `(x, y, z)`.
pub fn vector(x: i64, y: i64, z: i64) -> (r: Tuple)
    ensures
        r == (Tuple { x, y, z, w: 0 }),
{
    Tuple { x, y, z, w: 0 }
}

impl Tuple {
    pub fn add(self, other: Tuple) -> (r: Tuple)
        ensures
            r == tuple_add(self, other),
    {
        Tuple {
            x: fx_add(self.x, other.x),
            y: fx_add(self.y, other.y),
            z: fx_add(self.z, other.z),
            w: fx_add(self.w, other.w),
        }
    }

    pub fn sub(self, other: Tuple) -> (r: Tuple)
        ensures
            r == tuple_sub(self, other),
    {
        Tuple {
            x: fx_sub(self.x, other.x),
            y: fx_sub(self.y, other.y),
            z: fx_sub(self.z, other.z),
            w: fx_sub(self.w, other.w),
        }
    }

    pub fn scale(self, k: i64) -> (r: Tuple)
        ensures
            r == tuple_scale(self, k as int),
    {
        Tuple {
            x: fx_mul(self.x, k),
            y: fx_mul(self.y, k),
            z: fx_mul(self.z, k),
            w: fx_mul(self.w, k),
        }
    }

    pub fn negate(self) -> (r: Tuple)
        ensures
            r == tuple_negate(self),
    {
        Tuple { x: 0, y: 0, z: 0, w: 0 }.sub(self)
    }

    pub fn dot(self, other: Tuple) -> (r: i64)
        ensures
            r == tuple_dot(self, other),
    {
        let xx = fx_mul(self.x, other.x);
        let yy = fx_mul(self.y, other.y);
        let zz = fx_mul(self.z, other.z);
        let ww = fx_mul(self.w, other.w);
        fx_add(fx_add(fx_add(xx, yy), zz), ww)
    }

    pub fn magnitude(self) -> (r: i64)
        ensures
            r == tuple_magnitude(self),
    {
        fx_sqrt(self.dot(self))
    }

    pub fn normalize(self) -> (r: Tuple)
        ensures
            r == tuple_normalize(self),
    {
        let m = self.magnitude();
        Tuple {
            x: fx_div(self.x, m),
            y: fx_div(self.y, m),
            z: fx_div(self.z, m),
            w: fx_div(self.w, m),
        }
    }

    pub fn reflect(self, normal: Tuple) -> (r: Tuple)
        ensures
            r == tuple_reflect(self, normal),
    {
        let d = self.dot(normal);
        self.sub(normal.scale(fx_add(d, d)))
    }
}

} // verus!
