use vstd::prelude::*;
use crate::color::{color_add, color_blend, color_scale, Color};
use crate::fixed::{fx_mul, spec_mul, SCALE};
use crate::material::Material;
use crate::tuple::{tuple_dot, tuple_negate, tuple_normalize, tuple_reflect, tuple_sub, Tuple};

verus! {

/// A point light source.
#[derive(Clone, Copy, Debug, PartialEq, Eq, Structural)]
pub struct Light {
    pub position: Tuple,
    pub intensity: Color,
}

/// `x` raised to the whole power `n`, one rounded product at a time.
pub open spec fn spec_pow(x: int, n: nat) -> int
    decreases n,
{
    if n == 0 {
        SCALE as int
    } else {
        spec_mul(spec_pow(x, (n - 1) as nat), x)
    }
}

pub open spec fn black() -> Color {
    Color { red: 0, green: 0, blue: 0 }
}

/// The Phong color seen at `point` from direction `eyev`, where the surface has unit
/// normal `normalv`: ambient plus diffuse plus specular. Diffuse and specular are black
/// when the light is behind the surface, and specular is black when the reflected light
/// does not head toward the eye.
pub open spec fn lighting_spec(m: Material, light: Light, point: Tuple, eyev: Tuple, normalv: Tuple) -> Color {
    let effective = color_blend(m.color, light.intensity);
    let lightv = tuple_normalize(tuple_sub(light.position, point));
    let ambient = color_scale(effective, m.ambient as int);
    let light_dot_normal = tuple_dot(lightv, normalv);
    if light_dot_normal < 0 {
        color_add(color_add(ambient, black()), black())
    } else {
        let diffuse = color_scale(color_scale(effective, m.diffuse as int), light_dot_normal);
        let reflectv = tuple_reflect(tuple_negate(lightv), normalv);
        let reflect_dot_eye = tuple_dot(reflectv, eyev);
        let specular = if reflect_dot_eye <= 0 {
            black()
        } else {
            color_scale(
                color_scale(light.intensity, m.specular as int),
                spec_pow(reflect_dot_eye, m.shininess as nat),
            )
        };
        color_add(color_add(ambient, diffuse), specular)
    }
}

/// `x` raised to the whole power `n`.
pub fn power(x: i64, n: u32) -> (r: i64)
    ensures
        r == spec_pow(x as int, n as nat),
{
    let mut acc: i64 = SCALE;
    let mut i: u32 = 0;
    while i < n
        invariant
            i <= n,
            acc == spec_pow(x as int, i as nat),
        decreases n - i,
    {
        acc = fx_mul(acc, x);
        i += 1;
    }
    acc
}

/// The color of a surface point under `light`, by the Phong model; no shadows are cast.
pub fn lighting(material: &Material, light: &Light, point: Tuple, eyev: Tuple, normalv: Tuple) -> (r: Color)
    ensures
        r == lighting_spec(*material, *light, point, eyev, normalv),
{
    let effective = material.color.blend(light.intensity);
    let lightv = light.position.sub(point).normalize();
    let ambient = effective.scale(material.ambient);
    let light_dot_normal = lightv.dot(normalv);
    let black = Color::black();
    if light_dot_normal < 0 {
        return ambient.add(black).add(black);
    }
    let diffuse = effective.scale(material.diffuse).scale(light_dot_normal);
    let reflectv = lightv.negate().reflect(normalv);
    let reflect_dot_eye = reflectv.dot(eyev);
    let specular = if reflect_dot_eye <= 0 {
        black
    } else {
        let factor = power(reflect_dot_eye, material.shininess);
        light.intensity.scale(material.specular).scale(factor)
    };
    ambient.add(diffuse).add(specular)
}

} // verus!
