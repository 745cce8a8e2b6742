use vstd::prelude::*;
use crate::color::Color;

verus! {

/// Surface shading coefficients (fixed-point scalars) and base color.
#[derive(Clone, Copy, Debug, PartialEq, Eq, Structural)]
pub struct Material {
    pub ambient: i64,
    pub diffuse: i64,
    pub specular: i64,
    /// Whole-number exponent of the specular lobe: the larger, the tighter the highlight.
    pub shininess: u32,
    pub color: Color,
}

impl Material {
    pub open spec fn init_spec() -> Material {
        Material {
            ambient: 100_000,
            diffuse: 900_000,
            specular: 900_000,
            shininess: 200,
            color: Color { red: 1_000_000, green: 1_000_000, blue: 1_000_000 },
        }
    }

    /// White, with ambient 0.1, diffuse 0.9, specular 0.9 and shininess 200.
    pub fn init() -> (r: Material)
        ensures
            r == Material::init_spec(),
    {
        Material {
            ambient: 100_000,
            diffuse: 900_000,
            specular: 900_000,
            shininess: 200,
            color: Color { red: 1_000_000, green: 1_000_000, blue: 1_000_000 },
        }
    }
}

} // verus!
