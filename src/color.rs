use vstd::prelude::*;
use crate::fixed::{fx_add, fx_mul, spec_add, spec_mul};

verus! {

/// A color as fixed-point red, green and blue intensities, not clamped.
#[derive(Clone, Copy, Debug, PartialEq, Eq, Structural)]
pub struct Color {
    pub red: i64,
    pub green: i64,
    pub blue: i64,
}

pub open spec fn color_add(a: Color, b: Color) -> Color {
    Color {
        red: spec_add(a.red as int, b.red as int) as i64,
        green: spec_add(a.green as int, b.green as int) as i64,
        blue: spec_add(a.blue as int, b.blue as int) as i64,
    }
}

/// Component-wise product of two colors.
pub open spec fn color_blend(a: Color, b: Color) -> Color {
    Color {
        red: spec_mul(a.red as int, b.red as int) as i64,
        green: spec_mul(a.green as int, b.green as int) as i64,
        blue: spec_mul(a.blue as int, b.blue as int) as i64,
    }
}

pub open spec fn color_scale(a: Color, k: int) -> Color {
    Color {
        red: spec_mul(a.red as int, k) as i64,
        green: spec_mul(a.green as int, k) as i64,
        blue: spec_mul(a.blue as int, k) as i64,
    }
}

impl Color {
    pub fn new(red: i64, green: i64, blue: i64) -> (r: Color)
        ensures
            r == (Color { red, green, blue }),
    {
        Color { red, green, blue }
    }

    pub fn black() -> (r: Color)
        ensures
            r == (Color { red: 0, green: 0, blue: 0 }),
    {
        Color { red: 0, green: 0, blue: 0 }
    }

    pub fn add(self, other: Color) -> (r: Color)
        ensures
            r == color_add(self, other),
    {
        Color {
            red: fx_add(self.red, other.red),
            green: fx_add(self.green, other.green),
            blue: fx_add(self.blue, other.blue),
        }
    }

    pub fn blend(self, other: Color) -> (r: Color)
        ensures
            r == color_blend(self, other),
    {
        Color {
            red: fx_mul(self.red, other.red),
            green: fx_mul(self.green, other.green),
            blue: fx_mul(self.blue, other.blue),
        }
    }

    pub fn scale(self, k: i64) -> (r: Color)
        ensures
            r == color_scale(self, k as int),
    {
        Color { red: fx_mul(self.red, k), green: fx_mul(self.green, k), blue: fx_mul(self.blue, k) }
    }
}

} // verus!
