//! RGB colors, stored as fixed-point scalars per channel.

use crate::fixed::{iabs, in_i64, lemma_rdiv_bound, mul_s, mul_units, wide_mul, EPSILON, LIMIT,
    SCALE};
use vstd::prelude::*;

verus! {

/// The mathematical value of a color: three unbounded step counts.
pub ghost struct Col {
    pub red: int,
    pub green: int,
    pub blue: int,
}

#[derive(Clone, Copy, Debug, PartialEq, Eq, Structural)]
pub struct Color {
    pub red: i64,
    pub green: i64,
    pub blue: i64,
}

impl View for Color {
    type V = Col;

    open spec fn view(&self) -> Col {
        Col { red: self.red as int, green: self.green as int, blue: self.blue as int }
    }
}

pub open spec fn c_bounded(c: Col) -> bool {
    &&& iabs(c.red) <= LIMIT
    &&& iabs(c.green) <= LIMIT
    &&& iabs(c.blue) <= LIMIT
}

pub open spec fn c_add(a: Col, b: Col) -> Col {
    Col { red: a.red + b.red, green: a.green + b.green, blue: a.blue + b.blue }
}

pub open spec fn c_sub(a: Col, b: Col) -> Col {
    Col { red: a.red - b.red, green: a.green - b.green, blue: a.blue - b.blue }
}

/// Multiplication by a scalar.
pub open spec fn c_scale(a: Col, k: int) -> Col {
    Col {
        red: mul_units(a.red, k),
        green: mul_units(a.green, k),
        blue: mul_units(a.blue, k),
    }
}

/// Hadamard (componentwise) product of two colors.
pub open spec fn c_blend(a: Col, b: Col) -> Col {
    Col {
        red: mul_units(a.red, b.red),
        green: mul_units(a.green, b.green),
        blue: mul_units(a.blue, b.blue),
    }
}

pub open spec fn c_approx(a: Col, b: Col) -> bool {
    &&& iabs(a.red - b.red) < EPSILON
    &&& iabs(a.green - b.green) < EPSILON
    &&& iabs(a.blue - b.blue) < EPSILON
}

/// One channel mapped to the 0..=255 output range: negative values clamp to
/// 0, values at or above 1.0 clamp to 255, anything between rounds up to a
/// whole output step.
pub open spec fn c_scale_channel(v: int) -> int {
    let raw = v * 255;
    if raw >= 255 * (SCALE as int) {
        255 * (SCALE as int)
    } else if raw <= 0 {
        0
    } else {
        ((raw + SCALE - 1) / (SCALE as int)) * SCALE
    }
}

pub open spec fn c_scale_all(a: Col) -> Col {
    Col {
        red: c_scale_channel(a.red),
        green: c_scale_channel(a.green),
        blue: c_scale_channel(a.blue),
    }
}

impl Color {
    pub fn new(red: i64, green: i64, blue: i64) -> (r: Color)
        ensures
            r@ == (Col { red: red as int, green: green as int, blue: blue as int }),
    {
        Color { red, green, blue }
    }

    /// Black.
    pub fn default() -> (r: Color)
        ensures
            r@ == (Col { red: 0, green: 0, blue: 0 }),
    {
        Color { red: 0, green: 0, blue: 0 }
    }

    pub fn red(&self) -> (r: i64)
        ensures
            r == self@.red,
    {
        self.red
    }

    pub fn green(&self) -> (r: i64)
        ensures
            r == self@.green,
    {
        self.green
    }

    pub fn blue(&self) -> (r: i64)
        ensures
            r == self@.blue,
    {
        self.blue
    }

    pub fn add(&self, other: &Color) -> (r: Color)
        requires
            c_bounded(self@),
            c_bounded(other@),
        ensures
            r@ == c_add(self@, other@),
    {
        Color {
            red: self.red + other.red,
            green: self.green + other.green,
            blue: self.blue + other.blue,
        }
    }

    pub fn sub(&self, other: &Color) -> (r: Color)
        requires
            c_bounded(self@),
            c_bounded(other@),
        ensures
            r@ == c_sub(self@, other@),
    {
        Color {
            red: self.red - other.red,
            green: self.green - other.green,
            blue: self.blue - other.blue,
        }
    }

    /// Multiplication by a scalar.
    pub fn mul_scalar(&self, k: i64) -> (r: Color)
        requires
            c_bounded(self@),
            iabs(k as int) <= LIMIT,
        ensures
            r@ == c_scale(self@, k as int),
    {
        proof {
            lemma_channel_fits(self@.red, k as int);
            lemma_channel_fits(self@.green, k as int);
            lemma_channel_fits(self@.blue, k as int);
        }
        Color {
            red: mul_s(self.red, k),
            green: mul_s(self.green, k),
            blue: mul_s(self.blue, k),
        }
    }

    /// Hadamard (componentwise) product, used to blend two colors.
    pub fn blend(&self, other: &Color) -> (r: Color)
        requires
            c_bounded(self@),
            c_bounded(other@),
        ensures
            r@ == c_blend(self@, other@),
    {
        proof {
            lemma_channel_fits(self@.red, other@.red);
            lemma_channel_fits(self@.green, other@.green);
            lemma_channel_fits(self@.blue, other@.blue);
        }
        Color {
            red: mul_s(self.red, other.red),
            green: mul_s(self.green, other.green),
            blue: mul_s(self.blue, other.blue),
        }
    }

    pub fn approx_eq(&self, other: &Color) -> (r: bool)
        ensures
            r == c_approx(self@, other@),
    {
        crate::fixed::approx_eq(self.red, other.red) && crate::fixed::approx_eq(
            self.green,
            other.green,
        ) && crate::fixed::approx_eq(self.blue, other.blue)
    }

    /// Map every channel to the 0..=255 output range.
    pub fn scale(&self) -> (r: Color)
        requires
            c_bounded(self@),
        ensures
            r@ == c_scale_all(self@),
    {
        Color {
            red: scale_color_val(self.red),
            green: scale_color_val(self.green),
            blue: scale_color_val(self.blue),
        }
    }
}

/// Clamp one channel into the 0..=255 output range, rounding survivors up to
/// a whole output step.
fn scale_color_val(v: i64) -> (r: i64)
    requires
        iabs(v as int) <= LIMIT,
    ensures
        r == c_scale_channel(v as int),
{
    let raw: i128 = wide_mul(v, 255);
    if raw >= 255 * SCALE as i128 {
        255 * SCALE
    } else if raw <= 0 {
        0
    } else {
        let whole: u64 = ((raw as u64) + (SCALE as u64 - 1)) / (SCALE as u64);
        assert(whole == (raw + SCALE - 1) / (SCALE as int));
        (whole as i64) * SCALE
    }
}

proof fn lemma_channel_fits(a: int, k: int)
    requires
        iabs(a) <= LIMIT,
        iabs(k) <= LIMIT,
    ensures
        in_i64(mul_units(a, k)),
{
    assert(iabs(a * k) <= 4_000_000_000_000int * SCALE) by (nonlinear_arith)
        requires
            iabs(a) <= LIMIT,
            iabs(k) <= LIMIT,
            LIMIT == 20_000_000_000i64,
            SCALE == 100_000_000i64,
    ;
    lemma_rdiv_bound(a * k, SCALE as int, 4_000_000_000_000int);
}

} // verus!
