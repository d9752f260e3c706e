//! The pixel buffer, and the mapping from canvas pixels to points on the
//! scene's wall.  Serializing the buffer to an image file is left to the
//! rendering driver.

use crate::color::Color;
use crate::fixed::{div_units, iabs, in_i64, lemma_rdiv_bound, mul_units, LIMIT, SCALE};
use vstd::prelude::*;

verus! {

/// A rectangular pixel buffer stored in row-major order.
pub struct Canvas {
    pub width: usize,
    pub height: usize,
    pub pixels: Vec<Color>,
}

impl Canvas {
    /// The buffer holds exactly one pixel per cell.
    pub open spec fn wf(&self) -> bool {
        self.pixels@.len() == self.width * self.height
    }

    /// A canvas of the given size, all pixels black.
    pub fn new(width: usize, height: usize) -> (r: Canvas)
        requires
            width * height <= usize::MAX,
        ensures
            r.width == width,
            r.height == height,
            r.wf(),
            forall|i: int|
                0 <= i < r.pixels@.len() ==> (#[trigger] r.pixels@[i])@ == (crate::color::Col {
                    red: 0,
                    green: 0,
                    blue: 0,
                }),
    {
        let total = width * height;
        let mut pixels: Vec<Color> = Vec::new();
        let mut i: usize = 0;
        while i < total
            invariant
                i <= total,
                pixels@.len() == i,
                forall|j: int|
                    0 <= j < i ==> (#[trigger] pixels@[j])@ == (crate::color::Col {
                        red: 0,
                        green: 0,
                        blue: 0,
                    }),
            decreases total - i,
        {
            pixels.push(Color::default());
            i = i + 1;
        }
        Canvas { width, height, pixels }
    }

    /// The pixel whose cell index is `x + y * width`, when that cell exists.
    pub fn get_pixel(&self, x: usize, y: usize) -> (r: Option<Color>)
        requires
            self.wf(),
        ensures
            r is Some <==> x + y * self.width < self.pixels@.len(),
            r matches Some(c) ==> c == self.pixels@[x + y * self.width],
    {
        proof {
            lemma_cell_index_fits(x as int, y as int, self.width as int);
        }
        let idx: u128 = x as u128 + y as u128 * self.width as u128;
        if idx < self.pixels.len() as u128 {
            Some(self.pixels[idx as usize])
        } else {
            None
        }
    }

    /// Overwrite the pixel at cell `x + y * width`; reports whether the
    /// cell exists, and leaves the buffer unchanged when it does not.
    pub fn write_pixel(&mut self, x: usize, y: usize, color: Color) -> (ok: bool)
        requires
            old(self).wf(),
        ensures
            final(self).wf(),
            final(self).width == old(self).width,
            final(self).height == old(self).height,
            ok <==> x + y * old(self).width < old(self).pixels@.len(),
            ok ==> final(self).pixels@ == old(self).pixels@.update(
                x + y * old(self).width,
                color,
            ),
            !ok ==> final(self).pixels@ == old(self).pixels@,
    {
        proof {
            lemma_cell_index_fits(x as int, y as int, self.width as int);
        }
        let idx: u128 = x as u128 + y as u128 * self.width as u128;
        if idx >= self.pixels.len() as u128 {
            return false;
        }
        let target = idx as usize;
        self.pixels[target] = color;
        true
    }
}

/// A row-major cell index computed over `u128` cannot overflow.
proof fn lemma_cell_index_fits(x: int, y: int, w: int)
    requires
        0 <= x <= u64::MAX,
        0 <= y <= u64::MAX,
        0 <= w <= u64::MAX,
    ensures
        0 <= x + y * w <= u128::MAX,
{
    assert(0 <= x + y * w <= u128::MAX) by (nonlinear_arith)
        requires
            0 <= x <= u64::MAX,
            0 <= y <= u64::MAX,
            0 <= w <= u64::MAX,
    ;
}

/// The x coordinate on the wall for a pixel column: the left edge plus one
/// pixel-size step per column.
pub open spec fn world_x_of(wall_size: int, canvas_size: int, px: int) -> int {
    -div_units(wall_size, 2 * SCALE) + mul_units(
        div_units(wall_size, canvas_size * SCALE),
        px * SCALE,
    )
}

/// The y coordinate on the wall for a pixel row: the top edge minus one
/// pixel-size step per row.
pub open spec fn world_y_of(wall_size: int, canvas_size: int, py: int) -> int {
    div_units(wall_size, 2 * SCALE) - mul_units(
        div_units(wall_size, canvas_size * SCALE),
        py * SCALE,
    )
}

/// The wall point seen through one canvas pixel: the wall is centered on
/// the axis, `wall_size` across, at depth `wall_z`.
pub fn compute_world_coordinates(
    canvas_size: usize,
    wall_size: i64,
    wall_z: i64,
    pixel_x: usize,
    pixel_y: usize,
) -> (r: (i64, i64, i64))
    requires
        1 <= canvas_size <= 100_000,
        iabs(wall_size as int) <= LIMIT,
        pixel_x < canvas_size,
        pixel_y < canvas_size,
    ensures
        r.0 == world_x_of(wall_size as int, canvas_size as int, pixel_x as int),
        r.1 == world_y_of(wall_size as int, canvas_size as int, pixel_y as int),
        r.2 == wall_z,
{
    proof {
        lemma_world_coordinate_fits(wall_size as int, canvas_size as int, pixel_x as int);
        lemma_world_coordinate_fits(wall_size as int, canvas_size as int, pixel_y as int);
    }
    // Half the wall on each side of the axis.
    let half = crate::fixed::div_s(wall_size, 2 * SCALE);
    // The wall distance covered by one pixel.
    let pixel_size = crate::fixed::div_s(wall_size, canvas_size as i64 * SCALE);
    let world_x = -half + crate::fixed::mul_s(pixel_size, pixel_x as i64 * SCALE);
    let world_y = half - crate::fixed::mul_s(pixel_size, pixel_y as i64 * SCALE);
    (world_x, world_y, wall_z)
}

/// Every intermediate of the pixel-to-wall mapping fits in an `i64`.
proof fn lemma_world_coordinate_fits(ws: int, cs: int, p: int)
    requires
        1 <= cs <= 100_000,
        iabs(ws) <= LIMIT,
        0 <= p < cs,
    ensures
        in_i64(div_units(ws, 2 * SCALE)),
        iabs(div_units(ws, 2 * SCALE)) <= LIMIT,
        in_i64(div_units(ws, cs * SCALE)),
        iabs(div_units(ws, cs * SCALE)) <= LIMIT,
        in_i64(mul_units(div_units(ws, cs * SCALE), p * SCALE)),
        iabs(mul_units(div_units(ws, cs * SCALE), p * SCALE)) <= 2_000_000_000_000_000int,
{
    assert(iabs(ws * SCALE) <= LIMIT * (2 * SCALE as int)) by (nonlinear_arith)
        requires
            iabs(ws) <= LIMIT,
            SCALE == 100_000_000i64,
            LIMIT == 20_000_000_000i64,
    ;
    lemma_rdiv_bound(ws * SCALE, 2 * SCALE as int, LIMIT as int);
    assert(iabs(ws * SCALE) <= LIMIT * (cs * SCALE as int)) by (nonlinear_arith)
        requires
            iabs(ws) <= LIMIT,
            cs >= 1,
            SCALE == 100_000_000i64,
            LIMIT == 20_000_000_000i64,
    ;
    lemma_rdiv_bound(ws * SCALE, cs * SCALE as int, LIMIT as int);
    let ps = div_units(ws, cs * SCALE);
    assert(iabs(ps * (p * SCALE)) <= 2_000_000_000_000_000int * SCALE) by (nonlinear_arith)
        requires
            iabs(ps) <= LIMIT,
            0 <= p <= 100_000,
            SCALE == 100_000_000i64,
            LIMIT == 20_000_000_000i64,
    ;
    lemma_rdiv_bound(ps * (p * SCALE), SCALE as int, 2_000_000_000_000_000int);
}

} // verus!
