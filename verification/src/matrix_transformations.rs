//! Named affine transform constructors, each an identity matrix with a few
//! cells overwritten.  Rotations take the sine and cosine of the angle as
//! fixed-point scalars, since the library's arithmetic is exact.

use crate::fixed::{iabs, lemma_rdiv_mul_exact, rdiv, SCALE};
use crate::matrix::M4x4;
use crate::tuple::{is_point_v, is_vector_v, Tup};
use vstd::prelude::*;

verus! {

/// Moves a point by `(x, y, z)`; leaves vectors unchanged.
pub open spec fn translation4(x: int, y: int, z: int) -> Seq<int> {
    seq![
        SCALE as int, 0, 0, x,
        0, SCALE as int, 0, y,
        0, 0, SCALE as int, z,
        0, 0, 0, SCALE as int,
    ]
}

/// Scales each coordinate by the matching factor.
pub open spec fn scaling4(x: int, y: int, z: int) -> Seq<int> {
    seq![
        x, 0, 0, 0,
        0, y, 0, 0,
        0, 0, z, 0,
        0, 0, 0, SCALE as int,
    ]
}

/// Rotation about the x axis, given the angle's sine and cosine.
pub open spec fn rotation_x4(s: int, c: int) -> Seq<int> {
    seq![
        SCALE as int, 0, 0, 0,
        0, c, -s, 0,
        0, s, c, 0,
        0, 0, 0, SCALE as int,
    ]
}

/// Rotation about the y axis, given the angle's sine and cosine.
pub open spec fn rotation_y4(s: int, c: int) -> Seq<int> {
    seq![
        c, 0, s, 0,
        0, SCALE as int, 0, 0,
        -s, 0, c, 0,
        0, 0, 0, SCALE as int,
    ]
}

/// Rotation about the z axis, given the angle's sine and cosine.
pub open spec fn rotation_z4(s: int, c: int) -> Seq<int> {
    seq![
        c, -s, 0, 0,
        s, c, 0, 0,
        0, 0, SCALE as int, 0,
        0, 0, 0, SCALE as int,
    ]
}

/// Shear: each coordinate moves in proportion to the other two.
pub open spec fn shearing4(xy: int, xz: int, yx: int, yz: int, zx: int, zy: int) -> Seq<int> {
    seq![
        SCALE as int, xy, xz, 0,
        yx, SCALE as int, yz, 0,
        zx, zy, SCALE as int, 0,
        0, 0, 0, SCALE as int,
    ]
}

/// The translation matrix moving a point by `(x, y, z)`.
pub fn translation(x: i64, y: i64, z: i64) -> (r: M4x4)
    ensures
        r@ == translation4(x as int, y as int, z as int),
{
    let m = M4x4 {
        m: [
            SCALE, 0, 0, x,
            0, SCALE, 0, y,
            0, 0, SCALE, z,
            0, 0, 0, SCALE,
        ],
    };
    proof {
        assert(m@ =~= translation4(x as int, y as int, z as int));
    }
    m
}

/// The scaling matrix with factors `(x, y, z)`.
pub fn scaling(x: i64, y: i64, z: i64) -> (r: M4x4)
    ensures
        r@ == scaling4(x as int, y as int, z as int),
{
    let m = M4x4 {
        m: [
            x, 0, 0, 0,
            0, y, 0, 0,
            0, 0, z, 0,
            0, 0, 0, SCALE,
        ],
    };
    proof {
        assert(m@ =~= scaling4(x as int, y as int, z as int));
    }
    m
}

/// Rotation about the x axis; `sin_r` and `cos_r` are the angle's sine and
/// cosine as fixed-point scalars.
pub fn rotation_x(sin_r: i64, cos_r: i64) -> (r: M4x4)
    requires
        iabs(sin_r as int) <= SCALE,
        iabs(cos_r as int) <= SCALE,
    ensures
        r@ == rotation_x4(sin_r as int, cos_r as int),
{
    let m = M4x4 {
        m: [
            SCALE, 0, 0, 0,
            0, cos_r, -sin_r, 0,
            0, sin_r, cos_r, 0,
            0, 0, 0, SCALE,
        ],
    };
    proof {
        assert(m@ =~= rotation_x4(sin_r as int, cos_r as int));
    }
    m
}

/// Rotation about the y axis.
pub fn rotation_y(sin_r: i64, cos_r: i64) -> (r: M4x4)
    requires
        iabs(sin_r as int) <= SCALE,
        iabs(cos_r as int) <= SCALE,
    ensures
        r@ == rotation_y4(sin_r as int, cos_r as int),
{
    let m = M4x4 {
        m: [
            cos_r, 0, sin_r, 0,
            0, SCALE, 0, 0,
            -sin_r, 0, cos_r, 0,
            0, 0, 0, SCALE,
        ],
    };
    proof {
        assert(m@ =~= rotation_y4(sin_r as int, cos_r as int));
    }
    m
}

/// Rotation about the z axis.
pub fn rotation_z(sin_r: i64, cos_r: i64) -> (r: M4x4)
    requires
        iabs(sin_r as int) <= SCALE,
        iabs(cos_r as int) <= SCALE,
    ensures
        r@ == rotation_z4(sin_r as int, cos_r as int),
{
    let m = M4x4 {
        m: [
            cos_r, -sin_r, 0, 0,
            sin_r, cos_r, 0, 0,
            0, 0, SCALE, 0,
            0, 0, 0, SCALE,
        ],
    };
    proof {
        assert(m@ =~= rotation_z4(sin_r as int, cos_r as int));
    }
    m
}

/// The shearing matrix: each coordinate moves in proportion to the others.
pub fn shearing(xy: i64, xz: i64, yx: i64, yz: i64, zx: i64, zy: i64) -> (r: M4x4)
    ensures
        r@ == shearing4(xy as int, xz as int, yx as int, yz as int, zx as int, zy as int),
{
    let m = M4x4 {
        m: [
            SCALE, xy, xz, 0,
            yx, SCALE, yz, 0,
            zx, zy, SCALE, 0,
            0, 0, 0, SCALE,
        ],
    };
    proof {
        assert(m@ =~= shearing4(xy as int, xz as int, yx as int, yz as int, zx as int, zy as int));
    }
    m
}

/// Translating a vector (`w == 0`) leaves it unchanged.
pub proof fn lemma_translation_fixes_vectors(x: int, y: int, z: int, v: Tup)
    requires
        is_vector_v(v),
    ensures
        crate::matrix::apply4(translation4(x, y, z), v) == v,
{
    lemma_rdiv_mul_exact(v.x, SCALE as int);
    lemma_rdiv_mul_exact(v.y, SCALE as int);
    lemma_rdiv_mul_exact(v.z, SCALE as int);
    lemma_rdiv_mul_exact(0, SCALE as int);
    assert(crate::matrix::apply4(translation4(x, y, z), v) == v) by {
        assert(SCALE as int * v.x + 0 * v.y + 0 * v.z + x * 0 == v.x * SCALE)
            by (nonlinear_arith);
        assert(0 * v.x + SCALE as int * v.y + 0 * v.z + y * 0 == v.y * SCALE)
            by (nonlinear_arith);
        assert(0 * v.x + 0 * v.y + SCALE as int * v.z + z * 0 == v.z * SCALE)
            by (nonlinear_arith);
        assert(0 * v.x + 0 * v.y + 0 * v.z + SCALE as int * 0 == 0 * SCALE) by (nonlinear_arith);
    }
}

/// Translating a point (`w == 1.0`) moves each coordinate by the offset.
pub proof fn lemma_translation_moves_points(x: int, y: int, z: int, p: Tup)
    requires
        is_point_v(p),
    ensures
        crate::matrix::apply4(translation4(x, y, z), p) == (Tup {
            x: p.x + x,
            y: p.y + y,
            z: p.z + z,
            w: SCALE as int,
        }),
{
    lemma_rdiv_mul_exact(p.x + x, SCALE as int);
    lemma_rdiv_mul_exact(p.y + y, SCALE as int);
    lemma_rdiv_mul_exact(p.z + z, SCALE as int);
    lemma_rdiv_mul_exact(SCALE as int, SCALE as int);
    assert(SCALE as int * p.x + 0 * p.y + 0 * p.z + x * (SCALE as int) == (p.x + x) * SCALE)
        by (nonlinear_arith);
    assert(0 * p.x + SCALE as int * p.y + 0 * p.z + y * (SCALE as int) == (p.y + y) * SCALE)
        by (nonlinear_arith);
    assert(0 * p.x + 0 * p.y + SCALE as int * p.z + z * (SCALE as int) == (p.z + z) * SCALE)
        by (nonlinear_arith);
    assert(0 * p.x + 0 * p.y + 0 * p.z + SCALE as int * (SCALE as int) == SCALE as int * SCALE)
        by (nonlinear_arith);
}

} // verus!
