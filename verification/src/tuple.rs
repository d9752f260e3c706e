//! Homogeneous 4-component tuples: a point carries `w == SCALE` (that is,
//! `w == 1.0`) and a vector carries `w == 0`.

use crate::fixed::{
    div_round, div_units, iabs, in_i64, isqrt, lemma_rdiv_bound, mul_s, mul_units, rdiv,
    sqrt_floor, wide_mul, EPSILON, LIMIT, SCALE,
};
use vstd::prelude::*;

verus! {

/// The mathematical value of a tuple: four unbounded step counts.
pub ghost struct Tup {
    pub x: int,
    pub y: int,
    pub z: int,
    pub w: int,
}

#[derive(Clone, Copy, Debug, PartialEq, Eq, Structural)]
pub struct Tuple {
    pub x: i64,
    pub y: i64,
    pub z: i64,
    pub w: i64,
}

pub type Point = Tuple;

pub type Vector = Tuple;

impl View for Tuple {
    type V = Tup;

    open spec fn view(&self) -> Tup {
        Tup { x: self.x as int, y: self.y as int, z: self.z as int, w: self.w as int }
    }
}

/// All four components lie within the coordinate limit.
pub open spec fn bounded(t: Tup) -> bool {
    &&& iabs(t.x) <= LIMIT
    &&& iabs(t.y) <= LIMIT
    &&& iabs(t.z) <= LIMIT
    &&& iabs(t.w) <= LIMIT
}

pub open spec fn is_point_v(t: Tup) -> bool {
    t.w == SCALE
}

pub open spec fn is_vector_v(t: Tup) -> bool {
    t.w == 0
}

pub open spec fn v_add(a: Tup, b: Tup) -> Tup {
    Tup { x: a.x + b.x, y: a.y + b.y, z: a.z + b.z, w: a.w + b.w }
}

pub open spec fn v_sub(a: Tup, b: Tup) -> Tup {
    Tup { x: a.x - b.x, y: a.y - b.y, z: a.z - b.z, w: a.w - b.w }
}

pub open spec fn v_neg(a: Tup) -> Tup {
    Tup { x: -a.x, y: -a.y, z: -a.z, w: -a.w }
}

pub open spec fn v_scale(a: Tup, k: int) -> Tup {
    Tup {
        x: mul_units(a.x, k),
        y: mul_units(a.y, k),
        z: mul_units(a.z, k),
        w: mul_units(a.w, k),
    }
}

pub open spec fn v_div(a: Tup, k: int) -> Tup
    recommends
        k != 0,
{
    Tup {
        x: div_units(a.x, k),
        y: div_units(a.y, k),
        z: div_units(a.z, k),
        w: div_units(a.w, k),
    }
}

/// Dot product; all four components participate multiplicatively.
pub open spec fn v_dot(a: Tup, b: Tup) -> int {
    rdiv(a.x * b.x + a.y * b.y + a.z * b.z + a.w * b.w, SCALE as int)
}

pub open spec fn v_cross(a: Tup, b: Tup) -> Tup {
    Tup {
        x: rdiv(a.y * b.z - a.z * b.y, SCALE as int),
        y: rdiv(a.z * b.x - a.x * b.z, SCALE as int),
        z: rdiv(a.x * b.y - a.y * b.x, SCALE as int),
        w: 0,
    }
}

/// Length of a tuple: the rounded-down square root of the raw sum of squares.
pub open spec fn v_mag(a: Tup) -> int {
    sqrt_floor(a.x * a.x + a.y * a.y + a.z * a.z + a.w * a.w)
}

/// Unit vector in the direction of `a` (the `w` component is dropped).
pub open spec fn v_norm(a: Tup) -> Tup
    recommends
        v_mag(a) > 0,
{
    Tup {
        x: rdiv(a.x * SCALE, v_mag(a)),
        y: rdiv(a.y * SCALE, v_mag(a)),
        z: rdiv(a.z * SCALE, v_mag(a)),
        w: 0,
    }
}

/// Componentwise comparison within the tolerance.
pub open spec fn v_approx(a: Tup, b: Tup) -> bool {
    &&& iabs(a.x - b.x) < EPSILON
    &&& iabs(a.y - b.y) < EPSILON
    &&& iabs(a.z - b.z) < EPSILON
    &&& iabs(a.w - b.w) < EPSILON
}

impl Tuple {
    /// A vector: `w == 0`.
    pub fn new(x: i64, y: i64, z: i64) -> (r: Vector)
        ensures
            r@ == (Tup { x: x as int, y: y as int, z: z as int, w: 0 }),
    {
        Tuple { x, y, z, w: 0 }
    }

    /// A point: `w == 1.0`.
    pub fn new_point(x: i64, y: i64, z: i64) -> (r: Point)
        ensures
            r@ == (Tup { x: x as int, y: y as int, z: z as int, w: SCALE as int }),
    {
        Tuple { x, y, z, w: SCALE }
    }

    pub fn is_point(&self) -> (r: bool)
        ensures
            r == is_point_v(self@),
    {
        self.w == SCALE
    }

    pub fn is_vector(&self) -> (r: bool)
        ensures
            r == is_vector_v(self@),
    {
        self.w == 0
    }

    /// Componentwise equality within the tolerance.
    pub fn approx_eq(&self, other: &Tuple) -> (r: bool)
        ensures
            r == v_approx(self@, other@),
    {
        crate::fixed::approx_eq(self.x, other.x) && crate::fixed::approx_eq(self.y, other.y)
            && crate::fixed::approx_eq(self.z, other.z) && crate::fixed::approx_eq(
            self.w,
            other.w,
        )
    }

    pub fn add(&self, other: &Tuple) -> (r: Tuple)
        requires
            bounded(self@),
            bounded(other@),
        ensures
            r@ == v_add(self@, other@),
    {
        Tuple {
            x: self.x + other.x,
            y: self.y + other.y,
            z: self.z + other.z,
            w: self.w + other.w,
        }
    }

    pub fn sub(&self, other: &Tuple) -> (r: Tuple)
        requires
            bounded(self@),
            bounded(other@),
        ensures
            r@ == v_sub(self@, other@),
    {
        Tuple {
            x: self.x - other.x,
            y: self.y - other.y,
            z: self.z - other.z,
            w: self.w - other.w,
        }
    }

    pub fn neg(&self) -> (r: Tuple)
        requires
            bounded(self@),
        ensures
            r@ == v_neg(self@),
    {
        Tuple { x: -self.x, y: -self.y, z: -self.z, w: -self.w }
    }

    /// Multiplication by a scalar.
    pub fn scale(&self, k: i64) -> (r: Tuple)
        requires
            bounded(self@),
            iabs(k as int) <= LIMIT,
        ensures
            r@ == v_scale(self@, k as int),
    {
        proof {
            lemma_scale_fits(self@, k as int);
        }
        Tuple {
            x: mul_s(self.x, k),
            y: mul_s(self.y, k),
            z: mul_s(self.z, k),
            w: mul_s(self.w, k),
        }
    }

    /// Division by a scalar.
    pub fn divide(&self, k: i64) -> (r: Tuple)
        requires
            bounded(self@),
            k != 0,
        ensures
            r@ == v_div(self@, k as int),
    {
        proof {
            lemma_div_fits(self@, k as int);
        }
        Tuple {
            x: crate::fixed::div_s(self.x, k),
            y: crate::fixed::div_s(self.y, k),
            z: crate::fixed::div_s(self.z, k),
            w: crate::fixed::div_s(self.w, k),
        }
    }

    pub fn dot(&self, other: &Tuple) -> (r: i64)
        requires
            bounded(self@),
            bounded(other@),
        ensures
            r == v_dot(self@, other@),
    {
        let xx = wide_mul(self.x, other.x);
        let yy = wide_mul(self.y, other.y);
        let zz = wide_mul(self.z, other.z);
        let ww = wide_mul(self.w, other.w);
        proof {
            lemma_prod_bound(self@.x, other@.x);
            lemma_prod_bound(self@.y, other@.y);
            lemma_prod_bound(self@.z, other@.z);
            lemma_prod_bound(self@.w, other@.w);
            lemma_rdiv_bound(
                xx + yy + zz + ww,
                SCALE as int,
                4 * (LIMIT as int * LIMIT as int) / (SCALE as int),
            );
        }
        let r = div_round(xx + yy + zz + ww, SCALE as i128);
        r as i64
    }

    pub fn cross(&self, other: &Tuple) -> (r: Vector)
        requires
            bounded(self@),
            bounded(other@),
        ensures
            r@ == v_cross(self@, other@),
    {
        proof {
            lemma_prod_bound(self@.y, other@.z);
            lemma_prod_bound(self@.z, other@.y);
            lemma_prod_bound(self@.z, other@.x);
            lemma_prod_bound(self@.x, other@.z);
            lemma_prod_bound(self@.x, other@.y);
            lemma_prod_bound(self@.y, other@.x);
            let lim2: int = 2 * (LIMIT as int * LIMIT as int) / (SCALE as int);
            lemma_rdiv_bound(
                self@.y * other@.z - self@.z * other@.y,
                SCALE as int,
                lim2,
            );
            lemma_rdiv_bound(
                self@.z * other@.x - self@.x * other@.z,
                SCALE as int,
                lim2,
            );
            lemma_rdiv_bound(
                self@.x * other@.y - self@.y * other@.x,
                SCALE as int,
                lim2,
            );
        }
        let cx = div_round(
            wide_mul(self.y, other.z) - wide_mul(self.z, other.y),
            SCALE as i128,
        );
        let cy = div_round(
            wide_mul(self.z, other.x) - wide_mul(self.x, other.z),
            SCALE as i128,
        );
        let cz = div_round(
            wide_mul(self.x, other.y) - wide_mul(self.y, other.x),
            SCALE as i128,
        );
        Tuple { x: cx as i64, y: cy as i64, z: cz as i64, w: 0 }
    }

    /// Length of the tuple.
    pub fn magnitude(&self) -> (r: i64)
        requires
            bounded(self@),
        ensures
            r == v_mag(self@),
            0 <= r <= 2 * LIMIT,
    {
        let xx = wide_mul(self.x, self.x);
        let yy = wide_mul(self.y, self.y);
        let zz = wide_mul(self.z, self.z);
        let ww = wide_mul(self.w, self.w);
        proof {
            lemma_square_bound(self@.x);
            lemma_square_bound(self@.y);
            lemma_square_bound(self@.z);
            lemma_square_bound(self@.w);
        }
        let sum: i128 = xx + yy + zz + ww;
        let root = isqrt(sum as u128);
        proof {
            crate::fixed::lemma_sqrt_floor(sum as int);
            assert(root <= 2 * LIMIT) by (nonlinear_arith)
                requires
                    root * root <= sum,
                    sum <= 4 * (LIMIT as int * LIMIT as int),
                    root >= 0,
                    LIMIT == 20_000_000_000i64,
            ;
        }
        root as i64
    }

    /// Does the tuple have length exactly 1.0?
    pub fn is_unit_vector(&self) -> (r: bool)
        requires
            bounded(self@),
        ensures
            r == (v_mag(self@) == SCALE),
    {
        self.magnitude() == SCALE
    }

    /// Scale the tuple to length 1.0; the result is always a vector.
    pub fn normalize(&self) -> (r: Vector)
        requires
            bounded(self@),
            v_mag(self@) >= 1,
        ensures
            r@ == v_norm(self@),
    {
        let m = self.magnitude();
        proof {
            lemma_norm_fits(self@.x, m as int);
            lemma_norm_fits(self@.y, m as int);
            lemma_norm_fits(self@.z, m as int);
        }
        let nx = div_round(wide_mul(self.x, SCALE), m as i128);
        let ny = div_round(wide_mul(self.y, SCALE), m as i128);
        let nz = div_round(wide_mul(self.z, SCALE), m as i128);
        Tuple { x: nx as i64, y: ny as i64, z: nz as i64, w: 0 }
    }
}

/// Normalizing scales a vector to length 1.0, up to the comparison
/// tolerance.  Vectors shorter than 0.01 are excluded: for them the
/// rounding of the division dominates the result.
pub proof fn lemma_normalize_unit_magnitude(v: Tup)
    requires
        bounded(v),
        is_vector_v(v),
        v_mag(v) >= SCALE / 100,
    ensures
        iabs(v_mag(v_norm(v)) - SCALE) < EPSILON,
{
    let m = v_mag(v);
    let q = v.x * v.x + v.y * v.y + v.z * v.z + v.w * v.w;
    assert(v.x * v.x <= q && v.y * v.y <= q && v.z * v.z <= q && q >= 0) by (nonlinear_arith)
        requires
            q == v.x * v.x + v.y * v.y + v.z * v.z + v.w * v.w,
    ;
    crate::fixed::lemma_sqrt_floor(q);
    assert(m * m <= q < (m + 1) * (m + 1));
    let n = v_norm(v);
    let ex = n.x * m - v.x * SCALE;
    let ey = n.y * m - v.y * SCALE;
    let ez = n.z * m - v.z * SCALE;
    crate::fixed::lemma_rdiv_close(v.x * SCALE, m);
    crate::fixed::lemma_rdiv_close(v.y * SCALE, m);
    crate::fixed::lemma_rdiv_close(v.z * SCALE, m);
    assert(2 * iabs(ex) <= m);
    assert(2 * iabs(ey) <= m);
    assert(2 * iabs(ez) <= m);
    // Each component is no longer than the whole vector.
    lemma_component_le_mag(v.x, q, m);
    lemma_component_le_mag(v.y, q, m);
    lemma_component_le_mag(v.z, q, m);
    let qn = n.x * n.x + n.y * n.y + n.z * n.z + n.w * n.w;
    // The exact algebra, one component at a time:
    // (m n_i)^2 == (c_i S + e_i)^2.
    assert((m * m) * (n.x * n.x) == 10_000_000_000_000_000int * (v.x * v.x) + 200_000_000int
        * (v.x * ex) + ex * ex) by (nonlinear_arith)
        requires
            n.x * m == v.x * SCALE + ex,
            SCALE == 100_000_000i64,
    ;
    assert((m * m) * (n.y * n.y) == 10_000_000_000_000_000int * (v.y * v.y) + 200_000_000int
        * (v.y * ey) + ey * ey) by (nonlinear_arith)
        requires
            n.y * m == v.y * SCALE + ey,
            SCALE == 100_000_000i64,
    ;
    assert((m * m) * (n.z * n.z) == 10_000_000_000_000_000int * (v.z * v.z) + 200_000_000int
        * (v.z * ez) + ez * ez) by (nonlinear_arith)
        requires
            n.z * m == v.z * SCALE + ez,
            SCALE == 100_000_000i64,
    ;
    // Distribute the squared factors over the sums of squares.
    assert((m * m) * qn == (m * m) * (n.x * n.x) + (m * m) * (n.y * n.y) + (m * m) * (n.z
        * n.z)) by (nonlinear_arith)
        requires
            qn == n.x * n.x + n.y * n.y + n.z * n.z + n.w * n.w,
            n.w == 0,
    ;
    assert(10_000_000_000_000_000int * q == 10_000_000_000_000_000int * (v.x * v.x)
        + 10_000_000_000_000_000int * (v.y * v.y) + 10_000_000_000_000_000int * (v.z * v.z))
        by (nonlinear_arith)
        requires
            q == v.x * v.x + v.y * v.y + v.z * v.z + v.w * v.w,
            v.w == 0,
    ;
    assert((m * m) * qn == 10_000_000_000_000_000int * q + 200_000_000int * (v.x * ex)
        + 200_000_000int * (v.y * ey) + 200_000_000int * (v.z * ez) + ex * ex + ey * ey + ez
        * ez);
    // Error terms are small against m^2.
    assert(-(m * m) <= 2 * (v.x * ex) <= m * m && -(m * m) <= 2 * (v.y * ey) <= m * m && -(m
        * m) <= 2 * (v.z * ez) <= m * m) by (nonlinear_arith)
        requires
            iabs(v.x) <= m,
            iabs(v.y) <= m,
            iabs(v.z) <= m,
            2 * iabs(ex) <= m,
            2 * iabs(ey) <= m,
            2 * iabs(ez) <= m,
            m >= 1,
    ;
    assert(0 <= 4 * (ex * ex) <= m * m && 0 <= 4 * (ey * ey) <= m * m && 0 <= 4 * (ez * ez) <= m
        * m) by (nonlinear_arith)
        requires
            2 * iabs(ex) <= m,
            2 * iabs(ey) <= m,
            2 * iabs(ez) <= m,
    ;
    // Pinch m^2 qn between the two target squares; with the constants
    // folded the bounds are linear in m and m^2.
    assert((m + 1) * (m + 1) == m * m + 2 * m + 1) by (nonlinear_arith);
    assert(m * m >= 1_000_000 * m) by (nonlinear_arith)
        requires
            m >= 1_000_000,
    ;
    assert(m >= 1_000_000);
    assert((m * m) * qn < (m * m) * 10_000_200_001_000_000int);
    assert((m * m) * qn >= (m * m) * 9_999_800_200_998_001int);
    assert(9_999_800_200_998_001int <= qn) by (nonlinear_arith)
        requires
            (m * m) * qn >= (m * m) * 9_999_800_200_998_001int,
            (m * m) * qn < (m * m) * 10_000_200_001_000_000int,
            m >= 1,
    ;
    assert(qn < 10_000_200_001_000_000int) by (nonlinear_arith)
        requires
            (m * m) * qn >= (m * m) * 9_999_800_200_998_001int,
            (m * m) * qn < (m * m) * 10_000_200_001_000_000int,
            m >= 1,
    ;
    assert(9_999_800_200_998_001int == (SCALE as int - 999) * (SCALE as int - 999))
        by (nonlinear_arith)
        requires
            SCALE == 100_000_000i64,
    ;
    assert(10_000_200_001_000_000int == (SCALE as int + 1000) * (SCALE as int + 1000))
        by (nonlinear_arith)
        requires
            SCALE == 100_000_000i64,
    ;
    let mn = v_mag(n);
    crate::fixed::lemma_sqrt_floor(qn);
    assert(mn * mn <= qn < (mn + 1) * (mn + 1));
    assert(SCALE as int - 999 <= mn <= SCALE as int + 999) by (nonlinear_arith)
        requires
            mn * mn <= qn < (mn + 1) * (mn + 1),
            (SCALE as int - 999) * (SCALE as int - 999) <= qn,
            qn < (SCALE as int + 1000) * (SCALE as int + 1000),
            mn >= 0,
            SCALE == 100_000_000i64,
    ;
}

/// A square never exceeds the sum of squares it belongs to, so each
/// component's magnitude is at most the rounded-down square root.
proof fn lemma_component_le_mag(c: int, q: int, m: int)
    requires
        c * c <= q,
        q < (m + 1) * (m + 1),
        m >= 0,
    ensures
        iabs(c) <= m,
{
    assert(iabs(c) <= m) by (nonlinear_arith)
        requires
            c * c <= q,
            q < (m + 1) * (m + 1),
            m >= 0,
    ;
}

/// The difference of two points is a vector.
pub proof fn lemma_point_sub_point_is_vector(p: Tup, q: Tup)
    requires
        is_point_v(p),
        is_point_v(q),
    ensures
        is_vector_v(v_sub(p, q)),
{
}

/// Adding a vector to a point yields a point.
pub proof fn lemma_point_add_vector_is_point(p: Tup, v: Tup)
    requires
        is_point_v(p),
        is_vector_v(v),
    ensures
        is_point_v(v_add(p, v)),
{
}

/// The sum of two vectors is a vector.
pub proof fn lemma_vector_add_vector_is_vector(u: Tup, v: Tup)
    requires
        is_vector_v(u),
        is_vector_v(v),
    ensures
        is_vector_v(v_add(u, v)),
{
}

/// Componentwise bounds on two tuples bound their dot product.
pub proof fn lemma_dot_bound(a: Tup, b: Tup, qa: int, qb: int, bb: int)
    requires
        qa >= 0,
        qb >= 0,
        bb >= 0,
        iabs(a.x) <= qa,
        iabs(a.y) <= qa,
        iabs(a.z) <= qa,
        iabs(a.w) <= qa,
        iabs(b.x) <= qb,
        iabs(b.y) <= qb,
        iabs(b.z) <= qb,
        iabs(b.w) <= qb,
        4 * qa * qb <= bb * SCALE,
    ensures
        iabs(v_dot(a, b)) <= bb,
{
    lemma_abs_prod_bound(a.x, b.x, qa, qb);
    lemma_abs_prod_bound(a.y, b.y, qa, qb);
    lemma_abs_prod_bound(a.z, b.z, qa, qb);
    lemma_abs_prod_bound(a.w, b.w, qa, qb);
    assert(4 * qa * qb == 4 * (qa * qb)) by (nonlinear_arith);
    lemma_rdiv_bound(a.x * b.x + a.y * b.y + a.z * b.z + a.w * b.w, SCALE as int, bb);
}

proof fn lemma_abs_prod_bound(x: int, y: int, qx: int, qy: int)
    requires
        qx >= 0,
        qy >= 0,
        iabs(x) <= qx,
        iabs(y) <= qy,
    ensures
        iabs(x * y) <= qx * qy,
{
    assert(iabs(x * y) <= qx * qy) by (nonlinear_arith)
        requires
            qx >= 0,
            qy >= 0,
            iabs(x) <= qx,
            iabs(y) <= qy,
    ;
}

/// A tuple dotted with itself is never negative.
pub proof fn lemma_dot_nonneg(a: Tup)
    ensures
        v_dot(a, a) >= 0,
{
    assert(a.x * a.x + a.y * a.y + a.z * a.z + a.w * a.w >= 0) by (nonlinear_arith);
    crate::fixed::lemma_rdiv_nonneg(
        a.x * a.x + a.y * a.y + a.z * a.z + a.w * a.w,
        SCALE as int,
    );
}

proof fn lemma_prod_bound(a: int, b: int)
    requires
        iabs(a) <= LIMIT,
        iabs(b) <= LIMIT,
    ensures
        iabs(a * b) <= LIMIT as int * LIMIT as int,
{
    assert(iabs(a * b) <= LIMIT as int * LIMIT as int) by (nonlinear_arith)
        requires
            iabs(a) <= LIMIT,
            iabs(b) <= LIMIT,
    ;
}

proof fn lemma_square_bound(a: int)
    requires
        iabs(a) <= LIMIT,
    ensures
        0 <= a * a <= LIMIT as int * LIMIT as int,
{
    assert(0 <= a * a <= LIMIT as int * LIMIT as int) by (nonlinear_arith)
        requires
            iabs(a) <= LIMIT,
    ;
}

proof fn lemma_scale_fits(t: Tup, k: int)
    requires
        bounded(t),
        iabs(k) <= LIMIT,
    ensures
        in_i64(mul_units(t.x, k)),
        in_i64(mul_units(t.y, k)),
        in_i64(mul_units(t.z, k)),
        in_i64(mul_units(t.w, k)),
{
    let b: int = 4_000_000_000_000;
    lemma_prod_bound(t.x, k);
    lemma_prod_bound(t.y, k);
    lemma_prod_bound(t.z, k);
    lemma_prod_bound(t.w, k);
    lemma_rdiv_bound(t.x * k, SCALE as int, b);
    lemma_rdiv_bound(t.y * k, SCALE as int, b);
    lemma_rdiv_bound(t.z * k, SCALE as int, b);
    lemma_rdiv_bound(t.w * k, SCALE as int, b);
}

proof fn lemma_div_fits(t: Tup, k: int)
    requires
        bounded(t),
        k != 0,
    ensures
        in_i64(div_units(t.x, k)),
        in_i64(div_units(t.y, k)),
        in_i64(div_units(t.z, k)),
        in_i64(div_units(t.w, k)),
{
    lemma_div_fits_one(t.x, k);
    lemma_div_fits_one(t.y, k);
    lemma_div_fits_one(t.z, k);
    lemma_div_fits_one(t.w, k);
}

proof fn lemma_div_fits_one(a: int, k: int)
    requires
        iabs(a) <= LIMIT,
        k != 0,
    ensures
        in_i64(div_units(a, k)),
{
    let d: int = iabs(k);
    assert(iabs(a * SCALE) <= (LIMIT as int * SCALE as int) * d) by (nonlinear_arith)
        requires
            iabs(a) <= LIMIT,
            d >= 1,
    ;
    lemma_rdiv_bound(a * SCALE, d, LIMIT as int * SCALE as int);
}

proof fn lemma_norm_fits(a: int, m: int)
    requires
        iabs(a) <= LIMIT,
        m >= 1,
    ensures
        in_i64(rdiv(a * SCALE, m)),
        iabs(rdiv(a * SCALE, m)) <= LIMIT as int * SCALE as int,
{
    assert(iabs(a * SCALE) <= (LIMIT as int * SCALE as int) * m) by (nonlinear_arith)
        requires
            iabs(a) <= LIMIT,
            m >= 1,
    ;
    lemma_rdiv_bound(a * SCALE, m, LIMIT as int * SCALE as int);
}

} // verus!
