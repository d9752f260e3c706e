//! Fixed-size square matrices: the 4x4 transform engine together with the
//! 3x3 and 2x2 minors that its determinant and inverse are built from.
//!
//! A matrix is stored row-major as a flat array of fixed-point scalars; the
//! entry in row `r`, column `c` of a 4x4 matrix sits at index `4 * r + c`.
//! Determinants and cofactors are computed over exact wide products and
//! rescaled as late as possible, so each result is a single rounding of the
//! exact cofactor expansion.

use crate::fixed::{
    div_round, iabs, in_i64, lemma_rdiv_bound, rdiv, rdiv_s, wide_mul, EPSILON, LIMIT, SCALE,
};
use crate::tuple::{bounded, Tup, Tuple};
use vstd::prelude::*;

verus! {

broadcast use vstd::array::group_array_axioms;

/// Failure of an operation that is only defined for invertible matrices.
#[derive(Clone, Copy, Debug, PartialEq, Eq, Structural)]
pub enum MatrixError {
    MatrixNotInvertible,
}

#[derive(Clone, Copy, Debug, PartialEq, Eq)]
pub struct M4x4 {
    pub m: [i64; 16],
}

#[derive(Clone, Copy, Debug, PartialEq, Eq)]
pub struct M3x3 {
    pub m: [i64; 9],
}

#[derive(Clone, Copy, Debug, PartialEq, Eq)]
pub struct M2x2 {
    pub m: [i64; 4],
}

impl View for M4x4 {
    type V = Seq<int>;

    open spec fn view(&self) -> Seq<int> {
        self.m@.map_values(|v: i64| v as int)
    }
}

impl View for M3x3 {
    type V = Seq<int>;

    open spec fn view(&self) -> Seq<int> {
        self.m@.map_values(|v: i64| v as int)
    }
}

impl View for M2x2 {
    type V = Seq<int>;

    open spec fn view(&self) -> Seq<int> {
        self.m@.map_values(|v: i64| v as int)
    }
}

/// Every entry lies within the coordinate limit.
pub open spec fn m_bounded(s: Seq<int>) -> bool {
    forall|i: int| 0 <= i < s.len() ==> iabs(#[trigger] s[i]) <= LIMIT
}

/// The identity transform.
pub open spec fn ident4() -> Seq<int> {
    seq![
        SCALE as int, 0, 0, 0,
        0, SCALE as int, 0, 0,
        0, 0, SCALE as int, 0,
        0, 0, 0, SCALE as int,
    ]
}

/// Row `row` and column `col` dropped from a 4x4 grid.
pub open spec fn sub4(s: Seq<int>, row: int, col: int) -> Seq<int> {
    Seq::new(
        9,
        |i: int|
            {
                let r = i / 3;
                let c = i % 3;
                s[4 * (if r >= row {
                    r + 1
                } else {
                    r
                }) + (if c >= col {
                    c + 1
                } else {
                    c
                })]
            },
    )
}

/// Row `row` and column `col` dropped from a 3x3 grid.
pub open spec fn sub3(s: Seq<int>, row: int, col: int) -> Seq<int> {
    Seq::new(
        4,
        |i: int|
            {
                let r = i / 2;
                let c = i % 2;
                s[3 * (if r >= row {
                    r + 1
                } else {
                    r
                }) + (if c >= col {
                    c + 1
                } else {
                    c
                })]
            },
    )
}

/// Exact 2x2 determinant over raw products (steps squared).
pub open spec fn rdet2(s: Seq<int>) -> int {
    s[0] * s[3] - s[1] * s[2]
}

/// Exact 3x3 cofactor expansion over raw products (steps cubed).
pub open spec fn rdet3(s: Seq<int>) -> int {
    s[0] * rdet2(sub3(s, 0, 0)) - s[1] * rdet2(sub3(s, 0, 1)) + s[2] * rdet2(sub3(s, 0, 2))
}

/// The parity sign of a cofactor position.
pub open spec fn cof_sign(r: int, c: int) -> int {
    if (r + c) % 2 == 0 {
        1
    } else {
        -1
    }
}

/// A 4x4 cofactor kept one rescaling wide (steps squared).
pub open spec fn cof_wide(s: Seq<int>, r: int, c: int) -> int {
    cof_sign(r, c) * rdiv_s(rdet3(sub4(s, r, c)), SCALE as int)
}

/// 4x4 determinant: expansion of row 0 against the wide cofactors, rescaled
/// once at the end.
pub open spec fn det4(s: Seq<int>) -> int {
    rdiv_s(
        s[0] * cof_wide(s, 0, 0) + s[1] * cof_wide(s, 0, 1) + s[2] * cof_wide(s, 0, 2) + s[3]
            * cof_wide(s, 0, 3),
        SCALE as int * SCALE as int,
    )
}

/// Entry `(r, c)` of the inverse: the transposed wide cofactor divided by
/// the determinant.
pub open spec fn inv4_entry(s: Seq<int>, r: int, c: int) -> int
    recommends
        det4(s) != 0,
{
    rdiv_s(cof_wide(s, c, r), det4(s))
}

pub open spec fn inv4(s: Seq<int>) -> Seq<int>
    recommends
        det4(s) != 0,
{
    Seq::new(16, |i: int| inv4_entry(s, i / 4, i % 4))
}

/// Every entry of the inverse fits in an `i64`.
pub open spec fn inv4_fits(s: Seq<int>) -> bool {
    forall|r: int, c: int| 0 <= r < 4 && 0 <= c < 4 ==> in_i64(#[trigger] inv4_entry(s, r, c))
}

/// One entry of a 4x4 matrix product.
pub open spec fn mm4_entry(a: Seq<int>, b: Seq<int>, r: int, c: int) -> int {
    rdiv_s(
        a[4 * r] * b[c] + a[4 * r + 1] * b[4 + c] + a[4 * r + 2] * b[8 + c] + a[4 * r + 3] * b[12
            + c],
        SCALE as int,
    )
}

/// Row-by-column product of two 4x4 matrices.
pub open spec fn mm4(a: Seq<int>, b: Seq<int>) -> Seq<int> {
    Seq::new(16, |i: int| mm4_entry(a, b, i / 4, i % 4))
}

/// A tuple treated as a column and multiplied from the left.
pub open spec fn apply4(s: Seq<int>, t: Tup) -> Tup {
    Tup {
        x: rdiv_s(s[0] * t.x + s[1] * t.y + s[2] * t.z + s[3] * t.w, SCALE as int),
        y: rdiv_s(s[4] * t.x + s[5] * t.y + s[6] * t.z + s[7] * t.w, SCALE as int),
        z: rdiv_s(s[8] * t.x + s[9] * t.y + s[10] * t.z + s[11] * t.w, SCALE as int),
        w: rdiv_s(s[12] * t.x + s[13] * t.y + s[14] * t.z + s[15] * t.w, SCALE as int),
    }
}

/// Rows exchanged with columns.
pub open spec fn transpose4(s: Seq<int>) -> Seq<int> {
    Seq::new(16, |i: int| s[4 * (i % 4) + i / 4])
}

pub open spec fn m_approx(a: Seq<int>, b: Seq<int>) -> bool {
    forall|i: int| 0 <= i < 16 ==> iabs(#[trigger] a[i] - b[i]) < EPSILON
}

impl M4x4 {
    /// A matrix from its sixteen entries in row-major order.
    pub fn new(m: [i64; 16]) -> (r: M4x4)
        ensures
            r@ == m@.map_values(|v: i64| v as int),
    {
        M4x4 { m }
    }

    /// The entry in row `r`, column `c`.
    pub fn at(&self, r: usize, c: usize) -> (v: i64)
        requires
            r < 4,
            c < 4,
        ensures
            v == self@[4 * r + c],
    {
        self.m[4 * r + c]
    }

    /// Componentwise equality within the tolerance.
    pub fn approx_eq(&self, other: &M4x4) -> (r: bool)
        ensures
            r == m_approx(self@, other@),
    {
        let mut i: usize = 0;
        while i < 16
            invariant
                i <= 16,
                forall|j: int| 0 <= j < i ==> iabs(#[trigger] self@[j] - other@[j]) < EPSILON,
            decreases 16 - i,
        {
            proof {
                assert(self@[i as int] == self.m@[i as int] as int);
                assert(other@[i as int] == other.m@[i as int] as int);
            }
            if !crate::fixed::approx_eq(self.m[i], other.m[i]) {
                return false;
            }
            i = i + 1;
        }
        true
    }
}

/// The identity matrix: the neutral transform.
pub fn identity_4x4() -> (r: M4x4)
    ensures
        r@ == ident4(),
{
    let r = M4x4 {
        m: [
            SCALE, 0, 0, 0,
            0, SCALE, 0, 0,
            0, 0, SCALE, 0,
            0, 0, 0, SCALE,
        ],
    };
    proof {
        assert(r@ =~= ident4());
    }
    r
}

/// Rows exchanged with columns.
pub fn transpose(m: M4x4) -> (r: M4x4)
    ensures
        r@ == transpose4(m@),
{
    let t = M4x4 {
        m: [
            m.m[0], m.m[4], m.m[8], m.m[12],
            m.m[1], m.m[5], m.m[9], m.m[13],
            m.m[2], m.m[6], m.m[10], m.m[14],
            m.m[3], m.m[7], m.m[11], m.m[15],
        ],
    };
    proof {
        assert(t@ =~= transpose4(m@));
    }
    t
}

/// One source entry of a 4x4 submatrix.
fn pick4(m: &M4x4, row: usize, col: usize, i: usize) -> (v: i64)
    requires
        row < 4,
        col < 4,
        i < 9,
    ensures
        v == sub4(m@, row as int, col as int)[i as int],
{
    let r = i / 3;
    let c = i % 3;
    let sr = if r >= row {
        r + 1
    } else {
        r
    };
    let sc = if c >= col {
        c + 1
    } else {
        c
    };
    m.m[4 * sr + sc]
}

/// One source entry of a 3x3 submatrix.
fn pick3(m: &M3x3, row: usize, col: usize, i: usize) -> (v: i64)
    requires
        row < 3,
        col < 3,
        i < 4,
    ensures
        v == sub3(m@, row as int, col as int)[i as int],
{
    let r = i / 2;
    let c = i % 2;
    let sr = if r >= row {
        r + 1
    } else {
        r
    };
    let sc = if c >= col {
        c + 1
    } else {
        c
    };
    m.m[3 * sr + sc]
}

/// The 3x3 matrix left when one row and one column are dropped.
pub fn submatrix_4x4(m: &M4x4, row: usize, col: usize) -> (r: M3x3)
    requires
        row < 4,
        col < 4,
    ensures
        r@ == sub4(m@, row as int, col as int),
{
    let s = M3x3 {
        m: [
            pick4(m, row, col, 0),
            pick4(m, row, col, 1),
            pick4(m, row, col, 2),
            pick4(m, row, col, 3),
            pick4(m, row, col, 4),
            pick4(m, row, col, 5),
            pick4(m, row, col, 6),
            pick4(m, row, col, 7),
            pick4(m, row, col, 8),
        ],
    };
    proof {
        assert(s@ =~= sub4(m@, row as int, col as int));
    }
    s
}

/// The 2x2 matrix left when one row and one column are dropped.
pub fn submatrix_3x3(m: &M3x3, row: usize, col: usize) -> (r: M2x2)
    requires
        row < 3,
        col < 3,
    ensures
        r@ == sub3(m@, row as int, col as int),
{
    let s = M2x2 {
        m: [
            pick3(m, row, col, 0),
            pick3(m, row, col, 1),
            pick3(m, row, col, 2),
            pick3(m, row, col, 3),
        ],
    };
    proof {
        assert(s@ =~= sub3(m@, row as int, col as int));
    }
    s
}

/// Raw 2x2 determinant, kept wide (steps squared).
fn rdet2_exec(m: &M2x2) -> (r: i128)
    requires
        m_bounded(m@),
    ensures
        r == rdet2(m@),
{
    let p0 = wide_mul(m.m[0], m.m[3]);
    let p1 = wide_mul(m.m[1], m.m[2]);
    proof {
        lemma_wide_prod_bound(m@[0], m@[3]);
        lemma_wide_prod_bound(m@[1], m@[2]);
    }
    p0 - p1
}

proof fn lemma_wide_prod_bound(a: int, b: int)
    requires
        iabs(a) <= LIMIT,
        iabs(b) <= LIMIT,
    ensures
        iabs(a * b) <= 400_000_000_000_000_000_000int,
{
    assert(iabs(a * b) <= 400_000_000_000_000_000_000int) by (nonlinear_arith)
        requires
            iabs(a) <= LIMIT,
            iabs(b) <= LIMIT,
            LIMIT == 20_000_000_000i64,
    ;
}

/// `ad - bc`, rescaled to steps.
pub fn determinant_2x2(m: &M2x2) -> (r: i64)
    requires
        m_bounded(m@),
    ensures
        r == rdiv_s(rdet2(m@), SCALE as int),
{
    let raw = rdet2_exec(m);
    proof {
        lemma_rdet2_bound(m@);
        lemma_rdiv_bound(rdet2(m@), SCALE as int, 8_000_000_000_000int);
    }
    let q = div_round(raw, SCALE as i128);
    q as i64
}

/// Raw 3x3 cofactor expansion, kept wide (steps cubed).
fn rdet3_exec(m: &M3x3) -> (r: i128)
    requires
        m_bounded(m@),
    ensures
        r == rdet3(m@),
{
    let s00 = submatrix_3x3(m, 0, 0);
    let s01 = submatrix_3x3(m, 0, 1);
    let s02 = submatrix_3x3(m, 0, 2);
    let d0 = rdet2_exec(&s00);
    let d1 = rdet2_exec(&s01);
    let d2 = rdet2_exec(&s02);
    proof {
        lemma_sub3_bounded(m@, 0, 0);
        lemma_sub3_bounded(m@, 0, 1);
        lemma_sub3_bounded(m@, 0, 2);
        lemma_rdet2_bound(sub3(m@, 0, 0));
        lemma_rdet2_bound(sub3(m@, 0, 1));
        lemma_rdet2_bound(sub3(m@, 0, 2));
        lemma_entry_times_det2(m@[0], rdet2(sub3(m@, 0, 0)));
        lemma_entry_times_det2(m@[1], rdet2(sub3(m@, 0, 1)));
        lemma_entry_times_det2(m@[2], rdet2(sub3(m@, 0, 2)));
    }
    let t0: i128 = m.m[0] as i128 * d0;
    let t1: i128 = m.m[1] as i128 * d1;
    let t2: i128 = m.m[2] as i128 * d2;
    t0 - t1 + t2
}

/// The determinant of the 2x2 submatrix at `(row, col)`.
pub fn minor_3x3(m: &M3x3, row: usize, col: usize) -> (r: i64)
    requires
        m_bounded(m@),
        row < 3,
        col < 3,
    ensures
        r == rdiv_s(rdet2(sub3(m@, row as int, col as int)), SCALE as int),
{
    let s = submatrix_3x3(m, row, col);
    proof {
        lemma_sub3_bounded(m@, row as int, col as int);
    }
    determinant_2x2(&s)
}

/// The minor, negated on odd positions.
pub fn cofactor_3x3(m: &M3x3, row: usize, col: usize) -> (r: i64)
    requires
        m_bounded(m@),
        row < 3,
        col < 3,
    ensures
        r == cof_sign(row as int, col as int) * rdiv_s(
            rdet2(sub3(m@, row as int, col as int)),
            SCALE as int,
        ),
{
    let minor = minor_3x3(m, row, col);
    if (row + col) % 2 == 0 {
        minor
    } else {
        proof {
            lemma_sub3_bounded(m@, row as int, col as int);
            lemma_rdet2_bound(sub3(m@, row as int, col as int));
            lemma_rdiv_bound(
                rdet2(sub3(m@, row as int, col as int)),
                SCALE as int,
                8_000_000_000_000int,
            );
        }
        -minor
    }
}

/// 3x3 determinant: one rescaling of the exact cofactor expansion.
pub fn determinant_3x3(m: &M3x3) -> (r: i64)
    requires
        m_bounded(m@),
    ensures
        r == rdiv_s(rdet3(m@), SCALE as int * SCALE as int),
{
    let raw = rdet3_exec(m);
    proof {
        lemma_rdet3_bound(m@);
        lemma_rdiv_bound(
            rdet3(m@),
            SCALE as int * SCALE as int,
            4_800_000_000_000_000int,
        );
    }
    let q = div_round(raw, SCALE as i128 * SCALE as i128);
    q as i64
}

/// A 4x4 cofactor kept one rescaling wide (steps squared).
fn cof_wide_exec(m: &M4x4, r: usize, c: usize) -> (v: i128)
    requires
        m_bounded(m@),
        r < 4,
        c < 4,
    ensures
        v == cof_wide(m@, r as int, c as int),
{
    let s = submatrix_4x4(m, r, c);
    proof {
        lemma_sub4_bounded(m@, r as int, c as int);
    }
    let raw = rdet3_exec(&s);
    proof {
        lemma_rdet3_bound(s@);
        lemma_rdiv_bound(rdet3(s@), SCALE as int, 480_000_000_000_000_000_000_000int);
    }
    let q = div_round(raw, SCALE as i128);
    if (r + c) % 2 == 0 {
        q
    } else {
        -q
    }
}

/// The wide cofactor is bounded by `6 * LIMIT^3 / SCALE`.
proof fn lemma_cof_wide_bound(s: Seq<int>, r: int, c: int)
    requires
        s.len() == 16,
        m_bounded(s),
        0 <= r < 4,
        0 <= c < 4,
    ensures
        iabs(cof_wide(s, r, c)) <= 480_000_000_000_000_000_000_000int,
{
    lemma_sub4_bounded(s, r, c);
    lemma_rdet3_bound(sub4(s, r, c));
    lemma_rdiv_bound(rdet3(sub4(s, r, c)), SCALE as int, 480_000_000_000_000_000_000_000int);
}

proof fn lemma_entry_times_cof(e: int, d: int)
    requires
        iabs(e) <= LIMIT,
        iabs(d) <= 480_000_000_000_000_000_000_000int,
    ensures
        iabs(e * d) <= 9_600_000_000_000_000_000_000_000_000_000_000int,
{
    assert(iabs(e * d) <= 9_600_000_000_000_000_000_000_000_000_000_000int)
        by (nonlinear_arith)
        requires
            iabs(e) <= LIMIT,
            iabs(d) <= 480_000_000_000_000_000_000_000int,
            LIMIT == 20_000_000_000i64,
    ;
}

/// The determinant of the 3x3 submatrix at `(row, col)`.
pub fn minor_4x4(m: &M4x4, row: usize, col: usize) -> (r: i64)
    requires
        m_bounded(m@),
        row < 4,
        col < 4,
    ensures
        r == rdiv_s(rdet3(sub4(m@, row as int, col as int)), SCALE as int * SCALE as int),
{
    let s = submatrix_4x4(m, row, col);
    proof {
        lemma_sub4_bounded(m@, row as int, col as int);
    }
    determinant_3x3(&s)
}

/// The minor, negated on odd positions.
pub fn cofactor_4x4(m: &M4x4, row: usize, col: usize) -> (r: i64)
    requires
        m_bounded(m@),
        row < 4,
        col < 4,
    ensures
        r == cof_sign(row as int, col as int) * rdiv_s(
            rdet3(sub4(m@, row as int, col as int)),
            SCALE as int * SCALE as int,
        ),
{
    let minor = minor_4x4(m, row, col);
    if (row + col) % 2 == 0 {
        minor
    } else {
        proof {
            lemma_sub4_bounded(m@, row as int, col as int);
            lemma_rdet3_bound(sub4(m@, row as int, col as int));
            lemma_rdiv_bound(
                rdet3(sub4(m@, row as int, col as int)),
                SCALE as int * SCALE as int,
                4_800_000_000_000_000int,
            );
        }
        -minor
    }
}

/// 4x4 determinant: expansion of row 0 against the wide cofactors.
pub fn determinant_4x4(m: &M4x4) -> (r: i64)
    requires
        m_bounded(m@),
    ensures
        r == det4(m@),
{
    let c0 = cof_wide_exec(m, 0, 0);
    let c1 = cof_wide_exec(m, 0, 1);
    let c2 = cof_wide_exec(m, 0, 2);
    let c3 = cof_wide_exec(m, 0, 3);
    proof {
        lemma_cof_wide_bound(m@, 0, 0);
        lemma_cof_wide_bound(m@, 0, 1);
        lemma_cof_wide_bound(m@, 0, 2);
        lemma_cof_wide_bound(m@, 0, 3);
        lemma_entry_times_cof(m@[0], cof_wide(m@, 0, 0));
        lemma_entry_times_cof(m@[1], cof_wide(m@, 0, 1));
        lemma_entry_times_cof(m@[2], cof_wide(m@, 0, 2));
        lemma_entry_times_cof(m@[3], cof_wide(m@, 0, 3));
    }
    let t: i128 = m.m[0] as i128 * c0 + m.m[1] as i128 * c1 + m.m[2] as i128 * c2 + m.m[3] as i128
        * c3;
    proof {
        lemma_rdiv_bound(
            t as int,
            SCALE as int * SCALE as int,
            3_840_000_000_000_000_000int,
        );
    }
    let q = div_round(t, SCALE as i128 * SCALE as i128);
    q as i64
}

/// Is the determinant nonzero?
pub fn invertible_4x4(m: &M4x4) -> (r: bool)
    requires
        m_bounded(m@),
    ensures
        r == (det4(m@) != 0),
{
    determinant_4x4(m) != 0
}

/// One entry of the inverse.
fn inv_entry_exec(m: &M4x4, det: i64, r: usize, c: usize) -> (v: i64)
    requires
        m_bounded(m@),
        det == det4(m@),
        det != 0,
        r < 4,
        c < 4,
        in_i64(inv4_entry(m@, r as int, c as int)),
    ensures
        v == inv4_entry(m@, r as int, c as int),
{
    let cw = cof_wide_exec(m, c, r);
    proof {
        lemma_cof_wide_bound(m@, c as int, r as int);
        let da: int = if det > 0 {
            det as int
        } else {
            -(det as int)
        };
        assert(iabs(cof_wide(m@, c as int, r as int)) <= 480_000_000_000_000_000_000_000int
            * da) by (nonlinear_arith)
            requires
                iabs(cof_wide(m@, c as int, r as int)) <= 480_000_000_000_000_000_000_000int,
                da >= 1,
        ;
        lemma_rdiv_bound(cof_wide(m@, c as int, r as int), da, 480_000_000_000_000_000_000_000int);
    }
    let q: i128 = if det > 0 {
        div_round(cw, det as i128)
    } else {
        -div_round(cw, -(det as i128))
    };
    q as i64
}

/// The inverse by the adjugate method: every entry is the transposed wide
/// cofactor divided by the determinant.  Fails exactly when the determinant
/// is zero.
#[verifier::rlimit(100)]
pub fn invert_4x4(m: &M4x4) -> (r: Result<M4x4, MatrixError>)
    requires
        m_bounded(m@),
        det4(m@) != 0 ==> inv4_fits(m@),
    ensures
        r is Err <==> det4(m@) == 0,
        r matches Ok(mi) ==> mi@ == inv4(m@),
        r matches Err(e) ==> e == MatrixError::MatrixNotInvertible,
{
    let det = determinant_4x4(m);
    if det == 0 {
        return Err(MatrixError::MatrixNotInvertible);
    }
    let out = M4x4 {
        m: [
            inv_entry_exec(m, det, 0, 0),
            inv_entry_exec(m, det, 0, 1),
            inv_entry_exec(m, det, 0, 2),
            inv_entry_exec(m, det, 0, 3),
            inv_entry_exec(m, det, 1, 0),
            inv_entry_exec(m, det, 1, 1),
            inv_entry_exec(m, det, 1, 2),
            inv_entry_exec(m, det, 1, 3),
            inv_entry_exec(m, det, 2, 0),
            inv_entry_exec(m, det, 2, 1),
            inv_entry_exec(m, det, 2, 2),
            inv_entry_exec(m, det, 2, 3),
            inv_entry_exec(m, det, 3, 0),
            inv_entry_exec(m, det, 3, 1),
            inv_entry_exec(m, det, 3, 2),
            inv_entry_exec(m, det, 3, 3),
        ],
    };
    proof {
        assert(out@ =~= inv4(m@));
    }
    Ok(out)
}

/// One entry of a matrix product.
fn mm_entry_exec(a: &M4x4, b: &M4x4, r: usize, c: usize) -> (v: i64)
    requires
        m_bounded(a@),
        m_bounded(b@),
        r < 4,
        c < 4,
    ensures
        v == mm4_entry(a@, b@, r as int, c as int),
{
    let p0 = wide_mul(a.m[4 * r], b.m[c]);
    let p1 = wide_mul(a.m[4 * r + 1], b.m[4 + c]);
    let p2 = wide_mul(a.m[4 * r + 2], b.m[8 + c]);
    let p3 = wide_mul(a.m[4 * r + 3], b.m[12 + c]);
    proof {
        lemma_wide_prod_bound(a@[4 * r as int], b@[c as int]);
        lemma_wide_prod_bound(a@[4 * r as int + 1], b@[4 + c as int]);
        lemma_wide_prod_bound(a@[4 * r as int + 2], b@[8 + c as int]);
        lemma_wide_prod_bound(a@[4 * r as int + 3], b@[12 + c as int]);
        lemma_rdiv_bound(
            p0 as int + p1 + p2 + p3,
            SCALE as int,
            16_000_000_000_000int,
        );
    }
    let q = div_round(p0 + p1 + p2 + p3, SCALE as i128);
    q as i64
}

impl M4x4 {
    /// Row-by-column product.
    pub fn multiply(&self, other: &M4x4) -> (r: M4x4)
        requires
            m_bounded(self@),
            m_bounded(other@),
        ensures
            r@ == mm4(self@, other@),
    {
        let out = M4x4 {
            m: [
                mm_entry_exec(self, other, 0, 0),
                mm_entry_exec(self, other, 0, 1),
                mm_entry_exec(self, other, 0, 2),
                mm_entry_exec(self, other, 0, 3),
                mm_entry_exec(self, other, 1, 0),
                mm_entry_exec(self, other, 1, 1),
                mm_entry_exec(self, other, 1, 2),
                mm_entry_exec(self, other, 1, 3),
                mm_entry_exec(self, other, 2, 0),
                mm_entry_exec(self, other, 2, 1),
                mm_entry_exec(self, other, 2, 2),
                mm_entry_exec(self, other, 2, 3),
                mm_entry_exec(self, other, 3, 0),
                mm_entry_exec(self, other, 3, 1),
                mm_entry_exec(self, other, 3, 2),
                mm_entry_exec(self, other, 3, 3),
            ],
        };
        proof {
            assert(out@ =~= mm4(self@, other@));
        }
        out
    }

    /// The tuple treated as a column and multiplied from the left.
    pub fn apply(&self, t: &Tuple) -> (r: Tuple)
        requires
            m_bounded(self@),
            bounded(t@),
        ensures
            r@ == apply4(self@, t@),
    {
        Tuple {
            x: apply_row_exec(self, t, 0),
            y: apply_row_exec(self, t, 1),
            z: apply_row_exec(self, t, 2),
            w: apply_row_exec(self, t, 3),
        }
    }
}

/// One component of a matrix-tuple product.
fn apply_row_exec(m: &M4x4, t: &Tuple, r: usize) -> (v: i64)
    requires
        m_bounded(m@),
        bounded(t@),
        r < 4,
    ensures
        v == rdiv_s(
            m@[4 * r] * t@.x + m@[4 * r + 1] * t@.y + m@[4 * r + 2] * t@.z + m@[4 * r + 3] * t@.w,
            SCALE as int,
        ),
{
    let p0 = wide_mul(m.m[4 * r], t.x);
    let p1 = wide_mul(m.m[4 * r + 1], t.y);
    let p2 = wide_mul(m.m[4 * r + 2], t.z);
    let p3 = wide_mul(m.m[4 * r + 3], t.w);
    proof {
        lemma_wide_prod_bound(m@[4 * r as int], t@.x);
        lemma_wide_prod_bound(m@[4 * r as int + 1], t@.y);
        lemma_wide_prod_bound(m@[4 * r as int + 2], t@.z);
        lemma_wide_prod_bound(m@[4 * r as int + 3], t@.w);
        lemma_rdiv_bound(
            p0 as int + p1 + p2 + p3,
            SCALE as int,
            16_000_000_000_000int,
        );
    }
    let q = div_round(p0 + p1 + p2 + p3, SCALE as i128);
    q as i64
}

/// Transposing permutes the entries, so boundedness carries over.
pub proof fn lemma_transpose_bounded(s: Seq<int>)
    requires
        s.len() == 16,
        m_bounded(s),
    ensures
        m_bounded(transpose4(s)),
{
    assert forall|i: int| 0 <= i < 16 implies iabs(#[trigger] transpose4(s)[i]) <= LIMIT by {
        assert(0 <= 4 * (i % 4) + i / 4 < 16);
    }
}

/// Entries of a dropped-row/column grid come from the original grid.
proof fn lemma_sub4_bounded(s: Seq<int>, row: int, col: int)
    requires
        s.len() == 16,
        m_bounded(s),
        0 <= row < 4,
        0 <= col < 4,
    ensures
        m_bounded(sub4(s, row, col)),
{
    assert forall|i: int| 0 <= i < 9 implies iabs(#[trigger] sub4(s, row, col)[i]) <= LIMIT by {
        let r = i / 3;
        let c = i % 3;
        assert(0 <= r < 3 && 0 <= c < 3);
    }
}

proof fn lemma_sub3_bounded(s: Seq<int>, row: int, col: int)
    requires
        s.len() == 9,
        m_bounded(s),
        0 <= row < 3,
        0 <= col < 3,
    ensures
        m_bounded(sub3(s, row, col)),
{
    assert forall|i: int| 0 <= i < 4 implies iabs(#[trigger] sub3(s, row, col)[i]) <= LIMIT by {
        let r = i / 2;
        let c = i % 2;
        assert(0 <= r < 2 && 0 <= c < 2);
    }
}

/// `|rdet2| <= 2 * LIMIT^2` for bounded entries.
proof fn lemma_rdet2_bound(s: Seq<int>)
    requires
        s.len() == 4,
        m_bounded(s),
    ensures
        iabs(rdet2(s)) <= 800_000_000_000_000_000_000int,
{
    assert(iabs(s[0] * s[3] - s[1] * s[2]) <= 800_000_000_000_000_000_000int)
        by (nonlinear_arith)
        requires
            iabs(s[0]) <= LIMIT,
            iabs(s[1]) <= LIMIT,
            iabs(s[2]) <= LIMIT,
            iabs(s[3]) <= LIMIT,
            LIMIT == 20_000_000_000i64,
    ;
}

proof fn lemma_entry_times_det2(e: int, d: int)
    requires
        iabs(e) <= LIMIT,
        iabs(d) <= 800_000_000_000_000_000_000int,
    ensures
        iabs(e * d) <= 16_000_000_000_000_000_000_000_000_000_000int,
{
    assert(iabs(e * d) <= 16_000_000_000_000_000_000_000_000_000_000int) by (nonlinear_arith)
        requires
            iabs(e) <= LIMIT,
            iabs(d) <= 800_000_000_000_000_000_000int,
            LIMIT == 20_000_000_000i64,
    ;
}

/// `|rdet3| <= 6 * LIMIT^3` for bounded entries.
proof fn lemma_rdet3_bound(s: Seq<int>)
    requires
        s.len() == 9,
        m_bounded(s),
    ensures
        iabs(rdet3(s)) <= 48_000_000_000_000_000_000_000_000_000_000int,
{
    lemma_sub3_bounded(s, 0, 0);
    lemma_sub3_bounded(s, 0, 1);
    lemma_sub3_bounded(s, 0, 2);
    lemma_rdet2_bound(sub3(s, 0, 0));
    lemma_rdet2_bound(sub3(s, 0, 1));
    lemma_rdet2_bound(sub3(s, 0, 2));
    lemma_entry_times_det2(s[0], rdet2(sub3(s, 0, 0)));
    lemma_entry_times_det2(s[1], rdet2(sub3(s, 0, 1)));
    lemma_entry_times_det2(s[2], rdet2(sub3(s, 0, 2)));
}


/// The exact cofactor expansion of the whole 4x4 grid, kept raw.
pub open spec fn rdet4_raw(s: Seq<int>) -> int {
    s[0] * rdet3(sub4(s, 0, 0)) - s[1] * rdet3(sub4(s, 0, 1)) + s[2] * rdet3(sub4(s, 0, 2)) - s[3]
        * rdet3(sub4(s, 0, 3))
}

/// The raw 3x3 determinant written out as its six monomials.
proof fn lemma_rdet3_as_poly(t: Seq<int>)
    requires
        t.len() == 9,
    ensures
        rdet3(t) == t[0] * t[4] * t[8] - t[0] * t[5] * t[7] - t[1] * t[3] * t[8] + t[1] * t[5]
            * t[6] + t[2] * t[3] * t[7] - t[2] * t[4] * t[6],
{
    let a = t[0];
    let b = t[1];
    let c = t[2];
    let d = t[3];
    let e = t[4];
    let f = t[5];
    let g = t[6];
    let h = t[7];
    let i2 = t[8];
    assert(sub3(t, 0, 0) =~= seq![e, f, h, i2]);
    assert(sub3(t, 0, 1) =~= seq![d, f, g, i2]);
    assert(sub3(t, 0, 2) =~= seq![d, e, g, h]);
    let p0 = e * i2 - f * h;
    let p1 = d * i2 - f * g;
    let p2 = d * h - e * g;
    assert(rdet3(t) == a * p0 - b * p1 + c * p2);
    assert(a * p0 == a * (e * i2) - a * (f * h)) by (nonlinear_arith)
        requires
            p0 == e * i2 - f * h,
    ;
    assert(b * p1 == b * (d * i2) - b * (f * g)) by (nonlinear_arith)
        requires
            p1 == d * i2 - f * g,
    ;
    assert(c * p2 == c * (d * h) - c * (e * g)) by (nonlinear_arith)
        requires
            p2 == d * h - e * g,
    ;
    assert(a * (e * i2) == a * e * i2) by (nonlinear_arith);
    assert(a * (f * h) == a * f * h) by (nonlinear_arith);
    assert(b * (d * i2) == b * d * i2) by (nonlinear_arith);
    assert(b * (f * g) == b * f * g) by (nonlinear_arith);
    assert(c * (d * h) == c * d * h) by (nonlinear_arith);
    assert(c * (e * g) == c * e * g) by (nonlinear_arith);
}

proof fn lemma_laplace_0_1(s: Seq<int>)
    requires
        s.len() == 16,
    ensures
        s[1] * rdet3(sub4(s, 1, 1)) + s[3] * rdet3(sub4(s, 1, 3)) - s[0] * rdet3(sub4(s, 1, 0)) - s[2] * rdet3(sub4(s, 1, 2)) == 0,
{
    let m0 = s[0];
    let m1 = s[1];
    let m2 = s[2];
    let m3 = s[3];
    let m4 = s[4];
    let m5 = s[5];
    let m6 = s[6];
    let m7 = s[7];
    let m8 = s[8];
    let m9 = s[9];
    let m10 = s[10];
    let m11 = s[11];
    let m12 = s[12];
    let m13 = s[13];
    let m14 = s[14];
    let m15 = s[15];
    assert(sub4(s, 1, 0) =~= seq![m1, m2, m3, m9, m10, m11, m13, m14, m15]);
    lemma_rdet3_as_poly(sub4(s, 1, 0));
    assert(sub4(s, 1, 1) =~= seq![m0, m2, m3, m8, m10, m11, m12, m14, m15]);
    lemma_rdet3_as_poly(sub4(s, 1, 1));
    assert(sub4(s, 1, 2) =~= seq![m0, m1, m3, m8, m9, m11, m12, m13, m15]);
    lemma_rdet3_as_poly(sub4(s, 1, 2));
    assert(sub4(s, 1, 3) =~= seq![m0, m1, m2, m8, m9, m10, m12, m13, m14]);
    lemma_rdet3_as_poly(sub4(s, 1, 3));
    let x0 = rdet3(sub4(s, 1, 0));
    let x1 = rdet3(sub4(s, 1, 1));
    let x2 = rdet3(sub4(s, 1, 2));
    let x3 = rdet3(sub4(s, 1, 3));
    let x0_0 = m1 * m10 * m15;
    let x0_1 = m1 * m11 * m14;
    let x0_2 = m2 * m9 * m15;
    let x0_3 = m2 * m11 * m13;
    let x0_4 = m3 * m9 * m14;
    let x0_5 = m3 * m10 * m13;
    assert(m0 * x0 == m0 * x0_0 + m0 * x0_3 + m0 * x0_4 - m0 * x0_1 - m0 * x0_2 - m0 * x0_5) by (nonlinear_arith)
        requires
            x0 == x0_0 + x0_3 + x0_4 - x0_1 - x0_2 - x0_5,
    ;
    assert(m0 * x0_0 == m0 * m1 * m10 * m15) by (nonlinear_arith)
        requires
            x0_0 == m1 * m10 * m15,
    ;
    assert(m0 * x0_1 == m0 * m1 * m11 * m14) by (nonlinear_arith)
        requires
            x0_1 == m1 * m11 * m14,
    ;
    assert(m0 * x0_2 == m0 * m2 * m9 * m15) by (nonlinear_arith)
        requires
            x0_2 == m2 * m9 * m15,
    ;
    assert(m0 * x0_3 == m0 * m2 * m11 * m13) by (nonlinear_arith)
        requires
            x0_3 == m2 * m11 * m13,
    ;
    assert(m0 * x0_4 == m0 * m3 * m9 * m14) by (nonlinear_arith)
        requires
            x0_4 == m3 * m9 * m14,
    ;
    assert(m0 * x0_5 == m0 * m3 * m10 * m13) by (nonlinear_arith)
        requires
            x0_5 == m3 * m10 * m13,
    ;
    let x1_0 = m0 * m10 * m15;
    let x1_1 = m0 * m11 * m14;
    let x1_2 = m2 * m8 * m15;
    let x1_3 = m2 * m11 * m12;
    let x1_4 = m3 * m8 * m14;
    let x1_5 = m3 * m10 * m12;
    assert(m1 * x1 == m1 * x1_0 + m1 * x1_3 + m1 * x1_4 - m1 * x1_1 - m1 * x1_2 - m1 * x1_5) by (nonlinear_arith)
        requires
            x1 == x1_0 + x1_3 + x1_4 - x1_1 - x1_2 - x1_5,
    ;
    assert(m1 * x1_0 == m0 * m1 * m10 * m15) by (nonlinear_arith)
        requires
            x1_0 == m0 * m10 * m15,
    ;
    assert(m1 * x1_1 == m0 * m1 * m11 * m14) by (nonlinear_arith)
        requires
            x1_1 == m0 * m11 * m14,
    ;
    assert(m1 * x1_2 == m1 * m2 * m8 * m15) by (nonlinear_arith)
        requires
            x1_2 == m2 * m8 * m15,
    ;
    assert(m1 * x1_3 == m1 * m2 * m11 * m12) by (nonlinear_arith)
        requires
            x1_3 == m2 * m11 * m12,
    ;
    assert(m1 * x1_4 == m1 * m3 * m8 * m14) by (nonlinear_arith)
        requires
            x1_4 == m3 * m8 * m14,
    ;
    assert(m1 * x1_5 == m1 * m3 * m10 * m12) by (nonlinear_arith)
        requires
            x1_5 == m3 * m10 * m12,
    ;
    let x2_0 = m0 * m9 * m15;
    let x2_1 = m0 * m11 * m13;
    let x2_2 = m1 * m8 * m15;
    let x2_3 = m1 * m11 * m12;
    let x2_4 = m3 * m8 * m13;
    let x2_5 = m3 * m9 * m12;
    assert(m2 * x2 == m2 * x2_0 + m2 * x2_3 + m2 * x2_4 - m2 * x2_1 - m2 * x2_2 - m2 * x2_5) by (nonlinear_arith)
        requires
            x2 == x2_0 + x2_3 + x2_4 - x2_1 - x2_2 - x2_5,
    ;
    assert(m2 * x2_0 == m0 * m2 * m9 * m15) by (nonlinear_arith)
        requires
            x2_0 == m0 * m9 * m15,
    ;
    assert(m2 * x2_1 == m0 * m2 * m11 * m13) by (nonlinear_arith)
        requires
            x2_1 == m0 * m11 * m13,
    ;
    assert(m2 * x2_2 == m1 * m2 * m8 * m15) by (nonlinear_arith)
        requires
            x2_2 == m1 * m8 * m15,
    ;
    assert(m2 * x2_3 == m1 * m2 * m11 * m12) by (nonlinear_arith)
        requires
            x2_3 == m1 * m11 * m12,
    ;
    assert(m2 * x2_4 == m2 * m3 * m8 * m13) by (nonlinear_arith)
        requires
            x2_4 == m3 * m8 * m13,
    ;
    assert(m2 * x2_5 == m2 * m3 * m9 * m12) by (nonlinear_arith)
        requires
            x2_5 == m3 * m9 * m12,
    ;
    let x3_0 = m0 * m9 * m14;
    let x3_1 = m0 * m10 * m13;
    let x3_2 = m1 * m8 * m14;
    let x3_3 = m1 * m10 * m12;
    let x3_4 = m2 * m8 * m13;
    let x3_5 = m2 * m9 * m12;
    assert(m3 * x3 == m3 * x3_0 + m3 * x3_3 + m3 * x3_4 - m3 * x3_1 - m3 * x3_2 - m3 * x3_5) by (nonlinear_arith)
        requires
            x3 == x3_0 + x3_3 + x3_4 - x3_1 - x3_2 - x3_5,
    ;
    assert(m3 * x3_0 == m0 * m3 * m9 * m14) by (nonlinear_arith)
        requires
            x3_0 == m0 * m9 * m14,
    ;
    assert(m3 * x3_1 == m0 * m3 * m10 * m13) by (nonlinear_arith)
        requires
            x3_1 == m0 * m10 * m13,
    ;
    assert(m3 * x3_2 == m1 * m3 * m8 * m14) by (nonlinear_arith)
        requires
            x3_2 == m1 * m8 * m14,
    ;
    assert(m3 * x3_3 == m1 * m3 * m10 * m12) by (nonlinear_arith)
        requires
            x3_3 == m1 * m10 * m12,
    ;
    assert(m3 * x3_4 == m2 * m3 * m8 * m13) by (nonlinear_arith)
        requires
            x3_4 == m2 * m8 * m13,
    ;
    assert(m3 * x3_5 == m2 * m3 * m9 * m12) by (nonlinear_arith)
        requires
            x3_5 == m2 * m9 * m12,
    ;
    assert(m1 * x1 + m3 * x3 - m0 * x0 - m2 * x2 == 0);
}

proof fn lemma_laplace_0_2(s: Seq<int>)
    requires
        s.len() == 16,
    ensures
        s[0] * rdet3(sub4(s, 2, 0)) + s[2] * rdet3(sub4(s, 2, 2)) - s[1] * rdet3(sub4(s, 2, 1)) - s[3] * rdet3(sub4(s, 2, 3)) == 0,
{
    let m0 = s[0];
    let m1 = s[1];
    let m2 = s[2];
    let m3 = s[3];
    let m4 = s[4];
    let m5 = s[5];
    let m6 = s[6];
    let m7 = s[7];
    let m8 = s[8];
    let m9 = s[9];
    let m10 = s[10];
    let m11 = s[11];
    let m12 = s[12];
    let m13 = s[13];
    let m14 = s[14];
    let m15 = s[15];
    assert(sub4(s, 2, 0) =~= seq![m1, m2, m3, m5, m6, m7, m13, m14, m15]);
    lemma_rdet3_as_poly(sub4(s, 2, 0));
    assert(sub4(s, 2, 1) =~= seq![m0, m2, m3, m4, m6, m7, m12, m14, m15]);
    lemma_rdet3_as_poly(sub4(s, 2, 1));
    assert(sub4(s, 2, 2) =~= seq![m0, m1, m3, m4, m5, m7, m12, m13, m15]);
    lemma_rdet3_as_poly(sub4(s, 2, 2));
    assert(sub4(s, 2, 3) =~= seq![m0, m1, m2, m4, m5, m6, m12, m13, m14]);
    lemma_rdet3_as_poly(sub4(s, 2, 3));
    let x0 = rdet3(sub4(s, 2, 0));
    let x1 = rdet3(sub4(s, 2, 1));
    let x2 = rdet3(sub4(s, 2, 2));
    let x3 = rdet3(sub4(s, 2, 3));
    let x0_0 = m1 * m6 * m15;
    let x0_1 = m1 * m7 * m14;
    let x0_2 = m2 * m5 * m15;
    let x0_3 = m2 * m7 * m13;
    let x0_4 = m3 * m5 * m14;
    let x0_5 = m3 * m6 * m13;
    assert(m0 * x0 == m0 * x0_0 + m0 * x0_3 + m0 * x0_4 - m0 * x0_1 - m0 * x0_2 - m0 * x0_5) by (nonlinear_arith)
        requires
            x0 == x0_0 + x0_3 + x0_4 - x0_1 - x0_2 - x0_5,
    ;
    assert(m0 * x0_0 == m0 * m1 * m6 * m15) by (nonlinear_arith)
        requires
            x0_0 == m1 * m6 * m15,
    ;
    assert(m0 * x0_1 == m0 * m1 * m7 * m14) by (nonlinear_arith)
        requires
            x0_1 == m1 * m7 * m14,
    ;
    assert(m0 * x0_2 == m0 * m2 * m5 * m15) by (nonlinear_arith)
        requires
            x0_2 == m2 * m5 * m15,
    ;
    assert(m0 * x0_3 == m0 * m2 * m7 * m13) by (nonlinear_arith)
        requires
            x0_3 == m2 * m7 * m13,
    ;
    assert(m0 * x0_4 == m0 * m3 * m5 * m14) by (nonlinear_arith)
        requires
            x0_4 == m3 * m5 * m14,
    ;
    assert(m0 * x0_5 == m0 * m3 * m6 * m13) by (nonlinear_arith)
        requires
            x0_5 == m3 * m6 * m13,
    ;
    let x1_0 = m0 * m6 * m15;
    let x1_1 = m0 * m7 * m14;
    let x1_2 = m2 * m4 * m15;
    let x1_3 = m2 * m7 * m12;
    let x1_4 = m3 * m4 * m14;
    let x1_5 = m3 * m6 * m12;
    assert(m1 * x1 == m1 * x1_0 + m1 * x1_3 + m1 * x1_4 - m1 * x1_1 - m1 * x1_2 - m1 * x1_5) by (nonlinear_arith)
        requires
            x1 == x1_0 + x1_3 + x1_4 - x1_1 - x1_2 - x1_5,
    ;
    assert(m1 * x1_0 == m0 * m1 * m6 * m15) by (nonlinear_arith)
        requires
            x1_0 == m0 * m6 * m15,
    ;
    assert(m1 * x1_1 == m0 * m1 * m7 * m14) by (nonlinear_arith)
        requires
            x1_1 == m0 * m7 * m14,
    ;
    assert(m1 * x1_2 == m1 * m2 * m4 * m15) by (nonlinear_arith)
        requires
            x1_2 == m2 * m4 * m15,
    ;
    assert(m1 * x1_3 == m1 * m2 * m7 * m12) by (nonlinear_arith)
        requires
            x1_3 == m2 * m7 * m12,
    ;
    assert(m1 * x1_4 == m1 * m3 * m4 * m14) by (nonlinear_arith)
        requires
            x1_4 == m3 * m4 * m14,
    ;
    assert(m1 * x1_5 == m1 * m3 * m6 * m12) by (nonlinear_arith)
        requires
            x1_5 == m3 * m6 * m12,
    ;
    let x2_0 = m0 * m5 * m15;
    let x2_1 = m0 * m7 * m13;
    let x2_2 = m1 * m4 * m15;
    let x2_3 = m1 * m7 * m12;
    let x2_4 = m3 * m4 * m13;
    let x2_5 = m3 * m5 * m12;
    assert(m2 * x2 == m2 * x2_0 + m2 * x2_3 + m2 * x2_4 - m2 * x2_1 - m2 * x2_2 - m2 * x2_5) by (nonlinear_arith)
        requires
            x2 == x2_0 + x2_3 + x2_4 - x2_1 - x2_2 - x2_5,
    ;
    assert(m2 * x2_0 == m0 * m2 * m5 * m15) by (nonlinear_arith)
        requires
            x2_0 == m0 * m5 * m15,
    ;
    assert(m2 * x2_1 == m0 * m2 * m7 * m13) by (nonlinear_arith)
        requires
            x2_1 == m0 * m7 * m13,
    ;
    assert(m2 * x2_2 == m1 * m2 * m4 * m15) by (nonlinear_arith)
        requires
            x2_2 == m1 * m4 * m15,
    ;
    assert(m2 * x2_3 == m1 * m2 * m7 * m12) by (nonlinear_arith)
        requires
            x2_3 == m1 * m7 * m12,
    ;
    assert(m2 * x2_4 == m2 * m3 * m4 * m13) by (nonlinear_arith)
        requires
            x2_4 == m3 * m4 * m13,
    ;
    assert(m2 * x2_5 == m2 * m3 * m5 * m12) by (nonlinear_arith)
        requires
            x2_5 == m3 * m5 * m12,
    ;
    let x3_0 = m0 * m5 * m14;
    let x3_1 = m0 * m6 * m13;
    let x3_2 = m1 * m4 * m14;
    let x3_3 = m1 * m6 * m12;
    let x3_4 = m2 * m4 * m13;
    let x3_5 = m2 * m5 * m12;
    assert(m3 * x3 == m3 * x3_0 + m3 * x3_3 + m3 * x3_4 - m3 * x3_1 - m3 * x3_2 - m3 * x3_5) by (nonlinear_arith)
        requires
            x3 == x3_0 + x3_3 + x3_4 - x3_1 - x3_2 - x3_5,
    ;
    assert(m3 * x3_0 == m0 * m3 * m5 * m14) by (nonlinear_arith)
        requires
            x3_0 == m0 * m5 * m14,
    ;
    assert(m3 * x3_1 == m0 * m3 * m6 * m13) by (nonlinear_arith)
        requires
            x3_1 == m0 * m6 * m13,
    ;
    assert(m3 * x3_2 == m1 * m3 * m4 * m14) by (nonlinear_arith)
        requires
            x3_2 == m1 * m4 * m14,
    ;
    assert(m3 * x3_3 == m1 * m3 * m6 * m12) by (nonlinear_arith)
        requires
            x3_3 == m1 * m6 * m12,
    ;
    assert(m3 * x3_4 == m2 * m3 * m4 * m13) by (nonlinear_arith)
        requires
            x3_4 == m2 * m4 * m13,
    ;
    assert(m3 * x3_5 == m2 * m3 * m5 * m12) by (nonlinear_arith)
        requires
            x3_5 == m2 * m5 * m12,
    ;
    assert(m0 * x0 + m2 * x2 - m1 * x1 - m3 * x3 == 0);
}

proof fn lemma_laplace_0_3(s: Seq<int>)
    requires
        s.len() == 16,
    ensures
        s[1] * rdet3(sub4(s, 3, 1)) + s[3] * rdet3(sub4(s, 3, 3)) - s[0] * rdet3(sub4(s, 3, 0)) - s[2] * rdet3(sub4(s, 3, 2)) == 0,
{
    let m0 = s[0];
    let m1 = s[1];
    let m2 = s[2];
    let m3 = s[3];
    let m4 = s[4];
    let m5 = s[5];
    let m6 = s[6];
    let m7 = s[7];
    let m8 = s[8];
    let m9 = s[9];
    let m10 = s[10];
    let m11 = s[11];
    let m12 = s[12];
    let m13 = s[13];
    let m14 = s[14];
    let m15 = s[15];
    assert(sub4(s, 3, 0) =~= seq![m1, m2, m3, m5, m6, m7, m9, m10, m11]);
    lemma_rdet3_as_poly(sub4(s, 3, 0));
    assert(sub4(s, 3, 1) =~= seq![m0, m2, m3, m4, m6, m7, m8, m10, m11]);
    lemma_rdet3_as_poly(sub4(s, 3, 1));
    assert(sub4(s, 3, 2) =~= seq![m0, m1, m3, m4, m5, m7, m8, m9, m11]);
    lemma_rdet3_as_poly(sub4(s, 3, 2));
    assert(sub4(s, 3, 3) =~= seq![m0, m1, m2, m4, m5, m6, m8, m9, m10]);
    lemma_rdet3_as_poly(sub4(s, 3, 3));
    let x0 = rdet3(sub4(s, 3, 0));
    let x1 = rdet3(sub4(s, 3, 1));
    let x2 = rdet3(sub4(s, 3, 2));
    let x3 = rdet3(sub4(s, 3, 3));
    let x0_0 = m1 * m6 * m11;
    let x0_1 = m1 * m7 * m10;
    let x0_2 = m2 * m5 * m11;
    let x0_3 = m2 * m7 * m9;
    let x0_4 = m3 * m5 * m10;
    let x0_5 = m3 * m6 * m9;
    assert(m0 * x0 == m0 * x0_0 + m0 * x0_3 + m0 * x0_4 - m0 * x0_1 - m0 * x0_2 - m0 * x0_5) by (nonlinear_arith)
        requires
            x0 == x0_0 + x0_3 + x0_4 - x0_1 - x0_2 - x0_5,
    ;
    assert(m0 * x0_0 == m0 * m1 * m6 * m11) by (nonlinear_arith)
        requires
            x0_0 == m1 * m6 * m11,
    ;
    assert(m0 * x0_1 == m0 * m1 * m7 * m10) by (nonlinear_arith)
        requires
            x0_1 == m1 * m7 * m10,
    ;
    assert(m0 * x0_2 == m0 * m2 * m5 * m11) by (nonlinear_arith)
        requires
            x0_2 == m2 * m5 * m11,
    ;
    assert(m0 * x0_3 == m0 * m2 * m7 * m9) by (nonlinear_arith)
        requires
            x0_3 == m2 * m7 * m9,
    ;
    assert(m0 * x0_4 == m0 * m3 * m5 * m10) by (nonlinear_arith)
        requires
            x0_4 == m3 * m5 * m10,
    ;
    assert(m0 * x0_5 == m0 * m3 * m6 * m9) by (nonlinear_arith)
        requires
            x0_5 == m3 * m6 * m9,
    ;
    let x1_0 = m0 * m6 * m11;
    let x1_1 = m0 * m7 * m10;
    let x1_2 = m2 * m4 * m11;
    let x1_3 = m2 * m7 * m8;
    let x1_4 = m3 * m4 * m10;
    let x1_5 = m3 * m6 * m8;
    assert(m1 * x1 == m1 * x1_0 + m1 * x1_3 + m1 * x1_4 - m1 * x1_1 - m1 * x1_2 - m1 * x1_5) by (nonlinear_arith)
        requires
            x1 == x1_0 + x1_3 + x1_4 - x1_1 - x1_2 - x1_5,
    ;
    assert(m1 * x1_0 == m0 * m1 * m6 * m11) by (nonlinear_arith)
        requires
            x1_0 == m0 * m6 * m11,
    ;
    assert(m1 * x1_1 == m0 * m1 * m7 * m10) by (nonlinear_arith)
        requires
            x1_1 == m0 * m7 * m10,
    ;
    assert(m1 * x1_2 == m1 * m2 * m4 * m11) by (nonlinear_arith)
        requires
            x1_2 == m2 * m4 * m11,
    ;
    assert(m1 * x1_3 == m1 * m2 * m7 * m8) by (nonlinear_arith)
        requires
            x1_3 == m2 * m7 * m8,
    ;
    assert(m1 * x1_4 == m1 * m3 * m4 * m10) by (nonlinear_arith)
        requires
            x1_4 == m3 * m4 * m10,
    ;
    assert(m1 * x1_5 == m1 * m3 * m6 * m8) by (nonlinear_arith)
        requires
            x1_5 == m3 * m6 * m8,
    ;
    let x2_0 = m0 * m5 * m11;
    let x2_1 = m0 * m7 * m9;
    let x2_2 = m1 * m4 * m11;
    let x2_3 = m1 * m7 * m8;
    let x2_4 = m3 * m4 * m9;
    let x2_5 = m3 * m5 * m8;
    assert(m2 * x2 == m2 * x2_0 + m2 * x2_3 + m2 * x2_4 - m2 * x2_1 - m2 * x2_2 - m2 * x2_5) by (nonlinear_arith)
        requires
            x2 == x2_0 + x2_3 + x2_4 - x2_1 - x2_2 - x2_5,
    ;
    assert(m2 * x2_0 == m0 * m2 * m5 * m11) by (nonlinear_arith)
        requires
            x2_0 == m0 * m5 * m11,
    ;
    assert(m2 * x2_1 == m0 * m2 * m7 * m9) by (nonlinear_arith)
        requires
            x2_1 == m0 * m7 * m9,
    ;
    assert(m2 * x2_2 == m1 * m2 * m4 * m11) by (nonlinear_arith)
        requires
            x2_2 == m1 * m4 * m11,
    ;
    assert(m2 * x2_3 == m1 * m2 * m7 * m8) by (nonlinear_arith)
        requires
            x2_3 == m1 * m7 * m8,
    ;
    assert(m2 * x2_4 == m2 * m3 * m4 * m9) by (nonlinear_arith)
        requires
            x2_4 == m3 * m4 * m9,
    ;
    assert(m2 * x2_5 == m2 * m3 * m5 * m8) by (nonlinear_arith)
        requires
            x2_5 == m3 * m5 * m8,
    ;
    let x3_0 = m0 * m5 * m10;
    let x3_1 = m0 * m6 * m9;
    let x3_2 = m1 * m4 * m10;
    let x3_3 = m1 * m6 * m8;
    let x3_4 = m2 * m4 * m9;
    let x3_5 = m2 * m5 * m8;
    assert(m3 * x3 == m3 * x3_0 + m3 * x3_3 + m3 * x3_4 - m3 * x3_1 - m3 * x3_2 - m3 * x3_5) by (nonlinear_arith)
        requires
            x3 == x3_0 + x3_3 + x3_4 - x3_1 - x3_2 - x3_5,
    ;
    assert(m3 * x3_0 == m0 * m3 * m5 * m10) by (nonlinear_arith)
        requires
            x3_0 == m0 * m5 * m10,
    ;
    assert(m3 * x3_1 == m0 * m3 * m6 * m9) by (nonlinear_arith)
        requires
            x3_1 == m0 * m6 * m9,
    ;
    assert(m3 * x3_2 == m1 * m3 * m4 * m10) by (nonlinear_arith)
        requires
            x3_2 == m1 * m4 * m10,
    ;
    assert(m3 * x3_3 == m1 * m3 * m6 * m8) by (nonlinear_arith)
        requires
            x3_3 == m1 * m6 * m8,
    ;
    assert(m3 * x3_4 == m2 * m3 * m4 * m9) by (nonlinear_arith)
        requires
            x3_4 == m2 * m4 * m9,
    ;
    assert(m3 * x3_5 == m2 * m3 * m5 * m8) by (nonlinear_arith)
        requires
            x3_5 == m2 * m5 * m8,
    ;
    assert(m1 * x1 + m3 * x3 - m0 * x0 - m2 * x2 == 0);
}

proof fn lemma_laplace_1_0(s: Seq<int>)
    requires
        s.len() == 16,
    ensures
        s[4] * rdet3(sub4(s, 0, 0)) + s[6] * rdet3(sub4(s, 0, 2)) - s[5] * rdet3(sub4(s, 0, 1)) - s[7] * rdet3(sub4(s, 0, 3)) == 0,
{
    let m0 = s[0];
    let m1 = s[1];
    let m2 = s[2];
    let m3 = s[3];
    let m4 = s[4];
    let m5 = s[5];
    let m6 = s[6];
    let m7 = s[7];
    let m8 = s[8];
    let m9 = s[9];
    let m10 = s[10];
    let m11 = s[11];
    let m12 = s[12];
    let m13 = s[13];
    let m14 = s[14];
    let m15 = s[15];
    assert(sub4(s, 0, 0) =~= seq![m5, m6, m7, m9, m10, m11, m13, m14, m15]);
    lemma_rdet3_as_poly(sub4(s, 0, 0));
    assert(sub4(s, 0, 1) =~= seq![m4, m6, m7, m8, m10, m11, m12, m14, m15]);
    lemma_rdet3_as_poly(sub4(s, 0, 1));
    assert(sub4(s, 0, 2) =~= seq![m4, m5, m7, m8, m9, m11, m12, m13, m15]);
    lemma_rdet3_as_poly(sub4(s, 0, 2));
    assert(sub4(s, 0, 3) =~= seq![m4, m5, m6, m8, m9, m10, m12, m13, m14]);
    lemma_rdet3_as_poly(sub4(s, 0, 3));
    let x0 = rdet3(sub4(s, 0, 0));
    let x1 = rdet3(sub4(s, 0, 1));
    let x2 = rdet3(sub4(s, 0, 2));
    let x3 = rdet3(sub4(s, 0, 3));
    let x0_0 = m5 * m10 * m15;
    let x0_1 = m5 * m11 * m14;
    let x0_2 = m6 * m9 * m15;
    let x0_3 = m6 * m11 * m13;
    let x0_4 = m7 * m9 * m14;
    let x0_5 = m7 * m10 * m13;
    assert(m4 * x0 == m4 * x0_0 + m4 * x0_3 + m4 * x0_4 - m4 * x0_1 - m4 * x0_2 - m4 * x0_5) by (nonlinear_arith)
        requires
            x0 == x0_0 + x0_3 + x0_4 - x0_1 - x0_2 - x0_5,
    ;
    assert(m4 * x0_0 == m4 * m5 * m10 * m15) by (nonlinear_arith)
        requires
            x0_0 == m5 * m10 * m15,
    ;
    assert(m4 * x0_1 == m4 * m5 * m11 * m14) by (nonlinear_arith)
        requires
            x0_1 == m5 * m11 * m14,
    ;
    assert(m4 * x0_2 == m4 * m6 * m9 * m15) by (nonlinear_arith)
        requires
            x0_2 == m6 * m9 * m15,
    ;
    assert(m4 * x0_3 == m4 * m6 * m11 * m13) by (nonlinear_arith)
        requires
            x0_3 == m6 * m11 * m13,
    ;
    assert(m4 * x0_4 == m4 * m7 * m9 * m14) by (nonlinear_arith)
        requires
            x0_4 == m7 * m9 * m14,
    ;
    assert(m4 * x0_5 == m4 * m7 * m10 * m13) by (nonlinear_arith)
        requires
            x0_5 == m7 * m10 * m13,
    ;
    let x1_0 = m4 * m10 * m15;
    let x1_1 = m4 * m11 * m14;
    let x1_2 = m6 * m8 * m15;
    let x1_3 = m6 * m11 * m12;
    let x1_4 = m7 * m8 * m14;
    let x1_5 = m7 * m10 * m12;
    assert(m5 * x1 == m5 * x1_0 + m5 * x1_3 + m5 * x1_4 - m5 * x1_1 - m5 * x1_2 - m5 * x1_5) by (nonlinear_arith)
        requires
            x1 == x1_0 + x1_3 + x1_4 - x1_1 - x1_2 - x1_5,
    ;
    assert(m5 * x1_0 == m4 * m5 * m10 * m15) by (nonlinear_arith)
        requires
            x1_0 == m4 * m10 * m15,
    ;
    assert(m5 * x1_1 == m4 * m5 * m11 * m14) by (nonlinear_arith)
        requires
            x1_1 == m4 * m11 * m14,
    ;
    assert(m5 * x1_2 == m5 * m6 * m8 * m15) by (nonlinear_arith)
        requires
            x1_2 == m6 * m8 * m15,
    ;
    assert(m5 * x1_3 == m5 * m6 * m11 * m12) by (nonlinear_arith)
        requires
            x1_3 == m6 * m11 * m12,
    ;
    assert(m5 * x1_4 == m5 * m7 * m8 * m14) by (nonlinear_arith)
        requires
            x1_4 == m7 * m8 * m14,
    ;
    assert(m5 * x1_5 == m5 * m7 * m10 * m12) by (nonlinear_arith)
        requires
            x1_5 == m7 * m10 * m12,
    ;
    let x2_0 = m4 * m9 * m15;
    let x2_1 = m4 * m11 * m13;
    let x2_2 = m5 * m8 * m15;
    let x2_3 = m5 * m11 * m12;
    let x2_4 = m7 * m8 * m13;
    let x2_5 = m7 * m9 * m12;
    assert(m6 * x2 == m6 * x2_0 + m6 * x2_3 + m6 * x2_4 - m6 * x2_1 - m6 * x2_2 - m6 * x2_5) by (nonlinear_arith)
        requires
            x2 == x2_0 + x2_3 + x2_4 - x2_1 - x2_2 - x2_5,
    ;
    assert(m6 * x2_0 == m4 * m6 * m9 * m15) by (nonlinear_arith)
        requires
            x2_0 == m4 * m9 * m15,
    ;
    assert(m6 * x2_1 == m4 * m6 * m11 * m13) by (nonlinear_arith)
        requires
            x2_1 == m4 * m11 * m13,
    ;
    assert(m6 * x2_2 == m5 * m6 * m8 * m15) by (nonlinear_arith)
        requires
            x2_2 == m5 * m8 * m15,
    ;
    assert(m6 * x2_3 == m5 * m6 * m11 * m12) by (nonlinear_arith)
        requires
            x2_3 == m5 * m11 * m12,
    ;
    assert(m6 * x2_4 == m6 * m7 * m8 * m13) by (nonlinear_arith)
        requires
            x2_4 == m7 * m8 * m13,
    ;
    assert(m6 * x2_5 == m6 * m7 * m9 * m12) by (nonlinear_arith)
        requires
            x2_5 == m7 * m9 * m12,
    ;
    let x3_0 = m4 * m9 * m14;
    let x3_1 = m4 * m10 * m13;
    let x3_2 = m5 * m8 * m14;
    let x3_3 = m5 * m10 * m12;
    let x3_4 = m6 * m8 * m13;
    let x3_5 = m6 * m9 * m12;
    assert(m7 * x3 == m7 * x3_0 + m7 * x3_3 + m7 * x3_4 - m7 * x3_1 - m7 * x3_2 - m7 * x3_5) by (nonlinear_arith)
        requires
            x3 == x3_0 + x3_3 + x3_4 - x3_1 - x3_2 - x3_5,
    ;
    assert(m7 * x3_0 == m4 * m7 * m9 * m14) by (nonlinear_arith)
        requires
            x3_0 == m4 * m9 * m14,
    ;
    assert(m7 * x3_1 == m4 * m7 * m10 * m13) by (nonlinear_arith)
        requires
            x3_1 == m4 * m10 * m13,
    ;
    assert(m7 * x3_2 == m5 * m7 * m8 * m14) by (nonlinear_arith)
        requires
            x3_2 == m5 * m8 * m14,
    ;
    assert(m7 * x3_3 == m5 * m7 * m10 * m12) by (nonlinear_arith)
        requires
            x3_3 == m5 * m10 * m12,
    ;
    assert(m7 * x3_4 == m6 * m7 * m8 * m13) by (nonlinear_arith)
        requires
            x3_4 == m6 * m8 * m13,
    ;
    assert(m7 * x3_5 == m6 * m7 * m9 * m12) by (nonlinear_arith)
        requires
            x3_5 == m6 * m9 * m12,
    ;
    assert(m4 * x0 + m6 * x2 - m5 * x1 - m7 * x3 == 0);
}

proof fn lemma_laplace_1_1(s: Seq<int>)
    requires
        s.len() == 16,
    ensures
        s[5] * rdet3(sub4(s, 1, 1)) + s[7] * rdet3(sub4(s, 1, 3)) - s[4] * rdet3(sub4(s, 1, 0)) - s[6] * rdet3(sub4(s, 1, 2)) == rdet4_raw(s),
{
    let m0 = s[0];
    let m1 = s[1];
    let m2 = s[2];
    let m3 = s[3];
    let m4 = s[4];
    let m5 = s[5];
    let m6 = s[6];
    let m7 = s[7];
    let m8 = s[8];
    let m9 = s[9];
    let m10 = s[10];
    let m11 = s[11];
    let m12 = s[12];
    let m13 = s[13];
    let m14 = s[14];
    let m15 = s[15];
    assert(sub4(s, 1, 0) =~= seq![m1, m2, m3, m9, m10, m11, m13, m14, m15]);
    lemma_rdet3_as_poly(sub4(s, 1, 0));
    assert(sub4(s, 1, 1) =~= seq![m0, m2, m3, m8, m10, m11, m12, m14, m15]);
    lemma_rdet3_as_poly(sub4(s, 1, 1));
    assert(sub4(s, 1, 2) =~= seq![m0, m1, m3, m8, m9, m11, m12, m13, m15]);
    lemma_rdet3_as_poly(sub4(s, 1, 2));
    assert(sub4(s, 1, 3) =~= seq![m0, m1, m2, m8, m9, m10, m12, m13, m14]);
    lemma_rdet3_as_poly(sub4(s, 1, 3));
    assert(sub4(s, 0, 0) =~= seq![m5, m6, m7, m9, m10, m11, m13, m14, m15]);
    lemma_rdet3_as_poly(sub4(s, 0, 0));
    assert(sub4(s, 0, 1) =~= seq![m4, m6, m7, m8, m10, m11, m12, m14, m15]);
    lemma_rdet3_as_poly(sub4(s, 0, 1));
    assert(sub4(s, 0, 2) =~= seq![m4, m5, m7, m8, m9, m11, m12, m13, m15]);
    lemma_rdet3_as_poly(sub4(s, 0, 2));
    assert(sub4(s, 0, 3) =~= seq![m4, m5, m6, m8, m9, m10, m12, m13, m14]);
    lemma_rdet3_as_poly(sub4(s, 0, 3));
    let x0 = rdet3(sub4(s, 1, 0));
    let x1 = rdet3(sub4(s, 1, 1));
    let x2 = rdet3(sub4(s, 1, 2));
    let x3 = rdet3(sub4(s, 1, 3));
    let y0 = rdet3(sub4(s, 0, 0));
    let y1 = rdet3(sub4(s, 0, 1));
    let y2 = rdet3(sub4(s, 0, 2));
    let y3 = rdet3(sub4(s, 0, 3));
    let x0_0 = m1 * m10 * m15;
    let x0_1 = m1 * m11 * m14;
    let x0_2 = m2 * m9 * m15;
    let x0_3 = m2 * m11 * m13;
    let x0_4 = m3 * m9 * m14;
    let x0_5 = m3 * m10 * m13;
    assert(m4 * x0 == m4 * x0_0 + m4 * x0_3 + m4 * x0_4 - m4 * x0_1 - m4 * x0_2 - m4 * x0_5) by (nonlinear_arith)
        requires
            x0 == x0_0 + x0_3 + x0_4 - x0_1 - x0_2 - x0_5,
    ;
    assert(m4 * x0_0 == m1 * m4 * m10 * m15) by (nonlinear_arith)
        requires
            x0_0 == m1 * m10 * m15,
    ;
    assert(m4 * x0_1 == m1 * m4 * m11 * m14) by (nonlinear_arith)
        requires
            x0_1 == m1 * m11 * m14,
    ;
    assert(m4 * x0_2 == m2 * m4 * m9 * m15) by (nonlinear_arith)
        requires
            x0_2 == m2 * m9 * m15,
    ;
    assert(m4 * x0_3 == m2 * m4 * m11 * m13) by (nonlinear_arith)
        requires
            x0_3 == m2 * m11 * m13,
    ;
    assert(m4 * x0_4 == m3 * m4 * m9 * m14) by (nonlinear_arith)
        requires
            x0_4 == m3 * m9 * m14,
    ;
    assert(m4 * x0_5 == m3 * m4 * m10 * m13) by (nonlinear_arith)
        requires
            x0_5 == m3 * m10 * m13,
    ;
    let x1_0 = m0 * m10 * m15;
    let x1_1 = m0 * m11 * m14;
    let x1_2 = m2 * m8 * m15;
    let x1_3 = m2 * m11 * m12;
    let x1_4 = m3 * m8 * m14;
    let x1_5 = m3 * m10 * m12;
    assert(m5 * x1 == m5 * x1_0 + m5 * x1_3 + m5 * x1_4 - m5 * x1_1 - m5 * x1_2 - m5 * x1_5) by (nonlinear_arith)
        requires
            x1 == x1_0 + x1_3 + x1_4 - x1_1 - x1_2 - x1_5,
    ;
    assert(m5 * x1_0 == m0 * m5 * m10 * m15) by (nonlinear_arith)
        requires
            x1_0 == m0 * m10 * m15,
    ;
    assert(m5 * x1_1 == m0 * m5 * m11 * m14) by (nonlinear_arith)
        requires
            x1_1 == m0 * m11 * m14,
    ;
    assert(m5 * x1_2 == m2 * m5 * m8 * m15) by (nonlinear_arith)
        requires
            x1_2 == m2 * m8 * m15,
    ;
    assert(m5 * x1_3 == m2 * m5 * m11 * m12) by (nonlinear_arith)
        requires
            x1_3 == m2 * m11 * m12,
    ;
    assert(m5 * x1_4 == m3 * m5 * m8 * m14) by (nonlinear_arith)
        requires
            x1_4 == m3 * m8 * m14,
    ;
    assert(m5 * x1_5 == m3 * m5 * m10 * m12) by (nonlinear_arith)
        requires
            x1_5 == m3 * m10 * m12,
    ;
    let x2_0 = m0 * m9 * m15;
    let x2_1 = m0 * m11 * m13;
    let x2_2 = m1 * m8 * m15;
    let x2_3 = m1 * m11 * m12;
    let x2_4 = m3 * m8 * m13;
    let x2_5 = m3 * m9 * m12;
    assert(m6 * x2 == m6 * x2_0 + m6 * x2_3 + m6 * x2_4 - m6 * x2_1 - m6 * x2_2 - m6 * x2_5) by (nonlinear_arith)
        requires
            x2 == x2_0 + x2_3 + x2_4 - x2_1 - x2_2 - x2_5,
    ;
    assert(m6 * x2_0 == m0 * m6 * m9 * m15) by (nonlinear_arith)
        requires
            x2_0 == m0 * m9 * m15,
    ;
    assert(m6 * x2_1 == m0 * m6 * m11 * m13) by (nonlinear_arith)
        requires
            x2_1 == m0 * m11 * m13,
    ;
    assert(m6 * x2_2 == m1 * m6 * m8 * m15) by (nonlinear_arith)
        requires
            x2_2 == m1 * m8 * m15,
    ;
    assert(m6 * x2_3 == m1 * m6 * m11 * m12) by (nonlinear_arith)
        requires
            x2_3 == m1 * m11 * m12,
    ;
    assert(m6 * x2_4 == m3 * m6 * m8 * m13) by (nonlinear_arith)
        requires
            x2_4 == m3 * m8 * m13,
    ;
    assert(m6 * x2_5 == m3 * m6 * m9 * m12) by (nonlinear_arith)
        requires
            x2_5 == m3 * m9 * m12,
    ;
    let x3_0 = m0 * m9 * m14;
    let x3_1 = m0 * m10 * m13;
    let x3_2 = m1 * m8 * m14;
    let x3_3 = m1 * m10 * m12;
    let x3_4 = m2 * m8 * m13;
    let x3_5 = m2 * m9 * m12;
    assert(m7 * x3 == m7 * x3_0 + m7 * x3_3 + m7 * x3_4 - m7 * x3_1 - m7 * x3_2 - m7 * x3_5) by (nonlinear_arith)
        requires
            x3 == x3_0 + x3_3 + x3_4 - x3_1 - x3_2 - x3_5,
    ;
    assert(m7 * x3_0 == m0 * m7 * m9 * m14) by (nonlinear_arith)
        requires
            x3_0 == m0 * m9 * m14,
    ;
    assert(m7 * x3_1 == m0 * m7 * m10 * m13) by (nonlinear_arith)
        requires
            x3_1 == m0 * m10 * m13,
    ;
    assert(m7 * x3_2 == m1 * m7 * m8 * m14) by (nonlinear_arith)
        requires
            x3_2 == m1 * m8 * m14,
    ;
    assert(m7 * x3_3 == m1 * m7 * m10 * m12) by (nonlinear_arith)
        requires
            x3_3 == m1 * m10 * m12,
    ;
    assert(m7 * x3_4 == m2 * m7 * m8 * m13) by (nonlinear_arith)
        requires
            x3_4 == m2 * m8 * m13,
    ;
    assert(m7 * x3_5 == m2 * m7 * m9 * m12) by (nonlinear_arith)
        requires
            x3_5 == m2 * m9 * m12,
    ;
    let y0_0 = m5 * m10 * m15;
    let y0_1 = m5 * m11 * m14;
    let y0_2 = m6 * m9 * m15;
    let y0_3 = m6 * m11 * m13;
    let y0_4 = m7 * m9 * m14;
    let y0_5 = m7 * m10 * m13;
    assert(m0 * y0 == m0 * y0_0 + m0 * y0_3 + m0 * y0_4 - m0 * y0_1 - m0 * y0_2 - m0 * y0_5) by (nonlinear_arith)
        requires
            y0 == y0_0 + y0_3 + y0_4 - y0_1 - y0_2 - y0_5,
    ;
    assert(m0 * y0_0 == m0 * m5 * m10 * m15) by (nonlinear_arith)
        requires
            y0_0 == m5 * m10 * m15,
    ;
    assert(m0 * y0_1 == m0 * m5 * m11 * m14) by (nonlinear_arith)
        requires
            y0_1 == m5 * m11 * m14,
    ;
    assert(m0 * y0_2 == m0 * m6 * m9 * m15) by (nonlinear_arith)
        requires
            y0_2 == m6 * m9 * m15,
    ;
    assert(m0 * y0_3 == m0 * m6 * m11 * m13) by (nonlinear_arith)
        requires
            y0_3 == m6 * m11 * m13,
    ;
    assert(m0 * y0_4 == m0 * m7 * m9 * m14) by (nonlinear_arith)
        requires
            y0_4 == m7 * m9 * m14,
    ;
    assert(m0 * y0_5 == m0 * m7 * m10 * m13) by (nonlinear_arith)
        requires
            y0_5 == m7 * m10 * m13,
    ;
    let y1_0 = m4 * m10 * m15;
    let y1_1 = m4 * m11 * m14;
    let y1_2 = m6 * m8 * m15;
    let y1_3 = m6 * m11 * m12;
    let y1_4 = m7 * m8 * m14;
    let y1_5 = m7 * m10 * m12;
    assert(m1 * y1 == m1 * y1_0 + m1 * y1_3 + m1 * y1_4 - m1 * y1_1 - m1 * y1_2 - m1 * y1_5) by (nonlinear_arith)
        requires
            y1 == y1_0 + y1_3 + y1_4 - y1_1 - y1_2 - y1_5,
    ;
    assert(m1 * y1_0 == m1 * m4 * m10 * m15) by (nonlinear_arith)
        requires
            y1_0 == m4 * m10 * m15,
    ;
    assert(m1 * y1_1 == m1 * m4 * m11 * m14) by (nonlinear_arith)
        requires
            y1_1 == m4 * m11 * m14,
    ;
    assert(m1 * y1_2 == m1 * m6 * m8 * m15) by (nonlinear_arith)
        requires
            y1_2 == m6 * m8 * m15,
    ;
    assert(m1 * y1_3 == m1 * m6 * m11 * m12) by (nonlinear_arith)
        requires
            y1_3 == m6 * m11 * m12,
    ;
    assert(m1 * y1_4 == m1 * m7 * m8 * m14) by (nonlinear_arith)
        requires
            y1_4 == m7 * m8 * m14,
    ;
    assert(m1 * y1_5 == m1 * m7 * m10 * m12) by (nonlinear_arith)
        requires
            y1_5 == m7 * m10 * m12,
    ;
    let y2_0 = m4 * m9 * m15;
    let y2_1 = m4 * m11 * m13;
    let y2_2 = m5 * m8 * m15;
    let y2_3 = m5 * m11 * m12;
    let y2_4 = m7 * m8 * m13;
    let y2_5 = m7 * m9 * m12;
    assert(m2 * y2 == m2 * y2_0 + m2 * y2_3 + m2 * y2_4 - m2 * y2_1 - m2 * y2_2 - m2 * y2_5) by (nonlinear_arith)
        requires
            y2 == y2_0 + y2_3 + y2_4 - y2_1 - y2_2 - y2_5,
    ;
    assert(m2 * y2_0 == m2 * m4 * m9 * m15) by (nonlinear_arith)
        requires
            y2_0 == m4 * m9 * m15,
    ;
    assert(m2 * y2_1 == m2 * m4 * m11 * m13) by (nonlinear_arith)
        requires
            y2_1 == m4 * m11 * m13,
    ;
    assert(m2 * y2_2 == m2 * m5 * m8 * m15) by (nonlinear_arith)
        requires
            y2_2 == m5 * m8 * m15,
    ;
    assert(m2 * y2_3 == m2 * m5 * m11 * m12) by (nonlinear_arith)
        requires
            y2_3 == m5 * m11 * m12,
    ;
    assert(m2 * y2_4 == m2 * m7 * m8 * m13) by (nonlinear_arith)
        requires
            y2_4 == m7 * m8 * m13,
    ;
    assert(m2 * y2_5 == m2 * m7 * m9 * m12) by (nonlinear_arith)
        requires
            y2_5 == m7 * m9 * m12,
    ;
    let y3_0 = m4 * m9 * m14;
    let y3_1 = m4 * m10 * m13;
    let y3_2 = m5 * m8 * m14;
    let y3_3 = m5 * m10 * m12;
    let y3_4 = m6 * m8 * m13;
    let y3_5 = m6 * m9 * m12;
    assert(m3 * y3 == m3 * y3_0 + m3 * y3_3 + m3 * y3_4 - m3 * y3_1 - m3 * y3_2 - m3 * y3_5) by (nonlinear_arith)
        requires
            y3 == y3_0 + y3_3 + y3_4 - y3_1 - y3_2 - y3_5,
    ;
    assert(m3 * y3_0 == m3 * m4 * m9 * m14) by (nonlinear_arith)
        requires
            y3_0 == m4 * m9 * m14,
    ;
    assert(m3 * y3_1 == m3 * m4 * m10 * m13) by (nonlinear_arith)
        requires
            y3_1 == m4 * m10 * m13,
    ;
    assert(m3 * y3_2 == m3 * m5 * m8 * m14) by (nonlinear_arith)
        requires
            y3_2 == m5 * m8 * m14,
    ;
    assert(m3 * y3_3 == m3 * m5 * m10 * m12) by (nonlinear_arith)
        requires
            y3_3 == m5 * m10 * m12,
    ;
    assert(m3 * y3_4 == m3 * m6 * m8 * m13) by (nonlinear_arith)
        requires
            y3_4 == m6 * m8 * m13,
    ;
    assert(m3 * y3_5 == m3 * m6 * m9 * m12) by (nonlinear_arith)
        requires
            y3_5 == m6 * m9 * m12,
    ;
    assert(m5 * x1 + m7 * x3 - m4 * x0 - m6 * x2 == m0 * y0 + m2 * y2 - m1 * y1 - m3 * y3);
}

proof fn lemma_laplace_1_2(s: Seq<int>)
    requires
        s.len() == 16,
    ensures
        s[4] * rdet3(sub4(s, 2, 0)) + s[6] * rdet3(sub4(s, 2, 2)) - s[5] * rdet3(sub4(s, 2, 1)) - s[7] * rdet3(sub4(s, 2, 3)) == 0,
{
    let m0 = s[0];
    let m1 = s[1];
    let m2 = s[2];
    let m3 = s[3];
    let m4 = s[4];
    let m5 = s[5];
    let m6 = s[6];
    let m7 = s[7];
    let m8 = s[8];
    let m9 = s[9];
    let m10 = s[10];
    let m11 = s[11];
    let m12 = s[12];
    let m13 = s[13];
    let m14 = s[14];
    let m15 = s[15];
    assert(sub4(s, 2, 0) =~= seq![m1, m2, m3, m5, m6, m7, m13, m14, m15]);
    lemma_rdet3_as_poly(sub4(s, 2, 0));
    assert(sub4(s, 2, 1) =~= seq![m0, m2, m3, m4, m6, m7, m12, m14, m15]);
    lemma_rdet3_as_poly(sub4(s, 2, 1));
    assert(sub4(s, 2, 2) =~= seq![m0, m1, m3, m4, m5, m7, m12, m13, m15]);
    lemma_rdet3_as_poly(sub4(s, 2, 2));
    assert(sub4(s, 2, 3) =~= seq![m0, m1, m2, m4, m5, m6, m12, m13, m14]);
    lemma_rdet3_as_poly(sub4(s, 2, 3));
    let x0 = rdet3(sub4(s, 2, 0));
    let x1 = rdet3(sub4(s, 2, 1));
    let x2 = rdet3(sub4(s, 2, 2));
    let x3 = rdet3(sub4(s, 2, 3));
    let x0_0 = m1 * m6 * m15;
    let x0_1 = m1 * m7 * m14;
    let x0_2 = m2 * m5 * m15;
    let x0_3 = m2 * m7 * m13;
    let x0_4 = m3 * m5 * m14;
    let x0_5 = m3 * m6 * m13;
    assert(m4 * x0 == m4 * x0_0 + m4 * x0_3 + m4 * x0_4 - m4 * x0_1 - m4 * x0_2 - m4 * x0_5) by (nonlinear_arith)
        requires
            x0 == x0_0 + x0_3 + x0_4 - x0_1 - x0_2 - x0_5,
    ;
    assert(m4 * x0_0 == m1 * m4 * m6 * m15) by (nonlinear_arith)
        requires
            x0_0 == m1 * m6 * m15,
    ;
    assert(m4 * x0_1 == m1 * m4 * m7 * m14) by (nonlinear_arith)
        requires
            x0_1 == m1 * m7 * m14,
    ;
    assert(m4 * x0_2 == m2 * m4 * m5 * m15) by (nonlinear_arith)
        requires
            x0_2 == m2 * m5 * m15,
    ;
    assert(m4 * x0_3 == m2 * m4 * m7 * m13) by (nonlinear_arith)
        requires
            x0_3 == m2 * m7 * m13,
    ;
    assert(m4 * x0_4 == m3 * m4 * m5 * m14) by (nonlinear_arith)
        requires
            x0_4 == m3 * m5 * m14,
    ;
    assert(m4 * x0_5 == m3 * m4 * m6 * m13) by (nonlinear_arith)
        requires
            x0_5 == m3 * m6 * m13,
    ;
    let x1_0 = m0 * m6 * m15;
    let x1_1 = m0 * m7 * m14;
    let x1_2 = m2 * m4 * m15;
    let x1_3 = m2 * m7 * m12;
    let x1_4 = m3 * m4 * m14;
    let x1_5 = m3 * m6 * m12;
    assert(m5 * x1 == m5 * x1_0 + m5 * x1_3 + m5 * x1_4 - m5 * x1_1 - m5 * x1_2 - m5 * x1_5) by (nonlinear_arith)
        requires
            x1 == x1_0 + x1_3 + x1_4 - x1_1 - x1_2 - x1_5,
    ;
    assert(m5 * x1_0 == m0 * m5 * m6 * m15) by (nonlinear_arith)
        requires
            x1_0 == m0 * m6 * m15,
    ;
    assert(m5 * x1_1 == m0 * m5 * m7 * m14) by (nonlinear_arith)
        requires
            x1_1 == m0 * m7 * m14,
    ;
    assert(m5 * x1_2 == m2 * m4 * m5 * m15) by (nonlinear_arith)
        requires
            x1_2 == m2 * m4 * m15,
    ;
    assert(m5 * x1_3 == m2 * m5 * m7 * m12) by (nonlinear_arith)
        requires
            x1_3 == m2 * m7 * m12,
    ;
    assert(m5 * x1_4 == m3 * m4 * m5 * m14) by (nonlinear_arith)
        requires
            x1_4 == m3 * m4 * m14,
    ;
    assert(m5 * x1_5 == m3 * m5 * m6 * m12) by (nonlinear_arith)
        requires
            x1_5 == m3 * m6 * m12,
    ;
    let x2_0 = m0 * m5 * m15;
    let x2_1 = m0 * m7 * m13;
    let x2_2 = m1 * m4 * m15;
    let x2_3 = m1 * m7 * m12;
    let x2_4 = m3 * m4 * m13;
    let x2_5 = m3 * m5 * m12;
    assert(m6 * x2 == m6 * x2_0 + m6 * x2_3 + m6 * x2_4 - m6 * x2_1 - m6 * x2_2 - m6 * x2_5) by (nonlinear_arith)
        requires
            x2 == x2_0 + x2_3 + x2_4 - x2_1 - x2_2 - x2_5,
    ;
    assert(m6 * x2_0 == m0 * m5 * m6 * m15) by (nonlinear_arith)
        requires
            x2_0 == m0 * m5 * m15,
    ;
    assert(m6 * x2_1 == m0 * m6 * m7 * m13) by (nonlinear_arith)
        requires
            x2_1 == m0 * m7 * m13,
    ;
    assert(m6 * x2_2 == m1 * m4 * m6 * m15) by (nonlinear_arith)
        requires
            x2_2 == m1 * m4 * m15,
    ;
    assert(m6 * x2_3 == m1 * m6 * m7 * m12) by (nonlinear_arith)
        requires
            x2_3 == m1 * m7 * m12,
    ;
    assert(m6 * x2_4 == m3 * m4 * m6 * m13) by (nonlinear_arith)
        requires
            x2_4 == m3 * m4 * m13,
    ;
    assert(m6 * x2_5 == m3 * m5 * m6 * m12) by (nonlinear_arith)
        requires
            x2_5 == m3 * m5 * m12,
    ;
    let x3_0 = m0 * m5 * m14;
    let x3_1 = m0 * m6 * m13;
    let x3_2 = m1 * m4 * m14;
    let x3_3 = m1 * m6 * m12;
    let x3_4 = m2 * m4 * m13;
    let x3_5 = m2 * m5 * m12;
    assert(m7 * x3 == m7 * x3_0 + m7 * x3_3 + m7 * x3_4 - m7 * x3_1 - m7 * x3_2 - m7 * x3_5) by (nonlinear_arith)
        requires
            x3 == x3_0 + x3_3 + x3_4 - x3_1 - x3_2 - x3_5,
    ;
    assert(m7 * x3_0 == m0 * m5 * m7 * m14) by (nonlinear_arith)
        requires
            x3_0 == m0 * m5 * m14,
    ;
    assert(m7 * x3_1 == m0 * m6 * m7 * m13) by (nonlinear_arith)
        requires
            x3_1 == m0 * m6 * m13,
    ;
    assert(m7 * x3_2 == m1 * m4 * m7 * m14) by (nonlinear_arith)
        requires
            x3_2 == m1 * m4 * m14,
    ;
    assert(m7 * x3_3 == m1 * m6 * m7 * m12) by (nonlinear_arith)
        requires
            x3_3 == m1 * m6 * m12,
    ;
    assert(m7 * x3_4 == m2 * m4 * m7 * m13) by (nonlinear_arith)
        requires
            x3_4 == m2 * m4 * m13,
    ;
    assert(m7 * x3_5 == m2 * m5 * m7 * m12) by (nonlinear_arith)
        requires
            x3_5 == m2 * m5 * m12,
    ;
    assert(m4 * x0 + m6 * x2 - m5 * x1 - m7 * x3 == 0);
}

proof fn lemma_laplace_1_3(s: Seq<int>)
    requires
        s.len() == 16,
    ensures
        s[5] * rdet3(sub4(s, 3, 1)) + s[7] * rdet3(sub4(s, 3, 3)) - s[4] * rdet3(sub4(s, 3, 0)) - s[6] * rdet3(sub4(s, 3, 2)) == 0,
{
    let m0 = s[0];
    let m1 = s[1];
    let m2 = s[2];
    let m3 = s[3];
    let m4 = s[4];
    let m5 = s[5];
    let m6 = s[6];
    let m7 = s[7];
    let m8 = s[8];
    let m9 = s[9];
    let m10 = s[10];
    let m11 = s[11];
    let m12 = s[12];
    let m13 = s[13];
    let m14 = s[14];
    let m15 = s[15];
    assert(sub4(s, 3, 0) =~= seq![m1, m2, m3, m5, m6, m7, m9, m10, m11]);
    lemma_rdet3_as_poly(sub4(s, 3, 0));
    assert(sub4(s, 3, 1) =~= seq![m0, m2, m3, m4, m6, m7, m8, m10, m11]);
    lemma_rdet3_as_poly(sub4(s, 3, 1));
    assert(sub4(s, 3, 2) =~= seq![m0, m1, m3, m4, m5, m7, m8, m9, m11]);
    lemma_rdet3_as_poly(sub4(s, 3, 2));
    assert(sub4(s, 3, 3) =~= seq![m0, m1, m2, m4, m5, m6, m8, m9, m10]);
    lemma_rdet3_as_poly(sub4(s, 3, 3));
    let x0 = rdet3(sub4(s, 3, 0));
    let x1 = rdet3(sub4(s, 3, 1));
    let x2 = rdet3(sub4(s, 3, 2));
    let x3 = rdet3(sub4(s, 3, 3));
    let x0_0 = m1 * m6 * m11;
    let x0_1 = m1 * m7 * m10;
    let x0_2 = m2 * m5 * m11;
    let x0_3 = m2 * m7 * m9;
    let x0_4 = m3 * m5 * m10;
    let x0_5 = m3 * m6 * m9;
    assert(m4 * x0 == m4 * x0_0 + m4 * x0_3 + m4 * x0_4 - m4 * x0_1 - m4 * x0_2 - m4 * x0_5) by (nonlinear_arith)
        requires
            x0 == x0_0 + x0_3 + x0_4 - x0_1 - x0_2 - x0_5,
    ;
    assert(m4 * x0_0 == m1 * m4 * m6 * m11) by (nonlinear_arith)
        requires
            x0_0 == m1 * m6 * m11,
    ;
    assert(m4 * x0_1 == m1 * m4 * m7 * m10) by (nonlinear_arith)
        requires
            x0_1 == m1 * m7 * m10,
    ;
    assert(m4 * x0_2 == m2 * m4 * m5 * m11) by (nonlinear_arith)
        requires
            x0_2 == m2 * m5 * m11,
    ;
    assert(m4 * x0_3 == m2 * m4 * m7 * m9) by (nonlinear_arith)
        requires
            x0_3 == m2 * m7 * m9,
    ;
    assert(m4 * x0_4 == m3 * m4 * m5 * m10) by (nonlinear_arith)
        requires
            x0_4 == m3 * m5 * m10,
    ;
    assert(m4 * x0_5 == m3 * m4 * m6 * m9) by (nonlinear_arith)
        requires
            x0_5 == m3 * m6 * m9,
    ;
    let x1_0 = m0 * m6 * m11;
    let x1_1 = m0 * m7 * m10;
    let x1_2 = m2 * m4 * m11;
    let x1_3 = m2 * m7 * m8;
    let x1_4 = m3 * m4 * m10;
    let x1_5 = m3 * m6 * m8;
    assert(m5 * x1 == m5 * x1_0 + m5 * x1_3 + m5 * x1_4 - m5 * x1_1 - m5 * x1_2 - m5 * x1_5) by (nonlinear_arith)
        requires
            x1 == x1_0 + x1_3 + x1_4 - x1_1 - x1_2 - x1_5,
    ;
    assert(m5 * x1_0 == m0 * m5 * m6 * m11) by (nonlinear_arith)
        requires
            x1_0 == m0 * m6 * m11,
    ;
    assert(m5 * x1_1 == m0 * m5 * m7 * m10) by (nonlinear_arith)
        requires
            x1_1 == m0 * m7 * m10,
    ;
    assert(m5 * x1_2 == m2 * m4 * m5 * m11) by (nonlinear_arith)
        requires
            x1_2 == m2 * m4 * m11,
    ;
    assert(m5 * x1_3 == m2 * m5 * m7 * m8) by (nonlinear_arith)
        requires
            x1_3 == m2 * m7 * m8,
    ;
    assert(m5 * x1_4 == m3 * m4 * m5 * m10) by (nonlinear_arith)
        requires
            x1_4 == m3 * m4 * m10,
    ;
    assert(m5 * x1_5 == m3 * m5 * m6 * m8) by (nonlinear_arith)
        requires
            x1_5 == m3 * m6 * m8,
    ;
    let x2_0 = m0 * m5 * m11;
    let x2_1 = m0 * m7 * m9;
    let x2_2 = m1 * m4 * m11;
    let x2_3 = m1 * m7 * m8;
    let x2_4 = m3 * m4 * m9;
    let x2_5 = m3 * m5 * m8;
    assert(m6 * x2 == m6 * x2_0 + m6 * x2_3 + m6 * x2_4 - m6 * x2_1 - m6 * x2_2 - m6 * x2_5) by (nonlinear_arith)
        requires
            x2 == x2_0 + x2_3 + x2_4 - x2_1 - x2_2 - x2_5,
    ;
    assert(m6 * x2_0 == m0 * m5 * m6 * m11) by (nonlinear_arith)
        requires
            x2_0 == m0 * m5 * m11,
    ;
    assert(m6 * x2_1 == m0 * m6 * m7 * m9) by (nonlinear_arith)
        requires
            x2_1 == m0 * m7 * m9,
    ;
    assert(m6 * x2_2 == m1 * m4 * m6 * m11) by (nonlinear_arith)
        requires
            x2_2 == m1 * m4 * m11,
    ;
    assert(m6 * x2_3 == m1 * m6 * m7 * m8) by (nonlinear_arith)
        requires
            x2_3 == m1 * m7 * m8,
    ;
    assert(m6 * x2_4 == m3 * m4 * m6 * m9) by (nonlinear_arith)
        requires
            x2_4 == m3 * m4 * m9,
    ;
    assert(m6 * x2_5 == m3 * m5 * m6 * m8) by (nonlinear_arith)
        requires
            x2_5 == m3 * m5 * m8,
    ;
    let x3_0 = m0 * m5 * m10;
    let x3_1 = m0 * m6 * m9;
    let x3_2 = m1 * m4 * m10;
    let x3_3 = m1 * m6 * m8;
    let x3_4 = m2 * m4 * m9;
    let x3_5 = m2 * m5 * m8;
    assert(m7 * x3 == m7 * x3_0 + m7 * x3_3 + m7 * x3_4 - m7 * x3_1 - m7 * x3_2 - m7 * x3_5) by (nonlinear_arith)
        requires
            x3 == x3_0 + x3_3 + x3_4 - x3_1 - x3_2 - x3_5,
    ;
    assert(m7 * x3_0 == m0 * m5 * m7 * m10) by (nonlinear_arith)
        requires
            x3_0 == m0 * m5 * m10,
    ;
    assert(m7 * x3_1 == m0 * m6 * m7 * m9) by (nonlinear_arith)
        requires
            x3_1 == m0 * m6 * m9,
    ;
    assert(m7 * x3_2 == m1 * m4 * m7 * m10) by (nonlinear_arith)
        requires
            x3_2 == m1 * m4 * m10,
    ;
    assert(m7 * x3_3 == m1 * m6 * m7 * m8) by (nonlinear_arith)
        requires
            x3_3 == m1 * m6 * m8,
    ;
    assert(m7 * x3_4 == m2 * m4 * m7 * m9) by (nonlinear_arith)
        requires
            x3_4 == m2 * m4 * m9,
    ;
    assert(m7 * x3_5 == m2 * m5 * m7 * m8) by (nonlinear_arith)
        requires
            x3_5 == m2 * m5 * m8,
    ;
    assert(m5 * x1 + m7 * x3 - m4 * x0 - m6 * x2 == 0);
}

proof fn lemma_laplace_2_0(s: Seq<int>)
    requires
        s.len() == 16,
    ensures
        s[8] * rdet3(sub4(s, 0, 0)) + s[10] * rdet3(sub4(s, 0, 2)) - s[9] * rdet3(sub4(s, 0, 1)) - s[11] * rdet3(sub4(s, 0, 3)) == 0,
{
    let m0 = s[0];
    let m1 = s[1];
    let m2 = s[2];
    let m3 = s[3];
    let m4 = s[4];
    let m5 = s[5];
    let m6 = s[6];
    let m7 = s[7];
    let m8 = s[8];
    let m9 = s[9];
    let m10 = s[10];
    let m11 = s[11];
    let m12 = s[12];
    let m13 = s[13];
    let m14 = s[14];
    let m15 = s[15];
    assert(sub4(s, 0, 0) =~= seq![m5, m6, m7, m9, m10, m11, m13, m14, m15]);
    lemma_rdet3_as_poly(sub4(s, 0, 0));
    assert(sub4(s, 0, 1) =~= seq![m4, m6, m7, m8, m10, m11, m12, m14, m15]);
    lemma_rdet3_as_poly(sub4(s, 0, 1));
    assert(sub4(s, 0, 2) =~= seq![m4, m5, m7, m8, m9, m11, m12, m13, m15]);
    lemma_rdet3_as_poly(sub4(s, 0, 2));
    assert(sub4(s, 0, 3) =~= seq![m4, m5, m6, m8, m9, m10, m12, m13, m14]);
    lemma_rdet3_as_poly(sub4(s, 0, 3));
    let x0 = rdet3(sub4(s, 0, 0));
    let x1 = rdet3(sub4(s, 0, 1));
    let x2 = rdet3(sub4(s, 0, 2));
    let x3 = rdet3(sub4(s, 0, 3));
    let x0_0 = m5 * m10 * m15;
    let x0_1 = m5 * m11 * m14;
    let x0_2 = m6 * m9 * m15;
    let x0_3 = m6 * m11 * m13;
    let x0_4 = m7 * m9 * m14;
    let x0_5 = m7 * m10 * m13;
    assert(m8 * x0 == m8 * x0_0 + m8 * x0_3 + m8 * x0_4 - m8 * x0_1 - m8 * x0_2 - m8 * x0_5) by (nonlinear_arith)
        requires
            x0 == x0_0 + x0_3 + x0_4 - x0_1 - x0_2 - x0_5,
    ;
    assert(m8 * x0_0 == m5 * m8 * m10 * m15) by (nonlinear_arith)
        requires
            x0_0 == m5 * m10 * m15,
    ;
    assert(m8 * x0_1 == m5 * m8 * m11 * m14) by (nonlinear_arith)
        requires
            x0_1 == m5 * m11 * m14,
    ;
    assert(m8 * x0_2 == m6 * m8 * m9 * m15) by (nonlinear_arith)
        requires
            x0_2 == m6 * m9 * m15,
    ;
    assert(m8 * x0_3 == m6 * m8 * m11 * m13) by (nonlinear_arith)
        requires
            x0_3 == m6 * m11 * m13,
    ;
    assert(m8 * x0_4 == m7 * m8 * m9 * m14) by (nonlinear_arith)
        requires
            x0_4 == m7 * m9 * m14,
    ;
    assert(m8 * x0_5 == m7 * m8 * m10 * m13) by (nonlinear_arith)
        requires
            x0_5 == m7 * m10 * m13,
    ;
    let x1_0 = m4 * m10 * m15;
    let x1_1 = m4 * m11 * m14;
    let x1_2 = m6 * m8 * m15;
    let x1_3 = m6 * m11 * m12;
    let x1_4 = m7 * m8 * m14;
    let x1_5 = m7 * m10 * m12;
    assert(m9 * x1 == m9 * x1_0 + m9 * x1_3 + m9 * x1_4 - m9 * x1_1 - m9 * x1_2 - m9 * x1_5) by (nonlinear_arith)
        requires
            x1 == x1_0 + x1_3 + x1_4 - x1_1 - x1_2 - x1_5,
    ;
    assert(m9 * x1_0 == m4 * m9 * m10 * m15) by (nonlinear_arith)
        requires
            x1_0 == m4 * m10 * m15,
    ;
    assert(m9 * x1_1 == m4 * m9 * m11 * m14) by (nonlinear_arith)
        requires
            x1_1 == m4 * m11 * m14,
    ;
    assert(m9 * x1_2 == m6 * m8 * m9 * m15) by (nonlinear_arith)
        requires
            x1_2 == m6 * m8 * m15,
    ;
    assert(m9 * x1_3 == m6 * m9 * m11 * m12) by (nonlinear_arith)
        requires
            x1_3 == m6 * m11 * m12,
    ;
    assert(m9 * x1_4 == m7 * m8 * m9 * m14) by (nonlinear_arith)
        requires
            x1_4 == m7 * m8 * m14,
    ;
    assert(m9 * x1_5 == m7 * m9 * m10 * m12) by (nonlinear_arith)
        requires
            x1_5 == m7 * m10 * m12,
    ;
    let x2_0 = m4 * m9 * m15;
    let x2_1 = m4 * m11 * m13;
    let x2_2 = m5 * m8 * m15;
    let x2_3 = m5 * m11 * m12;
    let x2_4 = m7 * m8 * m13;
    let x2_5 = m7 * m9 * m12;
    assert(m10 * x2 == m10 * x2_0 + m10 * x2_3 + m10 * x2_4 - m10 * x2_1 - m10 * x2_2 - m10 * x2_5) by (nonlinear_arith)
        requires
            x2 == x2_0 + x2_3 + x2_4 - x2_1 - x2_2 - x2_5,
    ;
    assert(m10 * x2_0 == m4 * m9 * m10 * m15) by (nonlinear_arith)
        requires
            x2_0 == m4 * m9 * m15,
    ;
    assert(m10 * x2_1 == m4 * m10 * m11 * m13) by (nonlinear_arith)
        requires
            x2_1 == m4 * m11 * m13,
    ;
    assert(m10 * x2_2 == m5 * m8 * m10 * m15) by (nonlinear_arith)
        requires
            x2_2 == m5 * m8 * m15,
    ;
    assert(m10 * x2_3 == m5 * m10 * m11 * m12) by (nonlinear_arith)
        requires
            x2_3 == m5 * m11 * m12,
    ;
    assert(m10 * x2_4 == m7 * m8 * m10 * m13) by (nonlinear_arith)
        requires
            x2_4 == m7 * m8 * m13,
    ;
    assert(m10 * x2_5 == m7 * m9 * m10 * m12) by (nonlinear_arith)
        requires
            x2_5 == m7 * m9 * m12,
    ;
    let x3_0 = m4 * m9 * m14;
    let x3_1 = m4 * m10 * m13;
    let x3_2 = m5 * m8 * m14;
    let x3_3 = m5 * m10 * m12;
    let x3_4 = m6 * m8 * m13;
    let x3_5 = m6 * m9 * m12;
    assert(m11 * x3 == m11 * x3_0 + m11 * x3_3 + m11 * x3_4 - m11 * x3_1 - m11 * x3_2 - m11 * x3_5) by (nonlinear_arith)
        requires
            x3 == x3_0 + x3_3 + x3_4 - x3_1 - x3_2 - x3_5,
    ;
    assert(m11 * x3_0 == m4 * m9 * m11 * m14) by (nonlinear_arith)
        requires
            x3_0 == m4 * m9 * m14,
    ;
    assert(m11 * x3_1 == m4 * m10 * m11 * m13) by (nonlinear_arith)
        requires
            x3_1 == m4 * m10 * m13,
    ;
    assert(m11 * x3_2 == m5 * m8 * m11 * m14) by (nonlinear_arith)
        requires
            x3_2 == m5 * m8 * m14,
    ;
    assert(m11 * x3_3 == m5 * m10 * m11 * m12) by (nonlinear_arith)
        requires
            x3_3 == m5 * m10 * m12,
    ;
    assert(m11 * x3_4 == m6 * m8 * m11 * m13) by (nonlinear_arith)
        requires
            x3_4 == m6 * m8 * m13,
    ;
    assert(m11 * x3_5 == m6 * m9 * m11 * m12) by (nonlinear_arith)
        requires
            x3_5 == m6 * m9 * m12,
    ;
    assert(m8 * x0 + m10 * x2 - m9 * x1 - m11 * x3 == 0);
}

proof fn lemma_laplace_2_1(s: Seq<int>)
    requires
        s.len() == 16,
    ensures
        s[9] * rdet3(sub4(s, 1, 1)) + s[11] * rdet3(sub4(s, 1, 3)) - s[8] * rdet3(sub4(s, 1, 0)) - s[10] * rdet3(sub4(s, 1, 2)) == 0,
{
    let m0 = s[0];
    let m1 = s[1];
    let m2 = s[2];
    let m3 = s[3];
    let m4 = s[4];
    let m5 = s[5];
    let m6 = s[6];
    let m7 = s[7];
    let m8 = s[8];
    let m9 = s[9];
    let m10 = s[10];
    let m11 = s[11];
    let m12 = s[12];
    let m13 = s[13];
    let m14 = s[14];
    let m15 = s[15];
    assert(sub4(s, 1, 0) =~= seq![m1, m2, m3, m9, m10, m11, m13, m14, m15]);
    lemma_rdet3_as_poly(sub4(s, 1, 0));
    assert(sub4(s, 1, 1) =~= seq![m0, m2, m3, m8, m10, m11, m12, m14, m15]);
    lemma_rdet3_as_poly(sub4(s, 1, 1));
    assert(sub4(s, 1, 2) =~= seq![m0, m1, m3, m8, m9, m11, m12, m13, m15]);
    lemma_rdet3_as_poly(sub4(s, 1, 2));
    assert(sub4(s, 1, 3) =~= seq![m0, m1, m2, m8, m9, m10, m12, m13, m14]);
    lemma_rdet3_as_poly(sub4(s, 1, 3));
    let x0 = rdet3(sub4(s, 1, 0));
    let x1 = rdet3(sub4(s, 1, 1));
    let x2 = rdet3(sub4(s, 1, 2));
    let x3 = rdet3(sub4(s, 1, 3));
    let x0_0 = m1 * m10 * m15;
    let x0_1 = m1 * m11 * m14;
    let x0_2 = m2 * m9 * m15;
    let x0_3 = m2 * m11 * m13;
    let x0_4 = m3 * m9 * m14;
    let x0_5 = m3 * m10 * m13;
    assert(m8 * x0 == m8 * x0_0 + m8 * x0_3 + m8 * x0_4 - m8 * x0_1 - m8 * x0_2 - m8 * x0_5) by (nonlinear_arith)
        requires
            x0 == x0_0 + x0_3 + x0_4 - x0_1 - x0_2 - x0_5,
    ;
    assert(m8 * x0_0 == m1 * m8 * m10 * m15) by (nonlinear_arith)
        requires
            x0_0 == m1 * m10 * m15,
    ;
    assert(m8 * x0_1 == m1 * m8 * m11 * m14) by (nonlinear_arith)
        requires
            x0_1 == m1 * m11 * m14,
    ;
    assert(m8 * x0_2 == m2 * m8 * m9 * m15) by (nonlinear_arith)
        requires
            x0_2 == m2 * m9 * m15,
    ;
    assert(m8 * x0_3 == m2 * m8 * m11 * m13) by (nonlinear_arith)
        requires
            x0_3 == m2 * m11 * m13,
    ;
    assert(m8 * x0_4 == m3 * m8 * m9 * m14) by (nonlinear_arith)
        requires
            x0_4 == m3 * m9 * m14,
    ;
    assert(m8 * x0_5 == m3 * m8 * m10 * m13) by (nonlinear_arith)
        requires
            x0_5 == m3 * m10 * m13,
    ;
    let x1_0 = m0 * m10 * m15;
    let x1_1 = m0 * m11 * m14;
    let x1_2 = m2 * m8 * m15;
    let x1_3 = m2 * m11 * m12;
    let x1_4 = m3 * m8 * m14;
    let x1_5 = m3 * m10 * m12;
    assert(m9 * x1 == m9 * x1_0 + m9 * x1_3 + m9 * x1_4 - m9 * x1_1 - m9 * x1_2 - m9 * x1_5) by (nonlinear_arith)
        requires
            x1 == x1_0 + x1_3 + x1_4 - x1_1 - x1_2 - x1_5,
    ;
    assert(m9 * x1_0 == m0 * m9 * m10 * m15) by (nonlinear_arith)
        requires
            x1_0 == m0 * m10 * m15,
    ;
    assert(m9 * x1_1 == m0 * m9 * m11 * m14) by (nonlinear_arith)
        requires
            x1_1 == m0 * m11 * m14,
    ;
    assert(m9 * x1_2 == m2 * m8 * m9 * m15) by (nonlinear_arith)
        requires
            x1_2 == m2 * m8 * m15,
    ;
    assert(m9 * x1_3 == m2 * m9 * m11 * m12) by (nonlinear_arith)
        requires
            x1_3 == m2 * m11 * m12,
    ;
    assert(m9 * x1_4 == m3 * m8 * m9 * m14) by (nonlinear_arith)
        requires
            x1_4 == m3 * m8 * m14,
    ;
    assert(m9 * x1_5 == m3 * m9 * m10 * m12) by (nonlinear_arith)
        requires
            x1_5 == m3 * m10 * m12,
    ;
    let x2_0 = m0 * m9 * m15;
    let x2_1 = m0 * m11 * m13;
    let x2_2 = m1 * m8 * m15;
    let x2_3 = m1 * m11 * m12;
    let x2_4 = m3 * m8 * m13;
    let x2_5 = m3 * m9 * m12;
    assert(m10 * x2 == m10 * x2_0 + m10 * x2_3 + m10 * x2_4 - m10 * x2_1 - m10 * x2_2 - m10 * x2_5) by (nonlinear_arith)
        requires
            x2 == x2_0 + x2_3 + x2_4 - x2_1 - x2_2 - x2_5,
    ;
    assert(m10 * x2_0 == m0 * m9 * m10 * m15) by (nonlinear_arith)
        requires
            x2_0 == m0 * m9 * m15,
    ;
    assert(m10 * x2_1 == m0 * m10 * m11 * m13) by (nonlinear_arith)
        requires
            x2_1 == m0 * m11 * m13,
    ;
    assert(m10 * x2_2 == m1 * m8 * m10 * m15) by (nonlinear_arith)
        requires
            x2_2 == m1 * m8 * m15,
    ;
    assert(m10 * x2_3 == m1 * m10 * m11 * m12) by (nonlinear_arith)
        requires
            x2_3 == m1 * m11 * m12,
    ;
    assert(m10 * x2_4 == m3 * m8 * m10 * m13) by (nonlinear_arith)
        requires
            x2_4 == m3 * m8 * m13,
    ;
    assert(m10 * x2_5 == m3 * m9 * m10 * m12) by (nonlinear_arith)
        requires
            x2_5 == m3 * m9 * m12,
    ;
    let x3_0 = m0 * m9 * m14;
    let x3_1 = m0 * m10 * m13;
    let x3_2 = m1 * m8 * m14;
    let x3_3 = m1 * m10 * m12;
    let x3_4 = m2 * m8 * m13;
    let x3_5 = m2 * m9 * m12;
    assert(m11 * x3 == m11 * x3_0 + m11 * x3_3 + m11 * x3_4 - m11 * x3_1 - m11 * x3_2 - m11 * x3_5) by (nonlinear_arith)
        requires
            x3 == x3_0 + x3_3 + x3_4 - x3_1 - x3_2 - x3_5,
    ;
    assert(m11 * x3_0 == m0 * m9 * m11 * m14) by (nonlinear_arith)
        requires
            x3_0 == m0 * m9 * m14,
    ;
    assert(m11 * x3_1 == m0 * m10 * m11 * m13) by (nonlinear_arith)
        requires
            x3_1 == m0 * m10 * m13,
    ;
    assert(m11 * x3_2 == m1 * m8 * m11 * m14) by (nonlinear_arith)
        requires
            x3_2 == m1 * m8 * m14,
    ;
    assert(m11 * x3_3 == m1 * m10 * m11 * m12) by (nonlinear_arith)
        requires
            x3_3 == m1 * m10 * m12,
    ;
    assert(m11 * x3_4 == m2 * m8 * m11 * m13) by (nonlinear_arith)
        requires
            x3_4 == m2 * m8 * m13,
    ;
    assert(m11 * x3_5 == m2 * m9 * m11 * m12) by (nonlinear_arith)
        requires
            x3_5 == m2 * m9 * m12,
    ;
    assert(m9 * x1 + m11 * x3 - m8 * x0 - m10 * x2 == 0);
}

proof fn lemma_laplace_2_2(s: Seq<int>)
    requires
        s.len() == 16,
    ensures
        s[8] * rdet3(sub4(s, 2, 0)) + s[10] * rdet3(sub4(s, 2, 2)) - s[9] * rdet3(sub4(s, 2, 1)) - s[11] * rdet3(sub4(s, 2, 3)) == rdet4_raw(s),
{
    let m0 = s[0];
    let m1 = s[1];
    let m2 = s[2];
    let m3 = s[3];
    let m4 = s[4];
    let m5 = s[5];
    let m6 = s[6];
    let m7 = s[7];
    let m8 = s[8];
    let m9 = s[9];
    let m10 = s[10];
    let m11 = s[11];
    let m12 = s[12];
    let m13 = s[13];
    let m14 = s[14];
    let m15 = s[15];
    assert(sub4(s, 2, 0) =~= seq![m1, m2, m3, m5, m6, m7, m13, m14, m15]);
    lemma_rdet3_as_poly(sub4(s, 2, 0));
    assert(sub4(s, 2, 1) =~= seq![m0, m2, m3, m4, m6, m7, m12, m14, m15]);
    lemma_rdet3_as_poly(sub4(s, 2, 1));
    assert(sub4(s, 2, 2) =~= seq![m0, m1, m3, m4, m5, m7, m12, m13, m15]);
    lemma_rdet3_as_poly(sub4(s, 2, 2));
    assert(sub4(s, 2, 3) =~= seq![m0, m1, m2, m4, m5, m6, m12, m13, m14]);
    lemma_rdet3_as_poly(sub4(s, 2, 3));
    assert(sub4(s, 0, 0) =~= seq![m5, m6, m7, m9, m10, m11, m13, m14, m15]);
    lemma_rdet3_as_poly(sub4(s, 0, 0));
    assert(sub4(s, 0, 1) =~= seq![m4, m6, m7, m8, m10, m11, m12, m14, m15]);
    lemma_rdet3_as_poly(sub4(s, 0, 1));
    assert(sub4(s, 0, 2) =~= seq![m4, m5, m7, m8, m9, m11, m12, m13, m15]);
    lemma_rdet3_as_poly(sub4(s, 0, 2));
    assert(sub4(s, 0, 3) =~= seq![m4, m5, m6, m8, m9, m10, m12, m13, m14]);
    lemma_rdet3_as_poly(sub4(s, 0, 3));
    let x0 = rdet3(sub4(s, 2, 0));
    let x1 = rdet3(sub4(s, 2, 1));
    let x2 = rdet3(sub4(s, 2, 2));
    let x3 = rdet3(sub4(s, 2, 3));
    let y0 = rdet3(sub4(s, 0, 0));
    let y1 = rdet3(sub4(s, 0, 1));
    let y2 = rdet3(sub4(s, 0, 2));
    let y3 = rdet3(sub4(s, 0, 3));
    let x0_0 = m1 * m6 * m15;
    let x0_1 = m1 * m7 * m14;
    let x0_2 = m2 * m5 * m15;
    let x0_3 = m2 * m7 * m13;
    let x0_4 = m3 * m5 * m14;
    let x0_5 = m3 * m6 * m13;
    assert(m8 * x0 == m8 * x0_0 + m8 * x0_3 + m8 * x0_4 - m8 * x0_1 - m8 * x0_2 - m8 * x0_5) by (nonlinear_arith)
        requires
            x0 == x0_0 + x0_3 + x0_4 - x0_1 - x0_2 - x0_5,
    ;
    assert(m8 * x0_0 == m1 * m6 * m8 * m15) by (nonlinear_arith)
        requires
            x0_0 == m1 * m6 * m15,
    ;
    assert(m8 * x0_1 == m1 * m7 * m8 * m14) by (nonlinear_arith)
        requires
            x0_1 == m1 * m7 * m14,
    ;
    assert(m8 * x0_2 == m2 * m5 * m8 * m15) by (nonlinear_arith)
        requires
            x0_2 == m2 * m5 * m15,
    ;
    assert(m8 * x0_3 == m2 * m7 * m8 * m13) by (nonlinear_arith)
        requires
            x0_3 == m2 * m7 * m13,
    ;
    assert(m8 * x0_4 == m3 * m5 * m8 * m14) by (nonlinear_arith)
        requires
            x0_4 == m3 * m5 * m14,
    ;
    assert(m8 * x0_5 == m3 * m6 * m8 * m13) by (nonlinear_arith)
        requires
            x0_5 == m3 * m6 * m13,
    ;
    let x1_0 = m0 * m6 * m15;
    let x1_1 = m0 * m7 * m14;
    let x1_2 = m2 * m4 * m15;
    let x1_3 = m2 * m7 * m12;
    let x1_4 = m3 * m4 * m14;
    let x1_5 = m3 * m6 * m12;
    assert(m9 * x1 == m9 * x1_0 + m9 * x1_3 + m9 * x1_4 - m9 * x1_1 - m9 * x1_2 - m9 * x1_5) by (nonlinear_arith)
        requires
            x1 == x1_0 + x1_3 + x1_4 - x1_1 - x1_2 - x1_5,
    ;
    assert(m9 * x1_0 == m0 * m6 * m9 * m15) by (nonlinear_arith)
        requires
            x1_0 == m0 * m6 * m15,
    ;
    assert(m9 * x1_1 == m0 * m7 * m9 * m14) by (nonlinear_arith)
        requires
            x1_1 == m0 * m7 * m14,
    ;
    assert(m9 * x1_2 == m2 * m4 * m9 * m15) by (nonlinear_arith)
        requires
            x1_2 == m2 * m4 * m15,
    ;
    assert(m9 * x1_3 == m2 * m7 * m9 * m12) by (nonlinear_arith)
        requires
            x1_3 == m2 * m7 * m12,
    ;
    assert(m9 * x1_4 == m3 * m4 * m9 * m14) by (nonlinear_arith)
        requires
            x1_4 == m3 * m4 * m14,
    ;
    assert(m9 * x1_5 == m3 * m6 * m9 * m12) by (nonlinear_arith)
        requires
            x1_5 == m3 * m6 * m12,
    ;
    let x2_0 = m0 * m5 * m15;
    let x2_1 = m0 * m7 * m13;
    let x2_2 = m1 * m4 * m15;
    let x2_3 = m1 * m7 * m12;
    let x2_4 = m3 * m4 * m13;
    let x2_5 = m3 * m5 * m12;
    assert(m10 * x2 == m10 * x2_0 + m10 * x2_3 + m10 * x2_4 - m10 * x2_1 - m10 * x2_2 - m10 * x2_5) by (nonlinear_arith)
        requires
            x2 == x2_0 + x2_3 + x2_4 - x2_1 - x2_2 - x2_5,
    ;
    assert(m10 * x2_0 == m0 * m5 * m10 * m15) by (nonlinear_arith)
        requires
            x2_0 == m0 * m5 * m15,
    ;
    assert(m10 * x2_1 == m0 * m7 * m10 * m13) by (nonlinear_arith)
        requires
            x2_1 == m0 * m7 * m13,
    ;
    assert(m10 * x2_2 == m1 * m4 * m10 * m15) by (nonlinear_arith)
        requires
            x2_2 == m1 * m4 * m15,
    ;
    assert(m10 * x2_3 == m1 * m7 * m10 * m12) by (nonlinear_arith)
        requires
            x2_3 == m1 * m7 * m12,
    ;
    assert(m10 * x2_4 == m3 * m4 * m10 * m13) by (nonlinear_arith)
        requires
            x2_4 == m3 * m4 * m13,
    ;
    assert(m10 * x2_5 == m3 * m5 * m10 * m12) by (nonlinear_arith)
        requires
            x2_5 == m3 * m5 * m12,
    ;
    let x3_0 = m0 * m5 * m14;
    let x3_1 = m0 * m6 * m13;
    let x3_2 = m1 * m4 * m14;
    let x3_3 = m1 * m6 * m12;
    let x3_4 = m2 * m4 * m13;
    let x3_5 = m2 * m5 * m12;
    assert(m11 * x3 == m11 * x3_0 + m11 * x3_3 + m11 * x3_4 - m11 * x3_1 - m11 * x3_2 - m11 * x3_5) by (nonlinear_arith)
        requires
            x3 == x3_0 + x3_3 + x3_4 - x3_1 - x3_2 - x3_5,
    ;
    assert(m11 * x3_0 == m0 * m5 * m11 * m14) by (nonlinear_arith)
        requires
            x3_0 == m0 * m5 * m14,
    ;
    assert(m11 * x3_1 == m0 * m6 * m11 * m13) by (nonlinear_arith)
        requires
            x3_1 == m0 * m6 * m13,
    ;
    assert(m11 * x3_2 == m1 * m4 * m11 * m14) by (nonlinear_arith)
        requires
            x3_2 == m1 * m4 * m14,
    ;
    assert(m11 * x3_3 == m1 * m6 * m11 * m12) by (nonlinear_arith)
        requires
            x3_3 == m1 * m6 * m12,
    ;
    assert(m11 * x3_4 == m2 * m4 * m11 * m13) by (nonlinear_arith)
        requires
            x3_4 == m2 * m4 * m13,
    ;
    assert(m11 * x3_5 == m2 * m5 * m11 * m12) by (nonlinear_arith)
        requires
            x3_5 == m2 * m5 * m12,
    ;
    let y0_0 = m5 * m10 * m15;
    let y0_1 = m5 * m11 * m14;
    let y0_2 = m6 * m9 * m15;
    let y0_3 = m6 * m11 * m13;
    let y0_4 = m7 * m9 * m14;
    let y0_5 = m7 * m10 * m13;
    assert(m0 * y0 == m0 * y0_0 + m0 * y0_3 + m0 * y0_4 - m0 * y0_1 - m0 * y0_2 - m0 * y0_5) by (nonlinear_arith)
        requires
            y0 == y0_0 + y0_3 + y0_4 - y0_1 - y0_2 - y0_5,
    ;
    assert(m0 * y0_0 == m0 * m5 * m10 * m15) by (nonlinear_arith)
        requires
            y0_0 == m5 * m10 * m15,
    ;
    assert(m0 * y0_1 == m0 * m5 * m11 * m14) by (nonlinear_arith)
        requires
            y0_1 == m5 * m11 * m14,
    ;
    assert(m0 * y0_2 == m0 * m6 * m9 * m15) by (nonlinear_arith)
        requires
            y0_2 == m6 * m9 * m15,
    ;
    assert(m0 * y0_3 == m0 * m6 * m11 * m13) by (nonlinear_arith)
        requires
            y0_3 == m6 * m11 * m13,
    ;
    assert(m0 * y0_4 == m0 * m7 * m9 * m14) by (nonlinear_arith)
        requires
            y0_4 == m7 * m9 * m14,
    ;
    assert(m0 * y0_5 == m0 * m7 * m10 * m13) by (nonlinear_arith)
        requires
            y0_5 == m7 * m10 * m13,
    ;
    let y1_0 = m4 * m10 * m15;
    let y1_1 = m4 * m11 * m14;
    let y1_2 = m6 * m8 * m15;
    let y1_3 = m6 * m11 * m12;
    let y1_4 = m7 * m8 * m14;
    let y1_5 = m7 * m10 * m12;
    assert(m1 * y1 == m1 * y1_0 + m1 * y1_3 + m1 * y1_4 - m1 * y1_1 - m1 * y1_2 - m1 * y1_5) by (nonlinear_arith)
        requires
            y1 == y1_0 + y1_3 + y1_4 - y1_1 - y1_2 - y1_5,
    ;
    assert(m1 * y1_0 == m1 * m4 * m10 * m15) by (nonlinear_arith)
        requires
            y1_0 == m4 * m10 * m15,
    ;
    assert(m1 * y1_1 == m1 * m4 * m11 * m14) by (nonlinear_arith)
        requires
            y1_1 == m4 * m11 * m14,
    ;
    assert(m1 * y1_2 == m1 * m6 * m8 * m15) by (nonlinear_arith)
        requires
            y1_2 == m6 * m8 * m15,
    ;
    assert(m1 * y1_3 == m1 * m6 * m11 * m12) by (nonlinear_arith)
        requires
            y1_3 == m6 * m11 * m12,
    ;
    assert(m1 * y1_4 == m1 * m7 * m8 * m14) by (nonlinear_arith)
        requires
            y1_4 == m7 * m8 * m14,
    ;
    assert(m1 * y1_5 == m1 * m7 * m10 * m12) by (nonlinear_arith)
        requires
            y1_5 == m7 * m10 * m12,
    ;
    let y2_0 = m4 * m9 * m15;
    let y2_1 = m4 * m11 * m13;
    let y2_2 = m5 * m8 * m15;
    let y2_3 = m5 * m11 * m12;
    let y2_4 = m7 * m8 * m13;
    let y2_5 = m7 * m9 * m12;
    assert(m2 * y2 == m2 * y2_0 + m2 * y2_3 + m2 * y2_4 - m2 * y2_1 - m2 * y2_2 - m2 * y2_5) by (nonlinear_arith)
        requires
            y2 == y2_0 + y2_3 + y2_4 - y2_1 - y2_2 - y2_5,
    ;
    assert(m2 * y2_0 == m2 * m4 * m9 * m15) by (nonlinear_arith)
        requires
            y2_0 == m4 * m9 * m15,
    ;
    assert(m2 * y2_1 == m2 * m4 * m11 * m13) by (nonlinear_arith)
        requires
            y2_1 == m4 * m11 * m13,
    ;
    assert(m2 * y2_2 == m2 * m5 * m8 * m15) by (nonlinear_arith)
        requires
            y2_2 == m5 * m8 * m15,
    ;
    assert(m2 * y2_3 == m2 * m5 * m11 * m12) by (nonlinear_arith)
        requires
            y2_3 == m5 * m11 * m12,
    ;
    assert(m2 * y2_4 == m2 * m7 * m8 * m13) by (nonlinear_arith)
        requires
            y2_4 == m7 * m8 * m13,
    ;
    assert(m2 * y2_5 == m2 * m7 * m9 * m12) by (nonlinear_arith)
        requires
            y2_5 == m7 * m9 * m12,
    ;
    let y3_0 = m4 * m9 * m14;
    let y3_1 = m4 * m10 * m13;
    let y3_2 = m5 * m8 * m14;
    let y3_3 = m5 * m10 * m12;
    let y3_4 = m6 * m8 * m13;
    let y3_5 = m6 * m9 * m12;
    assert(m3 * y3 == m3 * y3_0 + m3 * y3_3 + m3 * y3_4 - m3 * y3_1 - m3 * y3_2 - m3 * y3_5) by (nonlinear_arith)
        requires
            y3 == y3_0 + y3_3 + y3_4 - y3_1 - y3_2 - y3_5,
    ;
    assert(m3 * y3_0 == m3 * m4 * m9 * m14) by (nonlinear_arith)
        requires
            y3_0 == m4 * m9 * m14,
    ;
    assert(m3 * y3_1 == m3 * m4 * m10 * m13) by (nonlinear_arith)
        requires
            y3_1 == m4 * m10 * m13,
    ;
    assert(m3 * y3_2 == m3 * m5 * m8 * m14) by (nonlinear_arith)
        requires
            y3_2 == m5 * m8 * m14,
    ;
    assert(m3 * y3_3 == m3 * m5 * m10 * m12) by (nonlinear_arith)
        requires
            y3_3 == m5 * m10 * m12,
    ;
    assert(m3 * y3_4 == m3 * m6 * m8 * m13) by (nonlinear_arith)
        requires
            y3_4 == m6 * m8 * m13,
    ;
    assert(m3 * y3_5 == m3 * m6 * m9 * m12) by (nonlinear_arith)
        requires
            y3_5 == m6 * m9 * m12,
    ;
    assert(m8 * x0 + m10 * x2 - m9 * x1 - m11 * x3 == m0 * y0 + m2 * y2 - m1 * y1 - m3 * y3);
}

proof fn lemma_laplace_2_3(s: Seq<int>)
    requires
        s.len() == 16,
    ensures
        s[9] * rdet3(sub4(s, 3, 1)) + s[11] * rdet3(sub4(s, 3, 3)) - s[8] * rdet3(sub4(s, 3, 0)) - s[10] * rdet3(sub4(s, 3, 2)) == 0,
{
    let m0 = s[0];
    let m1 = s[1];
    let m2 = s[2];
    let m3 = s[3];
    let m4 = s[4];
    let m5 = s[5];
    let m6 = s[6];
    let m7 = s[7];
    let m8 = s[8];
    let m9 = s[9];
    let m10 = s[10];
    let m11 = s[11];
    let m12 = s[12];
    let m13 = s[13];
    let m14 = s[14];
    let m15 = s[15];
    assert(sub4(s, 3, 0) =~= seq![m1, m2, m3, m5, m6, m7, m9, m10, m11]);
    lemma_rdet3_as_poly(sub4(s, 3, 0));
    assert(sub4(s, 3, 1) =~= seq![m0, m2, m3, m4, m6, m7, m8, m10, m11]);
    lemma_rdet3_as_poly(sub4(s, 3, 1));
    assert(sub4(s, 3, 2) =~= seq![m0, m1, m3, m4, m5, m7, m8, m9, m11]);
    lemma_rdet3_as_poly(sub4(s, 3, 2));
    assert(sub4(s, 3, 3) =~= seq![m0, m1, m2, m4, m5, m6, m8, m9, m10]);
    lemma_rdet3_as_poly(sub4(s, 3, 3));
    let x0 = rdet3(sub4(s, 3, 0));
    let x1 = rdet3(sub4(s, 3, 1));
    let x2 = rdet3(sub4(s, 3, 2));
    let x3 = rdet3(sub4(s, 3, 3));
    let x0_0 = m1 * m6 * m11;
    let x0_1 = m1 * m7 * m10;
    let x0_2 = m2 * m5 * m11;
    let x0_3 = m2 * m7 * m9;
    let x0_4 = m3 * m5 * m10;
    let x0_5 = m3 * m6 * m9;
    assert(m8 * x0 == m8 * x0_0 + m8 * x0_3 + m8 * x0_4 - m8 * x0_1 - m8 * x0_2 - m8 * x0_5) by (nonlinear_arith)
        requires
            x0 == x0_0 + x0_3 + x0_4 - x0_1 - x0_2 - x0_5,
    ;
    assert(m8 * x0_0 == m1 * m6 * m8 * m11) by (nonlinear_arith)
        requires
            x0_0 == m1 * m6 * m11,
    ;
    assert(m8 * x0_1 == m1 * m7 * m8 * m10) by (nonlinear_arith)
        requires
            x0_1 == m1 * m7 * m10,
    ;
    assert(m8 * x0_2 == m2 * m5 * m8 * m11) by (nonlinear_arith)
        requires
            x0_2 == m2 * m5 * m11,
    ;
    assert(m8 * x0_3 == m2 * m7 * m8 * m9) by (nonlinear_arith)
        requires
            x0_3 == m2 * m7 * m9,
    ;
    assert(m8 * x0_4 == m3 * m5 * m8 * m10) by (nonlinear_arith)
        requires
            x0_4 == m3 * m5 * m10,
    ;
    assert(m8 * x0_5 == m3 * m6 * m8 * m9) by (nonlinear_arith)
        requires
            x0_5 == m3 * m6 * m9,
    ;
    let x1_0 = m0 * m6 * m11;
    let x1_1 = m0 * m7 * m10;
    let x1_2 = m2 * m4 * m11;
    let x1_3 = m2 * m7 * m8;
    let x1_4 = m3 * m4 * m10;
    let x1_5 = m3 * m6 * m8;
    assert(m9 * x1 == m9 * x1_0 + m9 * x1_3 + m9 * x1_4 - m9 * x1_1 - m9 * x1_2 - m9 * x1_5) by (nonlinear_arith)
        requires
            x1 == x1_0 + x1_3 + x1_4 - x1_1 - x1_2 - x1_5,
    ;
    assert(m9 * x1_0 == m0 * m6 * m9 * m11) by (nonlinear_arith)
        requires
            x1_0 == m0 * m6 * m11,
    ;
    assert(m9 * x1_1 == m0 * m7 * m9 * m10) by (nonlinear_arith)
        requires
            x1_1 == m0 * m7 * m10,
    ;
    assert(m9 * x1_2 == m2 * m4 * m9 * m11) by (nonlinear_arith)
        requires
            x1_2 == m2 * m4 * m11,
    ;
    assert(m9 * x1_3 == m2 * m7 * m8 * m9) by (nonlinear_arith)
        requires
            x1_3 == m2 * m7 * m8,
    ;
    assert(m9 * x1_4 == m3 * m4 * m9 * m10) by (nonlinear_arith)
        requires
            x1_4 == m3 * m4 * m10,
    ;
    assert(m9 * x1_5 == m3 * m6 * m8 * m9) by (nonlinear_arith)
        requires
            x1_5 == m3 * m6 * m8,
    ;
    let x2_0 = m0 * m5 * m11;
    let x2_1 = m0 * m7 * m9;
    let x2_2 = m1 * m4 * m11;
    let x2_3 = m1 * m7 * m8;
    let x2_4 = m3 * m4 * m9;
    let x2_5 = m3 * m5 * m8;
    assert(m10 * x2 == m10 * x2_0 + m10 * x2_3 + m10 * x2_4 - m10 * x2_1 - m10 * x2_2 - m10 * x2_5) by (nonlinear_arith)
        requires
            x2 == x2_0 + x2_3 + x2_4 - x2_1 - x2_2 - x2_5,
    ;
    assert(m10 * x2_0 == m0 * m5 * m10 * m11) by (nonlinear_arith)
        requires
            x2_0 == m0 * m5 * m11,
    ;
    assert(m10 * x2_1 == m0 * m7 * m9 * m10) by (nonlinear_arith)
        requires
            x2_1 == m0 * m7 * m9,
    ;
    assert(m10 * x2_2 == m1 * m4 * m10 * m11) by (nonlinear_arith)
        requires
            x2_2 == m1 * m4 * m11,
    ;
    assert(m10 * x2_3 == m1 * m7 * m8 * m10) by (nonlinear_arith)
        requires
            x2_3 == m1 * m7 * m8,
    ;
    assert(m10 * x2_4 == m3 * m4 * m9 * m10) by (nonlinear_arith)
        requires
            x2_4 == m3 * m4 * m9,
    ;
    assert(m10 * x2_5 == m3 * m5 * m8 * m10) by (nonlinear_arith)
        requires
            x2_5 == m3 * m5 * m8,
    ;
    let x3_0 = m0 * m5 * m10;
    let x3_1 = m0 * m6 * m9;
    let x3_2 = m1 * m4 * m10;
    let x3_3 = m1 * m6 * m8;
    let x3_4 = m2 * m4 * m9;
    let x3_5 = m2 * m5 * m8;
    assert(m11 * x3 == m11 * x3_0 + m11 * x3_3 + m11 * x3_4 - m11 * x3_1 - m11 * x3_2 - m11 * x3_5) by (nonlinear_arith)
        requires
            x3 == x3_0 + x3_3 + x3_4 - x3_1 - x3_2 - x3_5,
    ;
    assert(m11 * x3_0 == m0 * m5 * m10 * m11) by (nonlinear_arith)
        requires
            x3_0 == m0 * m5 * m10,
    ;
    assert(m11 * x3_1 == m0 * m6 * m9 * m11) by (nonlinear_arith)
        requires
            x3_1 == m0 * m6 * m9,
    ;
    assert(m11 * x3_2 == m1 * m4 * m10 * m11) by (nonlinear_arith)
        requires
            x3_2 == m1 * m4 * m10,
    ;
    assert(m11 * x3_3 == m1 * m6 * m8 * m11) by (nonlinear_arith)
        requires
            x3_3 == m1 * m6 * m8,
    ;
    assert(m11 * x3_4 == m2 * m4 * m9 * m11) by (nonlinear_arith)
        requires
            x3_4 == m2 * m4 * m9,
    ;
    assert(m11 * x3_5 == m2 * m5 * m8 * m11) by (nonlinear_arith)
        requires
            x3_5 == m2 * m5 * m8,
    ;
    assert(m9 * x1 + m11 * x3 - m8 * x0 - m10 * x2 == 0);
}

proof fn lemma_laplace_3_0(s: Seq<int>)
    requires
        s.len() == 16,
    ensures
        s[12] * rdet3(sub4(s, 0, 0)) + s[14] * rdet3(sub4(s, 0, 2)) - s[13] * rdet3(sub4(s, 0, 1)) - s[15] * rdet3(sub4(s, 0, 3)) == 0,
{
    let m0 = s[0];
    let m1 = s[1];
    let m2 = s[2];
    let m3 = s[3];
    let m4 = s[4];
    let m5 = s[5];
    let m6 = s[6];
    let m7 = s[7];
    let m8 = s[8];
    let m9 = s[9];
    let m10 = s[10];
    let m11 = s[11];
    let m12 = s[12];
    let m13 = s[13];
    let m14 = s[14];
    let m15 = s[15];
    assert(sub4(s, 0, 0) =~= seq![m5, m6, m7, m9, m10, m11, m13, m14, m15]);
    lemma_rdet3_as_poly(sub4(s, 0, 0));
    assert(sub4(s, 0, 1) =~= seq![m4, m6, m7, m8, m10, m11, m12, m14, m15]);
    lemma_rdet3_as_poly(sub4(s, 0, 1));
    assert(sub4(s, 0, 2) =~= seq![m4, m5, m7, m8, m9, m11, m12, m13, m15]);
    lemma_rdet3_as_poly(sub4(s, 0, 2));
    assert(sub4(s, 0, 3) =~= seq![m4, m5, m6, m8, m9, m10, m12, m13, m14]);
    lemma_rdet3_as_poly(sub4(s, 0, 3));
    let x0 = rdet3(sub4(s, 0, 0));
    let x1 = rdet3(sub4(s, 0, 1));
    let x2 = rdet3(sub4(s, 0, 2));
    let x3 = rdet3(sub4(s, 0, 3));
    let x0_0 = m5 * m10 * m15;
    let x0_1 = m5 * m11 * m14;
    let x0_2 = m6 * m9 * m15;
    let x0_3 = m6 * m11 * m13;
    let x0_4 = m7 * m9 * m14;
    let x0_5 = m7 * m10 * m13;
    assert(m12 * x0 == m12 * x0_0 + m12 * x0_3 + m12 * x0_4 - m12 * x0_1 - m12 * x0_2 - m12 * x0_5) by (nonlinear_arith)
        requires
            x0 == x0_0 + x0_3 + x0_4 - x0_1 - x0_2 - x0_5,
    ;
    assert(m12 * x0_0 == m5 * m10 * m12 * m15) by (nonlinear_arith)
        requires
            x0_0 == m5 * m10 * m15,
    ;
    assert(m12 * x0_1 == m5 * m11 * m12 * m14) by (nonlinear_arith)
        requires
            x0_1 == m5 * m11 * m14,
    ;
    assert(m12 * x0_2 == m6 * m9 * m12 * m15) by (nonlinear_arith)
        requires
            x0_2 == m6 * m9 * m15,
    ;
    assert(m12 * x0_3 == m6 * m11 * m12 * m13) by (nonlinear_arith)
        requires
            x0_3 == m6 * m11 * m13,
    ;
    assert(m12 * x0_4 == m7 * m9 * m12 * m14) by (nonlinear_arith)
        requires
            x0_4 == m7 * m9 * m14,
    ;
    assert(m12 * x0_5 == m7 * m10 * m12 * m13) by (nonlinear_arith)
        requires
            x0_5 == m7 * m10 * m13,
    ;
    let x1_0 = m4 * m10 * m15;
    let x1_1 = m4 * m11 * m14;
    let x1_2 = m6 * m8 * m15;
    let x1_3 = m6 * m11 * m12;
    let x1_4 = m7 * m8 * m14;
    let x1_5 = m7 * m10 * m12;
    assert(m13 * x1 == m13 * x1_0 + m13 * x1_3 + m13 * x1_4 - m13 * x1_1 - m13 * x1_2 - m13 * x1_5) by (nonlinear_arith)
        requires
            x1 == x1_0 + x1_3 + x1_4 - x1_1 - x1_2 - x1_5,
    ;
    assert(m13 * x1_0 == m4 * m10 * m13 * m15) by (nonlinear_arith)
        requires
            x1_0 == m4 * m10 * m15,
    ;
    assert(m13 * x1_1 == m4 * m11 * m13 * m14) by (nonlinear_arith)
        requires
            x1_1 == m4 * m11 * m14,
    ;
    assert(m13 * x1_2 == m6 * m8 * m13 * m15) by (nonlinear_arith)
        requires
            x1_2 == m6 * m8 * m15,
    ;
    assert(m13 * x1_3 == m6 * m11 * m12 * m13) by (nonlinear_arith)
        requires
            x1_3 == m6 * m11 * m12,
    ;
    assert(m13 * x1_4 == m7 * m8 * m13 * m14) by (nonlinear_arith)
        requires
            x1_4 == m7 * m8 * m14,
    ;
    assert(m13 * x1_5 == m7 * m10 * m12 * m13) by (nonlinear_arith)
        requires
            x1_5 == m7 * m10 * m12,
    ;
    let x2_0 = m4 * m9 * m15;
    let x2_1 = m4 * m11 * m13;
    let x2_2 = m5 * m8 * m15;
    let x2_3 = m5 * m11 * m12;
    let x2_4 = m7 * m8 * m13;
    let x2_5 = m7 * m9 * m12;
    assert(m14 * x2 == m14 * x2_0 + m14 * x2_3 + m14 * x2_4 - m14 * x2_1 - m14 * x2_2 - m14 * x2_5) by (nonlinear_arith)
        requires
            x2 == x2_0 + x2_3 + x2_4 - x2_1 - x2_2 - x2_5,
    ;
    assert(m14 * x2_0 == m4 * m9 * m14 * m15) by (nonlinear_arith)
        requires
            x2_0 == m4 * m9 * m15,
    ;
    assert(m14 * x2_1 == m4 * m11 * m13 * m14) by (nonlinear_arith)
        requires
            x2_1 == m4 * m11 * m13,
    ;
    assert(m14 * x2_2 == m5 * m8 * m14 * m15) by (nonlinear_arith)
        requires
            x2_2 == m5 * m8 * m15,
    ;
    assert(m14 * x2_3 == m5 * m11 * m12 * m14) by (nonlinear_arith)
        requires
            x2_3 == m5 * m11 * m12,
    ;
    assert(m14 * x2_4 == m7 * m8 * m13 * m14) by (nonlinear_arith)
        requires
            x2_4 == m7 * m8 * m13,
    ;
    assert(m14 * x2_5 == m7 * m9 * m12 * m14) by (nonlinear_arith)
        requires
            x2_5 == m7 * m9 * m12,
    ;
    let x3_0 = m4 * m9 * m14;
    let x3_1 = m4 * m10 * m13;
    let x3_2 = m5 * m8 * m14;
    let x3_3 = m5 * m10 * m12;
    let x3_4 = m6 * m8 * m13;
    let x3_5 = m6 * m9 * m12;
    assert(m15 * x3 == m15 * x3_0 + m15 * x3_3 + m15 * x3_4 - m15 * x3_1 - m15 * x3_2 - m15 * x3_5) by (nonlinear_arith)
        requires
            x3 == x3_0 + x3_3 + x3_4 - x3_1 - x3_2 - x3_5,
    ;
    assert(m15 * x3_0 == m4 * m9 * m14 * m15) by (nonlinear_arith)
        requires
            x3_0 == m4 * m9 * m14,
    ;
    assert(m15 * x3_1 == m4 * m10 * m13 * m15) by (nonlinear_arith)
        requires
            x3_1 == m4 * m10 * m13,
    ;
    assert(m15 * x3_2 == m5 * m8 * m14 * m15) by (nonlinear_arith)
        requires
            x3_2 == m5 * m8 * m14,
    ;
    assert(m15 * x3_3 == m5 * m10 * m12 * m15) by (nonlinear_arith)
        requires
            x3_3 == m5 * m10 * m12,
    ;
    assert(m15 * x3_4 == m6 * m8 * m13 * m15) by (nonlinear_arith)
        requires
            x3_4 == m6 * m8 * m13,
    ;
    assert(m15 * x3_5 == m6 * m9 * m12 * m15) by (nonlinear_arith)
        requires
            x3_5 == m6 * m9 * m12,
    ;
    assert(m12 * x0 + m14 * x2 - m13 * x1 - m15 * x3 == 0);
}

proof fn lemma_laplace_3_1(s: Seq<int>)
    requires
        s.len() == 16,
    ensures
        s[13] * rdet3(sub4(s, 1, 1)) + s[15] * rdet3(sub4(s, 1, 3)) - s[12] * rdet3(sub4(s, 1, 0)) - s[14] * rdet3(sub4(s, 1, 2)) == 0,
{
    let m0 = s[0];
    let m1 = s[1];
    let m2 = s[2];
    let m3 = s[3];
    let m4 = s[4];
    let m5 = s[5];
    let m6 = s[6];
    let m7 = s[7];
    let m8 = s[8];
    let m9 = s[9];
    let m10 = s[10];
    let m11 = s[11];
    let m12 = s[12];
    let m13 = s[13];
    let m14 = s[14];
    let m15 = s[15];
    assert(sub4(s, 1, 0) =~= seq![m1, m2, m3, m9, m10, m11, m13, m14, m15]);
    lemma_rdet3_as_poly(sub4(s, 1, 0));
    assert(sub4(s, 1, 1) =~= seq![m0, m2, m3, m8, m10, m11, m12, m14, m15]);
    lemma_rdet3_as_poly(sub4(s, 1, 1));
    assert(sub4(s, 1, 2) =~= seq![m0, m1, m3, m8, m9, m11, m12, m13, m15]);
    lemma_rdet3_as_poly(sub4(s, 1, 2));
    assert(sub4(s, 1, 3) =~= seq![m0, m1, m2, m8, m9, m10, m12, m13, m14]);
    lemma_rdet3_as_poly(sub4(s, 1, 3));
    let x0 = rdet3(sub4(s, 1, 0));
    let x1 = rdet3(sub4(s, 1, 1));
    let x2 = rdet3(sub4(s, 1, 2));
    let x3 = rdet3(sub4(s, 1, 3));
    let x0_0 = m1 * m10 * m15;
    let x0_1 = m1 * m11 * m14;
    let x0_2 = m2 * m9 * m15;
    let x0_3 = m2 * m11 * m13;
    let x0_4 = m3 * m9 * m14;
    let x0_5 = m3 * m10 * m13;
    assert(m12 * x0 == m12 * x0_0 + m12 * x0_3 + m12 * x0_4 - m12 * x0_1 - m12 * x0_2 - m12 * x0_5) by (nonlinear_arith)
        requires
            x0 == x0_0 + x0_3 + x0_4 - x0_1 - x0_2 - x0_5,
    ;
    assert(m12 * x0_0 == m1 * m10 * m12 * m15) by (nonlinear_arith)
        requires
            x0_0 == m1 * m10 * m15,
    ;
    assert(m12 * x0_1 == m1 * m11 * m12 * m14) by (nonlinear_arith)
        requires
            x0_1 == m1 * m11 * m14,
    ;
    assert(m12 * x0_2 == m2 * m9 * m12 * m15) by (nonlinear_arith)
        requires
            x0_2 == m2 * m9 * m15,
    ;
    assert(m12 * x0_3 == m2 * m11 * m12 * m13) by (nonlinear_arith)
        requires
            x0_3 == m2 * m11 * m13,
    ;
    assert(m12 * x0_4 == m3 * m9 * m12 * m14) by (nonlinear_arith)
        requires
            x0_4 == m3 * m9 * m14,
    ;
    assert(m12 * x0_5 == m3 * m10 * m12 * m13) by (nonlinear_arith)
        requires
            x0_5 == m3 * m10 * m13,
    ;
    let x1_0 = m0 * m10 * m15;
    let x1_1 = m0 * m11 * m14;
    let x1_2 = m2 * m8 * m15;
    let x1_3 = m2 * m11 * m12;
    let x1_4 = m3 * m8 * m14;
    let x1_5 = m3 * m10 * m12;
    assert(m13 * x1 == m13 * x1_0 + m13 * x1_3 + m13 * x1_4 - m13 * x1_1 - m13 * x1_2 - m13 * x1_5) by (nonlinear_arith)
        requires
            x1 == x1_0 + x1_3 + x1_4 - x1_1 - x1_2 - x1_5,
    ;
    assert(m13 * x1_0 == m0 * m10 * m13 * m15) by (nonlinear_arith)
        requires
            x1_0 == m0 * m10 * m15,
    ;
    assert(m13 * x1_1 == m0 * m11 * m13 * m14) by (nonlinear_arith)
        requires
            x1_1 == m0 * m11 * m14,
    ;
    assert(m13 * x1_2 == m2 * m8 * m13 * m15) by (nonlinear_arith)
        requires
            x1_2 == m2 * m8 * m15,
    ;
    assert(m13 * x1_3 == m2 * m11 * m12 * m13) by (nonlinear_arith)
        requires
            x1_3 == m2 * m11 * m12,
    ;
    assert(m13 * x1_4 == m3 * m8 * m13 * m14) by (nonlinear_arith)
        requires
            x1_4 == m3 * m8 * m14,
    ;
    assert(m13 * x1_5 == m3 * m10 * m12 * m13) by (nonlinear_arith)
        requires
            x1_5 == m3 * m10 * m12,
    ;
    let x2_0 = m0 * m9 * m15;
    let x2_1 = m0 * m11 * m13;
    let x2_2 = m1 * m8 * m15;
    let x2_3 = m1 * m11 * m12;
    let x2_4 = m3 * m8 * m13;
    let x2_5 = m3 * m9 * m12;
    assert(m14 * x2 == m14 * x2_0 + m14 * x2_3 + m14 * x2_4 - m14 * x2_1 - m14 * x2_2 - m14 * x2_5) by (nonlinear_arith)
        requires
            x2 == x2_0 + x2_3 + x2_4 - x2_1 - x2_2 - x2_5,
    ;
    assert(m14 * x2_0 == m0 * m9 * m14 * m15) by (nonlinear_arith)
        requires
            x2_0 == m0 * m9 * m15,
    ;
    assert(m14 * x2_1 == m0 * m11 * m13 * m14) by (nonlinear_arith)
        requires
            x2_1 == m0 * m11 * m13,
    ;
    assert(m14 * x2_2 == m1 * m8 * m14 * m15) by (nonlinear_arith)
        requires
            x2_2 == m1 * m8 * m15,
    ;
    assert(m14 * x2_3 == m1 * m11 * m12 * m14) by (nonlinear_arith)
        requires
            x2_3 == m1 * m11 * m12,
    ;
    assert(m14 * x2_4 == m3 * m8 * m13 * m14) by (nonlinear_arith)
        requires
            x2_4 == m3 * m8 * m13,
    ;
    assert(m14 * x2_5 == m3 * m9 * m12 * m14) by (nonlinear_arith)
        requires
            x2_5 == m3 * m9 * m12,
    ;
    let x3_0 = m0 * m9 * m14;
    let x3_1 = m0 * m10 * m13;
    let x3_2 = m1 * m8 * m14;
    let x3_3 = m1 * m10 * m12;
    let x3_4 = m2 * m8 * m13;
    let x3_5 = m2 * m9 * m12;
    assert(m15 * x3 == m15 * x3_0 + m15 * x3_3 + m15 * x3_4 - m15 * x3_1 - m15 * x3_2 - m15 * x3_5) by (nonlinear_arith)
        requires
            x3 == x3_0 + x3_3 + x3_4 - x3_1 - x3_2 - x3_5,
    ;
    assert(m15 * x3_0 == m0 * m9 * m14 * m15) by (nonlinear_arith)
        requires
            x3_0 == m0 * m9 * m14,
    ;
    assert(m15 * x3_1 == m0 * m10 * m13 * m15) by (nonlinear_arith)
        requires
            x3_1 == m0 * m10 * m13,
    ;
    assert(m15 * x3_2 == m1 * m8 * m14 * m15) by (nonlinear_arith)
        requires
            x3_2 == m1 * m8 * m14,
    ;
    assert(m15 * x3_3 == m1 * m10 * m12 * m15) by (nonlinear_arith)
        requires
            x3_3 == m1 * m10 * m12,
    ;
    assert(m15 * x3_4 == m2 * m8 * m13 * m15) by (nonlinear_arith)
        requires
            x3_4 == m2 * m8 * m13,
    ;
    assert(m15 * x3_5 == m2 * m9 * m12 * m15) by (nonlinear_arith)
        requires
            x3_5 == m2 * m9 * m12,
    ;
    assert(m13 * x1 + m15 * x3 - m12 * x0 - m14 * x2 == 0);
}

proof fn lemma_laplace_3_2(s: Seq<int>)
    requires
        s.len() == 16,
    ensures
        s[12] * rdet3(sub4(s, 2, 0)) + s[14] * rdet3(sub4(s, 2, 2)) - s[13] * rdet3(sub4(s, 2, 1)) - s[15] * rdet3(sub4(s, 2, 3)) == 0,
{
    let m0 = s[0];
    let m1 = s[1];
    let m2 = s[2];
    let m3 = s[3];
    let m4 = s[4];
    let m5 = s[5];
    let m6 = s[6];
    let m7 = s[7];
    let m8 = s[8];
    let m9 = s[9];
    let m10 = s[10];
    let m11 = s[11];
    let m12 = s[12];
    let m13 = s[13];
    let m14 = s[14];
    let m15 = s[15];
    assert(sub4(s, 2, 0) =~= seq![m1, m2, m3, m5, m6, m7, m13, m14, m15]);
    lemma_rdet3_as_poly(sub4(s, 2, 0));
    assert(sub4(s, 2, 1) =~= seq![m0, m2, m3, m4, m6, m7, m12, m14, m15]);
    lemma_rdet3_as_poly(sub4(s, 2, 1));
    assert(sub4(s, 2, 2) =~= seq![m0, m1, m3, m4, m5, m7, m12, m13, m15]);
    lemma_rdet3_as_poly(sub4(s, 2, 2));
    assert(sub4(s, 2, 3) =~= seq![m0, m1, m2, m4, m5, m6, m12, m13, m14]);
    lemma_rdet3_as_poly(sub4(s, 2, 3));
    let x0 = rdet3(sub4(s, 2, 0));
    let x1 = rdet3(sub4(s, 2, 1));
    let x2 = rdet3(sub4(s, 2, 2));
    let x3 = rdet3(sub4(s, 2, 3));
    let x0_0 = m1 * m6 * m15;
    let x0_1 = m1 * m7 * m14;
    let x0_2 = m2 * m5 * m15;
    let x0_3 = m2 * m7 * m13;
    let x0_4 = m3 * m5 * m14;
    let x0_5 = m3 * m6 * m13;
    assert(m12 * x0 == m12 * x0_0 + m12 * x0_3 + m12 * x0_4 - m12 * x0_1 - m12 * x0_2 - m12 * x0_5) by (nonlinear_arith)
        requires
            x0 == x0_0 + x0_3 + x0_4 - x0_1 - x0_2 - x0_5,
    ;
    assert(m12 * x0_0 == m1 * m6 * m12 * m15) by (nonlinear_arith)
        requires
            x0_0 == m1 * m6 * m15,
    ;
    assert(m12 * x0_1 == m1 * m7 * m12 * m14) by (nonlinear_arith)
        requires
            x0_1 == m1 * m7 * m14,
    ;
    assert(m12 * x0_2 == m2 * m5 * m12 * m15) by (nonlinear_arith)
        requires
            x0_2 == m2 * m5 * m15,
    ;
    assert(m12 * x0_3 == m2 * m7 * m12 * m13) by (nonlinear_arith)
        requires
            x0_3 == m2 * m7 * m13,
    ;
    assert(m12 * x0_4 == m3 * m5 * m12 * m14) by (nonlinear_arith)
        requires
            x0_4 == m3 * m5 * m14,
    ;
    assert(m12 * x0_5 == m3 * m6 * m12 * m13) by (nonlinear_arith)
        requires
            x0_5 == m3 * m6 * m13,
    ;
    let x1_0 = m0 * m6 * m15;
    let x1_1 = m0 * m7 * m14;
    let x1_2 = m2 * m4 * m15;
    let x1_3 = m2 * m7 * m12;
    let x1_4 = m3 * m4 * m14;
    let x1_5 = m3 * m6 * m12;
    assert(m13 * x1 == m13 * x1_0 + m13 * x1_3 + m13 * x1_4 - m13 * x1_1 - m13 * x1_2 - m13 * x1_5) by (nonlinear_arith)
        requires
            x1 == x1_0 + x1_3 + x1_4 - x1_1 - x1_2 - x1_5,
    ;
    assert(m13 * x1_0 == m0 * m6 * m13 * m15) by (nonlinear_arith)
        requires
            x1_0 == m0 * m6 * m15,
    ;
    assert(m13 * x1_1 == m0 * m7 * m13 * m14) by (nonlinear_arith)
        requires
            x1_1 == m0 * m7 * m14,
    ;
    assert(m13 * x1_2 == m2 * m4 * m13 * m15) by (nonlinear_arith)
        requires
            x1_2 == m2 * m4 * m15,
    ;
    assert(m13 * x1_3 == m2 * m7 * m12 * m13) by (nonlinear_arith)
        requires
            x1_3 == m2 * m7 * m12,
    ;
    assert(m13 * x1_4 == m3 * m4 * m13 * m14) by (nonlinear_arith)
        requires
            x1_4 == m3 * m4 * m14,
    ;
    assert(m13 * x1_5 == m3 * m6 * m12 * m13) by (nonlinear_arith)
        requires
            x1_5 == m3 * m6 * m12,
    ;
    let x2_0 = m0 * m5 * m15;
    let x2_1 = m0 * m7 * m13;
    let x2_2 = m1 * m4 * m15;
    let x2_3 = m1 * m7 * m12;
    let x2_4 = m3 * m4 * m13;
    let x2_5 = m3 * m5 * m12;
    assert(m14 * x2 == m14 * x2_0 + m14 * x2_3 + m14 * x2_4 - m14 * x2_1 - m14 * x2_2 - m14 * x2_5) by (nonlinear_arith)
        requires
            x2 == x2_0 + x2_3 + x2_4 - x2_1 - x2_2 - x2_5,
    ;
    assert(m14 * x2_0 == m0 * m5 * m14 * m15) by (nonlinear_arith)
        requires
            x2_0 == m0 * m5 * m15,
    ;
    assert(m14 * x2_1 == m0 * m7 * m13 * m14) by (nonlinear_arith)
        requires
            x2_1 == m0 * m7 * m13,
    ;
    assert(m14 * x2_2 == m1 * m4 * m14 * m15) by (nonlinear_arith)
        requires
            x2_2 == m1 * m4 * m15,
    ;
    assert(m14 * x2_3 == m1 * m7 * m12 * m14) by (nonlinear_arith)
        requires
            x2_3 == m1 * m7 * m12,
    ;
    assert(m14 * x2_4 == m3 * m4 * m13 * m14) by (nonlinear_arith)
        requires
            x2_4 == m3 * m4 * m13,
    ;
    assert(m14 * x2_5 == m3 * m5 * m12 * m14) by (nonlinear_arith)
        requires
            x2_5 == m3 * m5 * m12,
    ;
    let x3_0 = m0 * m5 * m14;
    let x3_1 = m0 * m6 * m13;
    let x3_2 = m1 * m4 * m14;
    let x3_3 = m1 * m6 * m12;
    let x3_4 = m2 * m4 * m13;
    let x3_5 = m2 * m5 * m12;
    assert(m15 * x3 == m15 * x3_0 + m15 * x3_3 + m15 * x3_4 - m15 * x3_1 - m15 * x3_2 - m15 * x3_5) by (nonlinear_arith)
        requires
            x3 == x3_0 + x3_3 + x3_4 - x3_1 - x3_2 - x3_5,
    ;
    assert(m15 * x3_0 == m0 * m5 * m14 * m15) by (nonlinear_arith)
        requires
            x3_0 == m0 * m5 * m14,
    ;
    assert(m15 * x3_1 == m0 * m6 * m13 * m15) by (nonlinear_arith)
        requires
            x3_1 == m0 * m6 * m13,
    ;
    assert(m15 * x3_2 == m1 * m4 * m14 * m15) by (nonlinear_arith)
        requires
            x3_2 == m1 * m4 * m14,
    ;
    assert(m15 * x3_3 == m1 * m6 * m12 * m15) by (nonlinear_arith)
        requires
            x3_3 == m1 * m6 * m12,
    ;
    assert(m15 * x3_4 == m2 * m4 * m13 * m15) by (nonlinear_arith)
        requires
            x3_4 == m2 * m4 * m13,
    ;
    assert(m15 * x3_5 == m2 * m5 * m12 * m15) by (nonlinear_arith)
        requires
            x3_5 == m2 * m5 * m12,
    ;
    assert(m12 * x0 + m14 * x2 - m13 * x1 - m15 * x3 == 0);
}

proof fn lemma_laplace_3_3(s: Seq<int>)
    requires
        s.len() == 16,
    ensures
        s[13] * rdet3(sub4(s, 3, 1)) + s[15] * rdet3(sub4(s, 3, 3)) - s[12] * rdet3(sub4(s, 3, 0)) - s[14] * rdet3(sub4(s, 3, 2)) == rdet4_raw(s),
{
    let m0 = s[0];
    let m1 = s[1];
    let m2 = s[2];
    let m3 = s[3];
    let m4 = s[4];
    let m5 = s[5];
    let m6 = s[6];
    let m7 = s[7];
    let m8 = s[8];
    let m9 = s[9];
    let m10 = s[10];
    let m11 = s[11];
    let m12 = s[12];
    let m13 = s[13];
    let m14 = s[14];
    let m15 = s[15];
    assert(sub4(s, 3, 0) =~= seq![m1, m2, m3, m5, m6, m7, m9, m10, m11]);
    lemma_rdet3_as_poly(sub4(s, 3, 0));
    assert(sub4(s, 3, 1) =~= seq![m0, m2, m3, m4, m6, m7, m8, m10, m11]);
    lemma_rdet3_as_poly(sub4(s, 3, 1));
    assert(sub4(s, 3, 2) =~= seq![m0, m1, m3, m4, m5, m7, m8, m9, m11]);
    lemma_rdet3_as_poly(sub4(s, 3, 2));
    assert(sub4(s, 3, 3) =~= seq![m0, m1, m2, m4, m5, m6, m8, m9, m10]);
    lemma_rdet3_as_poly(sub4(s, 3, 3));
    assert(sub4(s, 0, 0) =~= seq![m5, m6, m7, m9, m10, m11, m13, m14, m15]);
    lemma_rdet3_as_poly(sub4(s, 0, 0));
    assert(sub4(s, 0, 1) =~= seq![m4, m6, m7, m8, m10, m11, m12, m14, m15]);
    lemma_rdet3_as_poly(sub4(s, 0, 1));
    assert(sub4(s, 0, 2) =~= seq![m4, m5, m7, m8, m9, m11, m12, m13, m15]);
    lemma_rdet3_as_poly(sub4(s, 0, 2));
    assert(sub4(s, 0, 3) =~= seq![m4, m5, m6, m8, m9, m10, m12, m13, m14]);
    lemma_rdet3_as_poly(sub4(s, 0, 3));
    let x0 = rdet3(sub4(s, 3, 0));
    let x1 = rdet3(sub4(s, 3, 1));
    let x2 = rdet3(sub4(s, 3, 2));
    let x3 = rdet3(sub4(s, 3, 3));
    let y0 = rdet3(sub4(s, 0, 0));
    let y1 = rdet3(sub4(s, 0, 1));
    let y2 = rdet3(sub4(s, 0, 2));
    let y3 = rdet3(sub4(s, 0, 3));
    let x0_0 = m1 * m6 * m11;
    let x0_1 = m1 * m7 * m10;
    let x0_2 = m2 * m5 * m11;
    let x0_3 = m2 * m7 * m9;
    let x0_4 = m3 * m5 * m10;
    let x0_5 = m3 * m6 * m9;
    assert(m12 * x0 == m12 * x0_0 + m12 * x0_3 + m12 * x0_4 - m12 * x0_1 - m12 * x0_2 - m12 * x0_5) by (nonlinear_arith)
        requires
            x0 == x0_0 + x0_3 + x0_4 - x0_1 - x0_2 - x0_5,
    ;
    assert(m12 * x0_0 == m1 * m6 * m11 * m12) by (nonlinear_arith)
        requires
            x0_0 == m1 * m6 * m11,
    ;
    assert(m12 * x0_1 == m1 * m7 * m10 * m12) by (nonlinear_arith)
        requires
            x0_1 == m1 * m7 * m10,
    ;
    assert(m12 * x0_2 == m2 * m5 * m11 * m12) by (nonlinear_arith)
        requires
            x0_2 == m2 * m5 * m11,
    ;
    assert(m12 * x0_3 == m2 * m7 * m9 * m12) by (nonlinear_arith)
        requires
            x0_3 == m2 * m7 * m9,
    ;
    assert(m12 * x0_4 == m3 * m5 * m10 * m12) by (nonlinear_arith)
        requires
            x0_4 == m3 * m5 * m10,
    ;
    assert(m12 * x0_5 == m3 * m6 * m9 * m12) by (nonlinear_arith)
        requires
            x0_5 == m3 * m6 * m9,
    ;
    let x1_0 = m0 * m6 * m11;
    let x1_1 = m0 * m7 * m10;
    let x1_2 = m2 * m4 * m11;
    let x1_3 = m2 * m7 * m8;
    let x1_4 = m3 * m4 * m10;
    let x1_5 = m3 * m6 * m8;
    assert(m13 * x1 == m13 * x1_0 + m13 * x1_3 + m13 * x1_4 - m13 * x1_1 - m13 * x1_2 - m13 * x1_5) by (nonlinear_arith)
        requires
            x1 == x1_0 + x1_3 + x1_4 - x1_1 - x1_2 - x1_5,
    ;
    assert(m13 * x1_0 == m0 * m6 * m11 * m13) by (nonlinear_arith)
        requires
            x1_0 == m0 * m6 * m11,
    ;
    assert(m13 * x1_1 == m0 * m7 * m10 * m13) by (nonlinear_arith)
        requires
            x1_1 == m0 * m7 * m10,
    ;
    assert(m13 * x1_2 == m2 * m4 * m11 * m13) by (nonlinear_arith)
        requires
            x1_2 == m2 * m4 * m11,
    ;
    assert(m13 * x1_3 == m2 * m7 * m8 * m13) by (nonlinear_arith)
        requires
            x1_3 == m2 * m7 * m8,
    ;
    assert(m13 * x1_4 == m3 * m4 * m10 * m13) by (nonlinear_arith)
        requires
            x1_4 == m3 * m4 * m10,
    ;
    assert(m13 * x1_5 == m3 * m6 * m8 * m13) by (nonlinear_arith)
        requires
            x1_5 == m3 * m6 * m8,
    ;
    let x2_0 = m0 * m5 * m11;
    let x2_1 = m0 * m7 * m9;
    let x2_2 = m1 * m4 * m11;
    let x2_3 = m1 * m7 * m8;
    let x2_4 = m3 * m4 * m9;
    let x2_5 = m3 * m5 * m8;
    assert(m14 * x2 == m14 * x2_0 + m14 * x2_3 + m14 * x2_4 - m14 * x2_1 - m14 * x2_2 - m14 * x2_5) by (nonlinear_arith)
        requires
            x2 == x2_0 + x2_3 + x2_4 - x2_1 - x2_2 - x2_5,
    ;
    assert(m14 * x2_0 == m0 * m5 * m11 * m14) by (nonlinear_arith)
        requires
            x2_0 == m0 * m5 * m11,
    ;
    assert(m14 * x2_1 == m0 * m7 * m9 * m14) by (nonlinear_arith)
        requires
            x2_1 == m0 * m7 * m9,
    ;
    assert(m14 * x2_2 == m1 * m4 * m11 * m14) by (nonlinear_arith)
        requires
            x2_2 == m1 * m4 * m11,
    ;
    assert(m14 * x2_3 == m1 * m7 * m8 * m14) by (nonlinear_arith)
        requires
            x2_3 == m1 * m7 * m8,
    ;
    assert(m14 * x2_4 == m3 * m4 * m9 * m14) by (nonlinear_arith)
        requires
            x2_4 == m3 * m4 * m9,
    ;
    assert(m14 * x2_5 == m3 * m5 * m8 * m14) by (nonlinear_arith)
        requires
            x2_5 == m3 * m5 * m8,
    ;
    let x3_0 = m0 * m5 * m10;
    let x3_1 = m0 * m6 * m9;
    let x3_2 = m1 * m4 * m10;
    let x3_3 = m1 * m6 * m8;
    let x3_4 = m2 * m4 * m9;
    let x3_5 = m2 * m5 * m8;
    assert(m15 * x3 == m15 * x3_0 + m15 * x3_3 + m15 * x3_4 - m15 * x3_1 - m15 * x3_2 - m15 * x3_5) by (nonlinear_arith)
        requires
            x3 == x3_0 + x3_3 + x3_4 - x3_1 - x3_2 - x3_5,
    ;
    assert(m15 * x3_0 == m0 * m5 * m10 * m15) by (nonlinear_arith)
        requires
            x3_0 == m0 * m5 * m10,
    ;
    assert(m15 * x3_1 == m0 * m6 * m9 * m15) by (nonlinear_arith)
        requires
            x3_1 == m0 * m6 * m9,
    ;
    assert(m15 * x3_2 == m1 * m4 * m10 * m15) by (nonlinear_arith)
        requires
            x3_2 == m1 * m4 * m10,
    ;
    assert(m15 * x3_3 == m1 * m6 * m8 * m15) by (nonlinear_arith)
        requires
            x3_3 == m1 * m6 * m8,
    ;
    assert(m15 * x3_4 == m2 * m4 * m9 * m15) by (nonlinear_arith)
        requires
            x3_4 == m2 * m4 * m9,
    ;
    assert(m15 * x3_5 == m2 * m5 * m8 * m15) by (nonlinear_arith)
        requires
            x3_5 == m2 * m5 * m8,
    ;
    let y0_0 = m5 * m10 * m15;
    let y0_1 = m5 * m11 * m14;
    let y0_2 = m6 * m9 * m15;
    let y0_3 = m6 * m11 * m13;
    let y0_4 = m7 * m9 * m14;
    let y0_5 = m7 * m10 * m13;
    assert(m0 * y0 == m0 * y0_0 + m0 * y0_3 + m0 * y0_4 - m0 * y0_1 - m0 * y0_2 - m0 * y0_5) by (nonlinear_arith)
        requires
            y0 == y0_0 + y0_3 + y0_4 - y0_1 - y0_2 - y0_5,
    ;
    assert(m0 * y0_0 == m0 * m5 * m10 * m15) by (nonlinear_arith)
        requires
            y0_0 == m5 * m10 * m15,
    ;
    assert(m0 * y0_1 == m0 * m5 * m11 * m14) by (nonlinear_arith)
        requires
            y0_1 == m5 * m11 * m14,
    ;
    assert(m0 * y0_2 == m0 * m6 * m9 * m15) by (nonlinear_arith)
        requires
            y0_2 == m6 * m9 * m15,
    ;
    assert(m0 * y0_3 == m0 * m6 * m11 * m13) by (nonlinear_arith)
        requires
            y0_3 == m6 * m11 * m13,
    ;
    assert(m0 * y0_4 == m0 * m7 * m9 * m14) by (nonlinear_arith)
        requires
            y0_4 == m7 * m9 * m14,
    ;
    assert(m0 * y0_5 == m0 * m7 * m10 * m13) by (nonlinear_arith)
        requires
            y0_5 == m7 * m10 * m13,
    ;
    let y1_0 = m4 * m10 * m15;
    let y1_1 = m4 * m11 * m14;
    let y1_2 = m6 * m8 * m15;
    let y1_3 = m6 * m11 * m12;
    let y1_4 = m7 * m8 * m14;
    let y1_5 = m7 * m10 * m12;
    assert(m1 * y1 == m1 * y1_0 + m1 * y1_3 + m1 * y1_4 - m1 * y1_1 - m1 * y1_2 - m1 * y1_5) by (nonlinear_arith)
        requires
            y1 == y1_0 + y1_3 + y1_4 - y1_1 - y1_2 - y1_5,
    ;
    assert(m1 * y1_0 == m1 * m4 * m10 * m15) by (nonlinear_arith)
        requires
            y1_0 == m4 * m10 * m15,
    ;
    assert(m1 * y1_1 == m1 * m4 * m11 * m14) by (nonlinear_arith)
        requires
            y1_1 == m4 * m11 * m14,
    ;
    assert(m1 * y1_2 == m1 * m6 * m8 * m15) by (nonlinear_arith)
        requires
            y1_2 == m6 * m8 * m15,
    ;
    assert(m1 * y1_3 == m1 * m6 * m11 * m12) by (nonlinear_arith)
        requires
            y1_3 == m6 * m11 * m12,
    ;
    assert(m1 * y1_4 == m1 * m7 * m8 * m14) by (nonlinear_arith)
        requires
            y1_4 == m7 * m8 * m14,
    ;
    assert(m1 * y1_5 == m1 * m7 * m10 * m12) by (nonlinear_arith)
        requires
            y1_5 == m7 * m10 * m12,
    ;
    let y2_0 = m4 * m9 * m15;
    let y2_1 = m4 * m11 * m13;
    let y2_2 = m5 * m8 * m15;
    let y2_3 = m5 * m11 * m12;
    let y2_4 = m7 * m8 * m13;
    let y2_5 = m7 * m9 * m12;
    assert(m2 * y2 == m2 * y2_0 + m2 * y2_3 + m2 * y2_4 - m2 * y2_1 - m2 * y2_2 - m2 * y2_5) by (nonlinear_arith)
        requires
            y2 == y2_0 + y2_3 + y2_4 - y2_1 - y2_2 - y2_5,
    ;
    assert(m2 * y2_0 == m2 * m4 * m9 * m15) by (nonlinear_arith)
        requires
            y2_0 == m4 * m9 * m15,
    ;
    assert(m2 * y2_1 == m2 * m4 * m11 * m13) by (nonlinear_arith)
        requires
            y2_1 == m4 * m11 * m13,
    ;
    assert(m2 * y2_2 == m2 * m5 * m8 * m15) by (nonlinear_arith)
        requires
            y2_2 == m5 * m8 * m15,
    ;
    assert(m2 * y2_3 == m2 * m5 * m11 * m12) by (nonlinear_arith)
        requires
            y2_3 == m5 * m11 * m12,
    ;
    assert(m2 * y2_4 == m2 * m7 * m8 * m13) by (nonlinear_arith)
        requires
            y2_4 == m7 * m8 * m13,
    ;
    assert(m2 * y2_5 == m2 * m7 * m9 * m12) by (nonlinear_arith)
        requires
            y2_5 == m7 * m9 * m12,
    ;
    let y3_0 = m4 * m9 * m14;
    let y3_1 = m4 * m10 * m13;
    let y3_2 = m5 * m8 * m14;
    let y3_3 = m5 * m10 * m12;
    let y3_4 = m6 * m8 * m13;
    let y3_5 = m6 * m9 * m12;
    assert(m3 * y3 == m3 * y3_0 + m3 * y3_3 + m3 * y3_4 - m3 * y3_1 - m3 * y3_2 - m3 * y3_5) by (nonlinear_arith)
        requires
            y3 == y3_0 + y3_3 + y3_4 - y3_1 - y3_2 - y3_5,
    ;
    assert(m3 * y3_0 == m3 * m4 * m9 * m14) by (nonlinear_arith)
        requires
            y3_0 == m4 * m9 * m14,
    ;
    assert(m3 * y3_1 == m3 * m4 * m10 * m13) by (nonlinear_arith)
        requires
            y3_1 == m4 * m10 * m13,
    ;
    assert(m3 * y3_2 == m3 * m5 * m8 * m14) by (nonlinear_arith)
        requires
            y3_2 == m5 * m8 * m14,
    ;
    assert(m3 * y3_3 == m3 * m5 * m10 * m12) by (nonlinear_arith)
        requires
            y3_3 == m5 * m10 * m12,
    ;
    assert(m3 * y3_4 == m3 * m6 * m8 * m13) by (nonlinear_arith)
        requires
            y3_4 == m6 * m8 * m13,
    ;
    assert(m3 * y3_5 == m3 * m6 * m9 * m12) by (nonlinear_arith)
        requires
            y3_5 == m6 * m9 * m12,
    ;
    assert(m13 * x1 + m15 * x3 - m12 * x0 - m14 * x2 == m0 * y0 + m2 * y2 - m1 * y1 - m3 * y3);
}


/// Row `i` of the grid against the signed minors of row `j`.
spec fn row_minor_sum(s: Seq<int>, i: int, j: int) -> int {
    cof_sign(j, 0) * (s[4 * i] * rdet3(sub4(s, j, 0))) + cof_sign(j, 1) * (s[4 * i + 1] * rdet3(
        sub4(s, j, 1),
    )) + cof_sign(j, 2) * (s[4 * i + 2] * rdet3(sub4(s, j, 2))) + cof_sign(j, 3) * (s[4 * i + 3]
        * rdet3(sub4(s, j, 3)))
}

/// The wide cofactor is within half a step of the signed raw minor.
proof fn lemma_cof_wide_close(s: Seq<int>, j: int, k: int)
    requires
        s.len() == 16,
        0 <= j < 4,
        0 <= k < 4,
    ensures
        2 * iabs(cof_wide(s, j, k) * SCALE - cof_sign(j, k) * rdet3(sub4(s, j, k))) <= SCALE,
{
    let r = rdet3(sub4(s, j, k));
    crate::fixed::lemma_rdiv_close(r, SCALE as int);
    let q = rdiv(r, SCALE as int);
    if (j + k) % 2 == 0 {
        assert(cof_wide(s, j, k) == q);
    } else {
        assert(cof_wide(s, j, k) == -q);
        assert((-q) * SCALE == -(q * SCALE)) by (nonlinear_arith);
    }
}

/// Moving a unit sign across a product.
proof fn lemma_sign_swap(cs: int, sv: int, r: int)
    requires
        cs == 1 || cs == -1,
    ensures
        cs * (sv * r) == sv * (cs * r),
{
    if cs == 1 {
        assert(cs * (sv * r) == sv * (cs * r)) by (nonlinear_arith)
            requires
                cs == 1,
        ;
    } else {
        assert(cs * (sv * r) == sv * (cs * r)) by (nonlinear_arith)
            requires
                cs == -1,
        ;
    }
}

/// A bounded factor scales a half-step error by at most the limit.
proof fn lemma_cof_term(sv: int, c: int, csr: int)
    requires
        iabs(sv) <= LIMIT,
        2 * iabs(c * SCALE - csr) <= SCALE,
    ensures
        2 * iabs((sv * c) * SCALE - sv * csr) <= 2_000_000_000_000_000_000int,
{
    assert(2 * iabs((sv * c) * SCALE - sv * csr) <= 2_000_000_000_000_000_000int)
        by (nonlinear_arith)
        requires
            iabs(sv) <= LIMIT,
            2 * iabs(c * SCALE - csr) <= SCALE,
            LIMIT == 20_000_000_000i64,
            SCALE == 100_000_000i64,
    ;
}

/// A bounded factor scales a half-determinant error by at most the limit.
proof fn lemma_inv_term(sv: int, u: int, d: int, c: int, ad: int)
    requires
        iabs(sv) <= LIMIT,
        2 * iabs(u * d - c) <= ad,
        ad == iabs(d),
    ensures
        2 * iabs((sv * u) * d - sv * c) <= 20_000_000_000int * ad,
{
    assert(2 * iabs((sv * u) * d - sv * c) <= 20_000_000_000int * ad) by (nonlinear_arith)
        requires
            iabs(sv) <= LIMIT,
            2 * iabs(u * d - c) <= ad,
            LIMIT == 20_000_000_000i64,
    ;
}

/// Row `i` against the wide cofactors of row `j`, as the inverse uses them.
spec fn row_cof_wide_sum(s: Seq<int>, i: int, j: int) -> int {
    s[4 * i] * cof_wide(s, j, 0) + s[4 * i + 1] * cof_wide(s, j, 1) + s[4 * i + 2] * cof_wide(
        s,
        j,
        2,
    ) + s[4 * i + 3] * cof_wide(s, j, 3)
}

/// Scaling the wide-cofactor sum back up lands within two limits of the
/// exact Laplace sum.
proof fn lemma_row_cof_wide_close(s: Seq<int>, i: int, j: int)
    requires
        s.len() == 16,
        m_bounded(s),
        0 <= i < 4,
        0 <= j < 4,
    ensures
        2 * iabs(row_cof_wide_sum(s, i, j) * SCALE - row_minor_sum(s, i, j))
            <= 8_000_000_000_000_000_000int,
{
    let r0 = rdet3(sub4(s, j, 0));
    let r1 = rdet3(sub4(s, j, 1));
    let r2 = rdet3(sub4(s, j, 2));
    let r3 = rdet3(sub4(s, j, 3));
    lemma_cof_wide_close(s, j, 0);
    lemma_cof_wide_close(s, j, 1);
    lemma_cof_wide_close(s, j, 2);
    lemma_cof_wide_close(s, j, 3);
    let e0 = s[4 * i];
    let e1 = s[4 * i + 1];
    let e2 = s[4 * i + 2];
    let e3 = s[4 * i + 3];
    assert(iabs(e0) <= LIMIT && iabs(e1) <= LIMIT && iabs(e2) <= LIMIT && iabs(e3) <= LIMIT);
    let c0 = cof_wide(s, j, 0);
    let c1 = cof_wide(s, j, 1);
    let c2 = cof_wide(s, j, 2);
    let c3 = cof_wide(s, j, 3);
    lemma_cof_term(e0, c0, cof_sign(j, 0) * r0);
    lemma_cof_term(e1, c1, cof_sign(j, 1) * r1);
    lemma_cof_term(e2, c2, cof_sign(j, 2) * r2);
    lemma_cof_term(e3, c3, cof_sign(j, 3) * r3);
    lemma_sign_swap(cof_sign(j, 0), e0, r0);
    lemma_sign_swap(cof_sign(j, 1), e1, r1);
    lemma_sign_swap(cof_sign(j, 2), e2, r2);
    lemma_sign_swap(cof_sign(j, 3), e3, r3);
    let cw_sum = row_cof_wide_sum(s, i, j);
    assert((e0 * c0) * SCALE + (e1 * c1) * SCALE + (e2 * c2) * SCALE + (e3 * c3) * SCALE
        == cw_sum * SCALE) by (nonlinear_arith)
        requires
            cw_sum == e0 * c0 + e1 * c1 + e2 * c2 + e3 * c3,
    ;
}

/// The rounded determinant, rescaled to raw units, is close to the exact
/// cofactor expansion.
proof fn lemma_det4_raw_close(s: Seq<int>)
    requires
        s.len() == 16,
        m_bounded(s),
    ensures
        2 * iabs(det4(s) * 1_000_000_000_000_000_000_000_000int - rdet4_raw(s))
            <= 1_000_016_000_000_000_000_000_000int,
{
    let w = row_cof_wide_sum(s, 0, 0);
    assert(det4(s) == rdiv_s(w, SCALE as int * SCALE as int));
    crate::fixed::lemma_rdiv_close(w, SCALE as int * SCALE as int);
    lemma_row_cof_wide_close(s, 0, 0);
    lemma_sign_fold(cof_sign(0, 0), s[0] * rdet3(sub4(s, 0, 0)));
    lemma_sign_fold(cof_sign(0, 1), s[1] * rdet3(sub4(s, 0, 1)));
    lemma_sign_fold(cof_sign(0, 2), s[2] * rdet3(sub4(s, 0, 2)));
    lemma_sign_fold(cof_sign(0, 3), s[3] * rdet3(sub4(s, 0, 3)));
    assert(row_minor_sum(s, 0, 0) == rdet4_raw(s));
    let d = det4(s);
    assert(2 * iabs(d * (SCALE as int * SCALE as int) - w) <= SCALE as int * SCALE as int);
    assert(d * 1_000_000_000_000_000_000_000_000int == (d * (SCALE as int * SCALE as int))
        * SCALE) by (nonlinear_arith)
        requires
            SCALE == 100_000_000i64,
    ;
    assert(2 * iabs((d * (SCALE as int * SCALE as int)) * SCALE - w * SCALE)
        <= 1_000_000_000_000_000_000_000_000int) by (nonlinear_arith)
        requires
            2 * iabs(d * (SCALE as int * SCALE as int) - w) <= SCALE as int * SCALE as int,
            SCALE == 100_000_000i64,
    ;
}

/// One entry of `M * invert(M)` is within the tolerance of the identity,
/// given the Laplace identity for its row and column.
#[verifier::rlimit(100)]
proof fn lemma_product_entry_close(s: Seq<int>, i: int, j: int)
    requires
        s.len() == 16,
        m_bounded(s),
        iabs(det4(s)) >= SCALE / 100,
        0 <= i < 4,
        0 <= j < 4,
        row_minor_sum(s, i, j) == if i == j {
            rdet4_raw(s)
        } else {
            0
        },
    ensures
        iabs(
            mm4_entry(s, inv4(s), i, j) - (if i == j {
                SCALE as int
            } else {
                0
            }),
        ) < EPSILON,
{
    let d = det4(s);
    let ad = iabs(d);
    assert(ad >= 1_000_000);

    // The four inverse entries in column j.
    assert(inv4(s)[j] == inv4_entry(s, 0, j));
    assert(inv4(s)[4 + j] == inv4_entry(s, 1, j));
    assert(inv4(s)[8 + j] == inv4_entry(s, 2, j));
    assert(inv4(s)[12 + j] == inv4_entry(s, 3, j));
    let u0 = inv4_entry(s, 0, j);
    let u1 = inv4_entry(s, 1, j);
    let u2 = inv4_entry(s, 2, j);
    let u3 = inv4_entry(s, 3, j);
    let c0 = cof_wide(s, j, 0);
    let c1 = cof_wide(s, j, 1);
    let c2 = cof_wide(s, j, 2);
    let c3 = cof_wide(s, j, 3);
    crate::fixed::lemma_rdivs_close(c0, d);
    crate::fixed::lemma_rdivs_close(c1, d);
    crate::fixed::lemma_rdivs_close(c2, d);
    crate::fixed::lemma_rdivs_close(c3, d);
    let e0 = s[4 * i];
    let e1 = s[4 * i + 1];
    let e2 = s[4 * i + 2];
    let e3 = s[4 * i + 3];
    assert(iabs(e0) <= LIMIT && iabs(e1) <= LIMIT && iabs(e2) <= LIMIT && iabs(e3) <= LIMIT);

    // d * X is close to the wide-cofactor sum.
    lemma_inv_term(e0, u0, d, c0, ad);
    lemma_inv_term(e1, u1, d, c1, ad);
    lemma_inv_term(e2, u2, d, c2, ad);
    lemma_inv_term(e3, u3, d, c3, ad);
    let x = e0 * u0 + e1 * u1 + e2 * u2 + e3 * u3;
    assert((e0 * u0) * d + (e1 * u1) * d + (e2 * u2) * d + (e3 * u3) * d == x * d)
        by (nonlinear_arith)
        requires
            x == e0 * u0 + e1 * u1 + e2 * u2 + e3 * u3,
    ;
    let cw_sum = row_cof_wide_sum(s, i, j);
    assert(2 * iabs(x * d - cw_sum) <= 80_000_000_000int * ad);

    // The wide-cofactor sum is close to the Laplace value.
    lemma_row_cof_wide_close(s, i, j);
    lemma_det4_raw_close(s);
    let target: int = if i == j {
        SCALE as int * SCALE as int
    } else {
        0
    };
    if i == j {
        // S |cw_sum - d S^2| via the raw determinant.
        assert(2 * iabs(cw_sum * SCALE - rdet4_raw(s)) <= 8_000_000_000_000_000_000int);
        assert(2 * iabs(cw_sum * SCALE - d * 1_000_000_000_000_000_000_000_000int)
            <= 1_008_016_000_000_000_000_000_000int);
        assert(cw_sum * SCALE - d * 1_000_000_000_000_000_000_000_000int == (cw_sum - d * (
        SCALE as int * SCALE as int)) * SCALE) by (nonlinear_arith)
            requires
                SCALE == 100_000_000i64,
        ;
        assert(2 * iabs(cw_sum - d * (SCALE as int * SCALE as int)) <= 10_080_160_000_000_000int)
            by (nonlinear_arith)
            requires
                2 * iabs((cw_sum - d * (SCALE as int * SCALE as int)) * SCALE)
                    <= 1_008_016_000_000_000_000_000_000int,
                SCALE == 100_000_000i64,
        ;
        assert(2 * iabs(x * d - d * target) <= 80_000_000_000int * ad
            + 10_080_160_000_000_000int) by (nonlinear_arith)
            requires
                2 * iabs(x * d - cw_sum) <= 80_000_000_000int * ad,
                2 * iabs(cw_sum - d * (SCALE as int * SCALE as int)) <= 10_080_160_000_000_000int,
                target == SCALE as int * SCALE as int,
                SCALE == 100_000_000i64,
        ;
    } else {
        assert(2 * iabs(cw_sum * SCALE - 0) <= 8_000_000_000_000_000_000int);
        assert(2 * iabs(cw_sum) <= 160_000_000_000int) by (nonlinear_arith)
            requires
                2 * iabs(cw_sum * SCALE) <= 8_000_000_000_000_000_000int,
                SCALE == 100_000_000i64,
        ;
        assert(2 * iabs(x * d - d * target) <= 80_000_000_000int * ad
            + 10_080_160_000_000_000int) by (nonlinear_arith)
            requires
                2 * iabs(x * d - cw_sum) <= 80_000_000_000int * ad,
                2 * iabs(cw_sum) <= 160_000_000_000int,
                target == 0,
                d * target == 0,
        ;
    }
    assert(iabs(x - target) <= 45_100_000_000int) by (nonlinear_arith)
        requires
            2 * iabs(x * d - d * target) <= 80_000_000_000int * ad + 10_080_160_000_000_000int,
            ad == iabs(d),
            ad >= 1_000_000,
    ;

    // Finally, the rounded product entry.
    let p = mm4_entry(s, inv4(s), i, j);
    assert(p == rdiv_s(e0 * u0 + e1 * u1 + e2 * u2 + e3 * u3, SCALE as int));
    crate::fixed::lemma_rdiv_close(x, SCALE as int);
    assert(2 * iabs(p * SCALE - x) <= SCALE);
    if i == j {
        assert(iabs(p - SCALE as int) < EPSILON);
    } else {
        assert(iabs(p - 0) < EPSILON);
    }
}

/// Folding a unit sign into a product.
proof fn lemma_sign_fold(cs: int, a: int)
    requires
        cs == 1 || cs == -1,
    ensures
        cs == 1 ==> cs * a == a,
        cs == -1 ==> cs * a == -a,
{
    if cs == 1 {
        assert(cs * a == a) by (nonlinear_arith)
            requires
                cs == 1,
        ;
    } else {
        assert(cs * a == -a) by (nonlinear_arith)
            requires
                cs == -1,
        ;
    }
}

/// Multiplying a matrix by its inverse gives the identity, up to the
/// comparison tolerance.  The determinant must not be smaller than 0.01 in
/// magnitude: closer to singularity the division's rounding can exceed the
/// tolerance.
pub proof fn lemma_multiply_by_inverse_approx_identity(s: Seq<int>)
    requires
        s.len() == 16,
        m_bounded(s),
        iabs(det4(s)) >= SCALE / 100,
    ensures
        m_approx(mm4(s, inv4(s)), ident4()),
{
    lemma_laplace_0_1(s);
    lemma_laplace_0_2(s);
    lemma_laplace_0_3(s);
    lemma_laplace_1_0(s);
    lemma_laplace_1_1(s);
    lemma_laplace_1_2(s);
    lemma_laplace_1_3(s);
    lemma_laplace_2_0(s);
    lemma_laplace_2_1(s);
    lemma_laplace_2_2(s);
    lemma_laplace_2_3(s);
    lemma_laplace_3_0(s);
    lemma_laplace_3_1(s);
    lemma_laplace_3_2(s);
    lemma_laplace_3_3(s);
    lemma_sign_fold(cof_sign(0, 0), s[0] * rdet3(sub4(s, 0, 0)));
    lemma_sign_fold(cof_sign(0, 1), s[1] * rdet3(sub4(s, 0, 1)));
    lemma_sign_fold(cof_sign(0, 2), s[2] * rdet3(sub4(s, 0, 2)));
    lemma_sign_fold(cof_sign(0, 3), s[3] * rdet3(sub4(s, 0, 3)));
    lemma_sign_fold(cof_sign(1, 0), s[0] * rdet3(sub4(s, 1, 0)));
    lemma_sign_fold(cof_sign(1, 1), s[1] * rdet3(sub4(s, 1, 1)));
    lemma_sign_fold(cof_sign(1, 2), s[2] * rdet3(sub4(s, 1, 2)));
    lemma_sign_fold(cof_sign(1, 3), s[3] * rdet3(sub4(s, 1, 3)));
    lemma_sign_fold(cof_sign(2, 0), s[0] * rdet3(sub4(s, 2, 0)));
    lemma_sign_fold(cof_sign(2, 1), s[1] * rdet3(sub4(s, 2, 1)));
    lemma_sign_fold(cof_sign(2, 2), s[2] * rdet3(sub4(s, 2, 2)));
    lemma_sign_fold(cof_sign(2, 3), s[3] * rdet3(sub4(s, 2, 3)));
    lemma_sign_fold(cof_sign(3, 0), s[0] * rdet3(sub4(s, 3, 0)));
    lemma_sign_fold(cof_sign(3, 1), s[1] * rdet3(sub4(s, 3, 1)));
    lemma_sign_fold(cof_sign(3, 2), s[2] * rdet3(sub4(s, 3, 2)));
    lemma_sign_fold(cof_sign(3, 3), s[3] * rdet3(sub4(s, 3, 3)));
    lemma_sign_fold(cof_sign(0, 0), s[4] * rdet3(sub4(s, 0, 0)));
    lemma_sign_fold(cof_sign(0, 1), s[5] * rdet3(sub4(s, 0, 1)));
    lemma_sign_fold(cof_sign(0, 2), s[6] * rdet3(sub4(s, 0, 2)));
    lemma_sign_fold(cof_sign(0, 3), s[7] * rdet3(sub4(s, 0, 3)));
    lemma_sign_fold(cof_sign(1, 0), s[4] * rdet3(sub4(s, 1, 0)));
    lemma_sign_fold(cof_sign(1, 1), s[5] * rdet3(sub4(s, 1, 1)));
    lemma_sign_fold(cof_sign(1, 2), s[6] * rdet3(sub4(s, 1, 2)));
    lemma_sign_fold(cof_sign(1, 3), s[7] * rdet3(sub4(s, 1, 3)));
    lemma_sign_fold(cof_sign(2, 0), s[4] * rdet3(sub4(s, 2, 0)));
    lemma_sign_fold(cof_sign(2, 1), s[5] * rdet3(sub4(s, 2, 1)));
    lemma_sign_fold(cof_sign(2, 2), s[6] * rdet3(sub4(s, 2, 2)));
    lemma_sign_fold(cof_sign(2, 3), s[7] * rdet3(sub4(s, 2, 3)));
    lemma_sign_fold(cof_sign(3, 0), s[4] * rdet3(sub4(s, 3, 0)));
    lemma_sign_fold(cof_sign(3, 1), s[5] * rdet3(sub4(s, 3, 1)));
    lemma_sign_fold(cof_sign(3, 2), s[6] * rdet3(sub4(s, 3, 2)));
    lemma_sign_fold(cof_sign(3, 3), s[7] * rdet3(sub4(s, 3, 3)));
    lemma_sign_fold(cof_sign(0, 0), s[8] * rdet3(sub4(s, 0, 0)));
    lemma_sign_fold(cof_sign(0, 1), s[9] * rdet3(sub4(s, 0, 1)));
    lemma_sign_fold(cof_sign(0, 2), s[10] * rdet3(sub4(s, 0, 2)));
    lemma_sign_fold(cof_sign(0, 3), s[11] * rdet3(sub4(s, 0, 3)));
    lemma_sign_fold(cof_sign(1, 0), s[8] * rdet3(sub4(s, 1, 0)));
    lemma_sign_fold(cof_sign(1, 1), s[9] * rdet3(sub4(s, 1, 1)));
    lemma_sign_fold(cof_sign(1, 2), s[10] * rdet3(sub4(s, 1, 2)));
    lemma_sign_fold(cof_sign(1, 3), s[11] * rdet3(sub4(s, 1, 3)));
    lemma_sign_fold(cof_sign(2, 0), s[8] * rdet3(sub4(s, 2, 0)));
    lemma_sign_fold(cof_sign(2, 1), s[9] * rdet3(sub4(s, 2, 1)));
    lemma_sign_fold(cof_sign(2, 2), s[10] * rdet3(sub4(s, 2, 2)));
    lemma_sign_fold(cof_sign(2, 3), s[11] * rdet3(sub4(s, 2, 3)));
    lemma_sign_fold(cof_sign(3, 0), s[8] * rdet3(sub4(s, 3, 0)));
    lemma_sign_fold(cof_sign(3, 1), s[9] * rdet3(sub4(s, 3, 1)));
    lemma_sign_fold(cof_sign(3, 2), s[10] * rdet3(sub4(s, 3, 2)));
    lemma_sign_fold(cof_sign(3, 3), s[11] * rdet3(sub4(s, 3, 3)));
    lemma_sign_fold(cof_sign(0, 0), s[12] * rdet3(sub4(s, 0, 0)));
    lemma_sign_fold(cof_sign(0, 1), s[13] * rdet3(sub4(s, 0, 1)));
    lemma_sign_fold(cof_sign(0, 2), s[14] * rdet3(sub4(s, 0, 2)));
    lemma_sign_fold(cof_sign(0, 3), s[15] * rdet3(sub4(s, 0, 3)));
    lemma_sign_fold(cof_sign(1, 0), s[12] * rdet3(sub4(s, 1, 0)));
    lemma_sign_fold(cof_sign(1, 1), s[13] * rdet3(sub4(s, 1, 1)));
    lemma_sign_fold(cof_sign(1, 2), s[14] * rdet3(sub4(s, 1, 2)));
    lemma_sign_fold(cof_sign(1, 3), s[15] * rdet3(sub4(s, 1, 3)));
    lemma_sign_fold(cof_sign(2, 0), s[12] * rdet3(sub4(s, 2, 0)));
    lemma_sign_fold(cof_sign(2, 1), s[13] * rdet3(sub4(s, 2, 1)));
    lemma_sign_fold(cof_sign(2, 2), s[14] * rdet3(sub4(s, 2, 2)));
    lemma_sign_fold(cof_sign(2, 3), s[15] * rdet3(sub4(s, 2, 3)));
    lemma_sign_fold(cof_sign(3, 0), s[12] * rdet3(sub4(s, 3, 0)));
    lemma_sign_fold(cof_sign(3, 1), s[13] * rdet3(sub4(s, 3, 1)));
    lemma_sign_fold(cof_sign(3, 2), s[14] * rdet3(sub4(s, 3, 2)));
    lemma_sign_fold(cof_sign(3, 3), s[15] * rdet3(sub4(s, 3, 3)));
    assert(row_minor_sum(s, 0, 0) == rdet4_raw(s));
    assert(row_minor_sum(s, 0, 1) == 0);
    assert(row_minor_sum(s, 0, 2) == 0);
    assert(row_minor_sum(s, 0, 3) == 0);
    assert(row_minor_sum(s, 1, 0) == 0);
    assert(row_minor_sum(s, 1, 1) == rdet4_raw(s));
    assert(row_minor_sum(s, 1, 2) == 0);
    assert(row_minor_sum(s, 1, 3) == 0);
    assert(row_minor_sum(s, 2, 0) == 0);
    assert(row_minor_sum(s, 2, 1) == 0);
    assert(row_minor_sum(s, 2, 2) == rdet4_raw(s));
    assert(row_minor_sum(s, 2, 3) == 0);
    assert(row_minor_sum(s, 3, 0) == 0);
    assert(row_minor_sum(s, 3, 1) == 0);
    assert(row_minor_sum(s, 3, 2) == 0);
    assert(row_minor_sum(s, 3, 3) == rdet4_raw(s));
    lemma_product_entry_close(s, 0, 0);
    lemma_product_entry_close(s, 0, 1);
    lemma_product_entry_close(s, 0, 2);
    lemma_product_entry_close(s, 0, 3);
    lemma_product_entry_close(s, 1, 0);
    lemma_product_entry_close(s, 1, 1);
    lemma_product_entry_close(s, 1, 2);
    lemma_product_entry_close(s, 1, 3);
    lemma_product_entry_close(s, 2, 0);
    lemma_product_entry_close(s, 2, 1);
    lemma_product_entry_close(s, 2, 2);
    lemma_product_entry_close(s, 2, 3);
    lemma_product_entry_close(s, 3, 0);
    lemma_product_entry_close(s, 3, 1);
    lemma_product_entry_close(s, 3, 2);
    lemma_product_entry_close(s, 3, 3);
    assert(ident4()[0] == SCALE as int);
    assert(ident4()[1] == 0);
    assert(ident4()[2] == 0);
    assert(ident4()[3] == 0);
    assert(ident4()[4] == 0);
    assert(ident4()[5] == SCALE as int);
    assert(ident4()[6] == 0);
    assert(ident4()[7] == 0);
    assert(ident4()[8] == 0);
    assert(ident4()[9] == 0);
    assert(ident4()[10] == SCALE as int);
    assert(ident4()[11] == 0);
    assert(ident4()[12] == 0);
    assert(ident4()[13] == 0);
    assert(ident4()[14] == 0);
    assert(ident4()[15] == SCALE as int);
    assert forall|idx: int| 0 <= idx < 16 implies iabs(
        #[trigger] mm4(s, inv4(s))[idx] - ident4()[idx],
    ) < EPSILON by {
            if idx == 0 {
                assert(mm4(s, inv4(s))[0] == mm4_entry(s, inv4(s), 0, 0));
            }
            if idx == 1 {
                assert(mm4(s, inv4(s))[1] == mm4_entry(s, inv4(s), 0, 1));
            }
            if idx == 2 {
                assert(mm4(s, inv4(s))[2] == mm4_entry(s, inv4(s), 0, 2));
            }
            if idx == 3 {
                assert(mm4(s, inv4(s))[3] == mm4_entry(s, inv4(s), 0, 3));
            }
            if idx == 4 {
                assert(mm4(s, inv4(s))[4] == mm4_entry(s, inv4(s), 1, 0));
            }
            if idx == 5 {
                assert(mm4(s, inv4(s))[5] == mm4_entry(s, inv4(s), 1, 1));
            }
            if idx == 6 {
                assert(mm4(s, inv4(s))[6] == mm4_entry(s, inv4(s), 1, 2));
            }
            if idx == 7 {
                assert(mm4(s, inv4(s))[7] == mm4_entry(s, inv4(s), 1, 3));
            }
            if idx == 8 {
                assert(mm4(s, inv4(s))[8] == mm4_entry(s, inv4(s), 2, 0));
            }
            if idx == 9 {
                assert(mm4(s, inv4(s))[9] == mm4_entry(s, inv4(s), 2, 1));
            }
            if idx == 10 {
                assert(mm4(s, inv4(s))[10] == mm4_entry(s, inv4(s), 2, 2));
            }
            if idx == 11 {
                assert(mm4(s, inv4(s))[11] == mm4_entry(s, inv4(s), 2, 3));
            }
            if idx == 12 {
                assert(mm4(s, inv4(s))[12] == mm4_entry(s, inv4(s), 3, 0));
            }
            if idx == 13 {
                assert(mm4(s, inv4(s))[13] == mm4_entry(s, inv4(s), 3, 1));
            }
            if idx == 14 {
                assert(mm4(s, inv4(s))[14] == mm4_entry(s, inv4(s), 3, 2));
            }
            if idx == 15 {
                assert(mm4(s, inv4(s))[15] == mm4_entry(s, inv4(s), 3, 3));
            }
    }
}

} // verus!
