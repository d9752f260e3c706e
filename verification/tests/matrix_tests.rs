use tracer::fixed::SCALE;
use tracer::matrix::{
    cofactor_3x3, cofactor_4x4, determinant_2x2, determinant_3x3, determinant_4x4, identity_4x4,
    invert_4x4, invertible_4x4, minor_3x3, submatrix_3x3, submatrix_4x4, transpose, M2x2, M3x3,
    M4x4,
};
use tracer::tuple::{Point, Tuple};

/// A float written as a fixed-point step count.
fn fx(v: f64) -> i64 {
    (v * SCALE as f64).round() as i64
}

fn m4(rows: [[f64; 4]; 4]) -> M4x4 {
    let mut m = [0i64; 16];
    for r in 0..4 {
        for c in 0..4 {
            m[4 * r + c] = fx(rows[r][c]);
        }
    }
    M4x4::new(m)
}

fn m3(rows: [[f64; 3]; 3]) -> M3x3 {
    let mut m = [0i64; 9];
    for r in 0..3 {
        for c in 0..3 {
            m[3 * r + c] = fx(rows[r][c]);
        }
    }
    M3x3 { m }
}

fn m2(rows: [[f64; 2]; 2]) -> M2x2 {
    let mut m = [0i64; 4];
    for r in 0..2 {
        for c in 0..2 {
            m[2 * r + c] = fx(rows[r][c]);
        }
    }
    M2x2 { m }
}

#[test]
fn create_4x4_matrix() {
    let test_m4x4 = m4([
        [1.0, 2.0, 3.0, 4.0],
        [5.5, 6.5, 7.5, 8.5],
        [9.0, 10.0, 11.0, 12.0],
        [13.5, 14.5, 15.5, 16.5],
    ]);
    assert_eq!(test_m4x4.at(0, 0), fx(1.0));
    assert_eq!(test_m4x4.at(0, 3), fx(4.0));
    assert_eq!(test_m4x4.at(1, 0), fx(5.5));
    assert_eq!(test_m4x4.at(1, 2), fx(7.5));
    assert_eq!(test_m4x4.at(2, 2), fx(11.0));
    assert_eq!(test_m4x4.at(3, 0), fx(13.5));
    assert_eq!(test_m4x4.at(3, 2), fx(15.5));
}

#[test]
fn compare_4x4_matrices() {
    let m1 = m4([
        [1.0, 2.0, 3.0, 4.0],
        [5.5, 6.5, 7.5, 8.5],
        [9.0, 10.0, 11.0, 12.0],
        [13.5, 14.5, 15.5, 16.5],
    ]);
    let m2 = m4([
        [1.0, 2.0, 3.0, 4.0],
        [5.5, 6.5, 7.5, 8.5],
        [9.0, 10.0, 11.0, 12.0],
        [13.5, 14.5, 15.5, 16.5],
    ]);
    assert!(m1.approx_eq(&m2));

    let m3 = m4([
        [2.0, 3.0, 3.0, 5.0],
        [5.5, 6.5, 7.5, 8.5],
        [9.0, 10.0, 11.0, 12.0],
        [13.5, 14.5, 15.5, 16.5],
    ]);
    assert!(!m1.approx_eq(&m3));
}

#[test]
fn multiply_4x4_matrices() {
    let m1 = m4([
        [1.0, 2.0, 3.0, 4.0],
        [5.0, 6.0, 7.0, 8.0],
        [9.0, 8.0, 7.0, 6.0],
        [5.0, 4.0, 3.0, 2.0],
    ]);
    let m2 = m4([
        [-2.0, 1.0, 2.0, 3.0],
        [3.0, 2.0, 1.0, -1.0],
        [4.0, 3.0, 6.0, 5.0],
        [1.0, 2.0, 7.0, 8.0],
    ]);
    let expected = m4([
        [20.0, 22.0, 50.0, 48.0],
        [44.0, 54.0, 114.0, 108.0],
        [40.0, 58.0, 110.0, 102.0],
        [16.0, 26.0, 46.0, 42.0],
    ]);

    assert_eq!(m1.multiply(&m2), expected);
}

#[test]
fn multiply_4x4_matrix_tuple() {
    let m1 = m4([
        [1.0, 2.0, 3.0, 4.0],
        [2.0, 4.0, 4.0, 2.0],
        [8.0, 6.0, 4.0, 1.0],
        [0.0, 0.0, 0.0, 1.0],
    ]);
    let point = Point::new_point(fx(1.0), fx(2.0), fx(3.0));
    let expected = Tuple { x: fx(18.0), y: fx(24.0), z: fx(33.0), w: fx(1.0) };

    assert_eq!(m1.apply(&point), expected);
}

#[test]
fn transpose_4x4_matrix() {
    let m1 = m4([
        [0.0, 9.0, 3.0, 0.0],
        [9.0, 8.0, 0.0, 8.0],
        [1.0, 8.0, 5.0, 3.0],
        [0.0, 0.0, 5.0, 8.0],
    ]);
    let expected = m4([
        [0.0, 9.0, 1.0, 0.0],
        [9.0, 8.0, 8.0, 0.0],
        [3.0, 0.0, 5.0, 5.0],
        [0.0, 8.0, 3.0, 8.0],
    ]);

    assert_eq!(transpose(m1), expected);
    assert_eq!(transpose(identity_4x4()), identity_4x4());
}

#[test]
fn create_3x3_matrix() {
    let test_m3x3 = m3([[-3.0, 5.0, 0.0], [1.0, -2.0, -7.0], [0.0, 1.0, 1.0]]);
    assert_eq!(test_m3x3.m[0], fx(-3.0));
    assert_eq!(test_m3x3.m[4], fx(-2.0));
    assert_eq!(test_m3x3.m[8], fx(1.0));
    assert_eq!(test_m3x3.m[7], fx(1.0));
}

#[test]
fn compare_3x3_matrices() {
    let m1 = m3([[1.0, 2.0, 3.0], [5.5, 6.5, 7.5], [9.0, 10.0, 11.0]]);
    let m2 = m3([[1.0, 2.0, 3.0], [5.5, 6.5, 7.5], [9.0, 10.0, 11.0]]);
    assert_eq!(m1, m2);

    let m4 = m3([[2.0, 3.0, 3.0], [5.5, 6.5, 7.5], [9.0, 10.0, 11.0]]);
    assert_ne!(m1, m4);
}

#[test]
fn create_2x2_matrix() {
    let m = m2([[-3.0, 5.0], [1.0, -2.0]]);
    assert_eq!(m.m[0], fx(-3.0));
    assert_eq!(m.m[1], fx(5.0));
    assert_eq!(m.m[2], fx(1.0));
    assert_eq!(m.m[3], fx(-2.0));
}

#[test]
fn compare_2x2_matrices() {
    let m1 = m2([[1.0, 2.0], [5.5, 6.5]]);
    let m2c = m2([[1.0, 2.0], [5.5, 6.5]]);
    assert_eq!(m1, m2c);

    let m4 = m2([[2.0, 3.0], [5.5, 6.5]]);
    assert_ne!(m1, m4);
}

#[test]
fn determinant_2x2_matrices() {
    let m1 = m2([[1.0, 5.0], [-3.0, 2.0]]);
    assert_eq!(determinant_2x2(&m1), fx(17.0));
}

#[test]
fn identity_matrix_multi_matrix() {
    let m1 = m4([
        [0.0, 1.0, 2.0, 4.0],
        [1.0, 2.0, 4.0, 8.0],
        [2.0, 4.0, 8.0, 16.0],
        [4.0, 8.0, 16.0, 32.0],
    ]);
    assert_eq!(m1.multiply(&identity_4x4()), m1);
}

#[test]
fn identity_matrix_multi_tuple() {
    let expected = Tuple { x: fx(1.0), y: fx(2.0), z: fx(3.0), w: fx(4.0) };
    assert_eq!(identity_4x4().apply(&expected), expected);
}

#[test]
fn submatrix_3x3_2x2() {
    let test_m3 = m3([[1.0, 5.0, 0.0], [-3.0, 2.0, 7.0], [0.0, 6.0, -3.0]]);
    let expected = m2([[-3.0, 2.0], [0.0, 6.0]]);
    assert_eq!(submatrix_3x3(&test_m3, 0, 2), expected);
}

#[test]
fn submatrix_4x4_3x3() {
    let test_m3 = m4([
        [-6.0, 1.0, 1.0, 6.0],
        [-8.0, 5.0, 8.0, 6.0],
        [-1.0, 0.0, 8.0, 2.0],
        [-7.0, 1.0, -1.0, 1.0],
    ]);
    let expected = m3([[-6.0, 1.0, 6.0], [-8.0, 8.0, 6.0], [-7.0, -1.0, 1.0]]);
    assert_eq!(submatrix_4x4(&test_m3, 2, 1), expected);
}

#[test]
fn minor_3x3_test() {
    let a = m3([[3.0, 5.0, 0.0], [2.0, -1.0, -7.0], [6.0, -1.0, 5.0]]);
    assert_eq!(minor_3x3(&a, 1, 0), fx(25.0));
}

#[test]
fn cofactor_3x3_test() {
    let a = m3([[3.0, 5.0, 0.0], [2.0, -1.0, -7.0], [6.0, -1.0, 5.0]]);
    assert_eq!(cofactor_3x3(&a, 0, 0), fx(-12.0));
    assert_eq!(cofactor_3x3(&a, 1, 0), fx(-25.0));
}

#[test]
fn determinant_3x3_test() {
    let a = m3([[1.0, 2.0, 6.0], [-5.0, 8.0, -4.0], [2.0, 6.0, 4.0]]);
    assert_eq!(determinant_3x3(&a), fx(-196.0));
}

#[test]
fn determinant_4x4_test() {
    let a = m4([
        [-2.0, -8.0, 3.0, 5.0],
        [-3.0, 1.0, 7.0, 3.0],
        [1.0, 2.0, -9.0, 6.0],
        [-6.0, 7.0, 7.0, -9.0],
    ]);
    assert_eq!(determinant_4x4(&a), fx(-4071.0));
}

#[test]
fn matrix_invertibility() {
    let a = m4([
        [6.0, 4.0, 4.0, 4.0],
        [5.0, 5.0, 7.0, 6.0],
        [4.0, -9.0, 3.0, -7.0],
        [9.0, 1.0, 7.0, -6.0],
    ]);
    assert_eq!(determinant_4x4(&a), fx(-2120.0));
    assert!(invertible_4x4(&a));

    let a = m4([
        [-4.0, 2.0, -2.0, -3.0],
        [9.0, 6.0, 2.0, 6.0],
        [0.0, -5.0, 1.0, -5.0],
        [0.0, 0.0, 0.0, 0.0],
    ]);
    assert_eq!(determinant_4x4(&a), 0);
    assert!(!invertible_4x4(&a));
}

#[test]
fn matrix_inverse() {
    let a = m4([
        [-5.0, 2.0, 6.0, -8.0],
        [1.0, -5.0, 1.0, 8.0],
        [7.0, 7.0, -6.0, -7.0],
        [1.0, -3.0, 7.0, 4.0],
    ]);
    assert_eq!(determinant_4x4(&a), fx(532.0));
    assert_eq!(cofactor_4x4(&a, 2, 3), fx(-160.0));
    assert_eq!(cofactor_4x4(&a, 3, 2), fx(105.0));

    let b = invert_4x4(&a).unwrap();
    let expected = m4([
        [0.21805, 0.45113, 0.24060, -0.04511],
        [-0.80827, -1.45677, -0.44361, 0.52068],
        [-0.07895, -0.22368, -0.05263, 0.19737],
        [-0.52256, -0.81391, -0.30075, 0.30639],
    ]);
    assert!(b.approx_eq(&expected));

    let c = m4([
        [8.0, -5.0, 9.0, 2.0],
        [7.0, 5.0, 6.0, 1.0],
        [-6.0, 0.0, 9.0, 6.0],
        [-3.0, 0.0, -9.0, -4.0],
    ]);
    let d = invert_4x4(&c).unwrap();
    let e2 = m4([
        [-0.15385, -0.15385, -0.28205, -0.53846],
        [-0.07692, 0.12308, 0.02564, 0.03077],
        [0.35897, 0.35897, 0.43590, 0.92308],
        [-0.69231, -0.69231, -0.76923, -1.92308],
    ]);
    assert!(d.approx_eq(&e2));

    let e = m4([
        [9.0, 3.0, 0.0, 9.0],
        [-5.0, -2.0, -6.0, -3.0],
        [-4.0, 9.0, 6.0, 4.0],
        [-7.0, 6.0, 6.0, 2.0],
    ]);
    let f = invert_4x4(&e).unwrap();
    let e3 = m4([
        [-0.04074, -0.07778, 0.14444, -0.22222],
        [-0.07778, 0.03333, 0.36667, -0.33333],
        [-0.02901, -0.14630, -0.10926, 0.12963],
        [0.17778, 0.06667, -0.26667, 0.333333333333333],
    ]);
    assert!(f.approx_eq(&e3));
}

#[test]
fn matrix_product_by_its_inverse() {
    let a = m4([
        [3.0, -9.0, 7.0, 3.0],
        [3.0, -8.0, 2.0, -9.0],
        [-4.0, 4.0, 4.0, 1.0],
        [-6.0, 5.0, -1.0, 1.0],
    ]);
    let b = m4([
        [8.0, 2.0, 2.0, 2.0],
        [3.0, -1.0, 7.0, 0.0],
        [7.0, 0.0, 5.0, 4.0],
        [6.0, -2.0, 0.0, 5.0],
    ]);
    let c = a.multiply(&b);
    assert!(a.approx_eq(&c.multiply(&invert_4x4(&b).unwrap())));
}

#[test]
fn invert_identity_is_identity() {
    let inv = invert_4x4(&identity_4x4()).unwrap();
    assert_eq!(inv, identity_4x4());
}

#[test]
fn invert_twice_returns_original() {
    // An affine transform with a moderate determinant; for matrices whose
    // inverse has a tiny determinant the double inversion drifts past the
    // tolerance at this fixed-point resolution.
    let a = m4([
        [2.0, 0.0, 0.0, 5.0],
        [0.0, 2.0, 0.0, -3.0],
        [0.0, 0.0, 2.0, 2.0],
        [0.0, 0.0, 0.0, 1.0],
    ]);
    let twice = invert_4x4(&invert_4x4(&a).unwrap()).unwrap();
    assert!(twice.approx_eq(&a));
}

#[test]
fn multiply_by_inverse_is_identity() {
    let a = m4([
        [8.0, 2.0, 2.0, 2.0],
        [3.0, -1.0, 7.0, 0.0],
        [7.0, 0.0, 5.0, 4.0],
        [6.0, -2.0, 0.0, 5.0],
    ]);
    let p = a.multiply(&invert_4x4(&a).unwrap());
    assert!(p.approx_eq(&identity_4x4()));
}

#[test]
fn invert_singular_matrix_fails() {
    let a = m4([
        [-4.0, 2.0, -2.0, -3.0],
        [9.0, 6.0, 2.0, 6.0],
        [0.0, -5.0, 1.0, -5.0],
        [0.0, 0.0, 0.0, 0.0],
    ]);
    assert!(invert_4x4(&a).is_err());
}
