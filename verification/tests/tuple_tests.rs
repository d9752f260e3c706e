use tracer::fixed::{approx_eq, SCALE};
use tracer::tuple::{Point, Tuple, Vector};

/// A float written as a fixed-point step count.
fn fx(v: f64) -> i64 {
    (v * SCALE as f64).round() as i64
}

#[test]
fn new_vector_is_vector() {
    let x = Vector::new(fx(4.3), fx(-4.2), fx(3.1));
    assert_eq!(0, x.w);
    assert!(x.is_vector());
}

#[test]
fn new_point_is_point() {
    let x = Point::new_point(fx(4.3), fx(-4.2), fx(3.1));
    assert_eq!(SCALE, x.w);
    assert!(x.is_point());
}

#[test]
fn tuples_equal() {
    let x = Point::new_point(fx(4.3), fx(-4.2), fx(3.1));
    let y = Point::new_point(fx(4.3), fx(-4.2), fx(3.1));
    assert!(x.approx_eq(&y));
}

#[test]
fn tuples_not_equal() {
    let x = Point::new_point(fx(4.3), fx(-4.2), fx(3.1));
    let y = Vector::new(fx(4.3), fx(-4.2), fx(3.1));
    assert!(!x.approx_eq(&y));

    let y = Point::new_point(fx(4.3), fx(-4.2), fx(3.1));
    let z = Point::new_point(fx(4.3), fx(-4.2), fx(3.2));
    assert!(!y.approx_eq(&z));
}

#[test]
fn add_tuples() {
    let a = Tuple { x: fx(3.0), y: fx(-2.0), z: fx(5.0), w: fx(1.0) };
    let b = Tuple { x: fx(-2.0), y: fx(3.0), z: fx(1.0), w: fx(0.0) };
    let expected = Tuple { x: fx(1.0), y: fx(1.0), z: fx(6.0), w: fx(1.0) };

    let res = a.add(&b);
    assert_eq!(res, expected);
    assert!(res.is_point());
}

#[test]
fn sub_two_points() {
    let a = Point::new_point(fx(3.0), fx(2.0), fx(1.0));
    let b = Point::new_point(fx(5.0), fx(6.0), fx(7.0));
    let expected = Vector::new(fx(-2.0), fx(-4.0), fx(-6.0));

    let res = a.sub(&b);
    assert_eq!(res, expected);
    assert!(res.is_vector());
}

#[test]
fn sub_point_vector() {
    let a = Point::new_point(fx(3.0), fx(2.0), fx(1.0));
    let b = Vector::new(fx(5.0), fx(6.0), fx(7.0));
    let expected = Point::new_point(fx(-2.0), fx(-4.0), fx(-6.0));

    let res = a.sub(&b);
    assert_eq!(res, expected);
    assert!(res.is_point());
}

#[test]
fn sub_two_vectors() {
    let a = Vector::new(fx(3.0), fx(2.0), fx(1.0));
    let b = Vector::new(fx(5.0), fx(6.0), fx(7.0));
    let expected = Vector::new(fx(-2.0), fx(-4.0), fx(-6.0));

    let res = a.sub(&b);
    assert_eq!(res, expected);
    assert!(res.is_vector());
}

#[test]
fn neg_tuple() {
    let a = Tuple { x: fx(1.0), y: fx(-2.0), z: fx(3.0), w: fx(-4.0) };
    let expected = Tuple { x: fx(-1.0), y: fx(2.0), z: fx(-3.0), w: fx(4.0) };
    assert_eq!(a.neg(), expected);
}

#[test]
fn mul_tuple() {
    let a = Tuple { x: fx(1.0), y: fx(-2.0), z: fx(3.0), w: fx(-4.0) };
    let expected = Tuple { x: fx(3.5), y: fx(-7.0), z: fx(10.5), w: fx(-14.0) };
    assert_eq!(a.scale(fx(3.5)), expected);
}

#[test]
fn div_tuple() {
    let a = Tuple { x: fx(1.0), y: fx(-2.0), z: fx(3.0), w: fx(-4.0) };
    let expected = Tuple { x: fx(0.5), y: fx(-1.0), z: fx(1.5), w: fx(-2.0) };
    assert_eq!(a.divide(fx(2.0)), expected);
}

#[test]
fn magnitude_success() {
    assert_eq!(Vector::new(fx(1.0), 0, 0).magnitude(), SCALE);
    assert_eq!(Vector::new(0, fx(1.0), 0).magnitude(), SCALE);
    assert_eq!(Vector::new(0, 0, fx(1.0)).magnitude(), SCALE);
    let m = Vector::new(fx(1.0), fx(2.0), fx(3.0)).magnitude();
    assert!(approx_eq(m, fx(14.0_f64.sqrt())));
    let m = Vector::new(fx(-1.0), fx(-2.0), fx(-3.0)).magnitude();
    assert!(approx_eq(m, fx(14.0_f64.sqrt())));
}

#[test]
fn is_unit_vector_cases() {
    let a = Vector::new(fx(1.0), 0, 0);
    assert_eq!(a.magnitude(), SCALE);
    assert!(a.is_unit_vector());
}

#[test]
fn normalize_success() {
    let a = Vector::new(fx(4.0), 0, 0);
    let expected = Vector::new(fx(1.0), 0, 0);
    assert_eq!(a.normalize(), expected);

    let a = Vector::new(fx(1.0), fx(2.0), fx(3.0));
    let expected = Vector::new(fx(0.26726), fx(0.53452), fx(0.80178));
    assert!(a.normalize().approx_eq(&expected));

    let a = Vector::new(fx(1.0), fx(2.0), fx(3.0));
    assert!(approx_eq(SCALE, a.normalize().magnitude()));
}

#[test]
fn normalized_magnitude_is_one() {
    // The normalization law on a few concrete vectors.
    let samples = [
        Vector::new(fx(0.5), fx(-0.25), fx(0.125)),
        Vector::new(fx(11.0), fx(-3.0), fx(7.5)),
        Vector::new(fx(0.01), fx(0.0), fx(0.0)),
        Vector::new(fx(150.0), fx(149.0), fx(-148.0)),
    ];
    for v in samples {
        assert!(approx_eq(v.normalize().magnitude(), SCALE));
    }
}

#[test]
fn dot_product_success() {
    let vec_a = Vector::new(fx(1.0), fx(2.0), fx(3.0));
    let vec_b = Vector::new(fx(2.0), fx(3.0), fx(4.0));
    assert_eq!(vec_a.dot(&vec_b), fx(20.0));
}

#[test]
fn cross_product_success() {
    let vec_a = Vector::new(fx(1.0), fx(2.0), fx(3.0));
    let vec_b = Vector::new(fx(2.0), fx(3.0), fx(4.0));
    let expected_a_b = Vector::new(fx(-1.0), fx(2.0), fx(-1.0));
    let expected_b_a = Vector::new(fx(1.0), fx(-2.0), fx(1.0));

    assert_eq!(vec_a.cross(&vec_b), expected_a_b);
    assert_eq!(vec_b.cross(&vec_a), expected_b_a);
}
