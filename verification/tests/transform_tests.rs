use std::f64::consts::PI;

use tracer::fixed::SCALE;
use tracer::matrix::{invert_4x4, M4x4};
use tracer::matrix_transformations::{rotation_x, rotation_y, rotation_z, scaling, shearing, translation};
use tracer::tuple::{Point, Vector};

/// A float written as a fixed-point step count.
fn fx(v: f64) -> i64 {
    (v * SCALE as f64).round() as i64
}

/// The rotation constructors take the angle's sine and cosine.
fn rot_x(radians: f64) -> M4x4 {
    rotation_x(fx(radians.sin()), fx(radians.cos()))
}

fn rot_y(radians: f64) -> M4x4 {
    rotation_y(fx(radians.sin()), fx(radians.cos()))
}

fn rot_z(radians: f64) -> M4x4 {
    rotation_z(fx(radians.sin()), fx(radians.cos()))
}

#[test]
fn translation_matrix() {
    let transform = translation(fx(5.0), fx(-3.0), fx(2.0));
    let p = Point::new_point(fx(-3.0), fx(4.0), fx(5.0));
    let expected = Point::new_point(fx(2.0), fx(1.0), fx(7.0));
    assert_eq!(transform.apply(&p), expected);
}

#[test]
fn translation_matrix_inversion() {
    let transform = invert_4x4(&translation(fx(5.0), fx(-3.0), fx(2.0))).unwrap();
    let p = Point::new_point(fx(-3.0), fx(4.0), fx(5.0));
    let expected = Point::new_point(fx(-8.0), fx(7.0), fx(3.0));
    assert!(transform.apply(&p).approx_eq(&expected));
}

#[test]
fn multi_translation_matrix_vector() {
    let transform = translation(fx(5.0), fx(-3.0), fx(2.0));
    let v = Vector::new(fx(-3.0), fx(4.0), fx(5.0));
    assert_eq!(transform.apply(&v), v);
}

#[test]
fn scale_matrix_applied_to_point() {
    let transform = scaling(fx(2.0), fx(3.0), fx(4.0));
    let p = Point::new_point(fx(-4.0), fx(6.0), fx(8.0));
    let expected = Point::new_point(fx(-8.0), fx(18.0), fx(32.0));
    assert_eq!(transform.apply(&p), expected);
}

#[test]
fn scale_matrix_applied_to_vector() {
    let transform = scaling(fx(2.0), fx(3.0), fx(4.0));
    let v = Vector::new(fx(-4.0), fx(6.0), fx(8.0));
    let expected = Vector::new(fx(-8.0), fx(18.0), fx(32.0));
    assert_eq!(transform.apply(&v), expected);
}

#[test]
fn multi_inverse_of_scaling_matrix() {
    let transform = invert_4x4(&scaling(fx(2.0), fx(3.0), fx(4.0))).unwrap();
    let v = Vector::new(fx(-4.0), fx(6.0), fx(8.0));
    let expected = Vector::new(fx(-2.0), fx(2.0), fx(2.0));
    assert!(transform.apply(&v).approx_eq(&expected));
}

#[test]
fn reflection_is_scaling_by_neg() {
    let transform = scaling(fx(-1.0), fx(1.0), fx(1.0));
    let p = Point::new_point(fx(2.0), fx(3.0), fx(4.0));
    let expected = Point::new_point(fx(-2.0), fx(3.0), fx(4.0));
    assert_eq!(transform.apply(&p), expected);
}

#[test]
fn rotate_point_around_x_axis() {
    let p = Point::new_point(0, fx(1.0), 0);
    let half_quarter = rot_x(PI / 4.0);
    let full_quarter = rot_x(PI / 2.0);
    let e1 = Point::new_point(0, fx(2.0_f64.sqrt() / 2.0), fx(2.0_f64.sqrt() / 2.0));
    let e2 = Point::new_point(0, 0, fx(1.0));
    assert!(half_quarter.apply(&p).approx_eq(&e1));
    assert!(full_quarter.apply(&p).approx_eq(&e2));
}

#[test]
fn inverse_x_rotation_rotates_opp_dir() {
    let p = Point::new_point(0, fx(1.0), 0);
    let inv = invert_4x4(&rot_x(PI / 4.0)).unwrap();
    let expected = Point::new_point(0, fx(2.0_f64.sqrt() / 2.0), fx(-(2.0_f64.sqrt()) / 2.0));
    assert!(inv.apply(&p).approx_eq(&expected));
}

#[test]
fn rotate_point_around_y_axis() {
    let p = Point::new_point(0, 0, fx(1.0));
    let half_quarter = rot_y(PI / 4.0);
    let full_quarter = rot_y(PI / 2.0);
    let e1 = Point::new_point(fx(2.0_f64.sqrt() / 2.0), 0, fx(2.0_f64.sqrt() / 2.0));
    let e2 = Point::new_point(fx(1.0), 0, 0);
    assert!(half_quarter.apply(&p).approx_eq(&e1));
    assert!(full_quarter.apply(&p).approx_eq(&e2));
}

#[test]
fn rotate_point_around_z_axis() {
    let p = Point::new_point(0, fx(1.0), 0);
    let half_quarter = rot_z(PI / 4.0);
    let full_quarter = rot_z(PI / 2.0);
    let e1 = Point::new_point(fx(-(2.0_f64.sqrt()) / 2.0), fx(2.0_f64.sqrt() / 2.0), 0);
    let e2 = Point::new_point(fx(-1.0), 0, 0);
    assert!(half_quarter.apply(&p).approx_eq(&e1));
    assert!(full_quarter.apply(&p).approx_eq(&e2));
}

#[test]
fn shearing_tx_moves_x_proportional_y() {
    let transform = shearing(fx(1.0), 0, 0, 0, 0, 0);
    let p = Point::new_point(fx(2.0), fx(3.0), fx(4.0));
    let expected = Point::new_point(fx(5.0), fx(3.0), fx(4.0));
    assert_eq!(transform.apply(&p), expected);
}

#[test]
fn shearing_tx_moves_x_proportional_z() {
    let transform = shearing(0, fx(1.0), 0, 0, 0, 0);
    let p = Point::new_point(fx(2.0), fx(3.0), fx(4.0));
    let expected = Point::new_point(fx(6.0), fx(3.0), fx(4.0));
    assert_eq!(transform.apply(&p), expected);
}

#[test]
fn shearing_tx_moves_y_proportional_x() {
    let transform = shearing(0, 0, fx(1.0), 0, 0, 0);
    let p = Point::new_point(fx(2.0), fx(3.0), fx(4.0));
    let expected = Point::new_point(fx(2.0), fx(5.0), fx(4.0));
    assert_eq!(transform.apply(&p), expected);
}

#[test]
fn shearing_tx_moves_y_proportional_z() {
    let transform = shearing(0, 0, 0, fx(1.0), 0, 0);
    let p = Point::new_point(fx(2.0), fx(3.0), fx(4.0));
    let expected = Point::new_point(fx(2.0), fx(7.0), fx(4.0));
    assert_eq!(transform.apply(&p), expected);
}

#[test]
fn shearing_tx_moves_z_proportional_x() {
    let transform = shearing(0, 0, 0, 0, fx(1.0), 0);
    let p = Point::new_point(fx(2.0), fx(3.0), fx(4.0));
    let expected = Point::new_point(fx(2.0), fx(3.0), fx(6.0));
    assert_eq!(transform.apply(&p), expected);
}

#[test]
fn shearing_tx_moves_z_proportional_y() {
    let transform = shearing(0, 0, 0, 0, 0, fx(1.0));
    let p = Point::new_point(fx(2.0), fx(3.0), fx(4.0));
    let expected = Point::new_point(fx(2.0), fx(3.0), fx(7.0));
    assert_eq!(transform.apply(&p), expected);
}

#[test]
fn chaining_transformations_in_seq() {
    let p = Point::new_point(fx(1.0), 0, fx(1.0));
    let a = rot_x(PI / 2.0);
    let b = scaling(fx(5.0), fx(5.0), fx(5.0));
    let c = translation(fx(10.0), fx(5.0), fx(7.0));

    let p2 = a.apply(&p);
    assert!(p2.approx_eq(&Point::new_point(fx(1.0), fx(-1.0), 0)));

    let p3 = b.apply(&p2);
    assert!(p3.approx_eq(&Point::new_point(fx(5.0), fx(-5.0), 0)));

    let p4 = c.apply(&p3);
    assert!(p4.approx_eq(&Point::new_point(fx(15.0), 0, fx(7.0))));
}

#[test]
fn chaining_transformations_in_rev() {
    let p = Point::new_point(fx(1.0), 0, fx(1.0));
    let a = rot_x(PI / 2.0);
    let b = scaling(fx(5.0), fx(5.0), fx(5.0));
    let c = translation(fx(10.0), fx(5.0), fx(7.0));

    let t = c.multiply(&b).multiply(&a);
    assert!(t.apply(&p).approx_eq(&Point::new_point(fx(15.0), 0, fx(7.0))));
}
