use std::f64::consts::{FRAC_1_SQRT_2, PI};

use tracer::fixed::SCALE;
use tracer::light::Material;
use tracer::matrix::identity_4x4;
use tracer::rays::{
    hit, intersect, reflect, transform, Intersection, Intersections, Ray, Sphere,
};
use tracer::matrix_transformations::{rotation_z, scaling, translation};
use tracer::tuple::{Point, Vector};

/// A float written as a fixed-point step count.
fn fx(v: f64) -> i64 {
    (v * SCALE as f64).round() as i64
}

#[test]
fn create_ray() {
    let origin = Point::new_point(fx(1.0), fx(2.0), fx(3.0));
    let direction = Vector::new(fx(4.0), fx(5.0), fx(6.0));
    let r = Ray::new(origin, direction);
    assert_eq!(r.origin, origin);
    assert_eq!(r.direction, direction);
}

#[test]
fn compute_pt_from_distance() {
    let r = Ray::new(
        Point::new_point(fx(2.0), fx(3.0), fx(4.0)),
        Vector::new(fx(1.0), 0, 0),
    );
    assert_eq!(r.position(fx(0.0)), Point::new_point(fx(2.0), fx(3.0), fx(4.0)));
    assert_eq!(r.position(fx(1.0)), Point::new_point(fx(3.0), fx(3.0), fx(4.0)));
    assert_eq!(r.position(fx(-1.0)), Point::new_point(fx(1.0), fx(3.0), fx(4.0)));
    assert_eq!(r.position(fx(2.5)), Point::new_point(fx(4.5), fx(3.0), fx(4.0)));
}

#[test]
fn ray_intersects_sphere_two_pts() {
    let r = Ray::new(Point::new_point(0, 0, fx(-5.0)), Vector::new(0, 0, fx(1.0)));
    let s = Sphere::new();
    let xs = intersect(&r, s);
    assert_eq!(xs.size(), 2);
    assert_eq!(xs.get(0).t, fx(4.0));
    assert_eq!(xs.get(1).t, fx(6.0));
}

#[test]
fn ray_intersects_sphere_at_tangent() {
    let r = Ray::new(Point::new_point(0, fx(1.0), fx(-5.0)), Vector::new(0, 0, fx(1.0)));
    let s = Sphere::new();
    let xs = intersect(&r, s);
    assert_eq!(xs.size(), 2);
    assert_eq!(xs.get(0).t, fx(5.0));
    assert_eq!(xs.get(1).t, fx(5.0));
}

#[test]
fn ray_misses_sphere() {
    let r = Ray::new(Point::new_point(0, fx(2.0), fx(-5.0)), Vector::new(0, 0, fx(1.0)));
    let s = Sphere::new();
    let xs = intersect(&r, s);
    assert_eq!(xs.size(), 0);
}

#[test]
fn ray_originates_inside_sphere() {
    let r = Ray::new(Point::new_point(0, 0, 0), Vector::new(0, 0, fx(1.0)));
    let s = Sphere::new();
    let xs = intersect(&r, s);
    assert_eq!(xs.size(), 2);
    assert_eq!(xs.get(0).t, fx(-1.0));
    assert_eq!(xs.get(1).t, fx(1.0));
}

#[test]
fn sphere_is_behind_ray() {
    let r = Ray::new(Point::new_point(0, 0, fx(5.0)), Vector::new(0, 0, fx(1.0)));
    let s = Sphere::new();
    let xs = intersect(&r, s);
    assert_eq!(xs.size(), 2);
    assert_eq!(xs.get(0).t, fx(-6.0));
    assert_eq!(xs.get(1).t, fx(-4.0));
}

#[test]
fn intersection_encapsulates_t_object() {
    let s = Sphere::new();
    let i = Intersection::new(fx(3.5), s);
    assert_eq!(i.t, fx(3.5));
    assert_eq!(i.object, s);
}

#[test]
fn aggregating_intersections() {
    let s = Sphere::new();
    let i1 = Intersection::new(fx(1.0), s);
    let i2 = Intersection::new(fx(2.0), s);

    let xs = Intersections::from_vec(vec![i1, i2]);
    assert_eq!(xs.get(0).t, fx(1.0));
    assert_eq!(xs.get(1).t, fx(2.0));
    assert_eq!(xs.size(), 2);
}

#[test]
fn intersect_sets_object_on_intersection() {
    let r = Ray::new(Point::new_point(0, 0, fx(-5.0)), Vector::new(0, 0, fx(1.0)));
    let s = Sphere::new();
    let xs = intersect(&r, s);
    assert_eq!(xs.size(), 2);
    assert_eq!(xs.get(0).object, s);
    assert_eq!(xs.get(1).object, s);
}

#[test]
fn hit_all_intersections_positive() {
    let s = Sphere::new();
    let i1 = Intersection::new(fx(1.0), s);
    let i2 = Intersection::new(fx(2.0), s);

    let xs = Intersections::from_vec(vec![i1, i2]);
    let i = hit(xs).unwrap();
    assert_eq!(i.t, i1.t);
    assert_eq!(i, i1);
}

#[test]
fn hit_some_intersections_negative() {
    let s = Sphere::new();
    let i1 = Intersection::new(fx(-1.0), s);
    let i2 = Intersection::new(fx(1.0), s);

    let xs = Intersections::from_vec(vec![i2, i1]);
    let i = hit(xs).unwrap();
    assert_eq!(i.t, i2.t);
}

#[test]
fn hit_all_intersections_negative() {
    let s = Sphere::new();
    let i1 = Intersection::new(fx(-2.0), s);
    let i2 = Intersection::new(fx(-1.0), s);

    let xs = Intersections::from_vec(vec![i2, i1]);
    let i = hit(xs);
    assert!(i.is_none());
}

#[test]
fn hit_is_lowest_nonnegative() {
    let s = Sphere::new();
    let i1 = Intersection::new(fx(5.0), s);
    let i2 = Intersection::new(fx(7.0), s);
    let i3 = Intersection::new(fx(-3.0), s);
    let i4 = Intersection::new(fx(2.0), s);

    let xs = Intersections::from_vec(vec![i1, i2, i3, i4]);
    let i = hit(xs).unwrap();
    assert_eq!(i.t, fx(2.0));
}

#[test]
fn translating_a_ray() {
    let r = Ray::new(Point::new_point(fx(1.0), fx(2.0), fx(3.0)), Vector::new(0, fx(1.0), 0));
    let m = translation(fx(3.0), fx(4.0), fx(5.0));
    let r2 = transform(&r, m);
    assert_eq!(r2.origin, Point::new_point(fx(4.0), fx(6.0), fx(8.0)));
    assert_eq!(r2.direction, Vector::new(0, fx(1.0), 0));
}

#[test]
fn scaling_a_ray() {
    let r = Ray::new(Point::new_point(fx(1.0), fx(2.0), fx(3.0)), Vector::new(0, fx(1.0), 0));
    let m = scaling(fx(2.0), fx(3.0), fx(4.0));
    let r2 = transform(&r, m);
    assert_eq!(r2.origin, Point::new_point(fx(2.0), fx(6.0), fx(12.0)));
    assert_eq!(r2.direction, Vector::new(0, fx(3.0), 0));
}

#[test]
fn sphere_default_transform() {
    let s = Sphere::new();
    assert_eq!(s.transform, identity_4x4());
}

#[test]
fn changing_sphere_transform() {
    let mut s = Sphere::new();
    let t = translation(fx(2.0), fx(3.0), fx(4.0));
    s.set_transform(t);
    assert_eq!(s.transform, t);
}

#[test]
fn intersecting_scaled_sphere_with_ray() {
    let r = Ray::new(Point::new_point(0, 0, fx(-5.0)), Vector::new(0, 0, fx(1.0)));
    let mut s = Sphere::new();
    s.set_transform(scaling(fx(2.0), fx(2.0), fx(2.0)));
    let xs = intersect(&r, s);
    assert_eq!(xs.size(), 2);
    assert_eq!(xs.get(0).t, fx(3.0));
    assert_eq!(xs.get(1).t, fx(7.0));
}

#[test]
fn intersecting_translated_sphere_with_ray() {
    let r = Ray::new(Point::new_point(0, 0, fx(-5.0)), Vector::new(0, 0, fx(1.0)));
    let mut s = Sphere::new();
    s.set_transform(translation(fx(5.0), 0, 0));
    let xs = intersect(&r, s);
    assert_eq!(xs.size(), 0);
}

#[test]
fn normal_on_sphere_at_point_x_axis() {
    let s = Sphere::new();
    let norm = s.normal_at(Point::new_point(fx(1.0), 0, 0));
    assert!(norm.approx_eq(&Vector::new(fx(1.0), 0, 0)));
    assert!(norm.approx_eq(&norm.normalize()));
}

#[test]
fn normal_on_sphere_at_point_y_axis() {
    let s = Sphere::new();
    let norm = s.normal_at(Point::new_point(0, fx(1.0), 0));
    assert!(norm.approx_eq(&Vector::new(0, fx(1.0), 0)));
    assert!(norm.approx_eq(&norm.normalize()));
}

#[test]
fn normal_on_sphere_at_point_z_axis() {
    let s = Sphere::new();
    let norm = s.normal_at(Point::new_point(0, 0, fx(1.0)));
    assert!(norm.approx_eq(&Vector::new(0, 0, fx(1.0))));
    assert!(norm.approx_eq(&norm.normalize()));
}

#[test]
fn normal_on_sphere_at_non_axial_point() {
    let s = Sphere::new();
    let val = (3.0_f64).sqrt() / 3.0;
    let norm = s.normal_at(Point::new_point(fx(val), fx(val), fx(val)));
    assert!(norm.approx_eq(&Vector::new(fx(val), fx(val), fx(val))));
    assert!(norm.approx_eq(&norm.normalize()));
}

#[test]
fn normal_on_translated_sphere() {
    let mut s = Sphere::new();
    s.set_transform(translation(0, fx(1.0), 0));
    let n = s.normal_at(Point::new_point(0, fx(1.70711), fx(-FRAC_1_SQRT_2)));
    assert!(n.approx_eq(&Vector::new(0, fx(FRAC_1_SQRT_2), fx(-FRAC_1_SQRT_2))));
}

#[test]
fn normal_on_transformed_sphere() {
    let mut s = Sphere::new();
    let angle = PI / 5.0;
    let m = scaling(fx(1.0), fx(0.5), fx(1.0)).multiply(&rotation_z(
        fx(angle.sin()),
        fx(angle.cos()),
    ));
    s.set_transform(m);
    let n = s.normal_at(Point::new_point(
        0,
        fx(2.0_f64.sqrt() / 2.0),
        fx(-(2.0_f64.sqrt()) / 2.0),
    ));
    assert!(n.approx_eq(&Vector::new(0, fx(0.97014), fx(-0.24254))));
}

#[test]
fn reflecting_vector_at_45_degrees() {
    let v = Vector::new(fx(1.0), fx(-1.0), 0);
    let n = Vector::new(0, fx(1.0), 0);
    let r = reflect(v, n);
    assert!(r.approx_eq(&Vector::new(fx(1.0), fx(1.0), 0)));
}

#[test]
fn reflecting_vector_off_slanted_surface() {
    let v = Vector::new(0, fx(-1.0), 0);
    let n = Vector::new(fx(2.0_f64.sqrt() / 2.0), fx(2.0_f64.sqrt() / 2.0), 0);
    let r = reflect(v, n);
    assert!(r.approx_eq(&Vector::new(fx(1.0), 0, 0)));
}

#[test]
fn test_sphere_has_default_material() {
    let s = Sphere::new();
    assert_eq!(s.material, Material::new());
}

#[test]
fn test_sphere_can_be_assigned_material() {
    let mut s = Sphere::new();
    let mut m = Material::new();
    m.ambient = fx(1.0);
    s.set_material(m);
    assert_eq!(s.material, m);
}
