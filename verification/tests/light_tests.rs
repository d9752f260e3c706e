use tracer::color::Color;
use tracer::fixed::SCALE;
use tracer::light::{lighting, Material, PointLight};
use tracer::tuple::{Point, Vector};

/// A float written as a fixed-point step count.
fn fx(v: f64) -> i64 {
    (v * SCALE as f64).round() as i64
}

#[test]
fn point_light_has_position_and_intensity() {
    let pos = Point::new_point(0, 0, 0);
    let intensity = Color::new(fx(1.0), fx(1.0), fx(1.0));
    let light = PointLight::new(pos, intensity);
    assert_eq!(light.position, pos);
    assert_eq!(light.intensity, intensity);
}

#[test]
fn test_default_material() {
    let m = Material::new();

    assert_eq!(m.color, Color::new(fx(1.0), fx(1.0), fx(1.0)));
    assert_eq!(m.ambient, fx(0.1));
    assert_eq!(m.diffuse, fx(0.9));
    assert_eq!(m.specular, fx(0.9));
    assert_eq!(m.shininess, 200);
}

#[test]
fn test_lighting_with_eye_between_light_and_surface() {
    let m = Material::new();
    let position = Point::new_point(0, 0, 0);
    let eyev = Vector::new(0, 0, fx(-1.0));
    let normalv = Vector::new(0, 0, fx(-1.0));
    let light = PointLight::new(
        Point::new_point(0, 0, fx(-10.0)),
        Color::new(fx(1.0), fx(1.0), fx(1.0)),
    );

    let result = lighting(m, light, position, eyev, normalv);

    assert!(result.approx_eq(&Color::new(fx(1.9), fx(1.9), fx(1.9))));
}

#[test]
fn test_lighting_with_eye_offset_45_degrees() {
    let m = Material::new();
    let position = Point::new_point(0, 0, 0);
    let eyev = Vector::new(0, fx(2.0_f64.sqrt() / 2.0), fx(-(2.0_f64.sqrt()) / 2.0));
    let normalv = Vector::new(0, 0, fx(-1.0));
    let light = PointLight::new(
        Point::new_point(0, 0, fx(-10.0)),
        Color::new(fx(1.0), fx(1.0), fx(1.0)),
    );

    let result = lighting(m, light, position, eyev, normalv);

    assert!(result.approx_eq(&Color::new(fx(1.0), fx(1.0), fx(1.0))));
}

#[test]
fn test_lighting_with_light_offset_45_degrees() {
    let m = Material::new();
    let position = Point::new_point(0, 0, 0);
    let eyev = Vector::new(0, 0, fx(-1.0));
    let normalv = Vector::new(0, 0, fx(-1.0));
    let light = PointLight::new(
        Point::new_point(0, fx(10.0), fx(-10.0)),
        Color::new(fx(1.0), fx(1.0), fx(1.0)),
    );

    let result = lighting(m, light, position, eyev, normalv);

    assert!(result.approx_eq(&Color::new(fx(0.7364), fx(0.7364), fx(0.7364))));
}

#[test]
fn test_lighting_with_eye_in_path_of_reflection_vector() {
    let m = Material::new();
    let position = Point::new_point(0, 0, 0);
    let eyev = Vector::new(0, fx(-(2.0_f64.sqrt()) / 2.0), fx(-(2.0_f64.sqrt()) / 2.0));
    let normalv = Vector::new(0, 0, fx(-1.0));
    let light = PointLight::new(
        Point::new_point(0, fx(10.0), fx(-10.0)),
        Color::new(fx(1.0), fx(1.0), fx(1.0)),
    );

    let result = lighting(m, light, position, eyev, normalv);

    assert!(result.approx_eq(&Color::new(fx(1.6364), fx(1.6364), fx(1.6364))));
}

#[test]
fn test_lighting_with_light_behind_surface() {
    let m = Material::new();
    let position = Point::new_point(0, 0, 0);
    let eyev = Vector::new(0, 0, fx(-1.0));
    let normalv = Vector::new(0, 0, fx(-1.0));
    let light = PointLight::new(
        Point::new_point(0, 0, fx(10.0)),
        Color::new(fx(1.0), fx(1.0), fx(1.0)),
    );

    let result = lighting(m, light, position, eyev, normalv);

    assert!(result.approx_eq(&Color::new(fx(0.1), fx(0.1), fx(0.1))));
}
