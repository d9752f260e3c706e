use tracer::canvas::{compute_world_coordinates, Canvas};
use tracer::color::Color;
use tracer::environment::{new_environment, tick};
use tracer::fixed::SCALE;
use tracer::projectile::new_projectile;
use tracer::tuple::{Point, Vector};

/// A float written as a fixed-point step count.
fn fx(v: f64) -> i64 {
    (v * SCALE as f64).round() as i64
}

#[test]
fn create_canvas() {
    let c = Canvas::new(30, 30);
    for x in 0..30 {
        for y in 0..30 {
            let pixel = c.get_pixel(x, y).expect("cell should exist");
            assert_eq!(pixel, Color::default());
        }
    }
}

#[test]
fn write_pixel() {
    let mut c = Canvas::new(30, 30);
    let red = Color::new(fx(1.0), 0, 0);
    assert!(c.write_pixel(2, 3, red));
    let pixel = c.get_pixel(2, 3).expect("cell should exist");
    assert_eq!(pixel, red);
}

#[test]
fn write_pixel_out_of_range() {
    let mut c = Canvas::new(4, 4);
    let red = Color::new(fx(1.0), 0, 0);
    assert!(!c.write_pixel(3, 4, red));
}

#[test]
fn world_coordinates_center_pixel() {
    let (wx, wy, wz) = compute_world_coordinates(100, fx(7.0), fx(10.0), 50, 50);
    assert_eq!(wx, 0);
    assert_eq!(wy, 0);
    assert_eq!(wz, fx(10.0));
}

#[test]
fn world_coordinates_corner_pixel() {
    let (wx, wy, wz) = compute_world_coordinates(100, fx(7.0), fx(10.0), 0, 0);
    assert_eq!(wx, fx(-3.5));
    assert_eq!(wy, fx(3.5));
    assert_eq!(wz, fx(10.0));
}

#[test]
fn tick_moves_projectile() {
    let start = Point::new_point(0, fx(1.0), 0);
    let velocity = Vector::new(fx(1.0), fx(1.0), 0);
    let p = new_projectile(start, velocity);
    let env = new_environment(Vector::new(0, fx(-0.1), 0), Vector::new(fx(-0.01), 0, 0));

    let p2 = tick(env, p);
    assert_eq!(p2.position, Point::new_point(fx(1.0), fx(2.0), 0));
    assert_eq!(p2.velocity, Vector::new(fx(0.99), fx(0.9), 0));
}
