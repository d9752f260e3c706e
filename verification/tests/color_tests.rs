use tracer::color::Color;
use tracer::fixed::SCALE;

/// A float written as a fixed-point step count.
fn fx(v: f64) -> i64 {
    (v * SCALE as f64).round() as i64
}

#[test]
fn create_color_success() {
    let test_color = Color::new(fx(-0.5), fx(0.4), fx(1.7));
    assert_eq!(test_color.red(), fx(-0.5));
    assert_eq!(test_color.green(), fx(0.4));
    assert_eq!(test_color.blue(), fx(1.7));
}

#[test]
fn add_colors() {
    let c1 = Color::new(fx(0.9), fx(0.6), fx(0.75));
    let c2 = Color::new(fx(0.7), fx(0.1), fx(0.25));
    let expected = Color::new(fx(1.6), fx(0.7), fx(1.0));

    assert_eq!(expected, c1.add(&c2));
}

#[test]
fn sub_colors() {
    let c1 = Color::new(fx(0.9), fx(0.6), fx(0.75));
    let c2 = Color::new(fx(0.7), fx(0.1), fx(0.25));
    let expected = Color::new(fx(0.2), fx(0.5), fx(0.5));

    assert_eq!(expected, c1.sub(&c2));
}

#[test]
fn multi_color_by_scalar() {
    let c1 = Color::new(fx(0.2), fx(0.3), fx(0.4));
    let expected = Color::new(fx(0.4), fx(0.6), fx(0.8));

    assert_eq!(expected, c1.mul_scalar(fx(2.0)));
}

#[test]
fn multi_colors() {
    let c1 = Color::new(fx(1.0), fx(0.2), fx(0.4));
    let c2 = Color::new(fx(0.9), fx(1.0), fx(0.1));
    let expected = Color::new(fx(0.9), fx(0.2), fx(0.04));

    assert_eq!(expected, c1.blend(&c2));
}

#[test]
fn scale_clamps_channels() {
    // Above 1.0 clamps to 255, negatives clamp to 0, and in-range values
    // round up to a whole output step.
    let c = Color::new(fx(1.5), fx(-0.5), fx(0.5));
    let scaled = c.scale();
    assert_eq!(scaled.red(), 255 * SCALE);
    assert_eq!(scaled.green(), 0);
    assert_eq!(scaled.blue(), 128 * SCALE);
}
