//! Point lights, surface materials and the Phong illumination model.

use crate::color::{c_add, c_blend, c_bounded, c_scale, Col, Color};
use crate::fixed::{
    iabs, in_i64, lemma_rdiv_mono, lemma_rdiv_mul_exact, lemma_rdiv_nonneg, mul_s, mul_units,
    LIMIT, SCALE,
};
use crate::rays::{reflect, v_reflect};
use crate::tuple::{bounded, v_dot, v_mag, v_neg, v_norm, v_scale, v_sub, Point, Tup, Tuple,
    Vector};
use vstd::prelude::*;

verus! {

/// An idealized zero-size light source.
#[derive(Clone, Copy, Debug)]
pub struct PointLight {
    pub position: Point,
    pub intensity: Color,
}

impl PointLight {
    pub fn new(position: Point, intensity: Color) -> (r: PointLight)
        ensures
            r.position == position,
            r.intensity == intensity,
    {
        PointLight { position, intensity }
    }
}

/// Phong material parameters; the exponent is a whole number.
#[derive(Clone, Copy, Debug, PartialEq, Eq, Structural)]
pub struct Material {
    pub color: Color,
    pub ambient: i64,
    pub diffuse: i64,
    pub specular: i64,
    pub shininess: u32,
}

/// The default material: white, ambient 0.1, diffuse 0.9, specular 0.9,
/// shininess 200.
pub open spec fn default_material() -> Material {
    Material {
        color: Color { red: 100_000_000, green: 100_000_000, blue: 100_000_000 },
        ambient: 10_000_000,
        diffuse: 90_000_000,
        specular: 90_000_000,
        shininess: 200,
    }
}

impl Material {
    pub fn new() -> (r: Material)
        ensures
            r == default_material(),
    {
        Material {
            color: Color::new(SCALE, SCALE, SCALE),
            ambient: 10_000_000,
            diffuse: 90_000_000,
            specular: 90_000_000,
            shininess: 200,
        }
    }
}

/// `b^e` over fixed-point scalars: `e` rounded multiplications by `b`.
pub open spec fn pow_units_s(b: int, e: nat) -> int
    decreases e,
{
    if e == 0 {
        SCALE as int
    } else {
        mul_units(b, pow_units_s(b, (e - 1) as nat))
    }
}

/// A base in `[0, 1]` keeps every power in `[0, 1]`.
pub proof fn lemma_pow_units_range(b: int, e: nat)
    requires
        0 <= b <= SCALE,
    ensures
        0 <= pow_units_s(b, e) <= SCALE,
    decreases e,
{
    if e > 0 {
        lemma_pow_units_range(b, (e - 1) as nat);
        let p = pow_units_s(b, (e - 1) as nat);
        assert(0 <= b * p <= p * SCALE) by (nonlinear_arith)
            requires
                0 <= b <= SCALE,
                0 <= p,
        ;
        lemma_rdiv_nonneg(b * p, SCALE as int);
        lemma_rdiv_mono(b * p, p * (SCALE as int), SCALE as int);
        lemma_rdiv_mul_exact(p, SCALE as int);
    }
}

/// `b^e` by repeated rounded multiplication.
pub fn pow_units(b: i64, e: u32) -> (r: i64)
    requires
        0 <= b <= SCALE,
    ensures
        r == pow_units_s(b as int, e as nat),
        0 <= r <= SCALE,
{
    let mut acc: i64 = SCALE;
    let mut i: u32 = 0;
    while i < e
        invariant
            0 <= b <= SCALE,
            i <= e,
            acc == pow_units_s(b as int, i as nat),
            0 <= acc <= SCALE,
        decreases e - i,
    {
        proof {
            lemma_pow_units_range(b as int, (i + 1) as nat);
            assert(in_i64(mul_units(b as int, acc as int)));
        }
        acc = mul_s(b, acc);
        i = i + 1;
    }
    acc
}

pub open spec fn black() -> Col {
    Col { red: 0, green: 0, blue: 0 }
}

/// The ambient term alone: surface color blended with the light, scaled by
/// the material's ambient reflectance.
pub open spec fn v_ambient(mat: Material, lint: Col) -> Col {
    c_scale(c_blend(mat.color@, lint), mat.ambient as int)
}

/// The Phong model: ambient plus diffuse plus specular, with the latter two
/// black when the light is behind the surface, and the specular term black
/// when the reflection points away from the eye.
pub open spec fn v_lighting(
    mat: Material,
    lpos: Tup,
    lint: Col,
    pos: Tup,
    eye: Tup,
    norm: Tup,
) -> Col {
    let eff = c_blend(mat.color@, lint);
    let lightv = v_norm(v_sub(lpos, pos));
    let ambient = c_scale(eff, mat.ambient as int);
    let ldn = v_dot(lightv, norm);
    if ldn < 0 {
        c_add(c_add(ambient, black()), black())
    } else {
        let diffuse = c_scale(c_scale(eff, mat.diffuse as int), ldn);
        let reflectv = v_reflect(v_neg(lightv), norm);
        let rde = v_dot(reflectv, eye);
        let specular = if rde <= 0 {
            black()
        } else {
            c_scale(c_scale(lint, mat.specular as int), pow_units_s(rde, mat.shininess as nat))
        };
        c_add(c_add(ambient, diffuse), specular)
    }
}

/// Machine-limit side conditions under which `lighting` is defined: every
/// input and every intermediate value stays within the coordinate limit,
/// the light does not coincide with the surface point, and a positive
/// reflection-eye cosine does not exceed 1.
pub open spec fn lighting_wf(
    mat: Material,
    lpos: Tup,
    lint: Col,
    pos: Tup,
    eye: Tup,
    norm: Tup,
) -> bool {
    let eff = c_blend(mat.color@, lint);
    let lightv = v_norm(v_sub(lpos, pos));
    let ambient = c_scale(eff, mat.ambient as int);
    let ldn = v_dot(lightv, norm);
    let diffuse = c_scale(c_scale(eff, mat.diffuse as int), ldn);
    let reflectv = v_reflect(v_neg(lightv), norm);
    let rde = v_dot(reflectv, eye);
    let specular = c_scale(c_scale(lint, mat.specular as int), pow_units_s(rde, mat.shininess as nat));
    &&& c_bounded(mat.color@)
    &&& c_bounded(lint)
    &&& bounded(lpos)
    &&& bounded(pos)
    &&& bounded(eye)
    &&& bounded(norm)
    &&& iabs(mat.ambient as int) <= LIMIT
    &&& iabs(mat.diffuse as int) <= LIMIT
    &&& iabs(mat.specular as int) <= LIMIT
    &&& bounded(v_sub(lpos, pos))
    &&& v_mag(v_sub(lpos, pos)) >= 1
    &&& bounded(lightv)
    &&& c_bounded(eff)
    &&& c_bounded(ambient)
    &&& iabs(ldn) <= LIMIT
    &&& c_bounded(c_scale(eff, mat.diffuse as int))
    &&& c_bounded(diffuse)
    &&& iabs(2 * v_dot(v_neg(lightv), norm)) <= LIMIT
    &&& bounded(v_scale(norm, 2 * v_dot(v_neg(lightv), norm)))
    &&& bounded(reflectv)
    &&& (rde > 0 ==> rde <= SCALE)
    &&& c_bounded(c_scale(lint, mat.specular as int))
    &&& c_bounded(specular)
    &&& c_bounded(c_add(ambient, diffuse))
}

/// Phong illumination of one surface point by one point light.
pub fn lighting(
    material: Material,
    light: PointLight,
    point: Point,
    eyev: Vector,
    normalv: Vector,
) -> (r: Color)
    requires
        lighting_wf(material, light.position@, light.intensity@, point@, eyev@, normalv@),
    ensures
        r@ == v_lighting(material, light.position@, light.intensity@, point@, eyev@, normalv@),
{
    // Combine the surface color with the light's color.
    let effective_color = material.color.blend(&light.intensity);

    // Direction to the light source.
    let lightv = light.position.sub(&point).normalize();

    let ambient = effective_color.mul_scalar(material.ambient);

    // The cosine of the angle between light vector and normal; negative
    // means the light is on the other side of the surface.
    let light_dot_normal = lightv.dot(&normalv);
    let diffuse: Color;
    let specular: Color;

    if light_dot_normal < 0 {
        diffuse = Color::new(0, 0, 0);
        specular = Color::new(0, 0, 0);
    } else {
        diffuse = effective_color.mul_scalar(material.diffuse).mul_scalar(light_dot_normal);

        // The cosine of the angle between reflection vector and eye.
        let reflectv = reflect(lightv.neg(), normalv);
        let reflect_dot_eye = reflectv.dot(&eyev);

        if reflect_dot_eye <= 0 {
            specular = Color::new(0, 0, 0);
        } else {
            let factor = pow_units(reflect_dot_eye, material.shininess);
            specular = light.intensity.mul_scalar(material.specular).mul_scalar(factor);
        }
    }

    ambient.add(&diffuse).add(&specular)
}

/// With the light behind the surface the result is the ambient term alone.
pub proof fn lemma_lighting_light_behind(
    mat: Material,
    lpos: Tup,
    lint: Col,
    pos: Tup,
    eye: Tup,
    norm: Tup,
)
    requires
        v_dot(v_norm(v_sub(lpos, pos)), norm) < 0,
    ensures
        v_lighting(mat, lpos, lint, pos, eye, norm) == v_ambient(mat, lint),
{
}

} // verus!
