//! Rays, spheres, and the ray-sphere intersection engine.
//!
//! A sphere is always the unit sphere at the origin in its own object space;
//! its world-space shape comes entirely from its transform.  `intersect`
//! therefore maps the ray into object space with the inverse transform and
//! solves the quadratic there.

use crate::fixed::{
    div_round, div_s, div_units, iabs, in_i64, isqrt, lemma_rdiv_bound, lemma_rdiv_mono,
    lemma_sqrt_floor, mul_s, mul_units, rdiv, rdiv_s, sqrt_floor, wide_mul, LIMIT, SCALE,
};
use crate::light::Material;
use crate::matrix::{
    apply4, det4, ident4, inv4, inv4_fits, invert_4x4, m_bounded, transpose, transpose4, M4x4,
    MatrixError,
};
use crate::tuple::{
    bounded, v_add, v_dot, v_mag, v_neg, v_norm, v_scale, v_sub, Point, Tup, Tuple, Vector,
};
use vstd::prelude::*;

verus! {

/// Coordinate bound for rays handed to the quadratic solver; it keeps the
/// discriminant arithmetic inside `i64`.
pub const RAY_LIMIT: i64 = 5_000_000_000;

/// The mathematical value of a ray.
pub ghost struct RayV {
    pub origin: Tup,
    pub direction: Tup,
}

#[derive(Clone, Copy, Debug)]
pub struct Ray {
    pub origin: Point,
    pub direction: Vector,
}

impl View for Ray {
    type V = RayV;

    open spec fn view(&self) -> RayV {
        RayV { origin: self.origin@, direction: self.direction@ }
    }
}

/// The sphere's center in object space.
pub open spec fn sphere_origin_v() -> Tup {
    Tup { x: 0, y: 0, z: 0, w: SCALE as int }
}

/// The point at the center of every object-space sphere.
pub fn sphere_origin() -> (r: Point)
    ensures
        r@ == sphere_origin_v(),
{
    Tuple::new_point(0, 0, 0)
}

/// Both endpoints of the ray fit the solver's coordinate bound.
pub open spec fn ray_bounded(r: RayV) -> bool {
    &&& iabs(r.origin.x) <= RAY_LIMIT
    &&& iabs(r.origin.y) <= RAY_LIMIT
    &&& iabs(r.origin.z) <= RAY_LIMIT
    &&& iabs(r.origin.w) <= RAY_LIMIT
    &&& iabs(r.direction.x) <= RAY_LIMIT
    &&& iabs(r.direction.y) <= RAY_LIMIT
    &&& iabs(r.direction.z) <= RAY_LIMIT
    &&& iabs(r.direction.w) <= RAY_LIMIT
}

/// Quadratic coefficient `a`: the direction dotted with itself.
pub open spec fn isect_a(r: RayV) -> int {
    v_dot(r.direction, r.direction)
}

/// Quadratic coefficient `b`: twice the direction dotted with the vector
/// from the sphere's center to the ray's origin.
pub open spec fn isect_b(r: RayV) -> int {
    2 * v_dot(r.direction, v_sub(r.origin, sphere_origin_v()))
}

/// Quadratic coefficient `c`: the center-to-origin vector dotted with
/// itself, less the squared unit radius.
pub open spec fn isect_c(r: RayV) -> int {
    v_dot(v_sub(r.origin, sphere_origin_v()), v_sub(r.origin, sphere_origin_v())) - SCALE
}

/// The discriminant `b^2 - 4ac` of the object-space quadratic.
pub open spec fn v_disc(r: RayV) -> int {
    mul_units(isect_b(r), isect_b(r)) - mul_units(4 * isect_a(r), isect_c(r))
}

/// The square root of the discriminant, in steps.
pub open spec fn disc_root(r: RayV) -> int {
    sqrt_floor(v_disc(r) * SCALE)
}

/// The ray parameters at which an object-space ray meets the unit sphere:
/// none on a miss, a tangent point twice, or the entering and exiting roots.
pub open spec fn isect_ts(r: RayV) -> Seq<int> {
    let d = v_disc(r);
    if d < 0 {
        Seq::empty()
    } else if d == 0 {
        let t = div_units(-isect_b(r), 2 * isect_a(r));
        seq![t, t]
    } else {
        seq![
            div_units(-isect_b(r) - disc_root(r), 2 * isect_a(r)),
            div_units(-isect_b(r) + disc_root(r), 2 * isect_a(r)),
        ]
    }
}

impl Ray {
    pub fn new(origin: Point, direction: Vector) -> (r: Ray)
        ensures
            r.origin == origin,
            r.direction == direction,
    {
        Ray { origin, direction }
    }

    /// The point reached after traveling `t` along the ray.
    pub fn position(&self, t: i64) -> (r: Tuple)
        requires
            bounded(self@.origin),
            bounded(self@.direction),
            iabs(t as int) <= LIMIT,
            bounded(v_scale(self@.direction, t as int)),
        ensures
            r@ == v_add(self@.origin, v_scale(self@.direction, t as int)),
    {
        let step = self.direction.scale(t);
        self.origin.add(&step)
    }

    /// The discriminant of the quadratic for this ray against the unit
    /// sphere at the origin.
    pub fn discriminant(&self) -> (r: i64)
        requires
            ray_bounded(self@),
        ensures
            r == v_disc(self@),
    {
        let sphere_to_ray = self.origin.sub(&sphere_origin());
        let a = self.direction.dot(&self.direction);
        let db = self.direction.dot(&sphere_to_ray);
        proof {
            lemma_quadratic_bounds(self@);
        }
        let b = 2 * db;
        let c = sphere_to_ray.dot(&sphere_to_ray) - SCALE;
        let t1 = mul_s(b, b);
        let t2 = mul_s(4 * a, c);
        t1 - t2
    }
}

/// Bounds on the quadratic coefficients of a solver-bounded ray, including
/// that both rescaled products in the discriminant fit in an `i64`.
proof fn lemma_quadratic_bounds(r: RayV)
    requires
        ray_bounded(r),
    ensures
        0 <= isect_a(r) <= 1_100_000_000_000int,
        iabs(isect_b(r)) <= 2_200_000_000_000int,
        iabs(isect_c(r)) <= 1_100_000_000_000int,
        in_i64(mul_units(isect_b(r), isect_b(r))),
        in_i64(mul_units(4 * isect_a(r), isect_c(r))),
        iabs(mul_units(isect_b(r), isect_b(r))) <= 50_000_000_000_000_000int,
        iabs(mul_units(4 * isect_a(r), isect_c(r))) <= 50_000_000_000_000_000int,
{
    let s = v_sub(r.origin, sphere_origin_v());
    crate::tuple::lemma_dot_bound(r.direction, r.direction, RAY_LIMIT as int,
        RAY_LIMIT as int, 1_100_000_000_000int);
    crate::tuple::lemma_dot_bound(r.direction, s, RAY_LIMIT as int,
        RAY_LIMIT as int + SCALE as int, 1_100_000_000_000int);
    crate::tuple::lemma_dot_bound(s, s, RAY_LIMIT as int + SCALE as int,
        RAY_LIMIT as int + SCALE as int, 1_099_900_000_000int);
    crate::tuple::lemma_dot_nonneg(r.direction);
    let b = isect_b(r);
    let ac = 4 * isect_a(r);
    let c = isect_c(r);
    assert(iabs(b * b) <= 50_000_000_000_000_000int * SCALE) by (nonlinear_arith)
        requires
            iabs(b) <= 2_200_000_000_000int,
            SCALE == 100_000_000i64,
    ;
    assert(iabs(ac * c) <= 50_000_000_000_000_000int * SCALE) by (nonlinear_arith)
        requires
            iabs(ac) <= 4_400_000_000_000int,
            iabs(c) <= 1_100_000_000_000int,
            SCALE == 100_000_000i64,
    ;
    lemma_rdiv_bound(b * b, SCALE as int, 50_000_000_000_000_000int);
    lemma_rdiv_bound(ac * c, SCALE as int, 50_000_000_000_000_000int);
}

/// An object in the scene: a unit sphere shaped by its transform.  Spheres
/// are equal when their identities are equal.
#[derive(Clone, Copy, Debug)]
pub struct Sphere {
    pub id: u128,
    pub transform: M4x4,
    pub material: Material,
}

/// Relies on `uuid::Uuid::new_v4` (a version-4 random UUID, read back as its
/// 128-bit value) for fresh sphere identities; nothing is assumed about the
/// returned value.
#[verifier::external_body]
fn fresh_sphere_id() -> u128 {
    uuid::Uuid::new_v4().as_u128()
}

impl Sphere {
    /// A unit sphere at the origin: identity transform, default material.
    pub fn new() -> (s: Sphere)
        ensures
            s.transform@ == ident4(),
            s.material == crate::light::default_material(),
    {
        Sphere {
            id: fresh_sphere_id(),
            transform: crate::matrix::identity_4x4(),
            material: Material::new(),
        }
    }

    pub fn set_transform(&mut self, transform: M4x4)
        ensures
            final(self).transform == transform,
            final(self).id == old(self).id,
            final(self).material == old(self).material,
    {
        self.transform = transform;
    }

    pub fn set_material(&mut self, material: Material)
        ensures
            final(self).material == material,
            final(self).id == old(self).id,
            final(self).transform == old(self).transform,
    {
        self.material = material;
    }

    /// The world-space surface normal at a world-space surface point: the
    /// object-space normal mapped through the transposed inverse transform
    /// and normalized, with `w` forced back to zero.
    pub fn normal_at(&self, world_point: Point) -> (r: Vector)
        requires
            normal_at_wf(self.transform@, world_point@),
        ensures
            r@ == v_normal_at(self.transform@, world_point@),
    {
        let inverse = invert_4x4(&self.transform).unwrap();
        let object_point = inverse.apply(&world_point);
        let object_normal = object_point.sub(&sphere_origin());
        // The transpose of the inverse keeps normals perpendicular to the
        // surface under non-uniform scaling.
        let world_normal = transpose(inverse).apply(&object_normal);
        proof {
            crate::matrix::lemma_transpose_bounded(inv4(self.transform@));
        }
        let mut normal = Tuple::new(world_normal.x, world_normal.y, world_normal.z).normalize();
        // Translation components of the transform can corrupt `w`.
        normal.w = 0;
        normal
    }
}

/// The object-space point matching a world-space point.
pub open spec fn obj_point(s: Seq<int>, wp: Tup) -> Tup {
    apply4(inv4(s), wp)
}

/// The world-space normal before normalization.
pub open spec fn world_normal_raw(s: Seq<int>, wp: Tup) -> Tup {
    apply4(transpose4(inv4(s)), v_sub(obj_point(s, wp), sphere_origin_v()))
}

/// The finished world-space normal.
pub open spec fn v_normal_at(s: Seq<int>, wp: Tup) -> Tup {
    let wn = world_normal_raw(s, wp);
    v_norm(Tup { x: wn.x, y: wn.y, z: wn.z, w: 0 })
}

/// Machine-limit side conditions under which `normal_at` is defined: the
/// transform inverts, every intermediate tuple stays in range, and the
/// unnormalized normal is not the zero vector.
pub open spec fn normal_at_wf(s: Seq<int>, wp: Tup) -> bool {
    let wn = world_normal_raw(s, wp);
    &&& m_bounded(s)
    &&& det4(s) != 0
    &&& inv4_fits(s)
    &&& m_bounded(inv4(s))
    &&& bounded(wp)
    &&& bounded(obj_point(s, wp))
    &&& bounded(v_sub(obj_point(s, wp), sphere_origin_v()))
    &&& bounded(Tup { x: wn.x, y: wn.y, z: wn.z, w: 0 })
    &&& v_mag(Tup { x: wn.x, y: wn.y, z: wn.z, w: 0 }) >= 1
}

impl PartialEq for Sphere {
    /// Identity, not geometry, decides sphere equality.
    fn eq(&self, other: &Sphere) -> (r: bool) {
        self.id == other.id
    }
}

impl vstd::std_specs::cmp::PartialEqSpecImpl for Sphere {
    open spec fn obeys_eq_spec() -> bool {
        true
    }

    open spec fn eq_spec(&self, other: &Sphere) -> bool {
        self.id == other.id
    }
}

/// One crossing of a ray and a sphere: the ray parameter and the object hit.
#[derive(Clone, Copy, Debug)]
pub struct Intersection {
    pub t: i64,
    pub object: Sphere,
}

impl Intersection {
    pub fn new(t: i64, object: Sphere) -> (r: Intersection)
        ensures
            r.t == t,
            r.object == object,
    {
        Intersection { t, object }
    }
}

impl PartialEq for Intersection {
    /// Two intersections are equal when they hit the same object.
    fn eq(&self, other: &Intersection) -> (r: bool) {
        self.object.id == other.object.id
    }
}

impl vstd::std_specs::cmp::PartialEqSpecImpl for Intersection {
    open spec fn obeys_eq_spec() -> bool {
        true
    }

    open spec fn eq_spec(&self, other: &Intersection) -> bool {
        self.object.id == other.object.id
    }
}

/// An ordered collection of intersections, not assumed sorted.
pub struct Intersections {
    pub items: Vec<Intersection>,
}

impl View for Intersections {
    type V = Seq<Intersection>;

    open spec fn view(&self) -> Seq<Intersection> {
        self.items@
    }
}

impl Intersections {
    pub fn size(&self) -> (n: usize)
        ensures
            n == self@.len(),
    {
        self.items.len()
    }

    pub fn get(&self, i: usize) -> (r: Intersection)
        requires
            i < self@.len(),
        ensures
            r == self@[i as int],
    {
        self.items[i]
    }

    pub fn from_vec(items: Vec<Intersection>) -> (r: Intersections)
        ensures
            r@ == items@,
    {
        Intersections { items }
    }
}

/// The ray carried into another coordinate frame: the matrix applied to both
/// origin and direction.
pub fn transform(ray: &Ray, matrix: M4x4) -> (r: Ray)
    requires
        m_bounded(matrix@),
        bounded(ray@.origin),
        bounded(ray@.direction),
    ensures
        r@.origin == apply4(matrix@, ray@.origin),
        r@.direction == apply4(matrix@, ray@.direction),
{
    let new_origin = matrix.apply(&ray.origin);
    let new_direction = matrix.apply(&ray.direction);
    Ray::new(new_origin, new_direction)
}

/// The incoming vector mirrored about the normal.
pub open spec fn v_reflect(incoming: Tup, normal: Tup) -> Tup {
    v_sub(incoming, v_scale(normal, 2 * v_dot(incoming, normal)))
}

/// Reflect `incoming` about `normal`.
pub fn reflect(incoming: Vector, normal: Vector) -> (r: Vector)
    requires
        bounded(incoming@),
        bounded(normal@),
        iabs(2 * v_dot(incoming@, normal@)) <= LIMIT,
        bounded(v_scale(normal@, 2 * v_dot(incoming@, normal@))),
    ensures
        r@ == v_reflect(incoming@, normal@),
{
    let d = incoming.dot(&normal);
    let scaled = normal.scale(2 * d);
    incoming.sub(&scaled)
}

/// The ray in the sphere's object space.
pub open spec fn obj_ray(r: RayV, s: Seq<int>) -> RayV {
    RayV { origin: apply4(inv4(s), r.origin), direction: apply4(inv4(s), r.direction) }
}

/// Machine-limit side conditions under which `intersect` is defined: the
/// sphere's transform inverts, the object-space ray fits the solver's
/// bounds, its direction is not degenerate, and the computed ray parameters
/// fit in an `i64`.
pub open spec fn intersect_wf(r: RayV, s: Seq<int>) -> bool {
    &&& m_bounded(s)
    &&& det4(s) != 0
    &&& inv4_fits(s)
    &&& m_bounded(inv4(s))
    &&& bounded(r.origin)
    &&& bounded(r.direction)
    &&& ray_bounded(obj_ray(r, s))
    &&& isect_a(obj_ray(r, s)) >= 1
    &&& (forall|i: int|
        0 <= i < isect_ts(obj_ray(r, s)).len() ==> in_i64(#[trigger] isect_ts(obj_ray(r, s))[i]))
}

/// All crossings of a ray and a sphere: the ray is carried into object space
/// by the inverse transform and the quadratic is solved there.  A miss gives
/// no intersections, a tangent gives the same parameter twice, and otherwise
/// the entering root comes before the exiting root.
pub fn intersect(r: &Ray, s: Sphere) -> (res: Intersections)
    requires
        intersect_wf(r@, s.transform@),
    ensures
        res@.len() == isect_ts(obj_ray(r@, s.transform@)).len(),
        forall|i: int|
            0 <= i < res@.len() ==> (#[trigger] res@[i]).t == isect_ts(obj_ray(r@, s.transform@))[i]
                && res@[i].object == s,
        res@.len() == 2 ==> res@[0].t <= res@[1].t,
{
    let ghost o = obj_ray(r@, s.transform@);
    // Carry the ray into the sphere's object space first.
    let inverted_tx = invert_4x4(&s.transform).unwrap();
    let r2 = transform(r, inverted_tx);
    proof {
        assert(r2@ == o);
    }

    let d = r2.discriminant();

    // A negative discriminant means the ray misses the sphere.
    if d < 0 {
        let items: Vec<Intersection> = Vec::new();
        return Intersections::from_vec(items);
    }
    let sphere_to_ray = r2.origin.sub(&sphere_origin());
    let a = r2.direction.dot(&r2.direction);
    let db = r2.direction.dot(&sphere_to_ray);
    proof {
        lemma_quadratic_bounds(o);
    }
    let b = 2 * db;

    // A zero discriminant is a tangent: one point, reported twice.
    if d == 0 {
        proof {
            assert(isect_ts(o)[0] == div_units(-isect_b(o), 2 * isect_a(o)));
        }
        let t = div_s(-b, 2 * a);
        let i = Intersection::new(t, s);
        let mut items: Vec<Intersection> = Vec::new();
        items.push(i);
        items.push(i);
        return Intersections::from_vec(items);
    }

    // Two roots: entering at t1, exiting at t2.
    let wide = wide_mul(d, SCALE);
    let root_u = isqrt(wide as u128);
    proof {
        lemma_sqrt_floor(d as int * SCALE as int);
        assert(root_u <= 31_000_000_000_000u128) by (nonlinear_arith)
            requires
                root_u * root_u <= d as int * SCALE as int,
                d <= i64::MAX,
                SCALE == 100_000_000i64,
        ;
        assert(isect_ts(o)[0] == div_units(-isect_b(o) - disc_root(o), 2 * isect_a(o)));
        assert(isect_ts(o)[1] == div_units(-isect_b(o) + disc_root(o), 2 * isect_a(o)));
    }
    let root = root_u as i64;
    let t1 = div_s(-b - root, 2 * a);
    let t2 = div_s(-b + root, 2 * a);
    proof {
        lemma_roots_ordered(o);
    }
    let i1 = Intersection::new(t1, s);
    let i2 = Intersection::new(t2, s);
    let mut items: Vec<Intersection> = Vec::new();
    items.push(i1);
    items.push(i2);
    Intersections::from_vec(items)
}

/// The entering root never exceeds the exiting root.
proof fn lemma_roots_ordered(r: RayV)
    requires
        isect_a(r) >= 1,
        v_disc(r) > 0,
    ensures
        div_units(-isect_b(r) - disc_root(r), 2 * isect_a(r)) <= div_units(
            -isect_b(r) + disc_root(r),
            2 * isect_a(r),
        ),
{
    lemma_sqrt_floor(v_disc(r) * SCALE);
    let sq = disc_root(r);
    assert(sq >= 0);
    let n1 = (-isect_b(r) - sq) * SCALE;
    let n2 = (-isect_b(r) + sq) * SCALE;
    assert(n1 <= n2) by (nonlinear_arith)
        requires
            sq >= 0,
            n1 == (-isect_b(r) - sq) * SCALE,
            n2 == (-isect_b(r) + sq) * SCALE,
            SCALE == 100_000_000i64,
    ;
    lemma_rdiv_mono(n1, n2, 2 * isect_a(r));
}

/// The visible intersection: among those with `t >= 0`, the first with the
/// smallest `t`; nothing when every intersection lies behind the ray.
pub fn hit(xs: Intersections) -> (r: Option<Intersection>)
    ensures
        r is None ==> forall|i: int| 0 <= i < xs@.len() ==> (#[trigger] xs@[i]).t < 0,
        r matches Some(h) ==> exists|i: int|
            {
                &&& 0 <= i < xs@.len()
                &&& #[trigger] xs@[i] == h
                &&& h.t >= 0
                &&& forall|j: int| 0 <= j < xs@.len() && (#[trigger] xs@[j]).t >= 0 ==> h.t <= xs@[j].t
                &&& forall|j: int| 0 <= j < i ==> !((#[trigger] xs@[j]).t >= 0 && xs@[j].t <= h.t)
            },
{
    let mut best: Option<Intersection> = None;
    let ghost mut best_idx: int = 0;
    let mut k: usize = 0;
    while k < xs.items.len()
        invariant
            k <= xs@.len(),
            best is None ==> forall|i: int| 0 <= i < k ==> (#[trigger] xs@[i]).t < 0,
            best matches Some(h) ==> {
                &&& 0 <= best_idx < k
                &&& xs@[best_idx] == h
                &&& h.t >= 0
                &&& forall|j: int| 0 <= j < k && (#[trigger] xs@[j]).t >= 0 ==> h.t <= xs@[j].t
                &&& forall|j: int| 0 <= j < best_idx ==> !((#[trigger] xs@[j]).t >= 0 && xs@[j].t
                    <= h.t)
            },
        decreases xs@.len() - k,
    {
        let candidate = xs.items[k];
        match best {
            Option::None => {
                if candidate.t >= 0 {
                    best = Some(candidate);
                    proof {
                        best_idx = k as int;
                    }
                }
            },
            Option::Some(b) => {
                if candidate.t >= 0 && candidate.t < b.t {
                    best = Some(candidate);
                    proof {
                        best_idx = k as int;
                    }
                }
            },
        }
        k = k + 1;
    }
    best
}

} // verus!
