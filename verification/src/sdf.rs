//! Distance-field algebra and material-tagged maps.
//!
//! A shape is a tree of nodes, each exposing a signed distance at a point:
//! negative inside, zero on the boundary, positive outside. Operators combine
//! children's distances (`min` for union, `max` with negation for difference,
//! and so on) or transform the query point before evaluating the child.
//! A map pairs shapes with materials and propagates, at every point, the
//! distance and material of the nearest region. The sphere tracer walks a ray
//! by the local distance value until it is within `SURFACE_DIST` of a
//! surface, exceeds `MAX_DIST`, or exhausts `MAX_STEPS`.

use vstd::prelude::*;
use crate::fx::{
    fx_ok, fadd, fsub, fneg, fmin, fmax, fabs, fclamp, fmul, fdiv, FX_ONE, FX_HALF,
    fx_add, fx_sub, fx_neg, fx_min, fx_max, fx_abs, fx_clamp, fx_mul, fx_div,
};
use crate::vec3::{
    V3, v3, v3_zero, v3_add, v3_sub, v3_scale, v3_cmul, v3_cdiv, v3_floor, v3_abs, v3_max,
    v3_dot, v3_len, v3_normalize, v3_cross, flen2, fx_len2, Vec3,
};

verus! {

/// Distance below which a ray is considered to have reached a surface.
pub const SURFACE_DIST: i64 = 64;

/// Accumulated ray distance beyond which a ray counts as escaped.
pub const MAX_DIST: i64 = 1966080;

/// Bound on sphere-tracing steps per ray.
pub const MAX_STEPS: u32 = 1000;

/// Surface behaviour of a region: a diffuse reflector with an albedo, or a
/// light source with a radiance. Light sources terminate transport.
#[derive(Clone, Copy, PartialEq, Eq, Structural, Debug)]
pub enum Material {
    Lambertian(Vec3),
    Emissive(Vec3),
}

/// Spec-level material.
pub enum MatS {
    Lambertian(V3),
    Emissive(V3),
}

impl View for Material {
    type V = MatS;

    open spec fn view(&self) -> MatS {
        match *self {
            Material::Lambertian(c) => MatS::Lambertian(c@),
            Material::Emissive(c) => MatS::Emissive(c@),
        }
    }
}

/// The material's color components are representable.
pub open spec fn mat_wf(m: MatS) -> bool {
    match m {
        MatS::Lambertian(c) => c.wf(),
        MatS::Emissive(c) => c.wf(),
    }
}

/// Distance and material of the nearest region at a query point.
#[derive(Clone, Copy, PartialEq, Eq, Structural, Debug)]
pub struct DistInfo {
    pub distance: i64,
    pub material: Material,
}

/// Spec-level distance plus material.
pub struct DistInfoS {
    pub distance: int,
    pub material: MatS,
}

impl View for DistInfo {
    type V = DistInfoS;

    open spec fn view(&self) -> DistInfoS {
        DistInfoS { distance: self.distance as int, material: self.material@ }
    }
}

/// A ray/surface intersection: where the ray hit, and what it hit.
#[derive(Clone, Copy, PartialEq, Eq, Structural, Debug)]
pub struct HitInfo {
    pub position: Vec3,
    pub material: Material,
}

/// Spec-level intersection record.
pub struct HitS {
    pub position: V3,
    pub material: MatS,
}

impl View for HitInfo {
    type V = HitS;

    open spec fn view(&self) -> HitS {
        HitS { position: self.position@, material: self.material@ }
    }
}

/// Rotation, stored as a quaternion. Callers hand the world-to-local
/// rotation, so evaluating a rotated shape only multiplies the query point.
#[derive(Clone, Copy, PartialEq, Eq, Structural, Debug)]
pub struct Quat {
    pub x: i64,
    pub y: i64,
    pub z: i64,
    pub w: i64,
}

/// Spec-level quaternion.
pub struct QuatS {
    pub x: int,
    pub y: int,
    pub z: int,
    pub w: int,
}

impl View for Quat {
    type V = QuatS;

    open spec fn view(&self) -> QuatS {
        QuatS { x: self.x as int, y: self.y as int, z: self.z as int, w: self.w as int }
    }
}

impl QuatS {
    pub open spec fn wf(self) -> bool {
        fx_ok(self.x) && fx_ok(self.y) && fx_ok(self.z) && fx_ok(self.w)
    }
}

/// Rotate `p` by the quaternion `q`.
pub open spec fn qrot(q: QuatS, p: V3) -> V3 {
    let qv = v3(q.x, q.y, q.z);
    let t = v3_scale(2 * FX_ONE, v3_cross(qv, p));
    v3_add(v3_add(p, v3_scale(q.w, t)), v3_cross(qv, t))
}

impl Quat {
    pub fn rotate_point(&self, p: Vec3) -> (r: Vec3)
        requires
            self@.wf(),
            p@.wf(),
        ensures
            r@ == qrot(self@, p@),
            r@.wf(),
    {
        let qv = Vec3 { x: self.x, y: self.y, z: self.z };
        let t = qv.cross(&p).scale(2 * FX_ONE);
        p.add(&t.scale(self.w)).add(&qv.cross(&t))
    }
}

/// A shape: anything with a signed distance at every point.
///
/// `sdist` is the spec-level distance; `dist` computes exactly it. The
/// distance of a primitive is a lower bound on the true distance to its
/// surface, and every operator preserves the signed-distance reading as far
/// as the composition allows (smooth blends are approximate near the blend
/// region).
pub trait Sdf: Copy + Sized {
    /// The shape's own constants are representable.
    spec fn swf(&self) -> bool;

    /// Signed distance at `p`: negative inside, zero on the boundary.
    spec fn sdist(&self, p: V3) -> int;

    fn dist(&self, p: Vec3) -> (d: i64)
        requires
            self.swf(),
            p@.wf(),
        ensures
            d == self.sdist(p@),
            fx_ok(d as int),
    ;

    /// Flip inside and outside.
    fn evert(&self) -> (r: Eversion<Self>)
        ensures
            r == (Eversion { sdf: *self }),
    {
        Eversion { sdf: *self }
    }

    /// Grow the shape by a rounding offset `r`.
    fn round(&self, r: i64) -> (o: Round<Self>)
        ensures
            o == (Round { sdf: *self, r: r }),
    {
        Round { sdf: *self, r }
    }

    /// Tile the shape with the given period along each axis.
    fn repeat(&self, period: Vec3) -> (r: Repeat<Self>)
        ensures
            r == (Repeat { sdf: *self, period: period }),
    {
        Repeat { sdf: *self, period }
    }

    /// Move the shape by `offset`.
    fn position(&self, offset: Vec3) -> (r: Translation<Self>)
        ensures
            r == (Translation { sdf: *self, offset: offset }),
    {
        Translation { sdf: *self, offset }
    }

    /// Rotate the shape; `q` is the world-to-local rotation.
    fn rotate(&self, q: Quat) -> (r: Rotation<Self>)
        ensures
            r == (Rotation { sdf: *self, q: q }),
    {
        Rotation { sdf: *self, q }
    }

    /// The union of two shapes: the pointwise minimum of distances.
    fn union<Other>(&self, other: Other) -> (r: Union<Self, Other>)
        ensures
            r == (Union { sdf1: *self, sdf2: other }),
    {
        Union { sdf1: *self, sdf2: other }
    }

    /// A union whose seam is blended over the radius `k`.
    fn smooth_union<Other>(&self, k: i64, other: Other) -> (r: SmoothUnion<Self, Other>)
        ensures
            r == (SmoothUnion { sdf1: *self, sdf2: other, k: k }),
    {
        SmoothUnion { sdf1: *self, sdf2: other, k }
    }

    /// Subtract `other`'s solid from this shape.
    fn subtract<Other>(&self, other: Other) -> (r: Difference<Self, Other>)
        ensures
            r == (Difference { sdf1: *self, sdf2: other }),
    {
        Difference { sdf1: *self, sdf2: other }
    }

    /// Keep only a skin of the given half-thickness around the surface.
    fn shell(&self, thickness: i64) -> (r: Shell<Self>)
        ensures
            r == (Shell { sdf: *self, thickness: thickness }),
    {
        Shell { sdf: *self, thickness }
    }

    /// Tag the shape with a material, making it a renderable map.
    fn material(&self, material: Material) -> (r: SdfObject<Self>)
        ensures
            r == (SdfObject { sdf: *self, material: material }),
    {
        SdfObject { sdf: *self, material }
    }
}

/// A sphere of the given radius centered at the origin.
#[derive(Clone, Copy, PartialEq, Eq, Structural, Debug)]
pub struct Sphere {
    pub radius: i64,
}

impl Sdf for Sphere {
    open spec fn swf(&self) -> bool {
        fx_ok(self.radius as int)
    }

    open spec fn sdist(&self, p: V3) -> int {
        fsub(v3_len(p), self.radius as int)
    }

    fn dist(&self, p: Vec3) -> (d: i64) {
        fx_sub(p.length(), self.radius)
    }
}

pub fn sphere(radius: i64) -> (r: Sphere)
    ensures
        r == (Sphere { radius: radius }),
{
    Sphere { radius }
}

/// An axis-aligned box centered at the origin with the given half-extents.
#[derive(Clone, Copy, PartialEq, Eq, Structural, Debug)]
pub struct Cuboid {
    pub dimensions: Vec3,
}

impl Sdf for Cuboid {
    open spec fn swf(&self) -> bool {
        self.dimensions@.wf()
    }

    open spec fn sdist(&self, p: V3) -> int {
        let q = v3_sub(v3_abs(p), self.dimensions@);
        fadd(v3_len(v3_max(q, v3_zero())), fmin(fmax(fmax(q.x, q.y), q.z), 0))
    }

    fn dist(&self, p: Vec3) -> (d: i64) {
        let q = p.abs().sub(&self.dimensions);
        let outside = q.max(&Vec3::zero()).length();
        let inside = fx_min(fx_max(fx_max(q.x, q.y), q.z), 0);
        fx_add(outside, inside)
    }
}

pub fn cuboid(dimensions: Vec3) -> (r: Cuboid)
    ensures
        r == (Cuboid { dimensions: dimensions }),
{
    Cuboid { dimensions }
}

/// The half-space below the plane through the origin with the given normal.
#[derive(Clone, Copy, PartialEq, Eq, Structural, Debug)]
pub struct Plane {
    pub normal: Vec3,
}

impl Sdf for Plane {
    open spec fn swf(&self) -> bool {
        self.normal@.wf()
    }

    open spec fn sdist(&self, p: V3) -> int {
        v3_dot(self.normal@, p)
    }

    fn dist(&self, p: Vec3) -> (d: i64) {
        self.normal.dot(&p)
    }
}

pub fn plane(normal: Vec3) -> (r: Plane)
    ensures
        r == (Plane { normal: normal }),
{
    Plane { normal }
}

/// A torus around the z axis: ring radius `major`, tube radius `minor`.
#[derive(Clone, Copy, PartialEq, Eq, Structural, Debug)]
pub struct Torus {
    pub major: i64,
    pub minor: i64,
}

impl Sdf for Torus {
    open spec fn swf(&self) -> bool {
        fx_ok(self.major as int) && fx_ok(self.minor as int)
    }

    open spec fn sdist(&self, p: V3) -> int {
        let ring = fsub(flen2(p.x, p.y), self.major as int);
        fsub(flen2(ring, p.z), self.minor as int)
    }

    fn dist(&self, p: Vec3) -> (d: i64) {
        let ring = fx_sub(fx_len2(p.x, p.y), self.major);
        fx_sub(fx_len2(ring, p.z), self.minor)
    }
}

pub fn torus(major: i64, minor: i64) -> (r: Torus)
    ensures
        r == (Torus { major: major, minor: minor }),
{
    Torus { major, minor }
}

/// The child with inside and outside exchanged.
#[derive(Clone, Copy, PartialEq, Eq, Structural, Debug)]
pub struct Eversion<S> {
    pub sdf: S,
}

impl<S: Sdf> Sdf for Eversion<S> {
    open spec fn swf(&self) -> bool {
        self.sdf.swf()
    }

    open spec fn sdist(&self, p: V3) -> int {
        fneg(self.sdf.sdist(p))
    }

    fn dist(&self, p: Vec3) -> (d: i64) {
        fx_neg(self.sdf.dist(p))
    }
}

/// The child grown by a rounding offset.
#[derive(Clone, Copy, PartialEq, Eq, Structural, Debug)]
pub struct Round<S> {
    pub sdf: S,
    pub r: i64,
}

impl<S: Sdf> Sdf for Round<S> {
    open spec fn swf(&self) -> bool {
        self.sdf.swf() && fx_ok(self.r as int)
    }

    open spec fn sdist(&self, p: V3) -> int {
        fsub(self.sdf.sdist(p), self.r as int)
    }

    fn dist(&self, p: Vec3) -> (d: i64) {
        fx_sub(self.sdf.dist(p), self.r)
    }
}

/// The child tiled over all space with the given period.
///
/// The query point is wrapped into the nearest period cell. The caller must
/// keep the cell larger than the child's extent, or neighboring copies bleed
/// into each other. A zero period component leaves that axis untiled.
#[derive(Clone, Copy, PartialEq, Eq, Structural, Debug)]
pub struct Repeat<S> {
    pub sdf: S,
    pub period: Vec3,
}

/// Wrap `p` into the period cell nearest to the origin.
pub open spec fn repeat_wrap(p: V3, period: V3) -> V3 {
    let half = v3(FX_HALF as int, FX_HALF as int, FX_HALF as int);
    v3_sub(p, v3_cmul(period, v3_floor(v3_add(v3_cdiv(p, period), half))))
}

impl<S: Sdf> Sdf for Repeat<S> {
    open spec fn swf(&self) -> bool {
        self.sdf.swf() && self.period@.wf()
    }

    open spec fn sdist(&self, p: V3) -> int {
        self.sdf.sdist(repeat_wrap(p, self.period@))
    }

    fn dist(&self, p: Vec3) -> (d: i64) {
        let half = Vec3 { x: FX_HALF, y: FX_HALF, z: FX_HALF };
        let cell = p.sub(&self.period.cmul(&p.cdiv(&self.period).add(&half).floor()));
        self.sdf.dist(cell)
    }
}

/// The child moved by an offset.
#[derive(Clone, Copy, PartialEq, Eq, Structural, Debug)]
pub struct Translation<S> {
    pub sdf: S,
    pub offset: Vec3,
}

impl<S: Sdf> Sdf for Translation<S> {
    open spec fn swf(&self) -> bool {
        self.sdf.swf() && self.offset@.wf()
    }

    open spec fn sdist(&self, p: V3) -> int {
        self.sdf.sdist(v3_sub(p, self.offset@))
    }

    fn dist(&self, p: Vec3) -> (d: i64) {
        self.sdf.dist(p.sub(&self.offset))
    }
}

/// The child rotated; `q` maps world points into the child's frame.
#[derive(Clone, Copy, PartialEq, Eq, Structural, Debug)]
pub struct Rotation<S> {
    pub sdf: S,
    pub q: Quat,
}

impl<S: Sdf> Sdf for Rotation<S> {
    open spec fn swf(&self) -> bool {
        self.sdf.swf() && self.q@.wf()
    }

    open spec fn sdist(&self, p: V3) -> int {
        self.sdf.sdist(qrot(self.q@, p))
    }

    fn dist(&self, p: Vec3) -> (d: i64) {
        self.sdf.dist(self.q.rotate_point(p))
    }
}

/// The union of two shapes: at every point, the smaller distance.
#[derive(Clone, Copy, PartialEq, Eq, Structural, Debug)]
pub struct Union<S1, S2> {
    pub sdf1: S1,
    pub sdf2: S2,
}

impl<S1: Sdf, S2: Sdf> Sdf for Union<S1, S2> {
    open spec fn swf(&self) -> bool {
        self.sdf1.swf() && self.sdf2.swf()
    }

    open spec fn sdist(&self, p: V3) -> int {
        fmin(self.sdf1.sdist(p), self.sdf2.sdist(p))
    }

    fn dist(&self, p: Vec3) -> (d: i64) {
        fx_min(self.sdf1.dist(p), self.sdf2.dist(p))
    }
}

/// A union blended over the radius `k`: away from the seam it agrees with
/// the plain union, near it the surfaces melt together.
#[derive(Clone, Copy, PartialEq, Eq, Structural, Debug)]
pub struct SmoothUnion<S1, S2> {
    pub sdf1: S1,
    pub sdf2: S2,
    pub k: i64,
}

/// Polynomial blend of two distances over the radius `k`.
pub open spec fn smooth_blend(d1: int, d2: int, k: int) -> int {
    let h1 = fclamp(fadd(FX_HALF as int, fmul(FX_HALF as int, fdiv(fsub(d2, d1), k))), 0, FX_ONE as int);
    let h2 = fsub(FX_ONE as int, h1);
    fsub(fadd(fmul(h1, d1), fmul(h2, d2)), fmul(k, fmul(h1, h2)))
}

impl<S1: Sdf, S2: Sdf> Sdf for SmoothUnion<S1, S2> {
    open spec fn swf(&self) -> bool {
        self.sdf1.swf() && self.sdf2.swf() && fx_ok(self.k as int)
    }

    open spec fn sdist(&self, p: V3) -> int {
        smooth_blend(self.sdf1.sdist(p), self.sdf2.sdist(p), self.k as int)
    }

    fn dist(&self, p: Vec3) -> (d: i64) {
        let d1 = self.sdf1.dist(p);
        let d2 = self.sdf2.dist(p);
        let h1 = fx_clamp(
            fx_add(FX_HALF, fx_mul(FX_HALF, fx_div(fx_sub(d2, d1), self.k))),
            0,
            FX_ONE,
        );
        let h2 = fx_sub(FX_ONE, h1);
        fx_sub(fx_add(fx_mul(h1, d1), fx_mul(h2, d2)), fx_mul(self.k, fx_mul(h1, h2)))
    }
}

/// The first shape with the second's solid carved out.
#[derive(Clone, Copy, PartialEq, Eq, Structural, Debug)]
pub struct Difference<S1, S2> {
    pub sdf1: S1,
    pub sdf2: S2,
}

impl<S1: Sdf, S2: Sdf> Sdf for Difference<S1, S2> {
    open spec fn swf(&self) -> bool {
        self.sdf1.swf() && self.sdf2.swf()
    }

    open spec fn sdist(&self, p: V3) -> int {
        fmax(self.sdf1.sdist(p), fneg(self.sdf2.sdist(p)))
    }

    fn dist(&self, p: Vec3) -> (d: i64) {
        fx_max(self.sdf1.dist(p), fx_neg(self.sdf2.dist(p)))
    }
}

/// A thin skin of the given half-thickness around the child's surface.
#[derive(Clone, Copy, PartialEq, Eq, Structural, Debug)]
pub struct Shell<S> {
    pub sdf: S,
    pub thickness: i64,
}

impl<S: Sdf> Sdf for Shell<S> {
    open spec fn swf(&self) -> bool {
        self.sdf.swf() && fx_ok(self.thickness as int)
    }

    open spec fn sdist(&self, p: V3) -> int {
        fsub(fabs(self.sdf.sdist(p)), self.thickness as int)
    }

    fn dist(&self, p: Vec3) -> (d: i64) {
        fx_sub(fx_abs(self.sdf.dist(p)), self.thickness)
    }
}

/// View of an optional intersection.
pub open spec fn hit_view(r: Option<HitInfo>) -> Option<HitS> {
    match r {
        Option::Some(h) => Option::Some(h@),
        Option::None => Option::None,
    }
}

/// One sphere-tracing walk, unrolled as a recursion over the remaining step
/// budget: from accumulated distance `acc` after `steps` completed steps,
/// the intersection the tracer reports, if any.
pub open spec fn march<M: SdfMap>(m: M, origin: V3, direction: V3, acc: int, steps: int) -> Option<
    HitS,
>
    decreases MAX_STEPS - steps,
{
    let p = v3_add(origin, v3_scale(acc, direction));
    let d = m.sdist(p);
    if d < SURFACE_DIST {
        Option::Some(HitS { position: p, material: m.sinfo(p).material })
    } else {
        let acc2 = fadd(acc, d);
        if acc2 > MAX_DIST || steps + 1 > MAX_STEPS {
            Option::None
        } else {
            march(m, origin, direction, acc2, steps + 1)
        }
    }
}

/// Finite-difference surface normal at `p`: the normalized central-difference
/// gradient of the distance field at offset `SURFACE_DIST`.
pub open spec fn map_normal<M: SdfMap>(m: M, p: V3) -> V3 {
    let e = SURFACE_DIST as int;
    let gx = fsub(m.sdist(v3_add(p, v3(e, 0, 0))), m.sdist(v3_sub(p, v3(e, 0, 0))));
    let gy = fsub(m.sdist(v3_add(p, v3(0, e, 0))), m.sdist(v3_sub(p, v3(0, e, 0))));
    let gz = fsub(m.sdist(v3_add(p, v3(0, 0, e))), m.sdist(v3_sub(p, v3(0, 0, e))));
    v3_normalize(v3(gx, gy, gz))
}

/// A map: a distance field with per-region material attribution.
pub trait SdfMap: Copy + Sized {
    /// The map's constants and material colors are representable.
    spec fn mwf(&self) -> bool;

    /// Signed distance of the nearest region at `p`.
    spec fn sdist(&self, p: V3) -> int;

    /// Distance and material of the nearest region at `p`.
    spec fn sinfo(&self, p: V3) -> DistInfoS;

    /// The jointly derived distance never disagrees with the plain one.
    proof fn lemma_info_consistent(&self, p: V3)
        requires
            self.mwf(),
        ensures
            self.sinfo(p).distance == self.sdist(p),
            p.wf() ==> mat_wf(self.sinfo(p).material),
    ;

    fn dist(&self, p: Vec3) -> (d: i64)
        requires
            self.mwf(),
            p@.wf(),
        ensures
            d == self.sdist(p@),
            fx_ok(d as int),
    ;

    fn distinfo(&self, p: Vec3) -> (r: DistInfo)
        requires
            self.mwf(),
            p@.wf(),
        ensures
            r@ == self.sinfo(p@),
            fx_ok(r.distance as int),
            mat_wf(r.material@),
    ;

    /// The union of two maps: nearest region wins, both for distance and for
    /// material attribution.
    fn union<Other>(&self, other: Other) -> (r: Union<Self, Other>)
        ensures
            r == (Union { sdf1: *self, sdf2: other }),
    {
        Union { sdf1: *self, sdf2: other }
    }
}

/// Estimate the surface normal at `p` by central differences.
pub fn normal<M: SdfMap>(map: &M, p: Vec3) -> (n: Vec3)
    requires
        map.mwf(),
        p@.wf(),
    ensures
        n@ == map_normal(*map, p@),
        n@.wf(),
{
    let dx = Vec3 { x: SURFACE_DIST, y: 0, z: 0 };
    let dy = Vec3 { x: 0, y: SURFACE_DIST, z: 0 };
    let dz = Vec3 { x: 0, y: 0, z: SURFACE_DIST };
    let gx = fx_sub(map.dist(p.add(&dx)), map.dist(p.sub(&dx)));
    let gy = fx_sub(map.dist(p.add(&dy)), map.dist(p.sub(&dy)));
    let gz = fx_sub(map.dist(p.add(&dz)), map.dist(p.sub(&dz)));
    Vec3 { x: gx, y: gy, z: gz }.normalize()
}

/// Sphere-trace a ray: step by the local distance until within
/// `SURFACE_DIST` of a surface, or report a miss once the accumulated
/// distance exceeds `MAX_DIST` or the step budget runs out.
///
/// A reported hit is the queried point itself, so its distance really is
/// below the surface epsilon, and its material is the map's attribution at
/// exactly that point.
pub fn ray_intersection<M: SdfMap>(map: &M, origin: Vec3, direction: Vec3) -> (r: Option<HitInfo>)
    requires
        map.mwf(),
        origin@.wf(),
        direction@.wf(),
    ensures
        hit_view(r) == march(*map, origin@, direction@, 0, 0),
        r matches Option::Some(h) ==> h.position@.wf() && mat_wf(h.material@),
        r matches Option::Some(h) ==> map.sdist(h.position@) < SURFACE_DIST,
        r matches Option::Some(h) ==> h.material@ == map.sinfo(h.position@).material,
{
    let mut acc: i64 = 0;
    let mut steps: u32 = 0;
    loop
        invariant
            map.mwf(),
            origin@.wf(),
            direction@.wf(),
            fx_ok(acc as int),
            steps <= MAX_STEPS,
            march(*map, origin@, direction@, 0, 0) == march(
                *map,
                origin@,
                direction@,
                acc as int,
                steps as int,
            ),
        decreases MAX_STEPS - steps,
    {
        let position = origin.add(&direction.scale(acc));
        let d = map.dist(position);
        if d < SURFACE_DIST {
            let info = map.distinfo(position);
            return Option::Some(HitInfo { position, material: info.material });
        }
        acc = fx_add(acc, d);
        steps = steps + 1;
        if acc > MAX_DIST || steps > MAX_STEPS {
            return Option::None;
        }
    }
}

/// A shape tagged with one material: the leaf of a map.
#[derive(Clone, Copy, PartialEq, Eq, Debug)]
pub struct SdfObject<S: Sdf> {
    pub sdf: S,
    pub material: Material,
}

impl<S: Sdf> SdfMap for SdfObject<S> {
    open spec fn mwf(&self) -> bool {
        self.sdf.swf() && mat_wf(self.material@)
    }

    open spec fn sdist(&self, p: V3) -> int {
        self.sdf.sdist(p)
    }

    open spec fn sinfo(&self, p: V3) -> DistInfoS {
        DistInfoS { distance: self.sdf.sdist(p), material: self.material@ }
    }

    proof fn lemma_info_consistent(&self, p: V3) {
    }

    fn dist(&self, p: Vec3) -> (d: i64) {
        self.sdf.dist(p)
    }

    fn distinfo(&self, p: Vec3) -> (r: DistInfo) {
        DistInfo { distance: self.sdf.dist(p), material: self.material }
    }
}

impl<M1: SdfMap, M2: SdfMap> SdfMap for Union<M1, M2> {
    open spec fn mwf(&self) -> bool {
        self.sdf1.mwf() && self.sdf2.mwf()
    }

    open spec fn sdist(&self, p: V3) -> int {
        fmin(self.sdf1.sdist(p), self.sdf2.sdist(p))
    }

    open spec fn sinfo(&self, p: V3) -> DistInfoS {
        let i1 = self.sdf1.sinfo(p);
        let i2 = self.sdf2.sinfo(p);
        if i1.distance < i2.distance {
            i1
        } else {
            i2
        }
    }

    proof fn lemma_info_consistent(&self, p: V3) {
        self.sdf1.lemma_info_consistent(p);
        self.sdf2.lemma_info_consistent(p);
    }

    fn dist(&self, p: Vec3) -> (d: i64) {
        fx_min(self.sdf1.dist(p), self.sdf2.dist(p))
    }

    fn distinfo(&self, p: Vec3) -> (r: DistInfo) {
        let i1 = self.sdf1.distinfo(p);
        let i2 = self.sdf2.distinfo(p);
        if i1.distance < i2.distance {
            i1
        } else {
            i2
        }
    }
}

} // verus!
