//! The library's stated properties, proved once and for all.
//!
//! Each proof function here records a behavioural guarantee of the distance
//! algebra, the sphere tracer, the path integrator or the frame renderer,
//! over the same spec functions the executable contracts use.

use vstd::prelude::*;
use vstd::arithmetic::div_mod::{lemma_div_is_ordered, lemma_div_multiples_vanish};
use crate::fx::{
    fx_ok, fadd, fneg, fmin, fmax, fmul, isqrt, is_sqrt, lemma_isqrt_unique, FX_ONE, FX_MAX,
};
use crate::vec3::{V3, v3, v3_zero, v3_norm2, v3_len, v3_cmul};
use crate::sdf::{
    Sdf, SdfMap, Sphere, Union, Difference, SdfObject, MatS, HitS, march, SURFACE_DIST, MAX_DIST,
    MAX_STEPS,
};
use crate::renderer::{Background, pixel_at};
use crate::camera::CameraS;

verus! {

/// The integer square root of an exact square is exact.
pub proof fn lemma_isqrt_perfect(k: int)
    requires
        0 <= k,
    ensures
        isqrt(k * k) == k,
{
    assert(k * k < (k + 1) * (k + 1)) by (nonlinear_arith)
        requires
            0 <= k,
    ;
    assert(is_sqrt(k * k, k));
    lemma_isqrt_unique(k * k, k);
}

/// The length of a vector lying on an axis is its coordinate's magnitude.
pub proof fn lemma_axis_len(k: int)
    requires
        0 <= k <= FX_MAX,
    ensures
        v3_len(v3(0, 0, k)) == k,
        v3_len(v3(0, 0, -k)) == k,
        v3_len(v3(k, 0, 0)) == k,
{
    assert(v3_norm2(v3(0, 0, k)) == k * k);
    assert(v3_norm2(v3(0, 0, -k)) == k * k) by (nonlinear_arith);
    assert(v3_norm2(v3(k, 0, 0)) == k * k);
    lemma_isqrt_perfect(k);
}

/// Sign convention of the sphere's distance: at the center the distance is
/// minus the radius, on the surface it is zero, and at twice the radius from
/// the center it equals the radius.
pub proof fn lemma_sphere_sign_convention(s: Sphere, surface_p: V3, far_p: V3)
    requires
        0 <= s.radius,
        2 * s.radius <= FX_MAX,
        v3_norm2(surface_p) == s.radius * s.radius,
        v3_norm2(far_p) == (2 * s.radius) * (2 * s.radius),
    ensures
        s.sdist(v3_zero()) == -s.radius,
        s.sdist(surface_p) == 0,
        s.sdist(far_p) == s.radius,
{
    lemma_isqrt_perfect(0);
    assert(v3_norm2(v3_zero()) == 0);
    lemma_isqrt_perfect(s.radius as int);
    lemma_isqrt_perfect(2 * s.radius);
}

/// A union's distance is the pointwise minimum of its children's, and its
/// material attribution follows whichever child is nearer (the right child
/// on ties).
pub proof fn lemma_union_nearest_wins<M1: SdfMap, M2: SdfMap>(u: Union<M1, M2>, p: V3)
    requires
        u.mwf(),
    ensures
        u.sdist(p) == fmin(u.sdf1.sdist(p), u.sdf2.sdist(p)),
        u.sdist(p) <= u.sdf1.sdist(p),
        u.sdist(p) <= u.sdf2.sdist(p),
        u.sdf1.sdist(p) < u.sdf2.sdist(p) ==> u.sinfo(p) == u.sdf1.sinfo(p),
        u.sdf1.sdist(p) >= u.sdf2.sdist(p) ==> u.sinfo(p) == u.sdf2.sinfo(p),
        u.sinfo(p).distance == u.sdist(p),
{
    u.sdf1.lemma_info_consistent(p);
    u.sdf2.lemma_info_consistent(p);
    u.lemma_info_consistent(p);
}

/// A difference's distance is the maximum of the first child's distance and
/// the negation of the second's.
pub proof fn lemma_difference_distance<S1: Sdf, S2: Sdf>(d: Difference<S1, S2>, p: V3)
    ensures
        d.sdist(p) == fmax(d.sdf1.sdist(p), fneg(d.sdf2.sdist(p))),
        fx_ok(d.sdf2.sdist(p)) ==> d.sdist(p) == fmax(d.sdf1.sdist(p), -d.sdf2.sdist(p)),
{
}

/// Aimed at nothing, the tracer reports a miss: over a map that keeps every
/// point at least the surface epsilon away, sphere tracing never returns a
/// hit — the walk ends by exceeding the distance bound or the step budget.
pub proof fn lemma_ray_misses<M: SdfMap>(m: M, origin: V3, direction: V3, acc: int, steps: int)
    requires
        forall|p: V3| #[trigger] m.sdist(p) >= SURFACE_DIST,
    ensures
        march(m, origin, direction, acc, steps) is None,
    decreases MAX_STEPS - steps,
{
    let p = crate::vec3::v3_add(origin, crate::vec3::v3_scale(acc, direction));
    let d = m.sdist(p);
    let acc2 = fadd(acc, d);
    if acc2 > MAX_DIST || steps + 1 > MAX_STEPS {
    } else {
        lemma_ray_misses(m, origin, direction, acc2, steps + 1);
    }
}

/// A reported hit really lies on a surface: from any entry point of the
/// walk, a hit returned by the sphere-tracing recursion is the queried
/// point itself, so its distance is below the surface epsilon and its
/// material is the map's attribution at exactly that point.
pub proof fn lemma_hit_within_epsilon<M: SdfMap>(
    m: M,
    origin: V3,
    direction: V3,
    acc: int,
    steps: int,
)
    ensures
        march(m, origin, direction, acc, steps) matches Option::Some(h) ==> m.sdist(h.position)
            < SURFACE_DIST && h.material == m.sinfo(h.position).material,
    decreases MAX_STEPS - steps,
{
    let p = crate::vec3::v3_add(origin, crate::vec3::v3_scale(acc, direction));
    let d = m.sdist(p);
    if d >= SURFACE_DIST {
        let acc2 = fadd(acc, d);
        if acc2 > MAX_DIST || steps + 1 > MAX_STEPS {
        } else {
            lemma_hit_within_epsilon(m, origin, direction, acc2, steps + 1);
        }
    }
}

/// Scaling by exactly one or exactly zero is exact.
pub proof fn lemma_fmul_special(a: int)
    requires
        fx_ok(a),
    ensures
        fmul(a, FX_ONE as int) == a,
        fmul(FX_ONE as int, a) == a,
        fmul(a, 0) == 0,
        fmul(0, a) == 0,
{
    lemma_div_multiples_vanish(a, FX_ONE as int);
    assert(a * (FX_ONE as int) == (FX_ONE as int) * a) by (nonlinear_arith);
    vstd::arithmetic::div_mod::lemma_div_basics(FX_ONE as int);
}

/// Sphere-tracer convergence: a ray starting on the axis outside a sphere,
/// aimed straight at its center, hits the sphere exactly on its surface —
/// the hit position lies at distance `radius` from the center, which is
/// `o - radius` along the ray from its origin.
pub proof fn lemma_tracer_converges(obj: SdfObject<Sphere>, o: int)
    requires
        0 < obj.sdf.radius,
        obj.sdf.radius + SURFACE_DIST <= o <= FX_MAX,
        o - obj.sdf.radius <= MAX_DIST,
    ensures
        march(obj, v3(0, 0, -o), v3(0, 0, FX_ONE as int), 0, 0) == Option::Some(
            HitS { position: v3(0, 0, -(obj.sdf.radius as int)), material: obj.material@ },
        ),
        v3_len(crate::vec3::v3_sub(v3(0, 0, -(obj.sdf.radius as int)), v3(0, 0, -o))) == o
            - obj.sdf.radius,
{
    let r = obj.sdf.radius as int;
    let origin = v3(0, 0, -o);
    let dir = v3(0, 0, FX_ONE as int);
    let acc1 = o - r;
    lemma_fmul_special(0);
    lemma_fmul_special(acc1);
    lemma_axis_len(o);
    lemma_axis_len(r);
    lemma_axis_len(acc1);
    assert(crate::vec3::v3_sub(v3(0, 0, -r), v3(0, 0, -o)) == v3(0, 0, acc1));
    assert(crate::vec3::v3_add(origin, crate::vec3::v3_scale(0, dir)) == origin);
    assert(obj.sdist(origin) == acc1);
    assert(crate::vec3::v3_add(origin, crate::vec3::v3_scale(acc1, dir)) == v3(0, 0, -r));
    assert(obj.sdist(v3(0, 0, -r)) == 0);
    assert(march(obj, origin, dir, 0, 0) == march(obj, origin, dir, acc1, 1));
    assert(march(obj, origin, dir, acc1, 1) == Option::Some(
        HitS { position: v3(0, 0, -r), material: obj.material@ },
    ));
}

/// Multiplying by a factor of at most one cannot increase a non-negative
/// fixed-point value, and keeps it non-negative.
pub proof fn lemma_fmul_unit(a: int, b: int)
    requires
        0 <= a <= FX_ONE,
        0 <= b <= FX_MAX,
    ensures
        0 <= fmul(a, b) <= b,
{
    assert(0 <= a * b && a * b <= (FX_ONE as int) * b) by (nonlinear_arith)
        requires
            0 <= a <= FX_ONE,
            0 <= b,
    ;
    lemma_div_is_ordered(0, a * b, FX_ONE as int);
    lemma_div_is_ordered(a * b, (FX_ONE as int) * b, FX_ONE as int);
    lemma_div_multiples_vanish(b, FX_ONE as int);
}

/// Energy non-increase: each Lambertian bounce scales the path throughput
/// by the albedo, and when every albedo component is at most one, no
/// throughput component ever increases (nor drops below zero). This is the
/// per-bounce step of the path integrator's throughput update.
pub proof fn lemma_throughput_non_increase(albedo: V3, throughput: V3)
    requires
        0 <= albedo.x <= FX_ONE,
        0 <= albedo.y <= FX_ONE,
        0 <= albedo.z <= FX_ONE,
        0 <= throughput.x <= FX_MAX,
        0 <= throughput.y <= FX_MAX,
        0 <= throughput.z <= FX_MAX,
    ensures
        0 <= v3_cmul(albedo, throughput).x <= throughput.x,
        0 <= v3_cmul(albedo, throughput).y <= throughput.y,
        0 <= v3_cmul(albedo, throughput).z <= throughput.z,
{
    lemma_fmul_unit(albedo.x, throughput.x);
    lemma_fmul_unit(albedo.y, throughput.y);
    lemma_fmul_unit(albedo.z, throughput.z);
}

/// An albedo whose components lie in `[0, 1]`.
pub open spec fn albedo_ok(a: V3) -> bool {
    0 <= a.x <= FX_ONE && 0 <= a.y <= FX_ONE && 0 <= a.z <= FX_ONE
}

/// Componentwise comparison of vectors.
pub open spec fn v3_le(a: V3, b: V3) -> bool {
    a.x <= b.x && a.y <= b.y && a.z <= b.z
}

/// The path throughput after `k` Lambertian bounces: the initial throughput
/// of one, filtered through the first `k` albedos met along the path — the
/// same update the path integrator applies at each bounce.
pub open spec fn path_throughput(albedos: Seq<V3>, k: int) -> V3
    decreases k,
{
    if k <= 0 {
        v3(FX_ONE as int, FX_ONE as int, FX_ONE as int)
    } else {
        v3_cmul(albedos[k - 1], path_throughput(albedos, k - 1))
    }
}

/// Energy non-increase along a whole path: through Lambertian surfaces
/// whose albedo components are at most one, the accumulated throughput is
/// componentwise non-increasing from bounce to bounce, and never negative.
pub proof fn lemma_path_energy_non_increase(albedos: Seq<V3>, k: int)
    requires
        0 <= k <= albedos.len(),
        forall|i: int| 0 <= i < albedos.len() ==> albedo_ok(#[trigger] albedos[i]),
    ensures
        v3_le(v3_zero(), path_throughput(albedos, k)),
        v3_le(path_throughput(albedos, k), v3(FX_MAX as int, FX_MAX as int, FX_MAX as int)),
        k >= 1 ==> v3_le(path_throughput(albedos, k), path_throughput(albedos, k - 1)),
    decreases k,
{
    if k > 0 {
        lemma_path_energy_non_increase(albedos, k - 1);
        let prev = path_throughput(albedos, k - 1);
        lemma_fmul_unit(albedos[k - 1].x, prev.x);
        lemma_fmul_unit(albedos[k - 1].y, prev.y);
        lemma_fmul_unit(albedos[k - 1].z, prev.z);
    }
}

/// Rendering is idempotent: two pixel grids drawn from the same scene,
/// size, sample count and seed — that is, two grids meeting the renderer's
/// postcondition — are identical, pixel for pixel.
pub proof fn lemma_render_idempotent<M: SdfMap, B: Background>(
    m: M,
    bg: B,
    cam: CameraS,
    w: int,
    h: int,
    samples: int,
    seed: u64,
    g1: Seq<Seq<V3>>,
    g2: Seq<Seq<V3>>,
)
    requires
        g1.len() == h,
        g2.len() == h,
        forall|i: int| 0 <= i < h ==> (#[trigger] g1[i]).len() == w,
        forall|i: int| 0 <= i < h ==> (#[trigger] g2[i]).len() == w,
        forall|i: int, j: int|
            0 <= i < h && 0 <= j < w ==> #[trigger] g1[i][j] == pixel_at(
                m,
                bg,
                cam,
                w,
                h,
                samples,
                i,
                j,
                seed,
            ),
        forall|i: int, j: int|
            0 <= i < h && 0 <= j < w ==> #[trigger] g2[i][j] == pixel_at(
                m,
                bg,
                cam,
                w,
                h,
                samples,
                i,
                j,
                seed,
            ),
    ensures
        g1 == g2,
{
    assert forall|i: int| 0 <= i < h implies g1[i] =~= g2[i] by {
        assert(forall|j: int| 0 <= j < w ==> g1[i][j] == g2[i][j]);
    }
    assert(g1 =~~= g2);
}

} // verus!
