//! Stochastic direction sampling.
//!
//! Rejection sampling over the unit disk and ball, and cosine-weighted
//! hemisphere sampling about a surface normal. Rejection is bounded: after
//! `DISK_TRIES` failed draws the sampler falls back to the disk center, so
//! every sampler is total and mirrors a spec-level function exactly.

use vstd::prelude::*;
use crate::fx::{fadd, fsub, fneg, fmul, fsqrt, FX_ONE, fx_add, fx_mul, fx_sub, fx_sqrt};
use crate::vec3::{
    V3, v3, v3_add, v3_scale, v3_cross, v3_normalize, v3_zero, Vec3,
};
use crate::rng::{Rng, rng_step, unit_of};

verus! {

/// Bound on rejection-sampling attempts; the chance of exhausting it is
/// astronomically small, and the fallback keeps the sampler total.
pub const DISK_TRIES: u32 = 64;

/// Rejection sampling of a point of the closed unit disk, with the states it
/// consumes; `(0, 0)` once the attempt budget runs out.
pub open spec fn disk_from(s: u64, tries: int) -> (int, int, u64)
    decreases tries,
{
    if tries <= 0 {
        (0, 0, s)
    } else {
        let x = 2 * unit_of(s) - FX_ONE;
        let s1 = rng_step(s);
        let y = 2 * unit_of(s1) - FX_ONE;
        let s2 = rng_step(s1);
        if fadd(fmul(x, x), fmul(y, y)) <= FX_ONE {
            (x, y, s2)
        } else {
            disk_from(s2, tries - 1)
        }
    }
}

/// Uniform draw from the unit disk (area-uniform, by rejection).
pub fn uniform_disk(rng: &mut Rng) -> (r: (i64, i64))
    ensures
        r.0 == disk_from(old(rng).state, DISK_TRIES as int).0,
        r.1 == disk_from(old(rng).state, DISK_TRIES as int).1,
        final(rng).state == disk_from(old(rng).state, DISK_TRIES as int).2,
        -FX_ONE <= r.0 < FX_ONE,
        -FX_ONE <= r.1 < FX_ONE,
        fadd(fmul(r.0 as int, r.0 as int), fmul(r.1 as int, r.1 as int)) <= FX_ONE,
{
    let mut i: u32 = 0;
    while i < DISK_TRIES
        invariant
            i <= DISK_TRIES,
            disk_from(old(rng).state, DISK_TRIES as int) == disk_from(
                rng.state,
                (DISK_TRIES - i) as int,
            ),
        decreases DISK_TRIES - i,
    {
        let u1 = rng.next_unit();
        let x: i64 = 2 * u1 - FX_ONE;
        let u2 = rng.next_unit();
        let y: i64 = 2 * u2 - FX_ONE;
        if fx_add(fx_mul(x, x), fx_mul(y, y)) <= FX_ONE {
            return (x, y);
        }
        i = i + 1;
    }
    (0, 0)
}

/// Rejection sampling of a point of the closed unit ball, with the state it
/// leaves behind; the origin once the attempt budget runs out.
pub open spec fn ball_from(s: u64, tries: int) -> (V3, u64)
    decreases tries,
{
    if tries <= 0 {
        (v3_zero(), s)
    } else {
        let x = 2 * unit_of(s) - FX_ONE;
        let s1 = rng_step(s);
        let y = 2 * unit_of(s1) - FX_ONE;
        let s2 = rng_step(s1);
        let z = 2 * unit_of(s2) - FX_ONE;
        let s3 = rng_step(s2);
        if fadd(fadd(fmul(x, x), fmul(y, y)), fmul(z, z)) <= FX_ONE {
            (v3(x, y, z), s3)
        } else {
            ball_from(s3, tries - 1)
        }
    }
}

/// Uniform draw from the unit ball (volume-uniform, by rejection).
pub fn uniform_ball(rng: &mut Rng) -> (r: Vec3)
    ensures
        r@ == ball_from(old(rng).state, DISK_TRIES as int).0,
        final(rng).state == ball_from(old(rng).state, DISK_TRIES as int).1,
        r@.wf(),
        fadd(fadd(fmul(r@.x, r@.x), fmul(r@.y, r@.y)), fmul(r@.z, r@.z)) <= FX_ONE,
{
    let mut i: u32 = 0;
    while i < DISK_TRIES
        invariant
            i <= DISK_TRIES,
            ball_from(old(rng).state, DISK_TRIES as int) == ball_from(
                rng.state,
                (DISK_TRIES - i) as int,
            ),
        decreases DISK_TRIES - i,
    {
        let u1 = rng.next_unit();
        let x: i64 = 2 * u1 - FX_ONE;
        let u2 = rng.next_unit();
        let y: i64 = 2 * u2 - FX_ONE;
        let u3 = rng.next_unit();
        let z: i64 = 2 * u3 - FX_ONE;
        if fx_add(fx_add(fx_mul(x, x), fx_mul(y, y)), fx_mul(z, z)) <= FX_ONE {
            return Vec3 { x, y, z };
        }
        i = i + 1;
    }
    Vec3 { x: 0, y: 0, z: 0 }
}

/// Cosine-weighted hemisphere direction about `n`, with the state it leaves.
pub open spec fn hemisphere_from(n: V3, s: u64) -> (V3, u64) {
    let d = disk_from(s, DISK_TRIES as int);
    let x = d.0;
    let y = d.1;
    let z = fsqrt(fsub(FX_ONE as int, fadd(fmul(x, x), fmul(y, y))));
    let e1 = if n.x != 0 {
        v3_normalize(v3(n.y, fneg(n.x), 0))
    } else {
        v3_normalize(v3(0, fneg(n.z), n.y))
    };
    let e2 = v3_cross(e1, n);
    (v3_add(v3_add(v3_scale(x, e1), v3_scale(y, e2)), v3_scale(z, n)), d.2)
}

/// Sample a scattering direction with density proportional to the cosine of
/// the angle to `normal`, importance-sampling the diffuse reflector.
pub fn cos_weighted_hemisphere(normal: &Vec3, rng: &mut Rng) -> (r: Vec3)
    requires
        normal@.wf(),
    ensures
        r@ == hemisphere_from(normal@, old(rng).state).0,
        final(rng).state == hemisphere_from(normal@, old(rng).state).1,
        r@.wf(),
{
    let (x, y) = uniform_disk(rng);
    let z = fx_sqrt(fx_sub(FX_ONE, fx_add(fx_mul(x, x), fx_mul(y, y))));
    let e1 = if normal.x != 0 {
        Vec3 { x: normal.y, y: -normal.x, z: 0 }.normalize()
    } else {
        Vec3 { x: 0, y: -normal.z, z: normal.y }.normalize()
    };
    let e2 = e1.cross(normal);
    let sx = e1.scale(x);
    let sy = e2.scale(y);
    let sz = normal.scale(z);
    sx.add(&sy).add(&sz)
}

} // verus!
