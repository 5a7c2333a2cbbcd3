//! Path integrator and frame renderer.
//!
//! Per ray: intersect, absorb or emit, scatter into a cosine-weighted
//! hemisphere direction, repeat up to `MAX_BOUNCES`; rays that survive the
//! bounce budget return black (a hard cutoff rather than Russian roulette).
//! Per pixel: average `sample_count` jittered rays. Rows are independent —
//! each owns a generator seeded from the global seed and its row index — so
//! a frame is a pure function of scene, size and seed, and rows can be drawn
//! in any order or in parallel.

use vstd::prelude::*;
use crate::fx::{fadd, fsub, fdiv, FX_ONE, FX_HALF, fx_add, fx_sub, fx_div};
use crate::vec3::{V3, v3, v3_zero, v3_add, v3_scale, v3_cmul, v3_div_int, Vec3};
use crate::rng::{Rng, rng_step, rng_init, unit_of};
use crate::sampling::hemisphere_from;
use crate::sampling::cos_weighted_hemisphere;
use crate::sdf::{
    SdfMap, Material, MatS, march, map_normal, normal, ray_intersection, SURFACE_DIST,
};
use crate::camera::{Camera, CameraS, Ray, camera_ray};

verus! {

/// Bounce budget per path; paths that exhaust it return black.
pub const MAX_BOUNCES: u32 = 5;

/// What a ray that escapes the scene sees, as a function of its direction.
pub trait Background: Copy + Sized {
    /// The background's colors are representable.
    spec fn bwf(&self) -> bool;

    /// Color seen by an escaped ray heading in `direction`.
    spec fn scolor(&self, direction: V3) -> V3;

    fn color(&self, direction: Vec3) -> (c: Vec3)
        requires
            self.bwf(),
            direction@.wf(),
        ensures
            c@ == self.scolor(direction@),
            c@.wf(),
    ;
}

/// A background of one constant color.
#[derive(Clone, Copy, PartialEq, Eq, Structural, Debug)]
pub struct UniformBackground {
    pub shade: Vec3,
}

impl Background for UniformBackground {
    open spec fn bwf(&self) -> bool {
        self.shade@.wf()
    }

    open spec fn scolor(&self, direction: V3) -> V3 {
        self.shade@
    }

    fn color(&self, direction: Vec3) -> (c: Vec3) {
        self.shade
    }
}

/// A sky with a bright directional patch: directions whose alignment with
/// `axis` exceeds `threshold` see `sun`, all others see `sky`.
#[derive(Clone, Copy, PartialEq, Eq, Structural, Debug)]
pub struct SunSkyBackground {
    pub axis: Vec3,
    pub threshold: i64,
    pub sun: Vec3,
    pub sky: Vec3,
}

impl Background for SunSkyBackground {
    open spec fn bwf(&self) -> bool {
        self.axis@.wf() && self.sun@.wf() && self.sky@.wf()
    }

    open spec fn scolor(&self, direction: V3) -> V3 {
        if crate::vec3::v3_dot(direction, self.axis@) > self.threshold as int {
            self.sun@
        } else {
            self.sky@
        }
    }

    fn color(&self, direction: Vec3) -> (c: Vec3) {
        if direction.dot(&self.axis) > self.threshold {
            self.sun
        } else {
            self.sky
        }
    }
}

/// A renderable scene: camera, map, and what escaped rays see.
#[derive(Clone, Copy)]
pub struct Scene<M: SdfMap, B: Background> {
    pub camera: Camera,
    pub map: M,
    pub background_color: B,
}

impl<M: SdfMap, B: Background> Scene<M, B> {
    pub open spec fn wf(&self) -> bool {
        self.camera@.wf() && self.map.mwf() && self.background_color.bwf()
    }
}

/// The radiance estimate carried home by one path, and the generator state
/// it leaves behind: from a ray with accumulated throughput `acc` after
/// `bounces` bounces, follow intersections until an emitter, a miss, or the
/// bounce budget; emitters and the background are weighted by the
/// throughput, and an exhausted budget yields black.
pub open spec fn radiance<M: SdfMap, B: Background>(
    m: M,
    bg: B,
    origin: V3,
    direction: V3,
    acc: V3,
    bounces: int,
    s: u64,
) -> (V3, u64)
    decreases MAX_BOUNCES + 1 - bounces,
{
    if bounces >= MAX_BOUNCES {
        (v3_zero(), s)
    } else {
        match march(m, origin, direction, 0, 0) {
            Option::Some(hit) => match hit.material {
                MatS::Lambertian(c) => {
                    let acc2 = v3_cmul(c, acc);
                    let n = map_normal(m, hit.position);
                    let o2 = v3_add(hit.position, v3_scale(2 * SURFACE_DIST, n));
                    let h = hemisphere_from(n, s);
                    radiance(m, bg, o2, h.0, acc2, bounces + 1, h.1)
                },
                MatS::Emissive(c) => (v3_cmul(c, acc), s),
            },
            Option::None => (v3_cmul(bg.scolor(direction), acc), s),
        }
    }
}

/// Estimate the radiance arriving along one camera ray.
pub fn cast_ray<M: SdfMap, B: Background>(
    scene: &Scene<M, B>,
    origin: Vec3,
    direction: Vec3,
    rng: &mut Rng,
) -> (c: Vec3)
    requires
        scene.wf(),
        origin@.wf(),
        direction@.wf(),
    ensures
        c@ == radiance(
            scene.map,
            scene.background_color,
            origin@,
            direction@,
            v3(FX_ONE as int, FX_ONE as int, FX_ONE as int),
            0,
            old(rng).state,
        ).0,
        final(rng).state == radiance(
            scene.map,
            scene.background_color,
            origin@,
            direction@,
            v3(FX_ONE as int, FX_ONE as int, FX_ONE as int),
            0,
            old(rng).state,
        ).1,
        c@.wf(),
{
    let mut o = origin;
    let mut d = direction;
    let mut acc = Vec3::splat(FX_ONE);
    let mut bounces: u32 = 0;
    loop
        invariant
            scene.wf(),
            o@.wf(),
            d@.wf(),
            acc@.wf(),
            bounces <= MAX_BOUNCES + 1,
            radiance(
                scene.map,
                scene.background_color,
                origin@,
                direction@,
                v3(FX_ONE as int, FX_ONE as int, FX_ONE as int),
                0,
                old(rng).state,
            ) == radiance(
                scene.map,
                scene.background_color,
                o@,
                d@,
                acc@,
                bounces as int,
                rng.state,
            ),
        decreases MAX_BOUNCES + 2 - bounces,
    {
        if bounces >= MAX_BOUNCES {
            return Vec3::zero();
        }
        match ray_intersection(&scene.map, o, d) {
            Option::Some(hit) => match hit.material {
                Material::Lambertian(color) => {
                    acc = color.cmul(&acc);
                    let n = normal(&scene.map, hit.position);
                    o = hit.position.add(&n.scale(2 * SURFACE_DIST));
                    d = cos_weighted_hemisphere(&n, rng);
                },
                Material::Emissive(color) => {
                    return color.cmul(&acc);
                },
            },
            Option::None => {
                let b = scene.background_color.color(d);
                return b.cmul(&acc);
            },
        }
        bounces = bounces + 1;
    }
}

/// Generator state a row starts from: the global seed mixed with the row
/// index, so rows are independent and the whole frame is reproducible.
pub open spec fn row_seed(seed: u64, i: int) -> u64 {
    rng_init(seed ^ (i as u64))
}

/// Accumulate the remaining jittered samples of pixel `(i, j)` onto `acc`,
/// threading the generator state; yields the sample sum and the final state.
pub open spec fn sample_loop<M: SdfMap, B: Background>(
    m: M,
    bg: B,
    cam: CameraS,
    w: int,
    h: int,
    i: int,
    j: int,
    acc: V3,
    s: u64,
    remaining: int,
) -> (V3, u64)
    decreases remaining,
{
    if remaining <= 0 {
        (acc, s)
    } else {
        let u1 = unit_of(s);
        let s1 = rng_step(s);
        let u2 = unit_of(s1);
        let s2 = rng_step(s1);
        let x = fadd(
            -(FX_HALF as int),
            fdiv(fsub(fadd(j * (FX_ONE as int), u1), FX_HALF as int), (w - 1) * (FX_ONE as int)),
        );
        let y = fsub(
            FX_HALF as int,
            fdiv(fsub(fadd(i * (FX_ONE as int), u2), FX_HALF as int), (h - 1) * (FX_ONE as int)),
        );
        let rs = camera_ray(cam, x, y, s2);
        let cr = radiance(
            m,
            bg,
            rs.0.origin,
            rs.0.direction,
            v3(FX_ONE as int, FX_ONE as int, FX_ONE as int),
            0,
            rs.1,
        );
        sample_loop(m, bg, cam, w, h, i, j, v3_add(acc, cr.0), cr.1, remaining - 1)
    }
}

/// One finished pixel: the mean of its samples, and the state left behind.
pub open spec fn pixel_done<M: SdfMap, B: Background>(
    m: M,
    bg: B,
    cam: CameraS,
    w: int,
    h: int,
    samples: int,
    i: int,
    j: int,
    s: u64,
) -> (V3, u64) {
    let r = sample_loop(m, bg, cam, w, h, i, j, v3_zero(), s, samples);
    (v3_div_int(r.0, samples), r.1)
}

/// Generator state just before pixel `(i, j)` of its row.
pub open spec fn rng_before<M: SdfMap, B: Background>(
    m: M,
    bg: B,
    cam: CameraS,
    w: int,
    h: int,
    samples: int,
    i: int,
    j: int,
    seed: u64,
) -> u64
    decreases j,
{
    if j <= 0 {
        row_seed(seed, i)
    } else {
        pixel_done(m, bg, cam, w, h, samples, i, j - 1, rng_before(
            m,
            bg,
            cam,
            w,
            h,
            samples,
            i,
            j - 1,
            seed,
        )).1
    }
}

/// The color of pixel `(i, j)` of a frame drawn with the given seed.
pub open spec fn pixel_at<M: SdfMap, B: Background>(
    m: M,
    bg: B,
    cam: CameraS,
    w: int,
    h: int,
    samples: int,
    i: int,
    j: int,
    seed: u64,
) -> V3 {
    pixel_done(m, bg, cam, w, h, samples, i, j, rng_before(m, bg, cam, w, h, samples, i, j, seed)).0
}

/// Draw one row of the frame. Rows are the parallel unit of work: each owns
/// its generator, reads the scene immutably, and writes only its own pixels,
/// so a driver may draw rows in any order or concurrently.
#[verifier::loop_isolation(false)]
pub fn render_row<M: SdfMap, B: Background>(
    scene: &Scene<M, B>,
    width: usize,
    height: usize,
    sample_count: usize,
    i: usize,
    seed: u64,
) -> (row: Vec<Vec3>)
    requires
        scene.wf(),
        1 <= width <= 0x7fff_ffff,
        1 <= height <= 0x7fff_ffff,
        i < height,
        1 <= sample_count <= 0x7fff_ffff,
    ensures
        row@.len() == width,
        forall|j: int|
            0 <= j < width ==> (#[trigger] row@[j])@ == pixel_at(
                scene.map,
                scene.background_color,
                scene.camera@,
                width as int,
                height as int,
                sample_count as int,
                i as int,
                j,
                seed,
            ),
        forall|j: int| 0 <= j < width ==> (#[trigger] row@[j])@.wf(),
{
    let ghost m = scene.map;
    let ghost bg = scene.background_color;
    let ghost cam = scene.camera@;
    let ghost w = width as int;
    let ghost h = height as int;
    let ghost sc = sample_count as int;
    let mut rng = Rng::new(seed ^ (i as u64));
    let wm1: i64 = ((width - 1) as i64) * FX_ONE;
    let hm1: i64 = ((height - 1) as i64) * FX_ONE;
    let ifx: i64 = (i as i64) * FX_ONE;
    let mut row: Vec<Vec3> = Vec::new();
    let mut j: usize = 0;
    while j < width
        invariant
            j <= width,
            row@.len() == j,
            rng.state == rng_before(m, bg, cam, w, h, sc, i as int, j as int, seed),
            forall|jj: int|
                0 <= jj < j ==> (#[trigger] row@[jj])@ == pixel_at(
                    m,
                    bg,
                    cam,
                    w,
                    h,
                    sc,
                    i as int,
                    jj,
                    seed,
                ),
            forall|jj: int| 0 <= jj < j ==> (#[trigger] row@[jj])@.wf(),
        decreases width - j,
    {
        let jfx: i64 = (j as i64) * FX_ONE;
        let ghost s_px = rng.state;
        let mut sum = Vec3::zero();
        let mut k: usize = 0;
        while k < sample_count
            invariant
                k <= sample_count,
                sum@.wf(),
                sample_loop(m, bg, cam, w, h, i as int, j as int, v3_zero(), s_px, sc)
                    == sample_loop(
                    m,
                    bg,
                    cam,
                    w,
                    h,
                    i as int,
                    j as int,
                    sum@,
                    rng.state,
                    sc - k,
                ),
            decreases sample_count - k,
        {
            let u1 = rng.next_unit();
            let u2 = rng.next_unit();
            let x = fx_add(-FX_HALF, fx_div(fx_sub(fx_add(jfx, u1), FX_HALF), wm1));
            let y = fx_sub(FX_HALF, fx_div(fx_sub(fx_add(ifx, u2), FX_HALF), hm1));
            let ray = scene.camera.get_ray(x, y, &mut rng);
            let c = cast_ray(scene, ray.origin, ray.direction, &mut rng);
            sum = sum.add(&c);
            k = k + 1;
        }
        row.push(sum.div_int(sample_count as i64));
        j = j + 1;
    }
    row
}

/// Draw a whole frame: `height` rows of `width` pixels, each the mean of
/// `sample_count` jittered path samples, reproducibly from `seed`.
pub fn render<M: SdfMap, B: Background>(
    width: usize,
    height: usize,
    sample_count: usize,
    scene: &Scene<M, B>,
    seed: u64,
) -> (grid: Vec<Vec<Vec3>>)
    requires
        scene.wf(),
        1 <= width <= 0x7fff_ffff,
        1 <= height <= 0x7fff_ffff,
        1 <= sample_count <= 0x7fff_ffff,
    ensures
        grid@.len() == height,
        forall|i: int| 0 <= i < height ==> (#[trigger] grid@[i])@.len() == width,
        forall|i: int, j: int|
            0 <= i < height && 0 <= j < width ==> (#[trigger] grid@[i]@[j])@ == pixel_at(
                scene.map,
                scene.background_color,
                scene.camera@,
                width as int,
                height as int,
                sample_count as int,
                i,
                j,
                seed,
            ),
        forall|i: int, j: int|
            0 <= i < height && 0 <= j < width ==> (#[trigger] grid@[i]@[j])@.wf(),
{
    let ghost m = scene.map;
    let ghost bg = scene.background_color;
    let ghost cam = scene.camera@;
    let ghost w = width as int;
    let ghost h = height as int;
    let ghost sc = sample_count as int;
    let mut grid: Vec<Vec<Vec3>> = Vec::new();
    let mut i: usize = 0;
    #[verifier::loop_isolation(false)]
    while i < height
        invariant
            i <= height,
            grid@.len() == i,
            forall|ii: int| 0 <= ii < i ==> (#[trigger] grid@[ii])@.len() == width,
            forall|ii: int, jj: int|
                0 <= ii < i && 0 <= jj < width ==> (#[trigger] grid@[ii]@[jj])@ == pixel_at(
                    m,
                    bg,
                    cam,
                    w,
                    h,
                    sc,
                    ii,
                    jj,
                    seed,
                ),
            forall|ii: int, jj: int|
                0 <= ii < i && 0 <= jj < width ==> (#[trigger] grid@[ii]@[jj])@.wf(),
        decreases height - i,
    {
        let row = render_row(scene, width, height, sample_count, i, seed);
        grid.push(row);
        i = i + 1;
    }
    grid
}

} // verus!
