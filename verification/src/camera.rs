//! Pinhole / thin-lens camera.
//!
//! Maps normalized image-plane coordinates (`x` across the width in
//! `[-0.5, 0.5]`, `y` across the height over the aspect ratio) to a world
//! ray. With a non-zero aperture the origin is jittered over a disk of
//! diameter `aperture` and the direction bent to keep the focus-plane point
//! fixed, giving depth of field.

use vstd::prelude::*;
use crate::fx::{fx_ok, fmul, fdiv, FX_HALF, fx_mul, fx_div};
use crate::vec3::{V3, v3_add, v3_sub, v3_scale, v3_normalize, v3_cross, Vec3};
use crate::rng::Rng;
use crate::sampling::{disk_from, uniform_disk, DISK_TRIES};

verus! {

/// A ray: where it starts and which way it goes.
#[derive(Clone, Copy, PartialEq, Eq, Structural, Debug)]
pub struct Ray {
    pub origin: Vec3,
    pub direction: Vec3,
}

/// Spec-level ray.
pub struct RayS {
    pub origin: V3,
    pub direction: V3,
}

impl View for Ray {
    type V = RayS;

    open spec fn view(&self) -> RayS {
        RayS { origin: self.origin@, direction: self.direction@ }
    }
}

/// Spec-level camera frame.
pub struct CameraS {
    pub position: V3,
    pub left: V3,
    pub forward: V3,
    pub up: V3,
    pub focal_length: int,
    pub aspect_ratio: int,
    pub focus_dist: int,
    pub aperture: int,
}

impl CameraS {
    pub open spec fn wf(self) -> bool {
        self.position.wf() && self.left.wf() && self.forward.wf() && self.up.wf() && fx_ok(
            self.focal_length,
        ) && fx_ok(self.aspect_ratio) && fx_ok(self.focus_dist) && fx_ok(self.aperture)
    }
}

/// The orthonormal-ish frame built from a position, a target and an up hint.
pub open spec fn camera_frame(
    position: V3,
    look_at: V3,
    up: V3,
    focal_length: int,
    aspect_ratio: int,
    focus_dist: int,
    aperture: int,
) -> CameraS {
    let forward = v3_normalize(v3_sub(look_at, position));
    let left = v3_normalize(v3_cross(forward, up));
    CameraS {
        position: position,
        left: left,
        forward: forward,
        up: v3_cross(left, forward),
        focal_length: focal_length,
        aspect_ratio: aspect_ratio,
        focus_dist: focus_dist,
        aperture: aperture,
    }
}

/// The ray for image-plane point `(x, y)` from state `s`, and the state the
/// lens jitter leaves behind.
pub open spec fn camera_ray(c: CameraS, x: int, y: int, s: u64) -> (RayS, u64) {
    let d = disk_from(s, DISK_TRIES as int);
    let offset = v3_scale(
        fmul(FX_HALF as int, c.aperture),
        v3_add(v3_scale(d.0, c.left), v3_scale(d.1, c.up)),
    );
    let origin = v3_add(c.position, offset);
    let target = v3_add(
        v3_add(
            v3_scale(fdiv(x, c.focal_length), c.left),
            v3_scale(fdiv(y, fmul(c.focal_length, c.aspect_ratio)), c.up),
        ),
        c.forward,
    );
    let direction = v3_normalize(v3_sub(v3_scale(c.focus_dist, target), offset));
    (RayS { origin: origin, direction: direction }, d.2)
}

/// Camera frame and lens parameters, fixed for a whole render.
#[derive(Clone, Copy, PartialEq, Eq, Structural, Debug)]
pub struct Camera {
    pub position: Vec3,
    pub left: Vec3,
    pub forward: Vec3,
    pub up: Vec3,
    pub focal_length: i64,
    pub aspect_ratio: i64,
    pub focus_dist: i64,
    pub aperture: i64,
}

impl View for Camera {
    type V = CameraS;

    open spec fn view(&self) -> CameraS {
        CameraS {
            position: self.position@,
            left: self.left@,
            forward: self.forward@,
            up: self.up@,
            focal_length: self.focal_length as int,
            aspect_ratio: self.aspect_ratio as int,
            focus_dist: self.focus_dist as int,
            aperture: self.aperture as int,
        }
    }
}

impl Camera {
    /// Build a camera at `position` looking at `look_at`, with `up` as the
    /// up hint. `focal_length` is the image-plane distance for the desired
    /// field of view (half the plane width over the tangent of half the
    /// horizontal view angle).
    pub fn new(
        position: Vec3,
        look_at: Vec3,
        up: Vec3,
        focal_length: i64,
        aspect_ratio: i64,
        focus_dist: i64,
        aperture: i64,
    ) -> (r: Camera)
        requires
            position@.wf(),
            look_at@.wf(),
            up@.wf(),
            fx_ok(focal_length as int),
            fx_ok(aspect_ratio as int),
            fx_ok(focus_dist as int),
            fx_ok(aperture as int),
        ensures
            r@ == camera_frame(
                position@,
                look_at@,
                up@,
                focal_length as int,
                aspect_ratio as int,
                focus_dist as int,
                aperture as int,
            ),
            r@.wf(),
    {
        let forward = look_at.sub(&position).normalize();
        let left = forward.cross(&up).normalize();
        let top = left.cross(&forward);
        Camera {
            position,
            left,
            forward,
            up: top,
            focal_length,
            aspect_ratio,
            focus_dist,
            aperture,
        }
    }

    /// The ray through image-plane point `(x, y)`, with lens jitter drawn
    /// from `rng`.
    pub fn get_ray(&self, x: i64, y: i64, rng: &mut Rng) -> (r: Ray)
        requires
            self@.wf(),
            fx_ok(x as int),
            fx_ok(y as int),
        ensures
            r@ == camera_ray(self@, x as int, y as int, old(rng).state).0,
            final(rng).state == camera_ray(self@, x as int, y as int, old(rng).state).1,
            r.origin@.wf(),
            r.direction@.wf(),
    {
        let (dx, dy) = uniform_disk(rng);
        let k = fx_mul(FX_HALF, self.aperture);
        let offset = self.left.scale(dx).add(&self.up.scale(dy)).scale(k);
        let origin = self.position.add(&offset);
        let lx = self.left.scale(fx_div(x, self.focal_length));
        let ly = self.up.scale(fx_div(y, fx_mul(self.focal_length, self.aspect_ratio)));
        let target = lx.add(&ly).add(&self.forward);
        let direction = target.scale(self.focus_dist).sub(&offset).normalize();
        Ray { origin, direction }
    }
}

} // verus!
