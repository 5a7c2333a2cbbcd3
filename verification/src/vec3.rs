//! Three-component fixed-point vectors.
//!
//! `Vec3` is the executable type; `V3` is its spec-level image, over which all
//! contracts are stated. Points, directions and linear-light RGB colors are
//! all `Vec3` values.

use vstd::prelude::*;
use crate::fx::{
    fx_ok, sat, fadd, fsub, fneg, fmin, fmax, fabs, fmul, fdiv, ffloor, fdivi, isqrt,
    lemma_isqrt_sq, fx_add, fx_sub, fx_neg, fx_min, fx_max, fx_abs, fx_mul, fx_div, fx_floor,
    fx_div_int, isqrt_wide,
};

verus! {

/// Spec-level vector: three exact integers (fixed-point units).
pub struct V3 {
    pub x: int,
    pub y: int,
    pub z: int,
}

impl V3 {
    /// All three components lie in the representable fixed-point range.
    pub open spec fn wf(self) -> bool {
        fx_ok(self.x) && fx_ok(self.y) && fx_ok(self.z)
    }
}

pub open spec fn v3(x: int, y: int, z: int) -> V3 {
    V3 { x: x, y: y, z: z }
}

pub open spec fn v3_zero() -> V3 {
    v3(0, 0, 0)
}

pub open spec fn v3_add(a: V3, b: V3) -> V3 {
    v3(fadd(a.x, b.x), fadd(a.y, b.y), fadd(a.z, b.z))
}

pub open spec fn v3_sub(a: V3, b: V3) -> V3 {
    v3(fsub(a.x, b.x), fsub(a.y, b.y), fsub(a.z, b.z))
}

pub open spec fn v3_neg(a: V3) -> V3 {
    v3(fneg(a.x), fneg(a.y), fneg(a.z))
}

/// Scale a vector by a fixed-point scalar.
pub open spec fn v3_scale(k: int, a: V3) -> V3 {
    v3(fmul(k, a.x), fmul(k, a.y), fmul(k, a.z))
}

/// Componentwise product (used for color filtering).
pub open spec fn v3_cmul(a: V3, b: V3) -> V3 {
    v3(fmul(a.x, b.x), fmul(a.y, b.y), fmul(a.z, b.z))
}

/// Componentwise quotient.
pub open spec fn v3_cdiv(a: V3, b: V3) -> V3 {
    v3(fdiv(a.x, b.x), fdiv(a.y, b.y), fdiv(a.z, b.z))
}

/// Componentwise floor to whole units.
pub open spec fn v3_floor(a: V3) -> V3 {
    v3(ffloor(a.x), ffloor(a.y), ffloor(a.z))
}

pub open spec fn v3_abs(a: V3) -> V3 {
    v3(fabs(a.x), fabs(a.y), fabs(a.z))
}

pub open spec fn v3_max(a: V3, b: V3) -> V3 {
    v3(fmax(a.x, b.x), fmax(a.y, b.y), fmax(a.z, b.z))
}

pub open spec fn v3_min(a: V3, b: V3) -> V3 {
    v3(fmin(a.x, b.x), fmin(a.y, b.y), fmin(a.z, b.z))
}

/// Fixed-point dot product.
pub open spec fn v3_dot(a: V3, b: V3) -> int {
    fadd(fadd(fmul(a.x, b.x), fmul(a.y, b.y)), fmul(a.z, b.z))
}

/// Raw squared norm at double scale (2^32): the exact sum of squared
/// components, fed directly to the integer square root.
pub open spec fn v3_norm2(a: V3) -> int {
    a.x * a.x + a.y * a.y + a.z * a.z
}

/// Euclidean length.
pub open spec fn v3_len(a: V3) -> int {
    sat(isqrt(v3_norm2(a)))
}

/// Unit vector in the direction of `a`; zero when `a` is zero.
pub open spec fn v3_normalize(a: V3) -> V3 {
    let l = v3_len(a);
    v3(fdiv(a.x, l), fdiv(a.y, l), fdiv(a.z, l))
}

pub open spec fn v3_cross(a: V3, b: V3) -> V3 {
    v3(
        fsub(fmul(a.y, b.z), fmul(a.z, b.y)),
        fsub(fmul(a.z, b.x), fmul(a.x, b.z)),
        fsub(fmul(a.x, b.y), fmul(a.y, b.x)),
    )
}

/// Componentwise division by a plain integer count (used to average).
pub open spec fn v3_div_int(a: V3, n: int) -> V3 {
    v3(fdivi(a.x, n), fdivi(a.y, n), fdivi(a.z, n))
}

/// Length of a two-component vector (used by ring-shaped primitives).
pub open spec fn flen2(a: int, b: int) -> int {
    sat(isqrt(a * a + b * b))
}

pub fn fx_len2(a: i64, b: i64) -> (r: i64)
    requires
        fx_ok(a as int),
        fx_ok(b as int),
    ensures
        r == flen2(a as int, b as int),
        fx_ok(r as int),
        r >= 0,
{
    proof {
        assert(a as int * (a as int) >= 0 && a as int * (a as int)
            < 0x4000_0000_0000_0000_0000_0000) by (nonlinear_arith)
            requires
                fx_ok(a as int),
        ;
        assert(b as int * (b as int) >= 0 && b as int * (b as int)
            < 0x4000_0000_0000_0000_0000_0000) by (nonlinear_arith)
            requires
                fx_ok(b as int),
        ;
    }
    let aa: i128 = (a as i128) * (a as i128);
    let bb: i128 = (b as i128) * (b as i128);
    let n: u128 = (aa + bb) as u128;
    let r = isqrt_wide(n);
    proof {
        lemma_isqrt_sq(n as int);
        assert(isqrt(n as int) >= 0);
    }
    r
}

/// Executable fixed-point vector.
#[derive(Clone, Copy, PartialEq, Eq, Structural, Debug)]
pub struct Vec3 {
    pub x: i64,
    pub y: i64,
    pub z: i64,
}

impl View for Vec3 {
    type V = V3;

    open spec fn view(&self) -> V3 {
        v3(self.x as int, self.y as int, self.z as int)
    }
}

impl Vec3 {
    pub fn new(x: i64, y: i64, z: i64) -> (r: Vec3)
        ensures
            r@ == v3(x as int, y as int, z as int),
    {
        Vec3 { x, y, z }
    }

    pub fn zero() -> (r: Vec3)
        ensures
            r@ == v3_zero(),
            r@.wf(),
    {
        Vec3 { x: 0, y: 0, z: 0 }
    }

    /// The vector with all three components equal to `k`.
    pub fn splat(k: i64) -> (r: Vec3)
        ensures
            r@ == v3(k as int, k as int, k as int),
    {
        Vec3 { x: k, y: k, z: k }
    }

    pub fn add(&self, o: &Vec3) -> (r: Vec3)
        requires
            self@.wf(),
            o@.wf(),
        ensures
            r@ == v3_add(self@, o@),
            r@.wf(),
    {
        Vec3 { x: fx_add(self.x, o.x), y: fx_add(self.y, o.y), z: fx_add(self.z, o.z) }
    }

    pub fn sub(&self, o: &Vec3) -> (r: Vec3)
        requires
            self@.wf(),
            o@.wf(),
        ensures
            r@ == v3_sub(self@, o@),
            r@.wf(),
    {
        Vec3 { x: fx_sub(self.x, o.x), y: fx_sub(self.y, o.y), z: fx_sub(self.z, o.z) }
    }

    pub fn neg(&self) -> (r: Vec3)
        requires
            self@.wf(),
        ensures
            r@ == v3_neg(self@),
            r@.wf(),
    {
        Vec3 { x: fx_neg(self.x), y: fx_neg(self.y), z: fx_neg(self.z) }
    }

    pub fn scale(&self, k: i64) -> (r: Vec3)
        requires
            self@.wf(),
            fx_ok(k as int),
        ensures
            r@ == v3_scale(k as int, self@),
            r@.wf(),
    {
        Vec3 { x: fx_mul(k, self.x), y: fx_mul(k, self.y), z: fx_mul(k, self.z) }
    }

    pub fn cmul(&self, o: &Vec3) -> (r: Vec3)
        requires
            self@.wf(),
            o@.wf(),
        ensures
            r@ == v3_cmul(self@, o@),
            r@.wf(),
    {
        Vec3 { x: fx_mul(self.x, o.x), y: fx_mul(self.y, o.y), z: fx_mul(self.z, o.z) }
    }

    pub fn cdiv(&self, o: &Vec3) -> (r: Vec3)
        requires
            self@.wf(),
        ensures
            r@ == v3_cdiv(self@, o@),
            r@.wf(),
    {
        Vec3 { x: fx_div(self.x, o.x), y: fx_div(self.y, o.y), z: fx_div(self.z, o.z) }
    }

    pub fn floor(&self) -> (r: Vec3)
        requires
            self@.wf(),
        ensures
            r@ == v3_floor(self@),
            r@.wf(),
    {
        Vec3 { x: fx_floor(self.x), y: fx_floor(self.y), z: fx_floor(self.z) }
    }

    pub fn abs(&self) -> (r: Vec3)
        requires
            self@.wf(),
        ensures
            r@ == v3_abs(self@),
            r@.wf(),
    {
        Vec3 { x: fx_abs(self.x), y: fx_abs(self.y), z: fx_abs(self.z) }
    }

    pub fn max(&self, o: &Vec3) -> (r: Vec3)
        requires
            self@.wf(),
            o@.wf(),
        ensures
            r@ == v3_max(self@, o@),
            r@.wf(),
    {
        Vec3 { x: fx_max(self.x, o.x), y: fx_max(self.y, o.y), z: fx_max(self.z, o.z) }
    }

    pub fn min(&self, o: &Vec3) -> (r: Vec3)
        requires
            self@.wf(),
            o@.wf(),
        ensures
            r@ == v3_min(self@, o@),
            r@.wf(),
    {
        Vec3 { x: fx_min(self.x, o.x), y: fx_min(self.y, o.y), z: fx_min(self.z, o.z) }
    }

    pub fn dot(&self, o: &Vec3) -> (r: i64)
        requires
            self@.wf(),
            o@.wf(),
        ensures
            r == v3_dot(self@, o@),
            fx_ok(r as int),
    {
        let xx = fx_mul(self.x, o.x);
        let yy = fx_mul(self.y, o.y);
        let zz = fx_mul(self.z, o.z);
        fx_add(fx_add(xx, yy), zz)
    }

    pub fn length(&self) -> (r: i64)
        requires
            self@.wf(),
        ensures
            r == v3_len(self@),
            fx_ok(r as int),
            r >= 0,
    {
        proof {
            assert(self.x as int * (self.x as int) >= 0 && self.x as int * (self.x as int)
                < 0x4000_0000_0000_0000_0000_0000) by (nonlinear_arith)
                requires
                    fx_ok(self.x as int),
            ;
            assert(self.y as int * (self.y as int) >= 0 && self.y as int * (self.y as int)
                < 0x4000_0000_0000_0000_0000_0000) by (nonlinear_arith)
                requires
                    fx_ok(self.y as int),
            ;
            assert(self.z as int * (self.z as int) >= 0 && self.z as int * (self.z as int)
                < 0x4000_0000_0000_0000_0000_0000) by (nonlinear_arith)
                requires
                    fx_ok(self.z as int),
            ;
        }
        let xx: i128 = (self.x as i128) * (self.x as i128);
        let yy: i128 = (self.y as i128) * (self.y as i128);
        let zz: i128 = (self.z as i128) * (self.z as i128);
        let n: u128 = (xx + yy + zz) as u128;
        let r = isqrt_wide(n);
        proof {
            lemma_isqrt_sq(n as int);
            assert(isqrt(n as int) >= 0);
        }
        r
    }

    pub fn normalize(&self) -> (r: Vec3)
        requires
            self@.wf(),
        ensures
            r@ == v3_normalize(self@),
            r@.wf(),
    {
        let l = self.length();
        Vec3 { x: fx_div(self.x, l), y: fx_div(self.y, l), z: fx_div(self.z, l) }
    }

    pub fn div_int(&self, n: i64) -> (r: Vec3)
        requires
            self@.wf(),
        ensures
            r@ == v3_div_int(self@, n as int),
            r@.wf(),
    {
        Vec3 { x: fx_div_int(self.x, n), y: fx_div_int(self.y, n), z: fx_div_int(self.z, n) }
    }

    pub fn cross(&self, o: &Vec3) -> (r: Vec3)
        requires
            self@.wf(),
            o@.wf(),
        ensures
            r@ == v3_cross(self@, o@),
            r@.wf(),
    {
        Vec3 {
            x: fx_sub(fx_mul(self.y, o.z), fx_mul(self.z, o.y)),
            y: fx_sub(fx_mul(self.z, o.x), fx_mul(self.x, o.z)),
            z: fx_sub(fx_mul(self.x, o.y), fx_mul(self.y, o.x)),
        }
    }
}

} // verus!
