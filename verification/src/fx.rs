//! Fixed-point scalars.
//!
//! A scalar is an `i64` holding a real number scaled by `FX_ONE` (2^16), kept
//! within `[-FX_MAX, FX_MAX]`. Every operation computes the exact mathematical
//! result and saturates it into that range, so all operations are total and
//! carry exact contracts over the spec-level mirrors defined here.

use vstd::prelude::*;
use vstd::arithmetic::div_mod::{lemma_fundamental_div_mod, lemma_fundamental_div_mod_converse};

verus! {

/// Number of fixed-point units in 1.0.
pub const FX_ONE: i64 = 65536;

/// Largest representable magnitude (2^47 - 1).
pub const FX_MAX: i64 = 0x7fff_ffff_ffff;

/// Half of one, i.e. 0.5.
pub const FX_HALF: i64 = 32768;

/// A value lies in the representable fixed-point range.
pub open spec fn fx_ok(a: int) -> bool {
    -FX_MAX <= a <= FX_MAX
}

/// Clamp an exact result into the representable range.
pub open spec fn sat(x: int) -> int {
    if x > FX_MAX {
        FX_MAX as int
    } else if x < -(FX_MAX as int) {
        -(FX_MAX as int)
    } else {
        x
    }
}

pub open spec fn fadd(a: int, b: int) -> int {
    sat(a + b)
}

pub open spec fn fsub(a: int, b: int) -> int {
    sat(a - b)
}

pub open spec fn fneg(a: int) -> int {
    sat(-a)
}

pub open spec fn fmin(a: int, b: int) -> int {
    if a <= b {
        a
    } else {
        b
    }
}

pub open spec fn fmax(a: int, b: int) -> int {
    if a >= b {
        a
    } else {
        b
    }
}

pub open spec fn fabs(a: int) -> int {
    sat(if a < 0 { -a } else { a })
}

pub open spec fn fclamp(a: int, lo: int, hi: int) -> int {
    fmin(fmax(a, lo), hi)
}

/// Floor division, total: division by zero yields zero.
pub open spec fn fdiv0(n: int, d: int) -> int {
    if d == 0 {
        0
    } else if d > 0 {
        n / d
    } else {
        (-n) / (-d)
    }
}

/// Fixed-point product: exact product rescaled by `FX_ONE`, saturated.
pub open spec fn fmul(a: int, b: int) -> int {
    sat(fdiv0(a * b, FX_ONE as int))
}

/// Fixed-point quotient: numerator prescaled by `FX_ONE`, saturated.
pub open spec fn fdiv(a: int, b: int) -> int {
    sat(fdiv0(a * (FX_ONE as int), b))
}

/// Round down to the nearest whole number of units.
pub open spec fn ffloor(a: int) -> int {
    sat(fdiv0(a, FX_ONE as int) * (FX_ONE as int))
}

/// Divide a fixed-point value by a plain integer count (used to average).
pub open spec fn fdivi(a: int, n: int) -> int {
    sat(fdiv0(a, n))
}

pub fn fx_add(a: i64, b: i64) -> (r: i64)
    requires
        fx_ok(a as int),
        fx_ok(b as int),
    ensures
        r == fadd(a as int, b as int),
        fx_ok(r as int),
{
    let s: i64 = a + b;
    if s > FX_MAX {
        FX_MAX
    } else if s < -FX_MAX {
        -FX_MAX
    } else {
        s
    }
}

pub fn fx_sub(a: i64, b: i64) -> (r: i64)
    requires
        fx_ok(a as int),
        fx_ok(b as int),
    ensures
        r == fsub(a as int, b as int),
        fx_ok(r as int),
{
    let s: i64 = a - b;
    if s > FX_MAX {
        FX_MAX
    } else if s < -FX_MAX {
        -FX_MAX
    } else {
        s
    }
}

pub fn fx_neg(a: i64) -> (r: i64)
    requires
        fx_ok(a as int),
    ensures
        r == fneg(a as int),
        fx_ok(r as int),
{
    -a
}

pub fn fx_min(a: i64, b: i64) -> (r: i64)
    ensures
        r == fmin(a as int, b as int),
{
    if a <= b {
        a
    } else {
        b
    }
}

pub fn fx_max(a: i64, b: i64) -> (r: i64)
    ensures
        r == fmax(a as int, b as int),
{
    if a >= b {
        a
    } else {
        b
    }
}

pub fn fx_abs(a: i64) -> (r: i64)
    requires
        fx_ok(a as int),
    ensures
        r == fabs(a as int),
        fx_ok(r as int),
{
    if a < 0 {
        -a
    } else {
        a
    }
}

pub fn fx_clamp(a: i64, lo: i64, hi: i64) -> (r: i64)
    ensures
        r == fclamp(a as int, lo as int, hi as int),
{
    let m = fx_max(a, lo);
    fx_min(m, hi)
}

/// Saturate a wide intermediate result into the fixed-point range.
fn sat_i128(x: i128) -> (r: i64)
    ensures
        r == sat(x as int),
        fx_ok(r as int),
{
    if x > FX_MAX as i128 {
        FX_MAX
    } else if x < -(FX_MAX as i128) {
        -FX_MAX
    } else {
        x as i64
    }
}

/// Floor division on wide integers, total in the divisor.
fn div_floor(n: i128, d: i128) -> (q: i128)
    requires
        -0x4000_0000_0000_0000_0000_0000_0000_0000 < n < 0x4000_0000_0000_0000_0000_0000_0000_0000,
        -0x4000_0000_0000_0000_0000_0000_0000_0000 < d < 0x4000_0000_0000_0000_0000_0000_0000_0000,
    ensures
        q == fdiv0(n as int, d as int),
{
    if d == 0 {
        return 0;
    }
    let un: u128 = if n < 0 {
        (-n) as u128
    } else {
        n as u128
    };
    let ud: u128 = if d < 0 {
        (-d) as u128
    } else {
        d as u128
    };
    let q0: u128 = un / ud;
    let r0: u128 = un % ud;
    proof {
        lemma_fundamental_div_mod(un as int, ud as int);
        assert(un as int == (ud as int) * (q0 as int) + (r0 as int));
        assert(0 <= r0 as int && (r0 as int) < (ud as int));
        assert(q0 as int <= un as int) by (nonlinear_arith)
            requires
                un as int == (ud as int) * (q0 as int) + (r0 as int),
                0 <= r0 as int,
                0 <= q0 as int,
                0 < ud as int,
        ;
    }
    let ghost nn: int = n as int;
    let ghost dd: int = d as int;
    let ghost xx: int = if dd > 0 { nn } else { -nn };
    proof {
        assert(fdiv0(nn, dd) == xx / (ud as int));
    }
    let same = (n < 0) == (d < 0);
    if same {
        proof {
            assert(xx == un as int);
        }
        q0 as i128
    } else if r0 == 0 {
        proof {
            assert(xx == -(un as int));
            assert(-(un as int) == (-(q0 as int)) * (ud as int) + 0) by (nonlinear_arith)
                requires
                    un as int == (ud as int) * (q0 as int) + (r0 as int),
                    r0 as int == 0,
            ;
            lemma_fundamental_div_mod_converse(-(un as int), ud as int, -(q0 as int), 0);
        }
        -(q0 as i128)
    } else {
        proof {
            assert(xx == -(un as int));
            assert(-(un as int) == (-(q0 as int) - 1) * (ud as int) + ((ud as int) - (r0 as int)))
                by (nonlinear_arith)
                requires
                    un as int == (ud as int) * (q0 as int) + (r0 as int),
            ;
            assert(0 <= (ud as int) - (r0 as int) && (ud as int) - (r0 as int) < (ud as int));
            lemma_fundamental_div_mod_converse(
                -(un as int),
                ud as int,
                -(q0 as int) - 1,
                (ud as int) - (r0 as int),
            );
        }
        -(q0 as i128) - 1
    }
}

pub fn fx_mul(a: i64, b: i64) -> (r: i64)
    requires
        fx_ok(a as int),
        fx_ok(b as int),
    ensures
        r == fmul(a as int, b as int),
        fx_ok(r as int),
{
    proof {
        assert((a as int) * (b as int) < 0x4000_0000_0000_0000_0000_0000_0000_0000
            && -0x4000_0000_0000_0000_0000_0000_0000_0000 < (a as int) * (b as int))
            by (nonlinear_arith)
            requires
                fx_ok(a as int),
                fx_ok(b as int),
        ;
    }
    let p: i128 = (a as i128) * (b as i128);
    let q = div_floor(p, FX_ONE as i128);
    sat_i128(q)
}

pub fn fx_div(a: i64, b: i64) -> (r: i64)
    requires
        fx_ok(a as int),
    ensures
        r == fdiv(a as int, b as int),
        fx_ok(r as int),
{
    let p: i128 = (a as i128) * (FX_ONE as i128);
    let q = div_floor(p, b as i128);
    sat_i128(q)
}

pub fn fx_floor(a: i64) -> (r: i64)
    requires
        fx_ok(a as int),
    ensures
        r == ffloor(a as int),
        fx_ok(r as int),
{
    let q = div_floor(a as i128, FX_ONE as i128);
    proof {
        assert(-FX_MAX <= fdiv0(a as int, FX_ONE as int) <= FX_MAX);
    }
    sat_i128(q * (FX_ONE as i128))
}

pub fn fx_div_int(a: i64, n: i64) -> (r: i64)
    requires
        fx_ok(a as int),
    ensures
        r == fdivi(a as int, n as int),
        fx_ok(r as int),
{
    let q = div_floor(a as i128, n as i128);
    sat_i128(q)
}

/// `r` is the integer square root of `n`.
pub open spec fn is_sqrt(n: int, r: int) -> bool {
    0 <= r && r * r <= n && n < (r + 1) * (r + 1)
}

/// The integer square root of a non-negative number.
pub closed spec fn isqrt(n: int) -> int {
    choose|r: int| #[trigger] is_sqrt(n, r)
}

pub proof fn lemma_isqrt_exists(n: int)
    requires
        n >= 0,
    ensures
        exists|r: int| #[trigger] is_sqrt(n, r),
    decreases n,
{
    if n == 0 {
        assert(is_sqrt(0, 0));
    } else {
        lemma_isqrt_exists(n - 1);
        let r0 = choose|r: int| #[trigger] is_sqrt(n - 1, r);
        if n < (r0 + 1) * (r0 + 1) {
            assert(is_sqrt(n, r0));
        } else {
            assert(n == (r0 + 1) * (r0 + 1));
            assert((r0 + 1) * (r0 + 1) < (r0 + 2) * (r0 + 2)) by (nonlinear_arith)
                requires
                    r0 >= 0,
            ;
            assert(is_sqrt(n, r0 + 1));
        }
    }
}

pub proof fn lemma_isqrt_unique(n: int, r: int)
    requires
        is_sqrt(n, r),
    ensures
        isqrt(n) == r,
{
    let r2 = isqrt(n);
    assert(is_sqrt(n, r2));
    if r < r2 {
        assert((r + 1) * (r + 1) <= r2 * r2) by (nonlinear_arith)
            requires
                0 <= r,
                r + 1 <= r2,
        ;
        assert(false);
    }
    if r2 < r {
        assert((r2 + 1) * (r2 + 1) <= r * r) by (nonlinear_arith)
            requires
                0 <= r2,
                r2 + 1 <= r,
        ;
        assert(false);
    }
}

pub proof fn lemma_isqrt_sq(n: int)
    requires
        n >= 0,
    ensures
        is_sqrt(n, isqrt(n)),
{
    lemma_isqrt_exists(n);
    let r = choose|r: int| #[trigger] is_sqrt(n, r);
    lemma_isqrt_unique(n, r);
}

/// Integer square root of a wide unsigned value, by binary search.
fn isqrt_u128(n: u128) -> (r: u128)
    requires
        n < 0x1_0000_0000_0000_0000_0000_0000,
    ensures
        r as int == isqrt(n as int),
        is_sqrt(n as int, r as int),
        r <= 0x1_0000_0000_0000,
{
    let mut lo: u128 = 0;
    let mut hi: u128 = 0x1_0000_0000_0000;
    proof {
        assert((0x1_0000_0000_0000int + 1) * (0x1_0000_0000_0000int + 1)
            > 0x1_0000_0000_0000_0000_0000_0000) by (nonlinear_arith);
    }
    while lo < hi
        invariant
            0 <= lo <= hi <= 0x1_0000_0000_0000,
            (lo as int) * (lo as int) <= n as int,
            (n as int) < ((hi as int) + 1) * ((hi as int) + 1),
        decreases hi - lo,
    {
        let mid: u128 = lo + (hi - lo + 1) / 2;
        proof {
            assert(lo < mid <= hi);
            assert((mid as int) * (mid as int) < 0x1_0000_0000_0000_0000_0000_0000_0000_0000)
                by (nonlinear_arith)
                requires
                    0 <= mid as int && mid as int <= 0x1_0000_0000_0000,
            ;
        }
        if mid * mid <= n {
            lo = mid;
        } else {
            proof {
                assert((n as int) < ((mid - 1) as int + 1) * ((mid - 1) as int + 1));
            }
            hi = mid - 1;
        }
    }
    proof {
        assert(is_sqrt(n as int, lo as int));
        lemma_isqrt_unique(n as int, lo as int);
    }
    lo
}

/// Fixed-point square root; non-positive inputs yield zero.
pub open spec fn fsqrt(a: int) -> int {
    if a <= 0 {
        0
    } else {
        isqrt(a * (FX_ONE as int))
    }
}

pub fn fx_sqrt(a: i64) -> (r: i64)
    requires
        fx_ok(a as int),
    ensures
        r == fsqrt(a as int),
        fx_ok(r as int),
        r >= 0,
{
    if a <= 0 {
        return 0;
    }
    let n: u128 = (a as u128) * (FX_ONE as u128);
    let r = isqrt_u128(n);
    proof {
        assert(is_sqrt(n as int, r as int));
        assert((r as int) < 0x1_0000_0000) by (nonlinear_arith)
            requires
                is_sqrt(n as int, r as int),
                (n as int) < 0x1_0000_0000_0000_0000,
        ;
    }
    r as i64
}

/// Square root of an exact square of scale 2^32: the length computation
/// feeds `isqrt` the raw sum of squared coordinates, already at the wider
/// scale, so the result lands back at scale 2^16.
pub fn isqrt_wide(n: u128) -> (r: i64)
    requires
        n < 0x1_0000_0000_0000_0000_0000_0000,
    ensures
        r == sat(isqrt(n as int)),
        fx_ok(r as int),
{
    let r = isqrt_u128(n);
    sat_i128(r as i128)
}

} // verus!

