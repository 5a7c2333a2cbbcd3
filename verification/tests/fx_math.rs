use sdf_tracer::fx::{
    fx_add, fx_sub, fx_neg, fx_min, fx_max, fx_abs, fx_clamp, fx_mul, fx_div, fx_div_int,
    fx_floor, fx_sqrt, FX_ONE, FX_HALF, FX_MAX,
};
use sdf_tracer::rng::Rng;
use sdf_tracer::sampling::{uniform_disk, uniform_ball, cos_weighted_hemisphere};
use sdf_tracer::vec3::Vec3;

#[test]
fn add_sub_neg_exact() {
    assert_eq!(fx_add(FX_ONE, FX_HALF), 98304);
    assert_eq!(fx_sub(FX_ONE, 3 * FX_ONE), -2 * FX_ONE);
    assert_eq!(fx_neg(-5 * FX_ONE), 5 * FX_ONE);
}

#[test]
fn add_saturates_at_range_edge() {
    assert_eq!(fx_add(FX_MAX, FX_MAX), FX_MAX);
    assert_eq!(fx_sub(-FX_MAX, FX_MAX), -FX_MAX);
}

#[test]
fn min_max_abs_clamp() {
    assert_eq!(fx_min(-3, 7), -3);
    assert_eq!(fx_max(-3, 7), 7);
    assert_eq!(fx_abs(-98304), 98304);
    assert_eq!(fx_clamp(2 * FX_ONE, 0, FX_ONE), FX_ONE);
    assert_eq!(fx_clamp(-FX_ONE, 0, FX_ONE), 0);
}

#[test]
fn mul_is_exact_and_floors() {
    // 1.5 * 2.0 == 3.0
    assert_eq!(fx_mul(98304, 2 * FX_ONE), 3 * FX_ONE);
    // -1.0 * 0.5 == -0.5
    assert_eq!(fx_mul(-FX_ONE, FX_HALF), -FX_HALF);
    // rounding is toward negative infinity
    assert_eq!(fx_mul(-1, 1), -1);
    assert_eq!(fx_mul(1, 1), 0);
}

#[test]
fn div_is_exact_and_total() {
    assert_eq!(fx_div(FX_ONE, 3 * FX_ONE), 21845);
    assert_eq!(fx_div(6 * FX_ONE, 2 * FX_ONE), 3 * FX_ONE);
    assert_eq!(fx_div(FX_ONE, 0), 0);
    assert_eq!(fx_div(-6 * FX_ONE, -2 * FX_ONE), 3 * FX_ONE);
    assert_eq!(fx_div(6 * FX_ONE, -2 * FX_ONE), -3 * FX_ONE);
}

#[test]
fn div_int_averages() {
    assert_eq!(fx_div_int(7 * FX_ONE, 2), 229376);
    assert_eq!(fx_div_int(-7 * FX_ONE, 2), -229376);
    assert_eq!(fx_div_int(FX_ONE, 0), 0);
}

#[test]
fn floor_rounds_toward_negative_infinity() {
    assert_eq!(fx_floor(98304), FX_ONE);
    assert_eq!(fx_floor(-98304), -2 * FX_ONE);
    assert_eq!(fx_floor(-FX_ONE), -FX_ONE);
}

#[test]
fn sqrt_exact_squares_and_floors() {
    assert_eq!(fx_sqrt(4 * FX_ONE), 2 * FX_ONE);
    assert_eq!(fx_sqrt(FX_ONE), FX_ONE);
    assert_eq!(fx_sqrt(2 * FX_ONE), 92681);
    assert_eq!(fx_sqrt(0), 0);
    assert_eq!(fx_sqrt(-FX_ONE), 0);
}

#[test]
fn rng_is_deterministic_per_seed() {
    let mut a = Rng::new(42);
    let mut b = Rng::new(42);
    let mut c = Rng::new(43);
    let mut differs = false;
    for _ in 0..64 {
        let ua = a.next_unit();
        let ub = b.next_unit();
        let uc = c.next_unit();
        assert_eq!(ua, ub);
        assert!(0 <= ua && ua < FX_ONE);
        if ua != uc {
            differs = true;
        }
    }
    assert!(differs);
}

#[test]
fn disk_samples_lie_in_the_unit_disk() {
    let mut rng = Rng::new(7);
    for _ in 0..200 {
        let (x, y) = uniform_disk(&mut rng);
        assert!(-FX_ONE <= x && x < FX_ONE);
        assert!(-FX_ONE <= y && y < FX_ONE);
        assert!(fx_add(fx_mul(x, x), fx_mul(y, y)) <= FX_ONE);
    }
}

#[test]
fn ball_samples_lie_in_the_unit_ball() {
    let mut rng = Rng::new(8);
    for _ in 0..200 {
        let v = uniform_ball(&mut rng);
        let n2 = fx_add(fx_add(fx_mul(v.x, v.x), fx_mul(v.y, v.y)), fx_mul(v.z, v.z));
        assert!(n2 <= FX_ONE);
    }
}

#[test]
fn hemisphere_samples_point_away_from_the_surface() {
    let normal = Vec3::new(0, 0, FX_ONE);
    let mut rng = Rng::new(9);
    for _ in 0..200 {
        let d = cos_weighted_hemisphere(&normal, &mut rng);
        // alignment with the normal, up to fixed-point error in the basis
        assert!(d.dot(&normal) >= -16);
    }
}
