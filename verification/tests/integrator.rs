use sdf_tracer::fx::{fx_mul, FX_ONE, FX_HALF};
use sdf_tracer::renderer::{cast_ray, Scene, UniformBackground, SunSkyBackground, Background};
use sdf_tracer::rng::Rng;
use sdf_tracer::sdf::{Sdf, sphere, Material};
use sdf_tracer::camera::Camera;
use sdf_tracer::vec3::Vec3;

const ONE: i64 = FX_ONE;

fn straight_camera() -> Camera {
    Camera::new(
        Vec3::new(0, 0, -12 * ONE),
        Vec3::new(0, 0, 0),
        Vec3::new(0, ONE, 0),
        ONE,
        ONE,
        ONE,
        0,
    )
}

#[test]
fn emissive_hit_returns_its_radiance() {
    let map = sphere(ONE).material(Material::Emissive(Vec3::new(ONE, FX_HALF, 0)));
    let scene = Scene {
        camera: straight_camera(),
        map,
        background_color: UniformBackground { shade: Vec3::new(0, 0, 0) },
    };
    let mut rng = Rng::new(1);
    let c = cast_ray(&scene, Vec3::new(0, 0, -4 * ONE), Vec3::new(0, 0, ONE), &mut rng);
    // throughput is exactly one, so the emitted radiance comes out untouched
    assert_eq!(c, Vec3::new(ONE, FX_HALF, 0));
}

#[test]
fn miss_returns_the_background() {
    let map = sphere(ONE).material(Material::Emissive(Vec3::new(ONE, ONE, ONE)));
    let sky = Vec3::new(FX_HALF, FX_HALF, ONE);
    let scene = Scene {
        camera: straight_camera(),
        map,
        background_color: UniformBackground { shade: sky },
    };
    let mut rng = Rng::new(1);
    let c = cast_ray(&scene, Vec3::new(0, 0, -4 * ONE), Vec3::new(0, 0, -ONE), &mut rng);
    assert_eq!(c, sky);
}

#[test]
fn sun_sky_background_splits_on_alignment() {
    let bg = SunSkyBackground {
        axis: Vec3::new(0, 0, ONE),
        threshold: 62259,  // 0.95
        sun: Vec3::new(15 * ONE, 13 * ONE, 11 * ONE),
        sky: Vec3::new(0, FX_HALF, ONE),
    };
    assert_eq!(bg.color(Vec3::new(0, 0, ONE)), Vec3::new(15 * ONE, 13 * ONE, 11 * ONE));
    assert_eq!(bg.color(Vec3::new(0, 0, -ONE)), Vec3::new(0, FX_HALF, ONE));
    assert_eq!(bg.color(Vec3::new(ONE, 0, 0)), Vec3::new(0, FX_HALF, ONE));
}

#[test]
fn throughput_never_increases_through_an_albedo() {
    // the integrator's per-bounce update is a componentwise product with the
    // albedo; with albedo components at most one it cannot increase
    for &a in &[0i64, 13, FX_HALF, ONE - 1, ONE] {
        for &t in &[0i64, 1, FX_HALF, ONE, 7 * ONE, 1000 * ONE] {
            let updated = fx_mul(a, t);
            assert!(0 <= updated && updated <= t);
        }
    }
}

#[test]
fn bounce_budget_returns_black() {
    // inside an everted Lambertian sphere every path bounces until the
    // budget runs out; the integrator then reports black
    let map = sphere(8 * ONE).evert().material(Material::Lambertian(Vec3::new(ONE, ONE, ONE)));
    let scene = Scene {
        camera: straight_camera(),
        map,
        background_color: UniformBackground { shade: Vec3::new(ONE, ONE, ONE) },
    };
    let mut rng = Rng::new(5);
    let c = cast_ray(&scene, Vec3::new(0, 0, 0), Vec3::new(0, 0, ONE), &mut rng);
    assert_eq!(c, Vec3::new(0, 0, 0));
}

#[test]
fn lambertian_bounce_filters_by_the_albedo() {
    // a ray bounces once off a half-grey floor, then escapes to a white
    // background: every component of the result is at most half
    let map = sdf_tracer::sdf::plane(Vec3::new(0, 0, ONE))
        .material(Material::Lambertian(Vec3::new(FX_HALF, FX_HALF, FX_HALF)));
    let scene = Scene {
        camera: straight_camera(),
        map,
        background_color: UniformBackground { shade: Vec3::new(ONE, ONE, ONE) },
    };
    for seed in 0..20u64 {
        let mut rng = Rng::new(seed);
        let c = cast_ray(&scene, Vec3::new(0, 0, 4 * ONE), Vec3::new(0, 0, -ONE), &mut rng);
        assert!(c.x <= FX_HALF && c.y <= FX_HALF && c.z <= FX_HALF);
        assert!(c.x >= 0 && c.y >= 0 && c.z >= 0);
    }
}
