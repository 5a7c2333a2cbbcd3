use sdf_tracer::fx::FX_ONE;
use sdf_tracer::renderer::{render, render_row, Scene, UniformBackground};
use sdf_tracer::sdf::{Sdf, sphere, Material};
use sdf_tracer::camera::{Camera, Ray};
use sdf_tracer::rng::Rng;
use sdf_tracer::vec3::Vec3;

const ONE: i64 = FX_ONE;

fn emissive_sphere_scene() -> Scene<
    sdf_tracer::sdf::SdfObject<sdf_tracer::sdf::Sphere>,
    UniformBackground,
> {
    Scene {
        camera: Camera::new(
            Vec3::new(0, 0, -4 * ONE),
            Vec3::new(0, 0, 0),
            Vec3::new(0, ONE, 0),
            ONE,
            ONE,
            ONE,
            0,
        ),
        map: sphere(ONE).material(Material::Emissive(Vec3::new(ONE, ONE, ONE))),
        background_color: UniformBackground { shade: Vec3::new(0, 0, 0) },
    }
}

#[test]
fn camera_center_ray_is_straight_ahead() {
    let scene = emissive_sphere_scene();
    let mut rng = Rng::new(3);
    let Ray { origin, direction } = scene.camera.get_ray(0, 0, &mut rng);
    assert_eq!(origin, Vec3::new(0, 0, -4 * ONE));
    assert_eq!(direction, Vec3::new(0, 0, ONE));
}

#[test]
fn camera_offset_ray_bends_toward_the_image_point() {
    let scene = emissive_sphere_scene();
    let mut rng = Rng::new(3);
    let ray = scene.camera.get_ray(32768, 0, &mut rng);
    // looking toward positive z with up = +y, "left" is -x, so a positive
    // image x bends the ray toward negative x: normalize((-0.5, 0, 1))
    assert_eq!(ray.direction, Vec3::new(-29309, 0, 58617));
}

#[test]
fn emissive_sphere_renders_pure_white_and_pure_black() {
    // every camera ray that reaches the emitter carries home exactly white;
    // every ray that misses carries home exactly the black background
    let scene = emissive_sphere_scene();
    let grid = render(9, 9, 1, &scene, 1234);
    assert_eq!(grid.len(), 9);
    for row in &grid {
        assert_eq!(row.len(), 9);
        for pixel in row {
            assert!(
                *pixel == Vec3::new(ONE, ONE, ONE) || *pixel == Vec3::new(0, 0, 0),
                "pixel must be pure white or pure black, got {:?}",
                pixel
            );
        }
    }
    // the center pixel's rays always hit, the corner pixels' always miss
    assert_eq!(grid[4][4], Vec3::new(ONE, ONE, ONE));
    assert_eq!(grid[0][0], Vec3::new(0, 0, 0));
    assert_eq!(grid[8][8], Vec3::new(0, 0, 0));
}

#[test]
fn rendering_twice_with_one_seed_is_bit_identical() {
    let scene = emissive_sphere_scene();
    let a = render(7, 5, 2, &scene, 99);
    let b = render(7, 5, 2, &scene, 99);
    assert_eq!(a, b);
}

#[test]
fn rendering_with_another_seed_may_differ_only_in_sampling() {
    let scene = emissive_sphere_scene();
    let a = render(9, 9, 1, &scene, 1);
    let b = render(9, 9, 1, &scene, 2);
    // same geometry: centers and corners agree regardless of the seed
    assert_eq!(a[4][4], b[4][4]);
    assert_eq!(a[0][0], b[0][0]);
}

#[test]
fn rows_are_independent_of_drawing_order() {
    // a row drawn alone equals the same row of the full frame, which is what
    // lets a driver fan rows out across threads
    let scene = emissive_sphere_scene();
    let grid = render(9, 9, 2, &scene, 77);
    for i in (0..9).rev() {
        let row = render_row(&scene, 9, 9, 2, i, 77);
        assert_eq!(row, grid[i]);
    }
}
