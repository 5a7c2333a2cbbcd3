use sdf_tracer::fx::FX_ONE;
use sdf_tracer::sdf::{
    Sdf, SdfMap, sphere, plane, Material, ray_intersection, normal, SURFACE_DIST,
};
use sdf_tracer::vec3::Vec3;

const ONE: i64 = FX_ONE;

fn white() -> Material {
    Material::Emissive(Vec3::new(ONE, ONE, ONE))
}

#[test]
fn tracer_converges_on_a_sphere() {
    let map = sphere(ONE).material(white());
    let origin = Vec3::new(0, 0, -4 * ONE);
    let direction = Vec3::new(0, 0, ONE);
    let hit = ray_intersection(&map, origin, direction).expect("ray aimed at the sphere must hit");
    // the hit lies exactly on the sphere surface, 3 units from the origin
    assert_eq!(hit.position, Vec3::new(0, 0, -ONE));
    assert_eq!(hit.material, white());
}

#[test]
fn tracer_hit_is_within_surface_epsilon() {
    let map = sphere(ONE).material(white());
    let origin = Vec3::new(0, -5 * ONE, -3 * ONE);
    let direction = Vec3::new(0, 5 * ONE, 3 * ONE);
    let hit = ray_intersection(&map, origin, direction.normalize()).expect("must hit");
    let d = map.dist(hit.position);
    assert!(d.abs() < SURFACE_DIST, "hit distance {} not within epsilon", d);
}

#[test]
fn tracer_misses_when_aimed_away() {
    let map = sphere(ONE).material(white());
    let origin = Vec3::new(0, 0, -4 * ONE);
    let away = Vec3::new(0, 0, -ONE);
    assert!(ray_intersection(&map, origin, away).is_none());
    let sideways = Vec3::new(ONE, 0, 0);
    assert!(ray_intersection(&map, origin, sideways).is_none());
}

#[test]
fn tracer_reports_the_nearer_object() {
    let red = Material::Emissive(Vec3::new(ONE, 0, 0));
    let blue = Material::Emissive(Vec3::new(0, 0, ONE));
    let near = sphere(ONE).position(Vec3::new(0, 0, -2 * ONE)).material(red);
    let far = sphere(ONE).position(Vec3::new(0, 0, 4 * ONE)).material(blue);
    let map = near.union(far);
    let hit = ray_intersection(&map, Vec3::new(0, 0, -8 * ONE), Vec3::new(0, 0, ONE))
        .expect("must hit the near sphere");
    assert_eq!(hit.material, red);
}

#[test]
fn normal_points_out_of_a_sphere() {
    let map = sphere(ONE).material(white());
    let n = normal(&map, Vec3::new(0, 0, -ONE));
    assert_eq!(n, Vec3::new(0, 0, -ONE));
    let n2 = normal(&map, Vec3::new(ONE, 0, 0));
    assert_eq!(n2, Vec3::new(ONE, 0, 0));
}

#[test]
fn normal_of_a_plane_is_its_normal() {
    let map = plane(Vec3::new(0, 0, ONE)).material(white());
    let n = normal(&map, Vec3::new(3 * ONE, -2 * ONE, 0));
    assert_eq!(n, Vec3::new(0, 0, ONE));
}

#[test]
fn hit_is_the_queried_point_within_epsilon() {
    // a ray that starts already within the surface epsilon reports the
    // queried point itself as the hit, even when the ray points away
    let map = plane(Vec3::new(0, 0, ONE)).material(white());
    let origin = Vec3::new(0, 0, 32);
    let hit =
        ray_intersection(&map, origin, Vec3::new(0, 0, ONE)).expect("within epsilon is a hit");
    assert_eq!(hit.position, origin);
    assert!(map.dist(hit.position) < SURFACE_DIST);
}
