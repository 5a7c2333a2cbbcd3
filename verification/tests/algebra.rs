use sdf_tracer::fx::{FX_ONE, FX_HALF};
use sdf_tracer::sdf::{
    Sdf, SdfMap, sphere, cuboid, plane, torus, Material, Quat,
};
use sdf_tracer::vec3::Vec3;

const ONE: i64 = FX_ONE;

#[test]
fn sphere_sign_convention() {
    let s = sphere(2 * ONE);
    assert_eq!(s.dist(Vec3::new(0, 0, 0)), -2 * ONE);
    assert_eq!(s.dist(Vec3::new(2 * ONE, 0, 0)), 0);
    assert_eq!(s.dist(Vec3::new(4 * ONE, 0, 0)), 2 * ONE);
    assert_eq!(s.dist(Vec3::new(0, -2 * ONE, 0)), 0);
}

#[test]
fn cuboid_clamped_corner_formula() {
    let c = cuboid(Vec3::new(ONE, ONE, ONE));
    // straight out of a face
    assert_eq!(c.dist(Vec3::new(2 * ONE, 0, 0)), ONE);
    // at the center: deepest inside
    assert_eq!(c.dist(Vec3::new(0, 0, 0)), -ONE);
    // off a corner: euclidean distance to the corner
    assert_eq!(c.dist(Vec3::new(2 * ONE, 2 * ONE, 2 * ONE)), 113511);
    // on the surface
    assert_eq!(c.dist(Vec3::new(ONE, 0, 0)), 0);
}

#[test]
fn plane_is_signed_perpendicular_distance() {
    let p = plane(Vec3::new(0, 0, ONE));
    assert_eq!(p.dist(Vec3::new(3 * ONE, -7 * ONE, 5 * ONE)), 5 * ONE);
    assert_eq!(p.dist(Vec3::new(0, 0, -2 * ONE)), -2 * ONE);
    assert_eq!(p.dist(Vec3::new(ONE, ONE, 0)), 0);
}

#[test]
fn torus_ring_distance() {
    let t = torus(2 * ONE, FX_HALF);
    // on the ring circle: deepest inside the tube
    assert_eq!(t.dist(Vec3::new(2 * ONE, 0, 0)), -FX_HALF);
    // at the ring plane, half a unit outside the tube surface
    assert_eq!(t.dist(Vec3::new(3 * ONE, 0, 0)), FX_HALF);
    // at the center of the hole
    assert_eq!(t.dist(Vec3::new(0, 0, 0)), 2 * ONE - FX_HALF);
}

#[test]
fn eversion_negates() {
    let e = sphere(ONE).evert();
    assert_eq!(e.dist(Vec3::new(0, 0, 0)), ONE);
    assert_eq!(e.dist(Vec3::new(3 * ONE, 0, 0)), -2 * ONE);
}

#[test]
fn round_grows_the_shape() {
    let r = sphere(ONE).round(FX_HALF);
    assert_eq!(r.dist(Vec3::new(2 * ONE, 0, 0)), FX_HALF);
}

#[test]
fn shell_keeps_a_skin() {
    let s = sphere(ONE).shell(FX_HALF / 2);
    // on the sphere's own surface: deepest inside the skin
    assert_eq!(s.dist(Vec3::new(ONE, 0, 0)), -FX_HALF / 2);
    // at the center: far outside the skin
    assert_eq!(s.dist(Vec3::new(0, 0, 0)), ONE - FX_HALF / 2);
}

#[test]
fn translation_moves_the_shape() {
    let t = sphere(ONE).position(Vec3::new(3 * ONE, 0, 0));
    assert_eq!(t.dist(Vec3::new(3 * ONE, 0, 0)), -ONE);
    assert_eq!(t.dist(Vec3::new(0, 0, 0)), 2 * ONE);
}

#[test]
fn rotation_by_identity_quaternion() {
    let r = cuboid(Vec3::new(ONE, ONE, ONE)).rotate(Quat { x: 0, y: 0, z: 0, w: ONE });
    assert_eq!(r.dist(Vec3::new(2 * ONE, 0, 0)), ONE);
}

#[test]
fn rotation_leaves_spheres_unchanged() {
    // a quarter turn about z; the sphere is rotation-invariant, so distances
    // agree with the unrotated sphere up to fixed-point error
    let q = Quat { x: 0, y: 0, z: 46341, w: 46341 };
    let r = sphere(ONE).rotate(q);
    let p = Vec3::new(3 * ONE, 0, 0);
    let plain = sphere(ONE).dist(p);
    let rotated = r.dist(p);
    assert!((plain - rotated).abs() < 64);
}

#[test]
fn repeat_tiles_space() {
    let r = sphere(FX_HALF).repeat(Vec3::new(2 * ONE, 2 * ONE, 2 * ONE));
    // each lattice point of the period grid carries a copy
    assert_eq!(r.dist(Vec3::new(0, 0, 0)), -FX_HALF);
    assert_eq!(r.dist(Vec3::new(2 * ONE, 0, 0)), -FX_HALF);
    assert_eq!(r.dist(Vec3::new(-4 * ONE, 2 * ONE, 0)), -FX_HALF);
    // between copies
    assert_eq!(r.dist(Vec3::new(ONE, 0, 0)), FX_HALF);
}

#[test]
fn union_takes_the_minimum() {
    let a = sphere(ONE).position(Vec3::new(-3 * ONE, 0, 0));
    let b = sphere(ONE).position(Vec3::new(3 * ONE, 0, 0));
    let u = a.union(b);
    for &(x, y, z) in &[
        (0i64, 0i64, 0i64),
        (3 * ONE, 0, 0),
        (-3 * ONE, 0, 0),
        (ONE, 2 * ONE, -ONE),
        (5 * ONE, ONE, 0),
    ] {
        let p = Vec3::new(x, y, z);
        let da = a.dist(p);
        let db = b.dist(p);
        assert_eq!(u.dist(p), da.min(db));
    }
}

#[test]
fn difference_is_max_of_negated() {
    let a = sphere(2 * ONE);
    let b = sphere(ONE);
    let d = a.subtract(b);
    for &(x, y, z) in &[
        (0i64, 0i64, 0i64),
        (ONE, 0, 0),
        (3 * ONE, 0, 0),
        (0, ONE + FX_HALF, 0),
    ] {
        let p = Vec3::new(x, y, z);
        assert_eq!(d.dist(p), a.dist(p).max(-b.dist(p)));
    }
    // carved center is outside now
    assert_eq!(d.dist(Vec3::new(0, 0, 0)), ONE);
}

#[test]
fn smooth_union_matches_min_away_from_the_seam() {
    let a = sphere(ONE);
    let b = sphere(ONE).position(Vec3::new(100 * ONE, 0, 0));
    let s = a.smooth_union(FX_HALF, b);
    let p = Vec3::new(2 * ONE, 0, 0);
    assert_eq!(s.dist(p), a.dist(p));
}

#[test]
fn map_union_attributes_the_nearer_material() {
    let red = Material::Lambertian(Vec3::new(ONE, 0, 0));
    let blue = Material::Lambertian(Vec3::new(0, 0, ONE));
    let a = sphere(ONE).position(Vec3::new(-3 * ONE, 0, 0)).material(red);
    let b = sphere(ONE).position(Vec3::new(3 * ONE, 0, 0)).material(blue);
    let m = a.union(b);
    let near_a = m.distinfo(Vec3::new(-3 * ONE, 0, 0));
    assert_eq!(near_a.material, red);
    assert_eq!(near_a.distance, -ONE);
    let near_b = m.distinfo(Vec3::new(3 * ONE, 0, 0));
    assert_eq!(near_b.material, blue);
    // the reported distance never disagrees with the plain distance
    for &(x, y, z) in &[(0i64, 0, 0), (2 * ONE, ONE, 0), (-5 * ONE, 0, ONE)] {
        let p = Vec3::new(x, y, z);
        assert_eq!(m.distinfo(p).distance, m.dist(p));
    }
}
