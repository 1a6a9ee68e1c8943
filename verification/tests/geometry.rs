//! Vectors, matrices, planes and the projection on concrete values,
//! including the round-trip properties.

use graphics_engine::fixed::FX_ONE;
use graphics_engine::math::{Mat3x3, Mat4x4, Triangle, Vec2, Vec3, Vec4};
use graphics_engine::render::Camera;

const HALF: i64 = 32768;

fn close(a: i64, b: i64, tol: i64) -> bool {
    (a - b).abs() <= tol
}

#[test]
fn vec2_carries_its_components() {
    let v = Vec2::new(3i32, -7i32);
    assert_eq!(v.x, 3);
    assert_eq!(v.y, -7);
}

#[test]
fn vector_arithmetic() {
    let a = Vec4::new3d(FX_ONE, 2 * FX_ONE, -FX_ONE);
    let b = Vec4::new3d(HALF, -FX_ONE, 3 * FX_ONE);
    let s = a.add(&b);
    assert_eq!((s.x, s.y, s.z, s.w), (98304, FX_ONE, 2 * FX_ONE, FX_ONE));
    let d = a.sub(&b);
    assert_eq!((d.x, d.y, d.z), (HALF, 3 * FX_ONE, -4 * FX_ONE));
    assert_eq!(a.dot(&b), HALF - 2 * FX_ONE - 3 * FX_ONE);
    // 1 * (-1) - 0.5 * 2 == -2
    assert_eq!(a.cross_len_2d(&b), -2 * FX_ONE);
    let sc = a.scale(HALF);
    assert_eq!((sc.x, sc.y, sc.z, sc.w), (HALF, FX_ONE, -HALF, FX_ONE));
}

#[test]
fn cross_product_of_axes() {
    let x = Vec4::new3d(FX_ONE, 0, 0);
    let y = Vec4::new3d(0, FX_ONE, 0);
    let z = x.cross(&y);
    assert_eq!((z.x, z.y, z.z, z.w), (0, 0, FX_ONE, 0));
}

#[test]
fn normalization_gives_a_unit_vector() {
    let v = Vec4::new3d(3 * FX_ONE, 4 * FX_ONE, 0);
    let n = v.normalized();
    // (3, 4, 0) / 5 = (0.6, 0.8, 0).
    assert!(close(n.x, 39321, 4), "{}", n.x);
    assert!(close(n.y, 52428, 4), "{}", n.y);
    assert_eq!(n.z, 0);
    let zero = Vec4::new3d(0, 0, 0).normalized();
    assert_eq!((zero.x, zero.y, zero.z), (0, 0, 0));
}

#[test]
fn perspective_division() {
    let mut v = Vec4::new(2 * FX_ONE, -4 * FX_ONE, FX_ONE, 2 * FX_ONE);
    v.perspective_div();
    assert_eq!((v.x, v.y, v.z, v.w), (FX_ONE, -2 * FX_ONE, HALF, 2 * FX_ONE));
    let mut w0 = Vec4::new(FX_ONE, FX_ONE, FX_ONE, 0);
    w0.perspective_div();
    assert_eq!((w0.x, w0.y, w0.z, w0.w), (FX_ONE, FX_ONE, FX_ONE, 0));
}

#[test]
fn rotation_matrix_at_zero_is_identity() {
    let m = Mat4x4::rotation(&Vec3::new(0, 0, 0));
    let v = Vec4::new3d(12345, -54321, 99999);
    let r = m.apply(&v);
    assert_eq!((r.x, r.y, r.z, r.w), (12345, -54321, 99999, FX_ONE));
}

#[test]
fn rotation_by_90_degrees_about_y() {
    let m = Mat4x4::rotation(&Vec3::new(0, 90 * FX_ONE, 0));
    let v = Vec4::new3d(0, 0, FX_ONE);
    let r = m.apply(&v);
    // Forward turns onto the x axis exactly: sin and cos of 90 are exact.
    assert_eq!((r.x, r.y, r.z), (FX_ONE, 0, 0));
}

#[test]
fn single_axis_rotation_round_trip_within_epsilon() {
    let angles = Vec3::new(0, 30 * FX_ONE, 0);
    let back_angles = Vec3::new(0, -30 * FX_ONE, 0);
    let v = Vec4::new3d(12345, -54321, 99999);
    let rv = Mat4x4::rotation(&angles).apply(&v);
    let back = Mat4x4::rotation(&back_angles).apply(&rv);
    assert!(close(back.x, v.x, 512), "{} vs {}", back.x, v.x);
    assert!(close(back.y, v.y, 512));
    assert!(close(back.z, v.z, 512));
    assert_eq!(back.w, v.w);
}

#[test]
fn translation_round_trip_is_exact() {
    let t = Vec3::new(3 * FX_ONE, -5 * FX_ONE, 7 * FX_ONE);
    let nt = t.neg();
    let v = Vec4::new3d(12345, -54321, 99999);
    let there = Mat4x4::translation(&t).apply(&v);
    let back = Mat4x4::translation(&nt).apply(&there);
    assert_eq!((back.x, back.y, back.z, back.w), (v.x, v.y, v.z, v.w));
}

#[test]
fn matrix_product_against_vector_application() {
    let a = Mat4x4::rotation(&Vec3::new(0, 45 * FX_ONE, 0));
    let b = Mat4x4::translation(&Vec3::new(FX_ONE, 0, 0));
    let ab = a.mul(&b);
    let v = Vec4::new3d(HALF, FX_ONE, -HALF);
    let direct = a.apply(&b.apply(&v));
    let composed = ab.apply(&v);
    assert!(close(direct.x, composed.x, 4));
    assert!(close(direct.y, composed.y, 4));
    assert!(close(direct.z, composed.z, 4));
}

#[test]
fn mat3_applies_row_by_row() {
    let m = Mat3x3::rotation(&Vec3::new(0, 0, 90 * FX_ONE));
    let v = Vec3::new(FX_ONE, 0, 0);
    let r = m.apply(&v);
    assert_eq!((r.x, r.y, r.z), (0, FX_ONE, 0));
}

#[test]
fn plane_self_intersection_returns_the_base_point() {
    let p = Vec4::new3d(3 * FX_ONE, -2 * FX_ONE, 5 * FX_ONE);
    let n = Vec4::new3d(7, 13, -29);
    let plane = Vec4::new_plane(p, n);
    let x = plane.intersect_with_segment(&p, &p.add(&n));
    assert_eq!((x.x, x.y, x.z, x.w), (p.x, p.y, p.z, p.w));
}

#[test]
fn intersection_lies_on_the_plane_within_epsilon() {
    let plane = Vec4::new_plane(Vec4::new3d(0, 0, HALF), Vec4::new3d(0, 0, FX_ONE));
    let a = Vec4::new3d(0, 0, 0);
    let b = Vec4::new3d(FX_ONE, FX_ONE, 3 * FX_ONE);
    let x = plane.intersect_with_segment(&a, &b);
    let dist = plane.dot(&x) + plane.w;
    assert!(dist.abs() <= 4, "distance {}", dist);
    // On an axis-aligned segment the intersection is exact and inside.
    let x2 = plane.intersect_with_segment(&a, &Vec4::new3d(0, 0, FX_ONE));
    assert_eq!(x2.z, HALF);
    assert!(plane.is_point_inside(&x2));
}

#[test]
fn point_inside_test_follows_the_signed_distance() {
    let plane = Vec4::new_plane(Vec4::new3d(0, 0, HALF), Vec4::new3d(0, 0, FX_ONE));
    assert!(plane.is_point_inside(&Vec4::new3d(0, 0, FX_ONE)));
    assert!(plane.is_point_inside(&Vec4::new3d(5 * FX_ONE, 0, HALF)));
    assert!(!plane.is_point_inside(&Vec4::new3d(0, 0, HALF - 1)));
    assert!(!plane.is_point_inside(&Vec4::new3d(0, 0, -FX_ONE)));
}

#[test]
fn clockwise_swaps_a_counterclockwise_triangle() {
    let t = Triangle::new(
        Vec4::new3d(0, 0, 0),
        Vec4::new3d(FX_ONE, 0, 0),
        Vec4::new3d(0, FX_ONE, 0),
    );
    let c = t.clockwise();
    assert_eq!(c.p1, t.p2);
    assert_eq!(c.p2, t.p1);
    assert_eq!(c.p3, t.p3);
    // Already clockwise: unchanged.
    let cc = c.clockwise();
    assert_eq!(cc, c);
}

#[test]
fn projection_maps_near_to_zero_and_far_to_one() {
    let cam = Camera {
        vertical_fov: 90 * FX_ONE,
        z_near: HALF,
        z_far: 2 * FX_ONE,
        position: Vec3::new(0, 0, 0),
        rotation: Vec3::new(0, 0, 0),
    };
    let m = cam.perspective_mat(FX_ONE);
    let mut near = m.apply(&Vec4::new3d(0, 0, HALF));
    near.perspective_div();
    assert_eq!(near.z, 0);
    let mut far = m.apply(&Vec4::new3d(0, 0, 2 * FX_ONE));
    far.perspective_div();
    assert_eq!(far.z, FX_ONE);
}
