//! The triangle clipper on concrete triangles and planes.

use graphics_engine::clip::{clip_triangle, clip_triangles};
use graphics_engine::fixed::FX_ONE;
use graphics_engine::math::{Triangle, Vec4};

const HALF: i64 = 32768;

fn near_plane(z: i64) -> Vec4 {
    Vec4::new_plane(Vec4::new3d(0, 0, z), Vec4::new3d(0, 0, FX_ONE))
}

#[test]
fn fully_inside_triangle_passes_unchanged() {
    let t = Triangle::new(
        Vec4::new3d(0, 0, FX_ONE),
        Vec4::new3d(FX_ONE, 0, 2 * FX_ONE),
        Vec4::new3d(0, FX_ONE, 3 * FX_ONE),
    );
    let plane = near_plane(HALF);
    let mut res1 = None;
    let mut res2 = None;
    clip_triangle(t, &plane, &mut res1, &mut res2);
    assert_eq!(res1, Some(t));
    assert_eq!(res2, None);
}

#[test]
fn fully_outside_triangle_is_discarded() {
    let t = Triangle::new(
        Vec4::new3d(0, 0, -FX_ONE),
        Vec4::new3d(FX_ONE, 0, 0),
        Vec4::new3d(0, FX_ONE, HALF - 1),
    );
    let plane = near_plane(HALF);
    let mut res1 = None;
    let mut res2 = None;
    clip_triangle(t, &plane, &mut res1, &mut res2);
    assert_eq!(res1, None);
    assert_eq!(res2, None);
}

#[test]
fn near_plane_clip_replaces_the_vertex_behind_the_camera() {
    // Camera-space triangle with one vertex behind the near plane at
    // z = 0.5; the clipper keeps the two front vertices and meets the
    // plane at z = 0.5 exactly on both cut edges.
    let t = Triangle::new(
        Vec4::new3d(0, 0, -FX_ONE),
        Vec4::new3d(FX_ONE, 0, FX_ONE),
        Vec4::new3d(-FX_ONE, 0, FX_ONE),
    );
    let plane = near_plane(HALF);
    let mut res1 = None;
    let mut res2 = None;
    clip_triangle(t, &plane, &mut res1, &mut res2);
    let a = res1.expect("first output triangle");
    let b = res2.expect("second output triangle");
    assert_eq!(a.p1, Vec4::new(FX_ONE, 0, FX_ONE, FX_ONE));
    assert_eq!(a.p2, Vec4::new(-FX_ONE, 0, FX_ONE, FX_ONE));
    assert_eq!(a.p3, Vec4::new(49152, 0, HALF, FX_ONE));
    assert_eq!(b.p1, Vec4::new(-FX_ONE, 0, FX_ONE, FX_ONE));
    assert_eq!(b.p2, Vec4::new(-49152, 0, HALF, FX_ONE));
    assert_eq!(b.p3, Vec4::new(49152, 0, HALF, FX_ONE));
}

#[test]
fn one_inside_vertex_keeps_a_single_triangle() {
    let t = Triangle::new(
        Vec4::new3d(0, 0, FX_ONE),
        Vec4::new3d(FX_ONE, 0, 0),
        Vec4::new3d(-FX_ONE, 0, 0),
    );
    let plane = near_plane(HALF);
    let mut res1 = None;
    let mut res2 = None;
    clip_triangle(t, &plane, &mut res1, &mut res2);
    let a = res1.expect("kept triangle");
    assert_eq!(res2, None);
    assert_eq!(a.p1, Vec4::new(0, 0, FX_ONE, FX_ONE));
    // Both intersections sit at z = 0.5 exactly.
    assert_eq!(a.p2.z, HALF);
    assert_eq!(a.p3.z, HALF);
}

#[test]
fn clip_preserves_the_cached_normal() {
    let n = Vec4::new(0, FX_ONE, 0, 0);
    let t = Triangle::new_with_normal(
        Vec4::new3d(0, 0, FX_ONE),
        Vec4::new3d(FX_ONE, 0, 0),
        Vec4::new3d(-FX_ONE, 0, 0),
        Some(n),
    );
    let plane = near_plane(HALF);
    let mut res1 = None;
    let mut res2 = None;
    clip_triangle(t, &plane, &mut res1, &mut res2);
    assert_eq!(res1.expect("kept triangle").world_normal, Some(n));
}

#[test]
fn clipping_twice_equals_clipping_once() {
    // The cut points land exactly on the plane here, so a second pass
    // over the output changes nothing.
    let t = Triangle::new(
        Vec4::new3d(0, 0, -FX_ONE),
        Vec4::new3d(FX_ONE, 0, FX_ONE),
        Vec4::new3d(-FX_ONE, 0, FX_ONE),
    );
    let plane = near_plane(HALF);
    let once = clip_triangles(vec![t], &plane);
    let twice = clip_triangles(once.clone(), &plane);
    assert_eq!(once.len(), 2);
    assert_eq!(once, twice);
}

#[test]
fn every_emitted_triangle_leads_with_an_inside_vertex() {
    let plane = near_plane(HALF);
    let cases = vec![
        Triangle::new(
            Vec4::new3d(0, 0, -FX_ONE),
            Vec4::new3d(FX_ONE, 0, FX_ONE),
            Vec4::new3d(-FX_ONE, 0, FX_ONE),
        ),
        Triangle::new(
            Vec4::new3d(0, 0, FX_ONE),
            Vec4::new3d(FX_ONE, 0, 0),
            Vec4::new3d(-FX_ONE, 0, 0),
        ),
        Triangle::new(
            Vec4::new3d(0, 0, FX_ONE),
            Vec4::new3d(FX_ONE, 0, 2 * FX_ONE),
            Vec4::new3d(0, FX_ONE, 3 * FX_ONE),
        ),
    ];
    let out = clip_triangles(cases, &plane);
    assert_eq!(out.len(), 4);
    for t in &out {
        assert!(plane.is_point_inside(&t.p1));
    }
}

#[test]
fn clip_output_vertices_lie_inside_within_epsilon() {
    // Sweep triangles crossing the plane at many angles; every vertex of
    // every output triangle is inside up to a few fixed-point digits of
    // truncation.
    let plane = near_plane(HALF);
    for k in 0..48i64 {
        let t = Triangle::new(
            Vec4::new3d(k * 1000 - 24000, k * 700 - 16000, -FX_ONE - k * 321),
            Vec4::new3d(FX_ONE + k * 13, -k * 200, FX_ONE + k * 777),
            Vec4::new3d(-FX_ONE - k * 57, k * 900, 2 * FX_ONE - k * 123),
        );
        for out in clip_triangles(vec![t], &plane) {
            for v in [out.p1, out.p2, out.p3] {
                let dist = plane.dot(&v) + plane.w;
                assert!(dist >= -8, "vertex {:?} at distance {}", v, dist);
            }
        }
    }
}
