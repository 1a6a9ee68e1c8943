//! The built-in model: a unit cube ahead of the origin, as twelve
//! triangles, two per face.  It stands in when no model file is
//! available.

use vstd::prelude::*;

use crate::math::{Mesh, Triangle, Vec4};

verus! {

/// One cube vertex as a homogeneous point.
pub open spec fn cube_point_s(x: i64, y: i64, z: i64) -> Vec4 {
    Vec4 { x, y, z, w: 65536 }
}

/// One cube face triangle, with no cached normal.
pub open spec fn cube_tri_s(a: Vec4, b: Vec4, c: Vec4) -> Triangle {
    Triangle { p1: a, p2: b, p3: c, world_normal: None }
}

/// The twelve triangles of the cube spanning half a unit to each side in
/// `x` and `y`, from one and a half to two and a half units in `z`.
pub open spec fn cube_mesh_s() -> Seq<Triangle> {
    seq![
        cube_tri_s(
            cube_point_s(-32768i64, -32768i64, 98304i64),
            cube_point_s(-32768i64, 32768i64, 98304i64),
            cube_point_s(32768i64, 32768i64, 98304i64),
        ),
        cube_tri_s(
            cube_point_s(-32768i64, -32768i64, 98304i64),
            cube_point_s(32768i64, 32768i64, 98304i64),
            cube_point_s(32768i64, -32768i64, 98304i64),
        ),
        cube_tri_s(
            cube_point_s(-32768i64, -32768i64, 163840i64),
            cube_point_s(-32768i64, 32768i64, 163840i64),
            cube_point_s(32768i64, 32768i64, 163840i64),
        ),
        cube_tri_s(
            cube_point_s(-32768i64, -32768i64, 163840i64),
            cube_point_s(32768i64, 32768i64, 163840i64),
            cube_point_s(32768i64, -32768i64, 163840i64),
        ),
        cube_tri_s(
            cube_point_s(-32768i64, -32768i64, 98304i64),
            cube_point_s(-32768i64, -32768i64, 163840i64),
            cube_point_s(-32768i64, 32768i64, 163840i64),
        ),
        cube_tri_s(
            cube_point_s(-32768i64, -32768i64, 98304i64),
            cube_point_s(-32768i64, 32768i64, 163840i64),
            cube_point_s(-32768i64, 32768i64, 98304i64),
        ),
        cube_tri_s(
            cube_point_s(32768i64, -32768i64, 98304i64),
            cube_point_s(32768i64, -32768i64, 163840i64),
            cube_point_s(32768i64, 32768i64, 163840i64),
        ),
        cube_tri_s(
            cube_point_s(32768i64, -32768i64, 98304i64),
            cube_point_s(32768i64, 32768i64, 163840i64),
            cube_point_s(32768i64, 32768i64, 98304i64),
        ),
        cube_tri_s(
            cube_point_s(-32768i64, 32768i64, 98304i64),
            cube_point_s(-32768i64, 32768i64, 163840i64),
            cube_point_s(32768i64, 32768i64, 163840i64),
        ),
        cube_tri_s(
            cube_point_s(-32768i64, 32768i64, 98304i64),
            cube_point_s(32768i64, 32768i64, 163840i64),
            cube_point_s(32768i64, 32768i64, 98304i64),
        ),
        cube_tri_s(
            cube_point_s(-32768i64, -32768i64, 98304i64),
            cube_point_s(-32768i64, -32768i64, 163840i64),
            cube_point_s(32768i64, -32768i64, 163840i64),
        ),
        cube_tri_s(
            cube_point_s(-32768i64, -32768i64, 98304i64),
            cube_point_s(32768i64, -32768i64, 163840i64),
            cube_point_s(32768i64, -32768i64, 98304i64),
        ),
    ]
}

/// The built-in cube mesh.
pub fn cube() -> (r: Mesh)
    ensures
        r.triangles@ == cube_mesh_s(),
        r.triangles@.len() == 12,
{
    let mut triangles: Vec<Triangle> = Vec::new();
    triangles.push(Triangle::new(
        Vec4::new3d(-32768, -32768, 98304i64),
        Vec4::new3d(-32768, 32768, 98304i64),
        Vec4::new3d(32768, 32768, 98304i64),
    ));
    triangles.push(Triangle::new(
        Vec4::new3d(-32768, -32768, 98304i64),
        Vec4::new3d(32768, 32768, 98304i64),
        Vec4::new3d(32768, -32768, 98304i64),
    ));
    triangles.push(Triangle::new(
        Vec4::new3d(-32768, -32768, 163840i64),
        Vec4::new3d(-32768, 32768, 163840i64),
        Vec4::new3d(32768, 32768, 163840i64),
    ));
    triangles.push(Triangle::new(
        Vec4::new3d(-32768, -32768, 163840i64),
        Vec4::new3d(32768, 32768, 163840i64),
        Vec4::new3d(32768, -32768, 163840i64),
    ));
    triangles.push(Triangle::new(
        Vec4::new3d(-32768, -32768, 98304i64),
        Vec4::new3d(-32768, -32768, 163840i64),
        Vec4::new3d(-32768, 32768, 163840i64),
    ));
    triangles.push(Triangle::new(
        Vec4::new3d(-32768, -32768, 98304i64),
        Vec4::new3d(-32768, 32768, 163840i64),
        Vec4::new3d(-32768, 32768, 98304i64),
    ));
    triangles.push(Triangle::new(
        Vec4::new3d(32768, -32768, 98304i64),
        Vec4::new3d(32768, -32768, 163840i64),
        Vec4::new3d(32768, 32768, 163840i64),
    ));
    triangles.push(Triangle::new(
        Vec4::new3d(32768, -32768, 98304i64),
        Vec4::new3d(32768, 32768, 163840i64),
        Vec4::new3d(32768, 32768, 98304i64),
    ));
    triangles.push(Triangle::new(
        Vec4::new3d(-32768, 32768, 98304i64),
        Vec4::new3d(-32768, 32768, 163840i64),
        Vec4::new3d(32768, 32768, 163840i64),
    ));
    triangles.push(Triangle::new(
        Vec4::new3d(-32768, 32768, 98304i64),
        Vec4::new3d(32768, 32768, 163840i64),
        Vec4::new3d(32768, 32768, 98304i64),
    ));
    triangles.push(Triangle::new(
        Vec4::new3d(-32768, -32768, 98304i64),
        Vec4::new3d(-32768, -32768, 163840i64),
        Vec4::new3d(32768, -32768, 163840i64),
    ));
    triangles.push(Triangle::new(
        Vec4::new3d(-32768, -32768, 98304i64),
        Vec4::new3d(32768, -32768, 163840i64),
        Vec4::new3d(32768, -32768, 98304i64),
    ));
    proof {
        assert(triangles@ =~= cube_mesh_s());
    }
    Mesh { triangles }
}

} // verus!
