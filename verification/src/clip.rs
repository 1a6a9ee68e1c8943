//! Triangle clipping against a plane.
//!
//! The three vertices are partitioned by [`plane_inside_s`]; a fully
//! outside triangle is discarded, a fully inside one passes unchanged, and
//! the mixed cases are rebuilt from the inside vertices and the
//! segment-plane intersections, one triangle when one vertex is inside and
//! two when two are.  Both produced triangles inherit the source
//! triangle's cached world normal.

use vstd::prelude::*;

use crate::math::{plane_inside_s, plane_intersect_s, Triangle, Vec4};

verus! {

/// The single triangle kept when one vertex `i` is inside and `o1`, `o2`
/// are outside: the inside vertex and the two intersections.
pub open spec fn clip_one_inside_s(plane: Vec4, n: Option<Vec4>, i: Vec4, o1: Vec4, o2: Vec4)
    -> Seq<Triangle> {
    seq![
        Triangle {
            p1: i,
            p2: plane_intersect_s(plane, i, o1),
            p3: plane_intersect_s(plane, i, o2),
            world_normal: n,
        },
    ]
}

/// The two triangles kept when `i1`, `i2` are inside and `o` is outside.
pub open spec fn clip_two_inside_s(plane: Vec4, n: Option<Vec4>, i1: Vec4, i2: Vec4, o: Vec4)
    -> Seq<Triangle> {
    seq![
        Triangle { p1: i1, p2: i2, p3: plane_intersect_s(plane, i1, o), world_normal: n },
        Triangle {
            p1: i2,
            p2: plane_intersect_s(plane, i2, o),
            p3: plane_intersect_s(plane, i1, o),
            world_normal: n,
        },
    ]
}

/// The triangles that survive clipping one triangle against one plane, in
/// emission order; the inside and outside vertices are taken in the order
/// `p1`, `p2`, `p3`.
pub open spec fn clip_triangle_s(t: Triangle, plane: Vec4) -> Seq<Triangle> {
    let in1 = plane_inside_s(plane, t.p1);
    let in2 = plane_inside_s(plane, t.p2);
    let in3 = plane_inside_s(plane, t.p3);
    if in1 && in2 && in3 {
        seq![t]
    } else if !in1 && !in2 && !in3 {
        Seq::empty()
    } else if in1 && !in2 && !in3 {
        clip_one_inside_s(plane, t.world_normal, t.p1, t.p2, t.p3)
    } else if !in1 && in2 && !in3 {
        clip_one_inside_s(plane, t.world_normal, t.p2, t.p1, t.p3)
    } else if !in1 && !in2 && in3 {
        clip_one_inside_s(plane, t.world_normal, t.p3, t.p1, t.p2)
    } else if in1 && in2 && !in3 {
        clip_two_inside_s(plane, t.world_normal, t.p1, t.p2, t.p3)
    } else if in1 && !in2 && in3 {
        clip_two_inside_s(plane, t.world_normal, t.p1, t.p3, t.p2)
    } else {
        clip_two_inside_s(plane, t.world_normal, t.p2, t.p3, t.p1)
    }
}

/// The concatenation of the clip results of a whole list, in order.
pub open spec fn clip_triangles_s(ts: Seq<Triangle>, plane: Vec4) -> Seq<Triangle>
    decreases ts.len(),
{
    if ts.len() == 0 {
        Seq::empty()
    } else {
        clip_triangles_s(ts.drop_last(), plane) + clip_triangle_s(ts.last(), plane)
    }
}

/// Clip one triangle against one plane.  On return `res1` and `res2` hold
/// the surviving triangles of [`clip_triangle_s`], first in `res1`.
pub fn clip_triangle(
    triangle: Triangle,
    plane: &Vec4,
    res1: &mut Option<Triangle>,
    res2: &mut Option<Triangle>,
)
    ensures
        ({
            let s = clip_triangle_s(triangle, *plane);
            &&& s.len() == 0 ==> *final(res1) == None::<Triangle> && *final(res2)
                == None::<Triangle>
            &&& s.len() == 1 ==> *final(res1) == Some(s[0]) && *final(res2) == None::<Triangle>
            &&& s.len() == 2 ==> *final(res1) == Some(s[0]) && *final(res2) == Some(s[1])
        }),
{
    let in1 = plane.is_point_inside(&triangle.p1);
    let in2 = plane.is_point_inside(&triangle.p2);
    let in3 = plane.is_point_inside(&triangle.p3);
    if in1 && in2 && in3 {
        *res1 = Some(triangle);
        *res2 = None;
    } else if !in1 && !in2 && !in3 {
        *res1 = None;
        *res2 = None;
    } else if in1 && !in2 && !in3 {
        *res1 = Some(clip_one_inside(triangle, plane, triangle.p1, triangle.p2, triangle.p3));
        *res2 = None;
    } else if !in1 && in2 && !in3 {
        *res1 = Some(clip_one_inside(triangle, plane, triangle.p2, triangle.p1, triangle.p3));
        *res2 = None;
    } else if !in1 && !in2 && in3 {
        *res1 = Some(clip_one_inside(triangle, plane, triangle.p3, triangle.p1, triangle.p2));
        *res2 = None;
    } else {
        let (i1, i2, o) = if in1 && in2 {
            (triangle.p1, triangle.p2, triangle.p3)
        } else if in1 {
            (triangle.p1, triangle.p3, triangle.p2)
        } else {
            (triangle.p2, triangle.p3, triangle.p1)
        };
        let intersection1 = plane.intersect_with_segment(&i1, &o);
        let intersection2 = plane.intersect_with_segment(&i2, &o);
        *res1 = Some(
            Triangle { p1: i1, p2: i2, p3: intersection1, world_normal: triangle.world_normal },
        );
        *res2 = Some(
            Triangle {
                p1: i2,
                p2: intersection2,
                p3: intersection1,
                world_normal: triangle.world_normal,
            },
        );
    }
}

/// The kept triangle of the one-inside case.
fn clip_one_inside(triangle: Triangle, plane: &Vec4, i: Vec4, o1: Vec4, o2: Vec4) -> (r: Triangle)
    ensures
        r == clip_one_inside_s(*plane, triangle.world_normal, i, o1, o2)[0],
{
    let intersection1 = plane.intersect_with_segment(&i, &o1);
    let intersection2 = plane.intersect_with_segment(&i, &o2);
    Triangle {
        p1: i,
        p2: intersection1,
        p3: intersection2,
        world_normal: triangle.world_normal,
    }
}

/// Clip a whole list of triangles against one plane; the output of the
/// clip of each input triangle is appended in order.
pub fn clip_triangles(triangles: Vec<Triangle>, plane: &Vec4) -> (r: Vec<Triangle>)
    ensures
        r@ == clip_triangles_s(triangles@, *plane),
{
    let mut clipped: Vec<Triangle> = Vec::new();
    let n = triangles.len();
    let mut i: usize = 0;
    while i < n
        invariant
            i <= n,
            n == triangles@.len(),
            clipped@ == clip_triangles_s(triangles@.take(i as int), *plane),
        decreases n - i,
    {
        let mut res1: Option<Triangle> = None;
        let mut res2: Option<Triangle> = None;
        clip_triangle(triangles[i], plane, &mut res1, &mut res2);
        let ghost prefix = triangles@.take(i as int);
        let ghost cur = clip_triangle_s(triangles@[i as int], *plane);
        if let Some(tr1) = res1 {
            clipped.push(tr1);
            if let Some(tr2) = res2 {
                clipped.push(tr2);
            }
        }
        proof {
            assert(triangles@.take(i + 1).drop_last() =~= prefix);
            assert(triangles@.take(i + 1).last() == triangles@[i as int]);
            assert(clip_triangles_s(triangles@.take(i + 1), *plane) == clip_triangles_s(
                prefix,
                *plane,
            ) + cur);
            assert(clipped@ =~= clip_triangles_s(prefix, *plane) + cur);
        }
        i += 1;
    }
    proof {
        assert(triangles@.take(n as int) =~= triangles@);
    }
    clipped
}

/// A triangle with all three vertices inside the plane clips to exactly
/// itself: the vertices, and the cached normal, are returned unchanged.
pub proof fn lemma_clip_all_inside_identity(t: Triangle, plane: Vec4)
    requires
        plane_inside_s(plane, t.p1),
        plane_inside_s(plane, t.p2),
        plane_inside_s(plane, t.p3),
    ensures
        clip_triangle_s(t, plane) == seq![t],
{
}

/// A triangle with all three vertices outside the plane clips to nothing.
pub proof fn lemma_clip_all_outside_empty(t: Triangle, plane: Vec4)
    requires
        !plane_inside_s(plane, t.p1),
        !plane_inside_s(plane, t.p2),
        !plane_inside_s(plane, t.p3),
    ensures
        clip_triangle_s(t, plane) == Seq::<Triangle>::empty(),
{
}

/// Every vertex that the clipper carries over from the input triangle
/// lies inside the plane: each emitted triangle leads with an inside
/// vertex, and when two triangles are emitted, the first one's second
/// vertex is the other kept inside vertex.  A fully inside triangle
/// keeps all three (see `lemma_clip_all_inside_identity`); the remaining
/// vertices are computed intersections, which land on the plane up to
/// fixed-point truncation.
pub proof fn lemma_clip_kept_vertices_inside(t: Triangle, plane: Vec4)
    ensures
        forall|k: int|
            0 <= k < clip_triangle_s(t, plane).len() ==> plane_inside_s(
                plane,
                #[trigger] clip_triangle_s(t, plane)[k].p1,
            ),
        clip_triangle_s(t, plane).len() == 2 ==> plane_inside_s(
            plane,
            clip_triangle_s(t, plane)[0].p2,
        ),
{
}

/// A list whose triangles all lie fully outside the plane clips to the
/// empty list: such triangles contribute nothing downstream.
pub proof fn lemma_clip_triangles_all_outside_empty(ts: Seq<Triangle>, plane: Vec4)
    requires
        forall|k: int|
            0 <= k < ts.len() ==> !plane_inside_s(plane, #[trigger] ts[k].p1) && !plane_inside_s(
                plane,
                ts[k].p2,
            ) && !plane_inside_s(plane, ts[k].p3),
    ensures
        clip_triangles_s(ts, plane) == Seq::<Triangle>::empty(),
    decreases ts.len(),
{
    if ts.len() == 0 {
    } else {
        lemma_clip_triangles_all_outside_empty(ts.drop_last(), plane);
        assert(ts.last() == ts[ts.len() - 1]);
        assert(!plane_inside_s(plane, ts[ts.len() - 1].p1));
        lemma_clip_all_outside_empty(ts.last(), plane);
        assert(clip_triangles_s(ts, plane) =~= Seq::<Triangle>::empty());
    }
}

/// Clipping is idempotent on triangles that lie fully inside the plane: a
/// list every triangle of which has all vertices inside passes through a
/// further clip against the same plane unchanged.
pub proof fn lemma_clip_triangles_all_inside_identity(ts: Seq<Triangle>, plane: Vec4)
    requires
        forall|k: int|
            0 <= k < ts.len() ==> plane_inside_s(plane, #[trigger] ts[k].p1) && plane_inside_s(
                plane,
                ts[k].p2,
            ) && plane_inside_s(plane, ts[k].p3),
    ensures
        clip_triangles_s(ts, plane) == ts,
    decreases ts.len(),
{
    if ts.len() == 0 {
        assert(clip_triangles_s(ts, plane) =~= ts);
    } else {
        lemma_clip_triangles_all_inside_identity(ts.drop_last(), plane);
        assert(ts.last() == ts[ts.len() - 1]);
        assert(plane_inside_s(plane, ts[ts.len() - 1].p1));
        lemma_clip_all_inside_identity(ts.last(), plane);
        assert(clip_triangles_s(ts, plane) =~= ts);
    }
}

} // verus!
