//! Vectors, matrices, triangles and planes over fixed-point scalars.
//!
//! Every executable operation has a spec-function mirror (suffix `_s`)
//! stating its result exactly, component by component, in terms of the
//! saturating fixed-point arithmetic of [`crate::fixed`].

use vstd::prelude::*;

use crate::fixed::{
    fx_add, fx_add_s, fx_div, fx_div_s, fx_mul, fx_mul_s, fx_neg, fx_neg_s, fx_sqrt, fx_sqrt_s,
    fx_sub, fx_sub_s, lemma_fx_div_zero, lemma_fx_mul_comm, lemma_fx_mul_one, lemma_fx_mul_zero,
    FX_MIN, FX_ONE,
};
use crate::trig::{cos_deg, cos_deg_s, sin_deg, sin_deg_s};

verus! {

/// A pair, used for pixel coordinates.
#[derive(Clone, Copy, Debug)]
pub struct Vec2<T> {
    pub x: T,
    pub y: T,
}

/// A 3-vector of fixed-point scalars: positions, Euler angles, directions.
#[derive(Clone, Copy, PartialEq, Eq, Structural, Debug)]
pub struct Vec3 {
    pub x: i64,
    pub y: i64,
    pub z: i64,
}

/// A homogeneous 4-vector of fixed-point scalars; also a plane equation,
/// with `(x, y, z)` the normal and `w` the offset.
#[derive(Clone, Copy, PartialEq, Eq, Structural, Debug)]
pub struct Vec4 {
    pub x: i64,
    pub y: i64,
    pub z: i64,
    pub w: i64,
}

/// A row-major 3 by 3 matrix of fixed-point scalars.
#[derive(Clone, Copy, Debug)]
pub struct Mat3x3 {
    pub content: [[i64; 3]; 3],
}

/// A row-major 4 by 4 matrix of fixed-point scalars.
#[derive(Clone, Copy, Debug)]
pub struct Mat4x4 {
    pub content: [[i64; 4]; 4],
}

/// An ordered triangle of homogeneous points, with an optional cached
/// world-space unit normal carried through the pipeline.
#[derive(Clone, Copy, PartialEq, Debug)]
pub struct Triangle {
    pub p1: Vec4,
    pub p2: Vec4,
    pub p3: Vec4,
    pub world_normal: Option<Vec4>,
}

/// An ordered list of triangles in object-local coordinates.
#[derive(Clone, Debug)]
pub struct Mesh {
    pub triangles: Vec<Triangle>,
}

/// Saturating addition at the `i64` level.
pub open spec fn add64(a: i64, b: i64) -> i64 {
    fx_add_s(a as int, b as int) as i64
}

/// Saturating subtraction at the `i64` level.
pub open spec fn sub64(a: i64, b: i64) -> i64 {
    fx_sub_s(a as int, b as int) as i64
}

/// Saturating multiplication at the `i64` level.
pub open spec fn mul64(a: i64, b: i64) -> i64 {
    fx_mul_s(a as int, b as int) as i64
}

/// Saturating division at the `i64` level.
pub open spec fn div64(a: i64, b: i64) -> i64 {
    fx_div_s(a as int, b as int) as i64
}

/// Saturating negation at the `i64` level.
pub open spec fn neg64(a: i64) -> i64 {
    fx_neg_s(a as int) as i64
}

/// Fixed-point square root at the `i64` level.
pub open spec fn sqrt64(a: i64) -> i64 {
    fx_sqrt_s(a as int) as i64
}

/// The 3-dimensional dot product of two homogeneous vectors; `w` is
/// ignored.
pub open spec fn dot_s(a: Vec4, b: Vec4) -> i64 {
    add64(add64(mul64(a.x, b.x), mul64(a.y, b.y)), mul64(a.z, b.z))
}

/// The z-component of the cross product of the xy-projections.
pub open spec fn cross_len_2d_s(a: Vec4, b: Vec4) -> i64 {
    sub64(mul64(a.x, b.y), mul64(b.x, a.y))
}

/// Componentwise sum; the left operand's `w` is kept.
pub open spec fn v4_add_s(a: Vec4, b: Vec4) -> Vec4 {
    Vec4 { x: add64(a.x, b.x), y: add64(a.y, b.y), z: add64(a.z, b.z), w: a.w }
}

/// Componentwise difference; the left operand's `w` is kept.
pub open spec fn v4_sub_s(a: Vec4, b: Vec4) -> Vec4 {
    Vec4 { x: sub64(a.x, b.x), y: sub64(a.y, b.y), z: sub64(a.z, b.z), w: a.w }
}

/// The vector scaled in `x`, `y`, `z`; `w` is kept.
pub open spec fn v4_scale_s(a: Vec4, s: i64) -> Vec4 {
    Vec4 { x: mul64(a.x, s), y: mul64(a.y, s), z: mul64(a.z, s), w: a.w }
}

/// The 3-dimensional cross product, as a direction (`w` is zero).
pub open spec fn v4_cross_s(a: Vec4, b: Vec4) -> Vec4 {
    Vec4 {
        x: sub64(mul64(a.y, b.z), mul64(a.z, b.y)),
        y: sub64(mul64(a.z, b.x), mul64(a.x, b.z)),
        z: sub64(mul64(a.x, b.y), mul64(a.y, b.x)),
        w: 0,
    }
}

/// Perspective division: `x`, `y`, `z` divided by `w` when `w` is nonzero;
/// `w` itself is untouched.
pub open spec fn v4_pdiv_s(a: Vec4) -> Vec4 {
    if a.w == 0 {
        a
    } else {
        Vec4 { x: div64(a.x, a.w), y: div64(a.y, a.w), z: div64(a.z, a.w), w: a.w }
    }
}

/// The vector divided by the fixed-point length of its `x`, `y`, `z` part;
/// all components become zero when the length rounds to zero.
pub open spec fn v4_normalized_s(a: Vec4) -> Vec4 {
    let l = sqrt64(dot_s(a, a));
    Vec4 { x: div64(a.x, l), y: div64(a.y, l), z: div64(a.z, l), w: a.w }
}

/// Componentwise sum of 3-vectors.
pub open spec fn v3_add_s(a: Vec3, b: Vec3) -> Vec3 {
    Vec3 { x: add64(a.x, b.x), y: add64(a.y, b.y), z: add64(a.z, b.z) }
}

/// Componentwise negation of a 3-vector.
pub open spec fn v3_neg_s(a: Vec3) -> Vec3 {
    Vec3 { x: neg64(a.x), y: neg64(a.y), z: neg64(a.z) }
}

/// A 3-vector scaled by a scalar.
pub open spec fn v3_scale_s(a: Vec3, s: i64) -> Vec3 {
    Vec3 { x: mul64(a.x, s), y: mul64(a.y, s), z: mul64(a.z, s) }
}

/// One row of a matrix applied to a 4-vector: the saturating sum of the
/// four products.
pub open spec fn row4_s(a: i64, b: i64, c: i64, d: i64, x: i64, y: i64, z: i64, w: i64) -> i64 {
    add64(add64(add64(mul64(a, x), mul64(b, y)), mul64(c, z)), mul64(d, w))
}

/// One row of a 3 by 3 matrix applied to a 3-vector.
pub open spec fn row3_s(a: i64, b: i64, c: i64, x: i64, y: i64, z: i64) -> i64 {
    add64(add64(mul64(a, x), mul64(b, y)), mul64(c, z))
}

/// A 4 by 4 matrix applied to a homogeneous vector, `w` row included.
pub open spec fn mat4_apply_s(m: Mat4x4, v: Vec4) -> Vec4 {
    Vec4 {
        x: row4_s(m.content[0][0], m.content[0][1], m.content[0][2], m.content[0][3], v.x, v.y, v.z, v.w),
        y: row4_s(m.content[1][0], m.content[1][1], m.content[1][2], m.content[1][3], v.x, v.y, v.z, v.w),
        z: row4_s(m.content[2][0], m.content[2][1], m.content[2][2], m.content[2][3], v.x, v.y, v.z, v.w),
        w: row4_s(m.content[3][0], m.content[3][1], m.content[3][2], m.content[3][3], v.x, v.y, v.z, v.w),
    }
}

/// A 3 by 3 matrix applied to a 3-vector.
pub open spec fn mat3_apply_s(m: Mat3x3, v: Vec3) -> Vec3 {
    Vec3 {
        x: row3_s(m.content[0][0], m.content[0][1], m.content[0][2], v.x, v.y, v.z),
        y: row3_s(m.content[1][0], m.content[1][1], m.content[1][2], v.x, v.y, v.z),
        z: row3_s(m.content[2][0], m.content[2][1], m.content[2][2], v.x, v.y, v.z),
    }
}

/// One entry of a matrix product: row `i` of `a` against column `j` of `b`.
pub open spec fn mat4_mul_entry_s(a: Mat4x4, b: Mat4x4, i: int, j: int) -> i64 {
    row4_s(
        a.content[i][0],
        a.content[i][1],
        a.content[i][2],
        a.content[i][3],
        b.content[0][j],
        b.content[1][j],
        b.content[2][j],
        b.content[3][j],
    )
}

/// The standard matrix product, entry by entry.
pub open spec fn mat4_mul_s(a: Mat4x4, b: Mat4x4) -> Mat4x4 {
    Mat4x4 {
        content: [
            [
                mat4_mul_entry_s(a, b, 0, 0),
                mat4_mul_entry_s(a, b, 0, 1),
                mat4_mul_entry_s(a, b, 0, 2),
                mat4_mul_entry_s(a, b, 0, 3),
            ],
            [
                mat4_mul_entry_s(a, b, 1, 0),
                mat4_mul_entry_s(a, b, 1, 1),
                mat4_mul_entry_s(a, b, 1, 2),
                mat4_mul_entry_s(a, b, 1, 3),
            ],
            [
                mat4_mul_entry_s(a, b, 2, 0),
                mat4_mul_entry_s(a, b, 2, 1),
                mat4_mul_entry_s(a, b, 2, 2),
                mat4_mul_entry_s(a, b, 2, 3),
            ],
            [
                mat4_mul_entry_s(a, b, 3, 0),
                mat4_mul_entry_s(a, b, 3, 1),
                mat4_mul_entry_s(a, b, 3, 2),
                mat4_mul_entry_s(a, b, 3, 3),
            ],
        ],
    }
}

/// The translation matrix: the identity with the offset in the last
/// column.
pub open spec fn translation_s(o: Vec3) -> Mat4x4 {
    Mat4x4 {
        content: [
            [FX_ONE, 0, 0, o.x],
            [0, FX_ONE, 0, o.y],
            [0, 0, FX_ONE, o.z],
            [0, 0, 0, FX_ONE],
        ],
    }
}

/// The XYZ Euler rotation matrix of three fixed-point angles in degrees,
/// with the exact element formulas of the classical composition.
pub open spec fn rot4_s(r: Vec3) -> Mat4x4 {
    let sx = sin_deg_s(r.x as int) as i64;
    let cx = cos_deg_s(r.x as int) as i64;
    let sy = sin_deg_s(r.y as int) as i64;
    let cy = cos_deg_s(r.y as int) as i64;
    let sz = sin_deg_s(r.z as int) as i64;
    let cz = cos_deg_s(r.z as int) as i64;
    Mat4x4 {
        content: [
            [
                mul64(cy, cz),
                sub64(mul64(mul64(sx, sy), cz), mul64(cx, sz)),
                add64(mul64(mul64(cx, sy), cz), mul64(sx, sz)),
                0,
            ],
            [
                mul64(cy, sz),
                add64(mul64(mul64(sx, sy), sz), mul64(cx, cz)),
                sub64(mul64(mul64(cx, sy), sz), mul64(sx, cz)),
                0,
            ],
            [neg64(sy), mul64(sx, cy), mul64(cx, cy), 0],
            [0, 0, 0, FX_ONE],
        ],
    }
}

/// The 3 by 3 form of the same rotation.
pub open spec fn rot3_s(r: Vec3) -> Mat3x3 {
    let sx = sin_deg_s(r.x as int) as i64;
    let cx = cos_deg_s(r.x as int) as i64;
    let sy = sin_deg_s(r.y as int) as i64;
    let cy = cos_deg_s(r.y as int) as i64;
    let sz = sin_deg_s(r.z as int) as i64;
    let cz = cos_deg_s(r.z as int) as i64;
    Mat3x3 {
        content: [
            [
                mul64(cy, cz),
                sub64(mul64(mul64(sx, sy), cz), mul64(cx, sz)),
                add64(mul64(mul64(cx, sy), cz), mul64(sx, sz)),
            ],
            [
                mul64(cy, sz),
                add64(mul64(mul64(sx, sy), sz), mul64(cx, cz)),
                sub64(mul64(mul64(cx, sy), sz), mul64(sx, cz)),
            ],
            [neg64(sy), mul64(sx, cy), mul64(cx, cy)],
        ],
    }
}

/// The plane through `point` with the given normal: the normal's `x, y, z`
/// kept, `w` set to the negated dot of point and normal.
pub open spec fn plane_new_s(point: Vec4, normal: Vec4) -> Vec4 {
    Vec4 { x: normal.x, y: normal.y, z: normal.z, w: neg64(dot_s(point, normal)) }
}

/// Whether a point lies on the inner side of a plane (the side its normal
/// points into), boundary included.
pub open spec fn plane_inside_s(plane: Vec4, point: Vec4) -> bool {
    add64(dot_s(plane, point), plane.w) >= 0
}

/// The parameter of the intersection of a segment with a plane.
pub open spec fn plane_intersect_t_s(plane: Vec4, p1: Vec4, p2: Vec4) -> i64 {
    div64(sub64(neg64(plane.w), dot_s(plane, p1)), dot_s(plane, v4_sub_s(p2, p1)))
}

/// The intersection point of the segment from `p1` to `p2` with a plane:
/// `p1 + t (p2 - p1)`.
pub open spec fn plane_intersect_s(plane: Vec4, p1: Vec4, p2: Vec4) -> Vec4 {
    v4_add_s(p1, v4_scale_s(v4_sub_s(p2, p1), plane_intersect_t_s(plane, p1, p2)))
}

/// The triangle reordered so its xy-projection winds clockwise: the first
/// two vertices are swapped when the signed area is positive.
pub open spec fn clockwise_s(t: Triangle) -> Triangle {
    if cross_len_2d_s(v4_sub_s(t.p2, t.p1), v4_sub_s(t.p3, t.p1)) > 0 {
        Triangle { p1: t.p2, p2: t.p1, p3: t.p3, world_normal: t.world_normal }
    } else {
        t
    }
}

/// A triangle with every vertex transformed by a matrix; the cached normal
/// is kept as it is.
pub open spec fn tri_transform_s(t: Triangle, m: Mat4x4) -> Triangle {
    Triangle {
        p1: mat4_apply_s(m, t.p1),
        p2: mat4_apply_s(m, t.p2),
        p3: mat4_apply_s(m, t.p3),
        world_normal: t.world_normal,
    }
}

impl<T> Vec2<T> {
    /// The pair of its two components.
    pub fn new(x: T, y: T) -> (r: Vec2<T>)
        ensures
            r.x == x,
            r.y == y,
    {
        Vec2 { x, y }
    }
}

impl Vec3 {
    /// The 3-vector of its components.
    pub fn new(x: i64, y: i64, z: i64) -> (r: Vec3)
        ensures
            r == (Vec3 { x, y, z }),
    {
        Vec3 { x, y, z }
    }

    /// Componentwise sum.
    pub fn add(&self, rhs: &Vec3) -> (r: Vec3)
        ensures
            r == v3_add_s(*self, *rhs),
    {
        Vec3 { x: fx_add(self.x, rhs.x), y: fx_add(self.y, rhs.y), z: fx_add(self.z, rhs.z) }
    }

    /// Componentwise negation.
    pub fn neg(&self) -> (r: Vec3)
        ensures
            r == v3_neg_s(*self),
    {
        Vec3 { x: fx_neg(self.x), y: fx_neg(self.y), z: fx_neg(self.z) }
    }

    /// The vector scaled by a scalar.
    pub fn scale(&self, s: i64) -> (r: Vec3)
        ensures
            r == v3_scale_s(*self, s),
    {
        Vec3 { x: fx_mul(self.x, s), y: fx_mul(self.y, s), z: fx_mul(self.z, s) }
    }
}

impl Default for Vec3 {
    /// The zero vector.
    fn default() -> (r: Vec3)
        ensures
            r == (Vec3 { x: 0, y: 0, z: 0 }),
    {
        Vec3 { x: 0, y: 0, z: 0 }
    }
}

impl Vec4 {
    /// The 4-vector of its components.
    pub fn new(x: i64, y: i64, z: i64, w: i64) -> (r: Vec4)
        ensures
            r == (Vec4 { x, y, z, w }),
    {
        Vec4 { x, y, z, w }
    }

    /// A point from 3-dimensional components: `w` is one.
    pub fn new3d(x: i64, y: i64, z: i64) -> (r: Vec4)
        ensures
            r == (Vec4 { x, y, z, w: FX_ONE }),
    {
        Vec4 { x, y, z, w: FX_ONE }
    }

    /// Perspective division by `w`, in place; the identity when `w` is
    /// zero, and `w` itself is untouched.
    pub fn perspective_div(&mut self)
        ensures
            *final(self) == v4_pdiv_s(*old(self)),
    {
        if self.w != 0 {
            self.x = fx_div(self.x, self.w);
            self.y = fx_div(self.y, self.w);
            self.z = fx_div(self.z, self.w);
        }
    }

    /// The 3-dimensional dot product; `w` is ignored.
    pub fn dot(&self, rhs: &Vec4) -> (r: i64)
        ensures
            r == dot_s(*self, *rhs),
    {
        fx_add(fx_add(fx_mul(self.x, rhs.x), fx_mul(self.y, rhs.y)), fx_mul(self.z, rhs.z))
    }

    /// The z-component of the cross product of the xy-projections.
    pub fn cross_len_2d(&self, rhs: &Vec4) -> (r: i64)
        ensures
            r == cross_len_2d_s(*self, *rhs),
    {
        fx_sub(fx_mul(self.x, rhs.y), fx_mul(rhs.x, self.y))
    }

    /// The 3-dimensional cross product, as a direction (`w` is zero).
    pub fn cross(&self, rhs: &Vec4) -> (r: Vec4)
        ensures
            r == v4_cross_s(*self, *rhs),
    {
        Vec4 {
            x: fx_sub(fx_mul(self.y, rhs.z), fx_mul(self.z, rhs.y)),
            y: fx_sub(fx_mul(self.z, rhs.x), fx_mul(self.x, rhs.z)),
            z: fx_sub(fx_mul(self.x, rhs.y), fx_mul(self.y, rhs.x)),
            w: 0,
        }
    }

    /// The vector divided by the length of its `x`, `y`, `z` part.
    pub fn normalized(&self) -> (r: Vec4)
        ensures
            r == v4_normalized_s(*self),
    {
        let l = fx_sqrt(self.dot(self));
        Vec4 { x: fx_div(self.x, l), y: fx_div(self.y, l), z: fx_div(self.z, l), w: self.w }
    }

    /// Componentwise sum; this vector's `w` is kept.
    pub fn add(&self, rhs: &Vec4) -> (r: Vec4)
        ensures
            r == v4_add_s(*self, *rhs),
    {
        Vec4 {
            x: fx_add(self.x, rhs.x),
            y: fx_add(self.y, rhs.y),
            z: fx_add(self.z, rhs.z),
            w: self.w,
        }
    }

    /// Componentwise difference; this vector's `w` is kept.
    pub fn sub(&self, rhs: &Vec4) -> (r: Vec4)
        ensures
            r == v4_sub_s(*self, *rhs),
    {
        Vec4 {
            x: fx_sub(self.x, rhs.x),
            y: fx_sub(self.y, rhs.y),
            z: fx_sub(self.z, rhs.z),
            w: self.w,
        }
    }

    /// The vector scaled in `x`, `y`, `z`; `w` is kept.
    pub fn scale(&self, s: i64) -> (r: Vec4)
        ensures
            r == v4_scale_s(*self, s),
    {
        Vec4 { x: fx_mul(self.x, s), y: fx_mul(self.y, s), z: fx_mul(self.z, s), w: self.w }
    }

    /// The plane through `point` with the given `normal`.
    pub fn new_plane(point: Vec4, normal: Vec4) -> (r: Vec4)
        ensures
            r == plane_new_s(point, normal),
    {
        let w = fx_neg(point.dot(&normal));
        Vec4 { x: normal.x, y: normal.y, z: normal.z, w }
    }

    /// Whether a point lies on the inner side of this plane, boundary
    /// included.
    pub fn is_point_inside(&self, point: &Vec4) -> (r: bool)
        ensures
            r == plane_inside_s(*self, *point),
    {
        fx_add(self.dot(point), self.w) >= 0
    }

    /// The intersection of the segment from `p1` to `p2` with this plane.
    /// The caller arranges that the segment properly crosses the plane;
    /// for a segment parallel to it the saturating division makes the
    /// result `p1` itself.
    pub fn intersect_with_segment(&self, p1: &Vec4, p2: &Vec4) -> (r: Vec4)
        ensures
            r == plane_intersect_s(*self, *p1, *p2),
    {
        let d = p2.sub(p1);
        let t = fx_div(fx_sub(fx_neg(self.w), self.dot(p1)), self.dot(&d));
        p1.add(&d.scale(t))
    }
}

impl Default for Vec4 {
    /// The origin as a point: zeros with `w` one.
    fn default() -> (r: Vec4)
        ensures
            r == (Vec4 { x: 0, y: 0, z: 0, w: FX_ONE }),
    {
        Vec4 { x: 0, y: 0, z: 0, w: FX_ONE }
    }
}

/// One row of a 4 by 4 matrix applied to four components.
fn row4(a: i64, b: i64, c: i64, d: i64, x: i64, y: i64, z: i64, w: i64) -> (r: i64)
    ensures
        r == row4_s(a, b, c, d, x, y, z, w),
{
    fx_add(fx_add(fx_add(fx_mul(a, x), fx_mul(b, y)), fx_mul(c, z)), fx_mul(d, w))
}

/// One row of a 3 by 3 matrix applied to three components.
fn row3(a: i64, b: i64, c: i64, x: i64, y: i64, z: i64) -> (r: i64)
    ensures
        r == row3_s(a, b, c, x, y, z),
{
    fx_add(fx_add(fx_mul(a, x), fx_mul(b, y)), fx_mul(c, z))
}

impl Mat3x3 {
    /// The XYZ Euler rotation matrix of three angles in degrees.
    pub fn rotation(rotation: &Vec3) -> (r: Mat3x3)
        ensures
            r == rot3_s(*rotation),
    {
        let sx = sin_deg(rotation.x);
        let cx = cos_deg(rotation.x);
        let sy = sin_deg(rotation.y);
        let cy = cos_deg(rotation.y);
        let sz = sin_deg(rotation.z);
        let cz = cos_deg(rotation.z);
        Mat3x3 {
            content: [
                [
                    fx_mul(cy, cz),
                    fx_sub(fx_mul(fx_mul(sx, sy), cz), fx_mul(cx, sz)),
                    fx_add(fx_mul(fx_mul(cx, sy), cz), fx_mul(sx, sz)),
                ],
                [
                    fx_mul(cy, sz),
                    fx_add(fx_mul(fx_mul(sx, sy), sz), fx_mul(cx, cz)),
                    fx_sub(fx_mul(fx_mul(cx, sy), sz), fx_mul(sx, cz)),
                ],
                [fx_neg(sy), fx_mul(sx, cy), fx_mul(cx, cy)],
            ],
        }
    }

    /// The matrix applied to a 3-vector.
    pub fn apply(&self, v: &Vec3) -> (r: Vec3)
        ensures
            r == mat3_apply_s(*self, *v),
    {
        let c = &self.content;
        Vec3 {
            x: row3(c[0][0], c[0][1], c[0][2], v.x, v.y, v.z),
            y: row3(c[1][0], c[1][1], c[1][2], v.x, v.y, v.z),
            z: row3(c[2][0], c[2][1], c[2][2], v.x, v.y, v.z),
        }
    }
}

impl Default for Mat3x3 {
    /// The zero matrix.
    fn default() -> (r: Mat3x3)
        ensures
            r.content == [[0i64, 0i64, 0i64], [0i64, 0i64, 0i64], [0i64, 0i64, 0i64]],
    {
        Mat3x3 { content: [[0, 0, 0], [0, 0, 0], [0, 0, 0]] }
    }
}

impl Mat4x4 {
    /// The translation matrix of an offset.
    pub fn translation(offset: &Vec3) -> (r: Mat4x4)
        ensures
            r == translation_s(*offset),
    {
        Mat4x4 {
            content: [
                [FX_ONE, 0, 0, offset.x],
                [0, FX_ONE, 0, offset.y],
                [0, 0, FX_ONE, offset.z],
                [0, 0, 0, FX_ONE],
            ],
        }
    }

    /// The XYZ Euler rotation matrix of three angles in degrees, in
    /// homogeneous form.
    pub fn rotation(rotation: &Vec3) -> (r: Mat4x4)
        ensures
            r == rot4_s(*rotation),
    {
        let sx = sin_deg(rotation.x);
        let cx = cos_deg(rotation.x);
        let sy = sin_deg(rotation.y);
        let cy = cos_deg(rotation.y);
        let sz = sin_deg(rotation.z);
        let cz = cos_deg(rotation.z);
        Mat4x4 {
            content: [
                [
                    fx_mul(cy, cz),
                    fx_sub(fx_mul(fx_mul(sx, sy), cz), fx_mul(cx, sz)),
                    fx_add(fx_mul(fx_mul(cx, sy), cz), fx_mul(sx, sz)),
                    0,
                ],
                [
                    fx_mul(cy, sz),
                    fx_add(fx_mul(fx_mul(sx, sy), sz), fx_mul(cx, cz)),
                    fx_sub(fx_mul(fx_mul(cx, sy), sz), fx_mul(sx, cz)),
                    0,
                ],
                [fx_neg(sy), fx_mul(sx, cy), fx_mul(cx, cy), 0],
                [0, 0, 0, FX_ONE],
            ],
        }
    }

    /// The matrix applied to a homogeneous vector, `w` row included.
    pub fn apply(&self, v: &Vec4) -> (r: Vec4)
        ensures
            r == mat4_apply_s(*self, *v),
    {
        let c = &self.content;
        Vec4 {
            x: row4(c[0][0], c[0][1], c[0][2], c[0][3], v.x, v.y, v.z, v.w),
            y: row4(c[1][0], c[1][1], c[1][2], c[1][3], v.x, v.y, v.z, v.w),
            z: row4(c[2][0], c[2][1], c[2][2], c[2][3], v.x, v.y, v.z, v.w),
            w: row4(c[3][0], c[3][1], c[3][2], c[3][3], v.x, v.y, v.z, v.w),
        }
    }

    /// The standard matrix product.
    pub fn mul(&self, rhs: &Mat4x4) -> (r: Mat4x4)
        ensures
            r == mat4_mul_s(*self, *rhs),
    {
        let a = &self.content;
        let b = &rhs.content;
        Mat4x4 {
            content: [
                [
                    row4(a[0][0], a[0][1], a[0][2], a[0][3], b[0][0], b[1][0], b[2][0], b[3][0]),
                    row4(a[0][0], a[0][1], a[0][2], a[0][3], b[0][1], b[1][1], b[2][1], b[3][1]),
                    row4(a[0][0], a[0][1], a[0][2], a[0][3], b[0][2], b[1][2], b[2][2], b[3][2]),
                    row4(a[0][0], a[0][1], a[0][2], a[0][3], b[0][3], b[1][3], b[2][3], b[3][3]),
                ],
                [
                    row4(a[1][0], a[1][1], a[1][2], a[1][3], b[0][0], b[1][0], b[2][0], b[3][0]),
                    row4(a[1][0], a[1][1], a[1][2], a[1][3], b[0][1], b[1][1], b[2][1], b[3][1]),
                    row4(a[1][0], a[1][1], a[1][2], a[1][3], b[0][2], b[1][2], b[2][2], b[3][2]),
                    row4(a[1][0], a[1][1], a[1][2], a[1][3], b[0][3], b[1][3], b[2][3], b[3][3]),
                ],
                [
                    row4(a[2][0], a[2][1], a[2][2], a[2][3], b[0][0], b[1][0], b[2][0], b[3][0]),
                    row4(a[2][0], a[2][1], a[2][2], a[2][3], b[0][1], b[1][1], b[2][1], b[3][1]),
                    row4(a[2][0], a[2][1], a[2][2], a[2][3], b[0][2], b[1][2], b[2][2], b[3][2]),
                    row4(a[2][0], a[2][1], a[2][2], a[2][3], b[0][3], b[1][3], b[2][3], b[3][3]),
                ],
                [
                    row4(a[3][0], a[3][1], a[3][2], a[3][3], b[0][0], b[1][0], b[2][0], b[3][0]),
                    row4(a[3][0], a[3][1], a[3][2], a[3][3], b[0][1], b[1][1], b[2][1], b[3][1]),
                    row4(a[3][0], a[3][1], a[3][2], a[3][3], b[0][2], b[1][2], b[2][2], b[3][2]),
                    row4(a[3][0], a[3][1], a[3][2], a[3][3], b[0][3], b[1][3], b[2][3], b[3][3]),
                ],
            ],
        }
    }
}

impl Default for Mat4x4 {
    /// The zero matrix.
    fn default() -> (r: Mat4x4)
        ensures
            r.content == [
                [0i64, 0i64, 0i64, 0i64],
                [0i64, 0i64, 0i64, 0i64],
                [0i64, 0i64, 0i64, 0i64],
                [0i64, 0i64, 0i64, 0i64],
            ],
    {
        Mat4x4 { content: [[0, 0, 0, 0], [0, 0, 0, 0], [0, 0, 0, 0], [0, 0, 0, 0]] }
    }
}

impl Triangle {
    /// The triangle of three vertices, with no cached normal.
    pub fn new(p1: Vec4, p2: Vec4, p3: Vec4) -> (r: Triangle)
        ensures
            r == (Triangle { p1, p2, p3, world_normal: None::<Vec4> }),
    {
        Triangle { p1, p2, p3, world_normal: None }
    }

    /// The triangle of three vertices carrying a cached world normal.
    pub fn new_with_normal(p1: Vec4, p2: Vec4, p3: Vec4, world_normal: Option<Vec4>) -> (r:
        Triangle)
        ensures
            r == (Triangle { p1, p2, p3, world_normal }),
    {
        Triangle { p1, p2, p3, world_normal }
    }

    /// The triangle reordered to wind clockwise in the xy-projection.
    pub fn clockwise(&self) -> (r: Triangle)
        ensures
            r == clockwise_s(*self),
    {
        let v12 = self.p2.sub(&self.p1);
        let v13 = self.p3.sub(&self.p1);
        if v12.cross_len_2d(&v13) > 0 {
            Triangle { p1: self.p2, p2: self.p1, p3: self.p3, world_normal: self.world_normal }
        } else {
            *self
        }
    }

    /// Every vertex transformed by a matrix; the cached normal is kept.
    pub fn transform(&self, m: &Mat4x4) -> (r: Triangle)
        ensures
            r == tri_transform_s(*self, *m),
    {
        Triangle {
            p1: m.apply(&self.p1),
            p2: m.apply(&self.p2),
            p3: m.apply(&self.p3),
            world_normal: self.world_normal,
        }
    }
}

impl Default for Triangle {
    /// The degenerate triangle at the origin.
    fn default() -> (r: Triangle)
        ensures
            r.p1 == (Vec4 { x: 0, y: 0, z: 0, w: FX_ONE }),
            r.p2 == (Vec4 { x: 0, y: 0, z: 0, w: FX_ONE }),
            r.p3 == (Vec4 { x: 0, y: 0, z: 0, w: FX_ONE }),
            r.world_normal == None::<Vec4>,
    {
        Triangle {
            p1: Vec4 { x: 0, y: 0, z: 0, w: FX_ONE },
            p2: Vec4 { x: 0, y: 0, z: 0, w: FX_ONE },
            p3: Vec4 { x: 0, y: 0, z: 0, w: FX_ONE },
            world_normal: None,
        }
    }
}

/// A plane intersects the segment that starts at its own base point and
/// runs along its normal at that base point exactly: the intersection
/// parameter vanishes, so `p` comes back unchanged.  Holds for every
/// normal; only base points with a component of `i64::MIN` (below the
/// representable scalar range) are excluded.
pub proof fn lemma_plane_self_intersection(p: Vec4, n: Vec4)
    requires
        FX_MIN <= p.x,
        FX_MIN <= p.y,
        FX_MIN <= p.z,
    ensures
        plane_intersect_s(plane_new_s(p, n), p, v4_add_s(p, n)) == p,
{
    let plane = plane_new_s(p, n);
    lemma_fx_mul_comm(n.x as int, p.x as int);
    lemma_fx_mul_comm(n.y as int, p.y as int);
    lemma_fx_mul_comm(n.z as int, p.z as int);
    assert(dot_s(plane, p) == dot_s(p, n));
    let t = plane_intersect_t_s(plane, p, v4_add_s(p, n));
    lemma_fx_div_zero(dot_s(plane, v4_sub_s(v4_add_s(p, n), p)) as int);
    assert(t == 0);
    let d = v4_sub_s(v4_add_s(p, n), p);
    lemma_fx_mul_zero(d.x as int);
    lemma_fx_mul_zero(d.y as int);
    lemma_fx_mul_zero(d.z as int);
    assert(v4_scale_s(d, 0).x == 0);
}

/// The rotation by zero angles is the identity on every representable
/// point: the zero-angle sine and cosine are exact, so every matrix
/// element is exactly zero or one.
pub proof fn lemma_rot4_zero_identity(v: Vec4)
    requires
        FX_MIN <= v.x,
        FX_MIN <= v.y,
        FX_MIN <= v.z,
        FX_MIN <= v.w,
    ensures
        mat4_apply_s(rot4_s(Vec3 { x: 0, y: 0, z: 0 }), v) == v,
{
    crate::trig::lemma_sin_cos_zero();
    lemma_fx_mul_one(65536int);
    lemma_fx_mul_zero(65536int);
    lemma_fx_mul_zero(0int);
    let m = rot4_s(Vec3 { x: 0, y: 0, z: 0 });
    assert(m.content[0][0] == 65536);
    assert(m.content[0][1] == 0);
    assert(m.content[0][2] == 0);
    assert(m.content[1][1] == 65536);
    assert(m.content[2][2] == 65536);
    lemma_fx_mul_one(v.x as int);
    lemma_fx_mul_one(v.y as int);
    lemma_fx_mul_one(v.z as int);
    lemma_fx_mul_one(v.w as int);
    lemma_fx_mul_zero(v.x as int);
    lemma_fx_mul_zero(v.y as int);
    lemma_fx_mul_zero(v.z as int);
    lemma_fx_mul_zero(v.w as int);
    let r = mat4_apply_s(m, v);
    assert(r.x == v.x);
    assert(r.y == v.y);
    assert(r.z == v.z);
    assert(r.w == v.w);
}

/// The translation by the zero offset is the identity on every
/// representable point.
pub proof fn lemma_translation_zero_identity(v: Vec4)
    requires
        FX_MIN <= v.x,
        FX_MIN <= v.y,
        FX_MIN <= v.z,
        FX_MIN <= v.w,
    ensures
        mat4_apply_s(translation_s(Vec3 { x: 0, y: 0, z: 0 }), v) == v,
{
    lemma_fx_mul_one(v.x as int);
    lemma_fx_mul_one(v.y as int);
    lemma_fx_mul_one(v.z as int);
    lemma_fx_mul_one(v.w as int);
    lemma_fx_mul_zero(v.x as int);
    lemma_fx_mul_zero(v.y as int);
    lemma_fx_mul_zero(v.z as int);
    lemma_fx_mul_zero(v.w as int);
    let r = mat4_apply_s(translation_s(Vec3 { x: 0, y: 0, z: 0 }), v);
    assert(r.x == v.x);
    assert(r.y == v.y);
    assert(r.z == v.z);
    assert(r.w == v.w);
}

/// Translating by an offset and then by its negation returns every point
/// unchanged: the round trip is exact whenever the translated point does
/// not saturate.
pub proof fn lemma_translation_round_trip(t: Vec3, v: Vec4)
    requires
        v.w == FX_ONE,
        FX_MIN <= v.x,
        FX_MIN <= v.y,
        FX_MIN <= v.z,
        FX_MIN <= t.x,
        FX_MIN <= t.y,
        FX_MIN <= t.z,
        FX_MIN <= v.x + t.x <= crate::fixed::FX_MAX,
        FX_MIN <= v.y + t.y <= crate::fixed::FX_MAX,
        FX_MIN <= v.z + t.z <= crate::fixed::FX_MAX,
    ensures
        mat4_apply_s(translation_s(v3_neg_s(t)), mat4_apply_s(translation_s(t), v)) == v,
{
    let v1 = mat4_apply_s(translation_s(t), v);
    lemma_fx_mul_one(v.x as int);
    lemma_fx_mul_one(v.y as int);
    lemma_fx_mul_one(v.z as int);
    lemma_fx_mul_one(v.w as int);
    lemma_fx_mul_zero(v.x as int);
    lemma_fx_mul_zero(v.y as int);
    lemma_fx_mul_zero(v.z as int);
    lemma_fx_mul_one(t.x as int);
    lemma_fx_mul_one(t.y as int);
    lemma_fx_mul_one(t.z as int);
    assert(v1.x == v.x + t.x);
    assert(v1.y == v.y + t.y);
    assert(v1.z == v.z + t.z);
    assert(v1.w == FX_ONE);
    let nt = v3_neg_s(t);
    lemma_fx_mul_one(nt.x as int);
    lemma_fx_mul_one(nt.y as int);
    lemma_fx_mul_one(nt.z as int);
    lemma_fx_mul_one(v1.x as int);
    lemma_fx_mul_one(v1.y as int);
    lemma_fx_mul_one(v1.z as int);
    lemma_fx_mul_zero(v1.x as int);
    lemma_fx_mul_zero(v1.y as int);
    lemma_fx_mul_zero(v1.z as int);
    let v2 = mat4_apply_s(translation_s(nt), v1);
    assert(v2.x == v.x);
    assert(v2.y == v.y);
    assert(v2.z == v.z);
    assert(v2.w == v.w);
}

} // verus!
