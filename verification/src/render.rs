//! The per-frame render driver.
//!
//! Each mesh triangle is rotated and placed in the world, its world-space
//! unit normal is cached, and it is carried into camera space; the whole
//! list is clipped against the six frustum planes in the order near, far,
//! left, right, bottom, top; each survivor is shaded by the light against
//! its cached normal, perspective projected with w-division, and
//! rasterized as a fill followed by a wireframe overlay; finally the depth
//! buffer is emitted as a bitmap.
//!
//! The driver's contract is exact: the emitted bitmap equals, cell for
//! cell, the spec-level pipeline applied to a fresh background frame, and
//! in particular a frame in which nothing survives clipping stays at the
//! background color everywhere.

use vstd::prelude::*;

use crate::buffer::{
    background_color, background_color_s, black_color, evolves_s, lerp_s, model_color, Color,
    DepthBuffer, ScreenSize,
};
use crate::clip::{clip_triangles, clip_triangles_s};
use crate::fixed::{fx_div, fx_from_int, fx_max, fx_min, sat, FX_ONE};
use crate::math::{
    div64, dot_s, mat4_apply_s, mul64, neg64, plane_new_s, rot4_s, sub64, translation_s,
    tri_transform_s, v3_neg_s, v4_cross_s, v4_normalized_s, v4_pdiv_s, v4_sub_s, Mat4x4,
    Triangle, Vec3,
    Vec4,
};
use crate::raster::{draw_triangle, draw_wireframe_triangle};
use crate::scene::{GameObject, Scene};
use crate::trig::{atan_deg, atan_deg_s, tan_deg, tan_deg_s, DEG90_FX};

verus! {

/// The camera: a vertical field of view in fixed-point degrees, the near
/// and far clip distances, and a placement.
#[derive(Clone, Copy, PartialEq, Eq, Structural, Debug)]
pub struct Camera {
    pub vertical_fov: i64,
    pub z_near: i64,
    pub z_far: i64,
    pub position: Vec3,
    pub rotation: Vec3,
}

/// The aspect ratio of a framebuffer: width over height, in fixed point.
pub open spec fn aspect_of_s(size: ScreenSize) -> i64 {
    div64(sat(size.width * 65536) as i64, sat(size.height * 65536) as i64)
}

/// One mesh triangle carried into camera space: rotated and placed in the
/// world, its world normal cached, then translated and rotated by the
/// camera's inverse placement.
#[verifier::opaque]
pub open spec fn camera_tri_s(cam: Camera, obj_rotation: Vec3, obj_position: Vec3, t: Triangle)
    -> Triangle {
    let world = tri_transform_s(
        tri_transform_s(t, rot4_s(obj_rotation)),
        translation_s(obj_position),
    );
    let n = v4_normalized_s(
        v4_cross_s(v4_sub_s(world.p2, world.p1), v4_sub_s(world.p3, world.p1)),
    );
    let with_normal = Triangle { p1: world.p1, p2: world.p2, p3: world.p3, world_normal: Some(n) };
    tri_transform_s(
        tri_transform_s(with_normal, translation_s(v3_neg_s(cam.position))),
        rot4_s(v3_neg_s(cam.rotation)),
    )
}

/// All triangles of one object in camera space, in mesh order.
pub open spec fn object_tris_s(cam: Camera, o: GameObject) -> Seq<Triangle> {
    Seq::new(
        o.mesh.triangles@.len(),
        |k: int| camera_tri_s(cam, o.rotation, o.position, o.mesh.triangles@[k]),
    )
}

/// All triangles of the scene in camera space, object by object.
pub open spec fn camera_space_list_s(cam: Camera, objs: Seq<GameObject>) -> Seq<Triangle>
    decreases objs.len(),
{
    if objs.len() == 0 {
        Seq::empty()
    } else {
        camera_space_list_s(cam, objs.drop_last()) + object_tris_s(cam, objs.last())
    }
}

/// The near clip plane: through `(0, 0, z_near)`, facing forward.
pub open spec fn near_plane_s(cam: Camera) -> Vec4 {
    plane_new_s(
        Vec4 { x: 0, y: 0, z: cam.z_near, w: FX_ONE },
        Vec4 { x: 0, y: 0, z: FX_ONE, w: FX_ONE },
    )
}

/// The far clip plane: through `(0, 0, z_far)`, facing back.
pub open spec fn far_plane_s(cam: Camera) -> Vec4 {
    plane_new_s(
        Vec4 { x: 0, y: 0, z: cam.z_far, w: FX_ONE },
        Vec4 { x: 0, y: 0, z: -65536i64, w: FX_ONE },
    )
}

/// Half the horizontal field of view, from the vertical one and the
/// aspect ratio.
pub open spec fn half_horizontal_fov_s(cam: Camera, aspect: i64) -> i64 {
    atan_deg_s(mul64(tan_deg_s(div64(cam.vertical_fov, 131072) as int) as i64, aspect) as int)
        as i64
}

/// A side plane of the frustum through the origin, its normal the forward
/// direction turned by the given Euler angles.
pub open spec fn side_plane_s(angles: Vec3) -> Vec4 {
    plane_new_s(
        Vec4 { x: 0, y: 0, z: 0, w: FX_ONE },
        mat4_apply_s(rot4_s(angles), Vec4 { x: 0, y: 0, z: FX_ONE, w: FX_ONE }),
    )
}

/// The list after the six frustum clips, in the order near, far, left,
/// right, bottom, top.
pub open spec fn frustum_clipped_s(cam: Camera, aspect: i64, tris: Seq<Triangle>) -> Seq<
    Triangle,
> {
    let hor = sub64(DEG90_FX, half_horizontal_fov_s(cam, aspect));
    let ver = sub64(DEG90_FX, div64(cam.vertical_fov, 131072));
    let a = clip_triangles_s(tris, near_plane_s(cam));
    let b = clip_triangles_s(a, far_plane_s(cam));
    let c = clip_triangles_s(b, side_plane_s(Vec3 { x: 0, y: hor, z: 0 }));
    let d = clip_triangles_s(c, side_plane_s(Vec3 { x: 0, y: neg64(hor), z: 0 }));
    let e = clip_triangles_s(d, side_plane_s(Vec3 { x: neg64(ver), y: 0, z: 0 }));
    clip_triangles_s(e, side_plane_s(Vec3 { x: ver, y: 0, z: 0 }))
}

/// The world-space light direction: forward turned by the light's Euler
/// angles.
pub open spec fn light_dir_s(light_rotation: Vec3) -> Vec4 {
    mat4_apply_s(rot4_s(light_rotation), Vec4 { x: 0, y: 0, z: FX_ONE, w: FX_ONE })
}

/// The shade of one camera-space triangle: the light against its cached
/// world normal, clamped to `[0, 1]`, blended from black to the model
/// color.  A triangle without a cached normal shades to black.
pub open spec fn shade_color_s(light: Vec4, t: Triangle) -> Color {
    let n = match t.world_normal {
        Some(n) => n,
        None => Vec4 { x: 0, y: 0, z: 0, w: 0 },
    };
    let alpha = dot_s(light, n);
    let clamped: i64 = if alpha < 0 {
        0
    } else if alpha > FX_ONE {
        FX_ONE
    } else {
        alpha
    };
    lerp_s(crate::buffer::black_color_s(), crate::buffer::model_color_s(), clamped)
}

/// One clipped triangle shaded, projected and rasterized: the shade from
/// the light and the cached normal, the three vertices projected and
/// w-divided, then the fill and the wireframe overlay.
pub open spec fn shaded_tri_s(
    size: ScreenSize,
    cells: Seq<crate::buffer::DeepPixel>,
    light: Vec4,
    pm: Mat4x4,
    t: Triangle,
) -> Seq<crate::buffer::DeepPixel> {
    let color = shade_color_s(light, t);
    let q1 = v4_pdiv_s(mat4_apply_s(pm, t.p1));
    let q2 = v4_pdiv_s(mat4_apply_s(pm, t.p2));
    let q3 = v4_pdiv_s(mat4_apply_s(pm, t.p3));
    let projected = Triangle { p1: q1, p2: q2, p3: q3, world_normal: None };
    crate::raster::draw_wireframe_s(
        size,
        crate::raster::draw_triangle_s(size, cells, projected, color),
        projected,
    )
}

/// The whole rasterization pass: every clipped triangle from index `k`
/// on, shaded and drawn in order.
pub open spec fn shade_pass_s(
    size: ScreenSize,
    cells: Seq<crate::buffer::DeepPixel>,
    light: Vec4,
    pm: Mat4x4,
    tris: Seq<Triangle>,
    k: int,
) -> Seq<crate::buffer::DeepPixel>
    decreases tris.len() - k,
{
    if k < 0 || k >= tris.len() {
        cells
    } else {
        shade_pass_s(size, shaded_tri_s(size, cells, light, pm, tris[k]), light, pm, tris, k + 1)
    }
}

impl Camera {
    /// The perspective projection matrix: a z-forward projection that
    /// maps the camera frustum onto the unit cube of normalized device
    /// coordinates, with `w` set to the camera-space depth.
    pub open spec fn perspective_mat_s(self, aspect_ratio: i64) -> Mat4x4 {
        let t = tan_deg_s(div64(self.vertical_fov, 131072) as int) as i64;
        Mat4x4 {
            content: [
                [div64(FX_ONE, mul64(t, aspect_ratio)), 0, 0, 0],
                [0, div64(FX_ONE, t), 0, 0],
                [
                    0,
                    0,
                    div64(self.z_far, sub64(self.z_far, self.z_near)),
                    div64(neg64(mul64(self.z_far, self.z_near)), sub64(self.z_far, self.z_near)),
                ],
                [0, 0, FX_ONE, 0],
            ],
        }
    }

    /// The perspective projection matrix for an aspect ratio.
    pub fn perspective_mat(&self, aspect_ratio: i64) -> (r: Mat4x4)
        ensures
            r == self.perspective_mat_s(aspect_ratio),
    {
        let half_fov = fx_div(self.vertical_fov, 131072);
        let t = tan_deg(half_fov);
        let zdiff = crate::fixed::fx_sub(self.z_far, self.z_near);
        Mat4x4 {
            content: [
                [fx_div(FX_ONE, crate::fixed::fx_mul(t, aspect_ratio)), 0, 0, 0],
                [0, fx_div(FX_ONE, t), 0, 0],
                [
                    0,
                    0,
                    fx_div(self.z_far, zdiff),
                    fx_div(crate::fixed::fx_neg(crate::fixed::fx_mul(self.z_far, self.z_near)), zdiff),
                ],
                [0, 0, FX_ONE, 0],
            ],
        }
    }

    /// Render the scene into the depth buffer: transform, clip, shade,
    /// project and rasterize every triangle.  The result is exactly the
    /// rasterization pass over the clipped camera-space list; the buffer
    /// only ever evolves by landed depth writes, and a frame in which no
    /// triangle survives clipping leaves it untouched.
    pub fn render(&self, buffer: &mut DepthBuffer, scene: &Scene)
        requires
            old(buffer).wf(),
        ensures
            final(buffer).wf(),
            final(buffer).screen_size == old(buffer).screen_size,
            evolves_s(old(buffer).buffer@, final(buffer).buffer@),
            final(buffer).buffer@ == shade_pass_s(
                old(buffer).screen_size,
                old(buffer).buffer@,
                light_dir_s(scene.directional_light_rotation),
                self.perspective_mat_s(aspect_of_s(old(buffer).screen_size)),
                frustum_clipped_s(
                    *self,
                    aspect_of_s(old(buffer).screen_size),
                    camera_space_list_s(scene.camera, scene.objects@),
                ),
                0,
            ),
            frustum_clipped_s(
                *self,
                aspect_of_s(old(buffer).screen_size),
                camera_space_list_s(scene.camera, scene.objects@),
            ).len() == 0 ==> final(buffer).buffer@ == old(buffer).buffer@,
    {
        let width = buffer.screen_size.width;
        let height = buffer.screen_size.height;
        let aspect_ratio = fx_div(fx_from_int(width as i64), fx_from_int(height as i64));
        let perspective_mat = self.perspective_mat(aspect_ratio);

        let triangles = camera_space_triangles(scene);
        let triangles = self.clip_frustum(triangles, aspect_ratio);

        let light_direction = Mat4x4::rotation(&scene.directional_light_rotation).apply(
            &Vec4::new3d(0, 0, FX_ONE),
        );
        shade_and_draw(buffer, &triangles, &light_direction, &perspective_mat);
    }

    /// Clip a camera-space list against the six frustum planes, in the
    /// order near, far, left, right, bottom, top.
    fn clip_frustum(&self, triangles: Vec<Triangle>, aspect_ratio: i64) -> (r: Vec<Triangle>)
        ensures
            r@ == frustum_clipped_s(*self, aspect_ratio, triangles@),
    {
        let z_near_plane = Vec4::new_plane(
            Vec4::new3d(0, 0, self.z_near),
            Vec4::new3d(0, 0, FX_ONE),
        );
        let mut clipped = clip_triangles(triangles, &z_near_plane);
        let z_far_plane = Vec4::new_plane(
            Vec4::new3d(0, 0, self.z_far),
            Vec4::new3d(0, 0, -FX_ONE),
        );
        clipped = clip_triangles(clipped, &z_far_plane);

        let half_fov = fx_div(self.vertical_fov, 131072);
        let half_horizontal_fov = atan_deg(crate::fixed::fx_mul(tan_deg(half_fov), aspect_ratio));
        let hor_normal_rotation_angle = crate::fixed::fx_sub(DEG90_FX, half_horizontal_fov);
        let ver_normal_rotation_angle = crate::fixed::fx_sub(DEG90_FX, half_fov);

        let normal = Mat4x4::rotation(&Vec3::new(0, hor_normal_rotation_angle, 0)).apply(
            &Vec4::new3d(0, 0, FX_ONE),
        );
        let left_plane = Vec4::new_plane(Vec4::new3d(0, 0, 0), normal);
        clipped = clip_triangles(clipped, &left_plane);
        let normal = Mat4x4::rotation(
            &Vec3::new(0, crate::fixed::fx_neg(hor_normal_rotation_angle), 0),
        ).apply(&Vec4::new3d(0, 0, FX_ONE));
        let right_plane = Vec4::new_plane(Vec4::new3d(0, 0, 0), normal);
        clipped = clip_triangles(clipped, &right_plane);
        let normal = Mat4x4::rotation(
            &Vec3::new(crate::fixed::fx_neg(ver_normal_rotation_angle), 0, 0),
        ).apply(&Vec4::new3d(0, 0, FX_ONE));
        let bot_plane = Vec4::new_plane(Vec4::new3d(0, 0, 0), normal);
        clipped = clip_triangles(clipped, &bot_plane);
        let normal = Mat4x4::rotation(&Vec3::new(ver_normal_rotation_angle, 0, 0)).apply(
            &Vec4::new3d(0, 0, FX_ONE),
        );
        let top_plane = Vec4::new_plane(Vec4::new3d(0, 0, 0), normal);
        clipped = clip_triangles(clipped, &top_plane);
        clipped
    }
}

/// Carry one mesh triangle into camera space: the object placement, the
/// cached world normal, then the camera's inverse placement.
fn to_camera_space(cam: &Camera, obj_rotation: &Vec3, obj_position: &Vec3, tr: &Triangle) -> (t:
    Triangle)
    ensures
        t == camera_tri_s(*cam, *obj_rotation, *obj_position, *tr),
{
    proof {
        reveal(camera_tri_s);
    }
    let mut t = tr.transform(&Mat4x4::rotation(obj_rotation));
    t = t.transform(&Mat4x4::translation(obj_position));
    let normal = t.p2.sub(&t.p1).cross(&t.p3.sub(&t.p1)).normalized();
    t = Triangle::new_with_normal(t.p1, t.p2, t.p3, Some(normal));
    let camera_negative_pos = cam.position.neg();
    t = t.transform(&Mat4x4::translation(&camera_negative_pos));
    let camera_negative_rotation = cam.rotation.neg();
    t = t.transform(&Mat4x4::rotation(&camera_negative_rotation));
    t
}

/// Carry every mesh triangle of the scene into camera space, in scene
/// order, caching each one's world normal on the way.
fn camera_space_triangles(scene: &Scene) -> (r: Vec<Triangle>)
    ensures
        r@ == camera_space_list_s(scene.camera, scene.objects@),
{
    let mut triangles: Vec<Triangle> = Vec::new();
    let mut oi: usize = 0;
    while oi < scene.objects.len()
        invariant
            oi <= scene.objects@.len(),
            triangles@ == camera_space_list_s(scene.camera, scene.objects@.take(oi as int)),
        decreases scene.objects@.len() - oi,
    {
        let object = &scene.objects[oi];
        let ghost done = triangles@;
        let mut ti: usize = 0;
        while ti < object.mesh.triangles.len()
            invariant
                ti <= object.mesh.triangles@.len(),
                object == &scene.objects@[oi as int],
                triangles@ == done + object_tris_s(scene.camera, scene.objects@[oi as int])
                    .take(ti as int),
            decreases object.mesh.triangles@.len() - ti,
        {
            let tr = object.mesh.triangles[ti];
            let t = to_camera_space(&scene.camera, &object.rotation, &object.position, &tr);
            triangles.push(t);
            proof {
                let ot = object_tris_s(scene.camera, scene.objects@[oi as int]);
                assert(t == ot[ti as int]);
                assert(ot.take(ti + 1) =~= ot.take(ti as int).push(ot[ti as int]));
                assert(triangles@ =~= done + ot.take(ti + 1));
            }
            ti += 1;
        }
        proof {
            let ot = object_tris_s(scene.camera, scene.objects@[oi as int]);
            assert(ot.take(ti as int) =~= ot);
            assert(scene.objects@.take(oi + 1).drop_last() =~= scene.objects@.take(oi as int));
            assert(scene.objects@.take(oi + 1).last() == scene.objects@[oi as int]);
            assert(triangles@ =~= camera_space_list_s(
                scene.camera,
                scene.objects@.take(oi + 1),
            ));
        }
        oi += 1;
    }
    proof {
        assert(scene.objects@.take(scene.objects@.len() as int) =~= scene.objects@);
    }
    triangles
}

/// Shade, project and rasterize every clipped triangle, fill first and
/// wireframe overlay second; an empty list leaves the buffer untouched.
fn shade_and_draw(
    buffer: &mut DepthBuffer,
    triangles: &Vec<Triangle>,
    light_direction: &Vec4,
    perspective_mat: &Mat4x4,
)
    requires
        old(buffer).wf(),
    ensures
        final(buffer).wf(),
        final(buffer).screen_size == old(buffer).screen_size,
        evolves_s(old(buffer).buffer@, final(buffer).buffer@),
        final(buffer).buffer@ == shade_pass_s(
            old(buffer).screen_size,
            old(buffer).buffer@,
            *light_direction,
            *perspective_mat,
            triangles@,
            0,
        ),
        triangles@.len() == 0 ==> final(buffer).buffer@ == old(buffer).buffer@,
{
    let ghost orig = buffer.buffer@;
    let ghost size = buffer.screen_size;
    let ghost goal = shade_pass_s(size, orig, *light_direction, *perspective_mat, triangles@, 0);
    let mut k: usize = 0;
    while k < triangles.len()
        invariant
            buffer.wf(),
            buffer.screen_size == old(buffer).screen_size,
            size == old(buffer).screen_size,
            orig == old(buffer).buffer@,
            evolves_s(orig, buffer.buffer@),
            k <= triangles@.len(),
            goal == shade_pass_s(
                size,
                buffer.buffer@,
                *light_direction,
                *perspective_mat,
                triangles@,
                k as int,
            ),
            triangles@.len() == 0 ==> buffer.buffer@ == orig,
        decreases triangles@.len() - k,
    {
        let ghost pre = buffer.buffer@;
        let tr = triangles[k];
        let normal = match tr.world_normal {
            Some(n) => n,
            None => Vec4::new(0, 0, 0, 0),
        };
        let alpha = light_direction.dot(&normal);
        let alpha = fx_max(0, fx_min(alpha, FX_ONE));
        let color = black_color().lerp(&model_color(), alpha);

        let mut projected_p1 = perspective_mat.apply(&tr.p1);
        projected_p1.perspective_div();
        let mut projected_p2 = perspective_mat.apply(&tr.p2);
        projected_p2.perspective_div();
        let mut projected_p3 = perspective_mat.apply(&tr.p3);
        projected_p3.perspective_div();
        let projected_tr = Triangle::new(projected_p1, projected_p2, projected_p3);

        let ghost before_fill = buffer.buffer@;
        draw_triangle(buffer, &projected_tr, color);
        proof {
            crate::buffer::lemma_evolves_with_color_weaken(
                before_fill,
                buffer.buffer@,
                color,
            );
            crate::buffer::lemma_evolves_trans(orig, before_fill, buffer.buffer@);
        }
        let ghost before_wire = buffer.buffer@;
        draw_wireframe_triangle(buffer, &projected_tr);
        proof {
            crate::buffer::lemma_evolves_with_color_weaken(
                before_wire,
                buffer.buffer@,
                crate::buffer::wireframe_color_s(),
            );
            crate::buffer::lemma_evolves_trans(orig, before_wire, buffer.buffer@);
            assert(buffer.buffer@ == shaded_tri_s(
                size,
                pre,
                *light_direction,
                *perspective_mat,
                triangles@[k as int],
            ));
        }
        k += 1;
    }
    proof {
        assert(shade_pass_s(
            size,
            buffer.buffer@,
            *light_direction,
            *perspective_mat,
            triangles@,
            k as int,
        ) == buffer.buffer@);
    }
}

/// A fresh frame's cells: background color everywhere at depth one.
pub open spec fn initial_cells_s(size: ScreenSize) -> Seq<crate::buffer::DeepPixel> {
    Seq::new(
        (size.width * size.height) as nat,
        |i: int| crate::buffer::DeepPixel { color: background_color_s(), depth: FX_ONE },
    )
}

/// Render one frame: a fresh background depth buffer, the whole pipeline,
/// and the emitted bitmap of `width * height` colors, row 0 at the top.
/// An empty scene, and more generally any frame in which no triangle
/// survives clipping, yields the background color everywhere.
pub fn render(screen_size: ScreenSize, scene: &Scene) -> (r: Vec<Color>)
    requires
        screen_size.width >= 0,
        screen_size.height >= 0,
        screen_size.width * screen_size.height <= i32::MAX as int,
    ensures
        r@.len() == screen_size.width * screen_size.height,
        ({
            let shaded = shade_pass_s(
                screen_size,
                initial_cells_s(screen_size),
                light_dir_s(scene.directional_light_rotation),
                scene.camera.perspective_mat_s(aspect_of_s(screen_size)),
                frustum_clipped_s(
                    scene.camera,
                    aspect_of_s(screen_size),
                    camera_space_list_s(scene.camera, scene.objects@),
                ),
                0,
            );
            forall|i: int| 0 <= i < r@.len() ==> r@[i] == shaded[i].color
        }),
        frustum_clipped_s(
            scene.camera,
            aspect_of_s(screen_size),
            camera_space_list_s(scene.camera, scene.objects@),
        ).len() == 0 ==> forall|i: int|
            0 <= i < r@.len() ==> r@[i] == background_color_s(),
        scene.objects@.len() == 0 ==> forall|i: int|
            0 <= i < r@.len() ==> r@[i] == background_color_s(),
{
    let mut buffer = DepthBuffer::new(screen_size, background_color());
    proof {
        assert(buffer.buffer@ =~= initial_cells_s(screen_size));
    }
    scene.camera.render(&mut buffer, scene);
    proof {
        if scene.objects@.len() == 0 {
            lemma_empty_scene_clips_empty(scene.camera, aspect_of_s(screen_size));
        }
    }
    buffer.to_bitmap()
}

/// A representable point whose camera-space depth lies in a window.
pub open spec fn point_in_z_window_s(v: Vec4, lo: int, hi: int) -> bool {
    &&& crate::fixed::FX_MIN <= v.x
    &&& crate::fixed::FX_MIN <= v.y
    &&& crate::fixed::FX_MIN <= v.z
    &&& crate::fixed::FX_MIN <= v.w
    &&& lo <= v.z <= hi
}

/// All three vertices of a triangle lie in a depth window.
pub open spec fn tri_in_z_window_s(t: Triangle, lo: int, hi: int) -> bool {
    &&& point_in_z_window_s(t.p1, lo, hi)
    &&& point_in_z_window_s(t.p2, lo, hi)
    &&& point_in_z_window_s(t.p3, lo, hi)
}

/// A scene placed entirely with identity transforms: camera and every
/// object at the origin with no rotation.
pub open spec fn identity_placement_s(cam: Camera, objs: Seq<GameObject>) -> bool {
    &&& cam.position == (Vec3 { x: 0, y: 0, z: 0 })
    &&& cam.rotation == (Vec3 { x: 0, y: 0, z: 0 })
    &&& forall|k: int|
        0 <= k < objs.len() ==> (#[trigger] objs[k]).position == (Vec3 { x: 0, y: 0, z: 0 })
            && objs[k].rotation == (Vec3 { x: 0, y: 0, z: 0 })
}

/// Under identity transforms the camera-space vertices are the mesh
/// vertices exactly: zero rotations and translations are exact in the
/// fixed arithmetic.
proof fn lemma_identity_camera_tri(cam: Camera, t: Triangle)
    requires
        cam.position == (Vec3 { x: 0, y: 0, z: 0 }),
        cam.rotation == (Vec3 { x: 0, y: 0, z: 0 }),
        crate::fixed::FX_MIN <= t.p1.x,
        crate::fixed::FX_MIN <= t.p1.y,
        crate::fixed::FX_MIN <= t.p1.z,
        crate::fixed::FX_MIN <= t.p1.w,
        crate::fixed::FX_MIN <= t.p2.x,
        crate::fixed::FX_MIN <= t.p2.y,
        crate::fixed::FX_MIN <= t.p2.z,
        crate::fixed::FX_MIN <= t.p2.w,
        crate::fixed::FX_MIN <= t.p3.x,
        crate::fixed::FX_MIN <= t.p3.y,
        crate::fixed::FX_MIN <= t.p3.z,
        crate::fixed::FX_MIN <= t.p3.w,
    ensures
        camera_tri_s(cam, Vec3 { x: 0, y: 0, z: 0 }, Vec3 { x: 0, y: 0, z: 0 }, t).p1 == t.p1,
        camera_tri_s(cam, Vec3 { x: 0, y: 0, z: 0 }, Vec3 { x: 0, y: 0, z: 0 }, t).p2 == t.p2,
        camera_tri_s(cam, Vec3 { x: 0, y: 0, z: 0 }, Vec3 { x: 0, y: 0, z: 0 }, t).p3 == t.p3,
{
    reveal(camera_tri_s);
    assert(v3_neg_s(Vec3 { x: 0, y: 0, z: 0 }) == (Vec3 { x: 0, y: 0, z: 0 }));
    crate::math::lemma_rot4_zero_identity(t.p1);
    crate::math::lemma_rot4_zero_identity(t.p2);
    crate::math::lemma_rot4_zero_identity(t.p3);
    crate::math::lemma_translation_zero_identity(t.p1);
    crate::math::lemma_translation_zero_identity(t.p2);
    crate::math::lemma_translation_zero_identity(t.p3);
}

/// Under identity transforms, a depth window on every mesh vertex is a
/// depth window on every camera-space vertex.
proof fn lemma_identity_list_z_window(cam: Camera, objs: Seq<GameObject>, lo: int, hi: int)
    requires
        identity_placement_s(cam, objs),
        forall|k: int, j: int|
            0 <= k < objs.len() && 0 <= j < objs[k].mesh.triangles@.len()
                ==> tri_in_z_window_s(#[trigger] objs[k].mesh.triangles@[j], lo, hi),
    ensures
        forall|i: int|
            0 <= i < camera_space_list_s(cam, objs).len() ==> tri_in_z_window_s(
                #[trigger] camera_space_list_s(cam, objs)[i],
                lo,
                hi,
            ),
    decreases objs.len(),
{
    if objs.len() == 0 {
    } else {
        let rest = objs.drop_last();
        let last = objs.last();
        assert(forall|k: int, j: int|
            0 <= k < rest.len() && 0 <= j < rest[k].mesh.triangles@.len()
                ==> tri_in_z_window_s(#[trigger] rest[k].mesh.triangles@[j], lo, hi)) by {
            assert(forall|k: int| 0 <= k < rest.len() ==> rest[k] == objs[k]);
        }
        assert(identity_placement_s(cam, rest)) by {
            assert(forall|k: int| 0 <= k < rest.len() ==> rest[k] == objs[k]);
        }
        lemma_identity_list_z_window(cam, rest, lo, hi);
        let front = camera_space_list_s(cam, rest);
        let tail = object_tris_s(cam, last);
        assert(camera_space_list_s(cam, objs) == front + tail);
        assert forall|i: int| 0 <= i < camera_space_list_s(cam, objs).len() implies
            tri_in_z_window_s(#[trigger] camera_space_list_s(cam, objs)[i], lo, hi) by {
            if i < front.len() {
                assert(camera_space_list_s(cam, objs)[i] == front[i]);
            } else {
                let j = i - front.len();
                assert(camera_space_list_s(cam, objs)[i] == tail[j]);
                let mt = last.mesh.triangles@[j];
                assert(objs[objs.len() - 1] == last);
                assert(tri_in_z_window_s(mt, lo, hi));
                lemma_identity_camera_tri(cam, mt);
                assert(tail[j] == camera_tri_s(cam, last.rotation, last.position, mt));
            }
        }
    }
}

/// Whether a representable point is inside the near plane is exactly
/// whether its depth reaches the near distance.
proof fn lemma_near_plane_inside(cam: Camera, p: Vec4)
    requires
        crate::fixed::FX_MIN <= cam.z_near,
        crate::fixed::FX_MIN <= p.z,
    ensures
        crate::math::plane_inside_s(near_plane_s(cam), p) <==> p.z >= cam.z_near,
{
    crate::fixed::lemma_fx_mul_zero(p.x as int);
    crate::fixed::lemma_fx_mul_zero(p.y as int);
    crate::fixed::lemma_fx_mul_one(p.z as int);
    crate::fixed::lemma_fx_mul_one(cam.z_near as int);
    crate::fixed::lemma_fx_mul_zero(0int);
    let plane = near_plane_s(cam);
    assert(plane.w == neg64(cam.z_near));
    assert(dot_s(plane, p) == p.z);
}

/// Whether a representable point is inside the far plane is exactly
/// whether its depth does not pass the far distance.
proof fn lemma_far_plane_inside(cam: Camera, p: Vec4)
    requires
        crate::fixed::FX_MIN <= cam.z_far,
        crate::fixed::FX_MIN <= p.z,
    ensures
        crate::math::plane_inside_s(far_plane_s(cam), p) <==> p.z <= cam.z_far,
{
    crate::fixed::lemma_fx_mul_zero(p.x as int);
    crate::fixed::lemma_fx_mul_zero(p.y as int);
    crate::fixed::lemma_fx_mul_neg_one(p.z as int);
    crate::fixed::lemma_fx_mul_neg_one(cam.z_far as int);
    crate::fixed::lemma_fx_mul_zero(0int);
    let plane = far_plane_s(cam);
    assert(plane.w == cam.z_far);
    assert(dot_s(plane, p) as int == -(p.z as int));
}

/// A scene whose every triangle lies entirely nearer than the near plane
/// contributes nothing: under identity transforms, if every mesh vertex
/// has depth below the near distance, no triangle survives the frustum
/// clip, and by the driver's contract the frame stays background.
pub proof fn lemma_behind_near_contributes_nothing(
    cam: Camera,
    aspect: i64,
    objs: Seq<GameObject>,
)
    requires
        identity_placement_s(cam, objs),
        crate::fixed::FX_MIN <= cam.z_near,
        forall|k: int, j: int|
            0 <= k < objs.len() && 0 <= j < objs[k].mesh.triangles@.len()
                ==> tri_in_z_window_s(
                #[trigger] objs[k].mesh.triangles@[j],
                crate::fixed::FX_MIN as int,
                cam.z_near - 1,
            ),
    ensures
        frustum_clipped_s(cam, aspect, camera_space_list_s(cam, objs)).len() == 0,
{
    lemma_identity_list_z_window(cam, objs, crate::fixed::FX_MIN as int, cam.z_near - 1);
    let list = camera_space_list_s(cam, objs);
    let near = near_plane_s(cam);
    assert forall|i: int| 0 <= i < list.len() implies !crate::math::plane_inside_s(
        near,
        (#[trigger] list[i]).p1,
    ) && !crate::math::plane_inside_s(near, list[i].p2) && !crate::math::plane_inside_s(
        near,
        list[i].p3,
    ) by {
        lemma_near_plane_inside(cam, list[i].p1);
        lemma_near_plane_inside(cam, list[i].p2);
        lemma_near_plane_inside(cam, list[i].p3);
    }
    crate::clip::lemma_clip_triangles_all_outside_empty(list, near);
    assert(clip_triangles_s(list, near) =~= Seq::<Triangle>::empty());
    lemma_clip_of_empty(far_plane_s(cam));
    lemma_clip_chain_of_empty(cam, aspect, list);
}

/// A scene whose every triangle lies entirely beyond the far plane
/// contributes nothing: under identity transforms, such triangles pass
/// the near clip unchanged and the far clip drops them all.
pub proof fn lemma_beyond_far_contributes_nothing(
    cam: Camera,
    aspect: i64,
    objs: Seq<GameObject>,
)
    requires
        identity_placement_s(cam, objs),
        crate::fixed::FX_MIN <= cam.z_near,
        cam.z_near <= cam.z_far,
        forall|k: int, j: int|
            0 <= k < objs.len() && 0 <= j < objs[k].mesh.triangles@.len()
                ==> tri_in_z_window_s(
                #[trigger] objs[k].mesh.triangles@[j],
                cam.z_far + 1,
                crate::fixed::FX_MAX as int,
            ),
    ensures
        frustum_clipped_s(cam, aspect, camera_space_list_s(cam, objs)).len() == 0,
{
    lemma_identity_list_z_window(cam, objs, cam.z_far + 1, crate::fixed::FX_MAX as int);
    let list = camera_space_list_s(cam, objs);
    let near = near_plane_s(cam);
    let far = far_plane_s(cam);
    assert forall|i: int| 0 <= i < list.len() implies crate::math::plane_inside_s(
        near,
        (#[trigger] list[i]).p1,
    ) && crate::math::plane_inside_s(near, list[i].p2) && crate::math::plane_inside_s(
        near,
        list[i].p3,
    ) by {
        lemma_near_plane_inside(cam, list[i].p1);
        lemma_near_plane_inside(cam, list[i].p2);
        lemma_near_plane_inside(cam, list[i].p3);
    }
    crate::clip::lemma_clip_triangles_all_inside_identity(list, near);
    assert forall|i: int| 0 <= i < list.len() implies !crate::math::plane_inside_s(
        far,
        (#[trigger] list[i]).p1,
    ) && !crate::math::plane_inside_s(far, list[i].p2) && !crate::math::plane_inside_s(
        far,
        list[i].p3,
    ) by {
        lemma_far_plane_inside(cam, list[i].p1);
        lemma_far_plane_inside(cam, list[i].p2);
        lemma_far_plane_inside(cam, list[i].p3);
    }
    crate::clip::lemma_clip_triangles_all_outside_empty(list, far);
    lemma_clip_chain_of_empty(cam, aspect, list);
}

/// Clipping an empty list against any plane yields an empty list.
proof fn lemma_clip_of_empty(plane: Vec4)
    ensures
        clip_triangles_s(Seq::<Triangle>::empty(), plane) == Seq::<Triangle>::empty(),
{
    assert(clip_triangles_s(Seq::<Triangle>::empty(), plane) =~= Seq::<Triangle>::empty());
}

/// Once the near or far pass has emptied the list, every later frustum
/// pass keeps it empty, so the whole clip comes out empty.
proof fn lemma_clip_chain_of_empty(cam: Camera, aspect: i64, tris: Seq<Triangle>)
    requires
        clip_triangles_s(clip_triangles_s(tris, near_plane_s(cam)), far_plane_s(cam)).len()
            == 0,
    ensures
        frustum_clipped_s(cam, aspect, tris).len() == 0,
{
    let hor = sub64(DEG90_FX, half_horizontal_fov_s(cam, aspect));
    let ver = sub64(DEG90_FX, div64(cam.vertical_fov, 131072));
    let b = clip_triangles_s(clip_triangles_s(tris, near_plane_s(cam)), far_plane_s(cam));
    assert(b =~= Seq::<Triangle>::empty());
    lemma_clip_of_empty(side_plane_s(Vec3 { x: 0, y: hor, z: 0 }));
    lemma_clip_of_empty(side_plane_s(Vec3 { x: 0, y: neg64(hor), z: 0 }));
    lemma_clip_of_empty(side_plane_s(Vec3 { x: neg64(ver), y: 0, z: 0 }));
    lemma_clip_of_empty(side_plane_s(Vec3 { x: ver, y: 0, z: 0 }));
}

/// An empty scene has nothing to clip: the camera-space list of no
/// objects is empty, and every frustum pass keeps it empty.
pub proof fn lemma_empty_scene_clips_empty(cam: Camera, aspect: i64)
    ensures
        camera_space_list_s(cam, Seq::<GameObject>::empty()) == Seq::<Triangle>::empty(),
        frustum_clipped_s(cam, aspect, Seq::<Triangle>::empty()) == Seq::<Triangle>::empty(),
{
    assert(camera_space_list_s(cam, Seq::<GameObject>::empty()) =~= Seq::<Triangle>::empty());
    let hor = sub64(DEG90_FX, half_horizontal_fov_s(cam, aspect));
    let ver = sub64(DEG90_FX, div64(cam.vertical_fov, 131072));
    assert(clip_triangles_s(Seq::<Triangle>::empty(), near_plane_s(cam)) =~= Seq::<
        Triangle,
    >::empty());
    assert(frustum_clipped_s(cam, aspect, Seq::<Triangle>::empty()) =~= Seq::<Triangle>::empty());
}

} // verus!
