//! The scene snapshot and its per-frame update.
//!
//! A scene holds a camera, a directional light given by Euler angles, and
//! a list of objects, each a mesh with a placement.  The update step
//! applies user input to the camera: movement along the camera's own axes
//! and yaw rotation, both scaled by the frame's elapsed time, and a
//! steady spin of the light.

use vstd::prelude::*;

use crate::fixed::{fx_add, fx_mul, FX_ONE};
use crate::math::{
    mat3_apply_s, mul64, rot3_s, v3_add_s, v3_scale_s, Mat3x3, Mesh, Vec3,
};
use crate::render::Camera;

verus! {

/// One frame of user input: which movement keys are held.
#[derive(Clone, Copy, PartialEq, Eq, Structural, Debug)]
pub struct UserInput {
    pub w_pressed: bool,
    pub a_pressed: bool,
    pub s_pressed: bool,
    pub d_pressed: bool,
    pub q_pressed: bool,
    pub e_pressed: bool,
    pub shift_pressed: bool,
}

/// A mesh placed in the world.
pub struct GameObject {
    pub mesh: Mesh,
    pub position: Vec3,
    pub rotation: Vec3,
}

/// A read-only snapshot of everything one frame renders.
pub struct Scene {
    pub camera: Camera,
    pub directional_light_rotation: Vec3,
    pub objects: Vec<GameObject>,
}

/// The camera-local movement direction held in the input: forward and
/// back along z, down and up along y, times two and a half under shift.
pub open spec fn camera_movement_dir_s(u: UserInput) -> Vec3 {
    let dir = Vec3 {
        x: 0,
        y: if u.q_pressed && !u.e_pressed {
            -65536i64
        } else if !u.q_pressed && u.e_pressed {
            65536
        } else {
            0
        },
        z: if u.w_pressed && !u.s_pressed {
            65536
        } else if !u.w_pressed && u.s_pressed {
            -65536i64
        } else {
            0
        },
    };
    if u.shift_pressed {
        v3_scale_s(dir, 163840)
    } else {
        dir
    }
}

/// The yaw direction held in the input, times five under shift.
pub open spec fn camera_rotation_dir_s(u: UserInput) -> Vec3 {
    let dir = Vec3 {
        x: 0,
        y: if u.d_pressed && !u.a_pressed {
            65536
        } else if !u.d_pressed && u.a_pressed {
            -65536i64
        } else {
            0
        },
        z: 0,
    };
    if u.shift_pressed {
        v3_scale_s(dir, 327680)
    } else {
        dir
    }
}

/// The camera position after one update: the input direction turned into
/// the camera's frame, scaled by half the elapsed time, and added on.
pub open spec fn updated_camera_position_s(c: Camera, u: UserInput, delta_time: i64) -> Vec3 {
    v3_add_s(
        c.position,
        v3_scale_s(
            mat3_apply_s(rot3_s(c.rotation), camera_movement_dir_s(u)),
            mul64(32768, delta_time),
        ),
    )
}

/// The camera rotation after one update: the yaw direction scaled by
/// fifteen degrees per second.
pub open spec fn updated_camera_rotation_s(c: Camera, u: UserInput, delta_time: i64) -> Vec3 {
    v3_add_s(c.rotation, v3_scale_s(camera_rotation_dir_s(u), mul64(983040, delta_time)))
}

impl Scene {
    /// A scene of one object holding the given mesh, looked at from just
    /// behind the origin, lit from above and behind.
    pub fn new(mesh: Mesh) -> (r: Scene)
        ensures
            r.camera.vertical_fov == 60 * 65536,
            r.camera.z_near == 6554,
            r.camera.z_far == 5 * 65536,
            r.camera.position == (Vec3 { x: 0, y: 0, z: -65536i64 }),
            r.camera.rotation == (Vec3 { x: 0, y: 0, z: 0 }),
            r.directional_light_rotation == (Vec3 { x: -1966080i64, y: 0, z: 0 }),
            r.objects@.len() == 1,
            r.objects@[0].mesh == mesh,
            r.objects@[0].position == (Vec3 { x: 0, y: 0, z: -65536i64 }),
            r.objects@[0].rotation == (Vec3 { x: 0, y: 0, z: 0 }),
    {
        let camera = Camera {
            vertical_fov: 60 * 65536,
            z_near: 6554,
            z_far: 5 * 65536,
            position: Vec3 { x: 0, y: 0, z: -65536 },
            rotation: Vec3 { x: 0, y: 0, z: 0 },
        };
        let object = GameObject {
            mesh,
            position: Vec3 { x: 0, y: 0, z: -65536 },
            rotation: Vec3 { x: 0, y: 0, z: 0 },
        };
        let mut objects: Vec<GameObject> = Vec::new();
        objects.push(object);
        Scene {
            camera,
            directional_light_rotation: Vec3 { x: -30 * 65536, y: 0, z: 0 },
            objects,
        }
    }
}

/// The camera-local movement direction held in the input.
pub fn camera_movement_dir(user_input: &UserInput) -> (r: Vec3)
    ensures
        r == camera_movement_dir_s(*user_input),
{
    let mut dir = Vec3 { x: 0, y: 0, z: 0 };
    if user_input.w_pressed && !user_input.s_pressed {
        dir.z = FX_ONE;
    } else if !user_input.w_pressed && user_input.s_pressed {
        dir.z = -FX_ONE;
    }
    if user_input.q_pressed && !user_input.e_pressed {
        dir.y = -FX_ONE;
    } else if !user_input.q_pressed && user_input.e_pressed {
        dir.y = FX_ONE;
    }
    if user_input.shift_pressed {
        dir = dir.scale(163840);
    }
    dir
}

/// The yaw direction held in the input.
pub fn camera_rotation_dir(user_input: &UserInput) -> (r: Vec3)
    ensures
        r == camera_rotation_dir_s(*user_input),
{
    let mut dir = Vec3 { x: 0, y: 0, z: 0 };
    if user_input.d_pressed && !user_input.a_pressed {
        dir.y = FX_ONE;
    } else if !user_input.d_pressed && user_input.a_pressed {
        dir.y = -FX_ONE;
    }
    if user_input.shift_pressed {
        dir = dir.scale(327680);
    }
    dir
}

/// Move and turn the camera by the held keys, and spin the light a
/// quarter turn per second; everything else is untouched.
pub fn update_camera(scene: &mut Scene, user_input: &UserInput, delta_time: i64)
    ensures
        final(scene).camera.position == updated_camera_position_s(
            old(scene).camera,
            *user_input,
            delta_time,
        ),
        final(scene).camera.rotation == updated_camera_rotation_s(
            old(scene).camera,
            *user_input,
            delta_time,
        ),
        final(scene).camera.vertical_fov == old(scene).camera.vertical_fov,
        final(scene).camera.z_near == old(scene).camera.z_near,
        final(scene).camera.z_far == old(scene).camera.z_far,
        final(scene).directional_light_rotation.x == old(
            scene,
        ).directional_light_rotation.x,
        final(scene).directional_light_rotation.y == crate::math::add64(
            old(scene).directional_light_rotation.y,
            mul64(5898240, delta_time),
        ),
        final(scene).directional_light_rotation.z == old(
            scene,
        ).directional_light_rotation.z,
        final(scene).objects == old(scene).objects,
{
    let mut camera_offset = camera_movement_dir(user_input);
    let rot = Mat3x3::rotation(&scene.camera.rotation);
    camera_offset = rot.apply(&camera_offset);
    camera_offset = camera_offset.scale(fx_mul(32768, delta_time));
    let mut camera_rotation_offset = camera_rotation_dir(user_input);
    camera_rotation_offset = camera_rotation_offset.scale(fx_mul(983040, delta_time));
    scene.camera.position = scene.camera.position.add(&camera_offset);
    scene.camera.rotation = scene.camera.rotation.add(&camera_rotation_offset);
    scene.directional_light_rotation.y = fx_add(
        scene.directional_light_rotation.y,
        fx_mul(5898240, delta_time),
    );
}

/// One scene update per frame: the camera moves by the held keys.
pub fn update_scene(scene: &mut Scene, user_input: &UserInput, delta_time: i64)
    ensures
        final(scene).camera.position == updated_camera_position_s(
            old(scene).camera,
            *user_input,
            delta_time,
        ),
        final(scene).camera.rotation == updated_camera_rotation_s(
            old(scene).camera,
            *user_input,
            delta_time,
        ),
        final(scene).camera.vertical_fov == old(scene).camera.vertical_fov,
        final(scene).camera.z_near == old(scene).camera.z_near,
        final(scene).camera.z_far == old(scene).camera.z_far,
        final(scene).directional_light_rotation.x == old(
            scene,
        ).directional_light_rotation.x,
        final(scene).directional_light_rotation.y == crate::math::add64(
            old(scene).directional_light_rotation.y,
            mul64(5898240, delta_time),
        ),
        final(scene).directional_light_rotation.z == old(
            scene,
        ).directional_light_rotation.z,
        final(scene).objects == old(scene).objects,
{
    update_camera(scene, user_input, delta_time);
}

} // verus!
