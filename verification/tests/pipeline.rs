//! End-to-end frames through the full pipeline, the rasterizer's
//! ordering rules, and the scene update.

use graphics_engine::assets::cube;
use graphics_engine::buffer::{background_color, wireframe_color, Color, DepthBuffer, ScreenSize};
use graphics_engine::fixed::FX_ONE;
use graphics_engine::math::{Mesh, Triangle, Vec3, Vec4};
use graphics_engine::raster::{draw_triangle, draw_wireframe_triangle};
use graphics_engine::render::{render, Camera};
use graphics_engine::scene::{
    camera_movement_dir, camera_rotation_dir, update_scene, GameObject, Scene, UserInput,
};

const HALF: i64 = 32768;

fn no_input() -> UserInput {
    UserInput {
        w_pressed: false,
        a_pressed: false,
        s_pressed: false,
        d_pressed: false,
        q_pressed: false,
        e_pressed: false,
        shift_pressed: false,
    }
}

fn full_viewport_triangle(z: i64) -> Triangle {
    Triangle::new(
        Vec4::new3d(-FX_ONE, -FX_ONE, z),
        Vec4::new3d(3 * FX_ONE, -FX_ONE, z),
        Vec4::new3d(-FX_ONE, 3 * FX_ONE, z),
    )
}

/// A unit cube centered at the origin, two triangles per face.
fn centered_unit_cube() -> Mesh {
    let h = HALF;
    let p = |x: i64, y: i64, z: i64| Vec4::new3d(x, y, z);
    let mut triangles = Vec::new();
    let mut quad = |a: Vec4, b: Vec4, c: Vec4, d: Vec4| {
        triangles.push(Triangle::new(a, b, c));
        triangles.push(Triangle::new(a, c, d));
    };
    quad(p(-h, -h, -h), p(-h, h, -h), p(h, h, -h), p(h, -h, -h));
    quad(p(-h, -h, h), p(-h, h, h), p(h, h, h), p(h, -h, h));
    quad(p(-h, -h, -h), p(-h, -h, h), p(-h, h, h), p(-h, h, -h));
    quad(p(h, -h, -h), p(h, -h, h), p(h, h, h), p(h, h, -h));
    quad(p(-h, h, -h), p(-h, h, h), p(h, h, h), p(h, h, -h));
    quad(p(-h, -h, -h), p(-h, -h, h), p(h, -h, h), p(h, -h, -h));
    Mesh { triangles }
}

#[test]
fn empty_scene_renders_the_background_everywhere() {
    let scene = Scene {
        camera: Camera {
            vertical_fov: 60 * FX_ONE,
            z_near: HALF,
            z_far: 5 * FX_ONE,
            position: Vec3::new(0, 0, 0),
            rotation: Vec3::new(0, 0, 0),
        },
        directional_light_rotation: Vec3::new(0, 0, 0),
        objects: Vec::new(),
    };
    let bitmap = render(ScreenSize { width: 10, height: 10 }, &scene);
    assert_eq!(bitmap.len(), 100);
    for c in &bitmap {
        assert_eq!(*c, Color { red: 200, green: 50, blue: 0, alpha: 0 });
    }
}

#[test]
fn full_viewport_triangle_covers_the_whole_frame() {
    let scene = Scene {
        camera: Camera {
            vertical_fov: 90 * FX_ONE,
            z_near: HALF,
            z_far: 2 * FX_ONE,
            position: Vec3::new(0, 0, 0),
            rotation: Vec3::new(0, 0, 0),
        },
        directional_light_rotation: Vec3::new(0, 0, 0),
        objects: vec![GameObject {
            mesh: Mesh { triangles: vec![full_viewport_triangle(FX_ONE)] },
            position: Vec3::new(0, 0, 0),
            rotation: Vec3::new(0, 0, 0),
        }],
    };
    let bitmap = render(ScreenSize { width: 4, height: 4 }, &scene);
    assert_eq!(bitmap.len(), 16);
    for c in &bitmap {
        assert_ne!(*c, background_color());
    }
}

#[test]
fn centered_cube_fills_the_middle_and_spares_the_corners() {
    let scene = Scene {
        camera: Camera {
            vertical_fov: 60 * FX_ONE,
            z_near: 6554,
            z_far: 5 * FX_ONE,
            position: Vec3::new(0, 0, -2 * FX_ONE),
            rotation: Vec3::new(0, 0, 0),
        },
        directional_light_rotation: Vec3::new(-30 * FX_ONE, 0, 0),
        objects: vec![GameObject {
            mesh: centered_unit_cube(),
            position: Vec3::new(0, 0, 0),
            rotation: Vec3::new(0, 0, 0),
        }],
    };
    let bitmap = render(ScreenSize { width: 100, height: 100 }, &scene);
    assert_eq!(bitmap.len(), 10000);
    assert_eq!(bitmap[0], background_color());
    assert_eq!(bitmap[99], background_color());
    assert_eq!(bitmap[9900], background_color());
    assert_eq!(bitmap[9999], background_color());
    assert_ne!(bitmap[50 * 100 + 50], background_color());
}

#[test]
fn behind_camera_triangle_contributes_no_pixels() {
    // Every vertex sits nearer than the near plane: the frame stays
    // background.
    let scene = Scene {
        camera: Camera {
            vertical_fov: 60 * FX_ONE,
            z_near: HALF,
            z_far: 5 * FX_ONE,
            position: Vec3::new(0, 0, 0),
            rotation: Vec3::new(0, 0, 0),
        },
        directional_light_rotation: Vec3::new(0, 0, 0),
        objects: vec![GameObject {
            mesh: Mesh { triangles: vec![full_viewport_triangle(-FX_ONE)] },
            position: Vec3::new(0, 0, 0),
            rotation: Vec3::new(0, 0, 0),
        }],
    };
    let bitmap = render(ScreenSize { width: 8, height: 8 }, &scene);
    for c in &bitmap {
        assert_eq!(*c, background_color());
    }
}

#[test]
fn beyond_far_plane_triangle_contributes_no_pixels() {
    let scene = Scene {
        camera: Camera {
            vertical_fov: 60 * FX_ONE,
            z_near: HALF,
            z_far: 2 * FX_ONE,
            position: Vec3::new(0, 0, 0),
            rotation: Vec3::new(0, 0, 0),
        },
        directional_light_rotation: Vec3::new(0, 0, 0),
        objects: vec![GameObject {
            mesh: Mesh { triangles: vec![full_viewport_triangle(10 * FX_ONE)] },
            position: Vec3::new(0, 0, 0),
            rotation: Vec3::new(0, 0, 0),
        }],
    };
    let bitmap = render(ScreenSize { width: 8, height: 8 }, &scene);
    for c in &bitmap {
        assert_eq!(*c, background_color());
    }
}

#[test]
fn later_fill_wins_a_depth_tie() {
    let a = Color { red: 10, green: 20, blue: 30, alpha: 0 };
    let b = Color { red: 40, green: 50, blue: 60, alpha: 0 };
    let t = full_viewport_triangle(HALF);
    let mut first = DepthBuffer::new(ScreenSize { width: 4, height: 4 }, background_color());
    draw_triangle(&mut first, &t, a);
    draw_triangle(&mut first, &t, b);
    assert_eq!(first.to_bitmap()[5], b);
    let mut second = DepthBuffer::new(ScreenSize { width: 4, height: 4 }, background_color());
    draw_triangle(&mut second, &t, b);
    draw_triangle(&mut second, &t, a);
    assert_eq!(second.to_bitmap()[5], a);
}

#[test]
fn wireframe_beats_its_own_fill() {
    let t = full_viewport_triangle(HALF);
    let mut buffer = DepthBuffer::new(ScreenSize { width: 8, height: 8 }, background_color());
    let model = Color { red: 200, green: 200, blue: 0, alpha: 0 };
    draw_triangle(&mut buffer, &t, model);
    draw_wireframe_triangle(&mut buffer, &t);
    // The pixel at the first vertex carries the wireframe color even
    // though the fill covered it first: the fill's depth bias loses the
    // tie against the unbiased wireframe depth.
    let bitmap = buffer.to_bitmap();
    assert_eq!(bitmap[7 * 8 + 0], wireframe_color());
}

#[test]
fn built_in_cube_has_twelve_triangles() {
    let mesh = cube();
    assert_eq!(mesh.triangles.len(), 12);
    for t in &mesh.triangles {
        assert!(t.p1.z >= 98304 && t.p1.z <= 163840);
        assert_eq!(t.p1.w, FX_ONE);
        assert_eq!(t.world_normal, None);
    }
}

#[test]
fn scene_update_moves_the_camera_forward() {
    let mut scene = Scene::new(cube());
    let start = scene.camera.position;
    let mut input = no_input();
    input.w_pressed = true;
    // One second: forward by half a unit along z.
    update_scene(&mut scene, &input, FX_ONE);
    assert_eq!(scene.camera.position.x, start.x);
    assert_eq!(scene.camera.position.y, start.y);
    assert_eq!(scene.camera.position.z, start.z + HALF);
    // The light spins ninety degrees per second.
    assert_eq!(scene.directional_light_rotation.y, 90 * FX_ONE);
}

#[test]
fn movement_direction_follows_the_keys() {
    let mut input = no_input();
    assert_eq!(camera_movement_dir(&input), Vec3::new(0, 0, 0));
    input.w_pressed = true;
    assert_eq!(camera_movement_dir(&input), Vec3::new(0, 0, FX_ONE));
    input.shift_pressed = true;
    // Shift scales by two and a half.
    assert_eq!(camera_movement_dir(&input), Vec3::new(0, 0, 163840));
    input.w_pressed = false;
    input.s_pressed = true;
    input.shift_pressed = false;
    assert_eq!(camera_movement_dir(&input), Vec3::new(0, 0, -FX_ONE));
    input.q_pressed = true;
    assert_eq!(camera_movement_dir(&input).y, -FX_ONE);

    let mut turn = no_input();
    turn.d_pressed = true;
    assert_eq!(camera_rotation_dir(&turn), Vec3::new(0, FX_ONE, 0));
    turn.a_pressed = true;
    assert_eq!(camera_rotation_dir(&turn), Vec3::new(0, 0, 0));
}

#[test]
fn default_scene_holds_one_object() {
    let scene = Scene::new(cube());
    assert_eq!(scene.objects.len(), 1);
    assert_eq!(scene.objects[0].mesh.triangles.len(), 12);
    assert_eq!(scene.camera.vertical_fov, 60 * FX_ONE);
    assert_eq!(scene.camera.position, Vec3::new(0, 0, -FX_ONE));
}

#[test]
fn frame_loop_smoke() {
    // One whole frame the way a host would run it: build the default
    // scene, advance it by half a second, render at 200 by 100.
    let mut scene = Scene::new(cube());
    update_scene(&mut scene, &no_input(), HALF);
    let bitmap = render(ScreenSize { width: 200, height: 100 }, &scene);
    assert_eq!(bitmap.len(), 20000);
}

#[test]
fn degenerate_triangle_paints_nothing() {
    // A point triangle and a collinear one both have zero signed area:
    // the fill skips them whole and every cell keeps the background.
    let v = Vec4::new3d(0, 0, HALF);
    let point_triangle = Triangle::new(v, v, v);
    let mut buffer = DepthBuffer::new(ScreenSize { width: 4, height: 4 }, background_color());
    draw_triangle(&mut buffer, &point_triangle, Color { red: 1, green: 2, blue: 3, alpha: 0 });
    for c in &buffer.to_bitmap() {
        assert_eq!(*c, background_color());
    }

    let collinear = Triangle::new(
        Vec4::new3d(-FX_ONE, -FX_ONE, HALF),
        Vec4::new3d(0, 0, HALF),
        Vec4::new3d(FX_ONE, FX_ONE, HALF),
    );
    let mut second = DepthBuffer::new(ScreenSize { width: 4, height: 4 }, background_color());
    draw_triangle(&mut second, &collinear, Color { red: 1, green: 2, blue: 3, alpha: 0 });
    for c in &second.to_bitmap() {
        assert_eq!(*c, background_color());
    }
}
