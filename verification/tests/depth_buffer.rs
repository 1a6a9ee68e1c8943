//! The depth buffer: bounds, the depth test, the row flip, and the
//! bitmap export.

use graphics_engine::buffer::{
    background_color, wireframe_color, Color, DeepPixel, DepthBuffer, ScreenSize,
};
use graphics_engine::fixed::FX_ONE;

fn red() -> Color {
    Color { red: 255, green: 0, blue: 0, alpha: 0 }
}

fn blue() -> Color {
    Color { red: 0, green: 0, blue: 255, alpha: 0 }
}

fn buffer(w: i32, h: i32) -> DepthBuffer {
    DepthBuffer::new(ScreenSize { width: w, height: h }, background_color())
}

#[test]
fn a_fresh_buffer_is_background_at_depth_one() {
    let b = buffer(4, 3);
    let bitmap = b.to_bitmap();
    assert_eq!(bitmap.len(), 12);
    for c in &bitmap {
        assert_eq!(*c, background_color());
    }
}

#[test]
fn bitmap_length_is_width_times_height() {
    assert_eq!(buffer(10, 10).to_bitmap().len(), 100);
    assert_eq!(buffer(7, 3).to_bitmap().len(), 21);
    assert_eq!(buffer(0, 5).to_bitmap().len(), 0);
    assert_eq!(buffer(5, 0).to_bitmap().len(), 0);
}

#[test]
fn writes_flip_the_row() {
    let mut b = buffer(3, 3);
    b.set_pixel(0, 0, DeepPixel { color: red(), depth: 0 });
    let bitmap = b.to_bitmap();
    // y = 0 is the bottom in scene space, so it lands on the last row of
    // the emitted image.
    assert_eq!(bitmap[2 * 3 + 0], red());
    assert_eq!(bitmap[0], background_color());
}

#[test]
fn nearer_write_wins_farther_write_loses() {
    let mut b = buffer(2, 2);
    b.set_pixel(1, 1, DeepPixel { color: red(), depth: FX_ONE / 2 });
    b.set_pixel(1, 1, DeepPixel { color: blue(), depth: FX_ONE / 4 });
    assert_eq!(b.to_bitmap()[1], blue());
    b.set_pixel(1, 1, DeepPixel { color: red(), depth: FX_ONE / 2 });
    assert_eq!(b.to_bitmap()[1], blue());
}

#[test]
fn equal_depth_overwrites() {
    let mut b = buffer(2, 2);
    b.set_pixel(0, 0, DeepPixel { color: red(), depth: FX_ONE / 2 });
    b.set_pixel(0, 0, DeepPixel { color: blue(), depth: FX_ONE / 2 });
    assert_eq!(b.to_bitmap()[2], blue());
}

#[test]
fn depth_one_overwrites_the_background() {
    let mut b = buffer(2, 2);
    b.set_pixel(0, 0, DeepPixel { color: red(), depth: FX_ONE });
    assert_eq!(b.to_bitmap()[2], red());
}

#[test]
fn writes_at_the_extents_are_no_ops() {
    let mut b = buffer(3, 3);
    b.set_pixel(3, 0, DeepPixel { color: red(), depth: 0 });
    b.set_pixel(0, 3, DeepPixel { color: red(), depth: 0 });
    b.set_pixel(-1, 0, DeepPixel { color: red(), depth: 0 });
    b.set_pixel(0, -1, DeepPixel { color: red(), depth: 0 });
    for c in &b.to_bitmap() {
        assert_eq!(*c, background_color());
    }
}

#[test]
fn negative_depth_is_rejected() {
    let mut b = buffer(2, 2);
    b.set_pixel(0, 0, DeepPixel { color: red(), depth: -1 });
    assert_eq!(b.to_bitmap()[2], background_color());
}

#[test]
fn ndc_writes_map_the_unit_square_onto_the_grid() {
    let mut b = buffer(4, 4);
    // (-1, -1) maps to pixel (0, 0).
    b.set_screen_space_pixel(-FX_ONE, -FX_ONE, DeepPixel { color: red(), depth: 0 });
    let bitmap = b.to_bitmap();
    assert_eq!(bitmap[3 * 4 + 0], red());
    // (1, 1) maps to pixel (4, 4), which the bounds guard drops.
    let mut b2 = buffer(4, 4);
    b2.set_screen_space_pixel(FX_ONE, FX_ONE, DeepPixel { color: red(), depth: 0 });
    for c in &b2.to_bitmap() {
        assert_eq!(*c, background_color());
    }
    // (0, 0) maps to the center pixel (2, 2).
    let mut b3 = buffer(4, 4);
    b3.set_screen_space_pixel(0, 0, DeepPixel { color: red(), depth: 0 });
    assert_eq!(b3.to_bitmap()[1 * 4 + 2], red());
}

#[test]
fn pixel_positions_round_to_the_nearest_pixel() {
    let b = buffer(4, 4);
    let p = b.screen_space_to_pixel_pos(0, 0);
    assert_eq!((p.x, p.y), (2, 2));
    let q = b.screen_space_to_pixel_pos(-FX_ONE, FX_ONE);
    assert_eq!((q.x, q.y), (0, 4));
}

#[test]
fn color_interpolation_blends_and_clamps() {
    let black = Color { red: 0, green: 0, blue: 0, alpha: 0 };
    let model = Color { red: 200, green: 200, blue: 0, alpha: 0 };
    let mid = black.lerp(&model, FX_ONE / 2);
    assert_eq!(mid, Color { red: 100, green: 100, blue: 0, alpha: 0 });
    assert_eq!(black.lerp(&model, FX_ONE), model);
    assert_eq!(black.lerp(&model, 0), black);
    // Weights outside the unit interval clamp at the channel bounds.
    assert_eq!(black.lerp(&model, -FX_ONE), black);
    let over = black.lerp(&model, 2 * FX_ONE);
    assert_eq!(over, Color { red: 255, green: 255, blue: 0, alpha: 0 });
    assert_eq!(wireframe_color().lerp(&wireframe_color(), FX_ONE / 3), wireframe_color());
}
