//! Rasterization in normalized device coordinates.
//!
//! The fill walks the triangle's bounding box pixel by pixel, covers a
//! pixel when its three barycentric edge functions are nonnegative, and
//! pushes the interpolated depth slightly away from the camera so the
//! wireframe drawn afterward at the true depth wins the depth test.  The
//! wireframe walks lines by fixed-point stepping in one of four octants
//! and splats a small block around each vertex.
//!
//! Every drawing operation's result is specified exactly, by a recursive
//! spec function walking the same pixels and performing the same guarded
//! depth writes; alongside, each operation is shown to evolve the buffer
//! by landed depth writes only, so no depth ever grows.

use vstd::prelude::*;

use crate::buffer::{
    evolves_with_color_s, lemma_evolves_with_color_step, lemma_evolves_with_color_trans,
    lemma_pixel_index_in_range, set_ndc_pixel_s, set_pixel_s, wireframe_color, wireframe_color_s,
    Color, DeepPixel, DepthBuffer, ScreenSize,
};
use crate::fixed::{fx_add, fx_div, fx_from_int, fx_max, fx_min, fx_mul, fx_sub, sat, FX_ONE};
use crate::math::{
    add64, clockwise_s, cross_len_2d_s, div64, mul64, sub64, v4_sub_s, Triangle, Vec4,
};

verus! {

/// The smaller of two scalars.
pub open spec fn min64(a: i64, b: i64) -> i64 {
    if a <= b {
        a
    } else {
        b
    }
}

/// The larger of two scalars.
pub open spec fn max64(a: i64, b: i64) -> i64 {
    if a >= b {
        a
    } else {
        b
    }
}

/// A wireframe cell at a given depth.
pub open spec fn wire_pixel_s(depth: i64) -> DeepPixel {
    DeepPixel { color: wireframe_color_s(), depth }
}

/// One covered-or-skipped pixel of the triangle fill: the barycentric
/// edge functions of the sample against the clockwise triangle, and, when
/// all three are nonnegative, a guarded write of the interpolated depth
/// pushed slightly toward the far plane.
pub open spec fn fill_pixel_s(
    size: ScreenSize,
    cells: Seq<DeepPixel>,
    x: i64,
    y: i64,
    p1: Vec4,
    p2: Vec4,
    p3: Vec4,
    area: i64,
    color: Color,
) -> Seq<DeepPixel> {
    let point = Vec4 { x, y, z: 0, w: FX_ONE };
    let t3 = div64(cross_len_2d_s(v4_sub_s(p2, p1), v4_sub_s(point, p1)), area);
    let t1 = div64(cross_len_2d_s(v4_sub_s(p3, p2), v4_sub_s(point, p2)), area);
    let t2 = div64(cross_len_2d_s(v4_sub_s(p1, p3), v4_sub_s(point, p3)), area);
    if t1 >= 0 && t2 >= 0 && t3 >= 0 {
        let z0 = add64(add64(mul64(t1, p1.z), mul64(t2, p2.z)), mul64(t3, p3.z));
        let z = add64(z0, add64(mul64(655, sub64(FX_ONE, z0)), 1));
        set_ndc_pixel_s(size, cells, x, y, DeepPixel { color, depth: z })
    } else {
        cells
    }
}

/// One bounding-box row of the fill, the sample's `x` advancing per
/// column.
pub open spec fn fill_row_s(
    size: ScreenSize,
    cells: Seq<DeepPixel>,
    px: int,
    px_end: int,
    x: i64,
    y: i64,
    x_step: i64,
    p1: Vec4,
    p2: Vec4,
    p3: Vec4,
    area: i64,
    color: Color,
) -> Seq<DeepPixel>
    decreases px_end - px + 1,
{
    if px > px_end {
        cells
    } else {
        fill_row_s(
            size,
            fill_pixel_s(size, cells, x, y, p1, p2, p3, area, color),
            px + 1,
            px_end,
            add64(x, x_step),
            y,
            x_step,
            p1,
            p2,
            p3,
            area,
            color,
        )
    }
}

/// The bounding-box rows of the fill, the sample's `y` advancing per row
/// and `x` starting over at the left edge.
pub open spec fn fill_rows_s(
    size: ScreenSize,
    cells: Seq<DeepPixel>,
    py: int,
    py_end: int,
    px_start: int,
    px_end: int,
    x_min: i64,
    y: i64,
    x_step: i64,
    y_step: i64,
    p1: Vec4,
    p2: Vec4,
    p3: Vec4,
    area: i64,
    color: Color,
) -> Seq<DeepPixel>
    decreases py_end - py + 1,
{
    if py > py_end {
        cells
    } else {
        fill_rows_s(
            size,
            fill_row_s(size, cells, px_start, px_end, x_min, y, x_step, p1, p2, p3, area, color),
            py + 1,
            py_end,
            px_start,
            px_end,
            x_min,
            add64(y, y_step),
            x_step,
            y_step,
            p1,
            p2,
            p3,
            area,
            color,
        )
    }
}

/// The whole triangle fill: the triangle turned clockwise, its bounding
/// box mapped to pixels, and every sample of the box tested and written.
/// A degenerate triangle, whose reordered edge cross product vanishes,
/// is skipped whole and paints nothing.
pub open spec fn draw_triangle_s(
    size: ScreenSize,
    cells: Seq<DeepPixel>,
    tr: Triangle,
    color: Color,
) -> Seq<DeepPixel> {
    let t = clockwise_s(tr);
    let p1 = t.p1;
    let p2 = t.p2;
    let p3 = t.p3;
    let x_min = min64(min64(p1.x, p2.x), p3.x);
    let x_max = max64(max64(p1.x, p2.x), p3.x);
    let y_min = min64(min64(p1.y, p2.y), p3.y);
    let y_max = max64(max64(p1.y, p2.y), p3.y);
    let bl_x = crate::buffer::ndc_to_px_s(size.width, x_min) as int;
    let bl_y = crate::buffer::ndc_to_px_s(size.height, y_min) as int;
    let tr_x = crate::buffer::ndc_to_px_s(size.width, x_max) as int;
    let tr_y = crate::buffer::ndc_to_px_s(size.height, y_max) as int;
    let area = cross_len_2d_s(v4_sub_s(p2, p1), v4_sub_s(p3, p2));
    let x_step = div64(sub64(x_max, x_min), sat((tr_x - bl_x) * 65536) as i64);
    let y_step = div64(sub64(y_max, y_min), sat((tr_y - bl_y) * 65536) as i64);
    if area == 0 {
        cells
    } else {
        fill_rows_s(
            size,
            cells,
            bl_y,
            tr_y,
            bl_x,
            tr_x,
            x_min,
            y_min,
            x_step,
            y_step,
            p1,
            p2,
            p3,
            area,
            color,
        )
    }
}

/// A degenerate triangle paints nothing: when the reordered edge cross
/// product vanishes, the fill skips the triangle whole and the buffer
/// comes back unchanged.
pub proof fn lemma_degenerate_triangle_paints_nothing(
    size: ScreenSize,
    cells: Seq<DeepPixel>,
    tr: Triangle,
    color: Color,
)
    requires
        ({
            let t = clockwise_s(tr);
            cross_len_2d_s(v4_sub_s(t.p2, t.p1), v4_sub_s(t.p3, t.p2)) == 0
        }),
    ensures
        draw_triangle_s(size, cells, tr, color) == cells,
{
}

/// The fill's depth bias strictly pushes every unit-interval depth toward
/// the far plane: the biased depth exceeds the true one.  The wireframe
/// overlay writes the true interpolated depth, so against its own fill it
/// always passes the not-greater depth test and wins the cell.
pub proof fn lemma_overlay_beats_biased_fill(z0: i64)
    requires
        0 <= z0 <= FX_ONE,
    ensures
        z0 < add64(z0, add64(mul64(655, sub64(FX_ONE, z0)), 1)),
{
    let d = sub64(FX_ONE, z0);
    assert(0 <= d <= 65536);
    assert(0 <= 655 * (d as int) <= 42926080) by (nonlinear_arith)
        requires
            0 <= d as int <= 65536,
    ;
    assert(0 <= (655 * (d as int)) / 65536 <= 655) by (nonlinear_arith)
        requires
            0 <= 655 * (d as int) <= 42926080,
    ;
    assert(crate::fixed::tdiv(655 * (d as int), 65536) == (655 * (d as int)) / 65536);
}

/// A line walk: one guarded wireframe write per pixel step, the sample
/// advancing by the per-pixel deltas.
pub open spec fn line_walk_s(
    size: ScreenSize,
    cells: Seq<DeepPixel>,
    i: int,
    end: int,
    x: i64,
    y: i64,
    z: i64,
    sx: i64,
    sy: i64,
    sz: i64,
) -> Seq<DeepPixel>
    decreases end - i + 1,
{
    if i > end {
        cells
    } else {
        line_walk_s(
            size,
            set_ndc_pixel_s(size, cells, x, y, wire_pixel_s(z)),
            i + 1,
            end,
            add64(x, sx),
            add64(y, sy),
            add64(z, sz),
            sx,
            sy,
            sz,
        )
    }
}

/// A shallow line, one pixel per column: the walk from the left pixel
/// column to the right one, advancing by the per-column share of the
/// deltas.  The falling shallow octant is the same walk with a negative
/// per-column y advance.
pub open spec fn line_cols_s(size: ScreenSize, cells: Seq<DeepPixel>, p1: Vec4, p2: Vec4) -> Seq<
    DeepPixel,
> {
    let ax = crate::buffer::ndc_to_px_s(size.width, p1.x) as int;
    let bx = crate::buffer::ndc_to_px_s(size.width, p2.x) as int;
    let pd = sat((bx - ax) * 65536) as i64;
    line_walk_s(
        size,
        cells,
        ax,
        bx,
        p1.x,
        p1.y,
        p1.z,
        div64(sub64(p2.x, p1.x), pd),
        div64(sub64(p2.y, p1.y), pd),
        div64(sub64(p2.z, p1.z), pd),
    )
}

/// A steep rising line, one pixel per row upward.
pub open spec fn line_rows_up_s(size: ScreenSize, cells: Seq<DeepPixel>, p1: Vec4, p2: Vec4)
    -> Seq<DeepPixel> {
    let ay = crate::buffer::ndc_to_px_s(size.height, p1.y) as int;
    let by = crate::buffer::ndc_to_px_s(size.height, p2.y) as int;
    let pd = sat((by - ay) * 65536) as i64;
    line_walk_s(
        size,
        cells,
        ay,
        by,
        p1.x,
        p1.y,
        p1.z,
        div64(sub64(p2.x, p1.x), pd),
        div64(sub64(p2.y, p1.y), pd),
        div64(sub64(p2.z, p1.z), pd),
    )
}

/// A steep falling line, one pixel per row downward.
pub open spec fn line_rows_down_s(size: ScreenSize, cells: Seq<DeepPixel>, p1: Vec4, p2: Vec4)
    -> Seq<DeepPixel> {
    let ay = crate::buffer::ndc_to_px_s(size.height, p1.y) as int;
    let by = crate::buffer::ndc_to_px_s(size.height, p2.y) as int;
    let pd = sat((ay - by) * 65536) as i64;
    line_walk_s(
        size,
        cells,
        by,
        ay,
        p1.x,
        p1.y,
        p1.z,
        div64(sub64(p2.x, p1.x), pd),
        div64(sub64(p2.y, p1.y), pd),
        div64(sub64(p2.z, p1.z), pd),
    )
}

/// A whole wireframe line: the endpoints ordered by x, then one of the
/// four octant walks by the signs and slopes of the pixel-space deltas.
pub open spec fn draw_line_s(size: ScreenSize, cells: Seq<DeepPixel>, q1: Vec4, q2: Vec4) -> Seq<
    DeepPixel,
> {
    let a = if q1.x > q2.x {
        q2
    } else {
        q1
    };
    let b = if q1.x > q2.x {
        q1
    } else {
        q2
    };
    let dy = crate::buffer::ndc_to_px_s(size.height, b.y) - crate::buffer::ndc_to_px_s(
        size.height,
        a.y,
    );
    let dx = crate::buffer::ndc_to_px_s(size.width, b.x) - crate::buffer::ndc_to_px_s(
        size.width,
        a.x,
    );
    if dy >= 0 && dx >= dy {
        line_cols_s(size, cells, a, b)
    } else if dy < 0 && dx >= -dy {
        line_cols_s(size, cells, a, b)
    } else if dy >= 0 && dx < dy {
        line_rows_up_s(size, cells, a, b)
    } else {
        line_rows_down_s(size, cells, a, b)
    }
}

/// One column of a vertex splat: guarded writes from the bottom clamp to
/// the top clamp.
pub open spec fn splat_col_s(
    size: ScreenSize,
    cells: Seq<DeepPixel>,
    sx: int,
    sy: int,
    top: int,
    p: DeepPixel,
) -> Seq<DeepPixel>
    decreases top - sy + 1,
{
    if sy > top {
        cells
    } else {
        splat_col_s(size, set_pixel_s(size, cells, sx, sy, p), sx, sy + 1, top, p)
    }
}

/// The columns of a vertex splat.
pub open spec fn splat_cols_s(
    size: ScreenSize,
    cells: Seq<DeepPixel>,
    sx: int,
    right: int,
    bot: int,
    top: int,
    p: DeepPixel,
) -> Seq<DeepPixel>
    decreases right - sx + 1,
{
    if sx > right {
        cells
    } else {
        splat_cols_s(size, splat_col_s(size, cells, sx, bot, top, p), sx + 1, right, bot, top, p)
    }
}

/// A whole vertex splat: a block of wireframe writes three pixels to
/// each side of the vertex's pixel, clamped to the buffer, at the
/// vertex's own depth.
pub open spec fn splat_point_s(size: ScreenSize, cells: Seq<DeepPixel>, v: Vec4) -> Seq<
    DeepPixel,
> {
    let cx = crate::buffer::ndc_to_px_s(size.width, v.x) as int;
    let cy = crate::buffer::ndc_to_px_s(size.height, v.y) as int;
    let left = if cx - 3 > 0 {
        cx - 3
    } else {
        0
    };
    let right = if cx + 3 < size.width {
        cx + 3
    } else {
        size.width as int
    };
    let bot = if cy - 3 > 0 {
        cy - 3
    } else {
        0
    };
    let top = if cy + 3 < size.height {
        cy + 3
    } else {
        size.height as int
    };
    splat_cols_s(size, cells, left, right, bot, top, wire_pixel_s(v.z))
}

/// The three edges and the three vertex splats of one projected
/// triangle, in drawing order.
pub open spec fn draw_wireframe_s(size: ScreenSize, cells: Seq<DeepPixel>, tr: Triangle) -> Seq<
    DeepPixel,
> {
    let a = draw_line_s(size, cells, tr.p1, tr.p2);
    let b = draw_line_s(size, a, tr.p2, tr.p3);
    let c = draw_line_s(size, b, tr.p3, tr.p1);
    let d = splat_point_s(size, c, tr.p1);
    let e = splat_point_s(size, d, tr.p2);
    splat_point_s(size, e, tr.p3)
}

/// A guarded NDC write that carries the evolution relation along.
fn draw_put(
    buffer: &mut DepthBuffer,
    x: i64,
    y: i64,
    pixel: DeepPixel,
    Ghost(orig): Ghost<Seq<DeepPixel>>,
)
    requires
        old(buffer).wf(),
        evolves_with_color_s(orig, old(buffer).buffer@, pixel.color),
    ensures
        final(buffer).wf(),
        final(buffer).screen_size == old(buffer).screen_size,
        final(buffer).buffer@ == set_ndc_pixel_s(
            old(buffer).screen_size,
            old(buffer).buffer@,
            x,
            y,
            pixel,
        ),
        evolves_with_color_s(orig, final(buffer).buffer@, pixel.color),
{
    let ghost pre = buffer.buffer@;
    let ghost size = buffer.screen_size;
    buffer.set_screen_space_pixel(x, y, pixel);
    proof {
        let px = crate::buffer::ndc_to_px_s(size.width, x) as int;
        let py = crate::buffer::ndc_to_px_s(size.height, y) as int;
        if crate::buffer::set_pixel_writes_s(size, pre, px, py, pixel) {
            lemma_pixel_index_in_range(size, px, py);
            lemma_evolves_with_color_step(
                orig,
                pre,
                crate::buffer::pixel_index_s(size, px, py),
                pixel,
                pixel.color,
            );
        }
    }
}

/// A guarded pixel-coordinate write that carries the evolution relation
/// along.
fn draw_put_at(
    buffer: &mut DepthBuffer,
    x: i32,
    y: i32,
    pixel: DeepPixel,
    Ghost(orig): Ghost<Seq<DeepPixel>>,
)
    requires
        old(buffer).wf(),
        evolves_with_color_s(orig, old(buffer).buffer@, pixel.color),
    ensures
        final(buffer).wf(),
        final(buffer).screen_size == old(buffer).screen_size,
        final(buffer).buffer@ == set_pixel_s(
            old(buffer).screen_size,
            old(buffer).buffer@,
            x as int,
            y as int,
            pixel,
        ),
        evolves_with_color_s(orig, final(buffer).buffer@, pixel.color),
{
    let ghost pre = buffer.buffer@;
    let ghost size = buffer.screen_size;
    buffer.set_pixel(x, y, pixel);
    proof {
        if crate::buffer::set_pixel_writes_s(size, pre, x as int, y as int, pixel) {
            lemma_pixel_index_in_range(size, x as int, y as int);
            lemma_evolves_with_color_step(
                orig,
                pre,
                crate::buffer::pixel_index_s(size, x as int, y as int),
                pixel,
                pixel.color,
            );
        }
    }
}

/// Fill a triangle given in normalized device coordinates: scan its
/// bounding box, cover the pixels whose barycentric weights are all
/// nonnegative, and write the interpolated depth pushed slightly toward
/// the far plane (so that the wireframe overlay drawn afterward at the
/// true depth wins ties).  A triangle of zero signed area is skipped
/// whole: degenerate geometry paints no pixels.
pub fn draw_triangle(buffer: &mut DepthBuffer, tr: &Triangle, color: Color)
    requires
        old(buffer).wf(),
    ensures
        final(buffer).wf(),
        final(buffer).screen_size == old(buffer).screen_size,
        final(buffer).buffer@ == draw_triangle_s(
            old(buffer).screen_size,
            old(buffer).buffer@,
            *tr,
            color,
        ),
        evolves_with_color_s(old(buffer).buffer@, final(buffer).buffer@, color),
{
    let ghost orig = buffer.buffer@;
    let ghost size = buffer.screen_size;
    let ghost goal = draw_triangle_s(size, orig, *tr, color);
    let tr = tr.clockwise();
    let p1 = tr.p1;
    let p2 = tr.p2;
    let p3 = tr.p3;

    let x_min = fx_min(fx_min(p1.x, p2.x), p3.x);
    let x_max = fx_max(fx_max(p1.x, p2.x), p3.x);
    let y_min = fx_min(fx_min(p1.y, p2.y), p3.y);
    let y_max = fx_max(fx_max(p1.y, p2.y), p3.y);

    let pixel_bot_left = buffer.screen_space_to_pixel_pos(x_min, y_min);
    let pixel_top_right = buffer.screen_space_to_pixel_pos(x_max, y_max);

    let tr_area = p2.sub(&p1).cross_len_2d(&p3.sub(&p2));
    if tr_area == 0 {
        // A degenerate triangle covers nothing; skip it whole, as the
        // failure rules for zero-area geometry ask.
        return ;
    }

    let x_delta = fx_div(
        fx_sub(x_max, x_min),
        fx_from_int((pixel_top_right.x as i64) - (pixel_bot_left.x as i64)),
    );
    let y_delta = fx_div(
        fx_sub(y_max, y_min),
        fx_from_int((pixel_top_right.y as i64) - (pixel_bot_left.y as i64)),
    );
    let mut x = x_min;
    let mut y = y_min;
    let px_start: i64 = pixel_bot_left.x as i64;
    let px_end: i64 = pixel_top_right.x as i64;
    let py_end: i64 = pixel_top_right.y as i64;
    let mut py: i64 = pixel_bot_left.y as i64;
    proof {
        assert(goal == fill_rows_s(
            size,
            orig,
            py as int,
            py_end as int,
            px_start as int,
            px_end as int,
            x_min,
            y_min,
            x_delta,
            y_delta,
            p1,
            p2,
            p3,
            tr_area,
            color,
        ));
    }
    while py <= py_end
        invariant
            py_end <= 0x7fff_ffff,
            px_end <= 0x7fff_ffff,
            px_start >= -0x8000_0000,
            buffer.wf(),
            buffer.screen_size == old(buffer).screen_size,
            size == old(buffer).screen_size,
            orig == old(buffer).buffer@,
            evolves_with_color_s(orig, buffer.buffer@, color),
            x == x_min,
            goal == fill_rows_s(
                size,
                buffer.buffer@,
                py as int,
                py_end as int,
                px_start as int,
                px_end as int,
                x_min,
                y,
                x_delta,
                y_delta,
                p1,
                p2,
                p3,
                tr_area,
                color,
            ),
        decreases py_end - py + 1,
    {
        let mut px: i64 = px_start;
        while px <= px_end
            invariant
                px_end <= 0x7fff_ffff,
                buffer.wf(),
                buffer.screen_size == old(buffer).screen_size,
                size == old(buffer).screen_size,
                orig == old(buffer).buffer@,
                evolves_with_color_s(orig, buffer.buffer@, color),
                goal == fill_rows_s(
                    size,
                    fill_row_s(
                        size,
                        buffer.buffer@,
                        px as int,
                        px_end as int,
                        x,
                        y,
                        x_delta,
                        p1,
                        p2,
                        p3,
                        tr_area,
                        color,
                    ),
                    py + 1,
                    py_end as int,
                    px_start as int,
                    px_end as int,
                    x_min,
                    add64(y, y_delta),
                    x_delta,
                    y_delta,
                    p1,
                    p2,
                    p3,
                    tr_area,
                    color,
                ),
            decreases px_end - px + 1,
        {
            let ghost pre = buffer.buffer@;
            let point = Vec4::new3d(x, y, 0);

            let t3 = fx_div(p2.sub(&p1).cross_len_2d(&point.sub(&p1)), tr_area);
            let t1 = fx_div(p3.sub(&p2).cross_len_2d(&point.sub(&p2)), tr_area);
            let t2 = fx_div(p1.sub(&p3).cross_len_2d(&point.sub(&p3)), tr_area);

            if t1 >= 0 && t2 >= 0 && t3 >= 0 {
                let z0 = fx_add(fx_add(fx_mul(t1, p1.z), fx_mul(t2, p2.z)), fx_mul(t3, p3.z));
                let z = fx_add(z0, fx_add(fx_mul(655, fx_sub(FX_ONE, z0)), 1));
                draw_put(buffer, x, y, DeepPixel { color, depth: z }, Ghost(orig));
            }
            proof {
                assert(buffer.buffer@ == fill_pixel_s(size, pre, x, y, p1, p2, p3, tr_area, color));
            }
            x = fx_add(x, x_delta);
            px = px + 1;
        }
        y = fx_add(y, y_delta);
        x = x_min;
        py = py + 1;
    }
}

/// Draw the three edges and the three vertices of a triangle in the
/// wireframe color.
pub fn draw_wireframe_triangle(buffer: &mut DepthBuffer, tr: &Triangle)
    requires
        old(buffer).wf(),
    ensures
        final(buffer).wf(),
        final(buffer).screen_size == old(buffer).screen_size,
        final(buffer).buffer@ == draw_wireframe_s(
            old(buffer).screen_size,
            old(buffer).buffer@,
            *tr,
        ),
        evolves_with_color_s(old(buffer).buffer@, final(buffer).buffer@, wireframe_color_s()),
{
    let ghost orig = buffer.buffer@;
    draw_wireframe_line(buffer, &tr.p1, &tr.p2);
    let ghost s2 = buffer.buffer@;
    draw_wireframe_line(buffer, &tr.p2, &tr.p3);
    proof {
        lemma_evolves_with_color_trans(orig, s2, buffer.buffer@, wireframe_color_s());
    }
    let ghost s3 = buffer.buffer@;
    draw_wireframe_line(buffer, &tr.p3, &tr.p1);
    proof {
        lemma_evolves_with_color_trans(orig, s3, buffer.buffer@, wireframe_color_s());
    }
    let ghost s4 = buffer.buffer@;
    draw_wireframe_point(buffer, &tr.p1);
    proof {
        lemma_evolves_with_color_trans(orig, s4, buffer.buffer@, wireframe_color_s());
    }
    let ghost s5 = buffer.buffer@;
    draw_wireframe_point(buffer, &tr.p2);
    proof {
        lemma_evolves_with_color_trans(orig, s5, buffer.buffer@, wireframe_color_s());
    }
    let ghost s6 = buffer.buffer@;
    draw_wireframe_point(buffer, &tr.p3);
    proof {
        lemma_evolves_with_color_trans(orig, s6, buffer.buffer@, wireframe_color_s());
    }
}

/// Draw a line between two NDC endpoints, dispatching on the octant of
/// its pixel-space direction; the depth along the line is the
/// interpolated z, with no bias.
pub fn draw_wireframe_line(buffer: &mut DepthBuffer, p1: &Vec4, p2: &Vec4)
    requires
        old(buffer).wf(),
    ensures
        final(buffer).wf(),
        final(buffer).screen_size == old(buffer).screen_size,
        final(buffer).buffer@ == draw_line_s(
            old(buffer).screen_size,
            old(buffer).buffer@,
            *p1,
            *p2,
        ),
        evolves_with_color_s(old(buffer).buffer@, final(buffer).buffer@, wireframe_color_s()),
{
    let (a, b) = if p1.x > p2.x {
        (*p2, *p1)
    } else {
        (*p1, *p2)
    };
    let a_pos = buffer.screen_space_to_pixel_pos(a.x, a.y);
    let b_pos = buffer.screen_space_to_pixel_pos(b.x, b.y);
    let dy: i64 = (b_pos.y as i64) - (a_pos.y as i64);
    let dx: i64 = (b_pos.x as i64) - (a_pos.x as i64);
    if dy >= 0 && dx >= dy {
        draw_wireframe_line_q1(buffer, &a, &b);
    } else if dy < 0 && dx >= -dy {
        draw_wireframe_line_q4(buffer, &a, &b);
    } else if dy >= 0 && dx < dy {
        draw_wireframe_line_q2(buffer, &a, &b);
    } else {
        draw_wireframe_line_q3(buffer, &a, &b);
    }
}

/// The rising shallow octant: one pixel per column.
fn draw_wireframe_line_q1(buffer: &mut DepthBuffer, p1: &Vec4, p2: &Vec4)
    requires
        old(buffer).wf(),
    ensures
        final(buffer).wf(),
        final(buffer).screen_size == old(buffer).screen_size,
        final(buffer).buffer@ == line_cols_s(
            old(buffer).screen_size,
            old(buffer).buffer@,
            *p1,
            *p2,
        ),
        evolves_with_color_s(old(buffer).buffer@, final(buffer).buffer@, wireframe_color_s()),
{
    let dy = fx_sub(p2.y, p1.y);
    let dx = fx_sub(p2.x, p1.x);
    let dz = fx_sub(p2.z, p1.z);
    let p1_pos = buffer.screen_space_to_pixel_pos(p1.x, p1.y);
    let p2_pos = buffer.screen_space_to_pixel_pos(p2.x, p2.y);
    let pixel_dx = fx_from_int((p2_pos.x as i64) - (p1_pos.x as i64));
    let step_x = fx_div(dx, pixel_dx);
    let step_y = fx_div(dy, pixel_dx);
    let step_z = fx_div(dz, pixel_dx);
    let end: i64 = p2_pos.x as i64;
    let start: i64 = p1_pos.x as i64;
    line_octant_walk(buffer, start, end, p1.x, p1.y, p1.z, step_x, step_y, step_z);
}

/// The steep rising octant: one pixel per row upward.
fn draw_wireframe_line_q2(buffer: &mut DepthBuffer, p1: &Vec4, p2: &Vec4)
    requires
        old(buffer).wf(),
    ensures
        final(buffer).wf(),
        final(buffer).screen_size == old(buffer).screen_size,
        final(buffer).buffer@ == line_rows_up_s(
            old(buffer).screen_size,
            old(buffer).buffer@,
            *p1,
            *p2,
        ),
        evolves_with_color_s(old(buffer).buffer@, final(buffer).buffer@, wireframe_color_s()),
{
    let dy = fx_sub(p2.y, p1.y);
    let dx = fx_sub(p2.x, p1.x);
    let dz = fx_sub(p2.z, p1.z);
    let p1_pos = buffer.screen_space_to_pixel_pos(p1.x, p1.y);
    let p2_pos = buffer.screen_space_to_pixel_pos(p2.x, p2.y);
    let pixel_dy = fx_from_int((p2_pos.y as i64) - (p1_pos.y as i64));
    let step_x = fx_div(dx, pixel_dy);
    let step_y = fx_div(dy, pixel_dy);
    let step_z = fx_div(dz, pixel_dy);
    let end: i64 = p2_pos.y as i64;
    let start: i64 = p1_pos.y as i64;
    line_octant_walk(buffer, start, end, p1.x, p1.y, p1.z, step_x, step_y, step_z);
}

/// The steep falling octant: one pixel per row downward.
fn draw_wireframe_line_q3(buffer: &mut DepthBuffer, p1: &Vec4, p2: &Vec4)
    requires
        old(buffer).wf(),
    ensures
        final(buffer).wf(),
        final(buffer).screen_size == old(buffer).screen_size,
        final(buffer).buffer@ == line_rows_down_s(
            old(buffer).screen_size,
            old(buffer).buffer@,
            *p1,
            *p2,
        ),
        evolves_with_color_s(old(buffer).buffer@, final(buffer).buffer@, wireframe_color_s()),
{
    let dy = fx_sub(p2.y, p1.y);
    let dx = fx_sub(p2.x, p1.x);
    let dz = fx_sub(p2.z, p1.z);
    let p1_pos = buffer.screen_space_to_pixel_pos(p1.x, p1.y);
    let p2_pos = buffer.screen_space_to_pixel_pos(p2.x, p2.y);
    let pixel_dy = fx_from_int((p1_pos.y as i64) - (p2_pos.y as i64));
    let step_x = fx_div(dx, pixel_dy);
    let step_y = fx_div(dy, pixel_dy);
    let step_z = fx_div(dz, pixel_dy);
    let end: i64 = p1_pos.y as i64;
    let start: i64 = p2_pos.y as i64;
    line_octant_walk(buffer, start, end, p1.x, p1.y, p1.z, step_x, step_y, step_z);
}

/// The falling shallow octant: one pixel per column, with a negative
/// per-column y advance.
fn draw_wireframe_line_q4(buffer: &mut DepthBuffer, p1: &Vec4, p2: &Vec4)
    requires
        old(buffer).wf(),
    ensures
        final(buffer).wf(),
        final(buffer).screen_size == old(buffer).screen_size,
        final(buffer).buffer@ == line_cols_s(
            old(buffer).screen_size,
            old(buffer).buffer@,
            *p1,
            *p2,
        ),
        evolves_with_color_s(old(buffer).buffer@, final(buffer).buffer@, wireframe_color_s()),
{
    let dy = fx_sub(p2.y, p1.y);
    let dx = fx_sub(p2.x, p1.x);
    let dz = fx_sub(p2.z, p1.z);
    let p1_pos = buffer.screen_space_to_pixel_pos(p1.x, p1.y);
    let p2_pos = buffer.screen_space_to_pixel_pos(p2.x, p2.y);
    let pixel_dx = fx_from_int((p2_pos.x as i64) - (p1_pos.x as i64));
    let step_x = fx_div(dx, pixel_dx);
    let step_y = fx_div(dy, pixel_dx);
    let step_z = fx_div(dz, pixel_dx);
    let end: i64 = p2_pos.x as i64;
    let start: i64 = p1_pos.x as i64;
    line_octant_walk(buffer, start, end, p1.x, p1.y, p1.z, step_x, step_y, step_z);
}

/// The shared walk of all four octants: one guarded wireframe write per
/// pixel step between the two counters.
fn line_octant_walk(
    buffer: &mut DepthBuffer,
    start: i64,
    end: i64,
    x0: i64,
    y0: i64,
    z0: i64,
    step_x: i64,
    step_y: i64,
    step_z: i64,
)
    requires
        old(buffer).wf(),
        -0x8000_0000 <= start,
        end <= 0x7fff_ffff,
    ensures
        final(buffer).wf(),
        final(buffer).screen_size == old(buffer).screen_size,
        final(buffer).buffer@ == line_walk_s(
            old(buffer).screen_size,
            old(buffer).buffer@,
            start as int,
            end as int,
            x0,
            y0,
            z0,
            step_x,
            step_y,
            step_z,
        ),
        evolves_with_color_s(old(buffer).buffer@, final(buffer).buffer@, wireframe_color_s()),
{
    let ghost orig = buffer.buffer@;
    let ghost size = buffer.screen_size;
    let ghost goal = line_walk_s(
        size,
        orig,
        start as int,
        end as int,
        x0,
        y0,
        z0,
        step_x,
        step_y,
        step_z,
    );
    let mut screen_x = x0;
    let mut screen_y = y0;
    let mut screen_z = z0;
    let mut i: i64 = start;
    while i <= end
        invariant
            end <= 0x7fff_ffff,
            buffer.wf(),
            buffer.screen_size == old(buffer).screen_size,
            size == old(buffer).screen_size,
            orig == old(buffer).buffer@,
            evolves_with_color_s(orig, buffer.buffer@, wireframe_color_s()),
            goal == line_walk_s(
                size,
                buffer.buffer@,
                i as int,
                end as int,
                screen_x,
                screen_y,
                screen_z,
                step_x,
                step_y,
                step_z,
            ),
        decreases end - i + 1,
    {
        let pixel = DeepPixel { color: wireframe_color(), depth: screen_z };
        draw_put(buffer, screen_x, screen_y, pixel, Ghost(orig));
        screen_x = fx_add(screen_x, step_x);
        screen_y = fx_add(screen_y, step_y);
        screen_z = fx_add(screen_z, step_z);
        i = i + 1;
    }
}

/// Splat a small square block around a vertex, clamped to the buffer, at
/// the vertex's own depth.
pub fn draw_wireframe_point(buffer: &mut DepthBuffer, p: &Vec4)
    requires
        old(buffer).wf(),
    ensures
        final(buffer).wf(),
        final(buffer).screen_size == old(buffer).screen_size,
        final(buffer).buffer@ == splat_point_s(old(buffer).screen_size, old(buffer).buffer@, *p),
        evolves_with_color_s(old(buffer).buffer@, final(buffer).buffer@, wireframe_color_s()),
{
    let ghost orig = buffer.buffer@;
    let ghost size = buffer.screen_size;
    let ghost goal = splat_point_s(size, orig, *p);
    let pixel_pos = buffer.screen_space_to_pixel_pos(p.x, p.y);
    let point_radius: i64 = 3;
    let cx: i64 = pixel_pos.x as i64;
    let cy: i64 = pixel_pos.y as i64;
    let width: i64 = buffer.screen_size.width as i64;
    let height: i64 = buffer.screen_size.height as i64;
    let left: i64 = if cx - point_radius > 0 {
        cx - point_radius
    } else {
        0
    };
    let right: i64 = if cx + point_radius < width {
        cx + point_radius
    } else {
        width
    };
    let bot: i64 = if cy - point_radius > 0 {
        cy - point_radius
    } else {
        0
    };
    let top: i64 = if cy + point_radius < height {
        cy + point_radius
    } else {
        height
    };
    let pz = p.z;
    proof {
        assert(goal == splat_cols_s(
            size,
            orig,
            left as int,
            right as int,
            bot as int,
            top as int,
            wire_pixel_s(pz),
        ));
    }
    let mut sx: i64 = left;
    while sx <= right
        invariant
            buffer.wf(),
            buffer.screen_size == old(buffer).screen_size,
            size == old(buffer).screen_size,
            orig == old(buffer).buffer@,
            evolves_with_color_s(orig, buffer.buffer@, wireframe_color_s()),
            0 <= left <= sx,
            right <= old(buffer).screen_size.width as i64,
            0 <= bot,
            top <= old(buffer).screen_size.height as i64,
            goal == splat_cols_s(
                size,
                buffer.buffer@,
                sx as int,
                right as int,
                bot as int,
                top as int,
                wire_pixel_s(pz),
            ),
        decreases right - sx + 1,
    {
        let ghost col_start = buffer.buffer@;
        let mut sy: i64 = bot;
        while sy <= top
            invariant
                buffer.wf(),
                buffer.screen_size == old(buffer).screen_size,
                size == old(buffer).screen_size,
                orig == old(buffer).buffer@,
                evolves_with_color_s(orig, buffer.buffer@, wireframe_color_s()),
                0 <= left <= sx <= right,
                right <= old(buffer).screen_size.width as i64,
                0 <= bot <= sy,
                top <= old(buffer).screen_size.height as i64,
                splat_col_s(size, buffer.buffer@, sx as int, sy as int, top as int, wire_pixel_s(
                    pz,
                )) == splat_col_s(
                    size,
                    col_start,
                    sx as int,
                    bot as int,
                    top as int,
                    wire_pixel_s(pz),
                ),
            decreases top - sy + 1,
        {
            let pixel = DeepPixel { color: wireframe_color(), depth: pz };
            draw_put_at(buffer, sx as i32, sy as i32, pixel, Ghost(orig));
            sy = sy + 1;
        }
        proof {
            assert(buffer.buffer@ == splat_col_s(
                size,
                col_start,
                sx as int,
                bot as int,
                top as int,
                wire_pixel_s(pz),
            ));
        }
        sx = sx + 1;
    }
}

} // verus!
