//! Colors and the depth buffer.
//!
//! The buffer is a `width x height` grid of cells, each a color and a
//! fixed-point depth.  Depths start at one (the far value) and a write
//! succeeds only when the incoming depth is nonnegative and not greater
//! than the stored depth, so stored depths only ever decrease and stay in
//! `[0, 1]`.  Rows are stored flipped, so that row 0 of the emitted bitmap
//! is the top of the image.

use vstd::prelude::*;

use crate::fixed::{
    fx_add, fx_add_s, fx_div, fx_div_s, fx_from_int, fx_mul, fx_mul_s, fx_round, fx_round_s,
    fx_sub, fx_sub_s, sat, tdiv, FX_ONE,
};
use crate::math::Vec2;

verus! {

/// An RGBA color, one byte per channel.
#[derive(Clone, Copy, PartialEq, Eq, Structural, Debug)]
pub struct Color {
    pub red: u8,
    pub green: u8,
    pub blue: u8,
    pub alpha: u8,
}

/// One cell of the depth buffer: a color and a fixed-point depth.
#[derive(Clone, Copy, PartialEq, Eq, Structural, Debug)]
pub struct DeepPixel {
    pub color: Color,
    pub depth: i64,
}

/// A framebuffer size in pixels.
#[derive(Clone, Copy, PartialEq, Eq, Structural, Debug)]
pub struct ScreenSize {
    pub width: i32,
    pub height: i32,
}

/// The grid of cells, row-flipped, row-major.
pub struct DepthBuffer {
    pub buffer: Vec<DeepPixel>,
    pub screen_size: ScreenSize,
}

/// The background color of every frame.
pub open spec fn background_color_s() -> Color {
    Color { red: 200, green: 50, blue: 0, alpha: 0 }
}

/// Black, the zero-light shade.
pub open spec fn black_color_s() -> Color {
    Color { red: 0, green: 0, blue: 0, alpha: 0 }
}

/// The fully lit model color.
pub open spec fn model_color_s() -> Color {
    Color { red: 200, green: 200, blue: 0, alpha: 0 }
}

/// The wireframe overlay color, for lines and points alike.
pub open spec fn wireframe_color_s() -> Color {
    Color { red: 50, green: 50, blue: 50, alpha: 0 }
}

/// The background color of every frame.
pub fn background_color() -> (r: Color)
    ensures
        r == background_color_s(),
{
    Color { red: 200, green: 50, blue: 0, alpha: 0 }
}

/// Black, the zero-light shade.
pub fn black_color() -> (r: Color)
    ensures
        r == black_color_s(),
{
    Color { red: 0, green: 0, blue: 0, alpha: 0 }
}

/// The fully lit model color.
pub fn model_color() -> (r: Color)
    ensures
        r == model_color_s(),
{
    Color { red: 200, green: 200, blue: 0, alpha: 0 }
}

/// The wireframe overlay color, for lines and points alike.
pub fn wireframe_color() -> (r: Color)
    ensures
        r == wireframe_color_s(),
{
    Color { red: 50, green: 50, blue: 50, alpha: 0 }
}

/// One channel interpolated from `a` toward `b` by the fixed-point weight
/// `t`, then clamped to a byte.
pub open spec fn chan_lerp_s(a: u8, b: u8, t: i64) -> u8 {
    let av = (a as int) * 65536;
    let bv = (b as int) * 65536;
    let v = fx_add_s(av, fx_mul_s(fx_sub_s(bv, av), t as int));
    if v <= 0 {
        0u8
    } else {
        let q = tdiv(v, 65536);
        if q >= 255 {
            255u8
        } else {
            q as u8
        }
    }
}

/// All four channels interpolated.
pub open spec fn lerp_s(a: Color, b: Color, t: i64) -> Color {
    Color {
        red: chan_lerp_s(a.red, b.red, t),
        green: chan_lerp_s(a.green, b.green, t),
        blue: chan_lerp_s(a.blue, b.blue, t),
        alpha: chan_lerp_s(a.alpha, b.alpha, t),
    }
}

/// One channel interpolated from `a` toward `b` by the weight `t`.
fn chan_lerp(a: u8, b: u8, t: i64) -> (r: u8)
    ensures
        r == chan_lerp_s(a, b, t),
{
    let av: i64 = (a as i64) * 65536;
    let bv: i64 = (b as i64) * 65536;
    let v = fx_add(av, fx_mul(fx_sub(bv, av), t));
    if v <= 0 {
        0
    } else {
        let q: u64 = (v as u64) / 65536;
        if q >= 255 {
            255
        } else {
            q as u8
        }
    }
}

impl Color {
    /// The color interpolated from `self` toward `rhs` by the fixed-point
    /// weight `t`, channel by channel, clamped to bytes.
    pub fn lerp(&self, rhs: &Color, t: i64) -> (r: Color)
        ensures
            r == lerp_s(*self, *rhs, t),
    {
        Color {
            red: chan_lerp(self.red, rhs.red, t),
            green: chan_lerp(self.green, rhs.green, t),
            blue: chan_lerp(self.blue, rhs.blue, t),
            alpha: chan_lerp(self.alpha, rhs.alpha, t),
        }
    }
}

/// A coordinate clamped into the `i32` range, as a float-to-integer cast
/// would clamp it.
pub open spec fn clamp_i32_s(v: int) -> i32 {
    if v > i32::MAX as int {
        i32::MAX
    } else if v < i32::MIN as int {
        i32::MIN
    } else {
        v as i32
    }
}

/// The pixel column of a normalized device x-coordinate: `(x + 1) / 2`
/// scaled by the width and rounded to the nearest pixel.
pub open spec fn ndc_to_px_s(extent: i32, v: i64) -> i32 {
    clamp_i32_s(
        fx_round_s(fx_mul_s(fx_div_s(fx_add_s(v as int, 65536), 131072), sat(extent * 65536))),
    )
}

/// The flipped-row cell index of pixel `(x, y)`.
pub open spec fn pixel_index_s(size: ScreenSize, x: int, y: int) -> int {
    (size.height - 1 - y) * size.width + x
}

/// Whether a write of `p` at pixel `(x, y)` lands: in bounds, depth
/// nonnegative, and depth not greater than the stored one.
pub open spec fn set_pixel_writes_s(
    size: ScreenSize,
    cells: Seq<DeepPixel>,
    x: int,
    y: int,
    p: DeepPixel,
) -> bool {
    &&& 0 <= x < size.width
    &&& 0 <= y < size.height
    &&& p.depth >= 0
    &&& p.depth <= cells[pixel_index_s(size, x, y)].depth
}

/// The cells after a guarded write at pixel `(x, y)`: the one cell
/// overwritten when the write lands, everything untouched when it does
/// not.
pub open spec fn set_pixel_s(
    size: ScreenSize,
    cells: Seq<DeepPixel>,
    x: int,
    y: int,
    p: DeepPixel,
) -> Seq<DeepPixel> {
    if set_pixel_writes_s(size, cells, x, y, p) {
        cells.update(pixel_index_s(size, x, y), p)
    } else {
        cells
    }
}

/// The cells after a guarded write at a point in normalized device
/// coordinates.
pub open spec fn set_ndc_pixel_s(
    size: ScreenSize,
    cells: Seq<DeepPixel>,
    x: i64,
    y: i64,
    p: DeepPixel,
) -> Seq<DeepPixel> {
    set_pixel_s(size, cells, ndc_to_px_s(size.width, x) as int, ndc_to_px_s(size.height, y) as int, p)
}

/// All cell depths lie in the unit interval.
pub open spec fn depths_in_unit_s(cells: Seq<DeepPixel>) -> bool {
    forall|i: int| 0 <= i < cells.len() ==> 0 <= (#[trigger] cells[i]).depth <= FX_ONE
}

/// How a buffer may change under rasterization: same size, no depth ever
/// increases, and every touched cell carries the drawing color and a
/// nonnegative depth.
pub open spec fn evolves_with_color_s(
    old_cells: Seq<DeepPixel>,
    new_cells: Seq<DeepPixel>,
    color: Color,
) -> bool {
    &&& new_cells.len() == old_cells.len()
    &&& forall|i: int|
        0 <= i < new_cells.len() ==> (#[trigger] new_cells[i]).depth <= old_cells[i].depth
    &&& forall|i: int|
        0 <= i < new_cells.len() ==> (#[trigger] new_cells[i] == old_cells[i] || (
        new_cells[i].color == color && new_cells[i].depth >= 0))
}

/// How a buffer may change under a whole frame: same size, no depth ever
/// increases, and every touched cell has a nonnegative depth.
pub open spec fn evolves_s(old_cells: Seq<DeepPixel>, new_cells: Seq<DeepPixel>) -> bool {
    &&& new_cells.len() == old_cells.len()
    &&& forall|i: int|
        0 <= i < new_cells.len() ==> (#[trigger] new_cells[i]).depth <= old_cells[i].depth
    &&& forall|i: int|
        0 <= i < new_cells.len() ==> (#[trigger] new_cells[i] == old_cells[i]
            || new_cells[i].depth >= 0)
}

/// One landed write extends an evolution with the same color.
pub proof fn lemma_evolves_with_color_step(
    old_cells: Seq<DeepPixel>,
    mid_cells: Seq<DeepPixel>,
    i: int,
    p: DeepPixel,
    color: Color,
)
    requires
        evolves_with_color_s(old_cells, mid_cells, color),
        0 <= i < mid_cells.len(),
        p.color == color,
        p.depth >= 0,
        p.depth <= mid_cells[i].depth,
    ensures
        evolves_with_color_s(old_cells, mid_cells.update(i, p), color),
{
    let new_cells = mid_cells.update(i, p);
    assert forall|j: int| 0 <= j < new_cells.len() implies (#[trigger] new_cells[j]).depth
        <= old_cells[j].depth by {
        if j != i {
            assert(new_cells[j] == mid_cells[j]);
        }
    }
}

/// Evolutions with one color compose.
pub proof fn lemma_evolves_with_color_trans(
    a: Seq<DeepPixel>,
    b: Seq<DeepPixel>,
    c: Seq<DeepPixel>,
    color: Color,
)
    requires
        evolves_with_color_s(a, b, color),
        evolves_with_color_s(b, c, color),
    ensures
        evolves_with_color_s(a, c, color),
{
    assert forall|j: int| 0 <= j < c.len() implies (#[trigger] c[j] == a[j] || (c[j].color == color
        && c[j].depth >= 0)) by {
        if c[j] == b[j] {
            assert(b[j] == a[j] || (b[j].color == color && b[j].depth >= 0));
        }
    }
}

/// Evolutions under possibly different colors compose into the plain
/// evolution relation.
pub proof fn lemma_evolves_trans(a: Seq<DeepPixel>, b: Seq<DeepPixel>, c: Seq<DeepPixel>)
    requires
        evolves_s(a, b),
        evolves_s(b, c),
    ensures
        evolves_s(a, c),
{
    assert forall|j: int| 0 <= j < c.len() implies (#[trigger] c[j] == a[j] || c[j].depth
        >= 0) by {
        if c[j] == b[j] {
            assert(b[j] == a[j] || b[j].depth >= 0);
        }
    }
}

/// A colored evolution is in particular an evolution.
pub proof fn lemma_evolves_with_color_weaken(a: Seq<DeepPixel>, b: Seq<DeepPixel>, color: Color)
    requires
        evolves_with_color_s(a, b, color),
    ensures
        evolves_s(a, b),
{
}

/// An in-bounds pixel's flipped cell index lies within the grid.
pub proof fn lemma_pixel_index_in_range(size: ScreenSize, x: int, y: int)
    requires
        0 <= x < size.width,
        0 <= y < size.height,
    ensures
        0 <= pixel_index_s(size, x, y) < size.width * size.height,
{
    assert(0 <= (size.height - 1 - y) * size.width + x < size.width * size.height)
        by (nonlinear_arith)
        requires
            0 <= x < size.width,
            0 <= y < size.height,
    ;
}

/// A whole frame keeps every depth in the unit interval: the buffer only
/// evolves by landed writes, which never raise a depth and never store a
/// negative one, so cells that start within `[0, 1]` stay there.
pub proof fn lemma_evolves_preserves_unit_depths(a: Seq<DeepPixel>, b: Seq<DeepPixel>)
    requires
        depths_in_unit_s(a),
        evolves_s(a, b),
    ensures
        depths_in_unit_s(b),
{
    assert forall|i: int| 0 <= i < b.len() implies 0 <= (#[trigger] b[i]).depth <= FX_ONE by {
        assert(b[i] == a[i] || b[i].depth >= 0);
        assert(b[i].depth <= a[i].depth);
    }
}

/// The depth test keeps every depth in the unit interval and never raises
/// one: after a landed write, the written cell's depth lies between zero
/// and its previous depth, and every other cell is untouched.
pub proof fn lemma_depth_test_monotone(
    size: ScreenSize,
    cells: Seq<DeepPixel>,
    x: int,
    y: int,
    p: DeepPixel,
)
    requires
        size.width >= 0,
        size.height >= 0,
        cells.len() == size.width * size.height,
        depths_in_unit_s(cells),
        set_pixel_writes_s(size, cells, x, y, p),
    ensures
        depths_in_unit_s(cells.update(pixel_index_s(size, x, y), p)),
        forall|i: int|
            0 <= i < cells.len() ==> (#[trigger] cells.update(pixel_index_s(size, x, y), p)[i]).depth
                <= cells[i].depth,
{
    let k = pixel_index_s(size, x, y);
    assert(0 <= k < cells.len()) by (nonlinear_arith)
        requires
            k == (size.height - 1 - y) * size.width + x,
            cells.len() == size.width * size.height,
            0 <= x < size.width,
            0 <= y < size.height,
    ;
    let nc = cells.update(k, p);
    assert forall|i: int| 0 <= i < cells.len() implies (#[trigger] nc[i]).depth
        <= cells[i].depth by {
        if i != k {
            assert(nc[i] == cells[i]);
        }
    }
}

/// Of two writes at the same pixel with the same depth, the later wins:
/// the depth test passes on equality, so the second color replaces the
/// first, whichever order the two come in.
pub proof fn lemma_later_equal_depth_write_wins(
    size: ScreenSize,
    cells: Seq<DeepPixel>,
    x: int,
    y: int,
    pa: DeepPixel,
    pb: DeepPixel,
)
    requires
        0 <= x < size.width,
        0 <= y < size.height,
        cells.len() == size.width * size.height,
        pa.depth >= 0,
        pb.depth == pa.depth,
        pa.depth <= cells[pixel_index_s(size, x, y)].depth,
    ensures
        set_pixel_s(size, set_pixel_s(size, cells, x, y, pa), x, y, pb)[pixel_index_s(
            size,
            x,
            y,
        )] == pb,
{
    lemma_pixel_index_in_range(size, x, y);
}

/// A write whose depth exactly equals the stored depth still lands: the
/// depth test is not-greater-than, so ties overwrite.
pub proof fn lemma_equal_depth_overwrites(
    size: ScreenSize,
    cells: Seq<DeepPixel>,
    x: int,
    y: int,
    p: DeepPixel,
)
    requires
        0 <= x < size.width,
        0 <= y < size.height,
        p.depth >= 0,
        p.depth == cells[pixel_index_s(size, x, y)].depth,
    ensures
        set_pixel_writes_s(size, cells, x, y, p),
{
}

/// A write at depth one lands on an untouched background cell: the
/// initial depth is exactly one, so the tie rule overwrites it.
pub proof fn lemma_background_depth_overwrites(
    size: ScreenSize,
    cells: Seq<DeepPixel>,
    x: int,
    y: int,
    p: DeepPixel,
)
    requires
        0 <= x < size.width,
        0 <= y < size.height,
        p.depth == FX_ONE,
        cells[pixel_index_s(size, x, y)].depth == FX_ONE,
    ensures
        set_pixel_writes_s(size, cells, x, y, p),
{
}

/// A write at `x == width` or `y == height` is out of bounds and lands
/// nowhere.
pub proof fn lemma_edge_write_is_no_op(
    size: ScreenSize,
    cells: Seq<DeepPixel>,
    x: int,
    y: int,
    p: DeepPixel,
)
    requires
        x == size.width || y == size.height,
    ensures
        !set_pixel_writes_s(size, cells, x, y, p),
{
}

impl DepthBuffer {
    /// Well-formedness: nonnegative extents whose product fits an `i32`
    /// and matches the cell count.
    pub open spec fn wf(self) -> bool {
        &&& self.screen_size.width >= 0
        &&& self.screen_size.height >= 0
        &&& self.screen_size.width * self.screen_size.height <= i32::MAX as int
        &&& self.buffer@.len() == self.screen_size.width * self.screen_size.height
    }

    /// A fresh buffer: every cell holds the given color at depth one.
    pub fn new(screen_size: ScreenSize, color: Color) -> (r: DepthBuffer)
        requires
            screen_size.width >= 0,
            screen_size.height >= 0,
            screen_size.width * screen_size.height <= i32::MAX as int,
        ensures
            r.wf(),
            r.screen_size == screen_size,
            forall|i: int|
                0 <= i < r.buffer@.len() ==> (#[trigger] r.buffer@[i]).color == color
                    && r.buffer@[i].depth == FX_ONE,
    {
        let n: usize = (screen_size.width as usize) * (screen_size.height as usize);
        let mut buffer: Vec<DeepPixel> = Vec::new();
        let mut i: usize = 0;
        while i < n
            invariant
                i <= n,
                buffer@.len() == i,
                forall|j: int|
                    0 <= j < i ==> (#[trigger] buffer@[j]).color == color && buffer@[j].depth
                        == FX_ONE,
            decreases n - i,
        {
            buffer.push(DeepPixel { color, depth: FX_ONE });
            i += 1;
        }
        DepthBuffer { buffer, screen_size }
    }

    /// The pixel coordinates of a point in normalized device coordinates.
    pub fn screen_space_to_pixel_pos(&self, screen_space_x: i64, screen_space_y: i64) -> (r: Vec2<
        i32,
    >)
        ensures
            r.x == ndc_to_px_s(self.screen_size.width, screen_space_x),
            r.y == ndc_to_px_s(self.screen_size.height, screen_space_y),
    {
        let px = ndc_to_px(self.screen_size.width, screen_space_x);
        let py = ndc_to_px(self.screen_size.height, screen_space_y);
        Vec2 { x: px, y: py }
    }

    /// A write through the normalized-device-coordinate mapping: the point
    /// is converted to pixel coordinates and written with the bounds and
    /// depth tests of [`DepthBuffer::set_pixel`].
    pub fn set_screen_space_pixel(&mut self, screen_space_x: i64, screen_space_y: i64, pixel:
        DeepPixel)
        requires
            old(self).wf(),
        ensures
            final(self).wf(),
            final(self).screen_size == old(self).screen_size,
            final(self).buffer@ == set_ndc_pixel_s(
                old(self).screen_size,
                old(self).buffer@,
                screen_space_x,
                screen_space_y,
                pixel,
            ),
    {
        let pixel_pos = self.screen_space_to_pixel_pos(screen_space_x, screen_space_y);
        self.set_pixel(pixel_pos.x, pixel_pos.y, pixel);
    }

    /// A guarded write: out-of-bounds coordinates and negative depths are
    /// ignored; otherwise the row is flipped and the cell is overwritten
    /// exactly when the incoming depth is not greater than the stored one.
    pub fn set_pixel(&mut self, x: i32, y: i32, pixel: DeepPixel)
        requires
            old(self).wf(),
        ensures
            final(self).wf(),
            final(self).screen_size == old(self).screen_size,
            final(self).buffer@ == set_pixel_s(
                old(self).screen_size,
                old(self).buffer@,
                x as int,
                y as int,
                pixel,
            ),
    {
        if x < 0 || x >= self.screen_size.width || y < 0 || y >= self.screen_size.height
            || pixel.depth < 0 {
            return ;
        }
        let yy = self.screen_size.height - 1 - y;
        proof {
            let w = self.screen_size.width as int;
            let h = self.screen_size.height as int;
            assert(0 <= (yy as int) * w + (x as int) && (yy as int) * w + (x as int) < w * h)
                by (nonlinear_arith)
                requires
                    0 <= (yy as int) < h,
                    0 <= (x as int) < w,
            ;
        }
        let ind: usize = (yy as usize) * (self.screen_size.width as usize) + (x as usize);
        let old_pixel = self.buffer[ind];
        if pixel.depth <= old_pixel.depth {
            self.buffer[ind] = pixel;
        }
    }

    /// The colors of all cells, in storage order: a row-major bitmap with
    /// row 0 at the top of the image.
    pub fn to_bitmap(&self) -> (r: Vec<Color>)
        ensures
            r@.len() == self.buffer@.len(),
            forall|i: int| 0 <= i < r@.len() ==> r@[i] == self.buffer@[i].color,
    {
        let mut res: Vec<Color> = Vec::new();
        let mut i: usize = 0;
        let n = self.buffer.len();
        while i < n
            invariant
                i <= n,
                n == self.buffer@.len(),
                res@.len() == i,
                forall|j: int| 0 <= j < i ==> res@[j] == self.buffer@[j].color,
            decreases n - i,
        {
            res.push(self.buffer[i].color);
            i += 1;
        }
        res
    }
}

/// The pixel coordinate of one normalized device coordinate along an
/// extent.
fn ndc_to_px(extent: i32, v: i64) -> (r: i32)
    ensures
        r == ndc_to_px_s(extent, v),
{
    let t = fx_add(v, FX_ONE);
    let h = fx_div(t, 131072);
    let e = fx_from_int(extent as i64);
    proof {
        assert(sat((extent as int) * 65536) == (extent as int) * 65536);
    }
    let p = fx_round(fx_mul(h, e));
    if p > i32::MAX as i64 {
        i32::MAX
    } else if p < i32::MIN as i64 {
        i32::MIN
    } else {
        p as i32
    }
}

} // verus!
