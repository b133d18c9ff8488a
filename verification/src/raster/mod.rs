//! The integer core of the software rasterizer: texel addressing, the
//! per-fragment stencil test and update, and triangle and line setup in
//! 28.4 fixed point.
pub mod gl;

use vstd::prelude::*;

verus! {

/// One sampled texture as fragment code sees it: its geometry, format and
/// sampling modes. The texel memory stays with the owner of the texture.
#[derive(Debug, Clone, Copy)]
pub struct SampledTexture {
    /// Length in bytes of the RGBA8 texel data (level 0).
    pub data_len: usize,
    pub width: u32,
    pub height: u32,
    /// GL_LUMINANCE / GL_LUMINANCE_ALPHA / GL_RGBA expansion applied at
    /// sample time.
    pub format: u32,
    pub min_filter: u32,
    pub mag_filter: u32,
    pub wrap_s: u32,
    pub wrap_t: u32,
    pub enabled: bool,
}

impl SampledTexture {
    /// An unbound texture unit: empty, nearest filtering, repeating.
    pub fn disabled() -> (r: Self)
        ensures
            r.data_len == 0 && r.width == 0 && r.height == 0 && r.format == 0,
            r.min_filter == gl::NEAREST && r.mag_filter == gl::NEAREST,
            r.wrap_s == gl::REPEAT && r.wrap_t == gl::REPEAT,
            !r.enabled,
    {
        SampledTexture {
            data_len: 0,
            width: 0,
            height: 0,
            format: 0,
            min_filter: gl::NEAREST,
            mag_filter: gl::NEAREST,
            wrap_s: gl::REPEAT,
            wrap_t: gl::REPEAT,
            enabled: false,
        }
    }
}

/// `value` clamped to `low..=high`.
pub open spec fn clamped(value: int, low: int, high: int) -> int {
    if value < low {
        low
    } else if value > high {
        high
    } else {
        value
    }
}

/// The texel addressed by integer coordinates: clamped to the edge when
/// either axis clamps to the edge, else wrapped into the texture.
pub open spec fn texel_address(wrap_s: u32, wrap_t: u32, width: u32, height: u32, x: i64, y: i64) -> (
    int,
    int,
) {
    if wrap_s == gl::CLAMP_TO_EDGE || wrap_t == gl::CLAMP_TO_EDGE {
        (clamped(x as int, 0, width - 1), clamped(y as int, 0, height - 1))
    } else {
        ((x as int) % (width as int), (y as int) % (height as int))
    }
}

fn clamp_coordinate(value: i64, high: i64) -> (r: i64)
    requires
        high >= 0,
    ensures
        r == clamped(value as int, 0, high as int),
{
    if value < 0 {
        0
    } else if value > high {
        high
    } else {
        value
    }
}

fn wrap_coordinate(value: i64, size: i64) -> (r: i64)
    requires
        size > 0,
    ensures
        r == (value as int) % (size as int),
{
    match value.checked_rem_euclid(size) {
        Some(r) => r,
        None => 0,
    }
}

/// The texel at integer coordinates `(x, y)` of a `width` by `height`
/// texture with the given wrap modes.
pub fn texel_or_edge(tex: &SampledTexture, x: i64, y: i64) -> (r: (i64, i64))
    requires
        tex.width > 0,
        tex.height > 0,
    ensures
        (r.0 as int, r.1 as int) == texel_address(
            tex.wrap_s,
            tex.wrap_t,
            tex.width,
            tex.height,
            x,
            y,
        ),
        0 <= r.0 < tex.width,
        0 <= r.1 < tex.height,
{
    if tex.wrap_s == gl::CLAMP_TO_EDGE || tex.wrap_t == gl::CLAMP_TO_EDGE {
        (clamp_coordinate(x, tex.width as i64 - 1), clamp_coordinate(y, tex.height as i64 - 1))
    } else {
        // REPEAT / MIRRORED_REPEAT already folded the integer part away.
        (wrap_coordinate(x, tex.width as i64), wrap_coordinate(y, tex.height as i64))
    }
}

/// The single-sided stencil state of a draw.
#[derive(Debug, Clone, Copy)]
pub struct StencilState {
    pub stencil_test: bool,
    pub stencil_func: u32,
    pub stencil_ref: i32,
    pub stencil_func_mask: u32,
    pub stencil_write_mask: u32,
}

impl StencilState {
    /// Stencil testing off: always passes, never writes a different value.
    pub fn disabled() -> (r: Self)
        ensures
            !r.stencil_test,
            r.stencil_func == gl::ALWAYS,
            r.stencil_ref == 0,
            r.stencil_func_mask == 0xffff_ffff,
            r.stencil_write_mask == 0xffff_ffff,
    {
        StencilState {
            stencil_test: false,
            stencil_func: gl::ALWAYS,
            stencil_ref: 0,
            stencil_func_mask: 0xffff_ffff,
            stencil_write_mask: 0xffff_ffff,
        }
    }
}

/// Whether the stencil comparison `func` passes for the masked reference
/// against the masked stored value; an unknown function passes.
pub open spec fn stencil_compare(func: u32, reference: u32, stored: u32) -> bool {
    if func == gl::NEVER {
        false
    } else if func == gl::LESS {
        reference < stored
    } else if func == gl::LEQUAL {
        reference <= stored
    } else if func == gl::EQUAL {
        reference == stored
    } else if func == gl::GEQUAL {
        reference >= stored
    } else if func == gl::GREATER {
        reference > stored
    } else if func == gl::NOTEQUAL {
        reference != stored
    } else {
        true
    }
}

/// Whether a fragment over the stored stencil value `stored` passes the
/// stencil test of `state`.
pub open spec fn stencil_passes(state: StencilState, stored: u8) -> bool {
    stencil_compare(
        state.stencil_func,
        (state.stencil_ref as u32) & state.stencil_func_mask,
        (stored as u32) & state.stencil_func_mask,
    )
}

/// The stencil test follows GL: with the masked reference
/// `ref & func_mask` and the masked stored value `stored & func_mask`, a
/// fragment passes `NEVER` never, `LESS` when the reference is below the
/// stored value, `LEQUAL` when at or below, `EQUAL` when equal, `GEQUAL`
/// when at or above, `GREATER` when above, `NOTEQUAL` when different, and
/// `ALWAYS` always.
pub proof fn lemma_stencil_test_follows_gl(state: StencilState, stored: u8)
    ensures
        state.stencil_func == gl::NEVER ==> !stencil_passes(state, stored),
        state.stencil_func == gl::LESS ==> (stencil_passes(state, stored) <==> (
        state.stencil_ref as u32) & state.stencil_func_mask < (stored as u32)
            & state.stencil_func_mask),
        state.stencil_func == gl::LEQUAL ==> (stencil_passes(state, stored) <==> (
        state.stencil_ref as u32) & state.stencil_func_mask <= (stored as u32)
            & state.stencil_func_mask),
        state.stencil_func == gl::EQUAL ==> (stencil_passes(state, stored) <==> (
        state.stencil_ref as u32) & state.stencil_func_mask == (stored as u32)
            & state.stencil_func_mask),
        state.stencil_func == gl::GEQUAL ==> (stencil_passes(state, stored) <==> (
        state.stencil_ref as u32) & state.stencil_func_mask >= (stored as u32)
            & state.stencil_func_mask),
        state.stencil_func == gl::GREATER ==> (stencil_passes(state, stored) <==> (
        state.stencil_ref as u32) & state.stencil_func_mask > (stored as u32)
            & state.stencil_func_mask),
        state.stencil_func == gl::NOTEQUAL ==> (stencil_passes(state, stored) <==> (
        state.stencil_ref as u32) & state.stencil_func_mask != (stored as u32)
            & state.stencil_func_mask),
        state.stencil_func == gl::ALWAYS ==> stencil_passes(state, stored),
{
}

/// How the stencil functions relate: each has a complement that passes
/// exactly when it fails (`LESS`/`GEQUAL`, `LEQUAL`/`GREATER`,
/// `EQUAL`/`NOTEQUAL`, `NEVER`/`ALWAYS`), swapping the two compared values
/// turns `LESS` into `GREATER` and `LEQUAL` into `GEQUAL`, and `EQUAL` is
/// `LEQUAL` and `GEQUAL` together.
pub proof fn lemma_stencil_functions_relate(reference: u32, stored: u32)
    ensures
        stencil_compare(gl::GEQUAL, reference, stored) == !stencil_compare(gl::LESS, reference, stored),
        stencil_compare(gl::GREATER, reference, stored) == !stencil_compare(
            gl::LEQUAL,
            reference,
            stored,
        ),
        stencil_compare(gl::NOTEQUAL, reference, stored) == !stencil_compare(
            gl::EQUAL,
            reference,
            stored,
        ),
        stencil_compare(gl::ALWAYS, reference, stored) == !stencil_compare(gl::NEVER, reference, stored),
        stencil_compare(gl::LESS, reference, stored) == stencil_compare(gl::GREATER, stored, reference),
        stencil_compare(gl::LEQUAL, reference, stored) == stencil_compare(gl::GEQUAL, stored, reference),
        stencil_compare(gl::EQUAL, reference, stored) == (stencil_compare(gl::LEQUAL, reference, stored)
            && stencil_compare(gl::GEQUAL, reference, stored)),
        stencil_compare(gl::EQUAL, reference, stored) == stencil_compare(gl::EQUAL, stored, reference),
{
}

/// The stencil test of one fragment: whether testing is on, and whether the
/// fragment passes. With testing off, or no stencil buffer, every fragment
/// passes.
pub fn test_stencil(state: &StencilState, stencil: Option<&[u8]>, offset: usize) -> (r: (
    bool,
    bool,
))
    requires
        state.stencil_test && stencil is Some ==> offset < stencil->Some_0@.len(),
    ensures
        r == (if state.stencil_test && stencil is Some {
            (true, stencil_passes(*state, stencil->Some_0@[offset as int]))
        } else {
            (true, true)
        }),
{
    if !state.stencil_test {
        return (true, true);
    }
    let stencil = match stencil {
        Some(stencil) => stencil,
        None => return (true, true),
    };
    let s_val = stencil[offset] as u32;
    let ref_val = (state.stencil_ref as u32) & state.stencil_func_mask;
    let masked_s = s_val & state.stencil_func_mask;
    let pass = if state.stencil_func == gl::NEVER {
        false
    } else if state.stencil_func == gl::LESS {
        ref_val < masked_s
    } else if state.stencil_func == gl::LEQUAL {
        ref_val <= masked_s
    } else if state.stencil_func == gl::EQUAL {
        ref_val == masked_s
    } else if state.stencil_func == gl::GEQUAL {
        ref_val >= masked_s
    } else if state.stencil_func == gl::GREATER {
        ref_val > masked_s
    } else if state.stencil_func == gl::NOTEQUAL {
        ref_val != masked_s
    } else {
        true
    };
    (state.stencil_test, pass)
}

/// The value that stencil operation `op` computes from the stored value
/// `stored` and the reference `reference`; an unknown operation keeps it.
pub open spec fn stencil_operation(op: u32, stored: u8, reference: u8) -> u8 {
    if op == gl::STENCIL_ZERO {
        0
    } else if op == gl::STENCIL_REPLACE {
        reference
    } else if op == gl::STENCIL_INCR {
        if stored == 255 {
            255
        } else {
            (stored + 1) as u8
        }
    } else if op == gl::STENCIL_DECR {
        if stored == 0 {
            0
        } else {
            (stored - 1) as u8
        }
    } else if op == gl::STENCIL_INVERT {
        (255 - stored) as u8
    } else if op == gl::STENCIL_INCR_WRAP {
        ((stored + 1) % 256) as u8
    } else if op == gl::STENCIL_DECR_WRAP {
        ((stored + 255) % 256) as u8
    } else {
        stored
    }
}

/// The stored value after operation `op`: the operation's result in the bits
/// of the write mask, the old value in the others.
pub open spec fn stencil_update(state: StencilState, op: u32, stored: u8) -> u8 {
    let mask = state.stencil_write_mask as u8;
    (stored & !mask) | (stencil_operation(op, stored, state.stencil_ref as u8) & mask)
}

/// The stencil update writes only through the mask: `STENCIL_KEEP` leaves
/// every stored value as it was, and so does any operation under a write
/// mask with no bit set.
pub proof fn lemma_stencil_update_respects_mask(state: StencilState, op: u32, stored: u8)
    ensures
        stencil_update(state, gl::STENCIL_KEEP, stored) == stored,
        state.stencil_write_mask as u8 == 0 ==> stencil_update(state, op, stored) == stored,
{
    let mask = state.stencil_write_mask as u8;
    let result = stencil_operation(op, stored, state.stencil_ref as u8);
    assert((stored & !mask) | (stored & mask) == stored) by (bit_vector);
    assert(mask == 0 ==> (stored & !mask) | (result & mask) == stored) by (bit_vector);
}

/// Applies stencil operation `op` to the stored value at `offset`, through
/// the write mask. With testing off the buffer is left as it was.
pub fn apply_stencil_op(state: &StencilState, stencil: &mut [u8], offset: usize, op: u32)
    requires
        state.stencil_test ==> offset < old(stencil)@.len(),
    ensures
        final(stencil)@ == (if state.stencil_test {
            old(stencil)@.update(offset as int, stencil_update(*state, op, old(stencil)@[offset as int]))
        } else {
            old(stencil)@
        }),
{
    if !state.stencil_test {
        return;
    }
    let orig = stencil[offset];
    let ref_val = state.stencil_ref as u8;
    let new_val = if op == gl::STENCIL_KEEP {
        orig
    } else if op == gl::STENCIL_ZERO {
        0
    } else if op == gl::STENCIL_REPLACE {
        ref_val
    } else if op == gl::STENCIL_INCR {
        orig.saturating_add(1)
    } else if op == gl::STENCIL_DECR {
        orig.saturating_sub(1)
    } else if op == gl::STENCIL_INVERT {
        255 - orig
    } else if op == gl::STENCIL_INCR_WRAP {
        orig.wrapping_add(1)
    } else if op == gl::STENCIL_DECR_WRAP {
        orig.wrapping_sub(1)
    } else {
        orig
    };
    let mask = state.stencil_write_mask as u8;
    stencil[offset] = (orig & !mask) | (new_val & mask);
}

/// The edge function of the directed edge `a -> b` at point `p`: twice the
/// signed area of the triangle `a, b, p`, positive when `p` lies to the left.
pub open spec fn edge_value(ax: int, ay: int, bx: int, by: int, px: int, py: int) -> int {
    (bx - ax) * (py - ay) - (by - ay) * (px - ax)
}

/// Whether `v` is a value of `i64`.
pub open spec fn fits_i64(v: int) -> bool {
    i64::MIN <= v <= i64::MAX
}

/// Whether every intermediate of the edge function fits in `i64`.
pub open spec fn edge_fits(ax: int, ay: int, bx: int, by: int, px: int, py: int) -> bool {
    &&& fits_i64(bx - ax)
    &&& fits_i64(py - ay)
    &&& fits_i64(by - ay)
    &&& fits_i64(px - ax)
    &&& fits_i64((bx - ax) * (py - ay))
    &&& fits_i64((by - ay) * (px - ax))
    &&& fits_i64(edge_value(ax, ay, bx, by, px, py))
}

/// The edge function in 64-bit fixed point, or `None` where one of its
/// steps overflows.
pub fn edge_function(ax: i64, ay: i64, bx: i64, by: i64, px: i64, py: i64) -> (r: Option<i64>)
    ensures
        r == (if edge_fits(ax as int, ay as int, bx as int, by as int, px as int, py as int) {
            Some(edge_value(ax as int, ay as int, bx as int, by as int, px as int, py as int) as i64)
        } else {
            None
        }),
{
    let ex = match bx.checked_sub(ax) {
        Some(v) => v,
        None => return None,
    };
    let ey = match py.checked_sub(ay) {
        Some(v) => v,
        None => return None,
    };
    let fy = match by.checked_sub(ay) {
        Some(v) => v,
        None => return None,
    };
    let fx = match px.checked_sub(ax) {
        Some(v) => v,
        None => return None,
    };
    let first = match ex.checked_mul(ey) {
        Some(v) => v,
        None => return None,
    };
    let second = match fy.checked_mul(fx) {
        Some(v) => v,
        None => return None,
    };
    first.checked_sub(second)
}

/// Whether a triangle of doubled signed area `area` is dropped before
/// rasterization: degenerate, or culled as a front or back face.
pub open spec fn culled(area: i64, front_face_ccw: bool, cull_mode: u32) -> bool {
    let is_front = (area > 0) == front_face_ccw;
    ||| area == 0
    ||| cull_mode == gl::FRONT && is_front
    ||| cull_mode == gl::BACK && !is_front
    ||| cull_mode == gl::FRONT_AND_BACK
}

/// Whether a triangle of doubled signed area `area` is dropped: degenerate,
/// or culled by `cull_mode` given which winding faces front.
pub fn triangle_culled(area: i64, front_face_ccw: bool, cull_mode: u32) -> (r: bool)
    ensures
        r == culled(area, front_face_ccw, cull_mode),
{
    if area == 0 {
        return true;
    }
    let is_ccw = area > 0;
    let is_front = is_ccw == front_face_ccw;
    if cull_mode == gl::FRONT && is_front {
        true
    } else if cull_mode == gl::BACK && !is_front {
        true
    } else {
        cull_mode == gl::FRONT_AND_BACK
    }
}

/// Whether a pixel center with edge values `w0, w1, w2` lies inside a
/// triangle of doubled signed area `area`: on the inner side of (or on)
/// all three edges.
pub open spec fn inside(area: i64, w0: i64, w1: i64, w2: i64) -> bool {
    if area > 0 {
        w0 >= 0 && w1 >= 0 && w2 >= 0
    } else {
        w0 <= 0 && w1 <= 0 && w2 <= 0
    }
}

/// The coverage test of one pixel center.
pub fn covers_pixel(area: i64, w0: i64, w1: i64, w2: i64) -> (r: bool)
    ensures
        r == inside(area, w0, w1, w2),
{
    if area > 0 {
        w0 >= 0 && w1 >= 0 && w2 >= 0
    } else {
        w0 <= 0 && w1 <= 0 && w2 <= 0
    }
}

/// The smallest of three.
pub open spec fn least(a: i64, b: i64, c: i64) -> int {
    if a <= b && a <= c {
        a as int
    } else if b <= c {
        b as int
    } else {
        c as int
    }
}

/// The largest of three.
pub open spec fn greatest(a: i64, b: i64, c: i64) -> int {
    if a >= b && a >= c {
        a as int
    } else if b >= c {
        b as int
    } else {
        c as int
    }
}

/// The pixel bounding box of a triangle with 28.4 fixed-point vertex
/// coordinates on a `width` by `height` target: the first pixel at or left
/// of (above) every vertex, the last pixel reached by rounding every vertex
/// up, clamped to the target and narrowed to `i32`.
pub open spec fn pixel_bounds(xs: [i64; 3], ys: [i64; 3], width: u32, height: u32) -> (
    i32,
    i32,
    i32,
    i32,
) {
    let min_x = least(xs[0], xs[1], xs[2]) / 16;
    let max_x = (greatest(xs[0], xs[1], xs[2]) + 15) / 16;
    let min_y = least(ys[0], ys[1], ys[2]) / 16;
    let max_y = (greatest(ys[0], ys[1], ys[2]) + 15) / 16;
    (
        (if min_x > 0 { min_x } else { 0 }) as i32,
        (if max_x < width - 1 { max_x } else { width - 1 }) as i32,
        (if min_y > 0 { min_y } else { 0 }) as i32,
        (if max_y < height - 1 { max_y } else { height - 1 }) as i32,
    )
}

fn least_of(a: i64, b: i64, c: i64) -> (r: i64)
    ensures
        r == least(a, b, c),
{
    if a <= b && a <= c {
        a
    } else if b <= c {
        b
    } else {
        c
    }
}

fn greatest_of(a: i64, b: i64, c: i64) -> (r: i64)
    ensures
        r == greatest(a, b, c),
{
    if a >= b && a >= c {
        a
    } else if b >= c {
        b
    } else {
        c
    }
}

/// The pixel bounding box `(min_x, max_x, min_y, max_y)` of a triangle
/// (inclusive), as the scanline loop walks it.
pub fn pixel_bounding_box(xs: [i64; 3], ys: [i64; 3], width: u32, height: u32) -> (r: (
    i32,
    i32,
    i32,
    i32,
))
    requires
        greatest(xs[0], xs[1], xs[2]) + 15 <= i64::MAX,
        greatest(ys[0], ys[1], ys[2]) + 15 <= i64::MAX,
    ensures
        r == pixel_bounds(xs, ys, width, height),
{
    let min_x = match least_of(xs[0], xs[1], xs[2]).checked_div_euclid(16) {
        Some(v) => v,
        None => 0,
    };
    let max_x = match (greatest_of(xs[0], xs[1], xs[2]) + 15).checked_div_euclid(16) {
        Some(v) => v,
        None => 0,
    };
    let min_y = match least_of(ys[0], ys[1], ys[2]).checked_div_euclid(16) {
        Some(v) => v,
        None => 0,
    };
    let max_y = match (greatest_of(ys[0], ys[1], ys[2]) + 15).checked_div_euclid(16) {
        Some(v) => v,
        None => 0,
    };
    let last_column = width as i64 - 1;
    let last_row = height as i64 - 1;
    (
        (if min_x > 0 { min_x } else { 0 }) as i32,
        (if max_x < last_column { max_x } else { last_column }) as i32,
        (if min_y > 0 { min_y } else { 0 }) as i32,
        (if max_y < last_row { max_y } else { last_row }) as i32,
    )
}

/// One step of a Bresenham line walk with error term `err`, horizontal
/// extent `dx >= 0` and negated vertical extent `dy <= 0`: the new error
/// term, whether the walk steps along x, and whether it steps along y.
pub open spec fn line_step_of(err: int, dx: int, dy: int) -> (int, bool, bool) {
    let e2 = 2 * err;
    let step_x = e2 >= dy;
    let step_y = e2 <= dx;
    (err + (if step_x { dy } else { 0 }) + (if step_y { dx } else { 0 }), step_x, step_y)
}

/// Whether every intermediate of a line step fits in `i32`.
pub open spec fn line_step_fits(err: int, dx: int, dy: int) -> bool {
    let e2 = 2 * err;
    let after_x = err + (if e2 >= dy { dy } else { 0 });
    &&& i32::MIN <= e2 <= i32::MAX
    &&& i32::MIN <= after_x <= i32::MAX
    &&& i32::MIN <= line_step_of(err, dx, dy).0 <= i32::MAX
}

/// A Bresenham walk reaches its end point. For a line with horizontal extent
/// `dx` and vertical extent `height` (both magnitudes), after `kx`
/// horizontal and `ky` vertical steps the error term is
/// `dx * (1 + ky) - height * (1 + kx)`; from every point short of the end,
/// the next step moves along at least one axis, never past the end on
/// either, and keeps that form of the error term. So the walk ends exactly
/// at the end point, after at most `dx + height` steps.
pub proof fn lemma_line_walk_reaches_its_end(dx: int, height: int, kx: int, ky: int)
    requires
        0 <= kx <= dx,
        0 <= ky <= height,
        kx < dx || ky < height,
    ensures
        ({
            let (next, step_x, step_y) = line_step_of(
                dx * (1 + ky) - height * (1 + kx),
                dx,
                -height,
            );
            &&& step_x || step_y
            &&& step_x ==> kx < dx
            &&& step_y ==> ky < height
            &&& next == dx * (1 + ky + (if step_y { 1int } else { 0int })) - height * (1 + kx + (
            if step_x {
                1int
            } else {
                0int
            }))
        }),
{
    let err = dx * (1 + ky) - height * (1 + kx);
    let step_x = 2 * err >= -height;
    let step_y = 2 * err <= dx;
    assert(step_x ==> kx < dx) by (nonlinear_arith)
        requires
            err == dx * (1 + ky) - height * (1 + kx),
            step_x == (2 * err >= -height),
            0 <= kx <= dx,
            0 <= ky <= height,
            kx < dx || ky < height,
    {
        if kx == dx && step_x {
            assert(ky + 1 <= height);
            assert(dx * (1 + ky) <= dx * height);
            assert(2 * dx * (1 + ky) >= height * (1 + 2 * dx));
        }
    }
    assert(step_y ==> ky < height) by (nonlinear_arith)
        requires
            err == dx * (1 + ky) - height * (1 + kx),
            step_y == (2 * err <= dx),
            0 <= kx <= dx,
            0 <= ky <= height,
            kx < dx || ky < height,
    {
        if ky == height && step_y {
            assert(kx + 1 <= dx);
            assert(height * (1 + kx) <= height * dx);
        }
    }
    assert(dx * (1 + ky + 1) == dx * (1 + ky) + dx) by (nonlinear_arith);
    assert(height * (1 + kx + 1) == height * (1 + kx) + height) by (nonlinear_arith);
}

/// The decision of one Bresenham step, or `None` where its 32-bit error
/// arithmetic overflows.
pub fn line_step(err: i32, dx: i32, dy: i32) -> (r: Option<(i32, bool, bool)>)
    ensures
        r == (if line_step_fits(err as int, dx as int, dy as int) {
            let (next, step_x, step_y) = line_step_of(err as int, dx as int, dy as int);
            Some((next as i32, step_x, step_y))
        } else {
            None
        }),
{
    let e2 = match err.checked_mul(2) {
        Some(v) => v,
        None => return None,
    };
    let mut next = err;
    let step_x = e2 >= dy;
    if step_x {
        next = match next.checked_add(dy) {
            Some(v) => v,
            None => return None,
        };
    }
    let step_y = e2 <= dx;
    if step_y {
        next = match next.checked_add(dx) {
            Some(v) => v,
            None => return None,
        };
    }
    Some((next, step_x, step_y))
}

/// Whether `v` is a value of `i32`.
pub open spec fn fits_i32(v: int) -> bool {
    i32::MIN <= v <= i32::MAX
}

/// Whether pixel `(px, py)` lies on a `width` by `height` target (both
/// narrowed to `i32`) and inside the scissor rectangle, if there is one.
pub open spec fn pixel_visible(
    px: i32,
    py: i32,
    width: u32,
    height: u32,
    scissor: Option<(i32, i32, u32, u32)>,
) -> bool {
    &&& 0 <= px < width as i32
    &&& 0 <= py < height as i32
    &&& match scissor {
        None => true,
        Some((sx, sy, sw, sh)) => sx <= px < sx + (sw as i32) && sy <= py < sy + (sh as i32),
    }
}

/// Whether the scissor test of pixel `(px, py)` stays within `i32`, as far
/// as it is evaluated: the right edge once the pixel is right of and below
/// the scissor origin, the bottom edge once it is also left of the right
/// edge.
pub open spec fn scissor_fits(px: i32, py: i32, scissor: Option<(i32, i32, u32, u32)>) -> bool {
    match scissor {
        None => true,
        Some((sx, sy, sw, sh)) => (px >= sx && py >= sy) ==> {
            &&& fits_i32(sx + (sw as i32))
            &&& px < sx + (sw as i32) ==> fits_i32(sy + (sh as i32))
        },
    }
}

/// The bounds and scissor test of one fragment.
pub fn pixel_is_visible(
    px: i32,
    py: i32,
    width: u32,
    height: u32,
    scissor: Option<(i32, i32, u32, u32)>,
) -> (r: bool)
    requires
        (0 <= px < width as i32 && 0 <= py < height as i32) ==> scissor_fits(px, py, scissor),
    ensures
        r == pixel_visible(px, py, width, height, scissor),
{
    if px < 0 || py < 0 || px >= width as i32 || py >= height as i32 {
        return false;
    }
    match scissor {
        Some((sx, sy, sw, sh)) => {
            if px < sx || py < sy || px >= sx + sw as i32 || py >= sy + sh as i32 {
                return false;
            }
            true
        },
        None => true,
    }
}

/// What the stencil and depth tests decide for a fragment that passed the
/// alpha test: the stencil operation to apply, if any, and whether the
/// fragment goes on to the depth write and color stages. A fragment failing
/// the stencil test takes the fail operation; one failing the depth test
/// takes the depth-fail operation (with stencil testing on); one passing
/// both takes the depth-pass operation.
pub open spec fn stencil_depth_outcome(
    stencil_enabled: bool,
    stencil_pass: bool,
    depth_pass: bool,
    fail: u32,
    zfail: u32,
    zpass: u32,
) -> (Option<u32>, bool) {
    if stencil_enabled && !stencil_pass {
        (Some(fail), false)
    } else if stencil_enabled {
        if depth_pass {
            (Some(zpass), true)
        } else {
            (Some(zfail), false)
        }
    } else {
        (None, depth_pass)
    }
}

/// The stencil/depth decision of one fragment.
pub fn fragment_outcome(
    stencil_enabled: bool,
    stencil_pass: bool,
    depth_pass: bool,
    fail: u32,
    zfail: u32,
    zpass: u32,
) -> (r: (Option<u32>, bool))
    ensures
        r == stencil_depth_outcome(stencil_enabled, stencil_pass, depth_pass, fail, zfail, zpass),
{
    if stencil_enabled && !stencil_pass {
        return (Some(fail), false);
    }
    if stencil_enabled {
        if !depth_pass {
            (Some(zfail), false)
        } else {
            (Some(zpass), true)
        }
    } else if !depth_pass {
        (None, false)
    } else {
        (None, true)
    }
}

/// The four bytes of pixel `offset` in a color target after writing the
/// channels `rgba` through the color mask (bit 0 red .. bit 3 alpha), in
/// RGBA or BGRA byte order.
pub open spec fn masked_color_write(
    color: Seq<u8>,
    offset: int,
    rgba: [u8; 4],
    mask: u8,
    bgra: bool,
) -> Seq<u8> {
    let red_at = if bgra { offset + 2 } else { offset };
    let blue_at = if bgra { offset } else { offset + 2 };
    let c = if mask & 1 != 0 { color.update(red_at, rgba[0]) } else { color };
    let c = if mask & 2 != 0 { c.update(offset + 1, rgba[1]) } else { c };
    let c = if mask & 4 != 0 { c.update(blue_at, rgba[2]) } else { c };
    if mask & 8 != 0 { c.update(offset + 3, rgba[3]) } else { c }
}

/// Writes a fragment's color channels to the target through the color
/// mask, in the target's byte order.
pub fn write_color(color: &mut [u8], offset: usize, rgba: [u8; 4], mask: u8, bgra: bool)
    requires
        offset + 4 <= old(color)@.len(),
    ensures
        final(color)@ == masked_color_write(old(color)@, offset as int, rgba, mask, bgra),
{
    if bgra {
        if mask & 1 != 0 {
            color[offset + 2] = rgba[0];
        }
        if mask & 2 != 0 {
            color[offset + 1] = rgba[1];
        }
        if mask & 4 != 0 {
            color[offset] = rgba[2];
        }
        if mask & 8 != 0 {
            color[offset + 3] = rgba[3];
        }
    } else {
        if mask & 1 != 0 {
            color[offset] = rgba[0];
        }
        if mask & 2 != 0 {
            color[offset + 1] = rgba[1];
        }
        if mask & 4 != 0 {
            color[offset + 2] = rgba[2];
        }
        if mask & 8 != 0 {
            color[offset + 3] = rgba[3];
        }
    }
}

/// The render targets of a draw: an interleaved RGBA8 or BGRA8 color plane
/// (4 bytes per pixel, `color_stride` bytes per row), and optional `f32`
/// depth and `u8` stencil planes.
pub struct Targets<'a> {
    pub color: &'a mut [u8],
    pub color_stride: u32,
    pub width: u32,
    pub height: u32,
    pub bgra_order: bool,
    pub depth: Option<&'a mut [u8]>,
    pub stencil: Option<&'a mut [u8]>,
}

impl<'a> Targets<'a> {
    /// Writes a fragment's color channels to byte `offset` of the color
    /// plane through the color mask, in the plane's byte order.
    pub fn write_pixel(&mut self, offset: usize, rgba: [u8; 4], mask: u8)
        requires
            offset + 4 <= old(self).color@.len(),
        ensures
            final(self).color@ == masked_color_write(
                old(self).color@,
                offset as int,
                rgba,
                mask,
                old(self).bgra_order,
            ),
            final(self).bgra_order == old(self).bgra_order,
    {
        let bgra = self.bgra_order;
        write_color(self.color, offset, rgba, mask, bgra);
    }

    /// The stencil test of the fragment at stencil byte `offset`, against
    /// the stencil plane if there is one.
    pub fn test_stencil(&self, state: &StencilState, offset: usize) -> (r: (bool, bool))
        requires
            state.stencil_test && self.stencil is Some ==> offset < self.stencil->Some_0@.len(),
        ensures
            r == (if state.stencil_test && self.stencil is Some {
                (true, stencil_passes(*state, self.stencil->Some_0@[offset as int]))
            } else {
                (true, true)
            }),
    {
        match &self.stencil {
            Some(stencil) => test_stencil(state, Some(&**stencil), offset),
            None => test_stencil(state, None, offset),
        }
    }

    /// Applies stencil operation `op` to the stencil byte `offset`, if there
    /// is a stencil plane and stencil testing is on.
    pub fn apply_stencil_op(&mut self, state: &StencilState, offset: usize, op: u32)
        requires
            state.stencil_test && old(self).stencil is Some ==> offset < old(self).stencil->Some_0@.len(),
        ensures
            final(self).stencil is Some == old(self).stencil is Some,
            old(self).stencil is Some ==> final(self).stencil->Some_0@ == (if state.stencil_test {
                old(self).stencil->Some_0@.update(
                    offset as int,
                    stencil_update(*state, op, old(self).stencil->Some_0@[offset as int]),
                )
            } else {
                old(self).stencil->Some_0@
            }),
            final(self).color@ == old(self).color@,
    {
        match &mut self.stencil {
            Some(stencil) => apply_stencil_op(state, &mut **stencil, offset, op),
            None => {},
        }
    }
}

} // verus!
