//! The blitter: solid fills and transformed image blits into a layer
//! buffer, in logical (drawing) coordinates.
//!
//! Every operation clips to the buffer silently — out-of-range coordinates
//! draw nothing and over-long extents are truncated, never reported — and
//! converts its 5-6-5 colour source to the buffer's 8-8-8-8 format. Source
//! indices past the end of an image slice are skipped, so a short slice
//! leaves the affected pixels untouched rather than failing the call.

use crate::color::argb_of_rgb565;
use crate::color::rgb565_to_argb8888;
use crate::fb::FrameBuffer;
use crate::transform::ImageFlip;
use crate::transform::ImageRotation;
use crate::transform::ImageTransform;
use crate::transform::src_index;
use crate::transform::src_index_exec;
use crate::transform::transformed;
use vstd::arithmetic::div_mod::lemma_fundamental_div_mod_converse;
use vstd::prelude::*;

verus! {

/// Logical coordinate type of the drawing call surface.
pub type Coord = i32;

/// Logical drawing space extents: the panel rotated a quarter turn.
pub const GAME_WIDTH: u32 = 320;

pub const GAME_HEIGHT: u32 = 240;

/// Whether buffer index `i` lies inside the logical-space rectangle of
/// width `w` and height `h` at `(x, y)`.
pub open spec fn rect_covers(fb: FrameBuffer, x: int, y: int, w: int, h: int, i: int) -> bool {
    &&& x <= fb.gx_of(i) < x + w
    &&& y <= fb.gy_of(i) < y + h
}

/// An extent clipped against a bound: zero once the position is past the
/// bound, truncated to reach at most the bound otherwise.
pub open spec fn clip_len(pos: int, len: int, bound: int) -> int {
    if pos >= bound {
        0
    } else if pos + len > bound {
        bound - pos
    } else {
        len
    }
}

/// Whether buffer index `i` lies inside the rectangle at `(x, y)` of
/// requested width `w` and height `h` after clipping to the buffer.
pub open spec fn fill_covers(fb: FrameBuffer, x: int, y: int, w: int, h: int, i: int) -> bool {
    rect_covers(fb, x, y, clip_len(x, w, fb.game_width()), clip_len(y, h, fb.game_height()), i)
}

/// Progress predicate of the row-major blit loops: index `i` has been
/// visited once `row` full rows are done and `col` pixels of the next.
spec fn before(fb: FrameBuffer, x: int, y: int, row: int, col: int, i: int) -> bool {
    ||| fb.gy_of(i) - y < row
    ||| (fb.gy_of(i) - y == row && fb.gx_of(i) - x < col)
}

/// Flat source index that buffer index `i` fetches in a `w` by `h` image
/// blit at `(x, y)` with transform `t`.
pub open spec fn src_at(
    fb: FrameBuffer,
    x: int,
    y: int,
    w: int,
    h: int,
    t: ImageTransform,
    i: int,
) -> int {
    src_index(t, w, h, fb.gy_of(i) - y, fb.gx_of(i) - x)
}

/// Pixel that buffer index `i` holds after an image blit: the converted
/// source pixel where the clipped rectangle covers `i` and the source map
/// lands inside `data`, the old pixel everywhere else.
pub open spec fn image_target_pixel(
    pre: FrameBuffer,
    x: int,
    y: int,
    w: int,
    h: int,
    data: Seq<u16>,
    t: ImageTransform,
    i: int,
) -> u32 {
    let cw = clip_len(x, w, pre.game_width());
    let ch = clip_len(y, h, pre.game_height());
    if 0 <= x && 0 <= y && rect_covers(pre, x, y, cw, ch, i) && 0 <= src_at(pre, x, y, cw, ch, t, i)
        < data.len() {
        argb_of_rgb565(data[src_at(pre, x, y, cw, ch, t, i)])
    } else {
        pre.pixels@[i]
    }
}

/// Writes the word `argb` to every pixel of an in-bounds logical rectangle.
fn blit_solid(fb: &mut FrameBuffer, x: usize, y: usize, w: usize, h: usize, argb: u32)
    requires
        old(fb).wf(),
        x + w <= old(fb).game_width(),
        y + h <= old(fb).game_height(),
    ensures
        final(fb).wf(),
        final(fb).width == old(fb).width,
        final(fb).height == old(fb).height,
        forall|i: int|
            0 <= i < final(fb).pixels@.len() ==> final(fb).pixels@[i] == (if rect_covers(
                *old(fb),
                x as int,
                y as int,
                w as int,
                h as int,
                i,
            ) {
                argb
            } else {
                old(fb).pixels@[i]
            }),
{
    let ghost pre = *old(fb);
    let ghost xi = x as int;
    let ghost yi = y as int;
    let ghost wi = w as int;
    let ghost hi = h as int;
    let mut row: usize = 0;
    while row < h
        invariant
            pre.wf(),
            fb.wf(),
            fb.width == pre.width,
            fb.height == pre.height,
            row <= h,
            xi == x as int && yi == y as int && wi == w as int && hi == h as int,
            x + w <= pre.game_width(),
            y + h <= pre.game_height(),
            forall|i: int|
                0 <= i < fb.pixels@.len() ==> fb.pixels@[i] == (if rect_covers(pre, xi, yi, wi, hi, i)
                    && before(pre, xi, yi, row as int, 0, i) {
                    argb
                } else {
                    pre.pixels@[i]
                }),
        decreases h - row,
    {
        let mut col: usize = 0;
        while col < w
            invariant
                pre.wf(),
                fb.wf(),
                fb.width == pre.width,
                fb.height == pre.height,
                row < h,
                col <= w,
                xi == x as int && yi == y as int && wi == w as int && hi == h as int,
                x + w <= pre.game_width(),
                y + h <= pre.game_height(),
                forall|i: int|
                    0 <= i < fb.pixels@.len() ==> fb.pixels@[i] == (if rect_covers(
                        pre,
                        xi,
                        yi,
                        wi,
                        hi,
                        i,
                    ) && before(pre, xi, yi, row as int, col as int, i) {
                        argb
                    } else {
                        pre.pixels@[i]
                    }),
            decreases w - col,
        {
            let gx: usize = x + col;
            let gy: usize = y + row;
            let ghost snap = fb.pixels@;
            fb.set_game_pixel(gx, gy, argb);
            proof {
                pre.lemma_pidx_bijective(gx as int, gy as int);
                let target = pre.pidx(gx as int, gy as int);
                assert forall|i: int| 0 <= i < fb.pixels@.len() implies fb.pixels@[i] == (
                if rect_covers(pre, xi, yi, wi, hi, i) && before(
                    pre,
                    xi,
                    yi,
                    row as int,
                    col as int + 1,
                    i,
                ) {
                    argb
                } else {
                    pre.pixels@[i]
                }) by {
                    if i != target {
                        pre.lemma_index_coords(i);
                        assert(fb.pixels@[i] == snap[i]);
                    }
                }
            }
            col = col + 1;
        }
        proof {
            assert forall|i: int| 0 <= i < fb.pixels@.len() implies (rect_covers(
                pre,
                xi,
                yi,
                wi,
                hi,
                i,
            ) && before(pre, xi, yi, row as int, wi, i)) == (rect_covers(pre, xi, yi, wi, hi, i)
                && before(pre, xi, yi, row as int + 1, 0, i)) by {}
        }
        row = row + 1;
    }
    proof {
        assert forall|i: int| 0 <= i < fb.pixels@.len() implies (rect_covers(pre, xi, yi, wi, hi, i)
            && before(pre, xi, yi, hi, 0, i)) == rect_covers(pre, xi, yi, wi, hi, i) by {}
    }
}

/// Fills a logical-space rectangle with a 5-6-5 colour, clipping it to the
/// buffer: the requested extent is truncated silently and a start position
/// off the buffer draws nothing.
pub fn fill_rect(fb: &mut FrameBuffer, x: u16, w: u16, y: u16, h: u16, color: u16)
    requires
        old(fb).wf(),
    ensures
        final(fb).wf(),
        final(fb).width == old(fb).width,
        final(fb).height == old(fb).height,
        forall|i: int|
            0 <= i < final(fb).pixels@.len() ==> final(fb).pixels@[i] == (if fill_covers(
                *old(fb),
                x as int,
                y as int,
                w as int,
                h as int,
                i,
            ) {
                argb_of_rgb565(color)
            } else {
                old(fb).pixels@[i]
            }),
{
    let gw: usize = fb.height;
    let gh: usize = fb.width;
    if x as usize >= gw || y as usize >= gh {
        return ;
    }
    let remw: usize = gw - x as usize;
    let remh: usize = gh - y as usize;
    let cw: usize = if w as usize > remw {
        remw
    } else {
        w as usize
    };
    let ch: usize = if h as usize > remh {
        remh
    } else {
        h as usize
    };
    let argb: u32 = rgb565_to_argb8888(color);
    blit_solid(fb, x as usize, y as usize, cw, ch, argb);
}

/// Fills the whole logical drawing space with a 5-6-5 background colour.
pub fn set_background_color_rust(fb: &mut FrameBuffer, bg_color: u16)
    requires
        old(fb).wf(),
    ensures
        final(fb).wf(),
        final(fb).width == old(fb).width,
        final(fb).height == old(fb).height,
        forall|i: int|
            0 <= i < final(fb).pixels@.len() ==> final(fb).pixels@[i] == argb_of_rgb565(bg_color),
{
    let ghost pre = *old(fb);
    let gw: u16 = fb.height as u16;
    let gh: u16 = fb.width as u16;
    fill_rect(fb, 0, gw, 0, gh, bg_color);
    proof {
        assert forall|i: int| 0 <= i < fb.pixels@.len() implies fill_covers(
            pre,
            0,
            0,
            gw as int,
            gh as int,
            i,
        ) by {
            pre.lemma_index_coords(i);
        }
    }
}

/// Fills a rectangle given in raw logical integers, recovering from any
/// out-of-bounds request by clipping: negative or off-buffer positions draw
/// nothing, over-long extents are truncated.
pub fn draw_rect_angle_rust(fb: &mut FrameBuffer, x: Coord, w: u32, y: Coord, h: u32, color: u16)
    requires
        old(fb).wf(),
    ensures
        final(fb).wf(),
        final(fb).width == old(fb).width,
        final(fb).height == old(fb).height,
        forall|i: int|
            0 <= i < final(fb).pixels@.len() ==> final(fb).pixels@[i] == (if 0 <= x && 0 <= y
                && fill_covers(*old(fb), x as int, y as int, w as int, h as int, i) {
                argb_of_rgb565(color)
            } else {
                old(fb).pixels@[i]
            }),
{
    let ghost pre = *old(fb);
    if x < 0 || y < 0 {
        return ;
    }
    if x >= fb.height as i32 || y >= fb.width as i32 {
        return ;
    }
    let wc: u16 = if w > 0xFFFF {
        0xFFFF
    } else {
        w as u16
    };
    let hc: u16 = if h > 0xFFFF {
        0xFFFF
    } else {
        h as u16
    };
    fill_rect(fb, x as u16, wc, y as u16, hc, color);
    proof {
        assert(clip_len(x as int, wc as int, pre.game_width()) == clip_len(
            x as int,
            w as int,
            pre.game_width(),
        ));
        assert(clip_len(y as int, hc as int, pre.game_height()) == clip_len(
            y as int,
            h as int,
            pre.game_height(),
        ));
    }
}

/// Blits an image into an in-bounds logical rectangle, fetching each
/// destination pixel through the transform's source map and skipping
/// source indices that fall outside `data`.
fn blit_image(
    fb: &mut FrameBuffer,
    x: usize,
    y: usize,
    w: usize,
    h: usize,
    data: &[u16],
    t: ImageTransform,
)
    requires
        old(fb).wf(),
        x + w <= old(fb).game_width(),
        y + h <= old(fb).game_height(),
    ensures
        final(fb).wf(),
        final(fb).width == old(fb).width,
        final(fb).height == old(fb).height,
        forall|i: int|
            0 <= i < final(fb).pixels@.len() ==> final(fb).pixels@[i] == (if rect_covers(
                *old(fb),
                x as int,
                y as int,
                w as int,
                h as int,
                i,
            ) && 0 <= src_at(*old(fb), x as int, y as int, w as int, h as int, t, i) < data@.len() {
                argb_of_rgb565(data@[src_at(*old(fb), x as int, y as int, w as int, h as int, t, i)])
            } else {
                old(fb).pixels@[i]
            }),
{
    let ghost pre = *old(fb);
    let ghost xi = x as int;
    let ghost yi = y as int;
    let ghost wi = w as int;
    let ghost hi = h as int;
    let mut row: usize = 0;
    while row < h
        invariant
            pre.wf(),
            fb.wf(),
            fb.width == pre.width,
            fb.height == pre.height,
            row <= h,
            xi == x as int && yi == y as int && wi == w as int && hi == h as int,
            x + w <= pre.game_width(),
            y + h <= pre.game_height(),
            forall|i: int|
                0 <= i < fb.pixels@.len() ==> fb.pixels@[i] == (if rect_covers(pre, xi, yi, wi, hi, i)
                    && before(pre, xi, yi, row as int, 0, i) && 0 <= src_at(pre, xi, yi, wi, hi, t, i)
                    < data@.len() {
                    argb_of_rgb565(data@[src_at(pre, xi, yi, wi, hi, t, i)])
                } else {
                    pre.pixels@[i]
                }),
        decreases h - row,
    {
        let mut col: usize = 0;
        while col < w
            invariant
                pre.wf(),
                fb.wf(),
                fb.width == pre.width,
                fb.height == pre.height,
                row < h,
                col <= w,
                xi == x as int && yi == y as int && wi == w as int && hi == h as int,
                x + w <= pre.game_width(),
                y + h <= pre.game_height(),
                forall|i: int|
                    0 <= i < fb.pixels@.len() ==> fb.pixels@[i] == (if rect_covers(
                        pre,
                        xi,
                        yi,
                        wi,
                        hi,
                        i,
                    ) && before(pre, xi, yi, row as int, col as int, i) && 0 <= src_at(
                        pre,
                        xi,
                        yi,
                        wi,
                        hi,
                        t,
                        i,
                    ) < data@.len() {
                        argb_of_rgb565(data@[src_at(pre, xi, yi, wi, hi, t, i)])
                    } else {
                        pre.pixels@[i]
                    }),
            decreases w - col,
        {
            let gx: usize = x + col;
            let gy: usize = y + row;
            let si: i64 = src_index_exec(t, w, h, row, col);
            proof {
                pre.lemma_pidx_bijective(gx as int, gy as int);
            }
            let ghost target = pre.pidx(gx as int, gy as int);
            let ghost snap = fb.pixels@;
            if 0 <= si && (si as usize) < data.len() {
                let px: u16 = data[si as usize];
                fb.set_game_pixel(gx, gy, rgb565_to_argb8888(px));
            }
            proof {
                assert(src_at(pre, xi, yi, wi, hi, t, target) == src_index(
                    t,
                    wi,
                    hi,
                    row as int,
                    col as int,
                ));
                assert forall|i: int| 0 <= i < fb.pixels@.len() implies fb.pixels@[i] == (
                if rect_covers(pre, xi, yi, wi, hi, i) && before(
                    pre,
                    xi,
                    yi,
                    row as int,
                    col as int + 1,
                    i,
                ) && 0 <= src_at(pre, xi, yi, wi, hi, t, i) < data@.len() {
                    argb_of_rgb565(data@[src_at(pre, xi, yi, wi, hi, t, i)])
                } else {
                    pre.pixels@[i]
                }) by {
                    if i != target {
                        pre.lemma_index_coords(i);
                        assert(fb.pixels@[i] == snap[i]);
                    }
                }
            }
            col = col + 1;
        }
        proof {
            assert forall|i: int| 0 <= i < fb.pixels@.len() implies (rect_covers(
                pre,
                xi,
                yi,
                wi,
                hi,
                i,
            ) && before(pre, xi, yi, row as int, wi, i)) == (rect_covers(pre, xi, yi, wi, hi, i)
                && before(pre, xi, yi, row as int + 1, 0, i)) by {}
        }
        row = row + 1;
    }
    proof {
        assert forall|i: int| 0 <= i < fb.pixels@.len() implies (rect_covers(pre, xi, yi, wi, hi, i)
            && before(pre, xi, yi, hi, 0, i)) == rect_covers(pre, xi, yi, wi, hi, i) by {}
    }
}

/// Blits an image at raw logical coordinates with a rotation-and-flip
/// transform, clipping the destination rectangle to the buffer; the clipped
/// extent is also the extent the source map works in.
pub fn draw_image_transformed_rust(
    fb: &mut FrameBuffer,
    x: Coord,
    w: u32,
    y: Coord,
    h: u32,
    image_data: &[u16],
    transform: ImageTransform,
)
    requires
        old(fb).wf(),
    ensures
        final(fb).wf(),
        final(fb).width == old(fb).width,
        final(fb).height == old(fb).height,
        forall|i: int|
            0 <= i < final(fb).pixels@.len() ==> final(fb).pixels@[i] == image_target_pixel(
                *old(fb),
                x as int,
                y as int,
                w as int,
                h as int,
                image_data@,
                transform,
                i,
            ),
{
    let ghost pre = *old(fb);
    if x < 0 || y < 0 {
        return ;
    }
    if x >= fb.height as i32 || y >= fb.width as i32 {
        return ;
    }
    let xu: usize = x as usize;
    let yu: usize = y as usize;
    let remw: usize = fb.height - xu;
    let remh: usize = fb.width - yu;
    let cw: usize = if w as u64 > remw as u64 {
        remw
    } else {
        w as usize
    };
    let ch: usize = if h as u64 > remh as u64 {
        remh
    } else {
        h as usize
    };
    blit_image(fb, xu, yu, cw, ch, image_data, transform);
    proof {
        assert(cw as int == clip_len(x as int, w as int, pre.game_width()));
        assert(ch as int == clip_len(y as int, h as int, pre.game_height()));
    }
}

/// Blits an image with a rotation only.
pub fn draw_image_rotated_rust(
    fb: &mut FrameBuffer,
    x: Coord,
    w: u32,
    y: Coord,
    h: u32,
    image_data: &[u16],
    rotation: ImageRotation,
)
    requires
        old(fb).wf(),
    ensures
        final(fb).wf(),
        final(fb).width == old(fb).width,
        final(fb).height == old(fb).height,
        forall|i: int|
            0 <= i < final(fb).pixels@.len() ==> final(fb).pixels@[i] == image_target_pixel(
                *old(fb),
                x as int,
                y as int,
                w as int,
                h as int,
                image_data@,
                (ImageTransform { rotation, flip: ImageFlip { horizontal: false, vertical: false } }),
                i,
            ),
{
    let transform = ImageTransform { rotation, flip: ImageFlip::none() };
    draw_image_transformed_rust(fb, x, w, y, h, image_data, transform);
}

/// Blits an image with a rotation and separate flip switches.
pub fn draw_image_rotated_flipped_rust(
    fb: &mut FrameBuffer,
    x: Coord,
    w: u32,
    y: Coord,
    h: u32,
    image_data: &[u16],
    rotation: ImageRotation,
    flip_h: bool,
    flip_v: bool,
)
    requires
        old(fb).wf(),
    ensures
        final(fb).wf(),
        final(fb).width == old(fb).width,
        final(fb).height == old(fb).height,
        forall|i: int|
            0 <= i < final(fb).pixels@.len() ==> final(fb).pixels@[i] == image_target_pixel(
                *old(fb),
                x as int,
                y as int,
                w as int,
                h as int,
                image_data@,
                (ImageTransform {
                    rotation,
                    flip: ImageFlip { horizontal: flip_h, vertical: flip_v },
                }),
                i,
            ),
{
    let transform = ImageTransform {
        rotation,
        flip: ImageFlip { horizontal: flip_h, vertical: flip_v },
    };
    draw_image_transformed_rust(fb, x, w, y, h, image_data, transform);
}

/// Image-blit law: after an in-bounds blit, the pixel at destination cell
/// `(r, c)` of the rectangle shows the colour-converted cell `(r, c)` of
/// the transformed image content, whenever the transform's source map
/// lands inside the source slice. Chained with the transform identity
/// laws, two opposite blits reproduce the first image's pixel content.
pub proof fn lemma_blit_region_content(
    pre: FrameBuffer,
    post: FrameBuffer,
    x: int,
    y: int,
    w: int,
    h: int,
    data: Seq<u16>,
    t: ImageTransform,
    r: int,
    c: int,
)
    requires
        pre.wf(),
        post.wf(),
        post.width == pre.width,
        post.height == pre.height,
        forall|i: int|
            0 <= i < post.pixels@.len() ==> post.pixels@[i] == image_target_pixel(
                pre,
                x,
                y,
                w,
                h,
                data,
                t,
                i,
            ),
        0 <= x,
        0 <= y,
        1 <= w,
        1 <= h,
        x + w <= pre.game_width(),
        y + h <= pre.game_height(),
        0 <= r < h,
        0 <= c < w,
        0 <= src_index(t, w, h, r, c) < data.len(),
    ensures
        post.pixels@[pre.pidx(x + c, y + r)] == argb_of_rgb565(
            transformed(data, t, w, h)[r * w + c],
        ),
{
    pre.lemma_pidx_bijective(x + c, y + r);
    let i = pre.pidx(x + c, y + r);
    assert(src_at(pre, x, y, w, h, t, i) == src_index(t, w, h, r, c));
    let j = r * w + c;
    assert(0 <= r * w && r * w + c < h * w) by (nonlinear_arith)
        requires
            0 <= r < h && 0 <= c < w && 0 < w,
    ;
    assert(h * w == w * h) by (nonlinear_arith);
    lemma_fundamental_div_mod_converse(j, w, r, c);
    assert(transformed(data, t, w, h)[j] == data[src_index(t, w, h, j / w, j % w)]);
}

/// Filled-rectangle law: after a fill whose rectangle lies within the
/// buffer bounds, reading any logical coordinate inside the rectangle
/// gives the converted colour, and no coordinate outside it has changed.
pub proof fn lemma_fill_rect_reads(
    pre: FrameBuffer,
    post: FrameBuffer,
    x: int,
    y: int,
    w: int,
    h: int,
    color: u16,
    gx: int,
    gy: int,
)
    requires
        pre.wf(),
        post.wf(),
        post.width == pre.width,
        post.height == pre.height,
        forall|i: int|
            0 <= i < post.pixels@.len() ==> post.pixels@[i] == (if fill_covers(pre, x, y, w, h, i) {
                argb_of_rgb565(color)
            } else {
                pre.pixels@[i]
            }),
        0 <= x,
        0 <= y,
        0 <= w,
        0 <= h,
        x + w <= pre.game_width(),
        y + h <= pre.game_height(),
        0 <= gx < pre.game_width(),
        0 <= gy < pre.game_height(),
    ensures
        x <= gx < x + w && y <= gy < y + h ==> post.pixels@[pre.pidx(gx, gy)] == argb_of_rgb565(
            color,
        ),
        !(x <= gx < x + w && y <= gy < y + h) ==> post.pixels@[pre.pidx(gx, gy)]
            == pre.pixels@[pre.pidx(gx, gy)],
{
    pre.lemma_pidx_bijective(gx, gy);
}

} // verus!

