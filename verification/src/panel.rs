//! Drawing directly in panel coordinates: the checkerboard test pattern of
//! the primary layer, the overlay sprite, and the small seven-segment
//! frame-rate readout drawn into a back buffer before it is presented.

use crate::blit::clip_len;
use crate::fb::FrameBuffer;
use vstd::prelude::*;

verus! {

/// Whether buffer index `i` lies inside the panel-space rectangle at
/// `(x, y)` of requested extent `w` by `h`, after clipping to the buffer.
pub open spec fn panel_rect_covers(
    fb: FrameBuffer,
    x: int,
    y: int,
    w: int,
    h: int,
    i: int,
) -> bool {
    &&& x <= fb.pcol(i) < x + clip_len(x, w, fb.width as int)
    &&& y <= fb.prow(i) < y + clip_len(y, h, fb.height as int)
}

/// Progress predicate of the panel-space fill loop.
spec fn p_before(fb: FrameBuffer, x: int, y: int, row: int, col: int, i: int) -> bool {
    ||| fb.prow(i) - y < row
    ||| (fb.prow(i) - y == row && fb.pcol(i) - x < col)
}

/// Fills a panel-space rectangle with an 8-8-8-8 word, clipped to the
/// buffer.
pub fn draw_rect_buf(fb: &mut FrameBuffer, x: u32, y: u32, w: u32, h: u32, color: u32)
    requires
        old(fb).wf(),
    ensures
        final(fb).wf(),
        final(fb).width == old(fb).width,
        final(fb).height == old(fb).height,
        forall|i: int|
            0 <= i < final(fb).pixels@.len() ==> final(fb).pixels@[i] == (if panel_rect_covers(
                *old(fb),
                x as int,
                y as int,
                w as int,
                h as int,
                i,
            ) {
                color
            } else {
                old(fb).pixels@[i]
            }),
{
    let ghost pre = *old(fb);
    if x as u64 >= fb.width as u64 || y as u64 >= fb.height as u64 {
        return ;
    }
    let xc: usize = x as usize;
    let yc: usize = y as usize;
    let remw: usize = fb.width - xc;
    let remh: usize = fb.height - yc;
    let wc: usize = if w as u64 > remw as u64 {
        remw
    } else {
        w as usize
    };
    let hc: usize = if h as u64 > remh as u64 {
        remh
    } else {
        h as usize
    };
    let ghost xi = x as int;
    let ghost yi = y as int;
    proof {
        assert(wc as int == clip_len(xi, w as int, pre.width as int));
        assert(hc as int == clip_len(yi, h as int, pre.height as int));
    }
    let mut row: usize = 0;
    while row < hc
        invariant
            pre.wf(),
            fb.wf(),
            fb.width == pre.width,
            fb.height == pre.height,
            xi == xc as int && yi == yc as int,
            xc + wc <= pre.width,
            yc + hc <= pre.height,
            wc as int == clip_len(xi, w as int, pre.width as int),
            hc as int == clip_len(yi, h as int, pre.height as int),
            row <= hc,
            forall|i: int|
                0 <= i < fb.pixels@.len() ==> fb.pixels@[i] == (if panel_rect_covers(
                    pre,
                    xi,
                    yi,
                    w as int,
                    h as int,
                    i,
                ) && p_before(pre, xi, yi, row as int, 0, i) {
                    color
                } else {
                    pre.pixels@[i]
                }),
        decreases hc - row,
    {
        let mut col: usize = 0;
        while col < wc
            invariant
                pre.wf(),
                fb.wf(),
                fb.width == pre.width,
                fb.height == pre.height,
                xi == xc as int && yi == yc as int,
                xc + wc <= pre.width,
                yc + hc <= pre.height,
                wc as int == clip_len(xi, w as int, pre.width as int),
                hc as int == clip_len(yi, h as int, pre.height as int),
                row < hc,
                col <= wc,
                forall|i: int|
                    0 <= i < fb.pixels@.len() ==> fb.pixels@[i] == (if panel_rect_covers(
                        pre,
                        xi,
                        yi,
                        w as int,
                        h as int,
                        i,
                    ) && p_before(pre, xi, yi, row as int, col as int, i) {
                        color
                    } else {
                        pre.pixels@[i]
                    }),
            decreases wc - col,
        {
            let pr: usize = yc + row;
            let pc: usize = xc + col;
            proof {
                pre.lemma_panel_bijective(pr as int, pc as int);
            }
            let idx: usize = pr * fb.width + pc;
            let ghost snap = fb.pixels@;
            fb.set_raw(idx, color);
            proof {
                let target = pr as int * pre.width + pc as int;
                assert forall|i: int| 0 <= i < fb.pixels@.len() implies fb.pixels@[i] == (
                if panel_rect_covers(pre, xi, yi, w as int, h as int, i) && p_before(
                    pre,
                    xi,
                    yi,
                    row as int,
                    col as int + 1,
                    i,
                ) {
                    color
                } else {
                    pre.pixels@[i]
                }) by {
                    if i != target {
                        pre.lemma_panel_coords(i);
                        assert(fb.pixels@[i] == snap[i]);
                    }
                }
            }
            col = col + 1;
        }
        proof {
            assert forall|i: int| 0 <= i < fb.pixels@.len() implies (panel_rect_covers(
                pre,
                xi,
                yi,
                w as int,
                h as int,
                i,
            ) && p_before(pre, xi, yi, row as int, wc as int, i)) == (panel_rect_covers(
                pre,
                xi,
                yi,
                w as int,
                h as int,
                i,
            ) && p_before(pre, xi, yi, row as int + 1, 0, i)) by {}
        }
        row = row + 1;
    }
    proof {
        assert forall|i: int| 0 <= i < fb.pixels@.len() implies (panel_rect_covers(
            pre,
            xi,
            yi,
            w as int,
            h as int,
            i,
        ) && p_before(pre, xi, yi, hc as int, 0, i)) == panel_rect_covers(
            pre,
            xi,
            yi,
            w as int,
            h as int,
            i,
        ) by {}
    }
}

/// Horizontal segment: a rectangle `len` wide and `thick` tall.
pub fn draw_seg_h_buf(fb: &mut FrameBuffer, x: u32, y: u32, len: u32, thick: u32, color: u32)
    requires
        old(fb).wf(),
    ensures
        final(fb).wf(),
        final(fb).width == old(fb).width,
        final(fb).height == old(fb).height,
        forall|i: int|
            0 <= i < final(fb).pixels@.len() ==> final(fb).pixels@[i] == (if panel_rect_covers(
                *old(fb),
                x as int,
                y as int,
                len as int,
                thick as int,
                i,
            ) {
                color
            } else {
                old(fb).pixels@[i]
            }),
{
    draw_rect_buf(fb, x, y, len, thick, color);
}

/// Vertical segment: a rectangle `thick` wide and `len` tall.
pub fn draw_seg_v_buf(fb: &mut FrameBuffer, x: u32, y: u32, len: u32, thick: u32, color: u32)
    requires
        old(fb).wf(),
    ensures
        final(fb).wf(),
        final(fb).width == old(fb).width,
        final(fb).height == old(fb).height,
        forall|i: int|
            0 <= i < final(fb).pixels@.len() ==> final(fb).pixels@[i] == (if panel_rect_covers(
                *old(fb),
                x as int,
                y as int,
                thick as int,
                len as int,
                i,
            ) {
                color
            } else {
                old(fb).pixels@[i]
            }),
{
    draw_rect_buf(fb, x, y, thick, len, color);
}

/// The seven segments lit for each decimal digit (any other value lights
/// none), named as usual: A on top, then clockwise B, C, D (bottom), E, F,
/// with G across the middle.
pub open spec fn digit_seg_a(d: u8) -> bool {
    d == 0 || d == 2 || d == 3 || d == 5 || d == 6 || d == 7 || d == 8 || d == 9
}

pub open spec fn digit_seg_b(d: u8) -> bool {
    d == 0 || d == 1 || d == 2 || d == 3 || d == 4 || d == 7 || d == 8 || d == 9
}

pub open spec fn digit_seg_c(d: u8) -> bool {
    d == 0 || d == 1 || d == 3 || d == 4 || d == 5 || d == 6 || d == 7 || d == 8 || d == 9
}

pub open spec fn digit_seg_d(d: u8) -> bool {
    d == 0 || d == 2 || d == 3 || d == 5 || d == 6 || d == 8 || d == 9
}

pub open spec fn digit_seg_e(d: u8) -> bool {
    d == 0 || d == 2 || d == 6 || d == 8
}

pub open spec fn digit_seg_f(d: u8) -> bool {
    d == 0 || d == 4 || d == 5 || d == 6 || d == 8 || d == 9
}

pub open spec fn digit_seg_g(d: u8) -> bool {
    d == 2 || d == 3 || d == 4 || d == 5 || d == 6 || d == 8 || d == 9
}

/// Whether buffer index `i` lies inside one of the lit segments of a
/// seven-segment digit drawn at `(x, y)` with scale `s`: horizontal
/// segments are `4s` long and `s` thick, vertical segments `4s` tall and
/// `s` thick, placed on the usual seven-segment grid.
pub open spec fn digit_covers(fb: FrameBuffer, x: int, y: int, d: u8, s: int, i: int) -> bool {
    ||| (digit_seg_a(d) && panel_rect_covers(fb, x + s, y, 4 * s, s, i))
    ||| (digit_seg_b(d) && panel_rect_covers(fb, x + 5 * s, y + s, s, 4 * s, i))
    ||| (digit_seg_c(d) && panel_rect_covers(fb, x + 5 * s, y + 5 * s, s, 4 * s, i))
    ||| (digit_seg_d(d) && panel_rect_covers(fb, x + s, y + 9 * s, 4 * s, s, i))
    ||| (digit_seg_e(d) && panel_rect_covers(fb, x, y + 5 * s, s, 4 * s, i))
    ||| (digit_seg_f(d) && panel_rect_covers(fb, x, y + s, s, 4 * s, i))
    ||| (digit_seg_g(d) && panel_rect_covers(fb, x + s, y + 4 * s, 4 * s, s, i))
}

/// Draws a seven-segment decimal digit at panel position `(x, y)`, scaled
/// by `s`; a non-decimal value draws nothing.
pub fn draw_digit_buf(fb: &mut FrameBuffer, x: u32, y: u32, digit: u8, s: u32, color: u32)
    requires
        old(fb).wf(),
        x <= 0xFFFF,
        y <= 0xFFFF,
        s <= 0xFFF,
    ensures
        final(fb).wf(),
        final(fb).width == old(fb).width,
        final(fb).height == old(fb).height,
        forall|i: int|
            0 <= i < final(fb).pixels@.len() ==> final(fb).pixels@[i] == (if digit_covers(
                *old(fb),
                x as int,
                y as int,
                digit,
                s as int,
                i,
            ) {
                color
            } else {
                old(fb).pixels@[i]
            }),
{
    let ghost pre = *old(fb);
    let ghost xi = x as int;
    let ghost yi = y as int;
    let ghost si = s as int;
    let t: u32 = s;
    let lh: u32 = 4 * s;
    let lw: u32 = 4 * s;
    let (sa, sb, sc, sd, se, sf, sg): (bool, bool, bool, bool, bool, bool, bool) = match digit {
        0 => (true, true, true, true, true, true, false),
        1 => (false, true, true, false, false, false, false),
        2 => (true, true, false, true, true, false, true),
        3 => (true, true, true, true, false, false, true),
        4 => (false, true, true, false, false, true, true),
        5 => (true, false, true, true, false, true, true),
        6 => (true, false, true, true, true, true, true),
        7 => (true, true, true, false, false, false, false),
        8 => (true, true, true, true, true, true, true),
        9 => (true, true, true, true, false, true, true),
        _ => (false, false, false, false, false, false, false),
    };
    proof {
        assert(sa == digit_seg_a(digit) && sb == digit_seg_b(digit) && sc == digit_seg_c(digit)
            && sd == digit_seg_d(digit) && se == digit_seg_e(digit) && sf == digit_seg_f(digit)
            && sg == digit_seg_g(digit));
    }
    if sa {
        draw_seg_h_buf(fb, x + s, y, lw, t, color);
    }
    proof {
        assert forall|i: int| 0 <= i < fb.pixels@.len() implies fb.pixels@[i] == (if (digit_seg_a(
            digit,
        ) && panel_rect_covers(pre, xi + si, yi, 4 * si, si, i)) {
            color
        } else {
            pre.pixels@[i]
        }) by {}
    }
    if sb {
        draw_seg_v_buf(fb, x + 5 * s, y + s, lh, t, color);
    }
    proof {
        assert forall|i: int| 0 <= i < fb.pixels@.len() implies fb.pixels@[i] == (if (digit_seg_a(
            digit,
        ) && panel_rect_covers(pre, xi + si, yi, 4 * si, si, i)) || (digit_seg_b(digit)
            && panel_rect_covers(pre, xi + 5 * si, yi + si, si, 4 * si, i)) {
            color
        } else {
            pre.pixels@[i]
        }) by {}
    }
    if sc {
        draw_seg_v_buf(fb, x + 5 * s, y + 5 * s, lh, t, color);
    }
    proof {
        assert forall|i: int| 0 <= i < fb.pixels@.len() implies fb.pixels@[i] == (if (digit_seg_a(
            digit,
        ) && panel_rect_covers(pre, xi + si, yi, 4 * si, si, i)) || (digit_seg_b(digit)
            && panel_rect_covers(pre, xi + 5 * si, yi + si, si, 4 * si, i)) || (digit_seg_c(digit)
            && panel_rect_covers(pre, xi + 5 * si, yi + 5 * si, si, 4 * si, i)) {
            color
        } else {
            pre.pixels@[i]
        }) by {}
    }
    if sd {
        draw_seg_h_buf(fb, x + s, y + 9 * s, lw, t, color);
    }
    proof {
        assert forall|i: int| 0 <= i < fb.pixels@.len() implies fb.pixels@[i] == (if (digit_seg_a(
            digit,
        ) && panel_rect_covers(pre, xi + si, yi, 4 * si, si, i)) || (digit_seg_b(digit)
            && panel_rect_covers(pre, xi + 5 * si, yi + si, si, 4 * si, i)) || (digit_seg_c(digit)
            && panel_rect_covers(pre, xi + 5 * si, yi + 5 * si, si, 4 * si, i)) || (digit_seg_d(
            digit,
        ) && panel_rect_covers(pre, xi + si, yi + 9 * si, 4 * si, si, i)) {
            color
        } else {
            pre.pixels@[i]
        }) by {}
    }
    if se {
        draw_seg_v_buf(fb, x, y + 5 * s, lh, t, color);
    }
    proof {
        assert forall|i: int| 0 <= i < fb.pixels@.len() implies fb.pixels@[i] == (if (digit_seg_a(
            digit,
        ) && panel_rect_covers(pre, xi + si, yi, 4 * si, si, i)) || (digit_seg_b(digit)
            && panel_rect_covers(pre, xi + 5 * si, yi + si, si, 4 * si, i)) || (digit_seg_c(digit)
            && panel_rect_covers(pre, xi + 5 * si, yi + 5 * si, si, 4 * si, i)) || (digit_seg_d(
            digit,
        ) && panel_rect_covers(pre, xi + si, yi + 9 * si, 4 * si, si, i)) || (digit_seg_e(digit)
            && panel_rect_covers(pre, xi, yi + 5 * si, si, 4 * si, i)) {
            color
        } else {
            pre.pixels@[i]
        }) by {}
    }
    if sf {
        draw_seg_v_buf(fb, x, y + s, lh, t, color);
    }
    proof {
        assert forall|i: int| 0 <= i < fb.pixels@.len() implies fb.pixels@[i] == (if (digit_seg_a(
            digit,
        ) && panel_rect_covers(pre, xi + si, yi, 4 * si, si, i)) || (digit_seg_b(digit)
            && panel_rect_covers(pre, xi + 5 * si, yi + si, si, 4 * si, i)) || (digit_seg_c(digit)
            && panel_rect_covers(pre, xi + 5 * si, yi + 5 * si, si, 4 * si, i)) || (digit_seg_d(
            digit,
        ) && panel_rect_covers(pre, xi + si, yi + 9 * si, 4 * si, si, i)) || (digit_seg_e(digit)
            && panel_rect_covers(pre, xi, yi + 5 * si, si, 4 * si, i)) || (digit_seg_f(digit)
            && panel_rect_covers(pre, xi, yi + si, si, 4 * si, i)) {
            color
        } else {
            pre.pixels@[i]
        }) by {}
    }
    if sg {
        draw_seg_h_buf(fb, x + s, y + 4 * s, lw, t, color);
    }
    proof {
        assert forall|i: int| 0 <= i < fb.pixels@.len() implies fb.pixels@[i] == (if digit_covers(
            pre,
            xi,
            yi,
            digit,
            si,
            i,
        ) {
            color
        } else {
            pre.pixels@[i]
        }) by {}
    }
}

/// The test-pattern word at panel coordinate `(row, col)` of the
/// full-panel checkerboard: 32-pixel cells alternate transparent and
/// opaque, red and green ramp along the two axes, blue fades across the
/// cell diagonals, and the cell grid lines are solid black or white.
pub open spec fn checker_pixel(row: int, col: int) -> u32 {
    let cel = row / 32 + col / 32;
    let cel_count = 240int / 32 + 320int / 32;
    let a: int = if cel % 2 == 1 {
        0
    } else {
        0xFF
    };
    let r = row * 255 / 320;
    let g = col * 255 / 240;
    let b1 = 255 * (cel_count - cel - 1) / cel_count;
    let b: int = if cel % 4 == 0 {
        0
    } else {
        b1
    };
    if row % 32 == 0 || col % 32 == 0 {
        let lum: int = if a != 0 {
            255
        } else {
            0
        };
        (0xFF * 0x1000000 + lum * 0x10000 + lum * 0x100 + lum) as u32
    } else {
        (a * 0x1000000 + r * 0x10000 + g * 0x100 + b) as u32
    }
}

/// Computes one checkerboard pixel.
fn checker_pixel_exec(row: u32, col: u32) -> (p: u32)
    requires
        row < 320,
        col < 240,
    ensures
        p == checker_pixel(row as int, col as int),
{
    let cel: u32 = row / 32 + col / 32;
    let cel_count: u32 = 240 / 32 + 320 / 32;
    let a: u32 = if cel % 2 == 1 {
        0
    } else {
        0xFF
    };
    let r: u32 = row * 255 / 320;
    let g: u32 = col * 255 / 240;
    let b1: u32 = 255 * (cel_count - cel - 1) / cel_count;
    let b: u32 = if cel % 4 == 0 {
        0
    } else {
        b1
    };
    if row % 32 == 0 || col % 32 == 0 {
        let lum: u32 = if a != 0 {
            255
        } else {
            0
        };
        0xFF000000 + lum * 0x10000 + lum * 0x100 + lum
    } else {
        a * 0x1000000 + r * 0x10000 + g * 0x100 + b
    }
}

/// Fills a full-panel buffer with the checkerboard test pattern.
pub fn fill_checkerboard_to(fb: &mut FrameBuffer)
    requires
        old(fb).wf(),
        old(fb).width == 240,
        old(fb).height == 320,
    ensures
        final(fb).wf(),
        final(fb).width == old(fb).width,
        final(fb).height == old(fb).height,
        forall|i: int|
            0 <= i < final(fb).pixels@.len() ==> final(fb).pixels@[i] == checker_pixel(
                old(fb).prow(i),
                old(fb).pcol(i),
            ),
{
    let ghost pre = *old(fb);
    let mut row: usize = 0;
    while row < 320
        invariant
            pre.wf(),
            fb.wf(),
            fb.width == pre.width,
            fb.height == pre.height,
            pre.width == 240 && pre.height == 320,
            row <= 320,
            forall|i: int|
                0 <= i < fb.pixels@.len() ==> fb.pixels@[i] == (if i < row * 240 {
                    checker_pixel(pre.prow(i), pre.pcol(i))
                } else {
                    pre.pixels@[i]
                }),
        decreases 320 - row,
    {
        let mut col: usize = 0;
        while col < 240
            invariant
                pre.wf(),
                fb.wf(),
                fb.width == pre.width,
                fb.height == pre.height,
                pre.width == 240 && pre.height == 320,
                row < 320,
                col <= 240,
                forall|i: int|
                    0 <= i < fb.pixels@.len() ==> fb.pixels@[i] == (if i < row * 240 + col {
                        checker_pixel(pre.prow(i), pre.pcol(i))
                    } else {
                        pre.pixels@[i]
                    }),
            decreases 240 - col,
        {
            proof {
                pre.lemma_panel_bijective(row as int, col as int);
            }
            let idx: usize = row * 240 + col;
            let p: u32 = checker_pixel_exec(row as u32, col as u32);
            fb.set_raw(idx, p);
            col = col + 1;
        }
        row = row + 1;
    }
}

/// Fills both primary buffers with the checkerboard, so the first swap
/// presents identical content.
pub fn layer1_checkerboard(front: &mut FrameBuffer, back: &mut FrameBuffer)
    requires
        old(front).wf(),
        old(front).width == 240,
        old(front).height == 320,
        old(back).wf(),
        old(back).width == 240,
        old(back).height == 320,
    ensures
        final(front).wf(),
        final(front).width == 240 && final(front).height == 320,
        final(back).wf(),
        final(back).width == 240 && final(back).height == 320,
        forall|i: int|
            0 <= i < final(front).pixels@.len() ==> final(front).pixels@[i] == checker_pixel(
                old(front).prow(i),
                old(front).pcol(i),
            ),
        forall|i: int|
            0 <= i < final(back).pixels@.len() ==> final(back).pixels@[i] == checker_pixel(
                old(back).prow(i),
                old(back).pcol(i),
            ),
{
    fill_checkerboard_to(front);
    fill_checkerboard_to(back);
}

/// The overlay sprite word at `(row, col)` of the 64-by-64 overlay: a
/// fully opaque red/green gradient whose blue channel fades against the
/// sum of the two, with a bright one-pixel blue border.
pub open spec fn sprite_pixel(row: int, col: int) -> u32 {
    let gx = col * 255 / 64;
    let gy = row * 255 / 64;
    let b0 = 255 - (gx + gy) / 2;
    let b: int = if col == 0 || row == 0 || col == 63 || row == 63 {
        255
    } else {
        b0
    };
    (0xFF * 0x1000000 + gx * 0x10000 + gy * 0x100 + b) as u32
}

/// Fills the 64-by-64 overlay buffer with its gradient sprite.
pub fn layer2_sprite(fb: &mut FrameBuffer)
    requires
        old(fb).wf(),
        old(fb).width == 64,
        old(fb).height == 64,
    ensures
        final(fb).wf(),
        final(fb).width == old(fb).width,
        final(fb).height == old(fb).height,
        forall|i: int|
            0 <= i < final(fb).pixels@.len() ==> final(fb).pixels@[i] == sprite_pixel(
                old(fb).prow(i),
                old(fb).pcol(i),
            ),
{
    let ghost pre = *old(fb);
    let mut row: usize = 0;
    while row < 64
        invariant
            pre.wf(),
            fb.wf(),
            fb.width == pre.width,
            fb.height == pre.height,
            pre.width == 64 && pre.height == 64,
            row <= 64,
            forall|i: int|
                0 <= i < fb.pixels@.len() ==> fb.pixels@[i] == (if i < row * 64 {
                    sprite_pixel(pre.prow(i), pre.pcol(i))
                } else {
                    pre.pixels@[i]
                }),
        decreases 64 - row,
    {
        let mut col: usize = 0;
        while col < 64
            invariant
                pre.wf(),
                fb.wf(),
                fb.width == pre.width,
                fb.height == pre.height,
                pre.width == 64 && pre.height == 64,
                row < 64,
                col <= 64,
                forall|i: int|
                    0 <= i < fb.pixels@.len() ==> fb.pixels@[i] == (if i < row * 64 + col {
                        sprite_pixel(pre.prow(i), pre.pcol(i))
                    } else {
                        pre.pixels@[i]
                    }),
            decreases 64 - col,
        {
            proof {
                pre.lemma_panel_bijective(row as int, col as int);
            }
            let gx: u32 = (col as u32) * 255 / 64;
            let gy: u32 = (row as u32) * 255 / 64;
            let b0: u32 = 255 - (gx + gy) / 2;
            let b: u32 = if col == 0 || row == 0 || col == 63 || row == 63 {
                255
            } else {
                b0
            };
            let p: u32 = 0xFF000000 + gx * 0x10000 + gy * 0x100 + b;
            let idx: usize = row * 64 + col;
            fb.set_raw(idx, p);
            col = col + 1;
        }
        row = row + 1;
    }
}

/// Whether buffer index `i` lies in a lit segment of one of the up to
/// three digits of the frame-rate readout: leading digits appear only once
/// the value reaches their decade, and the value is capped at 999.
pub open spec fn fps_digit_covers(fb: FrameBuffer, fps: u32, i: int) -> bool {
    let v: int = if fps > 999 {
        999
    } else {
        fps as int
    };
    ||| (v >= 100 && digit_covers(fb, 6, 6, (v / 100) as u8, 2, i))
    ||| (v >= 10 && digit_covers(fb, 20, 6, ((v / 10) % 10) as u8, 2, i))
    ||| digit_covers(fb, 34, 6, (v % 10) as u8, 2, i)
}

/// Draws the frame-rate readout into a back buffer: a translucent box in
/// the panel corner and up to three white seven-segment digits, the value
/// capped at 999. The caller presents the buffer afterwards by swapping,
/// so the readout is never drawn into the buffer being scanned.
pub fn draw_fps_overlay(fb: &mut FrameBuffer, fps: u32)
    requires
        old(fb).wf(),
    ensures
        final(fb).wf(),
        final(fb).width == old(fb).width,
        final(fb).height == old(fb).height,
        forall|i: int|
            0 <= i < final(fb).pixels@.len() ==> final(fb).pixels@[i] == (if fps_digit_covers(
                *old(fb),
                fps,
                i,
            ) {
                0xFFFFFFFFu32
            } else if panel_rect_covers(*old(fb), 4, 4, 44, 24, i) {
                0xC0000000u32
            } else {
                old(fb).pixels@[i]
            }),
{
    let ghost pre = *old(fb);
    let s: u32 = 2;
    let x0: u32 = 4;
    let y0: u32 = 4;
    let box_w: u32 = 6 * s * 3 + s * 4;
    let box_h: u32 = 10 * s + s * 2;
    draw_rect_buf(fb, x0, y0, box_w, box_h, 0xC0000000);
    let v: u32 = if fps > 999 {
        999
    } else {
        fps
    };
    let d2: u8 = (v / 100) as u8;
    let d1: u8 = ((v / 10) % 10) as u8;
    let d0: u8 = (v % 10) as u8;
    let ghost vi: int = v as int;
    let mut x: u32 = x0 + s;
    if v >= 100 {
        draw_digit_buf(fb, x, y0 + s, d2, s, 0xFFFFFFFF);
    }
    proof {
        assert forall|i: int| 0 <= i < fb.pixels@.len() implies fb.pixels@[i] == (if (vi >= 100
            && digit_covers(pre, 6, 6, (vi / 100) as u8, 2, i)) {
            0xFFFFFFFFu32
        } else if panel_rect_covers(pre, 4, 4, 44, 24, i) {
            0xC0000000u32
        } else {
            pre.pixels@[i]
        }) by {}
    }
    x = x + 6 * s + s;
    if v >= 10 {
        draw_digit_buf(fb, x, y0 + s, d1, s, 0xFFFFFFFF);
    }
    proof {
        assert forall|i: int| 0 <= i < fb.pixels@.len() implies fb.pixels@[i] == (if (vi >= 100
            && digit_covers(pre, 6, 6, (vi / 100) as u8, 2, i)) || (vi >= 10 && digit_covers(
            pre,
            20,
            6,
            ((vi / 10) % 10) as u8,
            2,
            i,
        )) {
            0xFFFFFFFFu32
        } else if panel_rect_covers(pre, 4, 4, 44, 24, i) {
            0xC0000000u32
        } else {
            pre.pixels@[i]
        }) by {}
    }
    x = x + 6 * s + s;
    draw_digit_buf(fb, x, y0 + s, d0, s, 0xFFFFFFFF);
    proof {
        assert forall|i: int| 0 <= i < fb.pixels@.len() implies fb.pixels@[i] == (
        if fps_digit_covers(pre, fps, i) {
            0xFFFFFFFFu32
        } else if panel_rect_covers(pre, 4, 4, 44, 24, i) {
            0xC0000000u32
        } else {
            pre.pixels@[i]
        }) by {}
    }
}

} // verus!
