//! Bitmap text: fixed-cell fonts drawn glyph by glyph, left to right, with
//! line wrapping in the logical drawing space.
//!
//! A font stores one word per glyph row, 95 printable glyphs (ASCII 32 to
//! 126) back to back. Within a row word, bit 0 is the leftmost pixel and
//! higher bits move right — the single bit-testing convention of this
//! library. A character outside the printable range, or one whose rows lie
//! past the end of the font data, is drawn as a solid block so that bad
//! input stays visible instead of vanishing.

use crate::color::argb_of_rgb565;
use crate::color::rgb565_to_argb8888;
use crate::blit::Coord;
use crate::fb::FrameBuffer;
use vstd::prelude::*;

verus! {

/// A fixed-cell bitmap font.
pub struct Font {
    /// Glyph cell width in pixels, at most 16 (one row word per row).
    pub width: usize,
    /// Glyph cell height in pixels.
    pub height: usize,
    /// Row words of the 95 printable glyphs, glyph after glyph.
    pub data: Vec<u16>,
}

impl Font {
    /// Well-formed: a cell fits its row word and stays small enough for
    /// index arithmetic.
    pub open spec fn wf(&self) -> bool {
        &&& 1 <= self.width <= 16
        &&& 1 <= self.height <= 64
    }
}

/// Logical x coordinate shown at buffer index `i` of a buffer with the
/// given panel dimensions.
pub open spec fn gx_at(width: int, height: int, i: int) -> int {
    height - 1 - i / width
}

/// Logical y coordinate shown at buffer index `i`.
pub open spec fn gy_at(width: int, i: int) -> int {
    i % width
}

/// Row word for glyph row `r` of character `ch`: the stored word for a
/// printable character whose rows lie inside the font data, the solid
/// fallback block otherwise.
pub open spec fn glyph_row(font: Font, ch: u8, r: int) -> u16 {
    if 32 <= ch <= 126 && (ch as int - 32) * font.height + r < font.data@.len() {
        font.data@[(ch as int - 32) * font.height + r]
    } else {
        0xFFFF
    }
}

/// Bit `j` of a glyph row word, tested least-significant-bit first: bit 0
/// is the leftmost pixel of the row.
pub open spec fn glyph_bit(b: u16, j: int) -> bool {
    b & (1u16 << (j as u16)) != 0
}

/// Colour drawn at glyph cell `(gx - x, gy - y)`: the foreground where the
/// glyph bit is set, the background elsewhere.
pub open spec fn char_val(
    width: int,
    height: int,
    x: int,
    y: int,
    ch: u8,
    font: Font,
    color: u16,
    bg: u16,
    i: int,
) -> u32 {
    let gx = gx_at(width, height, i);
    let gy = gy_at(width, i);
    if glyph_bit(glyph_row(font, ch, gy - y), gx - x) {
        argb_of_rgb565(color)
    } else {
        argb_of_rgb565(bg)
    }
}

/// Whether buffer index `i` lies in the glyph cell drawn at `(x, y)`.
pub open spec fn char_covers(
    width: int,
    height: int,
    x: int,
    y: int,
    font: Font,
    i: int,
) -> bool {
    &&& x <= gx_at(width, height, i) < x + font.width
    &&& y <= gy_at(width, i) < y + font.height
}

/// Buffer contents after one glyph is drawn at `(x, y)`.
pub open spec fn apply_char(
    width: int,
    height: int,
    pixels: Seq<u32>,
    x: int,
    y: int,
    ch: u8,
    font: Font,
    color: u16,
    bg: u16,
) -> Seq<u32> {
    Seq::new(
        pixels.len(),
        |i: int|
            if char_covers(width, height, x, y, font, i) {
                char_val(width, height, x, y, ch, font, color, bg, i)
            } else {
                pixels[i]
            },
    )
}

/// Buffer contents after a whole string is laid out from pen position
/// `(x, y)`: glyphs advance left to right; a glyph that would cross the
/// right edge wraps the pen to the next line, a space reaching the buffer
/// as the first character of a wrapped line is dropped, and a wrap that
/// would cross the bottom edge stops the layout altogether.
pub open spec fn apply_text(
    width: int,
    height: int,
    pixels: Seq<u32>,
    text: Seq<u8>,
    x: int,
    y: int,
    font: Font,
    color: u16,
    bg: u16,
) -> Seq<u32>
    decreases text.len(),
{
    if text.len() == 0 {
        pixels
    } else {
        let ch = text[0];
        let fw = font.width as int;
        let fh = font.height as int;
        if x + fw >= height {
            let y2 = y + fh;
            if y2 + fh >= width {
                pixels
            } else if ch == 32 {
                apply_text(width, height, pixels, text.skip(1), 0, y2, font, color, bg)
            } else {
                apply_text(
                    width,
                    height,
                    apply_char(width, height, pixels, 0, y2, ch, font, color, bg),
                    text.skip(1),
                    fw,
                    y2,
                    font,
                    color,
                    bg,
                )
            }
        } else {
            apply_text(
                width,
                height,
                apply_char(width, height, pixels, x, y, ch, font, color, bg),
                text.skip(1),
                x + fw,
                y,
                font,
                color,
                bg,
            )
        }
    }
}

/// Progress predicate of the glyph pixel loop.
spec fn char_before(width: int, height: int, x: int, y: int, row: int, col: int, i: int) -> bool {
    ||| gy_at(width, i) - y < row
    ||| (gy_at(width, i) - y == row && gx_at(width, height, i) - x < col)
}

/// Draws one glyph cell at logical position `(x, y)`: foreground colour
/// where the glyph bit is set, background elsewhere, clipped to the buffer.
pub fn write_char(fb: &mut FrameBuffer, x: usize, y: usize, ch: u8, font: &Font, color: u16, bgcolor: u16)
    requires
        old(fb).wf(),
        font.wf(),
        x <= 0x8000_0000,
        y <= 0x8000_0000,
    ensures
        final(fb).wf(),
        final(fb).width == old(fb).width,
        final(fb).height == old(fb).height,
        final(fb).pixels@ == apply_char(
            old(fb).width as int,
            old(fb).height as int,
            old(fb).pixels@,
            x as int,
            y as int,
            ch,
            *font,
            color,
            bgcolor,
        ),
{
    let ghost pre = *old(fb);
    let ghost wd = pre.width as int;
    let ghost hg = pre.height as int;
    let ghost xi = x as int;
    let ghost yi = y as int;
    let fg: u32 = rgb565_to_argb8888(color);
    let bg: u32 = rgb565_to_argb8888(bgcolor);
    let gw: usize = fb.height;
    let gh: usize = fb.width;
    let mut row: usize = 0;
    while row < font.height
        invariant
            pre.wf(),
            font.wf(),
            fb.wf(),
            fb.width == pre.width,
            fb.height == pre.height,
            wd == pre.width as int && hg == pre.height as int && xi == x as int && yi == y as int,
            x <= 0x8000_0000 && y <= 0x8000_0000,
            gw == pre.height && gh == pre.width,
            fg == argb_of_rgb565(color),
            bg == argb_of_rgb565(bgcolor),
            row <= font.height,
            forall|i: int|
                0 <= i < fb.pixels@.len() ==> fb.pixels@[i] == (if char_covers(wd, hg, xi, yi, *font, i)
                    && char_before(wd, hg, xi, yi, row as int, 0, i) {
                    char_val(wd, hg, xi, yi, ch, *font, color, bgcolor, i)
                } else {
                    pre.pixels@[i]
                }),
        decreases font.height - row,
    {
        let b: u16 = if ch >= 32 && ch <= 126 {
            proof {
                assert((ch - 32) as usize * font.height <= 94 * 64) by (nonlinear_arith)
                    requires
                        32 <= ch <= 126 && font.height <= 64,
                ;
            }
            let ri: usize = (ch - 32) as usize * font.height + row;
            if ri < font.data.len() {
                font.data[ri]
            } else {
                0xFFFF
            }
        } else {
            0xFFFF
        };
        assert(b == glyph_row(*font, ch, row as int));
        let mut col: usize = 0;
        while col < font.width
            invariant
                pre.wf(),
                font.wf(),
                fb.wf(),
                fb.width == pre.width,
                fb.height == pre.height,
                wd == pre.width as int && hg == pre.height as int && xi == x as int && yi
                    == y as int,
                x <= 0x8000_0000 && y <= 0x8000_0000,
                gw == pre.height && gh == pre.width,
                fg == argb_of_rgb565(color),
                bg == argb_of_rgb565(bgcolor),
                row < font.height,
                col <= font.width,
                b == glyph_row(*font, ch, row as int),
                forall|i: int|
                    0 <= i < fb.pixels@.len() ==> fb.pixels@[i] == (if char_covers(
                        wd,
                        hg,
                        xi,
                        yi,
                        *font,
                        i,
                    ) && char_before(wd, hg, xi, yi, row as int, col as int, i) {
                        char_val(wd, hg, xi, yi, ch, *font, color, bgcolor, i)
                    } else {
                        pre.pixels@[i]
                    }),
            decreases font.width - col,
        {
            let gx: usize = x + col;
            let gy: usize = y + row;
            let ghost snap = fb.pixels@;
            if gx < gw && gy < gh {
                let on: bool = (b & (1u16 << (col as u16))) != 0;
                let px: u32 = if on {
                    fg
                } else {
                    bg
                };
                fb.set_game_pixel(gx, gy, px);
                proof {
                    pre.lemma_pidx_bijective(gx as int, gy as int);
                }
            }
            proof {
                assert forall|i: int| 0 <= i < fb.pixels@.len() implies fb.pixels@[i] == (
                if char_covers(wd, hg, xi, yi, *font, i) && char_before(
                    wd,
                    hg,
                    xi,
                    yi,
                    row as int,
                    col as int + 1,
                    i,
                ) {
                    char_val(wd, hg, xi, yi, ch, *font, color, bgcolor, i)
                } else {
                    pre.pixels@[i]
                }) by {
                    pre.lemma_index_coords(i);
                    if gx < gw && gy < gh && i == pre.pidx(gx as int, gy as int) {
                        pre.lemma_pidx_bijective(gx as int, gy as int);
                    } else {
                        assert(fb.pixels@[i] == snap[i]);
                    }
                }
            }
            col = col + 1;
        }
        proof {
            assert forall|i: int| 0 <= i < fb.pixels@.len() implies (char_covers(
                wd,
                hg,
                xi,
                yi,
                *font,
                i,
            ) && char_before(wd, hg, xi, yi, row as int, font.width as int, i)) == (char_covers(
                wd,
                hg,
                xi,
                yi,
                *font,
                i,
            ) && char_before(wd, hg, xi, yi, row as int + 1, 0, i)) by {}
        }
        row = row + 1;
    }
    proof {
        assert forall|i: int| 0 <= i < fb.pixels@.len() implies (char_covers(wd, hg, xi, yi, *font, i)
            && char_before(wd, hg, xi, yi, font.height as int, 0, i)) == char_covers(
            wd,
            hg,
            xi,
            yi,
            *font,
            i,
        ) by {}
        assert(fb.pixels@ =~= apply_char(wd, hg, pre.pixels@, xi, yi, ch, *font, color, bgcolor));
    }
}

/// Draws a string of bytes from logical position `(x, y)`: glyphs advance
/// left to right, wrap to the next line at the right edge (dropping a space
/// that would start the new line), and stop once a wrapped line would cross
/// the bottom edge. A negative start position draws nothing.
pub fn write_string_rust(
    fb: &mut FrameBuffer,
    x: Coord,
    y: Coord,
    text: &[u8],
    font: &Font,
    color: u16,
    bgcolor: u16,
)
    requires
        old(fb).wf(),
        font.wf(),
    ensures
        final(fb).wf(),
        final(fb).width == old(fb).width,
        final(fb).height == old(fb).height,
        0 <= x && 0 <= y ==> final(fb).pixels@ == apply_text(
            old(fb).width as int,
            old(fb).height as int,
            old(fb).pixels@,
            text@,
            x as int,
            y as int,
            *font,
            color,
            bgcolor,
        ),
        !(0 <= x && 0 <= y) ==> final(fb).pixels@ == old(fb).pixels@,
{
    let ghost pre = *old(fb);
    let ghost wd = pre.width as int;
    let ghost hg = pre.height as int;
    if x < 0 || y < 0 {
        return ;
    }
    let mut cx: usize = x as usize;
    let mut cy: usize = y as usize;
    let ghost target = apply_text(
        wd,
        hg,
        pre.pixels@,
        text@,
        x as int,
        y as int,
        *font,
        color,
        bgcolor,
    );
    let gw: usize = fb.height;
    let gh: usize = fb.width;
    let n: usize = text.len();
    let mut k: usize = 0;
    proof {
        assert(text@.skip(0) =~= text@);
    }
    while k < n
        invariant_except_break
            pre.wf(),
            font.wf(),
            fb.wf(),
            fb.width == pre.width,
            fb.height == pre.height,
            gw == pre.height && gh == pre.width,
            wd == pre.width as int && hg == pre.height as int,
            n == text@.len(),
            k <= n,
            cx <= 0x8000_0000,
            cy <= 0x8000_0000,
            apply_text(wd, hg, fb.pixels@, text@.skip(k as int), cx as int, cy as int, *font, color, bgcolor)
                == target,
        ensures
            fb.wf(),
            fb.width == pre.width,
            fb.height == pre.height,
            fb.pixels@ == target,
        decreases n - k,
    {
        let ch: u8 = text[k];
        let ghost icx = cx as int;
        let ghost icy = cy as int;
        let ghost s = text@.skip(k as int);
        proof {
            assert(s.len() == n - k);
            assert(s[0] == text@[k as int]);
            assert(s.skip(1) =~= text@.skip(k as int + 1));
        }
        if cx + font.width >= gw {
            cx = 0;
            let y2: usize = cy + font.height;
            if y2 + font.height >= gh {
                proof {
                    assert(apply_text(wd, hg, fb.pixels@, s, icx, icy, *font, color, bgcolor)
                        == fb.pixels@);
                }
                break ;
            }
            cy = y2;
            if ch == 32 {
                k = k + 1;
                continue ;
            }
        }
        let ghost snap = fb.pixels@;
        let ghost dx = cx as int;
        let ghost dy = cy as int;
        write_char(fb, cx, cy, ch, font, color, bgcolor);
        proof {
            assert(apply_text(wd, hg, snap, s, icx, icy, *font, color, bgcolor) == apply_text(
                wd,
                hg,
                fb.pixels@,
                s.skip(1),
                dx + font.width as int,
                dy,
                *font,
                color,
                bgcolor,
            ));
        }
        cx = cx + font.width;
        k = k + 1;
    }
}

} // verus!
