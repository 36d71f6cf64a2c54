//! The in-memory pixel buffer a layer scans out of, and the fixed remap
//! between the logical (drawing) coordinate space and the panel's native
//! scan orientation.
//!
//! The panel is scanned in portrait orientation (`width` pixels per line,
//! `height` lines) while callers draw in a landscape logical space. The two
//! are related by a fixed 90-degree rotation: logical `(gx, gy)` lands on
//! panel column `gy` of panel line `game_width - 1 - gx`.

use vstd::arithmetic::div_mod::lemma_fundamental_div_mod;
use vstd::arithmetic::div_mod::lemma_fundamental_div_mod_converse;
use vstd::prelude::*;

verus! {

/// One fixed-size pixel buffer: row-major 8-8-8-8 words, `width` per panel
/// scan line.
pub struct FrameBuffer {
    /// Panel-space width in pixels (words per scan line).
    pub width: usize,
    /// Panel-space height in pixels (number of scan lines).
    pub height: usize,
    /// The pixel words, line after line.
    pub pixels: Vec<u32>,
}

impl FrameBuffer {
    /// Well-formed: one word per pixel, and dimensions small enough that
    /// every index computation fits in a machine word.
    pub open spec fn wf(&self) -> bool {
        &&& self.pixels.len() == self.width * self.height
        &&& 1 <= self.width <= 4096
        &&& 1 <= self.height <= 4096
    }

    /// Width of the logical drawing space: the panel height, since the
    /// logical space is the panel rotated 90 degrees.
    pub open spec fn game_width(&self) -> int {
        self.height as int
    }

    /// Height of the logical drawing space: the panel width.
    pub open spec fn game_height(&self) -> int {
        self.width as int
    }

    /// Buffer index that logical coordinate `(gx, gy)` lands on under the
    /// fixed remap: panel column `gy` of panel line `game_width - 1 - gx`.
    pub open spec fn pidx(&self, gx: int, gy: int) -> int {
        (self.game_width() - 1 - gx) * self.width + gy
    }

    /// Logical x coordinate shown at buffer index `i`.
    pub open spec fn gx_of(&self, i: int) -> int {
        self.game_width() - 1 - i / (self.width as int)
    }

    /// Logical y coordinate shown at buffer index `i`.
    pub open spec fn gy_of(&self, i: int) -> int {
        i % (self.width as int)
    }

    /// The remap hits every buffer word exactly once: a logical coordinate
    /// maps to a valid index, and that index maps back to it.
    pub proof fn lemma_pidx_bijective(&self, gx: int, gy: int)
        requires
            self.wf(),
            0 <= gx < self.game_width(),
            0 <= gy < self.game_height(),
        ensures
            0 <= self.pidx(gx, gy) < self.pixels.len(),
            self.gx_of(self.pidx(gx, gy)) == gx,
            self.gy_of(self.pidx(gx, gy)) == gy,
    {
        let w = self.width as int;
        let h = self.height as int;
        let q = h - 1 - gx;
        let i = q * w + gy;
        assert(0 <= q < h);
        assert(q * w + gy < h * w && 0 <= q * w) by (nonlinear_arith)
            requires
                0 <= q < h && 0 <= gy < w,
        ;
        assert(h * w == w * h) by (nonlinear_arith);
        lemma_fundamental_div_mod_converse(i, w, q, gy);
    }

    /// Every buffer index shows exactly one logical coordinate, and mapping
    /// that coordinate forward gives the index back.
    pub proof fn lemma_index_coords(&self, i: int)
        requires
            self.wf(),
            0 <= i < self.pixels.len(),
        ensures
            0 <= self.gx_of(i) < self.game_width(),
            0 <= self.gy_of(i) < self.game_height(),
            self.pidx(self.gx_of(i), self.gy_of(i)) == i,
    {
        let w = self.width as int;
        let h = self.height as int;
        lemma_fundamental_div_mod(i, w);
        let q = i / w;
        let r = i % w;
        assert(0 <= r < w);
        assert(q >= 0) by (nonlinear_arith)
            requires
                i >= 0 && w > 0 && i == w * q + r && 0 <= r < w,
        ;
        assert(q < h) by (nonlinear_arith)
            requires
                i < w * h && w > 0 && i == w * q + r && 0 <= r < w && q >= 0,
        ;
        assert(q * w == w * q) by (nonlinear_arith);
        assert(self.pidx(self.gx_of(i), self.gy_of(i)) == q * w + r);
    }

    /// Reads the pixel at logical coordinate `(gx, gy)`.
    pub fn get_game_pixel(&self, gx: usize, gy: usize) -> (p: u32)
        requires
            self.wf(),
            gx < self.game_width(),
            gy < self.game_height(),
        ensures
            p == self.pixels@[self.pidx(gx as int, gy as int)],
    {
        proof {
            self.lemma_pidx_bijective(gx as int, gy as int);
        }
        let i: usize = (self.height - 1 - gx) * self.width + gy;
        self.pixels[i]
    }

    /// Writes the pixel at logical coordinate `(gx, gy)`.
    pub fn set_game_pixel(&mut self, gx: usize, gy: usize, p: u32)
        requires
            old(self).wf(),
            gx < old(self).game_width(),
            gy < old(self).game_height(),
        ensures
            final(self).wf(),
            final(self).width == old(self).width,
            final(self).height == old(self).height,
            final(self).pixels@ == old(self).pixels@.update(
                old(self).pidx(gx as int, gy as int),
                p,
            ),
    {
        proof {
            self.lemma_pidx_bijective(gx as int, gy as int);
        }
        let i: usize = (self.height - 1 - gx) * self.width + gy;
        self.pixels.set(i, p);
    }

    /// Panel line (row) shown at buffer index `i`.
    pub open spec fn prow(&self, i: int) -> int {
        i / (self.width as int)
    }

    /// Panel column shown at buffer index `i`.
    pub open spec fn pcol(&self, i: int) -> int {
        i % (self.width as int)
    }

    /// Row-major panel addressing hits every buffer word exactly once: a
    /// panel coordinate maps to a valid index, and that index maps back.
    pub proof fn lemma_panel_bijective(&self, r: int, c: int)
        requires
            self.wf(),
            0 <= r < self.height,
            0 <= c < self.width,
        ensures
            0 <= r * self.width + c < self.pixels.len(),
            self.prow(r * self.width + c) == r,
            self.pcol(r * self.width + c) == c,
    {
        let w = self.width as int;
        let h = self.height as int;
        assert(r * w + c < h * w && 0 <= r * w) by (nonlinear_arith)
            requires
                0 <= r < h && 0 <= c < w,
        ;
        assert(h * w == w * h) by (nonlinear_arith);
        lemma_fundamental_div_mod_converse(r * w + c, w, r, c);
    }

    /// Every buffer index shows exactly one panel coordinate.
    pub proof fn lemma_panel_coords(&self, i: int)
        requires
            self.wf(),
            0 <= i < self.pixels.len(),
        ensures
            0 <= self.prow(i) < self.height,
            0 <= self.pcol(i) < self.width,
            self.prow(i) * self.width + self.pcol(i) == i,
    {
        let w = self.width as int;
        let h = self.height as int;
        lemma_fundamental_div_mod(i, w);
        let q = i / w;
        let r = i % w;
        assert(q >= 0) by (nonlinear_arith)
            requires
                i >= 0 && w > 0 && i == w * q + r && 0 <= r < w,
        ;
        assert(q < h) by (nonlinear_arith)
            requires
                i < w * h && w > 0 && i == w * q + r && 0 <= r < w && q >= 0,
        ;
        assert(q * w == w * q) by (nonlinear_arith);
    }

    /// Writes the word at raw buffer index `i`.
    pub fn set_raw(&mut self, i: usize, p: u32)
        requires
            i < old(self).pixels.len(),
        ensures
            final(self).width == old(self).width,
            final(self).height == old(self).height,
            final(self).pixels@ == old(self).pixels@.update(i as int, p),
    {
        self.pixels.set(i, p);
    }

    /// Reads the word at raw buffer index `i`.
    pub fn get_raw(&self, i: usize) -> (p: u32)
        requires
            i < self.pixels.len(),
        ensures
            p == self.pixels@[i as int],
    {
        self.pixels[i]
    }

    /// Number of words in the buffer.
    pub fn len(&self) -> (n: usize)
        ensures
            n == self.pixels.len(),
    {
        self.pixels.len()
    }

    /// Allocates a buffer of the given panel dimensions with every pixel set
    /// to `fill`.
    pub fn new_filled(width: usize, height: usize, fill: u32) -> (fb: FrameBuffer)
        requires
            1 <= width <= 4096,
            1 <= height <= 4096,
        ensures
            fb.wf(),
            fb.width == width,
            fb.height == height,
            forall|i: int| 0 <= i < fb.pixels.len() ==> fb.pixels@[i] == fill,
    {
        proof {
            assert(width * height <= 4096 * 4096) by (nonlinear_arith)
                requires
                    1 <= width <= 4096 && 1 <= height <= 4096,
            ;
        }
        let n: usize = width * height;
        let mut pixels: Vec<u32> = Vec::new();
        while pixels.len() < n
            invariant
                pixels.len() <= n,
                forall|i: int| 0 <= i < pixels.len() ==> pixels@[i] == fill,
            decreases n - pixels.len(),
        {
            pixels.push(fill);
        }
        FrameBuffer { width, height, pixels }
    }
}

} // verus!
