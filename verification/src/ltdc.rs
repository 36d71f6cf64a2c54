//! Layer compositor state: which primary buffer is front, where the
//! overlay viewport sits, and the two-phase shadow-register protocol.
//!
//! Hardware commits configuration at the vertical blank: software first
//! *stages* a value (the register write), and the scan-out path only sees
//! it once the pending reload *commits* at the next blank. The driver model
//! keeps both copies of every shadowed value, so staged-but-uncommitted
//! state is explicit. Swapping the primary buffers stages the back
//! buffer's address and flips the software front/back bookkeeping at once;
//! the scan-out path never observes an intermediate state because the
//! commit point is the blank, not the write. Overlay moves use the same
//! vertical-blank reload: only the viewport position changes, not the
//! overlay content, so a frame of latency is preferred over any tear risk.

use crate::timing::ConfigError;
use crate::timing::LayerPitch;
use crate::timing::LayerWindow;
use crate::timing::TimingParams;
use crate::timing::TimingRegs;
use crate::timing::compute_timing_regs;
use crate::timing::layer_pitch;
use crate::timing::layer_window;
use crate::timing::spec_layer_window;
use crate::timing::spec_timing_regs;
use crate::timing::timing_fits;
use crate::timing::timing_nonzero;
use crate::timing::timing_valid;
use crate::timing::window_fits;
use vstd::prelude::*;

verus! {

/// Panel width in pixels (native portrait scan).
pub const LCD_WIDTH: u32 = 240;

/// Panel height in pixels.
pub const LCD_HEIGHT: u32 = 320;

/// Horizontal sync width, back porch and front porch in pixel clocks.
pub const HSYNC: u32 = 10;

pub const HBP: u32 = 20;

pub const HFP: u32 = 10;

/// Vertical sync width, back porch and front porch in lines.
pub const VSYNC: u32 = 2;

pub const VBP: u32 = 2;

pub const VFP: u32 = 4;

/// Base of the external frame store.
pub const SDRAM_BASE: u32 = 0xD000_0000;

/// Bytes per pixel of the primary layer (8-8-8-8).
pub const LAYER1_BPP: u32 = 4;

/// Bytes of one primary buffer.
pub const LAYER1_SIZE: u32 = LCD_WIDTH * LCD_HEIGHT * LAYER1_BPP;

/// Overlay square side, extents and bytes per pixel (8-8-8-8).
pub const LAYER2_SIDE: u32 = 64;

pub const LAYER2_W: u32 = LAYER2_SIDE;

pub const LAYER2_H: u32 = LAYER2_SIDE;

pub const LAYER2_BPP: u32 = 4;

/// Bytes of the overlay buffer.
pub const LAYER2_SIZE: u32 = LAYER2_W * LAYER2_H * LAYER2_BPP;

/// First primary buffer: at the base of the frame store.
pub const LAYER1_BASE: u32 = SDRAM_BASE;

/// Overlay buffer: right after the first primary buffer.
pub const LAYER2_BASE: u32 = LAYER1_BASE + LAYER1_SIZE;

/// Second primary buffer: right after the overlay buffer.
pub const LAYER1_BASE_B: u32 = LAYER2_BASE + LAYER2_SIZE;

/// The frame store carved into its three buffers, in order: primary front,
/// overlay, primary back.
#[derive(Copy, Clone, Debug, PartialEq, Eq, Structural)]
pub struct FrameLayout {
    pub layer1_a: u32,
    pub layer2: u32,
    pub layer1_b: u32,
}

/// Subdivides a frame store of known base into the two primary buffers and
/// the overlay buffer, back to back and therefore never overlapping.
pub fn frame_layout(base: u32, l1_size: u32, l2_size: u32) -> (lay: FrameLayout)
    requires
        base + l1_size + l2_size + l1_size <= u32::MAX,
    ensures
        lay.layer1_a == base,
        lay.layer2 == base + l1_size,
        lay.layer1_b == base + l1_size + l2_size,
        lay.layer1_a + l1_size <= lay.layer2,
        lay.layer2 + l2_size <= lay.layer1_b,
        lay.layer1_b + l1_size <= u32::MAX,
        l1_size >= 1 ==> lay.layer1_a != lay.layer1_b,
{
    FrameLayout { layer1_a: base, layer2: base + l1_size, layer1_b: base + l1_size + l2_size }
}

/// A position clamped so a viewport of the given extent stays on-panel:
/// anything past `max` lands exactly on `max`.
pub open spec fn clamp_pos(v: int, max: int) -> int {
    if v > max {
        max
    } else {
        v
    }
}

/// The compositor's view of the timing controller and the two layers:
/// computed configuration, software front/back bookkeeping, and the staged
/// and committed copy of every shadow-registered value.
#[derive(Copy, Clone, Debug, PartialEq, Eq, Structural)]
pub struct LcdDriver {
    /// Panel timing the configuration was computed from.
    pub params: TimingParams,
    /// Computed sync/porch/active window registers.
    pub timing: TimingRegs,
    /// Primary layer full-panel window and pitch.
    pub l1_window: LayerWindow,
    pub l1_pitch: LayerPitch,
    /// Overlay extent and pitch.
    pub l2_w: u32,
    pub l2_h: u32,
    pub l2_pitch: LayerPitch,
    /// Addresses of the two primary buffers and the overlay buffer.
    pub l1_addr_a: u32,
    pub l1_addr_b: u32,
    pub l2_addr: u32,
    /// Software bookkeeping: which primary buffer is front.
    pub l1_front_is_a: bool,
    /// Staged and committed primary scan address.
    pub l1_addr_staged: u32,
    pub l1_addr_committed: u32,
    /// Staged and committed overlay window.
    pub l2_window_staged: LayerWindow,
    pub l2_window_committed: LayerWindow,
    /// Staged and committed overlay constant alpha.
    pub l2_alpha_staged: u8,
    pub l2_alpha_committed: u8,
    /// A staged value awaits the next vertical blank.
    pub reload_pending: bool,
    /// Scan-out running.
    pub enabled: bool,
}

impl LcdDriver {
    /// Address of the buffer the software bookkeeping holds as front.
    pub open spec fn front_addr(&self) -> u32 {
        if self.l1_front_is_a {
            self.l1_addr_a
        } else {
            self.l1_addr_b
        }
    }

    /// Address of the writable back buffer: always the other one.
    pub open spec fn back_addr(&self) -> u32 {
        if self.l1_front_is_a {
            self.l1_addr_b
        } else {
            self.l1_addr_a
        }
    }

    /// Driver invariant: the configuration is the one its parameters
    /// compute to, the two primary buffers are distinct, the staged scan
    /// address always names the bookkeeping front, and with no reload
    /// pending the committed address agrees with the staged one.
    pub open spec fn wf(&self) -> bool {
        &&& timing_valid(self.params)
        &&& self.timing == spec_timing_regs(self.params)
        &&& 1 <= self.l2_w <= self.params.active_w
        &&& 1 <= self.l2_h <= self.params.active_h
        &&& self.l1_addr_a != self.l1_addr_b
        &&& self.l1_addr_staged == self.front_addr()
        &&& (self.l1_addr_committed == self.l1_addr_a || self.l1_addr_committed
            == self.l1_addr_b)
        &&& (!self.reload_pending ==> self.l1_addr_committed == self.l1_addr_staged)
    }

    /// The driver after a primary buffer swap: the back buffer's address is
    /// staged for the scan-out path and the front/back roles flip; nothing
    /// committed changes until the next vertical blank.
    pub open spec fn spec_swap(self) -> LcdDriver {
        LcdDriver {
            l1_front_is_a: !self.l1_front_is_a,
            l1_addr_staged: self.back_addr(),
            reload_pending: true,
            ..self
        }
    }

    /// The driver after the vertical blank commits every staged value.
    pub open spec fn spec_commit(self) -> LcdDriver {
        LcdDriver {
            l1_addr_committed: self.l1_addr_staged,
            l2_window_committed: self.l2_window_staged,
            l2_alpha_committed: self.l2_alpha_staged,
            reload_pending: false,
            ..self
        }
    }

    /// The driver after an overlay move to `(x, y)`, clamped so the
    /// overlay viewport stays fully on-panel.
    pub open spec fn spec_move(self, x: int, y: int) -> LcdDriver {
        LcdDriver {
            l2_window_staged: spec_layer_window(
                self.params,
                clamp_pos(x, self.params.active_w - self.l2_w),
                clamp_pos(y, self.params.active_h - self.l2_h),
                self.l2_w as int,
                self.l2_h as int,
            ),
            reload_pending: true,
            ..self
        }
    }

    /// The driver after a new overlay constant alpha is staged.
    pub open spec fn spec_set_alpha(self, alpha: u8) -> LcdDriver {
        LcdDriver { l2_alpha_staged: alpha, reload_pending: true, ..self }
    }

    /// Computes the full configuration: timing windows, the primary
    /// layer's full-panel window and pitch, the overlay's initial window at
    /// the panel origin and its pitch, both scan addresses on the first
    /// primary buffer, full opacity, everything committed and scan-out
    /// enabled. Rejects a timing configuration whose windows would be
    /// empty, out of register range, or whose line pitch would not fit.
    pub fn new(
        params: TimingParams,
        l2_w: u32,
        l2_h: u32,
        addr_a: u32,
        addr_b: u32,
        l2_addr: u32,
    ) -> (r: Result<LcdDriver, ConfigError>)
        requires
            addr_a != addr_b,
            1 <= l2_w,
            1 <= l2_h,
            l2_w <= params.active_w,
            l2_h <= params.active_h,
        ensures
            match r {
                Ok(d) => {
                    &&& timing_valid(params)
                    &&& params.active_w * LAYER1_BPP + 3 <= 0xFFFF
                    &&& d.wf()
                    &&& d.params == params
                    &&& d.timing == spec_timing_regs(params)
                    &&& d.l1_window == spec_layer_window(
                        params,
                        0,
                        0,
                        params.active_w as int,
                        params.active_h as int,
                    )
                    &&& d.l1_pitch.cfbp == params.active_w * LAYER1_BPP
                    &&& d.l1_pitch.cfbll == params.active_w * LAYER1_BPP + 3
                    &&& d.l1_pitch.lines == params.active_h
                    &&& d.l2_pitch.cfbp == l2_w * LAYER2_BPP
                    &&& d.l2_pitch.cfbll == l2_w * LAYER2_BPP + 3
                    &&& d.l2_pitch.lines == l2_h
                    &&& d.l2_w == l2_w && d.l2_h == l2_h
                    &&& d.l1_addr_a == addr_a && d.l1_addr_b == addr_b && d.l2_addr == l2_addr
                    &&& d.l1_front_is_a
                    &&& d.l1_addr_staged == addr_a && d.l1_addr_committed == addr_a
                    &&& d.back_addr() == addr_b
                    &&& d.l2_window_staged == spec_layer_window(
                        params,
                        0,
                        0,
                        l2_w as int,
                        l2_h as int,
                    )
                    &&& d.l2_window_committed == d.l2_window_staged
                    &&& d.l2_alpha_staged == 0xFF && d.l2_alpha_committed == 0xFF
                    &&& !d.reload_pending
                    &&& d.enabled
                },
                Err(e) => {
                    &&& !(timing_valid(params) && params.active_w * LAYER1_BPP + 3 <= 0xFFFF)
                    &&& (e == ConfigError::EmptyWindow <==> !timing_nonzero(params))
                    &&& (e == ConfigError::WindowOverflow <==> timing_nonzero(params) && !(
                    timing_fits(params) && params.active_w * LAYER1_BPP + 3 <= 0xFFFF))
                },
            },
    {
        let timing: TimingRegs = match compute_timing_regs(params) {
            Ok(t) => t,
            Err(e) => {
                return Err(e);
            },
        };
        if params.active_w > (0xFFFF - 3) / LAYER1_BPP {
            return Err(ConfigError::WindowOverflow);
        }
        let l1_window: LayerWindow = layer_window(params, 0, 0, params.active_w, params.active_h);
        let l1_pitch: LayerPitch = layer_pitch(params.active_w, LAYER1_BPP, params.active_h);
        let l2_window: LayerWindow = layer_window(params, 0, 0, l2_w, l2_h);
        let l2_pitch: LayerPitch = layer_pitch(l2_w, LAYER2_BPP, l2_h);
        Ok(
            LcdDriver {
                params,
                timing,
                l1_window,
                l1_pitch,
                l2_w,
                l2_h,
                l2_pitch,
                l1_addr_a: addr_a,
                l1_addr_b: addr_b,
                l2_addr,
                l1_front_is_a: true,
                l1_addr_staged: addr_a,
                l1_addr_committed: addr_a,
                l2_window_staged: l2_window,
                l2_window_committed: l2_window,
                l2_alpha_staged: 0xFF,
                l2_alpha_committed: 0xFF,
                reload_pending: false,
                enabled: true,
            },
        )
    }

    /// Address of the buffer callers may draw into: the one the scan-out
    /// path is not latched onto.
    pub fn layer1_back_addr(&self) -> (addr: u32)
        requires
            self.wf(),
        ensures
            addr == self.back_addr(),
            addr != self.front_addr(),
    {
        if self.l1_front_is_a {
            self.l1_addr_b
        } else {
            self.l1_addr_a
        }
    }

    /// Requests the primary buffer swap: stages the back buffer's address
    /// for the scan-out path and flips the software front/back roles. The
    /// committed address — what the panel still scans — only changes at the
    /// next vertical blank, so the swap is atomic for the scan-out path.
    pub fn swap_layer1_buffers(&mut self)
        requires
            old(self).wf(),
        ensures
            final(self).wf(),
            *final(self) == old(self).spec_swap(),
            final(self).back_addr() == old(self).front_addr(),
            final(self).front_addr() == old(self).back_addr(),
            final(self).l1_addr_staged == old(self).back_addr(),
            final(self).l1_addr_committed == old(self).l1_addr_committed,
            final(self).reload_pending,
    {
        let new_front: u32 = self.layer1_back_addr();
        self.l1_addr_staged = new_front;
        self.reload_pending = true;
        self.l1_front_is_a = !self.l1_front_is_a;
    }

    /// The vertical blank: every staged value becomes the committed one the
    /// scan-out path uses, and no reload is pending any more.
    pub fn commit_vblank(&mut self)
        requires
            old(self).wf(),
        ensures
            final(self).wf(),
            *final(self) == old(self).spec_commit(),
            final(self).l1_addr_committed == old(self).l1_addr_staged,
            final(self).l2_window_committed == old(self).l2_window_staged,
            final(self).l2_alpha_committed == old(self).l2_alpha_staged,
            !final(self).reload_pending,
    {
        self.l1_addr_committed = self.l1_addr_staged;
        self.l2_window_committed = self.l2_window_staged;
        self.l2_alpha_committed = self.l2_alpha_staged;
        self.reload_pending = false;
    }

    /// Moves the overlay viewport: the position is clamped so the viewport
    /// stays fully on-panel, and the new window registers are staged for
    /// the next vertical blank. Only the position changes — the overlay
    /// content is untouched — so the blank's frame of latency costs nothing
    /// visible and removes any tear risk.
    pub fn set_layer2_position(&mut self, x: u32, y: u32)
        requires
            old(self).wf(),
        ensures
            final(self).wf(),
            *final(self) == old(self).spec_move(x as int, y as int),
            final(self).l2_window_staged == spec_layer_window(
                old(self).params,
                clamp_pos(x as int, old(self).params.active_w - old(self).l2_w),
                clamp_pos(y as int, old(self).params.active_h - old(self).l2_h),
                old(self).l2_w as int,
                old(self).l2_h as int,
            ),
            final(self).l2_window_committed == old(self).l2_window_committed,
            final(self).reload_pending,
    {
        let max_x: u32 = self.params.active_w - self.l2_w;
        let max_y: u32 = self.params.active_h - self.l2_h;
        let cx: u32 = if x > max_x {
            max_x
        } else {
            x
        };
        let cy: u32 = if y > max_y {
            max_y
        } else {
            y
        };
        let win: LayerWindow = layer_window(self.params, cx, cy, self.l2_w, self.l2_h);
        self.l2_window_staged = win;
        self.reload_pending = true;
    }

    /// Stages a new overlay constant alpha, applied at the next reload.
    pub fn set_layer2_alpha(&mut self, alpha: u8)
        requires
            old(self).wf(),
        ensures
            final(self).wf(),
            *final(self) == old(self).spec_set_alpha(alpha),
            final(self).l2_alpha_staged == alpha,
            final(self).l2_alpha_committed == old(self).l2_alpha_committed,
            final(self).reload_pending,
    {
        self.l2_alpha_staged = alpha;
        self.reload_pending = true;
    }
}

/// Double-buffer law: one swap makes the writable buffer a different one —
/// the previous front — and a second swap restores the original
/// front/back assignment.
pub proof fn lemma_swap_round_trip(d: LcdDriver)
    requires
        d.wf(),
    ensures
        d.spec_swap().back_addr() != d.back_addr(),
        d.spec_swap().back_addr() == d.front_addr(),
        d.spec_swap().spec_swap().back_addr() == d.back_addr(),
        d.spec_swap().spec_swap().front_addr() == d.front_addr(),
{
}

/// Overlay clamping law: a requested position at most the panel slack is
/// kept as it is, one past the slack lands exactly on the slack, and the
/// clamped position never leaves `[0, max]`.
pub proof fn lemma_overlay_clamp(v: int, max: int)
    requires
        0 <= v,
        0 <= max,
    ensures
        0 <= clamp_pos(v, max) <= max,
        v <= max ==> clamp_pos(v, max) == v,
        v > max ==> clamp_pos(v, max) == max,
{
}

} // verus!
