//! Timing-controller register computation: sync, porch and active-area
//! widths become absolute window registers, accumulated in the fixed order
//! sync, back porch, active area, front porch.
//!
//! An invalid combination — a zero sync or active extent, or totals past
//! the register range — is rejected at configuration time rather than
//! programmed; scanning out of a mis-ordered window would corrupt the
//! image indefinitely.

use vstd::prelude::*;

verus! {

/// Panel electrical timing, all widths in pixel-clock units.
#[derive(Copy, Clone, Debug, PartialEq, Eq, Structural)]
pub struct TimingParams {
    pub hsync: u32,
    pub hbp: u32,
    pub active_w: u32,
    pub hfp: u32,
    pub vsync: u32,
    pub vbp: u32,
    pub active_h: u32,
    pub vfp: u32,
}

/// Absolute window registers of the timing controller: each field is the
/// last pixel-clock column (or line) of its region, counted from the start
/// of the sync pulse.
#[derive(Copy, Clone, Debug, PartialEq, Eq, Structural)]
pub struct TimingRegs {
    pub sscr_hsw: u16,
    pub sscr_vsh: u16,
    pub bpcr_ahbp: u16,
    pub bpcr_avbp: u16,
    pub awcr_aaw: u16,
    pub awcr_aah: u16,
    pub twcr_totalw: u16,
    pub twcr_totalh: u16,
}

/// Why a configuration was rejected.
#[derive(Copy, Clone, Debug, PartialEq, Eq, Structural)]
pub enum ConfigError {
    /// A sync pulse or active extent of zero: the accumulated windows would
    /// be empty or wrap below the previous boundary.
    EmptyWindow,
    /// The accumulated totals do not fit the window registers.
    WindowOverflow,
}

/// Every region non-empty where the hardware demands it.
pub open spec fn timing_nonzero(p: TimingParams) -> bool {
    &&& p.hsync >= 1
    &&& p.vsync >= 1
    &&& p.active_w >= 1
    &&& p.active_h >= 1
}

/// The accumulated totals fit the 16-bit window registers.
pub open spec fn timing_fits(p: TimingParams) -> bool {
    &&& p.hsync + p.hbp + p.active_w + p.hfp <= 0x10000
    &&& p.vsync + p.vbp + p.active_h + p.vfp <= 0x10000
}

/// A timing configuration the controller accepts.
pub open spec fn timing_valid(p: TimingParams) -> bool {
    timing_nonzero(p) && timing_fits(p)
}

/// The register values a valid timing configuration programs.
pub open spec fn spec_timing_regs(p: TimingParams) -> TimingRegs {
    TimingRegs {
        sscr_hsw: (p.hsync - 1) as u16,
        sscr_vsh: (p.vsync - 1) as u16,
        bpcr_ahbp: (p.hsync + p.hbp - 1) as u16,
        bpcr_avbp: (p.vsync + p.vbp - 1) as u16,
        awcr_aaw: (p.hsync + p.hbp + p.active_w - 1) as u16,
        awcr_aah: (p.vsync + p.vbp + p.active_h - 1) as u16,
        twcr_totalw: (p.hsync + p.hbp + p.active_w + p.hfp - 1) as u16,
        twcr_totalh: (p.vsync + p.vbp + p.active_h + p.vfp - 1) as u16,
    }
}

/// Computes the absolute window registers for a timing configuration, in
/// the order sync, back porch, active, front porch, each boundary relative
/// to the previous. Rejects, rather than wraps, a configuration whose
/// windows would be empty or out of register range.
pub fn compute_timing_regs(p: TimingParams) -> (r: Result<TimingRegs, ConfigError>)
    ensures
        match r {
            Ok(regs) => timing_valid(p) && regs == spec_timing_regs(p),
            Err(e) => !timing_valid(p) && (e == ConfigError::EmptyWindow <==> !timing_nonzero(p))
                && (e == ConfigError::WindowOverflow <==> timing_nonzero(p) && !timing_fits(p)),
        },
{
    if p.hsync == 0 || p.vsync == 0 || p.active_w == 0 || p.active_h == 0 {
        return Err(ConfigError::EmptyWindow);
    }
    let totalw: u64 = p.hsync as u64 + p.hbp as u64 + p.active_w as u64 + p.hfp as u64;
    let totalh: u64 = p.vsync as u64 + p.vbp as u64 + p.active_h as u64 + p.vfp as u64;
    if totalw > 0x10000 || totalh > 0x10000 {
        return Err(ConfigError::WindowOverflow);
    }
    Ok(
        TimingRegs {
            sscr_hsw: (p.hsync - 1) as u16,
            sscr_vsh: (p.vsync - 1) as u16,
            bpcr_ahbp: (p.hsync + p.hbp - 1) as u16,
            bpcr_avbp: (p.vsync + p.vbp - 1) as u16,
            awcr_aaw: (p.hsync + p.hbp + p.active_w - 1) as u16,
            awcr_aah: (p.vsync + p.vbp + p.active_h - 1) as u16,
            twcr_totalw: (p.hsync + p.hbp + p.active_w + p.hfp - 1) as u16,
            twcr_totalh: (p.vsync + p.vbp + p.active_h + p.vfp - 1) as u16,
        },
    )
}

/// A layer's scan-out window in absolute pixel-clock coordinates.
#[derive(Copy, Clone, Debug, PartialEq, Eq, Structural)]
pub struct LayerWindow {
    pub h_start: u16,
    pub h_stop: u16,
    pub v_start: u16,
    pub v_stop: u16,
}

/// The window registers of a layer whose viewport sits at panel position
/// `(x, y)` with extent `w` by `h`.
pub open spec fn spec_layer_window(p: TimingParams, x: int, y: int, w: int, h: int) -> LayerWindow {
    LayerWindow {
        h_start: (p.hsync + p.hbp + x) as u16,
        h_stop: (p.hsync + p.hbp + x + w - 1) as u16,
        v_start: (p.vsync + p.vbp + y) as u16,
        v_stop: (p.vsync + p.vbp + y + h - 1) as u16,
    }
}

/// Whether a viewport window stays inside the register range of a timing
/// configuration.
pub open spec fn window_fits(p: TimingParams, x: int, y: int, w: int, h: int) -> bool {
    &&& 1 <= w
    &&& 1 <= h
    &&& 0 <= x
    &&& 0 <= y
    &&& p.hsync + p.hbp + x + w - 1 <= 0xFFFF
    &&& p.vsync + p.vbp + y + h - 1 <= 0xFFFF
}

/// Computes a layer's absolute window registers from its viewport.
pub fn layer_window(p: TimingParams, x: u32, y: u32, w: u32, h: u32) -> (win: LayerWindow)
    requires
        window_fits(p, x as int, y as int, w as int, h as int),
    ensures
        win == spec_layer_window(p, x as int, y as int, w as int, h as int),
{
    let h_start: u32 = p.hsync + p.hbp + x;
    let v_start: u32 = p.vsync + p.vbp + y;
    LayerWindow {
        h_start: h_start as u16,
        h_stop: (h_start + w - 1) as u16,
        v_start: v_start as u16,
        v_stop: (v_start + h - 1) as u16,
    }
}

/// A layer's line pitch registers: the byte pitch, the line length the
/// fetcher reads (pitch plus a fixed three-byte tail) and the line count.
#[derive(Copy, Clone, Debug, PartialEq, Eq, Structural)]
pub struct LayerPitch {
    pub cfbp: u16,
    pub cfbll: u16,
    pub lines: u16,
}

/// Computes a layer's pitch registers from its pixel width, bytes per
/// pixel and height.
pub fn layer_pitch(width: u32, bpp: u32, height: u32) -> (r: LayerPitch)
    requires
        width * bpp + 3 <= 0xFFFF,
        height <= 0xFFFF,
    ensures
        r.cfbp == width * bpp,
        r.cfbll == width * bpp + 3,
        r.lines == height,
{
    proof {
        assert(width * bpp <= 0xFFFF) by (nonlinear_arith)
            requires
                width * bpp + 3 <= 0xFFFF,
        ;
        assert(width as int * bpp as int == (width * bpp) as int || width * bpp > 0xFFFF) by (
        nonlinear_arith);
    }
    let pitch: u32 = width * bpp;
    LayerPitch { cfbp: pitch as u16, cfbll: (pitch + 3) as u16, lines: height as u16 }
}

} // verus!
