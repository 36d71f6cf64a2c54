use compositor::ltdc::frame_layout;
use compositor::ltdc::LcdDriver;
use compositor::ltdc::HBP;
use compositor::ltdc::HFP;
use compositor::ltdc::HSYNC;
use compositor::ltdc::LAYER1_BASE;
use compositor::ltdc::LAYER1_BASE_B;
use compositor::ltdc::LAYER1_SIZE;
use compositor::ltdc::LAYER2_BASE;
use compositor::ltdc::LAYER2_SIZE;
use compositor::ltdc::LCD_HEIGHT;
use compositor::ltdc::LCD_WIDTH;
use compositor::ltdc::SDRAM_BASE;
use compositor::ltdc::VBP;
use compositor::ltdc::VFP;
use compositor::ltdc::VSYNC;
use compositor::timing::compute_timing_regs;
use compositor::timing::ConfigError;
use compositor::timing::TimingParams;

fn panel_params() -> TimingParams {
    TimingParams {
        hsync: HSYNC,
        hbp: HBP,
        active_w: LCD_WIDTH,
        hfp: HFP,
        vsync: VSYNC,
        vbp: VBP,
        active_h: LCD_HEIGHT,
        vfp: VFP,
    }
}

fn driver() -> LcdDriver {
    LcdDriver::new(panel_params(), 64, 64, LAYER1_BASE, LAYER1_BASE_B, LAYER2_BASE).unwrap()
}

#[test]
fn frame_store_layout_is_front_overlay_back() {
    let lay = frame_layout(SDRAM_BASE, LAYER1_SIZE, LAYER2_SIZE);
    assert_eq!(lay.layer1_a, 0xD000_0000);
    assert_eq!(lay.layer2, 0xD000_0000 + 240 * 320 * 4);
    assert_eq!(lay.layer1_b, 0xD000_0000 + 240 * 320 * 4 + 64 * 64 * 4);
    assert_eq!(lay.layer2, LAYER2_BASE);
    assert_eq!(lay.layer1_b, LAYER1_BASE_B);
}

#[test]
fn timing_registers_accumulate_sync_porch_active_porch() {
    let regs = compute_timing_regs(panel_params()).unwrap();
    assert_eq!(regs.sscr_hsw, 9);
    assert_eq!(regs.sscr_vsh, 1);
    assert_eq!(regs.bpcr_ahbp, 29);
    assert_eq!(regs.bpcr_avbp, 3);
    assert_eq!(regs.awcr_aaw, 269);
    assert_eq!(regs.awcr_aah, 323);
    assert_eq!(regs.twcr_totalw, 279);
    assert_eq!(regs.twcr_totalh, 327);
}

#[test]
fn zero_sync_is_rejected_before_it_wraps() {
    let mut p = panel_params();
    p.hsync = 0;
    assert_eq!(compute_timing_regs(p), Err(ConfigError::EmptyWindow));
    let mut q = panel_params();
    q.active_h = 0;
    assert_eq!(compute_timing_regs(q), Err(ConfigError::EmptyWindow));
}

#[test]
fn oversized_totals_are_rejected() {
    let mut p = panel_params();
    p.hbp = 0x10000;
    assert_eq!(compute_timing_regs(p), Err(ConfigError::WindowOverflow));
}

#[test]
fn oversized_pitch_is_rejected() {
    let mut p = panel_params();
    p.active_w = 20000;
    p.hfp = 1;
    p.hbp = 1;
    assert!(compute_timing_regs(p).is_ok());
    let r = LcdDriver::new(p, 64, 64, LAYER1_BASE, LAYER1_BASE_B, LAYER2_BASE);
    assert_eq!(r.err(), Some(ConfigError::WindowOverflow));
}

#[test]
fn new_driver_scans_the_first_buffer_and_writes_the_second() {
    let d = driver();
    assert_eq!(d.l1_addr_committed, LAYER1_BASE);
    assert_eq!(d.layer1_back_addr(), LAYER1_BASE_B);
    assert!(!d.reload_pending);
    assert!(d.enabled);
    assert_eq!(d.l2_alpha_committed, 0xFF);
}

#[test]
fn swap_changes_back_buffer_and_twice_restores_it() {
    let mut d = driver();
    let back0 = d.layer1_back_addr();
    d.swap_layer1_buffers();
    let back1 = d.layer1_back_addr();
    assert_ne!(back1, back0);
    assert_eq!(back1, LAYER1_BASE);
    d.swap_layer1_buffers();
    assert_eq!(d.layer1_back_addr(), back0);
}

#[test]
fn swap_is_latched_only_at_the_vertical_blank() {
    let mut d = driver();
    d.swap_layer1_buffers();
    // Staged for the scan-out path, but the committed address is untouched.
    assert_eq!(d.l1_addr_staged, LAYER1_BASE_B);
    assert_eq!(d.l1_addr_committed, LAYER1_BASE);
    assert!(d.reload_pending);
    d.commit_vblank();
    assert_eq!(d.l1_addr_committed, LAYER1_BASE_B);
    assert!(!d.reload_pending);
}

#[test]
fn overlay_window_sits_after_sync_and_back_porch() {
    let mut d = driver();
    d.set_layer2_position(5, 7);
    let w = d.l2_window_staged;
    assert_eq!(w.h_start, (HSYNC + HBP + 5) as u16);
    assert_eq!(w.h_stop, (HSYNC + HBP + 5 + 64 - 1) as u16);
    assert_eq!(w.v_start, (VSYNC + VBP + 7) as u16);
    assert_eq!(w.v_stop, (VSYNC + VBP + 7 + 64 - 1) as u16);
}

#[test]
fn overlay_move_clamps_to_panel_slack() {
    // Requesting past panel_size - overlay_size lands exactly on the slack.
    let mut d = driver();
    d.set_layer2_position(10_000, 10_000);
    let w = d.l2_window_staged;
    assert_eq!(w.h_start, (HSYNC + HBP + (LCD_WIDTH - 64)) as u16);
    assert_eq!(w.h_stop, (HSYNC + HBP + LCD_WIDTH - 1) as u16);
    assert_eq!(w.v_start, (VSYNC + VBP + (LCD_HEIGHT - 64)) as u16);
    assert_eq!(w.v_stop, (VSYNC + VBP + LCD_HEIGHT - 1) as u16);
    // The boundary itself is kept as requested.
    d.set_layer2_position(LCD_WIDTH - 64, LCD_HEIGHT - 64);
    assert_eq!(d.l2_window_staged, w);
}

#[test]
fn overlay_move_and_alpha_are_staged_until_commit() {
    let mut d = driver();
    let before = d.l2_window_committed;
    d.set_layer2_position(3, 4);
    assert_eq!(d.l2_window_committed, before);
    d.set_layer2_alpha(0x80);
    assert_eq!(d.l2_alpha_committed, 0xFF);
    assert_eq!(d.l2_alpha_staged, 0x80);
    d.commit_vblank();
    assert_eq!(d.l2_window_committed, d.l2_window_staged);
    assert_eq!(d.l2_alpha_committed, 0x80);
}
