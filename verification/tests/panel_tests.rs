use compositor::fb::FrameBuffer;
use compositor::panel::draw_digit_buf;
use compositor::panel::draw_fps_overlay;
use compositor::panel::draw_rect_buf;
use compositor::panel::fill_checkerboard_to;
use compositor::panel::layer1_checkerboard;
use compositor::panel::layer2_sprite;

fn reference_checker(row: u32, col: u32) -> u32 {
    let cel = row / 32 + col / 32;
    let cel_count = 240 / 32 + 320 / 32;
    let a = if cel % 2 == 1 { 0u32 } else { 0xFF };
    let r = row * 255 / 320;
    let g = col * 255 / 240;
    let b1 = 255 * (cel_count - cel - 1) / cel_count;
    let b = if cel % 4 == 0 { 0 } else { b1 };
    if row % 32 == 0 || col % 32 == 0 {
        let lum = if a != 0 { 255 } else { 0 };
        0xFF000000 + lum * 0x10000 + lum * 0x100 + lum
    } else {
        (a << 24) | (r << 16) | (g << 8) | b
    }
}

#[test]
fn checkerboard_matches_its_formula_everywhere() {
    let mut fb = FrameBuffer::new_filled(240, 320, 0);
    fill_checkerboard_to(&mut fb);
    for row in 0..320u32 {
        for col in 0..240u32 {
            let i = (row * 240 + col) as usize;
            assert_eq!(fb.get_raw(i), reference_checker(row, col), "at ({row},{col})");
        }
    }
}

#[test]
fn checkerboard_grid_lines_are_solid() {
    let mut fb = FrameBuffer::new_filled(240, 320, 0);
    fill_checkerboard_to(&mut fb);
    // (0,0): an opaque cell on a grid line is white.
    assert_eq!(fb.get_raw(0), 0xFFFFFFFF);
    // (0,32): cel 1 is the transparent cell, so its grid line is black.
    assert_eq!(fb.get_raw(32), 0xFF000000);
}

#[test]
fn both_primary_buffers_get_the_checkerboard() {
    let mut front = FrameBuffer::new_filled(240, 320, 1);
    let mut back = FrameBuffer::new_filled(240, 320, 2);
    layer1_checkerboard(&mut front, &mut back);
    for i in 0..front.len() {
        assert_eq!(front.get_raw(i), back.get_raw(i));
    }
}

#[test]
fn sprite_is_opaque_with_a_bright_border() {
    let mut fb = FrameBuffer::new_filled(64, 64, 0);
    layer2_sprite(&mut fb);
    for row in 0..64u32 {
        for col in 0..64u32 {
            let p = fb.get_raw((row * 64 + col) as usize);
            let gx = col * 255 / 64;
            let gy = row * 255 / 64;
            let b = if col == 0 || row == 0 || col == 63 || row == 63 {
                255
            } else {
                255 - (gx + gy) / 2
            };
            assert_eq!(p, 0xFF000000 + gx * 0x10000 + gy * 0x100 + b, "at ({row},{col})");
        }
    }
}

#[test]
fn rect_buf_clips_against_the_panel() {
    let mut fb = FrameBuffer::new_filled(64, 64, 0);
    draw_rect_buf(&mut fb, 60, 62, 10, 10, 0xAA);
    let mut changed = 0usize;
    for i in 0..fb.len() {
        if fb.get_raw(i) != 0 {
            assert_eq!(fb.get_raw(i), 0xAA);
            changed += 1;
        }
    }
    assert_eq!(changed, 4 * 2);
}

#[test]
fn digit_one_lights_only_the_two_right_segments() {
    let mut fb = FrameBuffer::new_filled(64, 64, 0);
    draw_digit_buf(&mut fb, 0, 0, 1, 1, 0x77);
    // Segments B and C: the column at x = 5, rows 1..9, nothing else.
    let mut lit = Vec::new();
    for i in 0..fb.len() {
        if fb.get_raw(i) != 0 {
            lit.push((i % 64, i / 64));
        }
    }
    let mut want = Vec::new();
    for y in 1..5usize {
        want.push((5usize, y));
    }
    for y in 5..9usize {
        want.push((5usize, y));
    }
    assert_eq!(lit, want);
}

#[test]
fn digit_eight_lights_all_seven_segments() {
    let mut fb = FrameBuffer::new_filled(64, 64, 0);
    draw_digit_buf(&mut fb, 2, 2, 8, 1, 0x77);
    // Top segment A at (3..7, 2), middle G at (3..7, 6), bottom D at (3..7, 11).
    for x in 3..7usize {
        assert_eq!(fb.get_raw(2 * 64 + x), 0x77);
        assert_eq!(fb.get_raw(6 * 64 + x), 0x77);
        assert_eq!(fb.get_raw(11 * 64 + x), 0x77);
    }
    // Verticals: F at x=2 and B at x=7 in rows 3..7; E and C in rows 7..11.
    for y in 3..7usize {
        assert_eq!(fb.get_raw(y * 64 + 2), 0x77);
        assert_eq!(fb.get_raw(y * 64 + 7), 0x77);
    }
    for y in 7..11usize {
        assert_eq!(fb.get_raw(y * 64 + 2), 0x77);
        assert_eq!(fb.get_raw(y * 64 + 7), 0x77);
    }
}

#[test]
fn non_decimal_digit_draws_nothing() {
    let mut fb = FrameBuffer::new_filled(64, 64, 0);
    draw_digit_buf(&mut fb, 0, 0, 11, 2, 0x77);
    for i in 0..fb.len() {
        assert_eq!(fb.get_raw(i), 0);
    }
}

#[test]
fn fps_overlay_draws_box_and_single_digit() {
    let mut fb = FrameBuffer::new_filled(240, 320, 0);
    draw_fps_overlay(&mut fb, 7);
    // The box corner.
    assert_eq!(fb.get_raw(4 * 240 + 4), 0xC0000000);
    assert_eq!(fb.get_raw(4 * 240 + 47), 0xC0000000);
    assert_eq!(fb.get_raw(27 * 240 + 4), 0xC0000000);
    // Outside the box: untouched.
    assert_eq!(fb.get_raw(4 * 240 + 48), 0);
    assert_eq!(fb.get_raw(3 * 240 + 4), 0);
    // A value below ten shows only its last digit, at x = 34: segment A of
    // the 7 runs at y = 6, x = 36..44.
    for x in 36..44usize {
        assert_eq!(fb.get_raw(6 * 240 + x), 0xFFFFFFFF);
    }
    // No hundreds digit for a single-digit value.
    for x in 6..18usize {
        for y in 6..26usize {
            assert_eq!(fb.get_raw(y * 240 + x), 0xC0000000, "at ({x},{y})");
        }
    }
}

#[test]
fn fps_overlay_caps_at_three_nines() {
    let mut big = FrameBuffer::new_filled(240, 320, 0);
    draw_fps_overlay(&mut big, 5000);
    let mut capped = FrameBuffer::new_filled(240, 320, 0);
    draw_fps_overlay(&mut capped, 999);
    for i in 0..big.len() {
        assert_eq!(big.get_raw(i), capped.get_raw(i));
    }
}
