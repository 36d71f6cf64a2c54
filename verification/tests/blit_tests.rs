use compositor::blit::draw_rect_angle_rust;
use compositor::blit::fill_rect;
use compositor::blit::set_background_color_rust;
use compositor::color::rgb565_to_argb8888;
use compositor::fb::FrameBuffer;

fn small_buffer(fill: u32) -> FrameBuffer {
    // Panel 240 wide, 320 tall: logical space 320 by 240.
    FrameBuffer::new_filled(240, 320, fill)
}

#[test]
fn fill_rect_sets_inside_and_leaves_outside() {
    let mut fb = small_buffer(0);
    fill_rect(&mut fb, 10, 5, 20, 3, 0xF800);
    let red = rgb565_to_argb8888(0xF800);
    for gx in 0..320usize {
        for gy in 0..240usize {
            let p = fb.get_game_pixel(gx, gy);
            if (10..15).contains(&gx) && (20..23).contains(&gy) {
                assert_eq!(p, red, "inside pixel ({gx},{gy})");
            } else {
                assert_eq!(p, 0, "outside pixel ({gx},{gy})");
            }
        }
    }
}

#[test]
fn fill_rect_at_right_edge_writes_exactly_one_pixel() {
    // A ten-wide request starting on the last logical column clips to one pixel.
    let mut fb = small_buffer(0);
    fill_rect(&mut fb, 319, 10, 0, 1, 0xFFFF);
    let mut changed = 0usize;
    for i in 0..fb.len() {
        if fb.get_raw(i) != 0 {
            changed += 1;
        }
    }
    assert_eq!(changed, 1);
    assert_eq!(fb.get_game_pixel(319, 0), 0xFFFFFFFF);
}

#[test]
fn fill_rect_off_buffer_draws_nothing() {
    let mut fb = small_buffer(7);
    fill_rect(&mut fb, 320, 10, 0, 10, 0xFFFF);
    fill_rect(&mut fb, 0, 10, 240, 10, 0xFFFF);
    for i in 0..fb.len() {
        assert_eq!(fb.get_raw(i), 7);
    }
}

#[test]
fn fill_rect_zero_extent_draws_nothing() {
    let mut fb = small_buffer(7);
    fill_rect(&mut fb, 5, 0, 5, 4, 0xFFFF);
    fill_rect(&mut fb, 5, 4, 5, 0, 0xFFFF);
    for i in 0..fb.len() {
        assert_eq!(fb.get_raw(i), 7);
    }
}

#[test]
fn fill_rect_truncates_both_extents() {
    let mut fb = small_buffer(0);
    fill_rect(&mut fb, 310, 100, 230, 100, 0x001F);
    let blue = rgb565_to_argb8888(0x001F);
    let mut changed = 0usize;
    for i in 0..fb.len() {
        if fb.get_raw(i) != 0 {
            assert_eq!(fb.get_raw(i), blue);
            changed += 1;
        }
    }
    assert_eq!(changed, 10 * 10);
}

#[test]
fn set_background_color_fills_every_pixel() {
    let mut fb = small_buffer(0);
    set_background_color_rust(&mut fb, 0x07E0);
    let green = rgb565_to_argb8888(0x07E0);
    for i in 0..fb.len() {
        assert_eq!(fb.get_raw(i), green);
    }
}

#[test]
fn draw_rect_angle_negative_position_draws_nothing() {
    let mut fb = small_buffer(3);
    draw_rect_angle_rust(&mut fb, -1, 10, 5, 10, 0xFFFF);
    draw_rect_angle_rust(&mut fb, 5, 10, -1, 10, 0xFFFF);
    for i in 0..fb.len() {
        assert_eq!(fb.get_raw(i), 3);
    }
}

#[test]
fn draw_rect_angle_matches_fill_rect() {
    let mut a = small_buffer(0);
    let mut b = small_buffer(0);
    draw_rect_angle_rust(&mut a, 30, 7, 40, 9, 0x1234);
    fill_rect(&mut b, 30, 7, 40, 9, 0x1234);
    for i in 0..a.len() {
        assert_eq!(a.get_raw(i), b.get_raw(i));
    }
}

#[test]
fn game_to_panel_remap_lands_where_the_panel_scans() {
    // Logical (gx, gy) sits at panel column gy of panel line 319 - gx.
    let mut fb = small_buffer(0);
    fill_rect(&mut fb, 0, 1, 0, 1, 0xFFFF);
    assert_eq!(fb.get_raw(319 * 240), 0xFFFFFFFF);
    let mut fb2 = small_buffer(0);
    fill_rect(&mut fb2, 319, 1, 239, 1, 0xFFFF);
    assert_eq!(fb2.get_raw(239), 0xFFFFFFFF);
}
