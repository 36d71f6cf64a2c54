use compositor::fb::FrameBuffer;

#[test]
fn new_filled_has_one_word_per_pixel() {
    let fb = FrameBuffer::new_filled(240, 320, 0xDEAD);
    assert_eq!(fb.len(), 240 * 320);
    for i in 0..fb.len() {
        assert_eq!(fb.get_raw(i), 0xDEAD);
    }
}

#[test]
fn game_pixel_round_trips() {
    let mut fb = FrameBuffer::new_filled(240, 320, 0);
    fb.set_game_pixel(17, 23, 0x1234_5678);
    assert_eq!(fb.get_game_pixel(17, 23), 0x1234_5678);
    assert_eq!(fb.get_game_pixel(18, 23), 0);
    assert_eq!(fb.get_game_pixel(17, 24), 0);
}

#[test]
fn logical_origin_sits_on_the_last_panel_line() {
    let mut fb = FrameBuffer::new_filled(240, 320, 0);
    fb.set_game_pixel(0, 0, 5);
    assert_eq!(fb.get_raw(319 * 240), 5);
}

#[test]
fn logical_corner_sits_on_the_first_panel_line_end() {
    let mut fb = FrameBuffer::new_filled(240, 320, 0);
    fb.set_game_pixel(319, 239, 5);
    assert_eq!(fb.get_raw(239), 5);
}

#[test]
fn distinct_logical_coordinates_use_distinct_words() {
    let mut fb = FrameBuffer::new_filled(16, 16, 0);
    for gx in 0..16usize {
        for gy in 0..16usize {
            fb.set_game_pixel(gx, gy, (gx * 16 + gy) as u32 + 1);
        }
    }
    for gx in 0..16usize {
        for gy in 0..16usize {
            assert_eq!(fb.get_game_pixel(gx, gy), (gx * 16 + gy) as u32 + 1);
        }
    }
}
