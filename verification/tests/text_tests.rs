use compositor::color::rgb565_to_argb8888;
use compositor::fb::FrameBuffer;
use compositor::text::write_char;
use compositor::text::write_string_rust;
use compositor::text::Font;

fn buffer() -> FrameBuffer {
    FrameBuffer::new_filled(240, 320, 0)
}

fn test_font() -> Font {
    // 4 by 2 cells; glyph rows of every printable character present.
    let mut data = vec![0u16; 95 * 2];
    // 'A': top row lights pixels 0 and 2, bottom row pixel 1.
    data[(b'A' - 32) as usize * 2] = 0b0101;
    data[(b'A' - 32) as usize * 2 + 1] = 0b0010;
    Font { width: 4, height: 2, data }
}

#[test]
fn glyph_bits_are_tested_lsb_first() {
    let font = test_font();
    let mut fb = buffer();
    write_char(&mut fb, 10, 20, b'A', &font, 0xF800, 0x001F);
    let fg = rgb565_to_argb8888(0xF800);
    let bg = rgb565_to_argb8888(0x001F);
    // Top row: bit 0 is the leftmost pixel.
    assert_eq!(fb.get_game_pixel(10, 20), fg);
    assert_eq!(fb.get_game_pixel(11, 20), bg);
    assert_eq!(fb.get_game_pixel(12, 20), fg);
    assert_eq!(fb.get_game_pixel(13, 20), bg);
    // Bottom row: only bit 1.
    assert_eq!(fb.get_game_pixel(10, 21), bg);
    assert_eq!(fb.get_game_pixel(11, 21), fg);
    assert_eq!(fb.get_game_pixel(12, 21), bg);
    assert_eq!(fb.get_game_pixel(13, 21), bg);
    // Nothing outside the cell.
    assert_eq!(fb.get_game_pixel(9, 20), 0);
    assert_eq!(fb.get_game_pixel(14, 20), 0);
    assert_eq!(fb.get_game_pixel(10, 22), 0);
}

#[test]
fn unprintable_character_draws_a_solid_block() {
    let font = test_font();
    let mut fb = buffer();
    write_char(&mut fb, 0, 0, 5, &font, 0xFFFF, 0x0000);
    let fg = rgb565_to_argb8888(0xFFFF);
    for j in 0..4usize {
        for i in 0..2usize {
            assert_eq!(fb.get_game_pixel(j, i), fg);
        }
    }
}

#[test]
fn glyph_clips_at_the_buffer_edge() {
    let font = test_font();
    let mut fb = buffer();
    write_char(&mut fb, 318, 238, 5, &font, 0xFFFF, 0x0000);
    let fg = rgb565_to_argb8888(0xFFFF);
    let mut changed = 0usize;
    for i in 0..fb.len() {
        if fb.get_raw(i) != 0 {
            assert_eq!(fb.get_raw(i), fg);
            changed += 1;
        }
    }
    // Only the 2 by 2 on-buffer corner of the 4 by 2 cell.
    assert_eq!(changed, 4);
}

#[test]
fn string_advances_one_cell_per_character() {
    let font = test_font();
    let mut fb = buffer();
    write_string_rust(&mut fb, 0, 0, &[5, 5], &font, 0xFFFF, 0x0000);
    let fg = rgb565_to_argb8888(0xFFFF);
    for gx in 0..8usize {
        assert_eq!(fb.get_game_pixel(gx, 0), fg);
    }
    assert_eq!(fb.get_game_pixel(8, 0), 0);
}

#[test]
fn string_wraps_to_the_next_line_at_the_right_edge() {
    let font = test_font();
    let mut fb = buffer();
    // 317 + 4 >= 320: the character wraps to the line below.
    write_string_rust(&mut fb, 317, 0, &[5], &font, 0xFFFF, 0x0000);
    let fg = rgb565_to_argb8888(0xFFFF);
    assert_eq!(fb.get_game_pixel(317, 0), 0);
    assert_eq!(fb.get_game_pixel(0, 2), fg);
    assert_eq!(fb.get_game_pixel(3, 3), fg);
}

#[test]
fn space_starting_a_wrapped_line_is_dropped() {
    let font = test_font();
    let mut fb = buffer();
    write_string_rust(&mut fb, 317, 0, &[b' ', 5], &font, 0xFFFF, 0x0000);
    let fg = rgb565_to_argb8888(0xFFFF);
    // The space is skipped; the block lands first on the new line.
    assert_eq!(fb.get_game_pixel(0, 2), fg);
    assert_eq!(fb.get_game_pixel(4, 2), 0);
}

#[test]
fn string_stops_when_a_wrapped_line_would_cross_the_bottom() {
    let font = test_font();
    let mut fb = buffer();
    // Wrapping from y = 237 puts the next line at 239; 239 + 2 >= 240 stops.
    write_string_rust(&mut fb, 317, 237, &[5, 5, 5], &font, 0xFFFF, 0x0000);
    for i in 0..fb.len() {
        assert_eq!(fb.get_raw(i), 0);
    }
}

#[test]
fn negative_start_draws_nothing() {
    let font = test_font();
    let mut fb = FrameBuffer::new_filled(240, 320, 6);
    write_string_rust(&mut fb, -1, 0, &[5], &font, 0xFFFF, 0x0000);
    write_string_rust(&mut fb, 0, -3, &[5], &font, 0xFFFF, 0x0000);
    for i in 0..fb.len() {
        assert_eq!(fb.get_raw(i), 6);
    }
}
