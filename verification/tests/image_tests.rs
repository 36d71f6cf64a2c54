use compositor::blit::draw_image_rotated_flipped_rust;
use compositor::blit::draw_image_rotated_rust;
use compositor::blit::draw_image_transformed_rust;
use compositor::color::rgb565_to_argb8888;
use compositor::fb::FrameBuffer;
use compositor::transform::ImageFlip;
use compositor::transform::ImageRotation;
use compositor::transform::ImageTransform;

fn buffer() -> FrameBuffer {
    FrameBuffer::new_filled(240, 320, 0)
}

fn read_region(fb: &FrameBuffer, x: usize, y: usize, w: usize, h: usize) -> Vec<u32> {
    let mut out = Vec::new();
    for r in 0..h {
        for c in 0..w {
            out.push(fb.get_game_pixel(x + c, y + r));
        }
    }
    out
}

#[test]
fn plain_blit_copies_row_major() {
    let data: [u16; 6] = [1, 2, 3, 4, 5, 6];
    let mut fb = buffer();
    draw_image_transformed_rust(&mut fb, 10, 3, 20, 2, &data, ImageTransform::identity());
    let got = read_region(&fb, 10, 20, 3, 2);
    let want: Vec<u32> = data.iter().map(|&c| rgb565_to_argb8888(c)).collect();
    assert_eq!(got, want);
}

#[test]
fn rotate180_reverses_rows_and_columns() {
    let data: [u16; 6] = [1, 2, 3, 4, 5, 6];
    let mut fb = buffer();
    draw_image_rotated_rust(&mut fb, 0, 3, 0, 2, &data, ImageRotation::Rotate180);
    // Destination (row r, col c) fetches source (1-r, 2-c).
    let got = read_region(&fb, 0, 0, 3, 2);
    let want: Vec<u32> = [6u16, 5, 4, 3, 2, 1].iter().map(|&c| rgb565_to_argb8888(c)).collect();
    assert_eq!(got, want);
}

#[test]
fn rotate180_twice_is_identity_on_content() {
    let data: [u16; 6] = [10, 20, 30, 40, 50, 60];
    // First half turn, computed as the source map prescribes.
    let mut once = vec![0u16; 6];
    for r in 0..2usize {
        for c in 0..3usize {
            once[r * 3 + c] = data[(1 - r) * 3 + (2 - c)];
        }
    }
    let mut twice_fb = buffer();
    draw_image_rotated_rust(&mut twice_fb, 0, 3, 0, 2, &once, ImageRotation::Rotate180);
    let mut plain_fb = buffer();
    draw_image_transformed_rust(&mut plain_fb, 0, 3, 0, 2, &data, ImageTransform::identity());
    for i in 0..twice_fb.len() {
        assert_eq!(twice_fb.get_raw(i), plain_fb.get_raw(i));
    }
}

#[test]
fn quarter_turn_cw_then_ccw_is_identity_on_square_content() {
    let data: [u16; 9] = [1, 2, 3, 4, 5, 6, 7, 8, 9];
    // Clockwise quarter turn: destination (r, c) fetches source (2-c, r).
    let mut once = vec![0u16; 9];
    for r in 0..3usize {
        for c in 0..3usize {
            once[r * 3 + c] = data[(2 - c) * 3 + r];
        }
    }
    let mut back_fb = buffer();
    draw_image_rotated_rust(&mut back_fb, 0, 3, 0, 3, &once, ImageRotation::CounterClockwise90);
    let mut plain_fb = buffer();
    draw_image_transformed_rust(&mut plain_fb, 0, 3, 0, 3, &data, ImageTransform::identity());
    for i in 0..back_fb.len() {
        assert_eq!(back_fb.get_raw(i), plain_fb.get_raw(i));
    }
}

#[test]
fn horizontal_flip_mirrors_columns() {
    let data: [u16; 4] = [1, 2, 3, 4];
    let mut fb = buffer();
    draw_image_rotated_flipped_rust(&mut fb, 0, 2, 0, 2, &data, ImageRotation::NoRotation, true, false);
    let got = read_region(&fb, 0, 0, 2, 2);
    let want: Vec<u32> = [2u16, 1, 4, 3].iter().map(|&c| rgb565_to_argb8888(c)).collect();
    assert_eq!(got, want);
}

#[test]
fn vertical_flip_mirrors_rows() {
    let data: [u16; 4] = [1, 2, 3, 4];
    let mut fb = buffer();
    draw_image_rotated_flipped_rust(&mut fb, 0, 2, 0, 2, &data, ImageRotation::NoRotation, false, true);
    let got = read_region(&fb, 0, 0, 2, 2);
    let want: Vec<u32> = [3u16, 4, 1, 2].iter().map(|&c| rgb565_to_argb8888(c)).collect();
    assert_eq!(got, want);
}

#[test]
fn short_source_slice_skips_missing_pixels() {
    let data: [u16; 3] = [1, 2, 3];
    let mut fb = FrameBuffer::new_filled(240, 320, 0xAB);
    draw_image_transformed_rust(&mut fb, 0, 2, 0, 2, &data, ImageTransform::identity());
    assert_eq!(fb.get_game_pixel(0, 0), rgb565_to_argb8888(1));
    assert_eq!(fb.get_game_pixel(1, 0), rgb565_to_argb8888(2));
    assert_eq!(fb.get_game_pixel(0, 1), rgb565_to_argb8888(3));
    // Source index 3 is past the slice: the pixel keeps its old value.
    assert_eq!(fb.get_game_pixel(1, 1), 0xAB);
}

#[test]
fn negative_or_off_buffer_position_draws_nothing() {
    let data: [u16; 4] = [1, 2, 3, 4];
    let mut fb = FrameBuffer::new_filled(240, 320, 9);
    draw_image_transformed_rust(&mut fb, -5, 2, 0, 2, &data, ImageTransform::identity());
    draw_image_transformed_rust(&mut fb, 0, 2, 500, 2, &data, ImageTransform::identity());
    for i in 0..fb.len() {
        assert_eq!(fb.get_raw(i), 9);
    }
}

#[test]
fn transform_codes_decode_as_documented() {
    assert_eq!(
        ImageTransform::from_code(0),
        ImageTransform { rotation: ImageRotation::NoRotation, flip: ImageFlip::none() }
    );
    assert_eq!(
        ImageTransform::from_code(3),
        ImageTransform { rotation: ImageRotation::Rotate180, flip: ImageFlip::none() }
    );
    assert_eq!(
        ImageTransform::from_code(7),
        ImageTransform { rotation: ImageRotation::Clockwise90, flip: ImageFlip::horizontal_only() }
    );
    assert_eq!(ImageTransform::from_code(200), ImageTransform::identity());
    assert_eq!(ImageTransform::rotation_from_code(1), ImageRotation::Clockwise90);
    assert_eq!(ImageTransform::rotation_from_code(2), ImageRotation::CounterClockwise90);
    assert_eq!(ImageTransform::rotation_from_code(9), ImageRotation::NoRotation);
}
