use compositor::color::rgb565_to_argb8888;

#[test]
fn max_red_converts_to_pure_red() {
    assert_eq!(rgb565_to_argb8888(0xF800), 0xFF_FF_00_00);
}

#[test]
fn max_green_converts_to_pure_green() {
    assert_eq!(rgb565_to_argb8888(0x07E0), 0xFF_00_FF_00);
}

#[test]
fn max_blue_converts_to_pure_blue() {
    assert_eq!(rgb565_to_argb8888(0x001F), 0xFF_00_00_FF);
}

#[test]
fn white_converts_to_opaque_white() {
    assert_eq!(rgb565_to_argb8888(0xFFFF), 0xFFFFFFFF);
}

#[test]
fn black_converts_to_opaque_black() {
    assert_eq!(rgb565_to_argb8888(0x0000), 0xFF000000);
}

#[test]
fn mid_channels_rescale_by_255_over_max() {
    // red 16, green 32, blue 8: 16*255/31 = 131, 32*255/63 = 129, 8*255/31 = 65
    let c: u16 = (16 << 11) | (32 << 5) | 8;
    assert_eq!(rgb565_to_argb8888(c), 0xFF000000 | (131 << 16) | (129 << 8) | 65);
}

#[test]
fn alpha_byte_always_opaque() {
    for c in [0u16, 1, 0x1234, 0xABCD, 0xFFFF] {
        assert_eq!(rgb565_to_argb8888(c) >> 24, 0xFF);
    }
}
