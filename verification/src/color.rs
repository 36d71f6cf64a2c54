//! Colour conversion between the 5-6-5 packing used by image and colour
//! sources and the 8-8-8-8 word stored in the layer buffers.

use vstd::prelude::*;

verus! {

/// The 5-bit red channel of a 5-6-5 colour word.
pub open spec fn rgb565_r(c: u16) -> int {
    ((c >> 11) & 0x1F) as int
}

/// The 6-bit green channel of a 5-6-5 colour word.
pub open spec fn rgb565_g(c: u16) -> int {
    ((c >> 5) & 0x3F) as int
}

/// The 5-bit blue channel of a 5-6-5 colour word.
pub open spec fn rgb565_b(c: u16) -> int {
    (c & 0x1F) as int
}

/// A 5-bit channel rescaled to 8 bits: `v * 255 / 31`.
pub open spec fn expand5(v: int) -> int {
    v * 255 / 31
}

/// A 6-bit channel rescaled to 8 bits: `v * 255 / 63`.
pub open spec fn expand6(v: int) -> int {
    v * 255 / 63
}

/// An 8-8-8-8 word from its four 8-bit channels, alpha in the highest byte,
/// blue in the lowest.
pub open spec fn argb8888(a: int, r: int, g: int, b: int) -> int {
    ((a * 256 + r) * 256 + g) * 256 + b
}

/// The 8-8-8-8 word a 5-6-5 colour converts to: each channel rescaled by
/// `channel * 255 / max_channel_value`, alpha fully opaque.
pub open spec fn argb_of_rgb565(c: u16) -> u32 {
    argb8888(0xFF, expand5(rgb565_r(c)), expand6(rgb565_g(c)), expand5(rgb565_b(c))) as u32
}

/// Converts a 5-6-5 colour to the fully opaque 8-8-8-8 word the layer
/// buffers store.
pub fn rgb565_to_argb8888(c: u16) -> (p: u32)
    ensures
        p == argb_of_rgb565(c),
{
    let r: u32 = ((c >> 11) & 0x1F) as u32;
    let g: u32 = ((c >> 5) & 0x3F) as u32;
    let b: u32 = (c & 0x1F) as u32;
    assert(r < 32 && g < 64 && b < 32) by (bit_vector)
        requires
            r == (((c >> 11) & 0x1F) as u32) && g == (((c >> 5) & 0x3F) as u32) && b == ((c
                & 0x1F) as u32),
    ;
    let r8: u32 = r * 255 / 31;
    let g8: u32 = g * 255 / 63;
    let b8: u32 = b * 255 / 31;
    let p: u32 = 0xFF000000u32 | (r8 << 16) | (g8 << 8) | b8;
    assert(p == ((0xFFu32 * 256 + r8) * 256 + g8) * 256 + b8) by (bit_vector)
        requires
            r8 < 256 && g8 < 256 && b8 < 256 && p == (0xFF000000u32 | (r8 << 16) | (g8 << 8) | b8),
    ;
    p
}

/// Bounds of the rescaled channels: a 5- or 6-bit channel expands to a byte.
pub proof fn lemma_expand_bounds(v: int)
    ensures
        0 <= v <= 31 ==> 0 <= expand5(v) <= 255,
        0 <= v <= 63 ==> 0 <= expand6(v) <= 255,
        v == 31 ==> expand5(v) == 255,
        v == 63 ==> expand6(v) == 255,
        v == 0 ==> expand5(v) == 0 && expand6(v) == 0,
{
    assert(0 <= v <= 31 ==> v * 255 <= 31 * 255) by (nonlinear_arith);
    assert(0 <= v <= 63 ==> v * 255 <= 63 * 255) by (nonlinear_arith);
    assert(0 <= v ==> v * 255 >= 0) by (nonlinear_arith);
}

/// The converted word carries exactly the rescaled channels: each byte of
/// `argb_of_rgb565(c)` reads back as the corresponding expanded channel,
/// and the alpha byte is always fully opaque.
pub proof fn lemma_argb_channels(c: u16)
    ensures
        argb_of_rgb565(c) as int % 256 == expand5(rgb565_b(c)),
        argb_of_rgb565(c) as int / 256 % 256 == expand6(rgb565_g(c)),
        argb_of_rgb565(c) as int / 0x10000 % 256 == expand5(rgb565_r(c)),
        argb_of_rgb565(c) as int / 0x1000000 == 0xFF,
{
    let r = rgb565_r(c);
    let g = rgb565_g(c);
    let b = rgb565_b(c);
    assert(((c >> 11) & 0x1F) <= 31 && ((c >> 5) & 0x3F) <= 63 && (c & 0x1F) <= 31) by (
    bit_vector);
    assert(0 <= r <= 31 && 0 <= g <= 63 && 0 <= b <= 31);
    lemma_expand_bounds(r);
    lemma_expand_bounds(g);
    lemma_expand_bounds(b);
    let er = expand5(r);
    let eg = expand6(g);
    let eb = expand5(b);
    assert(argb8888(0xFF, er, eg, eb) == 0xFF000000 + er * 0x10000 + eg * 0x100 + eb);
    assert(argb8888(0xFF, er, eg, eb) <= 0xFFFFFFFF);
    assert((0xFF000000 + er * 0x10000 + eg * 0x100 + eb) % 256 == eb) by (nonlinear_arith)
        requires
            0 <= er <= 255 && 0 <= eg <= 255 && 0 <= eb <= 255,
    ;
    assert((0xFF000000 + er * 0x10000 + eg * 0x100 + eb) / 256 % 256 == eg) by (nonlinear_arith)
        requires
            0 <= er <= 255 && 0 <= eg <= 255 && 0 <= eb <= 255,
    ;
    assert((0xFF000000 + er * 0x10000 + eg * 0x100 + eb) / 0x10000 % 256 == er) by (
    nonlinear_arith)
        requires
            0 <= er <= 255 && 0 <= eg <= 255 && 0 <= eb <= 255,
    ;
    assert((0xFF000000 + er * 0x10000 + eg * 0x100 + eb) / 0x1000000 == 0xFF) by (nonlinear_arith)
        requires
            0 <= er <= 255 && 0 <= eg <= 255 && 0 <= eb <= 255,
    ;
}

} // verus!
