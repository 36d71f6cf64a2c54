//! Image transforms: a quarter- or half-turn rotation combined with
//! optional horizontal and vertical mirroring, applied rotation first.
//!
//! A transform is described by the *source map*: for each destination pixel
//! `(row, col)` of a `w` by `h` blit it names the source image cell the
//! pixel is fetched from, as a row, a column and the flat index
//! `row * w + col` into the source pixel slice.

use vstd::arithmetic::div_mod::lemma_fundamental_div_mod;
use vstd::arithmetic::div_mod::lemma_fundamental_div_mod_converse;
use vstd::prelude::*;

verus! {

/// Orientation of the panel as a whole.
#[derive(Copy, Clone, Debug, PartialEq, Eq, Structural)]
pub enum DisplayOrientation {
    Portrait,
    Landscape,
}

/// Rotation applied to a source image before any mirroring.
#[derive(Copy, Clone, Debug, PartialEq, Eq, Structural)]
pub enum ImageRotation {
    NoRotation,
    Clockwise90,
    CounterClockwise90,
    Rotate180,
}

/// Mirroring applied to a source image after the rotation.
#[derive(Copy, Clone, Debug, PartialEq, Eq, Structural)]
pub struct ImageFlip {
    pub horizontal: bool,
    pub vertical: bool,
}

/// A rotation and a flip, applied in that fixed order.
#[derive(Copy, Clone, Debug, PartialEq, Eq, Structural)]
pub struct ImageTransform {
    pub rotation: ImageRotation,
    pub flip: ImageFlip,
}

impl ImageFlip {
    /// No mirroring.
    pub fn none() -> (f: ImageFlip)
        ensures
            f == (ImageFlip { horizontal: false, vertical: false }),
    {
        ImageFlip { horizontal: false, vertical: false }
    }

    /// Mirror left-right only.
    pub fn horizontal_only() -> (f: ImageFlip)
        ensures
            f == (ImageFlip { horizontal: true, vertical: false }),
    {
        ImageFlip { horizontal: true, vertical: false }
    }

    /// Mirror top-bottom only.
    pub fn vertical_only() -> (f: ImageFlip)
        ensures
            f == (ImageFlip { horizontal: false, vertical: true }),
    {
        ImageFlip { horizontal: false, vertical: true }
    }

    /// Mirror both ways.
    pub fn both() -> (f: ImageFlip)
        ensures
            f == (ImageFlip { horizontal: true, vertical: true }),
    {
        ImageFlip { horizontal: true, vertical: true }
    }
}

/// The transform that leaves the image as it is.
pub open spec fn identity_transform() -> ImageTransform {
    ImageTransform {
        rotation: ImageRotation::NoRotation,
        flip: ImageFlip { horizontal: false, vertical: false },
    }
}

impl ImageTransform {
    /// The transform that leaves the image as it is.
    pub fn identity() -> (t: ImageTransform)
        ensures
            t == identity_transform(),
    {
        ImageTransform { rotation: ImageRotation::NoRotation, flip: ImageFlip::none() }
    }

    /// Decodes the compact one-byte transform encoding used across the
    /// drawing call surface: 0 none, 1 quarter turn clockwise, 2 quarter
    /// turn counter-clockwise, 3 half turn, 4 mirror left-right, 5 mirror
    /// top-bottom, 6 mirror both, 7 quarter turn clockwise then mirror
    /// left-right; anything else is taken as none.
    pub fn from_code(code: u8) -> (t: ImageTransform)
        ensures
            t == transform_of_code(code),
    {
        match code {
            1 => ImageTransform { rotation: ImageRotation::Clockwise90, flip: ImageFlip::none() },
            2 => ImageTransform {
                rotation: ImageRotation::CounterClockwise90,
                flip: ImageFlip::none(),
            },
            3 => ImageTransform { rotation: ImageRotation::Rotate180, flip: ImageFlip::none() },
            4 => ImageTransform {
                rotation: ImageRotation::NoRotation,
                flip: ImageFlip::horizontal_only(),
            },
            5 => ImageTransform {
                rotation: ImageRotation::NoRotation,
                flip: ImageFlip::vertical_only(),
            },
            6 => ImageTransform { rotation: ImageRotation::NoRotation, flip: ImageFlip::both() },
            7 => ImageTransform {
                rotation: ImageRotation::Clockwise90,
                flip: ImageFlip::horizontal_only(),
            },
            _ => ImageTransform { rotation: ImageRotation::NoRotation, flip: ImageFlip::none() },
        }
    }

    /// Decodes the one-byte rotation encoding: 0 none, 1 clockwise,
    /// 2 counter-clockwise, 3 half turn; anything else is none.
    pub fn rotation_from_code(code: u8) -> (r: ImageRotation)
        ensures
            r == rotation_of_code(code),
    {
        match code {
            1 => ImageRotation::Clockwise90,
            2 => ImageRotation::CounterClockwise90,
            3 => ImageRotation::Rotate180,
            _ => ImageRotation::NoRotation,
        }
    }
}

/// The transform each one-byte code stands for.
pub open spec fn transform_of_code(code: u8) -> ImageTransform {
    if code == 1 {
        ImageTransform { rotation: ImageRotation::Clockwise90, flip: ImageFlip { horizontal: false, vertical: false } }
    } else if code == 2 {
        ImageTransform { rotation: ImageRotation::CounterClockwise90, flip: ImageFlip { horizontal: false, vertical: false } }
    } else if code == 3 {
        ImageTransform { rotation: ImageRotation::Rotate180, flip: ImageFlip { horizontal: false, vertical: false } }
    } else if code == 4 {
        ImageTransform { rotation: ImageRotation::NoRotation, flip: ImageFlip { horizontal: true, vertical: false } }
    } else if code == 5 {
        ImageTransform { rotation: ImageRotation::NoRotation, flip: ImageFlip { horizontal: false, vertical: true } }
    } else if code == 6 {
        ImageTransform { rotation: ImageRotation::NoRotation, flip: ImageFlip { horizontal: true, vertical: true } }
    } else if code == 7 {
        ImageTransform { rotation: ImageRotation::Clockwise90, flip: ImageFlip { horizontal: true, vertical: false } }
    } else {
        identity_transform()
    }
}

/// The rotation each one-byte code stands for.
pub open spec fn rotation_of_code(code: u8) -> ImageRotation {
    if code == 1 {
        ImageRotation::Clockwise90
    } else if code == 2 {
        ImageRotation::CounterClockwise90
    } else if code == 3 {
        ImageRotation::Rotate180
    } else {
        ImageRotation::NoRotation
    }
}

/// Source row fetched for destination pixel `(r, c)` of a `w` by `h` blit:
/// the rotation picks a cell, then a vertical flip mirrors its row.
pub open spec fn src_row(t: ImageTransform, w: int, h: int, r: int, c: int) -> int {
    let rr = match t.rotation {
        ImageRotation::NoRotation => r,
        ImageRotation::Clockwise90 => w - 1 - c,
        ImageRotation::CounterClockwise90 => c,
        ImageRotation::Rotate180 => h - 1 - r,
    };
    if t.flip.vertical {
        h - 1 - rr
    } else {
        rr
    }
}

/// Source column fetched for destination pixel `(r, c)` of a `w` by `h`
/// blit: the rotation picks a cell, then a horizontal flip mirrors its
/// column.
pub open spec fn src_col(t: ImageTransform, w: int, h: int, r: int, c: int) -> int {
    let cc = match t.rotation {
        ImageRotation::NoRotation => c,
        ImageRotation::Clockwise90 => r,
        ImageRotation::CounterClockwise90 => h - 1 - r,
        ImageRotation::Rotate180 => w - 1 - c,
    };
    if t.flip.horizontal {
        w - 1 - cc
    } else {
        cc
    }
}

/// Flat index into the source pixel slice, `w` cells per source row.
pub open spec fn src_index(t: ImageTransform, w: int, h: int, r: int, c: int) -> int {
    src_row(t, w, h, r, c) * w + src_col(t, w, h, r, c)
}

/// Computes the source map index; the result can be negative or past the
/// source slice, which a caller skips.
pub fn src_index_exec(t: ImageTransform, w: usize, h: usize, r: usize, c: usize) -> (si: i64)
    requires
        w <= 4096,
        h <= 4096,
        r < h,
        c < w,
    ensures
        si == src_index(t, w as int, h as int, r as int, c as int),
        -0x4000000 <= si <= 0x4000000,
{
    let rr: i64 = match t.rotation {
        ImageRotation::NoRotation => r as i64,
        ImageRotation::Clockwise90 => w as i64 - 1 - c as i64,
        ImageRotation::CounterClockwise90 => c as i64,
        ImageRotation::Rotate180 => h as i64 - 1 - r as i64,
    };
    let rr: i64 = if t.flip.vertical {
        h as i64 - 1 - rr
    } else {
        rr
    };
    let cc: i64 = match t.rotation {
        ImageRotation::NoRotation => c as i64,
        ImageRotation::Clockwise90 => r as i64,
        ImageRotation::CounterClockwise90 => h as i64 - 1 - r as i64,
        ImageRotation::Rotate180 => w as i64 - 1 - c as i64,
    };
    let cc: i64 = if t.flip.horizontal {
        w as i64 - 1 - cc
    } else {
        cc
    };
    proof {
        assert(-0x2000 <= rr <= 0x2000 && -0x2000 <= cc <= 0x2000);
        assert(rr * w <= 0x2000 * 0x1000 && rr * w >= -(0x2000 * 0x1000)) by (nonlinear_arith)
            requires
                -0x2000 <= rr <= 0x2000 && 0 <= w <= 0x1000,
        ;
    }
    rr * w as i64 + cc
}

/// Pixel content an image shows after one blit with transform `t`: cell
/// `i` of the result is the source cell that the destination pixel at row
/// `i / w`, column `i % w` fetches through the source map.
pub open spec fn transformed(data: Seq<u16>, t: ImageTransform, w: int, h: int) -> Seq<u16> {
    Seq::new((w * h) as nat, |i: int| data[src_index(t, w, h, i / w, i % w)])
}

/// A half-turn is its own inverse on destination coordinates: applying the
/// half-turn source map twice gives back the pixel it started from.
pub proof fn lemma_rotate180_twice_coords(t: ImageTransform, w: int, h: int, r: int, c: int)
    requires
        t.rotation == ImageRotation::Rotate180,
        !t.flip.horizontal,
        !t.flip.vertical,
        0 <= r < h,
        0 <= c < w,
    ensures
        src_row(t, w, h, src_row(t, w, h, r, c), src_col(t, w, h, r, c)) == r,
        src_col(t, w, h, src_row(t, w, h, r, c), src_col(t, w, h, r, c)) == c,
{
}

/// A quarter turn clockwise undoes a quarter turn counter-clockwise on a
/// square blit: fetching through the counter-clockwise map and then the
/// clockwise map gives back the starting pixel.
pub proof fn lemma_cw_then_ccw_coords(
    tcw: ImageTransform,
    tccw: ImageTransform,
    w: int,
    h: int,
    r: int,
    c: int,
)
    requires
        tcw.rotation == ImageRotation::Clockwise90,
        !tcw.flip.horizontal,
        !tcw.flip.vertical,
        tccw.rotation == ImageRotation::CounterClockwise90,
        !tccw.flip.horizontal,
        !tccw.flip.vertical,
        w == h,
        0 <= r < h,
        0 <= c < w,
    ensures
        src_row(tcw, w, h, src_row(tccw, w, h, r, c), src_col(tccw, w, h, r, c)) == r,
        src_col(tcw, w, h, src_row(tccw, w, h, r, c), src_col(tccw, w, h, r, c)) == c,
{
}

/// Blitting an image with a half turn and blitting the result with a half
/// turn again restores the original pixel content, whatever the image size.
pub proof fn lemma_rotate180_twice_content(data: Seq<u16>, t: ImageTransform, w: int, h: int)
    requires
        t.rotation == ImageRotation::Rotate180,
        !t.flip.horizontal,
        !t.flip.vertical,
        1 <= w,
        1 <= h,
        data.len() == w * h,
    ensures
        transformed(transformed(data, t, w, h), t, w, h) == data,
{
    lemma_double_blit_identity(data, t, t, w, h);
}

/// Blitting an image with a quarter turn clockwise and blitting the result
/// with a quarter turn counter-clockwise restores the original pixel
/// content of a square image.
pub proof fn lemma_cw_then_ccw_content(
    data: Seq<u16>,
    tcw: ImageTransform,
    tccw: ImageTransform,
    w: int,
    h: int,
)
    requires
        tcw.rotation == ImageRotation::Clockwise90,
        !tcw.flip.horizontal,
        !tcw.flip.vertical,
        tccw.rotation == ImageRotation::CounterClockwise90,
        !tccw.flip.horizontal,
        !tccw.flip.vertical,
        w == h,
        1 <= w,
        data.len() == w * h,
    ensures
        transformed(transformed(data, tcw, w, h), tccw, w, h) == data,
{
    lemma_double_blit_identity(data, tcw, tccw, w, h);
}

/// Two successive blits whose source maps compose to the identity leave the
/// pixel content unchanged.
proof fn lemma_double_blit_identity(
    data: Seq<u16>,
    t1: ImageTransform,
    t2: ImageTransform,
    w: int,
    h: int,
)
    requires
        1 <= w,
        1 <= h,
        data.len() == w * h,
        forall|r: int, c: int|
            0 <= r < h && 0 <= c < w ==> {
                &&& 0 <= #[trigger] src_row(t2, w, h, r, c) < h
                &&& 0 <= #[trigger] src_col(t2, w, h, r, c) < w
                &&& src_row(t1, w, h, src_row(t2, w, h, r, c), src_col(t2, w, h, r, c)) == r
                &&& src_col(t1, w, h, src_row(t2, w, h, r, c), src_col(t2, w, h, r, c)) == c
            },
    ensures
        transformed(transformed(data, t1, w, h), t2, w, h) == data,
{
    let once = transformed(data, t1, w, h);
    let twice = transformed(once, t2, w, h);
    assert(twice.len() == data.len());
    assert forall|i: int| 0 <= i < data.len() implies twice[i] == data[i] by {
        lemma_fundamental_div_mod(i, w);
        let r = i / w;
        let c = i % w;
        assert(r >= 0) by (nonlinear_arith)
            requires
                i >= 0 && w > 0 && i == w * r + c && 0 <= c < w,
        ;
        assert(r < h) by (nonlinear_arith)
            requires
                i < w * h && w > 0 && i == w * r + c && 0 <= c < w && r >= 0,
        ;
        let sr = src_row(t2, w, h, r, c);
        let sc = src_col(t2, w, h, r, c);
        let j = src_index(t2, w, h, r, c);
        assert(0 <= sr * w && sr * w + sc < h * w) by (nonlinear_arith)
            requires
                0 <= sr < h && 0 <= sc < w && 0 < w,
        ;
        assert(h * w == w * h) by (nonlinear_arith);
        lemma_fundamental_div_mod_converse(j, w, sr, sc);
        assert(twice[i] == once[j]);
        assert(once[j] == data[src_index(t1, w, h, sr, sc)]);
        assert(src_index(t1, w, h, sr, sc) == r * w + c);
        assert(r * w == w * r) by (nonlinear_arith);
    }
    assert(twice =~= data);
}

} // verus!
