//! Pixel-format normalization.
//!
//! Every capture source hands the core an interleaved four-byte-per-pixel
//! image in B,G,R,A channel order, possibly with padded rows (a row stride
//! larger than four bytes per pixel). The routines here compact such a
//! buffer into the tightly packed R,G,B,A layout of the frame contract,
//! optionally forcing the alpha channel to fully opaque for sources whose
//! alpha bytes carry no meaning.

use vstd::arithmetic::mul::{lemma_mul_inequality, lemma_mul_upper_bound};
use vstd::arithmetic::div_mod::{
    lemma_div_pos_is_pos, lemma_fundamental_div_mod, lemma_mod_division_less_than_divisor,
    lemma_multiply_divide_lt,
};
use vstd::prelude::*;

use crate::frame::{frame_wf, FrameDataInternal};

verus! {

/// Flat index of channel `ch` of the pixel at row `y`, column `x` in a
/// tightly packed four-byte-per-pixel image of width `w`.
pub open spec fn packed_off(w: int, y: int, x: int, ch: int) -> int {
    (y * w + x) * 4 + ch
}

/// Flat index of channel `ch` of the pixel at row `y`, column `x` in a
/// source image whose rows start `stride` bytes apart.
pub open spec fn strided_off(stride: int, y: int, x: int, ch: int) -> int {
    y * stride + x * 4 + ch
}

/// The source channel that output channel `ch` is read from: the source is
/// ordered B,G,R,A and the output R,G,B,A, so red and blue trade places
/// while green and alpha stay put.
pub open spec fn source_channel(ch: int) -> int {
    if ch == 0 {
        2
    } else if ch == 2 {
        0
    } else {
        ch
    }
}

/// The byte that converting pixel (`y`, `x`) writes at output channel `ch`.
pub open spec fn converted_byte(
    src: Seq<u8>,
    stride: int,
    y: int,
    x: int,
    ch: int,
    force_opaque: bool,
) -> u8 {
    if force_opaque && ch == 3 {
        255u8
    } else {
        src[strided_off(stride, y, x, source_channel(ch))]
    }
}

/// `out` is exactly the tightly packed R,G,B,A image that converting the
/// B,G,R,A source `src` (rows `stride` bytes apart, `w` by `h` pixels)
/// must produce.
pub open spec fn converts(
    src: Seq<u8>,
    stride: int,
    w: int,
    h: int,
    force_opaque: bool,
    out: Seq<u8>,
) -> bool {
    &&& out.len() == w * h * 4
    &&& forall|y: int, x: int, ch: int|
        0 <= y < h && 0 <= x < w && 0 <= ch < 4 ==> out[#[trigger] packed_off(w, y, x, ch)]
            == converted_byte(src, stride, y, x, ch, force_opaque)
}

/// The declared extent really lies inside a source buffer of `len` bytes:
/// rows are at least `w * 4` bytes apart and the last row's `w * 4` pixel
/// bytes end within the buffer. A capture source's claimed dimensions are
/// never trusted without this check.
pub open spec fn source_in_bounds(len: int, stride: int, w: int, h: int) -> bool {
    &&& stride >= w * 4
    &&& h > 0 ==> (h - 1) * stride + w * 4 <= len
}

/// The conversion loop shared by both alpha treatments: scans `height`
/// rows of `width` pixels, skipping the padding bytes past `width * 4` in
/// each source row, and emits the channel-swapped, tightly packed image.
#[verifier::loop_isolation(false)]
fn convert_rows(
    src: &[u8],
    src_stride: usize,
    width: u32,
    height: u32,
    force_opaque: bool,
) -> (out: Vec<u8>)
    requires
        source_in_bounds(src@.len() as int, src_stride as int, width as int, height as int),
    ensures
        converts(src@, src_stride as int, width as int, height as int, force_opaque, out@),
{
    let n: usize = src.len();
    let w = width as usize;
    let h = height as usize;
    let mut out: Vec<u8> = Vec::new();
    let mut y: usize = 0;
    while y < h
        invariant
            y <= h,
            out@.len() == y as int * w as int * 4,
            forall|yy: int, xx: int, cc: int|
                0 <= yy < y && 0 <= xx < w && 0 <= cc < 4 ==> out@[#[trigger] packed_off(
                    w as int,
                    yy,
                    xx,
                    cc,
                )] == converted_byte(src@, src_stride as int, yy, xx, cc, force_opaque),
        decreases h - y,
    {
        proof {
            lemma_mul_inequality(y as int, h as int - 1, src_stride as int);
            assert(y as int * src_stride as int <= n as int);
        }
        let row: usize = y * src_stride;
        let mut x: usize = 0;
        while x < w
            invariant
                y < h,
                x <= w,
                row as int == y as int * src_stride as int,
                row as int <= (h as int - 1) * src_stride as int,
                out@.len() == (y as int * w as int + x as int) * 4,
                forall|yy: int, xx: int, cc: int|
                    ((0 <= yy < y && 0 <= xx < w) || (yy == y && 0 <= xx < x)) && 0 <= cc < 4
                        ==> out@[#[trigger] packed_off(w as int, yy, xx, cc)] == converted_byte(
                        src@,
                        src_stride as int,
                        yy,
                        xx,
                        cc,
                        force_opaque,
                    ),
            decreases w - x,
        {
            let ghost out0 = out@;
            let ghost w_i = w as int;
            let ghost s_i = src_stride as int;
            let ghost len0 = (y as int * w_i + x as int) * 4;
            proof {
                assert(x as int * 4 + 4 <= w_i * 4);
                assert(row as int + x as int * 4 + 4 <= n as int);
            }
            let base: usize = row + x * 4;
            let b0 = src[base];
            let b1 = src[base + 1];
            let b2 = src[base + 2];
            out.push(b2);
            out.push(b1);
            out.push(b0);
            if force_opaque {
                out.push(255u8);
            } else {
                out.push(src[base + 3]);
            }
            proof {
                assert forall|yy: int, xx: int, cc: int|
                    ((0 <= yy < y && 0 <= xx < w_i) || (yy == y && 0 <= xx < x + 1)) && 0 <= cc
                        < 4 implies out@[#[trigger] packed_off(w_i, yy, xx, cc)] == converted_byte(
                    src@,
                    s_i,
                    yy,
                    xx,
                    cc,
                    force_opaque,
                ) by {
                    if yy == y && xx == x {
                        assert(packed_off(w_i, yy, xx, cc) == len0 + cc);
                        assert(out@[len0 + cc] == converted_byte(
                            src@,
                            s_i,
                            y as int,
                            x as int,
                            cc,
                            force_opaque,
                        ));
                    } else {
                        if yy < y {
                            lemma_mul_inequality(yy + 1, y as int, w_i);
                            assert((yy + 1) * w_i == yy * w_i + w_i) by (nonlinear_arith);
                        }
                        assert(yy * w_i + xx < y as int * w_i + x as int);
                        assert(packed_off(w_i, yy, xx, cc) < len0);
                        assert(out@[packed_off(w_i, yy, xx, cc)] == out0[packed_off(
                            w_i,
                            yy,
                            xx,
                            cc,
                        )]);
                    }
                }
            }
            x = x + 1;
        }
        proof {
            assert((y as int + 1) * (w as int) == y as int * w as int + w as int)
                by (nonlinear_arith);
        }
        y = y + 1;
    }
    proof {
        assert(h as int * w as int == w as int * h as int) by (nonlinear_arith);
    }
    out
}

/// Compacts a padded B,G,R,A source into tightly packed R,G,B,A, keeping
/// the source's alpha bytes: the layout used when the source's alpha
/// channel carries real per-pixel information.
pub fn bgra_to_rgba_compact(src: &[u8], src_stride: usize, width: u32, height: u32) -> (out: Vec<
    u8,
>)
    requires
        source_in_bounds(src@.len() as int, src_stride as int, width as int, height as int),
    ensures
        converts(src@, src_stride as int, width as int, height as int, false, out@),
{
    convert_rows(src, src_stride, width, height, false)
}

/// Compacts a padded B,G,R,A source into tightly packed R,G,B,A, writing
/// every alpha byte as fully opaque: the layout used when the source
/// format carries no meaningful alpha, such as a screen bitmap.
pub fn bgra_to_rgba_compact_opaque(
    src: &[u8],
    src_stride: usize,
    width: u32,
    height: u32,
) -> (out: Vec<u8>)
    requires
        source_in_bounds(src@.len() as int, src_stride as int, width as int, height as int),
    ensures
        converts(src@, src_stride as int, width as int, height as int, true, out@),
{
    convert_rows(src, src_stride, width, height, true)
}

/// The full conversion contract: validates the declared extent against the
/// buffer actually supplied, then compacts and channel-swaps. Returns
/// `None`, reading nothing, when the declared dimensions do not fit the
/// buffer; the declared sizes come from a capture driver and are never
/// trusted bare.
pub fn compact_and_reorder(
    src: &[u8],
    src_row_stride_bytes: usize,
    width: u32,
    height: u32,
    force_opaque: bool,
) -> (out: Option<Vec<u8>>)
    ensures
        out is Some <==> source_in_bounds(
            src@.len() as int,
            src_row_stride_bytes as int,
            width as int,
            height as int,
        ),
        out matches Some(v) ==> converts(
            src@,
            src_row_stride_bytes as int,
            width as int,
            height as int,
            force_opaque,
            v@,
        ),
{
    let w4: u64 = (width as u64) * 4;
    if (src_row_stride_bytes as u64) < w4 {
        return None;
    }
    if height > 0 {
        let rows_above: u64 = ((height - 1) as u64);
        proof {
            lemma_mul_upper_bound(
                rows_above as int,
                0xFFFF_FFFF as int,
                src_row_stride_bytes as int,
                0xFFFF_FFFF_FFFF_FFFF as int,
            );
        }
        let need: u128 = (rows_above as u128) * (src_row_stride_bytes as u128) + (w4 as u128);
        if (src.len() as u128) < need {
            return None;
        }
    }
    Some(convert_rows(src, src_row_stride_bytes, width, height, force_opaque))
}

/// Builds a frame from a locked native pixel buffer's reported geometry
/// and bytes, preserving the source's alpha channel. Returns `None` when
/// the reported geometry does not fit the buffer or the row length
/// overflows the frame contract's stride field.
pub fn extract_frame(pixels: &[u8], width: u32, height: u32, src_stride: usize) -> (r: Option<
    FrameDataInternal,
>)
    ensures
        r is Some <==> source_in_bounds(
            pixels@.len() as int,
            src_stride as int,
            width as int,
            height as int,
        ) && width as int * 4 <= u32::MAX as int,
        r matches Some(f) ==> f.width == width,
        r matches Some(f) ==> f.height == height,
        r matches Some(f) ==> f.stride as int == width as int * 4,
        r matches Some(f) ==> frame_wf(f),
        r matches Some(f) ==> converts(
            pixels@,
            src_stride as int,
            width as int,
            height as int,
            false,
            f.data@,
        ),
{
    if width > u32::MAX / 4 {
        return None;
    }
    match compact_and_reorder(pixels, src_stride, width, height, false) {
        Some(data) => Some(
            FrameDataInternal { width, height, stride: width * 4, data },
        ),
        None => None,
    }
}

/// With the opaque flag set, every alpha byte of the converted image is
/// the maximum value, whatever the source held.
pub proof fn lemma_opaque_alpha(
    src: Seq<u8>,
    stride: int,
    w: int,
    h: int,
    out: Seq<u8>,
    y: int,
    x: int,
)
    requires
        converts(src, stride, w, h, true, out),
        0 <= y < h,
        0 <= x < w,
    ensures
        out[packed_off(w, y, x, 3)] == 255,
{
}

/// Converting a tightly packed image twice restores it byte for byte: the
/// red/blue swap is its own inverse, and with `force_opaque` unset the
/// alpha bytes ride along unchanged.
pub proof fn lemma_convert_round_trip(src: Seq<u8>, mid: Seq<u8>, out: Seq<u8>, w: int, h: int)
    requires
        w >= 0,
        h >= 0,
        src.len() == w * h * 4,
        converts(src, w * 4, w, h, false, mid),
        converts(mid, w * 4, w, h, false, out),
    ensures
        out =~= src,
{
    assert forall|i: int| 0 <= i < out.len() implies out[i] == src[i] by {
        let p = i / 4;
        let ch = i % 4;
        assert(w * h * 4 == 4 * (w * h)) by (nonlinear_arith);
        lemma_fundamental_div_mod(i, 4);
        lemma_mod_division_less_than_divisor(i, 4);
        lemma_div_pos_is_pos(i, 4);
        lemma_multiply_divide_lt(i, 4, w * h);
        assert(0 <= p < w * h);
        assert(w > 0) by {
            if w <= 0 {
                assert(w * h == 0) by (nonlinear_arith)
                    requires w == 0;
            }
        }
        let y = p / w;
        let x = p % w;
        lemma_fundamental_div_mod(p, w);
        lemma_mod_division_less_than_divisor(p, w);
        lemma_div_pos_is_pos(p, w);
        assert(w * h == h * w) by (nonlinear_arith);
        lemma_multiply_divide_lt(p, w, h);
        assert(0 <= y < h && 0 <= x < w);
        assert(y * w == w * y) by (nonlinear_arith);
        assert(i == packed_off(w, y, x, ch));
        assert forall|c: int| 0 <= c < 4 implies strided_off(w * 4, y, x, c) == packed_off(
            w,
            y,
            x,
            c,
        ) by {
            assert(y * (w * 4) == (y * w) * 4) by (nonlinear_arith);
        }
        assert(out[i] == converted_byte(mid, w * 4, y, x, ch, false));
        let sc = source_channel(ch);
        assert(out[i] == mid[packed_off(w, y, x, sc)]);
        assert(mid[packed_off(w, y, x, sc)] == converted_byte(src, w * 4, y, x, sc, false));
        assert(source_channel(sc) == ch);
        assert(out[i] == src[packed_off(w, y, x, ch)]);
    }
}

} // verus!
