use vstd::prelude::*;
use vstd::arithmetic::div_mod::lemma_fundamental_div_mod_converse;
use crate::error::CaptureError;
use crate::format::PixelFormat;
use crate::frame::RawFrame;

verus! {

/// Bytes one chroma row needs: a U and a V byte for every two columns.
pub open spec fn chroma_row_bytes(width: int) -> int {
    2 * ((width + 1) / 2)
}

/// Whether a luma plane and a half-resolution interleaved chroma plane
/// hold a `width` by `height` image that can be packed.
pub open spec fn planes_fit(
    width: i32,
    height: i32,
    luma_len: nat,
    luma_stride: i32,
    chroma_len: nat,
    chroma_stride: i32,
) -> bool {
    &&& width >= 1
    &&& height >= 1
    &&& luma_stride >= width
    &&& chroma_stride >= chroma_row_bytes(width as int)
    &&& luma_stride * (height - 1) + width <= luma_len
    &&& chroma_stride * ((height - 1) / 2) + chroma_row_bytes(width as int) <= chroma_len
    &&& width * height * 3 <= usize::MAX
}

/// Byte `i` of the packed Y, U, V image: pixel `(x, y)` takes its luma
/// from `(x, y)` and its chroma pair from `(x / 2, y / 2)`.
pub open spec fn packed_yuv_byte(
    width: int,
    luma: Seq<u8>,
    luma_stride: int,
    chroma: Seq<u8>,
    chroma_stride: int,
    i: int,
) -> u8 {
    let x = (i / 3) % width;
    let y = (i / 3) / width;
    if i % 3 == 0 {
        luma[luma_stride * y + x]
    } else if i % 3 == 1 {
        chroma[chroma_stride * (y / 2) + 2 * (x / 2)]
    } else {
        chroma[chroma_stride * (y / 2) + 2 * (x / 2) + 1]
    }
}

/// Packs a two-plane luma/chroma frame (full-resolution Y, then
/// interleaved U and V at half resolution in both directions) into a
/// `Yuv` raw frame of three bytes per pixel without row padding.
///
/// Planes that do not hold the whole image are refused.
pub fn pack_yuv_planes(
    width: i32,
    height: i32,
    luma: &Vec<u8>,
    luma_stride: i32,
    chroma: &Vec<u8>,
    chroma_stride: i32,
    display_time: u64,
) -> (r: Result<RawFrame, CaptureError>)
    ensures
        planes_fit(width, height, luma@.len(), luma_stride, chroma@.len(), chroma_stride)
            ==> r.is_ok(),
        !planes_fit(width, height, luma@.len(), luma_stride, chroma@.len(), chroma_stride) ==> r
            == Err::<RawFrame, CaptureError>(CaptureError::NormalizationFailed),
        r matches Ok(f) ==> {
            &&& f.format == PixelFormat::Yuv
            &&& f.width == width
            &&& f.height == height
            &&& f.stride == 3 * width
            &&& f.display_time == display_time
            &&& f.data@ == Seq::new(
                (width * height * 3) as nat,
                |i: int|
                    packed_yuv_byte(
                        width as int,
                        luma@,
                        luma_stride as int,
                        chroma@,
                        chroma_stride as int,
                        i,
                    ),
            )
        },
{
    if width < 1 || height < 1 || luma_stride < width || chroma_stride < 0 {
        return Err(CaptureError::NormalizationFailed);
    }
    let w: u64 = width as u64;
    let h: u64 = height as u64;
    let ls: u64 = luma_stride as u64;
    let cs: u64 = chroma_stride as u64;
    let cw: u64 = 2 * ((w + 1) / 2);
    if cs < cw {
        return Err(CaptureError::NormalizationFailed);
    }
    proof {
        assert(luma.len() == luma@.len());
        assert(chroma.len() == chroma@.len());
        assert(0 <= ls * (h - 1) <= 0x7fff_ffff * 0x7fff_ffff) by (nonlinear_arith)
            requires
                0 <= ls <= 0x7fff_ffff,
                0 <= h - 1 <= 0x7fff_ffff,
        ;
        assert(0 <= cs * ((h - 1) / 2) <= 0x7fff_ffff * 0x7fff_ffff) by (nonlinear_arith)
            requires
                0 <= cs <= 0x7fff_ffff,
                0 <= (h - 1) / 2 <= 0x7fff_ffff,
        ;
        assert(0 <= w * h <= 0x7fff_ffff * 0x7fff_ffff) by (nonlinear_arith)
            requires
                0 <= w <= 0x7fff_ffff,
                0 <= h <= 0x7fff_ffff,
        ;
    }
    let luma_need: u64 = ls * (h - 1) + w;
    let chroma_need: u64 = cs * ((h - 1) / 2) + cw;
    let total: u64 = w * h * 3;
    if luma_need > luma.len() as u64 || chroma_need > chroma.len() as u64 || total
        > usize::MAX as u64 {
        return Err(CaptureError::NormalizationFailed);
    }
    let mut out: Vec<u8> = Vec::with_capacity(total as usize);
    let mut y: u64 = 0;
    while y < h
        invariant
            w == width,
            h == height,
            ls == luma_stride,
            cs == chroma_stride,
            planes_fit(width, height, luma@.len(), luma_stride, chroma@.len(), chroma_stride),
            y <= h,
            out@.len() == 3 * (y * w),
            forall|i: int|
                0 <= i < out@.len() ==> out@[i] == packed_yuv_byte(
                    w as int,
                    luma@,
                    ls as int,
                    chroma@,
                    cs as int,
                    i,
                ),
        decreases h - y,
    {
        let mut x: u64 = 0;
        while x < w
            invariant
                w == width,
                h == height,
                ls == luma_stride,
                cs == chroma_stride,
                planes_fit(width, height, luma@.len(), luma_stride, chroma@.len(), chroma_stride),
                y < h,
                x <= w,
                out@.len() == 3 * (y * w + x),
                forall|i: int|
                    0 <= i < out@.len() ==> out@[i] == packed_yuv_byte(
                        w as int,
                        luma@,
                        ls as int,
                        chroma@,
                        cs as int,
                        i,
                    ),
            decreases w - x,
        {
            proof {
                let yi = y as int;
                let hi = h as int;
                let li = ls as int;
                let ci = cs as int;
                assert(luma.len() == luma@.len());
                assert(chroma.len() == chroma@.len());
                assert(0 <= li * yi <= li * (hi - 1)) by (nonlinear_arith)
                    requires
                        0 <= yi <= hi - 1,
                        li >= 0,
                ;
                assert(0 <= ci * (yi / 2) <= ci * ((hi - 1) / 2)) by (nonlinear_arith)
                    requires
                        0 <= yi / 2 <= (hi - 1) / 2,
                        ci >= 0,
                ;
            }
            let at_luma: usize = (ls * y + x) as usize;
            let at_chroma: usize = (cs * (y / 2) + 2 * (x / 2)) as usize;
            let ghost before = out@;
            out.push(luma[at_luma]);
            out.push(chroma[at_chroma]);
            out.push(chroma[at_chroma + 1]);
            proof {
                let p = y * w + x;
                lemma_fundamental_div_mod_converse(p, w as int, y as int, x as int);
                assert forall|i: int| 0 <= i < out@.len() implies out@[i] == packed_yuv_byte(
                    w as int,
                    luma@,
                    ls as int,
                    chroma@,
                    cs as int,
                    i,
                ) by {
                    if i >= 3 * p {
                        assert(i / 3 == p);
                        assert(i % 3 == i - 3 * p);
                    } else {
                        assert(out@[i] == before[i]);
                    }
                }
            }
            x += 1;
        }
        proof {
            assert(y * w + w == (y + 1) * w) by (nonlinear_arith);
        }
        y += 1;
    }
    proof {
        assert(h * w == w * h) by (nonlinear_arith);
        assert(w * 3 <= w * h * 3) by (nonlinear_arith)
            requires
                h >= 1,
                w >= 0,
        ;
        assert(out@ =~= Seq::new(
            (width * height * 3) as nat,
            |i: int|
                packed_yuv_byte(
                    width as int,
                    luma@,
                    luma_stride as int,
                    chroma@,
                    chroma_stride as int,
                    i,
                ),
        ));
    }
    Ok(
        RawFrame {
            format: PixelFormat::Yuv,
            width: width as u32,
            height: height as u32,
            stride: (w * 3) as usize,
            data: out,
            display_time,
        },
    )
}

} // verus!
