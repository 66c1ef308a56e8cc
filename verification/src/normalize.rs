use vstd::prelude::*;
use vstd::arithmetic::div_mod::lemma_fundamental_div_mod_converse;
use crate::error::CaptureError;
use crate::frame::{is_resizable_width, NormalizedFrame, RawFrame};

verus! {

/// The output length of a frame that can be normalised, `None` for one
/// that cannot.
fn checked_layout(raw: &RawFrame) -> (r: Option<usize>)
    ensures
        raw.well_formed() <==> r.is_some(),
        r matches Some(n) ==> n == raw.width * raw.height * 4,
{
    if raw.width < 1 || raw.height < 1 || !is_resizable_width(raw.width) {
        return None;
    }
    let bpp: usize = raw.format.bytes_per_pixel();
    let w: usize = raw.width as usize;
    let h: usize = raw.height as usize;
    let row: usize = match w.checked_mul(bpp) {
        Some(v) => v,
        None => {
            return None;
        },
    };
    if raw.stride < row {
        return None;
    }
    assert(raw.data.len() == raw.data@.len());
    let last: usize = match raw.stride.checked_mul(h - 1) {
        Some(v) => v,
        None => {
            return None;
        },
    };
    let need: usize = match last.checked_add(row) {
        Some(v) => v,
        None => {
            return None;
        },
    };
    if need > raw.data.len() {
        return None;
    }
    let pixels: usize = match w.checked_mul(h) {
        Some(v) => v,
        None => {
            assert(w * h * 4 >= w * h) by (nonlinear_arith)
                requires
                    w >= 0,
                    h >= 0,
            ;
            return None;
        },
    };
    match pixels.checked_mul(4) {
        Some(n) => Some(n),
        None => None,
    }
}

/// Pixel `(x, y)` of the normalised image is the converted source pixel
/// at byte offset `stride * y + bytes_per_pixel * x`, whatever padding
/// the source rows carry.
pub proof fn lemma_normalized_pixel(raw: RawFrame, x: int, y: int)
    requires
        raw.well_formed(),
        0 <= x < raw.width,
        0 <= y < raw.height,
    ensures
        4 * (y * raw.width + x) + 4 <= raw.normalized().len(),
        raw.normalized().subrange(4 * (y * raw.width + x), 4 * (y * raw.width + x) + 4)
            == raw.rgba_at(x, y),
{
    let w = raw.width as int;
    let h = raw.height as int;
    let p = y * w + x;
    assert(0 <= y * w && (y + 1) * w <= h * w && (y + 1) * w == y * w + w) by (nonlinear_arith)
        requires
            0 <= y,
            y + 1 <= h,
            w >= 0,
    ;
    assert(h * w == w * h) by (nonlinear_arith);
    lemma_fundamental_div_mod_converse(p, w, y, x);
    let part = raw.normalized().subrange(4 * p, 4 * p + 4);
    assert forall|c: int| 0 <= c < 4 implies part[c] == raw.rgba_at(x, y)[c] by {
        assert((4 * p + c) / 4 == p);
        assert((4 * p + c) % 4 == c);
        assert(part[c] == raw.normalized_byte(4 * p + c));
    }
    assert(part =~= raw.rgba_at(x, y));
}

/// Converts a raw frame to tightly packed RGBA8.
///
/// Every format of the closed set is converted. A frame that is not
/// well formed (a zero dimension, a stride shorter than a row, a buffer
/// that ends before the last row does) is refused.
pub fn normalize(raw: &RawFrame) -> (r: Result<NormalizedFrame, CaptureError>)
    ensures
        raw.well_formed() ==> r.is_ok(),
        !raw.well_formed() ==> r == Err::<NormalizedFrame, CaptureError>(
            CaptureError::NormalizationFailed,
        ),
        r matches Ok(f) ==> {
            &&& f.well_formed()
            &&& f.spec_width() == raw.width
            &&& f.spec_height() == raw.height
            &&& f@ == raw.normalized()
        },
{
    let total: usize = match checked_layout(raw) {
        Some(n) => n,
        None => {
            return Err(CaptureError::NormalizationFailed);
        },
    };
    let bpp: usize = raw.format.bytes_per_pixel();
    let w: usize = raw.width as usize;
    let h: usize = raw.height as usize;
    let mut out: Vec<u8> = Vec::with_capacity(total);
    let mut y: usize = 0;
    while y < h
        invariant
            raw.well_formed(),
            w == raw.width,
            h == raw.height,
            bpp == raw.format.spec_bytes_per_pixel(),
            y <= h,
            out@.len() == 4 * (y * w),
            forall|i: int| 0 <= i < out@.len() ==> out@[i] == raw.normalized_byte(i),
        decreases h - y,
    {
        let mut x: usize = 0;
        while x < w
            invariant
                raw.well_formed(),
                w == raw.width,
                h == raw.height,
                bpp == raw.format.spec_bytes_per_pixel(),
                y < h,
                x <= w,
                out@.len() == 4 * (y * w + x),
                forall|i: int| 0 <= i < out@.len() ==> out@[i] == raw.normalized_byte(i),
            decreases w - x,
        {
            proof {
                let s = raw.stride as int;
                let b = bpp as int;
                let yi = y as int;
                let xi = x as int;
                let wi = w as int;
                let hi = h as int;
                assert(0 <= s * yi <= s * (hi - 1)) by (nonlinear_arith)
                    requires
                        0 <= yi <= hi - 1,
                        s >= 0,
                ;
                assert(0 <= b * xi && b * xi + b <= wi * b) by (nonlinear_arith)
                    requires
                        0 <= xi,
                        xi + 1 <= wi,
                        b >= 0,
                ;
                assert(raw.data.len() == raw.data@.len());
            }
            let off: usize = raw.stride * y + bpp * x;
            let px: [u8; 4] = raw.format.convert_pixel(&raw.data, off);
            let ghost before = out@;
            out.push(px[0]);
            out.push(px[1]);
            out.push(px[2]);
            out.push(px[3]);
            proof {
                let p = y * w + x;
                lemma_fundamental_div_mod_converse(p, w as int, y as int, x as int);
                assert(px@ == raw.rgba_at(x as int, y as int));
                assert forall|i: int| 0 <= i < out@.len() implies out@[i] == raw.normalized_byte(
                    i,
                ) by {
                    if i >= 4 * p {
                        assert(i / 4 == p);
                        assert(out@[i] == px@[i - 4 * p]);
                    } else {
                        assert(out@[i] == before[i]);
                    }
                }
            }
            x += 1;
        }
        proof {
            assert(y * w + w == (y + 1) * w) by (nonlinear_arith);
        }
        y += 1;
    }
    proof {
        assert(h * w == w * h) by (nonlinear_arith);
        assert(out@ =~= raw.normalized());
    }
    Ok(NormalizedFrame::assemble(raw.width, raw.height, out))
}

} // verus!
