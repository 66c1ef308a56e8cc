use vstd::prelude::*;
use crate::error::CaptureError;
use crate::frame::{NormalizedFrame, PreviewFrame, RawFrame, PREVIEW_HEIGHT, PREVIEW_WIDTH};
use crate::normalize::normalize;

verus! {

/// The RGBA8 bytes that nearest-neighbour resizing of a `width` by
/// `height` RGBA8 image gives at `new_width` by `new_height`.
pub uninterp spec fn nearest_resized(
    pixels: Seq<u8>,
    width: u32,
    height: u32,
    new_width: u32,
    new_height: u32,
) -> Seq<u8>;

/// Calls `image::imageops::resize` with `FilterType::Nearest` on an RGBA8
/// image borrowed from `pixels`.
///
/// Trusted: the result is a function of the arguments alone and holds
/// four bytes for each pixel of the new size; when the new size equals
/// the old one the image is copied unchanged. The call allocates the
/// result and, between its two passes, an image of `width` by
/// `new_height` pixels with four 4-byte channels each; both must be
/// sizes a vector can have.
#[verifier::external_body]
fn resize_nearest(pixels: &Vec<u8>, width: u32, height: u32, new_width: u32, new_height: u32) -> (out:
    Vec<u8>)
    requires
        width >= 1,
        height >= 1,
        new_width >= 1,
        new_height >= 1,
        pixels@.len() == width * height * 4,
        new_width * new_height * 4 <= isize::MAX,
        width * new_height * 16 <= isize::MAX,
    ensures
        out@ == nearest_resized(pixels@, width, height, new_width, new_height),
        out@.len() == new_width * new_height * 4,
        new_width == width && new_height == height ==> out@ == pixels@,
{
    let source = image::ImageBuffer::<image::Rgba<u8>, &[u8]>::from_raw(
        width,
        height,
        pixels.as_slice(),
    ).unwrap();
    image::imageops::resize(
        &source,
        new_width,
        new_height,
        image::imageops::FilterType::Nearest,
    ).into_raw()
}

/// The preview image of a normalised frame.
pub open spec fn preview_of(pixels: Seq<u8>, width: u32, height: u32) -> Seq<u8> {
    nearest_resized(pixels, width, height, PREVIEW_WIDTH, PREVIEW_HEIGHT)
}

/// Resizes a normalised frame to the preview resolution by
/// nearest-neighbour sampling. Never fails.
pub fn downsample(frame: &NormalizedFrame) -> (p: PreviewFrame)
    ensures
        p.well_formed(),
        p.width == PREVIEW_WIDTH,
        p.height == PREVIEW_HEIGHT,
        p.image@ == preview_of(frame@, frame.spec_width(), frame.spec_height()),
        frame.spec_width() == PREVIEW_WIDTH && frame.spec_height() == PREVIEW_HEIGHT ==> p.image@
            == frame@,
{
    let pixels = frame.data();
    let image = resize_nearest(
        pixels,
        frame.width(),
        frame.height(),
        PREVIEW_WIDTH,
        PREVIEW_HEIGHT,
    );
    PreviewFrame { image, width: PREVIEW_WIDTH, height: PREVIEW_HEIGHT }
}

/// Normalises a raw frame and resizes it to the preview resolution.
///
/// Fails exactly on the frames that `normalize` refuses.
pub fn make_preview(raw: &RawFrame) -> (r: Result<PreviewFrame, CaptureError>)
    ensures
        raw.well_formed() ==> r.is_ok(),
        !raw.well_formed() ==> r == Err::<PreviewFrame, CaptureError>(
            CaptureError::NormalizationFailed,
        ),
        r matches Ok(p) ==> {
            &&& p.well_formed()
            &&& p.image@ == preview_of(raw.normalized(), raw.width, raw.height)
        },
{
    match normalize(raw) {
        Ok(frame) => Ok(downsample(&frame)),
        Err(e) => Err(e),
    }
}

} // verus!
