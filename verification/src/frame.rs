use vstd::prelude::*;
use crate::error::CaptureError;
use crate::format::{rgba_of, PixelFormat};

verus! {

/// Width of every preview frame, in pixels.
pub const PREVIEW_WIDTH: u32 = 160;

/// Height of every preview frame, in pixels.
pub const PREVIEW_HEIGHT: u32 = 90;

/// Bytes that resizing to the preview height needs per source column
/// between its two passes: `PREVIEW_HEIGHT` pixels of four 4-byte
/// channels.
pub const RESIZE_COLUMN_BYTES: u64 = 1440;

/// Whether an image of this width can be resized on this machine. Always
/// true where addresses have 64 bits.
pub open spec fn resizable_width(width: u32) -> bool {
    width * RESIZE_COLUMN_BYTES <= isize::MAX
}

pub(crate) fn is_resizable_width(width: u32) -> (b: bool)
    ensures
        b == resizable_width(width),
{
    (width as u64) * RESIZE_COLUMN_BYTES <= isize::MAX as u64
}

/// One frame as the capture source delivered it.
#[derive(Debug, PartialEq, Eq)]
pub struct RawFrame {
    pub format: PixelFormat,
    pub width: u32,
    pub height: u32,
    /// Distance in bytes between the starts of two consecutive rows.
    pub stride: usize,
    pub data: Vec<u8>,
    /// Capture timestamp as reported by the source.
    pub display_time: u64,
}

impl RawFrame {
    /// A frame that can be normalised: positive dimensions, rows that fit
    /// into the stride, a buffer that holds every row, and sizes the
    /// machine can address.
    pub open spec fn well_formed(&self) -> bool {
        &&& self.width >= 1
        &&& self.height >= 1
        &&& self.stride >= self.width * self.format.spec_bytes_per_pixel()
        &&& self.stride * (self.height - 1) + self.width * self.format.spec_bytes_per_pixel()
            <= self.data@.len()
        &&& self.width * self.height * 4 <= usize::MAX
        &&& resizable_width(self.width)
    }

    /// Offset in `data` of the first byte of pixel `(x, y)`.
    pub open spec fn source_offset(&self, x: int, y: int) -> int {
        self.stride * y + self.format.spec_bytes_per_pixel() * x
    }

    /// The RGBA value of pixel `(x, y)`.
    pub open spec fn rgba_at(&self, x: int, y: int) -> Seq<u8> {
        rgba_of(self.format, self.data@, self.source_offset(x, y))
    }

    /// Byte `i` of the tightly packed RGBA image of this frame.
    pub open spec fn normalized_byte(&self, i: int) -> u8 {
        self.rgba_at((i / 4) % (self.width as int), (i / 4) / (self.width as int))[i % 4]
    }

    /// The tightly packed RGBA image of this frame, row by row.
    pub open spec fn normalized(&self) -> Seq<u8> {
        Seq::new((self.width * self.height * 4) as nat, |i: int| self.normalized_byte(i))
    }

    /// Builds a frame from what a capture source hands over: signed
    /// dimensions and one buffer, whose stride is the buffer's length
    /// divided by the height.
    pub fn from_packed(
        format: PixelFormat,
        width: i32,
        height: i32,
        data: Vec<u8>,
        display_time: u64,
    ) -> (r: Result<RawFrame, CaptureError>)
        ensures
            width >= 1 && height >= 1 ==> r.is_ok(),
            width < 1 || height < 1 ==> r == Err::<RawFrame, CaptureError>(
                CaptureError::NormalizationFailed,
            ),
            r matches Ok(f) ==> {
                &&& f.format == format
                &&& f.width == width
                &&& f.height == height
                &&& f.stride == data@.len() / (height as nat)
                &&& f.data == data
                &&& f.display_time == display_time
            },
    {
        if width < 1 || height < 1 {
            return Err(CaptureError::NormalizationFailed);
        }
        let stride: usize = data.len() / (height as usize);
        Ok(RawFrame { format, width: width as u32, height: height as u32, stride, data, display_time })
    }
}

/// A tightly packed RGBA8 image with positive dimensions.
#[derive(Debug, PartialEq, Eq)]
pub struct NormalizedFrame {
    width: u32,
    height: u32,
    data: Vec<u8>,
}

impl NormalizedFrame {
    #[verifier::type_invariant]
    spec fn packed(&self) -> bool {
        &&& self.width >= 1
        &&& self.height >= 1
        &&& self.data@.len() == self.width * self.height * 4
        &&& resizable_width(self.width)
    }

    pub closed spec fn spec_width(&self) -> u32 {
        self.width
    }

    pub closed spec fn spec_height(&self) -> u32 {
        self.height
    }

    pub closed spec fn view(&self) -> Seq<u8> {
        self.data@
    }

    /// Positive dimensions, exactly four bytes per pixel, and a width
    /// that can be resized.
    pub open spec fn well_formed(&self) -> bool {
        &&& self.spec_width() >= 1
        &&& self.spec_height() >= 1
        &&& self@.len() == self.spec_width() * self.spec_height() * 4
        &&& resizable_width(self.spec_width())
    }

    /// What `from_rgba` accepts.
    pub open spec fn accepts(width: u32, height: u32, len: nat) -> bool {
        &&& width >= 1
        &&& height >= 1
        &&& len == width * height * 4
        &&& resizable_width(width)
    }

    /// Wraps an RGBA8 buffer, which must hold exactly `width * height * 4`
    /// bytes for positive dimensions.
    pub fn from_rgba(width: u32, height: u32, data: Vec<u8>) -> (r: Result<
        NormalizedFrame,
        CaptureError,
    >)
        ensures
            Self::accepts(width, height, data@.len()) ==> r.is_ok(),
            !Self::accepts(width, height, data@.len()) ==> r == Err::<NormalizedFrame, CaptureError>(
                CaptureError::NormalizationFailed,
            ),
            r matches Ok(f) ==> f.well_formed() && f.spec_width() == width && f.spec_height()
                == height && f@ == data@,
    {
        if width < 1 || height < 1 || !is_resizable_width(width) {
            return Err(CaptureError::NormalizationFailed);
        }
        assert(0 <= (width as u128) * (height as u128) <= 0xFFFF_FFFF * 0xFFFF_FFFF)
            by (nonlinear_arith)
            requires
                0 <= width <= 0xFFFF_FFFF,
                0 <= height <= 0xFFFF_FFFF,
        ;
        let expected: u128 = (width as u128) * (height as u128) * 4;
        if data.len() as u128 != expected {
            return Err(CaptureError::NormalizationFailed);
        }
        Ok(NormalizedFrame { width, height, data })
    }

    /// Wraps a buffer already known to hold the whole image.
    pub(crate) fn assemble(width: u32, height: u32, data: Vec<u8>) -> (f: NormalizedFrame)
        requires
            width >= 1,
            height >= 1,
            data@.len() == width * height * 4,
            resizable_width(width),
        ensures
            f.well_formed(),
            f.spec_width() == width,
            f.spec_height() == height,
            f@ == data@,
    {
        NormalizedFrame { width, height, data }
    }

    pub fn width(&self) -> (w: u32)
        ensures
            w == self.spec_width(),
    {
        self.width
    }

    pub fn height(&self) -> (h: u32)
        ensures
            h == self.spec_height(),
    {
        self.height
    }

    /// The pixels; every frame of this type is well formed.
    pub fn data(&self) -> (d: &Vec<u8>)
        ensures
            d@ == self@,
            self.well_formed(),
    {
        proof {
            use_type_invariant(self);
        }
        &self.data
    }

    /// Gives up the frame for its buffer.
    pub fn into_data(self) -> (d: Vec<u8>)
        ensures
            d@ == self@,
    {
        self.data
    }
}

/// A frame at the fixed preview resolution; the payload handed to the
/// subscriber.
#[derive(Debug, PartialEq, Eq)]
pub struct PreviewFrame {
    pub image: Vec<u8>,
    pub width: u32,
    pub height: u32,
}

impl PreviewFrame {
    /// The fixed preview resolution and four bytes per pixel.
    pub open spec fn well_formed(&self) -> bool {
        &&& self.width == PREVIEW_WIDTH
        &&& self.height == PREVIEW_HEIGHT
        &&& self.image@.len() == self.width * self.height * 4
    }
}

} // verus!
