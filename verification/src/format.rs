use vstd::prelude::*;

verus! {

/// The closed set of pixel encodings a capture source may deliver.
#[derive(Clone, Copy, Debug, PartialEq, Eq, Structural)]
pub enum PixelFormat {
    /// Packed 4:4:4 luma/chroma, three bytes per pixel in the order Y, U, V.
    Yuv,
    /// Blue, green, red, then a zero byte.
    Bgr0,
    /// Red, green, blue; three bytes per pixel.
    Rgb,
    /// Red, green, blue, then a padding byte.
    Rgbx,
    /// A padding byte, then blue, green, red.
    Xbgr,
    /// Blue, green, red, then a padding byte.
    Bgrx,
    /// Blue, green, red, alpha; the only format with real alpha.
    Bgra,
}

/// Clamp of a fixed-point colour value (scaled by 256) to one byte.
pub open spec fn clamp_scaled(v: int) -> u8 {
    if v < 0 {
        0u8
    } else if v / 256 > 255 {
        255u8
    } else {
        (v / 256) as u8
    }
}

/// BT.601 limited-range red from luma and chroma, in 8.8 fixed point.
pub open spec fn yuv_red(y: u8, u: u8, v: u8) -> u8 {
    clamp_scaled(298 * (y as int - 16) + 409 * (v as int - 128) + 128)
}

/// BT.601 limited-range green from luma and chroma, in 8.8 fixed point.
pub open spec fn yuv_green(y: u8, u: u8, v: u8) -> u8 {
    clamp_scaled(298 * (y as int - 16) - 100 * (u as int - 128) - 208 * (v as int - 128) + 128)
}

/// BT.601 limited-range blue from luma and chroma, in 8.8 fixed point.
pub open spec fn yuv_blue(y: u8, u: u8, v: u8) -> u8 {
    clamp_scaled(298 * (y as int - 16) + 516 * (u as int - 128) + 128)
}

/// The RGBA value of the pixel whose first byte is `src[off]`.
pub open spec fn rgba_of(format: PixelFormat, src: Seq<u8>, off: int) -> Seq<u8> {
    match format {
        PixelFormat::Yuv => seq![
            yuv_red(src[off], src[off + 1], src[off + 2]),
            yuv_green(src[off], src[off + 1], src[off + 2]),
            yuv_blue(src[off], src[off + 1], src[off + 2]),
            255u8,
        ],
        PixelFormat::Bgr0 => seq![src[off + 2], src[off + 1], src[off], 255u8],
        PixelFormat::Rgb => seq![src[off], src[off + 1], src[off + 2], 255u8],
        PixelFormat::Rgbx => seq![src[off], src[off + 1], src[off + 2], 255u8],
        PixelFormat::Xbgr => seq![src[off + 3], src[off + 2], src[off + 1], 255u8],
        PixelFormat::Bgrx => seq![src[off + 2], src[off + 1], src[off], 255u8],
        PixelFormat::Bgra => seq![src[off + 2], src[off + 1], src[off], src[off + 3]],
    }
}

/// Alpha is the source's own where the format carries one and fully
/// opaque everywhere else; every converted pixel has four bytes.
pub proof fn lemma_alpha(format: PixelFormat, src: Seq<u8>, off: int)
    ensures
        rgba_of(format, src, off).len() == 4,
        format.spec_has_alpha() ==> rgba_of(format, src, off)[3] == src[off + 3],
        !format.spec_has_alpha() ==> rgba_of(format, src, off)[3] == 255,
{
}

fn clamp_to_byte(v: i32) -> (b: u8)
    ensures
        b == clamp_scaled(v as int),
{
    if v < 0 {
        0
    } else if v / 256 > 255 {
        255
    } else {
        (v / 256) as u8
    }
}

impl PixelFormat {
    /// Number of source bytes one pixel occupies.
    pub open spec fn spec_bytes_per_pixel(self) -> nat {
        match self {
            PixelFormat::Yuv => 3,
            PixelFormat::Rgb => 3,
            _ => 4,
        }
    }

    /// Whether the fourth source byte is a real alpha value.
    pub open spec fn spec_has_alpha(self) -> bool {
        self == PixelFormat::Bgra
    }

    pub fn bytes_per_pixel(self) -> (n: usize)
        ensures
            n == self.spec_bytes_per_pixel(),
    {
        match self {
            PixelFormat::Yuv => 3,
            PixelFormat::Rgb => 3,
            _ => 4,
        }
    }

    pub fn has_alpha(self) -> (b: bool)
        ensures
            b == self.spec_has_alpha(),
    {
        match self {
            PixelFormat::Bgra => true,
            _ => false,
        }
    }

    /// Converts the pixel that starts at `src[off]` to `[R, G, B, A]`.
    ///
    /// Formats without alpha come out fully opaque.
    pub fn convert_pixel(self, src: &Vec<u8>, off: usize) -> (px: [u8; 4])
        requires
            off + self.spec_bytes_per_pixel() <= src@.len(),
        ensures
            px@ == rgba_of(self, src@, off as int),
    {
        assert(src.len() == src@.len());
        let px: [u8; 4] = match self {
            PixelFormat::Yuv => {
                let c: i32 = src[off] as i32 - 16;
                let d: i32 = src[off + 1] as i32 - 128;
                let e: i32 = src[off + 2] as i32 - 128;
                [
                    clamp_to_byte(298 * c + 409 * e + 128),
                    clamp_to_byte(298 * c - 100 * d - 208 * e + 128),
                    clamp_to_byte(298 * c + 516 * d + 128),
                    255,
                ]
            },
            PixelFormat::Bgr0 => [src[off + 2], src[off + 1], src[off], 255],
            PixelFormat::Rgb => [src[off], src[off + 1], src[off + 2], 255],
            PixelFormat::Rgbx => [src[off], src[off + 1], src[off + 2], 255],
            PixelFormat::Xbgr => [src[off + 3], src[off + 2], src[off + 1], 255],
            PixelFormat::Bgrx => [src[off + 2], src[off + 1], src[off], 255],
            PixelFormat::Bgra => [src[off + 2], src[off + 1], src[off], src[off + 3]],
        };
        assert(px@ =~= rgba_of(self, src@, off as int));
        px
    }
}

} // verus!
