//! Texture uploads: what has to hold of a block of pixels before it is staged
//! for the device.

use vstd::prelude::*;

verus! {

/// The channel layout of the pixels handed to an upload.
#[derive(Clone, Copy, Debug, PartialEq, Eq, Structural)]
pub enum PixelLayout {
    /// One byte per pixel; what glyph atlas pages hold.
    Alpha8,
    /// Four bytes per pixel: red, green, blue, alpha.
    Rgba8,
}

/// Why a block of pixels cannot be uploaded.
#[derive(Clone, Copy, Debug, PartialEq, Eq, Structural)]
pub enum UploadError {
    /// The texture needs more bytes than one transfer can carry.
    TooLarge,
    /// The block does not hold exactly the bytes the dimensions call for.
    SizeMismatch { expected: u32, actual: usize },
}

/// A checked upload: `size` bytes fill a `width` x `height` texture.
#[derive(Clone, Copy, Debug, PartialEq, Eq, Structural)]
pub struct TextureUpload {
    pub layout: PixelLayout,
    pub width: u32,
    pub height: u32,
    pub size: u32,
}

/// The byte that fills the fallback texture: full coverage.
pub const FALLBACK_PIXEL: u8 = 255;

impl PixelLayout {
    pub open spec fn spec_bytes_per_pixel(self) -> nat {
        match self {
            PixelLayout::Alpha8 => 1,
            PixelLayout::Rgba8 => 4,
        }
    }

    /// The number of bytes one pixel takes.
    pub fn bytes_per_pixel(self) -> (n: u32)
        ensures
            n == self.spec_bytes_per_pixel(),
    {
        match self {
            PixelLayout::Alpha8 => 1,
            PixelLayout::Rgba8 => 4,
        }
    }
}

/// The number of bytes a texture of the given dimensions holds.
pub open spec fn payload_len(layout: PixelLayout, width: u32, height: u32) -> nat {
    width as nat * height as nat * layout.spec_bytes_per_pixel()
}

/// Checks a block of `pixel_len` bytes against the dimensions it is to fill.
///
/// The upload goes ahead exactly when the block is as long as the dimensions
/// call for and that length fits one transfer.
pub fn plan_upload(layout: PixelLayout, width: u32, height: u32, pixel_len: usize) -> (r: Result<
    TextureUpload,
    UploadError,
>)
    ensures
        payload_len(layout, width, height) > u32::MAX ==> r == Err::<TextureUpload, UploadError>(
            UploadError::TooLarge,
        ),
        payload_len(layout, width, height) <= u32::MAX && pixel_len != payload_len(
            layout,
            width,
            height,
        ) ==> r == Err::<TextureUpload, UploadError>(
            UploadError::SizeMismatch {
                expected: payload_len(layout, width, height) as u32,
                actual: pixel_len,
            },
        ),
        payload_len(layout, width, height) <= u32::MAX && pixel_len == payload_len(
            layout,
            width,
            height,
        ) ==> r == Ok::<TextureUpload, UploadError>(
            TextureUpload { layout, width, height, size: pixel_len as u32 },
        ),
{
    let bpp: u64 = layout.bytes_per_pixel() as u64;
    assert(width * height <= 0xFFFF_FFFF * 0xFFFF_FFFF) by (nonlinear_arith)
        requires
            0 <= width <= 0xFFFF_FFFF,
            0 <= height <= 0xFFFF_FFFF,
    ;
    let area: u64 = (width as u64) * (height as u64);
    if area > 0xFFFF_FFFF {
        assert(payload_len(layout, width, height) >= area) by (nonlinear_arith)
            requires
                payload_len(layout, width, height) == area * layout.spec_bytes_per_pixel(),
                layout.spec_bytes_per_pixel() >= 1,
                area >= 0,
        ;
        return Err(UploadError::TooLarge);
    }
    let bytes: u64 = area * bpp;
    if bytes > 0xFFFF_FFFF {
        return Err(UploadError::TooLarge);
    }
    let expected: u32 = bytes as u32;
    if pixel_len as u64 != bytes {
        return Err(UploadError::SizeMismatch { expected, actual: pixel_len });
    }
    Ok(TextureUpload { layout, width, height, size: expected })
}

/// The upload of the fallback texture: a single pixel of full coverage, which
/// draws as opaque white.
pub fn fallback_upload() -> (r: TextureUpload)
    ensures
        r == (TextureUpload { layout: PixelLayout::Alpha8, width: 1, height: 1, size: 1 }),
        r.size == payload_len(r.layout, r.width, r.height),
{
    TextureUpload { layout: PixelLayout::Alpha8, width: 1, height: 1, size: 1 }
}

} // verus!
