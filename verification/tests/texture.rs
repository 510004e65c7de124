use fyrox_ui_sdl3::texture::{
    fallback_upload, plan_upload, PixelLayout, TextureUpload, UploadError, FALLBACK_PIXEL,
};

#[test]
fn bytes_per_pixel_of_each_layout() {
    assert_eq!(PixelLayout::Alpha8.bytes_per_pixel(), 1);
    assert_eq!(PixelLayout::Rgba8.bytes_per_pixel(), 4);
}

#[test]
fn atlas_page_of_matching_length_is_accepted() {
    assert_eq!(
        plan_upload(PixelLayout::Alpha8, 256, 256, 65536),
        Ok(TextureUpload { layout: PixelLayout::Alpha8, width: 256, height: 256, size: 65536 })
    );
}

#[test]
fn rgba_texture_takes_four_bytes_a_pixel() {
    assert_eq!(
        plan_upload(PixelLayout::Rgba8, 3, 5, 60),
        Ok(TextureUpload { layout: PixelLayout::Rgba8, width: 3, height: 5, size: 60 })
    );
}

#[test]
fn wrong_length_is_refused() {
    assert_eq!(
        plan_upload(PixelLayout::Rgba8, 3, 5, 15),
        Err(UploadError::SizeMismatch { expected: 60, actual: 15 })
    );
    assert_eq!(
        plan_upload(PixelLayout::Alpha8, 2, 2, 5),
        Err(UploadError::SizeMismatch { expected: 4, actual: 5 })
    );
    assert_eq!(
        plan_upload(PixelLayout::Alpha8, 0, 7, 1),
        Err(UploadError::SizeMismatch { expected: 0, actual: 1 })
    );
}

#[test]
fn empty_texture_of_empty_block_is_accepted() {
    assert_eq!(
        plan_upload(PixelLayout::Rgba8, 0, 9, 0),
        Ok(TextureUpload { layout: PixelLayout::Rgba8, width: 0, height: 9, size: 0 })
    );
}

#[test]
fn texture_beyond_one_transfer_is_too_large() {
    assert_eq!(plan_upload(PixelLayout::Alpha8, 65536, 65536, 0), Err(UploadError::TooLarge));
    assert_eq!(plan_upload(PixelLayout::Rgba8, 32768, 32768, 0), Err(UploadError::TooLarge));
    assert_eq!(
        plan_upload(PixelLayout::Alpha8, u32::MAX, u32::MAX, usize::MAX),
        Err(UploadError::TooLarge)
    );
    assert_eq!(
        plan_upload(PixelLayout::Alpha8, 65535, 65537, 0xFFFF_FFFF),
        Ok(TextureUpload {
            layout: PixelLayout::Alpha8,
            width: 65535,
            height: 65537,
            size: 0xFFFF_FFFF
        })
    );
}

#[test]
fn fallback_is_one_opaque_pixel() {
    let upload = fallback_upload();
    assert_eq!(
        upload,
        TextureUpload { layout: PixelLayout::Alpha8, width: 1, height: 1, size: 1 }
    );
    assert_eq!(FALLBACK_PIXEL, 255);
    assert_eq!(plan_upload(upload.layout, upload.width, upload.height, 1), Ok(upload));
}
