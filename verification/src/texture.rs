//! The texture of the material: decoding an image file into the pixels and
//! the layout that the upload to the GPU takes.

use vstd::prelude::*;

verus! {

/// A decoded image of any pixel format, as the `image` crate holds it.
#[verifier::external_type_specification]
#[verifier::external_body]
pub struct ExDynamicImage(image::DynamicImage);

/// The error of the `image` crate.
#[verifier::external_type_specification]
#[verifier::external_body]
pub struct ExImageError(image::ImageError);

/// `image::load_from_memory` guesses the format of an image file from its
/// first bytes and decodes it. Nothing is claimed of what it returns: the
/// guess also depends on the decoding hooks that the process has registered.
pub assume_specification[ image::load_from_memory ](buffer: &[u8]) -> Result<
    image::DynamicImage,
    image::ImageError,
>;

/// `DynamicImage::flipv` returns the image with its rows in reverse order.
/// Nothing is claimed of what it returns.
pub assume_specification[ image::DynamicImage::flipv ](
    img: &image::DynamicImage,
) -> image::DynamicImage;

/// `DynamicImage::into_rgba8` converts the image to four bytes per pixel.
/// What it returns is handed out as plain values: its width and height from
/// `ImageBuffer::dimensions`, and its bytes from `ImageBuffer::into_raw`.
/// Nothing is claimed of them.
#[verifier::external_body]
fn rgba8_pixels(img: image::DynamicImage) -> (raw: (u32, u32, Vec<u8>)) {
    let rgba = img.into_rgba8();
    let (width, height) = rgba.dimensions();
    (width, height, rgba.into_raw())
}

/// Pixels of four bytes each, row by row, and the layout of their upload.
pub struct TextureData {
    pub width: u32,
    pub height: u32,
    /// The bytes of one row of pixels.
    pub bytes_per_row: u32,
    /// The rows of the image.
    pub rows_per_image: u32,
    pub pixels: Vec<u8>,
}

/// Why an image cannot be uploaded as a texture.
#[derive(Copy, Clone, PartialEq, Eq, Structural, Debug)]
pub enum TextureError {
    /// The bytes are no image that can be decoded.
    Undecodable,
    /// The image has no pixels.
    Empty,
    /// A row of the image has more bytes than a `u32` counts.
    TooWide,
    /// The pixels are not four bytes for every pixel of every row.
    Malformed,
}

impl TextureData {
    /// The layout belongs to the size, and the pixels fill it.
    pub open spec fn wf(&self) -> bool {
        &&& self.width > 0
        &&& self.height > 0
        &&& self.bytes_per_row == 4 * self.width
        &&& self.rows_per_image == self.height
        &&& self.pixels@.len() == 4 * self.width * self.height
    }
}

/// What `texture_layout` returns for an image of the given size and pixels.
pub open spec fn texture_layout_of(width: u32, height: u32, pixels: Vec<u8>) -> Result<
    TextureData,
    TextureError,
> {
    if width == 0 || height == 0 {
        Err(TextureError::Empty)
    } else if 4 * width > u32::MAX {
        Err(TextureError::TooWide)
    } else if pixels@.len() != 4 * width * height {
        Err(TextureError::Malformed)
    } else {
        Ok(
            TextureData {
                width,
                height,
                bytes_per_row: (4 * width) as u32,
                rows_per_image: height,
                pixels,
            },
        )
    }
}

/// The upload layout of an image of four bytes per pixel: one row is
/// `4 * width` bytes, and there are `height` rows.
pub fn texture_layout(width: u32, height: u32, pixels: Vec<u8>) -> (data: Result<
    TextureData,
    TextureError,
>)
    ensures
        data == texture_layout_of(width, height, pixels),
        data is Ok ==> data->Ok_0.wf(),
{
    if width == 0 || height == 0 {
        return Err(TextureError::Empty);
    }
    if width > u32::MAX / 4 {
        return Err(TextureError::TooWide);
    }
    let row: u64 = 4 * (width as u64);
    assert(row * height <= 0xffff_ffff * 0xffff_ffff) by (nonlinear_arith)
        requires
            row <= 0xffff_ffff,
            height <= 0xffff_ffff,
    ;
    assert(4 * width * height == row * height) by (nonlinear_arith)
        requires
            row == 4 * width,
    ;
    let expected: u64 = row * (height as u64);
    if pixels.len() as u64 != expected {
        return Err(TextureError::Malformed);
    }
    Ok(TextureData { width, height, bytes_per_row: 4 * width, rows_per_image: height, pixels })
}

/// Decodes the image file `bytes`, turns it upside down so that the texture
/// coordinate `(0, 0)` is its bottom-left corner, and lays its pixels out
/// for the upload.
pub fn load_texture(bytes: &[u8]) -> (data: Result<TextureData, TextureError>)
    ensures
        data is Ok ==> data->Ok_0.wf(),
{
    match image::load_from_memory(bytes) {
        Ok(img) => {
            let flipped = img.flipv();
            let (width, height, pixels) = rgba8_pixels(flipped);
            texture_layout(width, height, pixels)
        },
        Err(_) => Err(TextureError::Undecodable),
    }
}

} // verus!
