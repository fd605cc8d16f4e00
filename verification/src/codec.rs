//! The image codec boundary: decoding raw bytes and resampling to the
//! configured target size, through the `image` crate, together with the
//! `Bitmap` type that the cycle manager sequences.

use vstd::prelude::*;

use crate::error::CycleError;

verus! {

#[verifier::external_type_specification]
#[verifier::external_body]
pub struct ExDynamicImage(image::DynamicImage);

/// Whether `image::load_from_memory` can parse these bytes as an image.
/// The decode is a deterministic function of the bytes alone.
pub uninterp spec fn decode_ok(bytes: Seq<u8>) -> bool;

/// A decoded image, resampled to fixed pixel dimensions.
/// Immutable once produced by the loader.
pub struct Bitmap {
    width: u32,
    height: u32,
    data: image::DynamicImage,
}

impl Bitmap {
    /// The pixel width this bitmap was produced with.
    pub closed spec fn spec_width(&self) -> u32 {
        self.width
    }

    /// The pixel height this bitmap was produced with.
    pub closed spec fn spec_height(&self) -> u32 {
        self.height
    }

    pub fn width(&self) -> (r: u32)
        ensures
            r == self.spec_width(),
    {
        self.width
    }

    pub fn height(&self) -> (r: u32)
        ensures
            r == self.spec_height(),
    {
        self.height
    }

    /// Wrap an already decoded image of the given dimensions, so that an
    /// embedding program or a fake codec can hand synthetic bitmaps to the
    /// cycle manager without going through the loader.
    pub fn new(data: image::DynamicImage, width: u32, height: u32) -> (r: Bitmap)
        ensures
            r.spec_width() == width,
            r.spec_height() == height,
    {
        Bitmap { width, height, data }
    }

    /// The decoded pixel data, for the display surface to draw.
    pub fn image(&self) -> &image::DynamicImage {
        &self.data
    }
}

/// The contents found at one source path, as read by the embedding program.
pub enum ImageSource {
    /// The path did not reference an existing regular file.
    Missing,
    /// The raw bytes of an existing regular file.
    Data(Vec<u8>),
}

/// A source loads cleanly when its file exists and its bytes decode.
pub open spec fn source_ok(s: ImageSource) -> bool {
    s matches ImageSource::Data(bytes) && decode_ok(bytes@)
}

/// Relies on `image::load_from_memory`: it decodes the byte slice, guessing
/// the format from the bytes, and succeeds or fails as a function of the
/// bytes alone.
#[verifier::external_body]
fn decode_image(bytes: &Vec<u8>) -> (r: Option<image::DynamicImage>)
    ensures
        r is Some <==> decode_ok(bytes@),
{
    image::load_from_memory(bytes.as_slice()).ok()
}

/// Relies on `image::DynamicImage::resize_exact`: the returned image has
/// exactly the requested dimensions (aspect ratio is not preserved), and the
/// Gaussian filter resamples deterministically for identical input and size.
#[verifier::external_body]
fn resize_to(data: image::DynamicImage, width: u32, height: u32) -> (r: Bitmap)
    requires
        1 <= width,
        1 <= height,
    ensures
        r.spec_width() == width,
        r.spec_height() == height,
{
    let resized = data.resize_exact(width, height, image::imageops::FilterType::Gaussian);
    let width = resized.width();
    let height = resized.height();
    Bitmap { width, height, data: resized }
}

/// Load one source: reject a missing file, decode the bytes, and resample
/// the decoded image to exactly `width` by `height`.
pub fn load_image(source: &ImageSource, width: u32, height: u32) -> (r: Result<
    Bitmap,
    CycleError,
>)
    requires
        1 <= width,
        1 <= height,
    ensures
        r is Ok <==> source_ok(*source),
        *source is Missing ==> r == Err::<Bitmap, CycleError>(CycleError::NotFound),
        (*source matches ImageSource::Data(bytes) && !decode_ok(bytes@)) ==> r == Err::<Bitmap, CycleError>(
            CycleError::Decode,
        ),
        r matches Ok(b) ==> b.spec_width() == width && b.spec_height() == height,
{
    match source {
        ImageSource::Missing => Err(CycleError::NotFound),
        ImageSource::Data(bytes) => match decode_image(bytes) {
            None => Err(CycleError::Decode),
            Some(img) => Ok(resize_to(img, width, height)),
        },
    }
}

} // verus!
