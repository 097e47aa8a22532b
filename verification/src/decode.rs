//! Decoding an image and fitting it to a frame.
//!
//! The byte-level decoding, resampling and pixel-format conversion are done
//! by the `image` crate behind trusted wrappers; everything this module
//! decides itself — direction, whether to resize, the target size, when an
//! input is rejected — is verified against the geometry in [`crate::geom`].

use vstd::prelude::*;

use crate::geom::FrameSize;
use crate::geom::fitted_dims_spec;
use crate::geom::lemma_fit_shrinks;
use crate::geom::resize_size;

verus! {

#[verifier::external_type_specification]
#[verifier::external_body]
pub struct ExDynamicImage(image::DynamicImage);

#[verifier::external_type_specification]
#[verifier::external_body]
pub struct ExImageError(image::ImageError);

/// What `image::load_from_memory` makes of a byte string: the dimensions
/// of the decoded image, or `None` when the bytes do not decode. Decoding
/// is a function of the bytes alone.
pub uninterp spec fn decoded_dims(bytes: Seq<u8>) -> Option<(u32, u32)>;

/// A decoded image together with its dimensions.
///
/// The `width` and `height` fields always mirror the true dimensions of
/// `img`: every function that constructs a `Picture` (all of them trusted
/// wrappers in this module) stores the dimensions the `image` crate
/// reports or guarantees.
struct Picture {
    img: image::DynamicImage,
    width: u32,
    height: u32,
}

/// Relies on `image::load_from_memory`, which sniffs the format from the
/// bytes' content (never from a file name) and decodes, and on
/// `DynamicImage::{width, height}` for the dimensions of the result.
#[verifier::external_body]
fn decode_bytes(bytes: &[u8]) -> (r: Result<Picture, image::ImageError>)
    ensures
        r is Ok <==> decoded_dims(bytes@) is Some,
        r is Ok ==> decoded_dims(bytes@) == Some((r->Ok_0.width, r->Ok_0.height)),
{
    let img = image::load_from_memory(bytes)?;
    let width = img.width();
    let height = img.height();
    Ok(Picture { img, width, height })
}

/// Relies on `DynamicImage::resize_exact` with the Lanczos3 filter: the
/// returned image has exactly the requested dimensions (aspect ratio is
/// not preserved by the call itself; the caller chooses proportional
/// targets).
#[verifier::external_body]
fn resize_picture(pic: Picture, width: u32, height: u32) -> (r: Picture)
    requires
        1 <= width,
        1 <= height,
    ensures
        r.width == width,
        r.height == height,
{
    let img = pic.img.resize_exact(width, height, image::imageops::FilterType::Lanczos3);
    Picture { img, width, height }
}

/// Relies on `DynamicImage::flipv` and `DynamicImage::to_rgba8`: both
/// preserve the image's dimensions, and the RGBA8 buffer of a `w x h`
/// image holds exactly `4 * w * h` bytes. The dimension clauses also rest
/// on `Picture`'s fields mirroring its true dimensions, which every
/// constructor in this module maintains.
#[verifier::external_body]
fn flip_to_rgba(pic: Picture) -> (r: DecodedImage)
    ensures
        r.width == pic.width,
        r.height == pic.height,
        r.pixels@.len() == 4 * pic.width * pic.height,
{
    let buffer = pic.img.flipv().to_rgba8();
    DecodedImage { width: pic.width, height: pic.height, pixels: buffer.into_raw() }
}

/// An owned RGBA8 bitmap, row-major, bottom row first (flipped to the
/// renderer's texture-coordinate convention). Never mutated after
/// creation; it is replaced wholesale by the next cycle's image.
#[derive(Debug)]
pub struct DecodedImage {
    pub width: u32,
    pub height: u32,
    pub pixels: Vec<u8>,
}

impl DecodedImage {
    pub open spec fn wf(self) -> bool {
        &&& 1 <= self.width
        &&& 1 <= self.height
        &&& self.pixels@.len() == 4 * self.width * self.height
    }
}

/// Why one image was skipped. Every variant is per-image and non-fatal:
/// the path is dropped for the current cycle and the loader continues.
#[derive(Clone, Copy, Debug, PartialEq, Eq, Structural)]
pub enum DecodeError {
    /// The bytes are not a decodable image in any supported format.
    Undecodable,
    /// The image decoded to a zero width or height.
    ZeroDimension,
}

/// Decodes an image from raw file bytes and fits it to `frame`.
///
/// The scroll direction is chosen by exact aspect-ratio comparison; the
/// image is shrunk — never upscaled — only when it exceeds the frame on
/// the non-scroll axis, so that that axis matches the frame exactly; and
/// the result is flipped vertically into the renderer's convention.
/// Undecodable bytes and zero-dimension images are rejected, and nothing
/// else is.
pub fn decode(bytes: &[u8], frame: FrameSize) -> (r: Result<DecodedImage, DecodeError>)
    requires
        frame.wf(),
    ensures
        r is Ok <==> (decoded_dims(bytes@) matches Some(d) && 1 <= d.0 && 1 <= d.1),
        r is Err ==> (r->Err_0 == DecodeError::Undecodable <==> decoded_dims(bytes@) is None),
        r matches Ok(img) ==> {
            let d = decoded_dims(bytes@)->0;
            &&& img.width == fitted_dims_spec(d.0, d.1, frame.width, frame.height).0
            &&& img.height == fitted_dims_spec(d.0, d.1, frame.width, frame.height).1
            &&& img.wf()
        },
{
    let pic = match decode_bytes(bytes) {
        Ok(pic) => pic,
        Err(_) => {
            return Err(DecodeError::Undecodable);
        },
    };
    if pic.width == 0 || pic.height == 0 {
        return Err(DecodeError::ZeroDimension);
    }
    proof {
        lemma_fit_shrinks(pic.width, pic.height, frame.width, frame.height);
    }
    let fitted = match resize_size(pic.width, pic.height, frame.width, frame.height) {
        Some((w, h)) => resize_picture(pic, w, h),
        None => pic,
    };
    Ok(flip_to_rgba(fitted))
}

/// Decoding is deterministic: the fitted dimensions are a function of the
/// file bytes and the frame size alone, so decoding the same bytes against
/// the same frame twice yields bitmaps of identical dimensions.
pub proof fn lemma_decode_deterministic(
    a: DecodedImage,
    b: DecodedImage,
    bytes: Seq<u8>,
    frame: FrameSize,
)
    requires
        frame.wf(),
        decoded_dims(bytes) matches Some(d) && a.width == fitted_dims_spec(
            d.0,
            d.1,
            frame.width,
            frame.height,
        ).0 && a.height == fitted_dims_spec(d.0, d.1, frame.width, frame.height).1,
        decoded_dims(bytes) matches Some(d) && b.width == fitted_dims_spec(
            d.0,
            d.1,
            frame.width,
            frame.height,
        ).0 && b.height == fitted_dims_spec(d.0, d.1, frame.width, frame.height).1,
    ensures
        a.width == b.width,
        a.height == b.height,
{
}

} // verus!
