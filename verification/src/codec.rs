//! From base64 text to bytes, and from the bytes of an image file to a
//! grayscale raster.

use crate::error::ConversionError;
use crate::raster::{GrayRaster, RasterView};
use vstd::prelude::*;

verus! {

/// `base64::DecodeError`: why a text is not base64. Only carried, never read.
#[verifier::external_type_specification]
#[verifier::external_body]
pub struct ExDecodeError(base64::DecodeError);

/// `image::ImageError`: why bytes could not be loaded as an image. Only
/// carried, never read.
#[verifier::external_type_specification]
#[verifier::external_body]
pub struct ExImageError(image::ImageError);

/// The bytes that `text` stands for in standard base64 (the alphabet with
/// `+` and `/`, padded with `=`), or nothing if `text` is not such an
/// encoding.
pub uninterp spec fn base64_decoding(text: Seq<char>) -> Option<Seq<u8>>;

/// Calls the `decode` method of `base64`'s `STANDARD` engine.
///
/// Trusted: whether the text decodes, and to which bytes, depends on the text
/// alone.
#[verifier::external_body]
fn base64_standard_decode(text: &str) -> (decoded: Result<Vec<u8>, base64::DecodeError>)
    ensures
        match decoded {
            Ok(bytes) => base64_decoding(text@) == Some(bytes@),
            Err(_) => base64_decoding(text@) is None,
        },
{
    base64::Engine::decode(&base64::engine::general_purpose::STANDARD, text)
}

/// Decodes standard base64 text.
pub fn decode_base64(text: &str) -> (decoded: Result<Vec<u8>, ConversionError>)
    ensures
        match decoded {
            Ok(bytes) => base64_decoding(text@) == Some(bytes@),
            Err(e) => e == ConversionError::Base64 && base64_decoding(text@) is None,
        },
{
    match base64_standard_decode(text) {
        Ok(bytes) => Ok(bytes),
        Err(_) => Err(ConversionError::Base64),
    }
}

/// Calls `image::load_from_memory`, which guesses the container format from
/// the first bytes, and reduces the decoded image to 8-bit luminance with
/// `to_luma8`. Returns the width, the height and the intensities row by row.
///
/// Nothing is claimed of the outcome: which formats are recognised can be
/// changed for the whole process through the image crate's format hooks.
#[verifier::external_body]
fn image_load_luma8(bytes: &Vec<u8>) -> Result<(u32, u32, Vec<u8>), image::ImageError> {
    let gray = image::load_from_memory(bytes.as_slice())?.to_luma8();
    Ok((gray.width(), gray.height(), gray.into_raw()))
}

/// Accepts what an image decoder produced if it is a full grid of at most
/// [`crate::raster::MAX_PIXELS`] intensities.
pub fn raster_from_parts(width: u32, height: u32, pixels: Vec<u8>) -> (loaded: Result<
    GrayRaster,
    ConversionError,
>)
    ensures
        loaded is Ok <==> (RasterView {
            width: width as nat,
            height: height as nat,
            pixels: pixels@,
        }).well_formed(),
        loaded matches Ok(img) ==> img@ == (RasterView {
            width: width as nat,
            height: height as nat,
            pixels: pixels@,
        }),
        loaded matches Err(e) ==> e == ConversionError::Image,
{
    match GrayRaster::new(width, height, pixels) {
        Some(img) => Ok(img),
        None => Err(ConversionError::Image),
    }
}

/// Loads the image held in `bytes`, whatever its format, as a grayscale
/// raster. Colour is reduced to luminance.
pub fn load_gray_image(bytes: &Vec<u8>) -> (loaded: Result<GrayRaster, ConversionError>)
    ensures
        loaded matches Ok(img) ==> img@.well_formed(),
        loaded matches Err(e) ==> e == ConversionError::Image,
{
    match image_load_luma8(bytes) {
        Ok((width, height, pixels)) => raster_from_parts(width, height, pixels),
        Err(_) => Err(ConversionError::Image),
    }
}

} // verus!
