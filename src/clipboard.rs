use vstd::prelude::*;

use image::{DynamicImage, ImageError, ImageFormat};

verus! {

#[verifier::external_type_specification]
#[verifier::external_body]
pub struct ExDynamicImage(image::DynamicImage);

#[verifier::external_type_specification]
#[verifier::external_body]
pub struct ExImageError(image::ImageError);

/// Whether the `image` crate decodes `bytes` as a PNG image.
pub uninterp spec fn png_decodes(bytes: Seq<u8>) -> bool;

/// Relies on `image::load_from_memory_with_format`: whether PNG decoding
/// succeeds depends on the bytes alone.
#[verifier::external_body]
fn decode_png(png: &[u8]) -> (r: Result<DynamicImage, ImageError>)
    ensures
        r is Ok == png_decodes(png@),
{
    image::load_from_memory_with_format(png, ImageFormat::Png)
}

/// Relies on `image::DynamicImage::write_to` with the BMP encoder, which
/// starts every stream it completes with the signature bytes `B`, `M`.
#[verifier::external_body]
fn encode_bmp(img: &DynamicImage) -> (r: Result<Vec<u8>, ImageError>)
    ensures
        r matches Ok(b) ==> b@.len() >= 2 && b@[0] == 0x42 && b@[1] == 0x4d,
{
    let mut buf: Vec<u8> = Vec::new();
    match img.write_to(&mut std::io::Cursor::new(&mut buf), ImageFormat::Bmp) {
        Ok(()) => Ok(buf),
        Err(e) => Err(e),
    }
}

/// Why an image could not be readied for the clipboard.
#[derive(Debug, Clone, Copy, PartialEq, Eq, Structural)]
pub enum ClipboardError {
    /// The bytes are not a PNG image.
    Decode,
    /// The decoded image could not be written as BMP.
    Encode,
}

/// Converts a PNG stream into the BMP stream that the clipboard takes.
pub fn png_to_bmp(png: &[u8]) -> (r: Result<Vec<u8>, ClipboardError>)
    ensures
        r matches Err(ClipboardError::Decode) <==> !png_decodes(png@),
        r matches Ok(b) ==> b@.len() >= 2 && b@[0] == 0x42 && b@[1] == 0x4d,
{
    let image = match decode_png(png) {
        Ok(img) => img,
        Err(_) => {
            return Err(ClipboardError::Decode);
        },
    };
    match encode_bmp(&image) {
        Ok(bytes) => Ok(bytes),
        Err(_) => Err(ClipboardError::Encode),
    }
}

} // verus!
