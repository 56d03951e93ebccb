//! Decoding container bytes into RGBA pixel grids and encoding pixel grids
//! as JPEG bytes. The codecs themselves come from the `image` crate; both
//! directions are pure functions of their byte inputs, so their results are
//! named and everything around the calls is verified.
use vstd::prelude::*;

use crate::buffer::{ImageBuffer, ImageView};
use crate::ConvertError;

verus! {

/// What `image::load_from_memory`, converted to RGBA8, yields on the given
/// container bytes: pixel data, width and height, or `None` when the bytes
/// do not parse as a supported image container.
pub uninterp spec fn decoded_rgba(bytes: Seq<u8>) -> Option<(Seq<u8>, int, int)>;

/// What encoding an RGBA8 pixel grid of the given dimensions as a JPEG at
/// the encoder's default quality yields, or `None` when the encoder
/// refuses the image (a dimension beyond what the format can store).
pub uninterp spec fn jpeg_encoded(pixels: Seq<u8>, width: int, height: int) -> Option<Seq<u8>>;

/// Relies on `image::load_from_memory` and `image::DynamicImage::to_rgba8`:
/// decoding is a pure function of the container bytes, it returns an error
/// rather than panicking on unparseable input, and a decoded RGBA8 buffer
/// holds exactly four bytes per pixel.
#[verifier::external_body]
fn decode_rgba_bytes(bytes: &Vec<u8>) -> (r: Option<(Vec<u8>, u32, u32)>)
    ensures
        match (r, decoded_rgba(bytes@)) {
            (Some((p, w, h)), Some((sp, sw, sh))) => {
                &&& p@ == sp
                &&& w as int == sw
                &&& h as int == sh
                &&& p@.len() == 4 * (w as int) * (h as int)
            },
            (None, None) => true,
            _ => false,
        },
{
    match image::load_from_memory(bytes.as_slice()) {
        Ok(img) => {
            let rgba = img.to_rgba8();
            let (w, h) = rgba.dimensions();
            Some((rgba.into_raw(), w, h))
        }
        Err(_) => None,
    }
}

/// Relies on `image::DynamicImage::write_to` with the JPEG format: encoding
/// is a pure function of the pixel data and dimensions, it succeeds
/// whenever both dimensions fit in sixteen bits, and it returns an error
/// rather than panicking otherwise.
#[verifier::external_body]
fn encode_jpeg_rgba(pixels: Vec<u8>, width: u32, height: u32) -> (r: Option<Vec<u8>>)
    requires
        pixels@.len() == 4 * (width as int) * (height as int),
    ensures
        match (r, jpeg_encoded(pixels@, width as int, height as int)) {
            (Some(b), Some(sb)) => b@ == sb,
            (None, None) => true,
            _ => false,
        },
        width <= 65535 && height <= 65535 ==> r is Some,
{
    let img = image::RgbaImage::from_raw(width, height, pixels).unwrap();
    let mut cursor = std::io::Cursor::new(Vec::new());
    match image::DynamicImage::ImageRgba8(img).write_to(&mut cursor, image::ImageFormat::Jpeg) {
        Ok(()) => Some(cursor.into_inner()),
        Err(_) => None,
    }
}

/// What `decode` returns for given container bytes: the decoded RGBA grid,
/// or a `DecodeError` when the bytes do not parse or decode to an empty
/// grid.
pub open spec fn decode_spec(bytes: Seq<u8>) -> Result<ImageView, ConvertError> {
    match decoded_rgba(bytes) {
        Option::None => Result::Err(ConvertError::DecodeError),
        Option::Some((p, w, h)) => {
            if w < 1 || h < 1 {
                Result::Err(ConvertError::DecodeError)
            } else {
                Result::Ok(ImageView { width: w, height: h, pixels: p })
            }
        },
    }
}

/// Decode raw container bytes into an owned RGBA pixel grid with
/// authoritative dimensions.
pub fn decode(bytes: &Vec<u8>) -> (r: Result<ImageBuffer, ConvertError>)
    ensures
        match (r, decode_spec(bytes@)) {
            (Result::Ok(img), Result::Ok(v)) => img@ == v && img.wf(),
            (Result::Err(e), Result::Err(se)) => e == se,
            _ => false,
        },
{
    match decode_rgba_bytes(bytes) {
        Option::None => Result::Err(ConvertError::DecodeError),
        Option::Some((p, w, h)) => {
            if w < 1 || h < 1 {
                Result::Err(ConvertError::DecodeError)
            } else {
                Result::Ok(ImageBuffer { width: w, height: h, pixels: p })
            }
        },
    }
}

/// What `encode_jpeg` returns for a given image: the JPEG bytes, or an
/// `IoError` when the encoder refuses the image.
pub open spec fn encode_spec(img: ImageView) -> Result<Seq<u8>, ConvertError> {
    match jpeg_encoded(img.pixels, img.width, img.height) {
        Option::None => Result::Err(ConvertError::IoError),
        Option::Some(b) => Result::Ok(b),
    }
}

/// Encode an image as JPEG bytes at the encoder's default quality.
pub fn encode_jpeg(img: ImageBuffer) -> (r: Result<Vec<u8>, ConvertError>)
    requires
        img.wf(),
    ensures
        match (r, encode_spec(img@)) {
            (Result::Ok(b), Result::Ok(sb)) => b@ == sb,
            (Result::Err(e), Result::Err(se)) => e == se,
            _ => false,
        },
        img.width <= 65535 && img.height <= 65535 ==> r is Ok,
{
    let ImageBuffer { width, height, pixels } = img;
    match encode_jpeg_rgba(pixels, width, height) {
        Option::None => Result::Err(ConvertError::IoError),
        Option::Some(b) => Result::Ok(b),
    }
}

} // verus!
