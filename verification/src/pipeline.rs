//! The per-file conversion pipeline: decode the source, apply the
//! bounded-downscale policy, composite the optional watermark, and encode
//! the result as JPEG bytes. The stages run strictly in this order, and
//! the first error aborts the remaining stages for that file.
use vstd::prelude::*;

use crate::buffer::ImageView;
use crate::codec::{decode, decode_spec, encode_jpeg, encode_spec};
use crate::transform::{apply_scale, composite, composite_spec, opt_image_view, scale_spec};
use crate::{ConvertError, OVERLAY_X, OVERLAY_Y};

verus! {

/// The watermark argument of `convert_image`, as the model sees it.
pub open spec fn opt_bytes_view(watermark: Option<&Vec<u8>>) -> Option<Seq<u8>> {
    match watermark {
        Option::None => Option::None,
        Option::Some(b) => Option::Some(b@),
    }
}

/// What decoding the optional watermark yields: no watermark, a decoded
/// watermark, or the error that aborts the file.
pub open spec fn decode_watermark_spec(watermark: Option<Seq<u8>>) -> Result<
    Option<ImageView>,
    ConvertError,
> {
    match watermark {
        Option::None => Result::Ok(Option::None),
        Option::Some(bytes) => match decode_spec(bytes) {
            Result::Err(e) => Result::Err(e),
            Result::Ok(img) => Result::Ok(Option::Some(img)),
        },
    }
}

/// What `convert_image` returns for given source bytes, optional watermark
/// bytes and threshold: the JPEG bytes of the scaled, composited image, or
/// the error of the first stage that failed.
pub open spec fn convert_spec(src: Seq<u8>, watermark: Option<Seq<u8>>, max_dimension: int) -> Result<
    Seq<u8>,
    ConvertError,
> {
    match decode_spec(src) {
        Result::Err(e) => Result::Err(e),
        Result::Ok(img) => match decode_watermark_spec(watermark) {
            Result::Err(e) => Result::Err(e),
            Result::Ok(wm) => {
                let scaled = scale_spec(img, max_dimension);
                let composed = composite_spec(scaled, wm, OVERLAY_X as int, OVERLAY_Y as int);
                encode_spec(composed)
            },
        },
    }
}

/// Convert one source image, given as raw container bytes, into the bytes
/// of its thumbnail JPEG: decode, downscale when both dimensions reach the
/// threshold, blend the optional watermark at the fixed offset, encode.
/// The result is a pure function of the inputs, so converting the same
/// source twice yields byte-for-byte the same thumbnail.
pub fn convert_image(src: &Vec<u8>, watermark: Option<&Vec<u8>>, max_dimension: u32) -> (r: Result<
    Vec<u8>,
    ConvertError,
>)
    requires
        max_dimension >= 1,
    ensures
        match (r, convert_spec(src@, opt_bytes_view(watermark), max_dimension as int)) {
            (Result::Ok(b), Result::Ok(sb)) => b@ == sb,
            (Result::Err(e), Result::Err(se)) => e == se,
            _ => false,
        },
        // Success is owed whenever both inputs decode and the scaled image
        // fits what the JPEG format can store.
        match (decode_spec(src@), decode_watermark_spec(opt_bytes_view(watermark))) {
            (Result::Ok(img), Result::Ok(_)) => {
                let scaled = scale_spec(img, max_dimension as int);
                scaled.width <= 65535 && scaled.height <= 65535 ==> r is Ok
            },
            _ => true,
        },
{
    let img = match decode(src) {
        Result::Err(e) => { return Result::Err(e) },
        Result::Ok(img) => img,
    };
    let wm = match watermark {
        Option::None => Option::None,
        Option::Some(bytes) => match decode(bytes) {
            Result::Err(e) => { return Result::Err(e) },
            Result::Ok(wm_img) => Option::Some(wm_img),
        },
    };
    let scaled = apply_scale(img, max_dimension);
    let composed = composite(scaled, wm.as_ref());
    encode_jpeg(composed)
}

} // verus!
