//! The two pixel transformations of the pipeline: bounded nearest-neighbour
//! downscaling and fixed-offset watermark compositing. The resampling and
//! blending primitives come from the `image` crate; both are pure functions
//! of their inputs, so their results are named and the policy around the
//! calls is verified.
use vstd::prelude::*;

use crate::buffer::{ImageBuffer, ImageView};
use crate::scale::{decide_scale, keeps_original, scaled_height};
use crate::{OVERLAY_X, OVERLAY_Y};

verus! {

/// What `image::DynamicImage::resize` with the nearest-neighbour filter
/// yields on an RGBA8 grid of the given size when bounded by
/// `bound_w` x `bound_h`: pixel data, width and height.
pub uninterp spec fn nearest_resized(
    pixels: Seq<u8>,
    width: int,
    height: int,
    bound_w: int,
    bound_h: int,
) -> (Seq<u8>, int, int);

/// What `image::imageops::overlay` leaves in the bottom image's pixel data
/// after alpha-blending the top image over it at offset `(x, y)`, clipped
/// to the bottom image's bounds.
pub uninterp spec fn overlaid(
    bottom: Seq<u8>,
    bottom_w: int,
    bottom_h: int,
    top: Seq<u8>,
    top_w: int,
    top_h: int,
    x: int,
    y: int,
) -> Seq<u8>;

/// Relies on `image::DynamicImage::resize` with
/// `image::imageops::FilterType::Nearest`: the result is the largest image
/// that preserves the aspect ratio and fits within the given bounds, is
/// never empty, and is a pure function of the inputs; an RGBA8 buffer
/// holds exactly four bytes per pixel.
#[verifier::external_body]
fn resize_rgba_nearest(pixels: Vec<u8>, width: u32, height: u32, bound_w: u32, bound_h: u32) -> (r:
    (Vec<u8>, u32, u32))
    requires
        pixels@.len() == 4 * (width as int) * (height as int),
        width >= 1,
        height >= 1,
        bound_w >= 1,
    ensures
        (r.0@, r.1 as int, r.2 as int) == nearest_resized(
            pixels@,
            width as int,
            height as int,
            bound_w as int,
            bound_h as int,
        ),
        r.0@.len() == 4 * (r.1 as int) * (r.2 as int),
        1 <= r.1 <= bound_w,
        r.2 >= 1,
        bound_h >= 1 ==> r.2 <= bound_h,
{
    let img = image::RgbaImage::from_raw(width, height, pixels).unwrap();
    let resized = image::DynamicImage::ImageRgba8(img).resize(
        bound_w,
        bound_h,
        image::imageops::FilterType::Nearest,
    );
    let out = resized.to_rgba8();
    let (w, h) = out.dimensions();
    (out.into_raw(), w, h)
}

/// Relies on `image::imageops::overlay`: the top image is alpha-blended
/// over the bottom one at the given offset, clipped to the bottom image's
/// bounds rather than panicking, so the bottom image's dimensions and
/// buffer length do not change; the result is a pure function of the
/// inputs.
#[verifier::external_body]
fn overlay_rgba(
    bottom: Vec<u8>,
    bottom_w: u32,
    bottom_h: u32,
    top: &Vec<u8>,
    top_w: u32,
    top_h: u32,
    x: u32,
    y: u32,
) -> (r: Vec<u8>)
    requires
        bottom@.len() == 4 * (bottom_w as int) * (bottom_h as int),
        top@.len() == 4 * (top_w as int) * (top_h as int),
    ensures
        r@ == overlaid(
            bottom@,
            bottom_w as int,
            bottom_h as int,
            top@,
            top_w as int,
            top_h as int,
            x as int,
            y as int,
        ),
        r@.len() == bottom@.len(),
{
    let mut base = image::RgbaImage::from_raw(bottom_w, bottom_h, bottom).unwrap();
    let wm: image::ImageBuffer<image::Rgba<u8>, &[u8]> =
        image::ImageBuffer::from_raw(top_w, top_h, top.as_slice()).unwrap();
    image::imageops::overlay(&mut base, &wm, x as i64, y as i64);
    base.into_raw()
}

/// What `apply_scale` returns: the image unchanged when either dimension
/// is below the threshold, and otherwise the nearest-neighbour resample
/// bounded by the threshold width and the aspect-preserving height.
pub open spec fn scale_spec(img: ImageView, max_dimension: int) -> ImageView {
    if keeps_original(img.width, img.height, max_dimension) {
        img
    } else {
        let bound_h = scaled_height(img.width, img.height, max_dimension);
        let (p, w, h) = nearest_resized(img.pixels, img.width, img.height, max_dimension, bound_h);
        ImageView { width: w, height: h, pixels: p }
    }
}

/// Downscale an image according to the bounded-downscale policy: kept at
/// its original resolution unless both dimensions reach the threshold,
/// and otherwise resampled with the nearest-neighbour filter.
pub fn apply_scale(img: ImageBuffer, max_dimension: u32) -> (r: ImageBuffer)
    requires
        img.wf(),
        max_dimension >= 1,
    ensures
        r@ == scale_spec(img@, max_dimension as int),
        r.wf(),
        img@.width < max_dimension || img@.height < max_dimension ==> r@ == img@,
{
    let decision = decide_scale(img.width, img.height, max_dimension);
    if decision.keep_original {
        img
    } else {
        let ImageBuffer { width, height, pixels } = img;
        let (p, w, h) = resize_rgba_nearest(
            pixels,
            width,
            height,
            decision.target_width,
            decision.target_height,
        );
        ImageBuffer { width: w, height: h, pixels: p }
    }
}

/// The watermark argument of `composite`, as the model sees it.
pub open spec fn opt_image_view(watermark: Option<&ImageBuffer>) -> Option<ImageView> {
    match watermark {
        Option::None => Option::None,
        Option::Some(wm) => Option::Some(wm@),
    }
}

/// What `composite` returns: the base image untouched when no watermark is
/// given, and otherwise the base image with the watermark blended over it
/// at offset `(x, y)`; the dimensions are always the base image's.
pub open spec fn composite_spec(base: ImageView, watermark: Option<ImageView>, x: int, y: int) -> ImageView {
    match watermark {
        Option::None => base,
        Option::Some(wm) => ImageView {
            width: base.width,
            height: base.height,
            pixels: overlaid(
                base.pixels,
                base.width,
                base.height,
                wm.pixels,
                wm.width,
                wm.height,
                x,
                y,
            ),
        },
    }
}

/// Draw the watermark, when one is given, over the base image at the fixed
/// overlay offset, clipping where it runs past the base image's edges.
/// Without a watermark this is an identity transform: the returned pixel
/// buffer equals the base exactly.
pub fn composite(base: ImageBuffer, watermark: Option<&ImageBuffer>) -> (r: ImageBuffer)
    requires
        base.wf(),
        match watermark {
            Option::None => true,
            Option::Some(wm) => wm.wf(),
        },
    ensures
        r@ == composite_spec(
            base@,
            opt_image_view(watermark),
            OVERLAY_X as int,
            OVERLAY_Y as int,
        ),
        r.wf(),
        watermark is None ==> r@ == base@,
{
    match watermark {
        Option::None => base,
        Option::Some(wm) => {
            let ImageBuffer { width, height, pixels } = base;
            let blended = overlay_rgba(
                pixels,
                width,
                height,
                &wm.pixels,
                wm.width,
                wm.height,
                OVERLAY_X,
                OVERLAY_Y,
            );
            ImageBuffer { width, height, pixels: blended }
        },
    }
}

} // verus!
