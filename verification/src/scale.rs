//! The bounded-downscale policy: an image is left at its original size
//! unless both dimensions reach the threshold; when downscaling triggers,
//! the width is pinned to the threshold and the height follows the aspect
//! ratio, rounded half up.
use vstd::prelude::*;

verus! {

/// What the pipeline decided to do with one image's dimensions.
pub struct ScaleDecision {
    /// True when the image is kept at its original resolution.
    pub keep_original: bool,
    /// Width the scaled image is bounded by; equals the original width when
    /// `keep_original` holds.
    pub target_width: u32,
    /// Height the scaled image is bounded by; equals the original height
    /// when `keep_original` holds.
    pub target_height: u32,
}

/// The image is kept at its original size exactly when either dimension is
/// strictly below the threshold: a deliberate asymmetric rule, so a narrow
/// but very tall image is never downscaled.
pub open spec fn keeps_original(width: int, height: int, max_dimension: int) -> bool {
    width < max_dimension || height < max_dimension
}

/// Height of the downscaled image: the width is pinned to `max_dimension`,
/// and the height preserves the aspect ratio, rounded half up.
pub open spec fn scaled_height(width: int, height: int, max_dimension: int) -> int {
    (height * max_dimension + width / 2) / width
}

/// Decide whether an image of the given dimensions is downscaled, and to
/// what target size.
pub fn decide_scale(width: u32, height: u32, max_dimension: u32) -> (d: ScaleDecision)
    requires
        max_dimension >= 1,
    ensures
        d.keep_original == keeps_original(width as int, height as int, max_dimension as int),
        d.keep_original ==> d.target_width == width && d.target_height == height,
        !d.keep_original ==> d.target_width == max_dimension,
        !d.keep_original ==> d.target_height
            == scaled_height(width as int, height as int, max_dimension as int),
        d.target_height <= height,
{
    if width < max_dimension || height < max_dimension {
        ScaleDecision { keep_original: true, target_width: width, target_height: height }
    } else {
        let w = width as u64;
        let h = height as u64;
        let m = max_dimension as u64;
        proof {
            assert(h * m <= 0xffff_ffffu64 * 0xffff_ffffu64) by (nonlinear_arith)
                requires h <= 0xffff_ffffu64 && m <= 0xffff_ffffu64;
        }
        let th = (h * m + w / 2) / w;
        proof {
            assert((h as int * m as int + w as int / 2) / (w as int) <= h as int)
                by (nonlinear_arith)
                requires m <= w && w >= 1;
        }
        ScaleDecision {
            keep_original: false,
            target_width: max_dimension,
            target_height: th as u32,
        }
    }
}

} // verus!
