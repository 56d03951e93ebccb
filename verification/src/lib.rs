//! Core of a batch thumbnail maker: decode a raster image, downscale it when
//! both dimensions reach a threshold, optionally composite a watermark at a
//! fixed offset, and encode the result as a JPEG under a derived output path.
use vstd::prelude::*;

pub mod app_state;
pub mod buffer;
pub mod codec;
pub mod messages;
pub mod paths;
pub mod pipeline;
pub mod scale;
pub mod sit_delegate;
pub mod transform;

verus! {

/// Why one file's conversion failed. Either error is fatal for that file
/// alone: the batch goes on with the next file.
#[derive(Clone, Copy, Debug, PartialEq, Eq, Structural)]
pub enum ConvertError {
    /// The source or watermark file did not parse as a supported image
    /// container, or decoded to an empty pixel grid.
    DecodeError,
    /// The finished pixel buffer could not be written out as a JPEG.
    IoError,
}

/// Width a thumbnail is pinned to when downscaling triggers, and the
/// threshold both dimensions must reach for downscaling to trigger at all.
pub const IMAGE_MAX_WIDTH: u32 = 3072;

/// Horizontal offset, in pixels from the left edge of the base image, at
/// which the watermark is drawn.
pub const OVERLAY_X: u32 = 100;

/// Vertical offset, in pixels from the top edge of the base image, at which
/// the watermark is drawn.
pub const OVERLAY_Y: u32 = 20;

} // verus!
