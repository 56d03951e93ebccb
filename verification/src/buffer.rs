//! The owned pixel grid the pipeline works on, and its mathematical model.
use vstd::prelude::*;

verus! {

/// Mathematical model of a decoded image: its dimensions and the flat RGBA
/// byte grid, stored row-major with four bytes per pixel.
pub ghost struct ImageView {
    pub width: int,
    pub height: int,
    pub pixels: Seq<u8>,
}

impl ImageView {
    /// A well-formed image is never empty, fits the dimension type, and
    /// stores exactly four bytes per pixel.
    pub open spec fn wf(self) -> bool {
        &&& 0 < self.width <= u32::MAX
        &&& 0 < self.height <= u32::MAX
        &&& self.pixels.len() == 4 * self.width * self.height
    }
}

/// An owned 2-D grid of RGBA pixels, stored row-major, four bytes per pixel.
pub struct ImageBuffer {
    /// Width in pixels.
    pub width: u32,
    /// Height in pixels.
    pub height: u32,
    /// Flat pixel data, row-major RGBA: `4 * width * height` bytes when the
    /// buffer is well-formed.
    pub pixels: Vec<u8>,
}

impl View for ImageBuffer {
    type V = ImageView;

    open spec fn view(&self) -> ImageView {
        ImageView {
            width: self.width as int,
            height: self.height as int,
            pixels: self.pixels@,
        }
    }
}

impl ImageBuffer {
    /// The invariant every image the pipeline hands around satisfies.
    pub open spec fn wf(self) -> bool {
        self@.wf()
    }
}

} // verus!
