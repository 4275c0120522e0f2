//! The pixel and the geometry of the 8x8 grid.

use vstd::prelude::*;

verus! {

/// Pixels in one frame.
pub const NUM_PIXELS: usize = 64;

/// Bytes that one pixel takes in a raw clip.
pub const PIXEL_WIDTH: usize = 3;

/// One RGB sample: three 8-bit channels, no alpha.
#[derive(Clone, Copy, Debug, PartialEq, Eq, Structural)]
pub struct Pixel {
    pub r: u8,
    pub g: u8,
    pub b: u8,
}

/// The dark pixel, as a specification value.
pub open spec fn dark() -> Pixel {
    Pixel { r: 0, g: 0, b: 0 }
}

/// The fully lit white pixel, as a specification value.
pub open spec fn lit() -> Pixel {
    Pixel { r: 255, g: 255, b: 255 }
}

/// The position in a frame of the grid cell in column `x` and row `y`.
pub open spec fn cell_index(x: int, y: int) -> int {
    y * 8 + x
}

/// Whether `x` and `y` name a cell of the grid.
pub open spec fn on_grid(x: int, y: int) -> bool {
    0 <= x < 8 && 0 <= y < 8
}

impl Pixel {
    /// A pixel from its three channels.
    pub fn new(r: u8, g: u8, b: u8) -> (p: Pixel)
        ensures
            p == (Pixel { r, g, b }),
    {
        Pixel { r, g, b }
    }

    /// The dark pixel.
    pub fn black() -> (p: Pixel)
        ensures
            p == dark(),
    {
        Pixel { r: 0, g: 0, b: 0 }
    }

    /// The fully lit white pixel.
    pub fn white() -> (p: Pixel)
        ensures
            p == lit(),
    {
        Pixel { r: 255, g: 255, b: 255 }
    }
}

impl Default for Pixel {
    fn default() -> (p: Pixel)
        ensures
            p == dark(),
    {
        Pixel { r: 0, g: 0, b: 0 }
    }
}

} // verus!
