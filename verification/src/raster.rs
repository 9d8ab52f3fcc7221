use vstd::prelude::*;

verus! {

/// Mathematical model of a raster image: its dimensions and the flat,
/// row-major sequence of 8-bit RGBA samples.
#[verifier::ext_equal]
pub ghost struct RasterView {
    pub width: nat,
    pub height: nat,
    pub data: Seq<u8>,
}

impl RasterView {
    /// A well-formed raster has positive dimensions that fit in `u32` and a
    /// sample buffer of exactly `width * height * 4` bytes.
    pub open spec fn wf(self) -> bool {
        &&& 1 <= self.width <= u32::MAX
        &&& 1 <= self.height <= u32::MAX
        &&& self.data.len() == self.width * self.height * 4
    }

    /// Sample `c` (0 = red, 1 = green, 2 = blue, 3 = alpha) of the pixel in
    /// column `x` of row `y`.
    pub open spec fn pixel(self, x: int, y: int, c: int) -> u8 {
        self.data[(y * self.width + x) * 4 + c]
    }
}

/// An in-memory raster image: `width * height` pixels, 8-bit RGBA, row-major,
/// all pixel data resident.
pub struct Raster {
    pub width: u32,
    pub height: u32,
    pub pixels: Vec<u8>,
}

impl View for Raster {
    type V = RasterView;

    open spec fn view(&self) -> RasterView {
        RasterView {
            width: self.width as nat,
            height: self.height as nat,
            data: self.pixels@,
        }
    }
}

impl Raster {
    /// The invariant every raster handed out by this library satisfies.
    pub open spec fn wf(self) -> bool {
        self@.wf()
    }
}

} // verus!
