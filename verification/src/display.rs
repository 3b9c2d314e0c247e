//! The monochrome framebuffer the engine draws into.
//!
//! The screen is a 64x32 grid of pixels, each lit or unlit, stored
//! row-major. The engine only toggles pixels; scaling and colour are
//! the renderer's concern, and `from_u8_rgb` gives the packed pixel
//! value a renderer needs for a lit pixel.

use vstd::prelude::*;

verus! {

/// Screen width in pixels.
pub const SCREEN_WIDTH: usize = 64;

/// Screen height in pixels.
pub const SCREEN_HEIGHT: usize = 32;

/// Number of pixels on the screen.
pub const SCREEN_PIXELS: usize = 2048;

/// The 64x32 pixel grid, row-major: the pixel at column `x`, row `y`
/// is `pixels[y * 64 + x]`, `true` when lit.
pub struct FrameBuffer {
    pub pixels: Vec<bool>,
}

impl View for FrameBuffer {
    type V = Seq<bool>;

    open spec fn view(&self) -> Seq<bool> {
        self.pixels@
    }
}

/// A fully unlit screen.
pub open spec fn blank_screen() -> Seq<bool> {
    Seq::new(SCREEN_PIXELS as nat, |i: int| false)
}

impl FrameBuffer {
    /// The buffer holds exactly one value per screen pixel.
    pub open spec fn wf(self) -> bool {
        self@.len() == SCREEN_PIXELS
    }

    /// A framebuffer with every pixel unlit.
    pub fn new() -> (r: FrameBuffer)
        ensures
            r.wf(),
            r@ == blank_screen(),
    {
        let mut pixels: Vec<bool> = Vec::new();
        let mut i: usize = 0;
        while i < SCREEN_PIXELS
            invariant
                i <= SCREEN_PIXELS,
                pixels@.len() == i,
                forall|j: int| 0 <= j < i ==> !pixels@[j],
            decreases SCREEN_PIXELS - i,
        {
            pixels.push(false);
            i = i + 1;
        }
        proof {
            assert(pixels@ =~= blank_screen());
        }
        FrameBuffer { pixels }
    }

    /// Whether the pixel at column `x`, row `y` is lit.
    pub fn get(&self, x: usize, y: usize) -> (r: bool)
        requires
            self.wf(),
            x < SCREEN_WIDTH,
            y < SCREEN_HEIGHT,
        ensures
            r == self@[y * SCREEN_WIDTH + x],
    {
        self.pixels[y * SCREEN_WIDTH + x]
    }
}

/// Packs three 8-bit colour channels into one `0RGB` pixel value.
pub fn from_u8_rgb(r: u8, g: u8, b: u8) -> (px: u32)
    ensures
        px == ((r as u32) << 16) | ((g as u32) << 8) | (b as u32),
{
    let (r, g, b) = (r as u32, g as u32, b as u32);
    (r << 16) | (g << 8) | b
}

} // verus!
