//! The interface between images and the display.
use vstd::prelude::*;

verus! {

/// The number of brightness levels for greyscale images.
pub const BRIGHTNESSES: usize = 10;

/// The maximum brightness level for greyscale images (the minimum is 0).
pub const MAX_BRIGHTNESS: u8 = 9;

/// The number of visible LED columns.
pub const IMAGE_COLS: usize = 5;

/// The number of visible LED rows.
pub const IMAGE_ROWS: usize = 5;

/// What the display needs to render an image.
pub trait Render {
    /// The brightness of the LED at (x, y); (0, 0) is the top left.
    spec fn brightness(&self, x: usize, y: usize) -> u8;

    /// Returns the brightness value for a single LED, in `0..=MAX_BRIGHTNESS`.
    fn brightness_at(&self, x: usize, y: usize) -> (r: u8)
        requires
            x < IMAGE_COLS,
            y < IMAGE_ROWS,
        ensures
            r == self.brightness(x, y),
            r <= MAX_BRIGHTNESS,
    ;
}

} // verus!
