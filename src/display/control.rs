//! The interface the display engine needs to control an LED matrix.
use vstd::prelude::*;

verus! {

/// The interface the display engine needs to work with an LED matrix.
///
/// Assumes the matrix is organised by rows and columns, in such a way that
/// LEDs from at most one row are lit at any time. In column bitmasks the
/// least-significant bit represents column 0.
pub trait DisplayControl {
    /// The matrix row most recently selected.
    spec fn lit_row(&self) -> usize;

    /// The columns lit in that row.
    spec fn lit_cols(&self) -> u32;

    /// Performs any required hardware initialisation, leaving every LED
    /// off; called once, before the display is used.
    fn initialise_for_display(&mut self)
        ensures
            final(self).lit_cols() == 0,
    ;

    /// In row `row`, lights exactly the LEDs listed in `cols`; turns off all
    /// LEDs in the other rows.
    fn display_row_leds(&mut self, row: usize, cols: u32)
        ensures
            final(self).lit_row() == row,
            final(self).lit_cols() == cols,
    ;

    /// In the current row, lights the LEDs listed in `cols`, in addition to
    /// those already lit.
    fn light_current_row_leds(&mut self, cols: u32)
        ensures
            final(self).lit_row() == old(self).lit_row(),
            final(self).lit_cols() == old(self).lit_cols() | cols,
    ;
}

} // verus!
