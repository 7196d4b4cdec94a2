//! The GPIO pins that drive the LED matrix, and the pin masks that light a
//! row's LEDs.
//!
//! An LED is lit when its row pin is high and its column pin is low. In a
//! pin mask, bit *n* stands for GPIO pin *n*; in a column mask, bit 0 stands
//! for matrix column 0.
use vstd::prelude::*;

use crate::display::frame::MATRIX_ROWS;

verus! {

/// Number in the GPIO port of the first column pin.
pub const FIRST_COL_PIN: u32 = 4;

/// Number in the GPIO port of the last column pin.
pub const LAST_COL_PIN: u32 = 12;

/// Bitmask of the matrix columns (0 to 8) in a column mask.
pub const ALL_COLUMNS: u32 = 0x1ff;

/// Number in the GPIO port of the first row pin.
pub const FIRST_ROW_PIN: u32 = 13;

/// Number in the GPIO port of the last row pin.
pub const LAST_ROW_PIN: u32 = 15;

/// Bitmask of the GPIO port numbers of the column pins (4 to 12).
pub const COL_PINS_MASK: u32 = 0x1ff0;

/// Bitmask of the GPIO port numbers of the row pins (13 to 15).
pub const ROW_PINS_MASK: u32 = 0xe000;

/// Whether bit `i` of `mask` is set.
pub open spec fn bit(mask: u32, i: u32) -> bool {
    (mask >> i) & 1u32 == 1u32
}

/// Returns a mask with the `count` bits from bit `lo` upwards set.
pub fn bit_range(lo: u32, count: u32) -> (r: u32)
    requires
        count < 32,
        lo < 32,
        lo + count <= 32,
    ensures
        forall|i: u32| i < 32 ==> bit(r, i) == (lo <= i && i < lo + count),
{
    assert(count < 32 ==> 1u32 << count >= 1u32) by (bit_vector);
    let ones: u32 = (1u32 << count) - 1;
    let r = ones << lo;
    assert forall|i: u32| i < 32 implies bit(r, i) == (lo <= i && i < lo + count) by {
        assert(count < 32 && lo + count <= 32 && i < 32 && r == ((((1u32 << count) - 1u32) as u32) << lo) ==> (((r >> i) & 1u32
            == 1u32) == (lo <= i && i < lo + count))) by (bit_vector);
    }
    r
}

/// Restricts a pin mask to the display's row and column pins.
pub fn display_pins_only(pins: u32) -> (r: u32)
    ensures
        forall|i: u32| i < 32 ==> bit(r, i) == (bit(pins, i) && FIRST_COL_PIN <= i && i <= LAST_ROW_PIN),
{
    let r = pins & (ROW_PINS_MASK | COL_PINS_MASK);
    assert forall|i: u32| i < 32 implies bit(r, i) == (bit(pins, i) && 4 <= i && i <= 15) by {
        assert(i < 32 && r == pins & (0xe000u32 | 0x1ff0u32) ==> (((r >> i) & 1u32 == 1u32) == (((pins >> i) & 1u32
            == 1u32) && 4 <= i && i <= 15))) by (bit_vector);
    }
    r
}

/// The pins to set high and the pins to set low so that exactly the LEDs
/// of matrix row `row` in the column mask `cols` are lit: the row's pin is
/// set and the other row pins cleared; each column pin is cleared if its
/// column is in `cols`, and set otherwise. Bits of `cols` beyond the
/// matrix's columns are ignored.
pub fn row_pins(row: usize, cols: u32) -> (r: (u32, u32))
    requires
        row < MATRIX_ROWS,
    ensures
        forall|i: u32|
            i < 32 ==> bit(r.0, i) == (i == FIRST_ROW_PIN + row || (FIRST_COL_PIN <= i && i <= LAST_COL_PIN && !bit(
                cols,
                (i - FIRST_COL_PIN) as u32,
            ))),
        forall|i: u32|
            i < 32 ==> bit(r.1, i) == ((FIRST_ROW_PIN <= i && i <= LAST_ROW_PIN && i != FIRST_ROW_PIN + row) || (
            FIRST_COL_PIN <= i && i <= LAST_COL_PIN && bit(cols, (i - FIRST_COL_PIN) as u32))),
{
    let rows_to_set: u32 = 1u32 << (FIRST_ROW_PIN + row as u32);
    let rows_to_clear: u32 = ROW_PINS_MASK ^ rows_to_set;
    let cols_to_clear: u32 = (cols & ALL_COLUMNS) << FIRST_COL_PIN;
    let cols_to_set: u32 = COL_PINS_MASK ^ cols_to_clear;
    let to_set = display_pins_only(rows_to_set | cols_to_set);
    let to_clear = display_pins_only(rows_to_clear | cols_to_clear);
    let w: u32 = row as u32;
    assert forall|i: u32| i < 32 implies bit(to_set, i) == (i == 13 + w || (4 <= i && i <= 12 && !bit(cols, (i - 4) as u32))) by {
        assert(w < 3 && i < 32 && rows_to_set == 1u32 << (13u32 + w) && cols_to_set == 0x1ff0u32 ^ ((cols & 0x1ffu32) << 4u32)
            ==> ((((rows_to_set | cols_to_set) >> i) & 1u32 == 1u32 && 4 <= i && i <= 15) == (i == 13 + w || (4
            <= i && i <= 12 && !((cols >> ((i - 4) as u32)) & 1u32 == 1u32))))) by (bit_vector);
    }
    assert forall|i: u32| i < 32 implies bit(to_clear, i) == ((13 <= i && i <= 15 && i != 13 + w) || (4 <= i && i <= 12
        && bit(cols, (i - 4) as u32))) by {
        assert(w < 3 && i < 32 && rows_to_clear == 0xe000u32 ^ (1u32 << (13u32 + w)) && cols_to_clear == (cols & 0x1ffu32) << 4u32
            ==> ((((rows_to_clear | cols_to_clear) >> i) & 1u32 == 1u32 && 4 <= i && i <= 15) == ((13 <= i && i <= 15
            && i != 13 + w) || (4 <= i && i <= 12 && (cols >> ((i - 4) as u32)) & 1u32 == 1u32)))) by (bit_vector);
    }
    (to_set, to_clear)
}

/// The column pins to clear so that the LEDs of the current row in the
/// column mask `cols` are lit as well. Bits of `cols` beyond the matrix's
/// columns are ignored.
pub fn extra_column_pins(cols: u32) -> (r: u32)
    ensures
        forall|i: u32|
            i < 32 ==> bit(r, i) == (FIRST_COL_PIN <= i && i <= LAST_COL_PIN && bit(cols, (i - FIRST_COL_PIN) as u32)),
{
    let shifted: u32 = (cols & ALL_COLUMNS) << FIRST_COL_PIN;
    let r = display_pins_only(shifted);
    assert forall|i: u32| i < 32 implies bit(r, i) == (4 <= i && i <= 12 && bit(cols, (i - 4) as u32)) by {
        assert(i < 32 && shifted == (cols & 0x1ffu32) << 4u32 && (((r >> i) & 1u32 == 1u32) == (((shifted >> i) & 1u32 == 1u32) && 4
            <= i && i <= 15)) ==> (((r >> i) & 1u32 == 1u32) == (4 <= i && i <= 12 && (cols >> ((i - 4) as u32))
            & 1u32 == 1u32))) by (bit_vector);
    }
    r
}

} // verus!
