//! Compiled images: which matrix columns to light at each brightness level.
use vstd::prelude::*;

use crate::display::render::{Render, BRIGHTNESSES, MAX_BRIGHTNESS};

verus! {

/// The number of pins connected to LED columns.
pub const MATRIX_COLS: usize = 9;

/// The number of pins connected to LED rows.
pub const MATRIX_ROWS: usize = 3;

/// Whether column `col` belongs to the column set `mask` (bit 0 is column 0).
pub open spec fn has_col(mask: u16, col: int) -> bool {
    0 <= col < 16 && (mask >> (col as u16)) & 1u16 == 1u16
}

proof fn lemma_empty_has_no_col(col: int)
    ensures
        !has_col(0u16, col),
{
    if 0 <= col < 16 {
        let c = col as u16;
        assert((0u16 >> c) & 1u16 == 0u16) by (bit_vector);
    }
}

pub(crate) proof fn lemma_nonempty(mask: u16, col: int)
    requires
        has_col(mask, col),
    ensures
        mask != 0,
{
    lemma_empty_has_no_col(col);
}

proof fn lemma_add_col(mask: u16, added: u16, col: int)
    requires
        added < 16,
    ensures
        has_col(mask | (1u16 << added), col) == (has_col(mask, col) || col == added),
{
    if 0 <= col < 16 {
        let c = col as u16;
        assert(c < 16 && added < 16 ==> (((mask | (1u16 << added)) >> c) & 1u16 == 1u16) == (((mask >> c)
            & 1u16 == 1u16) || c == added)) by (bit_vector);
    }
}

/// The image coordinates (x, y) of the LED at matrix column `col` and row
/// `row`, or `None` where no LED is wired.
pub open spec fn led_position(col: int, row: int) -> Option<(usize, usize)> {
    if row == 0 {
        if col == 0 { Some((0usize, 0usize)) }
        else if col == 1 { Some((2, 0)) }
        else if col == 2 { Some((4, 0)) }
        else if col == 3 { Some((4, 3)) }
        else if col == 4 { Some((3, 3)) }
        else if col == 5 { Some((2, 3)) }
        else if col == 6 { Some((1, 3)) }
        else if col == 7 { Some((0, 3)) }
        else if col == 8 { Some((1, 2)) }
        else { None }
    } else if row == 1 {
        if col == 0 { Some((4usize, 2usize)) }
        else if col == 1 { Some((0, 2)) }
        else if col == 2 { Some((2, 2)) }
        else if col == 3 { Some((1, 0)) }
        else if col == 4 { Some((3, 0)) }
        else if col == 5 { Some((3, 4)) }
        else if col == 6 { Some((1, 4)) }
        else { None }
    } else if row == 2 {
        if col == 0 { Some((2usize, 4usize)) }
        else if col == 1 { Some((4, 4)) }
        else if col == 2 { Some((0, 4)) }
        else if col == 3 { Some((0, 1)) }
        else if col == 4 { Some((1, 1)) }
        else if col == 5 { Some((2, 1)) }
        else if col == 6 { Some((3, 1)) }
        else if col == 7 { Some((4, 1)) }
        else if col == 8 { Some((3, 2)) }
        else { None }
    } else {
        None
    }
}

/// Returns the image coordinates (x, y) of the LED at matrix column `col`
/// and row `row`, or `None` if that position controls no LED.
pub fn image_coordinates(col: usize, row: usize) -> (r: Option<(usize, usize)>)
    requires
        col < MATRIX_COLS,
        row < MATRIX_ROWS,
    ensures
        r == led_position(col as int, row as int),
        r matches Some((x, y)) ==> x < 5 && y < 5,
{
    match (row, col) {
        (0, 0) => Some((0, 0)),
        (0, 1) => Some((2, 0)),
        (0, 2) => Some((4, 0)),
        (0, 3) => Some((4, 3)),
        (0, 4) => Some((3, 3)),
        (0, 5) => Some((2, 3)),
        (0, 6) => Some((1, 3)),
        (0, 7) => Some((0, 3)),
        (0, _) => Some((1, 2)),
        (1, 0) => Some((4, 2)),
        (1, 1) => Some((0, 2)),
        (1, 2) => Some((2, 2)),
        (1, 3) => Some((1, 0)),
        (1, 4) => Some((3, 0)),
        (1, 5) => Some((3, 4)),
        (1, 6) => Some((1, 4)),
        (1, _) => None,
        (_, 0) => Some((2, 4)),
        (_, 1) => Some((4, 4)),
        (_, 2) => Some((0, 4)),
        (_, 3) => Some((0, 1)),
        (_, 4) => Some((1, 1)),
        (_, 5) => Some((2, 1)),
        (_, 6) => Some((3, 1)),
        (_, 7) => Some((4, 1)),
        (_, _) => Some((3, 2)),
    }
}

/// The part of an image displayed on one matrix row: for each brightness
/// level, the set of columns lit at that level.
#[derive(Clone, Copy)]
pub struct RowPlan {
    levels: [u16; BRIGHTNESSES],
}

impl View for RowPlan {
    type V = Seq<u16>;

    /// The column set of each brightness level, as bitmasks.
    closed spec fn view(&self) -> Seq<u16> {
        self.levels@
    }
}

impl RowPlan {
    /// Returns a new `RowPlan` with all LEDs at brightness 0 (in no set).
    pub fn new() -> (r: RowPlan)
        ensures
            r@ == Seq::new(BRIGHTNESSES as nat, |b: int| 0u16),
    {
        let r = RowPlan { levels: [0u16; BRIGHTNESSES] };
        assert(r@ =~= Seq::new(BRIGHTNESSES as nat, |b: int| 0u16));
        r
    }

    /// Says which LEDs have the given brightness (bit 0 is column 0).
    pub fn lit_cols(&self, brightness: u8) -> (r: u16)
        requires
            brightness <= MAX_BRIGHTNESS,
        ensures
            r == self@[brightness as int],
    {
        self.levels[brightness as usize]
    }

    /// Adds column `col` to the set of the given brightness.
    fn light_col(&mut self, brightness: u8, col: usize)
        requires
            brightness <= MAX_BRIGHTNESS,
            col < 16,
        ensures
            final(self)@ == old(self)@.update(brightness as int, old(self)@[brightness as int] | (1u16 << col as u16)),
    {
        let b = brightness as usize;
        let bits = self.levels[b] | (1u16 << col as u16);
        self.levels[b] = bits;
        assert(self@ =~= old(self)@.update(brightness as int, old(self)@[brightness as int] | (1u16 << col as u16)));
    }
}

impl Default for RowPlan {
    fn default() -> (r: RowPlan)
        ensures
            r@ == Seq::new(BRIGHTNESSES as nat, |b: int| 0u16),
    {
        RowPlan::new()
    }
}

/// The brightness an image gives to the LED at matrix column `col` of row
/// `row`, or `None` where no LED is wired.
pub open spec fn led_brightness<R: Render>(image: &R, col: int, row: int) -> Option<u8> {
    match led_position(col, row) {
        Some((x, y)) => Some(image.brightness(x, y)),
        None => None,
    }
}

/// The image gives the LED at matrix column `col` of row `row`, if any, a
/// brightness in `0..=MAX_BRIGHTNESS`.
pub open spec fn in_range<R: Render>(image: &R, col: int, row: int) -> bool {
    led_brightness(image, col, row) matches Some(b) ==> b <= MAX_BRIGHTNESS
}

/// The row plan `plan` shows row `row` of `image`: each LED's column is in
/// the set of exactly the image's brightness at its position (which is a
/// valid brightness), and no other column is in any set.
pub open spec fn shows_row<R: Render>(plan: Seq<u16>, image: &R, row: int) -> bool {
    &&& plan.len() == BRIGHTNESSES
    &&& forall|col: int| 0 <= col < MATRIX_COLS ==> #[trigger] in_range(image, col, row)
    &&& forall|b: int, col: int|
        0 <= b < BRIGHTNESSES ==> (#[trigger] has_col(plan[b], col) <==> (0 <= col < MATRIX_COLS
            && led_brightness(image, col, row) == Some(b as u8)))
}

/// The frame `frame` (one row plan per matrix row) shows `image`.
pub open spec fn shows_image<R: Render>(frame: Seq<Seq<u16>>, image: &R) -> bool {
    &&& frame.len() == MATRIX_ROWS
    &&& forall|row: int| 0 <= row < MATRIX_ROWS ==> #[trigger] shows_row(frame[row], image, row)
}

/// Each column is in at most one brightness level's set.
pub open spec fn plan_wf(plan: Seq<u16>) -> bool {
    &&& plan.len() == BRIGHTNESSES
    &&& forall|b1: int, b2: int, col: int|
        0 <= b1 < BRIGHTNESSES && 0 <= b2 < BRIGHTNESSES && #[trigger] has_col(plan[b1], col) && #[trigger] has_col(
            plan[b2],
            col,
        ) ==> b1 == b2
}

/// A row plan that shows a row of an image is well formed.
pub proof fn lemma_shown_row_wf<R: Render>(plan: Seq<u16>, image: &R, row: int)
    requires
        shows_row(plan, image, row),
    ensures
        plan_wf(plan),
{
}

pub(crate) proof fn lemma_blank_wf(plan: Seq<u16>)
    requires
        plan == Seq::new(BRIGHTNESSES as nat, |b: int| 0u16),
    ensures
        plan_wf(plan),
{
    assert forall|b1: int, b2: int, col: int|
        0 <= b1 < BRIGHTNESSES && 0 <= b2 < BRIGHTNESSES && #[trigger] has_col(plan[b1], col) && #[trigger] has_col(
            plan[b2],
            col,
        ) implies b1 == b2 by {
        lemma_empty_has_no_col(col);
    }
}

/// A compiled representation of a 5×5 greyscale image, in a form the display
/// engine uses directly: one `RowPlan` for each matrix row.
#[derive(Clone, Copy)]
pub struct MicrobitFrame {
    rows: [RowPlan; MATRIX_ROWS],
}

impl View for MicrobitFrame {
    type V = Seq<Seq<u16>>;

    /// The row plans' views, one per matrix row.
    closed spec fn view(&self) -> Seq<Seq<u16>> {
        self.rows@.map_values(|p: RowPlan| p@)
    }
}

impl MicrobitFrame {
    /// Every row plan is well formed.
    #[verifier::type_invariant]
    pub open spec fn inv(self) -> bool {
        &&& self@.len() == MATRIX_ROWS
        &&& forall|row: int| 0 <= row < MATRIX_ROWS ==> #[trigger] plan_wf(self@[row])
    }

    /// Returns a new frame, initially blank.
    pub fn new() -> (r: MicrobitFrame)
        ensures
            r@.len() == MATRIX_ROWS,
            forall|row: int| 0 <= row < MATRIX_ROWS ==> #[trigger] r@[row] == Seq::new(BRIGHTNESSES as nat, |b: int| 0u16),
    {
        let p = RowPlan::new();
        proof {
            lemma_blank_wf(p@);
        }
        let rows = [p, p, p];
        proof {
            lemma_rows_view(rows);
        }
        MicrobitFrame { rows }
    }

    /// Returns the `RowPlan` of a matrix row.
    pub fn row_plan(&self, row: usize) -> (r: RowPlan)
        requires
            row < MATRIX_ROWS,
        ensures
            r@ == self@[row as int],
    {
        self.rows[row]
    }

    /// Stores a new image into the frame.
    pub fn set<R: Render>(&mut self, image: &R)
        ensures
            shows_image(final(self)@, image),
    {
        proof {
            use_type_invariant(&*self);
        }
        let mut row: usize = 0;
        while row < MATRIX_ROWS
            invariant
                row <= MATRIX_ROWS,
                self@.len() == MATRIX_ROWS,
                forall|r: int| 0 <= r < MATRIX_ROWS ==> #[trigger] plan_wf(self@[r]),
                forall|r: int| 0 <= r < row ==> #[trigger] shows_row(self@[r], image, r),
            decreases MATRIX_ROWS - row,
        {
            let mut plan = RowPlan::new();
            proof {
                assert forall|b: int, c: int| 0 <= b < BRIGHTNESSES implies !#[trigger] has_col(plan@[b], c) by {
                    lemma_empty_has_no_col(c);
                }
            }
            let mut col: usize = 0;
            while col < MATRIX_COLS
                invariant
                    row < MATRIX_ROWS,
                    col <= MATRIX_COLS,
                    plan@.len() == BRIGHTNESSES,
                    forall|c: int| 0 <= c < col ==> #[trigger] in_range(image, c, row as int),
                    forall|b: int, c: int|
                        0 <= b < BRIGHTNESSES ==> (#[trigger] has_col(plan@[b], c) <==> (0 <= c < col
                            && led_brightness(image, c, row as int) == Some(b as u8))),
                decreases MATRIX_COLS - col,
            {
                if let Some((x, y)) = image_coordinates(col, row) {
                    let brightness = image.brightness_at(x, y);
                    let ghost before = plan@;
                    plan.light_col(brightness, col);
                    proof {
                        assert forall|b: int, c: int| 0 <= b < BRIGHTNESSES implies (#[trigger] has_col(plan@[b], c) <==> (0 <= c < col + 1
                            && led_brightness(image, c, row as int) == Some(b as u8))) by {
                            if b == brightness as int {
                                lemma_add_col(before[b], col as u16, c);
                            }
                        }
                    }
                } else {
                    proof {
                        assert forall|b: int, c: int| 0 <= b < BRIGHTNESSES implies (#[trigger] has_col(plan@[b], c) <==> (0 <= c < col + 1
                            && led_brightness(image, c, row as int) == Some(b as u8))) by {
                        }
                    }
                }
                col = col + 1;
            }
            proof {
                lemma_shown_row_wf(plan@, image, row as int);
            }
            let mut rows = self.rows;
            rows[row] = plan;
            proof {
                lemma_rows_view(self.rows);
                lemma_rows_view(rows);
                assert(rows@.map_values(|p: RowPlan| p@) =~= self@.update(row as int, plan@));
            }
            *self = MicrobitFrame { rows };
            row = row + 1;
        }
    }
}

impl Default for MicrobitFrame {
    fn default() -> (r: MicrobitFrame)
        ensures
            r@.len() == MATRIX_ROWS,
            forall|row: int| 0 <= row < MATRIX_ROWS ==> #[trigger] r@[row] == Seq::new(BRIGHTNESSES as nat, |b: int| 0u16),
    {
        MicrobitFrame::new()
    }
}

proof fn lemma_rows_view(rows: [RowPlan; MATRIX_ROWS])
    ensures
        rows@.len() == MATRIX_ROWS,
        rows@.map_values(|p: RowPlan| p@).len() == MATRIX_ROWS,
        forall|row: int| 0 <= row < MATRIX_ROWS ==> rows@.map_values(|p: RowPlan| p@)[row] == (#[trigger] rows@[row])@,
{
    broadcast use vstd::array::group_array_axioms;
}

} // verus!
