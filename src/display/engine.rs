//! The display engine: a two-level interrupt state machine that renders one
//! matrix row per primary timer cycle and fakes greyscale with the timer's
//! secondary alarm.
use vstd::prelude::*;

use crate::display::control::DisplayControl;
use crate::display::frame::{
    has_col, led_brightness, plan_wf, shows_image, MicrobitFrame, RowPlan, MATRIX_COLS, MATRIX_ROWS,
};
use crate::display::render::{Render, BRIGHTNESSES, MAX_BRIGHTNESS};
use crate::display::timer::DisplayTimer;

verus! {

/// The number of 16µs ticks in the primary cycle (6ms).
pub const CYCLE_TICKS: u16 = 375;

/// The tick of the primary cycle at which LEDs of brightness `level`
/// (`1..=8`) are turned on. Each level's on-time is about 1.9 times the
/// previous one's; level 9 is on for the whole cycle.
pub open spec fn turn_on_ticks(level: int) -> int {
    if level == 1 {
        373
    } else if level == 2 {
        371
    } else if level == 3 {
        367
    } else if level == 4 {
        360
    } else if level == 5 {
        347
    } else if level == 6 {
        322
    } else if level == 7 {
        273
    } else {
        176
    }
}

/// The ticks per cycle for which an LED of brightness `level` is on.
pub open spec fn on_time(level: int) -> int {
    if level <= 0 {
        0
    } else if level >= MAX_BRIGHTNESS {
        CYCLE_TICKS as int
    } else {
        CYCLE_TICKS - turn_on_ticks(level)
    }
}

fn greyscale_timing(level: u8) -> (r: u16)
    requires
        1 <= level < MAX_BRIGHTNESS,
    ensures
        r == turn_on_ticks(level as int),
{
    match level {
        1 => 373,
        2 => 371,
        3 => 367,
        4 => 360,
        5 => 347,
        6 => 322,
        7 => 273,
        _ => 176,
    }
}

/// The highest brightness level below `from` whose column set is not
/// empty, or 0 when there is none.
pub open spec fn next_level(plan: Seq<u16>, from: int) -> int
    decreases from,
{
    if from <= 1 {
        0
    } else if plan[from - 1] != 0 {
        from - 1
    } else {
        next_level(plan, from - 1)
    }
}

/// The scheduling step picks the highest populated level below `from`:
/// it gives 0 (the secondary alarm is disabled) exactly when no level in
/// `1..from` has a column, and otherwise a level whose column set is not
/// empty, skipping only empty ones.
pub proof fn lemma_next_level(plan: Seq<u16>, from: int)
    requires
        1 <= from,
    ensures
        0 <= next_level(plan, from) < from,
        next_level(plan, from) != 0 ==> plan[next_level(plan, from)] != 0,
        forall|l: int| next_level(plan, from) < l < from ==> plan[l] == 0,
        next_level(plan, from) == 0 <==> forall|l: int| 1 <= l < from ==> plan[l] == 0,
    decreases from,
{
    if from > 1 && plan[from - 1] == 0 {
        lemma_next_level(plan, from - 1);
    }
}

/// The tick at which the secondary alarms still to come in a cycle turn on
/// column `col`, when the alarm is set for brightness `next` (0: disabled).
/// Each alarm lights the columns of its level and moves on to the next
/// populated level.
pub open spec fn secondary_turn_on(plan: Seq<u16>, next: int, col: int) -> Option<int>
    decreases next,
{
    if next <= 0 || next >= MAX_BRIGHTNESS {
        None
    } else if has_col(plan[next], col) {
        Some(turn_on_ticks(next))
    } else {
        proof {
            lemma_next_level(plan, next);
        }
        secondary_turn_on(plan, next_level(plan, next), col)
    }
}

/// The tick of the cycle at which column `col` is turned on while `plan`'s
/// row is rendered: at the start for brightness 9, otherwise when the
/// secondary alarm that lights it signals; `None` if it stays off.
pub open spec fn turn_on_tick(plan: Seq<u16>, col: int) -> Option<int> {
    if has_col(plan[MAX_BRIGHTNESS as int], col) {
        Some(0)
    } else {
        secondary_turn_on(plan, next_level(plan, MAX_BRIGHTNESS as int), col)
    }
}

/// The ticks per cycle for which column `col` is lit while `plan`'s row is
/// rendered: every lit LED goes off at the end of the cycle.
pub open spec fn realized_on_time(plan: Seq<u16>, col: int) -> int {
    match turn_on_tick(plan, col) {
        Some(t) => CYCLE_TICKS - t,
        None => 0,
    }
}

proof fn lemma_populated_level_reached(plan: Seq<u16>, from: int, b: int)
    requires
        1 <= b < from,
        plan[b] != 0,
    ensures
        b <= next_level(plan, from),
    decreases from,
{
    if plan[from - 1] == 0 {
        lemma_populated_level_reached(plan, from - 1, b);
    }
}

proof fn lemma_secondary_finds(plan: Seq<u16>, next: int, col: int, b: int)
    requires
        plan_wf(plan),
        1 <= b <= next < MAX_BRIGHTNESS,
        has_col(plan[b], col),
    ensures
        secondary_turn_on(plan, next, col) == Some(turn_on_ticks(b)),
    decreases next,
{
    if next != b {
        assert(!has_col(plan[next], col));
        lemma_next_level(plan, next);
        crate::display::frame::lemma_nonempty(plan[b], col);
        lemma_populated_level_reached(plan, next, b);
        lemma_secondary_finds(plan, next_level(plan, next), col, b);
    }
}

proof fn lemma_secondary_misses(plan: Seq<u16>, next: int, col: int)
    requires
        forall|l: int| 1 <= l < MAX_BRIGHTNESS ==> !has_col(#[trigger] plan[l], col),
    ensures
        secondary_turn_on(plan, next, col) is None,
    decreases next,
{
    if 0 < next < MAX_BRIGHTNESS {
        lemma_next_level(plan, next);
        lemma_secondary_misses(plan, next_level(plan, next), col);
    }
}

/// In a well-formed row plan, a column in brightness level `b`'s set is lit
/// for exactly `on_time(b)` ticks of the cycle.
pub proof fn lemma_realized_on_time(plan: Seq<u16>, col: int, b: int)
    requires
        plan_wf(plan),
        0 <= b < BRIGHTNESSES,
        has_col(plan[b], col),
    ensures
        realized_on_time(plan, col) == on_time(b),
{
    lemma_next_level(plan, MAX_BRIGHTNESS as int);
    if b == 0 {
        lemma_secondary_misses(plan, next_level(plan, MAX_BRIGHTNESS as int), col);
    } else if b < MAX_BRIGHTNESS {
        crate::display::frame::lemma_nonempty(plan[b], col);
        lemma_populated_level_reached(plan, MAX_BRIGHTNESS as int, b);
        lemma_secondary_finds(plan, next_level(plan, MAX_BRIGHTNESS as int), col, b);
    }
}

/// A column in no brightness level's set is never lit.
pub proof fn lemma_unlisted_column_stays_off(plan: Seq<u16>, col: int)
    requires
        plan.len() == BRIGHTNESSES,
        forall|b: int| 0 <= b < BRIGHTNESSES ==> !has_col(#[trigger] plan[b], col),
    ensures
        realized_on_time(plan, col) == 0,
{
    lemma_secondary_misses(plan, next_level(plan, MAX_BRIGHTNESS as int), col);
}

/// Brighter is never shorter: in a well-formed row plan, a column at a
/// higher brightness level is lit for at least as long in each cycle as a
/// column at a lower level.
pub proof fn lemma_brighter_is_longer(plan: Seq<u16>, col1: int, level1: int, col2: int, level2: int)
    requires
        plan_wf(plan),
        0 <= level1 < level2 < BRIGHTNESSES,
        has_col(plan[level1], col1),
        has_col(plan[level2], col2),
    ensures
        realized_on_time(plan, col1) <= realized_on_time(plan, col2),
{
    lemma_realized_on_time(plan, col1, level1);
    lemma_realized_on_time(plan, col2, level2);
}

/// The reason for a display-timer interrupt, as `handle_event` reports it.
#[derive(Debug, PartialEq, Eq, Structural)]
pub enum Event {
    /// The display has switched to lighting a new row.
    SwitchedRow,
    /// The display has changed the LEDs in the current row.
    UpdatedRow,
    /// Neither a new primary cycle nor a secondary alarm has occurred.
    Unknown,
}

impl Event {
    /// Checks whether this event is `SwitchedRow`.
    pub fn is_new_row(self) -> (r: bool)
        ensures
            r == (self == Event::SwitchedRow),
    {
        self == Event::SwitchedRow
    }
}

/// Starts the timer with the display's primary cycle; call once before using
/// a `Display`.
pub fn initialise_timer<T: DisplayTimer>(timer: &mut T)
    ensures
        final(timer).cycle_ticks() == CYCLE_TICKS,
        !final(timer).secondary_enabled(),
{
    timer.initialise_cycle(CYCLE_TICKS);
}

/// Initialises the display hardware; call once before using a `Display`.
pub fn initialise_control<C: DisplayControl>(control: &mut C)
    ensures
        final(control).lit_cols() == 0,
{
    control.initialise_for_display();
}

/// The secondary alarm is set for brightness `next`: disabled when `next`
/// is 0, otherwise signalling at that level's turn-on tick.
pub open spec fn alarm_set_for<T: DisplayTimer>(timer: T, next: int) -> bool {
    &&& next == 0 ==> !timer.secondary_enabled()
    &&& next != 0 ==> timer.secondary_ticks() == turn_on_ticks(next)
}

/// The level `next` chosen below `from` is populated, or 0 exactly when no
/// level in `1..from` is: no alarm is ever set for an empty level, and the
/// alarm is disabled only when nothing is left to light.
pub open spec fn scheduled_populated(plan: Seq<u16>, from: int, next: int) -> bool {
    &&& next != 0 ==> plan[next] != 0
    &&& next == 0 <==> forall|l: int| 1 <= l < from ==> plan[l] == 0
}

/// Manages the LED display: which row is lit, and which brightness level
/// the secondary alarm is set for.
pub struct Display {
    // index (0..MATRIX_ROWS) of the row being displayed
    row_strobe: usize,
    // brightness level (0..=MAX_BRIGHTNESS) to process next
    next_brightness: u8,
    frame: MicrobitFrame,
    // the plan of the row being displayed, kept so that a new frame does
    // not disturb the rest of this row's cycle
    current_plan: RowPlan,
}

impl Display {
    /// The matrix row being displayed.
    pub closed spec fn row(&self) -> int {
        self.row_strobe as int
    }

    /// The brightness level the secondary alarm is set for (0: none).
    pub closed spec fn next_brightness(&self) -> int {
        self.next_brightness as int
    }

    /// The frame being displayed.
    pub closed spec fn frame(&self) -> Seq<Seq<u16>> {
        self.frame@
    }

    /// The plan of the row being displayed.
    pub closed spec fn plan(&self) -> Seq<u16> {
        self.current_plan@
    }

    /// The row is a matrix row, the pending level a brightness below 9, and
    /// every row plan (the frame's and the working copy) puts each column in
    /// at most one brightness level.
    pub open spec fn wf(&self) -> bool {
        &&& 0 <= self.row() < MATRIX_ROWS
        &&& 0 <= self.next_brightness() < MAX_BRIGHTNESS
        &&& plan_wf(self.plan())
        &&& self.frame().len() == MATRIX_ROWS
        &&& forall|row: int| 0 <= row < MATRIX_ROWS ==> #[trigger] plan_wf(self.frame()[row])
    }

    /// How a primary tick moves the display on: to the next row (circularly),
    /// with that row's plan from the frame as the working copy, and the
    /// highest populated brightness level below 9 pending.
    pub open spec fn primary_tick_result(old: &Display, new: &Display) -> bool {
        let row = if old.row() + 1 == MATRIX_ROWS { 0 } else { old.row() + 1 };
        &&& new.row() == row
        &&& new.frame() == old.frame()
        &&& new.plan() == old.frame()[row]
        &&& new.next_brightness() == next_level(new.plan(), MAX_BRIGHTNESS as int)
    }

    /// How a secondary alarm moves the display on: to the next populated
    /// brightness level below the one just lit.
    pub open spec fn secondary_tick_result(old: &Display, new: &Display) -> bool {
        &&& new.row() == old.row()
        &&& new.frame() == old.frame()
        &&& new.plan() == old.plan()
        &&& new.next_brightness() == next_level(old.plan(), old.next_brightness())
    }

    /// Creates a `Display`, initially holding a blank image.
    pub fn new() -> (r: Display)
        ensures
            r.wf(),
            r.row() == 0,
            r.next_brightness() == 0,
            forall|b: int| 0 <= b < BRIGHTNESSES ==> #[trigger] r.plan()[b] == 0,
            forall|row: int, b: int|
                0 <= row < MATRIX_ROWS && 0 <= b < BRIGHTNESSES ==> #[trigger] r.frame()[row][b] == 0,
    {
        let frame = MicrobitFrame::new();
        let plan = RowPlan::new();
        proof {
            use_type_invariant(&frame);
            crate::display::frame::lemma_blank_wf(plan@);
        }
        Display { row_strobe: 0, next_brightness: 0, frame, current_plan: plan }
    }

    /// Accepts a new frame to be displayed (its data is copied).
    ///
    /// The row being rendered goes on with the plan it started with; the
    /// next rows come from the new frame.
    pub fn set_frame(&mut self, frame: &MicrobitFrame)
        requires
            old(self).wf(),
        ensures
            final(self).wf(),
            final(self).frame() == frame@,
            final(self).row() == old(self).row(),
            final(self).next_brightness() == old(self).next_brightness(),
            final(self).plan() == old(self).plan(),
    {
        proof {
            use_type_invariant(frame);
        }
        self.frame = *frame;
    }

    /// Updates `next_brightness` to the next (dimmer) populated brightness
    /// and programs the secondary alarm for it, or disables the alarm if
    /// none is left.
    fn program_next_brightness<T: DisplayTimer>(&mut self, timer: &mut T)
        requires
            1 <= old(self).next_brightness() <= MAX_BRIGHTNESS,
            plan_wf(old(self).plan()),
            old(self).frame().len() == MATRIX_ROWS,
            0 <= old(self).row() < MATRIX_ROWS,
            forall|row: int| 0 <= row < MATRIX_ROWS ==> #[trigger] plan_wf(old(self).frame()[row]),
        ensures
            final(self).wf(),
            final(timer).cycle_ticks() == old(timer).cycle_ticks(),
            Display::secondary_tick_result(old(self), final(self)),
            alarm_set_for(*final(timer), final(self).next_brightness()),
            final(self).next_brightness() != 0 ==> final(timer).secondary_enabled() == old(timer).secondary_enabled(),
            scheduled_populated(final(self).plan(), old(self).next_brightness(), final(self).next_brightness()),
    {
        let ghost plan = self.current_plan@;
        let ghost start = self.next_brightness as int;
        proof {
            lemma_next_level(plan, start);
        }
        let mut level: u8 = self.next_brightness;
        loop
            invariant_except_break
                1 <= level <= start,
                next_level(plan, level as int) == next_level(plan, start),
            invariant
                plan == self.current_plan@,
                plan.len() == BRIGHTNESSES,
                start <= MAX_BRIGHTNESS,
            ensures
                level == next_level(plan, start),
            decreases level,
        {
            level = level - 1;
            if level == 0 {
                break;
            }
            if self.current_plan.lit_cols(level) != 0 {
                break;
            }
        }
        self.next_brightness = level;
        proof {
            lemma_next_level(plan, start);
        }
        if level == 0 {
            timer.disable_secondary();
        } else {
            timer.program_secondary(greyscale_timing(level));
        }
    }

    /// Starts a new primary cycle: lights the next row's brightness-9
    /// columns and sets the secondary alarm for its next populated level.
    pub fn handle_primary_tick<T: DisplayTimer, C: DisplayControl>(&mut self, timer: &mut T, control: &mut C)
        requires
            old(self).wf(),
        ensures
            final(self).wf(),
            Display::primary_tick_result(old(self), final(self)),
            final(control).lit_row() == final(self).row(),
            final(control).lit_cols() == final(self).plan()[MAX_BRIGHTNESS as int] as u32,
            alarm_set_for(*final(timer), final(self).next_brightness()),
            final(self).next_brightness() != 0 ==> final(timer).secondary_enabled(),
            scheduled_populated(final(self).plan(), MAX_BRIGHTNESS as int, final(self).next_brightness()),
            final(timer).cycle_ticks() == old(timer).cycle_ticks(),
    {
        self.row_strobe = self.row_strobe + 1;
        if self.row_strobe == MATRIX_ROWS {
            self.row_strobe = 0;
        }
        let plan = self.frame.row_plan(self.row_strobe);
        let lit_cols = plan.lit_cols(MAX_BRIGHTNESS);
        control.display_row_leds(self.row_strobe, lit_cols as u32);
        self.current_plan = plan;
        self.next_brightness = MAX_BRIGHTNESS;
        self.program_next_brightness(timer);
        if self.next_brightness != 0 {
            timer.enable_secondary();
        }
    }

    /// Handles the secondary alarm: additionally lights the columns of the
    /// pending brightness level, then sets the alarm for the next populated
    /// level (or disables it). With no level pending this does nothing.
    pub fn handle_secondary_tick<T: DisplayTimer, C: DisplayControl>(&mut self, timer: &mut T, control: &mut C)
        requires
            old(self).wf(),
        ensures
            final(self).wf(),
            old(self).next_brightness() == 0 ==> *final(self) == *old(self) && *final(timer) == *old(timer)
                && *final(control) == *old(control),
            old(self).next_brightness() != 0 ==> {
                &&& Display::secondary_tick_result(old(self), final(self))
                &&& final(control).lit_row() == old(control).lit_row()
                &&& final(control).lit_cols() == old(control).lit_cols() | (old(self).plan()[old(self).next_brightness()] as u32)
                &&& alarm_set_for(*final(timer), final(self).next_brightness())
                &&& final(self).next_brightness() != 0 ==> final(timer).secondary_enabled() == old(timer).secondary_enabled()
                &&& scheduled_populated(old(self).plan(), old(self).next_brightness(), final(self).next_brightness())
                &&& final(timer).cycle_ticks() == old(timer).cycle_ticks()
            },
    {
        if self.next_brightness == 0 {
            return;
        }
        let additional_cols = self.current_plan.lit_cols(self.next_brightness);
        control.light_current_row_leds(additional_cols as u32);
        self.program_next_brightness(timer);
    }

    /// Updates the LEDs and timer state during a timer interrupt.
    ///
    /// Always checks (and so clears) both of the timer's signals. A new
    /// primary cycle takes precedence over the secondary alarm: it gives
    /// `SwitchedRow` after a primary tick, otherwise the secondary alarm
    /// gives `UpdatedRow` after a secondary tick, and with neither signal
    /// nothing changes and the result is `Unknown`.
    pub fn handle_event<T: DisplayTimer, C: DisplayControl>(&mut self, timer: &mut T, control: &mut C) -> (r: Event)
        requires
            old(self).wf(),
        ensures
            final(self).wf(),
            (r == Event::SwitchedRow) == old(timer).primary_signalled(),
            (r == Event::UpdatedRow) == (!old(timer).primary_signalled() && old(timer).secondary_signalled()),
            final(timer).cycle_ticks() == old(timer).cycle_ticks(),
            r == Event::SwitchedRow ==> {
                &&& Display::primary_tick_result(old(self), final(self))
                &&& final(control).lit_row() == final(self).row()
                &&& final(control).lit_cols() == final(self).plan()[MAX_BRIGHTNESS as int] as u32
                &&& alarm_set_for(*final(timer), final(self).next_brightness())
                &&& final(self).next_brightness() != 0 ==> final(timer).secondary_enabled()
                &&& scheduled_populated(final(self).plan(), MAX_BRIGHTNESS as int, final(self).next_brightness())
            },
            r == Event::UpdatedRow ==> {
                &&& old(self).next_brightness() == 0 ==> *final(self) == *old(self) && *final(control) == *old(control)
                    && final(timer).secondary_enabled() == old(timer).secondary_enabled()
                    && final(timer).secondary_ticks() == old(timer).secondary_ticks()
                &&& old(self).next_brightness() != 0 ==> {
                    &&& Display::secondary_tick_result(old(self), final(self))
                    &&& final(control).lit_row() == old(control).lit_row()
                    &&& final(control).lit_cols() == old(control).lit_cols() | (old(self).plan()[old(self).next_brightness()] as u32)
                    &&& alarm_set_for(*final(timer), final(self).next_brightness())
                    &&& final(self).next_brightness() != 0 ==> final(timer).secondary_enabled() == old(timer).secondary_enabled()
                    &&& scheduled_populated(old(self).plan(), old(self).next_brightness(), final(self).next_brightness())
                }
            },
            r == Event::Unknown ==> *final(self) == *old(self) && *final(control) == *old(control)
                && final(timer).secondary_enabled() == old(timer).secondary_enabled()
                && final(timer).secondary_ticks() == old(timer).secondary_ticks(),
    {
        let row_timer_fired = timer.check_primary();
        let brightness_timer_fired = timer.check_secondary();
        if row_timer_fired {
            self.handle_primary_tick(timer, control);
            Event::SwitchedRow
        } else if brightness_timer_fired {
            self.handle_secondary_tick(timer, control);
            Event::UpdatedRow
        } else {
            Event::Unknown
        }
    }
}

/// In the running display, the plan of the row being lit gives a column at
/// a higher brightness level at least as long an on-time as a column at a
/// lower level.
pub proof fn lemma_display_brighter_is_longer(display: Display, col1: int, level1: int, col2: int, level2: int)
    requires
        display.wf(),
        0 <= level1 < level2 < BRIGHTNESSES,
        has_col(display.plan()[level1], col1),
        has_col(display.plan()[level2], col2),
    ensures
        realized_on_time(display.plan(), col1) <= realized_on_time(display.plan(), col2),
{
    lemma_brighter_is_longer(display.plan(), col1, level1, col2, level2);
}

/// After `set_frame` with a frame built from `image` and the primary tick
/// that starts a row's cycle, every LED of that row is lit for the on-time
/// of the brightness the image gives it, and positions with no LED stay
/// off.
pub proof fn lemma_cycle_realizes_image<R: Render>(image: &R, before: Display, after: Display, col: int)
    requires
        before.wf(),
        shows_image(before.frame(), image),
        Display::primary_tick_result(&before, &after),
        0 <= col < MATRIX_COLS,
    ensures
        match led_brightness(image, col, after.row()) {
            Some(b) => realized_on_time(after.plan(), col) == on_time(b as int),
            None => realized_on_time(after.plan(), col) == 0,
        },
{
    let row = after.row();
    let plan = after.plan();
    assert(crate::display::frame::shows_row(plan, image, row));
    assert(crate::display::frame::in_range(image, col, row));
    assert forall|b1: int, b2: int, c: int|
        0 <= b1 < BRIGHTNESSES && 0 <= b2 < BRIGHTNESSES && #[trigger] has_col(plan[b1], c) && #[trigger] has_col(
            plan[b2],
            c,
        ) implies b1 == b2 by {
    }
    match led_brightness(image, col, row) {
        Some(b) => {
            assert(has_col(plan[b as int], col));
            lemma_realized_on_time(plan, col, b as int);
        },
        None => {
            assert forall|b: int| 0 <= b < BRIGHTNESSES implies !has_col(#[trigger] plan[b], col) by {
            }
            lemma_unlisted_column_stays_off(plan, col);
        },
    }
}

} // verus!
