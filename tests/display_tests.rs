use rmicrobit::display::control::DisplayControl;
use rmicrobit::display::engine::{initialise_control, initialise_timer, Display, Event, CYCLE_TICKS};
use rmicrobit::display::frame::{image_coordinates, MicrobitFrame, RowPlan, MATRIX_COLS, MATRIX_ROWS};
use rmicrobit::display::render::Render;
use rmicrobit::display::timer::DisplayTimer;

struct FakeTimer {
    cycle: u16,
    enabled: bool,
    ticks: u16,
    primary: bool,
    secondary: bool,
    programmed: Vec<u16>,
}

impl FakeTimer {
    fn new() -> FakeTimer {
        FakeTimer { cycle: 0, enabled: true, ticks: 0, primary: false, secondary: false, programmed: Vec::new() }
    }
}

impl DisplayTimer for FakeTimer {
    fn cycle_ticks(&self) -> u16 {
        self.cycle
    }

    fn primary_signalled(&self) -> bool {
        self.primary
    }

    fn secondary_signalled(&self) -> bool {
        self.secondary
    }

    fn secondary_enabled(&self) -> bool {
        self.enabled
    }

    fn secondary_ticks(&self) -> u16 {
        self.ticks
    }

    fn initialise_cycle(&mut self, ticks: u16) {
        self.cycle = ticks;
        self.enabled = false;
    }

    fn enable_secondary(&mut self) {
        self.enabled = true;
    }

    fn disable_secondary(&mut self) {
        self.enabled = false;
    }

    fn program_secondary(&mut self, ticks: u16) {
        self.ticks = ticks;
        self.programmed.push(ticks);
    }

    fn check_primary(&mut self) -> bool {
        let r = self.primary;
        self.primary = false;
        r
    }

    fn check_secondary(&mut self) -> bool {
        let r = self.secondary;
        self.secondary = false;
        r
    }
}

struct FakeControl {
    initialised: bool,
    row: usize,
    cols: u32,
}

impl DisplayControl for FakeControl {
    fn lit_row(&self) -> usize {
        self.row
    }

    fn lit_cols(&self) -> u32 {
        self.cols
    }

    fn initialise_for_display(&mut self) {
        self.initialised = true;
        self.cols = 0;
    }

    fn display_row_leds(&mut self, row: usize, cols: u32) {
        self.row = row;
        self.cols = cols;
    }

    fn light_current_row_leds(&mut self, cols: u32) {
        self.cols |= cols;
    }
}

struct Image([[u8; 5]; 5]);

impl Render for Image {
    fn brightness(&self, x: usize, y: usize) -> u8 {
        self.0[y][x]
    }

    fn brightness_at(&self, x: usize, y: usize) -> u8 {
        self.0[y][x]
    }
}

/// The on-time in ticks that each brightness level should get.
const ON_TIMES: [u32; 10] = [0, 2, 4, 8, 15, 28, 53, 102, 199, 375];

/// Runs one primary cycle and returns the row it rendered and, for each
/// column, the tick at which it was turned on.
fn run_cycle(display: &mut Display, timer: &mut FakeTimer, control: &mut FakeControl) -> (usize, [Option<u16>; 9]) {
    let mut on_at = [None; 9];
    timer.primary = true;
    assert_eq!(display.handle_event(timer, control), Event::SwitchedRow);
    for col in 0..9 {
        if control.cols & (1 << col) != 0 {
            on_at[col] = Some(0);
        }
    }
    let mut last = 0;
    let mut alarms = 0;
    while timer.enabled {
        assert!(timer.ticks > last && timer.ticks < CYCLE_TICKS);
        last = timer.ticks;
        let before = control.cols;
        timer.secondary = true;
        assert_eq!(display.handle_event(timer, control), Event::UpdatedRow);
        let added = control.cols & !before;
        assert!(added != 0, "an alarm lit nothing");
        for col in 0..9 {
            if added & (1 << col) != 0 {
                on_at[col] = Some(last);
            }
        }
        alarms += 1;
        assert!(alarms <= 8);
    }
    (control.row, on_at)
}

fn on_time(on_at: Option<u16>) -> u32 {
    match on_at {
        Some(t) => (CYCLE_TICKS - t) as u32,
        None => 0,
    }
}

fn test_image() -> Image {
    Image([
        [0, 1, 2, 3, 4],
        [5, 6, 7, 8, 9],
        [9, 8, 7, 6, 5],
        [4, 3, 2, 1, 0],
        [9, 0, 5, 0, 9],
    ])
}

fn fresh() -> (Display, FakeTimer, FakeControl) {
    let mut timer = FakeTimer::new();
    let mut control = FakeControl { initialised: false, row: 99, cols: 0 };
    initialise_timer(&mut timer);
    initialise_control(&mut control);
    assert_eq!(timer.cycle, 375);
    assert!(!timer.enabled);
    assert!(control.initialised);
    (Display::new(), timer, control)
}

#[test]
fn cycle_on_times_match_image() {
    let image = test_image();
    let mut frame = MicrobitFrame::new();
    frame.set(&image);
    let (mut display, mut timer, mut control) = fresh();
    display.set_frame(&frame);
    let mut rows_seen = [false; 3];
    for _ in 0..3 {
        let (row, on_at) = run_cycle(&mut display, &mut timer, &mut control);
        rows_seen[row] = true;
        for col in 0..MATRIX_COLS {
            let expected = match image_coordinates(col, row) {
                Some((x, y)) => ON_TIMES[image.0[y][x] as usize],
                None => 0,
            };
            assert_eq!(on_time(on_at[col]), expected, "row {} col {}", row, col);
        }
    }
    assert_eq!(rows_seen, [true, true, true]);
}

#[test]
fn rows_advance_circularly() {
    let (mut display, mut timer, mut control) = fresh();
    let mut rows = Vec::new();
    for _ in 0..5 {
        let (row, _) = run_cycle(&mut display, &mut timer, &mut control);
        rows.push(row);
    }
    assert_eq!(rows, vec![1, 2, 0, 1, 2]);
}

#[test]
fn blank_frame_needs_no_alarm() {
    let (mut display, mut timer, mut control) = fresh();
    let (_, on_at) = run_cycle(&mut display, &mut timer, &mut control);
    assert_eq!(on_at, [None; 9]);
    assert!(timer.programmed.is_empty());
    assert!(!timer.enabled);
}

#[test]
fn full_brightness_needs_no_alarm() {
    let image = Image([[9; 5]; 5]);
    let mut frame = MicrobitFrame::new();
    frame.set(&image);
    let (mut display, mut timer, mut control) = fresh();
    display.set_frame(&frame);
    let (row, on_at) = run_cycle(&mut display, &mut timer, &mut control);
    assert_eq!(row, 1);
    // row 1 has LEDs in columns 0..=6 only
    assert_eq!(control.cols, 0b111_1111);
    assert_eq!(on_at[6], Some(0));
    assert_eq!(on_at[7], None);
    assert!(timer.programmed.is_empty());
}

#[test]
fn alarms_only_for_populated_levels() {
    // only levels 3 and 7 used
    let image = Image([[3, 7, 3, 7, 3]; 5]);
    let mut frame = MicrobitFrame::new();
    frame.set(&image);
    let (mut display, mut timer, mut control) = fresh();
    display.set_frame(&frame);
    run_cycle(&mut display, &mut timer, &mut control);
    assert_eq!(timer.programmed, vec![273, 367]);
}

#[test]
fn greyscale_timings_are_exact() {
    let mut timings = Vec::new();
    for level in 1..9u8 {
        let image = Image([[level; 5]; 5]);
        let mut frame = MicrobitFrame::new();
        frame.set(&image);
        let (mut display, mut timer, mut control) = fresh();
        display.set_frame(&frame);
        run_cycle(&mut display, &mut timer, &mut control);
        assert_eq!(timer.programmed.len(), 1);
        timings.push(timer.programmed[0]);
    }
    assert_eq!(timings, vec![373, 371, 367, 360, 347, 322, 273, 176]);
}

#[test]
fn brighter_columns_are_on_longer() {
    let image = test_image();
    let mut frame = MicrobitFrame::new();
    frame.set(&image);
    let (mut display, mut timer, mut control) = fresh();
    display.set_frame(&frame);
    for _ in 0..3 {
        let (row, on_at) = run_cycle(&mut display, &mut timer, &mut control);
        for c1 in 0..MATRIX_COLS {
            for c2 in 0..MATRIX_COLS {
                if let (Some((x1, y1)), Some((x2, y2))) = (image_coordinates(c1, row), image_coordinates(c2, row)) {
                    if image.0[y1][x1] < image.0[y2][x2] {
                        assert!(on_time(on_at[c1]) <= on_time(on_at[c2]));
                    }
                }
            }
        }
    }
}

#[test]
fn new_frame_does_not_disturb_current_row() {
    let image = Image([[5; 5]; 5]);
    let mut frame = MicrobitFrame::new();
    frame.set(&image);
    let (mut display, mut timer, mut control) = fresh();
    display.set_frame(&frame);
    timer.primary = true;
    assert_eq!(display.handle_event(&mut timer, &mut control), Event::SwitchedRow);
    assert_eq!(control.row, 1);
    assert_eq!(control.cols, 0);
    assert_eq!(timer.ticks, 347);
    // replace the frame with a blank one while the row is in progress
    display.set_frame(&MicrobitFrame::new());
    timer.secondary = true;
    assert_eq!(display.handle_event(&mut timer, &mut control), Event::UpdatedRow);
    assert_eq!(control.cols, 0b111_1111);
    assert!(!timer.enabled);
    // the next row comes from the new frame
    let (row, on_at) = run_cycle(&mut display, &mut timer, &mut control);
    assert_eq!(row, 2);
    assert_eq!(on_at, [None; 9]);
}

#[test]
fn spurious_interrupt_changes_nothing() {
    let (mut display, mut timer, mut control) = fresh();
    control.cols = 0b101;
    assert_eq!(display.handle_event(&mut timer, &mut control), Event::Unknown);
    assert!(!Event::Unknown.is_new_row());
    assert!(Event::SwitchedRow.is_new_row());
    // a secondary signal with no level pending does nothing
    timer.secondary = true;
    assert_eq!(display.handle_event(&mut timer, &mut control), Event::UpdatedRow);
    assert_eq!(control.cols, 0b101);
    assert_eq!(control.row, 99);
}

#[test]
fn frame_rows_follow_the_led_layout() {
    let image = test_image();
    let mut frame = MicrobitFrame::new();
    frame.set(&image);
    for row in 0..MATRIX_ROWS {
        let plan: RowPlan = frame.row_plan(row);
        for col in 0..MATRIX_COLS {
            let mut levels = Vec::new();
            for b in 0..10u8 {
                if plan.lit_cols(b) & (1 << col) != 0 {
                    levels.push(b);
                }
            }
            match image_coordinates(col, row) {
                Some((x, y)) => assert_eq!(levels, vec![image.0[y][x]]),
                None => assert!(levels.is_empty()),
            }
        }
    }
}

#[test]
fn led_layout_covers_each_pixel_once() {
    let mut seen = [[0; 5]; 5];
    for row in 0..MATRIX_ROWS {
        for col in 0..MATRIX_COLS {
            if let Some((x, y)) = image_coordinates(col, row) {
                seen[y][x] += 1;
            }
        }
    }
    assert_eq!(seen, [[1; 5]; 5]);
    assert_eq!(image_coordinates(0, 0), Some((0, 0)));
    assert_eq!(image_coordinates(0, 1), Some((4, 2)));
    assert_eq!(image_coordinates(7, 1), None);
    assert_eq!(image_coordinates(8, 2), Some((3, 2)));
}

#[test]
fn default_row_plan_is_empty() {
    let plan = RowPlan::default();
    for b in 0..10u8 {
        assert_eq!(plan.lit_cols(b), 0);
    }
}
