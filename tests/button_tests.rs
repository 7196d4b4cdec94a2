use std::cell::Cell;
use std::rc::Rc;

use rmicrobit::buttons::debouncing::{CountingDebouncer, Debounce, TrivialDebouncer};
use rmicrobit::buttons::low_level::{Button, InputPin, PollButton, Transition, TransitionEvent};
use rmicrobit::buttons::monitors::dual;
use rmicrobit::buttons::monitors::dual_with_hold;
use rmicrobit::buttons::monitors::holding::{self, DefaultHoldDescriptor, HoldAnnotator, HoldDescriptor};
use rmicrobit::buttons::monitors::single::{self, EagerMonitor, LazyMonitor};
use rmicrobit::buttons::monitors::single_with_hold;

/// A pin whose level the test sets through a shared cell.
struct FakePin(Rc<Cell<bool>>);

impl InputPin for FakePin {
    fn is_low(&self) -> bool {
        self.0.get()
    }
}

/// A button whose pressed state the test sets directly.
struct FakeButton {
    switch: Rc<Cell<bool>>,
    pressed: bool,
}

impl PollButton for FakeButton {
    fn pressed(&self) -> bool {
        self.pressed
    }

    fn is_pressed(&self) -> bool {
        self.pressed
    }

    fn poll_transition(&mut self) -> Transition {
        let was_pressed = self.pressed;
        self.pressed = self.switch.get();
        Transition { was_pressed, is_pressed: self.pressed }
    }
}

fn fake_button() -> (FakeButton, Rc<Cell<bool>>) {
    let switch = Rc::new(Cell::new(false));
    (FakeButton { switch: switch.clone(), pressed: false }, switch)
}

#[test]
fn counting_debouncer_flips_on_ninth_sample() {
    let mut d = CountingDebouncer::default();
    for _ in 0..8 {
        assert!(!d.debounce(true));
    }
    assert!(d.debounce(true));
    // the counter saturates at 12
    for _ in 0..10 {
        assert!(d.debounce(true));
    }
    // back down from 12: it reads released once the counter drops below 2
    for _ in 0..10 {
        assert!(d.debounce(false));
    }
    assert!(!d.debounce(false));
}

#[test]
fn counting_debouncer_symmetric_sequence_flips_back() {
    let mut d = CountingDebouncer::default();
    for _ in 0..9 {
        d.debounce(true);
    }
    // the counter is at 9: 7 released samples take it to 2, the 8th to 1
    for _ in 0..7 {
        assert!(d.debounce(false));
    }
    assert!(!d.debounce(false));
}

#[test]
fn counting_debouncer_holds_between_thresholds() {
    let mut d = CountingDebouncer::default();
    for _ in 0..5 {
        assert!(!d.debounce(true));
    }
    assert!(!d.debounce(false));
    assert!(!d.debounce(true));
}

#[test]
fn trivial_debouncer_passes_samples_through() {
    let mut d = TrivialDebouncer::default();
    assert!(d.debounce(true));
    assert!(!d.debounce(false));
    assert!(d.debounce(true));
}

#[test]
fn button_reports_press_when_closed_at_start() {
    let level = Rc::new(Cell::new(true));
    let mut button: Button<FakePin, TrivialDebouncer> = Button::new(FakePin(level.clone()));
    assert!(!button.is_pressed());
    assert_eq!(button.poll_event(), Some(TransitionEvent::Press));
    assert!(button.is_pressed());
    assert_eq!(button.poll_event(), None);
    level.set(false);
    assert_eq!(button.poll_event(), Some(TransitionEvent::Release));
    let pin = button.free();
    assert!(!pin.is_low());
}

#[test]
fn button_transition_reports_old_and_new_state() {
    let level = Rc::new(Cell::new(false));
    let mut button: Button<FakePin, TrivialDebouncer> = Button::new(FakePin(level.clone()));
    let t = button.poll_transition();
    assert!(!t.was_pressed && !t.is_pressed);
    level.set(true);
    let t = button.poll_transition();
    assert!(!t.was_pressed && t.is_pressed);
}

#[test]
fn button_with_counting_debouncer_needs_nine_samples() {
    let level = Rc::new(Cell::new(false));
    let mut button: Button<FakePin, CountingDebouncer> = Button::new(FakePin(level));
    for _ in 0..8 {
        let t = button.poll_sample(true);
        assert!(!t.is_pressed);
    }
    let t = button.poll_sample(true);
    assert!(!t.was_pressed && t.is_pressed);
}

#[test]
fn hold_annotator_reports_hold_once() {
    let mut h: HoldAnnotator<DefaultHoldDescriptor> = HoldAnnotator::new();
    assert_eq!(h.annotate(Transition { was_pressed: false, is_pressed: false }), None);
    assert_eq!(h.annotate(Transition { was_pressed: false, is_pressed: true }), Some(holding::Event::Press));
    for _ in 0..249 {
        assert_eq!(h.annotate(Transition { was_pressed: true, is_pressed: true }), None);
    }
    assert_eq!(h.annotate(Transition { was_pressed: true, is_pressed: true }), Some(holding::Event::Hold));
    for _ in 0..1000 {
        assert_eq!(h.annotate(Transition { was_pressed: true, is_pressed: true }), None);
    }
    // the release is reported even after a hold
    assert_eq!(h.annotate(Transition { was_pressed: true, is_pressed: false }), Some(holding::Event::Release));
    // a new press restarts the count
    assert_eq!(h.annotate(Transition { was_pressed: false, is_pressed: true }), Some(holding::Event::Press));
    for _ in 0..249 {
        assert_eq!(h.annotate(Transition { was_pressed: true, is_pressed: true }), None);
    }
    assert_eq!(h.annotate(Transition { was_pressed: true, is_pressed: true }), Some(holding::Event::Hold));
}

#[test]
fn lazy_monitor_clicks_on_release() {
    let (button, switch) = fake_button();
    let mut m = LazyMonitor::new(button);
    assert_eq!(m.poll(), None);
    switch.set(true);
    assert_eq!(m.poll(), None);
    assert_eq!(m.poll(), None);
    switch.set(false);
    assert_eq!(m.poll(), Some(single::Event::Click));
    assert_eq!(m.poll(), None);
    let button = m.free();
    assert!(!button.is_pressed());
}

#[test]
fn eager_monitor_clicks_on_press() {
    let (button, switch) = fake_button();
    let mut m = EagerMonitor::new(button);
    switch.set(true);
    assert_eq!(m.poll(), Some(single::Event::Click));
    assert_eq!(m.poll(), None);
    switch.set(false);
    assert_eq!(m.poll(), None);
    assert!(!m.free().is_pressed());
}

#[test]
fn single_with_hold_reports_hold_then_click() {
    let (button, switch) = fake_button();
    let mut m: single_with_hold::Monitor<FakeButton, DefaultHoldDescriptor> = single_with_hold::Monitor::new(button);
    switch.set(true);
    assert_eq!(m.poll(), None);
    for _ in 0..249 {
        assert_eq!(m.poll(), None);
    }
    assert_eq!(m.poll(), Some(single_with_hold::Event::Hold));
    assert_eq!(m.poll(), None);
    switch.set(false);
    // the release after a hold is still reported as a click
    assert_eq!(m.poll(), Some(single_with_hold::Event::Click));
}

#[test]
fn single_with_hold_short_press_clicks() {
    let (button, switch) = fake_button();
    let mut m: single_with_hold::Monitor<FakeButton, DefaultHoldDescriptor> = single_with_hold::Monitor::new(button);
    switch.set(true);
    for _ in 0..10 {
        assert_eq!(m.poll(), None);
    }
    switch.set(false);
    assert_eq!(m.poll(), Some(single_with_hold::Event::Click));
    assert!(!m.free().is_pressed());
}

fn dual_monitor() -> (dual::Monitor<FakeButton, FakeButton>, Rc<Cell<bool>>, Rc<Cell<bool>>) {
    let (a, switch_a) = fake_button();
    let (b, switch_b) = fake_button();
    (dual::Monitor::new(a, b), switch_a, switch_b)
}

#[test]
fn dual_single_a_click() {
    let (mut m, a, _b) = dual_monitor();
    a.set(true);
    assert_eq!(m.poll(), None);
    assert_eq!(m.poll(), None);
    a.set(false);
    assert_eq!(m.poll(), Some(dual::Event::ClickA));
    for _ in 0..10 {
        assert_eq!(m.poll(), None);
    }
}

#[test]
fn dual_single_b_click() {
    let (mut m, _a, b) = dual_monitor();
    b.set(true);
    assert_eq!(m.poll(), None);
    b.set(false);
    assert_eq!(m.poll(), Some(dual::Event::ClickB));
    assert_eq!(m.poll(), None);
}

/// Runs a sequence of switch changes, one poll after each, and returns the
/// events that came out, with the index of the step that gave each.
fn run_dual(steps: &[(char, bool)]) -> Vec<(usize, dual::Event)> {
    let (mut m, a, b) = dual_monitor();
    let mut events = Vec::new();
    for (i, (which, down)) in steps.iter().enumerate() {
        if *which == 'a' {
            a.set(*down);
        } else {
            b.set(*down);
        }
        if let Some(e) = m.poll() {
            events.push((i, e));
        }
        for _ in 0..3 {
            assert_eq!(m.poll(), None);
        }
    }
    events
}

#[test]
fn dual_click_ab_release_a_first() {
    let events = run_dual(&[('a', true), ('b', true), ('a', false), ('b', false)]);
    assert_eq!(events, vec![(3, dual::Event::ClickAB)]);
}

#[test]
fn dual_click_ab_release_b_first() {
    let events = run_dual(&[('a', true), ('b', true), ('b', false), ('a', false)]);
    assert_eq!(events, vec![(3, dual::Event::ClickAB)]);
}

#[test]
fn dual_click_ba_release_b_first() {
    let events = run_dual(&[('b', true), ('a', true), ('b', false), ('a', false)]);
    assert_eq!(events, vec![(3, dual::Event::ClickAB)]);
}

#[test]
fn dual_click_ba_release_a_first() {
    let events = run_dual(&[('b', true), ('a', true), ('a', false), ('b', false)]);
    assert_eq!(events, vec![(3, dual::Event::ClickAB)]);
}

#[test]
fn dual_click_ab_with_repress() {
    let events = run_dual(&[('a', true), ('b', true), ('b', false), ('b', true), ('b', false), ('a', false)]);
    assert_eq!(events, vec![(5, dual::Event::ClickAB)]);
}

#[test]
fn dual_both_in_one_poll() {
    let (mut m, a, b) = dual_monitor();
    a.set(true);
    b.set(true);
    assert_eq!(m.poll(), None);
    a.set(false);
    b.set(false);
    assert_eq!(m.poll(), Some(dual::Event::ClickAB));
    assert_eq!(m.poll(), None);
    let (a_button, b_button) = m.free();
    assert!(!a_button.is_pressed() && !b_button.is_pressed());
}

fn dual_hold_monitor(
) -> (dual_with_hold::Monitor<FakeButton, FakeButton, DefaultHoldDescriptor>, Rc<Cell<bool>>, Rc<Cell<bool>>) {
    let (a, switch_a) = fake_button();
    let (b, switch_b) = fake_button();
    (dual_with_hold::Monitor::new(a, b), switch_a, switch_b)
}

#[test]
fn dual_hold_single_a_hold_then_silent() {
    let (mut m, a, _b) = dual_hold_monitor();
    a.set(true);
    assert_eq!(m.poll(), None);
    for _ in 0..249 {
        assert_eq!(m.poll(), None);
    }
    assert_eq!(m.poll(), Some(dual_with_hold::Event::HoldA));
    for _ in 0..500 {
        assert_eq!(m.poll(), None);
    }
    a.set(false);
    assert_eq!(m.poll(), None);
    assert_eq!(m.poll(), None);
}

#[test]
fn dual_hold_both_held_reports_one_hold_ab() {
    for release_a_first in [true, false] {
        let (mut m, a, b) = dual_hold_monitor();
        a.set(true);
        b.set(true);
        let mut events = Vec::new();
        for _ in 0..600 {
            if let Some(e) = m.poll() {
                events.push(e);
            }
        }
        if release_a_first {
            a.set(false);
        } else {
            b.set(false);
        }
        for _ in 0..5 {
            if let Some(e) = m.poll() {
                events.push(e);
            }
        }
        a.set(false);
        b.set(false);
        for _ in 0..5 {
            if let Some(e) = m.poll() {
                events.push(e);
            }
        }
        assert_eq!(events, vec![dual_with_hold::Event::HoldAB]);
    }
}

#[test]
fn dual_hold_click_a() {
    let (mut m, a, _b) = dual_hold_monitor();
    a.set(true);
    assert_eq!(m.poll(), None);
    a.set(false);
    assert_eq!(m.poll(), Some(dual_with_hold::Event::ClickA));
    let (a_button, _) = m.free();
    assert!(!a_button.is_pressed());
}

/// Counts in steps of 3 towards a threshold of 250, which no step lands on.
struct CoarseHold();

impl HoldDescriptor for CoarseHold {
    fn start() -> u32 {
        0
    }

    fn increment() -> u32 {
        3
    }

    fn ticks() -> u32 {
        250
    }

    fn hold_start() -> u32 {
        0
    }

    fn hold_increment() -> u32 {
        3
    }

    fn hold_ticks() -> u32 {
        250
    }
}

#[test]
fn hold_counter_saturates_at_threshold() {
    let mut h: HoldAnnotator<CoarseHold> = HoldAnnotator::new();
    assert_eq!(h.annotate(Transition { was_pressed: false, is_pressed: true }), Some(holding::Event::Press));
    // 83 steps of 3 reach 249; the 84th is cut to 250
    for _ in 0..83 {
        assert_eq!(h.annotate(Transition { was_pressed: true, is_pressed: true }), None);
    }
    assert_eq!(h.annotate(Transition { was_pressed: true, is_pressed: true }), Some(holding::Event::Hold));
    for _ in 0..1000 {
        assert_eq!(h.annotate(Transition { was_pressed: true, is_pressed: true }), None);
    }
    assert_eq!(h.annotate(Transition { was_pressed: true, is_pressed: false }), Some(holding::Event::Release));
}
