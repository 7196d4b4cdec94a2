//! Low-level button drivers: reading a switch and reporting its press and
//! release transitions.
use vstd::prelude::*;

use crate::buttons::debouncing::Debounce;

verus! {

/// Old and new button states.
///
/// When a button is polled, a returned `Transition` indicates its previous
/// and current state (which may be the same).
#[derive(Debug)]
pub struct Transition {
    pub was_pressed: bool,
    pub is_pressed: bool,
}

/// A press or release event.
#[derive(Debug, PartialEq, Eq)]
pub enum TransitionEvent {
    Press,
    Release,
}

/// The event, if any, that the change from `was_pressed` to `is_pressed`
/// represents.
pub open spec fn transition_event(was_pressed: bool, is_pressed: bool) -> Option<TransitionEvent> {
    if !was_pressed && is_pressed {
        Some(TransitionEvent::Press)
    } else if was_pressed && !is_pressed {
        Some(TransitionEvent::Release)
    } else {
        None
    }
}

/// A digital input whose level can be read: the switch of a button.
pub trait InputPin {
    /// Reports whether the pin is electrically low (the switch is closed).
    fn is_low(&self) -> bool;
}

/// A button which can be polled.
///
/// A `PollButton` keeps track of its state (pressed or released), updating it
/// when a `poll_` method is called. The states reported may have had a
/// debouncing algorithm applied to what the underlying device reports.
pub trait PollButton: Sized {
    /// Whether the button was in pressed state when last polled.
    spec fn pressed(&self) -> bool;

    /// Reports whether the button was in pressed state when last polled.
    fn is_pressed(&self) -> (r: bool)
        ensures
            r == self.pressed(),
    ;

    /// Polls the button and indicates its previous and current state.
    fn poll_transition(&mut self) -> (r: Transition)
        ensures
            r.was_pressed == old(self).pressed(),
            r.is_pressed == final(self).pressed(),
    ;

    /// Polls the button and indicates any change in state.
    fn poll_event(&mut self) -> (r: Option<TransitionEvent>)
        ensures
            r == transition_event(old(self).pressed(), final(self).pressed()),
    {
        let t = self.poll_transition();
        if !t.was_pressed && t.is_pressed {
            Some(TransitionEvent::Press)
        } else if t.was_pressed && !t.is_pressed {
            Some(TransitionEvent::Release)
        } else {
            None
        }
    }
}

/// A button based on an input pin, with a debouncing algorithm.
///
/// The button behaves as if its switch was in released state before the first
/// poll, so if the switch is closed when `new()` is called then the first
/// `poll_event()` reports `Press`.
pub struct Button<T: InputPin, D: Debounce> {
    pin: T,
    debouncer: D,
    pressed_state: bool,
}

impl<T: InputPin, D: Debounce> Button<T, D> {
    /// The pin the button reads.
    pub closed spec fn pin(&self) -> T {
        self.pin
    }

    /// The state of the debouncing algorithm.
    pub closed spec fn debouncer(&self) -> D {
        self.debouncer
    }

    /// Takes ownership of an input pin and returns a `Button`, in released
    /// state.
    pub fn new(pin: T) -> (r: Button<T, D>)
        ensures
            r.pin() == pin,
            !r.pressed(),
    {
        Button { pin, debouncer: D::default(), pressed_state: false }
    }

    /// Gives the underlying pin back.
    pub fn free(self) -> (r: T)
        ensures
            r == self.pin(),
    {
        self.pin
    }

    /// Feeds one raw sample of the switch (`pin_is_low`: the switch is
    /// closed) through the debouncer and reports the transition.
    pub fn poll_sample(&mut self, pin_is_low: bool) -> (r: Transition)
        ensures
            final(self).pin() == old(self).pin(),
            final(self).debouncer() == old(self).debouncer().next_state(pin_is_low),
            final(self).pressed() == old(self).debouncer().debounced(pin_is_low),
            r.was_pressed == old(self).pressed(),
            r.is_pressed == final(self).pressed(),
    {
        let was_pressed = self.pressed_state;
        self.pressed_state = self.debouncer.debounce(pin_is_low);
        Transition { was_pressed, is_pressed: self.pressed_state }
    }

    fn update_state(&mut self) -> (r: Transition)
        ensures
            final(self).pin() == old(self).pin(),
            exists|sample: bool|
                final(self).debouncer() == old(self).debouncer().next_state(sample)
                && final(self).pressed() == old(self).debouncer().debounced(sample),
            r.was_pressed == old(self).pressed(),
            r.is_pressed == final(self).pressed(),
    {
        let sample = self.pin.is_low();
        self.poll_sample(sample)
    }
}

impl<T: InputPin, D: Debounce> PollButton for Button<T, D> {
    closed spec fn pressed(&self) -> bool {
        self.pressed_state
    }

    fn is_pressed(&self) -> (r: bool) {
        self.pressed_state
    }

    /// Reads the pin once and feeds the sample through the debouncer.
    fn poll_transition(&mut self) -> (r: Transition)
        ensures
            final(self).pin() == old(self).pin(),
            exists|sample: bool|
                final(self).debouncer() == old(self).debouncer().next_state(sample)
                && final(self).pressed() == old(self).debouncer().debounced(sample),
    {
        self.update_state()
    }
}

} // verus!
