//! Support for detecting button "hold" events.
//!
//! This is part of the implementation of the single-button and dual-button
//! monitors with hold support, public so that variants with other timings
//! can be made.
use vstd::prelude::*;

use crate::buttons::low_level::Transition;

verus! {

/// Description of the number of ticks to treat as a "hold".
pub trait HoldDescriptor {
    /// The counter's value when the button is pressed.
    spec fn start() -> u32;

    /// The amount the counter grows by on each poll while the button stays
    /// pressed (up to the threshold).
    spec fn increment() -> u32;

    /// The counter value at which a hold is reported.
    spec fn ticks() -> u32;

    /// Returns `start()`.
    fn hold_start() -> (r: u32)
        ensures
            r == Self::start(),
    ;

    /// Returns `increment()`.
    fn hold_increment() -> (r: u32)
        ensures
            r == Self::increment(),
    ;

    /// Returns `ticks()`.
    fn hold_ticks() -> (r: u32)
        ensures
            r == Self::ticks(),
    ;
}

/// The default `HoldDescriptor`: starts at 0 and counts one per poll up to
/// 250 ticks (1.5s when polled every 6ms).
pub struct DefaultHoldDescriptor();

impl HoldDescriptor for DefaultHoldDescriptor {
    open spec fn start() -> u32 {
        0
    }

    open spec fn increment() -> u32 {
        1
    }

    open spec fn ticks() -> u32 {
        250
    }

    fn hold_start() -> (r: u32) {
        0
    }

    fn hold_increment() -> (r: u32) {
        1
    }

    fn hold_ticks() -> (r: u32) {
        250
    }
}

/// A press or release event, or a hold.
#[derive(Debug, PartialEq, Eq)]
pub enum Event {
    Press,
    Release,
    Hold,
}

/// The counter after one poll, from the counter before it and the button's
/// previous and current state: reset by a press, and while the button stays
/// pressed grown by one increment, saturating at the threshold.
pub open spec fn annotated_counter<T: HoldDescriptor>(counter: u32, was_pressed: bool, is_pressed: bool) -> u32 {
    if !was_pressed && is_pressed {
        T::start()
    } else if was_pressed && is_pressed && counter < T::ticks() {
        if T::ticks() - counter <= T::increment() {
            T::ticks()
        } else {
            (counter + T::increment()) as u32
        }
    } else {
        counter
    }
}

/// The event reported for one poll, from the counter before it and the
/// button's previous and current state.
///
/// A press gives `Press` and a release `Release` (whether or not a hold was
/// reported); while the button stays pressed, `Hold` comes exactly on the
/// poll at which the counter, below the threshold before it, reaches it.
pub open spec fn annotated_event<T: HoldDescriptor>(counter: u32, was_pressed: bool, is_pressed: bool) -> Option<Event> {
    if !was_pressed && is_pressed {
        Some(Event::Press)
    } else if was_pressed && !is_pressed {
        Some(Event::Release)
    } else if was_pressed && is_pressed && counter < T::ticks() && annotated_counter::<T>(
        counter,
        was_pressed,
        is_pressed,
    ) == T::ticks() {
        Some(Event::Hold)
    } else {
        None
    }
}

/// The counter never passes the threshold, and a hold is reported once per
/// press: the poll that reports it leaves the counter at the threshold, and
/// at the threshold further polls with the button down report nothing.
pub proof fn lemma_hold_reported_once<T: HoldDescriptor>(counter: u32, was_pressed: bool, is_pressed: bool)
    ensures
        counter <= T::ticks() && T::start() <= T::ticks() ==> annotated_counter::<T>(counter, was_pressed, is_pressed)
            <= T::ticks(),
        annotated_event::<T>(counter, was_pressed, is_pressed) == Some(Event::Hold) ==> annotated_counter::<T>(
            counter,
            was_pressed,
            is_pressed,
        ) == T::ticks(),
        counter == T::ticks() && was_pressed && is_pressed ==> annotated_event::<T>(counter, was_pressed, is_pressed)
            is None && annotated_counter::<T>(counter, was_pressed, is_pressed) == counter,
{
}

/// A hold-detection algorithm and its state: a counter of the polls during
/// which the button stayed pressed.
pub struct HoldAnnotator<T: HoldDescriptor> {
    counter: u32,
    descriptor: std::marker::PhantomData<T>,
}

impl<T: HoldDescriptor> HoldAnnotator<T> {
    /// The tick counter.
    pub closed spec fn counter(&self) -> u32 {
        self.counter
    }

    /// Returns a new `HoldAnnotator`.
    pub fn new() -> (r: HoldAnnotator<T>)
        ensures
            r.counter() == T::start(),
    {
        HoldAnnotator { counter: T::hold_start(), descriptor: std::marker::PhantomData }
    }

    /// Converts the result of a button poll to an event.
    ///
    /// Reports `Press` and `Release` as `PollButton::poll_event` does, and
    /// `Hold` once when the button has stayed pressed for the descriptor's
    /// number of ticks.
    pub fn annotate(&mut self, transition: Transition) -> (r: Option<Event>)
        ensures
            final(self).counter() == annotated_counter::<T>(
                old(self).counter(),
                transition.was_pressed,
                transition.is_pressed,
            ),
            r == annotated_event::<T>(old(self).counter(), transition.was_pressed, transition.is_pressed),
    {
        if !transition.was_pressed && transition.is_pressed {
            self.counter = T::hold_start();
            Some(Event::Press)
        } else if transition.was_pressed && !transition.is_pressed {
            Some(Event::Release)
        } else if transition.was_pressed && transition.is_pressed {
            let ticks = T::hold_ticks();
            if self.counter < ticks {
                let increment = T::hold_increment();
                if ticks - self.counter <= increment {
                    self.counter = ticks;
                } else {
                    self.counter = self.counter + increment;
                }
                if self.counter == ticks {
                    Some(Event::Hold)
                } else {
                    None
                }
            } else {
                None
            }
        } else {
            None
        }
    }
}

} // verus!
