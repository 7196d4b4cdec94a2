//! High-level driver for a single button, with "hold" support.
use vstd::prelude::*;

use crate::buttons::low_level::PollButton;
use crate::buttons::monitors::holding::{self, annotated_counter, annotated_event, HoldAnnotator, HoldDescriptor};

verus! {

/// An event from this module's `Monitor`.
#[derive(Debug, PartialEq, Eq)]
pub enum Event {
    Click,
    Hold,
}

/// Wrapper for a single `PollButton` generating click and hold events.
///
/// A release is reported as a click even when a hold was already reported
/// for the same press.
pub struct Monitor<T: PollButton, H: HoldDescriptor> {
    button: T,
    hold_annotator: HoldAnnotator<H>,
}

impl<T: PollButton, H: HoldDescriptor> Monitor<T, H> {
    /// The wrapped button.
    pub closed spec fn button(&self) -> T {
        self.button
    }

    /// The hold annotator's counter.
    pub closed spec fn counter(&self) -> u32 {
        self.hold_annotator.counter()
    }

    /// Takes ownership of a `PollButton` and returns a `Monitor`.
    pub fn new(button: T) -> (r: Monitor<T, H>)
        ensures
            r.button() == button,
            r.counter() == H::start(),
    {
        Monitor { button, hold_annotator: HoldAnnotator::new() }
    }

    /// Gives the underlying `PollButton` back.
    pub fn free(self) -> (r: T)
        ensures
            r == self.button(),
    {
        self.button
    }

    /// Polls the button and filters for events.
    ///
    /// Returns `Some(Hold)` when the button has been down for the hold
    /// threshold, `Some(Click)` when it is released, otherwise `None`.
    pub fn poll(&mut self) -> (r: Option<Event>)
        ensures
            ({
                let was = old(self).button().pressed();
                let now = final(self).button().pressed();
                &&& final(self).counter() == annotated_counter::<H>(old(self).counter(), was, now)
                &&& r == match annotated_event::<H>(old(self).counter(), was, now) {
                    Some(holding::Event::Release) => Some(Event::Click),
                    Some(holding::Event::Hold) => Some(Event::Hold),
                    _ => None,
                }
            }),
    {
        let transition = self.button.poll_transition();
        match self.hold_annotator.annotate(transition) {
            Some(holding::Event::Press) => None,
            Some(holding::Event::Release) => Some(Event::Click),
            Some(holding::Event::Hold) => Some(Event::Hold),
            None => None,
        }
    }
}

} // verus!
