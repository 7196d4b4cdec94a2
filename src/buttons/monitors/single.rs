//! High-level driver for a single button.
use vstd::prelude::*;

use crate::buttons::low_level::{PollButton, TransitionEvent};

verus! {

/// An event from one of this module's monitors.
#[derive(Debug, PartialEq, Eq)]
pub enum Event {
    Click,
}

/// Wrapper for a single `PollButton` generating click events on release.
pub struct LazyMonitor<T: PollButton> {
    button: T,
}

impl<T: PollButton> LazyMonitor<T> {
    /// The wrapped button.
    pub closed spec fn button(&self) -> T {
        self.button
    }

    /// Takes ownership of a `PollButton` and returns a `LazyMonitor`.
    pub fn new(button: T) -> (r: LazyMonitor<T>)
        ensures
            r.button() == button,
    {
        LazyMonitor { button }
    }

    /// Gives the underlying `PollButton` back.
    pub fn free(self) -> (r: T)
        ensures
            r == self.button(),
    {
        self.button
    }

    /// Polls the button and filters for events.
    ///
    /// Returns `Some(Click)` if the button was released, otherwise `None`.
    pub fn poll(&mut self) -> (r: Option<Event>)
        ensures
            r == (if old(self).button().pressed() && !final(self).button().pressed() {
                Some(Event::Click)
            } else {
                None
            }),
    {
        match self.button.poll_event() {
            Some(TransitionEvent::Press) => None,
            Some(TransitionEvent::Release) => Some(Event::Click),
            None => None,
        }
    }
}

/// Wrapper for a single `PollButton` generating click events on press.
pub struct EagerMonitor<T: PollButton> {
    button: T,
}

impl<T: PollButton> EagerMonitor<T> {
    /// The wrapped button.
    pub closed spec fn button(&self) -> T {
        self.button
    }

    /// Takes ownership of a `PollButton` and returns an `EagerMonitor`.
    pub fn new(button: T) -> (r: EagerMonitor<T>)
        ensures
            r.button() == button,
    {
        EagerMonitor { button }
    }

    /// Gives the underlying `PollButton` back.
    pub fn free(self) -> (r: T)
        ensures
            r == self.button(),
    {
        self.button
    }

    /// Polls the button and filters for events.
    ///
    /// Returns `Some(Click)` if the button was pressed, otherwise `None`.
    pub fn poll(&mut self) -> (r: Option<Event>)
        ensures
            r == (if !old(self).button().pressed() && final(self).button().pressed() {
                Some(Event::Click)
            } else {
                None
            }),
    {
        match self.button.poll_event() {
            Some(TransitionEvent::Press) => Some(Event::Click),
            Some(TransitionEvent::Release) => None,
            None => None,
        }
    }
}

} // verus!
