//! High-level driver for two buttons together.
use vstd::prelude::*;

use crate::buttons::low_level::{transition_event, PollButton, TransitionEvent};

verus! {

/// An event from this module's `Monitor`.
#[derive(Debug, PartialEq, Eq)]
pub enum Event {
    ClickA,
    ClickB,
    ClickAB,
}

/// How the shared "seen both buttons down" flag and the reported event
/// follow from one button's poll: `event` is that button's transition,
/// `other_is_pressed` the other button's state, and `click_event` the
/// event to report for a click of this button alone.
pub open spec fn handle_step(
    seen_both: bool,
    event: Option<TransitionEvent>,
    other_is_pressed: bool,
    click_event: Event,
) -> (bool, Option<Event>) {
    match event {
        Some(TransitionEvent::Press) => (other_is_pressed, None),
        Some(TransitionEvent::Release) => if seen_both {
            (seen_both, if !other_is_pressed { Some(Event::ClickAB) } else { None })
        } else {
            (seen_both, Some(click_event))
        },
        None => (seen_both, None),
    }
}

/// The event-generation rules and internal state for `Monitor`.
struct MonitorState {
    seen_both: bool,
}

impl MonitorState {
    fn new() -> (r: MonitorState)
        ensures
            !r.seen_both,
    {
        MonitorState { seen_both: false }
    }

    // Handles a single poll result of one button.
    fn handle(&mut self, event: TransitionEvent, other_button_is_pressed: bool, click_event: Event) -> (r: Option<Event>)
        ensures
            (final(self).seen_both, r) == handle_step(old(self).seen_both, Some(event), other_button_is_pressed, click_event),
    {
        match event {
            TransitionEvent::Press => {
                self.seen_both = other_button_is_pressed;
                None
            },
            TransitionEvent::Release => {
                if self.seen_both {
                    if !other_button_is_pressed {
                        Some(Event::ClickAB)
                    } else {
                        None
                    }
                } else {
                    Some(click_event)
                }
            },
        }
    }
}

/// Wrapper for two `PollButton`s generating click events on release.
///
/// Each transaction (a stretch of time during which at least one button
/// stays pressed) produces one event: `ClickA` or `ClickB` if only that
/// button was pressed, `ClickAB` (on the second release) if both were down
/// together at some point.
pub struct Monitor<A: PollButton, B: PollButton> {
    button_a: A,
    button_b: B,
    state: MonitorState,
}

impl<A: PollButton, B: PollButton> Monitor<A, B> {
    /// The first button.
    pub closed spec fn button_a(&self) -> A {
        self.button_a
    }

    /// The second button.
    pub closed spec fn button_b(&self) -> B {
        self.button_b
    }

    /// Whether both buttons have been seen down in the current transaction.
    pub closed spec fn seen_both(&self) -> bool {
        self.state.seen_both
    }

    /// Whenever both buttons are down, that has been noticed.
    pub open spec fn wf(&self) -> bool {
        self.button_a().pressed() && self.button_b().pressed() ==> self.seen_both()
    }

    /// One poll, A's part first: each button's change of state is fed
    /// through the rules with the other button's state at that moment, and
    /// the event (at most one of the two parts gives one) is reported.
    pub open spec fn polled(old: &Self, new: &Self, r: Option<Event>) -> bool {
        let a0 = old.button_a().pressed();
        let a1 = new.button_a().pressed();
        let b0 = old.button_b().pressed();
        let b1 = new.button_b().pressed();
        let (s1, ea) = handle_step(old.seen_both(), transition_event(a0, a1), b0, Event::ClickA);
        let (s2, eb) = handle_step(s1, transition_event(b0, b1), a1, Event::ClickB);
        &&& new.seen_both() == s2
        &&& (ea is None || eb is None)
        &&& r == (if ea is Some { ea } else { eb })
    }

    /// Takes ownership of two `PollButton`s, not both pressed, and returns a
    /// `Monitor`.
    pub fn new(button_a: A, button_b: B) -> (r: Monitor<A, B>)
        requires
            !(button_a.pressed() && button_b.pressed()),
        ensures
            r.button_a() == button_a,
            r.button_b() == button_b,
            !r.seen_both(),
            r.wf(),
    {
        Monitor { button_a, button_b, state: MonitorState::new() }
    }

    /// Gives the underlying `PollButton`s back.
    pub fn free(self) -> (r: (A, B))
        ensures
            r == (self.button_a(), self.button_b()),
    {
        (self.button_a, self.button_b)
    }

    fn poll_a(&mut self) -> (r: Option<Event>)
        ensures
            final(self).button_b() == old(self).button_b(),
            (final(self).seen_both(), r) == handle_step(
                old(self).seen_both(),
                transition_event(old(self).button_a().pressed(), final(self).button_a().pressed()),
                old(self).button_b().pressed(),
                Event::ClickA,
            ),
    {
        match self.button_a.poll_event() {
            Some(event) => self.state.handle(event, self.button_b.is_pressed(), Event::ClickA),
            None => None,
        }
    }

    fn poll_b(&mut self) -> (r: Option<Event>)
        ensures
            final(self).button_a() == old(self).button_a(),
            (final(self).seen_both(), r) == handle_step(
                old(self).seen_both(),
                transition_event(old(self).button_b().pressed(), final(self).button_b().pressed()),
                old(self).button_a().pressed(),
                Event::ClickB,
            ),
    {
        match self.button_b.poll_event() {
            Some(event) => self.state.handle(event, self.button_a.is_pressed(), Event::ClickB),
            None => None,
        }
    }

    /// Polls both buttons (A first) and filters for events.
    ///
    /// If both buttons have been pressed, returns `Some(ClickAB)` when the
    /// second one is released. Otherwise returns `Some(ClickA)` or
    /// `Some(ClickB)` when that button is released, and `None` otherwise.
    /// At most one of the two buttons' polls yields an event.
    pub fn poll(&mut self) -> (r: Option<Event>)
        requires
            old(self).wf(),
        ensures
            final(self).wf(),
            Self::polled(old(self), final(self), r),
    {
        let event_a = self.poll_a();
        let event_b = self.poll_b();
        match event_a {
            Some(e) => Some(e),
            None => event_b,
        }
    }
}

/// Events come only at the end of a transaction: a reported click is the
/// release of one button while the other was up at that moment (A's part of
/// the poll sees B as it was before the poll; B's part sees A as it is
/// after). So the buttons' going down and up together between two moments
/// when both are up gives at most one event.
pub proof fn lemma_events_end_transactions<A: PollButton, B: PollButton>(
    before: &Monitor<A, B>,
    after: &Monitor<A, B>,
    r: Option<Event>,
)
    requires
        before.wf(),
        Monitor::polled(before, after, r),
    ensures
        ({
            let a0 = before.button_a().pressed();
            let a1 = after.button_a().pressed();
            let b0 = before.button_b().pressed();
            let b1 = after.button_b().pressed();
            r is Some ==> (a0 && !a1 && !b0) || (b0 && !b1 && !a1)
        }),
{
}

} // verus!
