//! High-level driver for two buttons together, with "hold" support.
use vstd::prelude::*;

use crate::buttons::low_level::PollButton;
use crate::buttons::monitors::holding::{
    annotated_counter, annotated_event, Event as SingleButtonEvent, HoldAnnotator, HoldDescriptor,
};

verus! {

/// An event from this module's `Monitor`.
#[derive(Debug, PartialEq, Eq)]
pub enum Event {
    ClickA,
    ClickB,
    ClickAB,
    HoldA,
    HoldB,
    HoldAB,
}

/// Where the current transaction stands.
#[derive(Debug, PartialEq, Eq, Structural)]
pub enum State {
    /// One button is down and the other has not been pressed.
    SeenOne,
    /// Both buttons have been down together; neither has reached the hold
    /// threshold while so.
    SeenBoth,
    /// A reached the hold threshold after both were seen down.
    HeldASeenB,
    /// B reached the hold threshold after both were seen down.
    HeldBSeenA,
    /// A hold has been reported: nothing more is reported until a new
    /// transaction starts.
    ReportedHold,
}

/// Which button an event belongs to: the role descriptor that makes one
/// transition table serve both buttons.
#[derive(Debug, PartialEq, Eq, Structural, Clone, Copy)]
pub enum Which {
    A,
    B,
}

/// The click reported for a transaction of this button alone.
pub open spec fn click_event(w: Which) -> Event {
    match w {
        Which::A => Event::ClickA,
        Which::B => Event::ClickB,
    }
}

/// The hold reported for a transaction of this button alone.
pub open spec fn hold_event(w: Which) -> Event {
    match w {
        Which::A => Event::HoldA,
        Which::B => Event::HoldB,
    }
}

/// The state after this button reaches the hold threshold with both seen.
pub open spec fn held_state(w: Which) -> State {
    match w {
        Which::A => State::HeldASeenB,
        Which::B => State::HeldBSeenA,
    }
}

/// The state after the other button reaches the hold threshold with both
/// seen.
pub open spec fn other_held_state(w: Which) -> State {
    match w {
        Which::A => State::HeldBSeenA,
        Which::B => State::HeldASeenB,
    }
}

/// The transition table: the new state and the event reported when button
/// `w` produces `event` while the other button's state is `other_is_pressed`.
pub open spec fn handle_step(
    state: State,
    event: Option<SingleButtonEvent>,
    other_is_pressed: bool,
    w: Which,
) -> (State, Option<Event>) {
    match event {
        Some(SingleButtonEvent::Press) => if !other_is_pressed {
            (State::SeenOne, None)
        } else if state == State::SeenOne {
            (State::SeenBoth, None)
        } else {
            (state, None)
        },
        Some(SingleButtonEvent::Release) => if state == State::SeenOne {
            (state, Some(click_event(w)))
        } else if state != State::ReportedHold && !other_is_pressed {
            (state, Some(Event::ClickAB))
        } else {
            (state, None)
        },
        Some(SingleButtonEvent::Hold) => if state == State::SeenOne {
            (State::ReportedHold, Some(hold_event(w)))
        } else if state == State::SeenBoth {
            (held_state(w), None)
        } else if state == other_held_state(w) {
            (State::ReportedHold, Some(Event::HoldAB))
        } else {
            (state, None)
        },
        None => (state, None),
    }
}

/// The event-generation rules and internal state for `Monitor`, fed with
/// each button's annotated events.
pub struct MonitorState {
    state: State,
}

impl MonitorState {
    /// Where the current transaction stands.
    pub closed spec fn current(&self) -> State {
        self.state
    }

    /// Returns a new `MonitorState`.
    pub fn new() -> (r: MonitorState)
        ensures
            r.current() == State::ReportedHold,
    {
        // the initial state doesn't matter: every transaction starts with a
        // press while the other button is released
        MonitorState { state: State::ReportedHold }
    }

    fn click_event(w: Which) -> (r: Event)
        ensures
            r == click_event(w),
    {
        match w {
            Which::A => Event::ClickA,
            Which::B => Event::ClickB,
        }
    }

    fn hold_event(w: Which) -> (r: Event)
        ensures
            r == hold_event(w),
    {
        match w {
            Which::A => Event::HoldA,
            Which::B => Event::HoldB,
        }
    }

    fn held_state(w: Which) -> (r: State)
        ensures
            r == held_state(w),
    {
        match w {
            Which::A => State::HeldASeenB,
            Which::B => State::HeldBSeenA,
        }
    }

    fn other_held_state(w: Which) -> (r: State)
        ensures
            r == other_held_state(w),
    {
        match w {
            Which::A => State::HeldBSeenA,
            Which::B => State::HeldASeenB,
        }
    }

    /// Handles an event of button `w`, given whether the other button is
    /// pressed.
    pub fn handle(&mut self, event: SingleButtonEvent, other_button_is_pressed: bool, w: Which) -> (r: Option<Event>)
        ensures
            (final(self).current(), r) == handle_step(old(self).current(), Some(event), other_button_is_pressed, w),
    {
        match event {
            SingleButtonEvent::Press => {
                if !other_button_is_pressed {
                    // all transactions start here
                    self.state = State::SeenOne;
                } else if self.state == State::SeenOne {
                    self.state = State::SeenBoth;
                }
                None
            },
            SingleButtonEvent::Release => {
                if self.state == State::SeenOne {
                    // this transaction ends here
                    Some(Self::click_event(w))
                } else if self.state != State::ReportedHold && !other_button_is_pressed {
                    // this transaction ends here
                    Some(Event::ClickAB)
                } else {
                    None
                }
            },
            SingleButtonEvent::Hold => {
                if self.state == State::SeenOne {
                    self.state = State::ReportedHold;
                    Some(Self::hold_event(w))
                } else if self.state == State::SeenBoth {
                    self.state = Self::held_state(w);
                    None
                } else if self.state == Self::other_held_state(w) {
                    self.state = State::ReportedHold;
                    Some(Event::HoldAB)
                } else {
                    None
                }
            },
        }
    }

    /// Handles an event of button A, given whether B is pressed.
    pub fn handle_a(&mut self, event: SingleButtonEvent, other_button_is_pressed: bool) -> (r: Option<Event>)
        ensures
            (final(self).current(), r) == handle_step(old(self).current(), Some(event), other_button_is_pressed, Which::A),
    {
        self.handle(event, other_button_is_pressed, Which::A)
    }

    /// Handles an event of button B, given whether A is pressed.
    pub fn handle_b(&mut self, event: SingleButtonEvent, other_button_is_pressed: bool) -> (r: Option<Event>)
        ensures
            (final(self).current(), r) == handle_step(old(self).current(), Some(event), other_button_is_pressed, Which::B),
    {
        self.handle(event, other_button_is_pressed, Which::B)
    }
}

/// Wrapper for two `PollButton`s generating click and hold events.
pub struct Monitor<A: PollButton, B: PollButton, H: HoldDescriptor> {
    button_a: A,
    button_b: B,
    hold_annotator_a: HoldAnnotator<H>,
    hold_annotator_b: HoldAnnotator<H>,
    state: MonitorState,
}

impl<A: PollButton, B: PollButton, H: HoldDescriptor> Monitor<A, B, H> {
    /// The first button.
    pub closed spec fn button_a(&self) -> A {
        self.button_a
    }

    /// The second button.
    pub closed spec fn button_b(&self) -> B {
        self.button_b
    }

    /// The first button's hold counter.
    pub closed spec fn counter_a(&self) -> u32 {
        self.hold_annotator_a.counter()
    }

    /// The second button's hold counter.
    pub closed spec fn counter_b(&self) -> u32 {
        self.hold_annotator_b.counter()
    }

    /// Where the current transaction stands.
    pub closed spec fn state(&self) -> State {
        self.state.current()
    }

    /// Whenever both buttons are down, that has been noticed.
    pub open spec fn wf(&self) -> bool {
        self.button_a().pressed() && self.button_b().pressed() ==> self.state() != State::SeenOne
    }

    /// One poll, A's part first: each button's change of state is annotated
    /// with its hold counter, fed through the transition table with the
    /// other button's state at that moment, and the event (at most one of
    /// the two parts gives one) is reported.
    pub open spec fn polled(old: &Self, new: &Self, r: Option<Event>) -> bool {
        let a0 = old.button_a().pressed();
        let a1 = new.button_a().pressed();
        let b0 = old.button_b().pressed();
        let b1 = new.button_b().pressed();
        let ev_a = annotated_event::<H>(old.counter_a(), a0, a1);
        let ev_b = annotated_event::<H>(old.counter_b(), b0, b1);
        let (s1, ea) = handle_step(old.state(), ev_a, b0, Which::A);
        let (s2, eb) = handle_step(s1, ev_b, a1, Which::B);
        &&& new.counter_a() == annotated_counter::<H>(old.counter_a(), a0, a1)
        &&& new.counter_b() == annotated_counter::<H>(old.counter_b(), b0, b1)
        &&& new.state() == s2
        &&& (ea is None || eb is None)
        &&& r == (if ea is Some { ea } else { eb })
    }

    /// Takes ownership of two `PollButton`s and returns a `Monitor`.
    pub fn new(button_a: A, button_b: B) -> (r: Monitor<A, B, H>)
        ensures
            r.button_a() == button_a,
            r.button_b() == button_b,
            r.counter_a() == H::start(),
            r.counter_b() == H::start(),
            r.state() == State::ReportedHold,
            r.wf(),
    {
        Monitor {
            button_a,
            button_b,
            hold_annotator_a: HoldAnnotator::new(),
            hold_annotator_b: HoldAnnotator::new(),
            state: MonitorState::new(),
        }
    }

    /// Gives the underlying `PollButton`s back.
    pub fn free(self) -> (r: (A, B))
        ensures
            r == (self.button_a(), self.button_b()),
    {
        (self.button_a, self.button_b)
    }

    fn poll_a(&mut self) -> (r: Option<Event>)
        ensures
            final(self).button_b() == old(self).button_b(),
            final(self).counter_b() == old(self).counter_b(),
            ({
                let was = old(self).button_a().pressed();
                let now = final(self).button_a().pressed();
                &&& final(self).counter_a() == annotated_counter::<H>(old(self).counter_a(), was, now)
                &&& (final(self).state(), r) == handle_step(
                    old(self).state(),
                    annotated_event::<H>(old(self).counter_a(), was, now),
                    old(self).button_b().pressed(),
                    Which::A,
                )
            }),
    {
        let transition = self.button_a.poll_transition();
        match self.hold_annotator_a.annotate(transition) {
            Some(event) => self.state.handle_a(event, self.button_b.is_pressed()),
            None => None,
        }
    }

    fn poll_b(&mut self) -> (r: Option<Event>)
        ensures
            final(self).button_a() == old(self).button_a(),
            final(self).counter_a() == old(self).counter_a(),
            ({
                let was = old(self).button_b().pressed();
                let now = final(self).button_b().pressed();
                &&& final(self).counter_b() == annotated_counter::<H>(old(self).counter_b(), was, now)
                &&& (final(self).state(), r) == handle_step(
                    old(self).state(),
                    annotated_event::<H>(old(self).counter_b(), was, now),
                    old(self).button_a().pressed(),
                    Which::B,
                )
            }),
    {
        let transition = self.button_b.poll_transition();
        match self.hold_annotator_b.annotate(transition) {
            Some(event) => self.state.handle_b(event, self.button_a.is_pressed()),
            None => None,
        }
    }

    /// Polls both buttons (A first) and filters for events.
    ///
    /// Reports `HoldA` or `HoldB` when one button reaches the hold threshold
    /// with the other not pressed, `HoldAB` when both have reached it after
    /// being down together, otherwise `ClickAB` when the second of two
    /// buttons seen down together is released, and `ClickA` or `ClickB` when
    /// a button pressed alone is released. Once a hold has been reported,
    /// nothing more is reported until both buttons have been released. At
    /// most one of the two buttons' polls yields an event.
    pub fn poll(&mut self) -> (r: Option<Event>)
        requires
            old(self).wf(),
        ensures
            final(self).wf(),
            Self::polled(old(self), final(self), r),
    {
        let event_a = self.poll_a();
        let event_b = self.poll_b();
        match event_a {
            Some(e) => Some(e),
            None => event_b,
        }
    }
}

/// A poll in which a button goes down while the other is up: a new
/// transaction starts.
pub open spec fn starts_transaction<A: PollButton, B: PollButton, H: HoldDescriptor>(
    before: &Monitor<A, B, H>,
    after: &Monitor<A, B, H>,
) -> bool {
    let a0 = before.button_a().pressed();
    let a1 = after.button_a().pressed();
    let b0 = before.button_b().pressed();
    let b1 = after.button_b().pressed();
    (!a0 && a1 && !b0) || (!b0 && b1 && !a1)
}

/// A run of polls: `monitors[i + 1]` is `monitors[i]` after a poll that
/// reported `events[i]`.
pub open spec fn is_run<A: PollButton, B: PollButton, H: HoldDescriptor>(
    monitors: Seq<Monitor<A, B, H>>,
    events: Seq<Option<Event>>,
) -> bool {
    &&& monitors.len() == events.len() + 1
    &&& forall|i: int| 0 <= i < monitors.len() ==> (#[trigger] monitors[i]).wf()
    &&& forall|i: int|
        0 <= i < events.len() ==> Monitor::polled(&monitors[i], &monitors[i + 1], #[trigger] events[i])
}

/// Once a hold has been reported, a poll reports nothing, and the hold
/// stays reported unless the poll starts a new transaction.
pub proof fn lemma_reported_hold_is_silent<A: PollButton, B: PollButton, H: HoldDescriptor>(
    before: &Monitor<A, B, H>,
    after: &Monitor<A, B, H>,
    r: Option<Event>,
)
    requires
        before.state() == State::ReportedHold,
        Monitor::polled(before, after, r),
    ensures
        r is None,
        !starts_transaction(before, after) ==> after.state() == State::ReportedHold,
{
}

proof fn lemma_hold_stays_reported<A: PollButton, B: PollButton, H: HoldDescriptor>(
    monitors: Seq<Monitor<A, B, H>>,
    events: Seq<Option<Event>>,
    k: int,
)
    requires
        is_run(monitors, events),
        monitors[0].state() == State::ReportedHold,
        forall|i: int| 0 <= i < events.len() ==> !starts_transaction(&monitors[i], #[trigger] &monitors[i + 1]),
        0 <= k < monitors.len(),
    ensures
        monitors[k].state() == State::ReportedHold,
    decreases k,
{
    if k > 0 {
        lemma_hold_stays_reported(monitors, events, k - 1);
        let r = events[k - 1];
        lemma_reported_hold_is_silent(&monitors[k - 1], &monitors[k], r);
    }
}

/// After a hold (`HoldA`, `HoldB` or `HoldAB`) has been reported, the rest
/// of the transaction reports nothing, however the buttons are released,
/// re-pressed or held meanwhile: every poll up to the one that starts a new
/// transaction reports no click and no second hold.
pub proof fn lemma_hold_silences_transaction<A: PollButton, B: PollButton, H: HoldDescriptor>(
    monitors: Seq<Monitor<A, B, H>>,
    events: Seq<Option<Event>>,
)
    requires
        is_run(monitors, events),
        monitors[0].state() == State::ReportedHold,
        forall|i: int| 0 <= i < events.len() ==> !starts_transaction(&monitors[i], #[trigger] &monitors[i + 1]),
    ensures
        forall|i: int| 0 <= i < monitors.len() ==> (#[trigger] monitors[i]).state() == State::ReportedHold,
        forall|i: int| 0 <= i < events.len() ==> (#[trigger] events[i]) is None,
{
    assert forall|i: int| 0 <= i < monitors.len() implies (#[trigger] monitors[i]).state() == State::ReportedHold by {
        lemma_hold_stays_reported(monitors, events, i);
    }
    assert forall|i: int| 0 <= i < events.len() implies (#[trigger] events[i]) is None by {
        lemma_hold_stays_reported(monitors, events, i);
        lemma_reported_hold_is_silent(&monitors[i], &monitors[i + 1], events[i]);
    }
}

/// While both buttons stay down, the only event ever reported is `HoldAB`,
/// and it is reported at most once: after it, the rest of the run is
/// silent.
pub proof fn lemma_both_down_reports_one_hold_ab<A: PollButton, B: PollButton, H: HoldDescriptor>(
    monitors: Seq<Monitor<A, B, H>>,
    events: Seq<Option<Event>>,
)
    requires
        is_run(monitors, events),
        forall|i: int|
            0 <= i < monitors.len() ==> (#[trigger] monitors[i]).button_a().pressed() && monitors[i].button_b().pressed(),
    ensures
        forall|i: int| 0 <= i < events.len() && (#[trigger] events[i]) is Some ==> events[i] == Some(Event::HoldAB),
        forall|i: int, j: int|
            0 <= i < j < events.len() && (#[trigger] events[i]) is Some ==> (#[trigger] events[j]) is None,
{
    assert forall|i: int| 0 <= i < events.len() && (#[trigger] events[i]) is Some implies events[i] == Some(Event::HoldAB)
        && monitors[i + 1].state() == State::ReportedHold by {
        assert(monitors[i].wf());
        assert(monitors[i + 1].button_a().pressed() && monitors[i + 1].button_b().pressed());
        assert(Monitor::polled(&monitors[i], &monitors[i + 1], events[i]));
    }
    assert forall|i: int, j: int|
        0 <= i < j < events.len() && (#[trigger] events[i]) is Some implies (#[trigger] events[j]) is None by {
        let ms = monitors.subrange(i + 1, monitors.len() as int);
        let es = events.subrange(i + 1, events.len() as int);
        assert forall|k: int| 0 <= k < ms.len() implies (#[trigger] ms[k]).wf() by {
            assert(ms[k] == monitors[k + i + 1]);
        }
        assert forall|k: int| 0 <= k < es.len() implies Monitor::polled(&ms[k], &ms[k + 1], #[trigger] es[k]) by {
            assert(es[k] == events[k + i + 1]);
            assert(ms[k] == monitors[k + i + 1]);
            assert(ms[k + 1] == monitors[k + i + 2]);
        }
        assert forall|k: int| 0 <= k < es.len() implies !starts_transaction(&ms[k], #[trigger] &ms[k + 1]) by {
            assert(ms[k] == monitors[k + i + 1]);
            assert(monitors[k + i + 1].button_a().pressed());
        }
        lemma_hold_silences_transaction(ms, es);
        assert(es[j - i - 1] == events[j]);
    }
}

/// A hold of both buttons is reported once both have reached the hold
/// threshold after being seen down together, whichever reached it first.
pub proof fn lemma_second_hold_reports_both(first: Which, second: Which, other_is_pressed: bool)
    requires
        first != second,
    ensures
        ({
            let (s1, e1) = handle_step(State::SeenBoth, Some(SingleButtonEvent::Hold), true, first);
            let (s2, e2) = handle_step(s1, Some(SingleButtonEvent::Hold), other_is_pressed, second);
            e1 is None && e2 == Some(Event::HoldAB) && s2 == State::ReportedHold
        }),
{
}

} // verus!
