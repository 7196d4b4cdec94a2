//! Algorithms for debouncing buttons.
//!
//! These algorithms assume the button is polled at a regular interval.
use vstd::prelude::*;

verus! {

/// A debouncing algorithm and its state.
pub trait Debounce: Default + Sized {
    /// The state after accepting the raw sample `pressed_state`.
    spec fn next_state(self, pressed_state: bool) -> Self;

    /// The debounced value reported on accepting the raw sample
    /// `pressed_state`.
    spec fn debounced(self, pressed_state: bool) -> bool;

    /// Accepts new polled data and returns the debounced state.
    ///
    /// `pressed_state` `true` indicates that the button is closed.
    fn debounce(&mut self, pressed_state: bool) -> (r: bool)
        ensures
            *final(self) == old(self).next_state(pressed_state),
            r == old(self).debounced(pressed_state),
    ;
}

/// A debouncer which returns the most recent polled state unchanged.
pub struct TrivialDebouncer();

impl Default for TrivialDebouncer {
    fn default() -> (r: TrivialDebouncer) {
        TrivialDebouncer()
    }
}

impl Debounce for TrivialDebouncer {
    open spec fn next_state(self, pressed_state: bool) -> Self {
        self
    }

    open spec fn debounced(self, pressed_state: bool) -> bool {
        pressed_state
    }

    fn debounce(&mut self, pressed_state: bool) -> (r: bool) {
        pressed_state
    }
}

/// Lower end of the counting debouncer's counter.
pub const SIGMA_MIN: u8 = 0;

/// Upper end of the counting debouncer's counter.
pub const SIGMA_MAX: u8 = 12;

/// The counter must fall below this to latch "released".
pub const SIGMA_LOW_THRESHOLD: u8 = 2;

/// The counter must rise above this to latch "pressed".
pub const SIGMA_HIGH_THRESHOLD: u8 = 8;

/// A debouncer based on net open/closed counts, with saturation.
///
/// A counter in `0..=12` moves one step towards 12 on each "pressed" sample
/// and one step towards 0 on each "released" one. The latched state becomes
/// pressed when the counter exceeds 8 and released when it drops below 2;
/// in between the previous latched state holds.
pub struct CountingDebouncer {
    pressed_state: bool,
    count: u8,
}

impl CountingDebouncer {
    /// The latched pressed/released state: what `debounce` last returned.
    pub closed spec fn latched(self) -> bool {
        self.pressed_state
    }

    /// The saturating counter, in `0..=12` for every value that
    /// `default` and `debounce` produce.
    pub closed spec fn counter(self) -> u8 {
        self.count
    }
}

impl Default for CountingDebouncer {
    fn default() -> (r: CountingDebouncer)
        ensures
            r.latched() == false,
            r.counter() == SIGMA_MIN,
    {
        CountingDebouncer { pressed_state: false, count: SIGMA_MIN }
    }
}

impl Debounce for CountingDebouncer {
    closed spec fn next_state(self, pressed_state: bool) -> Self {
        if pressed_state {
            let count = if self.count < SIGMA_MAX { (self.count + 1) as u8 } else { self.count };
            CountingDebouncer {
                pressed_state: if count > SIGMA_HIGH_THRESHOLD { true } else { self.pressed_state },
                count,
            }
        } else {
            let count = if self.count > SIGMA_MIN { (self.count - 1) as u8 } else { self.count };
            CountingDebouncer {
                pressed_state: if count < SIGMA_LOW_THRESHOLD { false } else { self.pressed_state },
                count,
            }
        }
    }

    closed spec fn debounced(self, pressed_state: bool) -> bool {
        self.next_state(pressed_state).pressed_state
    }

    fn debounce(&mut self, pressed_state: bool) -> (r: bool)
        ensures
            final(self).counter() == if pressed_state {
                if old(self).counter() < SIGMA_MAX { old(self).counter() + 1 } else { old(self).counter() as int }
            } else {
                if old(self).counter() > SIGMA_MIN { old(self).counter() - 1 } else { old(self).counter() as int }
            },
            final(self).latched() == if pressed_state && final(self).counter() > SIGMA_HIGH_THRESHOLD {
                true
            } else if !pressed_state && final(self).counter() < SIGMA_LOW_THRESHOLD {
                false
            } else {
                old(self).latched()
            },
            r == final(self).latched(),
    {
        if pressed_state {
            if self.count < SIGMA_MAX {
                self.count = self.count + 1;
            }
            if self.count > SIGMA_HIGH_THRESHOLD {
                self.pressed_state = true;
            }
        } else {
            if self.count > SIGMA_MIN {
                self.count = self.count - 1;
            }
            if self.count < SIGMA_LOW_THRESHOLD {
                self.pressed_state = false;
            }
        }
        self.pressed_state
    }
}

} // verus!
