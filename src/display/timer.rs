//! The interface the display engine needs to work with a timer.
use vstd::prelude::*;

verus! {

/// The interface the display engine needs to work with a timer.
///
/// The timer counts ticks of 16µs. It restarts after the number of ticks
/// passed to `initialise_cycle()` (the primary cycle) and signals an
/// interrupt. It also provides a secondary alarm, which can be programmed to
/// signal an interrupt at a given tick of the primary cycle.
pub trait DisplayTimer {
    /// The number of ticks in the primary cycle.
    spec fn cycle_ticks(&self) -> u16;

    /// Whether the secondary alarm is enabled.
    spec fn secondary_enabled(&self) -> bool;

    /// The tick of the primary cycle at which the secondary alarm signals.
    spec fn secondary_ticks(&self) -> u16;

    /// Whether a new primary cycle has begun since the primary signal was
    /// last checked.
    spec fn primary_signalled(&self) -> bool;

    /// Whether the secondary alarm has signalled since it was last checked.
    spec fn secondary_signalled(&self) -> bool;

    /// Initialises the timer with `ticks` ticks in the primary cycle; called
    /// once, before the display is used. Leaves the secondary alarm
    /// disabled.
    fn initialise_cycle(&mut self, ticks: u16)
        ensures
            final(self).cycle_ticks() == ticks,
            !final(self).secondary_enabled(),
    ;

    /// Enables the secondary alarm.
    fn enable_secondary(&mut self)
        ensures
            final(self).cycle_ticks() == old(self).cycle_ticks(),
            final(self).secondary_enabled(),
            final(self).secondary_ticks() == old(self).secondary_ticks(),
    ;

    /// Disables the secondary alarm.
    fn disable_secondary(&mut self)
        ensures
            final(self).cycle_ticks() == old(self).cycle_ticks(),
            !final(self).secondary_enabled(),
            final(self).secondary_ticks() == old(self).secondary_ticks(),
    ;

    /// Sets the tick for the secondary alarm, counted from the start of the
    /// primary cycle.
    fn program_secondary(&mut self, ticks: u16)
        ensures
            final(self).cycle_ticks() == old(self).cycle_ticks(),
            final(self).secondary_enabled() == old(self).secondary_enabled(),
            final(self).secondary_ticks() == ticks,
    ;

    /// Checks whether a new primary cycle has begun since the last call, and
    /// clears that signal.
    fn check_primary(&mut self) -> (r: bool)
        ensures
            r == old(self).primary_signalled(),
            final(self).secondary_signalled() == old(self).secondary_signalled(),
            final(self).cycle_ticks() == old(self).cycle_ticks(),
            final(self).secondary_enabled() == old(self).secondary_enabled(),
            final(self).secondary_ticks() == old(self).secondary_ticks(),
    ;

    /// Checks whether the secondary alarm has signalled since the last call,
    /// and clears that signal.
    fn check_secondary(&mut self) -> (r: bool)
        ensures
            r == old(self).secondary_signalled(),
            final(self).cycle_ticks() == old(self).cycle_ticks(),
            final(self).secondary_enabled() == old(self).secondary_enabled(),
            final(self).secondary_ticks() == old(self).secondary_ticks(),
    ;
}

} // verus!
