//! Support for buttons: debouncing, press/release detection, hold detection
//! and click/hold monitors for one or two buttons.
//!
//! Nothing here uses interrupts or timers: the client polls at a regular
//! interval (6ms is the intended one).

pub mod debouncing;
pub mod low_level;
pub mod monitors;
