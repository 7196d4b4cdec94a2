//! Drivers for the micro:bit's multiplexed LED display and its buttons.
//!
//! The display engine fakes ten brightness levels on a row-multiplexed LED
//! matrix with one hardware timer; the button pipeline turns polled switch
//! samples into press, release, click and hold events.

pub mod buttons;
pub mod display;
pub mod graphics;
