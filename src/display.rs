//! Support for the 5×5 LED display, with ten brightness levels per LED.
//!
//! The LEDs are wired as a matrix of 3 rows and 9 columns, of which only one
//! row can be lit at a time. The `Display` engine lights each row in turn for
//! one primary timer cycle (6ms), and fakes the intermediate brightness
//! levels by turning dimmer LEDs on later in the cycle, at the times a
//! secondary alarm of the same timer signals.
//!
//! Images (anything implementing `Render`) are compiled into a
//! `MicrobitFrame`, which is then handed to the `Display`.

pub mod control;
pub mod engine;
pub mod frame;
pub mod pins;
pub mod render;
pub mod timer;
