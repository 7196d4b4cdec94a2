//! The high-level button drivers ("monitors") and hold detection.

pub mod holding;
pub mod single;
pub mod single_with_hold;
pub mod dual;
pub mod dual_with_hold;
