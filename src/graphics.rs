//! Graphics for the 5×5 LED display: horizontally scrolling sequences of
//! images.

pub mod scrolling;
