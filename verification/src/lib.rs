//! A fixed-size grid of sprite cells that a host engine places on its display.

pub mod drawing;
pub mod screen;
