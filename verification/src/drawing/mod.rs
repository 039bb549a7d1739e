//! The frame, its cells and the pairs of integers that address them.

pub mod frame;
pub mod grid;
pub mod pixel;
pub mod vector;

pub use frame::{Frame, FrameBuilder, OutOfBounds};
pub use grid::Grid;
pub use pixel::{Pixel, SpriteHandle};
pub use vector::Vector2;
