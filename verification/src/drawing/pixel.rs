//! The cell of a frame: a slot that holds a reference to a sprite, or nothing.

use vstd::prelude::*;

verus! {

/// A reference to a sprite of the host: the sprite's number in the host's
/// table of sprites. The frame stores it and hands it back, and never looks
/// the sprite up.
#[derive(Clone, Copy, Debug, PartialEq, Eq, Structural)]
pub struct SpriteHandle(pub usize);

/// Represents a sprite "pixel" to which a sprite can be written.
///
/// Two pixels are equal exactly when they hold the same sprite reference, or
/// both hold none.
#[derive(Clone, Copy, Debug, PartialEq, Eq, Structural)]
pub struct Pixel {
    pub sprite: Option<SpriteHandle>,
}

impl Pixel {
    /// The pixel that holds no sprite.
    pub open spec fn empty() -> Pixel {
        Pixel { sprite: None }
    }
}

impl Default for Pixel {
    /// The pixel that holds no sprite.
    fn default() -> (pixel: Self)
        ensures
            pixel == Pixel::empty(),
    {
        Pixel { sprite: None }
    }
}

} // verus!
