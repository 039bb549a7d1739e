//! The frame: a fixed canvas of pixels that is addressed by coordinate, and
//! the builder that makes one.

use vstd::prelude::*;
use crate::drawing::grid::Grid;
use crate::drawing::pixel::Pixel;
use crate::drawing::vector::Vector2;

verus! {

/// The answer to a coordinate that names no cell of the frame.
#[derive(Clone, Copy, Debug, PartialEq, Eq, Structural)]
pub struct OutOfBounds {
    /// The coordinate that was asked for.
    pub coordinate: Vector2,
    /// The size of the frame that was asked.
    pub size: Vector2,
}

/// A `Frame` is a component that contains a portion of the screen for easier
/// rendering. We don't create it directly, but instead use the `FrameBuilder`.
///
/// Its size is fixed once it is built; its pixels are stored row after row.
#[derive(Debug)]
pub struct Frame {
    position: Vector2,
    size: Vector2,
    pixels: Vec<Pixel>,
}

impl View for Frame {
    type V = Grid;

    closed spec fn view(&self) -> Grid {
        Grid { position: self.position, size: self.size, cells: self.pixels@ }
    }
}

impl Frame {
    /// Every frame holds exactly one pixel for each coordinate of its size.
    #[verifier::type_invariant]
    pub open spec fn inv(self) -> bool {
        self@.wf()
    }

    /// Returns the total size (area) of the grid in `Pixel`s
    pub fn area(&self) -> (area: usize)
        ensures
            area == self@.size.x * self@.size.y,
            area == self@.cells.len(),
    {
        proof {
            use_type_invariant(&*self);
        }
        self.pixels.len()
    }

    /// Returns the width and height of the grid in `Pixel`s
    pub fn size(&self) -> (size: Vector2)
        ensures
            size == self@.size,
    {
        self.size
    }

    /// Returns the offset of the frame on the game screen, in real pixels
    pub fn position(&self) -> (position: Vector2)
        ensures
            position == self@.position,
    {
        self.position
    }

    /// Returns the `Pixel`s of the frame in the order in which they are
    /// stored: the first row from left to right, then the second, and so on.
    pub fn pixels(&self) -> (pixels: &Vec<Pixel>)
        ensures
            pixels@ == self@.cells,
    {
        &self.pixels
    }

    /// Moves the frame to another offset on the game screen. The pixels and
    /// the size stay as they are.
    pub fn set_position(&mut self, position: Vector2)
        ensures
            final(self)@ == old(self)@.moved_to(position),
    {
        proof {
            use_type_invariant(&*self);
        }
        self.position = position;
    }

    /// Tells whether the coordinate names a `Pixel` of this frame
    pub fn contains(&self, coordinate: Vector2) -> (inside: bool)
        ensures
            inside == self@.contains(coordinate),
    {
        coordinate.x < self.size.x && coordinate.y < self.size.y
    }

    /// Writes a `Pixel` at the specified coordinate
    ///
    /// * `coordinate` - A `Vector2` containing the XY coordinates to which the `Pixel` is written
    /// * `pixel` - The `Pixel` data that is written to the coordinate
    pub fn write_pixel(&mut self, coordinate: Vector2, pixel: Pixel)
        requires
            old(self)@.contains(coordinate),
        ensures
            final(self)@ == old(self)@.write(coordinate, pixel),
    {
        proof {
            use_type_invariant(&*self);
        }
        let index: usize = self.coordinate_to_index(coordinate);
        self.pixels[index] = pixel;
    }

    /// Return a reference to the `Pixel` at the specified coordinate
    ///
    /// * `coordinate` - A `Vector2` containing the XY coordinates at which the `Pixel` is read
    pub fn read_pixel(&self, coordinate: Vector2) -> (pixel: &Pixel)
        requires
            self@.contains(coordinate),
        ensures
            *pixel == self@.read(coordinate),
    {
        let index: usize = self.coordinate_to_index(coordinate);
        &self.pixels[index]
    }

    /// Writes a `Pixel` at the specified coordinate if the frame has such a
    /// coordinate. For any other coordinate nothing is written, and the
    /// answer names the coordinate and the frame's size.
    pub fn try_write_pixel(&mut self, coordinate: Vector2, pixel: Pixel) -> (done: Result<
        (),
        OutOfBounds,
    >)
        ensures
            done is Ok <==> old(self)@.contains(coordinate),
            done is Ok ==> final(self)@ == old(self)@.write(coordinate, pixel),
            done is Err ==> final(self)@ == old(self)@,
            done is Err ==> done->Err_0 == (OutOfBounds { coordinate, size: old(self)@.size }),
    {
        if self.contains(coordinate) {
            self.write_pixel(coordinate, pixel);
            Ok(())
        } else {
            Err(OutOfBounds { coordinate, size: self.size })
        }
    }

    /// Return a reference to the `Pixel` at the specified coordinate if the
    /// frame has such a coordinate. For any other coordinate the answer names
    /// the coordinate and the frame's size.
    pub fn try_read_pixel(&self, coordinate: Vector2) -> (pixel: Result<&Pixel, OutOfBounds>)
        ensures
            pixel is Ok <==> self@.contains(coordinate),
            pixel is Ok ==> *pixel->Ok_0 == self@.read(coordinate),
            pixel is Err ==> pixel->Err_0 == (OutOfBounds { coordinate, size: self@.size }),
    {
        if self.contains(coordinate) {
            Ok(self.read_pixel(coordinate))
        } else {
            Err(OutOfBounds { coordinate, size: self.size })
        }
    }

    /// Writes a `Pixel` at the specified coordinate of this frame while
    /// another frame is at hand. Frames share no pixels: whatever the two
    /// hold, and also where both were built from the same size, the other
    /// frame is left as it was.
    pub fn write_pixel_beside(&mut self, other: &mut Frame, coordinate: Vector2, pixel: Pixel)
        requires
            old(self)@.contains(coordinate),
        ensures
            final(self)@ == old(self)@.write(coordinate, pixel),
            *final(other) == *old(other),
    {
        self.write_pixel(coordinate, pixel);
    }

    /// Returns the index of a one-dimensional `Vec`, given a coordinate of
    /// the frame: the column plus the width times the row.
    ///
    /// The coordinate is tested once more as the program runs, so that a
    /// caller that was not verified is stopped at a coordinate outside the
    /// frame, and is not served the pixel of another row.
    pub fn coordinate_to_index(&self, coordinate: Vector2) -> (index: usize)
        requires
            self@.contains(coordinate),
        ensures
            index == self@.index_of(coordinate),
            index == coordinate.x + self@.size.x * coordinate.y,
            index < self@.cells.len(),
    {
        vstd::pervasive::runtime_assert(self.contains(coordinate));
        proof {
            use_type_invariant(&*self);
            self@.lemma_index_in_range(coordinate);
            assert(self@.index_of(coordinate) < self.pixels.len());
            let w: int = self.size.x as int;
            let y: int = coordinate.y as int;
            assert(0 <= w * y) by (nonlinear_arith)
                requires
                    0 <= w,
                    0 <= y,
            ;
        }
        coordinate.x + (self.size.x * coordinate.y)
    }
}

/// Builder for the `Frame` component.
///
/// It holds the pixels, the size and the offset of the frame to come. The
/// size is given first and decides the number of pixels; the offset may be
/// set any number of times before the frame is built.
pub struct FrameBuilder {
    pixels: Vec<Pixel>,
    position: Vector2,
    size: Vector2,
}

impl View for FrameBuilder {
    type V = Grid;

    closed spec fn view(&self) -> Grid {
        Grid { position: self.position, size: self.size, cells: self.pixels@ }
    }
}

impl Default for FrameBuilder {
    /// The builder of a frame of one pixel, which holds no sprite, at offset
    /// `(0, 0)`.
    fn default() -> (builder: Self)
        ensures
            builder@ == Grid::blank((Vector2 { x: 1, y: 1 })),
    {
        let builder = FrameBuilder {
            position: Vector2::new(0, 0),
            pixels: vec![Pixel::default()],
            size: Vector2::new(1, 1),
        };
        assert(builder@.cells =~= Grid::blank(Vector2 { x: 1, y: 1 }).cells);
        builder
    }
}

impl FrameBuilder {
    /// Every builder holds exactly one pixel for each coordinate of its size.
    #[verifier::type_invariant]
    pub open spec fn inv(self) -> bool {
        self@.wf()
    }

    /// Returns the builder with an initialized array of pixels
    ///
    /// * `size` - The width and height of our frame, where (1,1) is a 1x1 grid.
    ///
    /// None of the pixels holds a sprite, and the offset is `(0, 0)`. A size
    /// with a width or a height of zero gives a frame without pixels, in which
    /// no coordinate can be read or written.
    pub fn initialize(size: Vector2) -> (builder: Self)
        requires
            size.x * size.y <= usize::MAX,
        ensures
            builder@ == Grid::blank(size),
    {
        let builder = FrameBuilder {
            position: Vector2::new(0, 0),
            pixels: vec![Pixel::default(); size.x * size.y],
            size,
        };
        assert(builder@.cells =~= Grid::blank(size).cells);
        builder
    }

    /// Returns the build with optional initial relative offset to the game screen
    ///
    /// * `position` - A `Vector2` containing two `usize` X and Y coordinates
    ///   from which to offset. Note that this offset is in real pixels, and not
    ///   a grid. This allows for fluid window movement if desired.
    ///
    /// Of several calls the last one decides.
    pub fn position(self, position: Vector2) -> (builder: Self)
        ensures
            builder@ == self@.moved_to(position),
    {
        proof {
            use_type_invariant(&self);
        }
        FrameBuilder { position, pixels: self.pixels, size: self.size }
    }

    /// Builds and returns the `Frame`
    pub fn finalize(self) -> (frame: Frame)
        ensures
            frame@ == self@,
    {
        proof {
            use_type_invariant(&self);
        }
        Frame { position: self.position, size: self.size, pixels: self.pixels }
    }
}

} // verus!
