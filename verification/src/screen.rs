//! The screen: a grid of pixels that are set or unset, stored column by
//! column.

use vstd::prelude::*;

verus! {

/// Represents a sprite "pixel" to which a sprite can be written
pub type Pixel = bool;

/// The columns of a screen of the given width and height in which no pixel
/// is set.
pub open spec fn blank(width: nat, height: nat) -> Seq<Seq<Pixel>> {
    Seq::new(width, |x: int| Seq::new(height, |y: int| false))
}

/// All columns are as long as the first one.
pub open spec fn rectangular(columns: Seq<Seq<Pixel>>) -> bool {
    forall|x: int| 0 <= x < columns.len() ==> (#[trigger] columns[x]).len() == columns[0].len()
}

/// `(x, y)` names a pixel of the columns.
pub open spec fn contains(columns: Seq<Seq<Pixel>>, x: int, y: int) -> bool {
    0 <= x < columns.len() && 0 <= y < columns[x].len()
}

/// The columns with `pixel` at `(x, y)` and every other pixel as it is.
pub open spec fn write(columns: Seq<Seq<Pixel>>, x: int, y: int, pixel: Pixel) -> Seq<Seq<Pixel>> {
    columns.update(x, columns[x].update(y, pixel))
}

/// A pixel written at a place of the columns is the pixel found there
/// afterwards, and the write keeps the length of every column.
pub proof fn lemma_write_then_read(columns: Seq<Seq<Pixel>>, x: int, y: int, pixel: Pixel)
    requires
        contains(columns, x, y),
    ensures
        write(columns, x, y, pixel)[x][y] == pixel,
        write(columns, x, y, pixel).len() == columns.len(),
        forall|i: int|
            0 <= i < columns.len() ==> (#[trigger] write(columns, x, y, pixel)[i]).len()
                == columns[i].len(),
        rectangular(columns) ==> rectangular(write(columns, x, y, pixel)),
{
    let after = write(columns, x, y, pixel);
    assert forall|i: int| 0 <= i < columns.len() implies (#[trigger] after[i]).len()
        == columns[i].len() by {}
    if rectangular(columns) {
        assert forall|i: int| 0 <= i < after.len() implies (#[trigger] after[i]).len()
            == after[0].len() by {
            assert(columns[i].len() == columns[0].len());
            assert(columns[x].len() == columns[0].len());
        }
    }
}

/// A write at one place leaves the pixel at every other place as it was.
pub proof fn lemma_write_keeps_others(
    columns: Seq<Seq<Pixel>>,
    x: int,
    y: int,
    pixel: Pixel,
    other_x: int,
    other_y: int,
)
    requires
        contains(columns, x, y),
        contains(columns, other_x, other_y),
        other_x != x || other_y != y,
    ensures
        write(columns, x, y, pixel)[other_x][other_y] == columns[other_x][other_y],
{
}

/// In the blank columns of any width and height no pixel is set, and they
/// form a rectangle of that width and height.
pub proof fn lemma_blank_is_unset(width: nat, height: nat)
    ensures
        blank(width, height).len() == width,
        rectangular(blank(width, height)),
        forall|x: int, y: int| #[trigger]
            contains(blank(width, height), x, y) <==> 0 <= x < width && 0 <= y < height,
        forall|x: int, y: int| #[trigger]
            contains(blank(width, height), x, y) ==> !blank(width, height)[x][y],
{
}

/// A grid of pixels that is addressed by column `x` and row `y`. Its view is
/// the sequence of its columns, each a sequence of pixels.
#[derive(Debug)]
pub struct Screen {
    pixels: Vec<Vec<Pixel>>,
}

impl View for Screen {
    type V = Seq<Seq<Pixel>>;

    closed spec fn view(&self) -> Seq<Seq<Pixel>> {
        Seq::new(self.pixels@.len(), |x: int| self.pixels@[x]@)
    }
}

impl Screen {
    /// Every screen is a rectangle, and the number of its pixels fits the
    /// machine's integers.
    #[verifier::type_invariant]
    pub open spec fn inv(self) -> bool {
        &&& rectangular(self@)
        &&& self@.len() > 0 ==> self@.len() * self@[0].len() <= usize::MAX
    }

    /// A screen of `width` columns and `height` rows in which no pixel is set.
    pub fn new(width: usize, height: usize) -> (screen: Self)
        requires
            width * height <= usize::MAX,
        ensures
            screen@ == blank(width as nat, height as nat),
    {
        let screen = Screen { pixels: vec![vec![false; height]; width] };
        assert(screen@ =~~= blank(width as nat, height as nat));
        screen
    }

    /// Write to an X,Y position with a Pixel
    pub fn write_pixel(&mut self, x: usize, y: usize, pixel: Pixel)
        requires
            contains(old(self)@, x as int, y as int),
        ensures
            final(self)@ == write(old(self)@, x as int, y as int, pixel),
    {
        proof {
            use_type_invariant(&*self);
        }
        // a caller that was not verified is stopped here, before a pixel moves
        vstd::pervasive::runtime_assert(x < self.pixels.len() && y < self.pixels[x].len());
        let mut pixels: Vec<Vec<Pixel>> = Vec::new();
        std::mem::swap(&mut self.pixels, &mut pixels);
        pixels[x][y] = pixel;
        proof {
            let before = old(self)@;
            let after = Seq::new(pixels@.len(), |i: int| pixels@[i]@);
            assert(after =~~= write(before, x as int, y as int, pixel));
            assert forall|i: int| 0 <= i < after.len() implies (#[trigger] after[i]).len()
                == after[0].len() by {
                assert(before[i].len() == before[0].len());
                assert(before[x as int].len() == before[0].len());
            }
        }
        self.pixels = pixels;
    }

    /// Read the Pixel at an X,Y position
    pub fn read_pixel(&self, x: usize, y: usize) -> (pixel: Pixel)
        requires
            contains(self@, x as int, y as int),
        ensures
            pixel == self@[x as int][y as int],
    {
        self.pixels[x][y]
    }

    /// The number of rows: the length of the first column, and so of each.
    pub fn height(&self) -> (height: usize)
        requires
            self@.len() > 0,
        ensures
            height == self@[0].len(),
    {
        self.pixels[0].len()
    }

    /// The number of columns.
    pub fn width(&self) -> (width: usize)
        ensures
            width == self@.len(),
    {
        self.pixels.len()
    }

    /// The number of pixels: width times height.
    pub fn size(&self) -> (size: usize)
        requires
            self@.len() > 0,
        ensures
            size == self@.len() * self@[0].len(),
    {
        proof {
            use_type_invariant(&*self);
            let width: int = self@.len() as int;
            let height: int = self@[0].len() as int;
            assert(height * width == width * height) by (nonlinear_arith);
        }
        self.height() * self.width()
    }
}

} // verus!
