//! The mathematical grid that a frame stands for: a size, an offset and the
//! cells in row-major order, with the facts about its index arithmetic.

use vstd::prelude::*;
use crate::drawing::pixel::Pixel;
use crate::drawing::vector::Vector2;

verus! {

/// What a frame, or a frame under construction, holds: its offset on the
/// display, its size in cells, and its cells, row after row.
pub struct Grid {
    pub position: Vector2,
    pub size: Vector2,
    pub cells: Seq<Pixel>,
}

impl Grid {
    /// The number of cells of a grid of this size: width times height.
    pub open spec fn area(self) -> nat {
        (self.size.x * self.size.y) as nat
    }

    /// The grid holds one cell for each coordinate of its size, no more.
    pub open spec fn wf(self) -> bool {
        self.cells.len() == self.size.x * self.size.y
    }

    /// `coordinate` names a cell of the grid: its column lies left of the
    /// width and its row above the height.
    pub open spec fn contains(self, coordinate: Vector2) -> bool {
        coordinate.x < self.size.x && coordinate.y < self.size.y
    }

    /// The place of a coordinate's cell among the cells, rows laid end to
    /// end: the column plus the width times the row.
    pub open spec fn index_of(self, coordinate: Vector2) -> int {
        coordinate.x + self.size.x * coordinate.y
    }

    /// The cell at `coordinate`.
    pub open spec fn read(self, coordinate: Vector2) -> Pixel {
        self.cells[self.index_of(coordinate)]
    }

    /// The grid with `pixel` at `coordinate` and every other cell, the size
    /// and the offset as they are.
    pub open spec fn write(self, coordinate: Vector2, pixel: Pixel) -> Grid {
        Grid { cells: self.cells.update(self.index_of(coordinate), pixel), ..self }
    }

    /// The grid moved to the offset `position`, cells and size as they are.
    pub open spec fn moved_to(self, position: Vector2) -> Grid {
        Grid { position, ..self }
    }

    /// The grid of the given size at offset `(0, 0)` in which no cell holds a
    /// sprite.
    pub open spec fn blank(size: Vector2) -> Grid {
        Grid {
            position: Vector2 { x: 0, y: 0 },
            size,
            cells: Seq::new((size.x * size.y) as nat, |i: int| Pixel::empty()),
        }
    }

    /// The index of a cell of the grid lies inside the cells.
    pub proof fn lemma_index_in_range(self, coordinate: Vector2)
        requires
            self.contains(coordinate),
        ensures
            0 <= self.index_of(coordinate) < self.area(),
    {
        let w: int = self.size.x as int;
        let h: int = self.size.y as int;
        let x: int = coordinate.x as int;
        let y: int = coordinate.y as int;
        assert(0 <= x + w * y < w * h) by (nonlinear_arith)
            requires
                0 <= x < w,
                0 <= y < h,
        ;
    }

    /// Two cells of the grid with the same index are the same cell.
    pub proof fn lemma_index_injective(self, first: Vector2, second: Vector2)
        requires
            self.contains(first),
            self.contains(second),
            self.index_of(first) == self.index_of(second),
        ensures
            first == second,
    {
        let w: int = self.size.x as int;
        let x1: int = first.x as int;
        let y1: int = first.y as int;
        let x2: int = second.x as int;
        let y2: int = second.y as int;
        assert(y1 == y2) by (nonlinear_arith)
            requires
                0 <= x1 < w,
                0 <= x2 < w,
                0 <= y1,
                0 <= y2,
                x1 + w * y1 == x2 + w * y2,
        ;
        assert(x1 == x2) by (nonlinear_arith)
            requires
                y1 == y2,
                x1 + w * y1 == x2 + w * y2,
        ;
    }

    /// A pixel written at a cell of the grid is the pixel read there
    /// afterwards, and the write keeps the grid's size, offset and shape.
    pub proof fn lemma_write_then_read(self, coordinate: Vector2, pixel: Pixel)
        requires
            self.wf(),
            self.contains(coordinate),
        ensures
            self.write(coordinate, pixel).read(coordinate) == pixel,
            self.write(coordinate, pixel).wf(),
            self.write(coordinate, pixel).size == self.size,
            self.write(coordinate, pixel).position == self.position,
    {
        self.lemma_index_in_range(coordinate);
    }

    /// A write at one cell leaves every other cell of the grid as it was.
    pub proof fn lemma_write_keeps_others(self, coordinate: Vector2, pixel: Pixel, other: Vector2)
        requires
            self.wf(),
            self.contains(coordinate),
            self.contains(other),
            other != coordinate,
        ensures
            self.write(coordinate, pixel).read(other) == self.read(other),
    {
        self.lemma_index_in_range(coordinate);
        self.lemma_index_in_range(other);
        if self.index_of(other) == self.index_of(coordinate) {
            self.lemma_index_injective(other, coordinate);
        }
    }

    /// The blank grid of any size has width times height cells, and none of
    /// them holds a sprite.
    pub proof fn lemma_blank_is_empty(size: Vector2)
        ensures
            Grid::blank(size).wf(),
            Grid::blank(size).size == size,
            Grid::blank(size).cells.len() == size.x * size.y,
            forall|coordinate: Vector2| #[trigger]
                Grid::blank(size).contains(coordinate) ==> Grid::blank(size).read(coordinate)
                    == Pixel::empty(),
    {
        assert forall|coordinate: Vector2| #[trigger]
            Grid::blank(size).contains(coordinate) implies Grid::blank(size).read(coordinate)
            == Pixel::empty() by {
            Grid::blank(size).lemma_index_in_range(coordinate);
        }
    }

    /// Of two offsets given one after the other the second stands: the first
    /// leaves no trace.
    pub proof fn lemma_last_position_wins(self, first: Vector2, second: Vector2)
        ensures
            self.moved_to(first).moved_to(second) == self.moved_to(second),
            self.moved_to(first).moved_to(second).position == second,
    {
    }
}

} // verus!
