//! The mathematical model of a grid and of its rotations.

use vstd::prelude::*;

verus! {

/// The text of one cell.
pub type Cell = Seq<char>;

/// A grid as a mathematical value: its dimensions and its cells, row by row.
///
/// The dimensions are kept beside the cells because a grid without rows
/// still has a column count.
pub struct Grid {
    pub rows: nat,
    pub cols: nat,
    pub cells: Seq<Seq<Cell>>,
}

impl Grid {
    /// Every one of the `rows` rows holds exactly `cols` cells.
    pub open spec fn rectangular(self) -> bool {
        &&& self.cells.len() == self.rows
        &&& forall|r: int| 0 <= r < self.rows ==> (#[trigger] self.cells[r]).len() == self.cols
    }

    /// The quarter turn to the left: the last column becomes the first row.
    pub open spec fn turned_left(self) -> Grid {
        Grid {
            rows: self.cols,
            cols: self.rows,
            cells: Seq::new(
                self.cols,
                |i: int| Seq::new(self.rows, |j: int| self.cells[j][self.cols - 1 - i]),
            ),
        }
    }

    /// The quarter turn to the right: the first column, read upwards, becomes
    /// the first row.
    pub open spec fn turned_right(self) -> Grid {
        Grid {
            rows: self.cols,
            cols: self.rows,
            cells: Seq::new(
                self.cols,
                |i: int| Seq::new(self.rows, |j: int| self.cells[self.rows - 1 - j][i]),
            ),
        }
    }

    /// The vertical mirror image: the rows in reverse order.
    pub open spec fn flipped(self) -> Grid {
        Grid {
            rows: self.rows,
            cols: self.cols,
            cells: Seq::new(
                self.rows,
                |i: int| Seq::new(self.cols, |j: int| self.cells[self.rows - 1 - i][j]),
            ),
        }
    }
}

} // verus!
