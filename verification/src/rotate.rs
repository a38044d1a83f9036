//! The rotation itself: which way to turn, and the in-place algorithm.

use papergrid::records::vec_records::VecRecords;
use vstd::prelude::*;

use crate::grid::{Cell, Grid};
use crate::records::{
    cells_exchanged, grid_of, push_column, push_row, remove_column, remove_row, shape,
    stored_cells, stored_shape, swap_cells, swap_columns, swap_rows,
};

verus! {

/// A rotation of a grid by a quarter turn, or its vertical mirror image.
#[derive(Debug)]
pub enum Rotate {
    /// Turn the grid to the left: its last column becomes its first row.
    Left,
    /// Turn the grid to the right: its first column, read upwards, becomes
    /// its first row.
    Right,
    /// Turn the grid upside down, row for row. The same as [`Rotate::Bottom`].
    Top,
    /// Turn the grid upside down, row for row: the top becomes the bottom.
    Bottom,
}

impl Rotate {
    /// The grid that this rotation makes of `grid`.
    pub open spec fn applied(self, grid: Grid) -> Grid {
        match self {
            Rotate::Left => grid.turned_left(),
            Rotate::Right => grid.turned_right(),
            Rotate::Top => grid.flipped(),
            Rotate::Bottom => grid.flipped(),
        }
    }

    /// Rotates the grid held in `records` in place. The rotation itself is
    /// left as it was.
    ///
    /// A quarter turn pads the grid to a square, transposes it across the
    /// diagonal, reverses the rows (left) or the columns (right) and takes the
    /// padding off again; no second grid is built.
    pub fn change(&mut self, records: &mut VecRecords<String>)
        requires
            grid_of(*old(records)).rectangular(),
        ensures
            *final(self) == *old(self),
            grid_of(*final(records)) == old(self).applied(grid_of(*old(records))),
            grid_of(*final(records)).rectangular(),
            stored_shape(*final(records)) == if *old(self) is Left || *old(self) is Right {
                (stored_shape(*old(records)).1, stored_shape(*old(records)).0)
            } else {
                stored_shape(*old(records))
            },
    {
        let (count_rows, count_cols) = shape(records);
        let ghost start = grid_of(*records);
        match self {
            Rotate::Left => {
                pad_to_square(records);
                transpose_block(records, count_rows, count_cols);
                reverse_rows(records, count_cols);
                strip_padding(records, count_rows, count_cols);
                assert(grid_of(*records).cells =~~= start.turned_left().cells);
            },
            Rotate::Right => {
                pad_to_square(records);
                transpose_block(records, count_rows, count_cols);
                reverse_columns(records, count_rows);
                strip_padding(records, count_rows, count_cols);
                assert(grid_of(*records).cells =~~= start.turned_right().cells);
            },
            Rotate::Bottom => {
                flip_rows(records);
            },
            Rotate::Top => {
                flip_rows(records);
            },
        }
    }
}

/// What an exchange of two cells inside a grid leaves at each position.
proof fn lemma_cells_exchanged(cells: Seq<Seq<Cell>>, a: (int, int), b: (int, int))
    requires
        0 <= a.0 < cells.len(),
        0 <= a.1 < cells[a.0].len(),
        0 <= b.0 < cells.len(),
        0 <= b.1 < cells[b.0].len(),
    ensures
        cells_exchanged(cells, a, b).len() == cells.len(),
        forall|r: int|
            0 <= r < cells.len() ==> (#[trigger] cells_exchanged(cells, a, b)[r]).len()
                == cells[r].len(),
        forall|r: int, c: int|
            0 <= r < cells.len() && 0 <= c < cells[r].len() ==> #[trigger] cells_exchanged(
                cells,
                a,
                b,
            )[r][c] == if r == a.0 && c == a.1 {
                cells[b.0][b.1]
            } else if r == b.0 && c == b.1 {
                cells[a.0][a.1]
            } else {
                cells[r][c]
            },
{
}

/// Mirrors the grid vertically, cell by cell: row `i` changes places with
/// row `rows - 1 - i`.
fn flip_rows(records: &mut VecRecords<String>)
    requires
        grid_of(*old(records)).rectangular(),
    ensures
        grid_of(*final(records)) == grid_of(*old(records)).flipped(),
{
    let (count_rows, count_cols) = shape(records);
    let ghost start = grid_of(*records);
    for row in 0..count_rows / 2
        invariant
            start == grid_of(*old(records)),
            start.rectangular(),
            grid_of(*records).rectangular(),
            stored_shape(*records) == (count_rows, count_cols),
            forall|r: int, c: int|
                0 <= r < count_rows && 0 <= c < count_cols ==> #[trigger] stored_cells(
                    *records,
                )[r][c] == if r < row || r >= count_rows - row {
                    start.cells[count_rows - 1 - r][c]
                } else {
                    start.cells[r][c]
                },
    {
        let last_row = count_rows - row - 1;
        for col in 0..count_cols
            invariant
                start.rectangular(),
                grid_of(*records).rectangular(),
                stored_shape(*records) == (count_rows, count_cols),
                row < count_rows / 2,
                last_row == count_rows - row - 1,
                forall|r: int, c: int|
                    0 <= r < count_rows && 0 <= c < count_cols ==> #[trigger] stored_cells(
                        *records,
                    )[r][c] == if r < row || r > last_row || ((r == row || r == last_row) && c
                        < col) {
                        start.cells[count_rows - 1 - r][c]
                    } else {
                        start.cells[r][c]
                    },
        {
            proof {
                lemma_cells_exchanged(
                    stored_cells(*records),
                    (last_row as int, col as int),
                    (row as int, col as int),
                );
            }
            swap_cells(records, (last_row, col), (row, col));
        }
    }
    assert(grid_of(*records).cells =~~= start.flipped().cells);
}

/// The larger of the two dimensions: the side of the square that the grid
/// is padded to before it is transposed.
pub open spec fn square_side(dims: (usize, usize)) -> usize {
    if dims.0 > dims.1 {
        dims.0
    } else {
        dims.1
    }
}

/// Appends empty rows and columns until the grid is square. What was there
/// stays where it was.
fn pad_to_square(records: &mut VecRecords<String>)
    requires
        grid_of(*old(records)).rectangular(),
    ensures
        grid_of(*final(records)).rectangular(),
        stored_shape(*final(records)) == (
            square_side(stored_shape(*old(records))),
            square_side(stored_shape(*old(records))),
        ),
        forall|r: int, c: int|
            0 <= r < stored_shape(*old(records)).0 && 0 <= c < stored_shape(*old(records)).1
                ==> #[trigger] stored_cells(*final(records))[r][c] == stored_cells(
                *old(records),
            )[r][c],
{
    let (count_rows, count_cols) = shape(records);
    let ghost start = grid_of(*records);
    let n = if count_rows > count_cols {
        count_rows
    } else {
        count_cols
    };
    for k in count_rows..n
        invariant
            count_rows <= n,
            grid_of(*records).rectangular(),
            stored_shape(*records) == (k, count_cols),
            forall|r: int, c: int|
                0 <= r < count_rows && 0 <= c < count_cols ==> #[trigger] stored_cells(
                    *records,
                )[r][c] == start.cells[r][c],
    {
        push_row(records);
    }
    for k in count_cols..n
        invariant
            count_rows <= n,
            count_cols <= n,
            grid_of(*records).rectangular(),
            stored_shape(*records) == (n, k),
            forall|r: int, c: int|
                0 <= r < count_rows && 0 <= c < count_cols ==> #[trigger] stored_cells(
                    *records,
                )[r][c] == start.cells[r][c],
    {
        push_column(records);
    }
}

/// Transposes, inside a square grid, the block that reaches `count_rows` down
/// and `count_cols` across, by exchanging each cell of the block with its
/// image across the diagonal.
///
/// A pair of positions `(a, b)` and `(b, a)` holds a cell of the block exactly
/// when the smaller of `a` and `b` lies below the smaller dimension, so those
/// are the pairs exchanged, each once.
fn transpose_block(records: &mut VecRecords<String>, count_rows: usize, count_cols: usize)
    requires
        grid_of(*old(records)).rectangular(),
        stored_shape(*old(records)) == (
            square_side((count_rows, count_cols)),
            square_side((count_rows, count_cols)),
        ),
    ensures
        grid_of(*final(records)).rectangular(),
        stored_shape(*final(records)) == stored_shape(*old(records)),
        forall|i: int, j: int|
            0 <= i < count_cols && 0 <= j < count_rows ==> #[trigger] stored_cells(
                *final(records),
            )[i][j] == stored_cells(*old(records))[j][i],
{
    let ghost start = grid_of(*records);
    let (n, reach) = if count_rows > count_cols {
        (count_rows, count_cols)
    } else {
        (count_cols, count_rows)
    };
    for col in 0..reach
        invariant
            reach <= n,
            start.rectangular(),
            start.rows == n,
            start.cols == n,
            grid_of(*records).rectangular(),
            stored_shape(*records) == (n, n),
            forall|x: int, y: int|
                0 <= x < n && 0 <= y < n ==> #[trigger] stored_cells(*records)[x][y] == if x
                    < col || y < col {
                    start.cells[y][x]
                } else {
                    start.cells[x][y]
                },
    {
        for row in col..n
            invariant
                col < reach <= n,
                start.rectangular(),
                start.rows == n,
                start.cols == n,
                grid_of(*records).rectangular(),
                stored_shape(*records) == (n, n),
                forall|x: int, y: int|
                    0 <= x < n && 0 <= y < n ==> #[trigger] stored_cells(*records)[x][y] == if x
                        < col || y < col || (x == col && y < row) || (y == col && x < row) {
                        start.cells[y][x]
                    } else {
                        start.cells[x][y]
                    },
        {
            proof {
                lemma_cells_exchanged(
                    stored_cells(*records),
                    (col as int, row as int),
                    (row as int, col as int),
                );
            }
            swap_cells(records, (col, row), (row, col));
        }
    }
}

/// Reverses the order of the first `count` rows.
fn reverse_rows(records: &mut VecRecords<String>, count: usize)
    requires
        grid_of(*old(records)).rectangular(),
        count <= stored_shape(*old(records)).0,
    ensures
        grid_of(*final(records)).rectangular(),
        stored_shape(*final(records)) == stored_shape(*old(records)),
        forall|r: int|
            0 <= r < stored_shape(*old(records)).0 ==> #[trigger] stored_cells(
                *final(records),
            )[r] == if r < count {
                stored_cells(*old(records))[count - 1 - r]
            } else {
                stored_cells(*old(records))[r]
            },
{
    let ghost start = grid_of(*records);
    for row in 0..count / 2
        invariant
            start.rectangular(),
            count <= start.rows,
            grid_of(*records).rectangular(),
            stored_shape(*records) == stored_shape(*old(records)),
            start.rows == stored_shape(*old(records)).0,
            forall|r: int|
                0 <= r < start.rows ==> #[trigger] stored_cells(*records)[r] == if r < row || (
                count - row <= r < count) {
                    start.cells[count - 1 - r]
                } else {
                    start.cells[r]
                },
    {
        swap_rows(records, row, count - row - 1);
    }
}

/// Reverses, in every row, the order of the first `count` cells.
fn reverse_columns(records: &mut VecRecords<String>, count: usize)
    requires
        grid_of(*old(records)).rectangular(),
        count <= stored_shape(*old(records)).1,
    ensures
        grid_of(*final(records)).rectangular(),
        stored_shape(*final(records)) == stored_shape(*old(records)),
        forall|r: int, c: int|
            0 <= r < stored_shape(*old(records)).0 && 0 <= c < stored_shape(*old(records)).1
                ==> #[trigger] stored_cells(*final(records))[r][c] == if c < count {
                stored_cells(*old(records))[r][count - 1 - c]
            } else {
                stored_cells(*old(records))[r][c]
            },
{
    let ghost start = grid_of(*records);
    for col in 0..count / 2
        invariant
            start.rectangular(),
            count <= start.cols,
            grid_of(*records).rectangular(),
            stored_shape(*records) == stored_shape(*old(records)),
            start.rows == stored_shape(*old(records)).0,
            start.cols == stored_shape(*old(records)).1,
            forall|r: int, c: int|
                0 <= r < start.rows && 0 <= c < start.cols ==> #[trigger] stored_cells(
                    *records,
                )[r][c] == if c < col || (count - col <= c < count) {
                    start.cells[r][count - 1 - c]
                } else {
                    start.cells[r][c]
                },
    {
        swap_columns(records, col, count - col - 1);
    }
}

/// Takes the padding off a square grid again: the columns from `count_rows`
/// on, then the rows from `count_cols` on. Each removal moves what follows
/// down by one index, which the index handed to it allows for.
fn strip_padding(records: &mut VecRecords<String>, count_rows: usize, count_cols: usize)
    requires
        grid_of(*old(records)).rectangular(),
        stored_shape(*old(records)) == (
            square_side((count_rows, count_cols)),
            square_side((count_rows, count_cols)),
        ),
    ensures
        grid_of(*final(records)).rectangular(),
        stored_shape(*final(records)) == (count_cols, count_rows),
        forall|i: int, j: int|
            0 <= i < count_cols && 0 <= j < count_rows ==> #[trigger] stored_cells(
                *final(records),
            )[i][j] == stored_cells(*old(records))[i][j],
{
    let ghost start = grid_of(*records);
    let n = if count_rows > count_cols {
        count_rows
    } else {
        count_cols
    };
    for row in count_rows..n
        invariant
            count_rows <= n,
            count_cols <= n,
            grid_of(*records).rectangular(),
            stored_shape(*records) == (n, (n - (row - count_rows)) as usize),
            forall|i: int, j: int|
                0 <= i < n && 0 <= j < count_rows ==> #[trigger] stored_cells(*records)[i][j]
                    == start.cells[i][j],
    {
        let shift = row - count_rows;
        remove_column(records, row - shift);
    }
    for col in count_cols..n
        invariant
            count_rows <= n,
            count_cols <= n,
            grid_of(*records).rectangular(),
            stored_shape(*records) == ((n - (col - count_cols)) as usize, count_rows),
            forall|i: int, j: int|
                0 <= i < count_cols && 0 <= j < count_rows ==> #[trigger] stored_cells(
                    *records,
                )[i][j] == start.cells[i][j],
    {
        let shift = col - count_cols;
        remove_row(records, col - shift);
    }
}

} // verus!
