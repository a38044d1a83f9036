//! `papergrid`'s `VecRecords<String>` as the storage of a grid: what Verus is
//! told about it, and verified ways to build one and to read one out.

use papergrid::records::vec_records::VecRecords;
use papergrid::records::Resizable;
use vstd::prelude::*;

use crate::grid::{Cell, Grid};

verus! {

/// `papergrid::records::vec_records::VecRecords`, opaque to the verifier.
#[verifier::external_type_specification]
#[verifier::external_body]
#[verifier::reject_recursive_types(T)]
pub struct ExVecRecords<T>(VecRecords<T>);

/// The texts that the records hold, row by row: the contents of every cell
/// of every stored row, in order.
pub uninterp spec fn stored_cells(records: VecRecords<String>) -> Seq<Seq<Seq<char>>>;

/// The dimensions `(rows, columns)` that the records keep beside their rows
/// and give as their size.
pub uninterp spec fn stored_shape(records: VecRecords<String>) -> (usize, usize);

/// The grid that the records stand for.
pub open spec fn grid_of(records: VecRecords<String>) -> Grid {
    Grid {
        rows: stored_shape(records).0 as nat,
        cols: stored_shape(records).1 as nat,
        cells: stored_cells(records),
    }
}

/// Calls `VecRecords::size`, which returns the dimensions the records were
/// built with and have kept up to date since.
#[verifier::external_body]
pub(crate) fn shape(records: &VecRecords<String>) -> (dims: (usize, usize))
    ensures
        dims == stored_shape(*records),
{
    records.size()
}

/// Calls `VecRecords::with_hint`, which takes the rows as they are and the
/// column count as it is given, without comparing the two.
#[verifier::external_body]
fn records_with_hint(rows: Vec<Vec<String>>, count_columns: usize) -> (records: VecRecords<String>)
    ensures
        stored_cells(records) == rows.deep_view(),
        stored_shape(records) == (rows.len(), count_columns),
{
    VecRecords::with_hint(rows, count_columns)
}

/// Calls the `Index` implementation of `VecRecords`, which hands out the cell
/// at a position, and copies its text.
#[verifier::external_body]
fn cell_text(records: &VecRecords<String>, row: usize, col: usize) -> (text: String)
    requires
        row < stored_cells(*records).len(),
        col < stored_cells(*records)[row as int].len(),
    ensures
        text@ == stored_cells(*records)[row as int][col as int],
{
    records[(row, col)].clone()
}

/// Whether each of the rows holds exactly `count_columns` cells.
pub open spec fn rows_fit(rows: Seq<Seq<Cell>>, count_columns: nat) -> bool {
    forall|r: int| 0 <= r < rows.len() ==> (#[trigger] rows[r]).len() == count_columns
}

/// Builds the records of a grid of `count_columns` columns from its rows.
/// Rows of any other length are refused.
pub fn records_from_rows(rows: Vec<Vec<String>>, count_columns: usize) -> (out: Option<
    VecRecords<String>,
>)
    ensures
        out.is_some() <==> rows_fit(rows.deep_view(), count_columns as nat),
        out matches Some(records) ==> {
            &&& grid_of(records).rectangular()
            &&& stored_cells(records) == rows.deep_view()
            &&& stored_shape(records) == (rows.len(), count_columns)
        },
{
    for r in 0..rows.len()
        invariant
            forall|k: int| 0 <= k < r ==> (#[trigger] rows.deep_view()[k]).len() == count_columns,
    {
        assert(rows.deep_view()[r as int] == rows[r as int].deep_view());
        if rows[r].len() != count_columns {
            return None;
        }
    }
    Some(records_with_hint(rows, count_columns))
}

/// Copies the texts out of the records, row by row.
pub fn rows_of(records: &VecRecords<String>) -> (rows: Vec<Vec<String>>)
    requires
        grid_of(*records).rectangular(),
    ensures
        rows.deep_view() == stored_cells(*records),
{
    let (count_rows, count_cols) = shape(records);
    let mut rows: Vec<Vec<String>> = Vec::new();
    for r in 0..count_rows
        invariant
            grid_of(*records).rectangular(),
            stored_shape(*records) == (count_rows, count_cols),
            rows.len() == r,
            forall|k: int|
                0 <= k < r ==> (#[trigger] rows@[k]).deep_view() == stored_cells(*records)[k],
    {
        let mut row: Vec<String> = Vec::new();
        for c in 0..count_cols
            invariant
                grid_of(*records).rectangular(),
                stored_shape(*records) == (count_rows, count_cols),
                r < count_rows,
                row.len() == c,
                forall|k: int|
                    0 <= k < c ==> (#[trigger] row@[k])@ == stored_cells(*records)[r as int][k],
        {
            let text = cell_text(records, r, c);
            row.push(text);
        }
        assert(row.deep_view() =~= stored_cells(*records)[r as int]);
        rows.push(row);
    }
    assert(rows.deep_view() =~= stored_cells(*records));
    rows
}

/// The cells with the one at `pos` replaced by `text`.
pub open spec fn with_cell(cells: Seq<Seq<Cell>>, pos: (int, int), text: Cell) -> Seq<Seq<Cell>> {
    cells.update(pos.0, cells[pos.0].update(pos.1, text))
}

/// The cells with the contents of the positions `a` and `b` exchanged.
pub open spec fn cells_exchanged(cells: Seq<Seq<Cell>>, a: (int, int), b: (int, int)) -> Seq<
    Seq<Cell>,
> {
    with_cell(with_cell(cells, a, cells[b.0][b.1]), b, cells[a.0][a.1])
}

/// Whether `pos` lies inside the dimensions `dims`.
pub open spec fn inside(dims: (usize, usize), pos: (usize, usize)) -> bool {
    pos.0 < dims.0 && pos.1 < dims.1
}

/// Calls `Resizable::swap`, which exchanges the contents of two cells and
/// does nothing when either position lies outside the dimensions.
#[verifier::external_body]
pub(crate) fn swap_cells(records: &mut VecRecords<String>, lhs: (usize, usize), rhs: (usize, usize))
    requires
        grid_of(*old(records)).rectangular(),
    ensures
        stored_shape(*final(records)) == stored_shape(*old(records)),
        stored_cells(*final(records)) == if inside(stored_shape(*old(records)), lhs) && inside(
            stored_shape(*old(records)),
            rhs,
        ) {
            cells_exchanged(
                stored_cells(*old(records)),
                (lhs.0 as int, lhs.1 as int),
                (rhs.0 as int, rhs.1 as int),
            )
        } else {
            stored_cells(*old(records))
        },
{
    records.swap(lhs, rhs);
}

/// Calls `Resizable::swap_row`, which exchanges two whole rows and does
/// nothing when either index is not a row. Equal indices are left out: the
/// exchange goes through an emptied slot, and a row exchanged with itself
/// does not come back.
#[verifier::external_body]
pub(crate) fn swap_rows(records: &mut VecRecords<String>, lhs: usize, rhs: usize)
    requires
        grid_of(*old(records)).rectangular(),
        lhs != rhs,
    ensures
        stored_shape(*final(records)) == stored_shape(*old(records)),
        stored_cells(*final(records)) == if lhs < stored_shape(*old(records)).0 && rhs
            < stored_shape(*old(records)).0 {
            stored_cells(*old(records)).update(lhs as int, stored_cells(*old(records))[rhs as int])
                .update(rhs as int, stored_cells(*old(records))[lhs as int])
        } else {
            stored_cells(*old(records))
        },
{
    records.swap_row(lhs, rhs);
}

/// Calls `Resizable::swap_column`, which exchanges, in every row, the cells
/// of two columns and does nothing when either index is not a column.
#[verifier::external_body]
pub(crate) fn swap_columns(records: &mut VecRecords<String>, lhs: usize, rhs: usize)
    requires
        grid_of(*old(records)).rectangular(),
    ensures
        stored_shape(*final(records)) == stored_shape(*old(records)),
        stored_cells(*final(records)) == if lhs < stored_shape(*old(records)).1 && rhs
            < stored_shape(*old(records)).1 {
            Seq::new(
                stored_cells(*old(records)).len(),
                |r: int|
                    stored_cells(*old(records))[r].update(
                        lhs as int,
                        stored_cells(*old(records))[r][rhs as int],
                    ).update(rhs as int, stored_cells(*old(records))[r][lhs as int]),
            )
        } else {
            stored_cells(*old(records))
        },
{
    records.swap_column(lhs, rhs);
}

/// Calls `Resizable::push_row`, which appends one row of empty cells, as many
/// as there are columns.
#[verifier::external_body]
pub(crate) fn push_row(records: &mut VecRecords<String>)
    requires
        stored_shape(*old(records)).0 < usize::MAX,
    ensures
        stored_shape(*final(records)) == (
            (stored_shape(*old(records)).0 + 1) as usize,
            stored_shape(*old(records)).1,
        ),
        stored_cells(*final(records)) == stored_cells(*old(records)).push(
            Seq::new(stored_shape(*old(records)).1 as nat, |c: int| Seq::<char>::empty()),
        ),
{
    records.push_row();
}

/// Calls `Resizable::push_column`, which appends one empty cell to every row.
#[verifier::external_body]
pub(crate) fn push_column(records: &mut VecRecords<String>)
    requires
        stored_shape(*old(records)).1 < usize::MAX,
    ensures
        stored_shape(*final(records)) == (
            stored_shape(*old(records)).0,
            (stored_shape(*old(records)).1 + 1) as usize,
        ),
        stored_cells(*final(records)) == Seq::new(
            stored_cells(*old(records)).len(),
            |r: int| stored_cells(*old(records))[r].push(Seq::<char>::empty()),
        ),
{
    records.push_column();
}

/// Calls `Resizable::remove_row`, which takes out the row at `row`, moving
/// the later rows up by one, and does nothing when there is no such row.
#[verifier::external_body]
pub(crate) fn remove_row(records: &mut VecRecords<String>, row: usize)
    requires
        grid_of(*old(records)).rectangular(),
    ensures
        row < stored_shape(*old(records)).0 ==> {
            &&& stored_shape(*final(records)) == (
                (stored_shape(*old(records)).0 - 1) as usize,
                stored_shape(*old(records)).1,
            )
            &&& stored_cells(*final(records)) == stored_cells(*old(records)).remove(row as int)
        },
        row >= stored_shape(*old(records)).0 ==> {
            &&& stored_shape(*final(records)) == stored_shape(*old(records))
            &&& stored_cells(*final(records)) == stored_cells(*old(records))
        },
{
    records.remove_row(row);
}

/// Calls `Resizable::remove_column`, which takes the cell at `column` out of
/// every row, moving the later cells of the row left by one, and does nothing
/// when there is no such column.
#[verifier::external_body]
pub(crate) fn remove_column(records: &mut VecRecords<String>, column: usize)
    requires
        grid_of(*old(records)).rectangular(),
    ensures
        column < stored_shape(*old(records)).1 ==> {
            &&& stored_shape(*final(records)) == (
                stored_shape(*old(records)).0,
                (stored_shape(*old(records)).1 - 1) as usize,
            )
            &&& stored_cells(*final(records)) == Seq::new(
                stored_cells(*old(records)).len(),
                |r: int| stored_cells(*old(records))[r].remove(column as int),
            )
        },
        column >= stored_shape(*old(records)).1 ==> {
            &&& stored_shape(*final(records)) == stored_shape(*old(records))
            &&& stored_cells(*final(records)) == stored_cells(*old(records))
        },
{
    records.remove_column(column);
}

} // verus!
