//! What holds of every rotation, proved over the model.

use vstd::prelude::*;

use crate::grid::Grid;
use crate::rotate::Rotate;

verus! {

/// A quarter turn exchanges the two dimensions; a vertical mirror keeps
/// them. Either way a rectangular grid stays rectangular.
pub proof fn lemma_shape_after(dir: Rotate, grid: Grid)
    ensures
        dir is Left || dir is Right ==> dir.applied(grid).rows == grid.cols && dir.applied(
            grid,
        ).cols == grid.rows,
        dir is Top || dir is Bottom ==> dir.applied(grid).rows == grid.rows && dir.applied(
            grid,
        ).cols == grid.cols,
        dir.applied(grid).rectangular(),
{
}

/// A turn to the left and a turn to the right undo each other, in either
/// order.
pub proof fn lemma_quarter_turns_cancel(grid: Grid)
    requires
        grid.rectangular(),
    ensures
        Rotate::Right.applied(Rotate::Left.applied(grid)) == grid,
        Rotate::Left.applied(Rotate::Right.applied(grid)) == grid,
{
    assert(Rotate::Right.applied(Rotate::Left.applied(grid)).cells =~~= grid.cells);
    assert(Rotate::Left.applied(Rotate::Right.applied(grid)).cells =~~= grid.cells);
}

/// The vertical mirror is its own inverse.
pub proof fn lemma_flip_twice(grid: Grid)
    requires
        grid.rectangular(),
    ensures
        Rotate::Bottom.applied(Rotate::Bottom.applied(grid)) == grid,
{
    assert(Rotate::Bottom.applied(Rotate::Bottom.applied(grid)).cells =~~= grid.cells);
}

/// `Top` and `Bottom` are one and the same operation.
pub proof fn lemma_top_is_bottom(grid: Grid)
    ensures
        Rotate::Top.applied(grid) == Rotate::Bottom.applied(grid),
{
}

/// A grid without rows or without columns turns into a grid without cells
/// whose dimensions are those of any other rotation: exchanged by a quarter
/// turn, kept by a mirror.
pub proof fn lemma_degenerate(dir: Rotate, grid: Grid)
    requires
        grid.rows == 0 || grid.cols == 0,
    ensures
        dir.applied(grid).rows * dir.applied(grid).cols == 0,
        dir is Left || dir is Right ==> dir.applied(grid).rows == grid.cols && dir.applied(
            grid,
        ).cols == grid.rows,
        dir is Top || dir is Bottom ==> dir.applied(grid).rows == grid.rows && dir.applied(
            grid,
        ).cols == grid.cols,
        forall|r: int|
            0 <= r < dir.applied(grid).rows ==> (#[trigger] dir.applied(grid).cells[r]).len() == 0,
{
    let rows = dir.applied(grid).rows;
    let cols = dir.applied(grid).cols;
    assert(rows * cols == 0) by (nonlinear_arith)
        requires
            rows == 0 || cols == 0,
    ;
}

/// With an odd number of rows, the vertical mirror leaves the middle row
/// where it is.
pub proof fn lemma_flip_keeps_middle_row(grid: Grid)
    requires
        grid.rectangular(),
        grid.rows % 2 == 1,
    ensures
        Rotate::Bottom.applied(grid).cells[grid.rows as int / 2] == grid.cells[grid.rows as int
            / 2],
{
    let mid = grid.rows as int / 2;
    assert(Rotate::Bottom.applied(grid).cells[mid] =~= grid.cells[mid]);
}

} // verus!
