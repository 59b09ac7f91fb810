//! The mathematical model of a grid: a sequence of rows, each a sequence of
//! cell states (`true` for alive), and the Moore neighbourhood on it.

use vstd::prelude::*;

use crate::automata::AutomataCell;

verus! {

/// The states of the cells of one row.
pub open spec fn row_states(row: Seq<AutomataCell>) -> Seq<bool> {
    row.map_values(|cell: AutomataCell| cell@)
}

/// The states of the cells of a matrix of cells, row by row.
pub open spec fn grid_states(rows: Seq<Vec<AutomataCell>>) -> Seq<Seq<bool>> {
    rows.map_values(|row: Vec<AutomataCell>| row_states(row@))
}

/// A grid has at least one row and one column, and all its rows are as long
/// as the first.
pub open spec fn is_rectangular(grid: Seq<Seq<bool>>) -> bool {
    &&& grid.len() > 0
    &&& grid[0].len() > 0
    &&& forall|i: int| 0 <= i < grid.len() ==> (#[trigger] grid[i]).len() == grid[0].len()
}

/// The number of rows.
pub open spec fn height(grid: Seq<Seq<bool>>) -> nat {
    grid.len()
}

/// The number of columns: the length of the first row.
pub open spec fn width(grid: Seq<Seq<bool>>) -> nat {
    if grid.len() > 0 {
        grid[0].len()
    } else {
        0
    }
}

/// Two grids have the same number of rows, and row by row the same length.
pub open spec fn same_shape(a: Seq<Seq<bool>>, b: Seq<Seq<bool>>) -> bool {
    &&& a.len() == b.len()
    &&& forall|i: int| 0 <= i < a.len() ==> (#[trigger] a[i]).len() == (#[trigger] b[i]).len()
}

/// Row `i`, column `j` lies on the grid.
pub open spec fn in_bounds(grid: Seq<Seq<bool>>, i: int, j: int) -> bool {
    0 <= i < grid.len() && 0 <= j < grid[i].len()
}

/// The cell at row `i`, column `j` lies on the grid and is alive. Positions
/// off the grid count as dead: the grid does not wrap around.
pub open spec fn alive_at(grid: Seq<Seq<bool>>, i: int, j: int) -> bool {
    in_bounds(grid, i, j) && grid[i][j]
}

/// 1 for a live cell on the grid, 0 otherwise.
pub open spec fn live(grid: Seq<Seq<bool>>, i: int, j: int) -> nat {
    if alive_at(grid, i, j) {
        1
    } else {
        0
    }
}

/// The number of live cells among the eight cells around row `i`, column `j`.
pub open spec fn live_neighbors(grid: Seq<Seq<bool>>, i: int, j: int) -> nat {
    live(grid, i - 1, j - 1) + live(grid, i, j - 1) + live(grid, i + 1, j - 1)
        + live(grid, i - 1, j) + live(grid, i + 1, j)
        + live(grid, i - 1, j + 1) + live(grid, i, j + 1) + live(grid, i + 1, j + 1)
}

/// The position `(i, j)` if it lies on a grid of `rows` by `columns`, else nothing.
pub open spec fn position_if_inside(rows: nat, columns: nat, i: int, j: int) -> Seq<(int, int)> {
    if 0 <= i < rows && 0 <= j < columns {
        seq![(i, j)]
    } else {
        Seq::empty()
    }
}

/// The positions around row `i`, column `j` that lie on a grid of `rows` by
/// `columns`, column by column from the left, each column from the top.
pub open spec fn neighbor_positions(rows: nat, columns: nat, i: int, j: int) -> Seq<(int, int)> {
    position_if_inside(rows, columns, i - 1, j - 1)
        + position_if_inside(rows, columns, i, j - 1)
        + position_if_inside(rows, columns, i + 1, j - 1)
        + position_if_inside(rows, columns, i - 1, j)
        + position_if_inside(rows, columns, i + 1, j)
        + position_if_inside(rows, columns, i - 1, j + 1)
        + position_if_inside(rows, columns, i, j + 1)
        + position_if_inside(rows, columns, i + 1, j + 1)
}

/// The number of positions in `positions` that hold a live cell of `grid`.
pub open spec fn count_alive(grid: Seq<Seq<bool>>, positions: Seq<(int, int)>) -> nat
    decreases positions.len(),
{
    if positions.len() == 0 {
        0
    } else {
        count_alive(grid, positions.drop_last()) + live(
            grid,
            positions.last().0,
            positions.last().1,
        )
    }
}

/// Counting over two lists of positions, one after the other, adds up.
pub proof fn lemma_count_alive_concat(
    grid: Seq<Seq<bool>>,
    first: Seq<(int, int)>,
    second: Seq<(int, int)>,
)
    ensures
        count_alive(grid, first + second) == count_alive(grid, first) + count_alive(grid, second),
    decreases second.len(),
{
    if second.len() == 0 {
        assert(first + second =~= first);
    } else {
        assert((first + second).drop_last() =~= first + second.drop_last());
        lemma_count_alive_concat(grid, first, second.drop_last());
    }
}

/// On a rectangular grid, the live cells among the neighbouring positions
/// that lie on the grid are the live neighbours.
pub proof fn lemma_count_alive_neighbors(grid: Seq<Seq<bool>>, i: int, j: int)
    requires
        is_rectangular(grid),
    ensures
        count_alive(grid, neighbor_positions(height(grid), width(grid), i, j)) == live_neighbors(
            grid,
            i,
            j,
        ),
{
    let rows = height(grid);
    let columns = width(grid);
    let upper_left = position_if_inside(rows, columns, i - 1, j - 1);
    let left = position_if_inside(rows, columns, i, j - 1);
    let lower_left = position_if_inside(rows, columns, i + 1, j - 1);
    let above = position_if_inside(rows, columns, i - 1, j);
    let below = position_if_inside(rows, columns, i + 1, j);
    let upper_right = position_if_inside(rows, columns, i - 1, j + 1);
    let right = position_if_inside(rows, columns, i, j + 1);
    let lower_right = position_if_inside(rows, columns, i + 1, j + 1);
    lemma_count_alive_inside(grid, i - 1, j - 1);
    lemma_count_alive_inside(grid, i, j - 1);
    lemma_count_alive_inside(grid, i + 1, j - 1);
    lemma_count_alive_inside(grid, i - 1, j);
    lemma_count_alive_inside(grid, i + 1, j);
    lemma_count_alive_inside(grid, i - 1, j + 1);
    lemma_count_alive_inside(grid, i, j + 1);
    lemma_count_alive_inside(grid, i + 1, j + 1);
    let first_column = upper_left + left + lower_left;
    let two_columns = first_column + above + below;
    lemma_count_alive_concat(grid, upper_left, left);
    lemma_count_alive_concat(grid, upper_left + left, lower_left);
    lemma_count_alive_concat(grid, first_column, above);
    lemma_count_alive_concat(grid, first_column + above, below);
    lemma_count_alive_concat(grid, two_columns, upper_right);
    lemma_count_alive_concat(grid, two_columns + upper_right, right);
    lemma_count_alive_concat(grid, two_columns + upper_right + right, lower_right);
}

/// One position, kept if it lies on the grid, counts as the cell there.
proof fn lemma_count_alive_inside(grid: Seq<Seq<bool>>, i: int, j: int)
    requires
        is_rectangular(grid),
    ensures
        count_alive(grid, position_if_inside(height(grid), width(grid), i, j)) == live(grid, i, j),
{
    let kept = position_if_inside(height(grid), width(grid), i, j);
    if kept.len() > 0 {
        assert(kept.drop_last() =~= Seq::<(int, int)>::empty());
        assert(count_alive(grid, kept.drop_last()) == 0);
    }
}

/// The live neighbours never exceed eight; on the first or last row, or the
/// first or last column, never five; at a corner, never three.
pub proof fn lemma_live_neighbors_bounds(grid: Seq<Seq<bool>>, i: int, j: int)
    requires
        is_rectangular(grid),
    ensures
        live_neighbors(grid, i, j) <= 8,
        (i == 0 || i == height(grid) - 1 || j == 0 || j == width(grid) - 1) ==> live_neighbors(
            grid,
            i,
            j,
        ) <= 5,
        (i == 0 || i == height(grid) - 1) && (j == 0 || j == width(grid) - 1) ==> live_neighbors(
            grid,
            i,
            j,
        ) <= 3,
{
}

} // verus!
