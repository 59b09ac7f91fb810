//! What holds of the generations of a grid: that a step is a function of the
//! current generation, that a block stands still, and that a blinker returns
//! after two steps.

use vstd::prelude::*;

use crate::grid::{height, in_bounds, is_rectangular, live_neighbors, width};
use crate::simple_solver::next_generation;
use crate::solver::{standard_thresholds, CellProcessor, SimpleCellProcessor};

verus! {

/// The grid after `n` steps under `processor`.
pub open spec fn generation<P: CellProcessor>(processor: P, grid: Seq<Seq<bool>>, n: nat) -> Seq<
    Seq<bool>,
>
    decreases n,
{
    if n == 0 {
        grid
    } else {
        next_generation(processor, generation(processor, grid, (n - 1) as nat))
    }
}

/// `grid` is dead everywhere but in the two-by-two block whose upper left
/// cell is at row `top`, column `left`.
pub open spec fn is_block(grid: Seq<Seq<bool>>, top: int, left: int) -> bool {
    &&& is_rectangular(grid)
    &&& 0 <= top
    &&& top + 1 < height(grid)
    &&& 0 <= left
    &&& left + 1 < width(grid)
    &&& forall|i: int, j: int|
        in_bounds(grid, i, j) ==> #[trigger] grid[i][j] == (top <= i <= top + 1 && left <= j <= left
            + 1)
}

/// `grid` is dead everywhere but in three cells in a row: those of row `row`
/// from column `column - 1` to column `column + 1`. There is at least one row
/// above and one below, so that the blinker has room to turn.
pub open spec fn is_flat_blinker(grid: Seq<Seq<bool>>, row: int, column: int) -> bool {
    &&& is_rectangular(grid)
    &&& 1 <= row
    &&& row + 1 < height(grid)
    &&& 1 <= column
    &&& column + 1 < width(grid)
    &&& forall|i: int, j: int|
        in_bounds(grid, i, j) ==> #[trigger] grid[i][j] == (i == row && column - 1 <= j <= column
            + 1)
}

/// `grid` is dead everywhere but in three cells in a column: those of column
/// `column` from row `row - 1` to row `row + 1`, with at least one column on
/// either side.
pub open spec fn is_upright_blinker(grid: Seq<Seq<bool>>, row: int, column: int) -> bool {
    &&& is_rectangular(grid)
    &&& 1 <= row
    &&& row + 1 < height(grid)
    &&& 1 <= column
    &&& column + 1 < width(grid)
    &&& forall|i: int, j: int|
        in_bounds(grid, i, j) ==> #[trigger] grid[i][j] == (j == column && row - 1 <= i <= row + 1)
}

/// A step is a function of the current generation and of what the rule
/// decides: two rules that decide alike take equal grids to equal grids, and
/// each cell of the result depends on the current generation only, not on
/// what was decided for any other cell.
pub proof fn lemma_step_is_deterministic<P: CellProcessor, Q: CellProcessor>(
    first: P,
    second: Q,
    grid: Seq<Seq<bool>>,
    other: Seq<Seq<bool>>,
)
    requires
        grid == other,
        forall|alive: bool, alive_neighbors: nat|
            first.decide(alive, alive_neighbors, 0) == second.decide(alive, alive_neighbors, 0),
    ensures
        next_generation(first, grid) == next_generation(second, other),
        (next_generation(first, grid) != grid) == (next_generation(second, other) != other),
        forall|i: int, j: int|
            in_bounds(grid, i, j) ==> #[trigger] next_generation(first, grid)[i][j] == first.decide(
                grid[i][j],
                live_neighbors(grid, i, j),
                0,
            ),
{
    assert(next_generation(first, grid) =~~= next_generation(second, other));
}

/// Two processors with the same thresholds decide alike.
pub proof fn lemma_same_thresholds_same_step(
    first: SimpleCellProcessor,
    second: SimpleCellProcessor,
    grid: Seq<Seq<bool>>,
)
    requires
        first.thresholds() == second.thresholds(),
    ensures
        next_generation(first, grid) == next_generation(second, grid),
{
    lemma_step_is_deterministic(first, second, grid, grid);
}

/// A grid without a live cell stays as it is under every rule that asks for
/// at least one live neighbour for a birth.
pub proof fn lemma_dead_grid_is_still(processor: SimpleCellProcessor, grid: Seq<Seq<bool>>)
    requires
        processor.thresholds().reproduction > 0,
        forall|i: int, j: int| in_bounds(grid, i, j) ==> !(#[trigger] grid[i][j]),
    ensures
        next_generation(processor, grid) == grid,
{
    let next = next_generation(processor, grid);
    assert forall|i: int, j: int| 0 <= i < grid.len() && 0 <= j < grid[i].len() implies next[i][j]
        == grid[i][j] by {
        assert(in_bounds(grid, i, j));
        assert(live_neighbors(grid, i, j) == 0);
    }
    assert(next =~~= grid);
}

/// Under the standard rule a block is a still life: the next generation is
/// the block again, wherever on the grid it lies.
pub proof fn lemma_block_is_still(
    processor: SimpleCellProcessor,
    grid: Seq<Seq<bool>>,
    top: int,
    left: int,
)
    requires
        processor.thresholds() == standard_thresholds(),
        is_block(grid, top, left),
    ensures
        next_generation(processor, grid) == grid,
{
    let next = next_generation(processor, grid);
    assert forall|i: int, j: int| 0 <= i < grid.len() && 0 <= j < grid[i].len() implies next[i][j]
        == grid[i][j] by {
        lemma_block_cell_is_still(processor, grid, top, left, i, j);
    }
    assert(next =~~= grid);
}

/// The cell at row `i`, column `j` of a block keeps its state.
proof fn lemma_block_cell_is_still(
    processor: SimpleCellProcessor,
    grid: Seq<Seq<bool>>,
    top: int,
    left: int,
    i: int,
    j: int,
)
    requires
        processor.thresholds() == standard_thresholds(),
        is_block(grid, top, left),
        in_bounds(grid, i, j),
    ensures
        processor.decide(grid[i][j], live_neighbors(grid, i, j), 0) == grid[i][j],
{
    lemma_rows_have_width(grid, i - 1);
    lemma_rows_have_width(grid, i);
    lemma_rows_have_width(grid, i + 1);
}

/// Every row of a rectangular grid has the grid's width.
proof fn lemma_rows_have_width(grid: Seq<Seq<bool>>, i: int)
    requires
        is_rectangular(grid),
    ensures
        0 <= i < grid.len() ==> grid[i].len() == width(grid),
{
}

/// However many steps are taken, a block stays as it is.
pub proof fn lemma_block_stays_forever(
    processor: SimpleCellProcessor,
    grid: Seq<Seq<bool>>,
    top: int,
    left: int,
    n: nat,
)
    requires
        processor.thresholds() == standard_thresholds(),
        is_block(grid, top, left),
    ensures
        generation(processor, grid, n) == grid,
    decreases n,
{
    if n > 0 {
        lemma_block_stays_forever(processor, grid, top, left, (n - 1) as nat);
        lemma_block_is_still(processor, grid, top, left);
    }
}

/// Under the standard rule a flat blinker turns upright in one step.
pub proof fn lemma_flat_blinker_turns(
    processor: SimpleCellProcessor,
    grid: Seq<Seq<bool>>,
    row: int,
    column: int,
)
    requires
        processor.thresholds() == standard_thresholds(),
        is_flat_blinker(grid, row, column),
    ensures
        is_upright_blinker(next_generation(processor, grid), row, column),
{
    let next = next_generation(processor, grid);
    assert forall|i: int, j: int| in_bounds(next, i, j) implies #[trigger] next[i][j] == (j
        == column && row - 1 <= i <= row + 1) by {
        lemma_rows_have_width(grid, i - 1);
        lemma_rows_have_width(grid, i);
        lemma_rows_have_width(grid, i + 1);
    }
    assert(next[0].len() == grid[0].len());
    assert forall|i: int| 0 <= i < next.len() implies (#[trigger] next[i]).len()
        == next[0].len() by {
        lemma_rows_have_width(grid, i);
    }
}

/// Under the standard rule an upright blinker lies flat after one step.
pub proof fn lemma_upright_blinker_turns(
    processor: SimpleCellProcessor,
    grid: Seq<Seq<bool>>,
    row: int,
    column: int,
)
    requires
        processor.thresholds() == standard_thresholds(),
        is_upright_blinker(grid, row, column),
    ensures
        is_flat_blinker(next_generation(processor, grid), row, column),
{
    let next = next_generation(processor, grid);
    assert forall|i: int, j: int| in_bounds(next, i, j) implies #[trigger] next[i][j] == (i == row
        && column - 1 <= j <= column + 1) by {
        lemma_rows_have_width(grid, i - 1);
        lemma_rows_have_width(grid, i);
        lemma_rows_have_width(grid, i + 1);
    }
    assert(next[0].len() == grid[0].len());
    assert forall|i: int| 0 <= i < next.len() implies (#[trigger] next[i]).len()
        == next[0].len() by {
        lemma_rows_have_width(grid, i);
    }
}

/// A blinker has period two: after one step the grid differs from the
/// start, after two it is the start again.
pub proof fn lemma_blinker_has_period_two(
    processor: SimpleCellProcessor,
    grid: Seq<Seq<bool>>,
    row: int,
    column: int,
)
    requires
        processor.thresholds() == standard_thresholds(),
        is_flat_blinker(grid, row, column),
    ensures
        generation(processor, grid, 1) != grid,
        generation(processor, grid, 2) == grid,
{
    let once = next_generation(processor, grid);
    let twice = next_generation(processor, once);
    lemma_flat_blinker_turns(processor, grid, row, column);
    lemma_upright_blinker_turns(processor, once, row, column);
    assert(generation(processor, grid, 0) == grid);
    assert(generation(processor, grid, 1) == once);
    assert(generation(processor, grid, 2) == twice);
    assert(in_bounds(grid, row - 1, column));
    assert(in_bounds(once, row - 1, column));
    assert(grid[row - 1][column] != once[row - 1][column]);
    assert forall|i: int, j: int| 0 <= i < grid.len() && 0 <= j < grid[i].len() implies
        twice[i][j] == grid[i][j] by {
        assert(in_bounds(grid, i, j));
        assert(in_bounds(twice, i, j));
    }
    assert(twice =~~= grid);
}

} // verus!
