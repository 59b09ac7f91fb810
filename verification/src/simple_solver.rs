//! The driver of one generation.

use vstd::prelude::*;

use crate::automata::AutomataCell;
use crate::board::{Board, IndexedRow};
use crate::grid::{is_rectangular, live_neighbors, same_shape};
use crate::solver::CellProcessor;

verus! {

/// The generation that follows `grid` under `processor`: every cell decided
/// from `grid` alone, so that no decision sees another.
pub open spec fn next_generation<P: CellProcessor>(processor: P, grid: Seq<Seq<bool>>) -> Seq<
    Seq<bool>,
> {
    Seq::new(
        grid.len(),
        |i: int|
            Seq::new(
                grid[i].len(),
                |j: int| processor.decide(grid[i][j], live_neighbors(grid, i, j), 0),
            ),
    )
}

/// The cell at row `i`, column `j` differs between the two grids.
pub open spec fn differs_at(a: Seq<Seq<bool>>, b: Seq<Seq<bool>>, i: int, j: int) -> bool {
    a[i][j] != b[i][j]
}

/// Steps a board with one rule.
pub struct SimpleSolver<P: CellProcessor> {
    processor: P,
}

impl<P: CellProcessor> SimpleSolver<P> {
    pub fn new(processor: P) -> (solver: SimpleSolver<P>)
        ensures
            solver.processor() == processor,
    {
        SimpleSolver { processor }
    }

    /// The rule that the solver applies.
    pub closed spec fn processor(&self) -> P {
        self.processor
    }

    /// Computes the next generation from the current one and writes it into
    /// the other buffer. The current generation is left as it is, and the
    /// buffers do not trade roles. Tells whether any cell has changed.
    pub fn next<T: Board + IndexedRow>(&self, board: &mut T) -> (modified: bool)
        requires
            old(board).well_formed(),
        ensures
            final(board).well_formed(),
            final(board).main_grid() == old(board).main_grid(),
            final(board).back_grid() == next_generation(self.processor(), old(board).main_grid()),
            modified == (final(board).back_grid() != final(board).main_grid()),
    {
        let ghost current = board.main_grid();
        let ghost target = next_generation(self.processor, current);
        proof {
            board.lemma_shape();
        }
        let mut modified = false;
        let rows = board.row_count();
        let mut i: usize = 0;
        while i < rows
            invariant
                i <= rows,
                rows == current.len(),
                board.well_formed(),
                board.main_grid() == current,
                is_rectangular(current),
                same_shape(current, board.back_grid()),
                target == next_generation(self.processor, current),
                forall|r: int, c: int|
                    0 <= r < i && 0 <= c < current[r].len() ==> #[trigger] board.back_grid()[r][c]
                        == target[r][c],
                modified <==> exists|r: int, c: int|
                    0 <= r < i && 0 <= c < current[r].len() && #[trigger] differs_at(
                        target,
                        current,
                        r,
                        c,
                    ),
            decreases rows - i,
        {
            let columns = board.main_row(i).len();
            let mut j: usize = 0;
            while j < columns
                invariant
                    i < rows,
                    j <= columns,
                    rows == current.len(),
                    columns == current[i as int].len(),
                    board.well_formed(),
                    board.main_grid() == current,
                    is_rectangular(current),
                    same_shape(current, board.back_grid()),
                    target == next_generation(self.processor, current),
                    forall|r: int, c: int|
                        0 <= r < i && 0 <= c < current[r].len()
                            ==> #[trigger] board.back_grid()[r][c] == target[r][c],
                    forall|c: int|
                        0 <= c < j ==> #[trigger] board.back_grid()[i as int][c]
                            == target[i as int][c],
                    modified <==> exists|r: int, c: int|
                        (0 <= r < i && 0 <= c < current[r].len() || r == i && 0 <= c < j)
                            && #[trigger] differs_at(target, current, r, c),
                decreases columns - j,
            {
                let alive_neighbors = board.count_alive_neighbors(i, j);
                let main_cell: AutomataCell = board.main_row(i)[j];
                let mut back_cell: AutomataCell = board.back_row(i)[j];
                if self.processor.process(&main_cell, &mut back_cell, alive_neighbors, 0) {
                    modified = true;
                }
                board.set_back_cell(i, j, back_cell);
                proof {
                    assert(back_cell@ == target[i as int][j as int]);
                    assert(differs_at(target, current, i as int, j as int) == (back_cell@
                        != main_cell@));
                }
                j += 1;
            }
            i += 1;
        }
        proof {
            assert(board.back_grid() =~~= target);
            if !modified {
                assert forall|r: int, c: int|
                    0 <= r < target.len() && 0 <= c < target[r].len() implies target[r][c]
                    == current[r][c] by {
                    assert(!differs_at(target, current, r, c));
                }
                assert(target =~~= current);
            } else {
                let (r, c) = choose|r: int, c: int|
                    0 <= r < i && 0 <= c < current[r].len() && #[trigger] differs_at(
                        target,
                        current,
                        r,
                        c,
                    );
                assert(target[r][c] != current[r][c]);
            }
        }
        modified
    }
}

} // verus!
