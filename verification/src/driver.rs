//! One turn of the loop that runs a simulation: a step, and then, if
//! anything has changed, the promotion of the next generation.

use vstd::prelude::*;

use crate::board::IndexedRow;
use crate::finite_board::FiniteBoard;
use crate::simple_solver::{next_generation, SimpleSolver};
use crate::solver::CellProcessor;

verus! {

/// Computes the next generation and, if it differs from the current one,
/// makes it the current one by a swap. Tells whether it did: after `false`
/// the board has reached a fixed point, and further turns change nothing.
///
/// Either way the current generation is afterwards the one that follows the
/// old one, and the other buffer holds the old one.
pub fn advance<P: CellProcessor>(solver: &SimpleSolver<P>, board: &mut FiniteBoard) -> (changed:
    bool)
    requires
        old(board).well_formed(),
    ensures
        final(board).well_formed(),
        changed == (next_generation(solver.processor(), old(board).main_grid()) != old(
            board,
        ).main_grid()),
        final(board).main_grid() == next_generation(solver.processor(), old(board).main_grid()),
        final(board).back_grid() == old(board).main_grid(),
{
    let changed = solver.next(board);
    if changed {
        board.swap();
    }
    changed
}

} // verus!
