//! What a board offers to the code that steps and draws it.

use vstd::prelude::*;

use crate::automata::AutomataCell;
use crate::grid::{is_rectangular, live_neighbors, row_states, same_shape};

verus! {

/// Why a board could not be built.
#[derive(Clone, Copy, Debug, PartialEq, Eq, Structural)]
pub enum BoardError {
    /// The matrix has no row, or no column, or rows of different lengths.
    ShapeMismatch,
}

/// Access by row to the two buffers of a board: the current generation and
/// the one being written.
pub trait IndexedRow {
    /// The board's own invariant.
    spec fn well_formed(&self) -> bool;

    /// The current generation.
    spec fn main_grid(&self) -> Seq<Seq<bool>>;

    /// The buffer that receives the next generation.
    spec fn back_grid(&self) -> Seq<Seq<bool>>;

    /// Both buffers of a well-formed board are rectangular and of one shape.
    proof fn lemma_shape(&self)
        requires
            self.well_formed(),
        ensures
            is_rectangular(self.main_grid()),
            same_shape(self.main_grid(), self.back_grid()),
    ;

    /// The number of rows.
    fn row_count(&self) -> (count: usize)
        requires
            self.well_formed(),
        ensures
            count == self.main_grid().len(),
    ;

    /// Row `i` of the current generation.
    fn main_row(&self, i: usize) -> (row: &Vec<AutomataCell>)
        requires
            self.well_formed(),
            i < self.main_grid().len(),
        ensures
            row_states(row@) == self.main_grid()[i as int],
    ;

    /// Row `i` of the buffer that receives the next generation.
    fn back_row(&self, i: usize) -> (row: &Vec<AutomataCell>)
        requires
            self.well_formed(),
            i < self.back_grid().len(),
        ensures
            row_states(row@) == self.back_grid()[i as int],
    ;

    /// Stores `cell` in the next generation at row `i`, column `j`. Nothing
    /// else on the board changes.
    fn set_back_cell(&mut self, i: usize, j: usize, cell: AutomataCell)
        requires
            old(self).well_formed(),
            i < old(self).back_grid().len(),
            j < old(self).back_grid()[i as int].len(),
        ensures
            final(self).well_formed(),
            final(self).main_grid() == old(self).main_grid(),
            final(self).back_grid() == old(self).back_grid().update(
                i as int,
                old(self).back_grid()[i as int].update(j as int, cell@),
            ),
    ;
}

/// Queries on the current generation.
pub trait Board: IndexedRow {
    /// The number of live cells among the up to eight cells around row `i`,
    /// column `j`. Positions beyond the edges hold no cell: nothing wraps
    /// around.
    fn count_alive_neighbors(&self, i: usize, j: usize) -> (count: usize)
        requires
            self.well_formed(),
        ensures
            count == live_neighbors(self.main_grid(), i as int, j as int),
    ;

    /// The state of the cell at row `i`, column `j`, which must lie on the
    /// board.
    fn is_alive(&self, i: usize, j: usize) -> (alive: bool)
        requires
            self.well_formed(),
            i < self.main_grid().len(),
            j < self.main_grid()[i as int].len(),
        ensures
            alive == self.main_grid()[i as int][j as int],
    ;
}

/// Something that can be drawn as text. The text is handed back, for the
/// caller to print.
pub trait Render {
    /// What the renderer needs of the board it draws.
    spec fn well_formed(&self) -> bool;

    /// The text of the drawing.
    spec fn frame(&self) -> Seq<char>;

    /// The drawing, as text.
    fn render(&self) -> (text: String)
        requires
            self.well_formed(),
        ensures
            text@ == self.frame(),
    ;
}

} // verus!
