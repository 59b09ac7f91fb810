//! A board drawn as lines of glyphs.

use vstd::prelude::*;
use vstd::string::*;

use crate::board::{IndexedRow, Render};

verus! {

/// The text of one row: for each cell its glyph, with nothing between them.
pub open spec fn row_text(row: Seq<bool>, alive: Seq<char>, dead: Seq<char>) -> Seq<char>
    decreases row.len(),
{
    if row.len() == 0 {
        Seq::empty()
    } else {
        row_text(row.drop_last(), alive, dead) + (if row.last() {
            alive
        } else {
            dead
        })
    }
}

/// The text of a grid: the texts of its rows, with a line feed between one
/// row and the next and none after the last.
pub open spec fn grid_text(grid: Seq<Seq<bool>>, alive: Seq<char>, dead: Seq<char>) -> Seq<char>
    decreases grid.len(),
{
    if grid.len() == 0 {
        Seq::empty()
    } else if grid.len() == 1 {
        row_text(grid[0], alive, dead)
    } else {
        grid_text(grid.drop_last(), alive, dead) + seq!['\n'] + row_text(grid.last(), alive, dead)
    }
}

/// The current generation of `board` as text.
pub(crate) fn draw<T: IndexedRow>(board: &T, alive_glyph: &str, dead_glyph: &str) -> (text: String)
    requires
        board.well_formed(),
    ensures
        text@ == grid_text(board.main_grid(), alive_glyph@, dead_glyph@),
{
    let ghost grid = board.main_grid();
    let mut text = String::new();
    let rows = board.row_count();
    let mut i: usize = 0;
    while i < rows
        invariant
            i <= rows,
            rows == grid.len(),
            board.well_formed(),
            grid == board.main_grid(),
            text@ == grid_text(grid.take(i as int), alive_glyph@, dead_glyph@),
        decreases rows - i,
    {
        if i > 0 {
            proof {
                reveal_strlit("\n");
            }
            text.append("\n");
            assert("\n"@ =~= seq!['\n']);
        }
        let ghost before = text@;
        let row = board.main_row(i);
        let ghost states = grid[i as int];
        let mut j: usize = 0;
        while j < row.len()
            invariant
                j <= row.len(),
                row@.len() == states.len(),
                forall|k: int| 0 <= k < row@.len() ==> (#[trigger] row@[k])@ == states[k],
                text@ == before + row_text(states.take(j as int), alive_glyph@, dead_glyph@),
            decreases row.len() - j,
        {
            if row[j].is_alive() {
                text.append(alive_glyph);
            } else {
                text.append(dead_glyph);
            }
            proof {
                let upto = states.take(j as int + 1);
                assert(upto.drop_last() =~= states.take(j as int));
                assert(upto.last() == states[j as int]);
                assert(text@ =~= before + row_text(upto, alive_glyph@, dead_glyph@));
            }
            j += 1;
        }
        proof {
            assert(states.take(j as int) =~= states);
            let upto = grid.take(i as int + 1);
            assert(upto.drop_last() =~= grid.take(i as int));
            assert(upto.last() == states);
            if i == 0 {
                assert(upto[0] == states);
                assert(before =~= Seq::<char>::empty());
                assert(text@ =~= row_text(states, alive_glyph@, dead_glyph@));
            }
        }
        i += 1;
    }
    assert(grid.take(i as int) =~= grid);
    text
}

/// Draws the current generation of a board, a glyph for each cell.
pub struct BoardRenderer<'a, T> where T: IndexedRow {
    board: &'a T,
    alive_glyph: &'a str,
    dead_glyph: &'a str,
}

impl<'a, T> BoardRenderer<'a, T> where T: IndexedRow {
    pub fn new(alive_glyph: &'a str, dead_glyph: &'a str, board: &'a T) -> (renderer: BoardRenderer<
        'a,
        T,
    >)
        ensures
            renderer.board() == *board,
            renderer.alive_glyph() == alive_glyph@,
            renderer.dead_glyph() == dead_glyph@,
    {
        BoardRenderer { board: board, alive_glyph, dead_glyph }
    }

    /// The board that is drawn.
    pub closed spec fn board(&self) -> T {
        *self.board
    }

    /// The text that stands for a live cell.
    pub closed spec fn alive_glyph(&self) -> Seq<char> {
        self.alive_glyph@
    }

    /// The text that stands for a dead cell.
    pub closed spec fn dead_glyph(&self) -> Seq<char> {
        self.dead_glyph@
    }
}

impl<'a, T> Render for BoardRenderer<'a, T> where T: IndexedRow {
    open spec fn well_formed(&self) -> bool {
        self.board().well_formed()
    }

    open spec fn frame(&self) -> Seq<char> {
        grid_text(self.board().main_grid(), self.alive_glyph(), self.dead_glyph())
    }

    fn render(&self) -> (text: String) {
        draw(self.board, self.alive_glyph, self.dead_glyph)
    }
}

} // verus!
