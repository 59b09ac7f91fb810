//! A board drawn over the last drawing: the cursor is sent to the upper left
//! corner of the terminal first.

use vstd::prelude::*;
use vstd::string::*;

use crate::board::{IndexedRow, Render};
use crate::board_renderer::{draw, grid_text};

verus! {

/// The numeral of a number below ten.
pub open spec fn digit(n: nat) -> char {
    seq!['0', '1', '2', '3', '4', '5', '6', '7', '8', '9'][n as int]
}

/// A number written in base ten, without leading zeros.
pub open spec fn decimal(n: nat) -> Seq<char>
    decreases n,
{
    if n < 10 {
        seq![digit(n)]
    } else {
        decimal(n / 10) + seq![digit(n % 10)]
    }
}

/// The escape sequence that sends the cursor to column `x` of line `y`, both
/// counted from 1: escape, `[`, the line, `;`, the column, `H`.
pub open spec fn goto_sequence(x: u16, y: u16) -> Seq<char> {
    seq!['\u{1b}', '['] + decimal(y as nat) + seq![';'] + decimal(x as nat) + seq!['H']
}

/// What `termion::cursor::Goto(x, y)` writes when it is formatted: the
/// escape sequence above. Not proved: the contract is read off termion's
/// `Display` impl for `Goto`, which writes the line before the column and
/// refuses, in a debug build, the position `(0, 0)`.
#[verifier::external_body]
fn goto_text(x: u16, y: u16) -> (text: String)
    requires
        x != 0 || y != 0,
    ensures
        text@ == goto_sequence(x, y),
{
    format!("{}", termion::cursor::Goto(x, y))
}

/// The sequence that sends the cursor home is escape, `[1;1H`.
pub proof fn lemma_home_sequence()
    ensures
        goto_sequence(1, 1) == seq!['\u{1b}', '[', '1', ';', '1', 'H'],
{
    assert(decimal(1) =~= seq!['1']);
    assert(goto_sequence(1, 1) =~= seq!['\u{1b}', '[', '1', ';', '1', 'H']);
}

/// Draws the current generation of a board from the upper left corner of the
/// terminal on.
pub struct ConsoleRenderer<'a, T> where T: IndexedRow {
    board: &'a T,
    alive_glyph: &'a str,
    dead_glyph: &'a str,
}

impl<'a, T> ConsoleRenderer<'a, T> where T: IndexedRow {
    pub fn new(alive_glyph: &'a str, dead_glyph: &'a str, board: &'a T) -> (renderer:
        ConsoleRenderer<'a, T>)
        ensures
            renderer.board() == *board,
            renderer.alive_glyph() == alive_glyph@,
            renderer.dead_glyph() == dead_glyph@,
    {
        ConsoleRenderer { board: board, alive_glyph, dead_glyph }
    }

    /// The board that is drawn.
    pub closed spec fn board(&self) -> T {
        *self.board
    }

    /// The text that stands for a live cell.
    pub closed spec fn alive_glyph(&self) -> Seq<char> {
        self.alive_glyph@
    }

    /// The text that stands for a dead cell.
    pub closed spec fn dead_glyph(&self) -> Seq<char> {
        self.dead_glyph@
    }
}

impl<'a, T> Render for ConsoleRenderer<'a, T> where T: IndexedRow {
    open spec fn well_formed(&self) -> bool {
        self.board().well_formed()
    }

    /// The way home, a line feed, and the board.
    open spec fn frame(&self) -> Seq<char> {
        goto_sequence(1, 1) + seq!['\n'] + grid_text(
            self.board().main_grid(),
            self.alive_glyph(),
            self.dead_glyph(),
        )
    }

    fn render(&self) -> (text: String) {
        let mut text = goto_text(1, 1);
        proof {
            reveal_strlit("\n");
        }
        text.append("\n");
        assert("\n"@ =~= seq!['\n']);
        let body = draw(self.board, self.alive_glyph, self.dead_glyph);
        text.append(body.as_str());
        text
    }
}

} // verus!
