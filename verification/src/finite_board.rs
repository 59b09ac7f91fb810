//! A board of fixed size whose edges are walls: cells beyond them count as dead.

use vstd::prelude::*;

use crate::automata::AutomataCell;
use crate::board::{Board, BoardError, IndexedRow};
use crate::grid::{
    count_alive, grid_states, height, in_bounds, is_rectangular, lemma_count_alive_neighbors,
    lemma_live_neighbors_bounds, neighbor_positions, position_if_inside, row_states, width,
};

verus! {

/// Two buffers of one shape and a selector that says which of them holds the
/// current generation. The other receives the next one.
pub struct FiniteBoard {
    width: usize,
    height: usize,
    buffers: [Vec<Vec<AutomataCell>>; 2],
    main_buffer: usize,
    back_buffer: usize,
}

/// The positions of a list of coordinates, as mathematical integers.
spec fn positions(coords: Seq<(usize, usize)>) -> Seq<(int, int)> {
    coords.map_values(|c: (usize, usize)| (c.0 as int, c.1 as int))
}

/// Whether every row of `grid` is as long as the first, and there is a first
/// row with a first cell.
fn has_uniform_rows(grid: &Vec<Vec<AutomataCell>>) -> (uniform: bool)
    ensures
        uniform == is_rectangular(grid_states(grid@)),
{
    if grid.len() == 0 {
        return false;
    }
    let width = grid[0].len();
    if width == 0 {
        return false;
    }
    let ghost states = grid_states(grid@);
    let mut i: usize = 1;
    while i < grid.len()
        invariant
            1 <= i <= grid.len(),
            states == grid_states(grid@),
            width == states[0].len(),
            width > 0,
            forall|k: int| 0 <= k < i ==> (#[trigger] states[k]).len() == width,
        decreases grid.len() - i,
    {
        if grid[i].len() != width {
            assert(states[i as int].len() != states[0].len());
            return false;
        }
        i += 1;
    }
    true
}

/// A copy of `grid`, cell by cell.
fn copy_grid(grid: &Vec<Vec<AutomataCell>>) -> (copy: Vec<Vec<AutomataCell>>)
    ensures
        grid_states(copy@) == grid_states(grid@),
        copy@.len() == grid@.len(),
        forall|i: int| 0 <= i < grid@.len() ==> (#[trigger] copy@[i])@.len() == grid@[i]@.len(),
{
    let mut copy: Vec<Vec<AutomataCell>> = Vec::new();
    let mut i: usize = 0;
    while i < grid.len()
        invariant
            i <= grid.len(),
            copy@.len() == i,
            forall|k: int|
                0 <= k < i ==> row_states((#[trigger] copy@[k])@) == row_states(grid@[k]@),
            forall|k: int| 0 <= k < i ==> (#[trigger] copy@[k])@.len() == grid@[k]@.len(),
        decreases grid.len() - i,
    {
        let source = &grid[i];
        let mut row: Vec<AutomataCell> = Vec::new();
        let mut j: usize = 0;
        while j < source.len()
            invariant
                j <= source.len(),
                row@.len() == j,
                forall|k: int| 0 <= k < j ==> (#[trigger] row@[k])@ == source@[k]@,
            decreases source.len() - j,
        {
            row.push(AutomataCell::new(source[j].is_alive()));
            j += 1;
        }
        assert(row_states(row@) =~= row_states(source@));
        copy.push(row);
        i += 1;
    }
    assert(grid_states(copy@) =~= grid_states(grid@));
    copy
}

/// `x + delta` if it lies in `0..limit`.
fn shifted(x: usize, delta: i8, limit: usize) -> (moved: Option<usize>)
    requires
        -1 <= delta <= 1,
    ensures
        moved == if 0 <= x + delta < limit {
            Some((x + delta) as usize)
        } else {
            None
        },
{
    if delta < 0 {
        if x >= 1 && x - 1 < limit {
            Some(x - 1)
        } else {
            None
        }
    } else if delta == 0 {
        if x < limit {
            Some(x)
        } else {
            None
        }
    } else {
        if limit >= 1 && x < limit - 1 {
            Some(x + 1)
        } else {
            None
        }
    }
}

impl FiniteBoard {
    /// Both buffers start as `grid`, the first of them as the current
    /// generation. A matrix that is not rectangular is refused.
    pub fn new(grid: Vec<Vec<AutomataCell>>) -> (result: Result<FiniteBoard, BoardError>)
        ensures
            result is Ok <==> is_rectangular(grid_states(grid@)),
            result is Err ==> result == Err::<FiniteBoard, BoardError>(BoardError::ShapeMismatch),
            result matches Ok(board) ==> {
                &&& board.well_formed()
                &&& board.main_grid() == grid_states(grid@)
                &&& board.back_grid() == grid_states(grid@)
                &&& board.main_index() == 0
            },
    {
        if !has_uniform_rows(&grid) {
            return Err(BoardError::ShapeMismatch);
        }
        let width = grid[0].len();
        let height = grid.len();
        let copy = copy_grid(&grid);
        let board = FiniteBoard {
            width,
            height,
            buffers: [copy, grid],
            main_buffer: 0,
            back_buffer: 1,
        };
        proof {
            let states = grid_states(grid@);
            assert forall|i: int| 0 <= i < height implies (#[trigger] board.buffers@[1]@[i])@.len()
                == width by {
                assert(states[i].len() == states[0].len());
            }
            assert forall|i: int| 0 <= i < height implies (#[trigger] board.buffers@[0]@[i])@.len()
                == width by {
                assert(states[i].len() == states[0].len());
            }
        }
        Ok(board)
    }

    /// Which of the two buffers holds the current generation: 0 or 1.
    pub closed spec fn main_index(&self) -> int {
        self.main_buffer as int
    }

    /// The states of the cells of buffer `k`, whatever its role.
    pub closed spec fn buffer_grid(&self, k: int) -> Seq<Seq<bool>> {
        grid_states(self.buffers@[k]@)
    }

    /// Buffer `k` has the board's height and width.
    closed spec fn buffer_fits(&self, k: int) -> bool {
        &&& self.buffers@[k]@.len() == self.height
        &&& forall|i: int|
            0 <= i < self.height ==> (#[trigger] self.buffers@[k]@[i])@.len() == self.width
    }

    /// The board after the two buffers have traded roles.
    pub closed spec fn swapped(self) -> FiniteBoard {
        FiniteBoard {
            main_buffer: ((self.main_buffer + 1) % 2) as usize,
            back_buffer: ((self.back_buffer + 1) % 2) as usize,
            ..self
        }
    }

    /// Every one of `coords` lies on the board.
    closed spec fn all_on_board(&self, coords: Seq<(usize, usize)>) -> bool {
        forall|k: int|
            0 <= k < coords.len() ==> (#[trigger] coords[k]).0 < self.height && coords[k].1
                < self.width
    }

    /// The current generation has the board's height and width.
    proof fn lemma_dimensions(&self)
        requires
            self.well_formed(),
        ensures
            height(self.main_grid()) == self.height,
            width(self.main_grid()) == self.width,
            forall|i: int|
                0 <= i < self.height ==> (#[trigger] self.main_grid()[i]).len() == self.width,
    {
    }

    /// Appends the position `down` rows below and `right` columns right of
    /// row `i`, column `j`, if it lies on the board.
    fn push_if_inside(
        &self,
        coords: &mut Vec<(usize, usize)>,
        i: usize,
        j: usize,
        down: i8,
        right: i8,
    )
        requires
            self.well_formed(),
            -1 <= down <= 1,
            -1 <= right <= 1,
            self.all_on_board(old(coords)@),
        ensures
            self.all_on_board(final(coords)@),
            positions(final(coords)@) == positions(old(coords)@) + position_if_inside(
                self.height as nat,
                self.width as nat,
                i + down,
                j + right,
            ),
    {
        match (shifted(i, down, self.height), shifted(j, right, self.width)) {
            (Some(row), Some(column)) => {
                coords.push((row, column));
            },
            _ => {},
        }
        assert(positions(coords@) =~= positions(old(coords)@) + position_if_inside(
            self.height as nat,
            self.width as nat,
            i + down,
            j + right,
        ));
    }

    /// The positions around row `i`, column `j` that lie on the board.
    fn neighbors_coords(&self, i: usize, j: usize) -> (coords: Vec<(usize, usize)>)
        requires
            self.well_formed(),
        ensures
            positions(coords@) == neighbor_positions(
                height(self.main_grid()),
                width(self.main_grid()),
                i as int,
                j as int,
            ),
            forall|k: int|
                0 <= k < coords@.len() ==> in_bounds(
                    self.main_grid(),
                    (#[trigger] coords@[k]).0 as int,
                    coords@[k].1 as int,
                ),
    {
        let mut coords: Vec<(usize, usize)> = Vec::new();
        proof {
            self.lemma_dimensions();
            assert(positions(coords@) =~= Seq::<(int, int)>::empty());
            assert(Seq::<(int, int)>::empty() + position_if_inside(
                self.height as nat,
                self.width as nat,
                i - 1,
                j - 1,
            ) =~= position_if_inside(self.height as nat, self.width as nat, i - 1, j - 1));
        }
        self.push_if_inside(&mut coords, i, j, -1, -1);
        self.push_if_inside(&mut coords, i, j, 0, -1);
        self.push_if_inside(&mut coords, i, j, 1, -1);
        self.push_if_inside(&mut coords, i, j, -1, 0);
        self.push_if_inside(&mut coords, i, j, 1, 0);
        self.push_if_inside(&mut coords, i, j, -1, 1);
        self.push_if_inside(&mut coords, i, j, 0, 1);
        self.push_if_inside(&mut coords, i, j, 1, 1);
        coords
    }

    /// Trading roles leaves every cell of both buffers as it was, and trading
    /// twice gives back the board as it was: the buffer that was current is
    /// current again.
    pub proof fn lemma_swap_twice(self)
        requires
            self.well_formed(),
        ensures
            self.swapped().well_formed(),
            self.swapped().main_index() == 1 - self.main_index(),
            self.swapped().main_grid() == self.back_grid(),
            self.swapped().back_grid() == self.main_grid(),
            self.swapped().buffer_grid(0) == self.buffer_grid(0),
            self.swapped().buffer_grid(1) == self.buffer_grid(1),
            self.swapped().swapped() == self,
    {
    }

    /// The two buffers trade roles. No cell is touched.
    pub fn swap(&mut self)
        requires
            old(self).well_formed(),
        ensures
            *final(self) == old(self).swapped(),
            final(self).well_formed(),
            final(self).main_grid() == old(self).back_grid(),
            final(self).back_grid() == old(self).main_grid(),
            final(self).buffer_grid(0) == old(self).buffer_grid(0),
            final(self).buffer_grid(1) == old(self).buffer_grid(1),
    {
        self.main_buffer = (self.main_buffer + 1) % 2;
        self.back_buffer = (self.back_buffer + 1) % 2;
    }
}

impl IndexedRow for FiniteBoard {
    closed spec fn well_formed(&self) -> bool {
        &&& self.height > 0
        &&& self.width > 0
        &&& self.main_buffer < 2
        &&& self.back_buffer == 1 - self.main_buffer
        &&& self.buffer_fits(0)
        &&& self.buffer_fits(1)
    }

    closed spec fn main_grid(&self) -> Seq<Seq<bool>> {
        self.buffer_grid(self.main_buffer as int)
    }

    closed spec fn back_grid(&self) -> Seq<Seq<bool>> {
        self.buffer_grid(self.back_buffer as int)
    }

    proof fn lemma_shape(&self) {
    }

    fn row_count(&self) -> (count: usize) {
        self.height
    }

    fn main_row(&self, i: usize) -> (row: &Vec<AutomataCell>) {
        &self.buffers[self.main_buffer][i]
    }

    fn back_row(&self, i: usize) -> (row: &Vec<AutomataCell>) {
        &self.buffers[self.back_buffer][i]
    }

    fn set_back_cell(&mut self, i: usize, j: usize, cell: AutomataCell) {
        self.buffers[self.back_buffer][i][j] = cell;
        proof {
            assert(final(self).back_grid() =~~= old(self).back_grid().update(
                i as int,
                old(self).back_grid()[i as int].update(j as int, cell@),
            ));
            assert(final(self).main_grid() =~~= old(self).main_grid());
        }
    }
}

impl Board for FiniteBoard {
    fn count_alive_neighbors(&self, i: usize, j: usize) -> (count: usize)
        ensures
            count <= 8,
            (i == 0 || i == height(self.main_grid()) - 1 || j == 0 || j == width(self.main_grid())
                - 1) ==> count <= 5,
            (i == 0 || i == height(self.main_grid()) - 1) && (j == 0 || j == width(self.main_grid())
                - 1) ==> count <= 3,
    {
        let coords = self.neighbors_coords(i, j);
        let ghost grid = self.main_grid();
        let mut count: usize = 0;
        let mut k: usize = 0;
        proof {
            self.lemma_shape();
        }
        while k < coords.len()
            invariant
                k <= coords.len(),
                self.well_formed(),
                grid == self.main_grid(),
                is_rectangular(grid),
                positions(coords@) == neighbor_positions(
                    height(grid),
                    width(grid),
                    i as int,
                    j as int,
                ),
                forall|n: int|
                    0 <= n < coords@.len() ==> in_bounds(
                        grid,
                        (#[trigger] coords@[n]).0 as int,
                        coords@[n].1 as int,
                    ),
                count == count_alive(grid, positions(coords@).take(k as int)),
                count <= k,
            decreases coords.len() - k,
        {
            let (row, column) = coords[k];
            proof {
                let sofar = positions(coords@).take(k as int + 1);
                assert(sofar.drop_last() =~= positions(coords@).take(k as int));
                assert(sofar.last() == (row as int, column as int));
                assert(positions(coords@)[k as int] == (row as int, column as int));
            }
            if self.is_alive(row, column) {
                count += 1;
            }
            k += 1;
        }
        proof {
            assert(positions(coords@).take(k as int) =~= positions(coords@));
            lemma_count_alive_neighbors(grid, i as int, j as int);
            lemma_live_neighbors_bounds(grid, i as int, j as int);
        }
        count
    }

    fn is_alive(&self, i: usize, j: usize) -> (alive: bool) {
        self.main_row(i)[j].is_alive()
    }
}

} // verus!
