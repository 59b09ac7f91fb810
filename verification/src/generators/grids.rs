//! The named patterns, as matrices of 0 and 1, and the tools that turn them
//! into grids of cells and put one grid onto another.

use vstd::prelude::*;

use crate::automata::AutomataCell;
use crate::grid::{grid_states, row_states, width};

verus! {

pub const STILL_BLOCK_MIN_WIDTH: usize = 4;

pub const STILL_BLOCK_MIN_HEIGHT: usize = 4;

/// The block: four live cells in a square, with a dead frame around them.
pub const STILL_BLOCK_GRID: [[u8; STILL_BLOCK_MIN_WIDTH]; STILL_BLOCK_MIN_HEIGHT] = [
    [0, 0, 0, 0],
    [0, 1, 1, 0],
    [0, 1, 1, 0],
    [0, 0, 0, 0],
];

pub const GOSPER_GLIDER_GUN_MIN_WIDTH: usize = 38;

pub const GOSPER_GLIDER_GUN_MIN_HEIGHT: usize = 12;

/// Gosper's glider gun, with a dead frame around it.
pub const GOSPER_GLIDER_GUN_GRID: [[u8; GOSPER_GLIDER_GUN_MIN_WIDTH]; GOSPER_GLIDER_GUN_MIN_HEIGHT] = [
    [0, 0, 0, 0, 0, 0, 0, 0, 0, 0, 0, 0, 0, 0, 0, 0, 0, 0, 0, 0, 0, 0, 0, 0, 0, 0, 0, 0, 0, 0, 0, 0, 0, 0, 0, 0, 0, 0],
    [0, 0, 0, 0, 0, 0, 0, 0, 0, 0, 0, 0, 0, 0, 0, 0, 0, 0, 0, 0, 0, 0, 0, 0, 0, 1, 0, 0, 0, 0, 0, 0, 0, 0, 0, 0, 0, 0],
    [0, 0, 0, 0, 0, 0, 0, 0, 0, 0, 0, 0, 0, 0, 0, 0, 0, 0, 0, 0, 0, 0, 0, 1, 0, 1, 0, 0, 0, 0, 0, 0, 0, 0, 0, 0, 0, 0],
    [0, 0, 0, 0, 0, 0, 0, 0, 0, 0, 0, 0, 0, 1, 1, 0, 0, 0, 0, 0, 0, 1, 1, 0, 0, 0, 0, 0, 0, 0, 0, 0, 0, 0, 0, 1, 1, 0],
    [0, 0, 0, 0, 0, 0, 0, 0, 0, 0, 0, 0, 1, 0, 0, 0, 1, 0, 0, 0, 0, 1, 1, 0, 0, 0, 0, 0, 0, 0, 0, 0, 0, 0, 0, 1, 1, 0],
    [0, 1, 1, 0, 0, 0, 0, 0, 0, 0, 0, 1, 0, 0, 0, 0, 0, 1, 0, 0, 0, 1, 1, 0, 0, 0, 0, 0, 0, 0, 0, 0, 0, 0, 0, 0, 0, 0],
    [0, 1, 1, 0, 0, 0, 0, 0, 0, 0, 0, 1, 0, 0, 0, 1, 0, 1, 1, 0, 0, 0, 0, 1, 0, 1, 0, 0, 0, 0, 0, 0, 0, 0, 0, 0, 0, 0],
    [0, 0, 0, 0, 0, 0, 0, 0, 0, 0, 0, 1, 0, 0, 0, 0, 0, 1, 0, 0, 0, 0, 0, 0, 0, 1, 0, 0, 0, 0, 0, 0, 0, 0, 0, 0, 0, 0],
    [0, 0, 0, 0, 0, 0, 0, 0, 0, 0, 0, 0, 1, 0, 0, 0, 1, 0, 0, 0, 0, 0, 0, 0, 0, 0, 0, 0, 0, 0, 0, 0, 0, 0, 0, 0, 0, 0],
    [0, 0, 0, 0, 0, 0, 0, 0, 0, 0, 0, 0, 0, 1, 1, 0, 0, 0, 0, 0, 0, 0, 0, 0, 0, 0, 0, 0, 0, 0, 0, 0, 0, 0, 0, 0, 0, 0],
    [0, 0, 0, 0, 0, 0, 0, 0, 0, 0, 0, 0, 0, 0, 0, 0, 0, 0, 0, 0, 0, 0, 0, 0, 0, 0, 0, 0, 0, 0, 0, 0, 0, 0, 0, 0, 0, 0],
    [0, 0, 0, 0, 0, 0, 0, 0, 0, 0, 0, 0, 0, 0, 0, 0, 0, 0, 0, 0, 0, 0, 0, 0, 0, 0, 0, 0, 0, 0, 0, 0, 0, 0, 0, 0, 0, 0],
];

pub const DIEHARD_MIN_WIDTH: usize = 10;

pub const DIEHARD_MIN_HEIGHT: usize = 5;

/// Diehard, with a dead frame around it.
pub const DIEHARD_GRID: [[u8; DIEHARD_MIN_WIDTH]; DIEHARD_MIN_HEIGHT] = [
    [0, 0, 0, 0, 0, 0, 0, 0, 0, 0],
    [0, 0, 0, 0, 0, 0, 0, 1, 0, 0],
    [0, 1, 1, 0, 0, 0, 0, 0, 0, 0],
    [0, 0, 1, 0, 0, 0, 1, 1, 1, 0],
    [0, 0, 0, 0, 0, 0, 0, 0, 0, 0],
];

pub const ACORN_MIN_WIDTH: usize = 9;

pub const ACORN_MIN_HEIGHT: usize = 5;

/// The acorn, with a dead frame around it.
pub const ACORN_GRID: [[u8; ACORN_MIN_WIDTH]; ACORN_MIN_HEIGHT] = [
    [0, 0, 0, 0, 0, 0, 0, 0, 0],
    [0, 0, 1, 0, 0, 0, 0, 0, 0],
    [0, 0, 0, 0, 1, 0, 0, 0, 0],
    [0, 1, 1, 0, 0, 1, 1, 1, 0],
    [0, 0, 0, 0, 0, 0, 0, 0, 0],
];

pub const PENTA_DECATHLON_MIN_WIDTH: usize = 11;

pub const PENTA_DECATHLON_MIN_HEIGHT: usize = 18;

/// The penta-decathlon, with room around it to swing.
pub const PENTA_DECATHLON_GRID: [[u8; PENTA_DECATHLON_MIN_WIDTH]; PENTA_DECATHLON_MIN_HEIGHT] = [
    [0, 0, 0, 0, 0, 0, 0, 0, 0, 0, 0],
    [0, 0, 0, 0, 0, 0, 0, 0, 0, 0, 0],
    [0, 0, 0, 0, 0, 0, 0, 0, 0, 0, 0],
    [0, 0, 0, 0, 0, 0, 0, 0, 0, 0, 0],
    [0, 0, 0, 0, 0, 1, 0, 0, 0, 0, 0],
    [0, 0, 0, 0, 0, 1, 0, 0, 0, 0, 0],
    [0, 0, 0, 0, 1, 0, 1, 0, 0, 0, 0],
    [0, 0, 0, 0, 0, 1, 0, 0, 0, 0, 0],
    [0, 0, 0, 0, 0, 1, 0, 0, 0, 0, 0],
    [0, 0, 0, 0, 0, 1, 0, 0, 0, 0, 0],
    [0, 0, 0, 0, 0, 1, 0, 0, 0, 0, 0],
    [0, 0, 0, 0, 1, 0, 1, 0, 0, 0, 0],
    [0, 0, 0, 0, 0, 1, 0, 0, 0, 0, 0],
    [0, 0, 0, 0, 0, 1, 0, 0, 0, 0, 0],
    [0, 0, 0, 0, 0, 0, 0, 0, 0, 0, 0],
    [0, 0, 0, 0, 0, 0, 0, 0, 0, 0, 0],
    [0, 0, 0, 0, 0, 0, 0, 0, 0, 0, 0],
    [0, 0, 0, 0, 0, 0, 0, 0, 0, 0, 0],
];

/// The states that a matrix of numbers stands for: a cell is alive where the
/// number is not 0.
pub open spec fn matrix_states<const W: usize, const H: usize>(matrix: [[u8; W]; H]) -> Seq<
    Seq<bool>,
> {
    Seq::new(H as nat, |i: int| Seq::new(W as nat, |j: int| matrix@[i]@[j] != 0))
}

/// A grid of `rows` by `columns` dead cells.
pub open spec fn blank(columns: nat, rows: nat) -> Seq<Seq<bool>> {
    Seq::new(rows, |i: int| Seq::new(columns, |j: int| false))
}

/// `object` can be put onto `canvas` with its upper left cell at row `di`,
/// column `dj`: it has a first row, no row of it is shorter than the first,
/// and the part of it that is as wide as the first row lies on the canvas.
/// Where the first row is empty nothing is put, and `dj` is free.
pub open spec fn fits(canvas: Seq<Seq<bool>>, object: Seq<Seq<bool>>, di: int, dj: int) -> bool {
    &&& object.len() > 0
    &&& forall|i: int| 0 <= i < object.len() ==> (#[trigger] object[i]).len() >= object[0].len()
    &&& 0 <= di
    &&& di + object.len() <= canvas.len()
    &&& object[0].len() > 0 ==> {
        &&& 0 <= dj
        &&& forall|i: int|
            0 <= i < object.len() ==> dj + object[0].len() <= (#[trigger] canvas[di + i]).len()
    }
}

/// `canvas` with `object` put onto it, the upper left cell of `object` at row
/// `di`, column `dj`. Of each row of `object` as many cells are taken as the
/// first row has. All other cells of `canvas` stay.
pub open spec fn pasted(canvas: Seq<Seq<bool>>, object: Seq<Seq<bool>>, di: int, dj: int) -> Seq<
    Seq<bool>,
> {
    Seq::new(
        canvas.len(),
        |i: int|
            Seq::new(
                canvas[i].len(),
                |j: int|
                    if di <= i < di + object.len() && dj <= j < dj + width(object) {
                        object[i - di][j - dj]
                    } else {
                        canvas[i][j]
                    },
            ),
    )
}

/// A flat list of states read as a grid of `rows` by `columns`, row by row.
pub open spec fn in_rows(states: Seq<bool>, columns: nat, rows: nat) -> Seq<Seq<bool>> {
    Seq::new(rows, |i: int| Seq::new(columns, |j: int| states[i * columns + j]))
}

/// A grid of cells from a matrix of numbers: alive where the number is not 0.
pub fn to_vec<const W: usize, const H: usize>(grid: &[[u8; W]; H]) -> (cells: Vec<
    Vec<AutomataCell>,
>)
    ensures
        grid_states(cells@) == matrix_states(*grid),
{
    let mut cells: Vec<Vec<AutomataCell>> = Vec::new();
    let mut i: usize = 0;
    while i < H
        invariant
            i <= H,
            cells@.len() == i,
            forall|k: int|
                0 <= k < i ==> row_states((#[trigger] cells@[k])@) == matrix_states(*grid)[k],
        decreases H - i,
    {
        let mut row: Vec<AutomataCell> = Vec::new();
        let mut j: usize = 0;
        while j < W
            invariant
                i < H,
                j <= W,
                row@.len() == j,
                forall|k: int| 0 <= k < j ==> (#[trigger] row@[k])@ == (grid@[i as int]@[k] != 0),
            decreases W - j,
        {
            row.push(AutomataCell::from(grid[i][j]));
            j += 1;
        }
        assert(row_states(row@) =~= matrix_states(*grid)[i as int]);
        cells.push(row);
        i += 1;
    }
    assert(grid_states(cells@) =~= matrix_states(*grid));
    cells
}

/// A grid of `height` rows of `width` dead cells.
pub fn create(width: usize, height: usize) -> (grid: Vec<Vec<AutomataCell>>)
    ensures
        grid_states(grid@) == blank(width as nat, height as nat),
{
    let mut grid: Vec<Vec<AutomataCell>> = Vec::new();
    let mut i: usize = 0;
    while i < height
        invariant
            i <= height,
            grid@.len() == i,
            forall|k: int|
                0 <= k < i ==> row_states((#[trigger] grid@[k])@) == Seq::new(
                    width as nat,
                    |j: int| false,
                ),
        decreases height - i,
    {
        let mut row: Vec<AutomataCell> = Vec::new();
        let mut j: usize = 0;
        while j < width
            invariant
                j <= width,
                row@.len() == j,
                forall|k: int| 0 <= k < j ==> (#[trigger] row@[k])@ == false,
            decreases width - j,
        {
            row.push(AutomataCell::new(false));
            j += 1;
        }
        assert(row_states(row@) =~= Seq::new(width as nat, |j: int| false));
        grid.push(row);
        i += 1;
    }
    assert(grid_states(grid@) =~= blank(width as nat, height as nat));
    grid
}

/// A grid of `height` rows of `width` cells whose states are those of
/// `states`, taken row by row. This is how a grid is made from a run of
/// draws: the caller draws, the grid keeps the order of the draws.
pub fn from_states(width: usize, height: usize, states: &Vec<bool>) -> (grid: Vec<
    Vec<AutomataCell>,
>)
    requires
        states@.len() == width * height,
    ensures
        grid_states(grid@) == in_rows(states@, width as nat, height as nat),
{
    let mut grid: Vec<Vec<AutomataCell>> = Vec::new();
    let total = states.len();
    let mut taken: usize = 0;
    let mut i: usize = 0;
    while i < height
        invariant
            i <= height,
            taken == i * width,
            total == width * height,
            states@.len() == width * height,
            grid@.len() == i,
            forall|k: int|
                0 <= k < i ==> row_states((#[trigger] grid@[k])@) == in_rows(
                    states@,
                    width as nat,
                    height as nat,
                )[k],
        decreases height - i,
    {
        proof {
            lemma_row_lies_within(i as int, width as int, height as int);
        }
        let mut row: Vec<AutomataCell> = Vec::new();
        let mut j: usize = 0;
        while j < width
            invariant
                i < height,
                j <= width,
                taken == i * width + j,
                (i + 1) * width <= width * height,
                (i + 1) * width == i * width + width,
                total == width * height,
                states@.len() == width * height,
                row@.len() == j,
                forall|k: int| 0 <= k < j ==> (#[trigger] row@[k])@ == states@[i * width + k],
            decreases width - j,
        {
            row.push(AutomataCell::new(states[taken]));
            taken += 1;
            j += 1;
        }
        assert(row_states(row@) =~= in_rows(states@, width as nat, height as nat)[i as int]);
        grid.push(row);
        i += 1;
    }
    assert(grid_states(grid@) =~= in_rows(states@, width as nat, height as nat));
    grid
}

/// Row `i` of `rows` rows of `columns` cells ends within the flat list.
proof fn lemma_row_lies_within(i: int, columns: int, rows: int)
    requires
        0 <= i < rows,
        0 <= columns,
    ensures
        (i + 1) * columns <= columns * rows,
        (i + 1) * columns == i * columns + columns,
{
    assert((i + 1) * columns <= columns * rows) by (nonlinear_arith)
        requires
            0 <= i < rows,
            0 <= columns,
    ;
    assert((i + 1) * columns == i * columns + columns) by (nonlinear_arith);
}

/// Puts `object` onto `grid`, its upper left cell at row `di`, column `dj`.
pub fn translate_into(
    di: i32,
    dj: i32,
    object: Vec<Vec<AutomataCell>>,
    grid: &mut Vec<Vec<AutomataCell>>,
)
    requires
        fits(grid_states(old(grid)@), grid_states(object@), di as int, dj as int),
    ensures
        grid_states(final(grid)@) == pasted(
            grid_states(old(grid)@),
            grid_states(object@),
            di as int,
            dj as int,
        ),
{
    let ghost canvas = grid_states(grid@);
    let ghost shape = grid_states(object@);
    let obj_w = object[0].len();
    let obj_h = object.len();
    assert(shape[0].len() == obj_w);
    let mut i: usize = 0;
    while i < obj_h
        invariant
            i <= obj_h,
            obj_h == object@.len(),
            obj_w == object@[0]@.len(),
            canvas == grid_states(old(grid)@),
            shape == grid_states(object@),
            fits(canvas, shape, di as int, dj as int),
            grid@.len() == canvas.len(),
            forall|r: int|
                0 <= r < canvas.len() ==> (#[trigger] grid@[r])@.len() == canvas[r].len(),
            forall|r: int, c: int|
                0 <= r < canvas.len() && 0 <= c < canvas[r].len() ==> #[trigger] grid@[r]@[c]@ == (
                if di <= r < di + i && dj <= c < dj + obj_w {
                    shape[r - di][c - dj]
                } else {
                    canvas[r][c]
                }),
        decreases obj_h - i,
    {
        assert(shape[i as int].len() >= shape[0].len());
        assert(obj_w > 0 ==> dj + obj_w <= canvas[di + i].len());
        let mut j: usize = 0;
        while j < obj_w
            invariant
                i < obj_h,
                j <= obj_w,
                obj_h == object@.len(),
                obj_w == object@[0]@.len(),
                object@[i as int]@.len() >= obj_w,
                canvas == grid_states(old(grid)@),
                shape == grid_states(object@),
                0 <= di,
                di + obj_h <= canvas.len(),
                obj_w > 0 ==> 0 <= dj && dj + obj_w <= canvas[di + i].len(),
                grid@.len() == canvas.len(),
                forall|r: int|
                    0 <= r < canvas.len() ==> (#[trigger] grid@[r])@.len() == canvas[r].len(),
                forall|r: int, c: int|
                    0 <= r < canvas.len() && 0 <= c < canvas[r].len() ==> #[trigger] grid@[r]@[c]@
                        == (if (di <= r < di + i && dj <= c < dj + obj_w) || (r == di + i && dj <= c
                        < dj + j) {
                        shape[r - di][c - dj]
                    } else {
                        canvas[r][c]
                    }),
            decreases obj_w - j,
        {
            let cell: AutomataCell = object[i][j];
            let rows = grid.len();
            assert(di + i < rows);
            let row = i + di as usize;
            let columns = grid[row].len();
            assert(dj + j < columns);
            let column = j + dj as usize;
            grid[row][column] = cell;
            j += 1;
        }
        i += 1;
    }
    assert(grid_states(grid@) =~~= pasted(canvas, shape, di as int, dj as int));
}

} // verus!
