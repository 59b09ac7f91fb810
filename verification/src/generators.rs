//! The makers of starting grids: one for each named pattern, and the
//! function that puts a named pattern onto a canvas.

use vstd::prelude::*;

use crate::args::{PresetArgs, Presets};
use crate::automata::AutomataCell;
use crate::generators::grids::{blank, matrix_states, pasted};
use crate::grid::{grid_states, height, width};

pub mod grids;

verus! {

/// A maker of grids. Whatever it makes has `height()` rows of `width()` cells.
pub trait Generator {
    /// The width of what `generate` makes.
    spec fn spec_width(&self) -> nat;

    /// The height of what `generate` makes.
    spec fn spec_height(&self) -> nat;

    fn generate(&self) -> (grid: Vec<Vec<AutomataCell>>)
        ensures
            grid@.len() == self.spec_height(),
            forall|i: int|
                0 <= i < grid@.len() ==> (#[trigger] grid@[i])@.len() == self.spec_width(),
    ;

    fn width(&self) -> (width: usize)
        ensures
            width == self.spec_width(),
    ;

    fn height(&self) -> (height: usize)
        ensures
            height == self.spec_height(),
    ;
}

/// Makes the block.
pub struct StillBlockGenerator {}

impl Default for StillBlockGenerator {
    fn default() -> (generator: StillBlockGenerator) {
        StillBlockGenerator {}
    }
}

impl Generator for StillBlockGenerator {
    open spec fn spec_width(&self) -> nat {
        grids::STILL_BLOCK_MIN_WIDTH as nat
    }

    open spec fn spec_height(&self) -> nat {
        grids::STILL_BLOCK_MIN_HEIGHT as nat
    }

    fn generate(&self) -> (grid: Vec<Vec<AutomataCell>>)
        ensures
            grid_states(grid@) == matrix_states(grids::STILL_BLOCK_GRID),
    {
        let grid = grids::to_vec(&grids::STILL_BLOCK_GRID);
        proof {
            lemma_shape_of_states(grid, matrix_states(grids::STILL_BLOCK_GRID));
        }
        grid
    }

    fn height(&self) -> (height: usize) {
        grids::STILL_BLOCK_MIN_HEIGHT
    }

    fn width(&self) -> (width: usize) {
        grids::STILL_BLOCK_MIN_WIDTH
    }
}

/// Makes Gosper's glider gun.
pub struct GosperGliderGunGenerator;

impl Default for GosperGliderGunGenerator {
    fn default() -> (generator: GosperGliderGunGenerator) {
        GosperGliderGunGenerator {}
    }
}

impl Generator for GosperGliderGunGenerator {
    open spec fn spec_width(&self) -> nat {
        grids::GOSPER_GLIDER_GUN_MIN_WIDTH as nat
    }

    open spec fn spec_height(&self) -> nat {
        grids::GOSPER_GLIDER_GUN_MIN_HEIGHT as nat
    }

    fn generate(&self) -> (grid: Vec<Vec<AutomataCell>>)
        ensures
            grid_states(grid@) == matrix_states(grids::GOSPER_GLIDER_GUN_GRID),
    {
        let grid = grids::to_vec(&grids::GOSPER_GLIDER_GUN_GRID);
        proof {
            lemma_shape_of_states(grid, matrix_states(grids::GOSPER_GLIDER_GUN_GRID));
        }
        grid
    }

    fn height(&self) -> (height: usize) {
        grids::GOSPER_GLIDER_GUN_MIN_HEIGHT
    }

    fn width(&self) -> (width: usize) {
        grids::GOSPER_GLIDER_GUN_MIN_WIDTH
    }
}

/// Makes Diehard.
pub struct DiehardPatternGenerator;

impl Default for DiehardPatternGenerator {
    fn default() -> (generator: DiehardPatternGenerator) {
        DiehardPatternGenerator {}
    }
}

impl Generator for DiehardPatternGenerator {
    open spec fn spec_width(&self) -> nat {
        grids::DIEHARD_MIN_WIDTH as nat
    }

    open spec fn spec_height(&self) -> nat {
        grids::DIEHARD_MIN_HEIGHT as nat
    }

    fn generate(&self) -> (grid: Vec<Vec<AutomataCell>>)
        ensures
            grid_states(grid@) == matrix_states(grids::DIEHARD_GRID),
    {
        let grid = grids::to_vec(&grids::DIEHARD_GRID);
        proof {
            lemma_shape_of_states(grid, matrix_states(grids::DIEHARD_GRID));
        }
        grid
    }

    fn height(&self) -> (height: usize) {
        grids::DIEHARD_MIN_HEIGHT
    }

    fn width(&self) -> (width: usize) {
        grids::DIEHARD_MIN_WIDTH
    }
}

/// Makes the acorn.
pub struct AcornPatternGenerator;

impl Default for AcornPatternGenerator {
    fn default() -> (generator: AcornPatternGenerator) {
        AcornPatternGenerator {}
    }
}

impl Generator for AcornPatternGenerator {
    open spec fn spec_width(&self) -> nat {
        grids::ACORN_MIN_WIDTH as nat
    }

    open spec fn spec_height(&self) -> nat {
        grids::ACORN_MIN_HEIGHT as nat
    }

    fn generate(&self) -> (grid: Vec<Vec<AutomataCell>>)
        ensures
            grid_states(grid@) == matrix_states(grids::ACORN_GRID),
    {
        let grid = grids::to_vec(&grids::ACORN_GRID);
        proof {
            lemma_shape_of_states(grid, matrix_states(grids::ACORN_GRID));
        }
        grid
    }

    fn height(&self) -> (height: usize) {
        grids::ACORN_MIN_HEIGHT
    }

    fn width(&self) -> (width: usize) {
        grids::ACORN_MIN_WIDTH
    }
}

/// Makes the penta-decathlon.
pub struct PentaDecathlonPatternGenerator;

impl Default for PentaDecathlonPatternGenerator {
    fn default() -> (generator: PentaDecathlonPatternGenerator) {
        PentaDecathlonPatternGenerator {}
    }
}

impl Generator for PentaDecathlonPatternGenerator {
    open spec fn spec_width(&self) -> nat {
        grids::PENTA_DECATHLON_MIN_WIDTH as nat
    }

    open spec fn spec_height(&self) -> nat {
        grids::PENTA_DECATHLON_MIN_HEIGHT as nat
    }

    fn generate(&self) -> (grid: Vec<Vec<AutomataCell>>)
        ensures
            grid_states(grid@) == matrix_states(grids::PENTA_DECATHLON_GRID),
    {
        let grid = grids::to_vec(&grids::PENTA_DECATHLON_GRID);
        proof {
            lemma_shape_of_states(grid, matrix_states(grids::PENTA_DECATHLON_GRID));
        }
        grid
    }

    fn height(&self) -> (height: usize) {
        grids::PENTA_DECATHLON_MIN_HEIGHT
    }

    fn width(&self) -> (width: usize) {
        grids::PENTA_DECATHLON_MIN_WIDTH
    }
}

/// A grid of cells has the shape of its states.
proof fn lemma_shape_of_states(grid: Vec<Vec<AutomataCell>>, states: Seq<Seq<bool>>)
    requires
        grid_states(grid@) == states,
    ensures
        grid@.len() == states.len(),
        forall|i: int| 0 <= i < grid@.len() ==> (#[trigger] grid@[i])@.len() == states[i].len(),
{
    assert forall|i: int| 0 <= i < grid@.len() implies (#[trigger] grid@[i])@.len()
        == states[i].len() by {
        assert(grid_states(grid@)[i].len() == grid@[i]@.len());
    }
}

/// The pattern of each name.
pub open spec fn preset_pattern(name: Presets) -> Seq<Seq<bool>> {
    match name {
        Presets::Acorn => matrix_states(grids::ACORN_GRID),
        Presets::Diehard => matrix_states(grids::DIEHARD_GRID),
        Presets::Gosper => matrix_states(grids::GOSPER_GLIDER_GUN_GRID),
        Presets::PentaDecathlon => matrix_states(grids::PENTA_DECATHLON_GRID),
        Presets::StillBlock => matrix_states(grids::STILL_BLOCK_GRID),
    }
}

/// The width of the canvas: the width asked for, or else the pattern's.
pub open spec fn canvas_width(args: PresetArgs) -> nat {
    match args.width {
        Some(width) => width as nat,
        None => width(preset_pattern(args.name)),
    }
}

/// The height of the canvas: the height asked for, or else the pattern's.
pub open spec fn canvas_height(args: PresetArgs) -> nat {
    match args.height {
        Some(height) => height as nat,
        None => height(preset_pattern(args.name)),
    }
}

/// The row and the column of the canvas where the pattern's upper left cell
/// goes: those that leave as much room below as above and as much right as
/// left, less one where the room is odd, or the canvas's own upper left cell.
pub open spec fn placement(args: PresetArgs) -> (int, int) {
    if args.center {
        (
            (canvas_height(args) - height(preset_pattern(args.name))) / 2,
            (canvas_width(args) - width(preset_pattern(args.name))) / 2,
        )
    } else {
        (0, 0)
    }
}

/// The named pattern on a dead canvas. The canvas must hold the pattern.
pub fn build_preset_generator(args: PresetArgs) -> (grid: Vec<Vec<AutomataCell>>)
    requires
        canvas_width(args) >= width(preset_pattern(args.name)),
        canvas_height(args) >= height(preset_pattern(args.name)),
        placement(args).0 <= i32::MAX,
        placement(args).1 <= i32::MAX,
    ensures
        grid_states(grid@) == pasted(
            blank(canvas_width(args), canvas_height(args)),
            preset_pattern(args.name),
            placement(args).0,
            placement(args).1,
        ),
{
    let (object, pattern_width, pattern_height) = match args.name {
        Presets::Acorn => {
            let generator = AcornPatternGenerator::default();
            (generator.generate(), generator.width(), generator.height())
        },
        Presets::Diehard => {
            let generator = DiehardPatternGenerator::default();
            (generator.generate(), generator.width(), generator.height())
        },
        Presets::Gosper => {
            let generator = GosperGliderGunGenerator::default();
            (generator.generate(), generator.width(), generator.height())
        },
        Presets::PentaDecathlon => {
            let generator = PentaDecathlonPatternGenerator::default();
            (generator.generate(), generator.width(), generator.height())
        },
        Presets::StillBlock => {
            let generator = StillBlockGenerator::default();
            (generator.generate(), generator.width(), generator.height())
        },
    };
    let grid_width = match args.width {
        Some(width) => width,
        None => pattern_width,
    };
    let grid_height = match args.height {
        Some(height) => height,
        None => pattern_height,
    };
    let mut grid = grids::create(grid_width, grid_height);
    if args.center {
        let di = (grid_height - pattern_height) / 2;
        let dj = (grid_width - pattern_width) / 2;
        grids::translate_into(di as i32, dj as i32, object, &mut grid);
    } else {
        grids::translate_into(0, 0, object, &mut grid);
    }
    grid
}

} // verus!
