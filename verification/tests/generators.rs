use game_of_life::args::{PresetArgs, Presets};
use game_of_life::automata::AutomataCell;
use game_of_life::generators::grids::{
    create, from_states, to_vec, translate_into, ACORN_GRID, ACORN_MIN_HEIGHT, ACORN_MIN_WIDTH, DIEHARD_GRID,
    DIEHARD_MIN_HEIGHT, DIEHARD_MIN_WIDTH, GOSPER_GLIDER_GUN_GRID, GOSPER_GLIDER_GUN_MIN_HEIGHT,
    GOSPER_GLIDER_GUN_MIN_WIDTH, PENTA_DECATHLON_GRID, PENTA_DECATHLON_MIN_HEIGHT,
    PENTA_DECATHLON_MIN_WIDTH, STILL_BLOCK_GRID, STILL_BLOCK_MIN_HEIGHT, STILL_BLOCK_MIN_WIDTH,
};
use game_of_life::generators::{
    build_preset_generator, AcornPatternGenerator, DiehardPatternGenerator, Generator,
    GosperGliderGunGenerator, PentaDecathlonPatternGenerator, StillBlockGenerator,
};

fn text(grid: &Vec<Vec<AutomataCell>>) -> Vec<String> {
    grid.iter()
        .map(|row| row.iter().map(|c| if c.is_alive() { 'O' } else { '.' }).collect())
        .collect()
}

fn live_cells(grid: &Vec<Vec<AutomataCell>>) -> usize {
    grid.iter().map(|row| row.iter().filter(|c| c.is_alive()).count()).sum()
}

fn matches_matrix<const W: usize, const H: usize>(
    grid: &Vec<Vec<AutomataCell>>,
    matrix: &[[u8; W]; H],
) -> bool {
    grid.len() == H
        && (0..H).all(|i| {
            grid[i].len() == W && (0..W).all(|j| grid[i][j].is_alive() == (matrix[i][j] != 0))
        })
}

#[test]
fn to_vec_makes_a_cell_alive_where_the_number_is_not_zero() {
    let grid = to_vec(&[[0u8, 1, 2], [255, 0, 0]]);
    assert_eq!(text(&grid), vec![".OO", "O.."]);
}

#[test]
fn to_vec_of_a_matrix_without_rows_or_columns() {
    let no_rows: [[u8; 3]; 0] = [];
    assert!(to_vec(&no_rows).is_empty());
    let no_columns: [[u8; 0]; 2] = [[], []];
    assert_eq!(text(&to_vec(&no_columns)), vec!["", ""]);
}

#[test]
fn create_makes_a_dead_grid_of_the_given_size() {
    let grid = create(3, 2);
    assert_eq!(text(&grid), vec!["...", "..."]);
    assert!(create(3, 0).is_empty());
    assert_eq!(text(&create(0, 2)), vec!["", ""]);
}

#[test]
fn from_states_fills_row_by_row() {
    let states = vec![true, false, false, false, true, true];
    assert_eq!(text(&from_states(3, 2, &states)), vec!["O..", ".OO"]);
    assert_eq!(text(&from_states(2, 3, &states)), vec!["O.", "..", "OO"]);
    assert_eq!(text(&from_states(6, 1, &states)), vec!["O...OO"]);
    assert_eq!(text(&from_states(1, 6, &states)), vec!["O", ".", ".", ".", "O", "O"]);
}

#[test]
fn from_states_without_cells() {
    assert!(from_states(4, 0, &Vec::new()).is_empty());
    assert_eq!(text(&from_states(0, 2, &Vec::new())), vec!["", ""]);
}

#[test]
fn translate_into_puts_the_object_at_the_offset() {
    let mut grid = create(5, 4);
    let object = to_vec(&[[1u8, 0], [1, 1]]);
    translate_into(1, 2, object, &mut grid);
    assert_eq!(text(&grid), vec![".....", "..O..", "..OO.", "....."]);
}

#[test]
fn translate_into_overwrites_with_dead_cells_too() {
    let mut grid = to_vec(&[[1u8, 1, 1], [1, 1, 1], [1, 1, 1]]);
    let object = to_vec(&[[0u8, 1]]);
    translate_into(2, 1, object, &mut grid);
    assert_eq!(text(&grid), vec!["OOO", "OOO", "O.O"]);
}

#[test]
fn translate_into_takes_of_each_row_what_the_first_row_is_wide() {
    let mut grid = create(4, 2);
    let object = vec![
        vec![AutomataCell::new(true)],
        vec![AutomataCell::new(true), AutomataCell::new(true)],
    ];
    translate_into(0, 1, object, &mut grid);
    assert_eq!(text(&grid), vec![".O..", ".O.."]);
}

#[test]
fn translate_into_with_an_empty_first_row_changes_nothing() {
    let mut grid = to_vec(&[[1u8, 0], [0, 1]]);
    let object: Vec<Vec<AutomataCell>> = vec![Vec::new()];
    translate_into(1, -7, object, &mut grid);
    assert_eq!(text(&grid), vec!["O.", ".O"]);
}

#[test]
fn translate_into_fills_the_whole_grid() {
    let mut grid = create(2, 2);
    translate_into(0, 0, to_vec(&[[1u8, 0], [0, 1]]), &mut grid);
    assert_eq!(text(&grid), vec!["O.", ".O"]);
}

#[test]
fn still_block_generator_makes_the_block() {
    let generator = StillBlockGenerator::default();
    assert_eq!(generator.width(), 4);
    assert_eq!(generator.height(), 4);
    assert_eq!(text(&generator.generate()), vec!["....", ".OO.", ".OO.", "...."]);
}

#[test]
fn diehard_generator_makes_diehard() {
    let generator = DiehardPatternGenerator::default();
    assert_eq!(generator.width(), 10);
    assert_eq!(generator.height(), 5);
    assert_eq!(
        text(&generator.generate()),
        vec!["..........", ".......O..", ".OO.......", "..O...OOO.", ".........."]
    );
}

#[test]
fn acorn_generator_makes_the_acorn() {
    let generator = AcornPatternGenerator::default();
    assert_eq!(generator.width(), 9);
    assert_eq!(generator.height(), 5);
    assert_eq!(
        text(&generator.generate()),
        vec![".........", "..O......", "....O....", ".OO..OOO.", "........."]
    );
}

#[test]
fn gosper_generator_makes_the_glider_gun() {
    let generator = GosperGliderGunGenerator::default();
    assert_eq!(generator.width(), 38);
    assert_eq!(generator.height(), 12);
    let grid = generator.generate();
    assert!(matches_matrix(&grid, &GOSPER_GLIDER_GUN_GRID));
    assert_eq!(live_cells(&grid), 36);
    assert_eq!(text(&grid)[1], ".........................O............");
    assert_eq!(text(&grid)[5], ".OO........O.....O...OO...............");
}

#[test]
fn penta_decathlon_generator_makes_the_penta_decathlon() {
    let generator = PentaDecathlonPatternGenerator::default();
    assert_eq!(generator.width(), 11);
    assert_eq!(generator.height(), 18);
    let grid = generator.generate();
    assert!(matches_matrix(&grid, &PENTA_DECATHLON_GRID));
    assert_eq!(live_cells(&grid), 12);
    assert_eq!(text(&grid)[6], "....O.O....");
}

#[test]
fn generators_agree_with_their_matrices_and_sizes() {
    assert!(matches_matrix(&StillBlockGenerator::default().generate(), &STILL_BLOCK_GRID));
    assert!(matches_matrix(&DiehardPatternGenerator::default().generate(), &DIEHARD_GRID));
    assert!(matches_matrix(&AcornPatternGenerator::default().generate(), &ACORN_GRID));
    assert_eq!((STILL_BLOCK_MIN_WIDTH, STILL_BLOCK_MIN_HEIGHT), (4, 4));
    assert_eq!((DIEHARD_MIN_WIDTH, DIEHARD_MIN_HEIGHT), (10, 5));
    assert_eq!((ACORN_MIN_WIDTH, ACORN_MIN_HEIGHT), (9, 5));
    assert_eq!((GOSPER_GLIDER_GUN_MIN_WIDTH, GOSPER_GLIDER_GUN_MIN_HEIGHT), (38, 12));
    assert_eq!((PENTA_DECATHLON_MIN_WIDTH, PENTA_DECATHLON_MIN_HEIGHT), (11, 18));
}

#[test]
fn preset_without_a_size_is_the_pattern_itself() {
    let args = PresetArgs { width: None, height: None, name: Presets::StillBlock, center: false };
    assert_eq!(text(&build_preset_generator(args)), vec!["....", ".OO.", ".OO.", "...."]);
    let args = PresetArgs { width: None, height: None, name: Presets::Acorn, center: true };
    assert!(matches_matrix(&build_preset_generator(args), &ACORN_GRID));
    let args = PresetArgs { width: None, height: None, name: Presets::Gosper, center: false };
    assert!(matches_matrix(&build_preset_generator(args), &GOSPER_GLIDER_GUN_GRID));
    let args = PresetArgs { width: None, height: None, name: Presets::PentaDecathlon, center: false };
    assert!(matches_matrix(&build_preset_generator(args), &PENTA_DECATHLON_GRID));
    let args = PresetArgs { width: None, height: None, name: Presets::Diehard, center: false };
    assert!(matches_matrix(&build_preset_generator(args), &DIEHARD_GRID));
}

#[test]
fn preset_on_a_larger_canvas_goes_to_the_upper_left() {
    let args =
        PresetArgs { width: Some(7), height: Some(6), name: Presets::StillBlock, center: false };
    assert_eq!(
        text(&build_preset_generator(args)),
        vec![".......", ".OO....", ".OO....", ".......", ".......", "......."]
    );
}

#[test]
fn preset_is_centered_rounding_towards_the_upper_left() {
    let args =
        PresetArgs { width: Some(7), height: Some(6), name: Presets::StillBlock, center: true };
    assert_eq!(
        text(&build_preset_generator(args)),
        vec![".......", ".......", "..OO...", "..OO...", ".......", "......."]
    );
}

#[test]
fn preset_with_only_a_width_keeps_the_pattern_height() {
    let args = PresetArgs { width: Some(12), height: None, name: Presets::Diehard, center: true };
    assert_eq!(
        text(&build_preset_generator(args)),
        vec!["............", "........O...", "..OO........", "...O...OOO..", "............"]
    );
}
