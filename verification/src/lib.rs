//! A Game of Life on a finite grid with two buffers: the model of the grid,
//! the transition rule, the driver of a generation, the named starting
//! patterns and the renderers. What each function does is stated in its
//! contract and proved.

pub mod args;
pub mod automata;
pub mod board;
pub mod board_renderer;
pub mod console_renderer;
pub mod driver;
pub mod evolution;
pub mod finite_board;
pub mod generators;
pub mod grid;
pub mod simple_solver;
pub mod solver;
