//! The transition rule: what becomes of one cell, given its state and the
//! number of its live neighbours.

use vstd::prelude::*;

use crate::automata::AutomataCell;

verus! {

/// The three numbers of the rule. A live cell with fewer live neighbours than
/// `underpopulation`, or more than `overpopulation`, dies; a dead cell with
/// exactly `reproduction` live neighbours comes alive.
pub struct Thresholds {
    pub underpopulation: usize,
    pub overpopulation: usize,
    pub reproduction: usize,
}

impl Default for Thresholds {
    /// The rule of Conway's Game of Life: survival on 2 or 3, birth on 3.
    fn default() -> (thresholds: Thresholds)
        ensures
            thresholds == standard_thresholds(),
    {
        Thresholds { underpopulation: 2, overpopulation: 3, reproduction: 3 }
    }
}

/// Survival on 2 or 3 live neighbours, birth on 3.
pub open spec fn standard_thresholds() -> Thresholds {
    Thresholds { underpopulation: 2, overpopulation: 3, reproduction: 3 }
}

/// The next state of a cell under `thresholds`. No ordering of the three
/// numbers is asked for: with `underpopulation` above `overpopulation` every
/// live cell dies.
pub open spec fn next_state(thresholds: Thresholds, alive: bool, alive_neighbors: nat) -> bool {
    if alive {
        thresholds.underpopulation <= alive_neighbors <= thresholds.overpopulation
    } else {
        alive_neighbors == thresholds.reproduction
    }
}

/// A transition rule. It decides from the state of a cell in the current
/// generation and the counts of its neighbours, writes the decision into the
/// cell of the next generation, and tells whether the state has changed.
pub trait CellProcessor {
    /// The state that the rule gives a cell in the next generation.
    spec fn decide(&self, alive: bool, alive_neighbors: nat, dead_neighbors: nat) -> bool;

    /// Decides for the cell whose current state is that of `main_cell`,
    /// writes the decision into `back_cell`, whatever it held, and tells
    /// whether the new state differs from the current one.
    fn process(
        &self,
        main_cell: &AutomataCell,
        back_cell: &mut AutomataCell,
        alive_neighbors: usize,
        dead_neighbors: usize,
    ) -> (changed: bool)
        ensures
            final(back_cell)@ == self.decide(
                main_cell@,
                alive_neighbors as nat,
                dead_neighbors as nat,
            ),
            changed == (final(back_cell)@ != main_cell@),
    ;
}

/// The rule given by three thresholds. It does not look at the dead neighbours.
pub struct SimpleCellProcessor {
    thresholds: Thresholds,
}

impl SimpleCellProcessor {
    pub fn new(thresholds: Thresholds) -> (processor: SimpleCellProcessor)
        ensures
            processor.thresholds() == thresholds,
    {
        SimpleCellProcessor { thresholds }
    }

    /// The thresholds that the processor was made with.
    pub closed spec fn thresholds(&self) -> Thresholds {
        self.thresholds
    }
}

impl CellProcessor for SimpleCellProcessor {
    open spec fn decide(&self, alive: bool, alive_neighbors: nat, dead_neighbors: nat) -> bool {
        next_state(self.thresholds(), alive, alive_neighbors)
    }

    fn process(
        &self,
        main_cell: &AutomataCell,
        back_cell: &mut AutomataCell,
        alive_neighbors: usize,
        dead_neighbors: usize,
    ) -> (changed: bool) {
        if main_cell.is_alive() {
            if alive_neighbors > self.thresholds.overpopulation {
                back_cell.die();
                true
            } else if alive_neighbors < self.thresholds.underpopulation {
                back_cell.die();
                true
            } else {
                back_cell.live();
                false
            }
        } else if alive_neighbors == self.thresholds.reproduction {
            back_cell.live();
            true
        } else {
            back_cell.die();
            false
        }
    }
}

/// Under the standard thresholds a dead cell comes alive on exactly three
/// live neighbours, and a live cell stays alive on exactly two or three.
pub proof fn lemma_standard_rule(alive: bool, alive_neighbors: nat)
    ensures
        !alive ==> (next_state(standard_thresholds(), alive, alive_neighbors) <==> alive_neighbors
            == 3),
        alive ==> (next_state(standard_thresholds(), alive, alive_neighbors) <==> (alive_neighbors
            == 2 || alive_neighbors == 3)),
{
}

} // verus!
