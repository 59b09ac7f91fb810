use vstd::prelude::*;

verus! {

/// One cell of the grid: alive or dead.
#[derive(Clone, Copy, Debug)]
pub struct AutomataCell {
    alive: bool,
}

impl View for AutomataCell {
    type V = bool;

    /// A cell is modelled by its state: `true` for alive.
    closed spec fn view(&self) -> bool {
        self.alive
    }
}

impl AutomataCell {
    pub fn new(alive: bool) -> (cell: AutomataCell)
        ensures
            cell@ == alive,
    {
        AutomataCell { alive }
    }

    pub fn is_alive(&self) -> (alive: bool)
        ensures
            alive == self@,
    {
        self.alive
    }

    pub fn die(&mut self)
        ensures
            final(self)@ == false,
    {
        self.alive = false;
    }

    pub fn live(&mut self)
        ensures
            final(self)@ == true,
    {
        self.alive = true;
    }
}

impl From<bool> for AutomataCell {
    fn from(value: bool) -> (cell: AutomataCell)
        ensures
            cell@ == value,
    {
        AutomataCell::new(value)
    }
}

impl vstd::std_specs::convert::FromSpecImpl<bool> for AutomataCell {
    open spec fn obeys_from_spec() -> bool {
        true
    }

    closed spec fn from_spec(value: bool) -> AutomataCell {
        AutomataCell { alive: value }
    }
}

impl From<u8> for AutomataCell {
    /// Alive for any number but 0.
    fn from(value: u8) -> (cell: AutomataCell)
        ensures
            cell@ == (value != 0),
    {
        AutomataCell::new(value != 0)
    }
}

impl vstd::std_specs::convert::FromSpecImpl<u8> for AutomataCell {
    open spec fn obeys_from_spec() -> bool {
        true
    }

    closed spec fn from_spec(value: u8) -> AutomataCell {
        AutomataCell { alive: value != 0 }
    }
}

} // verus!
