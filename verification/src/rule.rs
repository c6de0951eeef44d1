use std::collections::HashSet;
use crate::cell::Cell;
use vstd::prelude::*;

verus! {

/// The mathematical content of a rule: the neighbour counts at which a dead
/// cell is born and those at which a live cell survives.
pub struct RuleView {
    pub birth: Set<u8>,
    pub survival: Set<u8>,
}

impl RuleView {
    /// Classic Life: born on three neighbours, surviving on two or three.
    pub open spec fn classic() -> RuleView {
        RuleView { birth: set![3u8], survival: set![2u8, 3u8] }
    }

    /// The state that a cell takes in the next generation, given its current
    /// state and the number of its live neighbours.
    pub open spec fn next_state(self, current: Cell, neighbors: int) -> Cell {
        match current {
            Cell::Dead => if self.birth.contains(neighbors as u8) {
                Cell::Live
            } else {
                Cell::Dead
            },
            Cell::Live => if self.survival.contains(neighbors as u8) {
                Cell::Live
            } else {
                Cell::Dead
            },
        }
    }
}

/// A birth/survival policy over the number of live neighbours of a cell.
#[derive(Debug)]
pub struct Rule {
    birth: HashSet<u8>,
    survival: HashSet<u8>,
}

impl View for Rule {
    type V = RuleView;

    closed spec fn view(&self) -> RuleView {
        RuleView { birth: self.birth@, survival: self.survival@ }
    }
}

impl Rule {
    /// Builds a rule from the two sets of neighbour counts. Counts above
    /// eight are kept, although no cell ever has that many neighbours.
    pub fn new(birth: HashSet<u8>, survival: HashSet<u8>) -> (rule: Rule)
        ensures
            rule@.birth == birth@,
            rule@.survival == survival@,
    {
        Rule { birth, survival }
    }

    /// The neighbour counts at which a dead cell is born.
    pub fn birth(&self) -> (counts: &HashSet<u8>)
        ensures
            counts@ == self@.birth,
    {
        &self.birth
    }

    /// The neighbour counts at which a live cell survives.
    pub fn survival(&self) -> (counts: &HashSet<u8>)
        ensures
            counts@ == self@.survival,
    {
        &self.survival
    }

    /// Whether a dead cell with this many live neighbours comes to life.
    pub fn is_born(&self, neighbors: u8) -> (born: bool)
        ensures
            born == self@.birth.contains(neighbors),
    {
        self.birth.contains(&neighbors)
    }

    /// Whether a live cell with this many live neighbours stays alive.
    pub fn is_survivor(&self, neighbors: u8) -> (survives: bool)
        ensures
            survives == self@.survival.contains(neighbors),
    {
        self.survival.contains(&neighbors)
    }

    /// The next state of a cell under this rule.
    pub fn apply(&self, current: Cell, neighbors: u8) -> (next: Cell)
        ensures
            next == self@.next_state(current, neighbors as int),
    {
        match current {
            Cell::Dead => if self.is_born(neighbors) {
                Cell::Live
            } else {
                Cell::Dead
            },
            Cell::Live => if self.is_survivor(neighbors) {
                Cell::Live
            } else {
                Cell::Dead
            },
        }
    }
}

impl Default for Rule {
    /// Classic Life.
    fn default() -> (rule: Rule)
        ensures
            rule@ == RuleView::classic(),
    {
        let mut birth: HashSet<u8> = HashSet::new();
        birth.insert(3);
        let mut survival: HashSet<u8> = HashSet::new();
        survival.insert(2);
        survival.insert(3);
        assert(birth@ =~= set![3u8]);
        assert(survival@ =~= set![2u8, 3u8]);
        Rule { birth, survival }
    }
}

} // verus!
