pub mod builder;

use crate::cell::Cell;
use crate::engine::builder::{Builder, NoGrid};
use crate::grid::Grid;
use crate::rule::Rule;
use crate::state::AutomatonView;
use vstd::prelude::*;

verus! {

/// A cellular automaton: a square grid of cells on a torus and the rule
/// that carries it from one generation to the next.
#[derive(Debug)]
pub struct Engine {
    grid: Grid,
    rule: Rule,
}

impl View for Engine {
    type V = AutomatonView;

    closed spec fn view(&self) -> AutomatonView {
        AutomatonView { grid: self.grid@, rule: self.rule@ }
    }
}

impl Engine {
    /// Starts building an engine: no grid yet, the classic rule.
    pub fn builder() -> (builder: Builder<NoGrid>)
        ensures
            builder@.rule == crate::rule::RuleView::classic(),
    {
        Builder::<NoGrid>::new()
    }

    /// Puts a grid and a rule together.
    pub(crate) fn assemble(grid: Grid, rule: Rule) -> (engine: Engine)
        ensures
            engine@.grid == grid@,
            engine@.rule == rule@,
            engine@.grid.valid(),
    {
        proof {
            use_type_invariant(&grid);
            grid.lemma_well_formed_is_valid();
        }
        Engine { grid, rule }
    }

    /// Advances the grid by one generation under the current rule.
    pub fn evolve(&mut self)
        ensures
            final(self)@ == old(self)@.evolved(),
            final(self)@.grid.valid(),
    {
        self.grid.evolve(&self.rule);
    }

    /// Sets every cell to dead; size and rule stay.
    pub fn clear_grid(&mut self)
        ensures
            final(self)@.grid == old(self)@.grid.cleared(),
            final(self)@.rule == old(self)@.rule,
            final(self)@.grid.valid(),
    {
        self.grid.clear();
    }

    /// Crops or pads the grid around its centre to a new side length; the
    /// rule stays.
    pub fn resize_grid(&mut self, new_size: usize)
        requires
            new_size * new_size <= usize::MAX,
        ensures
            final(self)@.grid == old(self)@.grid.resized(new_size as nat),
            final(self)@.rule == old(self)@.rule,
            final(self)@.grid.valid(),
    {
        self.grid.resize(new_size);
    }

    /// Sets every cell anew at random, whatever it held; size and rule stay.
    pub fn randomize_grid(&mut self)
        ensures
            final(self)@.grid.size == old(self)@.grid.size,
            final(self)@.rule == old(self)@.rule,
            final(self)@.grid.valid(),
    {
        self.grid.randomize();
    }

    /// The cell at a position, or nothing if the position lies outside the
    /// grid.
    pub fn cell(&self, row: usize, col: usize) -> (cell: Option<&Cell>)
        ensures
            match cell {
                Some(c) => self@.grid.get(row as int, col as int) == Some(*c),
                None => self@.grid.get(row as int, col as int) is None,
            },
    {
        self.grid.get(row, col)
    }

    /// Flips the cell at a position; does nothing if the position lies
    /// outside the grid.
    pub fn toggle_cell(&mut self, row: usize, col: usize)
        ensures
            final(self)@.grid == old(self)@.grid.toggled(row as int, col as int),
            final(self)@.rule == old(self)@.rule,
            final(self)@.grid.valid(),
    {
        self.grid.toggle(row, col);
    }

    /// The side length of the grid.
    pub fn grid_size(&self) -> (size: usize)
        ensures
            size == self@.grid.size,
    {
        self.grid.size()
    }

    /// Replaces the rule; the grid stays. The next generation is computed
    /// under the new rule.
    pub fn set_rule(&mut self, rule: Rule)
        ensures
            final(self)@.rule == rule@,
            final(self)@.grid == old(self)@.grid,
    {
        self.rule = rule
    }

    /// The cells of the grid in row-major order.
    pub fn cells(&self) -> (cells: Vec<Cell>)
        ensures
            cells@ == self@.grid.cells,
    {
        self.grid.cells()
    }
}

} // verus!
