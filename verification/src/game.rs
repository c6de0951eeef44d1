pub mod builder;

use crate::cell::Cell;
use crate::game::builder::{Builder, NoGrid};
use crate::grid::Grid;
use crate::rule::{Rule, RuleView};
use crate::state::AutomatonView;
use vstd::prelude::*;

verus! {

/// A game of life on a square torus: a grid of cells and the rule that
/// carries it from one generation to the next. It can be shown as text.
#[derive(Debug)]
pub struct Game {
    grid: Grid,
    rule: Rule,
}

impl View for Game {
    type V = AutomatonView;

    closed spec fn view(&self) -> AutomatonView {
        AutomatonView { grid: self.grid@, rule: self.rule@ }
    }
}

impl Game {
    /// Starts building a game: no grid yet, the classic rule.
    pub fn builder() -> (builder: Builder<NoGrid>)
        ensures
            builder@.rule == RuleView::classic(),
    {
        Builder::<NoGrid>::new()
    }

    /// Puts a grid and a rule together.
    pub(crate) fn assemble(grid: Grid, rule: Rule) -> (game: Game)
        ensures
            game@.grid == grid@,
            game@.rule == rule@,
            game@.grid.valid(),
    {
        proof {
            use_type_invariant(&grid);
            grid.lemma_well_formed_is_valid();
        }
        Game { grid, rule }
    }

    /// Advances the grid by one generation under the rule.
    pub fn evolve(&mut self)
        ensures
            final(self)@ == old(self)@.evolved(),
            final(self)@.grid.valid(),
    {
        self.grid.evolve(&self.rule);
    }

    /// Sets every cell to dead; size and rule stay.
    pub fn clear_grid(&mut self)
        ensures
            final(self)@.grid == old(self)@.grid.cleared(),
            final(self)@.rule == old(self)@.rule,
            final(self)@.grid.valid(),
    {
        self.grid.clear();
    }

    /// Crops or pads the grid around its centre to a new side length; the
    /// rule stays.
    pub fn resize_grid(&mut self, new_size: usize)
        requires
            new_size * new_size <= usize::MAX,
        ensures
            final(self)@.grid == old(self)@.grid.resized(new_size as nat),
            final(self)@.rule == old(self)@.rule,
            final(self)@.grid.valid(),
    {
        self.grid.resize(new_size);
    }

    /// The side length of the grid.
    pub fn grid_size(&self) -> (size: usize)
        ensures
            size == self@.grid.size,
    {
        self.grid.size()
    }

    /// The cells of the grid in row-major order.
    pub fn cells(&self) -> (cells: Vec<Cell>)
        ensures
            cells@ == self@.grid.cells,
    {
        self.grid.cells()
    }

    /// The grid as text: a space for a dead cell, `@` for a live one, a line
    /// break after every row.
    pub fn render(&self) -> (text: String)
        ensures
            text@ == self@.grid.rendered(),
    {
        self.grid.render()
    }
}

} // verus!
