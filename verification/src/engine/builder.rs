use crate::cell::Cell;
use crate::engine::Engine;
use crate::grid::{Grid, GridView};
use crate::rule::{Rule, RuleView};
use crate::state::BuilderView;
use vstd::prelude::*;

verus! {

/// Marks a builder that has no grid yet.
pub struct NoGrid;

/// Collects what an engine is made of. Only a builder that holds a grid can
/// build.
pub struct Builder<G> {
    grid: G,
    rule: Rule,
}

impl<G> View for Builder<G> {
    type V = BuilderView<G>;

    closed spec fn view(&self) -> BuilderView<G> {
        BuilderView { grid: self.grid, rule: self.rule@ }
    }
}

impl Builder<NoGrid> {
    /// A builder without a grid, with the classic rule.
    pub fn new() -> (builder: Self)
        ensures
            builder@.rule == RuleView::classic(),
    {
        Builder { grid: NoGrid, rule: Rule::default() }
    }

    /// Supplies the grid as a square matrix of cells; the rule is carried
    /// along.
    pub fn grid<const N: usize>(self, grid: [[Cell; N]; N]) -> (builder: Builder<Grid>)
        ensures
            builder@.grid@ == GridView::of_rows(grid),
            builder@.grid@.valid(),
            builder@.rule == self@.rule,
    {
        Builder { grid: Grid::from_rows(grid), rule: self.rule }
    }

    /// Supplies a grid of the given side length with cells drawn at random;
    /// the rule is carried along.
    pub fn random_grid(self, size: usize) -> (builder: Builder<Grid>)
        requires
            size * size <= usize::MAX,
        ensures
            builder@.grid@.size == size,
            builder@.grid@.valid(),
            builder@.rule == self@.rule,
    {
        Builder { grid: Grid::random(size), rule: self.rule }
    }
}

impl Builder<Grid> {
    /// Builds the engine from the grid and the rule chosen.
    pub fn build(self) -> (engine: Engine)
        ensures
            engine@.grid == self@.grid@,
            engine@.rule == self@.rule,
            engine@.grid.valid(),
    {
        Engine::assemble(self.grid, self.rule)
    }
}

impl<G> Builder<G> {
    /// Chooses the rule; what was chosen for the grid stays.
    pub fn rule(self, rule: Rule) -> (builder: Self)
        ensures
            builder@.rule == rule@,
            builder@.grid == self@.grid,
    {
        Self { grid: self.grid, rule }
    }
}

} // verus!
