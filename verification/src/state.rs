use crate::grid::GridView;
use crate::rule::RuleView;
use vstd::prelude::*;

verus! {

/// The mathematical content of an automaton: the current generation and the
/// rule that produces the next one.
pub struct AutomatonView {
    pub grid: GridView,
    pub rule: RuleView,
}

impl AutomatonView {
    /// The automaton one generation later.
    pub open spec fn evolved(self) -> AutomatonView {
        AutomatonView { grid: self.grid.evolved(self.rule), rule: self.rule }
    }

    /// The automaton `n` generations later.
    pub open spec fn evolved_times(self, n: nat) -> AutomatonView
        decreases n,
    {
        if n == 0 {
            self
        } else {
            self.evolved().evolved_times((n - 1) as nat)
        }
    }
}

/// The mathematical content of a builder: the grid chosen so far, if any,
/// and the rule chosen so far.
pub struct BuilderView<G> {
    pub grid: G,
    pub rule: RuleView,
}

} // verus!
