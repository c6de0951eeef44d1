use vstd::prelude::*;

verus! {

/// The state of one position of the grid.
#[derive(Debug, Copy, Clone, PartialEq, Eq, Structural)]
pub enum Cell {
    Dead,
    Live,
}

impl Cell {
    /// The opposite state.
    pub open spec fn flipped(self) -> Cell {
        match self {
            Cell::Dead => Cell::Live,
            Cell::Live => Cell::Dead,
        }
    }

    /// The state that a drawn integer stands for: zero is dead, anything else is live.
    pub open spec fn of_draw(draw: int) -> Cell {
        if draw == 0 {
            Cell::Dead
        } else {
            Cell::Live
        }
    }

    /// The character that shows the state in text.
    pub open spec fn glyph(self) -> char {
        match self {
            Cell::Dead => ' ',
            Cell::Live => '@',
        }
    }

    /// Returns the character that shows the state in text.
    pub fn to_char(self) -> (c: char)
        ensures
            c == self.glyph(),
    {
        match self {
            Cell::Dead => ' ',
            Cell::Live => '@',
        }
    }

    /// Returns the opposite state.
    pub fn toggled(self) -> (c: Cell)
        ensures
            c == self.flipped(),
    {
        match self {
            Cell::Dead => Cell::Live,
            Cell::Live => Cell::Dead,
        }
    }

    /// Turns a drawn integer into a state: zero is dead, anything else is live.
    pub fn from_draw(draw: i32) -> (c: Cell)
        ensures
            c == Cell::of_draw(draw as int),
    {
        match draw {
            0 => Cell::Dead,
            _ => Cell::Live,
        }
    }
}

} // verus!
