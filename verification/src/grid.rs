use crate::arith::{lemma_index_to_position, lemma_position_to_index, lemma_ring_step};
use crate::cell::Cell;
use crate::random::{chosen_cells, drawn_cells};
use crate::rule::{Rule, RuleView};
use vstd::prelude::*;

verus! {

/// The mathematical content of a grid: a side length and the cells in
/// row-major order.
pub struct GridView {
    pub size: nat,
    pub cells: Seq<Cell>,
}

impl GridView {
    /// The grid that a square matrix of cells describes, row by row.
    pub open spec fn of_rows<const N: usize>(rows: [[Cell; N]; N]) -> GridView {
        GridView {
            size: N as nat,
            cells: Seq::new((N * N) as nat, |i: int| rows@[i / (N as int)]@[i % (N as int)]),
        }
    }

    /// The buffer holds exactly one cell per position of the square.
    pub open spec fn valid(self) -> bool {
        self.cells.len() == self.size * self.size
    }

    /// Whether a position lies inside the square.
    pub open spec fn in_bounds(self, row: int, col: int) -> bool {
        0 <= row < self.size && 0 <= col < self.size
    }

    /// The cell at a position inside the square.
    pub open spec fn at(self, row: int, col: int) -> Cell
        recommends
            self.in_bounds(row, col),
    {
        self.cells[row * self.size + col]
    }

    /// What a query for a position answers: the cell, or nothing outside the
    /// square.
    pub open spec fn get(self, row: int, col: int) -> Option<Cell> {
        if self.in_bounds(row, col) {
            Some(self.at(row, col))
        } else {
            None
        }
    }

    /// The cell at any position of the plane that the grid tiles seamlessly:
    /// both coordinates wrap around the edges.
    pub open spec fn wrapped(self, row: int, col: int) -> Cell
        recommends
            self.size > 0,
    {
        self.at(row % (self.size as int), col % (self.size as int))
    }

    /// One if the wrapped position holds a live cell, zero otherwise.
    pub open spec fn alive(self, row: int, col: int) -> int {
        if self.wrapped(row, col) == Cell::Live {
            1
        } else {
            0
        }
    }

    /// The number of live cells among the eight neighbours of a position, on
    /// the torus.
    pub open spec fn live_neighbors(self, row: int, col: int) -> int {
        self.alive(row, col + 1) + self.alive(row - 1, col + 1) + self.alive(row - 1, col)
            + self.alive(row - 1, col - 1) + self.alive(row, col - 1) + self.alive(
            row + 1,
            col - 1,
        ) + self.alive(row + 1, col) + self.alive(row + 1, col + 1)
    }

    /// The state of a position in the next generation.
    pub open spec fn next_at(self, rule: RuleView, row: int, col: int) -> Cell {
        rule.next_state(self.at(row, col), self.live_neighbors(row, col))
    }

    /// The next generation: every cell is computed from the current one.
    pub open spec fn evolved(self, rule: RuleView) -> GridView {
        GridView {
            size: self.size,
            cells: Seq::new(
                self.size * self.size,
                |i: int| self.next_at(rule, i / (self.size as int), i % (self.size as int)),
            ),
        }
    }

    /// The grid of the same size with every cell dead.
    pub open spec fn cleared(self) -> GridView {
        GridView { size: self.size, cells: Seq::new(self.size * self.size, |i: int| Cell::Dead) }
    }

    /// How far the old content is shifted down and right when a grid of side
    /// `old_size` becomes one of side `new_size`: half the difference,
    /// rounded toward zero.
    pub open spec fn center_offset(old_size: int, new_size: int) -> int {
        if new_size >= old_size {
            (new_size - old_size) / 2
        } else {
            -((old_size - new_size) / 2)
        }
    }

    /// The cell at a position of the resized grid: the old cell that the
    /// shift brings there, or a dead cell where the old grid has none.
    pub open spec fn resized_at(self, new_size: nat, row: int, col: int) -> Cell {
        let offset = Self::center_offset(self.size as int, new_size as int);
        if self.in_bounds(row - offset, col - offset) {
            self.at(row - offset, col - offset)
        } else {
            Cell::Dead
        }
    }

    /// The grid cropped or padded around its centre to a new side length.
    pub open spec fn resized(self, new_size: nat) -> GridView {
        GridView {
            size: new_size,
            cells: Seq::new(
                new_size * new_size,
                |i: int| self.resized_at(new_size, i / (new_size as int), i % (new_size as int)),
            ),
        }
    }

    /// One row as text: a character per cell, then a line break.
    pub open spec fn row_text(self, row: int) -> Seq<char> {
        Seq::new(self.size, |col: int| self.at(row, col).glyph()).push('\n')
    }

    /// The first `rows` rows as text, one after the other.
    pub open spec fn rows_text(self, rows: nat) -> Seq<char>
        decreases rows,
    {
        if rows == 0 {
            Seq::empty()
        } else {
            self.rows_text((rows - 1) as nat) + self.row_text(rows - 1)
        }
    }

    /// The whole grid as text: every row, each followed by a line break.
    pub open spec fn rendered(self) -> Seq<char> {
        self.rows_text(self.size)
    }

    /// The grid with the cell at a position flipped; unchanged if the
    /// position lies outside the square.
    pub open spec fn toggled(self, row: int, col: int) -> GridView {
        if self.in_bounds(row, col) {
            GridView {
                size: self.size,
                cells: self.cells.update(row * self.size + col, self.at(row, col).flipped()),
            }
        } else {
            self
        }
    }
}

/// A square grid of cells, stored flat in row-major order.
#[derive(Debug)]
pub struct Grid {
    size: usize,
    cells: Vec<Cell>,
}

impl View for Grid {
    type V = GridView;

    closed spec fn view(&self) -> GridView {
        GridView { size: self.size as nat, cells: self.cells@ }
    }
}

impl Grid {
    #[verifier::type_invariant]
    pub(crate) closed spec fn well_formed(self) -> bool {
        self.cells@.len() == self.size * self.size
    }

    /// What holds of every grid that the program holds, in terms of its
    /// view.
    pub(crate) proof fn lemma_well_formed_is_valid(self)
        requires
            self.well_formed(),
        ensures
            self@.valid(),
    {
    }

    /// Builds the grid that a square matrix of cells describes, row by row.
    pub fn from_rows<const N: usize>(rows: [[Cell; N]; N]) -> (grid: Grid)
        ensures
            grid@ == GridView::of_rows(rows),
            grid@.valid(),
    {
        let mut cells: Vec<Cell> = Vec::new();
        let mut row: usize = 0;
        while row < N
            invariant
                row <= N,
                cells@.len() == row * N,
                forall|k: int|
                    0 <= k < cells@.len() ==> cells@[k] == rows@[k / (N as int)]@[k % (N as int)],
            decreases N - row,
        {
            let mut col: usize = 0;
            while col < N
                invariant
                    row < N,
                    col <= N,
                    cells@.len() == row * N + col,
                    forall|k: int|
                        0 <= k < cells@.len() ==> cells@[k] == rows@[k / (N as int)]@[k % (
                        N as int)],
                decreases N - col,
            {
                proof {
                    lemma_position_to_index(N as int, row as int, col as int);
                }
                cells.push(rows[row][col]);
                col += 1;
            }
            assert((row + 1) * N == row * N + N) by (nonlinear_arith);
            row += 1;
        }
        assert(cells@ =~= GridView::of_rows(rows).cells);
        Grid { size: N, cells }
    }

    /// Builds a grid of the given side length from its cells in row-major
    /// order; nothing if their number is not the square of the side length.
    pub fn from_cells(size: usize, cells: Vec<Cell>) -> (grid: Option<Grid>)
        ensures
            match grid {
                Some(g) => g@.size == size && g@.cells == cells@ && g@.valid(),
                None => cells@.len() != size * size,
            },
    {
        let given = cells.len();
        match size.checked_mul(size) {
            Some(len) => if len == given {
                Some(Grid { size, cells })
            } else {
                None
            },
            None => None,
        }
    }

    /// A grid of the given side length whose cells are drawn at random, one
    /// zero-or-one draw each.
    pub fn random(size: usize) -> (grid: Grid)
        requires
            size * size <= usize::MAX,
        ensures
            grid@.size == size,
            grid@.valid(),
    {
        let cells = drawn_cells(size * size);
        Grid { size, cells }
    }

    /// A grid of the given side length whose cells are picked at random, each
    /// among the two states.
    pub fn random_choice(size: usize) -> (grid: Grid)
        requires
            size * size <= usize::MAX,
        ensures
            grid@.size == size,
            grid@.valid(),
    {
        let cells = chosen_cells(size * size);
        Grid { size, cells }
    }

    /// Sets every cell anew at random, whatever it held; the size stays.
    pub fn randomize(&mut self)
        ensures
            final(self)@.size == old(self)@.size,
            final(self)@.valid(),
    {
        proof {
            use_type_invariant(&*self);
        }
        let len = self.cells.len();
        self.cells = drawn_cells(len);
    }

    /// The cells in row-major order.
    pub fn cells(&self) -> (cells: Vec<Cell>)
        ensures
            cells@ == self@.cells,
    {
        self.cells.clone()
    }

    /// The side length.
    pub fn size(&self) -> (size: usize)
        ensures
            size == self@.size,
            self@.valid(),
    {
        proof {
            use_type_invariant(self);
        }
        self.size
    }

    /// The cell at a position, or nothing if the position lies outside the
    /// square.
    pub fn get(&self, row: usize, col: usize) -> (cell: Option<&Cell>)
        ensures
            match cell {
                Some(c) => self@.get(row as int, col as int) == Some(*c),
                None => self@.get(row as int, col as int) is None,
            },
    {
        proof {
            use_type_invariant(self);
        }
        if row < self.size && col < self.size {
            let i = self.index_of(row, col);
            Some(&self.cells[i])
        } else {
            None
        }
    }

    /// Flips the cell at a position; does nothing if the position lies
    /// outside the square.
    pub fn toggle(&mut self, row: usize, col: usize)
        ensures
            final(self)@ == old(self)@.toggled(row as int, col as int),
            final(self)@.valid(),
    {
        proof {
            use_type_invariant(&*self);
        }
        if row < self.size && col < self.size {
            let i = self.index_of(row, col);
            let flipped = self.cells[i].toggled();
            self.cells[i] = flipped;
        }
    }

    /// Sets every cell to dead; the size stays.
    pub fn clear(&mut self)
        ensures
            final(self)@ == old(self)@.cleared(),
            final(self)@.valid(),
    {
        proof {
            use_type_invariant(&*self);
        }
        let len = self.cells.len();
        let mut cells: Vec<Cell> = Vec::new();
        let mut i: usize = 0;
        while i < len
            invariant
                i <= len,
                cells@.len() == i,
                forall|k: int| 0 <= k < i ==> cells@[k] == Cell::Dead,
            decreases len - i,
        {
            cells.push(Cell::Dead);
            i += 1;
        }
        assert(cells@ =~= old(self)@.cleared().cells);
        self.cells = cells;
    }

    /// Replaces the grid by its next generation under the rule. The whole
    /// current generation is read before any cell of the next one is set.
    pub fn evolve(&mut self, rule: &Rule)
        ensures
            final(self)@ == old(self)@.evolved(rule@),
            final(self)@.valid(),
    {
        proof {
            use_type_invariant(&*self);
        }
        let len = self.cells.len();
        let mut next: Vec<Cell> = Vec::new();
        let mut i: usize = 0;
        while i < len
            invariant
                i <= len,
                len == self.cells@.len(),
                len == self.size * self.size,
                next@.len() == i,
                forall|k: int|
                    0 <= k < i ==> next@[k] == self@.next_at(
                        rule@,
                        k / (self.size as int),
                        k % (self.size as int),
                    ),
            decreases len - i,
        {
            proof {
                lemma_index_to_position(self.size as int, i as int);
            }
            let row = i / self.size;
            let col = i % self.size;
            let neighbors = self.live_neighbors(row, col);
            let current = self.cells[i];
            next.push(rule.apply(current, neighbors));
            i += 1;
        }
        assert(next@ =~= old(self)@.evolved(rule@).cells);
        self.cells = next;
    }

    /// Crops or pads the grid around its centre to a new side length. New
    /// positions that the old content does not reach are dead.
    pub fn resize(&mut self, new_size: usize)
        requires
            new_size * new_size <= usize::MAX,
        ensures
            final(self)@ == old(self)@.resized(new_size as nat),
            final(self)@.valid(),
    {
        proof {
            use_type_invariant(&*self);
        }
        let old_size = self.size;
        let grows = new_size >= old_size;
        let shift = if grows {
            (new_size - old_size) / 2
        } else {
            (old_size - new_size) / 2
        };
        let new_len = new_size * new_size;
        let mut cells: Vec<Cell> = Vec::new();
        let mut i: usize = 0;
        while i < new_len
            invariant
                i <= new_len,
                new_len == new_size * new_size,
                old_size == self.size,
                self.cells@.len() == self.size * self.size,
                grows == (new_size >= old_size),
                grows ==> shift == (new_size - old_size) / 2,
                !grows ==> shift == (old_size - new_size) / 2,
                cells@.len() == i,
                forall|k: int|
                    0 <= k < i ==> cells@[k] == self@.resized_at(
                        new_size as nat,
                        k / (new_size as int),
                        k % (new_size as int),
                    ),
            decreases new_len - i,
        {
            proof {
                lemma_index_to_position(new_size as int, i as int);
            }
            let row = i / new_size;
            let col = i % new_size;
            let cell = if grows {
                if row >= shift && row - shift < old_size && col >= shift && col - shift
                    < old_size {
                    let source = self.index_of(row - shift, col - shift);
                    self.cells[source]
                } else {
                    Cell::Dead
                }
            } else {
                if row < old_size - shift && col < old_size - shift {
                    let source = self.index_of(row + shift, col + shift);
                    self.cells[source]
                } else {
                    Cell::Dead
                }
            };
            cells.push(cell);
            i += 1;
        }
        assert(cells@ =~= old(self)@.resized(new_size as nat).cells);
        *self = Grid { size: new_size, cells };
    }

    /// Writes the grid as text: a space for a dead cell, `@` for a live one,
    /// a line break after every row.
    pub fn render(&self) -> (text: String)
        ensures
            text@ == self@.rendered(),
    {
        let mut text = String::new();
        let mut row: usize = 0;
        while row < self.size
            invariant
                row <= self.size,
                text@ == self@.rows_text(row as nat),
            decreases self.size - row,
        {
            let ghost before = text@;
            let mut col: usize = 0;
            while col < self.size
                invariant
                    row < self.size,
                    col <= self.size,
                    text@ == before + Seq::new(
                        col as nat,
                        |c: int| self@.at(row as int, c).glyph(),
                    ),
                decreases self.size - col,
            {
                let i = self.index_of(row, col);
                let glyph = self.cells[i].to_char();
                text.push(glyph);
                assert(text@ =~= before + Seq::new(
                    (col + 1) as nat,
                    |c: int| self@.at(row as int, c).glyph(),
                ));
                col += 1;
            }
            text.push('\n');
            assert(text@ =~= before + self@.row_text(row as int));
            row += 1;
        }
        text
    }

    /// Counts the live cells among the eight neighbours of a position, with
    /// both coordinates wrapping around the edges.
    fn live_neighbors(&self, row: usize, col: usize) -> (count: u8)
        requires
            self@.in_bounds(row as int, col as int),
        ensures
            count == self@.live_neighbors(row as int, col as int),
            count <= 8,
    {
        proof {
            lemma_ring_step(row as int, self.size as int);
            lemma_ring_step(col as int, self.size as int);
        }
        let last = self.size - 1;
        let up = if row == 0 {
            last
        } else {
            row - 1
        };
        let down = if row == last {
            0
        } else {
            row + 1
        };
        let left = if col == 0 {
            last
        } else {
            col - 1
        };
        let right = if col == last {
            0
        } else {
            col + 1
        };
        let ghost r = row as int;
        let ghost c = col as int;
        let east = self.alive(row, right, Ghost(r), Ghost(c + 1));
        let north_east = self.alive(up, right, Ghost(r - 1), Ghost(c + 1));
        let north = self.alive(up, col, Ghost(r - 1), Ghost(c));
        let north_west = self.alive(up, left, Ghost(r - 1), Ghost(c - 1));
        let west = self.alive(row, left, Ghost(r), Ghost(c - 1));
        let south_west = self.alive(down, left, Ghost(r + 1), Ghost(c - 1));
        let south = self.alive(down, col, Ghost(r + 1), Ghost(c));
        let south_east = self.alive(down, right, Ghost(r + 1), Ghost(c + 1));
        east + north_east + north + north_west + west + south_west + south + south_east
    }

    /// One if the position holds a live cell, zero otherwise. The position
    /// is where the plane coordinates `(r, c)` wrap to.
    fn alive(&self, row: usize, col: usize, Ghost(r): Ghost<int>, Ghost(c): Ghost<int>) -> (n: u8)
        requires
            row < self.size,
            col < self.size,
            r % (self.size as int) == row,
            c % (self.size as int) == col,
        ensures
            n == self@.alive(r, c),
            n <= 1,
    {
        let i = self.index_of(row, col);
        match self.cells[i] {
            Cell::Live => 1,
            Cell::Dead => 0,
        }
    }

    /// The place in the buffer of a position inside the square.
    fn index_of(&self, row: usize, col: usize) -> (i: usize)
        requires
            row < self.size,
            col < self.size,
        ensures
            i == row * self.size + col,
            i < self.cells@.len(),
            self.cells@.len() == self.size * self.size,
    {
        proof {
            use_type_invariant(self);
            lemma_position_to_index(self.size as int, row as int, col as int);
        }
        let len = self.cells.len();
        assert(row * self.size <= row * self.size + col < len);
        row * self.size + col
    }
}

} // verus!
