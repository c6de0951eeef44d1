use crate::arith::{lemma_index_to_position, lemma_position_to_index, lemma_ring_step};
use crate::cell::Cell;
use crate::grid::GridView;
use crate::notation::{
    all_digits, birth_side, digit_set, is_digit, parsed, slash_at, sole_slash, survival_side,
    ParseError,
};
use crate::rule::RuleView;
use crate::state::AutomatonView;
use vstd::arithmetic::div_mod::{lemma_add_mod_noop_right, lemma_mod_bound};
use vstd::prelude::*;

verus! {

/// A coordinate and its wrapped image have the same neighbours on the ring:
/// stepping by `step` from either arrives at the same place.
proof fn lemma_wrapped_step(x: int, step: int, n: int)
    requires
        0 < n,
    ensures
        ((x % n) + step) % n == (x + step) % n,
        0 <= x % n < n,
{
    lemma_add_mod_noop_right(step, x, n);
    lemma_mod_bound(x, n);
}

/// On the plane that the grid tiles, a position and the position it wraps
/// to have the same number of live neighbours.
pub proof fn lemma_neighbors_of_wrapped(grid: GridView, row: int, col: int)
    requires
        grid.size > 0,
    ensures
        grid.live_neighbors(row % (grid.size as int), col % (grid.size as int))
            == grid.live_neighbors(row, col),
{
    let n = grid.size as int;
    lemma_wrapped_step(row, -1, n);
    lemma_wrapped_step(row, 0, n);
    lemma_wrapped_step(row, 1, n);
    lemma_wrapped_step(col, -1, n);
    lemma_wrapped_step(col, 0, n);
    lemma_wrapped_step(col, 1, n);
}

/// The grid evolves as the plane that it tiles seamlessly would: at every
/// position of the plane, also across the edges of the grid, the next
/// state is the rule applied to the state there and to the number of live
/// cells among the eight positions around it.
pub proof fn lemma_evolves_as_tiled_plane(grid: GridView, rule: RuleView, row: int, col: int)
    requires
        grid.valid(),
        grid.size > 0,
    ensures
        grid.evolved(rule).wrapped(row, col) == rule.next_state(
            grid.wrapped(row, col),
            grid.live_neighbors(row, col),
        ),
{
    let n = grid.size as int;
    let r = row % n;
    let c = col % n;
    lemma_mod_bound(row, n);
    lemma_mod_bound(col, n);
    lemma_position_to_index(n, r, c);
    lemma_neighbors_of_wrapped(grid, row, col);
    assert(grid.evolved(rule).at(r, c) == grid.next_at(rule, r, c));
}

/// The neighbours of a position inside the grid, spelled out: the row above
/// the first row is the last row, the row below the last row is the first,
/// and so for the columns.
pub proof fn lemma_neighbors_across_edges(grid: GridView, row: int, col: int)
    requires
        grid.in_bounds(row, col),
    ensures
        ({
            let last = grid.size - 1;
            let up = if row == 0 {
                last
            } else {
                row - 1
            };
            let down = if row == last {
                0
            } else {
                row + 1
            };
            let left = if col == 0 {
                last
            } else {
                col - 1
            };
            let right = if col == last {
                0
            } else {
                col + 1
            };
            let one = |r: int, c: int|
                if grid.at(r, c) == Cell::Live {
                    1int
                } else {
                    0int
                };
            grid.live_neighbors(row, col) == one(row, right) + one(up, right) + one(up, col) + one(
                up,
                left,
            ) + one(row, left) + one(down, left) + one(down, col) + one(down, right)
        }),
{
    lemma_ring_step(row, grid.size as int);
    lemma_ring_step(col, grid.size as int);
}

/// On a grid of one cell, all eight neighbours are the cell itself: a live
/// cell counts eight live neighbours, a dead one none.
pub proof fn lemma_single_cell_neighbors(grid: GridView)
    requires
        grid.size == 1,
    ensures
        grid.live_neighbors(0, 0) == (if grid.at(0, 0) == Cell::Live {
            8int
        } else {
            0int
        }),
{
    lemma_neighbors_across_edges(grid, 0, 0);
}

/// A grid without cells is its own next generation under every rule.
pub proof fn lemma_empty_grid_stays(grid: GridView, rule: RuleView)
    requires
        grid.valid(),
        grid.size == 0,
    ensures
        grid.evolved(rule) == grid,
{
    assert(grid.evolved(rule).cells =~= grid.cells);
}

/// Flipping the same cell twice gives the grid back.
pub proof fn lemma_toggle_twice(grid: GridView, row: int, col: int)
    requires
        grid.valid(),
    ensures
        grid.toggled(row, col).toggled(row, col) == grid,
{
    if grid.in_bounds(row, col) {
        lemma_position_to_index(grid.size as int, row, col);
        assert(grid.toggled(row, col).toggled(row, col).cells =~= grid.cells);
    }
}

/// Flipping a cell changes that cell and no other, and flipping outside the
/// grid changes nothing.
pub proof fn lemma_toggle_one_cell(grid: GridView, row: int, col: int, r: int, c: int)
    requires
        grid.valid(),
        grid.in_bounds(r, c),
    ensures
        grid.toggled(row, col).valid(),
        grid.toggled(row, col).size == grid.size,
        grid.toggled(row, col).at(r, c) == (if r == row && c == col {
            grid.at(r, c).flipped()
        } else {
            grid.at(r, c)
        }),
{
    lemma_position_to_index(grid.size as int, r, c);
    if grid.in_bounds(row, col) {
        lemma_position_to_index(grid.size as int, row, col);
    }
}

/// A cleared grid keeps its size and holds a dead cell at every position,
/// whatever it held before.
pub proof fn lemma_cleared_is_dead(grid: GridView, row: int, col: int)
    requires
        grid.in_bounds(row, col),
    ensures
        grid.cleared().valid(),
        grid.cleared().size == grid.size,
        grid.cleared().get(row, col) == Some(Cell::Dead),
{
    lemma_position_to_index(grid.size as int, row, col);
}

/// Growing a grid and then shrinking it back to its size gives the grid
/// back: the shift of the way back undoes the shift of the way out,
/// whether the difference of the sizes is even or odd.
pub proof fn lemma_grow_then_shrink(grid: GridView, larger: nat)
    requires
        grid.valid(),
        larger >= grid.size,
    ensures
        grid.resized(larger).resized(grid.size) == grid,
{
    let n = grid.size as int;
    let m = larger as int;
    let grown = grid.resized(larger);
    let back = grown.resized(grid.size);
    let shift = GridView::center_offset(n, m);
    assert(GridView::center_offset(m, n) == -shift);
    assert(0 <= shift && n + shift <= m);
    assert forall|i: int| 0 <= i < n * n implies back.cells[i] == grid.cells[i] by {
        lemma_index_to_position(n, i);
        let r = i / n;
        let c = i % n;
        lemma_position_to_index(m, r + shift, c + shift);
        assert(grown.in_bounds(r + shift, c + shift));
        assert(back.cells[i] == grown.at(r + shift, c + shift));
        assert(grown.at(r + shift, c + shift) == grid.resized_at(larger, r + shift, c + shift));
        assert(grid.in_bounds(r, c));
    }
    assert(back.cells =~= grid.cells);
}

/// The cell of a resized grid at a position inside it: the old cell that
/// the shift brings there, or a dead cell where the old grid has none.
pub proof fn lemma_resized_at(grid: GridView, new_size: nat, row: int, col: int)
    requires
        0 <= row < new_size,
        0 <= col < new_size,
    ensures
        grid.resized(new_size).valid(),
        grid.resized(new_size).at(row, col) == grid.resized_at(new_size, row, col),
{
    lemma_position_to_index(new_size as int, row, col);
}

/// The next generation has the size of the current one and is valid.
pub proof fn lemma_evolved_is_valid(grid: GridView, rule: RuleView)
    ensures
        grid.evolved(rule).valid(),
        grid.evolved(rule).size == grid.size,
{
}

/// Evolving `m` times and then `n` times is evolving `m + n` times.
pub proof fn lemma_evolved_times_add(automaton: AutomatonView, m: nat, n: nat)
    ensures
        automaton.evolved_times(m + n) == automaton.evolved_times(m).evolved_times(n),
    decreases m,
{
    if m > 0 {
        lemma_evolved_times_add(automaton.evolved(), (m - 1) as nat, n);
        assert(automaton.evolved_times(m + n) == automaton.evolved().evolved_times(
            (m + n - 1) as nat,
        ));
    }
}

/// A pattern that comes back after `period` generations comes back after
/// every multiple of `period` generations.
pub proof fn lemma_period_repeats(automaton: AutomatonView, period: nat, rounds: nat)
    requires
        automaton.evolved_times(period) == automaton,
    ensures
        automaton.evolved_times(rounds * period) == automaton,
    decreases rounds,
{
    if rounds > 0 {
        lemma_period_repeats(automaton, period, (rounds - 1) as nat);
        assert(rounds * period == (rounds - 1) * period + period) by (nonlinear_arith)
            requires
                rounds > 0,
        ;
        lemma_evolved_times_add(automaton, ((rounds - 1) * period) as nat, period);
    } else {
        assert(rounds * period == 0) by (nonlinear_arith)
            requires
                rounds == 0,
        ;
    }
}

/// Every text of the notation `B<digits>/S<digits>` is a rule: the one
/// whose sets hold the numbers of the digits on either side.
pub proof fn lemma_notation_is_parsed(birth: Seq<char>, survival: Seq<char>)
    requires
        all_digits(birth),
        all_digits(survival),
    ensures
        parsed(seq!['B'] + birth + seq!['/', 'S'] + survival) == Ok::<RuleView, ParseError>(
            RuleView { birth: digit_set(birth), survival: digit_set(survival) },
        ),
{
    let s = seq!['B'] + birth + seq!['/', 'S'] + survival;
    let k = 1 + birth.len() as int;
    assert(s[k] == '/');
    assert forall|j: int| 0 <= j < s.len() implies (#[trigger] s[j] == '/' <==> j == k) by {
        if 1 <= j < k {
            assert(s[j] == birth[j - 1]);
            assert(is_digit(birth[j - 1]));
        } else if j > k + 1 {
            assert(s[j] == survival[j - k - 2]);
            assert(is_digit(survival[j - k - 2]));
        } else if j == k + 1 {
            assert(s[j] == 'S');
        } else if j == 0 {
            assert(s[j] == 'B');
        }
    }
    assert(sole_slash(s, k));
    let found = slash_at(s);
    assert(sole_slash(s, found));
    assert(s[found] == '/');
    assert(found == k);
    assert(birth_side(s).skip(1) =~= birth);
    assert(survival_side(s).skip(1) =~= survival);
    assert(birth_side(s)[0] == 'B');
    assert(survival_side(s)[0] == 'S');
}

/// Only the texts of the notation `B<digits>/S<digits>` are rules.
pub proof fn lemma_parsed_is_notation(s: Seq<char>)
    requires
        parsed(s) is Ok,
    ensures
        exists|birth: Seq<char>, survival: Seq<char>|
            all_digits(birth) && all_digits(survival) && s == seq!['B'] + birth + seq!['/', 'S']
                + survival,
{
    let k = slash_at(s);
    assert(sole_slash(s, k));
    let birth = birth_side(s).skip(1);
    let survival = survival_side(s).skip(1);
    assert(s =~= seq!['B'] + birth + seq!['/', 'S'] + survival);
}

} // verus!
