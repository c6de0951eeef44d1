use vstd::arithmetic::div_mod::{
    lemma_fundamental_div_mod, lemma_fundamental_div_mod_converse, lemma_mod_add_multiples_vanish,
    lemma_mod_bound, lemma_mod_sub_multiples_vanish, lemma_multiply_divide_lt, lemma_small_mod,
};
use vstd::prelude::*;

verus! {

/// Row-major addressing: a position inside a square of side `size` has an
/// index inside the buffer, and the index gives the position back.
pub proof fn lemma_position_to_index(size: int, row: int, col: int)
    requires
        0 <= row < size,
        0 <= col < size,
    ensures
        0 <= row * size + col < size * size,
        (row * size + col) / size == row,
        (row * size + col) % size == col,
{
    assert(row * size + col < size * size && row * size >= 0) by (nonlinear_arith)
        requires
            0 <= row < size,
            0 <= col < size,
    ;
    lemma_fundamental_div_mod_converse(row * size + col, size, row, col);
}

/// Row-major addressing: an index inside the buffer splits into a row and a
/// column, both inside the square.
pub proof fn lemma_index_to_position(size: int, i: int)
    requires
        0 <= size,
        0 <= i < size * size,
    ensures
        0 < size,
        0 <= i / size < size,
        0 <= i % size < size,
        (i / size) * size + i % size == i,
{
    assert(0 < size) by (nonlinear_arith)
        requires
            0 <= size,
            0 <= i < size * size,
    ;
    lemma_multiply_divide_lt(i, size, size);
    lemma_mod_bound(i, size);
    lemma_fundamental_div_mod(i, size);
    assert(size * (i / size) == (i / size) * size) by (nonlinear_arith);
    assert(0 <= i / size) by (nonlinear_arith)
        requires
            0 <= i,
            0 < size,
    ;
}

/// Stepping by one on a ring of `n` positions: the step off either end
/// arrives at the other end.
pub proof fn lemma_ring_step(i: int, n: int)
    requires
        0 <= i < n,
    ensures
        i % n == i,
        (i + 1) % n == (if i + 1 == n {
            0
        } else {
            i + 1
        }),
        (i - 1) % n == (if i == 0 {
            n - 1
        } else {
            i - 1
        }),
{
    lemma_small_mod(i as nat, n as nat);
    if i + 1 == n {
        lemma_mod_sub_multiples_vanish(i + 1, n);
        lemma_small_mod(0, n as nat);
    } else {
        lemma_small_mod((i + 1) as nat, n as nat);
    }
    if i == 0 {
        lemma_mod_add_multiples_vanish(-1, n);
        lemma_small_mod((n - 1) as nat, n as nat);
    } else {
        lemma_small_mod((i - 1) as nat, n as nat);
    }
}

} // verus!
