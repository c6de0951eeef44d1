use crate::cell::Cell;
use rand::rngs::ThreadRng;
use rand::seq::SliceRandom;
use rand::Rng;
use vstd::prelude::*;

verus! {

/// `rand::rngs::ThreadRng`, the handle to the generator of the current
/// thread. Nothing inside it is visible to the proofs.
#[verifier::external_type_specification]
#[verifier::external_body]
pub struct ExThreadRng(ThreadRng);

/// `rand::thread_rng` hands out the generator of the current thread.
/// Nothing is claimed of the handle.
pub assume_specification[ rand::thread_rng ]() -> (rng: ThreadRng)
;

/// `Rng::gen_range` on an inclusive range of `i32`. The range must not be
/// empty, or the call panics; the claim is that the number drawn lies in
/// the range. Which number comes is left open.
#[verifier::external_body]
fn draw_between(rng: &mut ThreadRng, low: i32, high: i32) -> (drawn: i32)
    requires
        low <= high,
    ensures
        low <= drawn <= high,
{
    rng.gen_range(low..=high)
}

/// `SliceRandom::choose` on a slice of cells. The claim is that an empty
/// slice gives nothing and any other slice gives one of its elements.
/// Which element comes is left open.
#[verifier::external_body]
fn choose_among<'a>(cells: &'a [Cell], rng: &mut ThreadRng) -> (chosen: Option<&'a Cell>)
    ensures
        cells@.len() == 0 ==> chosen is None,
        cells@.len() > 0 ==> chosen is Some && cells@.contains(*chosen->0),
{
    cells.choose(rng)
}

/// Draws `len` cells, each from a zero-or-one draw of the generator of the
/// current thread.
pub(crate) fn drawn_cells(len: usize) -> (cells: Vec<Cell>)
    ensures
        cells@.len() == len,
{
    let mut rng = rand::thread_rng();
    let mut cells: Vec<Cell> = Vec::new();
    let mut i: usize = 0;
    while i < len
        invariant
            i <= len,
            cells@.len() == i,
        decreases len - i,
    {
        let drawn = draw_between(&mut rng, 0, 1);
        cells.push(Cell::from_draw(drawn));
        i += 1;
    }
    cells
}

/// Picks `len` cells, each one of the two states as the generator of the
/// current thread chooses.
pub(crate) fn chosen_cells(len: usize) -> (cells: Vec<Cell>)
    ensures
        cells@.len() == len,
{
    let variants = [Cell::Dead, Cell::Live];
    let mut rng = rand::thread_rng();
    let mut cells: Vec<Cell> = Vec::new();
    let mut i: usize = 0;
    while i < len
        invariant
            i <= len,
            cells@.len() == i,
            variants@.len() == 2,
        decreases len - i,
    {
        let chosen = choose_among(variants.as_slice(), &mut rng);
        cells.push(*chosen.unwrap());
        i += 1;
    }
    cells
}

} // verus!
