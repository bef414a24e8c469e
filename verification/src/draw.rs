//! The random draws, made by the `rand` crate with the generator of the
//! calling thread.

use rand::seq::SliceRandom;
use rand::Rng;
use vstd::prelude::*;

verus! {

/// Whether `from` gives, for each picked number, a position of the pool that
/// holds it, and gives no position twice.
pub open spec fn drawn_from(picked: Seq<usize>, pool: Seq<usize>, from: Seq<int>) -> bool {
    &&& from.len() == picked.len()
    &&& forall|j: int|
        0 <= j < picked.len() ==> 0 <= #[trigger] from[j] < pool.len() && picked[j] == pool[from[j]]
    &&& forall|j: int, k: int|
        0 <= j < k < picked.len() ==> #[trigger] from[j] != #[trigger] from[k]
}

/// Whether the picked numbers were taken from the pool without taking any
/// position of it twice.
pub open spec fn is_selection(picked: Seq<usize>, pool: Seq<usize>) -> bool {
    exists|from: Seq<int>| drawn_from(picked, pool, from)
}

/// `Rng::gen_range` of `rand` on the half-open range `low..high` of `i64`.
/// It panics on an empty range, which the precondition leaves out; what it
/// returns lies in the range.
#[verifier::external_body]
pub(crate) fn draw_int(low: i64, high: i64) -> (drawn: i64)
    requires
        low < high,
    ensures
        low <= drawn < high,
{
    rand::thread_rng().gen_range(low..high)
}

/// `Rng::gen_range` of `rand` on the closed range `least..=most` of `usize`.
/// It panics on an empty range, which the precondition leaves out; what it
/// returns lies in the range.
#[verifier::external_body]
pub(crate) fn draw_size(least: usize, most: usize) -> (drawn: usize)
    requires
        least <= most,
    ensures
        least <= drawn <= most,
{
    rand::thread_rng().gen_range(least..=most)
}

/// `SliceRandom::choose` of `rand`: a reference to one element of the slice,
/// or `None` if the slice is empty.
#[verifier::external_body]
pub(crate) fn pick_one<T>(items: &Vec<T>) -> (picked: Option<&T>)
    ensures
        picked is None <==> items@.len() == 0,
        picked matches Some(item) ==> exists|i: int| 0 <= i < items@.len() && items@[i] == *item,
{
    items.choose(&mut rand::thread_rng())
}

/// `SliceRandom::choose_multiple` of `rand`, its items collected: `amount`
/// elements of the slice, or all of them where it has fewer, taken at
/// distinct positions and in no stated order.
#[verifier::external_body]
pub(crate) fn pick_several(pool: &Vec<usize>, amount: usize) -> (picked: Vec<usize>)
    ensures
        amount <= pool@.len() ==> picked@.len() == amount,
        amount > pool@.len() ==> picked@.len() == pool@.len(),
        is_selection(picked@, pool@),
{
    pool.choose_multiple(&mut rand::thread_rng(), amount).cloned().collect()
}

} // verus!
