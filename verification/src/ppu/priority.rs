//! The order in which the sprites of a scanline are drawn.

use vstd::prelude::*;
use vstd::relations::sorted_by;
use vstd::relations::total_ordering;
use vstd::seq_lib::lemma_sorted_unique;
use std::cmp::Ordering;
use itertools::Itertools;

verus! {

/// A selected sprite's sort key: its `x`, then its position among the
/// sprites selected for the scanline.
pub type SpriteKey = (u8, u8);

/// `a` is drawn no later than `b`: larger `x` first, and among equal `x`
/// the later position first. The sprite drawn last is thus the one with the
/// smallest `x` and, among those, the earliest position.
pub open spec fn drawn_before(a: SpriteKey, b: SpriteKey) -> bool {
    a.0 > b.0 || (a.0 == b.0 && a.1 >= b.1)
}

/// `drawn_before` as a relation to sort by.
pub open spec fn drawing_order() -> spec_fn(SpriteKey, SpriteKey) -> bool {
    |a: SpriteKey, b: SpriteKey| drawn_before(a, b)
}

/// The drawing order is a total order of the keys.
pub proof fn lemma_drawing_order_total()
    ensures
        total_ordering(drawing_order()),
{
}

/// Compares two keys for the sort: `Less` means drawn earlier.
pub fn sprite_order(a: &SpriteKey, b: &SpriteKey) -> (order: Ordering)
    ensures
        order == Ordering::Less <==> (drawn_before(*a, *b) && *a != *b),
        order == Ordering::Equal <==> *a == *b,
        order == Ordering::Greater <==> !drawn_before(*a, *b),
{
    if a.0 > b.0 {
        Ordering::Less
    } else if a.0 < b.0 {
        Ordering::Greater
    } else if a.1 > b.1 {
        Ordering::Less
    } else if a.1 < b.1 {
        Ordering::Greater
    } else {
        Ordering::Equal
    }
}

/// `Itertools::sorted_by` with `sprite_order`: the same keys, rearranged so
/// that each is drawn no later than the next. The outside sort is stable and
/// sorts ascending by the comparison it is given.
#[verifier::external_body]
pub(crate) fn sort_keys(keys: Vec<SpriteKey>) -> (sorted: Vec<SpriteKey>)
    ensures
        sorted@.to_multiset() == keys@.to_multiset(),
        sorted_by(sorted@, drawing_order()),
{
    keys.into_iter().sorted_by(|a, b| sprite_order(a, b)).collect()
}

/// The keys in drawing order.
pub fn sorted_keys(keys: Vec<SpriteKey>) -> (sorted: Vec<SpriteKey>)
    ensures
        sorted@ == keys@.sort_by(drawing_order()),
{
    let ghost before = keys@;
    let sorted = sort_keys(keys);
    proof {
        lemma_drawing_order_total();
        before.lemma_sort_by_ensures(drawing_order());
        lemma_sorted_unique(sorted@, before.sort_by(drawing_order()), drawing_order());
    }
    sorted
}

} // verus!
