//! Repricing own BitSkins offers: step each price down, but never below the
//! cheapest competing listing.
use crate::text::str_eq;
use vstd::prelude::*;

verus! {

/// Listings per page when searching.
pub const MAX_LIMIT: usize = 100;
/// Deepest offset the search serves.
pub const MAX_OFFSET: usize = 2000;
/// The listing status of items on sale.
pub const STATUS_SELLING: usize = 2;
/// Spacing of requests: the API's 200 ms, run at 0.2 of its rate.
pub const REQUEST_INTERVAL_MS: u64 = 1000;
/// How much an offer is lowered per run, in the API's price unit.
pub const PRICE_STEP: u32 = 10;
/// Largest batch of price updates sent at once.
pub const UPDATE_BATCH: usize = 100;

/// A listing as the repricer reads it.
#[derive(Debug)]
pub struct Listing {
    pub id: String,
    pub name: String,
    pub price: u32,
    pub skin_id: i32,
}

/// A new price for one of our listings.
#[derive(Debug)]
pub struct ItemPrice {
    pub id: String,
    pub price: u32,
}

/// The price after one step down, not below zero.
pub open spec fn lowered_spec(current: u32) -> u32 {
    if current >= PRICE_STEP { (current - PRICE_STEP) as u32 } else { 0 }
}

/// The new price of an offer: one step down, but not below the cheapest
/// competitor (which may lift it above the current price).
pub open spec fn new_price_spec(current: u32, competitor: Option<u32>) -> u32 {
    match competitor {
        Some(c) => if c > lowered_spec(current) { c } else { lowered_spec(current) },
        None => lowered_spec(current),
    }
}

/// The new price of an offer currently at `current`.
pub fn new_price(current: u32, competitor: Option<u32>) -> (p: u32)
    ensures
        p == new_price_spec(current, competitor),
{
    let lowered = if current >= PRICE_STEP { current - PRICE_STEP } else { 0 };
    match competitor {
        Some(c) => if c > lowered { c } else { lowered },
        None => lowered,
    }
}

/// The update for one offer, or `None` when its price stays.
pub fn price_update(id: String, current: u32, competitor: Option<u32>) -> (u: Option<ItemPrice>)
    ensures
        new_price_spec(current, competitor) == current ==> u is None,
        new_price_spec(current, competitor) != current ==> u == Some(ItemPrice { id, price: new_price_spec(current, competitor) }),
{
    let p = new_price(current, competitor);
    if p != current {
        Some(ItemPrice { id, price: p })
    } else {
        None
    }
}

/// The ids of `own`, as character sequences.
pub open spec fn own_ids(own: Seq<String>) -> Seq<Seq<char>> {
    own.map_values(|s: String| s@)
}

/// `i` is the first listing of `page` that is not ours.
pub open spec fn is_first_foreign(page: Seq<Listing>, own: Seq<String>, i: int) -> bool {
    &&& 0 <= i < page.len()
    &&& !own_ids(own).contains(page[i].id@)
    &&& forall|j: int| 0 <= j < i ==> own_ids(own).contains(#[trigger] page[j].id@)
}

/// Whether `own` holds `id`.
fn is_own(own: &Vec<String>, id: &String) -> (r: bool)
    ensures
        r == own_ids(own@).contains(id@),
{
    let mut i: usize = 0;
    while i < own.len()
        invariant
            i <= own@.len(),
            forall|k: int| 0 <= k < i ==> own@[k]@ != id@,
        decreases own@.len() - i,
    {
        if str_eq(own[i].as_str(), id.as_str()) {
            assert(own_ids(own@)[i as int] == id@);
            return true;
        }
        i = i + 1;
    }
    assert forall|k: int| 0 <= k < own_ids(own@).len() implies own_ids(own@)[k] != id@ by {
        assert(own_ids(own@)[k] == own@[k]@);
    }
    false
}

/// The price of the first listing on a page (sorted cheapest first) that is
/// not one of our own, if there is one.
pub fn first_competitor_price(page: &Vec<Listing>, own: &Vec<String>) -> (r: Option<u32>)
    ensures
        match r {
            Some(p) => exists|i: int| is_first_foreign(page@, own@, i) && p == page@[i].price,
            None => forall|i: int| 0 <= i < page@.len() ==> own_ids(own@).contains(#[trigger] page@[i].id@),
        },
{
    let mut i: usize = 0;
    while i < page.len()
        invariant
            i <= page@.len(),
            forall|j: int| 0 <= j < i ==> own_ids(own@).contains(#[trigger] page@[j].id@),
        decreases page@.len() - i,
    {
        if !is_own(own, &page[i].id) {
            assert(is_first_foreign(page@, own@, i as int));
            return Some(page[i].price);
        }
        i = i + 1;
    }
    None
}

/// An offer is never lowered by more than one step, and a competitor above the
/// lowered price is matched exactly.
pub proof fn lemma_repricing_bounds(current: u32, competitor: Option<u32>)
    ensures
        new_price_spec(current, competitor) >= lowered_spec(current),
        lowered_spec(current) + PRICE_STEP >= current,
        forall|c: u32| competitor == Some(c) && c > lowered_spec(current) ==> new_price_spec(current, competitor) == c,
{
}


/// Without a competitor an offer goes down by exactly one step (to zero when
/// it is below one step), and a competitor only ever lifts that price to its
/// own: the new price is the larger of the two.
pub proof fn lemma_exactly_one_step_down(current: u32, competitor: Option<u32>)
    ensures
        current >= PRICE_STEP ==> new_price_spec(current, None) + PRICE_STEP == current,
        current < PRICE_STEP ==> new_price_spec(current, None) == 0,
        forall|c: u32| competitor == Some(c) ==> new_price_spec(current, competitor) == (if c > new_price_spec(current, None) {
            c
        } else {
            new_price_spec(current, None)
        }),
{
}

} // verus!
