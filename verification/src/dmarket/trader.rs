//! DMarket trading rules that work on exact values: which sales are new,
//! what the highest plain bid is, and the trading constants.
use crate::dmarket::schema::{GameTitle, Sale, Target};
use crate::text::{parse_u64, parse_u64_spec};
use vstd::prelude::*;

verus! {

/// Requests in flight while syncing sales.
pub const MAX_TASKS: usize = 10;
/// Sales a title needs before its statistics are trusted.
pub const MIN_SALE_COUNT: i32 = 500;
/// Sales in the last thirty days a title needs before it is traded.
pub const MIN_MONTHLY_SALES: i32 = 60;
/// Largest batch of targets or offers sent in one request.
pub const MAX_CHUNK_SIZE: usize = 100;
/// The account whose own listings are not counted as competition.
pub const OWNER_ID: &'static str = "aa749fbf-e726-46db-9419-5a2f384a896e";

/// A decimal text read as `u64`, or 0 when it is not one.
pub open spec fn u64_or_zero(s: Seq<char>) -> u64 {
    match parse_u64_spec(s) {
        Some(v) => v,
        None => 0,
    }
}

/// A sale is new when its date, read as a number (0 when unreadable), is later
/// than `latest`.
pub open spec fn is_new_sale(sale: Sale, latest: u64) -> bool {
    u64_or_zero(sale.date@) > latest
}

/// The new sales among `sales`, in order, each recorded under `game_title`.
pub open spec fn new_sales_spec(sales: Seq<Sale>, latest: u64, game_title: GameTitle) -> Seq<Sale>
    decreases sales.len(),
{
    if sales.len() == 0 {
        Seq::empty()
    } else {
        let rest = new_sales_spec(sales.drop_last(), latest, game_title);
        if is_new_sale(sales.last(), latest) {
            rest.push(Sale { game_title: game_title, ..sales.last() })
        } else {
            rest
        }
    }
}

/// A target is a plain bid when none of its attributes fixes a paint seed.
pub open spec fn is_plain_bid(target: Target) -> bool {
    forall|i: int| 0 <= i < target.attributes@.len() ==> (#[trigger] target.attributes@[i]).paint_seed is None
}

/// The highest price among the plain bids of `targets` (unreadable prices
/// count as 0), or `None` when there is none.
pub open spec fn highest_bid_spec(targets: Seq<Target>) -> Option<u64>
    decreases targets.len(),
{
    if targets.len() == 0 {
        None
    } else {
        let rest = highest_bid_spec(targets.drop_last());
        let t = targets.last();
        if is_plain_bid(t) {
            let p = u64_or_zero(t.price@);
            match rest {
                Some(m) => Some(if p >= m { p } else { m }),
                None => Some(p),
            }
        } else {
            rest
        }
    }
}

/// The sales newer than `latest`, each recorded under `game_title`.
pub fn new_sales(sales: &Vec<Sale>, latest: u64, game_title: &GameTitle) -> (r: Vec<Sale>)
    ensures
        r@ == new_sales_spec(sales@, latest, *game_title),
{
    let mut r: Vec<Sale> = Vec::new();
    let mut i: usize = 0;
    while i < sales.len()
        invariant
            i <= sales@.len(),
            r@ == new_sales_spec(sales@.take(i as int), latest, *game_title),
        decreases sales@.len() - i,
    {
        let s = &sales[i];
        let date = parse_u64(s.date.as_str());
        let d: u64 = match date {
            Some(v) => v,
            None => 0,
        };
        assert(sales@.take(i + 1).drop_last() =~= sales@.take(i as int));
        assert(sales@.take(i + 1).last() == sales@[i as int]);
        if d > latest {
            let kept = s.clone().with_game_title(game_title);
            r.push(kept);
        }
        i = i + 1;
    }
    assert(sales@.take(sales@.len() as int) =~= sales@);
    r
}

/// Whether no attribute of `target` fixes a paint seed.
fn plain_bid(target: &Target) -> (r: bool)
    ensures
        r == is_plain_bid(*target),
{
    let mut j: usize = 0;
    while j < target.attributes.len()
        invariant
            j <= target.attributes@.len(),
            forall|k: int| 0 <= k < j ==> (#[trigger] target.attributes@[k]).paint_seed is None,
        decreases target.attributes@.len() - j,
    {
        if target.attributes[j].paint_seed.is_some() {
            return false;
        }
        j = j + 1;
    }
    true
}

/// The highest plain bid standing among `targets`.
pub fn get_highest_bid(targets: &Vec<Target>) -> (r: Option<u64>)
    ensures
        r == highest_bid_spec(targets@),
{
    let mut best: Option<u64> = None;
    let mut i: usize = 0;
    while i < targets.len()
        invariant
            i <= targets@.len(),
            best == highest_bid_spec(targets@.take(i as int)),
        decreases targets@.len() - i,
    {
        let t = &targets[i];
        assert(targets@.take(i + 1).drop_last() =~= targets@.take(i as int));
        assert(targets@.take(i + 1).last() == targets@[i as int]);
        if plain_bid(t) {
            let p: u64 = match parse_u64(t.price.as_str()) {
                Some(v) => v,
                None => 0,
            };
            best = match best {
                Some(m) => Some(if p >= m { p } else { m }),
                None => Some(p),
            };
        }
        i = i + 1;
    }
    assert(targets@.take(targets@.len() as int) =~= targets@);
    best
}

/// The newest recorded sale date of a title: the stored text read as a number,
/// 0 when there is none or it is unreadable.
pub fn latest_date_value(stored: Option<String>) -> (r: u64)
    ensures
        r == (match stored {
            Some(s) => u64_or_zero(s@),
            None => 0,
        }),
{
    match stored {
        Some(s) => match parse_u64(s.as_str()) {
            Some(v) => v,
            None => 0,
        },
        None => 0,
    }
}


/// The new sales are exactly the sales whose date, read as a number (0 when
/// unreadable), is later than `latest`, in their order, each recorded under
/// `game_title`: price, id and operation type play no part.
pub proof fn lemma_new_sales_filter_by_date(sales: Seq<Sale>, latest: u64, game_title: GameTitle)
    ensures
        new_sales_spec(sales, latest, game_title) == sales.filter_map(
            |s: Sale| if u64_or_zero(s.date@) > latest { Some(Sale { game_title: game_title, ..s }) } else { None },
        ),
    decreases sales.len(),
{
    if sales.len() > 0 {
        lemma_new_sales_filter_by_date(sales.drop_last(), latest, game_title);
    }
}

/// The highest plain bid bounds the price of every plain bid from above and
/// is the price of one of them; there is none exactly when no bid is plain.
pub proof fn lemma_highest_bid_is_maximum(targets: Seq<Target>)
    ensures
        forall|i: int|
            0 <= i < targets.len() && is_plain_bid(#[trigger] targets[i]) ==> (highest_bid_spec(targets) matches Some(m)
                && m >= u64_or_zero(targets[i].price@)),
        forall|m: u64| highest_bid_spec(targets) == Some(m) ==> exists|i: int|
            0 <= i < targets.len() && is_plain_bid(#[trigger] targets[i]) && m == u64_or_zero(targets[i].price@),
        highest_bid_spec(targets) is None ==> forall|i: int| 0 <= i < targets.len() ==> !is_plain_bid(#[trigger] targets[i]),
    decreases targets.len(),
{
    if targets.len() > 0 {
        let init = targets.drop_last();
        let n = targets.len() - 1;
        lemma_highest_bid_is_maximum(init);
        assert forall|i: int| 0 <= i < n implies targets[i] == init[i] by {}
        let rest = highest_bid_spec(init);
        assert forall|i: int|
            0 <= i < targets.len() && is_plain_bid(#[trigger] targets[i]) implies (highest_bid_spec(targets) matches Some(m)
                && m >= u64_or_zero(targets[i].price@)) by {
            if i < n {
                assert(is_plain_bid(init[i]));
            }
        }
        assert forall|m: u64| highest_bid_spec(targets) == Some(m) implies exists|i: int|
            0 <= i < targets.len() && is_plain_bid(#[trigger] targets[i]) && m == u64_or_zero(targets[i].price@) by {
            if is_plain_bid(targets[n]) && (rest is None || u64_or_zero(targets[n].price@) >= rest->0) {
                assert(is_plain_bid(targets[n]));
            } else {
                let i = choose|i: int| 0 <= i < init.len() && is_plain_bid(#[trigger] init[i]) && rest->0 == u64_or_zero(init[i].price@);
                assert(targets[i] == init[i]);
            }
        }
        assert forall|i: int| highest_bid_spec(targets) is None && 0 <= i < targets.len() implies !is_plain_bid(#[trigger] targets[i]) by {
            if i < n {
                assert(targets[i] == init[i]);
            }
        }
    }
}

} // verus!
