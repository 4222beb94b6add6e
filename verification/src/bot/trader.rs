//! Choosing the deal to buy.
use vstd::prelude::*;

verus! {

/// A listing that can be bought: its id and price.
#[derive(Debug)]
pub struct MarketDeal {
    pub id: String,
    pub price: i32,
}

impl MarketDeal {
    pub fn new(id: String, price: i32) -> (d: MarketDeal)
        ensures
            d.id == id,
            d.price == price,
    {
        MarketDeal { id, price }
    }
}

/// `i` is the first position of a lowest price in `deals`.
pub open spec fn is_first_cheapest(deals: Seq<MarketDeal>, i: int) -> bool {
    &&& 0 <= i < deals.len()
    &&& forall|j: int| 0 <= j < deals.len() ==> deals[i].price <= #[trigger] deals[j].price
    &&& forall|j: int| 0 <= j < i ==> deals[i].price < #[trigger] deals[j].price
}

/// The cheapest of the market's listings of a skin, the first one among equals.
pub fn find_best_market_deal(deals: Vec<MarketDeal>) -> (r: Option<MarketDeal>)
    ensures
        deals@.len() == 0 ==> r is None,
        deals@.len() > 0 ==> exists|i: int| is_first_cheapest(deals@, i) && r == Some(deals@[i]),
{
    if deals.len() == 0 {
        return None;
    }
    let mut best: usize = 0;
    let mut i: usize = 1;
    while i < deals.len()
        invariant
            1 <= i <= deals@.len(),
            best < i,
            forall|j: int| 0 <= j < i ==> deals@[best as int].price <= #[trigger] deals@[j].price,
            forall|j: int| 0 <= j < best ==> deals@[best as int].price < #[trigger] deals@[j].price,
        decreases deals@.len() - i,
    {
        if deals[i].price < deals[best].price {
            best = i;
        }
        i = i + 1;
    }
    let ghost original = deals@;
    assert(is_first_cheapest(original, best as int));
    let mut deals = deals;
    let d = deals.swap_remove(best);
    Some(d)
}

/// The deal bought for a listing seen on the socket: the market's cheapest
/// listing when it is strictly cheaper, otherwise the socket's listing.
pub open spec fn chosen_deal_spec(ws_deal: MarketDeal, best_market: Option<MarketDeal>) -> MarketDeal {
    match best_market {
        Some(m) => if m.price < ws_deal.price { m } else { ws_deal },
        None => ws_deal,
    }
}

/// Picks between the socket's listing and the market's cheapest one.
pub fn choose_deal(ws_deal: MarketDeal, best_market: Option<MarketDeal>) -> (r: MarketDeal)
    ensures
        r == chosen_deal_spec(ws_deal, best_market),
{
    match best_market {
        Some(m) => if m.price < ws_deal.price { m } else { ws_deal },
        None => ws_deal,
    }
}

/// The deal chosen against the market's cheapest listing costs no more than the
/// socket's listing and no more than any listing on the market.
pub proof fn lemma_chosen_deal_is_cheapest(ws_deal: MarketDeal, deals: Seq<MarketDeal>, i: int)
    requires
        is_first_cheapest(deals, i),
    ensures
        chosen_deal_spec(ws_deal, Some(deals[i])).price <= ws_deal.price,
        forall|j: int| 0 <= j < deals.len() ==> chosen_deal_spec(ws_deal, Some(deals[i])).price <= #[trigger] deals[j].price,
{
}

} // verus!
