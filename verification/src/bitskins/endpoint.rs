//! The BitSkins API endpoints this client uses.
use crate::text::{seq_starts_with, starts_with};
use vstd::prelude::*;

verus! {

/// Prefix of the endpoints that share the stricter market-search budget.
pub const MARKET_SEARCH_PREFIX: &'static str = "/market/search";

/// An endpoint of the BitSkins API.
#[derive(Clone, Copy, Debug, PartialEq, Eq)]
pub enum Endpoint {
    DelistSingle,
    UpdatePriceSingle,
    RelistSingle,
    RelistMany,
    ProfileBalance,
    BuySingle,
    PricingList,
    Skin,
    SearchGet,
    SearchCsgo,
    HistoryList,
    Inventory,
    UpdateOfferPrices,
    Transactions,
}

/// The path of an endpoint, relative to the API's base URL.
pub open spec fn path_spec(e: Endpoint) -> Seq<char> {
    match e {
        Endpoint::DelistSingle => "/market/delist/single"@,
        Endpoint::UpdatePriceSingle => "/market/update_price/single"@,
        Endpoint::RelistSingle => "/market/relist/single"@,
        Endpoint::RelistMany => "/market/relist/many"@,
        Endpoint::ProfileBalance => "/account/profile/balance"@,
        Endpoint::BuySingle => "/market/buy/single"@,
        Endpoint::PricingList => "/market/pricing/list"@,
        Endpoint::Skin => "/market/skin/730"@,
        Endpoint::SearchGet => "/market/search/get"@,
        Endpoint::SearchCsgo => "/market/search/730"@,
        Endpoint::HistoryList => "/market/history/list"@,
        Endpoint::Inventory => "/market/search/mine/730"@,
        Endpoint::UpdateOfferPrices => "/market/update_price/many"@,
        Endpoint::Transactions => "/wallet/transaction/list"@,
    }
}

/// A string that differs from `prefix` at a position inside both does not start with it.
proof fn lemma_differs_at(s: Seq<char>, prefix: Seq<char>, k: int)
    requires
        0 <= k < prefix.len(),
        k < s.len(),
        s[k] != prefix[k],
    ensures
        !seq_starts_with(s, prefix),
{
    if prefix.len() <= s.len() {
        assert(s.subrange(0, prefix.len() as int)[k] != prefix[k]);
    }
}

impl Endpoint {
    /// The single-item lookup, the CS2 search and the inventory: the endpoints
    /// whose paths start with `/market/search`.
    pub open spec fn uses_market_limit_spec(self) -> bool {
        self == Endpoint::SearchGet || self == Endpoint::SearchCsgo || self == Endpoint::Inventory
    }

    /// The endpoint's path, as the request URL writes it.
    pub fn path(&self) -> (p: &'static str)
        ensures
            p@ == path_spec(*self),
    {
        match self {
            Endpoint::DelistSingle => "/market/delist/single",
            Endpoint::UpdatePriceSingle => "/market/update_price/single",
            Endpoint::RelistSingle => "/market/relist/single",
            Endpoint::RelistMany => "/market/relist/many",
            Endpoint::ProfileBalance => "/account/profile/balance",
            Endpoint::BuySingle => "/market/buy/single",
            Endpoint::PricingList => "/market/pricing/list",
            Endpoint::Skin => "/market/skin/730",
            Endpoint::SearchGet => "/market/search/get",
            Endpoint::SearchCsgo => "/market/search/730",
            Endpoint::HistoryList => "/market/history/list",
            Endpoint::Inventory => "/market/search/mine/730",
            Endpoint::UpdateOfferPrices => "/market/update_price/many",
            Endpoint::Transactions => "/wallet/transaction/list",
        }
    }

    /// Whether requests to this endpoint also count against the market-search
    /// budget: its path starts with `/market/search`, which holds exactly for
    /// the single-item lookup, the CS2 search and the inventory.
    pub fn uses_market_limit(&self) -> (r: bool)
        ensures
            r == seq_starts_with(path_spec(*self), MARKET_SEARCH_PREFIX@),
            r == self.uses_market_limit_spec(),
    {
        let r = starts_with(self.path(), MARKET_SEARCH_PREFIX);
        proof {
            let p = path_spec(*self);
            let pre = MARKET_SEARCH_PREFIX@;
            reveal_strlit("/market/search");
            reveal_strlit("/market/delist/single");
            reveal_strlit("/market/update_price/single");
            reveal_strlit("/market/relist/single");
            reveal_strlit("/market/relist/many");
            reveal_strlit("/account/profile/balance");
            reveal_strlit("/market/buy/single");
            reveal_strlit("/market/pricing/list");
            reveal_strlit("/market/skin/730");
            reveal_strlit("/market/search/get");
            reveal_strlit("/market/search/730");
            reveal_strlit("/market/history/list");
            reveal_strlit("/market/search/mine/730");
            reveal_strlit("/market/update_price/many");
            reveal_strlit("/wallet/transaction/list");
            match *self {
                Endpoint::SearchGet | Endpoint::SearchCsgo | Endpoint::Inventory => {
                    assert(p.subrange(0, pre.len() as int) =~= pre);
                },
                Endpoint::ProfileBalance | Endpoint::Transactions => {
                    lemma_differs_at(p, pre, 1);
                },
                Endpoint::Skin => {
                    lemma_differs_at(p, pre, 9);
                },
                _ => {
                    lemma_differs_at(p, pre, 8);
                },
            }
        }
        r
    }
}

} // verus!
