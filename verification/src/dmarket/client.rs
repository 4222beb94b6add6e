//! DMarket endpoints: which request budget a path draws on, and paging.
use crate::dmarket::rate_limiter::RateLimiterType;
use crate::paging::{follow_up_offsets, page_count, page_wanted};
use crate::text::{contains, seq_contains};
use vstd::prelude::*;

verus! {

pub const CSGO_GAME_ID: &'static str = "a8db";
pub const TF2_GAME_ID: &'static str = "tf2";
pub const DOTA2_GAME_ID: &'static str = "9a92";
pub const RUST_GAME_ID: &'static str = "rust";

pub const CURRENCY_USD: &'static str = "USD";

/// Items per market-items page.
pub const MARKET_LIMIT: usize = 100;
/// Sales per last-sales request.
pub const SALES_LIMIT: usize = 500;
/// Titles per aggregated-prices page.
pub const BEST_PRICES_LIMIT: usize = 10000;

/// The budget group a request path belongs to: fee paths, then last-sales,
/// then market items, tested in that order; everything else is `Other`.
pub open spec fn limiter_type_spec(path: Seq<char>) -> RateLimiterType {
    if seq_contains(path, "fees"@) {
        RateLimiterType::Fee
    } else if seq_contains(path, "last-sales"@) {
        RateLimiterType::LastSales
    } else if seq_contains(path, "market/items"@) {
        RateLimiterType::MarketItems
    } else {
        RateLimiterType::Other
    }
}

/// The budget group of a request path.
pub fn get_limiter_type(path: &str) -> (t: RateLimiterType)
    ensures
        t == limiter_type_spec(path@),
{
    if contains(path, "fees") {
        RateLimiterType::Fee
    } else if contains(path, "last-sales") {
        RateLimiterType::LastSales
    } else if contains(path, "market/items") {
        RateLimiterType::MarketItems
    } else {
        RateLimiterType::Other
    }
}

/// The offsets of the aggregated-prices pages after the first, given the
/// `total` number of titles the first page reported.
pub fn best_prices_offsets(total: usize) -> (r: Vec<usize>)
    requires
        total + BEST_PRICES_LIMIT <= usize::MAX,
    ensures
        r@.len() == page_count(BEST_PRICES_LIMIT as int, BEST_PRICES_LIMIT as int, total as int, usize::MAX as int),
        forall|i: int| 0 <= i < r@.len() ==> #[trigger] r@[i] == BEST_PRICES_LIMIT + i * BEST_PRICES_LIMIT,
        forall|i: int| 0 <= i < r@.len() ==> #[trigger] r@[i] < total,
{
    let r = follow_up_offsets(BEST_PRICES_LIMIT, BEST_PRICES_LIMIT, total, usize::MAX);
    assert forall|i: int| 0 <= i < r@.len() implies #[trigger] r@[i] < total by {
        assert(page_wanted(r@[i] as int, total as int, usize::MAX as int));
    }
    r
}

/// What a DMarket request does with the status of its response.
#[derive(Clone, Copy, Debug, PartialEq, Eq)]
pub enum ResponseAction {
    /// A 2xx status: the body is the result.
    Done,
    /// 429 Too Many Requests: wait for the budget again and resend.
    RateLimited,
    /// Any other status: the request fails with the status and the body text.
    Failed,
}

/// The action for a response status `code`.
pub fn response_action(code: u16) -> (a: ResponseAction)
    ensures
        a == (if 200 <= code < 300 {
            ResponseAction::Done
        } else if code == 429 {
            ResponseAction::RateLimited
        } else {
            ResponseAction::Failed
        }),
{
    if 200 <= code && code < 300 {
        ResponseAction::Done
    } else if code == 429 {
        ResponseAction::RateLimited
    } else {
        ResponseAction::Failed
    }
}

} // verus!
