//! Buy signals of the bot.
use vstd::prelude::*;

verus! {

/// Highest listing price the bot looks at.
pub const MAX_PRICE: i32 = 50;
/// Sales above which a skin counts as heavily traded.
pub const VOLUME_THRESHOLD: i32 = 100;
/// The game the bot trades.
pub const CS2_APP_ID: i32 = 730;

/// A reason to buy a listing.
#[derive(Clone, Copy, Debug, PartialEq, Eq)]
pub enum BuyReason {
    UnusuallyLowPrice,
    UpwardTrend,
    HighVolume,
    GoodFloat,
    StrongTimeCorrelation,
}

/// A skin sold more than `VOLUME_THRESHOLD` times is heavily traded.
pub fn check_volume(count: i32) -> (r: bool)
    ensures
        r == (count > VOLUME_THRESHOLD),
{
    count > VOLUME_THRESHOLD
}

/// Only Counter-Strike 2 listings of at most `MAX_PRICE` are looked at.
pub fn is_candidate(app_id: i32, price: i32) -> (r: bool)
    ensures
        r == (app_id == CS2_APP_ID && price <= MAX_PRICE),
{
    app_id == CS2_APP_ID && price <= MAX_PRICE
}

/// The reasons to buy, in the order they are checked: an upward price trend,
/// a high sale volume (when the count is known), a good float, a strong
/// correlation of price with time.
pub open spec fn buy_reasons_spec(
    upward_trend: bool,
    sale_count: Option<i32>,
    good_float: bool,
    strong_correlation: bool,
) -> Seq<BuyReason> {
    let a = if upward_trend { seq![BuyReason::UpwardTrend] } else { Seq::empty() };
    let b = match sale_count {
        Some(c) if c > VOLUME_THRESHOLD => seq![BuyReason::HighVolume],
        _ => Seq::empty(),
    };
    let c = if good_float { seq![BuyReason::GoodFloat] } else { Seq::empty() };
    let d = if strong_correlation { seq![BuyReason::StrongTimeCorrelation] } else { Seq::empty() };
    a + b + c + d
}

/// Collects the buy reasons of a listing from its checks.
pub fn buy_reasons(
    upward_trend: bool,
    sale_count: Option<i32>,
    good_float: bool,
    strong_correlation: bool,
) -> (r: Vec<BuyReason>)
    ensures
        r@ == buy_reasons_spec(upward_trend, sale_count, good_float, strong_correlation),
{
    let mut r: Vec<BuyReason> = Vec::new();
    if upward_trend {
        r.push(BuyReason::UpwardTrend);
    }
    if let Some(count) = sale_count {
        if check_volume(count) {
            r.push(BuyReason::HighVolume);
        }
    }
    if good_float {
        r.push(BuyReason::GoodFloat);
    }
    if strong_correlation {
        r.push(BuyReason::StrongTimeCorrelation);
    }
    assert(r@ =~= buy_reasons_spec(upward_trend, sale_count, good_float, strong_correlation));
    r
}

} // verus!
