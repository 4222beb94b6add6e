//! How the BitSkins trader routes what the socket publishes.
use crate::api::ws::Channel;
use crate::bitskins::http::CS2_APP_ID;
use vstd::prelude::*;

verus! {

/// Sales a skin needs before its price statistics are trusted.
pub const MIN_SALE_COUNT: i32 = 500;

/// What the trader does with one published listing.
#[derive(Clone, Copy, Debug, PartialEq, Eq)]
pub enum Route {
    /// Not a Counter-Strike 2 item: skipped.
    Skip,
    /// A new listing: try to buy it, store it, revisit own offer prices.
    Listed,
    /// A price change: try to buy it, update its price, revisit own offer prices.
    PriceChanged,
    /// Gone from the market: refresh the balance if it was ours, delete it.
    DelistedOrSold,
    /// A channel the trader does not handle: logged.
    Unhandled,
}

/// The trader's handling of a listing published on `channel` for `app_id`.
pub fn route(channel: Channel, app_id: Option<i32>) -> (r: Route)
    ensures
        r == (if app_id != Some(CS2_APP_ID) {
            Route::Skip
        } else {
            match channel {
                Channel::Listed => Route::Listed,
                Channel::PriceChanged => Route::PriceChanged,
                Channel::DelistedOrSold => Route::DelistedOrSold,
                Channel::ExtraInfo => Route::Unhandled,
            }
        }),
{
    match app_id {
        Some(id) if id == CS2_APP_ID => match channel {
            Channel::Listed => Route::Listed,
            Channel::PriceChanged => Route::PriceChanged,
            Channel::DelistedOrSold => Route::DelistedOrSold,
            Channel::ExtraInfo => Route::Unhandled,
        },
        _ => Route::Skip,
    }
}

} // verus!
