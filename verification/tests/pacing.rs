use skin_trader::bitskins::endpoint::Endpoint;
use skin_trader::bitskins::http::{classify_status, RequestGate, StatusAction, MARKET_INTERVAL_MS, REQUEST_INTERVAL_MS};
use skin_trader::pacing::Pacer;

#[test]
fn pacer_spaces_requests() {
    let mut p = Pacer::new(1_000, 1_000);
    assert_eq!(p.wait_time(1_000), 0);
    p.mark_sent(1_000);
    assert_eq!(p.wait_time(1_200), 800);
    assert_eq!(p.wait_time(2_000), 0);
    assert_eq!(p.wait_time(5_000), 0);
}

#[test]
fn pacer_advance_moves_slot() {
    let mut p = Pacer::new(0, 100);
    p.advance();
    p.advance();
    assert_eq!(p.next_ok, 200);
    assert_eq!(p.wait_time(50), 150);
}

#[test]
fn gate_market_searches_wait_longer() {
    let mut g = RequestGate::new(10_000);
    assert_eq!(g.wait_time(10_000, Endpoint::SearchCsgo), 0);
    g.mark_sent(10_000, Endpoint::SearchCsgo);
    assert_eq!(g.wait_time(10_000, Endpoint::BuySingle), REQUEST_INTERVAL_MS);
    assert_eq!(g.wait_time(10_000, Endpoint::Inventory), MARKET_INTERVAL_MS);
    g.mark_sent(10_266, Endpoint::BuySingle);
    assert_eq!(g.market_request_ok, 11_333);
    assert_eq!(g.request_ok, 10_532);
    assert_eq!(g.wait_time(10_300, Endpoint::SearchGet), 1_033);
}

#[test]
fn status_codes() {
    assert_eq!(classify_status(200), StatusAction::Done);
    assert_eq!(classify_status(204), StatusAction::Done);
    assert_eq!(classify_status(299), StatusAction::Done);
    assert_eq!(classify_status(300), StatusAction::Retry);
    assert_eq!(classify_status(429), StatusAction::Retry);
    assert_eq!(classify_status(500), StatusAction::ServerError);
    assert_eq!(classify_status(503), StatusAction::ServerError);
    assert_eq!(classify_status(600), StatusAction::Retry);
    assert_eq!(classify_status(101), StatusAction::Retry);
}

#[test]
fn endpoint_paths_and_market_budget() {
    assert_eq!(Endpoint::Inventory.path(), "/market/search/mine/730");
    assert_eq!(Endpoint::ProfileBalance.path(), "/account/profile/balance");
    let market = [Endpoint::SearchGet, Endpoint::SearchCsgo, Endpoint::Inventory];
    let all = [
        Endpoint::DelistSingle, Endpoint::UpdatePriceSingle, Endpoint::RelistSingle,
        Endpoint::RelistMany, Endpoint::ProfileBalance, Endpoint::BuySingle,
        Endpoint::PricingList, Endpoint::Skin, Endpoint::SearchGet, Endpoint::SearchCsgo,
        Endpoint::HistoryList, Endpoint::Inventory, Endpoint::UpdateOfferPrices,
        Endpoint::Transactions,
    ];
    for e in all {
        assert_eq!(e.uses_market_limit(), market.contains(&e), "{e:?}");
        assert_eq!(e.uses_market_limit(), e.path().starts_with("/market/search"));
    }
}
