use skin_trader::bot::signals::{buy_reasons, check_volume, is_candidate, BuyReason};
use skin_trader::bot::trader::{choose_deal, find_best_market_deal, MarketDeal};

#[test]
fn volume_threshold_is_strict() {
    assert!(!check_volume(100));
    assert!(check_volume(101));
    assert!(!check_volume(-5));
}

#[test]
fn candidates_are_cheap_cs2_items() {
    assert!(is_candidate(730, 50));
    assert!(!is_candidate(730, 51));
    assert!(!is_candidate(570, 10));
}

#[test]
fn reasons_come_in_check_order() {
    assert_eq!(
        buy_reasons(true, Some(500), true, true),
        vec![BuyReason::UpwardTrend, BuyReason::HighVolume, BuyReason::GoodFloat, BuyReason::StrongTimeCorrelation]
    );
    assert_eq!(buy_reasons(false, Some(100), false, false), vec![]);
    assert_eq!(buy_reasons(false, None, true, false), vec![BuyReason::GoodFloat]);
    assert_eq!(buy_reasons(false, Some(101), false, true), vec![BuyReason::HighVolume, BuyReason::StrongTimeCorrelation]);
}

fn deal(id: &str, price: i32) -> MarketDeal {
    MarketDeal::new(id.to_string(), price)
}

#[test]
fn cheapest_market_deal_is_the_first_minimum() {
    assert!(find_best_market_deal(vec![]).is_none());
    let best = find_best_market_deal(vec![deal("a", 30), deal("b", 10), deal("c", 10), deal("d", 20)]).unwrap();
    assert_eq!((best.id.as_str(), best.price), ("b", 10));
}

#[test]
fn market_deal_replaces_socket_deal_only_when_cheaper() {
    let chosen = choose_deal(deal("ws", 20), Some(deal("m", 19)));
    assert_eq!(chosen.id, "m");
    let chosen = choose_deal(deal("ws", 20), Some(deal("m", 20)));
    assert_eq!(chosen.id, "ws");
    let chosen = choose_deal(deal("ws", 20), None);
    assert_eq!(chosen.id, "ws");
}
