use skin_trader::dmarket::client::{get_limiter_type, response_action, ResponseAction};
use skin_trader::dmarket::rate_limiter::{RateLimiter, RateLimiterType};

#[test]
fn limiter_waits_only_when_full() {
    let mut l = RateLimiter::new(2);
    assert_eq!(l.wait_time(0), 0);
    l.record(0);
    assert_eq!(l.wait_time(10), 0);
    l.record(10);
    assert_eq!(l.len(), 2);
    assert_eq!(l.wait_time(100), 900);
    assert_eq!(l.wait_time(1_000), 0);
    l.record(1_000);
    assert_eq!(l.len(), 2);
    assert_eq!(l.wait_time(1_000), 10);
    assert_eq!(l.wait_time(2_000), 0);
}

#[test]
fn granted_requests_keep_the_budget() {
    let mut l = RateLimiter::new(3);
    let mut sent = Vec::new();
    let mut now = 0u64;
    for _ in 0..20 {
        let wait = l.wait_time(now);
        let at = now + wait;
        l.record(at);
        sent.push(at);
        now = at + 7;
    }
    for i in 3..sent.len() {
        assert!(sent[i] >= sent[i - 3] + 1000, "request {i} too early");
    }
}

#[test]
fn request_limiters_in_group_order() {
    let limiters = RateLimiter::request_limiters();
    let budgets = [110usize, 6, 5, 20];
    for (l, budget) in limiters.into_iter().zip(budgets) {
        let mut l = l;
        for t in 0..budget as u64 {
            assert_eq!(l.wait_time(t), 0);
            l.record(t);
        }
        assert!(l.wait_time(budget as u64) > 0);
    }
    assert_eq!(RateLimiterType::Fee.index(), 0);
    assert_eq!(RateLimiterType::LastSales.index(), 1);
    assert_eq!(RateLimiterType::MarketItems.index(), 2);
    assert_eq!(RateLimiterType::Other.index(), 3);
}

#[test]
fn paths_pick_their_budget() {
    assert_eq!(get_limiter_type("/exchange/v1/customized-fees?gameID=a8db"), RateLimiterType::Fee);
    assert_eq!(get_limiter_type("/trade-aggregator/v1/last-sales?title=x"), RateLimiterType::LastSales);
    assert_eq!(get_limiter_type("/exchange/v1/market/items?gameId=tf2"), RateLimiterType::MarketItems);
    assert_eq!(get_limiter_type("/account/v1/balance"), RateLimiterType::Other);
    assert_eq!(get_limiter_type("/fees/last-sales"), RateLimiterType::Fee);
}

#[test]
fn dmarket_status_actions() {
    assert_eq!(response_action(200), ResponseAction::Done);
    assert_eq!(response_action(299), ResponseAction::Done);
    assert_eq!(response_action(429), ResponseAction::RateLimited);
    assert_eq!(response_action(400), ResponseAction::Failed);
    assert_eq!(response_action(503), ResponseAction::Failed);
}
