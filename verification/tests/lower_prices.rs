use skin_trader::lower_prices::{first_competitor_price, new_price, price_update, Listing};

#[test]
fn prices_step_down_but_not_below_competition() {
    assert_eq!(new_price(100, None), 90);
    assert_eq!(new_price(5, None), 0);
    assert_eq!(new_price(100, Some(95)), 95);
    assert_eq!(new_price(100, Some(50)), 90);
    assert_eq!(new_price(100, Some(120)), 120);
    assert_eq!(new_price(0, None), 0);
}

#[test]
fn unchanged_prices_are_not_updated() {
    assert!(price_update("a".to_string(), 0, None).is_none());
    assert!(price_update("a".to_string(), 100, Some(100)).is_none());
    let u = price_update("a".to_string(), 100, Some(95)).unwrap();
    assert_eq!((u.id.as_str(), u.price), ("a", 95));
}

fn listing(id: &str, price: u32) -> Listing {
    Listing { id: id.to_string(), name: String::new(), price, skin_id: 1 }
}

#[test]
fn own_listings_are_not_competition() {
    let own = vec!["x".to_string(), "y".to_string()];
    let page = vec![listing("x", 10), listing("y", 12), listing("z", 15), listing("w", 20)];
    assert_eq!(first_competitor_price(&page, &own), Some(15));
    assert_eq!(first_competitor_price(&vec![listing("x", 10)], &own), None);
    assert_eq!(first_competitor_price(&vec![], &own), None);
    assert_eq!(first_competitor_price(&page, &vec![]), Some(10));
}
