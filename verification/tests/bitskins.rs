use skin_trader::api::ws::Channel;
use skin_trader::bitskins::db::{stale_item_ids, Skin};
use skin_trader::bitskins::http;
use skin_trader::bitskins::trader::{route, Route};
use skin_trader::bitskins::endpoint::Endpoint;
use skin_trader::bitskins::update::{new_sale_indices, sticker_skin};

#[test]
fn route_skips_other_games() {
    assert_eq!(route(Channel::Listed, Some(440)), Route::Skip);
    assert_eq!(route(Channel::Listed, None), Route::Skip);
    assert_eq!(route(Channel::Listed, Some(730)), Route::Listed);
    assert_eq!(route(Channel::PriceChanged, Some(730)), Route::PriceChanged);
    assert_eq!(route(Channel::DelistedOrSold, Some(730)), Route::DelistedOrSold);
    assert_eq!(route(Channel::ExtraInfo, Some(730)), Route::Unhandled);
}

#[test]
fn stale_ids_are_stored_but_not_fresh() {
    assert_eq!(stale_item_ids(&vec![1, 2, 3, 4], &vec![2, 4, 9]), vec![1, 3]);
    assert_eq!(stale_item_ids(&vec![], &vec![1]), Vec::<i32>::new());
    assert_eq!(stale_item_ids(&vec![5, 5, 6], &vec![]), vec![5, 5, 6]);
    assert_eq!(stale_item_ids(&vec![7], &vec![7]), Vec::<i32>::new());
}

#[test]
fn sticker_skin_needs_id_class_and_name() {
    let s = sticker_skin(Some(3), Some("c".to_string()), Some("n".to_string()), Some(12)).unwrap();
    assert_eq!((s.id, s.name.as_str(), s.class_id.as_str(), s.suggested_price), (3, "n", "c", Some(12)));
    assert!(sticker_skin(None, Some("c".to_string()), Some("n".to_string()), None).is_none());
    assert!(sticker_skin(Some(3), None, Some("n".to_string()), None).is_none());
    assert!(sticker_skin(Some(3), Some("c".to_string()), None, None).is_none());
}

#[test]
fn catalogue_skin_converts_to_stored_skin() {
    let api = http::Skin { id: 9, name: "AK".to_string(), class_id: "cl".to_string(), suggested_price: None };
    let stored: Skin = api.into();
    assert_eq!(stored.id, 9);
    assert_eq!(stored.name, "AK");
    assert_eq!(stored.class_id, "cl");
    assert_eq!(stored.suggested_price, None);
    let copy = stored.clone();
    assert_eq!(copy.name, stored.name);
}

#[test]
fn new_sales_are_those_after_the_latest() {
    assert_eq!(new_sale_indices(&vec![5, 10, 3, 11, 10], 10), vec![3]);
    assert_eq!(new_sale_indices(&vec![5, 10, 3, 11, 12], 4), vec![0, 1, 3, 4]);
    assert_eq!(new_sale_indices(&vec![], 0), Vec::<usize>::new());
    assert_eq!(new_sale_indices(&vec![-3, -1], -2), vec![1]);
}

#[test]
fn market_searches_stay_apart_with_requests_between() {
    let endpoints = [
        Endpoint::SearchCsgo,
        Endpoint::ProfileBalance,
        Endpoint::BuySingle,
        Endpoint::SearchGet,
        Endpoint::Skin,
        Endpoint::Inventory,
    ];
    let mut gate = http::RequestGate::new(0);
    let mut now = 0u64;
    let mut sent = Vec::new();
    for endpoint in endpoints {
        let at = now + gate.wait_time(now, endpoint);
        gate.mark_sent(at, endpoint);
        sent.push((at, endpoint));
        now = at + 1;
    }
    assert_eq!(sent.iter().map(|(t, _)| *t).collect::<Vec<_>>(), vec![0, 266, 532, 1333, 1599, 2666]);
    for i in 0..sent.len() {
        for j in i + 1..sent.len() {
            assert!(sent[j].0 >= sent[i].0 + 266);
            if sent[i].1.uses_market_limit() && sent[j].1.uses_market_limit() {
                assert!(sent[j].0 >= sent[i].0 + 1333);
            }
        }
    }
}
