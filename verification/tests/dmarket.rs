use skin_trader::dmarket::schema::{GameTitle, Sale, Target, TargetAttribute};
use skin_trader::dmarket::trader::{get_highest_bid, latest_date_value, new_sales};

fn title(game: &str, t: &str) -> GameTitle {
    GameTitle { game_id: game.to_string(), title: t.to_string() }
}

fn sale(date: &str) -> Sale {
    Sale {
        price: "1.00".to_string(),
        date: date.to_string(),
        tx_operation_type: "Offer".to_string(),
        id: 0,
        game_title: GameTitle { game_id: String::new(), title: String::new() },
    }
}

#[test]
fn only_newer_sales_are_kept_and_titled() {
    let gt = title("a8db", "AK-47 | Redline");
    let sales = vec![sale("100"), sale("250"), sale("bad"), sale("300"), sale("200")];
    let kept = new_sales(&sales, 200, &gt);
    let dates: Vec<&str> = kept.iter().map(|s| s.date.as_str()).collect();
    assert_eq!(dates, vec!["250", "300"]);
    assert!(kept.iter().all(|s| s.game_title == gt));
    assert_eq!(new_sales(&sales, 0, &gt).len(), 4);
}

#[test]
fn sale_takes_a_title() {
    let gt = title("tf2", "Key");
    let s = sale("1").with_game_title(&gt);
    assert_eq!(s.game_title, gt);
    assert_eq!(s.date, "1");
}

fn attr(seed: Option<&str>) -> TargetAttribute {
    TargetAttribute {
        float_value: None,
        paint_seed: seed.map(|s| s.to_string()),
        float_part_value: None,
        is_advanced: None,
        phase_title: None,
    }
}

fn target(price: &str, attributes: Vec<TargetAttribute>) -> Target {
    Target {
        amount: "1".to_string(),
        price: price.to_string(),
        liquidity: String::new(),
        attributes,
        advanced_amount: String::new(),
    }
}

#[test]
fn highest_bid_ignores_seeded_targets() {
    assert_eq!(get_highest_bid(&vec![]), None);
    let targets = vec![
        target("120", vec![attr(None)]),
        target("500", vec![attr(Some("661"))]),
        target("130", vec![]),
        target("x", vec![]),
    ];
    assert_eq!(get_highest_bid(&targets), Some(130));
    assert_eq!(get_highest_bid(&vec![target("oops", vec![])]), Some(0));
    assert_eq!(get_highest_bid(&vec![target("9", vec![attr(Some("1"))])]), None);
}

#[test]
fn latest_date_defaults_to_zero() {
    assert_eq!(latest_date_value(None), 0);
    assert_eq!(latest_date_value(Some("1700000000".to_string())), 1_700_000_000);
    assert_eq!(latest_date_value(Some("soon".to_string())), 0);
}
