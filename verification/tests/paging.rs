use skin_trader::bitskins::http::market_page_offsets;
use skin_trader::dmarket::client::best_prices_offsets;
use skin_trader::paging::{follow_up_offsets, next_offset};

#[test]
fn market_pages_stop_at_total_and_depth() {
    assert_eq!(market_page_offsets(0), Vec::<usize>::new());
    assert_eq!(market_page_offsets(500), Vec::<usize>::new());
    assert_eq!(market_page_offsets(501), vec![500]);
    assert_eq!(market_page_offsets(1200), vec![500, 1000]);
    assert_eq!(market_page_offsets(100_000), vec![500, 1000, 1500, 2000]);
}

#[test]
fn best_price_pages() {
    assert_eq!(best_prices_offsets(9_999), Vec::<usize>::new());
    assert_eq!(best_prices_offsets(10_000), Vec::<usize>::new());
    assert_eq!(best_prices_offsets(25_000), vec![10_000, 20_000]);
}

#[test]
fn page_by_page_walk_matches_up_front_offsets() {
    for total in [0usize, 1, 100, 101, 250, 2000, 2001, 2100, 5000] {
        let expected = follow_up_offsets(100, 100, total, 2000);
        let mut walked = Vec::new();
        let mut offset = 0;
        while let Some(next) = next_offset(offset, 100, total, 2000) {
            walked.push(next);
            offset = next;
        }
        assert_eq!(walked, expected, "total {total}");
    }
}

#[test]
fn next_offset_edges() {
    assert_eq!(next_offset(0, 100, 100, 2000), None);
    assert_eq!(next_offset(0, 100, 101, 2000), Some(100));
    assert_eq!(next_offset(1900, 100, 10_000, 2000), Some(2000));
    assert_eq!(next_offset(2000, 100, 10_000, 2000), None);
}
