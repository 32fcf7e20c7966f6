use kalshi_trade_rs::models::common::Side;
use kalshi_trade_rs::orderbook::aggregator::{FeedEvent, FeedStep, OrderbookAggregator};
use kalshi_trade_rs::orderbook::state::OrderbookState;
use kalshi_trade_rs::ws::message::{OrderbookDeltaData, OrderbookSnapshotData};

fn snapshot(ticker: &str, yes: Option<Vec<[i64; 2]>>, no: Option<Vec<[i64; 2]>>) -> OrderbookSnapshotData {
    OrderbookSnapshotData {
        market_ticker: ticker.to_string(),
        market_id: String::new(),
        yes,
        yes_dollars: None,
        no,
        no_dollars: None,
        yes_dollars_fp: None,
        no_dollars_fp: None,
    }
}

fn delta(ticker: &str, price: i64, change: i64, side: Side) -> OrderbookDeltaData {
    OrderbookDeltaData {
        market_ticker: ticker.to_string(),
        market_id: String::new(),
        price,
        delta: change,
        side,
        price_dollars: None,
        delta_fp: None,
        client_order_id: None,
        subaccount: None,
        ts: None,
    }
}

/// The YES midpoint (in cents) of a best bid and a best ask, as the
/// runtime computes it from the library's figures.
fn midpoint(bid: Option<(i64, i64)>, ask: Option<(i64, i64)>) -> Option<f64> {
    Some((bid?.0 as f64 + ask?.0 as f64) / 2.0)
}

#[test]
fn test_from_snapshot() {
    let snapshot = OrderbookSnapshotData {
        market_ticker: "TEST".to_string(),
        market_id: String::new(),
        yes: Some(vec![[45, 100], [44, 200]]),
        yes_dollars: None,
        no: Some(vec![[55, 150], [56, 250]]),
        no_dollars: None,
        yes_dollars_fp: None,
        no_dollars_fp: None,
    };

    let state = OrderbookState::from_snapshot(&snapshot);

    assert!(state.is_initialized());
    assert_eq!(state.depth_at_price(Side::Yes, 45), 100);
    assert_eq!(state.depth_at_price(Side::Yes, 44), 200);
    assert_eq!(state.depth_at_price(Side::No, 55), 150);
    assert_eq!(state.depth_at_price(Side::No, 56), 250);
}

#[test]
fn test_apply_delta_add() {
    let mut state = OrderbookState::new();

    let delta = OrderbookDeltaData {
        market_ticker: "TEST".to_string(),
        market_id: String::new(),
        price: 45,
        delta: 100,
        side: Side::Yes,
        price_dollars: None,
        delta_fp: None,
        client_order_id: None,
        subaccount: None,
        ts: None,
    };

    let new_qty = state.apply_delta(&delta);
    assert_eq!(new_qty, 100);
    assert_eq!(state.depth_at_price(Side::Yes, 45), 100);
}

#[test]
fn test_apply_delta_increase() {
    let mut state = OrderbookState::new();
    state.apply_delta(&delta("TEST", 45, 100, Side::Yes));
    let new_qty = state.apply_delta(&delta("TEST", 45, 50, Side::Yes));
    assert_eq!(new_qty, 150);
}

#[test]
fn test_apply_delta_decrease() {
    let mut state = OrderbookState::new();
    state.apply_delta(&delta("TEST", 45, 100, Side::Yes));
    let new_qty = state.apply_delta(&delta("TEST", 45, -30, Side::Yes));
    assert_eq!(new_qty, 70);
}

#[test]
fn test_apply_delta_remove_level() {
    let mut state = OrderbookState::new();
    state.apply_delta(&delta("TEST", 45, 100, Side::Yes));
    let new_qty = state.apply_delta(&delta("TEST", 45, -100, Side::Yes));
    assert_eq!(new_qty, 0);
    assert_eq!(state.depth_at_price(Side::Yes, 45), 0);
}

#[test]
fn test_apply_delta_negative_removes() {
    let mut state = OrderbookState::new();
    state.apply_delta(&delta("TEST", 45, 50, Side::Yes));
    let new_qty = state.apply_delta(&delta("TEST", 45, -100, Side::Yes));
    assert_eq!(new_qty, 0);
    assert_eq!(state.depth_at_price(Side::Yes, 45), 0);
}

#[test]
fn test_best_yes_bid() {
    let state = OrderbookState::from_snapshot(&snapshot("TEST", Some(vec![[45, 100], [44, 200], [43, 50]]), None));
    assert_eq!(state.best_yes_bid(), Some((45, 100)));
}

#[test]
fn test_best_yes_ask() {
    let state = OrderbookState::from_snapshot(&snapshot("TEST", None, Some(vec![[55, 150], [56, 250]])));
    assert_eq!(state.best_yes_ask(), Some((44, 250)));
}

#[test]
fn test_spread() {
    let state = OrderbookState::from_snapshot(&snapshot("TEST", Some(vec![[45, 100]]), Some(vec![[53, 150]])));
    assert_eq!(state.spread(), Some(2));
}

#[test]
fn test_total_liquidity() {
    let state = OrderbookState::from_snapshot(&snapshot(
        "TEST",
        Some(vec![[45, 100], [44, 200]]),
        Some(vec![[55, 150], [56, 250]]),
    ));
    assert_eq!(state.total_yes_liquidity(), 300);
    assert_eq!(state.total_no_liquidity(), 400);
}

#[test]
fn state_test_clear() {
    let mut state = OrderbookState::from_snapshot(&snapshot("TEST", Some(vec![[45, 100]]), Some(vec![[55, 150]])));
    state.update_seq(Some(42));
    assert!(state.is_initialized());

    state.clear();

    assert!(!state.is_initialized());
    assert_eq!(state.last_seq(), None);
    assert_eq!(state.total_yes_liquidity(), 0);
    assert_eq!(state.total_no_liquidity(), 0);
}

#[test]
fn test_empty_orderbook() {
    let state = OrderbookState::new();

    assert!(!state.is_initialized());
    assert_eq!(state.best_yes_bid(), None);
    assert_eq!(state.best_yes_ask(), None);
    assert_eq!(state.spread(), None);
    assert_eq!(midpoint(state.best_yes_bid(), state.best_yes_ask()), None);
}

#[test]
fn test_midpoint() {
    let state = OrderbookState::from_snapshot(&snapshot("TEST", Some(vec![[45, 100]]), Some(vec![[53, 150]])));

    // Midpoint = (45 + 47) / 2 = 46
    assert_eq!(midpoint(state.best_yes_bid(), state.best_yes_ask()), Some(46.0));
}

#[test]
fn test_snapshot_drops_non_positive_levels() {
    let state = OrderbookState::from_snapshot(&snapshot(
        "TEST",
        Some(vec![[40, 0], [41, -5], [42, 7]]),
        None,
    ));
    assert_eq!(state.yes_levels(), &vec![(42, 7)]);
    assert_eq!(state.depth_at_price(Side::Yes, 40), 0);
    assert_eq!(state.depth_at_price(Side::Yes, 41), 0);
}

#[test]
fn test_snapshot_later_level_replaces_earlier() {
    let state = OrderbookState::from_snapshot(&snapshot("TEST", Some(vec![[42, 7], [42, 9], [42, 0]]), None));
    assert_eq!(state.depth_at_price(Side::Yes, 42), 9);
    assert_eq!(state.yes_levels(), &vec![(42, 9)]);
}

#[test]
fn test_levels_are_ascending() {
    let state = OrderbookState::from_snapshot(&snapshot("TEST", Some(vec![[50, 1], [10, 2], [30, 3]]), None));
    assert_eq!(state.yes_levels(), &vec![(10, 2), (30, 3), (50, 1)]);
    assert_eq!(state.best_yes_bid(), Some((50, 1)));
}

#[test]
fn test_best_no_bid_and_ask() {
    let state = OrderbookState::from_snapshot(&snapshot("TEST", Some(vec![[45, 100], [47, 5]]), Some(vec![[52, 9]])));
    assert_eq!(state.best_no_bid(), Some((52, 9)));
    assert_eq!(state.best_no_ask(), Some((53, 5)));
    assert_eq!(state.no_levels(), &vec![(52, 9)]);
}

#[test]
fn test_delta_leaves_other_levels() {
    let mut state = OrderbookState::from_snapshot(&snapshot("TEST", Some(vec![[45, 100], [44, 200]]), Some(vec![[55, 10]])));
    let q = state.apply_delta(&delta("TEST", 45, 7, Side::Yes));
    assert_eq!(q, 107);
    assert_eq!(state.depth_at_price(Side::Yes, 45), 107);
    assert_eq!(state.depth_at_price(Side::Yes, 44), 200);
    assert_eq!(state.depth_at_price(Side::No, 55), 10);
}

#[test]
fn test_opposite_delta_undoes() {
    let mut state = OrderbookState::from_snapshot(&snapshot("TEST", Some(vec![[45, 100], [44, 200]]), Some(vec![[55, 10]])));
    let yes_before = state.yes_levels().clone();
    let no_before = state.no_levels().clone();
    state.apply_delta(&delta("TEST", 46, 30, Side::Yes));
    state.apply_delta(&delta("TEST", 46, -30, Side::Yes));
    assert_eq!(state.yes_levels(), &yes_before);
    state.apply_delta(&delta("TEST", 44, -50, Side::Yes));
    state.apply_delta(&delta("TEST", 44, 50, Side::Yes));
    assert_eq!(state.yes_levels(), &yes_before);
    assert_eq!(state.no_levels(), &no_before);
}

#[test]
fn test_update_seq_none_keeps_last() {
    let mut state = OrderbookState::new();
    state.update_seq(Some(5));
    state.update_seq(None);
    assert_eq!(state.last_seq(), Some(5));
}

#[test]
fn test_within_limits() {
    let state = OrderbookState::from_snapshot(&snapshot("TEST", Some(vec![[45, 100]]), Some(vec![[55, 150]])));
    assert!(state.within_limits());
    let huge = OrderbookState::from_snapshot(&snapshot("TEST", Some(vec![[45, i64::MAX], [46, 1]]), None));
    assert!(!huge.within_limits());
}

#[test]
fn test_aggregator_new() {
    let agg = OrderbookAggregator::new();
    assert!(agg.tracked_markets().is_empty());
}

#[test]
fn test_handle_snapshot() {
    let mut agg = OrderbookAggregator::new();
    agg.handle_snapshot(&snapshot("TEST", Some(vec![[45, 100], [44, 200]]), Some(vec![[55, 150]])));

    assert!(agg.is_initialized("TEST"));
    assert_eq!(agg.best_bid("TEST"), Some((45, 100)));
    assert_eq!(agg.best_ask("TEST"), Some((45, 150)));
}

#[test]
fn test_handle_delta() {
    let mut agg = OrderbookAggregator::new();
    agg.handle_snapshot(&snapshot("TEST", Some(vec![[45, 100]]), Some(vec![[55, 150]])));
    agg.handle_delta(&delta("TEST", 46, 50, Side::Yes), Some(1));
    assert_eq!(agg.best_bid("TEST"), Some((46, 50)));
}

#[test]
fn aggregator_test_clear() {
    let mut agg = OrderbookAggregator::new();
    agg.handle_snapshot(&snapshot("TEST", Some(vec![[45, 100]]), None));
    assert!(!agg.tracked_markets().is_empty());
    agg.clear();
    assert!(agg.tracked_markets().is_empty());
}

#[test]
fn test_clear_market() {
    let mut agg = OrderbookAggregator::new();
    agg.handle_snapshot(&snapshot("TEST1", Some(vec![[45, 100]]), None));
    agg.handle_snapshot(&snapshot("TEST2", Some(vec![[50, 200]]), None));
    assert_eq!(agg.tracked_markets().len(), 2);

    agg.clear_market("TEST1");

    assert_eq!(agg.tracked_markets().len(), 1);
    assert!(agg.summary("TEST2").is_some());
    assert!(agg.summary("TEST1").is_none());
}

#[test]
fn test_summary() {
    let mut agg = OrderbookAggregator::new();
    agg.handle_snapshot(&snapshot("TEST", Some(vec![[45, 100], [44, 200]]), Some(vec![[53, 150]])));

    let summary = agg.summary("TEST").unwrap();

    assert_eq!(summary.ticker, "TEST");
    assert_eq!(summary.best_bid, Some((45, 100)));
    assert_eq!(summary.best_ask, Some((47, 150)));
    assert_eq!(summary.spread, Some(2));
    assert_eq!(midpoint(summary.best_bid, summary.best_ask), Some(46.0));
    assert_eq!(summary.total_yes_liquidity, 300);
    assert_eq!(summary.total_no_liquidity, 150);
}

#[test]
fn test_unknown_market_returns_none() {
    let agg = OrderbookAggregator::new();

    assert!(agg.summary("UNKNOWN").is_none());
    assert!(agg.best_bid("UNKNOWN").is_none());
    assert!(agg.best_ask("UNKNOWN").is_none());
    assert!(agg.spread("UNKNOWN").is_none());
    assert!(!agg.is_initialized("UNKNOWN"));
}

#[test]
fn test_depth_at_price() {
    let mut agg = OrderbookAggregator::new();
    agg.handle_snapshot(&snapshot("TEST", Some(vec![[45, 100], [44, 200]]), Some(vec![[55, 150]])));

    assert_eq!(agg.depth_at_price("TEST", Side::Yes, 45), 100);
    assert_eq!(agg.depth_at_price("TEST", Side::Yes, 44), 200);
    assert_eq!(agg.depth_at_price("TEST", Side::No, 55), 150);
    assert_eq!(agg.depth_at_price("TEST", Side::Yes, 99), 0);
    assert_eq!(agg.depth_at_price("UNKNOWN", Side::Yes, 45), 0);
}

fn level(levels: &[(i64, i64)], price: i64) -> Option<i64> {
    levels.iter().find(|l| l.0 == price).map(|l| l.1)
}

#[test]
fn test_full_book() {
    let mut agg = OrderbookAggregator::new();
    assert!(agg.full_book("UNKNOWN").is_none());

    agg.handle_snapshot(&snapshot("TEST", Some(vec![[45, 100], [44, 200]]), Some(vec![[55, 150]])));
    agg.handle_delta(&delta("TEST", 46, 75, Side::Yes), Some(1));
    agg.handle_delta(&delta("TEST", 44, -200, Side::Yes), Some(2));

    let ladder = agg.full_book("TEST").unwrap();
    assert_eq!(ladder.yes_levels.len(), 2);
    assert_eq!(level(&ladder.yes_levels, 46), Some(75));
    assert_eq!(level(&ladder.yes_levels, 45), Some(100));
    assert_eq!(level(&ladder.yes_levels, 44), None);
    assert_eq!(level(&ladder.no_levels, 55), Some(150));
}

#[test]
fn test_delta_before_snapshot_ignored() {
    let mut agg = OrderbookAggregator::new();
    let r = agg.handle_delta(&delta("TEST", 45, 100, Side::Yes), Some(1));
    assert!(r.is_none());
    assert!(agg.full_book("TEST").is_none());
    assert!(agg.tracked_markets().is_empty());
}

#[test]
fn test_sequence_gap_reported() {
    let mut agg = OrderbookAggregator::new();
    agg.handle_snapshot(&snapshot("TEST", Some(vec![[45, 100]]), None));
    let first = agg.handle_delta(&delta("TEST", 45, 1, Side::Yes), Some(10)).unwrap();
    assert!(first.gap.is_none());
    let next = agg.handle_delta(&delta("TEST", 45, 1, Side::Yes), Some(11)).unwrap();
    assert!(next.gap.is_none());
    let gap = agg.handle_delta(&delta("TEST", 45, 1, Side::Yes), Some(14)).unwrap();
    let g = gap.gap.unwrap();
    assert_eq!(g.ticker, Some("TEST".to_string()));
    assert_eq!(g.expected, 12);
    assert_eq!(g.received, 14);
    assert_eq!(gap.change.new_quantity, 103);
    assert_eq!(gap.change.quantity_change, 1);
    assert_eq!(gap.change.price, 45);
}

#[test]
fn test_tracked_markets_in_order() {
    let mut agg = OrderbookAggregator::new();
    agg.handle_snapshot(&snapshot("B", None, None));
    agg.handle_snapshot(&snapshot("A", None, None));
    agg.handle_snapshot(&snapshot("B", Some(vec![[1, 1]]), None));
    assert_eq!(agg.tracked_markets(), vec!["B".to_string(), "A".to_string()]);
    assert_eq!(agg.best_bid("B"), Some((1, 1)));
}

#[test]
fn test_process_event_steps() {
    let mut agg = OrderbookAggregator::new();
    match agg.process_event(FeedEvent::Snapshot(snapshot("T", Some(vec![[10, 5]]), None))) {
        FeedStep::Continue { gap, changed } => {
            assert!(gap.is_none());
            let (t, d) = changed.unwrap();
            assert_eq!(t, "T");
            assert!(d.is_none());
        }
        FeedStep::Stop => panic!("expected continue"),
    }
    match agg.process_event(FeedEvent::Delta(delta("T", 10, -5, Side::Yes), None)) {
        FeedStep::Continue { gap, changed } => {
            assert!(gap.is_none());
            let (t, d) = changed.unwrap();
            assert_eq!(t, "T");
            assert_eq!(d.unwrap().new_quantity, 0);
        }
        FeedStep::Stop => panic!("expected continue"),
    }
    match agg.process_event(FeedEvent::Lagged(7)) {
        FeedStep::Continue { gap, changed } => {
            let g = gap.unwrap();
            assert!(g.ticker.is_none());
            assert_eq!(g.expected, 0);
            assert_eq!(g.received, 7);
            assert!(changed.is_none());
        }
        FeedStep::Stop => panic!("expected continue"),
    }
    assert!(matches!(agg.process_event(FeedEvent::Other), FeedStep::Continue { gap: None, changed: None }));
    assert!(matches!(agg.process_event(FeedEvent::ConnectionEnded), FeedStep::Stop));
    assert!(matches!(agg.process_event(FeedEvent::ChannelClosed), FeedStep::Stop));
    assert_eq!(agg.best_bid("T"), None);
}
