use trading_engine::decimal::Decimal;
use trading_engine::engine::OrderEngine;
use trading_engine::market::{btc_gbp, btc_usd, CcyPair, Command, MarketEvent, OrderL2, OrderRow, TickPrice};

fn dec(units: u64) -> Decimal {
    Decimal::from_units(units)
}

fn bar(low: u64) -> TickPrice {
    TickPrice {
        timestamp: dec(1_600_000_000 * 100_000_000),
        open: dec(low + 5),
        high: dec(low + 10),
        low: dec(low),
        close: dec(low + 7),
        volume: dec(42),
    }
}

fn tick(price_bar: Option<TickPrice>, last: Option<u64>) -> MarketEvent {
    MarketEvent::MarketData { price_bar, book: None, last_trade_price: last.map(dec) }
}

fn book() -> OrderL2 {
    OrderL2 {
        seqnum: 7,
        event: String::from("snapshot"),
        channel: String::from("l2"),
        symbol: String::from("BTC-GBP"),
        bids: vec![OrderRow { num: 1, px: dec(100), qty: dec(2) }],
        asks: vec![OrderRow { num: 1, px: dec(101), qty: dec(3) }],
    }
}

#[test]
fn test_currencies() {
    let btc_usd_pair = CcyPair { base: "USD", quoted: "BTC" };
    let btc_gbp_pair = CcyPair { base: "GBP", quoted: "BTC" };

    assert_eq!(btc_usd_pair.base, "USD");
    assert_eq!(btc_gbp_pair.base, "GBP");
    assert_eq!(btc_usd_pair.quoted, "BTC");
    assert_eq!(btc_gbp_pair.quoted, "BTC");
}

#[test]
fn named_pairs_match_their_codes() {
    assert_eq!(btc_usd(), CcyPair { base: "USD", quoted: "BTC" });
    assert_eq!(btc_gbp(), CcyPair { base: "GBP", quoted: "BTC" });
}

#[test]
fn new_engine_is_empty_with_cap_two() {
    let pair = btc_gbp();
    let engine = OrderEngine::new(&pair);
    assert_eq!(engine.max_orders(), 2);
    assert_eq!(engine.submitted_orders(), 0);
    assert!(engine.price_history().is_empty());
    assert!(engine.book_history().is_empty());
    assert!(engine.last_trade_prices().is_empty());
    assert_eq!(engine.ccy_pair().base, "GBP");
    assert_eq!(engine.ccy_pair().quoted, "BTC");
}

#[test]
fn threshold_fires_below_the_low() {
    let pair = btc_gbp();
    let mut engine = OrderEngine::new(&pair);
    let command = engine.decide(tick(Some(bar(1_050_000_000)), Some(1_000_000_000)));
    assert_eq!(command, Some(Command::SubmitNewOrder { reference_price: dec(995_000_000) }));
}

#[test]
fn threshold_fires_on_a_price_seen_earlier() {
    let pair = btc_gbp();
    let mut engine = OrderEngine::new(&pair);
    assert_eq!(engine.decide(tick(None, Some(1_000_000_000))), None);
    assert_eq!(engine.last_trade_prices().as_slice(), &[dec(1_000_000_000)]);
    let command = engine.decide(tick(Some(bar(1_050_000_000)), None));
    assert_eq!(command, Some(Command::SubmitNewOrder { reference_price: dec(995_000_000) }));
}

#[test]
fn threshold_is_silent_above_the_low() {
    let pair = btc_gbp();
    let mut engine = OrderEngine::new(&pair);
    let command = engine.decide(tick(Some(bar(950_000_000)), Some(1_000_000_000)));
    assert_eq!(command, None);
}

#[test]
fn threshold_is_silent_on_equality() {
    let pair = btc_gbp();
    let mut engine = OrderEngine::new(&pair);
    let command = engine.decide(tick(Some(bar(1_000_000_000)), Some(1_000_000_000)));
    assert_eq!(command, None);
}

#[test]
fn threshold_uses_latest_observations_only() {
    let pair = btc_gbp();
    let mut engine = OrderEngine::new(&pair);
    assert!(engine.decide(tick(Some(bar(1_050_000_000)), Some(1_000_000_000))).is_some());
    assert_eq!(engine.decide(tick(None, Some(1_100_000_000))), None);
    assert_eq!(engine.decide(tick(Some(bar(1_200_000_000)), None)),
        Some(Command::SubmitNewOrder { reference_price: dec(1_094_500_000) }));
}

#[test]
fn cap_stops_new_orders() {
    let pair = btc_gbp();
    let mut engine = OrderEngine::new(&pair);
    for _ in 0..2 {
        let command = engine.decide(tick(Some(bar(1_050_000_000)), Some(1_000_000_000)));
        assert!(matches!(command, Some(Command::SubmitNewOrder { .. })));
        engine.increment_order_count();
    }
    assert_eq!(engine.submitted_orders(), 2);
    for _ in 0..5 {
        let command = engine.decide(tick(Some(bar(1_050_000_000)), Some(1_000_000_000)));
        assert_eq!(command, None);
    }
    assert_eq!(engine.submitted_orders(), 2);
    assert_eq!(engine.price_history().len(), 7);
}

#[test]
fn step_counts_each_new_order() {
    let pair = btc_usd();
    let mut engine = OrderEngine::new(&pair);
    assert!(engine.step(tick(Some(bar(1_050_000_000)), Some(1_000_000_000))).is_some());
    assert_eq!(engine.submitted_orders(), 1);
    assert_eq!(engine.step(tick(None, Some(2_000_000_000))), None);
    assert_eq!(engine.submitted_orders(), 1);
    assert!(engine.step(tick(None, Some(1_000_000_000))).is_some());
    assert_eq!(engine.submitted_orders(), 2);
    assert_eq!(engine.step(tick(None, Some(1_000_000_000))), None);
    assert_eq!(engine.submitted_orders(), 2);
}

#[test]
fn increment_adds_exactly_one() {
    let pair = btc_gbp();
    let mut engine = OrderEngine::new(&pair);
    engine.increment_order_count();
    assert_eq!(engine.submitted_orders(), 1);
    engine.increment_order_count();
    engine.increment_order_count();
    assert_eq!(engine.submitted_orders(), 3);
    assert_eq!(engine.max_orders(), 2);
    assert!(engine.price_history().is_empty());
}

#[test]
fn cancel_passes_the_list_through() {
    let pair = btc_gbp();
    let mut engine = OrderEngine::new(&pair);
    engine.decide(tick(Some(bar(1_050_000_000)), Some(1_000_000_000)));
    let ids = vec![String::from("b"), String::from("a"), String::from("b")];
    let command = engine.decide(MarketEvent::OpenOrdersSnapshot { order_ids: ids.clone() });
    assert_eq!(command, Some(Command::CancelOrders { order_ids: ids }));
    assert_eq!(engine.price_history().len(), 1);
    assert_eq!(engine.last_trade_prices().len(), 1);
    assert_eq!(engine.submitted_orders(), 0);
}

#[test]
fn cancel_passes_through_at_the_cap() {
    let pair = btc_gbp();
    let mut engine = OrderEngine::new(&pair);
    engine.increment_order_count();
    engine.increment_order_count();
    let ids = vec![String::from("only")];
    let command = engine.decide(MarketEvent::OpenOrdersSnapshot { order_ids: ids.clone() });
    assert_eq!(command, Some(Command::CancelOrders { order_ids: ids }));
}

#[test]
fn empty_snapshot_yields_nothing() {
    let pair = btc_gbp();
    let mut engine = OrderEngine::new(&pair);
    let command = engine.decide(MarketEvent::OpenOrdersSnapshot { order_ids: vec![] });
    assert_eq!(command, None);
}

#[test]
fn history_grows_in_arrival_order() {
    let pair = btc_gbp();
    let mut engine = OrderEngine::new(&pair);
    let lows: Vec<u64> = vec![5, 3, 9, 9, 1, 7];
    for low in &lows {
        engine.decide(tick(Some(bar(*low)), None));
    }
    assert_eq!(engine.price_history().len(), lows.len());
    let seen: Vec<u64> = engine.price_history().iter().map(|b| b.low.units).collect();
    assert_eq!(seen, lows);
}

#[test]
fn book_history_grows() {
    let pair = btc_gbp();
    let mut engine = OrderEngine::new(&pair);
    let event = MarketEvent::MarketData { price_bar: None, book: Some(book()), last_trade_price: None };
    assert_eq!(engine.decide(event), None);
    assert_eq!(engine.book_history().len(), 1);
    assert_eq!(engine.book_history()[0], book());
    assert!(engine.price_history().is_empty());
}

#[test]
fn empty_tick_changes_nothing() {
    let pair = btc_gbp();
    let mut engine = OrderEngine::new(&pair);
    assert_eq!(engine.decide(tick(None, None)), None);
    assert!(engine.price_history().is_empty());
    assert!(engine.book_history().is_empty());
    assert!(engine.last_trade_prices().is_empty());

    engine.decide(tick(Some(bar(950_000_000)), Some(1_000_000_000)));
    assert_eq!(engine.decide(tick(None, None)), None);
    assert_eq!(engine.price_history().len(), 1);
    assert_eq!(engine.last_trade_prices().len(), 1);
    assert!(engine.book_history().is_empty());
}

#[test]
fn batch_stops_after_first_silent_event() {
    let pair = btc_gbp();
    let mut engine = OrderEngine::new(&pair);
    let events = vec![
        MarketEvent::OpenOrdersSnapshot { order_ids: vec![String::from("x1")] },
        tick(Some(bar(1_050_000_000)), Some(1_000_000_000)),
        tick(Some(bar(900_000_000)), None),
        tick(Some(bar(1_050_000_000)), None),
    ];
    let commands = engine.run_batch(events);
    assert_eq!(
        commands,
        vec![
            Command::CancelOrders { order_ids: vec![String::from("x1")] },
            Command::SubmitNewOrder { reference_price: dec(995_000_000) },
        ]
    );
    assert_eq!(engine.submitted_orders(), 1);
    assert_eq!(engine.price_history().len(), 2);
}

#[test]
fn batch_respects_the_cap() {
    let pair = btc_gbp();
    let mut engine = OrderEngine::new(&pair);
    let mut events = Vec::new();
    for _ in 0..4 {
        events.push(tick(Some(bar(1_050_000_000)), Some(1_000_000_000)));
    }
    let commands = engine.run_batch(events);
    assert_eq!(commands.len(), 2);
    assert_eq!(engine.submitted_orders(), 2);
    assert_eq!(engine.price_history().len(), 3);
}

#[test]
fn discount_rounds_down() {
    assert_eq!(dec(1_000_000_000).discounted(), dec(995_000_000));
    assert_eq!(dec(0).discounted(), dec(0));
    assert_eq!(dec(1).discounted(), dec(0));
    assert_eq!(dec(1000).discounted(), dec(995));
    assert_eq!(dec(1001).discounted(), dec(995));
    assert_eq!(dec(u64::MAX).discounted(), dec(18_354_510_353_341_003_856));
}

#[test]
fn below_is_strict() {
    assert!(dec(1).below(dec(2)));
    assert!(!dec(2).below(dec(2)));
    assert!(!dec(3).below(dec(2)));
}

#[test]
fn cap_is_set_at_construction() {
    let pair = btc_usd();
    let mut engine = OrderEngine::with_max_orders(&pair, 0);
    assert_eq!(engine.max_orders(), 0);
    assert_eq!(engine.decide(tick(Some(bar(1_050_000_000)), Some(1_000_000_000))), None);

    let mut wide = OrderEngine::with_max_orders(&pair, 3);
    let mut events = Vec::new();
    for _ in 0..6 {
        events.push(tick(Some(bar(1_050_000_000)), Some(1_000_000_000)));
    }
    assert_eq!(wide.run_batch(events).len(), 3);
    assert_eq!(wide.submitted_orders(), 3);
}
