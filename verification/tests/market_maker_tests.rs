use kalshi_monitor::fair_value::FairValueCalculator;
use kalshi_monitor::fair_value::MarketType;
use kalshi_monitor::fees::ProductType;
use kalshi_monitor::market_maker::MarketMaker;
use kalshi_monitor::market_maker::MarketMakerConfig;
use kalshi_monitor::market_maker::MarketMakerSignal;
use kalshi_monitor::orders::OrderSide;

fn test_calc() -> FairValueCalculator {
    FairValueCalculator::manual("TEST", 100_000, 1_770_224_400, MarketType::Above)
}

fn config_with_confidence(confidence: i64) -> MarketMakerConfig {
    MarketMakerConfig { fair_value_confidence: confidence, ..Default::default() }
}

#[test]
fn test_market_mid_calculation() {
    // yes_bid = 55, no_bid = 42: yes_ask = 0.58, mid = (0.55 + 0.58) / 2.
    let mid = MarketMaker::calculate_market_mid(55, 42);
    assert_eq!(mid, 565_000);

    // Symmetric case.
    let mid = MarketMaker::calculate_market_mid(50, 50);
    assert_eq!(mid, 500_000);
}

#[test]
fn test_fair_value_blending() {
    let model_fair = 600_000;
    let market_mid = 500_000;

    // Full confidence uses the model.
    let mut mm = MarketMaker::new("TEST".to_string(), test_calc(), config_with_confidence(1_000_000));
    assert_eq!(mm.blend_fair_value(model_fair, market_mid), 600_000);

    // Zero confidence uses the market.
    let mut mm = MarketMaker::new("TEST".to_string(), test_calc(), config_with_confidence(0));
    assert_eq!(mm.blend_fair_value(model_fair, market_mid), 500_000);

    // Even confidence blends evenly.
    let mut mm = MarketMaker::new("TEST".to_string(), test_calc(), config_with_confidence(500_000));
    assert_eq!(mm.blend_fair_value(model_fair, market_mid), 550_000);

    // Seventy percent confidence.
    let mut mm = MarketMaker::new("TEST".to_string(), test_calc(), config_with_confidence(700_000));
    assert_eq!(mm.blend_fair_value(model_fair, market_mid), 570_000);
}

#[test]
fn test_signals_gate_too_close_to_expiry() {
    let mut mm = MarketMaker::new("TEST".to_string(), test_calc(), MarketMakerConfig::default());
    // Under the half-hour cutoff: one cancel-all and nothing else.
    let signals = mm.generate_signals(600_000, 55, 42, 600);
    assert_eq!(signals.len(), 1);
    match &signals[0] {
        MarketMakerSignal::CancelAll { reason } => assert_eq!(reason, "Too close to expiry"),
        _ => panic!("expected a cancel-all"),
    }
}

#[test]
fn test_signals_gate_expired() {
    let cfg = MarketMakerConfig { min_seconds_to_expiry: 0, ..Default::default() };
    let mut mm = MarketMaker::new("TEST".to_string(), test_calc(), cfg);
    let signals = mm.generate_signals(600_000, 55, 42, 0);
    assert_eq!(signals.len(), 1);
    match &signals[0] {
        MarketMakerSignal::CancelAll { reason } => assert_eq!(reason, "Market expired"),
        _ => panic!("expected a cancel-all"),
    }
}

#[test]
fn test_signals_take_and_quotes() {
    // Full model confidence at 0.30 against a 55/42 book: buying NO at the
    // implied 0.45 ask nets twenty-three cents, far over the threshold.
    let mut mm = MarketMaker::new(
        "TEST".to_string(),
        test_calc(),
        config_with_confidence(1_000_000),
    );
    let signals = mm.generate_signals(300_000, 55, 42, 86_400);
    assert_eq!(signals.len(), 3);

    match &signals[0] {
        MarketMakerSignal::AggressiveTake(take) => {
            assert_eq!(take.side, OrderSide::No);
            assert!(take.is_buy);
            assert_eq!(take.price_cents, 45);
            // $100 budget at 0.45: 222 contracts, within the 500 headroom.
            assert_eq!(take.contracts, 222);
            // Raw 0.25 less the two-cent taker fee at 0.45.
            assert_eq!(take.edge, 230_000);
        },
        _ => panic!("expected an aggressive take first"),
    }
    // YES bid at fair - half spread = 0.285, rounded to 29 cents.
    match &signals[1] {
        MarketMakerSignal::Quote(q) => {
            assert_eq!(q.side, OrderSide::Yes);
            assert!(q.is_buy);
            assert_eq!(q.price_cents, 29);
            assert_eq!(q.contracts, 100);
            assert_eq!(q.edge, 15_000);
        },
        _ => panic!("expected a YES bid quote"),
    }
    // NO bid at (1 - fair) - half spread = 0.685, rounded to 69 cents.
    match &signals[2] {
        MarketMakerSignal::Quote(q) => {
            assert_eq!(q.side, OrderSide::No);
            assert!(q.is_buy);
            assert_eq!(q.price_cents, 69);
            assert_eq!(q.contracts, 100);
        },
        _ => panic!("expected a NO bid quote"),
    }
}

#[test]
fn test_signals_hold_when_nothing_fires() {
    // Confidence zero quotes around the market mid; a one-cent-wide book
    // leaves no room for the base spread, so every quote price misses.
    let cfg = MarketMakerConfig {
        fair_value_confidence: 0,
        min_edge_to_quote: 1_000_000,
        aggressive_take_threshold: 1_000_000,
        ..Default::default()
    };
    let mut mm = MarketMaker::new("TEST".to_string(), test_calc(), cfg);
    let signals = mm.generate_signals(500_000, 50, 50, 86_400);
    assert_eq!(signals.len(), 1);
    match &signals[0] {
        MarketMakerSignal::Hold { reason } => {
            assert_eq!(reason, "No profitable opportunities");
        },
        _ => panic!("expected a hold"),
    }
}

#[test]
fn test_no_trading_beside_cancel_all() {
    // Whenever a cancel-all appears, it is the entire batch.
    let mut mm = MarketMaker::new("TEST".to_string(), test_calc(), MarketMakerConfig::default());
    let signals = mm.generate_signals(700_000, 55, 42, 10);
    assert_eq!(signals.len(), 1);
    for s in &signals {
        match s {
            MarketMakerSignal::Quote(_) | MarketMakerSignal::AggressiveTake(_) => {
                panic!("no quote or take may accompany a cancel-all");
            },
            _ => {},
        }
    }
}

#[test]
fn test_on_fill_updates_position() {
    let mut mm = MarketMaker::new("TEST".to_string(), test_calc(), MarketMakerConfig::default());
    mm.on_fill(OrderSide::Yes, true, 100, 50);
    assert_eq!(mm.position.yes_position, 100);
    assert_eq!(mm.position.cost_basis, 50_000_000);
    let pnl = mm.pnl_summary();
    assert_eq!(pnl.position, 100);
    assert_eq!(pnl.realized_pnl, 0);
    assert_eq!(pnl.max_loss, 50_000_000);
}

#[test]
fn test_quote_posted_at_exact_minimum_edge() {
    // Half the base spread is exactly the required edge: the quotes post.
    let cfg = MarketMakerConfig { min_edge_to_quote: 15_000, ..config_with_confidence(1_000_000) };
    let mut mm = MarketMaker::new("TEST".to_string(), test_calc(), cfg);
    let signals = mm.generate_signals(500_000, 49, 49, 86_400);
    let quotes = signals
        .iter()
        .filter(|s| matches!(s, MarketMakerSignal::Quote(_)))
        .count();
    assert_eq!(quotes, 2);
}
