use kalshi_monitor::calculator::CalculatorState;
use kalshi_monitor::fair_value::MarketType;
use kalshi_monitor::orderbook::ProbabilityUpdate;

fn prob_update(yes_bid: u16, no_bid: u16) -> ProbabilityUpdate {
    ProbabilityUpdate {
        market_ticker: "TEST".to_string(),
        yes_prob_micro: yes_bid as i64 * 10_000,
        no_prob_micro: no_bid as i64 * 10_000,
        yes_bid,
        no_bid,
        yes_qty: 100,
        no_qty: 200,
        timestamp_ms: 42,
    }
}

#[test]
fn test_new_without_parseable_ticker() {
    let state = CalculatorState::new("UNKNOWN-FORMAT".to_string());
    assert!(state.fair_value_calc.is_none());
    assert!(state.strike_price.is_none());
    assert_eq!(state.confidence, 500_000);
}

#[test]
fn test_new_with_parseable_ticker() {
    let state = CalculatorState::new("KXBTC-26FEB04-T1200-B97250".to_string());
    assert!(state.fair_value_calc.is_some());
    assert_eq!(state.strike_price, Some(97_250));
    assert_eq!(state.expiry_epoch_s, Some(1_770_224_400));
}

#[test]
fn test_blending_follows_spec_scenario() {
    // yes_bid 55, no_bid 42: venue mid = (0.55 + 0.58) / 2 = 0.565.
    // With a model at 0.60 and even confidence the blend is 0.5825.
    let mut state = CalculatorState::with_market_spec(
        "TEST".to_string(),
        100_000,
        1_770_224_400,
        MarketType::Above,
    );
    state.update_kalshi(&prob_update(55, 42));
    assert_eq!(state.kalshi_prob, Some(550_000));
    assert_eq!(state.kalshi_no_prob, Some(420_000));
    // No model fair value yet: nothing to blend.
    assert!(state.blended_fair_prob.is_none());

    // A spot update on a live market takes the supplied normal value 0.60.
    let fair = state.update_btc_price(
        97_000_000_000,
        96_990_000_000,
        97_010_000_000,
        3,
        "now",
        1_770_000_000,
        600_000,
        0,
        0,
    );
    assert_eq!(fair, Some(600_000));
    assert_eq!(state.fair_prob, Some(600_000));
    assert_eq!(state.blended_fair_prob, Some(582_500));
    assert_eq!(state.btc_exchange_count, 3);
}

#[test]
fn test_confidence_extremes() {
    let mut state = CalculatorState::with_market_spec(
        "TEST".to_string(),
        100_000,
        1_770_224_400,
        MarketType::Above,
    );
    state.update_kalshi(&prob_update(55, 42));
    state.update_btc_price(
        97_000_000_000,
        97_000_000_000,
        97_000_000_000,
        4,
        "now",
        1_770_000_000,
        600_000,
        0,
        0,
    );

    state.set_confidence(1_000_000);
    assert_eq!(state.blended_fair_prob, Some(600_000));
    state.set_confidence(0);
    assert_eq!(state.blended_fair_prob, Some(565_000));
    // Out-of-range confidence clamps.
    state.set_confidence(5_000_000);
    assert_eq!(state.confidence, 1_000_000);
    state.set_confidence(-3);
    assert_eq!(state.confidence, 0);
}

#[test]
fn test_should_publish_thresholds() {
    let mut state = CalculatorState::new("X".to_string());
    // Nothing seen yet: nothing to publish.
    assert!(!state.should_publish());

    state.update_kalshi(&prob_update(55, 42));
    // First value publishes.
    assert!(state.should_publish());
    // Unchanged: no publish.
    assert!(!state.should_publish());

    // A tenth of a percent moves it.
    state.update_kalshi(&prob_update(56, 42));
    assert!(state.should_publish());

    // The spot must move a dollar.
    state.update_btc_price(100_000_000_000, 0, 0, 1, "t", 0, 0, 0, 0);
    assert!(state.should_publish());
    state.update_btc_price(100_000_999_999, 0, 0, 1, "t", 0, 0, 0, 0);
    assert!(!state.should_publish());
    state.update_btc_price(100_001_000_000, 0, 0, 1, "t", 0, 0, 0, 0);
    assert!(state.should_publish());
}

#[test]
fn test_snapshot_needs_all_fields() {
    let mut state = CalculatorState::with_market_spec(
        "TEST".to_string(),
        100_000,
        1_770_224_400,
        MarketType::Above,
    );
    assert!(state.to_snapshot(1_770_000_000).is_none());

    state.update_kalshi(&prob_update(55, 42));
    assert!(state.to_snapshot(1_770_000_000).is_none());

    state.update_btc_price(
        97_000_000_000,
        96_990_000_000,
        97_010_000_000,
        3,
        "now",
        1_770_000_000,
        600_000,
        0,
        0,
    );
    let snap = state.to_snapshot(1_770_000_000).unwrap();
    assert_eq!(snap.ticker, "TEST");
    assert_eq!(snap.btc_mid_price, 97_000_000_000);
    assert_eq!(snap.yes_bid, 55);
    assert_eq!(snap.no_bid, 42);
    assert_eq!(snap.model_fair_prob, 600_000);
    assert_eq!(snap.blended_fair_prob, 582_500);
    assert_eq!(snap.seconds_to_expiry, 224_400);
    assert_eq!(snap.exchange_count, 3);
}
