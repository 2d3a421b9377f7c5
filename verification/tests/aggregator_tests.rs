use kalshi_monitor::aggregator::on_price;
use kalshi_monitor::aggregator::should_emit;
use kalshi_monitor::aggregator::AggregatorConfig;
use kalshi_monitor::aggregator::AggregatorState;
use kalshi_monitor::aggregator::Exchange;
use kalshi_monitor::aggregator::ExchangePrice;

fn price(exchange: Exchange, mid_dollars: u64) -> ExchangePrice {
    let micro = mid_dollars * 1_000_000;
    ExchangePrice::new(exchange, micro, micro, "t".to_string())
}

#[test]
fn test_mean_over_populated_venues() {
    let mut state = AggregatorState::new();
    assert_eq!(state.exchange_count(), 0);
    assert!(state.mean_mid_price().is_none());

    // Three venues at 100000, 100010 and 99990; the fourth is disconnected.
    state.update(price(Exchange::Binance, 100_000));
    state.update(price(Exchange::Coinbase, 100_010));
    state.update(price(Exchange::Cryptocom, 99_990));
    assert_eq!(state.exchange_count(), 3);
    assert_eq!(state.mean_mid_price(), Some(100_000_000_000));

    // The fourth reconnects at 100020: the mean uses all four.
    state.update(price(Exchange::Kraken, 100_020));
    assert_eq!(state.exchange_count(), 4);
    assert_eq!(state.mean_mid_price(), Some(100_005_000_000));
}

#[test]
fn test_update_overwrites_only_its_venue() {
    let mut state = AggregatorState::new();
    state.update(price(Exchange::Binance, 100_000));
    state.update(price(Exchange::Binance, 100_100));
    assert_eq!(state.exchange_count(), 1);
    assert_eq!(state.mean_mid_price(), Some(100_100_000_000));
}

#[test]
fn test_mid_is_mean_of_bid_and_ask() {
    let p = ExchangePrice::new(Exchange::Kraken, 99_000_000_000, 100_000_000_000, "t".to_string());
    assert_eq!(p.mid_micro, 99_500_000_000);
}

#[test]
fn test_should_emit_threshold() {
    // No prior value: always emit.
    assert!(should_emit(None, 100_000_000_000));
    // Below half a dollar of movement: stay quiet.
    assert!(!should_emit(Some(100_000_000_000), 100_000_499_999));
    assert!(!should_emit(Some(100_000_000_000), 99_999_500_001));
    // Half a dollar either way: emit.
    assert!(should_emit(Some(100_000_000_000), 100_000_500_000));
    assert!(should_emit(Some(100_000_000_000), 99_999_500_000));
}

#[test]
fn test_on_price_builds_update() {
    let mut state = AggregatorState::new();
    state.update(price(Exchange::Binance, 100_000));
    let update = on_price(&mut state, price(Exchange::Coinbase, 100_010), "now".to_string());
    assert_eq!(update.exchange_count, 2);
    assert_eq!(update.mean_mid_micro, 100_005_000_000);
    assert_eq!(update.triggered_by, Exchange::Coinbase);
    assert_eq!(update.exchange_mids.len(), 2);
    assert_eq!(update.exchange_mids[0], (Exchange::Binance, 100_000_000_000));
    assert_eq!(update.exchange_mids[1], (Exchange::Coinbase, 100_010_000_000));
    assert_eq!(update.timestamp, "now");
}

#[test]
fn test_aggregator_config_default() {
    let cfg: AggregatorConfig = Default::default();
    assert!(cfg.enable_binance && cfg.enable_coinbase && cfg.enable_kraken && cfg.enable_cryptocom);
    assert_eq!(cfg.reconnect_delay_secs, 5);
}

#[test]
fn test_exchange_names() {
    assert_eq!(Exchange::Binance.name(), "binance");
    assert_eq!(Exchange::Coinbase.name(), "coinbase");
    assert_eq!(Exchange::Kraken.name(), "kraken");
    assert_eq!(Exchange::Cryptocom.name(), "cryptocom");
}
