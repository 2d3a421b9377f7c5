use kalshi_monitor::venues::BinanceConfig;
use kalshi_monitor::venues::BookTickerMessage;
use kalshi_monitor::venues::CoinbaseConfig;
use kalshi_monitor::venues::CoinbaseTicker;
use kalshi_monitor::venues::CryptocomConfig;
use kalshi_monitor::venues::KrakenConfig;
use kalshi_monitor::venues::KrakenTickerData;

#[test]
fn test_binance_config_urls() {
    let cfg = BinanceConfig::btc_usdt();
    assert_eq!(cfg.symbol, "btcusdt");
    assert_eq!(cfg.book_ticker_url(), "wss://stream.binance.com:9443/ws/btcusdt@bookTicker");
    assert_eq!(cfg.trade_url(), "wss://stream.binance.com:9443/ws/btcusdt@trade");
}

#[test]
fn test_binance_config_lowercases_symbol() {
    let cfg = BinanceConfig::new("ETHUSDT");
    assert_eq!(cfg.symbol, "ethusdt");
}

#[test]
fn test_coinbase_config() {
    let cfg = CoinbaseConfig::btc_usd();
    assert_eq!(cfg.product_id, "BTC-USD");
    assert_eq!(cfg.ws_url(), "wss://advanced-trade-ws.coinbase.com");
    assert_eq!(
        cfg.ticker_subscribe_msg(),
        "{\"type\":\"subscribe\",\"product_ids\":[\"BTC-USD\"],\"channel\":\"ticker\"}"
    );
}

#[test]
fn test_kraken_config() {
    let cfg = KrakenConfig::btc_usd();
    assert_eq!(cfg.pair, "XBT/USD");
    assert_eq!(cfg.ws_url(), "wss://ws.kraken.com");
    assert_eq!(
        cfg.ticker_subscribe_msg(),
        "{\"event\":\"subscribe\",\"pair\":[\"XBT/USD\"],\"subscription\":{\"name\":\"ticker\"}}"
    );
}

#[test]
fn test_cryptocom_config() {
    let cfg = CryptocomConfig::btc_usdt();
    assert_eq!(cfg.instrument, "BTC_USDT");
    assert_eq!(cfg.ws_url(), "wss://stream.crypto.com/exchange/v1/market");
    assert_eq!(
        cfg.ticker_subscribe_msg(177),
        "{\"id\":1,\"method\":\"subscribe\",\"params\":{\"channels\":[\"ticker.BTC_USDT\"]},\"nonce\":177}"
    );
}

#[test]
fn test_book_ticker_price_parsing() {
    let msg = BookTickerMessage {
        u: 1,
        s: "BTCUSDT".to_string(),
        b: "109250.51000000".to_string(),
        bid_qty: "1.5".to_string(),
        a: "109251.00000000".to_string(),
        ask_qty: "2.0".to_string(),
    };
    assert_eq!(msg.bid_price(), Some(109_250_510_000));
    assert_eq!(msg.ask_price(), Some(109_251_000_000));
}

#[test]
fn test_coinbase_ticker_price_parsing() {
    let ticker = CoinbaseTicker {
        ticker_type: None,
        product_id: "BTC-USD".to_string(),
        price: "109000.5".to_string(),
        best_bid: "108999.99".to_string(),
        best_bid_quantity: "0.1".to_string(),
        best_ask: "109001.01".to_string(),
        best_ask_quantity: "0.2".to_string(),
        volume_24_h: "".to_string(),
        low_24_h: "".to_string(),
        high_24_h: "".to_string(),
    };
    assert_eq!(ticker.bid_price(), Some(108_999_990_000));
    assert_eq!(ticker.ask_price(), Some(109_001_010_000));
    assert_eq!(ticker.last_price(), Some(109_000_500_000));
}

#[test]
fn test_kraken_ticker_mid() {
    let t = KrakenTickerData {
        channel_id: 42,
        pair: "XBT/USD".to_string(),
        bid_micro: 108_999_990_000,
        ask_micro: 109_001_010_000,
        last_micro: 109_000_000_000,
    };
    assert_eq!(t.mid_price(), 109_000_500_000);
}
