//! Spot venue configurations and the shapes of their ticker messages.
//!
//! Each venue streams a best bid and ask for one instrument; prices arrive
//! as decimal strings (or, for one venue, JSON numbers that the surrounding
//! system converts) and are normalized here into micro-dollars.

use vstd::prelude::*;

use crate::text::lower_of;
use crate::text::lowercase;
use crate::text::parse_decimal_micro;
use crate::text::spec_decimal_micro;
use crate::text::spec_is_decimal;
use crate::text::spec_u64_string;
use crate::text::u64_string;

verus! {

// =============================================================================
// Configurations
// =============================================================================

/// First spot venue: the stream URL itself encodes the subscription.
#[derive(Clone)]
pub struct BinanceConfig {
    /// Trading pair symbol, lower case.
    pub symbol: String,
}

impl BinanceConfig {
    /// The default pair.
    pub fn btc_usdt() -> (r: Self)
        ensures
            r.symbol@ == "btcusdt"@,
    {
        BinanceConfig { symbol: "btcusdt".to_owned() }
    }

    /// A custom pair; the symbol is lower-cased.
    pub fn new(symbol: &str) -> (r: Self)
        ensures
            r.symbol@ == lower_of(symbol@),
    {
        BinanceConfig { symbol: lowercase(symbol) }
    }

    /// Stream URL for real-time best bid/ask.
    pub fn book_ticker_url(&self) -> (r: String)
        ensures
            r@ == "wss://stream.binance.com:9443/ws/"@ + self.symbol@ + "@bookTicker"@,
    {
        let mut s = "wss://stream.binance.com:9443/ws/".to_owned();
        s.append(self.symbol.as_str());
        s.append("@bookTicker");
        s
    }

    /// Stream URL for real-time trades.
    pub fn trade_url(&self) -> (r: String)
        ensures
            r@ == "wss://stream.binance.com:9443/ws/"@ + self.symbol@ + "@trade"@,
    {
        let mut s = "wss://stream.binance.com:9443/ws/".to_owned();
        s.append(self.symbol.as_str());
        s.append("@trade");
        s
    }
}

/// Second spot venue: subscribe by request after connecting.
#[derive(Clone)]
pub struct CoinbaseConfig {
    /// Product id such as `BTC-USD`.
    pub product_id: String,
}

impl CoinbaseConfig {
    /// The default product.
    pub fn btc_usd() -> (r: Self)
        ensures
            r.product_id@ == "BTC-USD"@,
    {
        CoinbaseConfig { product_id: "BTC-USD".to_owned() }
    }

    /// A custom product.
    pub fn new(product_id: &str) -> (r: Self)
        ensures
            r.product_id@ == product_id@,
    {
        CoinbaseConfig { product_id: product_id.to_owned() }
    }

    /// WebSocket URL.
    pub fn ws_url(&self) -> (r: &'static str)
        ensures
            r@ == "wss://advanced-trade-ws.coinbase.com"@,
    {
        "wss://advanced-trade-ws.coinbase.com"
    }

    /// Subscription request for the ticker channel.
    pub fn ticker_subscribe_msg(&self) -> (r: String)
        ensures
            r@ == "{\"type\":\"subscribe\",\"product_ids\":[\""@ + self.product_id@
                + "\"],\"channel\":\"ticker\"}"@,
    {
        let mut s = "{\"type\":\"subscribe\",\"product_ids\":[\"".to_owned();
        s.append(self.product_id.as_str());
        s.append("\"],\"channel\":\"ticker\"}");
        s
    }
}

/// Third spot venue; it names the pair in its own notation.
#[derive(Clone)]
pub struct KrakenConfig {
    /// Trading pair such as `XBT/USD`.
    pub pair: String,
}

impl KrakenConfig {
    /// The default pair.
    pub fn btc_usd() -> (r: Self)
        ensures
            r.pair@ == "XBT/USD"@,
    {
        KrakenConfig { pair: "XBT/USD".to_owned() }
    }

    /// A custom pair.
    pub fn new(pair: &str) -> (r: Self)
        ensures
            r.pair@ == pair@,
    {
        KrakenConfig { pair: pair.to_owned() }
    }

    /// WebSocket URL.
    pub fn ws_url(&self) -> (r: &'static str)
        ensures
            r@ == "wss://ws.kraken.com"@,
    {
        "wss://ws.kraken.com"
    }

    /// Subscription request for the ticker channel.
    pub fn ticker_subscribe_msg(&self) -> (r: String)
        ensures
            r@ == "{\"event\":\"subscribe\",\"pair\":[\""@ + self.pair@
                + "\"],\"subscription\":{\"name\":\"ticker\"}}"@,
    {
        let mut s = "{\"event\":\"subscribe\",\"pair\":[\"".to_owned();
        s.append(self.pair.as_str());
        s.append("\"],\"subscription\":{\"name\":\"ticker\"}}");
        s
    }
}

/// Fourth spot venue: subscriptions carry an incrementing nonce.
#[derive(Clone)]
pub struct CryptocomConfig {
    /// Instrument name such as `BTC_USDT`.
    pub instrument: String,
}

impl CryptocomConfig {
    /// The default instrument.
    pub fn btc_usdt() -> (r: Self)
        ensures
            r.instrument@ == "BTC_USDT"@,
    {
        CryptocomConfig { instrument: "BTC_USDT".to_owned() }
    }

    /// A custom instrument.
    pub fn new(instrument: &str) -> (r: Self)
        ensures
            r.instrument@ == instrument@,
    {
        CryptocomConfig { instrument: instrument.to_owned() }
    }

    /// WebSocket URL for market data.
    pub fn ws_url(&self) -> (r: &'static str)
        ensures
            r@ == "wss://stream.crypto.com/exchange/v1/market"@,
    {
        "wss://stream.crypto.com/exchange/v1/market"
    }

    /// Subscription request for the ticker channel; the caller supplies the
    /// nonce (milliseconds of wall-clock time in practice).
    pub fn ticker_subscribe_msg(&self, nonce: u64) -> (r: String)
        ensures
            r@ == "{\"id\":1,\"method\":\"subscribe\",\"params\":{\"channels\":[\"ticker."@
                + self.instrument@ + "\"]},\"nonce\":"@ + spec_u64_string(nonce as int) + "}"@,
    {
        let mut s = "{\"id\":1,\"method\":\"subscribe\",\"params\":{\"channels\":[\"ticker.".to_owned();
        s.append(self.instrument.as_str());
        s.append("\"]},\"nonce\":");
        let n = u64_string(nonce);
        s.append(n.as_str());
        s.append("}");
        s
    }
}

// =============================================================================
// Venue message shapes
// =============================================================================

/// Best bid/ask message from the first venue; prices are decimal strings.
pub struct BookTickerMessage {
    /// Order book update id.
    pub u: u64,
    /// Symbol.
    pub s: String,
    /// Best bid price.
    pub b: String,
    /// Best bid quantity.
    pub bid_qty: String,
    /// Best ask price.
    pub a: String,
    /// Best ask quantity.
    pub ask_qty: String,
}

/// What parsing a price field gives: the decimal value in micro-dollars
/// when the text is a decimal number, and nothing exactly when the text is
/// no decimal number or its value does not fit the integer range.
pub open spec fn parsed_price_ok(s: Seq<char>, r: Option<u64>) -> bool {
    match r {
        Some(v) => exists|point: int|
            #[trigger] spec_is_decimal(s, point) && v == spec_decimal_micro(s, point),
        None => (forall|point: int| !spec_is_decimal(s, point)) || (exists|point: int|
            #[trigger] spec_is_decimal(s, point) && spec_decimal_micro(s, point) > u64::MAX),
    }
}

impl BookTickerMessage {
    /// Best bid in micro-dollars.
    pub fn bid_price(&self) -> (r: Option<u64>)
        ensures
            parsed_price_ok(self.b@, r),
    {
        parse_decimal_micro(self.b.as_str())
    }

    /// Best ask in micro-dollars.
    pub fn ask_price(&self) -> (r: Option<u64>)
        ensures
            parsed_price_ok(self.a@, r),
    {
        parse_decimal_micro(self.a.as_str())
    }
}

/// Envelope of a message from the second venue.
pub struct CoinbaseMessage {
    pub channel: String,
    pub client_id: String,
    pub timestamp: String,
    pub sequence_num: u64,
    pub events: Vec<CoinbaseEvent>,
}

/// Event within a message from the second venue.
pub struct CoinbaseEvent {
    pub event_type: String,
    pub tickers: Vec<CoinbaseTicker>,
}

/// Ticker data from the second venue; prices are decimal strings.
pub struct CoinbaseTicker {
    pub ticker_type: Option<String>,
    pub product_id: String,
    pub price: String,
    pub best_bid: String,
    pub best_bid_quantity: String,
    pub best_ask: String,
    pub best_ask_quantity: String,
    pub volume_24_h: String,
    pub low_24_h: String,
    pub high_24_h: String,
}

impl CoinbaseTicker {
    /// Best bid in micro-dollars.
    pub fn bid_price(&self) -> (r: Option<u64>)
        ensures
            parsed_price_ok(self.best_bid@, r),
    {
        parse_decimal_micro(self.best_bid.as_str())
    }

    /// Best ask in micro-dollars.
    pub fn ask_price(&self) -> (r: Option<u64>)
        ensures
            parsed_price_ok(self.best_ask@, r),
    {
        parse_decimal_micro(self.best_ask.as_str())
    }

    /// Last trade price in micro-dollars.
    pub fn last_price(&self) -> (r: Option<u64>)
        ensures
            parsed_price_ok(self.price@, r),
    {
        parse_decimal_micro(self.price.as_str())
    }
}

/// System status event from the third venue.
pub struct KrakenSystemStatus {
    pub event: String,
    pub connection_id: Option<u64>,
    pub status: String,
    pub version: Option<String>,
}

/// Subscription status event from the third venue.
pub struct KrakenSubscriptionStatus {
    pub event: String,
    pub channel_id: Option<u64>,
    pub channel_name: Option<String>,
    pub pair: Option<String>,
    pub status: String,
    pub subscription: Option<KrakenSubscription>,
}

pub struct KrakenSubscription {
    pub name: String,
}

/// Parsed ticker data from the third venue, prices in micro-dollars.
pub struct KrakenTickerData {
    pub channel_id: i64,
    pub pair: String,
    pub bid_micro: u64,
    pub ask_micro: u64,
    pub last_micro: u64,
}

impl KrakenTickerData {
    /// Mid price in micro-dollars.
    pub fn mid_price(&self) -> (r: u64)
        requires
            self.bid_micro + self.ask_micro <= u64::MAX,
        ensures
            r == (self.bid_micro + self.ask_micro) / 2,
    {
        (self.bid_micro + self.ask_micro) / 2
    }
}

/// Ticker data from the fourth venue, prices in micro-dollars (the wire
/// carries JSON numbers which the surrounding system converts).
pub struct CryptocomTickerData {
    /// Instrument name.
    pub i: String,
    /// Best bid, when quoted.
    pub bid_micro: Option<u64>,
    /// Best ask, when quoted.
    pub ask_micro: Option<u64>,
    /// Last trade price.
    pub last_micro: Option<u64>,
    /// Published timestamp in milliseconds.
    pub t: Option<u64>,
}

/// One row of the tickers input file, naming a venue market to run.
pub struct TickerConfig {
    pub market_ticker_kalshi: String,
    pub event_ticker_kalshi: String,
    pub series_ticker_kalshi: String,
}

} // verus!
