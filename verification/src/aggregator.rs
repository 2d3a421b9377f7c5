//! Cross-venue spot price aggregation.
//!
//! Four spot venues each stream a best bid and ask. A connector emits a
//! price only when its mid moved at least half a dollar since the last one
//! it emitted; the aggregator keeps the latest price per venue and derives
//! the arithmetic mean of the mids, bids and asks of exactly the venues
//! currently populated. Prices are in micro-dollars.

use vstd::prelude::*;

verus! {

/// Spot venues feeding the aggregator.
#[derive(Clone, Copy, PartialEq, Eq, Structural, Debug, Hash)]
pub enum Exchange {
    Binance,
    Coinbase,
    Kraken,
    Cryptocom,
}

impl Exchange {
    /// Lower-case venue name.
    pub fn name(&self) -> (r: &'static str)
        ensures
            r@ == match self {
                Exchange::Binance => "binance"@,
                Exchange::Coinbase => "coinbase"@,
                Exchange::Kraken => "kraken"@,
                Exchange::Cryptocom => "cryptocom"@,
            },
    {
        match self {
            Exchange::Binance => "binance",
            Exchange::Coinbase => "coinbase",
            Exchange::Kraken => "kraken",
            Exchange::Cryptocom => "cryptocom",
        }
    }
}

/// Upper bound on any spot price handled here, so that sums of a handful of
/// prices stay far from the integer range limit.
pub const PRICE_CAP: u64 = 1_000_000_000_000_000;

/// Emit a venue price only when it moved at least this many micro-dollars.
pub const MIN_PRICE_CHANGE_MICRO: u64 = 500_000;

/// Price data from a single venue, in micro-dollars.
#[derive(Clone)]
pub struct ExchangePrice {
    pub exchange: Exchange,
    pub bid_micro: u64,
    pub ask_micro: u64,
    pub mid_micro: u64,
    /// Timestamp text as the surrounding system supplies it.
    pub timestamp: String,
}

impl ExchangePrice {
    /// All fields within the price cap and the mid halfway between bid and
    /// ask (rounded down).
    pub open spec fn wf(&self) -> bool {
        &&& self.bid_micro <= PRICE_CAP
        &&& self.ask_micro <= PRICE_CAP
        &&& self.mid_micro == (self.bid_micro + self.ask_micro) / 2
    }

    /// Build a venue price; the mid is the mean of bid and ask.
    pub fn new(exchange: Exchange, bid_micro: u64, ask_micro: u64, timestamp: String) -> (r: Self)
        requires
            bid_micro <= PRICE_CAP,
            ask_micro <= PRICE_CAP,
        ensures
            r.wf(),
            r.exchange == exchange,
            r.bid_micro == bid_micro,
            r.ask_micro == ask_micro,
            r.timestamp == timestamp,
    {
        let mid_micro = (bid_micro + ask_micro) / 2;
        ExchangePrice { exchange, bid_micro, ask_micro, mid_micro, timestamp }
    }
}

/// A connector emits when no prior mid exists or the move reaches the
/// threshold.
pub open spec fn spec_should_emit(last_mid: Option<u64>, mid: int) -> bool {
    match last_mid {
        None => true,
        Some(l) => mid - l >= MIN_PRICE_CHANGE_MICRO || l - mid >= MIN_PRICE_CHANGE_MICRO,
    }
}

/// Decide whether a fresh mid is far enough from the last emitted one.
pub fn should_emit(last_mid: Option<u64>, mid_micro: u64) -> (r: bool)
    ensures
        r == spec_should_emit(last_mid, mid_micro as int),
{
    match last_mid {
        None => true,
        Some(l) => {
            if mid_micro >= l {
                mid_micro - l >= MIN_PRICE_CHANGE_MICRO
            } else {
                l - mid_micro >= MIN_PRICE_CHANGE_MICRO
            }
        },
    }
}

/// Latest price per venue; a venue with no entry is disconnected or has not
/// spoken yet.
pub struct AggregatorState {
    pub binance: Option<ExchangePrice>,
    pub coinbase: Option<ExchangePrice>,
    pub kraken: Option<ExchangePrice>,
    pub cryptocom: Option<ExchangePrice>,
}

/// Number of populated entries among the four slots.
pub open spec fn spec_count4(a: bool, b: bool, c: bool, d: bool) -> int {
    (if a {
        1int
    } else {
        0int
    }) + (if b {
        1int
    } else {
        0int
    }) + (if c {
        1int
    } else {
        0int
    }) + (if d {
        1int
    } else {
        0int
    })
}

impl AggregatorState {
    pub open spec fn slot(&self, e: Exchange) -> Option<ExchangePrice> {
        match e {
            Exchange::Binance => self.binance,
            Exchange::Coinbase => self.coinbase,
            Exchange::Kraken => self.kraken,
            Exchange::Cryptocom => self.cryptocom,
        }
    }

    /// Every stored price is well formed and filed under its own venue.
    pub open spec fn wf(&self) -> bool {
        forall|e: Exchange|
            match #[trigger] self.slot(e) {
                Some(p) => p.wf() && p.exchange == e,
                None => true,
            }
    }

    /// How many venues are populated.
    pub open spec fn spec_count(&self) -> int {
        spec_count4(
            self.binance is Some,
            self.coinbase is Some,
            self.kraken is Some,
            self.cryptocom is Some,
        )
    }

    /// Sum of the mids of the populated venues.
    pub open spec fn spec_mid_sum(&self) -> int {
        self.spec_slot_sum(|p: ExchangePrice| p.mid_micro as int)
    }

    /// Sum of the bids of the populated venues.
    pub open spec fn spec_bid_sum(&self) -> int {
        self.spec_slot_sum(|p: ExchangePrice| p.bid_micro as int)
    }

    /// Sum of the asks of the populated venues.
    pub open spec fn spec_ask_sum(&self) -> int {
        self.spec_slot_sum(|p: ExchangePrice| p.ask_micro as int)
    }

    /// Sum of one figure over the populated venues.
    pub open spec fn spec_slot_sum(&self, f: spec_fn(ExchangePrice) -> int) -> int {
        (match self.binance {
            Some(p) => f(p),
            None => 0,
        }) + (match self.coinbase {
            Some(p) => f(p),
            None => 0,
        }) + (match self.kraken {
            Some(p) => f(p),
            None => 0,
        }) + (match self.cryptocom {
            Some(p) => f(p),
            None => 0,
        })
    }

    /// Spell out the well-formedness of each slot.
    proof fn lemma_slots(&self)
        requires
            self.wf(),
        ensures
            match self.binance {
                Some(p) => p.wf() && p.exchange == Exchange::Binance,
                None => true,
            },
            match self.coinbase {
                Some(p) => p.wf() && p.exchange == Exchange::Coinbase,
                None => true,
            },
            match self.kraken {
                Some(p) => p.wf() && p.exchange == Exchange::Kraken,
                None => true,
            },
            match self.cryptocom {
                Some(p) => p.wf() && p.exchange == Exchange::Cryptocom,
                None => true,
            },
    {
        assert(self.slot(Exchange::Binance) == self.binance);
        assert(self.slot(Exchange::Coinbase) == self.coinbase);
        assert(self.slot(Exchange::Kraken) == self.kraken);
        assert(self.slot(Exchange::Cryptocom) == self.cryptocom);
    }

    /// Empty aggregator.
    pub fn new() -> (r: Self)
        ensures
            r.wf(),
            r.spec_count() == 0,
    {
        AggregatorState { binance: None, coinbase: None, kraken: None, cryptocom: None }
    }

    /// Overwrite the entry of the price's venue; the other venues keep
    /// theirs.
    pub fn update(&mut self, price: ExchangePrice)
        requires
            old(self).wf(),
            price.wf(),
        ensures
            final(self).wf(),
            final(self).slot(price.exchange) == Some(price),
            forall|e: Exchange|
                e != price.exchange ==> #[trigger] final(self).slot(e) == old(self).slot(e),
    {
        match price.exchange {
            Exchange::Binance => {
                self.binance = Some(price);
            },
            Exchange::Coinbase => {
                self.coinbase = Some(price);
            },
            Exchange::Kraken => {
                self.kraken = Some(price);
            },
            Exchange::Cryptocom => {
                self.cryptocom = Some(price);
            },
        }
        proof {
            assert forall|e: Exchange|
                match #[trigger] self.slot(e) {
                    Some(p) => p.wf() && p.exchange == e,
                    None => true,
                } by {
                let o = old(self).slot(e);
                assert(match o {
                    Some(p) => p.wf() && p.exchange == e,
                    None => true,
                });
                match e {
                    Exchange::Binance => {
                        assert(self.slot(e) == self.binance);
                    },
                    Exchange::Coinbase => {
                        assert(self.slot(e) == self.coinbase);
                    },
                    Exchange::Kraken => {
                        assert(self.slot(e) == self.kraken);
                    },
                    Exchange::Cryptocom => {
                        assert(self.slot(e) == self.cryptocom);
                    },
                }
            }
        }
    }

    /// Number of venues contributing to the means.
    pub fn exchange_count(&self) -> (r: usize)
        ensures
            r == self.spec_count(),
    {
        let mut n: usize = 0;
        if self.binance.is_some() {
            n += 1;
        }
        if self.coinbase.is_some() {
            n += 1;
        }
        if self.kraken.is_some() {
            n += 1;
        }
        if self.cryptocom.is_some() {
            n += 1;
        }
        n
    }

    /// Arithmetic mean of the mids of exactly the populated venues, or
    /// nothing when no venue is populated.
    pub fn mean_mid_price(&self) -> (r: Option<u64>)
        requires
            self.wf(),
        ensures
            match r {
                Some(m) => self.spec_count() > 0 && m == self.spec_mid_sum() / self.spec_count(),
                None => self.spec_count() == 0,
            },
    {
        proof {
            self.lemma_slots();
        }
        let mut sum: u64 = 0;
        let mut n: u64 = 0;
        if let Some(p) = &self.binance {
            sum += p.mid_micro;
            n += 1;
        }
        if let Some(p) = &self.coinbase {
            sum += p.mid_micro;
            n += 1;
        }
        if let Some(p) = &self.kraken {
            sum += p.mid_micro;
            n += 1;
        }
        if let Some(p) = &self.cryptocom {
            sum += p.mid_micro;
            n += 1;
        }
        if n == 0 {
            None
        } else {
            Some(sum / n)
        }
    }

    /// Arithmetic mean of the bids of exactly the populated venues.
    pub fn mean_bid_price(&self) -> (r: Option<u64>)
        requires
            self.wf(),
        ensures
            match r {
                Some(m) => self.spec_count() > 0 && m == self.spec_bid_sum() / self.spec_count(),
                None => self.spec_count() == 0,
            },
    {
        proof {
            self.lemma_slots();
        }
        let mut sum: u64 = 0;
        let mut n: u64 = 0;
        if let Some(p) = &self.binance {
            sum += p.bid_micro;
            n += 1;
        }
        if let Some(p) = &self.coinbase {
            sum += p.bid_micro;
            n += 1;
        }
        if let Some(p) = &self.kraken {
            sum += p.bid_micro;
            n += 1;
        }
        if let Some(p) = &self.cryptocom {
            sum += p.bid_micro;
            n += 1;
        }
        if n == 0 {
            None
        } else {
            Some(sum / n)
        }
    }

    /// Arithmetic mean of the asks of exactly the populated venues.
    pub fn mean_ask_price(&self) -> (r: Option<u64>)
        requires
            self.wf(),
        ensures
            match r {
                Some(m) => self.spec_count() > 0 && m == self.spec_ask_sum() / self.spec_count(),
                None => self.spec_count() == 0,
            },
    {
        proof {
            self.lemma_slots();
        }
        let mut sum: u64 = 0;
        let mut n: u64 = 0;
        if let Some(p) = &self.binance {
            sum += p.ask_micro;
            n += 1;
        }
        if let Some(p) = &self.coinbase {
            sum += p.ask_micro;
            n += 1;
        }
        if let Some(p) = &self.kraken {
            sum += p.ask_micro;
            n += 1;
        }
        if let Some(p) = &self.cryptocom {
            sum += p.ask_micro;
            n += 1;
        }
        if n == 0 {
            None
        } else {
            Some(sum / n)
        }
    }

    /// The populated venues and their mids, in venue order.
    pub fn exchange_mids(&self) -> (r: Vec<(Exchange, u64)>)
        ensures
            r@ == spec_mids_seq(self),
    {
        let mut v: Vec<(Exchange, u64)> = Vec::new();
        if let Some(p) = &self.binance {
            v.push((Exchange::Binance, p.mid_micro));
        }
        if let Some(p) = &self.coinbase {
            v.push((Exchange::Coinbase, p.mid_micro));
        }
        if let Some(p) = &self.kraken {
            v.push((Exchange::Kraken, p.mid_micro));
        }
        if let Some(p) = &self.cryptocom {
            v.push((Exchange::Cryptocom, p.mid_micro));
        }
        proof {
            assert(v@ =~= spec_mids_seq(self));
        }
        v
    }
}

/// The `(venue, mid)` pairs of the populated venues, in venue order.
pub open spec fn spec_mids_seq(a: &AggregatorState) -> Seq<(Exchange, u64)> {
    (match a.binance {
        Some(p) => seq![(Exchange::Binance, p.mid_micro)],
        None => Seq::empty(),
    }) + (match a.coinbase {
        Some(p) => seq![(Exchange::Coinbase, p.mid_micro)],
        None => Seq::empty(),
    }) + (match a.kraken {
        Some(p) => seq![(Exchange::Kraken, p.mid_micro)],
        None => Seq::empty(),
    }) + (match a.cryptocom {
        Some(p) => seq![(Exchange::Cryptocom, p.mid_micro)],
        None => Seq::empty(),
    })
}

/// Aggregated spot price update sent downstream.
pub struct AggregatedPriceUpdate {
    /// Timestamp text as the surrounding system supplies it.
    pub timestamp: String,
    /// Mean mid across the populated venues, micro-dollars.
    pub mean_mid_micro: u64,
    /// Mean bid across the populated venues, micro-dollars.
    pub mean_bid_micro: u64,
    /// Mean ask across the populated venues, micro-dollars.
    pub mean_ask_micro: u64,
    /// Number of venues in the means.
    pub exchange_count: usize,
    /// Venue whose price triggered this update.
    pub triggered_by: Exchange,
    /// Mid of each populated venue.
    pub exchange_mids: Vec<(Exchange, u64)>,
}

/// Events emitted by the aggregation pipeline.
pub enum CryptoAggregatorEvent {
    ExchangeConnected(Exchange),
    ExchangeDisconnected(Exchange),
    PriceUpdate(AggregatedPriceUpdate),
}

/// Which spot venues to run, and how long to wait before reconnecting.
#[derive(Clone, Debug)]
pub struct AggregatorConfig {
    pub enable_binance: bool,
    pub enable_coinbase: bool,
    pub enable_kraken: bool,
    pub enable_cryptocom: bool,
    pub reconnect_delay_secs: u64,
}

impl Default for AggregatorConfig {
    /// All venues on, five seconds between reconnect attempts.
    fn default() -> (r: Self)
        ensures
            r.enable_binance && r.enable_coinbase && r.enable_kraken && r.enable_cryptocom,
            r.reconnect_delay_secs == 5,
    {
        AggregatorConfig {
            enable_binance: true,
            enable_coinbase: true,
            enable_kraken: true,
            enable_cryptocom: true,
            reconnect_delay_secs: 5,
        }
    }
}

/// Fold one venue price into the state and derive the update to emit: the
/// fresh means over exactly the populated venues, their count, and the
/// triggering venue.
pub fn on_price(state: &mut AggregatorState, price: ExchangePrice, timestamp: String) -> (r:
    AggregatedPriceUpdate)
    requires
        old(state).wf(),
        price.wf(),
    ensures
        final(state).wf(),
        final(state).slot(price.exchange) == Some(price),
        forall|e: Exchange|
            e != price.exchange ==> #[trigger] final(state).slot(e) == old(state).slot(e),
        final(state).spec_count() > 0,
        r.mean_mid_micro == final(state).spec_mid_sum() / final(state).spec_count(),
        r.mean_bid_micro == final(state).spec_bid_sum() / final(state).spec_count(),
        r.mean_ask_micro == final(state).spec_ask_sum() / final(state).spec_count(),
        r.exchange_count == final(state).spec_count(),
        r.triggered_by == price.exchange,
        r.exchange_mids@ == spec_mids_seq(final(state)),
        r.timestamp == timestamp,
{
    let triggered_by = price.exchange;
    state.update(price);
    let mean_mid = match state.mean_mid_price() {
        Some(m) => m,
        None => 0,
    };
    let mean_bid = match state.mean_bid_price() {
        Some(m) => m,
        None => 0,
    };
    let mean_ask = match state.mean_ask_price() {
        Some(m) => m,
        None => 0,
    };
    AggregatedPriceUpdate {
        timestamp,
        mean_mid_micro: mean_mid,
        mean_bid_micro: mean_bid,
        mean_ask_micro: mean_ask,
        exchange_count: state.exchange_count(),
        triggered_by,
        exchange_mids: state.exchange_mids(),
    }
}

} // verus!
