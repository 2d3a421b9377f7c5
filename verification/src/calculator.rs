//! Per-ticker calculator: fuse the venue's top of book with the aggregated
//! spot price, derive the model fair probability, blend it with the venue
//! mid by the configured confidence, and decide when to publish.

use vstd::prelude::*;

use crate::aggregator::CryptoAggregatorEvent;
use crate::fair_value::market_type_wf;
use crate::fair_value::spec_accepted_btc_fields;
use crate::fair_value::spec_fair_prob;
use crate::fair_value::spec_get_vol;
use crate::fair_value::FairValueCalculator;
use crate::fair_value::MarketType;
use crate::fair_value::STRIKE_CAP;
use crate::market_maker::spec_blend;
use crate::market_maker::spec_clamp_conf;
use crate::market_maker::spec_market_mid;
use crate::orderbook::ProbabilityUpdate;
use crate::MICRO;

verus! {

/// Minimum change in the venue probability that triggers a publish, micro
/// units (a tenth of a percent).
pub const PUBLISH_THRESHOLD_MICRO: i64 = 1_000;

/// Minimum change in the spot price that triggers a publish, micro-dollars
/// (one dollar).
pub const PUBLISH_SPOT_THRESHOLD_MICRO: u64 = 1_000_000;

/// Updates the calculator consumes: the venue's top of book or a spot
/// aggregate.
pub enum MonitorUpdate {
    Kalshi(ProbabilityUpdate),
    Crypto(CryptoAggregatorEvent),
}

/// Atomic snapshot the calculator hands to the market maker.
pub struct CalculatorStateSnapshot {
    pub ticker: String,
    /// Aggregated spot mid, micro-dollars.
    pub btc_mid_price: u64,
    pub btc_bid_price: u64,
    pub btc_ask_price: u64,
    pub exchange_count: usize,
    pub yes_bid: u16,
    pub no_bid: u16,
    pub yes_qty: i64,
    pub no_qty: i64,
    /// Model fair probability, micro units.
    pub model_fair_prob: i64,
    /// Blended fair probability, micro units.
    pub blended_fair_prob: i64,
    /// Seconds until expiry (negative when past).
    pub seconds_to_expiry: i64,
    /// Epoch seconds when the snapshot was taken.
    pub timestamp_epoch_s: i64,
}

/// Explicit market configuration, used when a ticker cannot be parsed.
pub struct MarketConfig {
    pub ticker: String,
    /// Strike in whole dollars.
    pub strike: u64,
    /// Expiry as UTC epoch seconds.
    pub expiry_epoch_s: i64,
    /// Annualized volatility, micro units.
    pub volatility_micro: i64,
    /// Model confidence, micro units.
    pub confidence_micro: i64,
}

impl MarketConfig {
    pub fn new(
        ticker: String,
        strike: u64,
        expiry_epoch_s: i64,
        volatility_micro: i64,
        confidence_micro: i64,
    ) -> (r: Self)
        ensures
            r.ticker == ticker,
            r.strike == strike,
            r.expiry_epoch_s == expiry_epoch_s,
            r.volatility_micro == volatility_micro,
            r.confidence_micro == confidence_micro,
    {
        MarketConfig { ticker, strike, expiry_epoch_s, volatility_micro, confidence_micro }
    }

    /// Seconds from `now` to expiry.
    pub fn seconds_to_expiry(&self, now_epoch_s: i64) -> (r: i64)
        requires
            -5_000_000_000 <= self.expiry_epoch_s <= 5_000_000_000,
            -5_000_000_000 <= now_epoch_s <= 5_000_000_000,
        ensures
            r == self.expiry_epoch_s - now_epoch_s,
    {
        self.expiry_epoch_s - now_epoch_s
    }

    /// The market has expired at `now`.
    pub fn is_expired(&self, now_epoch_s: i64) -> (r: bool)
        ensures
            r == (now_epoch_s >= self.expiry_epoch_s),
    {
        now_epoch_s >= self.expiry_epoch_s
    }
}

/// The market-specification fields a fresh calculator carries: parsed from
/// the ticker when it parses and passes the library's caps, absent
/// otherwise.
pub open spec fn parsed_spec_ok(r: &CalculatorState, ticker: Seq<char>) -> bool {
    match spec_accepted_btc_fields(ticker) {
        Some(f) => {
            &&& r.fair_value_calc matches Some(c) && c.wf() && c.market_spec.ticker@ == ticker
                && c.market_spec.market_type == f.0 && c.market_spec.strike == f.1
                && c.market_spec.expiry_epoch_s == f.2
            &&& r.strike_price == Some(f.1 as u64)
            &&& r.expiry_epoch_s == Some(f.2 as i64)
        },
        None => r.fair_value_calc is None && r.strike_price is None && r.expiry_epoch_s is None,
    }
}

/// State the calculator keeps per ticker.
pub struct CalculatorState {
    pub ticker_id: String,
    /// Latest venue YES probability, micro units.
    pub kalshi_prob: Option<i64>,
    /// Latest venue NO probability, micro units.
    pub kalshi_no_prob: Option<i64>,
    pub yes_bid: u16,
    pub no_bid: u16,
    pub yes_qty: i64,
    pub no_qty: i64,
    pub kalshi_timestamp_ms: Option<i64>,
    /// Aggregated spot prices, micro-dollars.
    pub btc_mid_price: Option<u64>,
    pub btc_bid_price: Option<u64>,
    pub btc_ask_price: Option<u64>,
    pub btc_exchange_count: usize,
    pub btc_timestamp: Option<String>,
    /// Last venue probability published downstream.
    pub last_published_kalshi: Option<i64>,
    /// Last spot mid published downstream.
    pub last_published_btc: Option<u64>,
    /// Model fair probability, micro units.
    pub fair_prob: Option<i64>,
    /// Blended fair probability, micro units.
    pub blended_fair_prob: Option<i64>,
    /// Model confidence, micro units.
    pub confidence: i64,
    /// Fair value calculator, present when the market spec is known.
    pub fair_value_calc: Option<FairValueCalculator>,
    pub strike_price: Option<u64>,
    pub expiry_epoch_s: Option<i64>,
}

/// The blended value the calculator keeps: the confidence blend of the
/// model fair value and the venue market mid, recomputed whenever both
/// sides are known.
pub open spec fn blended_of(
    confidence: i64,
    fair_prob: Option<i64>,
    kalshi_prob: Option<i64>,
    yes_bid: u16,
    no_bid: u16,
    old_blend: Option<i64>,
) -> Option<i64> {
    if fair_prob is Some && kalshi_prob is Some {
        Some(
            spec_blend(
                spec_clamp_conf(confidence as int),
                fair_prob->Some_0 as int,
                spec_market_mid(yes_bid as int, no_bid as int),
            ) as i64,
        )
    } else {
        old_blend
    }
}

impl CalculatorState {
    pub open spec fn wf(&self) -> bool {
        &&& 0 <= self.confidence <= MICRO
        &&& self.yes_bid <= 100
        &&& self.no_bid <= 100
        &&& match self.kalshi_prob {
            Some(p) => 0 <= p <= MICRO,
            None => true,
        }
        &&& match self.last_published_kalshi {
            Some(p) => 0 <= p <= MICRO,
            None => true,
        }
        &&& match self.fair_prob {
            Some(p) => 0 <= p <= MICRO,
            None => true,
        }
        &&& match self.blended_fair_prob {
            Some(p) => 0 <= p <= MICRO,
            None => true,
        }
        &&& match self.fair_value_calc {
            Some(c) => c.wf(),
            None => true,
        }
        &&& match self.expiry_epoch_s {
            Some(e) => 0 <= e <= 5_000_000_000,
            None => true,
        }
    }

    /// Fresh state for a ticker, with the market specification parsed from
    /// it when possible, and an even confidence.
    pub fn new(ticker_id: String) -> (r: Self)
        ensures
            r.wf(),
            r.ticker_id == ticker_id,
            r.confidence == 500_000,
            r.kalshi_prob is None && r.fair_prob is None && r.blended_fair_prob is None,
            r.btc_mid_price is None,
            r.yes_bid == 0 && r.no_bid == 0,
            parsed_spec_ok(&r, ticker_id@),
    {
        let fair_value_calc = FairValueCalculator::from_ticker(ticker_id.as_str());
        let (strike_price, expiry_epoch_s) = match &fair_value_calc {
            Some(fv) => (Some(fv.market_spec.strike), Some(fv.market_spec.expiry_epoch_s)),
            None => (None, None),
        };
        CalculatorState {
            ticker_id,
            kalshi_prob: None,
            kalshi_no_prob: None,
            yes_bid: 0,
            no_bid: 0,
            yes_qty: 0,
            no_qty: 0,
            kalshi_timestamp_ms: None,
            btc_mid_price: None,
            btc_bid_price: None,
            btc_ask_price: None,
            btc_exchange_count: 0,
            btc_timestamp: None,
            last_published_kalshi: None,
            last_published_btc: None,
            fair_prob: None,
            blended_fair_prob: None,
            confidence: 500_000,
            fair_value_calc,
            strike_price,
            expiry_epoch_s,
        }
    }

    /// Fresh state with an explicit market specification, for tickers the
    /// parser does not know.
    pub fn with_market_spec(
        ticker_id: String,
        strike: u64,
        expiry_epoch_s: i64,
        market_type: MarketType,
    ) -> (r: Self)
        requires
            strike <= STRIKE_CAP,
            market_type_wf(market_type),
            0 <= expiry_epoch_s <= 5_000_000_000,
        ensures
            r.wf(),
            r.ticker_id == ticker_id,
            r.confidence == 500_000,
            r.strike_price == Some(strike),
            r.expiry_epoch_s == Some(expiry_epoch_s),
            r.fair_value_calc matches Some(c) && c.wf() && c.market_spec.ticker@ == ticker_id@
                && c.market_spec.strike == strike && c.market_spec.expiry_epoch_s == expiry_epoch_s
                && c.market_spec.market_type == market_type,
            r.kalshi_prob is None && r.fair_prob is None && r.blended_fair_prob is None,
    {
        let fv = FairValueCalculator::manual(ticker_id.as_str(), strike, expiry_epoch_s, market_type);
        CalculatorState {
            ticker_id,
            kalshi_prob: None,
            kalshi_no_prob: None,
            yes_bid: 0,
            no_bid: 0,
            yes_qty: 0,
            no_qty: 0,
            kalshi_timestamp_ms: None,
            btc_mid_price: None,
            btc_bid_price: None,
            btc_ask_price: None,
            btc_exchange_count: 0,
            btc_timestamp: None,
            last_published_kalshi: None,
            last_published_btc: None,
            fair_prob: None,
            blended_fair_prob: None,
            confidence: 500_000,
            fair_value_calc: Some(fv),
            strike_price: Some(strike),
            expiry_epoch_s: Some(expiry_epoch_s),
        }
    }

    /// Set the volatility used by the fair value engine.
    pub fn set_volatility(&mut self, vol_micro: i64)
        requires
            old(self).wf(),
        ensures
            final(self).wf(),
            final(self).confidence == old(self).confidence,
            final(self).fair_prob == old(self).fair_prob,
            final(self).blended_fair_prob == old(self).blended_fair_prob,
    {
        match &mut self.fair_value_calc {
            Some(fv) => {
                fv.set_volatility(vol_micro);
            },
            None => {},
        }
    }

    fn update_blended_fair_prob(&mut self)
        requires
            old(self).wf(),
        ensures
            final(self).wf(),
            final(self).blended_fair_prob == blended_of(
                old(self).confidence,
                old(self).fair_prob,
                old(self).kalshi_prob,
                old(self).yes_bid,
                old(self).no_bid,
                old(self).blended_fair_prob,
            ),
            *final(self) == (CalculatorState {
                blended_fair_prob: final(self).blended_fair_prob,
                ..*old(self)
            }),
    {
        if self.fair_prob.is_some() && self.kalshi_prob.is_some() {
            let model = match self.fair_prob {
                Some(m) => m,
                None => 0,
            };
            let conf = if self.confidence < 0 {
                0
            } else if self.confidence > MICRO {
                MICRO
            } else {
                self.confidence
            };
            let market = ((self.yes_bid as i64) * 10_000 + (MICRO - (self.no_bid as i64) * 10_000))
                / 2;
            proof {
                assert(conf * model >= 0 && conf * model <= 1_000_000 * 1_000_000)
                    by (nonlinear_arith)
                    requires
                        0 <= conf <= 1_000_000,
                        0 <= model <= 1_000_000,
                ;
                assert((MICRO - conf) * market >= 0 && (MICRO - conf) * market <= 1_000_000
                    * 1_000_000) by (nonlinear_arith)
                    requires
                        0 <= conf <= 1_000_000,
                        0 <= market <= 1_000_000,
                ;
                crate::market_maker::lemma_blend_bounded(
                    conf as int,
                    model as int,
                    market as int,
                );
            }
            let blended = (conf * model + (MICRO - conf) * market) / MICRO;
            self.blended_fair_prob = Some(blended);
        }
    }

    /// Set the blending confidence (clamped into `[0, 1]`) and recompute
    /// the blended value.
    pub fn set_confidence(&mut self, confidence: i64)
        requires
            old(self).wf(),
        ensures
            final(self).wf(),
            final(self).confidence == spec_clamp_conf(confidence as int),
            final(self).blended_fair_prob == blended_of(
                spec_clamp_conf(confidence as int) as i64,
                old(self).fair_prob,
                old(self).kalshi_prob,
                old(self).yes_bid,
                old(self).no_bid,
                old(self).blended_fair_prob,
            ),
    {
        self.confidence = if confidence < 0 {
            0
        } else if confidence > MICRO {
            MICRO
        } else {
            confidence
        };
        self.update_blended_fair_prob();
    }

    /// Fold in the venue's top of book and recompute the blended value.
    pub fn update_kalshi(&mut self, update: &ProbabilityUpdate)
        requires
            old(self).wf(),
            update.yes_bid <= 100,
            update.no_bid <= 100,
            update.yes_prob_micro == update.yes_bid * 10_000,
            update.no_prob_micro == update.no_bid * 10_000,
        ensures
            final(self).wf(),
            final(self).kalshi_prob == Some(update.yes_prob_micro),
            final(self).kalshi_no_prob == Some(update.no_prob_micro),
            final(self).yes_bid == update.yes_bid,
            final(self).no_bid == update.no_bid,
            final(self).yes_qty == update.yes_qty,
            final(self).no_qty == update.no_qty,
            final(self).kalshi_timestamp_ms == Some(update.timestamp_ms),
            final(self).fair_prob == old(self).fair_prob,
            final(self).btc_mid_price == old(self).btc_mid_price,
            *final(self) == (CalculatorState {
                kalshi_prob: Some(update.yes_prob_micro),
                kalshi_no_prob: Some(update.no_prob_micro),
                yes_bid: update.yes_bid,
                no_bid: update.no_bid,
                yes_qty: update.yes_qty,
                no_qty: update.no_qty,
                kalshi_timestamp_ms: Some(update.timestamp_ms),
                blended_fair_prob: final(self).blended_fair_prob,
                ..*old(self)
            }),
            final(self).blended_fair_prob == blended_of(
                old(self).confidence,
                old(self).fair_prob,
                Some(update.yes_prob_micro),
                update.yes_bid,
                update.no_bid,
                old(self).blended_fair_prob,
            ),
    {
        self.kalshi_prob = Some(update.yes_prob_micro);
        self.kalshi_no_prob = Some(update.no_prob_micro);
        self.yes_bid = update.yes_bid;
        self.no_bid = update.no_bid;
        self.yes_qty = update.yes_qty;
        self.no_qty = update.no_qty;
        self.kalshi_timestamp_ms = Some(update.timestamp_ms);
        self.update_blended_fair_prob();
    }

    /// Fold in an aggregated spot update, recompute the model fair value
    /// from it (the transcendental inputs supplied by the caller's numeric
    /// engine), and recompute the blended value.
    pub fn update_btc_price(
        &mut self,
        mid_price: u64,
        bid_price: u64,
        ask_price: u64,
        exchange_count: usize,
        timestamp: &str,
        now_epoch_s: i64,
        phi_strike: i64,
        phi_floor: i64,
        phi_ceiling: i64,
    ) -> (fair: Option<i64>)
        requires
            old(self).wf(),
            -5_000_000_000 <= now_epoch_s <= 5_000_000_000,
            0 <= phi_strike <= MICRO,
            0 <= phi_floor <= MICRO,
            0 <= phi_ceiling <= MICRO,
        ensures
            final(self).wf(),
            final(self).btc_mid_price == Some(mid_price),
            final(self).btc_bid_price == Some(bid_price),
            final(self).btc_ask_price == Some(ask_price),
            final(self).btc_exchange_count == exchange_count,
            final(self).fair_prob == (match old(self).fair_value_calc {
                Some(fv) => Some(
                    spec_fair_prob(
                        fv.market_spec.market_type,
                        fv.market_spec.strike as int,
                        mid_price as int,
                        fv.market_spec.expiry_epoch_s - now_epoch_s,
                        spec_get_vol(&fv.vol_source) > 0,
                        phi_strike as int,
                        phi_floor as int,
                        phi_ceiling as int,
                    ) as i64,
                ),
                None => old(self).fair_prob,
            }),
            fair == final(self).fair_prob,
            final(self).kalshi_prob == old(self).kalshi_prob,
            final(self).blended_fair_prob == blended_of(
                old(self).confidence,
                final(self).fair_prob,
                old(self).kalshi_prob,
                old(self).yes_bid,
                old(self).no_bid,
                old(self).blended_fair_prob,
            ),
    {
        self.btc_mid_price = Some(mid_price);
        self.btc_bid_price = Some(bid_price);
        self.btc_ask_price = Some(ask_price);
        self.btc_exchange_count = exchange_count;
        self.btc_timestamp = Some(timestamp.to_owned());
        match &mut self.fair_value_calc {
            Some(fv) => {
                let secs = fv.market_spec.seconds_to_expiry(now_epoch_s);
                let fair = fv.calculate_with_phi(mid_price, secs, phi_strike, phi_floor, phi_ceiling);
                self.fair_prob = Some(fair);
            },
            None => {},
        }
        self.update_blended_fair_prob();
        self.fair_prob
    }

    /// Whether the state moved enough to publish: the venue probability by
    /// a tenth of a percent or the spot mid by a dollar (or either seen for
    /// the first time). On a publish the markers move to the current
    /// values.
    pub fn should_publish(&mut self) -> (r: bool)
        requires
            old(self).wf(),
        ensures
            final(self).wf(),
            r == spec_should_publish(old(self)),
            r ==> *final(self) == (CalculatorState {
                last_published_kalshi: old(self).kalshi_prob,
                last_published_btc: old(self).btc_mid_price,
                ..*old(self)
            }),
            !r ==> *final(self) == *old(self),
    {
        let kalshi_changed = match (self.kalshi_prob, self.last_published_kalshi) {
            (Some(_current), None) => true,
            (Some(current), Some(last)) => {
                let d = if current >= last {
                    current - last
                } else {
                    last - current
                };
                d >= PUBLISH_THRESHOLD_MICRO
            },
            _ => false,
        };
        let btc_changed = match (self.btc_mid_price, self.last_published_btc) {
            (Some(_current), None) => true,
            (Some(current), Some(last)) => {
                let d = if current >= last {
                    current - last
                } else {
                    last - current
                };
                d >= PUBLISH_SPOT_THRESHOLD_MICRO
            },
            _ => false,
        };
        if kalshi_changed || btc_changed {
            self.last_published_kalshi = self.kalshi_prob;
            self.last_published_btc = self.btc_mid_price;
            true
        } else {
            false
        }
    }

    /// Snapshot for the market maker: produced only once the spot price and
    /// the model fair value are both populated and the expiry is known.
    pub fn to_snapshot(&self, now_epoch_s: i64) -> (r: Option<CalculatorStateSnapshot>)
        requires
            self.wf(),
            -5_000_000_000 <= now_epoch_s <= 5_000_000_000,
        ensures
            r is Some <==> (self.btc_mid_price is Some && self.btc_bid_price is Some
                && self.btc_ask_price is Some && self.fair_prob is Some && self.expiry_epoch_s
                is Some),
            match r {
                Some(s) => snapshot_ok(&s, self, now_epoch_s),
                None => true,
            },
    {
        let btc_mid = match self.btc_mid_price {
            Some(v) => v,
            None => {
                return None;
            },
        };
        let btc_bid = match self.btc_bid_price {
            Some(v) => v,
            None => {
                return None;
            },
        };
        let btc_ask = match self.btc_ask_price {
            Some(v) => v,
            None => {
                return None;
            },
        };
        let model_fair = match self.fair_prob {
            Some(v) => v,
            None => {
                return None;
            },
        };
        let expiry = match self.expiry_epoch_s {
            Some(v) => v,
            None => {
                return None;
            },
        };
        let blended_fair = match self.blended_fair_prob {
            Some(v) => v,
            None => model_fair,
        };
        Some(
            CalculatorStateSnapshot {
                ticker: self.ticker_id.clone(),
                btc_mid_price: btc_mid,
                btc_bid_price: btc_bid,
                btc_ask_price: btc_ask,
                exchange_count: self.btc_exchange_count,
                yes_bid: self.yes_bid,
                no_bid: self.no_bid,
                yes_qty: self.yes_qty,
                no_qty: self.no_qty,
                model_fair_prob: model_fair,
                blended_fair_prob: blended_fair,
                seconds_to_expiry: expiry - now_epoch_s,
                timestamp_epoch_s: now_epoch_s,
            },
        )
    }
}

/// A publish is due when the venue probability moved a tenth of a percent,
/// the spot mid moved a dollar, or either is fresh.
pub open spec fn spec_should_publish(s: &CalculatorState) -> bool {
    let kalshi_changed = match (s.kalshi_prob, s.last_published_kalshi) {
        (Some(_c), None) => true,
        (Some(c), Some(l)) => c - l >= PUBLISH_THRESHOLD_MICRO || l - c >= PUBLISH_THRESHOLD_MICRO,
        _ => false,
    };
    let btc_changed = match (s.btc_mid_price, s.last_published_btc) {
        (Some(_c), None) => true,
        (Some(c), Some(l)) => c - l >= PUBLISH_SPOT_THRESHOLD_MICRO || l - c
            >= PUBLISH_SPOT_THRESHOLD_MICRO,
        _ => false,
    };
    kalshi_changed || btc_changed
}

/// The snapshot copies the calculator's view, with the blended value
/// falling back to the model and the expiry measured from `now`.
pub open spec fn snapshot_ok(
    snap: &CalculatorStateSnapshot,
    s: &CalculatorState,
    now_epoch_s: i64,
) -> bool {
    &&& snap.ticker@ == s.ticker_id@
    &&& Some(snap.btc_mid_price) == s.btc_mid_price
    &&& Some(snap.btc_bid_price) == s.btc_bid_price
    &&& Some(snap.btc_ask_price) == s.btc_ask_price
    &&& snap.exchange_count == s.btc_exchange_count
    &&& snap.yes_bid == s.yes_bid
    &&& snap.no_bid == s.no_bid
    &&& snap.yes_qty == s.yes_qty
    &&& snap.no_qty == s.no_qty
    &&& Some(snap.model_fair_prob) == s.fair_prob
    &&& snap.blended_fair_prob == (match s.blended_fair_prob {
        Some(b) => b,
        None => s.fair_prob->Some_0,
    })
    &&& snap.seconds_to_expiry == s.expiry_epoch_s->Some_0 - now_epoch_s
    &&& snap.timestamp_epoch_s == now_epoch_s
}

} // verus!
