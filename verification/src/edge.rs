//! Edge calculation: expected per-contract profit of each trade direction
//! against the fair probability, before and after fees.
//!
//! On a binary market the YES ask is implied by the best NO bid as
//! `1 - no_bid`, and vice versa. Raw edges compare the fair probability with
//! those four prices; net edges subtract the single-contract taker fee (for
//! aggressive taking) or maker fee (for passive quoting) at the traded
//! price. All prices and edges are in micro units.

use vstd::prelude::*;

use crate::fees::calculate_fee;
use crate::fees::spec_fee_cents;
use crate::fees::spec_fee_rate;
use crate::fees::ProductType;
use crate::orders::OrderSide;
use crate::MICRO;

verus! {

/// Possible trade actions, in the fixed order ties are resolved by.
#[derive(Clone, Copy, PartialEq, Eq, Structural, Debug)]
pub enum TradeAction {
    BuyYes,
    SellYes,
    BuyNo,
    SellNo,
}

impl TradeAction {
    /// The side of the book this action trades.
    pub fn side(&self) -> (r: OrderSide)
        ensures
            r == (if self is BuyYes || self is SellYes {
                OrderSide::Yes
            } else {
                OrderSide::No
            }),
    {
        match self {
            TradeAction::BuyYes | TradeAction::SellYes => OrderSide::Yes,
            TradeAction::BuyNo | TradeAction::SellNo => OrderSide::No,
        }
    }

    /// Whether this action buys contracts.
    pub fn is_buy(&self) -> (r: bool)
        ensures
            r == (self is BuyYes || self is BuyNo),
    {
        match self {
            TradeAction::BuyYes | TradeAction::BuyNo => true,
            _ => false,
        }
    }
}

/// Single-contract fee at `price`, in micro-dollars.
pub open spec fn spec_fee_micro(
    price: int,
    is_taker: bool,
    maker_fee_market: bool,
    product_type: ProductType,
) -> int {
    spec_fee_cents(price, 1, spec_fee_rate(is_taker, maker_fee_market, product_type)) * 10_000
}

/// Edge calculation result, all values in micro units.
#[derive(Clone, Copy, PartialEq, Eq, Structural, Debug)]
pub struct EdgeCalculation {
    /// Fair probability of the YES side.
    pub fair_prob: i64,
    /// Best YES bid as a probability.
    pub market_yes_bid: i64,
    /// YES ask implied by the best NO bid.
    pub market_yes_ask: i64,
    /// Best NO bid as a probability.
    pub market_no_bid: i64,
    /// NO ask implied by the best YES bid.
    pub market_no_ask: i64,
    /// Raw edge of buying YES at the implied ask, before fees.
    pub yes_buy_edge_raw: i64,
    /// Raw edge of selling YES into the bid, before fees.
    pub yes_sell_edge_raw: i64,
    /// Raw edge of buying NO at the implied ask, before fees.
    pub no_buy_edge_raw: i64,
    /// Raw edge of selling NO into the bid, before fees.
    pub no_sell_edge_raw: i64,
    /// Edges net of the taker fee, for aggressive taking.
    pub yes_buy_edge_net: i64,
    pub yes_sell_edge_net: i64,
    pub no_buy_edge_net: i64,
    pub no_sell_edge_net: i64,
    /// Edges net of the maker fee, for passive quoting.
    pub yes_buy_edge_maker: i64,
    pub yes_sell_edge_maker: i64,
    pub no_buy_edge_maker: i64,
    pub no_sell_edge_maker: i64,
}

/// Every field of an edge calculation, pinned to its formula.
pub open spec fn edge_calc_ok(
    e: &EdgeCalculation,
    fair: int,
    yes_bid: int,
    no_bid: int,
    maker_fee_market: bool,
    product_type: ProductType,
) -> bool {
    let yb = yes_bid * 10_000;
    let nb = no_bid * 10_000;
    let ya = MICRO - nb;
    let na = MICRO - yb;
    let fair_no = MICRO - fair;
    &&& e.fair_prob == fair
    &&& e.market_yes_bid == yb
    &&& e.market_yes_ask == ya
    &&& e.market_no_bid == nb
    &&& e.market_no_ask == na
    &&& e.yes_buy_edge_raw == fair - ya
    &&& e.yes_sell_edge_raw == yb - fair
    &&& e.no_buy_edge_raw == fair_no - na
    &&& e.no_sell_edge_raw == nb - fair_no
    &&& e.yes_buy_edge_net == fair - ya - spec_fee_micro(ya, true, maker_fee_market, product_type)
    &&& e.yes_sell_edge_net == yb - fair - spec_fee_micro(yb, true, maker_fee_market, product_type)
    &&& e.no_buy_edge_net == fair_no - na - spec_fee_micro(na, true, maker_fee_market, product_type)
    &&& e.no_sell_edge_net == nb - fair_no - spec_fee_micro(
        nb,
        true,
        maker_fee_market,
        product_type,
    )
    &&& e.yes_buy_edge_maker == fair - ya - spec_fee_micro(
        ya,
        false,
        maker_fee_market,
        product_type,
    )
    &&& e.yes_sell_edge_maker == yb - fair - spec_fee_micro(
        yb,
        false,
        maker_fee_market,
        product_type,
    )
    &&& e.no_buy_edge_maker == fair_no - na - spec_fee_micro(
        na,
        false,
        maker_fee_market,
        product_type,
    )
    &&& e.no_sell_edge_maker == nb - fair_no - spec_fee_micro(
        nb,
        false,
        maker_fee_market,
        product_type,
    )
}

/// A single-contract fee is at most two cents.
pub proof fn lemma_single_fee_bound(price: int, rate: int)
    requires
        0 <= rate <= 700,
    ensures
        0 <= spec_fee_cents(price, 1, rate) <= 2,
{
    if !(price <= 0 || price >= 1_000_000 || rate <= 0) {
        let q = 1_000_000 - price;
        assert(price * q <= 250_000_000_000) by (nonlinear_arith)
            requires
                0 < price < 1_000_000,
                q == 1_000_000 - price,
        ;
        assert(1 * price * q * rate <= 250_000_000_000 * 700) by (nonlinear_arith)
            requires
                0 <= price * q <= 250_000_000_000,
                0 < rate <= 700,
                price > 0,
                q > 0,
        ;
        assert(1 * price * q * rate >= 0) by (nonlinear_arith)
            requires
                price > 0,
                q > 0,
                rate > 0,
        ;
        let num = 1 * price * q * rate;
        assert((num + 100_000_000_000_000 - 1) / 100_000_000_000_000 <= 2) by (nonlinear_arith)
            requires
                0 <= num <= 175_000_000_000_000,
        ;
        assert((num + 100_000_000_000_000 - 1) / 100_000_000_000_000 >= 0) by (nonlinear_arith)
            requires
                num >= 0,
        ;
    }
}

/// Single-contract fee at `price` in micro-dollars.
fn fee_micro(
    price_micro: i64,
    is_taker: bool,
    maker_fee_market: bool,
    product_type: ProductType,
) -> (r: i64)
    ensures
        r == spec_fee_micro(price_micro as int, is_taker, maker_fee_market, product_type),
        0 <= r <= 20_000,
{
    proof {
        lemma_single_fee_bound(
            price_micro as int,
            spec_fee_rate(is_taker, maker_fee_market, product_type),
        );
    }
    let cents = calculate_fee(price_micro, 1, is_taker, maker_fee_market, product_type);
    (cents as i64) * 10_000
}

impl EdgeCalculation {
    /// Calculate all edges from the fair probability and the two best bids
    /// (in cents).
    pub fn calculate(
        fair_prob: i64,
        yes_bid: u16,
        no_bid: u16,
        maker_fee_market: bool,
        product_type: ProductType,
    ) -> (r: Self)
        requires
            0 <= fair_prob <= MICRO,
            yes_bid <= 100,
            no_bid <= 100,
        ensures
            edge_calc_ok(&r, fair_prob as int, yes_bid as int, no_bid as int, maker_fee_market, product_type),
    {
        let market_yes_bid = (yes_bid as i64) * 10_000;
        let market_no_bid = (no_bid as i64) * 10_000;
        let market_yes_ask = MICRO - market_no_bid;
        let market_no_ask = MICRO - market_yes_bid;
        let fair_prob_no = MICRO - fair_prob;

        let yes_buy_edge_raw = fair_prob - market_yes_ask;
        let yes_sell_edge_raw = market_yes_bid - fair_prob;
        let no_buy_edge_raw = fair_prob_no - market_no_ask;
        let no_sell_edge_raw = market_no_bid - fair_prob_no;

        let yes_buy_taker_fee = fee_micro(market_yes_ask, true, maker_fee_market, product_type);
        let yes_sell_taker_fee = fee_micro(market_yes_bid, true, maker_fee_market, product_type);
        let no_buy_taker_fee = fee_micro(market_no_ask, true, maker_fee_market, product_type);
        let no_sell_taker_fee = fee_micro(market_no_bid, true, maker_fee_market, product_type);

        let yes_buy_maker_fee = fee_micro(market_yes_ask, false, maker_fee_market, product_type);
        let yes_sell_maker_fee = fee_micro(market_yes_bid, false, maker_fee_market, product_type);
        let no_buy_maker_fee = fee_micro(market_no_ask, false, maker_fee_market, product_type);
        let no_sell_maker_fee = fee_micro(market_no_bid, false, maker_fee_market, product_type);

        EdgeCalculation {
            fair_prob,
            market_yes_bid,
            market_yes_ask,
            market_no_bid,
            market_no_ask,
            yes_buy_edge_raw,
            yes_sell_edge_raw,
            no_buy_edge_raw,
            no_sell_edge_raw,
            yes_buy_edge_net: yes_buy_edge_raw - yes_buy_taker_fee,
            yes_sell_edge_net: yes_sell_edge_raw - yes_sell_taker_fee,
            no_buy_edge_net: no_buy_edge_raw - no_buy_taker_fee,
            no_sell_edge_net: no_sell_edge_raw - no_sell_taker_fee,
            yes_buy_edge_maker: yes_buy_edge_raw - yes_buy_maker_fee,
            yes_sell_edge_maker: yes_sell_edge_raw - yes_sell_maker_fee,
            no_buy_edge_maker: no_buy_edge_raw - no_buy_maker_fee,
            no_sell_edge_maker: no_sell_edge_raw - no_sell_maker_fee,
        }
    }

    /// Net (taker) edge of one action.
    pub open spec fn spec_net_edge(&self, action: TradeAction) -> i64 {
        match action {
            TradeAction::BuyYes => self.yes_buy_edge_net,
            TradeAction::SellYes => self.yes_sell_edge_net,
            TradeAction::BuyNo => self.no_buy_edge_net,
            TradeAction::SellNo => self.no_sell_edge_net,
        }
    }

    /// The action the taker-net edges pick: the best positive edge, a tie
    /// going to the action latest in `BuyYes, SellYes, BuyNo, SellNo` order;
    /// none when no edge is positive.
    pub open spec fn spec_best_action(&self) -> Option<TradeAction> {
        let yb = self.yes_buy_edge_net;
        let ys = self.yes_sell_edge_net;
        let nb = self.no_buy_edge_net;
        let ns = self.no_sell_edge_net;
        if ns > 0 && ns >= nb && ns >= ys && ns >= yb {
            Some(TradeAction::SellNo)
        } else if nb > 0 && nb >= ys && nb >= yb {
            Some(TradeAction::BuyNo)
        } else if ys > 0 && ys >= yb {
            Some(TradeAction::SellYes)
        } else if yb > 0 {
            Some(TradeAction::BuyYes)
        } else {
            None
        }
    }

    /// Largest of the four raw edges and zero.
    pub fn best_edge_raw(&self) -> (r: i64)
        ensures
            r >= self.yes_buy_edge_raw && r >= self.yes_sell_edge_raw,
            r >= self.no_buy_edge_raw && r >= self.no_sell_edge_raw,
            r >= 0,
            r == 0 || r == self.yes_buy_edge_raw || r == self.yes_sell_edge_raw
                || r == self.no_buy_edge_raw || r == self.no_sell_edge_raw,
    {
        let mut best: i64 = 0;
        if self.yes_buy_edge_raw > best {
            best = self.yes_buy_edge_raw;
        }
        if self.yes_sell_edge_raw > best {
            best = self.yes_sell_edge_raw;
        }
        if self.no_buy_edge_raw > best {
            best = self.no_buy_edge_raw;
        }
        if self.no_sell_edge_raw > best {
            best = self.no_sell_edge_raw;
        }
        best
    }

    /// Largest of the four taker-net edges and zero.
    pub fn best_edge_net(&self) -> (r: i64)
        ensures
            r >= self.yes_buy_edge_net && r >= self.yes_sell_edge_net,
            r >= self.no_buy_edge_net && r >= self.no_sell_edge_net,
            r >= 0,
            r == 0 || r == self.yes_buy_edge_net || r == self.yes_sell_edge_net
                || r == self.no_buy_edge_net || r == self.no_sell_edge_net,
    {
        let mut best: i64 = 0;
        if self.yes_buy_edge_net > best {
            best = self.yes_buy_edge_net;
        }
        if self.yes_sell_edge_net > best {
            best = self.yes_sell_edge_net;
        }
        if self.no_buy_edge_net > best {
            best = self.no_buy_edge_net;
        }
        if self.no_sell_edge_net > best {
            best = self.no_sell_edge_net;
        }
        best
    }

    /// Best action by taker-net edge.
    pub fn best_action(&self) -> (r: Option<TradeAction>)
        ensures
            r == self.spec_best_action(),
    {
        let yb = self.yes_buy_edge_net;
        let ys = self.yes_sell_edge_net;
        let nb = self.no_buy_edge_net;
        let ns = self.no_sell_edge_net;
        if ns > 0 && ns >= nb && ns >= ys && ns >= yb {
            Some(TradeAction::SellNo)
        } else if nb > 0 && nb >= ys && nb >= yb {
            Some(TradeAction::BuyNo)
        } else if ys > 0 && ys >= yb {
            Some(TradeAction::SellYes)
        } else if yb > 0 {
            Some(TradeAction::BuyYes)
        } else {
            None
        }
    }

    /// Net (taker) edge for one action.
    pub fn edge_for_action(&self, action: TradeAction) -> (r: i64)
        ensures
            r == self.spec_net_edge(action),
    {
        match action {
            TradeAction::BuyYes => self.yes_buy_edge_net,
            TradeAction::SellYes => self.yes_sell_edge_net,
            TradeAction::BuyNo => self.no_buy_edge_net,
            TradeAction::SellNo => self.no_sell_edge_net,
        }
    }
}

/// The chosen best action carries a positive edge no other action beats.
pub proof fn lemma_best_action_is_max(e: &EdgeCalculation)
    ensures
        match e.spec_best_action() {
            Some(a) => e.spec_net_edge(a) > 0 && forall|b: TradeAction|
                #[trigger] e.spec_net_edge(b) <= e.spec_net_edge(a),
            None => forall|b: TradeAction| #[trigger] e.spec_net_edge(b) <= 0,
        },
{
    if e.spec_best_action() is None {
        assert forall|b: TradeAction| #[trigger] e.spec_net_edge(b) <= 0 by {
            match b {
                TradeAction::BuyYes => {},
                TradeAction::SellYes => {},
                TradeAction::BuyNo => {},
                TradeAction::SellNo => {},
            }
        }
    } else {
        let a = e.spec_best_action()->Some_0;
        assert forall|b: TradeAction| #[trigger] e.spec_net_edge(b) <= e.spec_net_edge(a) by {
            match b {
                TradeAction::BuyYes => {},
                TradeAction::SellYes => {},
                TradeAction::BuyNo => {},
                TradeAction::SellNo => {},
            }
        }
    }
}

} // verus!
