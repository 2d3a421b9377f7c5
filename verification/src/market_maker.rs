//! Market making engine: translate market state into trading signals and
//! fills into position updates.
//!
//! Each state snapshot produces, in order: a cancel-all when the market is
//! too close to expiry or expired; observation holds when inventory or the
//! loss budget is exhausted; one aggressive take when the best taker-net
//! edge clears its threshold; and up to four passive quotes around the
//! blended fair value, spread-widened by inventory and approaching expiry
//! and skewed against inventory. When nothing fires, a single hold says so.

use vstd::prelude::*;

use crate::edge::spec_fee_micro;
use crate::edge::EdgeCalculation;
use crate::edge::TradeAction;
use crate::fair_value::FairValueCalculator;
use crate::fees::calculate_fee;
use crate::fees::lemma_fee_cents_bound;
use crate::fees::spec_fee_rate;
use crate::fees::ProductType;
use crate::orders::OrderSide;
use crate::position::spec_max_contracts_to_add;
use crate::position::spec_max_loss;
use crate::position::fill_applied;
use crate::position::PositionState;
use crate::position::POSITION_LIMIT;
use crate::spec_abs;
use crate::spec_sat_add;
use crate::MICRO;

verus! {

// =============================================================================
// Configuration
// =============================================================================

/// Market maker configuration; prices and edges in micro units, money in
/// micro-dollars.
#[derive(Clone, Copy, PartialEq, Eq, Structural, Debug)]
pub struct MarketMakerConfig {
    /// Maximum loss allowed per market.
    pub max_loss_per_market: i64,
    /// Base spread width.
    pub base_spread: i64,
    /// Minimum maker-net edge required to post a quote.
    pub min_edge_to_quote: i64,
    /// Taker-net edge above which liquidity is taken instead of posted.
    pub aggressive_take_threshold: i64,
    /// Quote adjustment per contract of inventory.
    pub inventory_skew_factor: i64,
    /// Maximum inventory in contracts before refusing to add more.
    pub max_inventory: i64,
    /// Minimum time to expiry to keep trading, in seconds.
    pub min_seconds_to_expiry: i64,
    /// Whether this market charges maker fees.
    pub maker_fee_market: bool,
    /// Product family for fee calculation.
    pub product_type: ProductType,
    /// Confidence in the model fair value: one trusts the model fully,
    /// zero quotes around the market mid alone.
    pub fair_value_confidence: i64,
}

impl MarketMakerConfig {
    /// Every figure within its working range.
    pub open spec fn wf(&self) -> bool {
        &&& 0 <= self.max_loss_per_market <= POSITION_LIMIT * MICRO
        &&& 0 <= self.base_spread <= MICRO
        &&& 0 <= self.min_edge_to_quote <= MICRO
        &&& 0 <= self.aggressive_take_threshold <= MICRO
        &&& 0 <= self.inventory_skew_factor <= MICRO
        &&& 0 < self.max_inventory <= POSITION_LIMIT
        &&& 0 <= self.min_seconds_to_expiry
    }
}

impl Default for MarketMakerConfig {
    /// A hundred dollars of loss budget, a three-cent base spread, half a
    /// cent of required edge, a three-cent take threshold, a tenth of a
    /// cent of skew per contract, five hundred contracts of inventory, a
    /// half-hour expiry cutoff, no maker fees, and an even blend.
    fn default() -> (r: Self)
        ensures
            r.wf(),
            r.max_loss_per_market == 100_000_000,
            r.base_spread == 30_000,
            r.min_edge_to_quote == 5_000,
            r.aggressive_take_threshold == 30_000,
            r.inventory_skew_factor == 1_000,
            r.max_inventory == 500,
            r.min_seconds_to_expiry == 1_800,
            !r.maker_fee_market,
            r.product_type == ProductType::Standard,
            r.fair_value_confidence == 500_000,
    {
        MarketMakerConfig {
            max_loss_per_market: 100_000_000,
            base_spread: 30_000,
            min_edge_to_quote: 5_000,
            aggressive_take_threshold: 30_000,
            inventory_skew_factor: 1_000,
            max_inventory: 500,
            min_seconds_to_expiry: 1_800,
            maker_fee_market: false,
            product_type: ProductType::Standard,
            fair_value_confidence: 500_000,
        }
    }
}

// =============================================================================
// Signals
// =============================================================================

/// Passive quote order.
pub struct QuoteOrder {
    pub side: OrderSide,
    pub is_buy: bool,
    pub price_cents: i64,
    pub contracts: i64,
    /// Maker-net edge behind this quote, micro units.
    pub edge: i64,
}

/// Aggressive take order.
pub struct AggressiveOrder {
    pub side: OrderSide,
    pub is_buy: bool,
    pub price_cents: i64,
    pub contracts: i64,
    /// Taker-net edge behind this take, micro units.
    pub edge: i64,
}

/// A decision the engine hands to the executor.
pub enum MarketMakerSignal {
    /// Post a passive quote.
    Quote(QuoteOrder),
    /// Take liquidity at the market.
    AggressiveTake(AggressiveOrder),
    /// Amend an existing order.
    AmendOrder { order_id: String, new_price: i64, new_count: i64 },
    /// Cancel one order.
    CancelOrder { order_id: String },
    /// Cancel every order, for safety.
    CancelAll { reason: String },
    /// Do nothing, with the reason.
    Hold { reason: String },
}

/// Spec-level shape of one emitted signal.
pub enum SignalPlan {
    GateExpiry,
    GateExpired,
    HoldInventory,
    HoldLoss,
    Take { side: OrderSide, is_buy: bool, price_cents: int, contracts: int, edge: int },
    Quote { side: OrderSide, is_buy: bool, price_cents: int, contracts: int, edge: int },
    HoldNoOpportunity,
}

/// One emitted signal carries exactly what its plan entry names.
pub open spec fn signal_matches(s: MarketMakerSignal, p: SignalPlan) -> bool {
    match p {
        SignalPlan::GateExpiry => s matches MarketMakerSignal::CancelAll { reason } && reason@
            == "Too close to expiry"@,
        SignalPlan::GateExpired => s matches MarketMakerSignal::CancelAll { reason } && reason@
            == "Market expired"@,
        SignalPlan::HoldInventory => s matches MarketMakerSignal::Hold { reason } && reason@
            == "Max inventory reached"@,
        SignalPlan::HoldLoss => s matches MarketMakerSignal::Hold { reason } && reason@
            == "Max loss limit reached"@,
        SignalPlan::Take { side, is_buy, price_cents, contracts, edge } => s matches
            MarketMakerSignal::AggressiveTake(t) && t.side == side && t.is_buy == is_buy
            && t.price_cents == price_cents && t.contracts == contracts && t.edge == edge,
        SignalPlan::Quote { side, is_buy, price_cents, contracts, edge } => s matches
            MarketMakerSignal::Quote(q) && q.side == side && q.is_buy == is_buy && q.price_cents
            == price_cents && q.contracts == contracts && q.edge == edge,
        SignalPlan::HoldNoOpportunity => s matches MarketMakerSignal::Hold { reason } && reason@
            == "No profitable opportunities"@,
    }
}

/// The emitted signals follow the plan one for one.
pub open spec fn signals_match(s: Seq<MarketMakerSignal>, p: Seq<SignalPlan>) -> bool {
    s.len() == p.len() && forall|i: int| 0 <= i < s.len() ==> signal_matches(s[i], #[trigger] p[i])
}

pub proof fn lemma_signals_match_concat(
    s1: Seq<MarketMakerSignal>,
    s2: Seq<MarketMakerSignal>,
    p1: Seq<SignalPlan>,
    p2: Seq<SignalPlan>,
)
    requires
        signals_match(s1, p1),
        signals_match(s2, p2),
    ensures
        signals_match(s1 + s2, p1 + p2),
{
    assert forall|i: int| 0 <= i < (s1 + s2).len() implies signal_matches(
        (s1 + s2)[i],
        #[trigger] (p1 + p2)[i],
    ) by {
        if i < s1.len() {
            assert((s1 + s2)[i] == s1[i]);
            assert((p1 + p2)[i] == p1[i]);
        } else {
            assert((s1 + s2)[i] == s2[i - s1.len()]);
            assert((p1 + p2)[i] == p2[i - s1.len()]);
        }
    }
}

/// The signals an option contributes.
pub open spec fn opt_seq(o: Option<MarketMakerSignal>) -> Seq<MarketMakerSignal> {
    match o {
        Some(s) => seq![s],
        None => Seq::empty(),
    }
}

fn push_opt(v: &mut Vec<MarketMakerSignal>, o: Option<MarketMakerSignal>)
    ensures
        final(v)@ == old(v)@ + opt_seq(o),
{
    match o {
        Some(s) => {
            v.push(s);
            proof {
                assert(v@ =~= old(v)@ + opt_seq(Some(v@.last())));
            }
        },
        None => {
            proof {
                assert(v@ =~= old(v)@ + Seq::<MarketMakerSignal>::empty());
            }
        },
    }
}

/// An optional signal matches a plan piece when both are absent or both
/// present and matching.
pub open spec fn opt_matches(o: Option<MarketMakerSignal>, p: Seq<SignalPlan>) -> bool {
    match o {
        None => p.len() == 0,
        Some(s) => p.len() == 1 && signal_matches(s, p[0]),
    }
}

pub proof fn lemma_opt_matches(o: Option<MarketMakerSignal>, p: Seq<SignalPlan>)
    requires
        opt_matches(o, p),
    ensures
        signals_match(opt_seq(o), p),
{
}

// =============================================================================
// Spec-level engine
// =============================================================================

/// Round a non-negative micro price to whole cents, half away from zero.
pub open spec fn spec_round_cents(p: int) -> int {
    (p + 5_000) / 10_000
}

/// Market mid: the midpoint of the best YES bid and the YES ask implied by
/// the best NO bid.
pub open spec fn spec_market_mid(yes_bid: int, no_bid: int) -> int {
    (yes_bid * 10_000 + (MICRO - no_bid * 10_000)) / 2
}

/// Confidence clamped into `[0, 1]`.
pub open spec fn spec_clamp_conf(c: int) -> int {
    if c < 0 {
        0
    } else if c > MICRO {
        MICRO as int
    } else {
        c
    }
}

/// Confidence-weighted average of the model fair value and the market mid.
pub open spec fn spec_blend(conf: int, model: int, market: int) -> int {
    (conf * model + (MICRO - conf) * market) / (MICRO as int)
}

/// The blended fair value the engine trades on.
pub open spec fn spec_blended_fair(conf: int, model_fair: int, yes_bid: int, no_bid: int) -> int {
    spec_blend(spec_clamp_conf(conf), model_fair, spec_market_mid(yes_bid, no_bid))
}

/// The blend lies between the model and market values.
pub proof fn lemma_blend_bounded(conf: int, model: int, market: int)
    requires
        0 <= conf <= MICRO,
    ensures
        model <= market ==> model <= spec_blend(conf, model, market) <= market,
        market <= model ==> market <= spec_blend(conf, model, market) <= model,
{
    let x = conf * model + (MICRO - conf) * market;
    if model <= market {
        assert(x >= MICRO * model && x <= MICRO * market) by (nonlinear_arith)
            requires
                0 <= conf <= MICRO,
                model <= market,
                x == conf * model + (MICRO - conf) * market,
        ;
        assert(x / (MICRO as int) >= model) by (nonlinear_arith)
            requires
                x >= 1_000_000 * model,
        ;
        assert(x / (MICRO as int) <= market) by (nonlinear_arith)
            requires
                x <= 1_000_000 * market,
        ;
    } else {
        assert(x >= MICRO * market && x <= MICRO * model) by (nonlinear_arith)
            requires
                0 <= conf <= MICRO,
                market <= model,
                x == conf * model + (MICRO - conf) * market,
        ;
        assert(x / (MICRO as int) >= market) by (nonlinear_arith)
            requires
                x >= 1_000_000 * market,
        ;
        assert(x / (MICRO as int) <= model) by (nonlinear_arith)
            requires
                x <= 1_000_000 * model,
        ;
    }
}

/// Dynamic spread: the base widened by inventory, scaled up within the last
/// two hours to expiry (continuously, up to twice), and capped at ten
/// cents.
pub open spec fn spec_spread(cfg: MarketMakerConfig, pos: int, secs: int) -> int {
    let s0 = cfg.base_spread + spec_abs(pos) * cfg.inventory_skew_factor;
    let s1 = if 0 < secs < 7_200 {
        s0 * (14_400 - secs) / 7_200
    } else {
        s0
    };
    if s1 > 100_000 {
        100_000
    } else {
        s1
    }
}

/// Signed quote-center shift against inventory.
pub open spec fn spec_skew(cfg: MarketMakerConfig, pos: int) -> int {
    pos * cfg.inventory_skew_factor
}

/// The edge calculation the engine derives from the blended fair value and
/// the two best bids.
pub open spec fn spec_edge_calc(
    fair: int,
    yes_bid: int,
    no_bid: int,
    maker_fee_market: bool,
    product_type: ProductType,
) -> EdgeCalculation {
    let yb = yes_bid * 10_000;
    let nb = no_bid * 10_000;
    let ya = MICRO - nb;
    let na = MICRO - yb;
    let fair_no = MICRO - fair;
    EdgeCalculation {
        fair_prob: fair as i64,
        market_yes_bid: yb as i64,
        market_yes_ask: ya as i64,
        market_no_bid: nb as i64,
        market_no_ask: na as i64,
        yes_buy_edge_raw: (fair - ya) as i64,
        yes_sell_edge_raw: (yb - fair) as i64,
        no_buy_edge_raw: (fair_no - na) as i64,
        no_sell_edge_raw: (nb - fair_no) as i64,
        yes_buy_edge_net: (fair - ya - spec_fee_micro(ya, true, maker_fee_market, product_type)) as i64,
        yes_sell_edge_net: (yb - fair - spec_fee_micro(yb, true, maker_fee_market, product_type)) as i64,
        no_buy_edge_net: (fair_no - na - spec_fee_micro(na, true, maker_fee_market, product_type)) as i64,
        no_sell_edge_net: (nb - fair_no - spec_fee_micro(nb, true, maker_fee_market, product_type)) as i64,
        yes_buy_edge_maker: (fair - ya - spec_fee_micro(ya, false, maker_fee_market, product_type)) as i64,
        yes_sell_edge_maker: (yb - fair - spec_fee_micro(yb, false, maker_fee_market, product_type)) as i64,
        no_buy_edge_maker: (fair_no - na - spec_fee_micro(na, false, maker_fee_market, product_type)) as i64,
        no_sell_edge_maker: (nb - fair_no - spec_fee_micro(nb, false, maker_fee_market, product_type)) as i64,
    }
}

/// Market price an action trades at.
pub open spec fn spec_action_price(e: EdgeCalculation, a: TradeAction) -> int {
    match a {
        TradeAction::BuyYes => e.market_yes_ask as int,
        TradeAction::SellYes => e.market_yes_bid as int,
        TradeAction::BuyNo => e.market_no_ask as int,
        TradeAction::SellNo => e.market_no_bid as int,
    }
}

pub open spec fn spec_action_side(a: TradeAction) -> OrderSide {
    match a {
        TradeAction::BuyYes | TradeAction::SellYes => OrderSide::Yes,
        TradeAction::BuyNo | TradeAction::SellNo => OrderSide::No,
    }
}

pub open spec fn spec_action_is_buy(a: TradeAction) -> bool {
    a is BuyYes || a is BuyNo
}

/// A hold when inventory headroom is gone.
pub open spec fn spec_hold_inventory_plan(cfg: MarketMakerConfig, p: PositionState) -> Seq<
    SignalPlan,
> {
    if spec_abs(p.yes_position as int) >= cfg.max_inventory {
        seq![SignalPlan::HoldInventory]
    } else {
        Seq::empty()
    }
}

/// A hold when the loss budget is spent.
pub open spec fn spec_hold_loss_plan(cfg: MarketMakerConfig, p: PositionState) -> Seq<SignalPlan> {
    if spec_max_loss(&p) >= cfg.max_loss_per_market {
        seq![SignalPlan::HoldLoss]
    } else {
        Seq::empty()
    }
}

/// The aggressive take, when the best taker-net edge clears the threshold
/// and both the loss budget and the inventory headroom leave size.
pub open spec fn spec_take_plan(
    cfg: MarketMakerConfig,
    p: PositionState,
    e: EdgeCalculation,
) -> Seq<SignalPlan> {
    match e.spec_best_action() {
        None => Seq::empty(),
        Some(a) => {
            let edge = e.spec_net_edge(a) as int;
            let price = spec_action_price(e, a);
            if edge > cfg.aggressive_take_threshold {
                let mc = spec_max_contracts_to_add(
                    &p,
                    price,
                    cfg.max_loss_per_market as int,
                    spec_action_side(a),
                    spec_action_is_buy(a),
                );
                let headroom = cfg.max_inventory - spec_abs(p.yes_position as int);
                let contracts = if mc <= headroom {
                    mc
                } else {
                    headroom
                };
                if contracts > 0 {
                    seq![
                        SignalPlan::Take {
                            side: spec_action_side(a),
                            is_buy: spec_action_is_buy(a),
                            price_cents: spec_round_cents(price),
                            contracts: contracts,
                            edge: edge,
                        },
                    ]
                } else {
                    Seq::empty()
                }
            } else {
                Seq::empty()
            }
        },
    }
}

/// A quote price is usable strictly inside two and ninety-eight cents.
pub open spec fn spec_price_in_band(price: int) -> bool {
    20_000 < price < 980_000
}

/// The YES bid quote: posted when its price is in band, its maker-net edge
/// reaches the minimum, inventory has room on the long side, and the loss
/// budget leaves size.
pub open spec fn spec_quote_yes_bid_plan(
    cfg: MarketMakerConfig,
    p: PositionState,
    fair: int,
    spread: int,
    skew: int,
) -> Seq<SignalPlan> {
    let price = fair - spread / 2 - skew;
    let edge = (fair - price) - spec_fee_micro(price, false, cfg.maker_fee_market, cfg.product_type);
    if spec_price_in_band(price) && edge >= cfg.min_edge_to_quote && p.yes_position
        < cfg.max_inventory {
        let mc = spec_max_contracts_to_add(
            &p,
            price,
            cfg.max_loss_per_market as int,
            OrderSide::Yes,
            true,
        );
        if mc > 0 {
            seq![
                SignalPlan::Quote {
                    side: OrderSide::Yes,
                    is_buy: true,
                    price_cents: spec_round_cents(price),
                    contracts: if mc <= 100 {
                        mc
                    } else {
                        100
                    },
                    edge: edge,
                },
            ]
        } else {
            Seq::empty()
        }
    } else {
        Seq::empty()
    }
}

/// The YES ask quote: posted in band with enough edge while short inventory
/// has room; a long position sells down up to a hundred contracts, an
/// otherwise flat or short book sells what the loss budget allows.
pub open spec fn spec_quote_yes_ask_plan(
    cfg: MarketMakerConfig,
    p: PositionState,
    fair: int,
    spread: int,
    skew: int,
) -> Seq<SignalPlan> {
    let price = fair + spread / 2 - skew;
    let edge = (price - fair) - spec_fee_micro(price, false, cfg.maker_fee_market, cfg.product_type);
    if spec_price_in_band(price) && edge >= cfg.min_edge_to_quote && p.yes_position
        > -cfg.max_inventory {
        let mc = spec_max_contracts_to_add(
            &p,
            price,
            cfg.max_loss_per_market as int,
            OrderSide::Yes,
            false,
        );
        if mc > 0 || p.yes_position > 0 {
            let contracts = if p.yes_position > 0 {
                if p.yes_position <= 100 {
                    p.yes_position as int
                } else {
                    100
                }
            } else {
                if mc <= 100 {
                    mc
                } else {
                    100
                }
            };
            if contracts > 0 {
                seq![
                    SignalPlan::Quote {
                        side: OrderSide::Yes,
                        is_buy: false,
                        price_cents: spec_round_cents(price),
                        contracts: contracts,
                        edge: edge,
                    },
                ]
            } else {
                Seq::empty()
            }
        } else {
            Seq::empty()
        }
    } else {
        Seq::empty()
    }
}

/// The NO bid quote (shorting YES): posted in band with enough edge while
/// short inventory has room and the loss budget leaves size.
pub open spec fn spec_quote_no_bid_plan(
    cfg: MarketMakerConfig,
    p: PositionState,
    fair: int,
    spread: int,
    skew: int,
) -> Seq<SignalPlan> {
    let fair_no = MICRO - fair;
    let price = fair_no - spread / 2 + skew;
    let edge = (fair_no - price) - spec_fee_micro(
        price,
        false,
        cfg.maker_fee_market,
        cfg.product_type,
    );
    if spec_price_in_band(price) && edge >= cfg.min_edge_to_quote && p.yes_position
        > -cfg.max_inventory {
        let mc = spec_max_contracts_to_add(
            &p,
            price,
            cfg.max_loss_per_market as int,
            OrderSide::No,
            true,
        );
        if mc > 0 {
            seq![
                SignalPlan::Quote {
                    side: OrderSide::No,
                    is_buy: true,
                    price_cents: spec_round_cents(price),
                    contracts: if mc <= 100 {
                        mc
                    } else {
                        100
                    },
                    edge: edge,
                },
            ]
        } else {
            Seq::empty()
        }
    } else {
        Seq::empty()
    }
}

/// The NO ask quote: posted only to close an existing short, up to a
/// hundred contracts.
pub open spec fn spec_quote_no_ask_plan(
    cfg: MarketMakerConfig,
    p: PositionState,
    fair: int,
    spread: int,
    skew: int,
) -> Seq<SignalPlan> {
    let fair_no = MICRO - fair;
    let price = fair_no + spread / 2 + skew;
    let edge = (price - fair_no) - spec_fee_micro(
        price,
        false,
        cfg.maker_fee_market,
        cfg.product_type,
    );
    if spec_price_in_band(price) && edge >= cfg.min_edge_to_quote && p.yes_position
        < cfg.max_inventory && p.yes_position < 0 {
        let contracts = if -p.yes_position <= 100 {
            -(p.yes_position as int)
        } else {
            100
        };
        seq![
            SignalPlan::Quote {
                side: OrderSide::No,
                is_buy: false,
                price_cents: spec_round_cents(price),
                contracts: contracts,
                edge: edge,
            },
        ]
    } else {
        Seq::empty()
    }
}

/// The full plan for one snapshot: the expiry gates short-circuit,
/// otherwise the holds, the take and the quotes, with a lone hold when
/// nothing fires.
pub open spec fn spec_signal_plan(
    cfg: MarketMakerConfig,
    p: PositionState,
    model_fair: int,
    yes_bid: int,
    no_bid: int,
    secs: int,
) -> Seq<SignalPlan> {
    if secs < cfg.min_seconds_to_expiry {
        seq![SignalPlan::GateExpiry]
    } else if secs <= 0 {
        seq![SignalPlan::GateExpired]
    } else {
        let fair = spec_blended_fair(cfg.fair_value_confidence as int, model_fair, yes_bid, no_bid);
        let e = spec_edge_calc(fair, yes_bid, no_bid, cfg.maker_fee_market, cfg.product_type);
        let spread = spec_spread(cfg, p.yes_position as int, secs);
        let skew = spec_skew(cfg, p.yes_position as int);
        let body = spec_hold_inventory_plan(cfg, p) + spec_hold_loss_plan(cfg, p) + spec_take_plan(
            cfg,
            p,
            e,
        ) + spec_quote_yes_bid_plan(cfg, p, fair, spread, skew) + spec_quote_yes_ask_plan(
            cfg,
            p,
            fair,
            spread,
            skew,
        ) + spec_quote_no_bid_plan(cfg, p, fair, spread, skew) + spec_quote_no_ask_plan(
            cfg,
            p,
            fair,
            spread,
            skew,
        );
        if body.len() == 0 {
            seq![SignalPlan::HoldNoOpportunity]
        } else {
            body
        }
    }
}

/// No cancel-all appears in a batch together with a quote or a take: the
/// expiry gates emit exactly one signal and return.
pub proof fn lemma_gate_excludes_trading(
    cfg: MarketMakerConfig,
    p: PositionState,
    model_fair: int,
    yes_bid: int,
    no_bid: int,
    secs: int,
)
    ensures
        ({
            let plan = spec_signal_plan(cfg, p, model_fair, yes_bid, no_bid, secs);
            (exists|i: int|
                0 <= i < plan.len() && (#[trigger] plan[i] is GateExpiry || plan[i] is GateExpired))
                ==> plan.len() == 1 && (forall|j: int|
                0 <= j < plan.len() ==> !((#[trigger] plan[j]) is Take) && !(plan[j] is Quote))
        }),
{
    let plan = spec_signal_plan(cfg, p, model_fair, yes_bid, no_bid, secs);
    if secs < cfg.min_seconds_to_expiry || secs <= 0 {
    } else {
        assert forall|i: int|
            0 <= i < plan.len() implies !((#[trigger] plan[i]) is GateExpiry) && !(plan[i]
            is GateExpired) by {
            lemma_plan_body_kinds(cfg, p, model_fair, yes_bid, no_bid, secs, i);
        }
    }
}

/// Past the gates, every plan entry is a hold, a take or a quote.
proof fn lemma_plan_body_kinds(
    cfg: MarketMakerConfig,
    p: PositionState,
    model_fair: int,
    yes_bid: int,
    no_bid: int,
    secs: int,
    i: int,
)
    requires
        secs >= cfg.min_seconds_to_expiry,
        secs > 0,
        0 <= i < spec_signal_plan(cfg, p, model_fair, yes_bid, no_bid, secs).len(),
    ensures
        ({
            let x = spec_signal_plan(cfg, p, model_fair, yes_bid, no_bid, secs)[i];
            x is HoldInventory || x is HoldLoss || x is Take || x is Quote
                || x is HoldNoOpportunity
        }),
{
}

// =============================================================================
// The engine
// =============================================================================

/// Summary of realized and mark-to-model profit, micro-dollars.
pub struct PnLSummary {
    pub realized_pnl: i64,
    pub unrealized_pnl: i64,
    pub total_pnl: i64,
    pub max_loss: i64,
    pub position: i64,
}

/// Market maker engine for one market.
pub struct MarketMaker {
    /// Market ticker.
    pub ticker: String,
    /// Configuration.
    pub config: MarketMakerConfig,
    /// Fair value state for this market.
    pub fair_value_calc: FairValueCalculator,
    /// Current position.
    pub position: PositionState,
    /// Last edge calculation.
    pub last_edge: Option<EdgeCalculation>,
    /// Last model fair value, before blending.
    pub last_model_fair: Option<i64>,
    /// Last market mid.
    pub last_market_mid: Option<i64>,
    /// Last blended fair value, the one trading uses.
    pub last_blended_fair: Option<i64>,
}

impl MarketMaker {
    pub open spec fn wf(&self) -> bool {
        &&& self.config.wf()
        &&& self.position.wf()
        &&& self.fair_value_calc.wf()
    }

    /// New market maker with a flat position.
    pub fn new(ticker: String, fair_value_calc: FairValueCalculator, config: MarketMakerConfig) -> (r:
        Self)
        requires
            config.wf(),
            fair_value_calc.wf(),
        ensures
            r.wf(),
            r.ticker == ticker,
            r.config == config,
            r.fair_value_calc == fair_value_calc,
            r.position.yes_position == 0 && r.position.cost_basis == 0 && r.position.realized_pnl
                == 0,
            r.last_edge is None && r.last_model_fair is None && r.last_market_mid is None
                && r.last_blended_fair is None,
    {
        MarketMaker {
            ticker,
            config,
            fair_value_calc,
            position: PositionState::new(),
            last_edge: None,
            last_model_fair: None,
            last_market_mid: None,
            last_blended_fair: None,
        }
    }

    /// Record the model fair value for this round.
    pub fn update_model_fair_value(&mut self, model_fair: i64) -> (r: i64)
        requires
            old(self).wf(),
            0 <= model_fair <= MICRO,
        ensures
            final(self).wf(),
            r == model_fair,
            final(self).last_model_fair == Some(model_fair),
            *final(self) == (MarketMaker { last_model_fair: Some(model_fair), ..*old(self) }),
    {
        self.last_model_fair = Some(model_fair);
        model_fair
    }

    /// Blend the model fair value with the market mid by the configured
    /// confidence and record both.
    pub fn blend_fair_value(&mut self, model_fair: i64, market_mid: i64) -> (r: i64)
        requires
            old(self).wf(),
            0 <= model_fair <= MICRO,
            0 <= market_mid <= MICRO,
        ensures
            final(self).wf(),
            r == spec_blend(
                spec_clamp_conf(old(self).config.fair_value_confidence as int),
                model_fair as int,
                market_mid as int,
            ),
            0 <= r <= MICRO,
            *final(self) == (MarketMaker {
                last_market_mid: Some(market_mid),
                last_blended_fair: Some(r),
                ..*old(self)
            }),
    {
        let conf = if self.config.fair_value_confidence < 0 {
            0
        } else if self.config.fair_value_confidence > MICRO {
            MICRO
        } else {
            self.config.fair_value_confidence
        };
        proof {
            assert(conf * model_fair <= 1_000_000 * 1_000_000 && conf * model_fair >= 0)
                by (nonlinear_arith)
                requires
                    0 <= conf <= 1_000_000,
                    0 <= model_fair <= 1_000_000,
            ;
            assert((MICRO - conf) * market_mid <= 1_000_000 * 1_000_000 && (MICRO - conf)
                * market_mid >= 0) by (nonlinear_arith)
                requires
                    0 <= conf <= 1_000_000,
                    0 <= market_mid <= 1_000_000,
            ;
            lemma_blend_bounded(conf as int, model_fair as int, market_mid as int);
        }
        let blended = (conf * model_fair + (MICRO - conf) * market_mid) / MICRO;
        self.last_market_mid = Some(market_mid);
        self.last_blended_fair = Some(blended);
        blended
    }

    /// Market mid from the two best bids, in micro units.
    pub fn calculate_market_mid(yes_bid: u16, no_bid: u16) -> (r: i64)
        requires
            yes_bid <= 100,
            no_bid <= 100,
        ensures
            r == spec_market_mid(yes_bid as int, no_bid as int),
            0 <= r <= MICRO,
    {
        let yes_bid_prob = (yes_bid as i64) * 10_000;
        let yes_ask_prob = MICRO - (no_bid as i64) * 10_000;
        (yes_bid_prob + yes_ask_prob) / 2
    }

    /// The fair value trading decisions use: the blended value, or the
    /// model value before any blend happened.
    pub fn effective_fair_value(&self) -> (r: Option<i64>)
        ensures
            r == (if self.last_blended_fair is Some {
                self.last_blended_fair
            } else {
                self.last_model_fair
            }),
    {
        match self.last_blended_fair {
            Some(b) => Some(b),
            None => self.last_model_fair,
        }
    }

    /// Dynamic spread for the current inventory and time to expiry.
    fn calculate_spread(&self, secs_to_expiry: i64) -> (r: i64)
        requires
            self.wf(),
        ensures
            r == spec_spread(self.config, self.position.yes_position as int, secs_to_expiry as int),
            0 <= r <= 100_000,
    {
        let pos_abs = if self.position.yes_position >= 0 {
            self.position.yes_position
        } else {
            -self.position.yes_position
        };
        proof {
            assert(pos_abs * self.config.inventory_skew_factor <= 1_000_000 * 1_000_000 && pos_abs
                * self.config.inventory_skew_factor >= 0) by (nonlinear_arith)
                requires
                    0 <= pos_abs <= 1_000_000,
                    0 <= self.config.inventory_skew_factor <= 1_000_000,
            ;
        }
        let mut spread = self.config.base_spread + pos_abs * self.config.inventory_skew_factor;
        if secs_to_expiry > 0 && secs_to_expiry < 7_200 {
            proof {
                assert(spread * (14_400 - secs_to_expiry) <= spread * 14_400) by (nonlinear_arith)
                    requires
                        spread >= 0,
                        0 < secs_to_expiry < 7_200,
                ;
                assert(spread * (14_400 - secs_to_expiry) >= 0) by (nonlinear_arith)
                    requires
                        spread >= 0,
                        secs_to_expiry < 7_200,
                ;
                assert(spread * (14_400 - secs_to_expiry) / 7_200 <= spread * 14_400 / 7_200)
                    by (nonlinear_arith)
                    requires
                        spread * (14_400 - secs_to_expiry) <= spread * 14_400,
                        spread * (14_400 - secs_to_expiry) >= 0,
                ;
            }
            spread = spread * (14_400 - secs_to_expiry) / 7_200;
        }
        if spread > 100_000 {
            100_000
        } else {
            spread
        }
    }

    /// Signed quote-center shift against inventory.
    fn calculate_inventory_skew(&self) -> (r: i64)
        requires
            self.wf(),
        ensures
            r == spec_skew(self.config, self.position.yes_position as int),
            -1_000_000_000_000 <= r <= 1_000_000_000_000,
    {
        proof {
            assert(-1_000_000_000_000 <= self.position.yes_position
                * self.config.inventory_skew_factor <= 1_000_000_000_000) by (nonlinear_arith)
                requires
                    -1_000_000 <= self.position.yes_position <= 1_000_000,
                    0 <= self.config.inventory_skew_factor <= 1_000_000,
            ;
        }
        self.position.yes_position * self.config.inventory_skew_factor
    }

    /// Single-contract fee at `price_micro` under this market's fee
    /// schedule, in micro-dollars.
    fn calculate_trade_fee(&self, price_micro: i64, is_taker: bool) -> (r: i64)
        ensures
            r == spec_fee_micro(
                price_micro as int,
                is_taker,
                self.config.maker_fee_market,
                self.config.product_type,
            ),
            0 <= r <= 30_000,
    {
        proof {
            lemma_fee_cents_bound(
                price_micro as int,
                1,
                spec_fee_rate(is_taker, self.config.maker_fee_market, self.config.product_type),
            );
        }
        let cents = calculate_fee(
            price_micro,
            1,
            is_taker,
            self.config.maker_fee_market,
            self.config.product_type,
        );
        (cents as i64) * 10_000
    }

    /// The aggressive take for the current edges, when the threshold and
    /// the size limits allow one.
    fn build_take(&self, edge: &EdgeCalculation) -> (o: Option<MarketMakerSignal>)
        requires
            self.wf(),
            0 <= edge.market_yes_bid <= MICRO,
            0 <= edge.market_yes_ask <= MICRO,
            0 <= edge.market_no_bid <= MICRO,
            0 <= edge.market_no_ask <= MICRO,
        ensures
            opt_matches(o, spec_take_plan(self.config, self.position, *edge)),
    {
        let pos = self.position.yes_position;
        let pos_abs = if pos >= 0 {
            pos
        } else {
            -pos
        };
        match edge.best_action() {
            Some(action) => {
                let edge_after_fees = edge.edge_for_action(action);
                let price = match action {
                    TradeAction::BuyYes => edge.market_yes_ask,
                    TradeAction::SellYes => edge.market_yes_bid,
                    TradeAction::BuyNo => edge.market_no_ask,
                    TradeAction::SellNo => edge.market_no_bid,
                };
                if edge_after_fees > self.config.aggressive_take_threshold {
                    let mc = self.position.max_contracts_to_add(
                        price,
                        self.config.max_loss_per_market,
                        action.side(),
                        action.is_buy(),
                    );
                    let headroom = self.config.max_inventory - pos_abs;
                    let contracts = if mc <= headroom {
                        mc
                    } else {
                        headroom
                    };
                    if contracts > 0 {
                        Some(
                            MarketMakerSignal::AggressiveTake(
                                AggressiveOrder {
                                    side: action.side(),
                                    is_buy: action.is_buy(),
                                    price_cents: (price + 5_000) / 10_000,
                                    contracts,
                                    edge: edge_after_fees,
                                },
                            ),
                        )
                    } else {
                        None
                    }
                } else {
                    None
                }
            },
            None => None,
        }
    }

    /// The YES bid quote, when its conditions hold.
    fn build_quote_yes_bid(&self, fair: i64, spread: i64, skew: i64) -> (o: Option<
        MarketMakerSignal,
    >)
        requires
            self.wf(),
            0 <= fair <= MICRO,
            0 <= spread <= 100_000,
            -1_000_000_000_000 <= skew <= 1_000_000_000_000,
        ensures
            opt_matches(
                o,
                spec_quote_yes_bid_plan(
                    self.config,
                    self.position,
                    fair as int,
                    spread as int,
                    skew as int,
                ),
            ),
    {
        let price = fair - spread / 2 - skew;
        let fee = self.calculate_trade_fee(price, false);
        let edge_net = (fair - price) - fee;
        if price > 20_000 && price < 980_000 && edge_net >= self.config.min_edge_to_quote
            && self.position.yes_position < self.config.max_inventory {
            let mc = self.position.max_contracts_to_add(
                price,
                self.config.max_loss_per_market,
                OrderSide::Yes,
                true,
            );
            if mc > 0 {
                Some(
                    MarketMakerSignal::Quote(
                        QuoteOrder {
                            side: OrderSide::Yes,
                            is_buy: true,
                            price_cents: (price + 5_000) / 10_000,
                            contracts: if mc <= 100 {
                                mc
                            } else {
                                100
                            },
                            edge: edge_net,
                        },
                    ),
                )
            } else {
                None
            }
        } else {
            None
        }
    }

    /// The YES ask quote, when its conditions hold.
    fn build_quote_yes_ask(&self, fair: i64, spread: i64, skew: i64) -> (o: Option<
        MarketMakerSignal,
    >)
        requires
            self.wf(),
            0 <= fair <= MICRO,
            0 <= spread <= 100_000,
            -1_000_000_000_000 <= skew <= 1_000_000_000_000,
        ensures
            opt_matches(
                o,
                spec_quote_yes_ask_plan(
                    self.config,
                    self.position,
                    fair as int,
                    spread as int,
                    skew as int,
                ),
            ),
    {
        let price = fair + spread / 2 - skew;
        let fee = self.calculate_trade_fee(price, false);
        let edge_net = (price - fair) - fee;
        if price > 20_000 && price < 980_000 && edge_net >= self.config.min_edge_to_quote
            && self.position.yes_position > -self.config.max_inventory {
            let mc = self.position.max_contracts_to_add(
                price,
                self.config.max_loss_per_market,
                OrderSide::Yes,
                false,
            );
            if mc > 0 || self.position.yes_position > 0 {
                let contracts = if self.position.yes_position > 0 {
                    if self.position.yes_position <= 100 {
                        self.position.yes_position
                    } else {
                        100
                    }
                } else {
                    if mc <= 100 {
                        mc
                    } else {
                        100
                    }
                };
                if contracts > 0 {
                    Some(
                        MarketMakerSignal::Quote(
                            QuoteOrder {
                                side: OrderSide::Yes,
                                is_buy: false,
                                price_cents: (price + 5_000) / 10_000,
                                contracts,
                                edge: edge_net,
                            },
                        ),
                    )
                } else {
                    None
                }
            } else {
                None
            }
        } else {
            None
        }
    }

    /// The NO bid quote, when its conditions hold.
    fn build_quote_no_bid(&self, fair: i64, spread: i64, skew: i64) -> (o: Option<
        MarketMakerSignal,
    >)
        requires
            self.wf(),
            0 <= fair <= MICRO,
            0 <= spread <= 100_000,
            -1_000_000_000_000 <= skew <= 1_000_000_000_000,
        ensures
            opt_matches(
                o,
                spec_quote_no_bid_plan(
                    self.config,
                    self.position,
                    fair as int,
                    spread as int,
                    skew as int,
                ),
            ),
    {
        let fair_no = MICRO - fair;
        let price = fair_no - spread / 2 + skew;
        let fee = self.calculate_trade_fee(price, false);
        let edge_net = (fair_no - price) - fee;
        if price > 20_000 && price < 980_000 && edge_net >= self.config.min_edge_to_quote
            && self.position.yes_position > -self.config.max_inventory {
            let mc = self.position.max_contracts_to_add(
                price,
                self.config.max_loss_per_market,
                OrderSide::No,
                true,
            );
            if mc > 0 {
                Some(
                    MarketMakerSignal::Quote(
                        QuoteOrder {
                            side: OrderSide::No,
                            is_buy: true,
                            price_cents: (price + 5_000) / 10_000,
                            contracts: if mc <= 100 {
                                mc
                            } else {
                                100
                            },
                            edge: edge_net,
                        },
                    ),
                )
            } else {
                None
            }
        } else {
            None
        }
    }

    /// The NO ask quote: posted only against an existing short.
    fn build_quote_no_ask(&self, fair: i64, spread: i64, skew: i64) -> (o: Option<
        MarketMakerSignal,
    >)
        requires
            self.wf(),
            0 <= fair <= MICRO,
            0 <= spread <= 100_000,
            -1_000_000_000_000 <= skew <= 1_000_000_000_000,
        ensures
            opt_matches(
                o,
                spec_quote_no_ask_plan(
                    self.config,
                    self.position,
                    fair as int,
                    spread as int,
                    skew as int,
                ),
            ),
    {
        let fair_no = MICRO - fair;
        let price = fair_no + spread / 2 + skew;
        let fee = self.calculate_trade_fee(price, false);
        let edge_net = (price - fair_no) - fee;
        if price > 20_000 && price < 980_000 && edge_net >= self.config.min_edge_to_quote
            && self.position.yes_position < self.config.max_inventory && self.position.yes_position
            < 0 {
            let contracts = if -self.position.yes_position <= 100 {
                -self.position.yes_position
            } else {
                100
            };
            Some(
                MarketMakerSignal::Quote(
                    QuoteOrder {
                        side: OrderSide::No,
                        is_buy: false,
                        price_cents: (price + 5_000) / 10_000,
                        contracts,
                        edge: edge_net,
                    },
                ),
            )
        } else {
            None
        }
    }

    /// Generate the signals for one state snapshot: record the model fair
    /// value, blend it with the market mid, and emit the plan's signals in
    /// order — the expiry gates, the inventory and loss holds, the
    /// aggressive take, the four passive quotes, or the lone hold.
    #[verifier::spinoff_prover]
    #[verifier::rlimit(100)]
    pub fn generate_signals(
        &mut self,
        model_fair: i64,
        yes_bid: u16,
        no_bid: u16,
        secs_to_expiry: i64,
    ) -> (r: Vec<MarketMakerSignal>)
        requires
            old(self).wf(),
            0 <= model_fair <= MICRO,
            yes_bid <= 100,
            no_bid <= 100,
        ensures
            final(self).wf(),
            final(self).config == old(self).config,
            final(self).position == old(self).position,
            final(self).ticker == old(self).ticker,
            final(self).fair_value_calc == old(self).fair_value_calc,
            final(self).last_model_fair == Some(model_fair),
            final(self).last_market_mid == Some(
                spec_market_mid(yes_bid as int, no_bid as int) as i64,
            ),
            final(self).last_blended_fair == Some(
                spec_blended_fair(
                    old(self).config.fair_value_confidence as int,
                    model_fair as int,
                    yes_bid as int,
                    no_bid as int,
                ) as i64,
            ),
            signals_match(
                r@,
                spec_signal_plan(
                    old(self).config,
                    old(self).position,
                    model_fair as int,
                    yes_bid as int,
                    no_bid as int,
                    secs_to_expiry as int,
                ),
            ),
    {
        let ghost plan = spec_signal_plan(
            old(self).config,
            old(self).position,
            model_fair as int,
            yes_bid as int,
            no_bid as int,
            secs_to_expiry as int,
        );
        let mut signals: Vec<MarketMakerSignal> = Vec::new();

        // Record the model fair value and blend it with the market mid.
        let model = self.update_model_fair_value(model_fair);
        let market_mid = Self::calculate_market_mid(yes_bid, no_bid);
        let fair = self.blend_fair_value(model, market_mid);

        // Expiry gates: each emits a single cancel-all and returns.
        if secs_to_expiry < self.config.min_seconds_to_expiry {
            signals.push(MarketMakerSignal::CancelAll { reason: "Too close to expiry".to_owned() });
            proof {
                assert(plan =~= seq![SignalPlan::GateExpiry]);
                assert(signal_matches(signals@[0], plan[0]));
            }
            return signals;
        }
        if secs_to_expiry <= 0 {
            signals.push(MarketMakerSignal::CancelAll { reason: "Market expired".to_owned() });
            proof {
                assert(plan =~= seq![SignalPlan::GateExpired]);
                assert(signal_matches(signals@[0], plan[0]));
            }
            return signals;
        }

        // Edges at the blended fair value.
        let edge = EdgeCalculation::calculate(
            fair,
            yes_bid,
            no_bid,
            self.config.maker_fee_market,
            self.config.product_type,
        );
        let ghost spec_e = spec_edge_calc(
            fair as int,
            yes_bid as int,
            no_bid as int,
            self.config.maker_fee_market,
            self.config.product_type,
        );
        proof {
            assert(edge == spec_e);
        }
        self.last_edge = Some(edge);

        let pos = self.position.yes_position;
        let pos_abs = if pos >= 0 {
            pos
        } else {
            -pos
        };

        // Position-limit observations.
        let hold_inv: Option<MarketMakerSignal> = if pos_abs >= self.config.max_inventory {
            Some(MarketMakerSignal::Hold { reason: "Max inventory reached".to_owned() })
        } else {
            None
        };
        proof {
            assert(spec_abs(self.position.yes_position as int) * (MICRO as int) <= 1_000_000
                * 1_000_000) by (nonlinear_arith)
                requires
                    0 <= spec_abs(self.position.yes_position as int) <= 1_000_000,
            ;
        }
        let current_max_loss = self.position.max_loss();
        let hold_loss: Option<MarketMakerSignal> = if current_max_loss
            >= self.config.max_loss_per_market {
            Some(MarketMakerSignal::Hold { reason: "Max loss limit reached".to_owned() })
        } else {
            None
        };

        let spread = self.calculate_spread(secs_to_expiry);
        let skew = self.calculate_inventory_skew();
        let half_spread = spread / 2;

        // Aggressive take when the net edge clears the threshold.
        let take: Option<MarketMakerSignal> = self.build_take(&edge);

        // Passive quotes around the blended fair value.
        let q_yes_bid: Option<MarketMakerSignal> = self.build_quote_yes_bid(fair, spread, skew);
        let q_yes_ask: Option<MarketMakerSignal> = self.build_quote_yes_ask(fair, spread, skew);
        let q_no_bid: Option<MarketMakerSignal> = self.build_quote_no_bid(fair, spread, skew);
        let q_no_ask: Option<MarketMakerSignal> = self.build_quote_no_ask(fair, spread, skew);

        // Emit in plan order.
        let ghost cfg = old(self).config;
        let ghost p0 = old(self).position;
        let ghost spec_fair = fair as int;
        let ghost spec_spr = spread as int;
        let ghost spec_sk = skew as int;
        let ghost p_hold_inv = spec_hold_inventory_plan(cfg, p0);
        let ghost p_hold_loss = spec_hold_loss_plan(cfg, p0);
        let ghost p_take = spec_take_plan(cfg, p0, spec_e);
        let ghost p_q1 = spec_quote_yes_bid_plan(cfg, p0, spec_fair, spec_spr, spec_sk);
        let ghost p_q2 = spec_quote_yes_ask_plan(cfg, p0, spec_fair, spec_spr, spec_sk);
        let ghost p_q3 = spec_quote_no_bid_plan(cfg, p0, spec_fair, spec_spr, spec_sk);
        let ghost p_q4 = spec_quote_no_ask_plan(cfg, p0, spec_fair, spec_spr, spec_sk);
        proof {
            lemma_opt_matches(hold_inv, p_hold_inv);
            lemma_opt_matches(hold_loss, p_hold_loss);
            lemma_opt_matches(take, p_take);
            lemma_opt_matches(q_yes_bid, p_q1);
            lemma_opt_matches(q_yes_ask, p_q2);
            lemma_opt_matches(q_no_bid, p_q3);
            lemma_opt_matches(q_no_ask, p_q4);
        }
        let ghost s_h1 = opt_seq(hold_inv);
        let ghost s_h2 = opt_seq(hold_loss);
        let ghost s_t = opt_seq(take);
        let ghost s_q1 = opt_seq(q_yes_bid);
        let ghost s_q2 = opt_seq(q_yes_ask);
        let ghost s_q3 = opt_seq(q_no_bid);
        let ghost s_q4 = opt_seq(q_no_ask);
        push_opt(&mut signals, hold_inv);
        push_opt(&mut signals, hold_loss);
        push_opt(&mut signals, take);
        push_opt(&mut signals, q_yes_bid);
        push_opt(&mut signals, q_yes_ask);
        push_opt(&mut signals, q_no_bid);
        push_opt(&mut signals, q_no_ask);
        proof {
            assert(signals@ =~= s_h1 + s_h2 + s_t + s_q1 + s_q2 + s_q3 + s_q4);
            lemma_signals_match_concat(s_h1, s_h2, p_hold_inv, p_hold_loss);
            lemma_signals_match_concat(s_h1 + s_h2, s_t, p_hold_inv + p_hold_loss, p_take);
            lemma_signals_match_concat(
                s_h1 + s_h2 + s_t,
                s_q1,
                p_hold_inv + p_hold_loss + p_take,
                p_q1,
            );
            lemma_signals_match_concat(
                s_h1 + s_h2 + s_t + s_q1,
                s_q2,
                p_hold_inv + p_hold_loss + p_take + p_q1,
                p_q2,
            );
            lemma_signals_match_concat(
                s_h1 + s_h2 + s_t + s_q1 + s_q2,
                s_q3,
                p_hold_inv + p_hold_loss + p_take + p_q1 + p_q2,
                p_q3,
            );
            lemma_signals_match_concat(
                s_h1 + s_h2 + s_t + s_q1 + s_q2 + s_q3,
                s_q4,
                p_hold_inv + p_hold_loss + p_take + p_q1 + p_q2 + p_q3,
                p_q4,
            );
            assert(signals_match(
                signals@,
                p_hold_inv + p_hold_loss + p_take + p_q1 + p_q2 + p_q3 + p_q4,
            ));
        }
        if signals.len() == 0 {
            signals.push(
                MarketMakerSignal::Hold { reason: "No profitable opportunities".to_owned() },
            );
            proof {
                assert(plan =~= seq![SignalPlan::HoldNoOpportunity]);
                assert(signal_matches(signals@[0], plan[0]));
            }
            return signals;
        }
        proof {
            assert(plan =~= p_hold_inv + p_hold_loss + p_take + p_q1 + p_q2 + p_q3 + p_q4);
        }
        signals
    }

    /// Apply a fill at a cent price to the position.
    pub fn on_fill(&mut self, side: OrderSide, is_buy: bool, contracts: i64, price_cents: i64)
        requires
            old(self).wf(),
            0 < contracts,
            spec_abs(old(self).position.yes_position as int) + contracts <= POSITION_LIMIT,
            0 < price_cents < 100,
        ensures
            final(self).wf(),
            fill_applied(
                &old(self).position,
                side,
                is_buy,
                contracts as int,
                price_cents * 10_000,
                &final(self).position,
            ),
            *final(self) == (MarketMaker { position: final(self).position, ..*old(self) }),
    {
        let price_micro = price_cents * 10_000;
        self.position.update_from_fill(side, is_buy, contracts, price_micro);
    }

    /// Current profit and loss summary at the last fair value.
    pub fn pnl_summary(&self) -> (r: PnLSummary)
        requires
            self.wf(),
        ensures
            r.realized_pnl == self.position.realized_pnl,
            r.unrealized_pnl == (match self.fair_value_calc.last_fair_prob {
                Some(fp) => crate::position::spec_unrealized_pnl(&self.position, fp as int),
                None => 0int,
            }),
            r.total_pnl == spec_sat_add(r.realized_pnl, r.unrealized_pnl),
            r.max_loss == spec_max_loss(&self.position),
            r.position == self.position.yes_position,
    {
        proof {
            assert(spec_abs(self.position.yes_position as int) * (MICRO as int) <= 1_000_000
                * 1_000_000) by (nonlinear_arith)
                requires
                    0 <= spec_abs(self.position.yes_position as int) <= 1_000_000,
            ;
        }
        let unrealized = match self.fair_value_calc.fair_prob() {
            Some(fp) => self.position.unrealized_pnl(fp),
            None => 0,
        };
        let realized = self.position.realized_pnl;
        let total = match realized.checked_add(unrealized) {
            Some(t) => t,
            None => if unrealized > 0 {
                i64::MAX
            } else {
                i64::MIN
            },
        };
        PnLSummary {
            realized_pnl: realized,
            unrealized_pnl: unrealized,
            total_pnl: total,
            max_loss: self.position.max_loss(),
            position: self.position.yes_position,
        }
    }
}

} // verus!
