//! Position accounting for one market.
//!
//! `yes_position` counts net YES contracts (negative means long NO). The
//! cost basis is the premium paid (or received, for shorts) for the open
//! position, in micro-dollars, kept as a magnitude; the average entry price
//! is derived from it. Reducing fills realize profit and loss; the worst
//! case loss of an open position never goes negative.

use vstd::prelude::*;

use crate::orders::OrderSide;
use crate::spec_abs;
use crate::spec_sat_add;
use crate::MICRO;

verus! {

/// Positions are capped well below any realistic inventory so that every
/// cost and profit figure fits comfortably in an `i64` of micro-dollars.
pub const POSITION_LIMIT: i64 = 1_000_000;

/// Signed YES-contract change of a fill: buying YES or selling NO goes
/// long, selling YES or buying NO goes short.
pub open spec fn spec_signed_contracts(side: OrderSide, is_buy: bool, contracts: int) -> int {
    match (side, is_buy) {
        (OrderSide::Yes, true) => contracts,
        (OrderSide::Yes, false) => -contracts,
        (OrderSide::No, true) => -contracts,
        (OrderSide::No, false) => contracts,
    }
}

/// Current position state.
pub struct PositionState {
    /// Net YES contracts held (positive = long YES, negative = long NO).
    pub yes_position: i64,
    /// Average entry price of the open position, in micro units.
    pub avg_entry_price: i64,
    /// Premium paid (long) or received (short) for the open position, in
    /// micro-dollars, as a magnitude.
    pub cost_basis: i64,
    /// Realized profit and loss, in micro-dollars.
    pub realized_pnl: i64,
}

/// Worst-case loss at settlement: a long loses its basis when the market
/// expires worthless; a short owes one dollar per contract less the premium
/// received; a flat position risks nothing.
pub open spec fn spec_max_loss(p: &PositionState) -> int {
    if p.yes_position > 0 {
        p.cost_basis as int
    } else if p.yes_position < 0 {
        spec_abs(p.yes_position as int) * (MICRO as int) - spec_abs(p.cost_basis as int)
    } else {
        0
    }
}

/// Mark-to-model profit of the open position at a fair probability.
pub open spec fn spec_unrealized_pnl(p: &PositionState, fair: int) -> int {
    if p.yes_position > 0 {
        p.yes_position * fair - p.cost_basis
    } else if p.yes_position < 0 {
        p.cost_basis - (-p.yes_position) * fair
    } else {
        0
    }
}

/// What one fill does to a position. A fill on the side of the current
/// position (or onto a flat book) adds: the basis grows by the premium and
/// the average entry is the basis over the combined size. A fill against it
/// reduces: up to the open size is closed, profit `closed * price` less the
/// closed share of the basis is realized (sign-corrected for shorts), and
/// the basis gives up that share. A fill larger than the open position
/// flips it, leaving the remainder with an empty basis.
pub open spec fn fill_applied(
    p0: &PositionState,
    side: OrderSide,
    is_buy: bool,
    contracts: int,
    price: int,
    p1: &PositionState,
) -> bool {
    let signed = spec_signed_contracts(side, is_buy, contracts);
    let pos = p0.yes_position as int;
    if (pos >= 0 && signed > 0) || (pos <= 0 && signed < 0) {
        let total = spec_abs(pos) + contracts;
        &&& p1.yes_position == pos + signed
        &&& p1.cost_basis == p0.cost_basis + contracts * price
        &&& p1.avg_entry_price == (p0.cost_basis + contracts * price) / total
        &&& p1.realized_pnl == p0.realized_pnl
    } else {
        let closed = if contracts <= spec_abs(pos) {
            contracts
        } else {
            spec_abs(pos)
        };
        let returned = (closed * p0.cost_basis) / spec_abs(pos);
        let pnl = closed * price - returned;
        let signed_pnl = if pos > 0 {
            pnl
        } else {
            -pnl
        };
        &&& p1.yes_position == pos + signed
        &&& p1.cost_basis == p0.cost_basis - returned
        &&& p1.avg_entry_price == p0.avg_entry_price
        &&& p1.realized_pnl == spec_sat_add(p0.realized_pnl, signed_pnl as i64)
    }
}

impl PositionState {
    /// The position's figures stay in range: the basis is non-negative and
    /// never exceeds one dollar per open contract.
    pub open spec fn wf(&self) -> bool {
        &&& -POSITION_LIMIT <= self.yes_position <= POSITION_LIMIT
        &&& 0 <= self.avg_entry_price <= MICRO
        &&& 0 <= self.cost_basis <= spec_abs(self.yes_position as int) * (MICRO as int)
    }

    /// Fresh flat position.
    pub fn new() -> (r: Self)
        ensures
            r.wf(),
            r.yes_position == 0 && r.avg_entry_price == 0 && r.cost_basis == 0
                && r.realized_pnl == 0,
    {
        PositionState { yes_position: 0, avg_entry_price: 0, cost_basis: 0, realized_pnl: 0 }
    }

    /// Worst-case loss at settlement, in micro-dollars.
    pub fn max_loss(&self) -> (r: i64)
        requires
            -POSITION_LIMIT <= self.yes_position <= POSITION_LIMIT,
            -POSITION_LIMIT * MICRO <= self.cost_basis <= POSITION_LIMIT * MICRO,
        ensures
            r == spec_max_loss(self),
    {
        if self.yes_position > 0 {
            self.cost_basis
        } else if self.yes_position < 0 {
            let contracts = -self.yes_position;
            let basis = if self.cost_basis >= 0 {
                self.cost_basis
            } else {
                -self.cost_basis
            };
            contracts * MICRO - basis
        } else {
            0
        }
    }

    /// A well-formed position never has a negative worst-case loss.
    pub proof fn lemma_max_loss_nonneg(&self)
        requires
            self.wf(),
        ensures
            spec_max_loss(self) >= 0,
    {
    }

    /// Mark-to-model profit of the open position at `fair` micro.
    pub fn unrealized_pnl(&self, current_fair_prob: i64) -> (r: i64)
        requires
            self.wf(),
            0 <= current_fair_prob <= MICRO,
        ensures
            r == spec_unrealized_pnl(self, current_fair_prob as int),
    {
        if self.yes_position == 0 {
            return 0;
        }
        let contracts = if self.yes_position > 0 {
            self.yes_position
        } else {
            -self.yes_position
        };
        proof {
            assert(contracts * current_fair_prob <= 1_000_000 * 1_000_000) by (nonlinear_arith)
                requires
                    0 <= contracts <= 1_000_000,
                    0 <= current_fair_prob <= 1_000_000,
            ;
            assert(contracts * current_fair_prob >= 0) by (nonlinear_arith)
                requires
                    contracts >= 0,
                    current_fair_prob >= 0,
            ;
            assert(spec_abs(self.yes_position as int) * (MICRO as int) <= 1_000_000 * 1_000_000)
                by (nonlinear_arith)
                requires
                    0 <= spec_abs(self.yes_position as int) <= 1_000_000,
            ;
        }
        let current_value = contracts * current_fair_prob;
        if self.yes_position > 0 {
            current_value - self.cost_basis
        } else {
            self.cost_basis - current_value
        }
    }

    /// Apply one fill to the position.
    pub fn update_from_fill(&mut self, side: OrderSide, is_buy: bool, contracts: i64, price_micro: i64)
        requires
            old(self).wf(),
            0 < contracts,
            spec_abs(old(self).yes_position as int) + contracts <= POSITION_LIMIT,
            0 < price_micro < MICRO,
        ensures
            final(self).wf(),
            fill_applied(
                old(self),
                side,
                is_buy,
                contracts as int,
                price_micro as int,
                final(self),
            ),
    {
        let signed_contracts: i64 = match (side, is_buy) {
            (OrderSide::Yes, true) => contracts,
            (OrderSide::Yes, false) => -contracts,
            (OrderSide::No, true) => -contracts,
            (OrderSide::No, false) => contracts,
        };
        let pos_abs = if self.yes_position >= 0 {
            self.yes_position
        } else {
            -self.yes_position
        };
        proof {
            assert(contracts * price_micro <= 1_000_000 * 1_000_000) by (nonlinear_arith)
                requires
                    0 < contracts <= 1_000_000,
                    0 < price_micro <= 1_000_000,
            ;
            assert(contracts * price_micro > 0) by (nonlinear_arith)
                requires
                    contracts > 0,
                    price_micro > 0,
            ;
            assert(pos_abs * (MICRO as int) <= 1_000_000 * 1_000_000) by (nonlinear_arith)
                requires
                    0 <= pos_abs <= 1_000_000,
            ;
        }
        if (self.yes_position >= 0 && signed_contracts > 0) || (self.yes_position <= 0
            && signed_contracts < 0) {
            // Adding to the position (or opening from flat).
            let total = pos_abs + contracts;
            let new_cost = self.cost_basis + contracts * price_micro;
            proof {
                lemma_avg_in_range(
                    new_cost as int,
                    total as int,
                    pos_abs as int,
                    contracts as int,
                    price_micro as int,
                    self.cost_basis as int,
                );
            }
            self.avg_entry_price = new_cost / total;
            self.cost_basis = new_cost;
            self.yes_position = self.yes_position + signed_contracts;
        } else {
            // Reducing (or flipping) the position: realize profit and loss.
            let closed = if contracts <= pos_abs {
                contracts
            } else {
                pos_abs
            };
            proof {
                assert(closed * self.cost_basis <= 1_000_000 * (1_000_000 * 1_000_000))
                    by (nonlinear_arith)
                    requires
                        0 <= closed <= 1_000_000,
                        0 <= self.cost_basis <= 1_000_000 * 1_000_000,
                ;
                assert(closed * self.cost_basis >= 0) by (nonlinear_arith)
                    requires
                        closed >= 0,
                        self.cost_basis >= 0,
                ;
                assert(closed * price_micro <= 1_000_000 * 1_000_000) by (nonlinear_arith)
                    requires
                        0 <= closed <= 1_000_000,
                        0 < price_micro <= 1_000_000,
                ;
                assert(closed * price_micro >= 0) by (nonlinear_arith)
                    requires
                        closed >= 0,
                        price_micro >= 0,
                ;
                lemma_reduce_cost_bound(
                    pos_abs as int,
                    self.cost_basis as int,
                    closed as int,
                    MICRO as int,
                );
            }
            let returned = (closed * self.cost_basis) / pos_abs;
            let pnl = closed * price_micro - returned;
            let signed_pnl = if self.yes_position > 0 {
                pnl
            } else {
                -pnl
            };
            self.realized_pnl = match self.realized_pnl.checked_add(signed_pnl) {
                Some(x) => x,
                None => if signed_pnl > 0 {
                    i64::MAX
                } else {
                    i64::MIN
                },
            };
            self.cost_basis = self.cost_basis - returned;
            self.yes_position = self.yes_position + signed_contracts;
            proof {
                lemma_final_reduce_wf(
                    old(self).yes_position as int,
                    signed_contracts as int,
                    closed as int,
                    pos_abs as int,
                    self.cost_basis as int,
                );
            }
        }
    }

    /// How many contracts an order at `price_micro` may add before the
    /// worst-case loss would pass `max_loss_micro`: a closing sell is bounded
    /// only by the open position, an opening buy by the remaining loss
    /// budget divided by the price.
    pub fn max_contracts_to_add(
        &self,
        price_micro: i64,
        max_loss_micro: i64,
        side: OrderSide,
        is_buy: bool,
    ) -> (r: i64)
        requires
            self.wf(),
            0 <= max_loss_micro <= POSITION_LIMIT * MICRO,
        ensures
            r == spec_max_contracts_to_add(self, price_micro as int, max_loss_micro as int, side, is_buy),
    {
        proof {
            self.lemma_max_loss_nonneg();
            assert(spec_abs(self.yes_position as int) * (MICRO as int) <= 1_000_000 * 1_000_000)
                by (nonlinear_arith)
                requires
                    0 <= spec_abs(self.yes_position as int) <= 1_000_000,
            ;
        }
        let current_max_loss = self.max_loss();
        let remaining = if max_loss_micro >= current_max_loss {
            max_loss_micro - current_max_loss
        } else {
            0
        };
        if is_buy {
            if price_micro > 0 {
                proof {
                    assert(remaining / price_micro >= 0) by (nonlinear_arith)
                        requires
                            remaining >= 0,
                            price_micro > 0,
                    ;
                    assert(remaining / price_micro <= remaining) by (nonlinear_arith)
                        requires
                            remaining >= 0,
                            price_micro >= 1,
                    ;
                }
                remaining / price_micro
            } else {
                0
            }
        } else {
            if self.yes_position >= 0 {
                self.yes_position
            } else {
                -self.yes_position
            }
        }
    }
}

/// Contracts an order may add under the loss budget.
pub open spec fn spec_max_contracts_to_add(
    p: &PositionState,
    price: int,
    max_loss: int,
    side: OrderSide,
    is_buy: bool,
) -> int {
    let remaining = if max_loss >= spec_max_loss(p) {
        max_loss - spec_max_loss(p)
    } else {
        0
    };
    if is_buy {
        if price > 0 {
            remaining / price
        } else {
            0
        }
    } else {
        spec_abs(p.yes_position as int)
    }
}

/// Realized profit accumulates monotonically in realized segments: a fill
/// that adds to the position leaves it untouched, and a reducing fill moves
/// it by exactly the segment it closes — the closed contracts' proceeds
/// less their share of the basis, sign-corrected for shorts.
pub proof fn lemma_realized_pnl_accumulates(
    p0: &PositionState,
    side: OrderSide,
    is_buy: bool,
    contracts: int,
    price: int,
    p1: &PositionState,
)
    requires
        fill_applied(p0, side, is_buy, contracts, price, p1),
        contracts > 0,
    ensures
        ({
            let signed = spec_signed_contracts(side, is_buy, contracts);
            let pos = p0.yes_position as int;
            if (pos >= 0 && signed > 0) || (pos <= 0 && signed < 0) {
                p1.realized_pnl == p0.realized_pnl
            } else {
                let closed = if contracts <= spec_abs(pos) {
                    contracts
                } else {
                    spec_abs(pos)
                };
                let segment = closed * price - (closed * p0.cost_basis) / spec_abs(pos);
                p1.realized_pnl == spec_sat_add(
                    p0.realized_pnl,
                    (if pos > 0 {
                        segment
                    } else {
                        -segment
                    }) as i64,
                )
            }
        }),
{
}

/// After an add, the derived average entry lies between zero and one.
proof fn lemma_avg_in_range(new_cost: int, total: int, pos_abs: int, contracts: int, price: int, old_cost: int)
    requires
        total == pos_abs + contracts,
        pos_abs >= 0,
        contracts > 0,
        0 < price <= 1_000_000,
        0 <= old_cost <= pos_abs * 1_000_000,
        new_cost == old_cost + contracts * price,
    ensures
        0 <= new_cost / total <= 1_000_000,
        0 <= new_cost <= total * 1_000_000,
{
    assert(contracts * price <= contracts * 1_000_000) by (nonlinear_arith)
        requires
            contracts > 0,
            0 < price <= 1_000_000,
    ;
    assert(contracts * price > 0) by (nonlinear_arith)
        requires
            contracts > 0,
            price > 0,
    ;
    assert(pos_abs * 1_000_000 + contracts * 1_000_000 == total * 1_000_000) by (nonlinear_arith)
        requires
            total == pos_abs + contracts,
    ;
    assert(new_cost / total >= 0) by (nonlinear_arith)
        requires
            new_cost >= 0,
            total > 0,
    ;
    assert(new_cost / total <= 1_000_000) by (nonlinear_arith)
        requires
            0 <= new_cost <= total * 1_000_000,
            total > 0,
    ;
}

/// Reducing a position by `closed` contracts returns the closed share of
/// the basis: what remains is non-negative, still within one dollar per
/// remaining contract, and zero on a full close.
proof fn lemma_reduce_cost_bound(a: int, c: int, cl: int, m: int)
    requires
        a > 0,
        0 <= cl <= a,
        0 <= c <= a * m,
        m > 0,
    ensures
        0 <= (cl * c) / a <= c,
        cl == a ==> c - (cl * c) / a == 0,
        c - (cl * c) / a <= (a - cl) * m,
{
    assert((cl * c) / a >= 0) by (nonlinear_arith)
        requires
            cl >= 0,
            c >= 0,
            a > 0,
    ;
    assert(cl * c <= a * c) by (nonlinear_arith)
        requires
            0 <= cl <= a,
            c >= 0,
    ;
    assert((cl * c) / a <= c) by (nonlinear_arith)
        requires
            cl * c <= a * c,
            a > 0,
            cl * c >= 0,
    ;
    if cl == a {
        assert((a * c) / a == c) by (nonlinear_arith)
            requires
                a > 0,
        ;
    }
    // c - floor(cl*c/a) <= (a-cl)*m
    let r = (cl * c) / a;
    assert(a * r > cl * c - a) by (nonlinear_arith)
        requires
            a > 0,
            cl * c >= 0,
            r == (cl * c) / a,
    ;
    assert(a * (c - r) < c * (a - cl) + a) by (nonlinear_arith)
        requires
            a * r > cl * c - a,
    ;
    assert(c * (a - cl) <= (a * m) * (a - cl)) by (nonlinear_arith)
        requires
            0 <= c <= a * m,
            a - cl >= 0,
    ;
    assert(a * (c - r) < a * ((a - cl) * m) + a) by (nonlinear_arith)
        requires
            a * (c - r) < c * (a - cl) + a,
            c * (a - cl) <= (a * m) * (a - cl),
    ;
    assert(c - r <= (a - cl) * m) by (nonlinear_arith)
        requires
            a * (c - r) < a * ((a - cl) * m) + a,
            a > 0,
    ;
}

/// The reduced position stays well-formed.
proof fn lemma_final_reduce_wf(pos: int, signed: int, closed: int, pos_abs: int, new_cost: int)
    requires
        pos_abs == spec_abs(pos),
        closed == if spec_abs(signed) <= pos_abs {
            spec_abs(signed)
        } else {
            pos_abs
        },
        signed != 0,
        !((pos >= 0 && signed > 0) || (pos <= 0 && signed < 0)),
        spec_abs(pos) + spec_abs(signed) <= POSITION_LIMIT,
        0 <= new_cost <= (pos_abs - closed) * (MICRO as int),
    ensures
        new_cost <= spec_abs(pos + signed) * (MICRO as int),
{
    let na = spec_abs(pos + signed);
    assert(na >= pos_abs - closed);
    assert((pos_abs - closed) * (MICRO as int) <= na * (MICRO as int)) by (nonlinear_arith)
        requires
            0 <= pos_abs - closed <= na,
    ;
}

} // verus!
