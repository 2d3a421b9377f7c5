//! Verified core of a market maker for binary (YES/NO) prediction-market
//! contracts: orderbook state machine, multi-venue price aggregation,
//! fee and edge calculation, position accounting, and signal generation.
//!
//! Prices and probabilities are held in fixed-point integers: one "micro"
//! is 1/1_000_000 of a dollar (or of probability 1), and venue contract
//! prices are integer cents.

pub mod aggregator;
pub mod auth;
pub mod calculator;
pub mod edge;
pub mod fair_value;
pub mod fees;
pub mod market_maker;
pub mod orderbook;
pub mod orders;
pub mod position;
pub mod text;
pub mod venues;

use vstd::prelude::*;

verus! {

/// One micro is 1/1_000_000 of a dollar (or of probability 1.0).
pub const MICRO: i64 = 1_000_000;

/// Saturating signed addition: the sum clamped to the `i64` range.
pub open spec fn spec_sat_add(a: i64, b: i64) -> i64 {
    if a + b > i64::MAX {
        i64::MAX
    } else if a + b < i64::MIN {
        i64::MIN
    } else {
        (a + b) as i64
    }
}

/// Absolute value of a mathematical integer.
pub open spec fn spec_abs(x: int) -> int {
    if x >= 0 {
        x
    } else {
        -x
    }
}

} // verus!
