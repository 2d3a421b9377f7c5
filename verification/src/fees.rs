//! Venue trading fees.
//!
//! A trade pays `contracts * price * (1 - price) * rate`, rounded up to the
//! next cent. Takers pay 7% on standard products and 3.5% on the
//! Nasdaq-100 index product; makers pay 1.75% only on markets that charge
//! maker fees. Prices are in micro units (millionths of a dollar) and the
//! returned fee is in whole cents.

use vstd::prelude::*;

use crate::MICRO;

verus! {

/// Product families with different fee schedules.
#[derive(Clone, Copy, PartialEq, Eq, Structural, Debug)]
pub enum ProductType {
    Standard,
    /// Nasdaq-100 index contracts carry reduced taker fees.
    IndexInxNasdaq100,
}

/// Fee rate in ten-thousandths: 700 is 7%, 350 is 3.5%, 175 is 1.75%.
pub open spec fn spec_fee_rate(
    is_taker: bool,
    maker_fee_market: bool,
    product_type: ProductType,
) -> int {
    if is_taker {
        match product_type {
            ProductType::Standard => 700,
            ProductType::IndexInxNasdaq100 => 350,
        }
    } else if maker_fee_market {
        175
    } else {
        0
    }
}

/// Ceiling division for a non-negative dividend and positive divisor.
pub open spec fn spec_ceil_div(a: int, b: int) -> int {
    (a + b - 1) / b
}

/// Fee in cents for a trade of `contracts` at `price` micro with the given
/// rate: `ceil(contracts * p * (1-p) * rate_fraction * 100)` over exact
/// integers, zero when there is nothing at risk or no rate applies.
pub open spec fn spec_fee_cents(price: int, contracts: int, rate: int) -> int {
    if contracts <= 0 || price <= 0 || price >= 1_000_000 || rate <= 0 {
        0
    } else {
        spec_ceil_div(contracts * price * (1_000_000 - price) * rate, 100_000_000_000_000)
    }
}

/// Calculate the venue fee in cents.
///
/// Prices outside `[0, 1]` are clamped as a price with no variance and give
/// no fee, as do non-positive contract counts.
pub fn calculate_fee(
    price_micro: i64,
    contracts: i64,
    is_taker: bool,
    maker_fee_market: bool,
    product_type: ProductType,
) -> (r: u64)
    ensures
        r == spec_fee_cents(
            price_micro as int,
            contracts as int,
            spec_fee_rate(is_taker, maker_fee_market, product_type),
        ),
{
    if contracts <= 0 {
        return 0;
    }
    if price_micro <= 0 || price_micro >= MICRO {
        return 0;
    }
    let rate: i64 = if is_taker {
        match product_type {
            ProductType::Standard => 700,
            ProductType::IndexInxNasdaq100 => 350,
        }
    } else if maker_fee_market {
        175
    } else {
        return 0;
    };
    let c = contracts as u128;
    let p = price_micro as u128;
    let q = (MICRO - price_micro) as u128;
    let rr = rate as u128;
    proof {
        assert(p + q == 1_000_000);
        assert(p * q <= 250_000_000_000) by (nonlinear_arith)
            requires
                p + q == 1_000_000,
                p >= 0,
                q >= 0,
        ;
        assert(c * (p * q) <= c * 250_000_000_000) by (nonlinear_arith)
            requires
                p * q <= 250_000_000_000,
                c >= 0,
        ;
        assert((c * (p * q)) * rr <= (c * 250_000_000_000) * 700) by (nonlinear_arith)
            requires
                c * (p * q) <= c * 250_000_000_000,
                0 <= rr <= 700,
                c * (p * q) >= 0,
                c * 250_000_000_000 >= 0,
        ;
        assert(c <= 0x7fff_ffff_ffff_ffff);
        assert((c * 250_000_000_000) * 700 <= 0x7fff_ffff_ffff_ffff * 250_000_000_000 * 700)
            by (nonlinear_arith)
            requires
                0 <= c <= 0x7fff_ffff_ffff_ffff,
        ;
        assert(c * p <= 0x7fff_ffff_ffff_ffff * 1_000_000) by (nonlinear_arith)
            requires
                0 <= c <= 0x7fff_ffff_ffff_ffff,
                0 <= p <= 1_000_000,
        ;
        assert(c * p * q == c * (p * q)) by (nonlinear_arith);
        assert(c * p * q * rr == (c * (p * q)) * rr) by (nonlinear_arith);
    }
    let num = c * p * q * rr;
    let fee128 = (num + (100_000_000_000_000 - 1)) / 100_000_000_000_000;
    proof {
        assert(num <= 0x7fff_ffff_ffff_ffff * 250_000_000_000 * 700);
        assert(fee128 <= (0x7fff_ffff_ffff_ffff * 250_000_000_000 * 700 + 100_000_000_000_000
            - 1) / 100_000_000_000_000);
        assert(fee128 <= u64::MAX);
    }
    fee128 as u64
}

/// The fee is symmetric in `price` and `1 - price`.
pub proof fn lemma_fee_symmetric(price: int, contracts: int, rate: int)
    requires
        0 <= price <= 1_000_000,
    ensures
        spec_fee_cents(price, contracts, rate) == spec_fee_cents(1_000_000 - price, contracts, rate),
{
    let p2 = 1_000_000 - price;
    if !(contracts <= 0 || price <= 0 || price >= 1_000_000 || rate <= 0) {
        assert(1_000_000 - p2 == price);
        assert(contracts * price * (1_000_000 - price) * rate == contracts * (1_000_000 - price)
            * price * rate) by (nonlinear_arith);
        assert(contracts * p2 * (1_000_000 - p2) * rate == contracts * (1_000_000 - price) * price
            * rate);
    }
}

/// The fee never exceeds two cents per contract, plus the rounding cent.
pub proof fn lemma_fee_cents_bound(price: int, contracts: int, rate: int)
    requires
        0 <= rate <= 700,
    ensures
        0 <= spec_fee_cents(price, contracts, rate),
        contracts >= 0 ==> spec_fee_cents(price, contracts, rate) <= 2 * contracts + 1,
{
    lemma_fee_nonneg(price, contracts, rate);
    if !(contracts <= 0 || price <= 0 || price >= 1_000_000 || rate <= 0) {
        let q = 1_000_000 - price;
        assert(price * q <= 250_000_000_000) by (nonlinear_arith)
            requires
                0 < price < 1_000_000,
                q == 1_000_000 - price,
        ;
        assert(contracts * price * q * rate <= contracts * 175_000_000_000_000) by (nonlinear_arith)
            requires
                0 <= price * q <= 250_000_000_000,
                0 < rate <= 700,
                contracts > 0,
                price > 0,
                q > 0,
        ;
        let num = contracts * price * q * rate;
        assert((num + 100_000_000_000_000 - 1) / 100_000_000_000_000 <= 2 * contracts + 1)
            by (nonlinear_arith)
            requires
                0 <= num <= contracts * 175_000_000_000_000,
                contracts > 0,
        ;
    }
}

/// The fee is never negative.
pub proof fn lemma_fee_nonneg(price: int, contracts: int, rate: int)
    ensures
        spec_fee_cents(price, contracts, rate) >= 0,
{
    if !(contracts <= 0 || price <= 0 || price >= 1_000_000 || rate <= 0) {
        assert(contracts * price * (1_000_000 - price) * rate >= 0) by (nonlinear_arith)
            requires
                contracts > 0,
                price > 0,
                price < 1_000_000,
                rate > 0,
        ;
        let num = contracts * price * (1_000_000 - price) * rate;
        assert((num + 100_000_000_000_000 - 1) / 100_000_000_000_000 >= 0) by (nonlinear_arith)
            requires
                num >= 0,
        ;
    }
}

} // verus!
