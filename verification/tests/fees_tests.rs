use kalshi_monitor::fees::calculate_fee;
use kalshi_monitor::fees::ProductType;

#[test]
fn test_fee_standard_taker() {
    // price 0.58, one contract, taker, standard: raw 0.017052 rounds up to 2 cents.
    let fee = calculate_fee(580_000, 1, true, false, ProductType::Standard);
    assert_eq!(fee, 2);
}

#[test]
fn test_fee_zero_contracts() {
    let fee = calculate_fee(580_000, 0, true, false, ProductType::Standard);
    assert_eq!(fee, 0);
}

#[test]
fn test_fee_boundary_prices() {
    assert_eq!(calculate_fee(1_000_000, 1, true, false, ProductType::Standard), 0);
    assert_eq!(calculate_fee(0, 1, true, false, ProductType::Standard), 0);
    assert_eq!(calculate_fee(-5, 10, true, false, ProductType::Standard), 0);
    assert_eq!(calculate_fee(2_000_000, 10, true, false, ProductType::Standard), 0);
}

#[test]
fn test_fee_maker() {
    // Makers pay nothing unless the market charges maker fees.
    assert_eq!(calculate_fee(500_000, 100, false, false, ProductType::Standard), 0);
    // With maker fees: 100 * 0.5 * 0.5 * 0.0175 = 0.4375 dollars -> 44 cents.
    assert_eq!(calculate_fee(500_000, 100, false, true, ProductType::Standard), 44);
}

#[test]
fn test_fee_index_product() {
    // 100 * 0.5 * 0.5 * 0.035 = 0.875 dollars -> 88 cents.
    assert_eq!(calculate_fee(500_000, 100, true, false, ProductType::IndexInxNasdaq100), 88);
    // Standard rate doubles it: 1.75 dollars -> 175 cents.
    assert_eq!(calculate_fee(500_000, 100, true, false, ProductType::Standard), 175);
}

#[test]
fn test_fee_symmetric_in_price() {
    for c in [1i64, 3, 100] {
        let a = calculate_fee(580_000, c, true, false, ProductType::Standard);
        let b = calculate_fee(420_000, c, true, false, ProductType::Standard);
        assert_eq!(a, b);
    }
    let a = calculate_fee(990_000, 7, false, true, ProductType::Standard);
    let b = calculate_fee(10_000, 7, false, true, ProductType::Standard);
    assert_eq!(a, b);
}

#[test]
fn test_fee_rounds_up_to_cent() {
    // 1 * 0.5 * 0.5 * 0.07 = 0.0175 dollars -> 2 cents, not 1.75.
    assert_eq!(calculate_fee(500_000, 1, true, false, ProductType::Standard), 2);
}
