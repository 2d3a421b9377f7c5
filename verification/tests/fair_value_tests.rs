use kalshi_monitor::fair_value::binary_option_fair_value;
use kalshi_monitor::fair_value::fair_prob_micro;
use kalshi_monitor::fair_value::parse_btc_ticker;
use kalshi_monitor::fair_value::parse_kalshi_date;
use kalshi_monitor::fair_value::parse_kalshi_time;
use kalshi_monitor::fair_value::FairValueCalculator;
use kalshi_monitor::fair_value::MarketType;
use kalshi_monitor::fair_value::VolatilitySource;

#[test]
fn test_binary_fair_value_expired() {
    // Expired: worth everything in the money, nothing out of it.
    let fair_itm = binary_option_fair_value(100_000_000_000, 90_000, 0, true, 0);
    assert_eq!(fair_itm, 1_000_000);

    let fair_otm = binary_option_fair_value(100_000_000_000, 110_000, 0, true, 0);
    assert_eq!(fair_otm, 0);
}

#[test]
fn test_binary_fair_value_no_volatility() {
    // Without volatility the claim is deterministic.
    assert_eq!(binary_option_fair_value(100_000_000_000, 90_000, 3_600, false, 123), 1_000_000);
    assert_eq!(binary_option_fair_value(100_000_000_000, 110_000, 3_600, false, 123), 0);
}

#[test]
fn test_binary_fair_value_degenerate_prices() {
    // A zero strike or spot on a live market gives one half.
    assert_eq!(binary_option_fair_value(100_000_000_000, 0, 3_600, true, 123), 500_000);
    assert_eq!(binary_option_fair_value(0, 90_000, 3_600, true, 123), 500_000);
}

#[test]
fn test_binary_fair_value_live_uses_phi() {
    // On a live market the supplied normal value is the answer.
    assert_eq!(binary_option_fair_value(100_000_000_000, 90_000, 3_600, true, 876_543), 876_543);
}

#[test]
fn test_fair_prob_below_and_range() {
    // A below market is the complement.
    let below = fair_prob_micro(
        MarketType::Below,
        90_000,
        100_000_000_000,
        3_600,
        true,
        876_543,
        0,
        0,
    );
    assert_eq!(below, 1_000_000 - 876_543);

    // A range market subtracts the ceiling value from the floor value.
    let range = fair_prob_micro(
        MarketType::Range { floor: 90_000, ceiling: 110_000 },
        0,
        100_000_000_000,
        3_600,
        true,
        0,
        800_000,
        300_000,
    );
    assert_eq!(range, 500_000);

    // Inconsistent inputs clamp to zero rather than going negative.
    let clamped = fair_prob_micro(
        MarketType::Range { floor: 90_000, ceiling: 110_000 },
        0,
        100_000_000_000,
        3_600,
        true,
        0,
        200_000,
        300_000,
    );
    assert_eq!(clamped, 0);
}

#[test]
fn test_parse_kalshi_date() {
    let date = parse_kalshi_date("26FEB04").unwrap();
    assert_eq!(date.year(), 2026);
    assert_eq!(date.month(), 2);
    assert_eq!(date.day(), 4);
}

#[test]
fn test_parse_kalshi_time() {
    let time = parse_kalshi_time("1230").unwrap();
    assert_eq!(time.hour(), 12);
    assert_eq!(time.minute(), 30);
}

#[test]
fn test_parse_date_rejects_bad_input() {
    assert!(parse_kalshi_date("26XXX04").is_none());
    assert!(parse_kalshi_date("26FEB30").is_none()); // February has no 30th
    assert!(parse_kalshi_date("26FEB").is_none());
    assert!(parse_kalshi_time("99").is_none());
    assert!(parse_kalshi_time("2460").is_none()); // invalid hour
}

#[test]
fn test_parse_date_leap_year() {
    assert!(parse_kalshi_date("24FEB29").is_some()); // 2024 is a leap year
    assert!(parse_kalshi_date("26FEB29").is_none()); // 2026 is not
}

#[test]
fn test_parse_btc_ticker_above() {
    let spec = parse_btc_ticker("KXBTC-26FEB04-T1200-B97250").unwrap();
    assert_eq!(spec.ticker, "KXBTC-26FEB04-T1200-B97250");
    assert_eq!(spec.strike, 97_250);
    assert!(matches!(spec.market_type, MarketType::Above));
    // Noon Eastern on 2026-02-04 is 17:00 UTC under the fixed offset.
    assert_eq!(spec.expiry_epoch_s, 1_770_224_400);
}

#[test]
fn test_parse_btc_ticker_range() {
    let spec = parse_btc_ticker("KXBTC-26FEB04-T1200-B97250-97499").unwrap();
    assert_eq!(spec.strike, 97_250);
    match spec.market_type {
        MarketType::Range { floor, ceiling } => {
            assert_eq!(floor, 97_250);
            assert_eq!(ceiling, 97_499);
        },
        _ => panic!("expected a range market"),
    }
}

#[test]
fn test_parse_btc_ticker_simple() {
    // The simple form settles at 16:00 Eastern, 21:00 UTC.
    let spec = parse_btc_ticker("BTC-26FEB04-97250").unwrap();
    assert_eq!(spec.strike, 97_250);
    assert!(matches!(spec.market_type, MarketType::Above));
    assert_eq!(spec.expiry_epoch_s, 1_770_238_800);
}

#[test]
fn test_parse_btc_ticker_rejects_garbage() {
    assert!(parse_btc_ticker("SPX-26FEB04-5000").is_none());
    assert!(parse_btc_ticker("KXBTC-26FEB04").is_none());
    assert!(parse_btc_ticker("").is_none());
}

#[test]
fn test_fair_value_calculator_state() {
    let mut calc = FairValueCalculator::from_ticker("KXBTC-26FEB04-T1200-B97250").unwrap();
    assert_eq!(calc.market_spec.strike, 97_250);
    assert!(calc.fair_prob().is_none());

    calc.set_volatility(400_000);
    assert_eq!(calc.vol_source.get_vol(), 400_000);

    // Live market: the supplied normal value comes back and is recorded.
    let fair = calc.calculate_with_phi(97_000_000_000, 3_600, 444_000, 0, 0);
    assert_eq!(fair, 444_000);
    assert_eq!(calc.fair_prob(), Some(444_000));
    assert_eq!(calc.fair_prob_no(), Some(556_000));
    assert_eq!(calc.last_spot, Some(97_000_000_000));

    // Expired market: intrinsic value, ignoring the normal inputs.
    let fair = calc.calculate_with_phi(97_500_000_000, 0, 444_000, 0, 0);
    assert_eq!(fair, 1_000_000);
}

#[test]
fn test_volatility_source() {
    assert_eq!(VolatilitySource::Constant(250_000).get_vol(), 250_000);
    let hist = VolatilitySource::Historical { window_hours: 24, value: 300_000 };
    assert_eq!(hist.get_vol(), 300_000);
    let default_vol: VolatilitySource = Default::default();
    assert_eq!(default_vol.get_vol(), 500_000);
}

#[test]
fn test_market_spec_expiry() {
    let spec = parse_btc_ticker("KXBTC-26FEB04-T1200-B97250").unwrap();
    assert!(!spec.is_expired(1_770_224_399));
    assert!(spec.is_expired(1_770_224_400));
    assert_eq!(spec.seconds_to_expiry(1_770_224_000), 400);
}
