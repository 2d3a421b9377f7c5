use kalshi_monitor::text::parse_decimal_micro;
use kalshi_monitor::text::parse_u64;
use kalshi_monitor::text::split_char;
use kalshi_monitor::text::str_eq;
use kalshi_monitor::text::u64_string;

#[test]
fn test_parse_decimal_micro() {
    assert_eq!(parse_decimal_micro("109250.51"), Some(109_250_510_000));
    assert_eq!(parse_decimal_micro("0.5"), Some(500_000));
    assert_eq!(parse_decimal_micro("100000"), Some(100_000_000_000));
    assert_eq!(parse_decimal_micro("100000."), Some(100_000_000_000));
    // Digits beyond the sixth fractional place are dropped.
    assert_eq!(parse_decimal_micro("1.2345678"), Some(1_234_567));
    assert_eq!(parse_decimal_micro("0.000001"), Some(1));
}

#[test]
fn test_parse_decimal_micro_rejects() {
    assert!(parse_decimal_micro("").is_none());
    assert!(parse_decimal_micro("abc").is_none());
    assert!(parse_decimal_micro(".5").is_none());
    assert!(parse_decimal_micro("1.2.3").is_none());
    assert!(parse_decimal_micro("1,5").is_none());
    assert!(parse_decimal_micro("1.2a").is_none());
    assert!(parse_decimal_micro("-1.5").is_none());
}

#[test]
fn test_parse_u64() {
    assert_eq!(parse_u64("0"), Some(0));
    assert_eq!(parse_u64("97250"), Some(97_250));
    assert_eq!(parse_u64("18446744073709551615"), Some(u64::MAX));
    assert!(parse_u64("18446744073709551616").is_none());
    assert!(parse_u64("").is_none());
    assert!(parse_u64("12x").is_none());
}

#[test]
fn test_u64_string() {
    assert_eq!(u64_string(0), "0");
    assert_eq!(u64_string(7), "7");
    assert_eq!(u64_string(1_234_567_890_123), "1234567890123");
    assert_eq!(u64_string(u64::MAX), "18446744073709551615");
}

#[test]
fn test_split_char() {
    let parts = split_char("KXBTC-26FEB04-T1200-B97250", '-');
    assert_eq!(parts, vec!["KXBTC", "26FEB04", "T1200", "B97250"]);

    assert_eq!(split_char("", '-'), vec![""]);
    assert_eq!(split_char("a--b", '-'), vec!["a", "", "b"]);
    assert_eq!(split_char("abc", '-'), vec!["abc"]);
    assert_eq!(split_char("abc-", '-'), vec!["abc", ""]);
}

#[test]
fn test_str_eq() {
    assert!(str_eq("yes", "yes"));
    assert!(!str_eq("yes", "no"));
    assert!(!str_eq("yes", "yes "));
    assert!(str_eq("", ""));
}
